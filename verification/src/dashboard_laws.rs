//! What the program does for its user: what a key leads to, from the key to the
//! work that is handed out, and from the outcome of the work to the screen.
use vstd::prelude::*;

use crate::browse::{FileDialogStage, FileDialogView, FileFacts};
use crate::chat::ChatStreamEvent;
use crate::chat_keys::{ChatDoView, OutgoingView};
use crate::dashboard::{
    ChoreView, DashboardAction, DashboardModel, DashboardView, Facts, ShellView, UpdateView,
};
use crate::dashboard_tick::{DeletionOutcome, JobOutcome, News, RecordingOutcome};
use crate::jobs::PendingView;
use crate::keys::Key;
use crate::onboarding::TickResultView;
use crate::recording::{RecordingInfoView, RecordingKind, RecordingPhase};
use crate::recordings::{with_id, RecordingView};
use crate::settings::What;
use crate::text::trimmed;
use crate::transcript::TranscriptRow;

verus! {

/// The work that was added.
pub open spec fn handed_out(m: DashboardModel, next: DashboardModel) -> Seq<ChoreView> {
    next.chores.subrange(m.chores.len() as int, next.chores.len() as int)
}

/// Nothing lies over the screens, and nothing runs that a key would stop.
pub open spec fn calm(m: DashboardModel) -> bool {
    &&& !m.capture.playing
    &&& !m.capture.recording
    &&& m.shell.owl_frame is None
    &&& m.shell.current_view == DashboardView::Main || m.shell.current_view
        == DashboardView::Browse
    &&& !m.import.shown
    &&& m.update.available is None
    &&& !m.shell.show_message
    &&& !m.list.search_mode
    &&& !m.shell.show_help
    &&& !m.transcript.shown
    &&& !m.deletion.show_delete_confirm
}

// ─── Recording ───────────────────────────────────────────────────────────────

/// A recording that is started stops by itself exactly as it was configured:
/// after the configured seconds of silence where that is switched on, and
/// never where it is off.
pub proof fn recordings_stop_by_themselves_as_configured(m: DashboardModel)
    requires
        !m.capture.recording,
    ensures
        handed_out(m, m.recording_wanted()).len() == 1,
        handed_out(m, m.recording_wanted())[0] matches ChoreView::StartRecording { silence_timeout }
            && {
            &&& !m.settings.config.silence_auto_stop.enabled ==> silence_timeout is None
            &&& m.settings.config.silence_auto_stop.enabled ==> silence_timeout == Some(
                m.settings.config.silence_auto_stop.timeout_seconds,
            )
        },
        m.recording_wanted().capture.mode is Some,
{
}

/// Ctrl+R starts a recording where nothing is recorded, as it was configured;
/// it stops the one that the user made, or that of a meeting, and waits where a
/// meeting is being processed.
pub proof fn ctrl_r_starts_and_stops(m: DashboardModel, info: Option<RecordingInfoView>)
    ensures
        ({
            let next = m.acting_on(DashboardAction::ToggleRecording, info, false);
            let meeting = info matches Some(i) && i.kind == RecordingKind::Meeting;
            let running = info matches Some(i) && i.phase == RecordingPhase::Recording;
            let stop = m.settings.config.silence_auto_stop;
            &&& !m.capture.recording && !meeting ==> handed_out(m, next).len() == 1 && (handed_out(
                m,
                next,
            )[0] matches ChoreView::StartRecording { silence_timeout } && (silence_timeout is Some
                <==> stop.enabled) && (silence_timeout matches Some(t) ==> t
                == stop.timeout_seconds))
            &&& m.capture.recording && !m.capture.stop_sent ==> handed_out(m, next) == seq![
                ChoreView::StopRecording,
            ] && next.capture.stop_sent
            &&& m.capture.recording && m.capture.stop_sent ==> next == m
            &&& !m.capture.recording && meeting && running ==> handed_out(m, next) == seq![
                ChoreView::StopMeeting,
            ] && next.shell.notification is Some
            &&& !m.capture.recording && meeting && !running ==> handed_out(m, next).len() == 0
                && next.shell.notification is Some
        }),
{
    let next = m.acting_on(DashboardAction::ToggleRecording, info, false);
    let none: Seq<ChoreView> = Seq::empty();
    if next.chores.len() > m.chores.len() {
        assert(handed_out(m, next) =~= seq![next.chores.last()]);
    } else {
        assert(handed_out(m, next) =~= none);
    }
}

/// Ctrl+R is heard on the main screen and in the list, whatever is typed.
pub proof fn ctrl_r_is_heard(m: DashboardModel, facts: Facts)
    requires
        calm(m),
    ensures
        m.pressing(Key::Char('r'), true, facts).1 == DashboardAction::ToggleRecording,
        m.pressing(Key::Char('r'), true, facts).0.chores == m.chores,
        m.pressing(Key::Char('r'), true, facts).0.capture == m.capture,
        m.pressing(Key::Char('r'), true, facts).0.settings == m.settings,
{
    reveal(DashboardModel::interrupting);
    reveal(DashboardModel::banner_key);
    reveal(DashboardModel::message_key);
    reveal(DashboardModel::overlay_key);
    reveal(DashboardModel::screen_key);
    reveal(DashboardModel::transcript_key);
    reveal(DashboardModel::confirm_key);
    reveal(DashboardModel::shortcut_key);
}

/// A recording that has ended is idle, the lists are read anew, and it is
/// transcribed under its name, in the mode of the configuration, at once where
/// nothing else is.
pub proof fn a_recording_is_transcribed_at_once(
    m: DashboardModel,
    name: String,
    auto_stopped: bool,
)
    requires
        m.capture.mode is Some,
        m.jobs.active is None,
        m.jobs.queue.len() == 0,
    ensures
        ({
            let next = m.recorded(RecordingOutcome::Done { recording_name: name, auto_stopped });
            let out = handed_out(m, next);
            &&& !next.capture.recording
            &&& !next.capture.stop_sent
            &&& out.contains(ChoreView::RefreshRecordings)
            &&& out.contains(ChoreView::RefreshStats)
            &&& out.contains(
                ChoreView::StartTranscription(
                    PendingView::Retranscribe {
                        recording_name: name@,
                        transcription_mode: m.settings.config.transcription,
                    },
                ),
            )
            &&& next.jobs.active == Some(name@)
            &&& auto_stopped ==> next.shell.notification is Some
        }),
{
    let next = m.recorded(RecordingOutcome::Done { recording_name: name, auto_stopped });
    let out = handed_out(m, next);
    assert(out[0] == ChoreView::RefreshRecordings);
    assert(out[1] == ChoreView::RefreshStats);
    assert(out[2] is StartTranscription);
}

/// A recording that failed is idle too; the user is told why, and nothing is
/// transcribed.
pub proof fn failed_recordings_are_told(m: DashboardModel, e: String)
    ensures
        ({
            let next = m.recorded(RecordingOutcome::Failed(e));
            &&& !next.capture.recording
            &&& next.shell.show_message
            &&& next.shell.message == "Recording failed: "@ + e@
            &&& next.chores == m.chores
            &&& next.jobs == m.jobs
            &&& m.recorded(RecordingOutcome::Crashed).shell.show_message
            &&& !m.recorded(RecordingOutcome::Crashed).capture.recording
        }),
{
}

// ─── Transcribing ────────────────────────────────────────────────────────────

/// What is asked for is transcribed at once where nothing is, and waits behind
/// what was asked for before where something is.
pub proof fn transcriptions_take_their_turn(m: DashboardModel, p: PendingView)
    requires
        !m.jobs.busy_with(p.name()),
    ensures
        m.jobs.active is None && m.jobs.queue.len() == 0 ==> handed_out(m, m.enqueuing(p)) == seq![
            ChoreView::StartTranscription(p),
        ] && m.enqueuing(p).jobs.active == Some(p.name()),
        m.jobs.active is Some ==> m.enqueuing(p).chores == m.chores && m.enqueuing(p).jobs.queue
            == m.jobs.queue.push(p) && m.enqueuing(p).jobs.active == m.jobs.active,
{
    if m.jobs.active is None && m.jobs.queue.len() == 0 {
        assert(m.jobs.queue.push(p)[0] == p);
        assert(handed_out(m, m.enqueuing(p)) =~= seq![ChoreView::StartTranscription(p)]);
    }
}

/// What is being transcribed, or waits for it, is not asked for twice.
pub proof fn nothing_is_asked_for_twice(m: DashboardModel, p: PendingView)
    requires
        m.jobs.busy_with(p.name()),
    ensures
        m.enqueuing(p) == m,
{
}

/// When a transcription has ended the oldest that waits begins, the user is
/// told of the one that ended, by its name, and of what went wrong; the lists
/// are read anew where it went well.
pub proof fn the_next_transcription_begins(m: DashboardModel, name: Seq<char>, e: String)
    requires
        m.jobs.active == Some(name),
    ensures
        ({
            let done = m.transcribed(JobOutcome::Done);
            let failed = m.transcribed(JobOutcome::Failed(e));
            &&& done.shell.notification matches Some((msg, _)) && msg
                == "Transcription complete: "@ + name
            &&& failed.shell.notification matches Some((msg, _)) && msg == "Transcription failed ("@
                + name + "): "@ + e@
            &&& handed_out(m, done).contains(ChoreView::RefreshRecordings)
            &&& handed_out(m, done).contains(ChoreView::RefreshStats)
            &&& m.jobs.queue.len() > 0 ==> {
                &&& handed_out(m, done).contains(ChoreView::StartTranscription(m.jobs.queue[0]))
                &&& handed_out(m, failed).contains(ChoreView::StartTranscription(m.jobs.queue[0]))
                &&& done.jobs.active == Some(m.jobs.queue[0].name())
                &&& done.jobs.queue == m.jobs.queue.subrange(1, m.jobs.queue.len() as int)
            }
            &&& m.jobs.queue.len() == 0 ==> done.jobs.active is None && failed.jobs.active is None
        }),
{
    let done = m.transcribed(JobOutcome::Done);
    let failed = m.transcribed(JobOutcome::Failed(e));
    assert(handed_out(m, done)[0] == ChoreView::RefreshRecordings);
    assert(handed_out(m, done)[1] == ChoreView::RefreshStats);
    if m.jobs.queue.len() > 0 {
        assert(handed_out(m, done)[2] == ChoreView::StartTranscription(m.jobs.queue[0]));
        assert(handed_out(m, failed)[0] == ChoreView::StartTranscription(m.jobs.queue[0]));
    }
}

/// `t` in the list transcribes the recording under the cursor, and no other,
/// in the mode of the configuration.
pub proof fn the_recording_under_the_cursor_is_transcribed(m: DashboardModel, i: usize)
    requires
        m.list.selected == Some(i),
        i < m.list.recordings.len(),
        m.jobs.active is None,
        m.jobs.queue.len() == 0,
    ensures
        ({
            let next = m.acting_on(DashboardAction::TranscribeSelected, None, false);
            &&& handed_out(m, next) == seq![
                ChoreView::StartTranscription(
                    PendingView::Retranscribe {
                        recording_name: m.list.recordings[i as int].directory_name,
                        transcription_mode: m.settings.config.transcription,
                    },
                ),
            ]
        }),
        m.browse_key(Key::Char('t')).1 == DashboardAction::TranscribeSelected,
        m.browse_key(Key::Char('T')).1 == DashboardAction::TranscribeSelected,
{
    reveal(DashboardModel::browse_key);
    let next = m.acting_on(DashboardAction::TranscribeSelected, None, false);
    let p = PendingView::Retranscribe {
        recording_name: m.list.recordings[i as int].directory_name,
        transcription_mode: m.settings.config.transcription,
    };
    assert(m.jobs.queue.push(p)[0] == p);
    assert(handed_out(m, next) =~= seq![ChoreView::StartTranscription(p)]);
}

/// A transcript is not overwritten without a warning: the first request only
/// warns, and the next for the same recording goes through.
pub proof fn overwriting_is_warned_of(m: DashboardModel, i: usize)
    requires
        m.list.selected == Some(i),
        i < m.list.recordings.len(),
        m.jobs.active is None,
        m.capture.last_transcribe_warning != Some(i),
    ensures
        ({
            let warned = m.acting_on(DashboardAction::TranscribeSelected, None, true);
            let done = warned.acting_on(DashboardAction::TranscribeSelected, None, true);
            &&& warned.chores == m.chores
            &&& warned.jobs == m.jobs
            &&& warned.shell.show_message
            &&& m.jobs.queue.len() == 0 ==> done.jobs.active == Some(
                m.list.recordings[i as int].directory_name,
            )
        }),
{
    let p = PendingView::Retranscribe {
        recording_name: m.list.recordings[i as int].directory_name,
        transcription_mode: m.settings.config.transcription,
    };
    assert(m.jobs.queue.push(p)[0].name() == p.name() || m.jobs.queue.len() > 0);
}

// ─── The list ────────────────────────────────────────────────────────────────

/// Enter in the list opens the transcript of the recording under the cursor; a
/// recording without one is told of.
pub proof fn enter_opens_the_transcript(m: DashboardModel, r: RecordingView)
    requires
        m.list.current() == Some(r),
    ensures
        r.has_transcript ==> handed_out(m, m.browse_key(Key::Enter).0) == seq![
            ChoreView::LoadTranscript { recording: r, reports_failure: true },
        ],
        !r.has_transcript ==> m.browse_key(Key::Enter).0.chores == m.chores && m.browse_key(
            Key::Enter,
        ).0.shell.show_message,
{
    reveal(DashboardModel::browse_key);
    if r.has_transcript {
        assert(handed_out(m, m.browse_key(Key::Enter).0) =~= seq![
            ChoreView::LoadTranscript { recording: r, reports_failure: true },
        ]);
    }
}

/// `p` plays the recording under the cursor; Esc stops it again.
pub proof fn p_plays_the_recording(m: DashboardModel, r: RecordingView, msg: String, facts: Facts)
    requires
        m.list.current() == Some(r),
    ensures
        handed_out(m, m.browse_key(Key::Char('p')).0) == seq![ChoreView::Play(r)],
        m.browse_key(Key::Char('P')) == m.browse_key(Key::Char('p')),
        ({
            let playing = m.playback_began(Ok(msg));
            let stopped = playing.pressing(Key::Esc, false, facts).0;
            &&& playing.capture.playing
            &&& playing.shell.show_message && playing.shell.message == msg@
            &&& !stopped.capture.playing
            &&& !stopped.shell.show_message
            &&& handed_out(playing, stopped) == seq![ChoreView::StopPlayback]
        }),
        m.playback_began(Err(msg)).shell.message == "Failed to play recording: "@ + msg@,
        m.playback_began(Err(msg)).capture.playing == m.capture.playing,
{
    reveal(DashboardModel::browse_key);
    reveal(DashboardModel::interrupting);
    assert(handed_out(m, m.browse_key(Key::Char('p')).0) =~= seq![ChoreView::Play(r)]);
    let playing = m.playback_began(Ok(msg));
    let stopped = playing.pressing(Key::Esc, false, facts).0;
    assert(handed_out(playing, stopped) =~= seq![ChoreView::StopPlayback]);
}

/// What is deleted is the recording under the cursor at the time of the
/// question, once "Yes" was chosen; nothing else deletes a recording.
pub proof fn the_recording_under_the_cursor_is_deleted(m: DashboardModel, r: RecordingView)
    requires
        m.list.current() == Some(r),
    ensures
        ({
            let asked = m.browse_key(Key::Char('d')).0;
            let yes = asked.confirm_key(Key::Up).0.confirm_key(Key::Enter).0;
            &&& asked == m.browse_key(Key::Delete).0
            &&& asked.deletion.show_delete_confirm
            &&& asked.chores == m.chores
            &&& handed_out(m, yes) == seq![ChoreView::Delete(r)]
            &&& !yes.deletion.show_delete_confirm
            &&& asked.confirm_key(Key::Enter).0.chores == m.chores
            &&& asked.confirm_key(Key::Esc).0.chores == m.chores
            &&& !asked.confirm_key(Key::Esc).0.deletion.show_delete_confirm
        }),
{
    reveal(DashboardModel::browse_key);
    reveal(DashboardModel::confirm_key);
    let asked = m.browse_key(Key::Char('d')).0;
    let yes = asked.confirm_key(Key::Up).0.confirm_key(Key::Enter).0;
    assert(handed_out(m, yes) =~= seq![ChoreView::Delete(r)]);
}

/// The user is told what came of a deletion.
pub proof fn deletions_are_told(m: DashboardModel, id: i64, why: String)
    ensures
        m.deleted(Some(id), DeletionOutcome::Done { files_left: None }).shell.message
            == "Recording deleted."@,
        m.deleted(Some(id), DeletionOutcome::Done { files_left: None }).shell.show_message,
        m.deleted(Some(id), DeletionOutcome::Done { files_left: Some(why) }).shell.notification
            is Some,
        m.deleted(Some(id), DeletionOutcome::Failed { files_left: None, reason: why }).shell.message
            == "Failed to delete recording: "@ + why@,
        m.deleted(Some(id), DeletionOutcome::Refused).shell.show_message,
        m.deleted(None, DeletionOutcome::Done { files_left: None }).shell.message
            != "Recording deleted."@,
{
    reveal_strlit("Recording deleted.");
    reveal_strlit("Failed to delete recording: ");
    let told = m.deleted(None, DeletionOutcome::Done { files_left: None }).shell.message;
    assert(told[0] == "Failed to delete recording: "@[0]);
    assert("Recording deleted."@[0] == 'R');
}

/// A search finds what was typed: `/` begins with nothing, characters are
/// added, Enter loads what is found, and Esc loads everything again.
pub proof fn searches_are_typed_and_loaded(m: DashboardModel, c: char)
    ensures
        ({
            let begun = m.browse_key(Key::Char('/')).0;
            &&& begun.list.search_mode
            &&& begun.list.search_query.len() == 0
            &&& begun.chores == m.chores
        }),
        m.list.search_mode ==> {
            let typed = m.overlay_key(Key::Char(c)).0;
            let found = m.overlay_key(Key::Enter).0;
            let left = m.overlay_key(Key::Esc).0;
            &&& typed.list.search_query == m.list.search_query.push(c)
            &&& typed.list.search_mode && typed.chores == m.chores
            &&& typed.overlay_key(Key::Backspace).0.list.search_query == m.list.search_query
            &&& found.list.search_query == m.list.search_query
            &&& !found.list.search_mode
            &&& handed_out(m, found) == seq![ChoreView::LoadRecordings]
            &&& left.list.search_query.len() == 0
            &&& !left.list.search_mode
            &&& handed_out(m, left) == seq![ChoreView::LoadRecordings]
        },
{
    reveal(DashboardModel::browse_key);
    reveal(DashboardModel::overlay_key);
    if m.list.search_mode {
        assert(m.list.search_query.push(c).drop_last() =~= m.list.search_query);
        assert(handed_out(m, m.overlay_key(Key::Enter).0) =~= seq![ChoreView::LoadRecordings]);
        assert(handed_out(m, m.overlay_key(Key::Esc).0) =~= seq![ChoreView::LoadRecordings]);
    }
}

/// In the list Down goes to the recording below and Up to the one above.
pub proof fn arrows_go_to_the_neighbours(m: DashboardModel, i: usize)
    requires
        m.list.selected == Some(i),
        i < m.list.recordings.len() <= usize::MAX,
    ensures
        i + 1 < m.list.recordings.len() ==> m.browse_key(Key::Down).0.list.selected == Some(
            (i + 1) as usize,
        ),
        i > 0 ==> m.browse_key(Key::Up).0.list.selected == Some((i - 1) as usize),
        m.browse_key(Key::Down).0.list.recordings == m.list.recordings,
{
    reveal(DashboardModel::browse_key);
}

/// The pages are turned by one, and loaded; there is none before the first.
pub proof fn pages_are_turned_by_one(m: DashboardModel)
    requires
        m.list.current_page < usize::MAX,
    ensures
        m.browse_key(Key::Char(']')).0.list.current_page == m.list.current_page + 1,
        m.browse_key(Key::PageDown) == m.browse_key(Key::Char(']')),
        handed_out(m, m.browse_key(Key::Char(']')).0) == seq![ChoreView::LoadRecordings],
        m.list.current_page > 0 ==> m.browse_key(Key::Char('[')).0.list.current_page
            == m.list.current_page - 1 && handed_out(m, m.browse_key(Key::Char('[')).0) == seq![
            ChoreView::LoadRecordings,
        ],
        m.list.current_page == 0 ==> m.browse_key(Key::Char('[')).0 == m,
        m.browse_key(Key::PageUp) == m.browse_key(Key::Char('[')),
{
    reveal(DashboardModel::browse_key);
    assert(handed_out(m, m.browse_key(Key::Char(']')).0) =~= seq![ChoreView::LoadRecordings]);
    if m.list.current_page > 0 {
        assert(handed_out(m, m.browse_key(Key::Char('[')).0) =~= seq![ChoreView::LoadRecordings]);
    }
}

/// Tab and Esc lead from the list to the main screen, and Tab back.
pub proof fn tab_changes_the_screen(m: DashboardModel, facts: Facts)
    ensures
        m.browse_key(Key::Tab).0.shell.current_view == DashboardView::Main,
        m.browse_key(Key::Esc).0.shell.current_view == DashboardView::Main,
        m.browse_key(Key::Tab).0.chat.talk == m.chat.talk,
        m.shell.current_view == DashboardView::Main ==> m.main_key(
            Key::Tab,
            facts.today as int,
        ).shell.current_view == DashboardView::Browse,
{
    reveal(DashboardModel::browse_key);
    reveal(DashboardModel::main_key);
    reveal(DashboardModel::chatted);
}

// ─── Importing ───────────────────────────────────────────────────────────────

/// What is imported is the file whose path was typed, under the name that was
/// typed, or else the name of the file, and it is transcribed.
pub proof fn the_named_file_is_imported(m: DashboardModel, facts: FileFacts)
    requires
        m.import.stage == FileDialogStage::FileName,
        m.jobs.active is None,
        m.jobs.queue.len() == 0,
    ensures
        ({
            let next = m.dialog_key(Key::Enter, facts).0;
            &&& handed_out(m, next).len() == 1
            &&& handed_out(m, next)[0] matches ChoreView::StartTranscription(
                PendingView::Import { source_path, display_name, transcription_mode },
            ) && source_path == trimmed(m.import.path_input) && (trimmed(m.import.name_input).len()
                > 0 ==> display_name == trimmed(m.import.name_input)) && (trimmed(
                m.import.name_input,
            ).len() == 0 ==> (facts.stem matches Some(s) ==> display_name == s@))
                && transcription_mode == m.settings.config.transcription
            &&& !next.import.shown
        }),
{
    reveal(DashboardModel::dialog_key);
    let next = m.dialog_key(Key::Enter, facts).0;
    let (_, outcome) = m.import.pressing(Key::Enter, facts);
    assert(outcome is Import);
    let p = PendingView::Import {
        source_path: outcome->path,
        display_name: outcome->name,
        transcription_mode: m.settings.config.transcription,
    };
    assert(m.jobs.queue.push(p)[0] == p);
    assert(handed_out(m, next) =~= seq![ChoreView::StartTranscription(p)]);
}

/// Only a file that is there goes on to its name, which is preset with the name
/// of the file; else the user is told what is wrong, and nothing is imported.
pub proof fn a_path_has_to_exist(d: FileDialogView, facts: FileFacts)
    requires
        d.stage == FileDialogStage::FilePath,
    ensures
        ({
            let (next, outcome) = d.pressing(Key::Enter, facts);
            let good = trimmed(d.path_input).len() > 0 && facts.exists;
            &&& good ==> next.stage == FileDialogStage::FileName && next.shown == d.shown
                && next.path_input == d.path_input && (facts.stem matches Some(s)
                ==> next.name_input == s@) && outcome is Stay
            &&& !good ==> next == d && outcome is Note
        }),
{
}

/// The dialog types into the field that it asks for, and Esc closes it.
pub proof fn the_dialog_types_into_its_field(d: FileDialogView, c: char, facts: FileFacts)
    ensures
        d.stage == FileDialogStage::FilePath ==> d.pressing(Key::Char(c), facts).0 == (
        FileDialogView { path_input: d.path_input.push(c), ..d }),
        d.stage == FileDialogStage::FileName ==> d.pressing(Key::Char(c), facts).0 == (
        FileDialogView { name_input: d.name_input.push(c), ..d }),
        d.pressing(Key::Char(c), facts).0.pressing(Key::Backspace, facts).0 == d,
        !d.pressing(Key::Esc, facts).0.shown,
        d.pressing(Key::Esc, facts).1 is Stay,
        d.pressing(Key::Char(c), facts).1 is Stay,
{
    assert(d.path_input.push(c).drop_last() =~= d.path_input);
    assert(d.name_input.push(c).drop_last() =~= d.name_input);
}

/// `a` in the list opens the dialog with empty fields, unless a recording is
/// going on.
pub proof fn a_opens_the_dialog(m: DashboardModel)
    ensures
        ({
            let next = m.browse_key(Key::Char('a')).0;
            &&& m.browse_key(Key::Char('A')).0 == next
            &&& !m.capture.recording ==> next.import.shown && next.import.path_input.len() == 0
                && next.import.name_input.len() == 0 && next.import.stage
                == FileDialogStage::FilePath
            &&& m.capture.recording ==> next.import == m.import && next.shell.show_message
        }),
{
    reveal(DashboardModel::browse_key);
}

// ─── The transcript ──────────────────────────────────────────────────────────

/// A transcript that was read is shown, the chat is about its recording, and
/// the conversation so far is put aside; what could not be read is told where
/// that was asked for.
pub proof fn the_transcript_that_was_read_is_shown(
    m: DashboardModel,
    r: RecordingView,
    text: String,
    why: String,
    row: Option<TranscriptRow>,
    prompt: Seq<char>,
)
    ensures
        ({
            let next = m.transcript_loaded(r, true, Ok(text), row, prompt);
            &&& next.transcript.shown
            &&& next.transcript.content == text@
            &&& next.transcript.recording == Some(r)
            &&& next.transcript.scroll == 0
            &&& next.transcript.summary == r.summary
            &&& next.chat.entry.system_prompt == prompt
            &&& next.chat.talk.context == (crate::chat::ContextView::Recording {
                recording_id: r.number(),
                recording_name: r.shown_name(),
            })
            &&& next.aside == m.chat.talk.messages
        }),
        m.transcript_loaded(r, true, Err(why), row, prompt).shell.message
            == "Failed to load transcript: "@ + why@,
        m.transcript_loaded(r, true, Err(why), row, prompt).transcript == m.transcript,
        m.transcript_loaded(r, false, Err(why), row, prompt) == m,
{
}

/// Ctrl+Y copies the transcript that is shown; Ctrl+T transcribes its recording
/// once more; Esc closes it, where the chat below has no use for it.
pub proof fn the_transcript_has_its_keys(m: DashboardModel, today: int, r: RecordingView)
    requires
        m.transcript.shown,
        m.list.current() == Some(r),
    ensures
        handed_out(m, m.transcript_key(Key::Char('y'), true, today).0) == seq![
            ChoreView::CopyTranscript,
        ],
        m.transcript_key(Key::Char('y'), true, today).0.transcript == m.transcript,
        m.jobs.active is None && m.jobs.queue.len() == 0 ==> {
            let next = m.transcript_key(Key::Char('t'), true, today).0;
            &&& handed_out(m, next) == seq![
                ChoreView::StartTranscription(
                    PendingView::Retranscribe {
                        recording_name: r.directory_name,
                        transcription_mode: m.settings.config.transcription,
                    },
                ),
            ]
            &&& !next.transcript.shown
        },
        m.jobs.active is Some ==> m.transcript_key(Key::Char('t'), true, today).0.chores
            == m.chores && m.transcript_key(Key::Char('t'), true, today).0.transcript.shown,
        m.chat.entry.focus == crate::chat::ChatFocus::Table ==> !m.transcript_key(
            Key::Esc,
            false,
            today,
        ).0.transcript.shown,
{
    reveal(DashboardModel::transcript_key);
    reveal(DashboardModel::redone);
    reveal(DashboardModel::transcript_closed);
    assert(handed_out(m, m.transcript_key(Key::Char('y'), true, today).0) =~= seq![
        ChoreView::CopyTranscript,
    ]);
    if m.jobs.active is None && m.jobs.queue.len() == 0 {
        let p = PendingView::Retranscribe {
            recording_name: r.directory_name,
            transcription_mode: m.settings.config.transcription,
        };
        assert(m.jobs.queue.push(p)[0] == p);
        assert(handed_out(m, m.transcript_key(Key::Char('t'), true, today).0) =~= seq![
            ChoreView::StartTranscription(p),
        ]);
    }
}

// ─── The chat ────────────────────────────────────────────────────────────────

/// A message that goes out is handed to the model as it is.
pub proof fn messages_reach_the_model(m: DashboardModel, o: OutgoingView, today: int)
    ensures
        handed_out(m, m.chatted(ChatDoView::Send(o), today)) == seq![ChoreView::Generate(o)],
        handed_out(m, m.chatted(ChatDoView::Fresh(Some(o)), today)) == seq![
            ChoreView::Generate(o),
        ],
        m.chatted(ChatDoView::Done, today) == m,
        m.chatted(ChatDoView::Browse, today).shell.current_view == DashboardView::Browse,
{
    reveal(DashboardModel::chatted);
    assert(handed_out(m, m.chatted(ChatDoView::Send(o), today)) =~= seq![ChoreView::Generate(o)]);
    assert(handed_out(m, m.chatted(ChatDoView::Fresh(Some(o)), today)) =~= seq![
        ChoreView::Generate(o),
    ]);
}

proof fn ids_are_found(v: Seq<RecordingView>, id: i64, from: int, i: int)
    requires
        0 <= from <= i < v.len(),
        v[i].id == Some(id),
    ensures
        with_id(v, id, from) matches Some(k) && from <= k <= i && v[k].id == Some(id),
    decreases i - from,
{
    if v[from].id != Some(id) {
        ids_are_found(v, id, from + 1, i);
    }
}

/// The home screen opens the transcript of the recording that was chosen there.
pub proof fn the_home_screen_opens_its_recording(
    m: DashboardModel,
    id: i64,
    i: int,
    today: int,
)
    requires
        0 <= i < m.list.recordings.len(),
        m.list.recordings[i].id == Some(id),
        forall|k: int|
            0 <= k < m.list.recordings.len() && (#[trigger] m.list.recordings[k]).id == Some(id)
                ==> k == i,
        m.list.recordings[i].has_transcript,
    ensures
        handed_out(m, m.chatted(ChatDoView::OpenTranscript(id), today)) == seq![
            ChoreView::LoadTranscript { recording: m.list.recordings[i], reports_failure: false },
        ],
{
    reveal(DashboardModel::chatted);
    ids_are_found(m.list.recordings, id, 0, i);
    assert(handed_out(m, m.chatted(ChatDoView::OpenTranscript(id), today)) =~= seq![
        ChoreView::LoadTranscript { recording: m.list.recordings[i], reports_failure: false },
    ]);
}

/// A message that waited for the end of an answer reaches the model then.
pub proof fn waiting_messages_reach_the_model(m: DashboardModel, msg: Seq<char>)
    requires
        m.chat.talk.streaming,
        m.chat.talk.pending_message == Some(msg),
        msg.len() > 0,
        !m.chat.offering(),
    ensures
        handed_out(m, m.heard(seq![ChatStreamEvent::Done])).len() == 1,
        handed_out(m, m.heard(seq![ChatStreamEvent::Done]))[0] matches ChoreView::Generate(o)
            && o.user_message == msg,
{
    reveal(DashboardModel::heard);
    let rest: Seq<ChatStreamEvent> = Seq::empty();
    crate::talk_laws::the_stream_ends_with_the_answer(m.chat, rest, ChatStreamEvent::Done);
    assert(seq![ChatStreamEvent::Done] + rest =~= seq![ChatStreamEvent::Done]);
}

// ─── Other screens ───────────────────────────────────────────────────────────

/// A change of an entity is handed out as it was confirmed, and leaving goes to
/// the main screen.
pub proof fn changes_of_entities_are_handed_out(m: DashboardModel, key: Key)
    ensures
        m.entities.pressing(key).1 matches Some(a) ==> (if a is Leave {
            m.entities_key(key).0.shell.current_view == DashboardView::Main && m.entities_key(
                key,
            ).0.chores == m.chores
        } else {
            handed_out(m, m.entities_key(key).0) == seq![ChoreView::ChangeEntity(a)]
        }),
        m.entities.pressing(key).1 is None ==> m.entities_key(key).0.chores == m.chores,
{
    reveal(DashboardModel::entities_key);
    match m.entities.pressing(key).1 {
        Some(a) => {
            if !(a is Leave) {
                assert(handed_out(m, m.entities_key(key).0) =~= seq![ChoreView::ChangeEntity(a)]);
            }
        },
        None => {},
    }
}

/// Ctrl+S opens the settings and Ctrl+W the entities, which are loaded.
pub proof fn shortcuts_open_their_screens(m: DashboardModel, facts: Facts)
    ensures
        m.shortcut_key(Key::Char('s'), true, facts.surroundings).0.shell.current_view
            == DashboardView::Settings,
        m.shortcut_key(Key::Char('w'), true, facts.surroundings).0.shell.current_view
            == DashboardView::Entities,
        handed_out(m, m.shortcut_key(Key::Char('w'), true, facts.surroundings).0) == seq![
            ChoreView::LoadEntities,
        ],
        m.shortcut_key(Key::Char('r'), true, facts.surroundings).1 == Some(
            DashboardAction::ToggleRecording,
        ),
        m.shortcut_key(Key::Char('s'), true, facts.surroundings).0.settings.config
            == m.settings.config,
{
    reveal(DashboardModel::shortcut_key);
    assert(handed_out(m, m.shortcut_key(Key::Char('w'), true, facts.surroundings).0) =~= seq![
        ChoreView::LoadEntities,
    ]);
}

/// The help is shown on F1, and on `?` where nothing is typed; any key closes
/// it.
pub proof fn help_is_shown_and_closed(m: DashboardModel, key: Key, today: int)
    ensures
        m.main_key(Key::F(1), today).shell.show_help,
        m.main_key(Key::F(1), today).shell.current_view == DashboardView::Help,
        m.chat.entry.input_buffer.len() == 0 ==> m.main_key(Key::Char('?'), today).shell.show_help,
        m.browse_key(Key::F(1)).0.shell.show_help,
        m.browse_key(Key::Char('?')).0.shell.show_help,
        m.shell.show_help && !m.list.search_mode ==> !m.overlay_key(key).0.shell.show_help
            && m.overlay_key(key).0.shell.current_view == DashboardView::Main,
{
    reveal(DashboardModel::main_key);
    reveal(DashboardModel::browse_key);
    reveal(DashboardModel::overlay_key);
}

// ─── Updates ─────────────────────────────────────────────────────────────────

/// A version that is offered is installed on `u`, and that very version; Esc
/// dismisses the offer, and any other key passes it by.
pub proof fn the_offered_version_is_installed(m: DashboardModel, version: Seq<char>, key: Key)
    requires
        m.update.available == Some(version),
        !m.update.in_progress,
    ensures
        handed_out(m, m.banner_key(Key::Char('u')).0) == seq![ChoreView::PerformUpdate(version)],
        m.banner_key(Key::Char('u')).0.update.in_progress,
        m.banner_key(Key::Char('U')) == m.banner_key(Key::Char('u')),
        m.banner_key(Key::Esc).0.update.available is None,
        m.banner_key(Key::Esc).0.chores == m.chores,
        key != Key::Esc && key != Key::Char('u') && key != Key::Char('U') ==> m.banner_key(key).1
            is None && m.banner_key(key).0.update.available == Some(version) && m.banner_key(
            key,
        ).0.chores == m.chores,
{
    reveal(DashboardModel::banner_key);
    assert(handed_out(m, m.banner_key(Key::Char('u')).0) =~= seq![
        ChoreView::PerformUpdate(version),
    ]);
}

/// No version is installed twice at a time, nor without an offer.
pub proof fn nothing_is_installed_unasked(m: DashboardModel, key: Key)
    requires
        m.update.available is None || m.update.in_progress,
    ensures
        m.banner_key(key).0.chores == m.chores,
{
    reveal(DashboardModel::banner_key);
}

/// What a check found is offered, and what came of an update is shown; after a
/// success there is nothing left to offer.
pub proof fn updates_are_told(m: DashboardModel, v: String, why: String)
    ensures
        m.after_check(Some(Some(v))).update.available == Some(v@),
        m.after_check(Some(None)) == m,
        ({
            let done = m.after_update(Some(Some(Ok(v)))).update;
            let failed = m.after_update(Some(Some(Err(why)))).update;
            &&& done.completed == Some(Ok::<Seq<char>, Seq<char>>(v@))
            &&& done.available is None
            &&& !done.in_progress
            &&& failed.completed == Some(Err::<Seq<char>, Seq<char>>(why@))
            &&& failed.available == m.update.available
            &&& !failed.in_progress
        }),
{
    reveal(DashboardModel::after_check);
    reveal(DashboardModel::after_update);
}

// ─── Beginning ───────────────────────────────────────────────────────────────

/// The program begins with the first run where there is no world yet, and with
/// the chat where there is; a newer version is looked for only where that is
/// switched on.
pub proof fn the_program_begins(m: DashboardModel, world_exists: bool)
    requires
        m.onboarding is None,
    ensures
        ({
            let next = m.begun(world_exists);
            let out = handed_out(m, next);
            &&& out.len() >= 2 && out[0] == ChoreView::LoadRecordings && out[1]
                == ChoreView::LoadStats
            &&& out.contains(ChoreView::CheckForUpdate)
                <==> m.settings.config.check_for_updates
            &&& world_exists ==> next.onboarding is None && out.contains(ChoreView::BeginChat)
                && next.shell.current_view == m.shell.current_view
            &&& !world_exists ==> next.onboarding is Some && next.shell.current_view
                == DashboardView::Onboarding && !out.contains(ChoreView::BeginChat)
        }),
{
    let next = m.begun(world_exists);
    let out = handed_out(m, next);
    let on = m.settings.config.check_for_updates;
    let a = seq![ChoreView::LoadRecordings, ChoreView::LoadStats];
    let b = if on {
        a.push(ChoreView::CheckForUpdate)
    } else {
        a
    };
    let c = if world_exists {
        b.push(ChoreView::RefreshEntities).push(ChoreView::BeginChat)
    } else {
        b
    };
    assert(out =~= c);
    if on {
        assert(out[2] == ChoreView::CheckForUpdate);
    }
    if world_exists {
        assert(out[out.len() - 1] == ChoreView::BeginChat);
    }
}

/// The first run ends on the main screen, where the chat begins; a speech key
/// that was found valid is the one in use then, and is saved.
pub proof fn the_first_run_ends(m: DashboardModel, key: Seq<char>)
    ensures
        ({
            let done = m.onboarded(TickResultView::Complete);
            let kept = m.onboarded(TickResultView::SaveWhisperKey(key));
            &&& done.onboarding is None
            &&& done.shell.current_view == DashboardView::Main
            &&& handed_out(m, done).contains(ChoreView::BeginChat)
            &&& kept.settings.config.speech_key() == key
            &&& handed_out(m, kept).contains(ChoreView::SaveConfig)
            &&& kept.settings.config.mode == m.settings.config.mode
        }),
{
    let done = m.onboarded(TickResultView::Complete);
    let kept = m.onboarded(TickResultView::SaveWhisperKey(key));
    assert(handed_out(m, done)[1] == ChoreView::BeginChat);
    assert(handed_out(m, kept)[0] == ChoreView::SaveConfig);
}

/// A failure to save is told, with its reason, and leads back to the settings.
pub proof fn failures_to_save_are_told(m: DashboardModel, what: What, reason: Seq<char>)
    requires
        m.capture.progress_animation is None,
    ensures
        ({
            let told = m.save_failed(what, reason);
            &&& told.shell.show_message
            &&& told.shell.message == "Failed to save "@ + what.label()@ + ": "@ + reason
            &&& told.message_key(Key::Esc).0.shell.current_view == DashboardView::Settings
            &&& !told.message_key(Key::Esc).0.shell.show_message
            &&& told.settings == m.settings
        }),
{
    reveal(DashboardModel::message_key);
}

/// What the mouse has marked is copied, that very text; nothing else is handed
/// out.
pub proof fn the_marked_text_is_copied(
    m: DashboardModel,
    kind: crate::chat_keys::MouseKind,
    column: int,
    row: int,
)
    ensures
        m.chat.moused(kind, column, row).1 matches Some(t) ==> handed_out(
            m,
            m.moused(kind, column, row),
        ) == seq![ChoreView::CopySelection(t)],
        m.chat.moused(kind, column, row).1 is None ==> m.moused(kind, column, row).chores
            == m.chores,
        m.moused(kind, column, row).chat == m.chat.moused(kind, column, row).0,
{
    match m.chat.moused(kind, column, row).1 {
        Some(t) => {
            assert(handed_out(m, m.moused(kind, column, row)) =~= seq![
                ChoreView::CopySelection(t),
            ]);
        },
        None => {},
    }
}

/// The recordings that were loaded are the list, with the cursor on the first;
/// an empty page behind the last goes back and is loaded again.
pub proof fn the_loaded_recordings_are_the_list(
    m: DashboardModel,
    v: Seq<RecordingView>,
    today: int,
)
    ensures
        ({
            let next = m.recordings_loaded(v, today);
            &&& next.list.recordings == v
            &&& v.len() > 0 && !m.list.enters_at_end ==> next.list.selected == Some(0usize)
            &&& v.len() == 0 ==> next.list.selected is None
            &&& v.len() == 0 && m.list.turned_from is Some ==> handed_out(m, next) == seq![
                ChoreView::LoadRecordings,
            ] && next.list.current_page == m.list.turned_from->0
            &&& v.len() > 0 ==> next.chores == m.chores && next.list.current_page
                == m.list.current_page
            &&& m.shell.owner_name.len() > 0 ==> next.chat == m.chat.greeted(
                m.shell.owner_name,
                v,
                today,
            )
        }),
{
    let next = m.recordings_loaded(v, today);
    if v.len() == 0 && m.list.turned_from is Some {
        assert(handed_out(m, next) =~= seq![ChoreView::LoadRecordings]);
    }
}

/// The chat begins with the prompt and the owner that were found out.
pub proof fn the_chat_begins_with_its_owner(
    m: DashboardModel,
    owner: Seq<char>,
    prompt: Seq<char>,
    today: int,
)
    ensures
        ({
            let next = m.chat_begun(owner, prompt, today);
            &&& next.shell.owner_name == owner
            &&& next.chat.entry.system_prompt == prompt
            &&& next.chat.talk.messages == m.chat.talk.messages
            &&& next.chat.talk.context == crate::chat::ContextView::Global
            &&& next.chat.offers.suggestions == crate::home::global_suggestions(
                m.entities.entities,
                m.list.recordings,
            )
        }),
{
}

/// At the end of a full page Down goes on to the next page, and at the beginning
/// of a page Up goes back to the end of the one before; both are loaded.
pub proof fn arrows_go_on_to_other_pages(m: DashboardModel)
    requires
        m.list.current_page < usize::MAX,
        m.list.search_query.len() == 0,
    ensures
        m.list.recordings.len() == 50 && m.list.selected == Some(49usize) ==> {
            let next = m.browse_key(Key::Down).0;
            &&& next.list.current_page == m.list.current_page + 1
            &&& handed_out(m, next) == seq![ChoreView::LoadRecordings]
        },
        m.list.selected == Some(0usize) && m.list.current_page > 0 ==> {
            let next = m.browse_key(Key::Up).0;
            &&& next.list.current_page == m.list.current_page - 1
            &&& next.list.enters_at_end
            &&& handed_out(m, next) == seq![ChoreView::LoadRecordings]
        },
{
    reveal(DashboardModel::browse_key);
    assert(m.browse_key(Key::Down).0.chores.len() > m.chores.len() ==> handed_out(
        m,
        m.browse_key(Key::Down).0,
    ) =~= seq![ChoreView::LoadRecordings]);
    assert(m.browse_key(Key::Up).0.chores.len() > m.chores.len() ==> handed_out(
        m,
        m.browse_key(Key::Up).0,
    ) =~= seq![ChoreView::LoadRecordings]);
}

/// Esc on the settings screen leads back to the main screen where nothing is
/// being edited, and closes what is being edited otherwise.
pub proof fn esc_leaves_the_settings(m: DashboardModel, facts: Facts)
    ensures
        m.settings.edit == crate::settings::EditView::Idle ==> m.settings_key(
            Key::Esc,
            facts.surroundings,
        ).0.shell.current_view == DashboardView::Main,
        m.settings.edit != crate::settings::EditView::Idle ==> {
            let next = m.settings_key(Key::Esc, facts.surroundings).0;
            &&& next.settings.edit == crate::settings::EditView::Idle
            &&& next.shell.current_view == m.shell.current_view
            &&& next.settings.config == m.settings.config
        },
{
    reveal(DashboardModel::settings_key);
}

/// While a recording goes on its message shows the volume, and any other
/// progress a bar; without progress no message is touched.
pub proof fn progress_is_shown(m: DashboardModel, volume: Seq<char>, what: Seq<char>)
    ensures
        m.capture.progress_animation is None ==> m.progressing(volume) == m,
        m.capture.progress_animation == Some(what) && m.capture.recording ==> m.progressing(
            volume,
        ).shell.message == crate::recording::progress_spinner(m.jobs.progress_frame)@ + " "@ + what
            + (" ["@ + volume + "]"@),
        m.progressing(volume).jobs.queue == m.jobs.queue,
        m.progressing(volume).jobs.active == m.jobs.active,
{
}

// ─── Where a key goes ────────────────────────────────────────────────────────

/// The dashboard without the notes that any key dismisses.
pub open spec fn dismissed(m: DashboardModel) -> DashboardModel {
    DashboardModel {
        update: UpdateView { completed: None, ..m.update },
        shell: ShellView { notification: None, ..m.shell },
        ..m
    }
}

/// Nothing takes a key before the screens do.
pub open spec fn open_to_keys(m: DashboardModel) -> bool {
    &&& !m.capture.playing
    &&& !m.capture.recording
    &&& m.shell.owl_frame is None
    &&& m.shell.current_view != DashboardView::Onboarding
    &&& !m.import.shown
    &&& m.update.available is None
    &&& !m.shell.show_message
    &&& !m.list.search_mode
    &&& !m.shell.show_help
}

proof fn keys_reach_the_screens(m: DashboardModel, key: Key, ctrl: bool, facts: Facts)
    requires
        open_to_keys(m),
    ensures
        m.pressing(key, ctrl, facts) == ({
            let (next, r) = dismissed(m).screen_key(key, facts.surroundings);
            if r is Some {
                (next, r->Some_0)
            } else {
                next.lower_key(key, ctrl, facts)
            }
        }),
{
    reveal(DashboardModel::interrupting);
    reveal(DashboardModel::banner_key);
    reveal(DashboardModel::message_key);
    reveal(DashboardModel::overlay_key);
}

/// A key goes to the screen that is shown: to the settings, to the entities, to
/// a transcript that lies over the list, to the list, or to the chat.
pub proof fn keys_go_to_the_screen_that_is_shown(m: DashboardModel, key: Key, facts: Facts)
    requires
        open_to_keys(m),
    ensures
        m.shell.current_view == DashboardView::Settings ==> m.pressing(key, false, facts).0
            == dismissed(m).settings_key(key, facts.surroundings).0,
        m.shell.current_view == DashboardView::Entities ==> m.pressing(key, false, facts).0
            == dismissed(m).entities_key(key).0,
        m.shell.current_view == DashboardView::Browse && !m.transcript.shown
            && !m.deletion.show_delete_confirm ==> m.pressing(key, false, facts) == dismissed(
            m,
        ).browse_key(key),
        m.shell.current_view == DashboardView::Browse && m.transcript.shown ==> m.pressing(
            key,
            false,
            facts,
        ).0 == dismissed(m).transcript_key(key, false, facts.today as int).0,
        m.shell.current_view == DashboardView::Browse && !m.transcript.shown
            && m.deletion.show_delete_confirm ==> m.pressing(key, false, facts).0 == dismissed(
            m,
        ).confirm_key(key).0,
        m.shell.current_view == DashboardView::Main && !m.transcript.shown
            && !m.deletion.show_delete_confirm ==> m.pressing(key, false, facts).0 == dismissed(
            m,
        ).main_key(key, facts.today as int),
{
    keys_reach_the_screens(m, key, false, facts);
    reveal(DashboardModel::screen_key);
    reveal(DashboardModel::settings_key);
    reveal(DashboardModel::entities_key);
    reveal(DashboardModel::transcript_key);
    reveal(DashboardModel::confirm_key);
    reveal(DashboardModel::shortcut_key);
}

/// A dialog for importing takes every key, but for Esc while something is played
/// or recorded; a message takes them before a search and a search before the
/// screens.
pub proof fn what_lies_on_top_takes_the_keys(m: DashboardModel, key: Key, facts: Facts)
    requires
        !m.capture.playing,
        !m.capture.recording,
        m.shell.owl_frame is None,
        m.shell.current_view != DashboardView::Onboarding,
        m.update.available is None,
    ensures
        m.import.shown ==> m.pressing(key, false, facts).0 == m.dialog_key(key, facts.file).0,
        !m.import.shown && m.shell.show_message ==> m.pressing(key, false, facts).0 == dismissed(
            m,
        ).message_key(key).0,
        !m.import.shown && !m.shell.show_message && m.list.search_mode ==> m.pressing(
            key,
            false,
            facts,
        ).0 == dismissed(m).overlay_key(key).0,
{
    reveal(DashboardModel::interrupting);
    reveal(DashboardModel::banner_key);
    reveal(DashboardModel::message_key);
    reveal(DashboardModel::overlay_key);
    reveal(DashboardModel::dialog_key);
}

/// `t` at the warning overwrites the transcript that it warns of; no other
/// message asks for anything.
pub proof fn t_confirms_the_overwriting(m: DashboardModel)
    requires
        m.shell.show_message,
        m.capture.progress_animation is None,
    ensures
        m.capture.last_transcribe_warning is Some ==> m.message_key(Key::Char('t')).1 == Some(
            DashboardAction::TranscribeSelected,
        ) && !m.message_key(Key::Char('t')).0.shell.show_message,
        m.capture.last_transcribe_warning is None ==> m.message_key(Key::Char('t')).1 == Some(
            DashboardAction::Continue,
        ) && m.message_key(Key::Char('t')).0 == m,
{
    reveal(DashboardModel::message_key);
}

// ─── News ────────────────────────────────────────────────────────────────────

/// Nothing has happened but, perhaps, what is asked about.
pub open spec fn otherwise_quiet(news: News) -> bool {
    &&& news.ollama_models is None
    &&& !news.anim_tick
    &&& news.chat@.len() == 0
}

/// Every kind of news is taken: the end of a recording and of a transcription,
/// of playback, of a check and of an update.
pub proof fn news_is_taken(m: DashboardModel, news: News)
    requires
        otherwise_quiet(news),
        m.onboarding is None,
    ensures
        news.recording matches Some(o) ==> (news.transcription is None && !news.playback_ended
            && news.update_check is None && news.update is None ==> m.ticking(news) == m.recorded(
            o,
        )),
        news.transcription matches Some(o) ==> (news.recording is None && !news.playback_ended
            && news.update_check is None && news.update is None ==> m.ticking(news)
            == m.transcribed(o)),
        news.playback_ended && news.recording is None && news.transcription is None
            && news.update_check is None && news.update is None ==> !m.ticking(
            news,
        ).capture.playing && !m.ticking(news).shell.show_message,
        news.update_check matches Some(Some(v)) ==> (news.recording is None && news.transcription
            is None && !news.playback_ended && news.update is None ==> m.ticking(
            news,
        ).update.available == Some(v@)),
        news.update matches Some(Some(Ok(v))) ==> (news.recording is None && news.transcription
            is None && !news.playback_ended && news.update_check is None ==> m.ticking(
            news,
        ).update.completed == Some(Ok::<Seq<char>, Seq<char>>(v@))),
{
    reveal(DashboardModel::after_recording);
    reveal(DashboardModel::after_transcription);
    reveal(DashboardModel::after_playback);
    reveal(DashboardModel::after_listing);
    reveal(DashboardModel::after_check);
    reveal(DashboardModel::after_update);
    reveal(DashboardModel::after_frame);
    reveal(DashboardModel::after_onboarding);
    reveal(DashboardModel::heard);
}

/// What the stream has brought is heard in the same round.
pub proof fn the_stream_is_heard(m: DashboardModel, news: News)
    requires
        news.recording is None,
        news.transcription is None,
        !news.playback_ended,
        news.ollama_models is None,
        news.update_check is None,
        news.update is None,
        !news.anim_tick,
        m.onboarding is None,
        !m.chat.resends(news.chat@),
    ensures
        m.ticking(news).chat == m.chat.hearing_from(news.chat@, 0),
{
    reveal(DashboardModel::after_recording);
    reveal(DashboardModel::after_transcription);
    reveal(DashboardModel::after_playback);
    reveal(DashboardModel::after_listing);
    reveal(DashboardModel::after_check);
    reveal(DashboardModel::after_update);
    reveal(DashboardModel::after_frame);
    reveal(DashboardModel::after_onboarding);
    reveal(DashboardModel::heard);
}

} // verus!
