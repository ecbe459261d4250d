//! What the screens tell: the list, the transcript, the home screen, the
//! settings, the recording strip, playback and the voice.
use vstd::prelude::*;

use crate::browse::{candidate_player, is_audio, PlayAttemptView, PlayStepView, Player};
use crate::browse_view::{
    day_label, labels_of, notice, row_line, rows_below, status_dot, total_text,
};
use crate::chat::{ChatView, HomeRecordingView};
use crate::config::EnrichmentView;
use crate::dashboard::DashboardModel;
use crate::dashboard_view::{update_banner, update_outcome, Surface};
use crate::entities::EntityView;
use crate::home::{
    global_suggestions, greeting, home_entry, made_on, owner_of, recording_suggestions,
};
use crate::jobs::JobsView;
use crate::keys::Key;
use crate::providers::SpeechProvider;
use crate::recording::{
    busy, capturing, strip_facts, two_digits, RecordingInfoView, RecordingKind, RecordingPhase,
};
use crate::recordings::{filled_list, RecordingView};
use crate::settings::{EditView, KeyStatusView, Row, SettingsView, Surroundings};
use crate::settings_text::{key_row_view, masked, reason_of, seconds_text, DetailTone};
use crate::style::{fg, line_text, Color};
use crate::text::{decimal, first_sentence, first_word, lowercase, occurs};
use crate::times::day_number;
use crate::transcript::{
    complete_below, kind_of, names_below, preview, MentionKind, TranscriptRow, TranscriptView,
};
use crate::voice::{VoiceAction, VoiceErrand, VoiceNews, VoicePhaseView, VoiceView};

verus! {

// ─── The list ────────────────────────────────────────────────────────────────

proof fn rows_hold_row(
    v: Seq<RecordingView>,
    labels: Seq<(Seq<char>, Seq<char>)>,
    selected: int,
    jobs: JobsView,
    width: int,
    n: nat,
    i: int,
)
    requires
        0 <= i < n <= v.len(),
        labels.len() == v.len(),
    ensures
        rows_below(v, labels, selected, jobs, width, n).lines.contains(
            row_line(v[i], labels[i].1, selected == i, jobs, width),
        ),
        i == selected ==> (rows_below(v, labels, selected, jobs, width, n).at matches Some(k) && 0
            <= k < rows_below(v, labels, selected, jobs, width, n).lines.len() && rows_below(
            v,
            labels,
            selected,
            jobs,
            width,
            n,
        ).lines[k] == row_line(v[i], labels[i].1, true, jobs, width)),
    decreases n,
{
    let before = rows_below(v, labels, selected, jobs, width, (n - 1) as nat);
    let all = rows_below(v, labels, selected, jobs, width, n);
    let row = row_line(v[i], labels[i].1, selected == i, jobs, width);
    if i == n - 1 {
        assert(all.lines[all.lines.len() - 1] == row);
    } else {
        rows_hold_row(v, labels, selected, jobs, width, (n - 1) as nat, i);
        let k = choose|k: int| 0 <= k < before.lines.len() && before.lines[k] == row;
        assert(all.lines[k] == row);
    }
}

/// Every recording has a row in the list, and the cursor stands on the row of
/// the recording that is selected.
pub proof fn every_recording_has_a_row(
    v: Seq<RecordingView>,
    labels: Seq<(Seq<char>, Seq<char>)>,
    selected: int,
    jobs: JobsView,
    width: int,
    i: int,
)
    requires
        0 <= i < v.len(),
        labels.len() == v.len(),
    ensures
        ({
            let all = rows_below(v, labels, selected, jobs, width, v.len());
            &&& all.lines.contains(row_line(v[i], labels[i].1, selected == i, jobs, width))
            &&& i == selected ==> (all.at matches Some(k) && 0 <= k < all.lines.len()
                && all.lines[k] == row_line(v[i], labels[i].1, true, jobs, width))
        }),
{
    rows_hold_row(v, labels, selected, jobs, width, v.len(), i);
}

/// A row shows the name of its recording, whole where there is room, its state,
/// and its length and time at the right.
pub proof fn a_row_names_its_recording(
    rec: RecordingView,
    clock: Seq<char>,
    is_selected: bool,
    jobs: JobsView,
    width: int,
)
    ensures
        ({
            let l = row_line(rec, clock, is_selected, jobs, width);
            let right = crate::browse_view::right_part(rec.duration_seconds, clock);
            let room = width - 22 - crate::text::byte_len(right);
            &&& l.len() == 5
            &&& rec.shown_name().len() <= room ==> l[2].text == rec.shown_name()
            &&& l[1].text == status_dot(rec, jobs).0
            &&& l[4].text == right
            &&& rec.display_name matches Some(n) ==> rec.shown_name() == n
            &&& rec.display_name is None ==> rec.shown_name() == rec.directory_name
        }),
{
}

/// The dot tells the state: yellow while a transcription runs or waits, full
/// where there is a transcript, empty where there is none.
pub proof fn the_dot_tells_the_state(rec: RecordingView, jobs: JobsView)
    ensures
        jobs.busy_with(rec.directory_name) <==> status_dot(rec, jobs).1 == Color::Yellow,
        !jobs.busy_with(rec.directory_name) && rec.has_transcript ==> status_dot(rec, jobs).0
            == "\u{25CF} "@,
        !jobs.busy_with(rec.directory_name) && !rec.has_transcript ==> status_dot(rec, jobs).0
            == "\u{25CB} "@,
{
}

/// Recordings stand under the day on which they were made.
pub proof fn recordings_stand_under_their_day(v: Seq<RecordingView>, today: int, i: int)
    requires
        0 <= i < v.len(),
    ensures
        ({
            let day = day_number(v[i].created_local as int);
            let heading = labels_of(v, today)[i].0;
            &&& labels_of(v, today).len() == v.len()
            &&& day == today ==> heading == "Today"@
            &&& day == today - 1 ==> heading == "Yesterday"@
            &&& heading == day_label(v[i].created_local as int, today)
        }),
{
}

/// A note is shown as it is, in red where it tells of a failure.
pub proof fn notes_are_shown(msg: Seq<char>)
    ensures
        notice(msg).len() == 1,
        notice(msg)[0].text == msg,
        occurs(msg, "failed"@) || occurs(msg, "Failed"@) <==> notice(msg)[0].style.fg == Some(
            Color::Red,
        ),
{
}

// ─── What is on top ──────────────────────────────────────────────────────────

/// A message lies over a transcript and a transcript over the list; the dialog
/// for importing lies over everything.
pub proof fn the_topmost_is_shown(m: DashboardModel)
    ensures
        m.import.shown <==> m.surface() == Surface::FileDialog,
        m.surface() == Surface::Message <==> m.shell.show_message && !m.import.shown,
        m.surface() == Surface::Transcript <==> m.transcript.shown && !m.shell.show_message
            && !m.import.shown,
        m.surface() == Surface::Content ==> !m.deletion.show_delete_confirm
            && !m.transcript.shown,
{
}

/// The banner names the version that it offers, and the outcome the version
/// that was installed, or why it was not.
pub proof fn the_banner_names_the_version(version: Seq<char>, why: Seq<char>, frame: usize)
    ensures
        update_banner(version, false, frame)[0].text == "v"@ + version + " available "@,
        update_banner(version, true, frame)[1].text == "Updating to v"@ + version + "..."@,
        update_outcome(Ok(version))[0].text == "Updated to v"@ + version
            + " \u{2014} restart Scriba to use it"@,
        update_outcome(Err(why))[0].text == "Update failed: "@ + why,
{
}

// ─── The home screen ─────────────────────────────────────────────────────────

/// The greeting has the first name of the owner, and tells how many recordings
/// there are of today.
pub proof fn the_greeting_is_personal(
    v: ChatView,
    owner: Seq<char>,
    list: Seq<RecordingView>,
    today: int,
)
    ensures
        ({
            let next = v.greeted(owner, list, today);
            let n = made_on(list, today, list.len()).len();
            &&& first_word(owner).len() > 0 ==> next.home.greeting_text == "Welcome back, "@
                + first_word(owner) + "."@
            &&& first_word(owner).len() == 0 ==> next.home.greeting_text == "Welcome back."@
            &&& n == 0 ==> next.home.greeting_subtitle == "No recordings today yet."@
            &&& n == 1 ==> next.home.greeting_subtitle == "You had 1 recording today."@
            &&& n > 1 ==> next.home.greeting_subtitle == "You had "@ + decimal(n)
                + " recordings today."@
            &&& next.home.recordings.len() == (if n < 5 {
                n
            } else {
                5
            })
            &&& next.home.selected_action == 0
            &&& next.talk == v.talk
        }),
{
}

proof fn made_on_counts(v: Seq<RecordingView>, day: int, n: nat, i: int)
    requires
        0 <= i < n <= v.len(),
        day_number(v[i].created_local as int) == day,
    ensures
        made_on(v, day, n).contains(v[i]),
    decreases n,
{
    let before = made_on(v, day, (n - 1) as nat);
    let all = made_on(v, day, n);
    if i == n - 1 {
        assert(all[all.len() - 1] == v[i]);
    } else {
        made_on_counts(v, day, (n - 1) as nat, i);
        let k = choose|k: int| 0 <= k < before.len() && before[k] == v[i];
        assert(all[k] == v[i]);
    }
}

/// No recording of today is left out of the count.
pub proof fn todays_recordings_are_counted(v: Seq<RecordingView>, today: int, i: int)
    requires
        0 <= i < v.len(),
        day_number(v[i].created_local as int) == today,
    ensures
        made_on(v, today, v.len()).contains(v[i]),
{
    made_on_counts(v, today, v.len(), i);
}

/// A recording on the home screen has its number, its name, its length in
/// minutes, and the first sentence of its summary.
pub proof fn home_entries_tell_their_recording(r: RecordingView)
    ensures
        ({
            let e = home_entry(r);
            &&& r.id matches Some(id) ==> e.recording_id == id
            &&& e.name == r.shown_name()
            &&& e.directory_name == r.directory_name
            &&& r.duration_seconds matches Some(s) ==> (s >= 60 ==> e.duration_mins == s / 60)
            &&& r.duration_seconds matches Some(s) ==> (0 <= s < 60 ==> e.duration_mins == 1)
            &&& r.summary matches Some(s) ==> (first_sentence(s).len() > 0 ==> e.summary_line
                == Some(first_sentence(s) + "."@))
            &&& r.summary is None ==> e.summary_line is None
        }),
{
}

/// The owner is called by the name that is known, or else by that of the
/// account, with its first letter in upper case.
pub proof fn the_owner_has_a_name(known: Seq<char>, account: Seq<char>)
    ensures
        known.len() > 0 ==> owner_of(known, account) == known,
        known.len() == 0 && account.len() > 0 && crate::text::ascii(account) ==> {
            let name = owner_of(known, account);
            &&& name.len() == account.len()
            &&& name.subrange(1, name.len() as int) == account.subrange(1, account.len() as int)
            &&& 'A' <= account[0] <= 'Z' ==> name == account
            &&& account[0] == 'a' ==> name[0] == 'A'
            &&& account[0] == 'z' ==> name[0] == 'Z'
        },
        known.len() == 0 && account.len() == 0 ==> owner_of(known, account).len() == 0,
{
    if known.len() == 0 && account.len() > 0 && crate::text::ascii(account) {
        let name = owner_of(known, account);
        let first = account.take(1);
        assert(crate::text::ascii(first)) by {
            assert(first[0] == account[0]);
        }
        assert(name.subrange(1, name.len() as int) =~= account.subrange(1, account.len() as int));
        if 'A' <= account[0] <= 'Z' {
            assert(name =~= account);
        }
    }
}

/// What is suggested is about what there is: the first entity by its name,
/// action items and people only where there are any.
pub proof fn suggestions_are_about_what_there_is(
    entities: Seq<EntityView>,
    v: Seq<RecordingView>,
    r: RecordingView,
    mentions: Seq<(Seq<char>, Seq<char>)>,
)
    ensures
        ({
            let all = global_suggestions(entities, v);
            &&& 1 <= all.len() <= 4
            &&& entities.len() > 0 ==> all.contains(
                "Summarize my conversations about "@ + entities[0].canonical_name,
            )
            &&& crate::home::any_action_items(v) ==> all.contains(
                "What action items do I have pending?"@,
            )
            &&& crate::home::any_person(entities) ==> all.contains(
                "Who have I been meeting with most?"@,
            )
        }),
        ({
            let all = recording_suggestions(Some(r), Some(mentions));
            &&& 1 <= all.len() <= 4
            &&& filled_list(r.action_items) ==> all.contains("What were the action items?"@)
                && all.contains("Draft a follow-up email"@)
            &&& mentions.len() > 0 ==> all.contains(
                "What other recordings mention "@ + mentions[0].0 + "?"@,
            )
        }),
{
    let all = global_suggestions(entities, v);
    if entities.len() > 0 {
        assert(all[1] == "Summarize my conversations about "@ + entities[0].canonical_name);
    }
    let k: int = if entities.len() > 0 {
        2
    } else {
        1
    };
    if crate::home::any_action_items(v) {
        assert(all[k] == "What action items do I have pending?"@);
    }
    if crate::home::any_person(entities) {
        assert(all[all.len() - 1] == "Who have I been meeting with most?"@);
    }
    let some = recording_suggestions(Some(r), Some(mentions));
    if filled_list(r.action_items) {
        assert(some[1] == "Draft a follow-up email"@);
        assert(some[2] == "What were the action items?"@);
    }
    if mentions.len() > 0 {
        assert(some[some.len() - 1] == "What other recordings mention "@ + mentions[0].0 + "?"@);
    }
}

/// The chat about a recording is about that recording, with its prompt, and
/// begins empty; coming back brings the conversation that was put aside.
pub proof fn the_chat_is_about_its_recording(
    v: ChatView,
    r: RecordingView,
    prompt: Seq<char>,
    suggestions: Seq<Seq<char>>,
    messages: Seq<crate::chat::MessageView>,
)
    ensures
        ({
            let next = v.about(r, prompt, suggestions);
            &&& next.talk.context == (crate::chat::ContextView::Recording {
                recording_id: r.number(),
                recording_name: r.shown_name(),
            })
            &&& next.entry.system_prompt == prompt
            &&& next.talk.messages.len() == 0
            &&& next.entry.input_buffer.len() == 0
            &&& !next.talk.is_generating
            &&& next.offers.suggestions == suggestions
        }),
        ({
            let back = v.restored(messages, suggestions, true);
            &&& back.talk.context == crate::chat::ContextView::Global
            &&& back.talk.messages == messages
            &&& back.home.show_home_screen <==> messages.len() == 0
            &&& back.offers.show_suggestions <==> messages.len() == 0
            &&& back.offers.suggestions == suggestions
            &&& !back.talk.is_generating
            &&& back.entry.input_buffer.len() == 0
        }),
        ({
            let all = v.globally(prompt, suggestions);
            &&& all.talk.context == crate::chat::ContextView::Global
            &&& all.entry.system_prompt == prompt
            &&& all.talk.messages == v.talk.messages
            &&& all.home.show_home_screen <==> v.talk.messages.len() == 0
        }),
{
}

/// A recording is marked as busy while its transcription runs or waits, and
/// while a meeting of it is processed.
pub proof fn busy_recordings_are_marked(
    jobs: JobsView,
    info: RecordingInfoView,
    name: Seq<char>,
)
    ensures
        jobs.busy_with(name) ==> busy(jobs, Some(info), name),
        info.phase == RecordingPhase::Processing && info.directory == Some(name) ==> busy(
            jobs,
            Some(info),
            name,
        ),
        !jobs.busy_with(name) && info.phase == RecordingPhase::Recording ==> !busy(
            jobs,
            Some(info),
            name,
        ),
        busy(jobs, None, name) <==> jobs.busy_with(name),
{
}

// ─── The recording strip ─────────────────────────────────────────────────────

/// The strip is shown exactly while audio is captured, and tells what is
/// recorded and for how long.
pub proof fn the_strip_tells_what_is_recorded(
    by_user: bool,
    info: RecordingInfoView,
    since: u64,
)
    ensures
        by_user ==> capturing(by_user, Some(info)) && capturing(by_user, None),
        !by_user ==> !capturing(by_user, None),
        !by_user ==> (capturing(by_user, Some(info)) <==> info.phase == RecordingPhase::Recording),
        info.kind == RecordingKind::Meeting ==> strip_facts(Some(info), since).0
            == "Recording meeting"@,
        info.kind == RecordingKind::Manual ==> strip_facts(Some(info), since).0 == "Recording"@,
        strip_facts(Some(info), since).1 == info.source,
        strip_facts(Some(info), since).2 == info.elapsed_secs,
        strip_facts(None, since).2 == since,
{
}

/// Minutes and seconds have two digits at least.
pub proof fn times_have_two_digits(n: nat)
    ensures
        two_digits(n).len() >= 2,
        n >= 10 ==> two_digits(n) == decimal(n),
        n < 10 ==> two_digits(n) == "0"@ + decimal(n),
{
    reveal_strlit("0");
    if n >= 10 {
        crate::text_laws::decimals_read_back(n / 10);
        assert(decimal(n).len() == decimal(n / 10).len() + 1);
    } else {
        crate::text_laws::decimals_read_back(n);
    }
}

// ─── The transcript ──────────────────────────────────────────────────────────

/// The preview shows the first rows of the transcript, each as it is, indented,
/// and says how many are left.
pub proof fn the_preview_shows_the_first_rows(rows: Seq<Option<Seq<char>>>, i: int)
    requires
        0 <= i < rows.len(),
        i < 15,
    ensures
        rows[i] matches Some(t) ==> line_text(preview(rows)[i]) == "  "@ + t,
        rows[i] is None ==> line_text(preview(rows)[i]).len() == 0,
        rows.len() > 15 ==> preview(rows)[16][1].text == decimal((rows.len() - 15) as nat)
            + " more lines not shown \u{00B7} "@,
{
    let l = preview(rows)[i];
    reveal_with_fuel(line_text, 3);
    match rows[i] {
        Some(t) => {
            if l.len() == 1 {
                assert(l.drop_last() =~= crate::style::empty_line());
            } else {
                assert(l.drop_last().drop_last() =~= crate::style::empty_line());
            }
            assert(line_text(l) =~= "  "@ + t);
        },
        None => {
            if l.len() == 1 {
                assert(l.drop_last() =~= crate::style::empty_line());
            }
            assert(line_text(l) =~= Seq::<char>::empty());
        },
    }
}

/// What is known of a recording is what the database holds: its summary, its
/// key points, and the topics and entities of its transcript.
pub proof fn what_is_stored_is_known(v: TranscriptView, r: RecordingView, row: TranscriptRow)
    ensures
        ({
            let next = v.enriched(r, Some(row));
            &&& next.summary == r.summary
            &&& r.key_points matches Some(json) ==> next.key_points == crate::json::json_strings(
                json,
            )
            &&& r.key_points is None ==> next.key_points is None
            &&& row.topics matches Some(json) ==> next.topics == crate::json::json_strings(json@)
            &&& row.topics is None ==> next.topics is None
            &&& row.entities is None ==> next.entities is None
            &&& next.content == v.content
        }),
        ({
            let next = v.enriched(r, None);
            &&& next.summary == r.summary
            &&& next.topics == v.topics
            &&& next.entities == v.entities
        }),
{
}

/// Of the records those that have a name and a type are kept, in order, as they
/// are.
pub proof fn complete_records_are_kept(
    records: Seq<(Option<Seq<char>>, Option<Seq<char>>)>,
    n: nat,
    i: int,
)
    requires
        0 <= i < n <= records.len(),
        records[i].0 is Some,
        records[i].1 is Some,
    ensures
        complete_below(records, n).contains((records[i].0->0, records[i].1->0)),
    decreases n,
{
    let before = complete_below(records, (n - 1) as nat);
    let all = complete_below(records, n);
    let kept = (records[i].0->0, records[i].1->0);
    if i == n - 1 {
        assert(all[all.len() - 1] == kept);
    } else {
        complete_records_are_kept(records, (n - 1) as nat, i);
        let k = choose|k: int| 0 <= k < before.len() && before[k] == kept;
        assert(all[k] == kept);
    }
}

/// A name is told under its kind: people, organizations, and the rest.
pub proof fn names_are_told_under_their_kind(
    v: Seq<(Seq<char>, Seq<char>)>,
    n: nat,
    i: int,
)
    requires
        0 <= i < n <= v.len(),
    ensures
        v[i].1 == "person"@ ==> names_below(v, MentionKind::Person, n).contains(v[i].0),
        v[i].1 == "organization"@ ==> names_below(v, MentionKind::Organization, n).contains(
            v[i].0,
        ),
        v[i].1 != "person"@ && v[i].1 != "organization"@ ==> names_below(
            v,
            MentionKind::Other,
            n,
        ).contains(v[i].0),
    decreases n,
{
    reveal_strlit("person");
    reveal_strlit("organization");
    assert("person"@.len() == 6 && "organization"@.len() == 12);
    let kind = kind_of(v[i].1);
    let before = names_below(v, kind, (n - 1) as nat);
    let all = names_below(v, kind, n);
    if i == n - 1 {
        assert(all[all.len() - 1] == v[i].0);
    } else {
        names_are_told_under_their_kind(v, (n - 1) as nat, i);
        let k = choose|k: int| 0 <= k < before.len() && before[k] == v[i].0;
        assert(all[k] == v[i].0);
    }
}

// ─── Playback ────────────────────────────────────────────────────────────────

/// The players are tried one after the other until one runs; the message names
/// the recording and the player that runs; where none does the user is told.
pub proof fn players_are_tried_in_turn(a: PlayAttemptView)
    requires
        a.tried < 3,
    ensures
        ({
            let (next, step) = a.launched(false);
            let tried = candidate_player(a.platform, a.tried);
            &&& next.tried == a.tried + 1
            &&& a.tried < 2 ==> (step matches PlayStepView::Launch { player, .. } && Some(player)
                == candidate_player(a.platform, next.tried) && Some(player) != tried)
            &&& a.tried == 2 ==> step is Failed
            &&& a.launched(true).1 matches PlayStepView::Playing(text) && text
                == crate::browse::playing_text(a.name, tried->0)
            &&& next.name == a.name && next.platform == a.platform
        }),
        a.tried == 0 ==> (a.next_step() matches PlayStepView::Launch { player, .. } && player
            == Player::Mpv),
{
}

/// A file is audio by its extension, whatever its case; other files are not
/// played.
pub proof fn audio_is_told_by_its_extension(e: Seq<char>)
    ensures
        is_audio(Some("wav"@)),
        is_audio(Some("mp3"@)),
        is_audio(Some("m4a"@)),
        is_audio(Some("flac"@)),
        !is_audio(None),
        is_audio(Some(e)) ==> 3 <= e.len() <= 4,
{
    reveal_strlit("wav");
    reveal_strlit("mp3");
    reveal_strlit("m4a");
    reveal_strlit("aac");
    reveal_strlit("flac");
    reveal_strlit("ogg");
    reveal_strlit("opus");
    reveal_strlit("aiff");
    reveal_strlit("aif");
    reveal_strlit("caf");
    assert(crate::browse::same_ascii_case_aside(crate::browse::audio_extension(0)@, "wav"@));
    assert(crate::browse::same_ascii_case_aside(crate::browse::audio_extension(1)@, "mp3"@));
    assert(crate::browse::same_ascii_case_aside(crate::browse::audio_extension(2)@, "m4a"@));
    assert(crate::browse::same_ascii_case_aside(crate::browse::audio_extension(4)@, "flac"@));
}

// ─── The settings ────────────────────────────────────────────────────────────

/// A row shows what is in use: provider, model, address, switch; a key only
/// masked, with what came of its check.
pub proof fn rows_show_what_is_in_use(v: SettingsView, sur: Surroundings)
    requires
        v.edit == EditView::Idle,
    ensures
        v.row(Row::AssistantProvider, sur).value == v.config.assistant().label()@,
        v.row(Row::SpeechProvider, sur).value == v.config.speech().label()@,
        v.row(Row::AssistantEndpoint, sur).value == v.config.assistant_url(),
        v.row(Row::SpeechEndpoint, sur).value == v.config.speech_url(),
        v.row(Row::AssistantServer, sur).value == v.config.ollama_endpoint(),
        v.config.mode matches EnrichmentView::Cloud { model: Some(m), .. } ==> v.row(
            Row::AssistantModel,
            sur,
        ).value == m,
        v.config.mode matches EnrichmentView::Local { ollama_model, .. } ==> v.row(
            Row::AssistantModel,
            sur,
        ).value == ollama_model,
        v.config.speech() != SpeechProvider::Local ==> v.row(Row::SpeechModel, sur).value
            == v.config.speech_model(),
        v.config.transcription matches crate::config::TranscriptionView::Local { model } ==> v.row(
            Row::SpeechModel,
            sur,
        ).value == model.display_name()@,
        v.row(Row::AutoStop, sur).value == (if v.config.silence_auto_stop.enabled {
            "Enabled"@
        } else {
            "Disabled"@
        }),
        v.row(Row::MeetingWatch, sur).value == (if v.config.meeting_watch {
            "Enabled"@
        } else {
            "Disabled"@
        }),
        v.row(Row::CheckUpdates, sur).value == (if v.config.check_for_updates {
            "Enabled"@
        } else {
            "Disabled"@
        }),
        v.config.assistant_key().len() > 0 ==> v.row(Row::AssistantKey, sur).value == masked(
            v.config.assistant_key(),
        ),
        v.config.speech_key().len() > 0 ==> v.row(Row::SpeechKey, sur).value == masked(
            v.config.speech_key(),
        ),
{
    reveal(SettingsView::row);
}

/// A secret is masked while it is typed, too.
pub proof fn secrets_stay_masked(
    v: SettingsView,
    row: Row,
    buffer: Seq<char>,
    note: Option<Seq<char>>,
    sur: Surroundings,
)
    ensures
        v.edit == (EditView::Text { row, buffer, secret: true, note }) ==> v.row(row, sur).value
            == masked(buffer) + "_"@ && v.row(row, sur).editing,
        v.edit == (EditView::Text { row, buffer, secret: false, note }) ==> v.row(row, sur).value
            == buffer + "_"@ && v.row(row, sur).editing,
{
    reveal(SettingsView::row);
}

/// Of a masked secret at most the last four characters can be read, and of a
/// short one none.
pub proof fn masks_show_four_characters(s: Seq<char>)
    ensures
        s.len() <= 4 ==> forall|i: int| 0 <= i < masked(s).len() ==> #[trigger] masked(s)[i]
            == '\u{2022}',
        s.len() > 4 ==> masked(s).subrange(masked(s).len() - 4, masked(s).len() as int)
            == s.subrange(s.len() - 4, s.len() as int),
        s.len() > 4 ==> masked(s).len() == 13,
{
    reveal_strlit("\u{2026}");
    if s.len() > 4 {
        assert(masked(s).subrange(masked(s).len() - 4, masked(s).len() as int) =~= s.subrange(
            s.len() - 4,
            s.len() as int,
        ));
    }
}

/// A key row tells whether the key was found valid or rejected, and why.
pub proof fn key_rows_tell_the_verdict(
    stored: Seq<char>,
    resolves: bool,
    env: Seq<char>,
    why: Seq<char>,
)
    ensures
        key_row_view(stored, resolves, env, Some(KeyStatusView::Valid)).tone == DetailTone::Good,
        key_row_view(stored, resolves, env, Some(KeyStatusView::Invalid(why))).tone
            == DetailTone::Bad,
        key_row_view(stored, resolves, env, Some(KeyStatusView::Invalid(why))).detail
            == "\u{2717} rejected \u{00B7} "@ + reason_of(why),
        key_row_view(stored, resolves, env, None).tone == DetailTone::Neutral,
        stored.len() == 0 && resolves ==> key_row_view(stored, resolves, env, None).value
            == "not set \u{00B7} using "@ + env + " from environment"@,
        stored.len() == 0 && !resolves ==> key_row_view(stored, resolves, env, None).value
            == "not set"@,
{
}

/// A rejection is boiled down by what it says: the key, the rate, or the host.
pub proof fn reasons_are_boiled_down(msg: Seq<char>)
    ensures
        occurs(lowercase(msg), "401"@) || occurs(lowercase(msg), "api key"@) ==> reason_of(msg)
            == "invalid key"@,
        reason_of(msg) == "rate limited"@ ==> occurs(lowercase(msg), "rate limit"@) || occurs(
            lowercase(msg),
            "429"@,
        ) || reason_of(msg) == crate::settings_text::fitted(
            crate::settings_text::first_line_of(msg),
            40,
        ),
        reason_of(msg).len() <= 40,
{
    reveal_strlit("invalid key");
    reveal_strlit("rate limited");
    reveal_strlit("host unreachable");
    crate::settings_text::fitted_fits(crate::settings_text::first_line_of(msg), 40);
    assert("invalid key"@.len() == 11);
    assert("rate limited"@.len() == 12);
    assert("host unreachable"@.len() == 16);
    assert("invalid key"@[0] == 'i' && "rate limited"@[0] == 'r' && "host unreachable"@[0] == 'h');
}

/// A time is told in seconds below a minute, and in minutes and seconds above.
pub proof fn timeouts_are_told(s: nat)
    ensures
        s < 60 ==> seconds_text(s) == decimal(s) + "s"@,
        s >= 60 && s % 60 == 0 ==> seconds_text(s) == decimal(s / 60) + "m"@,
        s >= 60 && s % 60 != 0 ==> seconds_text(s) == decimal(s / 60) + "m "@ + decimal(s % 60)
            + "s"@,
{
}

// ─── The voice ───────────────────────────────────────────────────────────────

/// The way of a voice: Enter records, the recording is stopped when its time is
/// up or by Enter, what was recorded is learned, and what was learned is told.
pub proof fn a_voice_is_recorded_and_learned(
    v: VoiceView,
    news: VoiceNews,
    elapsed: u64,
    level: u32,
)
    ensures
        v.phase == VoicePhaseView::Prompt ==> {
            let next = v.pressing(Key::Enter).0;
            &&& next.phase == (VoicePhaseView::Recording { elapsed: 0, level: 0, stop_at: None })
            &&& next.errands == v.errands.push(VoiceErrand::Record)
            &&& v.pressing(Key::Char('s')).0.phase == VoicePhaseView::Skipped
            &&& v.pressing(Key::Char('s')).1 == VoiceAction::Finished
        },
        v.phase == (VoicePhaseView::Recording { elapsed, level, stop_at: None }) ==> {
            &&& elapsed >= 12_000 && !news.recorder_finished ==> v.ticking(news).errands
                == v.errands.push(VoiceErrand::Stop)
            &&& elapsed < 12_000 && !news.recorder_finished ==> v.ticking(news).errands
                == v.errands && v.ticking(news).phase is Recording
            &&& news.recorder_finished ==> v.ticking(news).phase == VoicePhaseView::Processing
                && v.ticking(news).errands.last() == VoiceErrand::Learn
            &&& news.level matches Some(l) ==> (!news.recorder_finished ==> v.ticking(
                news,
            ).phase->level == l)
        },
        v.phase == VoicePhaseView::Processing ==> {
            &&& news.learned matches Some(Ok((stored, total_samples, total_secs))) ==> v.ticking(
                news,
            ).phase == (VoicePhaseView::Done { stored, total_samples, total_secs })
            &&& news.learned matches Some(Err(msg)) ==> v.ticking(news).phase
                == VoicePhaseView::Failed(msg@)
            &&& news.learned is None ==> v.ticking(news) == v
        },
        v.phase is Done ==> v.pressing(Key::Enter).1 == VoiceAction::Finished,
        v.phase is Failed ==> v.pressing(Key::Enter).1 == VoiceAction::Finished,
{
}

// ─── Headers ─────────────────────────────────────────────────────────────────

/// The heading of a transcript has the name of its recording and its length.
pub proof fn the_heading_names_the_recording(r: RecordingView)
    ensures
        crate::transcript::header_line(Some(r))[1].text == r.shown_name(),
        r.duration_seconds matches Some(s) ==> crate::transcript::header_line(Some(r))[2].text
            == " \u{00B7} "@ + crate::numbers::hours_minutes(s as int) + " \u{00B7} "@
            + crate::times::time_text(
            r.created_utc as int,
            crate::times::MOMENT_PATTERN@,
        ),
{
}

proof fn counts_add(list: Seq<EntityView>, e: EntityView, t: Seq<char>)
    ensures
        crate::entities_view::count_of(list.push(e), t) == crate::entities_view::count_of(list, t)
            + (if e.entity_type == t {
            1nat
        } else {
            0nat
        }),
{
    assert(list.push(e).drop_last() =~= list);
}

/// The header of the entities counts people, organizations and projects: one
/// more entity of a type counts one more, and no other count changes.
pub proof fn entities_are_counted(list: Seq<EntityView>, e: EntityView, t: Seq<char>)
    ensures
        crate::entities_view::count_of(Seq::empty(), t) == 0,
        e.entity_type == t ==> crate::entities_view::count_of(list.push(e), t)
            == crate::entities_view::count_of(list, t) + 1,
        e.entity_type != t ==> crate::entities_view::count_of(list.push(e), t)
            == crate::entities_view::count_of(list, t),
        crate::entities_view::count_of(list, "person"@) > 0 ==> crate::entities_view::count_parts(
            list,
        )[0] == decimal(crate::entities_view::count_of(list, "person"@)) + " people"@,
{
    counts_add(list, e, t);
}

/// The footer of the list tells how many recordings there are and how long they
/// are together.
pub proof fn the_footer_tells_the_totals(s: crate::recordings::RecordingStats)
    ensures
        crate::browse_view::stats_text(Some(s)) == " \u{00B7} "@ + crate::text::signed_decimal(
            s.total_recordings as int,
        ) + " recordings \u{00B7} "@ + total_text(s.total_duration_seconds as int),
        s.total_duration_seconds >= 3600 ==> total_text(s.total_duration_seconds as int)
            == decimal((s.total_duration_seconds / 3600) as nat) + "h "@ + (decimal(
            ((s.total_duration_seconds % 3600) / 60) as nat,
        ) + "m"@),
        0 <= s.total_duration_seconds < 3600 ==> total_text(s.total_duration_seconds as int)
            == decimal((s.total_duration_seconds / 60) as nat) + "m"@,
{
}

/// A recording of the home screen changes nothing but its mark when the state
/// of the work does.
pub proof fn only_the_mark_changes(
    rec: HomeRecordingView,
    jobs: JobsView,
    info: Option<RecordingInfoView>,
)
    ensures
        ({
            let next = crate::recording::flagged(rec, jobs, info);
            &&& next.busy == busy(jobs, info, rec.directory_name)
            &&& next.recording_id == rec.recording_id
            &&& next.name == rec.name
            &&& next.directory_name == rec.directory_name
            &&& next.summary_line == rec.summary_line
        }),
{
}

/// The rows stand in the order of the recordings: one more recording adds its
/// row behind all others.
pub proof fn rows_stand_in_order(
    v: Seq<RecordingView>,
    labels: Seq<(Seq<char>, Seq<char>)>,
    selected: int,
    jobs: JobsView,
    width: int,
    n: nat,
)
    requires
        0 < n <= v.len(),
        labels.len() == v.len(),
    ensures
        ({
            let before = rows_below(v, labels, selected, jobs, width, (n - 1) as nat).lines;
            let all = rows_below(v, labels, selected, jobs, width, n).lines;
            &&& before.len() < all.len()
            &&& all.take(before.len() as int) == before
            &&& all.last() == row_line(
                v[n - 1],
                labels[n - 1].1,
                selected == n - 1,
                jobs,
                width,
            )
        }),
{
    let before = rows_below(v, labels, selected, jobs, width, (n - 1) as nat).lines;
    let all = rows_below(v, labels, selected, jobs, width, n).lines;
    assert(all.take(before.len() as int) =~= before);
}

/// Enter stops a recording of a voice once enough was captured, and a
/// microphone that does not answer is given up.
pub proof fn a_voice_can_be_stopped(v: VoiceView, news: VoiceNews, elapsed: u64, level: u32, at: u64)
    ensures
        v.phase == (VoicePhaseView::Recording { elapsed, level, stop_at: None }) && elapsed >= 4_000
            ==> v.pressing(Key::Enter).0.errands == v.errands.push(VoiceErrand::Stop),
        v.phase == (VoicePhaseView::Recording { elapsed, level, stop_at: Some(at) }) && elapsed
            >= at && elapsed - at > 8_000 && !news.recorder_finished ==> v.ticking(news).phase
            is Failed && v.ticking(news).errands == v.errands.push(VoiceErrand::Abort),
{
}

} // verus!
