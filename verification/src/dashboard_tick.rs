//! What happens to the dashboard between key presses: work that has ended,
//! answers that come in, animations.
use vstd::prelude::*;

use crate::browse::{
    deletion_error, deletion_failure, Deletion, DeletionView, FileDialog, FileDialogStage,
    FileDialogView, Listing, ListingView,
};
use crate::chat::{fresh_chat, ChatState, ChatStreamEvent, ChatView, EntryView, MessageView};
use crate::chat_keys::MouseKind;
use crate::config::{
    ConfigView, EnrichmentMode, EnrichmentView, ScribaConfig, TranscriptionMode, TranscriptionView,
    DEFAULT_OLLAMA_ENDPOINT,
};
use crate::dashboard::{
    Capture, CaptureView, Chore, ChoreView, Dashboard, DashboardAction, DashboardModel,
    DashboardView, Shell, ShellView, Update, UpdateView,
};
use crate::entities::{entity_views, fresh_entities, Entities, Entity};
use crate::home::{
    global_suggestions, recording_suggestions, suggest_for_recording, suggest_globally,
};
use crate::jobs::{Jobs, JobsView, RecordingMode};
use crate::ollama::OllamaListing;
use crate::onboarding::{fresh_onboarding, Onboarding, TickInput, TickResult, TickResultView};
use crate::onboarding_tick::frame_after;
use crate::recording::{
    bar_of, option_info, progress_bar, progress_message, progress_spinner, toggle_of,
    toggle_recording, RecordingInfo, RecordingInfoView, Toggle,
};
use crate::recordings::{recording_views, Recording, RecordingStats, RecordingView};
use crate::settings::{fresh_settings, save_error, Settings, SettingsView, What};
use crate::text::{cat, cat4, option_text};
use crate::transcript::{Transcript, TranscriptRow, TranscriptView};

verus! {

// ─── Begin ───────────────────────────────────────────────────────────────────

/// The dashboard before anything was loaded.
pub open spec fn fresh_dashboard(config: ConfigView, limit: Option<Seq<char>>) -> DashboardModel {
    DashboardModel {
        shell: ShellView {
            current_view: DashboardView::Main,
            show_help: false,
            show_message: false,
            message: Seq::empty(),
            return_to_view: None,
            notification: None,
            owl_frame: None,
            owner_name: Seq::empty(),
        },
        capture: CaptureView {
            playing: false,
            recording: false,
            stop_sent: false,
            mode: None,
            progress_animation: None,
            last_transcribe_warning: None,
        },
        update: UpdateView { available: None, in_progress: false, completed: None },
        jobs: JobsView { active: None, queue: Seq::empty(), progress_frame: 0 },
        list: ListingView {
            recordings: Seq::empty(),
            selected: Some(0),
            current_page: 0,
            turned_from: None,
            enters_at_end: false,
            search_mode: false,
            search_query: Seq::empty(),
            stats: None,
        },
        deletion: DeletionView { show_delete_confirm: false, selection: 1, candidate: None },
        import: FileDialogView {
            shown: false,
            path_input: Seq::empty(),
            name_input: Seq::empty(),
            stage: FileDialogStage::FilePath,
        },
        transcript: TranscriptView {
            shown: false,
            content: Seq::empty(),
            summary: None,
            key_points: None,
            topics: None,
            entities: None,
            recording: None,
            scroll: 0,
        },
        chat: fresh_chat(limit),
        aside: Seq::empty(),
        settings: fresh_settings(config),
        entities: fresh_entities(),
        onboarding: None,
        chores: Seq::empty(),
    }
}

impl Dashboard {
    /// The dashboard before anything was loaded. `limit` is the size of the
    /// context window that the user set.
    pub fn new(config: ScribaConfig, limit: &Option<String>) -> (r: Dashboard)
        ensures
            r@ == fresh_dashboard(config@, option_text(*limit)),
    {
        let r = Dashboard {
            shell: Shell {
                current_view: DashboardView::Main,
                show_help: false,
                show_message: false,
                message: String::new(),
                return_to_view: None,
                notification: None,
                owl_frame: None,
                owner_name: String::new(),
            },
            capture: Capture {
                playing: false,
                recording: false,
                stop_sent: false,
                mode: None,
                progress_animation: None,
                last_transcribe_warning: None,
            },
            update: Update { available: None, in_progress: false, completed: None },
            jobs: Jobs::new(),
            list: Listing::new(),
            deletion: Deletion::new(),
            import: FileDialog::new(),
            transcript: Transcript::new(),
            chat: ChatState::new(limit),
            aside: Vec::new(),
            settings: Settings::new(config),
            entities: Entities::new(),
            onboarding: None,
            chores: Vec::new(),
        };
        assert(r@.aside =~= Seq::<MessageView>::empty());
        assert(r@.chores =~= Seq::<ChoreView>::empty());
        r
    }

    /// The program starts: without a file on the owner's world the onboarding
    /// comes first.
    pub fn begin(&mut self, world_exists: bool)
        ensures
            final(self)@ == old(self)@.begun(world_exists),
    {
        self.push_chore(Chore::LoadRecordings);
        self.push_chore(Chore::LoadStats);
        if self.settings.config.check_for_updates {
            self.push_chore(Chore::CheckForUpdate);
        }
        if world_exists {
            self.push_chore(Chore::RefreshEntities);
            self.push_chore(Chore::BeginChat);
        } else {
            self.shell.current_view = DashboardView::Onboarding;
            self.onboarding = Some(Onboarding::new());
        }
    }
}

impl DashboardModel {
    /// The program has started.
    pub open spec fn begun(self, world_exists: bool) -> DashboardModel {
        let loading = self.doing(ChoreView::LoadRecordings).doing(ChoreView::LoadStats);
        let checked = if self.settings.config.check_for_updates {
            loading.doing(ChoreView::CheckForUpdate)
        } else {
            loading
        };
        if world_exists {
            checked.doing(ChoreView::RefreshEntities).doing(ChoreView::BeginChat)
        } else {
            (DashboardModel { onboarding: Some(fresh_onboarding()), ..checked }).viewing(
                DashboardView::Onboarding,
            )
        }
    }
}

impl DashboardModel {
    /// The chat about everything begins, with a greeting.
    pub open spec fn chat_begun(self, owner: Seq<char>, prompt: Seq<char>, today: int) -> DashboardModel {
        DashboardModel {
            shell: ShellView { owner_name: owner, ..self.shell },
            chat: self.chat.globally(
                prompt,
                global_suggestions(self.entities.entities, self.list.recordings),
            ).greeted(owner, self.list.recordings, today),
            ..self
        }
    }

    /// New recordings were loaded.
    pub open spec fn recordings_loaded(self, v: Seq<RecordingView>, today: int) -> DashboardModel {
        let (list, again) = self.list.turned(v);
        let next = DashboardModel {
            list,
            chat: if self.shell.owner_name.len() > 0 {
                self.chat.greeted(self.shell.owner_name, v, today)
            } else {
                self.chat
            },
            ..self
        };
        if again {
            next.doing(ChoreView::LoadRecordings)
        } else {
            next
        }
    }

    /// The transcript of a recording was read, or could not be.
    pub open spec fn transcript_loaded(
        self,
        r: RecordingView,
        reports_failure: bool,
        content: Result<String, String>,
        row: Option<TranscriptRow>,
        prompt: Seq<char>,
    ) -> DashboardModel {
        match content {
            Ok(text) => self.transcript_opened(r, text@, row, prompt),
            Err(e) => if reports_failure {
                self.telling("Failed to load transcript: "@ + e@)
            } else {
                self
            },
        }
    }

    /// The transcript of a recording is shown, and the chat is about it.
    pub open spec fn transcript_opened(
        self,
        r: RecordingView,
        content: Seq<char>,
        row: Option<TranscriptRow>,
        prompt: Seq<char>,
    ) -> DashboardModel {
        let known = (TranscriptView { content, shown: true, ..self.transcript }).enriched(r, row);
        let transcript = TranscriptView { recording: Some(r), scroll: 0, ..known };
        DashboardModel {
            transcript,
            chat: self.chat.about(
                r,
                prompt,
                recording_suggestions(Some(r), transcript.entities),
            ),
            aside: self.chat.talk.messages,
            ..self
        }
    }
}

impl Dashboard {
    /// Begins the chat about everything.
    pub fn init_global_chat(&mut self, owner: String, prompt: String, today: i64)
        ensures
            final(self)@ == old(self)@.chat_begun(owner@, prompt@, today as int),
    {
        let suggestions = suggest_globally(&self.entities.entities, &self.list.recordings);
        self.chat.init_global_chat(prompt, suggestions);
        self.chat.generate_greeting(owner.as_str(), &self.list.recordings, today);
        self.shell.owner_name = owner;
    }

    /// The recordings were loaded.
    pub fn on_recordings_loaded(&mut self, v: Vec<Recording>, today: i64)
        ensures
            final(self)@ == old(self)@.recordings_loaded(recording_views(v@), today as int),
    {
        let again = self.list.on_recordings(v);
        if self.shell.owner_name.as_str().unicode_len() > 0 {
            self.chat.generate_greeting(
                self.shell.owner_name.as_str(),
                &self.list.recordings,
                today,
            );
        }
        if again {
            self.push_chore(Chore::LoadRecordings);
        }
    }

    pub fn on_stats_loaded(&mut self, stats: RecordingStats)
        ensures
            final(self)@ == old(self)@.with_list(
                crate::browse::ListingView { stats: Some(stats), ..old(self)@.list },
            ),
    {
        self.list.stats = Some(stats);
    }

    /// The entities were loaded.
    pub fn on_entities_loaded(&mut self, v: Vec<Entity>)
        ensures
            final(self)@ == (DashboardModel {
                entities: old(self)@.entities.loaded(entity_views(v@)),
                ..old(self)@
            }),
    {
        self.entities.load_entities(v);
    }

    /// The transcript of a recording was read, or could not be.
    pub fn on_transcript_loaded(
        &mut self,
        recording: Recording,
        reports_failure: bool,
        content: Result<String, String>,
        row: &Option<TranscriptRow>,
        prompt: String,
    )
        ensures
            final(self)@ == old(self)@.transcript_loaded(
                recording@,
                reports_failure,
                content,
                *row,
                prompt@,
            ),
    {
        match content {
            Ok(text) => {
                self.transcript.content = text;
                self.transcript.shown = true;
                self.transcript.load_enrichment_data(&recording, row);
                let about = Some(recording.copy());
                let suggestions = suggest_for_recording(&about, &self.transcript.entities);
                self.transcript.recording = about;
                self.transcript.scroll = 0;
                self.aside = self.chat.init_recording_chat(&recording, prompt, suggestions);
            },
            Err(e) => {
                if reports_failure {
                    self.tell(cat("Failed to load transcript: ", e.as_str()));
                }
            },
        }
    }
}

// ─── Recording ───────────────────────────────────────────────────────────────

/// How a recording ended.
#[derive(Debug)]
pub enum RecordingOutcome {
    Done { recording_name: String, auto_stopped: bool },
    Failed(String),
    Crashed,
}

/// How a transcription ended.
#[derive(Debug)]
pub enum JobOutcome {
    Done,
    Failed(String),
    Crashed,
}

impl DashboardModel {
    /// A recording is started, unless one is going on.
    pub open spec fn recording_wanted(self) -> DashboardModel {
        if self.capture.recording {
            self.noting("Already recording \u{2014} Ctrl+R stops it."@, 30)
        } else {
            let stop = self.settings.config.silence_auto_stop;
            (DashboardModel {
                jobs: JobsView { progress_frame: 0, ..self.jobs },
                capture: CaptureView {
                    mode: Some(RecordingMode::RecordAndTranscribe),
                    ..self.capture
                },
                ..self
            }).doing(
                ChoreView::StartRecording {
                    silence_timeout: if stop.enabled {
                        Some(stop.timeout_seconds)
                    } else {
                        None
                    },
                },
            )
        }
    }

    /// Ctrl+R.
    pub open spec fn toggled(self, info: Option<RecordingInfoView>) -> DashboardModel {
        match toggle_of(self.capture.recording, info) {
            Toggle::Stop => self.recording_stopped(),
            Toggle::StopMeeting => self.doing(ChoreView::StopMeeting).noting(
                "Stopping meeting recording\u{2026}"@,
                30,
            ),
            Toggle::Wait => self.noting("Meeting recording is being processed."@, 30),
            Toggle::Start => self.recording_wanted(),
        }
    }

    /// Nothing is recorded any more.
    pub open spec fn recorder_idle(self) -> DashboardModel {
        self.with_capture(
            CaptureView {
                recording: false,
                stop_sent: false,
                mode: None,
                progress_animation: None,
                ..self.capture
            },
        )
    }

    /// A recording has ended. It is transcribed, where it was made for that.
    pub open spec fn recorded(self, outcome: RecordingOutcome) -> DashboardModel {
        let idle = self.recorder_idle();
        match outcome {
            RecordingOutcome::Done { recording_name, auto_stopped } => {
                let noted = if auto_stopped {
                    idle.noting(
                        "Silence detected \u{2014} recording stopped automatically."@,
                        120,
                    )
                } else {
                    idle
                };
                if self.capture.mode is Some {
                    noted.hushed().doing(ChoreView::RefreshRecordings).doing(
                        ChoreView::RefreshStats,
                    ).retranscribing(recording_name@)
                } else {
                    noted.telling("Recording complete."@).doing(ChoreView::RefreshRecordings).doing(
                        ChoreView::RefreshStats,
                    )
                }
            },
            RecordingOutcome::Failed(e) => idle.telling("Recording failed: "@ + e@),
            RecordingOutcome::Crashed => idle.telling("Recording task failed."@),
        }
    }

    /// The running transcription has ended, and the next one starts.
    pub open spec fn transcribed(self, outcome: JobOutcome) -> DashboardModel {
        match self.jobs.active {
            Some(name) => {
                let (jobs, started) = self.jobs.finishing();
                let told = match outcome {
                    JobOutcome::Done => self.noting("Transcription complete: "@ + name, 30).doing(
                        ChoreView::RefreshRecordings,
                    ).doing(ChoreView::RefreshStats),
                    JobOutcome::Failed(e) => self.noting(
                        "Transcription failed ("@ + name + "): "@ + e@,
                        50,
                    ),
                    JobOutcome::Crashed => self.noting(
                        "Transcription task failed: "@ + name,
                        50,
                    ),
                };
                (DashboardModel { jobs, ..told }).starting(started)
            },
            None => self,
        }
    }

    /// The recording under the cursor is to be transcribed. Where it has a
    /// transcript, the first request warns, and the second goes through.
    pub open spec fn transcribing(self, has_transcript: bool) -> DashboardModel {
        if self.jobs.active is Some {
            self.telling("Transcription already in progress. Please wait..."@)
        } else {
            match self.list.selected {
                None => self.telling("No recording selected"@),
                Some(i) => if i >= self.list.recordings.len() {
                    self.telling("Invalid recording selection"@)
                } else if has_transcript && self.capture.last_transcribe_warning != Some(i) {
                    self.with_capture(
                        CaptureView { last_transcribe_warning: Some(i), ..self.capture },
                    ).telling(
                        "Recording already has transcript. Press T again to overwrite."@,
                    )
                } else {
                    self.with_capture(
                        CaptureView { last_transcribe_warning: None, ..self.capture },
                    ).retranscribing(self.list.recordings[i as int].directory_name)
                },
            }
        }
    }
}

impl DashboardModel {
    /// What a key asked of the program is done. `info` tells what is being
    /// recorded, and `has_transcript` what the database says of the recording
    /// under the cursor.
    pub open spec fn acting_on(
        self,
        action: DashboardAction,
        info: Option<RecordingInfoView>,
        has_transcript: bool,
    ) -> DashboardModel {
        match action {
            DashboardAction::RecordAndTranscribe => self.recording_wanted(),
            DashboardAction::ToggleRecording => self.toggled(info),
            DashboardAction::TranscribeSelected => self.transcribing(has_transcript),
            _ => self,
        }
    }
}

impl Dashboard {
    /// Does what a key asked of the program; whether the program ends.
    pub fn handle_dashboard_action(
        &mut self,
        action: DashboardAction,
        info: &Option<RecordingInfo>,
        has_transcript: bool,
    ) -> (quit: bool)
        ensures
            quit == (action == DashboardAction::Quit),
            final(self)@ == old(self)@.acting_on(action, option_info(*info), has_transcript),
    {
        match action {
            DashboardAction::RecordAndTranscribe => self.execute_record_and_transcribe(),
            DashboardAction::ToggleRecording => self.toggle_recording(info),
            DashboardAction::TranscribeSelected => self.execute_transcribe_selected(has_transcript),
            DashboardAction::Continue => {},
            DashboardAction::Quit => {
                return true;
            },
        }
        false
    }

    /// Starts a recording, unless one is going on.
    pub fn execute_record_and_transcribe(&mut self)
        ensures
            final(self)@ == old(self)@.recording_wanted(),
    {
        if self.capture.recording {
            self.note("Already recording \u{2014} Ctrl+R stops it.".to_owned(), 30);
            return;
        }
        self.jobs.progress_frame = 0;
        self.capture.mode = Some(RecordingMode::RecordAndTranscribe);
        let stop = self.settings.config.silence_auto_stop;
        let silence_timeout = if stop.enabled {
            Some(stop.timeout_seconds)
        } else {
            None
        };
        self.push_chore(Chore::StartRecording { silence_timeout });
    }

    /// Ctrl+R: start a manual recording, or stop whichever recording (manual
    /// or meeting) is in progress.
    pub fn toggle_recording(&mut self, info: &Option<RecordingInfo>)
        ensures
            final(self)@ == old(self)@.toggled(option_info(*info)),
    {
        match toggle_recording(self.capture.recording, info) {
            Toggle::Stop => {
                if !self.capture.stop_sent {
                    self.capture.stop_sent = true;
                    self.push_chore(Chore::StopRecording);
                }
            },
            Toggle::StopMeeting => {
                self.push_chore(Chore::StopMeeting);
                self.note("Stopping meeting recording\u{2026}".to_owned(), 30);
            },
            Toggle::Wait => self.note("Meeting recording is being processed.".to_owned(), 30),
            Toggle::Start => self.execute_record_and_transcribe(),
        }
    }

    /// The recorder runs.
    pub fn on_recording_started(&mut self)
        ensures
            final(self)@ == old(self)@.with_capture(
                CaptureView { recording: true, stop_sent: false, ..old(self)@.capture },
            ),
    {
        self.capture.recording = true;
        self.capture.stop_sent = false;
    }

    /// The recorder is taken: a meeting is being recorded.
    pub fn on_recording_refused(&mut self)
        ensures
            final(self)@ == old(self)@.with_capture(
                CaptureView { mode: None, ..old(self)@.capture },
            ).noting("A meeting is being auto-recorded \u{2014} Ctrl+R stops it."@, 40),
    {
        self.capture.mode = None;
        self.note(
            "A meeting is being auto-recorded \u{2014} Ctrl+R stops it.".to_owned(),
            40,
        );
    }

    /// A recording has ended.
    pub fn on_recording_finished(&mut self, outcome: RecordingOutcome)
        ensures
            final(self)@ == old(self)@.recorded(outcome),
    {
        let transcribe = self.capture.mode.is_some();
        self.capture.recording = false;
        self.capture.stop_sent = false;
        self.capture.mode = None;
        self.capture.progress_animation = None;
        match outcome {
            RecordingOutcome::Done { recording_name, auto_stopped } => {
                if auto_stopped {
                    self.note(
                        "Silence detected \u{2014} recording stopped automatically.".to_owned(),
                        120,
                    );
                }
                if transcribe {
                    self.hush();
                    self.push_chore(Chore::RefreshRecordings);
                    self.push_chore(Chore::RefreshStats);
                    self.retranscribe(recording_name);
                } else {
                    self.tell("Recording complete.".to_owned());
                    self.push_chore(Chore::RefreshRecordings);
                    self.push_chore(Chore::RefreshStats);
                }
            },
            RecordingOutcome::Failed(e) => self.tell(cat("Recording failed: ", e.as_str())),
            RecordingOutcome::Crashed => self.tell("Recording task failed.".to_owned()),
        }
    }

    /// The running transcription has ended.
    pub fn on_transcription_finished(&mut self, outcome: JobOutcome)
        ensures
            final(self)@ == old(self)@.transcribed(outcome),
    {
        let name = match &self.jobs.active {
            Some(name) => name.clone(),
            None => {
                return;
            },
        };
        match outcome {
            JobOutcome::Done => {
                self.note(cat("Transcription complete: ", name.as_str()), 30);
                self.push_chore(Chore::RefreshRecordings);
                self.push_chore(Chore::RefreshStats);
            },
            JobOutcome::Failed(e) => self.note(
                cat4("Transcription failed (", name.as_str(), "): ", e.as_str()),
                50,
            ),
            JobOutcome::Crashed => self.note(
                cat("Transcription task failed: ", name.as_str()),
                50,
            ),
        }
        let started = self.jobs.finish_transcription();
        self.start_transcription(started);
    }

    /// Transcribes the recording under the cursor; `has_transcript` is what
    /// the database says of it.
    pub fn execute_transcribe_selected(&mut self, has_transcript: bool)
        ensures
            final(self)@ == old(self)@.transcribing(has_transcript),
    {
        if self.jobs.has_active_transcription() {
            self.tell("Transcription already in progress. Please wait...".to_owned());
            return;
        }
        let i = match self.list.selected {
            Some(i) => i,
            None => {
                self.tell("No recording selected".to_owned());
                return;
            },
        };
        if i >= self.list.recordings.len() {
            self.tell("Invalid recording selection".to_owned());
            return;
        }
        let warned = match self.capture.last_transcribe_warning {
            Some(j) => i == j,
            None => false,
        };
        if has_transcript && !warned {
            self.capture.last_transcribe_warning = Some(i);
            self.tell("Recording already has transcript. Press T again to overwrite.".to_owned());
            return;
        }
        self.capture.last_transcribe_warning = None;
        assert(self@.list.recordings[i as int] == self.list.recordings@[i as int]@);
        let name = self.list.recordings[i].directory_name.clone();
        self.retranscribe(name);
    }
}

// ─── Playing, deleting, copying, saving ──────────────────────────────────────

/// What became of a recording that was to be deleted.
#[derive(Debug)]
pub enum DeletionOutcome {
    /// It is gone, and the list is loaded; its files may have stayed, for a
    /// reason.
    Done { files_left: Option<String> },
    /// The database refused.
    Refused,
    /// It is gone, but something else went wrong.
    Failed { files_left: Option<String>, reason: String },
}

impl DashboardModel {
    /// Files of a deleted recording stayed.
    pub open spec fn files_stayed(self, files_left: Option<String>) -> DashboardModel {
        match files_left {
            Some(e) => self.noting("DB row deleted but files not removed: "@ + e@, 60),
            None => self,
        }
    }

    /// A player was started with a message, or none could be.
    pub open spec fn playback_began(self, outcome: Result<String, String>) -> DashboardModel {
        match outcome {
            Ok(msg) => self.with_capture(CaptureView { playing: true, ..self.capture }).telling(
                msg@,
            ),
            Err(e) => self.telling("Failed to play recording: "@ + e@),
        }
    }

    /// The mouse: what it has marked is copied.
    pub open spec fn moused(self, kind: MouseKind, column: int, row: int) -> DashboardModel {
        let (chat, text) = self.chat.moused(kind, column, row);
        let next = DashboardModel { chat, ..self };
        match text {
            Some(t) => next.doing(ChoreView::CopySelection(t)),
            None => next,
        }
    }

    /// Saving the settings failed: the message leads back to them.
    pub open spec fn save_failed(self, what: What, reason: Seq<char>) -> DashboardModel {
        let told = self.telling("Failed to save "@ + what.label()@ + ": "@ + reason);
        told.with_shell(
            ShellView { return_to_view: Some(DashboardView::Settings), ..told.shell },
        )
    }

    /// A recording was deleted, or could not be.
    pub open spec fn deleted(self, id: Option<i64>, outcome: DeletionOutcome) -> DashboardModel {
        if id is None {
            self.telling("Failed to delete recording: "@ + deletion_failure(None))
        } else {
            match outcome {
                DeletionOutcome::Done { files_left } => self.files_stayed(files_left).telling(
                    "Recording deleted."@,
                ),
                DeletionOutcome::Refused => self.telling(
                    "Failed to delete recording: "@ + deletion_failure(id),
                ),
                DeletionOutcome::Failed { files_left, reason } => self.files_stayed(
                    files_left,
                ).telling("Failed to delete recording: "@ + reason@),
            }
        }
    }
}

impl Dashboard {
    /// A player was started with a message, or none could be.
    pub fn on_playback(&mut self, outcome: Result<String, String>)
        ensures
            final(self)@ == old(self)@.playback_began(outcome),
    {
        match outcome {
            Ok(msg) => {
                self.capture.playing = true;
                self.tell(msg);
            },
            Err(e) => self.tell(cat("Failed to play recording: ", e.as_str())),
        }
    }

    /// The player has ended.
    pub fn on_playback_ended(&mut self)
        ensures
            final(self)@ == old(self)@.with_capture(
                CaptureView { playing: false, ..old(self)@.capture },
            ).hushed(),
    {
        self.capture.playing = false;
        self.hush();
    }

    /// A recording was deleted, or could not be.
    pub fn on_deleted(&mut self, id: Option<i64>, outcome: DeletionOutcome)
        ensures
            final(self)@ == old(self)@.deleted(id, outcome),
    {
        if id.is_none() {
            self.tell(cat("Failed to delete recording: ", deletion_error(None).as_str()));
            return;
        }
        match outcome {
            DeletionOutcome::Done { files_left } => {
                self.note_files(files_left);
                self.tell("Recording deleted.".to_owned());
            },
            DeletionOutcome::Refused => self.tell(
                cat("Failed to delete recording: ", deletion_error(id).as_str()),
            ),
            DeletionOutcome::Failed { files_left, reason } => {
                self.note_files(files_left);
                self.tell(cat("Failed to delete recording: ", reason.as_str()));
            },
        }
    }

    fn note_files(&mut self, files_left: Option<String>)
        ensures
            final(self)@ == old(self)@.files_stayed(files_left),
    {
        match files_left {
            Some(e) => self.note(
                cat("DB row deleted but files not removed: ", e.as_str()),
                60,
            ),
            None => {},
        }
    }

    /// The transcript was copied, or could not be.
    pub fn on_transcript_copied(&mut self, outcome: Result<(), String>)
        ensures
            final(self)@ == (match outcome {
                Ok(_) => old(self)@.noting("Transcript copied to clipboard"@, 40),
                Err(e) => old(self)@.noting("Copy failed: "@ + e@, 40),
            }),
    {
        match outcome {
            Ok(_) => self.note("Transcript copied to clipboard".to_owned(), 40),
            Err(e) => self.note(cat("Copy failed: ", e.as_str()), 40),
        }
    }

    /// Selected text was copied.
    pub fn on_selection_copied(&mut self)
        ensures
            final(self)@ == old(self)@.noting("Copied to clipboard"@, 15),
    {
        self.note("Copied to clipboard".to_owned(), 15);
    }

    /// The configuration could not be saved.
    pub fn settings_error(&mut self, what: What, reason: &str)
        ensures
            final(self)@ == old(self)@.save_failed(what, reason@),
    {
        self.tell(save_error(what, reason));
        self.shell.return_to_view = Some(DashboardView::Settings);
    }

    /// The mouse.
    pub fn handle_mouse_event(&mut self, kind: MouseKind, column: u16, row: u16)
        requires
            old(self).chat.viewport.panel_rect.wf(),
        ensures
            final(self)@ == old(self)@.moused(kind, column as int, row as int),
    {
        match self.chat.handle_mouse_event(kind, column, row) {
            Some(t) => self.push_chore(Chore::CopySelection(t)),
            None => {},
        }
    }
}

// ─── Updates ─────────────────────────────────────────────────────────────────

impl Dashboard {
    /// A newer version was found, or none.
    pub fn on_update_checked(&mut self, version: Option<String>)
        ensures
            final(self)@ == (DashboardModel {
                update: UpdateView {
                    available: match option_text(version) {
                        Some(v) => Some(v),
                        None => old(self)@.update.available,
                    },
                    ..old(self)@.update
                },
                ..old(self)@
            }),
    {
        match version {
            Some(v) => {
                self.update.available = Some(v);
            },
            None => {},
        }
    }

    /// An update was installed, or failed; `None` where its task crashed.
    pub fn on_update_finished(&mut self, outcome: Option<Result<String, String>>)
        ensures
            final(self)@ == (DashboardModel {
                update: UpdateView {
                    in_progress: false,
                    available: if outcome matches Some(Ok(_)) {
                        None
                    } else {
                        old(self)@.update.available
                    },
                    completed: Some(
                        match outcome {
                            Some(Ok(v)) => Ok(v@),
                            Some(Err(e)) => Err(e@),
                            None => Err("Update task failed"@),
                        },
                    ),
                },
                ..old(self)@
            }),
    {
        self.update.in_progress = false;
        match outcome {
            Some(Ok(v)) => {
                self.update.available = None;
                self.update.completed = Some(Ok(v));
            },
            Some(Err(e)) => {
                self.update.completed = Some(Err(e));
            },
            None => {
                self.update.completed = Some(Err("Update task failed".to_owned()));
            },
        }
    }
}

// ─── Frames ──────────────────────────────────────────────────────────────────

impl DashboardModel {
    /// The progress message of the next frame. While audio is captured, it
    /// shows the volume.
    pub open spec fn progressing(self, volume: Seq<char>) -> DashboardModel {
        match self.capture.progress_animation {
            Some(what) => {
                let frame = self.jobs.progress_frame;
                let bar = if self.capture.recording {
                    volume
                } else {
                    bar_of(frame as int)
                };
                DashboardModel {
                    shell: ShellView {
                        message: progress_spinner(frame)@ + " "@ + what + (" ["@ + bar + "]"@),
                        ..self.shell
                    },
                    jobs: JobsView { progress_frame: frame_after(frame), ..self.jobs },
                    ..self
                }
            },
            None => self,
        }
    }

    /// The animation of the transcription that runs or waits.
    pub open spec fn spinning(self) -> DashboardModel {
        if self.jobs.active is Some || self.jobs.queue.len() > 0 {
            DashboardModel {
                jobs: JobsView {
                    progress_frame: frame_after(self.jobs.progress_frame),
                    ..self.jobs
                },
                ..self
            }
        } else {
            self
        }
    }

    /// Notes disappear after their frames, the owls after 150.
    pub open spec fn fading(self) -> DashboardModel {
        self.with_shell(
            ShellView {
                notification: match self.shell.notification {
                    Some((msg, frames)) => if frames == 0 {
                        None
                    } else {
                        Some((msg, (frames - 1) as usize))
                    },
                    None => None,
                },
                owl_frame: match self.shell.owl_frame {
                    Some(f) => if f >= 150 {
                        None
                    } else {
                        Some((f + 1) as usize)
                    },
                    None => None,
                },
                ..self.shell
            },
        )
    }

    /// The spinner of the chat.
    pub open spec fn chat_spinning(self) -> DashboardModel {
        DashboardModel {
            chat: ChatView {
                entry: EntryView {
                    spinner_frame: frame_after(self.chat.entry.spinner_frame),
                    ..self.chat.entry
                },
                ..self.chat
            },
            ..self
        }
    }

    /// The events of the stream; a message that waited goes out when the
    /// answer has ended.
    #[verifier::opaque]
    pub open spec fn heard(self, events: Seq<ChatStreamEvent>) -> DashboardModel {
        let chat = self.chat.hearing_from(events, 0);
        if self.chat.resends(events) {
            let (next, out) = chat.resending();
            let sent = DashboardModel { chat: next, ..self };
            match out {
                Some(o) => sent.doing(ChoreView::Generate(o)),
                None => sent,
            }
        } else {
            DashboardModel { chat, ..self }
        }
    }
}

fn next_frame(frame: usize) -> (r: usize)
    ensures
        r == frame_after(frame),
{
    if frame == usize::MAX {
        0
    } else {
        frame + 1
    }
}

impl Dashboard {
    /// The progress message of the next frame.
    pub fn update_progress_message(&mut self, volume: &str)
        ensures
            final(self)@ == old(self)@.progressing(volume@),
    {
        match &self.capture.progress_animation {
            Some(what) => {
                let frame = self.jobs.progress_frame;
                self.shell.message = if self.capture.recording {
                    progress_message(frame, what.as_str(), volume)
                } else {
                    progress_message(frame, what.as_str(), progress_bar(frame).as_str())
                };
                self.jobs.progress_frame = next_frame(frame);
            },
            None => {},
        }
    }

    fn spin(&mut self)
        ensures
            final(self)@ == old(self)@.spinning(),
    {
        if self.jobs.active.is_some() || self.jobs.queue.len() > 0 {
            self.jobs.progress_frame = next_frame(self.jobs.progress_frame);
        }
    }

    fn fade(&mut self)
        ensures
            final(self)@ == old(self)@.fading(),
    {
        let mut gone = false;
        match &mut self.shell.notification {
            Some((_, frames)) => {
                if *frames == 0 {
                    gone = true;
                } else {
                    *frames = *frames - 1;
                }
            },
            None => {},
        }
        if gone {
            self.shell.notification = None;
        }
        match self.shell.owl_frame {
            Some(f) => {
                self.shell.owl_frame = if f >= 150 {
                    None
                } else {
                    Some(f + 1)
                };
            },
            None => {},
        }
    }

    /// The events of the stream.
    pub fn on_chat_events(&mut self, events: &Vec<ChatStreamEvent>)
        ensures
            final(self)@ == old(self)@.heard(events@),
    {
        proof {
            reveal(DashboardModel::heard);
        }
        if self.chat.poll_stream(events) {
            match self.chat.resend_pending() {
                Some(o) => self.push_chore(Chore::Generate(o)),
                None => {},
            }
        }
    }
}

// ─── Onboarding ──────────────────────────────────────────────────────────────

impl DashboardModel {
    /// What a frame of the onboarding leads to.
    pub open spec fn onboarded(self, result: TickResultView) -> DashboardModel {
        match result {
            TickResultView::Complete => (DashboardModel { onboarding: None, ..self }).viewing(
                DashboardView::Main,
            ).doing(ChoreView::RefreshEntities).doing(ChoreView::BeginChat),
            TickResultView::SaveWhisperKey(key) => (DashboardModel {
                settings: SettingsView {
                    config: crate::config::ConfigView {
                        transcription: TranscriptionView::Api {
                            api_key: key,
                            base_url: None,
                            model: None,
                        },
                        ..self.settings.config
                    },
                    ..self.settings
                },
                ..self
            }).doing(ChoreView::SaveConfig),
            TickResultView::FetchOllamaModels => self.doing(
                ChoreView::FetchOllamaModels(
                    match self.settings.config.mode {
                        EnrichmentView::Local { ollama_endpoint, .. } => ollama_endpoint,
                        EnrichmentView::Cloud { .. } => DEFAULT_OLLAMA_ENDPOINT@,
                    },
                ),
            ),
        }
    }
}

impl Dashboard {
    /// What a frame of the onboarding leads to.
    pub fn on_onboarding_result(&mut self, result: TickResult)
        ensures
            crate::onboarding::tick_result_view(Some(result)) matches Some(v) && final(self)@
                == old(self)@.onboarded(v),
    {
        match result {
            TickResult::Complete => {
                self.onboarding = None;
                self.shell.current_view = DashboardView::Main;
                self.push_chore(Chore::RefreshEntities);
                self.push_chore(Chore::BeginChat);
            },
            TickResult::SaveWhisperKey(key) => {
                self.settings.config.transcription = TranscriptionMode::api(key.as_str());
                self.push_chore(Chore::SaveConfig);
            },
            TickResult::FetchOllamaModels => {
                let endpoint = match &self.settings.config.enrichment.mode {
                    EnrichmentMode::Local { ollama_endpoint, .. } => ollama_endpoint.clone(),
                    EnrichmentMode::Cloud { .. } => DEFAULT_OLLAMA_ENDPOINT.to_owned(),
                };
                self.push_chore(Chore::FetchOllamaModels(endpoint));
            },
        }
    }

    /// The models of Ollama have come, for the onboarding. `false` where it
    /// does not wait for them.
    pub fn on_ollama_models(&mut self, listing: &OllamaListing) -> (taken: bool)
        ensures
            taken == (old(self)@.onboarding matches Some(ob) && ob.chooses_ollama_model()),
            final(self)@ == (if taken {
                DashboardModel {
                    onboarding: Some(
                        old(self)@.onboarding->Some_0.offering(listing.offers()),
                    ),
                    ..old(self)@
                }
            } else {
                old(self)@
            }),
    {
        match &mut self.onboarding {
            Some(ob) => {
                if ob.is_choosing_ollama_model() {
                    ob.on_ollama_models(listing);
                    true
                } else {
                    false
                }
            },
            None => false,
        }
    }
}

// ─── One round ───────────────────────────────────────────────────────────────

/// What has happened since the last round.
#[derive(Debug)]
pub struct News {
    pub recording: Option<RecordingOutcome>,
    pub transcription: Option<JobOutcome>,
    pub playback_ended: bool,
    pub ollama_models: Option<OllamaListing>,
    pub update_check: Option<Option<String>>,
    pub update: Option<Option<Result<String, String>>>,
    /// A tenth of a second has passed.
    pub anim_tick: bool,
    /// The volume as a bar.
    pub volume: String,
    pub onboarding: TickInput,
    pub chat: Vec<ChatStreamEvent>,
}

impl DashboardModel {
    #[verifier::opaque]
    pub open spec fn after_recording(self, o: Option<RecordingOutcome>) -> DashboardModel {
        match o {
            Some(outcome) => self.recorded(outcome),
            None => self,
        }
    }

    #[verifier::opaque]
    pub open spec fn after_transcription(self, o: Option<JobOutcome>) -> DashboardModel {
        match o {
            Some(outcome) => self.transcribed(outcome),
            None => self,
        }
    }

    #[verifier::opaque]
    pub open spec fn after_playback(self, ended: bool) -> DashboardModel {
        if ended {
            self.with_capture(CaptureView { playing: false, ..self.capture }).hushed()
        } else {
            self
        }
    }

    #[verifier::opaque]
    pub open spec fn after_listing(self, o: Option<OllamaListing>) -> DashboardModel {
        match o {
            Some(listing) => if self.onboarding matches Some(ob) && ob.chooses_ollama_model() {
                DashboardModel {
                    onboarding: Some(
                        self.onboarding->Some_0.offering(listing.offers()),
                    ),
                    ..self
                }
            } else {
                self
            },
            None => self,
        }
    }

    #[verifier::opaque]
    pub open spec fn after_check(self, o: Option<Option<String>>) -> DashboardModel {
        match o {
            Some(Some(v)) => DashboardModel {
                update: UpdateView { available: Some(v@), ..self.update },
                ..self
            },
            _ => self,
        }
    }

    #[verifier::opaque]
    pub open spec fn after_update(self, o: Option<Option<Result<String, String>>>) -> DashboardModel {
        match o {
            Some(outcome) => DashboardModel {
                update: UpdateView {
                    in_progress: false,
                    available: if outcome matches Some(Ok(_)) {
                        None
                    } else {
                        self.update.available
                    },
                    completed: Some(
                        match outcome {
                            Some(Ok(v)) => Ok(v@),
                            Some(Err(e)) => Err(e@),
                            None => Err("Update task failed"@),
                        },
                    ),
                },
                ..self
            },
            None => self,
        }
    }

    #[verifier::opaque]
    pub open spec fn after_frame(self, anim_tick: bool, volume: Seq<char>) -> DashboardModel {
        if anim_tick {
            self.progressing(volume).spinning().fading()
        } else {
            self
        }
    }

    /// A round of the onboarding.
    #[verifier::opaque]
    pub open spec fn after_onboarding(self, anim_tick: bool, input: TickInput) -> DashboardModel {
        match self.onboarding {
            Some(ob) => {
                let (next, result) = ob.ticking(anim_tick, input);
                let stepped = DashboardModel { onboarding: Some(next), ..self };
                match result {
                    Some(v) => stepped.onboarded(v),
                    None => stepped,
                }
            },
            None => self,
        }
    }

    /// What a round makes of the news, in this order.
    pub open spec fn ticking(self, news: News) -> DashboardModel {
        let m1 = self.after_recording(news.recording).after_transcription(news.transcription);
        let m2 = m1.after_playback(news.playback_ended).after_listing(news.ollama_models);
        let m3 = m2.after_check(news.update_check).after_update(news.update);
        let m4 = m3.after_frame(news.anim_tick, news.volume@);
        let m5 = m4.after_onboarding(news.anim_tick, news.onboarding).heard(news.chat@);
        if news.anim_tick {
            m5.chat_spinning()
        } else {
            m5
        }
    }
}

impl Dashboard {
    fn take_outcomes(
        &mut self,
        recording: Option<RecordingOutcome>,
        transcription: Option<JobOutcome>,
        playback_ended: bool,
    )
        ensures
            final(self)@ == old(self)@.after_recording(recording).after_transcription(
                transcription,
            ).after_playback(playback_ended),
            final(self)@.onboarding == old(self)@.onboarding,
    {
        proof {
            reveal(DashboardModel::after_recording);
            reveal(DashboardModel::after_transcription);
            reveal(DashboardModel::after_playback);
        }
        match recording {
            Some(outcome) => self.on_recording_finished(outcome),
            None => {},
        }
        match transcription {
            Some(outcome) => self.on_transcription_finished(outcome),
            None => {},
        }
        if playback_ended {
            self.on_playback_ended();
        }
    }

    fn take_answers(
        &mut self,
        ollama_models: Option<OllamaListing>,
        update_check: Option<Option<String>>,
        update: Option<Option<Result<String, String>>>,
    )
        ensures
            final(self)@ == old(self)@.after_listing(ollama_models).after_check(
                update_check,
            ).after_update(update),
            final(self)@.onboarding is Some == old(self)@.onboarding is Some,
            final(self)@.onboarding matches Some(ob) ==> ob.screen
                == old(self)@.onboarding->Some_0.screen,
    {
        proof {
            reveal(DashboardModel::after_listing);
            reveal(DashboardModel::after_check);
            reveal(DashboardModel::after_update);
        }
        match ollama_models {
            Some(listing) => {
                let _ = self.on_ollama_models(&listing);
            },
            None => {},
        }
        match update_check {
            Some(version) => self.on_update_checked(version),
            None => {},
        }
        match update {
            Some(outcome) => self.on_update_finished(outcome),
            None => {},
        }
    }

    fn tick_frame(&mut self, anim_tick: bool, volume: &str)
        ensures
            final(self)@ == old(self)@.after_frame(anim_tick, volume@),
            final(self)@.onboarding == old(self)@.onboarding,
    {
        proof {
            reveal(DashboardModel::after_frame);
        }
        if anim_tick {
            self.update_progress_message(volume);
            self.spin();
            self.fade();
        }
    }

    fn tick_onboarding(&mut self, anim_tick: bool, input: &TickInput)
        requires
            old(self)@.onboarding matches Some(ob) ==> ob.screen.transition_frame < usize::MAX,
        ensures
            final(self)@ == old(self)@.after_onboarding(anim_tick, *input),
    {
        proof {
            reveal(DashboardModel::after_onboarding);
        }
        let result = match &mut self.onboarding {
            Some(ob) => ob.tick(anim_tick, input),
            None => None,
        };
        match result {
            Some(r) => self.on_onboarding_result(r),
            None => {},
        }
    }

    /// One round of the program: takes the news, moves what moves.
    pub fn tick(&mut self, news: News)
        requires
            old(self)@.onboarding matches Some(ob) ==> ob.screen.transition_frame < usize::MAX,
        ensures
            final(self)@ == old(self)@.ticking(news),
    {
        let anim_tick = news.anim_tick;
        self.take_outcomes(news.recording, news.transcription, news.playback_ended);
        self.take_answers(news.ollama_models, news.update_check, news.update);
        self.tick_frame(anim_tick, news.volume.as_str());
        self.tick_onboarding(anim_tick, &news.onboarding);
        self.on_chat_events(&news.chat);
        if anim_tick {
            self.chat.entry.spinner_frame = next_frame(self.chat.entry.spinner_frame);
        }
    }
}

// ─── Laws ────────────────────────────────────────────────────────────────────

/// A transcript is overwritten only on the second request in a row: the first
/// starts nothing.
pub proof fn overwriting_takes_two(m: DashboardModel)
    requires
        m.jobs.active is None,
        m.list.selected matches Some(i) && i < m.list.recordings.len(),
        m.capture.last_transcribe_warning != m.list.selected,
    ensures
        m.transcribing(true).jobs == m.jobs,
        m.transcribing(true).chores == m.chores,
        m.transcribing(true).transcribing(true) == m.transcribing(true).with_capture(
            CaptureView { last_transcribe_warning: None, ..m.transcribing(true).capture },
        ).retranscribing(m.list.recordings[m.list.selected->Some_0 as int].directory_name),
{
}

/// A recording that was made to be transcribed is: afterwards its
/// transcription runs or waits.
pub proof fn recordings_are_transcribed(m: DashboardModel, name: String, auto_stopped: bool)
    requires
        m.capture.mode is Some,
    ensures
        m.recorded(
            RecordingOutcome::Done { recording_name: name, auto_stopped },
        ).jobs.busy_with(name@),
        !m.recorded(RecordingOutcome::Done { recording_name: name, auto_stopped }).capture.recording,
{
    let p = crate::jobs::PendingView::Retranscribe {
        recording_name: name@,
        transcription_mode: m.settings.config.transcription,
    };
    crate::jobs::requests_are_kept(m.jobs, p);
}

/// Visiting a transcript and closing it leaves the conversation about
/// everything as it was.
pub proof fn closing_brings_the_conversation_back(
    m: DashboardModel,
    r: RecordingView,
    content: Seq<char>,
    row: Option<TranscriptRow>,
    prompt: Seq<char>,
)
    ensures
        m.transcript_opened(r, content, row, prompt).transcript_closed().chat.talk.messages
            == m.chat.talk.messages,
        !m.transcript_opened(r, content, row, prompt).transcript_closed().transcript.shown,
        m.transcript_opened(r, content, row, prompt).chat.talk.messages.len() == 0,
{
    reveal(DashboardModel::transcript_closed);
}

/// A note goes away by itself: after as many frames as it was given and one
/// more it is gone.
pub proof fn notes_fade(m: DashboardModel, n: nat)
    requires
        m.shell.notification matches Some((_, frames)) && frames == n,
    ensures
        faded(m, n + 1).shell.notification is None,
    decreases n,
{
    reveal_with_fuel(faded, 2);
    if n > 0 {
        notes_fade(m.fading(), (n - 1) as nat);
        faded_first(m, n);
    }
}

/// The dashboard after `n` frames in which things fade.
pub open spec fn faded(m: DashboardModel, n: nat) -> DashboardModel
    decreases n,
{
    if n == 0 {
        m
    } else {
        faded(m, (n - 1) as nat).fading()
    }
}

proof fn faded_first(m: DashboardModel, n: nat)
    ensures
        faded(m, n + 1) == faded(m.fading(), n),
    decreases n,
{
    reveal_with_fuel(faded, 2);
    if n > 0 {
        faded_first(m, (n - 1) as nat);
    }
}

proof fn outcomes_keep_jobs(m: DashboardModel, r: Option<RecordingOutcome>, t: Option<JobOutcome>)
    requires
        m.jobs.distinct(),
    ensures
        m.after_recording(r).jobs.distinct(),
        m.after_transcription(t).jobs.distinct(),
{
    reveal(DashboardModel::after_recording);
    reveal(DashboardModel::after_transcription);
    let name = match r {
        Some(RecordingOutcome::Done { recording_name, .. }) => recording_name@,
        _ => Seq::empty(),
    };
    let p = crate::jobs::PendingView::Retranscribe {
        recording_name: name,
        transcription_mode: m.settings.config.transcription,
    };
    crate::jobs::jobs_stay_distinct(m.jobs, p);
}

proof fn frames_keep_jobs(m: DashboardModel, news: News)
    requires
        m.jobs.distinct(),
    ensures
        m.after_playback(news.playback_ended).jobs.distinct(),
        m.after_listing(news.ollama_models).jobs.distinct(),
        m.after_check(news.update_check).jobs.distinct(),
        m.after_update(news.update).jobs.distinct(),
        m.after_frame(news.anim_tick, news.volume@).jobs.distinct(),
        m.after_onboarding(news.anim_tick, news.onboarding).jobs.distinct(),
        m.heard(news.chat@).jobs.distinct(),
{
    reveal(DashboardModel::after_playback);
    reveal(DashboardModel::after_listing);
    reveal(DashboardModel::after_check);
    reveal(DashboardModel::after_update);
    reveal(DashboardModel::after_frame);
    reveal(DashboardModel::after_onboarding);
    reveal(DashboardModel::heard);
    assert(forall|a: JobsView, b: JobsView| #![trigger a.distinct(), b.distinct()]
        a.active == b.active && a.queue == b.queue && a.distinct() ==> b.distinct());
}

/// Nothing that happens between key presses has a recording transcribed twice
/// at a time.
pub proof fn rounds_keep_jobs_distinct(m: DashboardModel, news: News)
    requires
        m.jobs.distinct(),
    ensures
        m.ticking(news).jobs.distinct(),
{
    let a = m.after_recording(news.recording);
    let b = a.after_transcription(news.transcription);
    let c = b.after_playback(news.playback_ended);
    let d = c.after_listing(news.ollama_models);
    let e = d.after_check(news.update_check);
    let f = e.after_update(news.update);
    let g = f.after_frame(news.anim_tick, news.volume@);
    let h = g.after_onboarding(news.anim_tick, news.onboarding);
    outcomes_keep_jobs(m, news.recording, None);
    outcomes_keep_jobs(a, None, news.transcription);
    frames_keep_jobs(b, news);
    frames_keep_jobs(c, news);
    frames_keep_jobs(d, news);
    frames_keep_jobs(e, news);
    frames_keep_jobs(f, news);
    frames_keep_jobs(g, news);
    frames_keep_jobs(h, news);
}

/// No second recorder is started beside one that runs.
pub proof fn one_recorder_at_a_time(m: DashboardModel, info: Option<RecordingInfoView>)
    requires
        m.capture.recording,
    ensures
        m.recording_wanted().chores == m.chores,
        m.toggled(info).chores == m.chores || m.toggled(info).chores == m.chores.push(
            ChoreView::StopRecording,
        ),
{
}

} // verus!
