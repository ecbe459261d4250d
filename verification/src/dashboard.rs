//! The dashboard: which screen is shown, and which part of it a key goes to.
use vstd::prelude::*;

use crate::browse::{
    Deletion, DeletionView, DialogOutcome, DialogOutcomeView, FileDialog, FileDialogView, FileFacts,
    Listing, ListingView,
};
use crate::chat::{
    messages_view, ChatFocus, ChatMessage, ChatState, ChatView, EntryView, HomeView, MessageView,
    OffersView,
};
use crate::chat_keys::{ChatDo, ChatDoView, Outgoing, OutgoingView};
use crate::entities::{Entities, EntitiesView, EntityAction, EntityActionView};
use crate::home::{global_suggestions, suggest_globally};
use crate::jobs::{
    jobs_stay_distinct, option_pending, Jobs, JobsView, PendingTranscription, PendingView,
    RecordingMode,
};
use crate::keys::Key;
use crate::onboarding::{Onboarding, OnboardingView};
use crate::recordings::{with_id, Recording, RecordingView};
use crate::settings::{Effect, Settings, SettingsView, Surroundings};
use crate::text::option_text;
use crate::transcript::{Transcript, TranscriptView};

verus! {

/// The screens.
#[derive(Clone, Copy, Debug, PartialEq, Eq, Structural)]
pub enum DashboardView {
    Main,
    Browse,
    Help,
    Settings,
    Entities,
    Onboarding,
}

/// What a key asks of the program.
#[derive(Clone, Copy, Debug, PartialEq, Eq, Structural)]
pub enum DashboardAction {
    Continue,
    Quit,
    RecordAndTranscribe,
    ToggleRecording,
    TranscribeSelected,
}

/// Work that is left to the caller, in this order.
#[derive(Debug)]
pub enum Chore {
    /// Load them; the program ends where that fails.
    LoadRecordings,
    LoadStats,
    LoadEntities,
    /// Load them anew; a failure is passed over.
    RefreshRecordings,
    RefreshStats,
    RefreshEntities,
    /// Read the transcript of a recording and hand it back.
    LoadTranscript { recording: Recording, reports_failure: bool },
    /// Find out who the owner is, and begin the chat about everything.
    BeginChat,
    CheckForUpdate,
    PerformUpdate(String),
    Play(Recording),
    StopPlayback,
    Delete(Recording),
    ChangeEntity(EntityAction),
    /// Record; silence of so many seconds ends it.
    StartRecording { silence_timeout: Option<u64> },
    StopRecording,
    StopMeeting,
    StartTranscription(PendingTranscription),
    Generate(Outgoing),
    CopyTranscript,
    CopySelection(String),
    SaveConfig,
    FetchOllamaModels(String),
}

pub enum ChoreView {
    LoadRecordings,
    LoadStats,
    LoadEntities,
    RefreshRecordings,
    RefreshStats,
    RefreshEntities,
    LoadTranscript { recording: RecordingView, reports_failure: bool },
    BeginChat,
    CheckForUpdate,
    PerformUpdate(Seq<char>),
    Play(RecordingView),
    StopPlayback,
    Delete(RecordingView),
    ChangeEntity(EntityActionView),
    StartRecording { silence_timeout: Option<u64> },
    StopRecording,
    StopMeeting,
    StartTranscription(PendingView),
    Generate(OutgoingView),
    CopyTranscript,
    CopySelection(Seq<char>),
    SaveConfig,
    FetchOllamaModels(Seq<char>),
}

impl View for Chore {
    type V = ChoreView;

    open spec fn view(&self) -> ChoreView {
        match *self {
            Chore::LoadRecordings => ChoreView::LoadRecordings,
            Chore::LoadStats => ChoreView::LoadStats,
            Chore::LoadEntities => ChoreView::LoadEntities,
            Chore::RefreshRecordings => ChoreView::RefreshRecordings,
            Chore::RefreshStats => ChoreView::RefreshStats,
            Chore::RefreshEntities => ChoreView::RefreshEntities,
            Chore::LoadTranscript { recording, reports_failure } => ChoreView::LoadTranscript {
                recording: recording@,
                reports_failure,
            },
            Chore::BeginChat => ChoreView::BeginChat,
            Chore::CheckForUpdate => ChoreView::CheckForUpdate,
            Chore::PerformUpdate(v) => ChoreView::PerformUpdate(v@),
            Chore::Play(r) => ChoreView::Play(r@),
            Chore::StopPlayback => ChoreView::StopPlayback,
            Chore::Delete(r) => ChoreView::Delete(r@),
            Chore::ChangeEntity(a) => ChoreView::ChangeEntity(a@),
            Chore::StartRecording { silence_timeout } => ChoreView::StartRecording {
                silence_timeout,
            },
            Chore::StopRecording => ChoreView::StopRecording,
            Chore::StopMeeting => ChoreView::StopMeeting,
            Chore::StartTranscription(p) => ChoreView::StartTranscription(p@),
            Chore::Generate(o) => ChoreView::Generate(o@),
            Chore::CopyTranscript => ChoreView::CopyTranscript,
            Chore::CopySelection(t) => ChoreView::CopySelection(t@),
            Chore::SaveConfig => ChoreView::SaveConfig,
            Chore::FetchOllamaModels(e) => ChoreView::FetchOllamaModels(e@),
        }
    }
}

pub open spec fn chore_views(v: Seq<Chore>) -> Seq<ChoreView> {
    Seq::new(v.len(), |i: int| v[i]@)
}

/// The screen and what lies over it.
#[derive(Debug)]
pub struct Shell {
    pub current_view: DashboardView,
    pub show_help: bool,
    pub show_message: bool,
    pub message: String,
    /// The screen to return to once the message is dismissed.
    pub return_to_view: Option<DashboardView>,
    /// A note, and for how many more frames it stays.
    pub notification: Option<(String, usize)>,
    pub owl_frame: Option<usize>,
    pub owner_name: String,
}

pub struct ShellView {
    pub current_view: DashboardView,
    pub show_help: bool,
    pub show_message: bool,
    pub message: Seq<char>,
    pub return_to_view: Option<DashboardView>,
    pub notification: Option<(Seq<char>, usize)>,
    pub owl_frame: Option<usize>,
    pub owner_name: Seq<char>,
}

impl View for Shell {
    type V = ShellView;

    open spec fn view(&self) -> ShellView {
        ShellView {
            current_view: self.current_view,
            show_help: self.show_help,
            show_message: self.show_message,
            message: self.message@,
            return_to_view: self.return_to_view,
            notification: match self.notification {
                Some((msg, frames)) => Some((msg@, frames)),
                None => None,
            },
            owl_frame: self.owl_frame,
            owner_name: self.owner_name@,
        }
    }
}

/// What is being recorded and played.
#[derive(Debug)]
pub struct Capture {
    pub playing: bool,
    pub recording: bool,
    /// The recorder was told to stop.
    pub stop_sent: bool,
    pub mode: Option<RecordingMode>,
    /// What a progress message is about.
    pub progress_animation: Option<String>,
    /// The row whose transcript would be overwritten, once that was said.
    pub last_transcribe_warning: Option<usize>,
}

pub struct CaptureView {
    pub playing: bool,
    pub recording: bool,
    pub stop_sent: bool,
    pub mode: Option<RecordingMode>,
    pub progress_animation: Option<Seq<char>>,
    pub last_transcribe_warning: Option<usize>,
}

impl View for Capture {
    type V = CaptureView;

    open spec fn view(&self) -> CaptureView {
        CaptureView {
            playing: self.playing,
            recording: self.recording,
            stop_sent: self.stop_sent,
            mode: self.mode,
            progress_animation: option_text(self.progress_animation),
            last_transcribe_warning: self.last_transcribe_warning,
        }
    }
}

/// The state of an update.
#[derive(Debug)]
pub struct Update {
    pub available: Option<String>,
    pub in_progress: bool,
    /// The version that was installed, or why none was.
    pub completed: Option<Result<String, String>>,
}

pub struct UpdateView {
    pub available: Option<Seq<char>>,
    pub in_progress: bool,
    pub completed: Option<Result<Seq<char>, Seq<char>>>,
}

impl View for Update {
    type V = UpdateView;

    open spec fn view(&self) -> UpdateView {
        UpdateView {
            available: option_text(self.available),
            in_progress: self.in_progress,
            completed: match self.completed {
                Some(Ok(v)) => Some(Ok(v@)),
                Some(Err(e)) => Some(Err(e@)),
                None => None,
            },
        }
    }
}

/// The dashboard.
#[derive(Debug)]
pub struct Dashboard {
    pub shell: Shell,
    pub capture: Capture,
    pub update: Update,
    pub jobs: Jobs,
    pub list: Listing,
    pub deletion: Deletion,
    pub import: FileDialog,
    pub transcript: Transcript,
    pub chat: ChatState,
    /// The conversation about everything, while the chat is about a recording.
    pub aside: Vec<ChatMessage>,
    pub settings: Settings,
    pub entities: Entities,
    pub onboarding: Option<Onboarding>,
    pub chores: Vec<Chore>,
}

/// What the dashboard holds.
pub struct DashboardModel {
    pub shell: ShellView,
    pub capture: CaptureView,
    pub update: UpdateView,
    pub jobs: JobsView,
    pub list: ListingView,
    pub deletion: DeletionView,
    pub import: FileDialogView,
    pub transcript: TranscriptView,
    pub chat: ChatView,
    pub aside: Seq<MessageView>,
    pub settings: SettingsView,
    pub entities: EntitiesView,
    pub onboarding: Option<OnboardingView>,
    pub chores: Seq<ChoreView>,
}

pub open spec fn option_onboarding(o: Option<Onboarding>) -> Option<OnboardingView> {
    match o {
        Some(x) => Some(x@),
        None => None,
    }
}

impl View for Dashboard {
    type V = DashboardModel;

    open spec fn view(&self) -> DashboardModel {
        DashboardModel {
            shell: self.shell@,
            capture: self.capture@,
            update: self.update@,
            jobs: self.jobs@,
            list: self.list@,
            deletion: self.deletion@,
            import: self.import@,
            transcript: self.transcript@,
            chat: self.chat@,
            aside: messages_view(self.aside@),
            settings: self.settings@,
            entities: self.entities@,
            onboarding: option_onboarding(self.onboarding),
            chores: chore_views(self.chores@),
        }
    }
}

/// What a key press is decided on beside the state.
#[derive(Debug)]
pub struct Facts {
    pub surroundings: Surroundings,
    /// The speech model of the onboarding is on this machine.
    pub installed: bool,
    pub file: FileFacts,
    /// The number of the local day.
    pub today: i64,
}

// ─── Small steps ─────────────────────────────────────────────────────────────

impl DashboardModel {
    pub open spec fn with_shell(self, shell: ShellView) -> DashboardModel {
        DashboardModel { shell, ..self }
    }

    pub open spec fn with_capture(self, capture: CaptureView) -> DashboardModel {
        DashboardModel { capture, ..self }
    }

    pub open spec fn doing(self, c: ChoreView) -> DashboardModel {
        DashboardModel { chores: self.chores.push(c), ..self }
    }

    pub open spec fn viewing(self, current_view: DashboardView) -> DashboardModel {
        self.with_shell(ShellView { current_view, ..self.shell })
    }

    /// A message over the screen.
    pub open spec fn telling(self, message: Seq<char>) -> DashboardModel {
        self.with_shell(ShellView { message, show_message: true, ..self.shell })
    }

    /// No message.
    pub open spec fn hushed(self) -> DashboardModel {
        self.with_shell(ShellView { message: Seq::empty(), show_message: false, ..self.shell })
    }

    /// A note for so many frames.
    pub open spec fn noting(self, msg: Seq<char>, frames: usize) -> DashboardModel {
        self.with_shell(ShellView { notification: Some((msg, frames)), ..self.shell })
    }

    /// A transcription is asked for.
    pub open spec fn enqueuing(self, p: PendingView) -> DashboardModel {
        let (jobs, started) = self.jobs.enqueuing(p);
        (DashboardModel { jobs, ..self }).starting(started)
    }

    /// A transcription starts, if one does.
    pub open spec fn starting(self, started: Option<PendingView>) -> DashboardModel {
        match started {
            Some(p) => self.doing(ChoreView::StartTranscription(p)),
            None => self,
        }
    }

    /// The transcription of a recording in the mode of the configuration.
    pub open spec fn retranscribing(self, name: Seq<char>) -> DashboardModel {
        self.enqueuing(
            PendingView::Retranscribe {
                recording_name: name,
                transcription_mode: self.settings.config.transcription,
            },
        )
    }
}

impl Dashboard {
    pub(crate) fn push_chore(&mut self, c: Chore)
        ensures
            final(self)@ == old(self)@.doing(c@),
            final(self)@.settings == old(self)@.settings,
    {
        self.chores.push(c);
        assert(self@.chores =~= old(self)@.chores.push(c@));
    }

    pub(crate) fn tell(&mut self, message: String)
        ensures
            final(self)@ == old(self)@.telling(message@),
    {
        self.shell.message = message;
        self.shell.show_message = true;
    }

    pub(crate) fn hush(&mut self)
        ensures
            final(self)@ == old(self)@.hushed(),
    {
        self.shell.message.clear();
        self.shell.show_message = false;
    }

    pub(crate) fn note(&mut self, msg: String, frames: usize)
        ensures
            final(self)@ == old(self)@.noting(msg@, frames),
    {
        self.shell.notification = Some((msg, frames));
    }

    pub(crate) fn start_transcription(&mut self, started: Option<PendingTranscription>)
        ensures
            final(self)@ == old(self)@.starting(option_pending(started)),
            final(self)@.settings == old(self)@.settings,
    {
        match started {
            Some(p) => self.push_chore(Chore::StartTranscription(p)),
            None => {},
        }
    }

    /// Asks for a transcription.
    pub fn enqueue_transcription(&mut self, pending: PendingTranscription)
        ensures
            final(self)@ == old(self)@.enqueuing(pending@),
            final(self)@.settings == old(self)@.settings,
    {
        let started = self.jobs.enqueue_transcription(pending);
        self.start_transcription(started);
    }

    pub(crate) fn retranscribe(&mut self, name: String)
        ensures
            final(self)@ == old(self)@.retranscribing(name@),
            final(self)@.settings == old(self)@.settings,
    {
        let transcription_mode = self.settings.config.transcription.copy();
        self.enqueue_transcription(
            PendingTranscription::Retranscribe { recording_name: name, transcription_mode },
        );
    }

    /// Imports a file and transcribes it.
    pub fn start_file_import(&mut self, source_path: String, display_name: String)
        ensures
            final(self)@ == old(self)@.importing(source_path@, display_name@),
            final(self)@.settings == old(self)@.settings,
    {
        let transcription_mode = self.settings.config.transcription.copy();
        self.enqueue_transcription(
            PendingTranscription::Import { source_path, display_name, transcription_mode },
        );
    }

    /// Opens the dialog for importing a file, unless a recording is going on.
    pub fn execute_add_external_file(&mut self)
        ensures
            final(self)@ == old(self)@.adding_file(),
            final(self)@.settings == old(self)@.settings,
    {
        if self.capture.recording {
            self.tell("Recording already in progress".to_owned());
        } else {
            self.import.open();
        }
    }
}

impl DashboardModel {
    /// A file is imported.
    pub open spec fn importing(self, path: Seq<char>, name: Seq<char>) -> DashboardModel {
        self.enqueuing(
            PendingView::Import {
                source_path: path,
                display_name: name,
                transcription_mode: self.settings.config.transcription,
            },
        )
    }
}

// ─── Interruptions ───────────────────────────────────────────────────────────

/// What a stage makes of a key: the next state, and the outcome if the key
/// goes no further.
pub type Stage = (DashboardModel, Option<DashboardAction>);

impl DashboardModel {
    /// Esc stops what is being recorded.
    pub open spec fn recording_stopped(self) -> DashboardModel {
        if self.capture.stop_sent {
            self
        } else {
            self.with_capture(CaptureView { stop_sent: true, ..self.capture }).doing(
                ChoreView::StopRecording,
            )
        }
    }

    /// A key during the onboarding; Esc quits.
    #[verifier::opaque]
    pub open spec fn onboarding_key(self, key: Key, installed: bool) -> Stage {
        match self.onboarding {
            None => (self, Some(DashboardAction::Continue)),
            Some(ob) => if key == Key::Esc {
                (self, Some(DashboardAction::Quit))
            } else {
                let (next, config) = ob.step_key(self.settings.config, key, installed);
                (
                    DashboardModel {
                        onboarding: Some(next),
                        settings: SettingsView { config, ..self.settings },
                        ..self
                    },
                    Some(DashboardAction::Continue),
                )
            },
        }
    }

    /// A key in the dialog for importing a file.
    #[verifier::opaque]
    pub open spec fn dialog_key(self, key: Key, file: FileFacts) -> Stage {
        let (import, outcome) = self.import.pressing(key, file);
        let next = DashboardModel { import, ..self };
        (
            match outcome {
                DialogOutcomeView::Stay => next,
                DialogOutcomeView::Note(msg) => next.noting(msg, 40),
                DialogOutcomeView::Import { path, name } => next.importing(path, name),
            },
            Some(DashboardAction::Continue),
        )
    }

    /// What comes before everything else: Esc stops playback and recording,
    /// any key ends the owls, and the onboarding and the import dialog take
    /// all keys.
    #[verifier::opaque]
    pub open spec fn interrupting(self, key: Key, facts: Facts) -> Stage {
        if key == Key::Esc && self.capture.playing {
            (
                self.with_capture(CaptureView { playing: false, ..self.capture }).hushed().doing(
                    ChoreView::StopPlayback,
                ),
                Some(DashboardAction::Continue),
            )
        } else if key == Key::Esc && self.capture.recording {
            (self.recording_stopped(), Some(DashboardAction::Continue))
        } else if self.shell.owl_frame is Some {
            (
                self.with_shell(ShellView { owl_frame: None, ..self.shell }),
                Some(DashboardAction::Continue),
            )
        } else if self.shell.current_view == DashboardView::Onboarding {
            self.onboarding_key(key, facts.installed)
        } else if self.import.shown {
            self.dialog_key(key, facts.file)
        } else {
            (self, None)
        }
    }

    /// The banner of an update: `u` installs it, Esc dismisses it. Any other
    /// key dismisses the notes.
    #[verifier::opaque]
    pub open spec fn banner_key(self, key: Key) -> Stage {
        let offered = self.update.available is Some && !self.update.in_progress;
        if offered && (key == Key::Char('u') || key == Key::Char('U')) {
            (
                (DashboardModel {
                    update: UpdateView { in_progress: true, ..self.update },
                    ..self
                }).doing(ChoreView::PerformUpdate(self.update.available->Some_0)),
                Some(DashboardAction::Continue),
            )
        } else if offered && key == Key::Esc {
            (
                DashboardModel { update: UpdateView { available: None, ..self.update }, ..self },
                Some(DashboardAction::Continue),
            )
        } else {
            (
                (DashboardModel {
                    update: UpdateView { completed: None, ..self.update },
                    ..self
                }).with_shell(ShellView { notification: None, ..self.shell }),
                None,
            )
        }
    }

    /// A key while a message is shown: Esc dismisses it, `t` confirms the
    /// overwriting that it warns of.
    #[verifier::opaque]
    pub open spec fn message_key(self, key: Key) -> Stage {
        if !self.shell.show_message {
            (self, None)
        } else if (key == Key::Char('t') || key == Key::Char('T'))
            && self.capture.last_transcribe_warning is Some && self.capture.progress_animation is None {
            (self.hushed(), Some(DashboardAction::TranscribeSelected))
        } else if self.capture.progress_animation is None && key == Key::Esc {
            (
                match self.shell.return_to_view {
                    Some(view) => self.hushed().with_shell(
                        ShellView {
                            current_view: view,
                            return_to_view: None,
                            ..self.hushed().shell
                        },
                    ),
                    None => self.hushed(),
                },
                Some(DashboardAction::Continue),
            )
        } else {
            (self, Some(DashboardAction::Continue))
        }
    }

    /// A key while a search is typed or the help is shown.
    #[verifier::opaque]
    pub open spec fn overlay_key(self, key: Key) -> Stage {
        if self.list.search_mode {
            let (list, load) = self.list.searching(key);
            let next = DashboardModel { list, ..self };
            (
                if load {
                    next.doing(ChoreView::LoadRecordings)
                } else {
                    next
                },
                Some(DashboardAction::Continue),
            )
        } else if self.shell.show_help {
            (
                self.with_shell(
                    ShellView { show_help: false, current_view: DashboardView::Main, ..self.shell },
                ),
                Some(DashboardAction::Continue),
            )
        } else {
            (self, None)
        }
    }
}

impl Dashboard {
    fn stop_recording(&mut self)
        ensures
            final(self)@ == old(self)@.recording_stopped(),
    {
        if !self.capture.stop_sent {
            self.capture.stop_sent = true;
            self.push_chore(Chore::StopRecording);
        }
    }

    fn on_onboarding_key(&mut self, key: Key, installed: bool) -> (r: Option<DashboardAction>)
        requires
            old(self).settings@.wf(),
        ensures
            (final(self)@, r) == old(self)@.onboarding_key(key, installed),
            final(self).settings@.wf(),
    {
        proof {
            reveal(DashboardModel::onboarding_key);
            match self@.onboarding {
                Some(ob) => {
                    crate::onboarding_tick::onboarding_keeps_the_slots(
                        ob,
                        self.settings@.config,
                        key,
                        installed,
                    );
                },
                None => {},
            }
        }
        match &mut self.onboarding {
            None => Some(DashboardAction::Continue),
            Some(ob) => {
                if ob.handle_onboarding_keys(&mut self.settings.config, key, installed) {
                    Some(DashboardAction::Quit)
                } else {
                    Some(DashboardAction::Continue)
                }
            },
        }
    }

    fn on_dialog_key(&mut self, key: Key, file: &FileFacts) -> (r: Option<DashboardAction>)
        requires
            old(self).settings@.wf(),
        ensures
            (final(self)@, r) == old(self)@.dialog_key(key, *file),
            final(self).settings@.wf(),
    {
        proof {
            reveal(DashboardModel::dialog_key);
        }
        match self.import.handle_file_dialog_keys(key, file) {
            DialogOutcome::Stay => {},
            DialogOutcome::Note(msg) => self.note(msg.to_owned(), 40),
            DialogOutcome::Import { path, name } => self.start_file_import(path, name),
        }
        Some(DashboardAction::Continue)
    }

    fn on_interrupting_key(&mut self, key: Key, facts: &Facts) -> (r: Option<DashboardAction>)
        requires
            old(self).settings@.wf(),
        ensures
            (final(self)@, r) == old(self)@.interrupting(key, *facts),
            final(self).settings@.wf(),
    {
        proof {
            reveal(DashboardModel::interrupting);
        }
        let esc = match key {
            Key::Esc => true,
            _ => false,
        };
        if esc && self.capture.playing {
            self.capture.playing = false;
            self.hush();
            self.push_chore(Chore::StopPlayback);
            return Some(DashboardAction::Continue);
        }
        if esc && self.capture.recording {
            self.stop_recording();
            return Some(DashboardAction::Continue);
        }
        if self.shell.owl_frame.is_some() {
            self.shell.owl_frame = None;
            return Some(DashboardAction::Continue);
        }
        match self.shell.current_view {
            DashboardView::Onboarding => {
                return self.on_onboarding_key(key, facts.installed);
            },
            _ => {},
        }
        if self.import.shown {
            return self.on_dialog_key(key, &facts.file);
        }
        None
    }

    fn on_banner_key(&mut self, key: Key) -> (r: Option<DashboardAction>)
        requires
            old(self).settings@.wf(),
        ensures
            (final(self)@, r) == old(self)@.banner_key(key),
            final(self).settings@.wf(),
    {
        proof {
            reveal(DashboardModel::banner_key);
        }
        if !self.update.in_progress {
            match &self.update.available {
                Some(version) => match key {
                    Key::Char(c) => {
                        if c == 'u' || c == 'U' {
                            let version = version.clone();
                            self.update.in_progress = true;
                            self.push_chore(Chore::PerformUpdate(version));
                            return Some(DashboardAction::Continue);
                        }
                    },
                    Key::Esc => {
                        self.update.available = None;
                        return Some(DashboardAction::Continue);
                    },
                    _ => {},
                },
                None => {},
            }
        }
        self.update.completed = None;
        self.shell.notification = None;
        None
    }

    fn on_message_key(&mut self, key: Key) -> (r: Option<DashboardAction>)
        requires
            old(self).settings@.wf(),
        ensures
            (final(self)@, r) == old(self)@.message_key(key),
            final(self).settings@.wf(),
    {
        proof {
            reveal(DashboardModel::message_key);
        }
        if !self.shell.show_message {
            return None;
        }
        let idle = self.capture.progress_animation.is_none();
        match key {
            Key::Char(c) => {
                if (c == 't' || c == 'T') && self.capture.last_transcribe_warning.is_some() && idle {
                    self.hush();
                    return Some(DashboardAction::TranscribeSelected);
                }
            },
            Key::Esc => {
                if idle {
                    self.hush();
                    match self.shell.return_to_view {
                        Some(view) => {
                            self.shell.current_view = view;
                            self.shell.return_to_view = None;
                        },
                        None => {},
                    }
                }
            },
            _ => {},
        }
        Some(DashboardAction::Continue)
    }

    fn on_overlay_key(&mut self, key: Key) -> (r: Option<DashboardAction>)
        requires
            old(self).settings@.wf(),
        ensures
            (final(self)@, r) == old(self)@.overlay_key(key),
            final(self).settings@.wf(),
    {
        proof {
            reveal(DashboardModel::overlay_key);
        }
        if self.list.search_mode {
            if self.list.handle_search_input(key) {
                self.push_chore(Chore::LoadRecordings);
            }
            Some(DashboardAction::Continue)
        } else if self.shell.show_help {
            self.shell.show_help = false;
            self.shell.current_view = DashboardView::Main;
            Some(DashboardAction::Continue)
        } else {
            None
        }
    }
}

// ─── Screens ─────────────────────────────────────────────────────────────────

impl DashboardModel {
    /// The settings are left when the last thing that a key asks for says so.
    pub open spec fn leaves_settings(before: Seq<Effect>, after: Seq<Effect>) -> bool {
        after.len() > before.len() && after.last() == Effect::Leave
    }

    /// A key on the settings screen.
    #[verifier::opaque]
    pub open spec fn settings_key(self, key: Key, sur: Surroundings) -> Stage {
        let settings = self.settings.pressing(key, sur).clamped();
        let next = DashboardModel { settings, ..self };
        (
            if Self::leaves_settings(self.settings.effects, settings.effects) {
                next.viewing(DashboardView::Main)
            } else {
                next
            },
            Some(DashboardAction::Continue),
        )
    }

    /// A key on the screen of entities.
    #[verifier::opaque]
    pub open spec fn entities_key(self, key: Key) -> Stage {
        let (entities, action) = self.entities.pressing(key);
        let next = DashboardModel { entities, ..self };
        (
            match action {
                None => next,
                Some(EntityActionView::Leave) => next.viewing(DashboardView::Main),
                Some(a) => next.doing(ChoreView::ChangeEntity(a)),
            },
            Some(DashboardAction::Continue),
        )
    }

    /// A key on the settings screen or on that of entities.
    #[verifier::opaque]
    pub open spec fn screen_key(self, key: Key, sur: Surroundings) -> Stage {
        match self.shell.current_view {
            DashboardView::Settings => self.settings_key(key, sur),
            DashboardView::Entities => self.entities_key(key),
            _ => (self, None),
        }
    }

    /// What comes of a key in the chat.
    #[verifier::opaque]
    pub open spec fn chatted(self, d: ChatDoView, today: int) -> DashboardModel {
        match d {
            ChatDoView::Ignored => self,
            ChatDoView::Done => self,
            ChatDoView::Browse => self.viewing(DashboardView::Browse),
            ChatDoView::Send(o) => self.doing(ChoreView::Generate(o)),
            ChatDoView::OpenTranscript(id) => match with_id(self.list.recordings, id, 0) {
                Some(i) => if self.list.recordings[i].has_transcript {
                    self.doing(
                        ChoreView::LoadTranscript {
                            recording: self.list.recordings[i],
                            reports_failure: false,
                        },
                    )
                } else {
                    self
                },
                None => self,
            },
            ChatDoView::Fresh(out) => {
                let next = DashboardModel { aside: Seq::empty(), ..self };
                match out {
                    Some(o) => next.doing(ChoreView::Generate(o)),
                    None => next,
                }
            },
            ChatDoView::Home => DashboardModel {
                chat: self.chat.greeted(self.shell.owner_name, self.list.recordings, today),
                ..self
            },
        }
    }

    /// The transcript is closed: the chat is about everything again.
    #[verifier::opaque]
    pub open spec fn transcript_closed(self) -> DashboardModel {
        DashboardModel {
            transcript: TranscriptView {
                shown: false,
                content: Seq::empty(),
                recording: None,
                scroll: 0,
                ..self.transcript.cleared()
            },
            chat: self.chat.restored(
                self.aside,
                global_suggestions(self.entities.entities, self.list.recordings),
                self.shell.current_view == DashboardView::Main,
            ),
            aside: Seq::empty(),
            ..self
        }
    }

    /// The recording under the cursor is transcribed once more.
    #[verifier::opaque]
    pub open spec fn redone(self) -> DashboardModel {
        match self.list.current() {
            Some(r) => if self.jobs.active is Some {
                self.telling("Transcription already in progress"@)
            } else {
                (DashboardModel {
                    transcript: TranscriptView {
                        shown: false,
                        content: Seq::empty(),
                        ..self.transcript
                    },
                    ..self
                }).retranscribing(r.directory_name)
            },
            None => self,
        }
    }

    /// A key that the chat below a transcript has no use for: Up and Down
    /// scroll, and Esc closes it.
    pub open spec fn viewer_key(self, key: Key) -> DashboardModel {
        match key {
            Key::Esc => self.transcript_closed(),
            Key::Up => DashboardModel { transcript: self.transcript.scrolled_up(), ..self },
            Key::Down => DashboardModel { transcript: self.transcript.scrolled_down(), ..self },
            _ => self,
        }
    }

    /// A key while a transcript is shown: Ctrl+Y copies it, Ctrl+T transcribes
    /// once more, the chat below takes what it can use, and the rest is for the
    /// transcript.
    #[verifier::opaque]
    pub open spec fn transcript_key(self, key: Key, ctrl: bool, today: int) -> Stage {
        if !self.transcript.shown {
            (self, None)
        } else if key == Key::Char('y') && ctrl {
            (self.doing(ChoreView::CopyTranscript), Some(DashboardAction::Continue))
        } else if key == Key::Char('t') && ctrl {
            (self.redone(), Some(DashboardAction::Continue))
        } else {
            let (chat, d) = self.chat.pressing_below(key);
            let next = DashboardModel { chat, ..self };
            (
                if !(d is Ignored) {
                    next.chatted(d, today)
                } else {
                    next.viewer_key(key)
                },
                Some(DashboardAction::Continue),
            )
        }
    }

    /// A key at the question whether a recording is to be deleted.
    #[verifier::opaque]
    pub open spec fn confirm_key(self, key: Key) -> Stage {
        if !self.deletion.show_delete_confirm {
            (self, None)
        } else {
            let (deletion, doomed) = self.deletion.pressing(key);
            let next = DashboardModel { deletion, ..self };
            (
                match doomed {
                    Some(r) => next.doing(ChoreView::Delete(r)),
                    None => next,
                },
                Some(DashboardAction::Continue),
            )
        }
    }

    /// Ctrl+S, Ctrl+W (or Ctrl+Z, where the keyboard swaps them), Ctrl+R and
    /// Ctrl+O.
    #[verifier::opaque]
    pub open spec fn shortcut_key(self, key: Key, ctrl: bool, sur: Surroundings) -> Stage {
        if !ctrl {
            (self, None)
        } else if key == Key::Char('s') {
            (
                (DashboardModel {
                    settings: self.settings.opening(sur.env@),
                    ..self
                }).viewing(DashboardView::Settings),
                Some(DashboardAction::Continue),
            )
        } else if key == Key::Char('w') || key == Key::Char('z') {
            (
                (DashboardModel {
                    entities: EntitiesView { selected: Some(0), ..self.entities },
                    ..self
                }).viewing(DashboardView::Entities).doing(ChoreView::LoadEntities),
                Some(DashboardAction::Continue),
            )
        } else if key == Key::Char('r') {
            (self, Some(DashboardAction::ToggleRecording))
        } else if key == Key::Char('o') {
            (
                self.with_shell(ShellView { owl_frame: Some(0), ..self.shell }),
                Some(DashboardAction::Continue),
            )
        } else {
            (self, None)
        }
    }
}

impl Dashboard {
    fn on_settings_key(&mut self, key: Key, sur: &Surroundings) -> (r: Option<DashboardAction>)
        requires
            old(self).settings@.wf(),
        ensures
            (final(self)@, r) == old(self)@.settings_key(key, *sur),
            final(self).settings@.wf(),
    {
        proof {
            reveal(DashboardModel::settings_key);
        }
        let before = self.settings.effects.len();
        self.settings.handle_settings_keys(key, sur);
        let n = self.settings.effects.len();
        if n > before && self.settings.effects[n - 1] == Effect::Leave {
            self.shell.current_view = DashboardView::Main;
        }
        Some(DashboardAction::Continue)
    }

    fn on_entities_key(&mut self, key: Key) -> (r: Option<DashboardAction>)
        ensures
            (final(self)@, r) == old(self)@.entities_key(key),
            final(self).settings == old(self).settings,
    {
        proof {
            reveal(DashboardModel::entities_key);
        }
        match self.entities.handle_entities_keys(key) {
            None => {},
            Some(EntityAction::Leave) => {
                self.shell.current_view = DashboardView::Main;
            },
            Some(a) => {
                let ghost settings = self.settings;
                self.chores.push(Chore::ChangeEntity(a));
                assert(self@.chores =~= old(self)@.chores.push(ChoreView::ChangeEntity(a@)));
            },
        }
        Some(DashboardAction::Continue)
    }

    fn on_screen_key(&mut self, key: Key, sur: &Surroundings) -> (r: Option<DashboardAction>)
        requires
            old(self).settings@.wf(),
        ensures
            (final(self)@, r) == old(self)@.screen_key(key, *sur),
            final(self).settings@.wf(),
    {
        proof {
            reveal(DashboardModel::screen_key);
        }
        match self.shell.current_view {
            DashboardView::Settings => self.on_settings_key(key, sur),
            DashboardView::Entities => self.on_entities_key(key),
            _ => None,
        }
    }

    fn open_by_id(&mut self, id: i64)
        ensures
            final(self)@ == old(self)@.chatted(ChatDoView::OpenTranscript(id), 0),
            final(self)@.settings == old(self)@.settings,
    {
        proof {
            reveal(DashboardModel::chatted);
        }
        match crate::recordings::find_by_id(&self.list.recordings, id) {
            Some(i) => {
                assert(self@.list.recordings[i as int] == self.list.recordings@[i as int]@);
                if self.list.recordings[i].has_transcript {
                    let recording = self.list.recordings[i].copy();
                    self.push_chore(Chore::LoadTranscript { recording, reports_failure: false });
                }
            },
            None => {},
        }
    }

    fn on_chat(&mut self, d: ChatDo, today: i64)
        ensures
            final(self)@ == old(self)@.chatted(d@, today as int),
            final(self)@.settings == old(self)@.settings,
    {
        proof {
            reveal(DashboardModel::chatted);
        }
        match d {
            ChatDo::Ignored => {},
            ChatDo::Done => {},
            ChatDo::Browse => {
                self.shell.current_view = DashboardView::Browse;
            },
            ChatDo::Send(o) => self.push_chore(Chore::Generate(o)),
            ChatDo::OpenTranscript(id) => self.open_by_id(id),
            ChatDo::Fresh(out) => {
                self.aside.clear();
                assert(self@.aside =~= Seq::<MessageView>::empty());
                match out {
                    Some(o) => self.push_chore(Chore::Generate(o)),
                    None => {},
                }
            },
            ChatDo::Home => {
                self.chat.generate_greeting(
                    self.shell.owner_name.as_str(),
                    &self.list.recordings,
                    today,
                );
            },
        }
    }

    fn close_transcript(&mut self)
        ensures
            final(self)@ == old(self)@.transcript_closed(),
            final(self)@.settings == old(self)@.settings,
    {
        proof {
            reveal(DashboardModel::transcript_closed);
        }
        self.transcript.shown = false;
        self.transcript.content.clear();
        self.transcript.clear_enrichment_data();
        self.transcript.recording = None;
        self.transcript.scroll = 0;
        let mut messages: Vec<ChatMessage> = Vec::new();
        std::mem::swap(&mut messages, &mut self.aside);
        assert(self@.aside =~= Seq::<MessageView>::empty());
        let suggestions = suggest_globally(&self.entities.entities, &self.list.recordings);
        let on_main = match self.shell.current_view {
            DashboardView::Main => true,
            _ => false,
        };
        self.chat.restore_global_chat(messages, suggestions, on_main);
    }

    fn redo_transcription(&mut self)
        ensures
            final(self)@ == old(self)@.redone(),
            final(self)@.settings == old(self)@.settings,
    {
        proof {
            reveal(DashboardModel::redone);
        }
        match self.list.get_current_recording() {
            Some(recording) => {
                if self.jobs.has_active_transcription() {
                    self.tell("Transcription already in progress".to_owned());
                } else {
                    self.transcript.shown = false;
                    self.transcript.content.clear();
                    self.retranscribe(recording.directory_name);
                }
            },
            None => {},
        }
    }

    /// A key that the chat below a transcript has no use for.
    pub fn handle_transcript_keys(&mut self, key: Key)
        ensures
            final(self)@ == old(self)@.viewer_key(key),
            final(self)@.settings == old(self)@.settings,
    {
        match key {
            Key::Esc => self.close_transcript(),
            Key::Up => self.transcript.scroll_up(),
            Key::Down => self.transcript.scroll_down(),
            _ => {},
        }
    }

    fn on_transcript_key(&mut self, key: Key, ctrl: bool, today: i64) -> (r: Option<DashboardAction>)
        requires
            old(self).settings@.wf(),
        ensures
            (final(self)@, r) == old(self)@.transcript_key(key, ctrl, today as int),
            final(self).settings@.wf(),
    {
        proof {
            reveal(DashboardModel::transcript_key);
        }
        if !self.transcript.shown {
            return None;
        }
        match key {
            Key::Char(c) => {
                if c == 'y' && ctrl {
                    self.push_chore(Chore::CopyTranscript);
                    return Some(DashboardAction::Continue);
                }
                if c == 't' && ctrl {
                    self.redo_transcription();
                    return Some(DashboardAction::Continue);
                }
            },
            _ => {},
        }
        match self.chat.handle_transcript_chat_key(key) {
            ChatDo::Ignored => self.handle_transcript_keys(key),
            d => self.on_chat(d, today),
        }
        Some(DashboardAction::Continue)
    }

    fn on_confirm_key(&mut self, key: Key) -> (r: Option<DashboardAction>)
        requires
            old(self).settings@.wf(),
        ensures
            (final(self)@, r) == old(self)@.confirm_key(key),
            final(self).settings@.wf(),
    {
        proof {
            reveal(DashboardModel::confirm_key);
        }
        if !self.deletion.show_delete_confirm {
            return None;
        }
        match self.deletion.handle_delete_confirmation(key) {
            Some(r) => self.push_chore(Chore::Delete(r)),
            None => {},
        }
        Some(DashboardAction::Continue)
    }

    fn on_shortcut_key(&mut self, key: Key, ctrl: bool, sur: &Surroundings) -> (r: Option<
        DashboardAction,
    >)
        requires
            old(self).settings@.wf(),
        ensures
            (final(self)@, r) == old(self)@.shortcut_key(key, ctrl, *sur),
            final(self).settings@.wf(),
    {
        proof {
            reveal(DashboardModel::shortcut_key);
        }
        if !ctrl {
            return None;
        }
        match key {
            Key::Char(c) => {
                if c == 's' {
                    self.settings.on_settings_opened(&sur.env);
                    self.shell.current_view = DashboardView::Settings;
                    Some(DashboardAction::Continue)
                } else if c == 'w' || c == 'z' {
                    self.entities.selected = Some(0);
                    self.shell.current_view = DashboardView::Entities;
                    self.push_chore(Chore::LoadEntities);
                    Some(DashboardAction::Continue)
                } else if c == 'r' {
                    Some(DashboardAction::ToggleRecording)
                } else if c == 'o' {
                    self.shell.owl_frame = Some(0);
                    Some(DashboardAction::Continue)
                } else {
                    None
                }
            },
            _ => None,
        }
    }
}

// ─── Browsing and chatting ───────────────────────────────────────────────────

impl DashboardModel {
    /// From the list back to the main screen.
    pub open spec fn back_home(self) -> DashboardModel {
        let c = self.chat;
        let focused = ChatView {
            entry: EntryView { focus: ChatFocus::ChatInput, borderless: true, ..c.entry },
            ..c
        };
        (DashboardModel {
            chat: if c.talk.messages.len() == 0 {
                ChatView {
                    home: HomeView { show_home_screen: true, ..c.home },
                    offers: OffersView { show_suggestions: true, ..c.offers },
                    ..focused
                }
            } else {
                focused
            },
            ..self
        }).viewing(DashboardView::Main)
    }

    /// The transcript of the recording under the cursor is wanted.
    pub open spec fn opening(self) -> DashboardModel {
        match self.list.current() {
            Some(r) => if r.has_transcript {
                self.doing(ChoreView::LoadTranscript { recording: r, reports_failure: true })
            } else {
                self.telling(
                    "No transcript available for this recording. Use P to play instead."@,
                )
            },
            None => self,
        }
    }

    pub open spec fn with_list(self, list: ListingView) -> DashboardModel {
        DashboardModel { list, ..self }
    }

    /// A key in the list.
    #[verifier::opaque]
    pub open spec fn browse_key(self, key: Key) -> (DashboardModel, DashboardAction) {
        let go_on = DashboardAction::Continue;
        match key {
            Key::Tab => (self.back_home(), go_on),
            Key::Esc => (self.back_home(), go_on),
            Key::Up => (self.one_up(), go_on),
            Key::Down => (self.one_down(), go_on),
            Key::PageUp => (self.page_back(), go_on),
            Key::PageDown => (self.page_on(), go_on),
            Key::Enter => (self.opening(), go_on),
            Key::Delete => (self.doubting(), go_on),
            Key::F(n) => (
                if n == 1 {
                    self.helping()
                } else {
                    self
                },
                go_on,
            ),
            Key::Char(c) => if c == '?' {
                (self.helping(), go_on)
            } else if c == '[' {
                (self.page_back(), go_on)
            } else if c == ']' {
                (self.page_on(), go_on)
            } else if c == 'r' || c == 'R' {
                (self, DashboardAction::RecordAndTranscribe)
            } else if c == 't' || c == 'T' {
                (self, DashboardAction::TranscribeSelected)
            } else if c == 'p' || c == 'P' {
                (
                    match self.list.current() {
                        Some(r) => self.doing(ChoreView::Play(r)),
                        None => self,
                    },
                    go_on,
                )
            } else if c == 'd' || c == 'D' {
                (self.doubting(), go_on)
            } else if c == 'a' || c == 'A' {
                (self.adding_file(), go_on)
            } else if c == '/' {
                (
                    self.with_list(
                        ListingView { search_mode: true, search_query: Seq::empty(), ..self.list },
                    ),
                    go_on,
                )
            } else {
                (self, go_on)
            },
            _ => (self, go_on),
        }
    }

    /// The question whether the recording under the cursor is to be deleted.
    pub open spec fn doubting(self) -> DashboardModel {
        DashboardModel { deletion: self.deletion.asking(self.list.current()), ..self }
    }

    pub open spec fn page_back(self) -> DashboardModel {
        if self.list.current_page > 0 {
            self.with_list(self.list.turning_back(false)).doing(ChoreView::LoadRecordings)
        } else {
            self
        }
    }

    pub open spec fn page_on(self) -> DashboardModel {
        self.with_list(self.list.turning()).doing(ChoreView::LoadRecordings)
    }

    /// One recording up. From the first of a page it goes to the page before.
    pub open spec fn one_up(self) -> DashboardModel {
        if self.list.begins_here() {
            self.with_list(self.list.turning_back(true)).doing(ChoreView::LoadRecordings)
        } else {
            self.with_list(self.list.previous())
        }
    }

    /// One recording down. From the last of a full page it goes to the next.
    pub open spec fn one_down(self) -> DashboardModel {
        if self.list.ends_here() {
            self.page_on()
        } else {
            self.with_list(self.list.next())
        }
    }

    /// The dialog for importing a file, unless a recording is going on.
    pub open spec fn adding_file(self) -> DashboardModel {
        if self.capture.recording {
            self.telling("Recording already in progress"@)
        } else {
            DashboardModel { import: self.import.opened(), ..self }
        }
    }

    /// The help is shown.
    pub open spec fn helping(self) -> DashboardModel {
        self.with_shell(
            ShellView { show_help: true, current_view: DashboardView::Help, ..self.shell },
        )
    }

    /// A key on the main screen: help, or the chat.
    #[verifier::opaque]
    pub open spec fn main_key(self, key: Key, today: int) -> DashboardModel {
        if key == Key::F(1) || (key == Key::Char('?') && self.chat.entry.input_buffer.len() == 0) {
            self.helping()
        } else {
            let (chat, d) = self.chat.pressing(
                key,
                self.shell.current_view == DashboardView::Main,
            );
            (DashboardModel { chat, ..self }).chatted(d, today)
        }
    }
}

impl Dashboard {
    fn go_home(&mut self)
        ensures
            final(self)@ == old(self)@.back_home(),
            final(self)@.settings == old(self)@.settings,
    {
        self.shell.current_view = DashboardView::Main;
        self.chat.entry.focus = ChatFocus::ChatInput;
        self.chat.entry.borderless = true;
        if self.chat.talk.messages.len() == 0 {
            self.chat.home.show_home_screen = true;
            self.chat.offers.show_suggestions = true;
        }
    }

    /// Asks for the transcript of the recording under the cursor.
    pub fn show_selected_transcript(&mut self)
        ensures
            final(self)@ == old(self)@.opening(),
            final(self)@.settings == old(self)@.settings,
    {
        match self.list.get_current_recording() {
            Some(recording) => {
                if recording.has_transcript {
                    self.push_chore(Chore::LoadTranscript { recording, reports_failure: true });
                } else {
                    self.tell(
                        "No transcript available for this recording. Use P to play instead.".to_owned(),
                    );
                }
            },
            None => {},
        }
    }

    fn doubt(&mut self)
        ensures
            final(self)@ == old(self)@.doubting(),
            final(self)@.settings == old(self)@.settings,
    {
        let r = self.list.get_current_recording();
        self.deletion.show_delete_confirmation(r);
    }

    fn turn_back(&mut self)
        ensures
            final(self)@ == old(self)@.page_back(),
            final(self)@.settings == old(self)@.settings,
    {
        if self.list.previous_page() {
            self.push_chore(Chore::LoadRecordings);
        }
    }

    fn turn_on(&mut self)
        requires
            old(self).list.current_page < usize::MAX,
        ensures
            final(self)@ == old(self)@.page_on(),
            final(self)@.settings == old(self)@.settings,
    {
        self.list.next_page();
        self.push_chore(Chore::LoadRecordings);
    }

    fn show_help(&mut self)
        ensures
            final(self)@ == old(self)@.helping(),
            final(self)@.settings == old(self)@.settings,
    {
        self.shell.show_help = true;
        self.shell.current_view = DashboardView::Help;
    }

    fn go_up(&mut self)
        ensures
            final(self)@ == old(self)@.one_up(),
            final(self)@.settings == old(self)@.settings,
    {
        if self.list.is_at_beginning() {
            self.list.page_above();
            self.push_chore(Chore::LoadRecordings);
        } else {
            self.list.previous_recording();
        }
    }

    fn go_down(&mut self)
        requires
            old(self).list.current_page < usize::MAX,
        ensures
            final(self)@ == old(self)@.one_down(),
            final(self)@.settings == old(self)@.settings,
    {
        if self.list.is_at_end() {
            self.turn_on();
        } else {
            self.list.next_recording();
        }
    }

    /// A key in the list.
    pub fn handle_browse_keys(&mut self, key: Key) -> (r: DashboardAction)
        requires
            old(self).settings@.wf(),
            old(self).list.current_page < usize::MAX,
        ensures
            (final(self)@, r) == old(self)@.browse_key(key),
            final(self).settings@.wf(),
    {
        proof {
            reveal(DashboardModel::browse_key);
        }
        match key {
            Key::Tab | Key::Esc => self.go_home(),
            Key::Up => self.go_up(),
            Key::Down => self.go_down(),
            Key::PageUp => self.turn_back(),
            Key::PageDown => self.turn_on(),
            Key::Enter => self.show_selected_transcript(),
            Key::Delete => self.doubt(),
            Key::F(n) => {
                if n == 1 {
                    self.show_help();
                }
            },
            Key::Char(c) => {
                if c == '?' {
                    self.show_help();
                } else if c == '[' {
                    self.turn_back();
                } else if c == ']' {
                    self.turn_on();
                } else if c == 'r' || c == 'R' {
                    return DashboardAction::RecordAndTranscribe;
                } else if c == 't' || c == 'T' {
                    return DashboardAction::TranscribeSelected;
                } else if c == 'p' || c == 'P' {
                    match self.list.get_current_recording() {
                        Some(r) => self.push_chore(Chore::Play(r)),
                        None => {},
                    }
                } else if c == 'd' || c == 'D' {
                    self.doubt();
                } else if c == 'a' || c == 'A' {
                    self.execute_add_external_file();
                } else if c == '/' {
                    self.list.search_mode = true;
                    self.list.search_query.clear();
                }
            },
            _ => {},
        }
        DashboardAction::Continue
    }

    fn on_main_key(&mut self, key: Key, today: i64)
        requires
            old(self).settings@.wf(),
        ensures
            final(self)@ == old(self)@.main_key(key, today as int),
            final(self).settings@.wf(),
    {
        proof {
            reveal(DashboardModel::main_key);
        }
        let wants_help = match key {
            Key::F(n) => n == 1,
            Key::Char(c) => c == '?' && self.chat.entry.input_buffer.as_str().unicode_len() == 0,
            _ => false,
        };
        if wants_help {
            self.show_help();
            return;
        }
        let on_main = match self.shell.current_view {
            DashboardView::Main => true,
            _ => false,
        };
        let d = self.chat.handle_chat_key(key, on_main);
        self.on_chat(d, today);
    }
}

// ─── All together ────────────────────────────────────────────────────────────

impl DashboardModel {
    /// A key that nothing above the screens has taken.
    pub open spec fn lower_key(self, key: Key, ctrl: bool, facts: Facts) -> (
        DashboardModel,
        DashboardAction,
    ) {
        let (m1, r1) = self.transcript_key(key, ctrl, facts.today as int);
        if r1 is Some {
            (m1, r1->Some_0)
        } else {
            let (m2, r2) = m1.confirm_key(key);
            if r2 is Some {
                (m2, r2->Some_0)
            } else {
                let (m3, r3) = m2.shortcut_key(key, ctrl, facts.surroundings);
                if r3 is Some {
                    (m3, r3->Some_0)
                } else if m3.shell.current_view == DashboardView::Browse {
                    m3.browse_key(key)
                } else {
                    (m3.main_key(key, facts.today as int), DashboardAction::Continue)
                }
            }
        }
    }

    /// A key: each part of the screen in turn may take it.
    pub open spec fn pressing(self, key: Key, ctrl: bool, facts: Facts) -> (
        DashboardModel,
        DashboardAction,
    ) {
        let (m1, r1) = self.interrupting(key, facts);
        if r1 is Some {
            (m1, r1->Some_0)
        } else {
            let (m2, r2) = m1.banner_key(key);
            if r2 is Some {
                (m2, r2->Some_0)
            } else {
                let (m3, r3) = m2.message_key(key);
                if r3 is Some {
                    (m3, r3->Some_0)
                } else {
                    let (m4, r4) = m3.overlay_key(key);
                    if r4 is Some {
                        (m4, r4->Some_0)
                    } else {
                        let (m5, r5) = m4.screen_key(key, facts.surroundings);
                        if r5 is Some {
                            (m5, r5->Some_0)
                        } else {
                            m5.lower_key(key, ctrl, facts)
                        }
                    }
                }
            }
        }
    }
}

impl Dashboard {
    fn on_lower_key(&mut self, key: Key, ctrl: bool, facts: &Facts) -> (r: DashboardAction)
        requires
            old(self).settings@.wf(),
            old(self).list.current_page < usize::MAX,
        ensures
            (final(self)@, r) == old(self)@.lower_key(key, ctrl, *facts),
            final(self).settings@.wf(),
    {
        proof {
            lower_keeps_page(self@, key, ctrl, *facts);
        }
        match self.on_transcript_key(key, ctrl, facts.today) {
            Some(a) => {
                return a;
            },
            None => {},
        }
        match self.on_confirm_key(key) {
            Some(a) => {
                return a;
            },
            None => {},
        }
        match self.on_shortcut_key(key, ctrl, &facts.surroundings) {
            Some(a) => {
                return a;
            },
            None => {},
        }
        match self.shell.current_view {
            DashboardView::Browse => self.handle_browse_keys(key),
            _ => {
                self.on_main_key(key, facts.today);
                DashboardAction::Continue
            },
        }
    }

    /// A key press. `facts` is what it is decided on beside the state.
    pub fn handle_key_event(&mut self, key: Key, ctrl: bool, facts: &Facts) -> (r: DashboardAction)
        requires
            old(self).settings@.wf(),
            old(self).list.current_page < usize::MAX,
        ensures
            (final(self)@, r) == old(self)@.pressing(key, ctrl, *facts),
            final(self).settings@.wf(),
    {
        proof {
            stages_keep_what_follows_needs(self@, key, *facts);
        }
        match self.on_interrupting_key(key, facts) {
            Some(a) => {
                return a;
            },
            None => {},
        }
        match self.on_banner_key(key) {
            Some(a) => {
                return a;
            },
            None => {},
        }
        match self.on_message_key(key) {
            Some(a) => {
                return a;
            },
            None => {},
        }
        match self.on_overlay_key(key) {
            Some(a) => {
                return a;
            },
            None => {},
        }
        match self.on_screen_key(key, &facts.surroundings) {
            Some(a) => {
                return a;
            },
            None => {},
        }
        self.on_lower_key(key, ctrl, facts)
    }
}

proof fn lower_keeps_page(m: DashboardModel, key: Key, ctrl: bool, facts: Facts)
    ensures
        ({
            let (m1, r1) = m.transcript_key(key, ctrl, facts.today as int);
            let (m2, r2) = m1.confirm_key(key);
            let (m3, r3) = m2.shortcut_key(key, ctrl, facts.surroundings);
            r1 is None && r2 is None && r3 is None ==> m3.list == m.list
        }),
{
    reveal(DashboardModel::transcript_key);
    reveal(DashboardModel::confirm_key);
    reveal(DashboardModel::shortcut_key);
}

proof fn stages_keep_what_follows_needs(m: DashboardModel, key: Key, facts: Facts)
    ensures
        ({
            let (m1, r1) = m.interrupting(key, facts);
            let (m2, r2) = m1.banner_key(key);
            let (m3, r3) = m2.message_key(key);
            let (m4, r4) = m3.overlay_key(key);
            let (m5, r5) = m4.screen_key(key, facts.surroundings);
            &&& r1 is None && r2 is None && r3 is None && r4 is None ==> m4.settings == m.settings
            &&& r1 is None && r2 is None && r3 is None && r4 is None && r5 is None ==> m5.list
                == m.list
        }),
{
    reveal(DashboardModel::onboarding_key);
    reveal(DashboardModel::dialog_key);
    reveal(DashboardModel::interrupting);
    reveal(DashboardModel::banner_key);
    reveal(DashboardModel::message_key);
    reveal(DashboardModel::overlay_key);
    reveal(DashboardModel::screen_key);
    reveal(DashboardModel::settings_key);
    reveal(DashboardModel::entities_key);
}

// ─── Laws ────────────────────────────────────────────────────────────────────

proof fn interruptions_quit(m: DashboardModel, key: Key, facts: Facts)
    ensures
        m.interrupting(key, facts).1 == Some(DashboardAction::Quit) ==> key == Key::Esc
            && m.shell.current_view == DashboardView::Onboarding,
{
    reveal(DashboardModel::onboarding_key);
    reveal(DashboardModel::dialog_key);
    reveal(DashboardModel::interrupting);
}

proof fn overlays_never_quit(m: DashboardModel, key: Key)
    ensures
        m.banner_key(key).1 != Some(DashboardAction::Quit),
        m.message_key(key).1 != Some(DashboardAction::Quit),
        m.overlay_key(key).1 != Some(DashboardAction::Quit),
        m.confirm_key(key).1 != Some(DashboardAction::Quit),
        m.browse_key(key).1 != DashboardAction::Quit,
{
    reveal(DashboardModel::banner_key);
    reveal(DashboardModel::message_key);
    reveal(DashboardModel::overlay_key);
    reveal(DashboardModel::confirm_key);
    reveal(DashboardModel::browse_key);
}

proof fn screens_never_quit(m: DashboardModel, key: Key, sur: Surroundings)
    ensures
        m.screen_key(key, sur).1 != Some(DashboardAction::Quit),
{
    reveal(DashboardModel::screen_key);
    reveal(DashboardModel::settings_key);
    reveal(DashboardModel::entities_key);
}

proof fn shortcuts_never_quit(
    m: DashboardModel,
    key: Key,
    ctrl: bool,
    today: int,
    sur: Surroundings,
)
    ensures
        m.transcript_key(key, ctrl, today).1 != Some(DashboardAction::Quit),
        m.shortcut_key(key, ctrl, sur).1 != Some(DashboardAction::Quit),
{
    reveal(DashboardModel::transcript_key);
    reveal(DashboardModel::shortcut_key);
}

/// No key quits the program but Esc during the onboarding.
pub proof fn only_the_onboarding_quits(m: DashboardModel, key: Key, ctrl: bool, facts: Facts)
    requires
        m.pressing(key, ctrl, facts).1 == DashboardAction::Quit,
    ensures
        key == Key::Esc,
        m.shell.current_view == DashboardView::Onboarding,
{
    let sur = facts.surroundings;
    let today = facts.today as int;
    let m1 = m.interrupting(key, facts).0;
    let m2 = m1.banner_key(key).0;
    let m3 = m2.message_key(key).0;
    let m4 = m3.overlay_key(key).0;
    let m5 = m4.screen_key(key, sur).0;
    let m6 = m5.transcript_key(key, ctrl, today).0;
    let m7 = m6.confirm_key(key).0;
    let m8 = m7.shortcut_key(key, ctrl, sur).0;
    interruptions_quit(m, key, facts);
    overlays_never_quit(m1, key);
    overlays_never_quit(m2, key);
    overlays_never_quit(m3, key);
    screens_never_quit(m4, key, sur);
    shortcuts_never_quit(m5, key, ctrl, today, sur);
    overlays_never_quit(m6, key);
    shortcuts_never_quit(m7, key, ctrl, today, sur);
    overlays_never_quit(m8, key);
}

/// A message stays until Esc dismisses it: while it is shown, every other key
/// is taken and changes nothing, except that `t` may confirm what it warns of.
pub proof fn messages_stay_until_esc(m: DashboardModel, key: Key)
    requires
        m.shell.show_message,
        key != Key::Esc,
        m.capture.last_transcribe_warning is None || (key != Key::Char('t') && key != Key::Char(
            'T',
        )),
    ensures
        m.message_key(key) == (m, Some(DashboardAction::Continue)),
{
    reveal(DashboardModel::message_key);
}

/// Nor does Esc dismiss it while something is in progress.
pub proof fn progress_messages_stay(m: DashboardModel, key: Key)
    requires
        m.shell.show_message,
        m.capture.progress_animation is Some,
    ensures
        m.message_key(key) == (m, Some(DashboardAction::Continue)),
{
    reveal(DashboardModel::message_key);
}

/// A key dismisses a note without being taken by it.
pub proof fn notes_do_not_take_the_key(m: DashboardModel, key: Key)
    requires
        m.update.available is None || m.update.in_progress,
    ensures
        m.banner_key(key).1 is None,
        m.banner_key(key).0.shell.notification is None,
        m.banner_key(key).0.update.completed is None,
{
    reveal(DashboardModel::banner_key);
}

/// While a recording goes on, Esc stops it, whatever is on the screen, and does
/// nothing else.
pub proof fn esc_stops_the_recording(m: DashboardModel, ctrl: bool, facts: Facts)
    requires
        m.capture.recording,
        !m.capture.playing,
        !m.capture.stop_sent,
    ensures
        m.pressing(Key::Esc, ctrl, facts) == (
            m.with_capture(CaptureView { stop_sent: true, ..m.capture }).doing(
                ChoreView::StopRecording,
            ),
            DashboardAction::Continue,
        ),
{
    reveal(DashboardModel::interrupting);
}

proof fn upper_stages_keep_jobs(m: DashboardModel, key: Key, facts: Facts)
    requires
        m.jobs.distinct(),
    ensures
        m.interrupting(key, facts).0.jobs.distinct(),
{
    reveal(DashboardModel::onboarding_key);
    reveal(DashboardModel::dialog_key);
    reveal(DashboardModel::interrupting);
    let outcome = m.import.pressing(key, facts.file).1;
    match outcome {
        DialogOutcomeView::Import { path, name } => {
            jobs_stay_distinct(
                m.jobs,
                PendingView::Import {
                    source_path: path,
                    display_name: name,
                    transcription_mode: m.settings.config.transcription,
                },
            );
        },
        _ => {},
    }
}

proof fn overlays_keep_jobs(m: DashboardModel, key: Key, sur: Surroundings)
    ensures
        m.banner_key(key).0.jobs == m.jobs,
        m.message_key(key).0.jobs == m.jobs,
        m.overlay_key(key).0.jobs == m.jobs,
        m.confirm_key(key).0.jobs == m.jobs,
        m.screen_key(key, sur).0.jobs == m.jobs,
{
    reveal(DashboardModel::banner_key);
    reveal(DashboardModel::message_key);
    reveal(DashboardModel::overlay_key);
    reveal(DashboardModel::confirm_key);
    reveal(DashboardModel::screen_key);
    reveal(DashboardModel::settings_key);
    reveal(DashboardModel::entities_key);
}

proof fn chat_keeps_jobs(m: DashboardModel, d: ChatDoView, today: int)
    ensures
        m.chatted(d, today).jobs == m.jobs,
{
    reveal(DashboardModel::chatted);
}

proof fn transcripts_keep_jobs(m: DashboardModel, key: Key, ctrl: bool, today: int)
    requires
        m.jobs.distinct(),
    ensures
        m.transcript_key(key, ctrl, today).0.jobs.distinct(),
{
    reveal(DashboardModel::transcript_key);
    reveal(DashboardModel::redone);
    reveal(DashboardModel::transcript_closed);
    let (chat, d) = m.chat.pressing_below(key);
    chat_keeps_jobs(DashboardModel { chat, ..m }, d, today);
    match m.list.current() {
        Some(r) => {
            jobs_stay_distinct(
                m.jobs,
                PendingView::Retranscribe {
                    recording_name: r.directory_name,
                    transcription_mode: m.settings.config.transcription,
                },
            );
        },
        None => {},
    }
}

proof fn lower_stages_keep_jobs(
    m: DashboardModel,
    key: Key,
    ctrl: bool,
    today: int,
    sur: Surroundings,
)
    ensures
        m.shortcut_key(key, ctrl, sur).0.jobs == m.jobs,
        m.browse_key(key).0.jobs == m.jobs,
        m.main_key(key, today).jobs == m.jobs,
{
    reveal(DashboardModel::shortcut_key);
    reveal(DashboardModel::browse_key);
    reveal(DashboardModel::main_key);
    let (chat, d) = m.chat.pressing(key, m.shell.current_view == DashboardView::Main);
    chat_keeps_jobs(DashboardModel { chat, ..m }, d, today);
}

/// No key has a recording transcribed twice at a time.
pub proof fn keys_keep_jobs_distinct(m: DashboardModel, key: Key, ctrl: bool, facts: Facts)
    requires
        m.jobs.distinct(),
    ensures
        m.pressing(key, ctrl, facts).0.jobs.distinct(),
{
    let sur = facts.surroundings;
    let today = facts.today as int;
    let m1 = m.interrupting(key, facts).0;
    let m2 = m1.banner_key(key).0;
    let m3 = m2.message_key(key).0;
    let m4 = m3.overlay_key(key).0;
    let m5 = m4.screen_key(key, sur).0;
    let m6 = m5.transcript_key(key, ctrl, today).0;
    let m7 = m6.confirm_key(key).0;
    let m8 = m7.shortcut_key(key, ctrl, sur).0;
    upper_stages_keep_jobs(m, key, facts);
    overlays_keep_jobs(m1, key, sur);
    overlays_keep_jobs(m2, key, sur);
    overlays_keep_jobs(m3, key, sur);
    overlays_keep_jobs(m4, key, sur);
    transcripts_keep_jobs(m5, key, ctrl, today);
    overlays_keep_jobs(m6, key, sur);
    lower_stages_keep_jobs(m7, key, ctrl, today, sur);
    lower_stages_keep_jobs(m8, key, ctrl, today, sur);
}

} // verus!
