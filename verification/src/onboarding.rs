//! First run: choosing between a private and a cloud setup, checking the
//! machine or the keys, and telling Scriba who its user is.
use vstd::prelude::*;

use crate::config::{
    CloudProvider, ConfigView, EnrichmentMode, EnrichmentView, LocalModel, ScribaConfig,
    TranscriptionMode, TranscriptionView, DEFAULT_OLLAMA_ENDPOINT, DEFAULT_OLLAMA_MODEL,
};
use crate::keys::{is_down, is_up, Key};
use crate::ollama::{option_views, OllamaListing, OllamaModelOption, OptionView};
use crate::text::{
    at_most, cat, cat3, contains, occurs, pieces, split, texts, trim, trimmed, without_last,
};
use crate::update::Platform;

verus! {

pub const INTRO_TEXT: &'static str = "Welcome to Scriba.\n\nScriba turns recordings into knowledge.\nRecord or import audio, get transcripts,\nand let AI extract who was mentioned,\nwhat was discussed, and what to remember.\n\nLet's get you set up.";

pub const MODE_TEXT: &'static str = "Scriba uses AI to understand your recordings.\nHow do you want to run it?";

pub const WHISPER_KEY_TEXT: &'static str = "Cloud transcription uses the OpenAI Whisper API.\n\nEnter your OpenAI API key for transcription:";

pub const TESTING_OPENAI_TEXT: &'static str = "Testing your OpenAI key...";

pub const OPENAI_VERIFIED_TEXT: &'static str = "OpenAI key verified.\n\nNow choose an AI provider for knowledge extraction.\n\nWhich provider do you want to use?";

pub const OPENAI_FAILED_TEXT: &'static str = "OpenAI key validation failed.\n\nCheck your key and try again:";

pub const ABOUT_TEXT: &'static str = "Scriba uses your name and role to better\nunderstand your recordings.\n\nWhat's your name?";

pub const REUSED_KEY: &'static str = "Using your OpenAI key for enrichment too.\n\n";

pub const KEY_VERIFIED: &'static str = "API key verified.\n\n";

pub const KEY_LATER: &'static str = "No problem. You can set the key later in Settings.\n\n";

pub const MODELS_LATER: &'static str = "No problem. Models will download on first use.\n\n";

pub const ALL_SET: &'static str = "All set!\n\n";

pub const SOME_ISSUES: &'static str = "Some downloads had issues. You can retry later.\n\n";

pub const TESTING_KEY_TEXT: &'static str = "Testing your API key...";

pub const KEY_FAILED_TEXT: &'static str = "API key validation failed.";

pub const CHECKING_TEXT: &'static str = "Checking your setup...";

pub const WHISPER_MODEL_TEXT: &'static str = "Choose a Whisper model for local transcription.\nLarger models are more accurate but slower.";

pub const OLLAMA_MODEL_TEXT: &'static str = "Choose an Ollama model for knowledge extraction.\nThis is used to identify people, topics, and context.";

pub const READY_TEXT: &'static str = "Ready to set up:";

pub const DOWNLOADING_TEXT: &'static str = "Setting up your models...";

pub const PROCESSING_TEXT: &'static str = "Setting up your world...";

pub const CONFIRM_TEXT: &'static str = "Here's what I've got:";

pub const SAVED_TEXT: &'static str = "\n\nYour info has been saved.\nYou can fix this later in Settings (Ctrl+S).";

pub const WORLD_READY_TEXT: &'static str = "Your world is ready.\n\nEvery recording you make will be enriched\nwith what Scriba knows about you and your world.\n\nLet's go.";

pub const DONE_TEXT: &'static str = "You're all set.\n\nRecord or import audio, and Scriba will\nextract who, what, and why \u{2014} building\na knowledge base that grows over time.\n\nLet's get started.";

#[derive(Clone, Copy, Debug, PartialEq, Eq, Structural)]
pub enum OnboardingStep {
    Entrance,
    Intro,
    ModeSelection,
    // Cloud flow
    WhisperApiKey,
    WhisperApiKeyValidation,
    ProviderSelection,
    ApiKeyEntry,
    ApiKeyValidation,
    // Privacy flow
    SystemCheck,
    ModelSetup,
    // Shared
    AskName,
    AskRole,
    Processing,
    Confirmation,
    Done,
}

#[derive(Debug)]
pub enum CheckStatus {
    Pending,
    Running,
    Passed,
    Failed(String),
}

pub enum CheckView {
    Pending,
    Running,
    Passed,
    Failed(Seq<char>),
}

impl View for CheckStatus {
    type V = CheckView;

    open spec fn view(&self) -> CheckView {
        match *self {
            CheckStatus::Pending => CheckView::Pending,
            CheckStatus::Running => CheckView::Running,
            CheckStatus::Passed => CheckView::Passed,
            CheckStatus::Failed(hint) => CheckView::Failed(hint@),
        }
    }
}

/// A check of the machine.
#[derive(Debug)]
pub struct SystemCheck {
    pub name: &'static str,
    pub status: CheckStatus,
}

pub struct SystemCheckView {
    pub name: &'static str,
    pub status: CheckView,
}

impl View for SystemCheck {
    type V = SystemCheckView;

    open spec fn view(&self) -> SystemCheckView {
        SystemCheckView { name: self.name, status: self.status@ }
    }
}

/// News of check `index`: it runs (not passed, no hint), it passed, or it
/// failed with a hint.
#[derive(Debug)]
pub struct CheckMessage {
    pub index: usize,
    pub passed: bool,
    pub hint: String,
}

/// What to do about a check that failed.
#[verifier::allow_in_spec]
pub fn check_hint(index: usize, platform: Platform) -> &'static str
    returns
        (match index {
            0 => match platform {
                Platform::MacArm => "Install with: brew install ffmpeg",
                Platform::MacIntel => "Install with: brew install ffmpeg",
                Platform::Windows => "Install ffmpeg: https://ffmpeg.org/download.html",
                _ => "Install with your package manager (e.g. apt install ffmpeg)",
            },
            1 => match platform {
                Platform::MacArm => "Install with: brew install ollama",
                Platform::MacIntel => "Install with: brew install ollama",
                _ => "Install Ollama: https://ollama.ai/download",
            },
            _ => "Run: ollama serve (default port 11434)",
        }),
{
    match index {
        0 => match platform {
            Platform::MacArm => "Install with: brew install ffmpeg",
            Platform::MacIntel => "Install with: brew install ffmpeg",
            Platform::Windows => "Install ffmpeg: https://ffmpeg.org/download.html",
            _ => "Install with your package manager (e.g. apt install ffmpeg)",
        },
        1 => match platform {
            Platform::MacArm => "Install with: brew install ollama",
            Platform::MacIntel => "Install with: brew install ollama",
            _ => "Install Ollama: https://ollama.ai/download",
        },
        _ => "Run: ollama serve (default port 11434)",
    }
}

/// The news of a check that has ended, and of the server where it is not
/// asked because Ollama is missing; and the check that comes next.
pub fn after_check(index: usize, passed: bool, platform: Platform) -> (r: (
    Vec<CheckMessage>,
    Option<usize>,
))
    requires
        index < 3,
    ensures
        r.0@.len() == (if index == 1 && !passed {
            2int
        } else {
            1
        }),
        r.0@[0].index == index,
        r.0@[0].passed == passed,
        r.0@[0].hint@ == (if passed {
            Seq::empty()
        } else {
            check_hint(index, platform)@
        }),
        index == 1 && !passed ==> r.0@[1].index == 2 && !r.0@[1].passed && r.0@[1].hint@
            == "Install Ollama first"@,
        r.1 == (if index == 0 || (index == 1 && passed) {
            Some((index + 1) as usize)
        } else {
            None
        }),
{
    let hint = if passed {
        String::new()
    } else {
        check_hint(index, platform).to_owned()
    };
    let mut news: Vec<CheckMessage> = Vec::new();
    news.push(CheckMessage { index, passed, hint });
    if index == 1 && !passed {
        news.push(
            CheckMessage { index: 2, passed: false, hint: "Install Ollama first".to_owned() },
        );
    }
    let next = if index == 0 || (index == 1 && passed) {
        Some(index + 1)
    } else {
        None
    };
    (news, next)
}

#[derive(Debug)]
pub enum DownloadStatus {
    Pending,
    InProgress(u8),
    Done,
    Failed(String),
}

pub enum DownloadView {
    Pending,
    InProgress(u8),
    Done,
    Failed(Seq<char>),
}

impl View for DownloadStatus {
    type V = DownloadView;

    open spec fn view(&self) -> DownloadView {
        match *self {
            DownloadStatus::Pending => DownloadView::Pending,
            DownloadStatus::InProgress(pct) => DownloadView::InProgress(pct),
            DownloadStatus::Done => DownloadView::Done,
            DownloadStatus::Failed(msg) => DownloadView::Failed(msg@),
        }
    }
}

/// The status of a download that has come to `pct` percent.
pub fn progress_status(pct: u8) -> (r: DownloadStatus)
    ensures
        r@ == (if pct >= 100 {
            DownloadView::Done
        } else {
            DownloadView::InProgress(pct)
        }),
{
    if pct >= 100 {
        DownloadStatus::Done
    } else {
        DownloadStatus::InProgress(pct)
    }
}

/// A model that is being downloaded.
#[derive(Debug)]
pub struct DownloadItem {
    pub name: String,
    pub status: DownloadStatus,
}

pub struct DownloadItemView {
    pub name: Seq<char>,
    pub status: DownloadView,
}

impl View for DownloadItem {
    type V = DownloadItemView;

    open spec fn view(&self) -> DownloadItemView {
        DownloadItemView { name: self.name@, status: self.status@ }
    }
}

/// News of download `index`.
#[derive(Debug)]
pub struct DownloadProgress {
    pub index: usize,
    pub status: DownloadStatus,
}

pub open spec fn check_views(v: Seq<SystemCheck>) -> Seq<SystemCheckView> {
    Seq::new(v.len(), |i: int| v[i]@)
}

pub open spec fn item_views(v: Seq<DownloadItem>) -> Seq<DownloadItemView> {
    Seq::new(v.len(), |i: int| v[i]@)
}

/// What came of building the user's world.
#[derive(Debug)]
pub enum Processed {
    World { owner: String, role: String, organization: String, people: Vec<String> },
    /// The assistant could not be reached, with a hint at the cause.
    Unavailable(Option<String>),
    Failed(String),
}

/// What has come in since the last tick.
#[derive(Debug)]
pub struct TickInput {
    pub checks: Vec<CheckMessage>,
    pub checks_finished: bool,
    pub downloads: Vec<DownloadProgress>,
    pub downloads_finished: bool,
    /// Whether the OpenAI key is valid, once that is known.
    pub whisper_verdict: Option<bool>,
    /// Whether the assistant key is valid, once that is known.
    pub key_verdict: Option<bool>,
    pub processed: Option<Processed>,
}

/// Work that a key press leaves to the caller, in this order.
#[derive(Clone, Copy, Debug, PartialEq, Eq, Structural)]
pub enum Errand {
    SaveConfig,
    RunSystemChecks,
    ValidateWhisperKey,
    ValidateApiKey,
    FetchOllamaModels,
    StartDownloads,
    StartProcessing,
    RemoveWorldFile,
}

/// Side-effects that the caller must handle after a tick.
#[derive(Debug)]
pub enum TickResult {
    /// Onboarding is finished.
    Complete,
    /// The checks passed with Ollama reachable: fetch its models ahead.
    FetchOllamaModels,
    /// The OpenAI key is valid: keep it for transcription.
    SaveWhisperKey(String),
}

pub enum TickResultView {
    Complete,
    FetchOllamaModels,
    SaveWhisperKey(Seq<char>),
}

pub open spec fn tick_result_view(r: Option<TickResult>) -> Option<TickResultView> {
    match r {
        Some(TickResult::Complete) => Some(TickResultView::Complete),
        Some(TickResult::FetchOllamaModels) => Some(TickResultView::FetchOllamaModels),
        Some(TickResult::SaveWhisperKey(k)) => Some(TickResultView::SaveWhisperKey(k@)),
        None => None,
    }
}

/// What is being said, and how far it has been revealed.
#[derive(Debug)]
pub struct Screen {
    pub step: OnboardingStep,
    pub full_text: String,
    pub visible_chars: usize,
    pub text_complete: bool,
    pub anim_frame: usize,
    pub transition_frame: usize,
    pub transitioning: bool,
}

pub struct ScreenView {
    pub step: OnboardingStep,
    pub full_text: Seq<char>,
    pub visible_chars: int,
    pub text_complete: bool,
    pub anim_frame: usize,
    pub transition_frame: int,
    pub transitioning: bool,
}

impl View for Screen {
    type V = ScreenView;

    open spec fn view(&self) -> ScreenView {
        ScreenView {
            step: self.step,
            full_text: self.full_text@,
            visible_chars: self.visible_chars as int,
            text_complete: self.text_complete,
            anim_frame: self.anim_frame,
            transition_frame: self.transition_frame as int,
            transitioning: self.transitioning,
        }
    }
}

/// The mode, the provider and the keys.
#[derive(Debug)]
pub struct Access {
    pub selected_mode: usize,
    pub selected_provider: usize,
    pub whisper_api_key_input: String,
    pub whisper_key_valid: Option<bool>,
    pub whisper_validating: bool,
    pub api_key_input: String,
    pub api_key_valid: Option<bool>,
    pub validation_fail_selection: usize,
    pub validating: bool,
}

pub struct AccessView {
    pub selected_mode: usize,
    pub selected_provider: usize,
    pub whisper_api_key_input: Seq<char>,
    pub whisper_key_valid: Option<bool>,
    pub whisper_validating: bool,
    pub api_key_input: Seq<char>,
    pub api_key_valid: Option<bool>,
    pub validation_fail_selection: usize,
    pub validating: bool,
}

impl View for Access {
    type V = AccessView;

    open spec fn view(&self) -> AccessView {
        AccessView {
            selected_mode: self.selected_mode,
            selected_provider: self.selected_provider,
            whisper_api_key_input: self.whisper_api_key_input@,
            whisper_key_valid: self.whisper_key_valid,
            whisper_validating: self.whisper_validating,
            api_key_input: self.api_key_input@,
            api_key_valid: self.api_key_valid,
            validation_fail_selection: self.validation_fail_selection,
            validating: self.validating,
        }
    }
}

/// Who the user is.
#[derive(Debug)]
pub struct Introduction {
    pub user_name: String,
    pub user_role: String,
    pub processing: bool,
    pub ollama_available: bool,
    pub confirm_owner: String,
    pub confirm_role: String,
    pub confirm_org: String,
    pub confirm_people: String,
    pub confirm_selection: usize,
}

pub struct IntroductionView {
    pub user_name: Seq<char>,
    pub user_role: Seq<char>,
    pub processing: bool,
    pub ollama_available: bool,
    pub confirm_owner: Seq<char>,
    pub confirm_role: Seq<char>,
    pub confirm_org: Seq<char>,
    pub confirm_people: Seq<char>,
    pub confirm_selection: usize,
}

impl View for Introduction {
    type V = IntroductionView;

    open spec fn view(&self) -> IntroductionView {
        IntroductionView {
            user_name: self.user_name@,
            user_role: self.user_role@,
            processing: self.processing,
            ollama_available: self.ollama_available,
            confirm_owner: self.confirm_owner@,
            confirm_role: self.confirm_role@,
            confirm_org: self.confirm_org@,
            confirm_people: self.confirm_people@,
            confirm_selection: self.confirm_selection,
        }
    }
}

/// The checks of the machine.
#[derive(Debug)]
pub struct Machine {
    pub system_checks: Vec<SystemCheck>,
    pub system_checking: bool,
    pub system_check_done: bool,
    pub system_check_selection: usize,
    pub ollama_reachable: bool,
}

pub struct MachineView {
    pub system_checks: Seq<SystemCheckView>,
    pub system_checking: bool,
    pub system_check_done: bool,
    pub system_check_selection: usize,
    pub ollama_reachable: bool,
}

impl View for Machine {
    type V = MachineView;

    open spec fn view(&self) -> MachineView {
        MachineView {
            system_checks: check_views(self.system_checks@),
            system_checking: self.system_checking,
            system_check_done: self.system_check_done,
            system_check_selection: self.system_check_selection,
            ollama_reachable: self.ollama_reachable,
        }
    }
}

/// The models of a private setup.
#[derive(Debug)]
pub struct Models {
    pub setup_phase: u8,
    pub whisper_model_selection: usize,
    pub ollama_model_selection: usize,
    pub ollama_available_models: Vec<OllamaModelOption>,
    pub ollama_models_fetched: bool,
    pub downloading: bool,
    pub download_items: Vec<DownloadItem>,
}

pub struct ModelsView {
    pub setup_phase: u8,
    pub whisper_model_selection: int,
    pub ollama_model_selection: int,
    pub ollama_available_models: Seq<OptionView>,
    pub ollama_models_fetched: bool,
    pub downloading: bool,
    pub download_items: Seq<DownloadItemView>,
}

impl View for Models {
    type V = ModelsView;

    open spec fn view(&self) -> ModelsView {
        ModelsView {
            setup_phase: self.setup_phase,
            whisper_model_selection: self.whisper_model_selection as int,
            ollama_model_selection: self.ollama_model_selection as int,
            ollama_available_models: option_views(self.ollama_available_models@),
            ollama_models_fetched: self.ollama_models_fetched,
            downloading: self.downloading,
            download_items: item_views(self.download_items@),
        }
    }
}

/// The state of the first run.
#[derive(Debug)]
pub struct Onboarding {
    pub screen: Screen,
    pub access: Access,
    pub user: Introduction,
    pub machine: Machine,
    pub models: Models,
    /// What a key press leaves to the caller.
    pub errands: Vec<Errand>,
}

pub struct OnboardingView {
    pub screen: ScreenView,
    pub access: AccessView,
    pub user: IntroductionView,
    pub machine: MachineView,
    pub models: ModelsView,
    pub errands: Seq<Errand>,
}

impl View for Onboarding {
    type V = OnboardingView;

    open spec fn view(&self) -> OnboardingView {
        OnboardingView {
            screen: self.screen@,
            access: self.access@,
            user: self.user@,
            machine: self.machine@,
            models: self.models@,
            errands: self.errands@,
        }
    }
}

/// The number of Whisper models on offer.
pub const WHISPER_MODEL_COUNT: usize = 4;

/// The Whisper model at a position of the list.
#[verifier::allow_in_spec]
pub fn whisper_model(i: usize) -> LocalModel
    returns
        (if i == 0 {
            LocalModel::WhisperTurbo
        } else if i == 1 {
            LocalModel::WhisperLarge
        } else if i == 2 {
            LocalModel::WhisperMedium
        } else {
            LocalModel::WhisperSmall
        }),
{
    if i == 0 {
        LocalModel::WhisperTurbo
    } else if i == 1 {
        LocalModel::WhisperLarge
    } else if i == 2 {
        LocalModel::WhisperMedium
    } else {
        LocalModel::WhisperSmall
    }
}

/// The provider at a position of the list.
#[verifier::allow_in_spec]
pub fn listed_provider(i: usize) -> CloudProvider
    returns
        (if i == 0 {
            CloudProvider::Anthropic
        } else if i == 1 {
            CloudProvider::OpenAI
        } else {
            CloudProvider::Google
        }),
{
    if i == 0 {
        CloudProvider::Anthropic
    } else if i == 1 {
        CloudProvider::OpenAI
    } else {
        CloudProvider::Google
    }
}

/// The first line break at or behind position `from`.
pub open spec fn next_break(text: Seq<char>, from: int) -> Option<int>
    decreases text.len() - from,
{
    if from < 0 || from >= text.len() {
        None
    } else if text[from] == '\n' {
        Some(from)
    } else {
        next_break(text, from + 1)
    }
}

/// A model name always carries a tag.
pub open spec fn tagged(model: Seq<char>) -> Seq<char> {
    if occurs(model, ":"@) {
        model
    } else {
        model + ":latest"@
    }
}

/// The model name without its tag.
pub open spec fn untagged(model: Seq<char>) -> Seq<char> {
    pieces(model, ':')[0]
}

pub open spec fn any_failed(checks: Seq<SystemCheckView>) -> bool {
    exists|i: int| 0 <= i < checks.len() && (#[trigger] checks[i]).status is Failed
}

pub open spec fn all_downloaded(items: Seq<DownloadItemView>) -> bool {
    forall|i: int| 0 <= i < items.len() ==> (#[trigger] items[i]).status == DownloadView::Done
}

pub open spec fn some_download_failed(items: Seq<DownloadItemView>) -> bool {
    exists|i: int| 0 <= i < items.len() && (#[trigger] items[i]).status is Failed
}

/// The local model the configuration names, or the default.
pub open spec fn ollama_model_of(c: ConfigView) -> Seq<char> {
    match c.mode {
        EnrichmentView::Local { ollama_model, .. } => ollama_model,
        _ => DEFAULT_OLLAMA_MODEL@,
    }
}

pub open spec fn fresh_checks() -> Seq<SystemCheckView> {
    seq![
        SystemCheckView { name: "FFmpeg installed", status: CheckView::Pending },
        SystemCheckView { name: "Ollama installed", status: CheckView::Pending },
        SystemCheckView { name: "Ollama server running", status: CheckView::Pending },
    ]
}

/// The downloads of a private setup: the Whisper model, and the Ollama model
/// where the server can be reached.
pub open spec fn downloads_for(v: OnboardingView, c: ConfigView, installed: bool) -> Seq<
    DownloadItemView,
> {
    let whisper = Seq::empty().push(
        DownloadItemView {
            name: "Downloading "@ + whisper_model(
                v.models.whisper_model_selection as usize,
            ).display_name()@,
            status: if installed {
                DownloadView::Done
            } else {
                DownloadView::Pending
            },
        },
    );
    if v.machine.ollama_reachable {
        whisper.push(
            DownloadItemView {
                name: "Pulling "@ + untagged(ollama_model_of(c)),
                status: DownloadView::Pending,
            },
        )
    } else {
        whisper
    }
}

/// The first run before its first frame.
pub open spec fn fresh_onboarding() -> OnboardingView {
    OnboardingView {
        screen: ScreenView {
            step: OnboardingStep::Entrance,
            full_text: Seq::empty(),
            visible_chars: 0,
            text_complete: false,
            anim_frame: 0,
            transition_frame: 0,
            transitioning: false,
        },
        access: AccessView {
            selected_mode: 0,
            selected_provider: 0,
            whisper_api_key_input: Seq::empty(),
            whisper_key_valid: None,
            whisper_validating: false,
            api_key_input: Seq::empty(),
            api_key_valid: None,
            validation_fail_selection: 0,
            validating: false,
        },
        user: IntroductionView {
            user_name: Seq::empty(),
            user_role: Seq::empty(),
            processing: false,
            ollama_available: true,
            confirm_owner: Seq::empty(),
            confirm_role: Seq::empty(),
            confirm_org: Seq::empty(),
            confirm_people: Seq::empty(),
            confirm_selection: 0,
        },
        machine: MachineView {
            system_checks: Seq::empty(),
            system_checking: false,
            system_check_done: false,
            system_check_selection: 0,
            ollama_reachable: false,
        },
        models: ModelsView {
            setup_phase: 0,
            whisper_model_selection: 0,
            ollama_model_selection: 0,
            ollama_available_models: Seq::empty(),
            ollama_models_fetched: false,
            downloading: false,
            download_items: Seq::empty(),
        },
        errands: Seq::empty(),
    }
}

impl OnboardingView {
    /// The choices lie within their lists, and no more text is revealed than
    /// there is.
    pub open spec fn wf(self) -> bool {
        &&& 0 <= self.screen.visible_chars <= self.screen.full_text.len()
        &&& self.screen.text_complete ==> self.screen.visible_chars == self.screen.full_text.len()
        &&& self.access.selected_mode <= 1
        &&& self.access.selected_provider <= 2
        &&& 0 <= self.models.whisper_model_selection < WHISPER_MODEL_COUNT
    }

    /// The text that has been revealed.
    pub open spec fn visible_text(self) -> Seq<char> {
        self.screen.full_text.take(
            at_most(self.screen.visible_chars, self.screen.full_text.len() as int),
        )
    }

    /// A new text: revealed line by line, or at once.
    pub open spec fn saying(self, text: Seq<char>, animated: bool) -> OnboardingView {
        OnboardingView { screen: ScreenView { full_text: text, visible_chars: if animated {
                0
            } else {
                text.len() as int
            }, text_complete: !animated, ..self.screen }, ..self }
    }

    /// On to `step`.
    pub open spec fn going(self, step: OnboardingStep, text: Seq<char>, animated: bool) -> OnboardingView {
        OnboardingView {
            screen: ScreenView { step, anim_frame: 0, ..self.screen },
            ..self
        }.saying(text, animated)
    }

    /// The models of Ollama to choose from, with the first one chosen.
    pub open spec fn offering(self, options: Seq<OptionView>) -> OnboardingView {
        OnboardingView {
            models: ModelsView {
                ollama_available_models: options,
                ollama_model_selection: 0,
                ..self.models
            },
            ..self
        }
    }

    /// The screen on which a model of Ollama is chosen.
    pub open spec fn chooses_ollama_model(self) -> bool {
        self.screen.step == OnboardingStep::ModelSetup && self.models.setup_phase == 1
    }

    pub open spec fn sending(self, e: Errand) -> OnboardingView {
        OnboardingView { errands: self.errands.push(e), ..self }
    }

    /// The rest of the text is shown at once.
    pub open spec fn revealed(self) -> OnboardingView {
        OnboardingView {
            screen: ScreenView {
                visible_chars: self.screen.full_text.len() as int,
                text_complete: true,
                ..self.screen
            },
            ..self
        }
    }

    /// One line more is revealed on every second frame.
    pub open spec fn typing(self) -> OnboardingView {
        if self.screen.text_complete || self.screen.anim_frame % 2 != 0 {
            self
        } else {
            match next_break(self.screen.full_text, self.screen.visible_chars) {
                Some(i) => OnboardingView {
                    screen: ScreenView { visible_chars: i + 1, ..self.screen },
                    ..self
                },
                None => self.revealed(),
            }
        }
    }

    /// The checks of the machine begin anew.
    pub open spec fn checking(self) -> OnboardingView {
        OnboardingView {
            machine: MachineView {
                system_checks: fresh_checks(),
                system_check_done: false,
                system_check_selection: 0,
                ollama_reachable: false,
                system_checking: true,
            },
            ..self
        }.saying(CHECKING_TEXT@, false).sending(Errand::RunSystemChecks)
    }

    pub open spec fn choosing_models(self) -> OnboardingView {
        OnboardingView { models: ModelsView { setup_phase: 0, ..self.models }, ..self }.going(
            OnboardingStep::ModelSetup,
            WHISPER_MODEL_TEXT@,
            false,
        )
    }

    pub open spec fn asking_name(self, lead: Seq<char>) -> OnboardingView {
        self.going(OnboardingStep::AskName, lead + ABOUT_TEXT@, true)
    }

    // ─── Key presses ─────────────────────────────────────────────────────

    pub open spec fn intro_key(self, key: Key) -> OnboardingView {
        if !self.screen.text_complete {
            self.revealed()
        } else if key == Key::Enter {
            self.going(OnboardingStep::ModeSelection, MODE_TEXT@, false)
        } else {
            self
        }
    }

    pub open spec fn mode_key(self, c: ConfigView, key: Key) -> (OnboardingView, ConfigView) {
        if is_up(key) {
            (OnboardingView { access: AccessView { selected_mode: 0, ..self.access }, ..self }, c)
        } else if is_down(key) {
            (OnboardingView { access: AccessView { selected_mode: 1, ..self.access }, ..self }, c)
        } else if key == Key::Enter {
            if self.access.selected_mode == 0 {
                (
                    OnboardingView {
                        screen: ScreenView {
                            step: OnboardingStep::SystemCheck,
                            anim_frame: 0,
                            ..self.sending(Errand::SaveConfig).screen
                        },
                        ..self.sending(Errand::SaveConfig)
                    }.checking(),
                    ConfigView {
                        mode: EnrichmentView::Local {
                            ollama_endpoint: DEFAULT_OLLAMA_ENDPOINT@,
                            ollama_model: DEFAULT_OLLAMA_MODEL@,
                        },
                        ..c
                    },
                )
            } else {
                (self.going(OnboardingStep::WhisperApiKey, WHISPER_KEY_TEXT@, false), c)
            }
        } else {
            (self, c)
        }
    }

    pub open spec fn whisper_key_key(self, key: Key) -> OnboardingView {
        match key {
            Key::Enter => if trimmed(self.access.whisper_api_key_input).len() > 0 {
                OnboardingView {
                    access: AccessView {
                        whisper_key_valid: None,
                        whisper_validating: true,
                        ..self.access
                    },
                    ..self
                }.going(
                    OnboardingStep::WhisperApiKeyValidation,
                    TESTING_OPENAI_TEXT@,
                    false,
                ).sending(Errand::ValidateWhisperKey)
            } else {
                self
            },
            Key::Char(c) => OnboardingView {
                access: AccessView {
                    whisper_api_key_input: self.access.whisper_api_key_input.push(c),
                    ..self.access
                },
                ..self
            },
            Key::Backspace => OnboardingView {
                access: AccessView {
                    whisper_api_key_input: without_last(self.access.whisper_api_key_input),
                    ..self.access
                },
                ..self
            },
            _ => self,
        }
    }

    /// The provider is chosen. OpenAI gets the key that transcription uses;
    /// the others ask for theirs.
    pub open spec fn provider_key(self, c: ConfigView, key: Key) -> (OnboardingView, ConfigView) {
        if is_up(key) {
            (
                OnboardingView {
                    access: AccessView {
                        selected_provider: crate::text::monus(
                            self.access.selected_provider as int,
                            1,
                        ) as usize,
                        ..self.access
                    },
                    ..self
                },
                c,
            )
        } else if is_down(key) {
            (
                OnboardingView {
                    access: AccessView {
                        selected_provider: at_most(self.access.selected_provider + 1, 2) as usize,
                        ..self.access
                    },
                    ..self
                },
                c,
            )
        } else if key == Key::Enter {
            let p = listed_provider(self.access.selected_provider);
            let reused = if p == CloudProvider::OpenAI {
                trimmed(self.access.whisper_api_key_input)
            } else {
                Seq::empty()
            };
            let config = ConfigView {
                mode: EnrichmentView::Cloud {
                    provider: p,
                    api_key: reused,
                    model: Some(p.default_model()@),
                    base_url: None,
                },
                ..c
            };
            if reused.len() > 0 {
                (self.sending(Errand::SaveConfig).asking_name(REUSED_KEY@), config)
            } else {
                (
                    self.going(
                        OnboardingStep::ApiKeyEntry,
                        "Enter your "@ + p.display_name()@ + " API key.\n\nPaste it below:"@,
                        false,
                    ),
                    config,
                )
            }
        } else {
            (self, c)
        }
    }

    pub open spec fn api_key_key(self, c: ConfigView, key: Key) -> (OnboardingView, ConfigView) {
        match key {
            Key::Enter => if trimmed(self.access.api_key_input).len() > 0 {
                (
                    OnboardingView {
                        access: AccessView {
                            api_key_valid: None,
                            validating: true,
                            ..self.sending(Errand::SaveConfig).access
                        },
                        ..self.sending(Errand::SaveConfig)
                    }.going(
                        OnboardingStep::ApiKeyValidation,
                        TESTING_KEY_TEXT@,
                        false,
                    ).sending(Errand::ValidateApiKey),
                    match c.mode {
                        EnrichmentView::Cloud { provider, model, base_url, .. } => ConfigView {
                            mode: EnrichmentView::Cloud {
                                provider,
                                api_key: trimmed(self.access.api_key_input),
                                model,
                                base_url,
                            },
                            ..c
                        },
                        _ => c,
                    },
                )
            } else {
                (self, c)
            },
            Key::Char(ch) => (
                OnboardingView {
                    access: AccessView {
                        api_key_input: self.access.api_key_input.push(ch),
                        ..self.access
                    },
                    ..self
                },
                c,
            ),
            Key::Backspace => (
                OnboardingView {
                    access: AccessView {
                        api_key_input: without_last(self.access.api_key_input),
                        ..self.access
                    },
                    ..self
                },
                c,
            ),
            _ => (self, c),
        }
    }

    /// After a rejected key: try another one, or go on without.
    pub open spec fn rejected_key(self, c: ConfigView, key: Key) -> OnboardingView {
        if self.access.api_key_valid != Some(false) {
            self
        } else if is_up(key) {
            OnboardingView {
                access: AccessView { validation_fail_selection: 0, ..self.access },
                ..self
            }
        } else if is_down(key) {
            OnboardingView {
                access: AccessView { validation_fail_selection: 1, ..self.access },
                ..self
            }
        } else if key == Key::Enter {
            if self.access.validation_fail_selection == 0 {
                OnboardingView {
                    access: AccessView { api_key_input: Seq::empty(), ..self.access },
                    ..self
                }.going(
                    OnboardingStep::ApiKeyEntry,
                    "Let's try again. Paste your "@ + assistant_name(c)@ + " API key:"@,
                    false,
                )
            } else {
                self.asking_name(KEY_LATER@)
            }
        } else {
            self
        }
    }

    pub open spec fn system_check_key(self, key: Key) -> OnboardingView {
        if !self.machine.system_check_done {
            self
        } else if is_up(key) {
            OnboardingView {
                machine: MachineView { system_check_selection: 0, ..self.machine },
                ..self
            }
        } else if is_down(key) {
            OnboardingView {
                machine: MachineView { system_check_selection: 1, ..self.machine },
                ..self
            }
        } else if key == Key::Enter {
            if self.machine.system_check_selection == 0 {
                self.checking()
            } else {
                self.choosing_models()
            }
        } else {
            self
        }
    }

    /// Choosing the Whisper model.
    pub open spec fn whisper_model_key(self, key: Key) -> OnboardingView {
        if is_up(key) {
            OnboardingView {
                models: ModelsView {
                    whisper_model_selection: crate::text::monus(
                        self.models.whisper_model_selection,
                        1,
                    ) as int,
                    ..self.models
                },
                ..self
            }
        } else if is_down(key) {
            OnboardingView { models: ModelsView { whisper_model_selection: at_most(
                    self.models.whisper_model_selection + 1,
                    WHISPER_MODEL_COUNT - 1,
                ), ..self.models }, ..self }
        } else if key == Key::Enter {
            if self.machine.ollama_reachable {
                let next = OnboardingView {
                    models: ModelsView { setup_phase: 1, ..self.models },
                    ..self
                }.saying(
                    OLLAMA_MODEL_TEXT@,
                    false,
                );
                if self.models.ollama_models_fetched {
                    next
                } else {
                    OnboardingView {
                        models: ModelsView { ollama_models_fetched: true, ..next.models },
                        ..next
                    }.sending(
                        Errand::FetchOllamaModels,
                    )
                }
            } else {
                OnboardingView {
                    models: ModelsView { setup_phase: 2, ..self.models },
                    machine: MachineView { system_check_selection: 0, ..self.machine },
                    ..self
                }.saying(
                    READY_TEXT@,
                    false,
                )
            }
        } else {
            self
        }
    }

    /// Choosing the Ollama model.
    pub open spec fn ollama_model_key(self, c: ConfigView, key: Key) -> (OnboardingView, ConfigView) {
        let models = self.models.ollama_available_models;
        if is_up(key) {
            (
                OnboardingView { models: ModelsView { ollama_model_selection: crate::text::monus(
                        self.models.ollama_model_selection,
                        1,
                    ) as int, ..self.models }, ..self },
                c,
            )
        } else if is_down(key) {
            (
                OnboardingView { models: ModelsView { ollama_model_selection: at_most(
                        self.models.ollama_model_selection + 1,
                        crate::text::at_least(models.len() as int, 1) - 1,
                    ), ..self.models }, ..self },
                c,
            )
        } else if key == Key::Enter {
            let next = OnboardingView {
                models: ModelsView { setup_phase: 2, ..self.models },
                ..self
            }.saying(READY_TEXT@, false);
            if self.models.ollama_model_selection < models.len() {
                (
                    next.sending(Errand::SaveConfig),
                    match c.mode {
                        EnrichmentView::Local { ollama_endpoint, .. } => ConfigView {
                            mode: EnrichmentView::Local {
                                ollama_endpoint,
                                ollama_model: tagged(models[self.models.ollama_model_selection].id),
                            },
                            ..c
                        },
                        _ => c,
                    },
                )
            } else {
                (next, c)
            }
        } else {
            (self, c)
        }
    }

    /// The Whisper model that was chosen is the one in use.
    pub open spec fn using_whisper(self, c: ConfigView) -> ConfigView {
        ConfigView {
            transcription: TranscriptionView::Local {
                model: whisper_model(self.models.whisper_model_selection as usize),
            },
            ..c
        }
    }

    /// Download now, or skip.
    pub open spec fn download_key(self, c: ConfigView, key: Key, installed: bool) -> (
        OnboardingView,
        ConfigView,
    ) {
        if is_up(key) {
            (
                OnboardingView {
                    machine: MachineView { system_check_selection: 0, ..self.machine },
                    ..self
                },
                c,
            )
        } else if is_down(key) {
            (
                OnboardingView {
                    machine: MachineView { system_check_selection: 1, ..self.machine },
                    ..self
                },
                c,
            )
        } else if key == Key::Enter {
            if self.machine.system_check_selection == 0 {
                (
                    OnboardingView {
                        models: ModelsView {
                            setup_phase: 3,
                            download_items: downloads_for(self, c, installed),
                            downloading: true,
                            ..self.models
                        },
                        ..self
                    }.saying(DOWNLOADING_TEXT@, false).sending(Errand::StartDownloads),
                    c,
                )
            } else {
                (
                    self.sending(Errand::SaveConfig).asking_name(MODELS_LATER@),
                    self.using_whisper(c),
                )
            }
        } else {
            (self, c)
        }
    }

    /// Downloads are over once all are done or one has failed.
    pub open spec fn downloads_settled(self) -> bool {
        all_downloaded(
            self.models.download_items,
        ) || some_download_failed(self.models.download_items)
    }

    pub open spec fn downloaded_key(self, c: ConfigView, key: Key) -> (OnboardingView, ConfigView) {
        if self.downloads_settled() && key == Key::Enter {
            (
                self.sending(Errand::SaveConfig).asking_name(
                    if all_downloaded(self.models.download_items) {
                        ALL_SET@
                    } else {
                        SOME_ISSUES@
                    },
                ),
                self.using_whisper(c),
            )
        } else {
            (self, c)
        }
    }

    pub open spec fn setup_key(self, c: ConfigView, key: Key, installed: bool) -> (
        OnboardingView,
        ConfigView,
    ) {
        if self.models.setup_phase == 0 {
            (self.whisper_model_key(key), c)
        } else if self.models.setup_phase == 1 {
            self.ollama_model_key(c, key)
        } else if self.models.setup_phase == 2 {
            self.download_key(c, key, installed)
        } else if self.models.setup_phase == 3 {
            self.downloaded_key(c, key)
        } else {
            (self, c)
        }
    }

    pub open spec fn name_key(self, key: Key) -> OnboardingView {
        if !self.screen.text_complete {
            self.revealed()
        } else {
            match key {
                Key::Enter => if trimmed(self.user.user_name).len() > 0 {
                    self.going(
                        OnboardingStep::AskRole,
                        "Nice to meet you, "@ + self.user.user_name
                            + ".\n\nTell Scriba about yourself so it can better\nunderstand your recordings. What do you do?\nWho do you work with?"@,
                        true,
                    )
                } else {
                    self
                },
                Key::Char(c) => OnboardingView {
                    user: IntroductionView { user_name: self.user.user_name.push(c), ..self.user },
                    ..self
                },
                Key::Backspace => OnboardingView {
                    user: IntroductionView {
                        user_name: without_last(self.user.user_name),
                        ..self.user
                    },
                    ..self
                },
                _ => self,
            }
        }
    }

    pub open spec fn role_key(self, key: Key) -> OnboardingView {
        if !self.screen.text_complete {
            self.revealed()
        } else {
            match key {
                Key::Enter => if trimmed(self.user.user_role).len() > 0 {
                    OnboardingView {
                        user: IntroductionView { processing: true, ..self.user },
                        ..self
                    }.going(
                        OnboardingStep::Processing,
                        PROCESSING_TEXT@,
                        false,
                    ).sending(Errand::StartProcessing)
                } else {
                    self
                },
                Key::Char(c) => OnboardingView {
                    user: IntroductionView { user_role: self.user.user_role.push(c), ..self.user },
                    ..self
                },
                Key::Backspace => OnboardingView {
                    user: IntroductionView {
                        user_role: without_last(self.user.user_role),
                        ..self.user
                    },
                    ..self
                },
                _ => self,
            }
        }
    }

    pub open spec fn processing_key(self, key: Key) -> OnboardingView {
        if self.screen.text_complete && !self.user.processing && !self.user.ollama_available && key == Key::Enter {
            self.going(OnboardingStep::Done, WORLD_READY_TEXT@, true)
        } else {
            self
        }
    }

    pub open spec fn confirmation_key(self, key: Key) -> OnboardingView {
        if is_up(key) {
            OnboardingView { user: IntroductionView { confirm_selection: 0, ..self.user }, ..self }
        } else if is_down(key) {
            OnboardingView { user: IntroductionView { confirm_selection: 1, ..self.user }, ..self }
        } else if key == Key::Enter {
            if self.user.confirm_selection == 0 {
                self.going(OnboardingStep::Done, DONE_TEXT@, true)
            } else {
                self.going(OnboardingStep::AskName, ABOUT_TEXT@, true).sending(
                    Errand::RemoveWorldFile,
                )
            }
        } else {
            self
        }
    }

    pub open spec fn done_key(self, key: Key) -> OnboardingView {
        if !self.screen.text_complete {
            self.revealed()
        } else if !self.screen.transitioning && key == Key::Enter {
            OnboardingView {
                screen: ScreenView { transitioning: true, transition_frame: 0, ..self.screen },
                ..self
            }
        } else {
            self
        }
    }

    /// A key press other than Esc, by the step.
    pub open spec fn step_key(self, c: ConfigView, key: Key, installed: bool) -> (
        OnboardingView,
        ConfigView,
    ) {
        match self.screen.step {
            OnboardingStep::Entrance | OnboardingStep::WhisperApiKeyValidation => (self, c),
            OnboardingStep::Intro => (self.intro_key(key), c),
            OnboardingStep::ModeSelection => self.mode_key(c, key),
            OnboardingStep::WhisperApiKey => (self.whisper_key_key(key), c),
            OnboardingStep::ProviderSelection => self.provider_key(c, key),
            OnboardingStep::ApiKeyEntry => self.api_key_key(c, key),
            OnboardingStep::ApiKeyValidation => (self.rejected_key(c, key), c),
            OnboardingStep::SystemCheck => (self.system_check_key(key), c),
            OnboardingStep::ModelSetup => self.setup_key(c, key, installed),
            OnboardingStep::AskName => (self.name_key(key), c),
            OnboardingStep::AskRole => (self.role_key(key), c),
            OnboardingStep::Processing => (self.processing_key(key), c),
            OnboardingStep::Confirmation => (self.confirmation_key(key), c),
            OnboardingStep::Done => (self.done_key(key), c),
        }
    }
}

/// The name of the assistant's provider.
pub open spec fn assistant_name(c: ConfigView) -> &'static str {
    match c.mode {
        EnrichmentView::Local { .. } => "Ollama",
        EnrichmentView::Cloud { provider, .. } => provider.display_name(),
    }
}

/// The name of the assistant's provider.
pub fn provider_display_name(config: &ScribaConfig) -> (r: &'static str)
    ensures
        r == assistant_name(config@),
{
    match &config.enrichment.mode {
        EnrichmentMode::Local { .. } => "Ollama",
        EnrichmentMode::Cloud { provider, .. } => provider.display_name(),
    }
}

fn find_break(text: &Vec<char>, from: usize) -> (r: Option<usize>)
    ensures
        (match r {
            Some(i) => Some(i as int),
            None => None,
        }) == next_break(text@, from as int),
        r is Some ==> r->0 < usize::MAX,
{
    let mut i: usize = from;
    while i < text.len()
        invariant
            next_break(text@, from as int) == next_break(text@, i as int),
        decreases text.len() - i,
    {
        if text[i] == '\n' {
            return Some(i);
        }
        i += 1;
    }
    None
}

impl Onboarding {
    /// The beginning of the first run.
    pub fn new() -> (r: Onboarding)
        ensures
            r@ == fresh_onboarding(),
            r@.wf(),
    {
        let r = Onboarding {
            screen: Screen {
                step: OnboardingStep::Entrance,
                full_text: String::new(),
                visible_chars: 0,
                text_complete: false,
                anim_frame: 0,
                transition_frame: 0,
                transitioning: false,
            },
            access: Access {
                selected_mode: 0,
                selected_provider: 0,
                whisper_api_key_input: String::new(),
                whisper_key_valid: None,
                whisper_validating: false,
                api_key_input: String::new(),
                api_key_valid: None,
                validation_fail_selection: 0,
                validating: false,
            },
            user: Introduction {
                user_name: String::new(),
                user_role: String::new(),
                processing: false,
                ollama_available: true,
                confirm_owner: String::new(),
                confirm_role: String::new(),
                confirm_org: String::new(),
                confirm_people: String::new(),
                confirm_selection: 0,
            },
            machine: Machine {
                system_checks: Vec::new(),
                system_checking: false,
                system_check_done: false,
                system_check_selection: 0,
                ollama_reachable: false,
            },
            models: Models {
                setup_phase: 0,
                whisper_model_selection: 0,
                ollama_model_selection: 0,
                ollama_available_models: Vec::new(),
                ollama_models_fetched: false,
                downloading: false,
                download_items: Vec::new(),
            },
            errands: Vec::new(),
        };
        assert(r@.machine.system_checks =~= Seq::<SystemCheckView>::empty());
        assert(r@.models.ollama_available_models =~= Seq::<OptionView>::empty());
        assert(r@.models.download_items =~= Seq::<DownloadItemView>::empty());
        assert(r@.errands =~= Seq::<Errand>::empty());
        r
    }

    /// Shows a new text, line by line or at once.
    pub fn set_step_text(&mut self, text: &str, animated: bool)
        ensures
            final(self)@ == old(self)@.saying(text@, animated),
    {
        self.screen.full_text = text.to_owned();
        if animated {
            self.screen.visible_chars = 0;
            self.screen.text_complete = false;
        } else {
            self.screen.visible_chars = text.unicode_len();
            self.screen.text_complete = true;
        }
    }

    pub(crate) fn go(&mut self, step: OnboardingStep, text: &str, animated: bool)
        ensures
            final(self)@ == old(self)@.going(step, text@, animated),
    {
        self.screen.step = step;
        self.screen.anim_frame = 0;
        self.set_step_text(text, animated);
    }

    fn reveal_all(&mut self)
        ensures
            final(self)@ == old(self)@.revealed(),
    {
        self.screen.visible_chars = self.screen.full_text.as_str().unicode_len();
        self.screen.text_complete = true;
    }

    /// Reveals one line more on every second frame.
    pub fn tick_typewriter_lines(&mut self)
        ensures
            final(self)@ == old(self)@.typing(),
    {
        if self.screen.text_complete || self.screen.anim_frame % 2 != 0 {
            return;
        }
        let text = crate::text::chars_of(self.screen.full_text.as_str());
        match find_break(&text, self.screen.visible_chars) {
            Some(i) => self.screen.visible_chars = i + 1,
            None => self.reveal_all(),
        }
    }

    /// The text that has been revealed.
    pub fn visible_text(&self) -> (r: &str)
        ensures
            r@ == self@.visible_text(),
    {
        crate::text::take(self.screen.full_text.as_str(), self.screen.visible_chars)
    }

    /// Resets the checks of the machine and asks for them to run.
    pub fn start_system_checks(&mut self)
        ensures
            final(self)@ == old(self)@.checking(),
    {
        let mut checks: Vec<SystemCheck> = Vec::new();
        checks.push(SystemCheck { name: "FFmpeg installed", status: CheckStatus::Pending });
        checks.push(SystemCheck { name: "Ollama installed", status: CheckStatus::Pending });
        checks.push(SystemCheck { name: "Ollama server running", status: CheckStatus::Pending });
        assert(check_views(checks@) =~= fresh_checks());
        self.machine.system_checks = checks;
        self.machine.system_check_done = false;
        self.machine.system_check_selection = 0;
        self.machine.ollama_reachable = false;
        self.machine.system_checking = true;
        self.set_step_text(CHECKING_TEXT, false);
        self.errands.push(Errand::RunSystemChecks);
    }

    pub(crate) fn choose_models(&mut self)
        ensures
            final(self)@ == old(self)@.choosing_models(),
    {
        self.models.setup_phase = 0;
        self.go(OnboardingStep::ModelSetup, WHISPER_MODEL_TEXT, false);
    }

    pub(crate) fn ask_name(&mut self, lead: &str)
        ensures
            final(self)@ == old(self)@.asking_name(lead@),
    {
        self.go(OnboardingStep::AskName, cat(lead, ABOUT_TEXT).as_str(), true);
    }

    fn on_mode_key(&mut self, config: &mut ScribaConfig, key: Key)
        ensures
            (final(self)@, final(config)@) == old(self)@.mode_key(old(config)@, key),
    {
        if is_up(key) {
            self.access.selected_mode = 0;
        } else if is_down(key) {
            self.access.selected_mode = 1;
        } else if key == Key::Enter {
            if self.access.selected_mode == 0 {
                config.enrichment.mode = EnrichmentMode::Local {
                    ollama_endpoint: DEFAULT_OLLAMA_ENDPOINT.to_owned(),
                    ollama_model: DEFAULT_OLLAMA_MODEL.to_owned(),
                };
                self.errands.push(Errand::SaveConfig);
                self.screen.step = OnboardingStep::SystemCheck;
                self.screen.anim_frame = 0;
                self.start_system_checks();
            } else {
                self.go(OnboardingStep::WhisperApiKey, WHISPER_KEY_TEXT, false);
            }
        }
    }

    fn on_whisper_key_key(&mut self, key: Key)
        ensures
            final(self)@ == old(self)@.whisper_key_key(key),
    {
        match key {
            Key::Enter => {
                if trim(self.access.whisper_api_key_input.as_str()).unicode_len() > 0 {
                    self.access.whisper_key_valid = None;
                    self.access.whisper_validating = true;
                    self.go(OnboardingStep::WhisperApiKeyValidation, TESTING_OPENAI_TEXT, false);
                    self.errands.push(Errand::ValidateWhisperKey);
                }
            },
            Key::Char(c) => self.access.whisper_api_key_input.push(c),
            Key::Backspace => {
                let _ = self.access.whisper_api_key_input.pop();
            },
            _ => {},
        }
    }

    fn on_provider_key(&mut self, config: &mut ScribaConfig, key: Key)
        ensures
            (final(self)@, final(config)@) == old(self)@.provider_key(old(config)@, key),
    {
        if is_up(key) {
            self.access.selected_provider = self.access.selected_provider.saturating_sub(1);
        } else if is_down(key) {
            self.access.selected_provider = if self.access.selected_provider < 2 {
                self.access.selected_provider + 1
            } else {
                2
            };
        } else if key == Key::Enter {
            let p = listed_provider(self.access.selected_provider);
            let reused = if p == CloudProvider::OpenAI {
                trim(self.access.whisper_api_key_input.as_str()).to_owned()
            } else {
                String::new()
            };
            let known = reused.as_str().unicode_len() > 0;
            config.enrichment.mode = EnrichmentMode::Cloud {
                provider: p,
                api_key: reused,
                model: Some(p.default_model().to_owned()),
                base_url: None,
            };
            if known {
                self.errands.push(Errand::SaveConfig);
                self.ask_name(REUSED_KEY);
            } else {
                let text = cat3(
                    "Enter your ",
                    p.display_name(),
                    " API key.\n\nPaste it below:",
                );
                self.go(OnboardingStep::ApiKeyEntry, text.as_str(), false);
            }
        }
    }

    fn on_api_key_key(&mut self, config: &mut ScribaConfig, key: Key)
        ensures
            (final(self)@, final(config)@) == old(self)@.api_key_key(old(config)@, key),
    {
        match key {
            Key::Enter => {
                let typed = trim(self.access.api_key_input.as_str()).to_owned();
                if typed.as_str().unicode_len() > 0 {
                    match &mut config.enrichment.mode {
                        EnrichmentMode::Cloud { api_key, .. } => {
                            *api_key = typed;
                        },
                        _ => {},
                    }
                    self.errands.push(Errand::SaveConfig);
                    self.access.api_key_valid = None;
                    self.access.validating = true;
                    self.go(OnboardingStep::ApiKeyValidation, TESTING_KEY_TEXT, false);
                    self.errands.push(Errand::ValidateApiKey);
                }
            },
            Key::Char(c) => self.access.api_key_input.push(c),
            Key::Backspace => {
                let _ = self.access.api_key_input.pop();
            },
            _ => {},
        }
    }

    fn on_rejected_key(&mut self, config: &ScribaConfig, key: Key)
        ensures
            final(self)@ == old(self)@.rejected_key(config@, key),
    {
        let rejected = match self.access.api_key_valid {
            Some(valid) => !valid,
            None => false,
        };
        if !rejected {
            return;
        }
        if is_up(key) {
            self.access.validation_fail_selection = 0;
        } else if is_down(key) {
            self.access.validation_fail_selection = 1;
        } else if key == Key::Enter {
            if self.access.validation_fail_selection == 0 {
                self.access.api_key_input = String::new();
                let text = cat3(
                    "Let's try again. Paste your ",
                    provider_display_name(config),
                    " API key:",
                );
                self.go(OnboardingStep::ApiKeyEntry, text.as_str(), false);
            } else {
                self.ask_name(KEY_LATER);
            }
        }
    }

    fn on_system_check_key(&mut self, key: Key)
        ensures
            final(self)@ == old(self)@.system_check_key(key),
    {
        if !self.machine.system_check_done {
            return;
        }
        if is_up(key) {
            self.machine.system_check_selection = 0;
        } else if is_down(key) {
            self.machine.system_check_selection = 1;
        } else if key == Key::Enter {
            if self.machine.system_check_selection == 0 {
                self.start_system_checks();
            } else {
                self.choose_models();
            }
        }
    }

    fn on_whisper_model_key(&mut self, key: Key)
        ensures
            final(self)@ == old(self)@.whisper_model_key(key),
    {
        if is_up(key) {
            self.models.whisper_model_selection = self.models.whisper_model_selection.saturating_sub(
                1,
            );
        } else if is_down(key) {
            self.models.whisper_model_selection = if self.models.whisper_model_selection < WHISPER_MODEL_COUNT
                - 1 {
                self.models.whisper_model_selection + 1
            } else {
                WHISPER_MODEL_COUNT - 1
            };
        } else if key == Key::Enter {
            if self.machine.ollama_reachable {
                self.models.setup_phase = 1;
                self.set_step_text(OLLAMA_MODEL_TEXT, false);
                if !self.models.ollama_models_fetched {
                    self.models.ollama_models_fetched = true;
                    self.errands.push(Errand::FetchOllamaModels);
                }
            } else {
                self.models.setup_phase = 2;
                self.machine.system_check_selection = 0;
                self.set_step_text(READY_TEXT, false);
            }
        }
    }

    fn on_ollama_model_key(&mut self, config: &mut ScribaConfig, key: Key)
        ensures
            (final(self)@, final(config)@) == old(self)@.ollama_model_key(old(config)@, key),
    {
        if is_up(key) {
            self.models.ollama_model_selection = self.models.ollama_model_selection.saturating_sub(
                1,
            );
        } else if is_down(key) {
            let last = if self.models.ollama_available_models.len() > 1 {
                self.models.ollama_available_models.len() - 1
            } else {
                0
            };
            self.models.ollama_model_selection = if self.models.ollama_model_selection < last {
                self.models.ollama_model_selection + 1
            } else {
                last
            };
        } else if key == Key::Enter {
            let at = self.models.ollama_model_selection;
            let mut chosen: Option<String> = None;
            if at < self.models.ollama_available_models.len() {
                let model = self.models.ollama_available_models[at].id.as_str();
                let with_tag = if contains(model, ":") {
                    model.to_owned()
                } else {
                    cat(model, ":latest")
                };
                chosen = Some(with_tag);
            }
            self.models.setup_phase = 2;
            self.set_step_text(READY_TEXT, false);
            match chosen {
                Some(name) => {
                    match &mut config.enrichment.mode {
                        EnrichmentMode::Local { ollama_model, .. } => {
                            *ollama_model = name;
                        },
                        _ => {},
                    }
                    self.errands.push(Errand::SaveConfig);
                },
                None => {},
            }
        }
    }

    fn downloads(&self, config: &ScribaConfig, installed: bool) -> (r: Vec<DownloadItem>)
        ensures
            item_views(r@) == downloads_for(self@, config@, installed),
    {
        let whisper = whisper_model(self.models.whisper_model_selection);
        let mut items: Vec<DownloadItem> = Vec::new();
        items.push(
            DownloadItem {
                name: cat("Downloading ", whisper.display_name()),
                status: if installed {
                    DownloadStatus::Done
                } else {
                    DownloadStatus::Pending
                },
            },
        );
        if self.machine.ollama_reachable {
            let model = match &config.enrichment.mode {
                EnrichmentMode::Local { ollama_model, .. } => ollama_model.clone(),
                _ => DEFAULT_OLLAMA_MODEL.to_owned(),
            };
            let parts = split(model.as_str(), ':');
            proof {
                crate::text::pieces_nonempty(model@, ':');
                assert(texts(parts@)[0] == parts@[0]@);
            }
            items.push(
                DownloadItem {
                    name: cat("Pulling ", parts[0].as_str()),
                    status: DownloadStatus::Pending,
                },
            );
        }
        assert(item_views(items@) =~= downloads_for(self@, config@, installed));
        items
    }

    fn use_whisper(&self, config: &mut ScribaConfig)
        ensures
            final(config)@ == self@.using_whisper(old(config)@),
    {
        config.transcription = TranscriptionMode::Local {
            model: whisper_model(self.models.whisper_model_selection),
        };
    }

    fn on_download_key(&mut self, config: &mut ScribaConfig, key: Key, installed: bool)
        ensures
            (final(self)@, final(config)@) == old(self)@.download_key(
                old(config)@,
                key,
                installed,
            ),
    {
        if is_up(key) {
            self.machine.system_check_selection = 0;
        } else if is_down(key) {
            self.machine.system_check_selection = 1;
        } else if key == Key::Enter {
            if self.machine.system_check_selection == 0 {
                let items = self.downloads(config, installed);
                self.models.setup_phase = 3;
                self.models.download_items = items;
                self.models.downloading = true;
                self.set_step_text(DOWNLOADING_TEXT, false);
                self.errands.push(Errand::StartDownloads);
            } else {
                self.use_whisper(config);
                self.errands.push(Errand::SaveConfig);
                self.ask_name(MODELS_LATER);
            }
        }
    }

    /// Whether every download is done.
    pub fn all_downloads_done(&self) -> (r: bool)
        ensures
            r == all_downloaded(self@.models.download_items),
    {
        let mut i: usize = 0;
        while i < self.models.download_items.len()
            invariant
                i <= self.models.download_items@.len(),
                forall|k: int|
                    0 <= k < i ==> (#[trigger] self@.models.download_items[k]).status
                        == DownloadView::Done,
            decreases self.models.download_items.len() - i,
        {
            match self.models.download_items[i].status {
                DownloadStatus::Done => {},
                _ => {
                    assert(self@.models.download_items[i as int].status != DownloadView::Done);
                    return false;
                },
            }
            i += 1;
        }
        true
    }

    /// Whether a download has failed.
    pub fn any_download_failed(&self) -> (r: bool)
        ensures
            r == some_download_failed(self@.models.download_items),
    {
        let mut i: usize = 0;
        while i < self.models.download_items.len()
            invariant
                i <= self.models.download_items@.len(),
                forall|k: int|
                    0 <= k < i ==> !((#[trigger] self@.models.download_items[k]).status is Failed),
            decreases self.models.download_items.len() - i,
        {
            match self.models.download_items[i].status {
                DownloadStatus::Failed(_) => {
                    assert(self@.models.download_items[i as int].status is Failed);
                    return true;
                },
                _ => {},
            }
            i += 1;
        }
        false
    }

    fn on_downloaded_key(&mut self, config: &mut ScribaConfig, key: Key)
        ensures
            (final(self)@, final(config)@) == old(self)@.downloaded_key(old(config)@, key),
    {
        let all_done = self.all_downloads_done();
        if (all_done || self.any_download_failed()) && key == Key::Enter {
            self.use_whisper(config);
            self.errands.push(Errand::SaveConfig);
            self.ask_name(
                if all_done {
                    ALL_SET
                } else {
                    SOME_ISSUES
                },
            );
        }
    }

    fn on_name_key(&mut self, key: Key)
        ensures
            final(self)@ == old(self)@.name_key(key),
    {
        if !self.screen.text_complete {
            self.reveal_all();
            return;
        }
        match key {
            Key::Enter => {
                if trim(self.user.user_name.as_str()).unicode_len() > 0 {
                    let text = cat3(
                        "Nice to meet you, ",
                        self.user.user_name.as_str(),
                        ".\n\nTell Scriba about yourself so it can better\nunderstand your recordings. What do you do?\nWho do you work with?",
                    );
                    self.go(OnboardingStep::AskRole, text.as_str(), true);
                }
            },
            Key::Char(c) => self.user.user_name.push(c),
            Key::Backspace => {
                let _ = self.user.user_name.pop();
            },
            _ => {},
        }
    }

    fn on_role_key(&mut self, key: Key)
        ensures
            final(self)@ == old(self)@.role_key(key),
    {
        if !self.screen.text_complete {
            self.reveal_all();
            return;
        }
        match key {
            Key::Enter => {
                if trim(self.user.user_role.as_str()).unicode_len() > 0 {
                    self.user.processing = true;
                    self.go(OnboardingStep::Processing, PROCESSING_TEXT, false);
                    self.errands.push(Errand::StartProcessing);
                }
            },
            Key::Char(c) => self.user.user_role.push(c),
            Key::Backspace => {
                let _ = self.user.user_role.pop();
            },
            _ => {},
        }
    }

    fn on_confirmation_key(&mut self, key: Key)
        ensures
            final(self)@ == old(self)@.confirmation_key(key),
    {
        if is_up(key) {
            self.user.confirm_selection = 0;
        } else if is_down(key) {
            self.user.confirm_selection = 1;
        } else if key == Key::Enter {
            if self.user.confirm_selection == 0 {
                self.go(OnboardingStep::Done, DONE_TEXT, true);
            } else {
                self.go(OnboardingStep::AskName, ABOUT_TEXT, true);
                self.errands.push(Errand::RemoveWorldFile);
            }
        }
    }

    fn on_setup_key(&mut self, config: &mut ScribaConfig, key: Key, installed: bool)
        ensures
            (final(self)@, final(config)@) == old(self)@.setup_key(old(config)@, key, installed),
    {
        match self.models.setup_phase {
            0 => self.on_whisper_model_key(key),
            1 => self.on_ollama_model_key(config, key),
            2 => self.on_download_key(config, key, installed),
            3 => self.on_downloaded_key(config, key),
            _ => {},
        }
    }

    /// Whether the choices lie within their lists and no more text is revealed
    /// than there is.
    pub fn is_well_formed(&self) -> (r: bool)
        ensures
            r == self@.wf(),
    {
        let n = self.screen.full_text.as_str().unicode_len();
        self.screen.visible_chars <= n && (!self.screen.text_complete
            || self.screen.visible_chars == n) && self.access.selected_mode <= 1
            && self.access.selected_provider <= 2 && self.models.whisper_model_selection
            < WHISPER_MODEL_COUNT
    }

    pub fn is_choosing_ollama_model(&self) -> (r: bool)
        ensures
            r == self@.chooses_ollama_model(),
    {
        match self.screen.step {
            OnboardingStep::ModelSetup => self.models.setup_phase == 1,
            _ => false,
        }
    }

    /// The models of Ollama have come: the recommended ones are offered, and
    /// those that are installed besides.
    pub fn on_ollama_models(&mut self, listing: &OllamaListing)
        ensures
            final(self)@ == old(self)@.offering(listing.offers()),
    {
        self.models.ollama_available_models = listing.options();
        self.models.ollama_model_selection = 0;
    }

    /// A key press during the first run. Esc quits the application at any
    /// step: the result says so, and nothing changes.
    pub fn handle_onboarding_keys(
        &mut self,
        config: &mut ScribaConfig,
        key: Key,
        installed: bool,
    ) -> (quit: bool)
        ensures
            quit == (key == Key::Esc),
            (final(self)@, final(config)@) == (if key == Key::Esc {
                (old(self)@, old(config)@)
            } else {
                old(self)@.step_key(old(config)@, key, installed)
            }),
    {
        if key == Key::Esc {
            return true;
        }
        match self.screen.step {
            OnboardingStep::Entrance | OnboardingStep::WhisperApiKeyValidation => {},
            OnboardingStep::Intro => {
                if !self.screen.text_complete {
                    self.reveal_all();
                } else if key == Key::Enter {
                    self.go(OnboardingStep::ModeSelection, MODE_TEXT, false);
                }
            },
            OnboardingStep::ModeSelection => self.on_mode_key(config, key),
            OnboardingStep::WhisperApiKey => self.on_whisper_key_key(key),
            OnboardingStep::ProviderSelection => self.on_provider_key(config, key),
            OnboardingStep::ApiKeyEntry => self.on_api_key_key(config, key),
            OnboardingStep::ApiKeyValidation => self.on_rejected_key(config, key),
            OnboardingStep::SystemCheck => self.on_system_check_key(key),
            OnboardingStep::ModelSetup => self.on_setup_key(config, key, installed),
            OnboardingStep::AskName => self.on_name_key(key),
            OnboardingStep::AskRole => self.on_role_key(key),
            OnboardingStep::Processing => {
                if self.screen.text_complete && !self.user.processing && !self.user.ollama_available && key
                    == Key::Enter {
                    self.go(OnboardingStep::Done, WORLD_READY_TEXT, true);
                }
            },
            OnboardingStep::Confirmation => self.on_confirmation_key(key),
            OnboardingStep::Done => {
                if !self.screen.text_complete {
                    self.reveal_all();
                } else if !self.screen.transitioning && key == Key::Enter {
                    self.screen.transitioning = true;
                    self.screen.transition_frame = 0;
                }
            },
        }
        false
    }
}

} // verus!
