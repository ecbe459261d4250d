//! The configuration that the interface reads and edits.
use vstd::prelude::*;

use crate::text::{copy_option, option_text, same};

verus! {

pub const DEFAULT_OLLAMA_ENDPOINT: &'static str = "http://localhost:11434";

pub const DEFAULT_OLLAMA_MODEL: &'static str = "mistral:latest";

/// Speech models that run on this machine.
#[derive(Clone, Copy, Debug, PartialEq, Eq, Structural)]
pub enum LocalModel {
    ParakeetTdt,
    WhisperTurbo,
    WhisperLarge,
    WhisperMedium,
    WhisperSmall,
    SenseVoice,
}

impl LocalModel {
    #[verifier::allow_in_spec]
    pub fn display_name(self) -> &'static str
        returns
            (match self {
                LocalModel::ParakeetTdt => "Parakeet TDT",
                LocalModel::WhisperTurbo => "Whisper Turbo",
                LocalModel::WhisperLarge => "Whisper Large",
                LocalModel::WhisperMedium => "Whisper Medium",
                LocalModel::WhisperSmall => "Whisper Small",
                LocalModel::SenseVoice => "SenseVoice",
            }),
    {
        match self {
            LocalModel::ParakeetTdt => "Parakeet TDT",
            LocalModel::WhisperTurbo => "Whisper Turbo",
            LocalModel::WhisperLarge => "Whisper Large",
            LocalModel::WhisperMedium => "Whisper Medium",
            LocalModel::WhisperSmall => "Whisper Small",
            LocalModel::SenseVoice => "SenseVoice",
        }
    }

    /// The size of the download, empty where it is not listed.
    #[verifier::allow_in_spec]
    pub fn size(self) -> &'static str
        returns
            (match self {
                LocalModel::ParakeetTdt => "",
                LocalModel::WhisperTurbo => "1.4 GB",
                LocalModel::WhisperLarge => "2.9 GB",
                LocalModel::WhisperMedium => "1.5 GB",
                LocalModel::WhisperSmall => "466 MB",
                LocalModel::SenseVoice => "",
            }),
    {
        match self {
            LocalModel::ParakeetTdt => "",
            LocalModel::WhisperTurbo => "1.4 GB",
            LocalModel::WhisperLarge => "2.9 GB",
            LocalModel::WhisperMedium => "1.5 GB",
            LocalModel::WhisperSmall => "466 MB",
            LocalModel::SenseVoice => "",
        }
    }
}

/// Hosts of assistant models.
#[derive(Clone, Copy, Debug, PartialEq, Eq, Structural)]
pub enum CloudProvider {
    Anthropic,
    OpenAI,
    Google,
    OpenAICompatible,
}

impl CloudProvider {
    #[verifier::allow_in_spec]
    pub fn display_name(self) -> &'static str
        returns
            (match self {
                CloudProvider::Anthropic => "Anthropic",
                CloudProvider::OpenAI => "OpenAI",
                CloudProvider::Google => "Google",
                CloudProvider::OpenAICompatible => "OpenAI-compatible",
            }),
    {
        match self {
            CloudProvider::Anthropic => "Anthropic",
            CloudProvider::OpenAI => "OpenAI",
            CloudProvider::Google => "Google",
            CloudProvider::OpenAICompatible => "OpenAI-compatible",
        }
    }

    /// The model that is used until one is chosen.
    #[verifier::allow_in_spec]
    pub fn default_model(self) -> &'static str
        returns
            (match self {
                CloudProvider::Anthropic => "sonnet-latest",
                CloudProvider::OpenAI => "gpt-4o",
                CloudProvider::Google => "gemini-2.5-flash",
                CloudProvider::OpenAICompatible => "Qwen/Qwen3-32B",
            }),
    {
        match self {
            CloudProvider::Anthropic => "sonnet-latest",
            CloudProvider::OpenAI => "gpt-4o",
            CloudProvider::Google => "gemini-2.5-flash",
            CloudProvider::OpenAICompatible => "Qwen/Qwen3-32B",
        }
    }
}

/// A known host.
#[derive(Clone, Copy, Debug)]
pub struct Preset {
    pub name: &'static str,
    pub base_url: &'static str,
    pub model: &'static str,
}

/// How speech becomes text.
#[derive(Debug)]
#[allow(inconsistent_fields)]
pub enum TranscriptionMode {
    Local { model: LocalModel },
    Api { api_key: String, base_url: Option<String>, model: Option<String> },
}

#[allow(inconsistent_fields)]
pub enum TranscriptionView {
    Local { model: LocalModel },
    Api { api_key: Seq<char>, base_url: Option<Seq<char>>, model: Option<Seq<char>> },
}

impl View for TranscriptionMode {
    type V = TranscriptionView;

    open spec fn view(&self) -> TranscriptionView {
        match *self {
            TranscriptionMode::Local { model } => TranscriptionView::Local { model },
            TranscriptionMode::Api { api_key, base_url, model } => TranscriptionView::Api {
                api_key: api_key@,
                base_url: option_text(base_url),
                model: option_text(model),
            },
        }
    }
}

impl TranscriptionMode {
    /// The default host with this key.
    pub fn api(key: &str) -> (r: TranscriptionMode)
        ensures
            r@ == (TranscriptionView::Api { api_key: key@, base_url: None, model: None }),
    {
        TranscriptionMode::Api { api_key: key.to_owned(), base_url: None, model: None }
    }

    /// A copy of the mode.
    pub fn copy(&self) -> (r: TranscriptionMode)
        ensures
            r@ == self@,
    {
        match self {
            TranscriptionMode::Local { model } => TranscriptionMode::Local { model: *model },
            TranscriptionMode::Api { api_key, base_url, model } => TranscriptionMode::Api {
                api_key: api_key.clone(),
                base_url: crate::text::copy_option(base_url),
                model: crate::text::copy_option(model),
            },
        }
    }
}

/// Where the assistant runs.
#[derive(Debug)]
pub enum EnrichmentMode {
    Local { ollama_endpoint: String, ollama_model: String },
    Cloud {
        provider: CloudProvider,
        api_key: String,
        model: Option<String>,
        base_url: Option<String>,
    },
}

pub enum EnrichmentView {
    Local { ollama_endpoint: Seq<char>, ollama_model: Seq<char> },
    Cloud {
        provider: CloudProvider,
        api_key: Seq<char>,
        model: Option<Seq<char>>,
        base_url: Option<Seq<char>>,
    },
}

impl View for EnrichmentMode {
    type V = EnrichmentView;

    open spec fn view(&self) -> EnrichmentView {
        match *self {
            EnrichmentMode::Local { ollama_endpoint, ollama_model } => EnrichmentView::Local {
                ollama_endpoint: ollama_endpoint@,
                ollama_model: ollama_model@,
            },
            EnrichmentMode::Cloud { provider, api_key, model, base_url } => EnrichmentView::Cloud {
                provider,
                api_key: api_key@,
                model: option_text(model),
                base_url: option_text(base_url),
            },
        }
    }
}

/// What is kept for a host while another one is in use.
#[derive(Debug)]
pub struct Slot {
    pub key: Option<String>,
    pub model: Option<String>,
    pub base_url: Option<String>,
}

pub struct SlotView {
    pub key: Option<Seq<char>>,
    pub model: Option<Seq<char>>,
    pub base_url: Option<Seq<char>>,
}

impl View for Slot {
    type V = SlotView;

    open spec fn view(&self) -> SlotView {
        SlotView {
            key: option_text(self.key),
            model: option_text(self.model),
            base_url: option_text(self.base_url),
        }
    }
}

/// Nothing is kept.
pub open spec fn empty_slot() -> SlotView {
    SlotView { key: None, model: None, base_url: None }
}

/// One slot per host, by the host's index.
#[derive(Debug)]
pub struct Slots {
    pub slots: Vec<Slot>,
}

impl View for Slots {
    type V = Seq<SlotView>;

    open spec fn view(&self) -> Seq<SlotView> {
        Seq::new(self.slots@.len(), |i: int| self.slots@[i]@)
    }
}

impl Slots {
    /// `n` empty slots.
    pub fn empty(n: usize) -> (r: Slots)
        ensures
            r@ == Seq::new(n as nat, |i: int| empty_slot()),
    {
        let mut slots: Vec<Slot> = Vec::new();
        let mut i: usize = 0;
        while i < n
            invariant
                i <= n,
                slots@.len() == i,
                forall|k: int| 0 <= k < i ==> (#[trigger] slots@[k])@ == empty_slot(),
            decreases n - i,
        {
            slots.push(Slot { key: None, model: None, base_url: None });
            i += 1;
        }
        let r = Slots { slots };
        assert(r@ =~= Seq::new(n as nat, |i: int| empty_slot()));
        r
    }

    /// Keeps `slot` at `index`.
    pub fn store(&mut self, index: usize, slot: Slot)
        requires
            index < old(self)@.len(),
        ensures
            final(self)@ == old(self)@.update(index as int, slot@),
    {
        self.slots.set(index, slot);
        assert(self@ =~= old(self)@.update(index as int, slot@));
    }

    /// What is kept at `index`.
    pub fn get(&self, index: usize) -> (r: &Slot)
        requires
            index < self@.len(),
        ensures
            r@ == self@[index as int],
    {
        &self.slots[index]
    }
}

/// When a recording stops by itself.
#[derive(Clone, Copy, Debug, PartialEq, Eq, Structural)]
pub struct SilenceAutoStop {
    pub enabled: bool,
    pub timeout_seconds: u64,
}

/// The assistant's part of the configuration.
#[derive(Debug)]
pub struct EnrichmentConfig {
    pub mode: EnrichmentMode,
    pub slots: Slots,
    pub last_ollama_endpoint: Option<String>,
    pub last_ollama_model: Option<String>,
}

/// The user's configuration.
#[derive(Debug)]
pub struct ScribaConfig {
    pub transcription: TranscriptionMode,
    pub stt_slots: Slots,
    pub last_local_model: Option<LocalModel>,
    pub last_api_key: Option<String>,
    pub stt_custom_base_url: Option<String>,
    pub enrichment: EnrichmentConfig,
    pub silence_auto_stop: SilenceAutoStop,
    pub meeting_watch: bool,
    pub check_for_updates: bool,
}

pub struct ConfigView {
    pub transcription: TranscriptionView,
    pub stt_slots: Seq<SlotView>,
    pub last_local_model: Option<LocalModel>,
    pub last_api_key: Option<Seq<char>>,
    pub stt_custom_base_url: Option<Seq<char>>,
    pub mode: EnrichmentView,
    pub slots: Seq<SlotView>,
    pub last_ollama_endpoint: Option<Seq<char>>,
    pub last_ollama_model: Option<Seq<char>>,
    pub silence_auto_stop: SilenceAutoStop,
    pub meeting_watch: bool,
    pub check_for_updates: bool,
}

impl View for ScribaConfig {
    type V = ConfigView;

    open spec fn view(&self) -> ConfigView {
        ConfigView {
            transcription: self.transcription@,
            stt_slots: self.stt_slots@,
            last_local_model: self.last_local_model,
            last_api_key: option_text(self.last_api_key),
            stt_custom_base_url: option_text(self.stt_custom_base_url),
            mode: self.enrichment.mode@,
            slots: self.enrichment.slots@,
            last_ollama_endpoint: option_text(self.enrichment.last_ollama_endpoint),
            last_ollama_model: option_text(self.enrichment.last_ollama_model),
            silence_auto_stop: self.silence_auto_stop,
            meeting_watch: self.meeting_watch,
            check_for_updates: self.check_for_updates,
        }
    }
}

/// The number of speech hosts and of assistant hosts.
pub const SPEECH_HOSTS: usize = 5;

pub const ASSISTANT_HOSTS: usize = 9;

impl ConfigView {
    /// There is a slot for every host.
    pub open spec fn wf(self) -> bool {
        self.stt_slots.len() == SPEECH_HOSTS && self.slots.len() == ASSISTANT_HOSTS
    }
}

impl Default for ScribaConfig {
    fn default() -> (r: ScribaConfig)
        ensures
            r@.wf(),
            r@.transcription == (TranscriptionView::Local { model: LocalModel::ParakeetTdt }),
            r@.stt_slots == Seq::new(SPEECH_HOSTS as nat, |i: int| empty_slot()),
            r@.slots == Seq::new(ASSISTANT_HOSTS as nat, |i: int| empty_slot()),
            r@.mode == (EnrichmentView::Local {
                ollama_endpoint: DEFAULT_OLLAMA_ENDPOINT@,
                ollama_model: DEFAULT_OLLAMA_MODEL@,
            }),
            r@.last_local_model is None,
            r@.last_api_key is None,
            r@.stt_custom_base_url is None,
            r@.last_ollama_endpoint is None,
            r@.last_ollama_model is None,
            r@.silence_auto_stop == (SilenceAutoStop { enabled: false, timeout_seconds: 60 }),
            !r@.meeting_watch,
            r@.check_for_updates,
    {
        ScribaConfig {
            transcription: TranscriptionMode::Local { model: LocalModel::ParakeetTdt },
            stt_slots: Slots::empty(SPEECH_HOSTS),
            last_local_model: None,
            last_api_key: None,
            stt_custom_base_url: None,
            enrichment: EnrichmentConfig {
                mode: EnrichmentMode::Local {
                    ollama_endpoint: DEFAULT_OLLAMA_ENDPOINT.to_owned(),
                    ollama_model: DEFAULT_OLLAMA_MODEL.to_owned(),
                },
                slots: Slots::empty(ASSISTANT_HOSTS),
                last_ollama_endpoint: None,
                last_ollama_model: None,
            },
            silence_auto_stop: SilenceAutoStop { enabled: false, timeout_seconds: 60 },
            meeting_watch: false,
            check_for_updates: true,
        }
    }
}

/// `url` without its trailing slashes.
pub open spec fn unslashed(url: Seq<char>) -> Seq<char>
    decreases url.len(),
{
    if url.len() > 0 && url.last() == '/' {
        unslashed(url.drop_last())
    } else {
        url
    }
}

/// `url` without its trailing slashes.
pub fn trim_slashes<'a>(url: &'a str) -> (r: &'a str)
    ensures
        r@ == unslashed(url@),
{
    let mut n: usize = url.unicode_len();
    proof {
        assert(url@.take(n as int) =~= url@);
    }
    while n > 0 && url.get_char(n - 1) == '/'
        invariant
            n <= url@.len(),
            unslashed(url@) == unslashed(url@.take(n as int)),
        decreases n,
    {
        proof {
            assert(url@.take(n as int).drop_last() =~= url@.take(n - 1));
        }
        n -= 1;
    }
    proof {
        assert(url@.take(n as int) =~= url@.subrange(0, n as int));
    }
    url.substring_char(0, n)
}

/// The variables of the environment that the interface looks at.
#[derive(Debug)]
pub struct EnvVar {
    pub name: String,
    pub value: String,
}

/// The value of the first variable called `name`.
pub open spec fn env_value(vars: Seq<EnvVar>, name: Seq<char>) -> Option<Seq<char>>
    decreases vars.len(),
{
    if vars.len() == 0 {
        None
    } else if vars[0].name@ == name {
        Some(vars[0].value@)
    } else {
        env_value(vars.subrange(1, vars.len() as int), name)
    }
}

/// The value of the first variable called `name`.
pub fn lookup_env(vars: &Vec<EnvVar>, name: &str) -> (r: Option<String>)
    ensures
        option_text(r) == env_value(vars@, name@),
{
    let mut i: usize = 0;
    proof {
        assert(vars@.subrange(0, vars@.len() as int) =~= vars@);
    }
    while i < vars.len()
        invariant
            i <= vars@.len(),
            env_value(vars@, name@) == env_value(
                vars@.subrange(i as int, vars@.len() as int),
                name@,
            ),
        decreases vars.len() - i,
    {
        proof {
            let rest = vars@.subrange(i as int, vars@.len() as int);
            assert(rest.subrange(1, rest.len() as int) =~= vars@.subrange(
                i + 1,
                vars@.len() as int,
            ));
        }
        if same(vars[i].name.as_str(), name) {
            return Some(vars[i].value.clone());
        }
        i += 1;
    }
    None
}

} // verus!
