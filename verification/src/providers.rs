//! The hosts of the two provider cards, as the settings screen names them.
use vstd::prelude::*;

use crate::config::{
    lookup_env, trim_slashes, CloudProvider, ConfigView, EnrichmentMode, EnrichmentView, EnvVar,
    LocalModel, Preset, ScribaConfig, Slot, SlotView, TranscriptionMode, TranscriptionView,
    DEFAULT_OLLAMA_ENDPOINT, DEFAULT_OLLAMA_MODEL,
};
use crate::text::{copy_option, nonempty, option_text, same};

verus! {

#[derive(Clone, Copy, Debug, PartialEq, Eq, Structural)]
pub enum SpeechProvider {
    Local,
    OpenAI,
    Groq,
    DeepInfra,
    Custom,
}

impl SpeechProvider {
    #[verifier::allow_in_spec]
    pub fn label(self) -> &'static str
        returns
            (match self {
                SpeechProvider::Local => "Local (on this Mac)",
                SpeechProvider::OpenAI => "OpenAI",
                SpeechProvider::Groq => "Groq",
                SpeechProvider::DeepInfra => "DeepInfra",
                SpeechProvider::Custom => "Custom endpoint",
            }),
    {
        match self {
            SpeechProvider::Local => "Local (on this Mac)",
            SpeechProvider::OpenAI => "OpenAI",
            SpeechProvider::Groq => "Groq",
            SpeechProvider::DeepInfra => "DeepInfra",
            SpeechProvider::Custom => "Custom endpoint",
        }
    }

    #[verifier::allow_in_spec]
    pub fn detail(self) -> &'static str
        returns
            (match self {
                SpeechProvider::Local => "nothing leaves your computer",
                SpeechProvider::OpenAI => "whisper-1, gpt-4o-transcribe",
                SpeechProvider::Groq => "fast hosted Whisper",
                SpeechProvider::DeepInfra => "hosted Whisper, low cost",
                SpeechProvider::Custom => "any OpenAI-compatible speech API",
            }),
    {
        match self {
            SpeechProvider::Local => "nothing leaves your computer",
            SpeechProvider::OpenAI => "whisper-1, gpt-4o-transcribe",
            SpeechProvider::Groq => "fast hosted Whisper",
            SpeechProvider::DeepInfra => "hosted Whisper, low cost",
            SpeechProvider::Custom => "any OpenAI-compatible speech API",
        }
    }

    /// The name under which a host's key is kept.
    #[verifier::allow_in_spec]
    pub fn slot(self) -> &'static str
        returns
            (match self {
                SpeechProvider::Local => "local",
                SpeechProvider::OpenAI => "openai",
                SpeechProvider::Groq => "groq",
                SpeechProvider::DeepInfra => "deepinfra",
                SpeechProvider::Custom => "custom",
            }),
    {
        match self {
            SpeechProvider::Local => "local",
            SpeechProvider::OpenAI => "openai",
            SpeechProvider::Groq => "groq",
            SpeechProvider::DeepInfra => "deepinfra",
            SpeechProvider::Custom => "custom",
        }
    }

    /// The position in `ALL`.
    #[verifier::allow_in_spec]
    pub fn index(self) -> usize
        returns
            (match self {
                SpeechProvider::Local => 0usize,
                SpeechProvider::OpenAI => 1usize,
                SpeechProvider::Groq => 2usize,
                SpeechProvider::DeepInfra => 3usize,
                SpeechProvider::Custom => 4usize,
            }),
    {
        match self {
            SpeechProvider::Local => 0usize,
            SpeechProvider::OpenAI => 1usize,
            SpeechProvider::Groq => 2usize,
            SpeechProvider::DeepInfra => 3usize,
            SpeechProvider::Custom => 4usize,
        }
    }

    /// The known host behind this provider.
    #[verifier::allow_in_spec]
    pub fn preset(self) -> Option<Preset>
        returns
            (match self {
                SpeechProvider::Local => None,
                SpeechProvider::OpenAI => Some(Preset { name: "openai", base_url: "https://api.openai.com/v1", model: "whisper-1" }),
                SpeechProvider::Groq => Some(Preset { name: "groq", base_url: "https://api.groq.com/openai/v1", model: "whisper-large-v3-turbo" }),
                SpeechProvider::DeepInfra => Some(Preset { name: "deepinfra", base_url: "https://api.deepinfra.com/v1/openai", model: "openai/whisper-large-v3-turbo" }),
                SpeechProvider::Custom => None,
            }),
    {
        match self {
            SpeechProvider::Local => None,
            SpeechProvider::OpenAI => Some(Preset { name: "openai", base_url: "https://api.openai.com/v1", model: "whisper-1" }),
            SpeechProvider::Groq => Some(Preset { name: "groq", base_url: "https://api.groq.com/openai/v1", model: "whisper-large-v3-turbo" }),
            SpeechProvider::DeepInfra => Some(Preset { name: "deepinfra", base_url: "https://api.deepinfra.com/v1/openai", model: "openai/whisper-large-v3-turbo" }),
            SpeechProvider::Custom => None,
        }
    }

    /// The environment variable that may hold the key.
    #[verifier::allow_in_spec]
    pub fn key_env(self) -> &'static str
        returns
            (match self {
                SpeechProvider::Local => "OPENAI_API_KEY",
                SpeechProvider::OpenAI => "OPENAI_API_KEY",
                SpeechProvider::Groq => "GROQ_API_KEY",
                SpeechProvider::DeepInfra => "DEEPINFRA_API_KEY",
                SpeechProvider::Custom => "SCRIBA_STT_API_KEY",
            }),
    {
        match self {
            SpeechProvider::Local => "OPENAI_API_KEY",
            SpeechProvider::OpenAI => "OPENAI_API_KEY",
            SpeechProvider::Groq => "GROQ_API_KEY",
            SpeechProvider::DeepInfra => "DEEPINFRA_API_KEY",
            SpeechProvider::Custom => "SCRIBA_STT_API_KEY",
        }
    }
}

#[derive(Clone, Copy, Debug, PartialEq, Eq, Structural)]
pub enum AssistantProvider {
    Ollama,
    Anthropic,
    OpenAI,
    Google,
    DeepInfra,
    OpenRouter,
    Groq,
    Together,
    Custom,
}

impl AssistantProvider {
    #[verifier::allow_in_spec]
    pub fn label(self) -> &'static str
        returns
            (match self {
                AssistantProvider::Ollama => "Ollama (local)",
                AssistantProvider::Anthropic => "Anthropic",
                AssistantProvider::OpenAI => "OpenAI",
                AssistantProvider::Google => "Google",
                AssistantProvider::DeepInfra => "DeepInfra",
                AssistantProvider::OpenRouter => "OpenRouter",
                AssistantProvider::Groq => "Groq",
                AssistantProvider::Together => "Together",
                AssistantProvider::Custom => "Custom endpoint",
            }),
    {
        match self {
            AssistantProvider::Ollama => "Ollama (local)",
            AssistantProvider::Anthropic => "Anthropic",
            AssistantProvider::OpenAI => "OpenAI",
            AssistantProvider::Google => "Google",
            AssistantProvider::DeepInfra => "DeepInfra",
            AssistantProvider::OpenRouter => "OpenRouter",
            AssistantProvider::Groq => "Groq",
            AssistantProvider::Together => "Together",
            AssistantProvider::Custom => "Custom endpoint",
        }
    }

    #[verifier::allow_in_spec]
    pub fn detail(self) -> &'static str
        returns
            (match self {
                AssistantProvider::Ollama => "runs on this Mac",
                AssistantProvider::Anthropic => "Sonnet, Opus, Haiku",
                AssistantProvider::OpenAI => "GPT",
                AssistantProvider::Google => "Gemini",
                AssistantProvider::DeepInfra => "open-weight models",
                AssistantProvider::OpenRouter => "one key, many models",
                AssistantProvider::Groq => "fast open-weight models",
                AssistantProvider::Together => "open-weight models",
                AssistantProvider::Custom => "vLLM, LM Studio, any OpenAI-compatible server",
            }),
    {
        match self {
            AssistantProvider::Ollama => "runs on this Mac",
            AssistantProvider::Anthropic => "Sonnet, Opus, Haiku",
            AssistantProvider::OpenAI => "GPT",
            AssistantProvider::Google => "Gemini",
            AssistantProvider::DeepInfra => "open-weight models",
            AssistantProvider::OpenRouter => "one key, many models",
            AssistantProvider::Groq => "fast open-weight models",
            AssistantProvider::Together => "open-weight models",
            AssistantProvider::Custom => "vLLM, LM Studio, any OpenAI-compatible server",
        }
    }

    #[verifier::allow_in_spec]
    pub fn cloud_provider(self) -> Option<CloudProvider>
        returns
            (match self {
                AssistantProvider::Ollama => None,
                AssistantProvider::Anthropic => Some(CloudProvider::Anthropic),
                AssistantProvider::OpenAI => Some(CloudProvider::OpenAI),
                AssistantProvider::Google => Some(CloudProvider::Google),
                _ => Some(CloudProvider::OpenAICompatible),
            }),
    {
        match self {
            AssistantProvider::Ollama => None,
            AssistantProvider::Anthropic => Some(CloudProvider::Anthropic),
            AssistantProvider::OpenAI => Some(CloudProvider::OpenAI),
            AssistantProvider::Google => Some(CloudProvider::Google),
            _ => Some(CloudProvider::OpenAICompatible),
        }
    }

    /// The known host behind this provider.
    #[verifier::allow_in_spec]
    pub fn endpoint_preset(self) -> Option<Preset>
        returns
            (match self {
                AssistantProvider::DeepInfra => Some(Preset { name: "deepinfra", base_url: "https://api.deepinfra.com/v1/openai", model: "" }),
                AssistantProvider::OpenRouter => Some(Preset { name: "openrouter", base_url: "https://openrouter.ai/api/v1", model: "" }),
                AssistantProvider::Groq => Some(Preset { name: "groq", base_url: "https://api.groq.com/openai/v1", model: "" }),
                AssistantProvider::Together => Some(Preset { name: "together", base_url: "https://api.together.xyz/v1", model: "" }),
                _ => None,
            }),
    {
        match self {
            AssistantProvider::DeepInfra => Some(Preset { name: "deepinfra", base_url: "https://api.deepinfra.com/v1/openai", model: "" }),
            AssistantProvider::OpenRouter => Some(Preset { name: "openrouter", base_url: "https://openrouter.ai/api/v1", model: "" }),
            AssistantProvider::Groq => Some(Preset { name: "groq", base_url: "https://api.groq.com/openai/v1", model: "" }),
            AssistantProvider::Together => Some(Preset { name: "together", base_url: "https://api.together.xyz/v1", model: "" }),
            _ => None,
        }
    }

    /// The name under which a host's key is kept.
    #[verifier::allow_in_spec]
    pub fn slot(self) -> &'static str
        returns
            (match self {
                AssistantProvider::Ollama => "ollama",
                AssistantProvider::Anthropic => "anthropic",
                AssistantProvider::OpenAI => "openai",
                AssistantProvider::Google => "google",
                AssistantProvider::DeepInfra => "deepinfra",
                AssistantProvider::OpenRouter => "openrouter",
                AssistantProvider::Groq => "groq",
                AssistantProvider::Together => "together",
                AssistantProvider::Custom => "custom",
            }),
    {
        match self {
            AssistantProvider::Ollama => "ollama",
            AssistantProvider::Anthropic => "anthropic",
            AssistantProvider::OpenAI => "openai",
            AssistantProvider::Google => "google",
            AssistantProvider::DeepInfra => "deepinfra",
            AssistantProvider::OpenRouter => "openrouter",
            AssistantProvider::Groq => "groq",
            AssistantProvider::Together => "together",
            AssistantProvider::Custom => "custom",
        }
    }

    /// The position in `ALL`.
    #[verifier::allow_in_spec]
    pub fn index(self) -> usize
        returns
            (match self {
                AssistantProvider::Ollama => 0usize,
                AssistantProvider::Anthropic => 1usize,
                AssistantProvider::OpenAI => 2usize,
                AssistantProvider::Google => 3usize,
                AssistantProvider::DeepInfra => 4usize,
                AssistantProvider::OpenRouter => 5usize,
                AssistantProvider::Groq => 6usize,
                AssistantProvider::Together => 7usize,
                AssistantProvider::Custom => 8usize,
            }),
    {
        match self {
            AssistantProvider::Ollama => 0usize,
            AssistantProvider::Anthropic => 1usize,
            AssistantProvider::OpenAI => 2usize,
            AssistantProvider::Google => 3usize,
            AssistantProvider::DeepInfra => 4usize,
            AssistantProvider::OpenRouter => 5usize,
            AssistantProvider::Groq => 6usize,
            AssistantProvider::Together => 7usize,
            AssistantProvider::Custom => 8usize,
        }
    }

    /// Whether models are listed live by the host (vs. a curated list).
    #[verifier::allow_in_spec]
    pub fn lists_models_live(self) -> bool
        returns
            (match self {
                AssistantProvider::Anthropic => false,
                AssistantProvider::OpenAI => false,
                AssistantProvider::Google => false,
                _ => true,
            }),
    {
        match self {
            AssistantProvider::Anthropic => false,
            AssistantProvider::OpenAI => false,
            AssistantProvider::Google => false,
            _ => true,
        }
    }

    /// Hosts without a sensible default model.
    #[verifier::allow_in_spec]
    pub fn asks_for_a_model(self) -> bool
        returns
            (match self {
                AssistantProvider::OpenRouter => true,
                AssistantProvider::Groq => true,
                AssistantProvider::Together => true,
                AssistantProvider::Custom => true,
                _ => false,
            }),
    {
        match self {
            AssistantProvider::OpenRouter => true,
            AssistantProvider::Groq => true,
            AssistantProvider::Together => true,
            AssistantProvider::Custom => true,
            _ => false,
        }
    }

    /// The environment variable that may hold the key.
    #[verifier::allow_in_spec]
    pub fn key_env(self) -> &'static str
        returns
            (match self {
                AssistantProvider::Ollama => "",
                AssistantProvider::Anthropic => "ANTHROPIC_API_KEY",
                AssistantProvider::OpenAI => "OPENAI_API_KEY",
                AssistantProvider::Google => "GOOGLE_API_KEY",
                AssistantProvider::DeepInfra => "DEEPINFRA_API_KEY",
                AssistantProvider::OpenRouter => "OPENROUTER_API_KEY",
                AssistantProvider::Groq => "GROQ_API_KEY",
                AssistantProvider::Together => "TOGETHER_API_KEY",
                AssistantProvider::Custom => "SCRIBA_LLM_API_KEY",
            }),
    {
        match self {
            AssistantProvider::Ollama => "",
            AssistantProvider::Anthropic => "ANTHROPIC_API_KEY",
            AssistantProvider::OpenAI => "OPENAI_API_KEY",
            AssistantProvider::Google => "GOOGLE_API_KEY",
            AssistantProvider::DeepInfra => "DEEPINFRA_API_KEY",
            AssistantProvider::OpenRouter => "OPENROUTER_API_KEY",
            AssistantProvider::Groq => "GROQ_API_KEY",
            AssistantProvider::Together => "TOGETHER_API_KEY",
            AssistantProvider::Custom => "SCRIBA_LLM_API_KEY",
        }
    }
}

/// Every speech provider, in the order of the picker.
pub fn all_speech_providers() -> (r: Vec<SpeechProvider>)
    ensures
        r@ == speech_providers(),
{
    let r = vec![
        SpeechProvider::Local,
        SpeechProvider::OpenAI,
        SpeechProvider::Groq,
        SpeechProvider::DeepInfra,
        SpeechProvider::Custom,
    ];
    assert(r@ =~= speech_providers());
    r
}

pub open spec fn speech_providers() -> Seq<SpeechProvider> {
    seq![
        SpeechProvider::Local,
        SpeechProvider::OpenAI,
        SpeechProvider::Groq,
        SpeechProvider::DeepInfra,
        SpeechProvider::Custom,
    ]
}

/// Every assistant provider, in the order of the picker.
pub fn all_assistant_providers() -> (r: Vec<AssistantProvider>)
    ensures
        r@ == assistant_providers(),
{
    let r = vec![
        AssistantProvider::Ollama,
        AssistantProvider::Anthropic,
        AssistantProvider::OpenAI,
        AssistantProvider::Google,
        AssistantProvider::DeepInfra,
        AssistantProvider::OpenRouter,
        AssistantProvider::Groq,
        AssistantProvider::Together,
        AssistantProvider::Custom,
    ];
    assert(r@ =~= assistant_providers());
    r
}

pub open spec fn assistant_providers() -> Seq<AssistantProvider> {
    seq![
        AssistantProvider::Ollama,
        AssistantProvider::Anthropic,
        AssistantProvider::OpenAI,
        AssistantProvider::Google,
        AssistantProvider::DeepInfra,
        AssistantProvider::OpenRouter,
        AssistantProvider::Groq,
        AssistantProvider::Together,
        AssistantProvider::Custom,
    ]
}

/// Two addresses name the same host: they agree up to trailing slashes.
pub open spec fn same_host(a: Seq<char>, b: Seq<char>) -> bool {
    crate::config::unslashed(a) == crate::config::unslashed(b)
}

fn is_same_host(a: &str, b: &str) -> (r: bool)
    ensures
        r == same_host(a@, b@),
{
    same(trim_slashes(a), trim_slashes(b))
}

/// The speech host that an address belongs to.
pub open spec fn speech_by_url(url: Seq<char>) -> SpeechProvider {
    if same_host(url, SpeechProvider::OpenAI.preset()->0.base_url@) {
        SpeechProvider::OpenAI
    } else if same_host(url, SpeechProvider::Groq.preset()->0.base_url@) {
        SpeechProvider::Groq
    } else if same_host(url, SpeechProvider::DeepInfra.preset()->0.base_url@) {
        SpeechProvider::DeepInfra
    } else {
        SpeechProvider::Custom
    }
}

/// The assistant host that an address belongs to.
pub open spec fn assistant_by_url(url: Seq<char>) -> AssistantProvider {
    if same_host(url, AssistantProvider::DeepInfra.endpoint_preset()->0.base_url@) {
        AssistantProvider::DeepInfra
    } else if same_host(url, AssistantProvider::OpenRouter.endpoint_preset()->0.base_url@) {
        AssistantProvider::OpenRouter
    } else if same_host(url, AssistantProvider::Groq.endpoint_preset()->0.base_url@) {
        AssistantProvider::Groq
    } else if same_host(url, AssistantProvider::Together.endpoint_preset()->0.base_url@) {
        AssistantProvider::Together
    } else {
        AssistantProvider::Custom
    }
}

impl ConfigView {
    /// The root of the speech API. OpenAI is the default.
    pub open spec fn speech_url(self) -> Seq<char> {
        match self.transcription {
            TranscriptionView::Api { base_url: Some(url), .. } => url,
            _ => SpeechProvider::OpenAI.preset()->0.base_url@,
        }
    }

    pub open spec fn speech(self) -> SpeechProvider {
        match self.transcription {
            TranscriptionView::Local { .. } => SpeechProvider::Local,
            TranscriptionView::Api { .. } => speech_by_url(self.speech_url()),
        }
    }

    /// The stored speech key, empty if there is none.
    pub open spec fn speech_key(self) -> Seq<char> {
        match self.transcription {
            TranscriptionView::Local { .. } => Seq::empty(),
            TranscriptionView::Api { api_key, .. } => api_key,
        }
    }

    /// The stored key, or else the one in the environment.
    pub open spec fn resolved_speech_key(self, env: Seq<EnvVar>) -> Option<Seq<char>> {
        if self.speech_key().len() > 0 {
            Some(self.speech_key())
        } else {
            crate::config::env_value(env, self.speech().key_env()@)
        }
    }

    /// The speech model in use: the chosen one, or the host's default.
    pub open spec fn speech_model(self) -> Seq<char> {
        match self.transcription {
            TranscriptionView::Api { model: Some(m), .. } => m,
            _ => match self.speech().preset() {
                Some(p) => p.model@,
                None => SpeechProvider::OpenAI.preset()->0.model@,
            },
        }
    }

    /// The root of the assistant API where one is set. The default of an
    /// OpenAI-compatible endpoint is DeepInfra.
    pub open spec fn assistant_url(self) -> Seq<char> {
        match self.mode {
            EnrichmentView::Cloud { base_url: Some(url), .. } => url,
            EnrichmentView::Cloud { provider: CloudProvider::OpenAICompatible, .. } => {
                AssistantProvider::DeepInfra.endpoint_preset()->0.base_url@
            },
            _ => Seq::empty(),
        }
    }

    pub open spec fn assistant(self) -> AssistantProvider {
        match self.mode {
            EnrichmentView::Local { .. } => AssistantProvider::Ollama,
            EnrichmentView::Cloud { provider, .. } => match provider {
                CloudProvider::Anthropic => AssistantProvider::Anthropic,
                CloudProvider::OpenAI => AssistantProvider::OpenAI,
                CloudProvider::Google => AssistantProvider::Google,
                CloudProvider::OpenAICompatible => assistant_by_url(self.assistant_url()),
            },
        }
    }

    /// The stored assistant key, empty if there is none.
    pub open spec fn assistant_key(self) -> Seq<char> {
        match self.mode {
            EnrichmentView::Local { .. } => Seq::empty(),
            EnrichmentView::Cloud { api_key, .. } => api_key,
        }
    }

    /// The stored key, or else the one in the environment.
    pub open spec fn resolved_assistant_key(self, env: Seq<EnvVar>) -> Option<Seq<char>> {
        if self.assistant_key().len() > 0 {
            Some(self.assistant_key())
        } else {
            crate::config::env_value(env, self.assistant().key_env()@)
        }
    }

    /// The assistant model in use.
    pub open spec fn assistant_model(self) -> Seq<char> {
        match self.mode {
            EnrichmentView::Local { ollama_model, .. } => ollama_model,
            EnrichmentView::Cloud { model: Some(m), .. } => m,
            EnrichmentView::Cloud { provider, .. } => provider.default_model()@,
        }
    }

    /// The address of the Ollama server.
    pub open spec fn ollama_endpoint(self) -> Seq<char> {
        match self.mode {
            EnrichmentView::Local { ollama_endpoint, .. } => ollama_endpoint,
            _ => match self.last_ollama_endpoint {
                Some(e) => e,
                None => DEFAULT_OLLAMA_ENDPOINT@,
            },
        }
    }

    /// The speech settings in use are kept in their host's slot.
    pub open spec fn remembering_speech(self) -> ConfigView {
        match self.transcription {
            TranscriptionView::Local { model } => ConfigView {
                last_local_model: Some(model),
                ..self
            },
            TranscriptionView::Api { api_key, base_url, model } => {
                let p = self.speech();
                ConfigView {
                    stt_slots: self.stt_slots.update(
                        p.index() as int,
                        SlotView { key: nonempty(api_key), model, base_url },
                    ),
                    stt_custom_base_url: if p == SpeechProvider::Custom {
                        base_url
                    } else {
                        self.stt_custom_base_url
                    },
                    ..self
                }
            },
        }
    }

    /// The assistant settings in use are kept in their host's slot.
    pub open spec fn remembering_assistant(self) -> ConfigView {
        match self.mode {
            EnrichmentView::Local { .. } => self,
            EnrichmentView::Cloud { api_key, model, base_url, .. } => ConfigView {
                slots: self.slots.update(
                    self.assistant().index() as int,
                    SlotView { key: nonempty(api_key), model, base_url },
                ),
                ..self
            },
        }
    }

    /// The mode that choosing speech provider `p` switches to.
    pub open spec fn speech_mode_for(self, p: SpeechProvider) -> TranscriptionView {
        if p == SpeechProvider::Local {
            TranscriptionView::Local {
                model: match self.last_local_model {
                    Some(m) => m,
                    None => LocalModel::ParakeetTdt,
                },
            }
        } else {
            let slot = self.stt_slots[p.index() as int];
            TranscriptionView::Api {
                api_key: match slot.key {
                    Some(k) => k,
                    None => if p == SpeechProvider::OpenAI && self.last_api_key is Some {
                        self.last_api_key->0
                    } else {
                        Seq::empty()
                    },
                },
                base_url: match p {
                    SpeechProvider::Custom => self.stt_custom_base_url,
                    SpeechProvider::OpenAI => None,
                    _ => Some(p.preset()->0.base_url@),
                },
                model: match slot.model {
                    Some(m) => Some(m),
                    None => match p.preset() {
                        Some(pr) => Some(pr.model@),
                        None => None,
                    },
                },
            }
        }
    }

    /// The configuration after choosing speech provider `p`.
    pub open spec fn with_speech(self, p: SpeechProvider) -> ConfigView {
        if self.speech() == p {
            self
        } else {
            let kept = self.remembering_speech();
            ConfigView { transcription: kept.speech_mode_for(p), ..kept }
        }
    }

    /// The mode that choosing assistant provider `p` switches to.
    pub open spec fn assistant_mode_for(self, p: AssistantProvider) -> EnrichmentView {
        match p.cloud_provider() {
            None => EnrichmentView::Local {
                ollama_endpoint: match self.last_ollama_endpoint {
                    Some(e) => e,
                    None => DEFAULT_OLLAMA_ENDPOINT@,
                },
                ollama_model: match self.last_ollama_model {
                    Some(m) => m,
                    None => DEFAULT_OLLAMA_MODEL@,
                },
            },
            Some(provider) => {
                let slot = self.slots[p.index() as int];
                EnrichmentView::Cloud {
                    provider,
                    api_key: match slot.key {
                        Some(k) => k,
                        None => Seq::empty(),
                    },
                    model: slot.model,
                    base_url: if p == AssistantProvider::Custom {
                        slot.base_url
                    } else {
                        match p.endpoint_preset() {
                            Some(pr) => Some(pr.base_url@),
                            None => None,
                        }
                    },
                }
            },
        }
    }

    /// What is kept before the assistant provider changes.
    pub open spec fn leaving_assistant(self) -> ConfigView {
        match self.mode {
            EnrichmentView::Local { ollama_endpoint, ollama_model } => ConfigView {
                last_ollama_endpoint: Some(ollama_endpoint),
                last_ollama_model: Some(ollama_model),
                ..self
            },
            _ => self.remembering_assistant(),
        }
    }

    /// The configuration after choosing assistant provider `p`.
    pub open spec fn with_assistant(self, p: AssistantProvider) -> ConfigView {
        if self.assistant() == p {
            self
        } else {
            let kept = self.leaving_assistant();
            ConfigView { mode: kept.assistant_mode_for(p), ..kept }
        }
    }
}

/// The speech provider that the configuration amounts to.
pub fn speech_provider(config: &ScribaConfig) -> (r: SpeechProvider)
    ensures
        r == config@.speech(),
{
    match &config.transcription {
        TranscriptionMode::Local { .. } => SpeechProvider::Local,
        TranscriptionMode::Api { .. } => {
            let url = config.transcription_base_url();
            if is_same_host(url.as_str(), "https://api.openai.com/v1") {
                SpeechProvider::OpenAI
            } else if is_same_host(url.as_str(), "https://api.groq.com/openai/v1") {
                SpeechProvider::Groq
            } else if is_same_host(url.as_str(), "https://api.deepinfra.com/v1/openai") {
                SpeechProvider::DeepInfra
            } else {
                SpeechProvider::Custom
            }
        },
    }
}

/// The assistant provider that the configuration amounts to.
pub fn assistant_provider(config: &ScribaConfig) -> (r: AssistantProvider)
    ensures
        r == config@.assistant(),
{
    match &config.enrichment.mode {
        EnrichmentMode::Local { .. } => AssistantProvider::Ollama,
        EnrichmentMode::Cloud { provider, .. } => match *provider {
            CloudProvider::Anthropic => AssistantProvider::Anthropic,
            CloudProvider::OpenAI => AssistantProvider::OpenAI,
            CloudProvider::Google => AssistantProvider::Google,
            CloudProvider::OpenAICompatible => {
                let url = config.effective_base_url();
                if is_same_host(url.as_str(), "https://api.deepinfra.com/v1/openai") {
                    AssistantProvider::DeepInfra
                } else if is_same_host(url.as_str(), "https://openrouter.ai/api/v1") {
                    AssistantProvider::OpenRouter
                } else if is_same_host(url.as_str(), "https://api.groq.com/openai/v1") {
                    AssistantProvider::Groq
                } else if is_same_host(url.as_str(), "https://api.together.xyz/v1") {
                    AssistantProvider::Together
                } else {
                    AssistantProvider::Custom
                }
            },
        },
    }
}

impl ScribaConfig {
    pub fn transcription_base_url(&self) -> (r: String)
        ensures
            r@ == self@.speech_url(),
    {
        match &self.transcription {
            TranscriptionMode::Api { base_url: Some(url), .. } => url.clone(),
            _ => "https://api.openai.com/v1".to_owned(),
        }
    }

    pub fn speech_key(&self) -> (r: String)
        ensures
            r@ == self@.speech_key(),
    {
        match &self.transcription {
            TranscriptionMode::Api { api_key, .. } => api_key.clone(),
            _ => String::new(),
        }
    }

    pub fn resolve_transcription_api_key(&self, env: &Vec<EnvVar>) -> (r: Option<String>)
        ensures
            option_text(r) == self@.resolved_speech_key(env@),
    {
        let key = self.speech_key();
        if key.as_str().unicode_len() > 0 {
            Some(key)
        } else {
            lookup_env(env, speech_provider(self).key_env())
        }
    }

    pub fn transcription_model(&self) -> (r: String)
        ensures
            r@ == self@.speech_model(),
    {
        match &self.transcription {
            TranscriptionMode::Api { model: Some(m), .. } => m.clone(),
            _ => match speech_provider(self).preset() {
                Some(p) => p.model.to_owned(),
                None => "whisper-1".to_owned(),
            },
        }
    }

    pub fn effective_base_url(&self) -> (r: String)
        ensures
            r@ == self@.assistant_url(),
    {
        match &self.enrichment.mode {
            EnrichmentMode::Cloud { base_url: Some(url), .. } => url.clone(),
            EnrichmentMode::Cloud { provider, .. } => match *provider {
                CloudProvider::OpenAICompatible => "https://api.deepinfra.com/v1/openai".to_owned(),
                _ => String::new(),
            },
            _ => String::new(),
        }
    }

    pub fn assistant_key(&self) -> (r: String)
        ensures
            r@ == self@.assistant_key(),
    {
        match &self.enrichment.mode {
            EnrichmentMode::Cloud { api_key, .. } => api_key.clone(),
            _ => String::new(),
        }
    }

    pub fn resolve_api_key(&self, env: &Vec<EnvVar>) -> (r: Option<String>)
        ensures
            option_text(r) == self@.resolved_assistant_key(env@),
    {
        let key = self.assistant_key();
        if key.as_str().unicode_len() > 0 {
            Some(key)
        } else {
            lookup_env(env, assistant_provider(self).key_env())
        }
    }

    pub fn model_name(&self) -> (r: String)
        ensures
            r@ == self@.assistant_model(),
    {
        match &self.enrichment.mode {
            EnrichmentMode::Local { ollama_model, .. } => ollama_model.clone(),
            EnrichmentMode::Cloud { model: Some(m), .. } => m.clone(),
            EnrichmentMode::Cloud { provider, .. } => provider.default_model().to_owned(),
        }
    }

    pub fn ollama_endpoint(&self) -> (r: String)
        ensures
            r@ == self@.ollama_endpoint(),
    {
        match &self.enrichment.mode {
            EnrichmentMode::Local { ollama_endpoint, .. } => ollama_endpoint.clone(),
            _ => match &self.enrichment.last_ollama_endpoint {
                Some(e) => e.clone(),
                None => DEFAULT_OLLAMA_ENDPOINT.to_owned(),
            },
        }
    }

    /// Keeps the speech settings in use in their host's slot.
    pub fn remember_stt_settings(&mut self)
        requires
            old(self)@.wf(),
        ensures
            final(self)@ == old(self)@.remembering_speech(),
            final(self)@.wf(),
    {
        let p = speech_provider(self);
        match &self.transcription {
            TranscriptionMode::Local { model } => {
                self.last_local_model = Some(*model);
            },
            TranscriptionMode::Api { api_key, base_url, model } => {
                let slot = Slot {
                    key: some_nonempty(api_key.as_str()),
                    model: copy_option(model),
                    base_url: copy_option(base_url),
                };
                let custom = copy_option(base_url);
                self.stt_slots.store(p.index(), slot);
                if p == SpeechProvider::Custom {
                    self.stt_custom_base_url = custom;
                }
            },
        }
    }

    /// Keeps the assistant settings in use in their host's slot.
    pub fn remember_cloud_settings(&mut self)
        requires
            old(self)@.wf(),
        ensures
            final(self)@ == old(self)@.remembering_assistant(),
            final(self)@.wf(),
    {
        let p = assistant_provider(self);
        match &self.enrichment.mode {
            EnrichmentMode::Local { .. } => {},
            EnrichmentMode::Cloud { api_key, base_url, model, .. } => {
                let slot = Slot {
                    key: some_nonempty(api_key.as_str()),
                    model: copy_option(model),
                    base_url: copy_option(base_url),
                };
                self.enrichment.slots.store(p.index(), slot);
            },
        }
    }

    /// Switches to speech provider `p` with what was kept for it.
    pub fn apply_speech_provider(&mut self, p: SpeechProvider)
        requires
            old(self)@.wf(),
        ensures
            final(self)@ == old(self)@.with_speech(p),
            final(self)@.wf(),
    {
        if speech_provider(self) == p {
            return;
        }
        self.remember_stt_settings();
        match p {
            SpeechProvider::Local => {
                let model = match self.last_local_model {
                    Some(m) => m,
                    None => LocalModel::ParakeetTdt,
                };
                self.transcription = TranscriptionMode::Local { model };
            },
            _ => {
                let slot = self.stt_slots.get(p.index());
                let api_key = match &slot.key {
                    Some(k) => k.clone(),
                    None => match (p, &self.last_api_key) {
                        (SpeechProvider::OpenAI, Some(k)) => k.clone(),
                        _ => String::new(),
                    },
                };
                let base_url = match p {
                    SpeechProvider::Custom => copy_option(&self.stt_custom_base_url),
                    SpeechProvider::OpenAI => None,
                    _ => match p.preset() {
                        Some(pr) => Some(pr.base_url.to_owned()),
                        None => None,
                    },
                };
                let model = match &slot.model {
                    Some(m) => Some(m.clone()),
                    None => match p.preset() {
                        Some(pr) => Some(pr.model.to_owned()),
                        None => None,
                    },
                };
                self.transcription = TranscriptionMode::Api { api_key, base_url, model };
            },
        }
    }

    /// Switches to assistant provider `p` with what was kept for it.
    pub fn apply_assistant_provider(&mut self, p: AssistantProvider)
        requires
            old(self)@.wf(),
        ensures
            final(self)@ == old(self)@.with_assistant(p),
            final(self)@.wf(),
    {
        if assistant_provider(self) == p {
            return;
        }
        self.remember_cloud_settings();
        let kept = match &self.enrichment.mode {
            EnrichmentMode::Local { ollama_endpoint, ollama_model } => Some(
                (ollama_endpoint.clone(), ollama_model.clone()),
            ),
            _ => None,
        };
        match kept {
            Some((endpoint, model)) => {
                self.enrichment.last_ollama_endpoint = Some(endpoint);
                self.enrichment.last_ollama_model = Some(model);
            },
            None => {},
        }
        match p.cloud_provider() {
            None => {
                let ollama_endpoint = match &self.enrichment.last_ollama_endpoint {
                    Some(e) => e.clone(),
                    None => DEFAULT_OLLAMA_ENDPOINT.to_owned(),
                };
                let ollama_model = match &self.enrichment.last_ollama_model {
                    Some(m) => m.clone(),
                    None => DEFAULT_OLLAMA_MODEL.to_owned(),
                };
                self.enrichment.mode = EnrichmentMode::Local { ollama_endpoint, ollama_model };
            },
            Some(provider) => {
                let slot = self.enrichment.slots.get(p.index());
                let api_key = match &slot.key {
                    Some(k) => k.clone(),
                    None => String::new(),
                };
                let model = copy_option(&slot.model);
                let base_url = if p == AssistantProvider::Custom {
                    copy_option(&slot.base_url)
                } else {
                    match p.endpoint_preset() {
                        Some(pr) => Some(pr.base_url.to_owned()),
                        None => None,
                    }
                };
                self.enrichment.mode = EnrichmentMode::Cloud { provider, api_key, model, base_url };
            },
        }
    }
}

/// A copy of `s`, or `None` for the empty text.
pub fn some_nonempty(s: &str) -> (r: Option<String>)
    ensures
        option_text(r) == nonempty(s@),
{
    if s.unicode_len() == 0 {
        None
    } else {
        Some(s.to_owned())
    }
}

} // verus!
