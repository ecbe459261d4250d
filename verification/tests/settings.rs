use scriba::config::{
    CloudProvider, EnrichmentMode, EnvVar, LocalModel, ScribaConfig, TranscriptionMode,
    DEFAULT_OLLAMA_ENDPOINT, DEFAULT_OLLAMA_MODEL,
};
use scriba::keys::Key;
use scriba::providers::{
    assistant_provider, speech_provider, AssistantProvider, SpeechProvider,
};
use scriba::settings::{
    local_picker_items, next_timeout, same_host_key, save_error, settings_rows, setup_badge, type_model_item,
    visible_picker_items, Card, Effect, KeyStatus, ModelListEntry, PickerItem, PickerValue,
    Profile, Row, Settings, SettingsEdit, Surroundings, What,
};
use scriba::settings_text::{compact_reason, fit, key_row, mask_secret, seconds_label, DetailTone};
use scriba::settings_view::LABEL_WIDTH;

fn config_with(transcription: TranscriptionMode, mode: EnrichmentMode) -> ScribaConfig {
    let mut config = ScribaConfig::default();
    config.transcription = transcription;
    config.enrichment.mode = mode;
    config
}

fn nothing() -> Surroundings {
    Surroundings { env: vec![], installed: vec![], curated: vec![] }
}

#[test]
fn rows_follow_the_configuration() {
    let private = config_with(
        TranscriptionMode::Local { model: LocalModel::ParakeetTdt },
        EnrichmentMode::Local {
            ollama_endpoint: DEFAULT_OLLAMA_ENDPOINT.into(),
            ollama_model: DEFAULT_OLLAMA_MODEL.into(),
        },
    );
    let rows = settings_rows(&private);
    assert!(!rows.contains(&Row::SpeechKey), "local speech needs no key");
    assert!(rows.contains(&Row::AssistantServer));
    assert!(!rows.contains(&Row::AssistantKey));
    assert_eq!(setup_badge(&private).1, "Fully private");

    let mixed = config_with(
        TranscriptionMode::Local { model: LocalModel::ParakeetTdt },
        EnrichmentMode::Cloud {
            provider: CloudProvider::Anthropic,
            api_key: String::new(),
            model: None,
            base_url: None,
        },
    );
    let rows = settings_rows(&mixed);
    assert!(rows.contains(&Row::AssistantKey));
    assert!(!rows.contains(&Row::AssistantEndpoint));
    assert_eq!(setup_badge(&mixed).1, "Mixed");

    let custom = config_with(
        TranscriptionMode::Api {
            api_key: String::new(),
            base_url: Some("http://stt:8000/v1".into()),
            model: None,
        },
        EnrichmentMode::Cloud {
            provider: CloudProvider::OpenAICompatible,
            api_key: String::new(),
            model: None,
            base_url: Some("http://llm:8000/v1".into()),
        },
    );
    let rows = settings_rows(&custom);
    assert!(rows.contains(&Row::SpeechEndpoint) && rows.contains(&Row::SpeechKey));
    assert!(rows.contains(&Row::AssistantEndpoint) && rows.contains(&Row::AssistantKey));
    assert_eq!(speech_provider(&custom), SpeechProvider::Custom);
    assert_eq!(assistant_provider(&custom), AssistantProvider::Custom);
    assert_eq!(setup_badge(&custom).1, "Cloud");
    assert_eq!(rows[0], Row::Setup);
    assert_eq!(*rows.last().unwrap(), Row::CheckUpdates);
}

#[test]
fn providers_are_detected_from_endpoints() {
    let groq_stt = config_with(
        TranscriptionMode::Api {
            api_key: "k".into(),
            base_url: Some("https://api.groq.com/openai/v1/".into()),
            model: None,
        },
        EnrichmentMode::Cloud {
            provider: CloudProvider::OpenAICompatible,
            api_key: String::new(),
            model: None,
            base_url: Some("https://openrouter.ai/api/v1".into()),
        },
    );
    assert_eq!(speech_provider(&groq_stt), SpeechProvider::Groq);
    assert_eq!(assistant_provider(&groq_stt), AssistantProvider::OpenRouter);
    let deepinfra_default = config_with(
        TranscriptionMode::api("k"),
        EnrichmentMode::Cloud {
            provider: CloudProvider::OpenAICompatible,
            api_key: String::new(),
            model: None,
            base_url: None,
        },
    );
    assert_eq!(speech_provider(&deepinfra_default), SpeechProvider::OpenAI);
    assert_eq!(assistant_provider(&deepinfra_default), AssistantProvider::DeepInfra);
}

#[test]
fn labels_fit_the_label_column() {
    let all = [
        Row::Setup,
        Row::SpeechProvider,
        Row::SpeechModel,
        Row::SpeechEndpoint,
        Row::SpeechKey,
        Row::AssistantProvider,
        Row::AssistantModel,
        Row::AssistantServer,
        Row::AssistantEndpoint,
        Row::AssistantKey,
        Row::AutoStop,
        Row::Timeout,
        Row::MeetingWatch,
        Row::CheckUpdates,
    ];
    for row in all {
        assert!(row.label().chars().count() < LABEL_WIDTH, "{:?}", row);
    }
}

#[test]
fn text_helpers() {
    assert_eq!(fit("abcdef", 10), "abcdef");
    assert_eq!(fit("abcdefghij", 5), "abcd\u{2026}");
    assert_eq!(fit("abc", 1), "\u{2026}");
    assert_eq!(fit("abc", 0), "");
    assert_eq!(fit("", 0), "");
    assert_eq!(mask_secret(""), "");
    assert_eq!(mask_secret("abc"), "\u{2022}\u{2022}\u{2022}");
    assert_eq!(
        mask_secret("sk-ant-1234567890abcd"),
        "\u{2022}\u{2022}\u{2022}\u{2022}\u{2022}\u{2022}\u{2022}\u{2022}\u{2026}abcd"
    );
}

#[test]
fn picker_filter_keeps_the_type_sentinel() {
    let items = vec![
        PickerItem {
            label: "Qwen/Qwen3.5".into(),
            detail: String::new(),
            value: PickerValue::Model("q".into()),
        },
        PickerItem {
            label: "meta-llama/Llama-3.3".into(),
            detail: "tools".into(),
            value: PickerValue::Model("l".into()),
        },
        type_model_item(),
    ];
    let visible = visible_picker_items(&items, "qwen");
    assert_eq!(visible.len(), 2);
    assert!(matches!(visible[1].1.value, PickerValue::TypeModel));
    assert_eq!(visible_picker_items(&items, "TOOLS").len(), 2);
    assert_eq!(visible_picker_items(&items, "").len(), 3);
    assert_eq!(visible_picker_items(&items, " \t").len(), 3);
}

#[test]
fn key_rows_explain_where_the_key_comes_from() {
    let (value, detail, tone, hint, _) = key_row("", false, "GROQ_API_KEY", &None);
    assert_eq!(value, "not set");
    assert!(detail.is_empty());
    assert!(hint.contains("export"));
    assert_eq!(tone, DetailTone::Neutral);
    let (value, _, _, _, _) = key_row("", true, "GROQ_API_KEY", &None);
    assert!(value.contains("GROQ_API_KEY"));
    let (value, detail, tone, _, _) = key_row(
        "sk-ant-1234567890",
        true,
        "X",
        &Some(KeyStatus::Invalid("HTTP 401\nmore".into())),
    );
    assert!(value.starts_with('\u{2022}'));
    assert_eq!(detail, "\u{2717} rejected \u{00B7} invalid key");
    assert_eq!(compact_reason("Rate limited: slow down"), "rate limited");
    assert_eq!(
        compact_reason("Network error: could not reach host: dns"),
        "host unreachable"
    );
    assert_eq!(
        compact_reason("API error (500): {\"very\": \"long body\"}\nmore"),
        "API error (500): {\"very\": \"long body\"}"
    );
    assert_eq!(tone, DetailTone::Bad);
}

#[test]
fn esc_leaves_the_screen_or_the_editor() {
    let mut s = Settings::new(ScribaConfig::default());
    s.handle_settings_keys(Key::Enter, &nothing());
    assert!(matches!(s.edit, SettingsEdit::Picker { row: Row::Setup, .. }));
    s.handle_settings_keys(Key::Esc, &nothing());
    assert!(matches!(s.edit, SettingsEdit::Idle));
    assert_eq!(s.effects, vec![Effect::StopListing]);
    s.handle_settings_keys(Key::Esc, &nothing());
    assert_eq!(s.effects.last(), Some(&Effect::Leave));
}

#[test]
fn the_cursor_stays_on_the_rows() {
    let mut s = Settings::new(ScribaConfig::default());
    s.handle_settings_keys(Key::Up, &nothing());
    assert_eq!(s.selection, 0);
    for _ in 0..100 {
        s.handle_settings_keys(Key::Down, &nothing());
    }
    assert_eq!(s.selection, settings_rows(&s.config).len() - 1);
}

#[test]
fn a_profile_keeps_its_word() {
    let mut s = Settings::new(config_with(
        TranscriptionMode::api("k"),
        EnrichmentMode::Cloud {
            provider: CloudProvider::OpenAI,
            api_key: "k".into(),
            model: None,
            base_url: None,
        },
    ));
    assert_eq!(setup_badge(&s.config).1, "Cloud");
    s.apply_profile(Profile::FullyPrivate, &nothing());
    assert_eq!(setup_badge(&s.config).1, "Fully private");
}

#[test]
fn changing_the_provider_and_back_keeps_the_key() {
    let mut s = Settings::new(config_with(
        TranscriptionMode::api("secret"),
        EnrichmentMode::Local {
            ollama_endpoint: DEFAULT_OLLAMA_ENDPOINT.into(),
            ollama_model: DEFAULT_OLLAMA_MODEL.into(),
        },
    ));
    let env: Vec<EnvVar> = vec![];
    s.apply_speech_provider(SpeechProvider::Groq, &env);
    assert_eq!(speech_provider(&s.config), SpeechProvider::Groq);
    assert_ne!(s.config.speech_key(), "secret");
    s.apply_speech_provider(SpeechProvider::OpenAI, &env);
    assert_eq!(speech_provider(&s.config), SpeechProvider::OpenAI);
    assert_eq!(s.config.speech_key(), "secret");
}

#[test]
fn a_key_can_come_from_the_other_card() {
    let config = config_with(
        TranscriptionMode::api(""),
        EnrichmentMode::Cloud {
            provider: CloudProvider::OpenAI,
            api_key: "shared".into(),
            model: None,
            base_url: None,
        },
    );
    assert_eq!(same_host_key(&config, Card::Speech), Some("shared".to_string()));
}

#[test]
fn a_model_list_fills_the_waiting_picker() {
    let mut s = Settings::new(config_with(
        TranscriptionMode::Local { model: LocalModel::ParakeetTdt },
        EnrichmentMode::Local {
            ollama_endpoint: DEFAULT_OLLAMA_ENDPOINT.into(),
            ollama_model: "b".into(),
        },
    ));
    s.open_model_picker(Row::AssistantModel, &nothing());
    assert!(matches!(s.edit, SettingsEdit::Picker { loading: true, .. }));
    assert!(s.effects.contains(&Effect::ListOllamaModels));
    s.on_model_list(Ok(vec![
        ModelListEntry { id: "a".into(), supports_tools: None },
        ModelListEntry { id: "b".into(), supports_tools: None },
    ]));
    match &s.edit {
        SettingsEdit::Picker { items, selection, loading, .. } => {
            assert!(!loading);
            assert_eq!(items.len(), 3);
            assert_eq!(*selection, 1);
        }
        _ => panic!("no picker"),
    }
}

#[test]
fn timeouts_cycle_and_have_labels() {
    let mut seen = vec![60];
    let mut t = 60;
    loop {
        t = next_timeout(t);
        if t == 60 {
            break;
        }
        seen.push(t);
        assert!(seen.len() < 20);
    }
    assert!(seen.len() > 2);
    assert_eq!(seconds_label(30), "30s");
    assert_eq!(save_error(What::Model, "disk full"), "Failed to save model: disk full");
}

#[test]
fn the_screen_has_its_rows() {
    let s = Settings::new(ScribaConfig::default());
    let page = s.render_body(80, &nothing());
    let all: Vec<String> = page.lines.iter().map(|l| l.text()).collect();
    for row in settings_rows(&s.config) {
        assert!(all.iter().any(|l| l.contains(row.label())), "{:?}", row);
    }
    assert!(s.render_header(80).text().contains("Settings"));
    assert!(s.render_footer(80, "1.2.3").text().contains("v1.2.3"));
}

#[test]
fn a_chosen_assistant_is_in_use() {
    let mut config = ScribaConfig::default();
    for p in [
        AssistantProvider::DeepInfra,
        AssistantProvider::Ollama,
        AssistantProvider::OpenRouter,
        AssistantProvider::Groq,
        AssistantProvider::Anthropic,
        AssistantProvider::Together,
        AssistantProvider::OpenAI,
        AssistantProvider::Google,
        AssistantProvider::DeepInfra,
    ] {
        config.apply_assistant_provider(p);
        assert_eq!(assistant_provider(&config), p);
    }
}

#[test]
fn every_local_model_can_be_picked() {
    let items = local_picker_items(&vec![LocalModel::SenseVoice]);
    let names: Vec<&str> = items.iter().map(|i| i.label.as_str()).collect();
    assert_eq!(
        names,
        vec![
            "Parakeet TDT",
            "Whisper Turbo",
            "Whisper Large",
            "Whisper Medium",
            "Whisper Small",
            "SenseVoice"
        ]
    );
    assert_eq!(items[4].detail, "466 MB");
    assert_eq!(items[5].detail, " \u{00B7} installed \u{2713}");
}
