use scriba::config::ScribaConfig;
use scriba::keys::Key;
use scriba::ollama::{ids_of, merge_models, OllamaListing, OllamaModelOption, RecommendedModel};
use scriba::onboarding::{
    progress_status, DownloadStatus, Errand, Onboarding, OnboardingStep, TickInput, TickResult,
};
use scriba::onboarding_tick::{after_attempt, seed_text, Attempt};
use scriba::onboarding_view::{render_logo, Face, LOGO_ROW_1, LOGO_WIDTH};

fn quiet() -> TickInput {
    TickInput {
        checks: vec![],
        checks_finished: false,
        downloads: vec![],
        downloads_finished: false,
        whisper_verdict: None,
        key_verdict: None,
        processed: None,
    }
}

fn past_the_entrance() -> Onboarding {
    let mut ob = Onboarding::new();
    for _ in 0..500 {
        if ob.screen.step != OnboardingStep::Entrance {
            break;
        }
        ob.tick(true, &quiet());
    }
    assert_eq!(ob.screen.step, OnboardingStep::Intro);
    ob
}

#[test]
fn the_text_is_revealed_line_by_line() {
    let mut ob = past_the_entrance();
    let mut last = ob.visible_text().chars().count();
    let mut frames = 0;
    while !ob.screen.text_complete {
        ob.tick(true, &quiet());
        let now = ob.visible_text().chars().count();
        assert!(now >= last);
        last = now;
        frames += 1;
        assert!(frames < 200);
    }
    assert_eq!(ob.visible_text(), ob.screen.full_text);
}

#[test]
fn the_cloud_asks_for_a_key() {
    let mut config = ScribaConfig::default();
    let mut ob = past_the_entrance();
    assert!(!ob.handle_onboarding_keys(&mut config, Key::Enter, false));
    assert!(ob.screen.text_complete);
    ob.handle_onboarding_keys(&mut config, Key::Enter, false);
    assert_eq!(ob.screen.step, OnboardingStep::ModeSelection);
    ob.handle_onboarding_keys(&mut config, Key::Down, false);
    ob.handle_onboarding_keys(&mut config, Key::Enter, false);
    assert_eq!(ob.screen.step, OnboardingStep::WhisperApiKey);
    for c in "sk-x".chars() {
        ob.handle_onboarding_keys(&mut config, Key::Char(c), false);
    }
    ob.handle_onboarding_keys(&mut config, Key::Enter, false);
    assert_eq!(ob.screen.step, OnboardingStep::WhisperApiKeyValidation);
    assert!(ob.errands.contains(&Errand::ValidateWhisperKey));
    let mut input = quiet();
    input.whisper_verdict = Some(true);
    let r = ob.tick(false, &input);
    assert!(matches!(r, Some(TickResult::SaveWhisperKey(k)) if k == "sk-x"));
    assert!(ob.handle_onboarding_keys(&mut config, Key::Esc, false));
}

#[test]
fn the_local_way_checks_the_machine() {
    let mut config = ScribaConfig::default();
    let mut ob = past_the_entrance();
    ob.handle_onboarding_keys(&mut config, Key::Enter, false);
    ob.handle_onboarding_keys(&mut config, Key::Enter, false);
    ob.handle_onboarding_keys(&mut config, Key::Enter, false);
    assert_eq!(ob.screen.step, OnboardingStep::SystemCheck);
    assert!(ob.errands.contains(&Errand::RunSystemChecks));
    assert!(!ob.is_choosing_ollama_model());
}

fn recommended() -> Vec<RecommendedModel> {
    [("qwen3:8b", "Qwen3 8B", "5 GB"), ("gemma3:4b", "Gemma 3 4B", "3 GB")]
        .iter()
        .map(|(id, label, size)| RecommendedModel {
            id: id.to_string(),
            label: label.to_string(),
            size: size.to_string(),
        })
        .collect()
}

fn offered(v: &[OllamaModelOption]) -> Vec<(&str, &str, &str, bool)> {
    v.iter()
        .map(|o| (o.id.as_str(), o.label.as_str(), o.size.as_str(), o.installed))
        .collect()
}

#[test]
fn recommended_models_come_first() {
    let local = vec!["m1".to_string(), "gemma3:4b".to_string(), "m2".to_string()];
    assert_eq!(
        offered(&merge_models(&recommended(), &local)),
        vec![
            ("qwen3:8b", "Qwen3 8B", "5 GB", false),
            ("gemma3:4b", "Gemma 3 4B", "3 GB", true),
            ("m1", "m1", "", true),
            ("m2", "m2", "", true),
        ]
    );
    assert!(merge_models(&vec![], &vec![]).is_empty());
}

#[test]
fn models_are_offered_whether_or_not_ollama_answers() {
    let mut ob = past_the_entrance();
    ob.models.ollama_model_selection = 3;
    ob.on_ollama_models(&OllamaListing {
        listed: Ok(vec!["m1".to_string(), "qwen3:8b".to_string()]),
        recommended: recommended(),
    });
    assert_eq!(ob.models.ollama_model_selection, 0);
    assert_eq!(ids_of(&ob.models.ollama_available_models), vec!["qwen3:8b", "gemma3:4b", "m1"]);
    assert!(ob.models.ollama_available_models[0].installed);
    ob.on_ollama_models(&OllamaListing { listed: Err("off".into()), recommended: recommended() });
    assert_eq!(
        offered(&ob.models.ollama_available_models),
        vec![
            ("qwen3:8b", "Qwen3 8B", "5 GB", false),
            ("gemma3:4b", "Gemma 3 4B", "3 GB", false),
        ]
    );
}

#[test]
fn the_logo_is_as_wide_as_it_says() {
    assert_eq!(LOGO_ROW_1.chars().count(), LOGO_WIDTH as usize);
    assert_eq!(render_logo(1000).lines.len(), 6);
}

#[test]
fn progress_ends_with_done() {
    assert!(matches!(progress_status(100), DownloadStatus::Done));
    assert!(!matches!(progress_status(99), DownloadStatus::Done));
    assert!(seed_text("Ada", "engineer").contains("Ada"));
}

#[test]
fn building_the_world_is_tried_again() {
    let again = Attempt::Retry { wait_seconds: 2 };
    assert_eq!(after_attempt(0, 3, false), again);
    assert_eq!(after_attempt(1, 3, false), again);
    assert_eq!(after_attempt(2, 3, false), Attempt::GiveUp);
    assert_eq!(after_attempt(0, 1, false), Attempt::GiveUp);
    assert_eq!(after_attempt(0, 0, false), Attempt::GiveUp);
    assert_eq!(after_attempt(u32::MAX, u32::MAX, false), Attempt::GiveUp);
    for n in 0..3 {
        assert_eq!(after_attempt(n, 3, true), Attempt::Done);
    }
}

#[test]
fn the_first_run_has_three_faces() {
    let mut ob = Onboarding::new();
    assert_eq!(ob.face(), Face::Logo);
    ob.screen.transitioning = true;
    assert_eq!(ob.face(), Face::Fade);
    let ob = past_the_entrance();
    assert_eq!(ob.face(), Face::Page);
}

#[test]
fn a_typed_key_stays_hidden() {
    let config = ScribaConfig::default();
    let page_with = |key: &str| {
        let mut ob = past_the_entrance();
        ob.screen.step = OnboardingStep::ApiKeyEntry;
        ob.screen.full_text = "Paste your key into the line below, please.".to_string();
        ob.screen.visible_chars = ob.screen.full_text.chars().count();
        ob.screen.text_complete = true;
        ob.access.api_key_input = key.to_string();
        let page = ob.render_body(&config);
        page.lines.iter().map(|l| l.text()).collect::<Vec<_>>()
    };
    let page = page_with("abcdefgh");
    assert_eq!(page, page_with("abcdXYZW"));
    assert_ne!(page, page_with("abcdefg"));
    assert!(page.last().unwrap().contains("abcd****_"));
}
