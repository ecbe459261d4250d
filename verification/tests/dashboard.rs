use scriba::browse::FileFacts;
use scriba::browse_view::Bar;
use scriba::chat::{ChatFocus, ChatMessage, ChatRole, ChatStreamEvent};
use scriba::chat_keys::MouseKind;
use scriba::config::ScribaConfig;
use scriba::dashboard::{Chore, Dashboard, DashboardAction, DashboardView, Facts};
use scriba::dashboard_tick::{DeletionOutcome, JobOutcome, News, RecordingOutcome};
use scriba::dashboard_view::{owl_row, render_help, render_owls, Surface};
use scriba::geometry::{footer_area, Rect};
use scriba::keys::Key;
use scriba::ollama::OllamaListing;
use scriba::onboarding::{OnboardingStep, TickInput, TickResult};
use scriba::recording::{RecordingInfo, RecordingKind, RecordingPhase};
use scriba::recordings::{Recording, RecordingStats};
use scriba::settings::{Surroundings, What};
use scriba::style::Color;

fn facts() -> Facts {
    Facts {
        surroundings: Surroundings { env: vec![], installed: vec![], curated: vec![] },
        installed: false,
        file: FileFacts { exists: true, stem: Some("talk".into()) },
        today: 0,
    }
}

fn rec(name: &str) -> Recording {
    Recording {
        id: Some(1),
        directory_name: name.to_string(),
        display_name: None,
        duration_seconds: Some(125),
        channels: 2,
        has_transcript: true,
        summary: None,
        key_points: None,
        action_items: None,
        created_utc: 0,
        created_local: 0,
    }
}

fn dashboard() -> Dashboard {
    let mut d = Dashboard::new(ScribaConfig::default(), &None);
    d.begin(true);
    d.chores.clear();
    d.init_global_chat("Ada".into(), "prompt".into(), 0);
    d
}

fn press(d: &mut Dashboard, key: Key) -> DashboardAction {
    d.handle_key_event(key, false, &facts())
}

fn ctrl(d: &mut Dashboard, c: char) -> DashboardAction {
    d.handle_key_event(Key::Char(c), true, &facts())
}

fn no_news() -> News {
    News {
        recording: None,
        transcription: None,
        playback_ended: false,
        ollama_models: None,
        update_check: None,
        update: None,
        anim_tick: false,
        volume: String::new(),
        onboarding: TickInput {
            checks: vec![],
            checks_finished: false,
            downloads: vec![],
            downloads_finished: false,
            whisper_verdict: None,
            key_verdict: None,
            processed: None,
        },
        chat: vec![],
    }
}

#[test]
fn the_first_run_is_the_onboarding() {
    let mut d = Dashboard::new(ScribaConfig::default(), &None);
    d.begin(false);
    assert_eq!(d.shell.current_view, DashboardView::Onboarding);
    assert_eq!(d.onboarding.as_ref().unwrap().screen.step, OnboardingStep::Entrance);
    assert!(matches!(d.chores[2], Chore::CheckForUpdate));
    assert_eq!(press(&mut d, Key::Char('x')), DashboardAction::Continue);
    assert_eq!(press(&mut d, Key::Esc), DashboardAction::Quit);
    d.on_onboarding_result(TickResult::Complete);
    assert_eq!(d.shell.current_view, DashboardView::Main);
    assert!(d.onboarding.is_none());
    assert!(matches!(d.chores.last(), Some(Chore::BeginChat)));
    d.on_onboarding_result(TickResult::SaveWhisperKey("k".into()));
    assert_eq!(d.settings.config.speech_key(), "k");
    d.on_onboarding_result(TickResult::FetchOllamaModels);
    assert!(
        matches!(d.chores.last(), Some(Chore::FetchOllamaModels(e)) if e == "http://localhost:11434")
    );
    let listing = OllamaListing { listed: Ok(vec!["m".into()]), recommended: vec![] };
    assert!(!d.on_ollama_models(&listing));
}

#[test]
fn keys_go_to_the_screens() {
    let mut d = dashboard();
    ctrl(&mut d, 's');
    assert_eq!(d.shell.current_view, DashboardView::Settings);
    press(&mut d, Key::Down);
    assert_eq!(d.settings.selection, 1);
    press(&mut d, Key::Esc);
    assert_eq!(d.shell.current_view, DashboardView::Main);
    ctrl(&mut d, 'z');
    assert_eq!(d.shell.current_view, DashboardView::Entities);
    assert!(matches!(d.chores.last(), Some(Chore::LoadEntities)));
    d.on_entities_loaded(vec![]);
    press(&mut d, Key::Char('q'));
    assert_eq!(d.shell.current_view, DashboardView::Main);
    press(&mut d, Key::Char('?'));
    assert!(d.shell.show_help);
    assert_eq!(d.shell.current_view, DashboardView::Help);
    press(&mut d, Key::Char('x'));
    assert_eq!(d.shell.current_view, DashboardView::Main);
    press(&mut d, Key::Tab);
    assert_eq!(d.shell.current_view, DashboardView::Browse);
    press(&mut d, Key::Tab);
    assert_eq!(d.shell.current_view, DashboardView::Main);
    ctrl(&mut d, 'o');
    assert_eq!(d.shell.owl_frame, Some(0));
    press(&mut d, Key::Char('x'));
    assert_eq!(d.shell.owl_frame, None);
    assert_eq!(d.chat.entry.input_buffer, "");
    assert_eq!(ctrl(&mut d, 'r'), DashboardAction::ToggleRecording);
}

#[test]
fn a_transcript_is_opened_and_closed() {
    let mut d = dashboard();
    d.chat.talk.messages.push(ChatMessage::text(ChatRole::User, "hi".into()));
    d.on_recordings_loaded(vec![rec("a"), rec("b")], 0);
    press(&mut d, Key::Tab);
    press(&mut d, Key::Enter);
    let (recording, reports) = match d.chores.pop() {
        Some(Chore::LoadTranscript { recording, reports_failure }) => (recording, reports_failure),
        _ => panic!("not wanted"),
    };
    assert_eq!(recording.directory_name, "a");
    assert!(reports);
    d.on_transcript_loaded(recording, reports, Ok("text".into()), &None, "p".into());
    assert!(d.transcript.shown);
    assert_eq!(d.surface(), Surface::Transcript);
    assert_eq!(d.aside.len(), 1);
    assert!(d.chat.talk.messages.is_empty());
    ctrl(&mut d, 'y');
    assert!(matches!(d.chores.last(), Some(Chore::CopyTranscript)));
    d.on_transcript_copied(Ok(()));
    assert_eq!(
        d.shell.notification,
        Some(("Transcript copied to clipboard".to_string(), 40))
    );
    // The chat below has the focus; Esc first gives it up.
    press(&mut d, Key::Esc);
    assert!(d.transcript.shown);
    press(&mut d, Key::Esc);
    assert!(!d.transcript.shown);
    assert_eq!(d.chat.talk.messages.len(), 1);
    d.on_transcript_loaded(rec("a"), true, Err("gone".into()), &None, String::new());
    assert_eq!(d.shell.message, "Failed to load transcript: gone");
    press(&mut d, Key::Esc);
    assert!(!d.shell.show_message);
    let mut silent = rec("c");
    silent.has_transcript = false;
    d.on_recordings_loaded(vec![silent], 0);
    press(&mut d, Key::Enter);
    assert_eq!(
        d.shell.message,
        "No transcript available for this recording. Use P to play instead."
    );
}

#[test]
fn overwriting_takes_two_presses() {
    let mut d = dashboard();
    d.on_recordings_loaded(vec![rec("a")], 0);
    d.execute_transcribe_selected(true);
    assert_eq!(
        d.shell.message,
        "Recording already has transcript. Press T again to overwrite."
    );
    assert!(d.jobs.active.is_none());
    d.shell.current_view = DashboardView::Browse;
    assert_eq!(press(&mut d, Key::Char('T')), DashboardAction::TranscribeSelected);
    d.execute_transcribe_selected(true);
    assert_eq!(d.jobs.active.as_deref(), Some("a"));
    assert!(matches!(d.chores.last(), Some(Chore::StartTranscription(_))));
    d.execute_transcribe_selected(true);
    assert_eq!(d.shell.message, "Transcription already in progress. Please wait...");
    d.on_transcription_finished(JobOutcome::Failed("no model".into()));
    assert_eq!(
        d.shell.notification.as_ref().unwrap().0,
        "Transcription failed (a): no model"
    );
    d.list.selected = None;
    d.execute_transcribe_selected(false);
    assert_eq!(d.shell.message, "No recording selected");
    d.list.selected = Some(9);
    d.execute_transcribe_selected(false);
    assert_eq!(d.shell.message, "Invalid recording selection");
}

#[test]
fn recordings_start_and_stop() {
    let mut d = dashboard();
    d.settings.config.silence_auto_stop.enabled = true;
    d.settings.config.silence_auto_stop.timeout_seconds = 90;
    d.toggle_recording(&None);
    assert!(
        matches!(d.chores.last(), Some(Chore::StartRecording { silence_timeout: Some(90) }))
    );
    d.on_recording_started();
    d.execute_record_and_transcribe();
    assert_eq!(
        d.shell.notification.as_ref().unwrap().0,
        "Already recording \u{2014} Ctrl+R stops it."
    );
    d.toggle_recording(&None);
    assert!(matches!(d.chores.last(), Some(Chore::StopRecording)));
    let n = d.chores.len();
    press(&mut d, Key::Esc);
    assert_eq!(d.chores.len(), n);
    d.on_recording_finished(RecordingOutcome::Done {
        recording_name: "new".into(),
        auto_stopped: true,
    });
    assert!(!d.capture.recording);
    assert_eq!(d.jobs.active.as_deref(), Some("new"));
    assert_eq!(
        d.shell.notification.as_ref().unwrap().0,
        "Silence detected \u{2014} recording stopped automatically."
    );
    d.toggle_recording(&None);
    d.on_recording_refused();
    assert!(d.capture.mode.is_none());
    d.on_recording_finished(RecordingOutcome::Failed("no device".into()));
    assert_eq!(d.shell.message, "Recording failed: no device");
    d.on_recording_finished(RecordingOutcome::Crashed);
    assert_eq!(d.shell.message, "Recording task failed.");
    d.toggle_recording(&Some(RecordingInfo {
        kind: RecordingKind::Meeting,
        phase: RecordingPhase::Recording,
        source: None,
        directory: None,
        elapsed_secs: 0,
    }));
    assert!(matches!(d.chores.last(), Some(Chore::StopMeeting)));
}

#[test]
fn deletion_and_playback_are_reported() {
    let mut d = dashboard();
    d.on_recordings_loaded(vec![rec("a")], 0);
    d.shell.current_view = DashboardView::Browse;
    press(&mut d, Key::Delete);
    assert_eq!(d.surface(), Surface::DeleteConfirm);
    press(&mut d, Key::Up);
    press(&mut d, Key::Enter);
    assert!(matches!(d.chores.last(), Some(Chore::Delete(r)) if r.directory_name == "a"));
    d.on_deleted(Some(1), DeletionOutcome::Done { files_left: Some("busy".into()) });
    assert_eq!(d.shell.message, "Recording deleted.");
    assert_eq!(
        d.shell.notification.as_ref().unwrap().0,
        "DB row deleted but files not removed: busy"
    );
    d.on_deleted(
        Some(1),
        DeletionOutcome::Failed { files_left: None, reason: "db gone".into() },
    );
    assert_eq!(d.shell.message, "Failed to delete recording: db gone");
    d.on_deleted(Some(1), DeletionOutcome::Refused);
    assert!(d.shell.message.starts_with("Failed to delete recording: Could not delete"));
    d.on_deleted(None, DeletionOutcome::Done { files_left: None });
    assert!(d.shell.message.ends_with("cannot delete."));
    press(&mut d, Key::Esc);
    press(&mut d, Key::Char('p'));
    assert!(matches!(d.chores.last(), Some(Chore::Play(_))));
    d.on_playback(Err("no file".into()));
    assert_eq!(d.shell.message, "Failed to play recording: no file");
    d.on_playback(Ok("Playing".into()));
    assert!(d.capture.playing && d.surface() == Surface::Message);
    press(&mut d, Key::Esc);
    assert!(!d.capture.playing && !d.shell.show_message);
    assert!(matches!(d.chores.last(), Some(Chore::StopPlayback)));
}

#[test]
fn an_update_is_offered() {
    let mut d = dashboard();
    d.on_update_checked(Some("9.9.9".into()));
    match d.render_home_footer("1.0", 80) {
        Bar::Centered(l) => {
            assert_eq!(l.text(), "v9.9.9 available [u] Update  [Esc] Dismiss")
        }
        _ => panic!("no banner"),
    }
    press(&mut d, Key::Char('u'));
    assert!(d.update.in_progress);
    assert!(matches!(d.chores.last(), Some(Chore::PerformUpdate(v)) if v == "9.9.9"));
    d.on_update_finished(Some(Ok("9.9.9".into())));
    match d.render_home_footer("1.0", 80) {
        Bar::Centered(l) => assert_eq!(
            l.text(),
            "Updated to v9.9.9 \u{2014} restart Scriba to use it"
        ),
        _ => panic!("no outcome"),
    }
    press(&mut d, Key::Char('x'));
    assert!(d.update.completed.is_none());
    assert_eq!(d.chat.entry.input_buffer, "x");
    match d.render_home_footer("1.0", 80) {
        Bar::Ruled(l) => {
            assert!(l.text().ends_with("[Tab] Browse  [Ctrl+R] Record  [?] Help "));
            assert_eq!(l.text().chars().count(), 80);
        }
        _ => panic!("a banner"),
    }
    d.on_update_finished(None);
    assert_eq!(d.update.completed, Some(Err("Update task failed".to_string())));
}

#[test]
fn a_round_takes_the_news() {
    let mut d = dashboard();
    d.execute_record_and_transcribe();
    d.on_recording_started();
    for c in "hello".chars() {
        press(&mut d, Key::Char(c));
    }
    press(&mut d, Key::Enter);
    assert!(matches!(d.chores.last(), Some(Chore::Generate(o)) if o.user_message == "hello"));
    let mut news = no_news();
    news.recording = Some(RecordingOutcome::Done {
        recording_name: "r".into(),
        auto_stopped: false,
    });
    news.update_check = Some(Some("2.0".into()));
    news.chat = vec![ChatStreamEvent::Chunk("hi".into()), ChatStreamEvent::Done];
    news.anim_tick = true;
    d.shell.notification = Some(("n".into(), 0));
    d.tick(news);
    assert_eq!(d.jobs.active.as_deref(), Some("r"));
    assert_eq!(d.jobs.progress_frame, 1);
    assert_eq!(d.update.available.as_deref(), Some("2.0"));
    assert_eq!(d.chat.talk.messages.len(), 2);
    assert_eq!(d.chat.entry.spinner_frame, 1);
    assert!(d.shell.notification.is_none());
    d.capture.progress_animation = Some("Working".into());
    d.update_progress_message("v");
    assert!(d.shell.message.starts_with("\u{2819} Working ["));
    d.shell.owl_frame = Some(150);
    let mut news = no_news();
    news.anim_tick = true;
    d.tick(news);
    assert_eq!(d.shell.owl_frame, None);
}

#[test]
fn a_file_is_imported_from_the_dialog() {
    let mut d = dashboard();
    d.execute_add_external_file();
    assert_eq!(d.surface(), Surface::FileDialog);
    for c in "/x/talk.wav".chars() {
        press(&mut d, Key::Char(c));
    }
    press(&mut d, Key::Enter);
    press(&mut d, Key::Enter);
    assert!(!d.import.shown);
    assert_eq!(d.jobs.active.as_deref(), Some("talk"));
    d.capture.recording = true;
    d.execute_add_external_file();
    assert_eq!(d.shell.message, "Recording already in progress");
}

#[test]
fn a_failed_save_returns_to_the_settings() {
    let mut d = dashboard();
    d.settings_error(What::Provider, "disk full");
    assert_eq!(d.shell.message, "Failed to save provider: disk full");
    press(&mut d, Key::Esc);
    assert_eq!(d.shell.current_view, DashboardView::Settings);
}

#[test]
fn pages_turn_and_searches_load() {
    let mut d = dashboard();
    d.on_recordings_loaded(vec![rec("a")], 0);
    d.on_stats_loaded(RecordingStats { total_recordings: 1, total_duration_seconds: 60 });
    d.shell.current_view = DashboardView::Browse;
    press(&mut d, Key::Char(']'));
    assert_eq!(d.list.current_page, 1);
    d.chores.clear();
    d.on_recordings_loaded(vec![], 0);
    assert_eq!(d.list.current_page, 0);
    assert!(matches!(d.chores.last(), Some(Chore::LoadRecordings)));
    d.chores.clear();
    press(&mut d, Key::Char('/'));
    press(&mut d, Key::Char('q'));
    assert_eq!(d.list.search_query, "q");
    press(&mut d, Key::Enter);
    assert!(matches!(d.chores.last(), Some(Chore::LoadRecordings)));
}

#[test]
fn selected_text_is_copied() {
    let mut d = dashboard();
    d.chat.home.show_home_screen = false;
    d.chat.talk.messages.push(ChatMessage::text(ChatRole::User, "hello".into()));
    d.chat.render(Rect { x: 0, y: 0, width: 40, height: 10 });
    d.handle_mouse_event(MouseKind::Down, 3, 6);
    d.handle_mouse_event(MouseKind::Drag, 8, 6);
    d.handle_mouse_event(MouseKind::Up, 8, 6);
    assert!(matches!(d.chores.last(), Some(Chore::CopySelection(t)) if t == "hello"));
    d.on_selection_copied();
    assert_eq!(d.shell.notification, Some(("Copied to clipboard".to_string(), 15)));
}

#[test]
fn a_message_stays_until_esc() {
    let mut d = dashboard();
    d.on_playback(Err("no file".into()));
    d.shell.notification = Some(("note".into(), 5));
    press(&mut d, Key::Char('x'));
    assert!(d.shell.show_message);
    assert_eq!(d.chat.entry.input_buffer, "");
    assert!(d.shell.notification.is_none());
    d.capture.progress_animation = Some("Working".into());
    press(&mut d, Key::Esc);
    assert!(d.shell.show_message);
    d.capture.progress_animation = None;
    press(&mut d, Key::Esc);
    assert!(!d.shell.show_message);
}

#[test]
fn a_note_fades() {
    let mut d = dashboard();
    d.on_selection_copied();
    for i in 0..16 {
        assert!(d.shell.notification.is_some(), "{}", i);
        let mut news = no_news();
        news.anim_tick = true;
        d.tick(news);
    }
    assert!(d.shell.notification.is_none());
}

#[test]
fn help_and_owls() {
    let h = render_help();
    assert_eq!(h.lines.len(), 29);
    assert_eq!(h.lines[0].text(), "SCRIBA HELP");
    let area = Rect { x: 0, y: 0, width: 100, height: 25 };
    let o = render_owls(area, 30);
    assert_eq!(o.set, 1);
    assert_eq!(o.area, Rect { x: 29, y: 10, width: 42, height: 5 });
    assert_eq!(o.bar, 80);
    assert_eq!(o.background, Color::Indexed(52));
    assert!(owl_row(1, 1).contains("(@,@)"));
    let d = dashboard();
    assert_eq!(d.chat_area(area), Rect { x: 5, y: 0, width: 90, height: 25 });
    assert_eq!(footer_area(area), Rect { x: 0, y: 1, width: 100, height: 24 });
}

#[test]
fn a_adds_a_file_and_d_deletes() {
    for key in ['a', 'A'] {
        let mut d = dashboard();
        d.shell.current_view = DashboardView::Browse;
        assert_eq!(press(&mut d, Key::Char(key)), DashboardAction::Continue);
        assert!(d.import.shown);
    }
    let mut d = dashboard();
    d.shell.current_view = DashboardView::Browse;
    d.execute_add_external_file();
    assert!(d.import.shown);
    let mut d = dashboard();
    d.on_recordings_loaded(vec![rec("a")], 0);
    d.shell.current_view = DashboardView::Browse;
    press(&mut d, Key::Char('D'));
    assert!(d.deletion.show_delete_confirm);
}

#[test]
fn the_cursor_goes_on_to_other_pages() {
    let mut d = dashboard();
    d.shell.current_view = DashboardView::Browse;
    // A page that is not full has none behind it.
    d.on_recordings_loaded(vec![rec("a"), rec("b")], 0);
    d.chores.clear();
    press(&mut d, Key::Up);
    assert_eq!(d.list.selected, Some(1));
    press(&mut d, Key::Down);
    assert_eq!(d.list.selected, Some(0));
    assert!(d.chores.is_empty());
    d.on_recordings_loaded((0..50).map(|_| rec("a")).collect(), 0);
    press(&mut d, Key::Up);
    assert_eq!((d.list.selected, d.list.current_page), (Some(49), 0));
    press(&mut d, Key::Down);
    assert_eq!(d.list.current_page, 1);
    assert!(matches!(d.chores.last(), Some(Chore::LoadRecordings)));
    d.on_recordings_loaded(vec![rec("z")], 0);
    assert_eq!(d.list.selected, Some(0));
    d.chores.clear();
    press(&mut d, Key::Up);
    assert_eq!(d.list.current_page, 0);
    assert!(matches!(d.chores.last(), Some(Chore::LoadRecordings)));
    d.on_recordings_loaded((0..50).map(|_| rec("a")).collect(), 0);
    assert_eq!(d.list.selected, Some(49));
}

#[test]
fn up_and_down_scroll_the_transcript() {
    let mut d = dashboard();
    d.on_transcript_loaded(rec("a"), true, Ok("text".into()), &None, "p".into());
    d.chat.entry.focus = ChatFocus::Table;
    press(&mut d, Key::Down);
    press(&mut d, Key::Down);
    assert_eq!(d.transcript.scroll, 2);
    press(&mut d, Key::Up);
    assert_eq!(d.transcript.scroll, 1);
    // With the input in focus the keys belong to the chat.
    d.chat.entry.focus = ChatFocus::ChatInput;
    press(&mut d, Key::Down);
    assert_eq!(d.transcript.scroll, 1);
    d.chat.entry.focus = ChatFocus::Table;
    press(&mut d, Key::Esc);
    assert!(!d.transcript.shown);
    assert_eq!(d.transcript.scroll, 0);
}

#[test]
fn actions_are_done() {
    let mut d = dashboard();
    assert!(d.handle_dashboard_action(DashboardAction::Quit, &None, false));
    d.chores.clear();
    assert!(!d.handle_dashboard_action(DashboardAction::Continue, &None, false));
    assert!(d.chores.is_empty());
    assert!(!d.handle_dashboard_action(DashboardAction::RecordAndTranscribe, &None, false));
    assert!(matches!(d.chores.last(), Some(Chore::StartRecording { .. })));
    d.on_recording_started();
    d.handle_dashboard_action(DashboardAction::ToggleRecording, &None, false);
    assert!(matches!(d.chores.last(), Some(Chore::StopRecording)));
    let mut d = dashboard();
    d.on_recordings_loaded(vec![rec("a")], 0);
    d.handle_dashboard_action(DashboardAction::TranscribeSelected, &None, true);
    assert_eq!(
        d.shell.message,
        "Recording already has transcript. Press T again to overwrite."
    );
}

#[test]
fn the_list_has_help_too() {
    for key in [Key::F(1), Key::Char('?')] {
        let mut d = dashboard();
        d.shell.current_view = DashboardView::Browse;
        press(&mut d, key);
        assert!(d.shell.show_help);
        assert_eq!(d.shell.current_view, DashboardView::Help);
    }
    let mut d = dashboard();
    d.shell.current_view = DashboardView::Browse;
    press(&mut d, Key::F(2));
    assert_eq!(d.shell.current_view, DashboardView::Browse);
}
