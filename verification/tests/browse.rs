use scriba::browse::{
    begin_playback, candidate_player, deletion_error, find_audio_file, is_mp3, no_player_error, player_arguments,
    playing_message, powershell_script, wants_stereo_copy, Deletion, DialogOutcome, FileDialog,
    FileDialogStage, FileFacts, Listing, PlayStep, Player, Wanted,
};
use scriba::browse_view::{render_browse_footer, render_rows, Bar};
use scriba::jobs::Jobs;
use scriba::keys::Key;
use scriba::recordings::{find_by_id, Recording, RecordingStats};
use scriba::update::Platform;

fn rec(name: &str, created: i64) -> Recording {
    Recording {
        id: Some(1),
        directory_name: name.to_string(),
        display_name: None,
        duration_seconds: Some(125),
        channels: 1,
        has_transcript: false,
        summary: None,
        key_points: None,
        action_items: None,
        created_utc: created,
        created_local: created,
    }
}

#[test]
fn the_cursor_goes_round() {
    let mut l = Listing::new();
    l.next_recording();
    assert_eq!(l.selected, Some(0));
    assert!(!l.on_recordings(vec![rec("a", 0), rec("b", 0), rec("c", 0)]));
    l.next_recording();
    l.next_recording();
    assert_eq!(l.selected, Some(2));
    l.next_recording();
    assert_eq!(l.selected, Some(0));
    l.previous_recording();
    assert_eq!(l.selected, Some(2));
    assert_eq!(l.get_current_recording().unwrap().directory_name, "c");
}

#[test]
fn an_empty_page_turns_back() {
    let mut l = Listing::new();
    l.on_recordings(vec![rec("a", 0)]);
    assert!(!l.previous_page());
    l.next_page();
    assert_eq!(l.offset(), 50);
    assert!(l.on_recordings(vec![]));
    assert_eq!(l.current_page, 0);
    assert_eq!(l.selected, None);
    l.next_page();
    assert!(!l.on_recordings(vec![rec("b", 0)]));
    assert_eq!(l.current_page, 1);
    assert!(l.previous_page());
    assert_eq!(l.current_page, 0);
}

#[test]
fn a_search_is_typed() {
    let mut l = Listing::new();
    l.search_mode = true;
    for c in "ab".chars() {
        assert!(!l.handle_search_input(Key::Char(c)));
    }
    l.handle_search_input(Key::Backspace);
    assert_eq!(l.search_text(), "Search: a");
    assert!(l.handle_search_input(Key::Enter));
    assert_eq!(l.search_query, "a");
    assert!(l.handle_search_input(Key::Esc));
    assert_eq!(l.search_query, "");
}

#[test]
fn deleting_takes_a_yes() {
    let mut d = Deletion::new();
    d.show_delete_confirmation(Some(rec("a", 0)));
    assert!(d.handle_delete_confirmation(Key::Enter).is_none());
    assert!(!d.show_delete_confirm);
    d.show_delete_confirmation(Some(rec("a", 0)));
    d.handle_delete_confirmation(Key::Up);
    assert!(d.render_delete_confirmation().lines[2].text().starts_with("\u{25B8} Yes"));
    assert_eq!(d.handle_delete_confirmation(Key::Enter).unwrap().directory_name, "a");
    d.show_delete_confirmation(Some(rec("a", 0)));
    d.handle_delete_confirmation(Key::Char('k'));
    assert!(d.handle_delete_confirmation(Key::Esc).is_none());
    assert!(d.candidate.is_none());
    d.show_delete_confirmation(None);
    assert!(!d.show_delete_confirm);
    assert!(deletion_error(Some(3)).starts_with("Could not delete recording (ID: 3)."));
    assert_eq!(
        deletion_error(None),
        "Selected recording has no database ID; cannot delete."
    );
}

#[test]
fn a_file_is_imported_in_two_steps() {
    let mut d = FileDialog::new();
    d.open();
    let missing = FileFacts { exists: false, stem: None };
    let found = FileFacts { exists: true, stem: Some("talk".into()) };
    assert!(matches!(
        d.handle_file_dialog_keys(Key::Enter, &missing),
        DialogOutcome::Note("Please enter a file path")
    ));
    for c in " /x/talk.wav ".chars() {
        d.handle_file_dialog_keys(Key::Char(c), &missing);
    }
    assert!(matches!(
        d.handle_file_dialog_keys(Key::Enter, &missing),
        DialogOutcome::Note("File not found. Please check the path.")
    ));
    assert!(matches!(d.handle_file_dialog_keys(Key::Enter, &found), DialogOutcome::Stay));
    assert_eq!(d.stage, FileDialogStage::FileName);
    assert_eq!(d.name_input, "talk");
    assert_eq!(d.title(), "Import Audio File - Step 2/2");
    assert_eq!(d.render_file_dialog().lines[2].text(), "Input: talk_");
    for _ in 0..4 {
        d.handle_file_dialog_keys(Key::Backspace, &found);
    }
    match d.handle_file_dialog_keys(Key::Enter, &FileFacts { exists: true, stem: None }) {
        DialogOutcome::Import { path, name } => {
            assert_eq!(path, "/x/talk.wav");
            assert_eq!(name, "imported_audio");
        }
        _ => panic!("no import"),
    }
    assert!(!d.shown);
}

#[test]
fn audio_files_are_found_by_their_extension() {
    let exts = vec![None, Some("txt".to_string()), Some("WaV".to_string()), Some("mp3".into())];
    assert_eq!(find_audio_file(&exts), Some(2));
    assert_eq!(find_audio_file(&vec![Some("wave".to_string())]), None);
    assert!(is_mp3(&Some("MP3".into())) && !is_mp3(&Some("wav".into())) && !is_mp3(&None));
}

#[test]
fn players_are_tried_in_order() {
    assert_eq!(candidate_player(Platform::MacArm, 0), Some(Player::Mpv));
    assert_eq!(candidate_player(Platform::MacIntel, 2), Some(Player::Afplay));
    assert_eq!(candidate_player(Platform::Linux, 2), Some(Player::Aplay));
    assert_eq!(candidate_player(Platform::Windows, 2), Some(Player::PowerShell));
    assert_eq!(candidate_player(Platform::Linux, 3), None);
    assert_eq!(player_arguments(Player::Aplay), "-c 2");
    assert!(wants_stereo_copy(Player::Afplay, 1, false));
    assert!(!wants_stereo_copy(Player::Afplay, 1, true));
    assert!(!wants_stereo_copy(Player::Mpv, 1, false));
    assert_eq!(
        powershell_script("C:\\it's"),
        "$p=New-Object Media.SoundPlayer 'C:\\it''s';$p.Play();"
    );
    assert_eq!(
        playing_message("Talk", Player::Mpv),
        "\u{25B6} Playing: Talk\nUsing player: mpv\n\nPress ESC to stop playback"
    );
    assert!(no_player_error(Platform::Linux).contains("ffplay"));
}

#[test]
fn playback_takes_the_first_player_that_starts() {
    let r = rec("Talk", 0);
    let exts = vec![Some("txt".to_string()), Some("wav".to_string())];
    let (file, mut a) = begin_playback(&r, Platform::MacArm, &exts).unwrap();
    assert_eq!(file, 1);
    assert!(matches!(a.step(), PlayStep::Launch { player: Player::Mpv, stereo_copy: false }));
    assert!(matches!(a.on_launched(false), PlayStep::Launch { player: Player::Ffplay, .. }));
    assert!(
        matches!(a.on_launched(false), PlayStep::Launch { player: Player::Afplay, stereo_copy: true })
    );
    match a.on_launched(true) {
        PlayStep::Playing(msg) => assert!(msg.contains("Using player: afplay")),
        _ => panic!("not playing"),
    }
    assert!(matches!(a.on_launched(false), PlayStep::Failed(_)));
    assert_eq!(
        begin_playback(&r, Platform::Linux, &vec![None]).unwrap_err(),
        "Could not find an audio file for this recording"
    );
}

#[test]
fn the_list_is_grouped_by_day() {
    let day = 86_400;
    // The sixth of January 1970 at 10:30, the fifth, and the first.
    let mut list = Listing::new();
    let mut first = rec("morning", 5 * day + 37_800);
    first.has_transcript = true;
    first.duration_seconds = Some(3725);
    list.on_recordings(vec![first, rec("before", 4 * day), rec("early", 0), rec("late", 60)]);
    let r = list.render_recording_list(5, &Jobs::new(), 60, 20).unwrap();
    let all: Vec<String> = r.lines.lines.iter().map(|l| l.text()).collect();
    assert_eq!(all[0], "  Today");
    assert!(all[1].starts_with("  \u{25B8} \u{25CF} morning"));
    assert!(all[1].ends_with("  1h2m  10:30"));
    assert_eq!(all[2], "");
    assert_eq!(all[3], "  Yesterday");
    assert_eq!(all[6], "  Jan 1");
    assert!(all[7].starts_with("    \u{25CB} early"));
    assert_eq!(all.len(), 9);
    assert_eq!(r.scroll, 0);
    list.selected = Some(3);
    let r = list.render_recording_list(5, &Jobs::new(), 60, 4).unwrap();
    assert_eq!(r.scroll, 6);
}

#[test]
fn rows_stand_under_given_headings() {
    let v = vec![rec("a", 0), rec("b", 0)];
    let labels = vec![
        ("X".to_string(), "00:00".to_string()),
        ("X".to_string(), "11:11".to_string()),
    ];
    let r = render_rows(&v, &labels, 1, &Jobs::new(), 60, 20);
    assert_eq!(r.lines.lines.len(), 3);
    assert!(r.lines.lines[2].text().ends_with("    2m  11:11"));
}

#[test]
fn an_empty_list_says_so() {
    let mut l = Listing::new();
    assert_eq!(
        l.render_recording_list(0, &Jobs::new(), 60, 10).unwrap_err(),
        "No recordings yet. Press Ctrl+R to start recording."
    );
    l.search_query.push('x');
    assert_eq!(
        l.render_recording_list(0, &Jobs::new(), 60, 10).unwrap_err(),
        "No recordings match your search."
    );
}

#[test]
fn the_footer_shows_totals_or_a_note() {
    let stats = Some(RecordingStats { total_recordings: 3, total_duration_seconds: 7320 });
    match render_browse_footer(&None, "1.0", stats, true, 120) {
        Bar::Ruled(l) => {
            let text = l.text();
            assert!(text.starts_with(
                " \u{25B8} scriba \u{00B7} v1.0 \u{00B7} 3 recordings \u{00B7} 2h 2m \u{00B7} Transcribing..."
            ));
            assert_eq!(text.chars().count(), 120);
        }
        _ => panic!("a note"),
    }
    match render_browse_footer(&Some(("It failed".into(), 3)), "1.0", None, false, 80) {
        Bar::Centered(l) => {
            assert_eq!(l.spans[0].style.fg, Some(scriba::style::Color::Red));
        }
        _ => panic!("no note"),
    }
    assert_eq!(find_by_id(&vec![rec("a", 0)], 1), Some(0));
    assert_eq!(find_by_id(&vec![rec("a", 0)], 2), None);
}

#[test]
fn pages_are_entered_from_both_sides() {
    let full: Vec<Recording> = (0..50).map(|i| rec(&format!("r{}", i), 0)).collect();
    let mut l = Listing::new();
    l.on_recordings(full);
    assert!(!l.is_at_end() && !l.is_at_beginning());
    l.selected = Some(49);
    assert!(l.is_at_end());
    l.search_query.push('q');
    assert!(!l.is_at_end());
    l.search_query.clear();
    l.next_page();
    l.on_recordings(vec![rec("x", 0), rec("y", 0)]);
    assert_eq!(l.selected, Some(0));
    assert!(l.is_at_beginning() && !l.is_at_end());
    l.page_above();
    assert_eq!(l.current_page, 0);
    l.on_recordings(vec![rec("a", 0), rec("b", 0), rec("c", 0)]);
    assert_eq!(l.selected, Some(2));
    l.on_recordings(vec![rec("a", 0), rec("b", 0)]);
    assert_eq!(l.selected, Some(0));
}

#[test]
fn a_search_is_loaded_without_pages() {
    let mut l = Listing::new();
    l.current_page = 3;
    assert!(matches!(l.wanted(), Wanted::Page { limit: 50, offset: 150 }));
    l.search_query.push_str("plan");
    assert!(matches!(l.wanted(), Wanted::Matches(q) if q == "plan"));
}
