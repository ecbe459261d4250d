use scriba::recordings::Recording;
use scriba::style::Page;
use scriba::times::{day_of, show_time, CLOCK_PATTERN, DAY_PATTERN, MOMENT_PATTERN};
use scriba::transcript::{
    chat_panel_height, complete_records, push_labeled_rows, push_labeled_wrap, render_preview,
    render_transcript_footer, Transcript, TranscriptRow,
};

fn rec() -> Recording {
    Recording {
        id: Some(1),
        directory_name: "dir".into(),
        display_name: Some("Standup".into()),
        duration_seconds: Some(3700),
        channels: 2,
        has_transcript: true,
        summary: Some("All is well.".into()),
        key_points: Some("[\"ship it\", \"later\"]".into()),
        action_items: None,
        created_utc: 1_709_901_000,
        created_local: 1_709_901_000,
    }
}

fn texts(p: &Page) -> Vec<String> {
    p.lines.iter().map(|l| l.text()).collect()
}

#[test]
fn enrichment_is_read_from_json() {
    let mut t = Transcript::new();
    let row = Some(TranscriptRow {
        topics: Some("[\"plans\", \"tests\"]".into()),
        entities: Some(
            "[{\"name\": \"Ann\", \"type\": \"person\"}, {\"name\": \"Acme\", \"type\": \"organization\"}, {\"name\": \"nameless\"}, {\"name\": \"Rust\", \"type\": \"tool\"}]"
                .into(),
        ),
    });
    t.load_enrichment_data(&rec(), &row);
    assert_eq!(t.summary.as_deref(), Some("All is well."));
    assert_eq!(t.key_points, Some(vec!["ship it".to_string(), "later".to_string()]));
    assert_eq!(t.topics, Some(vec!["plans".to_string(), "tests".to_string()]));
    assert_eq!(t.entities.as_ref().unwrap().len(), 3);
    t.content = "first line\n\nsecond line".into();
    let all = texts(&t.render_transcript_body(60));
    assert_eq!(
        all,
        vec![
            "",
            "  Summary",
            "  All is well.",
            "",
            "  Topics  plans \u{00B7} tests",
            "  People  Ann",
            "  Orgs    Acme",
            "  Entities Rust",
            "",
            "  Key takeaway",
            "  ship it",
            "",
            &"\u{2500}".repeat(60),
            "",
            "  first line",
            "",
            "  second line"
        ]
    );
    // Without a row in the database topics and entities stay.
    t.load_enrichment_data(&rec(), &None);
    assert!(t.topics.is_some());
    t.clear_enrichment_data();
    assert!(t.summary.is_none() && t.topics.is_none() && t.entities.is_none());
    // What is no list counts as nothing.
    let mut odd = rec();
    odd.key_points = Some("nonsense".into());
    t.load_enrichment_data(
        &odd,
        &Some(TranscriptRow { topics: Some("[1]".into()), entities: Some("{}".into()) }),
    );
    assert!(t.key_points.is_none() && t.topics.is_none() && t.entities.is_none());
}

#[test]
fn records_need_a_name_and_a_type() {
    let v = complete_records(&vec![
        (Some("a".to_string()), Some("person".to_string())),
        (None, Some("person".to_string())),
        (Some("b".to_string()), None),
    ]);
    assert_eq!(v, vec![("a".to_string(), "person".to_string())]);
}

#[test]
fn a_full_preview_fades_out() {
    let rows: Vec<Option<String>> = (0..20).map(|i| Some(format!("row {}", i))).collect();
    let p = render_preview(&rows);
    assert_eq!(p.lines.len(), 17);
    assert_eq!(p.lines[0].spans.len(), 2);
    assert_eq!(p.lines[14].spans.len(), 1);
    assert_eq!(p.lines[14].text(), "  row 14");
    assert_eq!(
        p.lines[16].text(),
        "  5 more lines not shown \u{00B7} [Ctrl+Y] copy full transcript"
    );
    let p = render_preview(&rows[..14].to_vec());
    assert_eq!(p.lines.len(), 14);
    let p = render_preview(&rows[..15].to_vec());
    assert_eq!(p.lines.len(), 15);
    assert!(p.lines.iter().all(|l| l.spans.len() == 2));
    let p = render_preview(&rows[..16].to_vec());
    assert_eq!(p.lines.len(), 17);
    assert!(p.lines[16].text().starts_with("  1 more lines"));
}

#[test]
fn long_values_are_wrapped_behind_their_label() {
    let mut p = Page::new();
    push_labeled_wrap(&mut p, "Topics  ", "alpha beta gamma", 20);
    assert_eq!(texts(&p), vec!["  Topics  alpha beta", "          gamma"]);
    let mut p = Page::new();
    push_labeled_wrap(&mut p, "Topics  ", "alpha beta", 5);
    assert_eq!(texts(&p), vec!["  Topics  alpha beta"]);
    let mut p = Page::new();
    push_labeled_rows(&mut p, "L ", &vec!["a".to_string(), "b".to_string()]);
    assert_eq!(texts(&p), vec!["  L a", "    b"]);
}

#[test]
fn the_header_tells_name_length_and_date() {
    let mut t = Transcript::new();
    assert_eq!(t.render_transcript_header().text(), "  Recording \u{00B7} 0m \u{00B7} ");
    t.recording = Some(rec());
    assert_eq!(
        t.render_transcript_header().text(),
        "  Standup \u{00B7} 1h 1m \u{00B7} Mar 8, 12:30"
    );
    let l = render_transcript_footer("1.0", 100);
    assert!(l.text().ends_with("[Ctrl+Y] Copy  [Ctrl+T] Re-transcribe  [Esc] Back "));
    assert_eq!(l.text().chars().count(), 100);
}

#[test]
fn the_chat_gets_its_share() {
    assert_eq!(chat_panel_height(true, 40, 0), 18);
    assert_eq!(chat_panel_height(true, 10, 0), 8);
    assert_eq!(chat_panel_height(false, 40, 0), 5);
    assert_eq!(chat_panel_height(false, 40, 3), 7);
    assert_eq!(chat_panel_height(false, 40, 9), 8);
}

#[test]
fn times_are_formatted() {
    assert_eq!(show_time(0, DAY_PATTERN), "Jan 1");
    assert_eq!(show_time(-60, CLOCK_PATTERN), "23:59");
    assert_eq!(show_time(86_400 * 31 + 3_600, MOMENT_PATTERN), "Feb 1, 01:00");
    assert_eq!(show_time(i64::MAX, DAY_PATTERN), "");
    assert_eq!(day_of(0), 0);
    assert_eq!(day_of(-1), -1);
    assert_eq!(day_of(-86_400), -1);
    assert_eq!(day_of(86_399), 0);
    assert_eq!(day_of(i64::MIN), i64::MIN.div_euclid(86_400));
}

#[test]
fn the_body_scrolls_within_its_lines() {
    let mut t = Transcript::new();
    t.content = (0..12).map(|i| format!("row {}\n", i)).collect();
    let all = texts(&t.render_transcript_body(40));
    assert_eq!(all.len(), 13);
    assert_eq!(texts(&t.render_transcript_window(40, 5)), all[..5].to_vec());
    t.scroll_up();
    assert_eq!(t.scroll, 0);
    t.scroll_down();
    assert_eq!(texts(&t.render_transcript_window(40, 5)), all[1..6].to_vec());
    for _ in 0..100 {
        t.scroll_down();
    }
    assert_eq!(texts(&t.render_transcript_window(40, 5)), all[8..].to_vec());
    assert_eq!(t.scroll, 8);
    t.scroll_up();
    assert_eq!(texts(&t.render_transcript_window(40, 5)), all[7..12].to_vec());
    assert_eq!(texts(&t.render_transcript_window(40, 50)), all);
    assert_eq!(t.scroll, 0);
    t.scroll = usize::MAX;
    t.scroll_down();
    assert_eq!(t.scroll, usize::MAX);
}
