use scriba::chat::{
    after_compaction, plan_request, ChatBlock, ChatContext, ChatFocus, ChatMessage, ChatRole,
    ChatState, ChatStreamEvent, HomeRecording, Plan, Rendered, ToolCallDisplay,
};
use scriba::chat_keys::{ChatDo, MouseKind};
use scriba::chat_lines::{push_styled_line, push_user_line};
use scriba::geometry::Rect;
use scriba::keys::Key;
use scriba::style::{accent, fg_italic, Color, Page};

fn area(width: u16, height: u16) -> Rect {
    Rect { x: 0, y: 0, width, height }
}

fn lines(p: &Page) -> Vec<String> {
    p.lines.iter().map(|l| l.text()).collect()
}

/// A chat about everything in a conversation, without a border.
fn talking() -> ChatState {
    let mut c = ChatState::new(&None);
    c.entry.borderless = true;
    c.home.show_home_screen = false;
    c.offers.show_suggestions = false;
    c
}

fn say(c: &mut ChatState, text: &str) {
    for ch in text.chars() {
        assert!(matches!(c.handle_chat_key(Key::Char(ch), true), ChatDo::Done));
    }
}

#[test]
fn a_message_says_what_it_was_made_with() {
    let m = ChatMessage::text(ChatRole::User, "hello".into());
    assert_eq!(m.role, ChatRole::User);
    assert_eq!(m.content(), "hello");
}

#[test]
fn content_puts_the_text_blocks_together() {
    let m = ChatMessage {
        role: ChatRole::Assistant,
        blocks: vec![
            ChatBlock::Text("a".into()),
            ChatBlock::ToolCall(ToolCallDisplay {
                name: "search".into(),
                input_summary: String::new(),
                output_summary: String::new(),
                is_complete: true,
            }),
            ChatBlock::CompactionMarker,
            ChatBlock::Text("b".into()),
        ],
    };
    assert_eq!(m.content(), "ab");
}

#[test]
fn the_window_can_be_set() {
    assert_eq!(ChatState::new(&None).usage.window_max, 200_000);
    assert_eq!(ChatState::new(&Some("1000".into())).usage.window_max, 1000);
    assert_eq!(ChatState::new(&Some("+7".into())).usage.window_max, 7);
    assert_eq!(ChatState::new(&Some("4294967295".into())).usage.window_max, u32::MAX);
    assert_eq!(ChatState::new(&Some("4294967296".into())).usage.window_max, 200_000);
    assert_eq!(ChatState::new(&Some("many".into())).usage.window_max, 200_000);
    assert_eq!(ChatState::new(&Some("+".into())).usage.window_max, 200_000);
}

#[test]
fn four_fifths_of_the_window_are_not_too_much() {
    let mut c = ChatState::new(&Some("1000".into()));
    c.usage.input_tokens = 700;
    c.usage.output_tokens = 100;
    assert!(!c.needs_compaction());
    c.usage.output_tokens = 101;
    assert!(c.needs_compaction());
}

#[test]
fn an_answer_is_streamed() {
    let mut c = talking();
    say(&mut c, "hi");
    let out = match c.handle_chat_key(Key::Enter, true) {
        ChatDo::Send(o) => o,
        _ => panic!("not sent"),
    };
    assert_eq!(out.user_message, "hi");
    assert_eq!(out.messages, vec![("User".to_string(), "hi".to_string())]);
    assert!(c.talk.is_generating && c.talk.streaming);
    assert_eq!(c.talk.current_status.as_deref(), Some("Preparing..."));

    let again = c.poll_stream(&vec![
        ChatStreamEvent::Chunk("Hel".into()),
        ChatStreamEvent::Chunk("lo".into()),
        ChatStreamEvent::ToolCall { name: "find".into(), input_summary: "x".into() },
        ChatStreamEvent::ToolResult { name: "find".into(), output_summary: "3 hits".into() },
        ChatStreamEvent::Usage { input_tokens: 10, output_tokens: 1 },
        ChatStreamEvent::Usage { input_tokens: 99, output_tokens: 5 },
    ]);
    assert!(!again);
    assert_eq!(c.talk.pending_blocks.len(), 2);
    assert!(matches!(&c.talk.pending_blocks[0], ChatBlock::Text(t) if t == "Hello"));
    assert!(
        matches!(&c.talk.pending_blocks[1], ChatBlock::ToolCall(tc)
            if tc.is_complete && tc.output_summary == "3 hits")
    );
    assert_eq!(c.talk.current_status.as_deref(), Some("Thinking..."));
    assert_eq!((c.usage.input_tokens, c.usage.output_tokens), (10, 5));

    // What is typed while the answer is coming waits for its end.
    say(&mut c, "more");
    assert!(matches!(c.handle_chat_key(Key::Enter, true), ChatDo::Done));
    assert_eq!(c.talk.pending_message.as_deref(), Some("more"));
    let again = c.poll_stream(&vec![ChatStreamEvent::Done, ChatStreamEvent::Chunk("late".into())]);
    assert!(again);
    assert!(!c.talk.is_generating);
    assert_eq!(c.talk.messages.len(), 2);
    assert_eq!(c.talk.messages[1].content(), "Hello");
    assert!(c.talk.pending_blocks.is_empty());
    let out = c.resend_pending().unwrap();
    assert_eq!(out.user_message, "more");
    assert_eq!(out.messages.len(), 3);
}

#[test]
fn an_error_drops_what_waits() {
    let mut c = talking();
    say(&mut c, "hi");
    c.handle_chat_key(Key::Enter, true);
    say(&mut c, "more");
    c.handle_chat_key(Key::Enter, true);
    let again = c.poll_stream(&vec![
        ChatStreamEvent::Chunk("half".into()),
        ChatStreamEvent::Error("broken".into()),
    ]);
    assert!(!again);
    assert_eq!(c.talk.messages[1].content(), "Error: broken");
    assert!(c.talk.pending_message.is_none() && c.talk.pending_blocks.is_empty());
}

#[test]
fn nothing_is_received_without_a_stream() {
    let mut c = talking();
    assert!(!c.poll_stream(&vec![ChatStreamEvent::Chunk("x".into())]));
    assert!(c.talk.pending_blocks.is_empty());
}

#[test]
fn compaction_keeps_the_last_messages() {
    let mut c = talking();
    c.talk.streaming = true;
    for i in 0..6 {
        c.talk.messages.push(ChatMessage::text(ChatRole::User, format!("m{}", i)));
    }
    c.usage.input_tokens = 5;
    c.poll_stream(&vec![ChatStreamEvent::Compacted {
        summary: "so far".into(),
        removed_count: 2,
    }]);
    let said: Vec<String> = c.talk.messages.iter().map(|m| m.content()).collect();
    assert_eq!(
        said,
        vec![
            "Context compacted: 2 messages summarized, 4 kept",
            "",
            "so far",
            "m2",
            "m3",
            "m4",
            "m5"
        ]
    );
    assert_eq!(c.usage.input_tokens, 0);
    c.poll_stream(&vec![ChatStreamEvent::Compacted {
        summary: "odd".into(),
        removed_count: 100,
    }]);
    assert_eq!(c.talk.messages.len(), 9);
    assert_eq!(c.talk.messages[8].content(), "odd");
}

#[test]
fn a_request_is_planned() {
    let turns: Vec<(String, String)> =
        (0..6).map(|i| ("User".to_string(), format!("m{}", i))).collect();
    match plan_request("p".into(), turns.clone(), false) {
        Plan::Ask(q) => assert_eq!(q.messages, turns),
        _ => panic!("compacted"),
    }
    match plan_request("p".into(), turns.clone(), true) {
        Plan::Compact { status, old, rest } => {
            assert!(
                matches!(status, ChatStreamEvent::Status(s)
                    if s == "Compacting context (6 messages)...")
            );
            assert_eq!(old, turns[..2].to_vec());
            assert_eq!(rest.messages, turns[2..].to_vec());
            let (events, q) = after_compaction(rest, old.len(), &Ok("sum".to_string()));
            assert_eq!(events.len(), 2);
            assert!(
                matches!(&events[1], ChatStreamEvent::Status(s)
                    if s == "Compacted 2 messages into summary, 4 kept")
            );
            let q = q.unwrap();
            assert_eq!(q.system_prompt, "p\n\n## Previous Conversation Summary\nsum");
            assert_eq!(q.messages.len(), 4);
            let (events, none) = after_compaction(q, 2, &Err("down".to_string()));
            assert!(none.is_none());
            assert!(
                matches!(&events[0], ChatStreamEvent::Error(s)
                    if s == "Compaction failed: down")
            );
        }
        _ => panic!("not compacted"),
    }
    match plan_request("p".into(), turns[..3].to_vec(), true) {
        Plan::Ask(q) => assert_eq!(q.messages.len(), 3),
        _ => panic!("compacted too early"),
    }
}

#[test]
fn a_conversation_is_drawn() {
    let mut c = talking();
    c.talk.messages.push(ChatMessage::text(ChatRole::User, "one two three".into()));
    c.talk.messages.push(ChatMessage {
        role: ChatRole::Assistant,
        blocks: vec![
            ChatBlock::ToolCall(ToolCallDisplay {
                name: "find".into(),
                input_summary: "q".into(),
                output_summary: "ok".into(),
                is_complete: true,
            }),
            ChatBlock::Text("fine".into()),
        ],
    });
    let f = c.render(area(12, 9)).unwrap();
    let all = lines(&f.lines);
    assert_eq!(
        all,
        vec![
            " \u{2502} one two",
            " \u{2502} three",
            "",
            "  \u{2713} find(q) \u{2192} ok",
            "  fine",
            "",
            "  \u{2500}\u{2500}\u{2500}\u{2500}\u{2500}\u{2500}\u{2500}\u{2500}",
            " \u{2502} \u{2588}"
        ]
        .into_iter()
        .map(String::from)
        .fold(vec![String::new()], |mut v, l| {
            v.push(l);
            v
        })
    );
    assert!(f.border.is_none() && f.scrollbar.is_none());
    assert_eq!(c.viewport.total_content_lines, 6);
    assert_eq!(c.viewport.content_texts_raw[0], "one two");
    assert_eq!(c.viewport.content_texts_raw[3], "\u{2713} find(q) \u{2192} ok");
    // Drawn again from what was kept, it looks the same.
    let g = c.render(area(12, 9)).unwrap();
    assert_eq!(lines(&g.lines), all);
}

#[test]
fn a_cleared_conversation_is_not_drawn_again() {
    let mut c = talking();
    for t in ["one", "two"] {
        c.talk.messages.push(ChatMessage::text(ChatRole::User, t.into()));
    }
    c.render(area(30, 10)).unwrap();
    assert!(c.viewport.total_content_lines > 0);
    c.talk.messages.clear();
    c.invalidate_cache();
    let f = c.render(area(30, 10)).unwrap();
    assert_eq!(c.viewport.total_content_lines, 0);
    assert!(c.viewport.content_texts.is_empty() && c.viewport.content_texts_raw.is_empty());
    assert!(lines(&f.lines).iter().all(|l| !l.contains("one") && !l.contains("two")));
}

#[test]
fn another_conversation_is_drawn_afresh() {
    let mut c = talking();
    c.talk.messages.push(ChatMessage::text(ChatRole::User, "before".into()));
    c.render(area(30, 10)).unwrap();
    let other = vec![ChatMessage::text(ChatRole::User, "after".into())];
    c.restore_global_chat(other, vec![], true);
    c.render(area(30, 10)).unwrap();
    assert_eq!(c.viewport.content_texts_raw[0], "after");
}

#[test]
fn a_selection_reads_cleanly() {
    let mut c = talking();
    c.viewport.content_texts = vec!["ab  ".into(), "  ".into(), "cd \t".into(), " ".into()];
    assert_eq!(c.extract_selected_text((0, 0), (3, 1)), "ab\n\ncd");
    assert_eq!(c.extract_selected_text((3, 1), (0, 0)), "ab\n\ncd");
    assert_eq!(c.extract_selected_text((1, 0), (1, 2)), "");
}

#[test]
fn a_small_area_shows_nothing() {
    let mut c = talking();
    assert!(c.render(area(80, 2)).is_none());
    assert_eq!(c.viewport.panel_rect, area(80, 2));
}

#[test]
fn a_long_conversation_scrolls() {
    let mut c = talking();
    c.entry.borderless = false;
    c.usage.input_tokens = 1;
    for i in 0..20 {
        c.talk.messages.push(ChatMessage::text(ChatRole::System, format!("e{}", i)));
    }
    let f = c.render(area(30, 10)).unwrap();
    let (bar, total, position) = f.scrollbar.unwrap();
    assert_eq!(total, 40);
    assert_eq!(position, 34);
    assert_eq!(bar, Rect { x: 0, y: 1, width: 30, height: 8 });
    assert_eq!(f.border, Some(("Ask Scriba", accent())));
    assert!(f.shows_usage);
    assert_eq!(lines(&f.lines)[4], "e19");
    c.handle_chat_key(Key::Up, true);
    let f = c.render(area(30, 10)).unwrap();
    assert_eq!(f.scrollbar.unwrap().2, 34);
    c.handle_chat_key(Key::Up, true);
    assert_eq!(c.viewport.scroll_offset, 33);
    let f = c.render(area(30, 10)).unwrap();
    assert_eq!(f.scrollbar.unwrap().2, 33);
    c.handle_chat_key(Key::Down, true);
    assert!(c.viewport.auto_scroll);
}

#[test]
fn the_answer_in_progress_is_drawn_below() {
    let mut c = talking();
    c.talk.messages.push(ChatMessage::text(ChatRole::User, "q".into()));
    c.talk.is_generating = true;
    c.talk.pending_blocks.push(ChatBlock::Text("part".into()));
    c.talk.pending_blocks.push(ChatBlock::ToolCall(ToolCallDisplay {
        name: "find".into(),
        input_summary: String::new(),
        output_summary: "x".into(),
        is_complete: false,
    }));
    c.talk.current_status = Some("Thinking...".into());
    let f = c.render(area(40, 8)).unwrap();
    let all = lines(&f.lines);
    assert_eq!(all[2], "");
    assert_eq!(all[3], "  part");
    assert_eq!(all[4], "  \u{25D0} find");
    assert_eq!(all[5], " \u{25D0} Thinking...");
    assert_eq!(c.viewport.content_texts_raw.last().unwrap(), "");
}

#[test]
fn wrapped_lines_are_built_as_they_are_given() {
    let mut r = Rendered::new();
    push_user_line(&mut r, &vec![]);
    push_user_line(&mut r, &vec!["a".to_string(), "b".to_string()]);
    push_styled_line(&mut r, &vec![], fg_italic(Color::Red), true);
    push_styled_line(&mut r, &vec![], fg_italic(Color::Red), false);
    push_styled_line(&mut r, &vec!["c".to_string()], fg_italic(Color::Red), false);
    assert_eq!(lines(&r.lines), vec!["  ", " \u{2502} a", " \u{2502} b", "", "c"]);
    assert_eq!(r.raw, vec!["", "a", "b", "", "c"]);
}

#[test]
fn the_home_screen_fills_the_area() {
    let mut c = ChatState::new(&None);
    c.entry.borderless = true;
    c.home.greeting_text = "Welcome back.".into();
    c.home.recordings.push(HomeRecording {
        recording_id: 7,
        name: "Standup".into(),
        duration_mins: 12,
        summary_line: Some("We met.".into()),
        directory_name: "d".into(),
        busy: false,
    });
    let f = c.render(area(80, 40)).unwrap();
    let all = lines(&f.lines);
    assert_eq!(all.len(), 40);
    assert!(all.iter().any(|l| l == "   \u{25CB}  Welcome back."));
    assert!(all.iter().any(|l| l == "      \u{2514}\u{2500}\u{2500} Standup (12m)"));
    assert!(all.iter().any(|l| l == "          We met."));
    assert_eq!(c.viewport.total_content_lines, 20);
    assert_eq!(c.viewport.content_top_pad, 6);
    // The menu of a recording.
    assert!(matches!(c.handle_chat_key(Key::Enter, true), ChatDo::Done));
    let f = c.render(area(80, 40)).unwrap();
    assert!(lines(&f.lines).iter().any(|l| l.ends_with("\u{25B8} View transcript")));
    assert!(matches!(c.handle_chat_key(Key::Enter, true), ChatDo::OpenTranscript(7)));
    c.handle_chat_key(Key::Enter, true);
    c.handle_chat_key(Key::Down, true);
    match c.handle_chat_key(Key::Enter, true) {
        ChatDo::Fresh(Some(o)) => {
            assert_eq!(o.user_message, "Summarize my Standup recording (recording id=7).")
        }
        _ => panic!("not sent"),
    }
}

#[test]
fn typed_text_fills_the_field_of_the_home_screen() {
    let mut c = ChatState::new(&None);
    c.entry.borderless = true;
    say(&mut c, "what is new");
    let f = c.render(area(80, 30)).unwrap();
    assert!(lines(&f.lines).iter().any(|l| l.starts_with("    what is new\u{2588}")));
}

#[test]
fn offers_are_drawn_and_sent() {
    let mut c = ChatState::new(&None);
    c.home.show_home_screen = false;
    c.entry.borderless = true;
    c.offers.suggestions = vec!["A?".into(), "B?".into()];
    let f = c.render(area(40, 10)).unwrap();
    let all = lines(&f.lines);
    assert!(all.contains(&"  \u{25B8} A?".to_string()));
    assert!(all.contains(&"    Ask Scriba anything...".to_string()));
    c.handle_transcript_chat_key(Key::Down);
    match c.handle_transcript_chat_key(Key::Enter) {
        ChatDo::Send(o) => assert_eq!(o.user_message, "B?"),
        _ => panic!("not sent"),
    }
    let mut c = ChatState::new(&None);
    c.offers.suggestions = vec!["A?".into()];
    c.offers.selected_suggestion = 1;
    assert!(matches!(c.handle_transcript_chat_key(Key::Enter), ChatDo::Done));
    assert!(!c.offers.show_suggestions && c.talk.messages.is_empty());
}

#[test]
fn esc_steps_back() {
    let mut c = talking();
    c.talk.messages.push(ChatMessage::text(ChatRole::User, "q".into()));
    say(&mut c, "x");
    assert!(matches!(c.handle_chat_key(Key::Esc, true), ChatDo::Done));
    assert_eq!(c.entry.input_buffer, "");
    assert!(matches!(c.handle_chat_key(Key::Esc, true), ChatDo::Home));
    assert!(c.talk.messages.is_empty() && c.home.show_home_screen);
    assert!(matches!(c.handle_chat_key(Key::Tab, true), ChatDo::Browse));
    c.entry.focus = ChatFocus::Table;
    assert!(matches!(c.handle_chat_key(Key::Up, true), ChatDo::Ignored));
}

#[test]
fn text_is_selected_with_the_mouse() {
    let mut c = talking();
    c.talk.messages.push(ChatMessage::text(ChatRole::User, "hello world".into()));
    c.talk.messages.push(ChatMessage::text(ChatRole::System, "second line".into()));
    c.render(area(40, 10)).unwrap();
    // Four content lines at the bottom of eight.
    assert_eq!(c.mouse_to_content_pos(5, 3), None);
    assert_eq!(c.mouse_to_content_pos(5, 4), Some((0, 5)));
    assert_eq!(c.handle_mouse_event(MouseKind::Down, 3, 4), None);
    assert_eq!(c.handle_mouse_event(MouseKind::Drag, 6, 6), None);
    assert_eq!(
        c.handle_mouse_event(MouseKind::Up, 6, 6),
        Some("hello world\n\nsecond".to_string())
    );
    let f = c.render(area(40, 10)).unwrap();
    let lit: usize = f.lines.lines[4]
        .spans
        .iter()
        .filter(|s| s.style.bg.is_some())
        .map(|s| s.text.chars().count())
        .sum();
    assert_eq!(lit, 11);
    assert_eq!(c.extract_selected_text((2, 6), (0, 3)), "hello world\n\nsecond");
    assert_eq!(c.extract_selected_text((9, 0), (10, 0)), "");
    // A click without a drag clears the selection.
    c.handle_mouse_event(MouseKind::Down, 3, 4);
    assert_eq!(c.handle_mouse_event(MouseKind::Up, 3, 4), None);
    assert_eq!(c.viewport.selection_anchor, None);
    assert_eq!(c.handle_mouse_event(MouseKind::Down, 60, 60), None);
    assert_eq!(c.viewport.selection_anchor, None);
}

#[test]
fn the_wheel_scrolls() {
    let mut c = talking();
    for i in 0..20 {
        c.talk.messages.push(ChatMessage::text(ChatRole::System, format!("e{}", i)));
    }
    c.render(area(30, 12)).unwrap();
    c.handle_mouse_event(MouseKind::ScrollUp, 3, 3);
    assert!(!c.viewport.auto_scroll);
    assert_eq!(c.viewport.scroll_offset, 37);
    c.handle_mouse_event(MouseKind::ScrollUp, 3, 3);
    assert_eq!(c.viewport.scroll_offset, 34);
    c.handle_mouse_event(MouseKind::ScrollDown, 3, 3);
    assert!(c.viewport.auto_scroll);
}

#[test]
fn the_context_bar_has_ten_cells() {
    let mut c = ChatState::new(&Some("100".into()));
    c.usage.input_tokens = 70;
    let l = c.usage_bar(7, 70);
    assert_eq!(
        l.text(),
        " ctx [\u{2588}\u{2588}\u{2588}\u{2588}\u{2588}\u{2588}\u{2588}\u{2591}\u{2591}\u{2591}] 70% "
    );
    assert_eq!(l.spans[1].style.fg, Some(Color::Yellow));
    assert!(matches!(c.talk.context, ChatContext::Global));
}
