use scriba::chat::{ChatContext, ChatFocus, ChatMessage, ChatRole, ChatState};
use scriba::entities::Entity;
use scriba::home::{
    owner_name, owner_or_user, suggest_for_recording, suggest_globally,
};
use scriba::recordings::Recording;

fn rec(name: &str, created: i64) -> Recording {
    Recording {
        id: Some(5),
        directory_name: name.to_string(),
        display_name: None,
        duration_seconds: Some(125),
        channels: 2,
        has_transcript: true,
        summary: Some(" We met! It went well.".into()),
        key_points: None,
        action_items: None,
        created_utc: created,
        created_local: created,
    }
}

fn entity(name: &str, kind: &str) -> Entity {
    Entity {
        id: Some(1),
        entity_type: kind.to_string(),
        canonical_name: name.to_string(),
        aliases: vec![],
        context: None,
        mention_count: 1,
    }
}

#[test]
fn the_owner_has_a_name() {
    assert_eq!(owner_name("Ada Lovelace", "ada"), "Ada Lovelace");
    assert_eq!(owner_name("", "ada"), "Ada");
    assert_eq!(owner_name("", "\u{DF}x"), "SSx");
    assert_eq!(owner_name("", ""), "");
    assert_eq!(owner_or_user(""), "User");
    assert_eq!(owner_or_user("Ada"), "Ada");
}

#[test]
fn the_greeting_counts_today() {
    let mut c = ChatState::new(&None);
    let day = 86_400;
    let mut short = rec("s", 9 * day + 5);
    short.duration_seconds = None;
    let v = vec![rec("a", 9 * day), rec("old", 8 * day), short];
    c.generate_greeting("  Ada Lovelace", &v, 9);
    assert_eq!(c.home.greeting_text, "Welcome back, Ada.");
    assert_eq!(c.home.greeting_subtitle, "You had 2 recordings today.");
    assert_eq!(c.home.recordings.len(), 2);
    assert_eq!(c.home.recordings[0].duration_mins, 2);
    assert_eq!(c.home.recordings[1].duration_mins, 1);
    assert_eq!(c.home.recordings[0].summary_line.as_deref(), Some("We met."));
    assert_eq!(c.entry.placeholder, "Ask anything...");
    c.generate_greeting("", &v, 8);
    assert_eq!(c.home.greeting_text, "Welcome back.");
    assert_eq!(c.home.greeting_subtitle, "You had 1 recording today.");
    c.generate_greeting("", &v, 1);
    assert_eq!(c.home.greeting_subtitle, "No recordings today yet.");
    let many: Vec<Recording> = (0..9).map(|i| rec("m", i)).collect();
    c.generate_greeting("", &many, 0);
    assert_eq!(c.home.recordings.len(), 5);
    assert_eq!(c.home.greeting_subtitle, "You had 9 recordings today.");
}

#[test]
fn questions_are_suggested() {
    assert_eq!(
        suggest_globally(&vec![], &vec![]),
        vec!["What have I been talking about recently?"]
    );
    let mut r = rec("a", 0);
    r.action_items = Some("[\"x\"]".into());
    let all = suggest_globally(&vec![entity("Acme", "organization"), entity("Ann", "person")], &vec![r]);
    assert_eq!(
        all,
        vec![
            "What have I been talking about recently?",
            "Summarize my conversations about Acme",
            "What action items do I have pending?",
            "Who have I been meeting with most?"
        ]
    );
    let mut r = rec("a", 0);
    r.action_items = Some("[]".into());
    r.key_points = Some("[\"k\"]".into());
    let v = suggest_for_recording(&Some(r), &Some(vec![("Ann".to_string(), "person".to_string())]));
    assert_eq!(
        v,
        vec![
            "Summarize the key takeaways",
            "Draft a follow-up email",
            "What other recordings mention Ann?"
        ]
    );
    assert_eq!(suggest_for_recording(&None, &None), vec!["Summarize the key takeaways"]);
}

#[test]
fn a_visit_keeps_the_conversation() {
    let mut c = ChatState::new(&None);
    c.init_global_chat("p".into(), vec!["q".into()]);
    assert!(c.home.show_home_screen);
    c.talk.messages.push(ChatMessage::text(ChatRole::User, "hello".into()));
    c.entry.input_buffer.push('x');
    let aside = c.init_recording_chat(&rec("dir", 0), "r".into(), vec![]);
    assert_eq!(aside.len(), 1);
    assert!(c.talk.messages.is_empty() && c.entry.input_buffer.is_empty());
    assert_eq!(
        c.talk.context,
        ChatContext::Recording { recording_id: 5, recording_name: "dir".into() }
    );
    assert!(!c.home.show_home_screen && c.offers.show_suggestions);
    c.restore_global_chat(aside, vec![], false);
    assert_eq!(c.talk.messages[0].content(), "hello");
    assert_eq!(c.talk.context, ChatContext::Global);
    assert_eq!(c.entry.focus, ChatFocus::Table);
    assert!(!c.home.show_home_screen);
}
