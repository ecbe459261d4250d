use scriba::entities::{cycled_type, Entities, Entity, EntityAction, EntityMode};
use scriba::entities_view::{count_type, dots, render_entity_detail, render_table_row};
use scriba::keys::Key;

fn entity(id: i64, name: &str, kind: &str) -> Entity {
    Entity {
        id: Some(id),
        entity_type: kind.to_string(),
        canonical_name: name.to_string(),
        aliases: vec!["alias".into()],
        context: Some("ctx".into()),
        mention_count: 3,
    }
}

fn loaded() -> Entities {
    let mut e = Entities::new();
    e.load_entities(vec![entity(1, "Ann", "person"), entity(2, "Acme", "organization")]);
    e
}

#[test]
fn deleting_is_confirmed() {
    let mut e = loaded();
    assert_eq!(e.selected, Some(0));
    e.handle_entities_keys(Key::Char('d'));
    assert_eq!(e.mode, EntityMode::DeleteConfirm);
    assert!(e.handle_entities_keys(Key::Enter).is_none());
    e.handle_entities_keys(Key::Char('d'));
    e.handle_entities_keys(Key::Up);
    assert!(matches!(
        e.handle_entities_keys(Key::Enter),
        Some(EntityAction::Delete { id: 1 })
    ));
    e.entity_deleted(vec![entity(2, "Acme", "organization")]);
    assert_eq!(e.selected, Some(0));
}

#[test]
fn an_untouched_editor_changes_nothing() {
    let mut e = loaded();
    e.start_entity_edit();
    assert!(matches!(
        e.save_entity_edit(),
        Some(EntityAction::Update { id: 1, name: None, entity_type: None, context: None })
    ));
}

#[test]
fn the_cursor_moves_and_esc_leaves() {
    let mut e = loaded();
    e.entity_navigate_down();
    assert_eq!(e.selected, Some(1));
    e.entity_navigate_up();
    assert_eq!(e.selected, Some(0));
    assert!(matches!(e.handle_entities_keys(Key::Esc), Some(EntityAction::Leave)));
}

#[test]
fn types_cycle() {
    let mut seen = vec!["person".to_string()];
    loop {
        let next = cycled_type(seen.last().unwrap());
        if next == "person" {
            break;
        }
        seen.push(next);
        assert!(seen.len() < 20);
    }
    assert!(seen.contains(&"organization".to_string()));
}

#[test]
fn entities_are_drawn() {
    let e = loaded();
    assert!(render_table_row(&e.entities[0], false).text().contains("Ann"));
    assert!(render_entity_detail(&e.entities[0]).lines.len() > 3);
    assert_eq!(count_type(&e.entities, "person"), 1);
    assert_eq!(dots("abcdef", 5), "ab...");
    assert_eq!(dots("abc", 5), "abc");
    assert_eq!(e.render_table().lines.len(), 2);
    assert!(e.render_footer(100, "1.0").text().contains("v1.0"));
}
