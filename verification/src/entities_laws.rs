//! What the entities screen is for: what becomes of an entity that is added,
//! edited, deleted or merged, from the first key to the last.
use vstd::prelude::*;

use crate::entities::{EntitiesView, EntityActionView, EntityEditField, EntityMode, EntityView};
use crate::entities_view::{delete_page, is_merge_source, merge_page, table_of};
use crate::keys::Key;
use crate::style::line_text;
use crate::text::trimmed;

verus! {

/// The screen after some keys that leave nothing to the caller.
pub open spec fn after_keys(v: EntitiesView, keys: Seq<Key>) -> EntitiesView
    decreases keys.len(),
{
    if keys.len() == 0 {
        v
    } else {
        after_keys(v, keys.drop_last()).pressing(keys.last()).0
    }
}

/// The screen after a text was typed.
pub open spec fn after_typing(v: EntitiesView, s: Seq<char>) -> EntitiesView
    decreases s.len(),
{
    if s.len() == 0 {
        v
    } else {
        after_typing(v, s.drop_last()).pressing(Key::Char(s.last())).0
    }
}

/// All keys move the cursor.
pub open spec fn moves(keys: Seq<Key>) -> bool {
    forall|i: int| 0 <= i < keys.len() ==> #[trigger] keys[i] == Key::Up || keys[i] == Key::Down
}

// ─── Moving ──────────────────────────────────────────────────────────────────

/// Down goes to the entity below and Up to the one above; the ends are next to
/// each other.
pub proof fn arrows_go_to_the_neighbours(v: EntitiesView, i: usize)
    requires
        v.mode == EntityMode::Browse && !v.show_detail || v.mode == EntityMode::MergeSelectTarget,
        v.selected == Some(i),
        i < v.entities.len() <= usize::MAX,
    ensures
        i + 1 < v.entities.len() ==> v.pressing(Key::Down).0.current() == Some(
            v.entities[i + 1],
        ),
        i + 1 == v.entities.len() ==> v.pressing(Key::Down).0.current() == Some(v.entities[0]),
        i > 0 ==> v.pressing(Key::Up).0.current() == Some(v.entities[i - 1]),
        i == 0 ==> v.pressing(Key::Up).0.current() == Some(v.entities.last()),
        v.pressing(Key::Down).1 is None,
        v.pressing(Key::Up).1 is None,
{
}

/// Enter shows the entity under the cursor, and Esc goes back to the table.
pub proof fn enter_shows_the_entity(v: EntitiesView)
    requires
        v.mode == EntityMode::Browse,
        !v.show_detail,
        v.current() is Some,
    ensures
        v.pressing(Key::Enter).0.show_detail,
        v.pressing(Key::Enter).0.selected_entity == v.current(),
        v.pressing(Key::Enter).1 is None,
        !v.pressing(Key::Enter).0.pressing(Key::Esc).0.show_detail,
        v.pressing(Key::Enter).0.pressing(Key::Esc).0.current() == v.current(),
        v.pressing(Key::Enter).0.pressing(Key::Esc).1 is None,
{
}

/// In the table no key has anything stored changed: Esc leaves the screen, `r`
/// reads anew, and nothing else is left to the caller.
pub proof fn browsing_stores_nothing(v: EntitiesView, key: Key)
    requires
        v.mode == EntityMode::Browse,
    ensures
        v.pressing(key).1 is None || v.pressing(key).1 == Some(EntityActionView::Leave)
            || v.pressing(key).1 == Some(EntityActionView::Reload),
        v.pressing(key).0.entities == v.entities,
        !v.show_detail ==> v.pressing(Key::Esc).1 == Some(EntityActionView::Leave),
        !v.show_detail ==> v.pressing(Key::Char('r')).1 == Some(EntityActionView::Reload),
{
}

// ─── Merging ─────────────────────────────────────────────────────────────────

proof fn moves_keep_the_merge(v: EntitiesView, keys: Seq<Key>)
    requires
        v.mode == EntityMode::MergeSelectTarget,
        moves(keys),
    ensures
        after_keys(v, keys).mode == EntityMode::MergeSelectTarget,
        after_keys(v, keys).merge_source == v.merge_source,
        after_keys(v, keys).entities == v.entities,
    decreases keys.len(),
{
    if keys.len() > 0 {
        assert(moves(keys.drop_last()));
        moves_keep_the_merge(v, keys.drop_last());
        assert(keys[keys.len() - 1] == Key::Up || keys[keys.len() - 1] == Key::Down);
    }
}

/// A merge goes from the entity on which it was begun into the one that was
/// chosen afterwards: `m` on the first, any way with the arrows to the second,
/// Enter, Up to "Yes", Enter. Without the Up nothing is merged. The question
/// names the two in this order.
pub proof fn a_merge_goes_from_the_first_to_the_second(
    v: EntitiesView,
    keys: Seq<Key>,
    source: i64,
    target: i64,
)
    requires
        v.mode == EntityMode::Browse,
        !v.show_detail,
        v.current() matches Some(e) && e.id == Some(source),
        moves(keys),
        after_keys(v.pressing(Key::Char('m')).0, keys).current() matches Some(e) && e.id == Some(
            target,
        ),
        source != target,
    ensures
        ({
            let begun = v.pressing(Key::Char('m')).0;
            let there = after_keys(begun, keys);
            let asked = there.pressing(Key::Enter).0;
            let from = v.current()->0;
            let into = there.current()->0;
            &&& asked.pressing(Key::Up).0.pressing(Key::Enter).1 == Some(
                EntityActionView::Merge { source, target },
            )
            &&& asked.pressing(Key::Down).0.pressing(Key::Enter).1 is None
            &&& asked.pressing(Key::Enter).1 is None
            &&& asked.pressing(Key::Esc).1 is None
            &&& line_text(merge_page(asked)[0]) == "Merge "@ + from.canonical_name + " into "@
                + into.canonical_name + "?"@
        }),
{
    let begun = v.pressing(Key::Char('m')).0;
    let there = after_keys(begun, keys);
    let asked = there.pressing(Key::Enter).0;
    moves_keep_the_merge(begun, keys);
    let l = merge_page(asked)[0];
    reveal_with_fuel(line_text, 6);
    assert(l.drop_last().drop_last().drop_last().drop_last().drop_last() =~= Seq::empty());
    assert(line_text(l) =~= "Merge "@ + v.current()->0.canonical_name + " into "@
        + there.current()->0.canonical_name + "?"@);
}

/// Nothing is merged but what the question asks for, and only by Enter on
/// "Yes".
pub proof fn merges_are_confirmed(v: EntitiesView, key: Key, source: i64, target: i64)
    requires
        v.pressing(key).1 == Some(EntityActionView::Merge { source, target }),
    ensures
        v.mode == EntityMode::MergeConfirm,
        key == Key::Enter,
        v.confirm_selection == 0,
        v.merge_source matches Some(e) && e.id == Some(source),
        v.selected_entity matches Some(e) && e.id == Some(target),
{
}

/// While the target is chosen the table marks the entity on which the merge
/// was begun, and Esc gives the merge up.
pub proof fn the_source_of_a_merge_is_marked(v: EntitiesView)
    requires
        v.mode == EntityMode::Browse,
        !v.show_detail,
        v.current() is Some,
    ensures
        is_merge_source(v.pressing(Key::Char('m')).0, v.current()->0),
        v.pressing(Key::Char('m')).0.pressing(Key::Esc).0.merge_source is None,
        v.pressing(Key::Char('m')).0.pressing(Key::Esc).0.mode == EntityMode::Browse,
        v.pressing(Key::Char('m')).0.pressing(Key::Esc).1 is None,
{
}

// ─── Deleting ────────────────────────────────────────────────────────────────

/// What is deleted is the entity under the cursor, once "Yes" was chosen; the
/// question names it.
pub proof fn a_deletion_takes_the_entity_under_the_cursor(v: EntitiesView, id: i64)
    requires
        v.mode == EntityMode::Browse,
        !v.show_detail,
        v.current() matches Some(e) && e.id == Some(id),
    ensures
        ({
            let asked = v.pressing(Key::Char('d')).0;
            &&& asked == v.pressing(Key::Delete).0
            &&& asked.pressing(Key::Up).0.pressing(Key::Enter).1 == Some(
                EntityActionView::Delete { id },
            )
            &&& asked.pressing(Key::Enter).1 is None
            &&& asked.pressing(Key::Up).0.pressing(Key::Down).0.pressing(Key::Enter).1 is None
            &&& asked.pressing(Key::Up).0.pressing(Key::Esc).1 is None
            &&& line_text(delete_page(asked)[0]) == "Delete entity: "@
                + v.current()->0.canonical_name + "?"@
        }),
{
    let asked = v.pressing(Key::Char('d')).0;
    let l = delete_page(asked)[0];
    reveal_with_fuel(line_text, 4);
    assert(l.drop_last().drop_last().drop_last() =~= Seq::empty());
    assert(line_text(l) =~= "Delete entity: "@ + v.current()->0.canonical_name + "?"@);
}

/// Nothing is deleted but by Enter on "Yes", and then the entity that was
/// asked for.
pub proof fn deletions_are_confirmed(v: EntitiesView, key: Key, id: i64)
    requires
        v.pressing(key).1 == Some(EntityActionView::Delete { id }),
    ensures
        v.mode == EntityMode::DeleteConfirm,
        key == Key::Enter,
        v.confirm_selection == 0,
        v.selected_entity matches Some(e) && e.id == Some(id),
{
}

// ─── Adding ──────────────────────────────────────────────────────────────────

proof fn typing_a_name(v: EntitiesView, s: Seq<char>)
    requires
        v.mode == EntityMode::Adding,
        v.add_field == EntityEditField::Name,
    ensures
        after_typing(v, s) == (EntitiesView { add_name: v.add_name + s, ..v }),
    decreases s.len(),
{
    if s.len() > 0 {
        typing_a_name(v, s.drop_last());
        assert((v.add_name + s.drop_last()).push(s.last()) =~= v.add_name + s);
    } else {
        assert(v.add_name + s =~= v.add_name);
    }
}

proof fn typing_a_context(v: EntitiesView, s: Seq<char>)
    requires
        v.mode == EntityMode::Adding,
        v.add_field == EntityEditField::Context,
    ensures
        after_typing(v, s) == (EntitiesView { add_context: v.add_context + s, ..v }),
    decreases s.len(),
{
    if s.len() > 0 {
        typing_a_context(v, s.drop_last());
        assert((v.add_context + s.drop_last()).push(s.last()) =~= v.add_context + s);
    } else {
        assert(v.add_context + s =~= v.add_context);
    }
}

/// A new entity has the name and the context that were typed, without the
/// white space round them, and is a person unless another type was chosen. A
/// name of white space stores nothing.
pub proof fn what_was_typed_is_added(v: EntitiesView, name: Seq<char>, context: Seq<char>)
    requires
        v.mode == EntityMode::Browse,
        !v.show_detail,
    ensures
        ({
            let named = after_typing(v.pressing(Key::Char('a')).0, name);
            let at_context = named.pressing(Key::Tab).0.pressing(Key::Tab).0;
            let told = after_typing(at_context, context);
            &&& trimmed(name).len() > 0 ==> (told.pressing(Key::Enter).1 matches Some(
                EntityActionView::Create { entity_type, name: n, context: c, aliases },
            ) && n == trimmed(name) && entity_type == trimmed("person"@) && (trimmed(context).len()
                > 0 ==> c == Some(trimmed(context))) && (trimmed(context).len() == 0 ==> c is None))
            &&& trimmed(name).len() > 0 ==> (named.pressing(Key::Enter).1 matches Some(
                EntityActionView::Create { name: n, .. },
            ) && n == trimmed(name))
            &&& trimmed(name).len() == 0 ==> told.pressing(Key::Enter).1 is None
                && named.pressing(Key::Enter).1 is None
        }),
{
    let blank = v.pressing(Key::Char('a')).0;
    typing_a_name(blank, name);
    assert(Seq::<char>::empty() + name =~= name);
    let named = after_typing(blank, name);
    let at_context = named.pressing(Key::Tab).0.pressing(Key::Tab).0;
    typing_a_context(at_context, context);
    assert(Seq::<char>::empty() + context =~= context);
}

/// In the field of the type a blank or Enter goes on to the next type: person,
/// organization, project, other. No other character does anything there.
pub proof fn types_are_chosen_one_by_one(v: EntitiesView, c: char)
    requires
        v.mode == EntityMode::Adding,
        v.add_field == EntityEditField::Type,
    ensures
        v.add_type == "person"@ ==> v.pressing(Key::Char(' ')).0.add_type == "organization"@,
        v.add_type == "organization"@ ==> v.pressing(Key::Char(' ')).0.add_type == "project"@,
        v.add_type == "project"@ ==> v.pressing(Key::Char(' ')).0.add_type == "other"@,
        v.add_type == "other"@ ==> v.pressing(Key::Char(' ')).0.add_type == "person"@,
        v.pressing(Key::Enter) == v.pressing(Key::Char(' ')),
        c != ' ' ==> v.pressing(Key::Char(c)).0 == v,
{
    reveal_strlit("person");
    reveal_strlit("organization");
    reveal_strlit("project");
    reveal_strlit("other");
    assert("person"@.len() == 6 && "organization"@.len() == 12 && "project"@.len() == 7
        && "other"@.len() == 5);
}

/// Once it is stored the cursor stands on the new entity: on the first that
/// has the name.
pub proof fn the_cursor_goes_to_the_new_entity(v: EntitiesView, list: Seq<EntityView>, i: int)
    requires
        0 <= i < list.len() <= usize::MAX,
        list[i].canonical_name == trimmed(v.add_name),
    ensures
        v.created(list).current() matches Some(e) && e.canonical_name == trimmed(v.add_name),
        v.created(list).entities == list,
        v.created(list).mode == EntityMode::Browse,
{
    found_by_name(list, trimmed(v.add_name), 0, i);
}

proof fn found_by_name(list: Seq<EntityView>, name: Seq<char>, from: int, i: int)
    requires
        0 <= from <= i < list.len(),
        list[i].canonical_name == name,
    ensures
        crate::entities::name_position(list, name, from) matches Some(k) && from <= k <= i
            && list[k].canonical_name == name,
    decreases i - from,
{
    if list[from].canonical_name != name {
        found_by_name(list, name, from + 1, i);
    }
}

// ─── Editing ─────────────────────────────────────────────────────────────────

/// An entity once a change was written: what is given is replaced.
pub open spec fn rewritten(
    e: EntityView,
    name: Option<Seq<char>>,
    entity_type: Option<Seq<char>>,
    context: Option<Seq<char>>,
) -> EntityView {
    EntityView {
        canonical_name: match name {
            Some(n) => n,
            None => e.canonical_name,
        },
        entity_type: match entity_type {
            Some(t) => t,
            None => e.entity_type,
        },
        context: match context {
            Some(c) => Some(c),
            None => e.context,
        },
        ..e
    }
}

/// What is written makes the entity what the form shows, and nothing is
/// written that is as it was. An empty name is not written.
pub proof fn the_form_is_what_is_stored(v: EntitiesView, e: EntityView, id: i64)
    requires
        v.mode == EntityMode::Editing,
        v.edit_field == EntityEditField::Context,
        v.selected_entity == Some(e),
        e.id == Some(id),
    ensures
        v.pressing(Key::Enter).1 matches Some(
            EntityActionView::Update { id: n, name, entity_type, context },
        ) && {
            let after = rewritten(e, name, entity_type, context);
            &&& n == id
            &&& v.edit_name.len() > 0 ==> after.canonical_name == v.edit_name
            &&& v.edit_name.len() == 0 ==> after.canonical_name == e.canonical_name
            &&& after.entity_type == v.edit_type
            &&& v.edit_context.len() > 0 || e.context is Some ==> after.context == Some(
                v.edit_context,
            )
            &&& v.edit_context.len() == 0 && e.context is None ==> after.context is None
            &&& v.edit_name == e.canonical_name ==> name is None
            &&& v.edit_type == e.entity_type ==> entity_type is None
            &&& (e.context matches Some(c) && c == v.edit_context) ==> context is None
        },
{
    if v.edit_context.len() == 0 {
        assert(v.edit_context =~= Seq::<char>::empty());
    }
}

/// The form begins with what is known of the entity under the cursor.
pub proof fn the_form_begins_with_the_entity(v: EntitiesView)
    requires
        v.mode == EntityMode::Browse,
        !v.show_detail,
        v.current() is Some,
    ensures
        ({
            let e = v.current()->0;
            let form = v.pressing(Key::Char('e')).0;
            &&& form.mode == EntityMode::Editing
            &&& form.selected_entity == Some(e)
            &&& form.edit_name == e.canonical_name
            &&& form.edit_type == e.entity_type
            &&& e.context matches Some(c) ==> form.edit_context == c
            &&& e.context is None ==> form.edit_context.len() == 0
            &&& form.edit_field == EntityEditField::Name
        }),
{
}

/// A character goes to the end of the field that has the cursor, and Backspace
/// takes it away again; the other fields stay.
pub proof fn typing_edits_one_field(v: EntitiesView, c: char)
    requires
        v.mode == EntityMode::Editing,
    ensures
        ({
            let next = v.pressing(Key::Char(c)).0;
            &&& v.edit_field == EntityEditField::Name ==> next == (EntitiesView {
                edit_name: v.edit_name.push(c),
                ..v
            })
            &&& v.edit_field == EntityEditField::Context ==> next == (EntitiesView {
                edit_context: v.edit_context.push(c),
                ..v
            })
            &&& v.edit_field != EntityEditField::Type ==> next.pressing(Key::Backspace).0 == v
            &&& v.pressing(Key::Char(c)).1 is None
        }),
{
    assert(v.edit_name.push(c).drop_last() =~= v.edit_name);
    assert(v.edit_context.push(c).drop_last() =~= v.edit_context);
}

/// Tab goes through the fields in the order in which they stand, Shift+Tab the
/// other way.
pub proof fn tab_goes_through_the_fields(v: EntitiesView)
    ensures
        v.mode == EntityMode::Editing ==> {
            &&& v.pressing(Key::Tab).0.pressing(Key::BackTab).0 == v
            &&& v.edit_field == EntityEditField::Name ==> v.pressing(Key::Tab).0.edit_field
                == EntityEditField::Type
            &&& v.edit_field == EntityEditField::Type ==> v.pressing(Key::Tab).0.edit_field
                == EntityEditField::Context
            &&& v.edit_field == EntityEditField::Context ==> v.pressing(Key::Tab).0.edit_field
                == EntityEditField::Name
        },
        v.mode == EntityMode::Adding ==> {
            &&& v.pressing(Key::Tab).0.pressing(Key::BackTab).0 == v
            &&& v.add_field == EntityEditField::Name ==> v.pressing(Key::Tab).0.add_field
                == EntityEditField::Type
            &&& v.add_field == EntityEditField::Type ==> v.pressing(Key::Tab).0.add_field
                == EntityEditField::Context
            &&& v.add_field == EntityEditField::Context ==> v.pressing(Key::Tab).0.add_field
                == EntityEditField::Name
        },
{
}

// ─── The table ───────────────────────────────────────────────────────────────

/// The table has a row for every entity, in order, and each row holds its ID,
/// its type, its name and how often it is mentioned.
pub proof fn the_table_shows_every_entity(v: EntitiesView, i: int)
    requires
        0 <= i < v.entities.len(),
    ensures
        table_of(v).len() == v.entities.len(),
        table_of(v)[i].len() == 6,
        table_of(v)[i][1].text == v.entities[i].entity_type,
        table_of(v)[i][2].text == v.entities[i].canonical_name,
        v.entities[i].id matches Some(id) ==> table_of(v)[i][0].text
            == crate::text::signed_decimal(id as int),
        table_of(v)[i][5].text == crate::text::signed_decimal(v.entities[i].mention_count as int),
        v.entities[i].context matches Some(c) ==> (c.len() <= 30 ==> table_of(v)[i][4].text == c),
{
}

} // verus!
