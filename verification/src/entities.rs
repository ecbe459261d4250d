//! The people, organizations and projects that Scriba knows: browsing, editing,
//! adding, deleting and merging them.
use vstd::prelude::*;

use crate::keys::{is_down, is_up, Key};
use crate::text::{
    copy_option, copy_texts, list_entries, nonempty, option_text, parse_list, same, texts, trim,
    trimmed, without_last,
};

verus! {

#[derive(Clone, Copy, Debug, PartialEq, Eq, Structural)]
pub enum EntityMode {
    Browse,
    Editing,
    Adding,
    DeleteConfirm,
    MergeSelectTarget,
    MergeConfirm,
}

#[derive(Clone, Copy, Debug, PartialEq, Eq, Structural)]
pub enum EntityEditField {
    Name,
    Type,
    Context,
}

/// Something that recordings mention.
#[derive(Debug)]
pub struct Entity {
    pub id: Option<i64>,
    pub entity_type: String,
    pub canonical_name: String,
    pub aliases: Vec<String>,
    pub context: Option<String>,
    pub mention_count: i64,
}

pub struct EntityView {
    pub id: Option<i64>,
    pub entity_type: Seq<char>,
    pub canonical_name: Seq<char>,
    pub aliases: Seq<Seq<char>>,
    pub context: Option<Seq<char>>,
    pub mention_count: i64,
}

impl View for Entity {
    type V = EntityView;

    open spec fn view(&self) -> EntityView {
        EntityView {
            id: self.id,
            entity_type: self.entity_type@,
            canonical_name: self.canonical_name@,
            aliases: texts(self.aliases@),
            context: option_text(self.context),
            mention_count: self.mention_count,
        }
    }
}

impl Entity {
    pub fn copy(&self) -> (r: Entity)
        ensures
            r@ == self@,
    {
        Entity {
            id: self.id,
            entity_type: self.entity_type.clone(),
            canonical_name: self.canonical_name.clone(),
            aliases: copy_texts(&self.aliases),
            context: copy_option(&self.context),
            mention_count: self.mention_count,
        }
    }
}

pub open spec fn entity_views(v: Seq<Entity>) -> Seq<EntityView> {
    Seq::new(v.len(), |i: int| v[i]@)
}

pub open spec fn optional(e: Option<Entity>) -> Option<EntityView> {
    match e {
        Some(e) => Some(e@),
        None => None,
    }
}

/// Work that a key press leaves to the caller. The change is not done before
/// the caller reports the entities that there are then.
#[derive(Debug)]
#[allow(inconsistent_fields)]
pub enum EntityAction {
    /// Go back to the main screen.
    Leave,
    /// Read the entities anew.
    Reload,
    /// Change what is given, leave the rest.
    Update {
        id: i64,
        name: Option<String>,
        entity_type: Option<String>,
        context: Option<String>,
    },
    Delete { id: i64 },
    Merge { source: i64, target: i64 },
    Create { entity_type: String, name: String, context: Option<String>, aliases: Vec<String> },
}

#[allow(inconsistent_fields)]
pub enum EntityActionView {
    Leave,
    Reload,
    Update {
        id: i64,
        name: Option<Seq<char>>,
        entity_type: Option<Seq<char>>,
        context: Option<Seq<char>>,
    },
    Delete { id: i64 },
    Merge { source: i64, target: i64 },
    Create {
        entity_type: Seq<char>,
        name: Seq<char>,
        context: Option<Seq<char>>,
        aliases: Seq<Seq<char>>,
    },
}

impl View for EntityAction {
    type V = EntityActionView;

    open spec fn view(&self) -> EntityActionView {
        match *self {
            EntityAction::Leave => EntityActionView::Leave,
            EntityAction::Reload => EntityActionView::Reload,
            EntityAction::Update { id, name, entity_type, context } => EntityActionView::Update {
                id,
                name: option_text(name),
                entity_type: option_text(entity_type),
                context: option_text(context),
            },
            EntityAction::Delete { id } => EntityActionView::Delete { id },
            EntityAction::Merge { source, target } => EntityActionView::Merge { source, target },
            EntityAction::Create { entity_type, name, context, aliases } =>
            EntityActionView::Create {
                entity_type: entity_type@,
                name: name@,
                context: option_text(context),
                aliases: texts(aliases@),
            },
        }
    }
}

pub open spec fn action_view(a: Option<EntityAction>) -> Option<EntityActionView> {
    match a {
        Some(a) => Some(a@),
        None => None,
    }
}

/// The state of the entities screen.
#[derive(Debug)]
pub struct Entities {
    pub entities: Vec<Entity>,
    /// The highlighted line of the table.
    pub selected: Option<usize>,
    pub show_detail: bool,
    /// The entity that is shown, edited, deleted or merged into.
    pub selected_entity: Option<Entity>,
    pub merge_source: Option<Entity>,
    pub mode: EntityMode,
    pub edit_field: EntityEditField,
    pub edit_name: String,
    pub edit_type: String,
    pub edit_context: String,
    pub add_field: EntityEditField,
    pub add_name: String,
    pub add_type: String,
    pub add_context: String,
    pub add_aliases: String,
    /// 0 confirms, 1 declines.
    pub confirm_selection: usize,
}

pub struct EntitiesView {
    pub entities: Seq<EntityView>,
    pub selected: Option<usize>,
    pub show_detail: bool,
    pub selected_entity: Option<EntityView>,
    pub merge_source: Option<EntityView>,
    pub mode: EntityMode,
    pub edit_field: EntityEditField,
    pub edit_name: Seq<char>,
    pub edit_type: Seq<char>,
    pub edit_context: Seq<char>,
    pub add_field: EntityEditField,
    pub add_name: Seq<char>,
    pub add_type: Seq<char>,
    pub add_context: Seq<char>,
    pub add_aliases: Seq<char>,
    pub confirm_selection: usize,
}

impl View for Entities {
    type V = EntitiesView;

    open spec fn view(&self) -> EntitiesView {
        EntitiesView {
            entities: entity_views(self.entities@),
            selected: self.selected,
            show_detail: self.show_detail,
            selected_entity: optional(self.selected_entity),
            merge_source: optional(self.merge_source),
            mode: self.mode,
            edit_field: self.edit_field,
            edit_name: self.edit_name@,
            edit_type: self.edit_type@,
            edit_context: self.edit_context@,
            add_field: self.add_field,
            add_name: self.add_name@,
            add_type: self.add_type@,
            add_context: self.add_context@,
            add_aliases: self.add_aliases@,
            confirm_selection: self.confirm_selection,
        }
    }
}

/// The field below, the first one after the last.
#[verifier::allow_in_spec]
pub fn next_field(f: EntityEditField) -> EntityEditField
    returns
        (match f {
            EntityEditField::Name => EntityEditField::Type,
            EntityEditField::Type => EntityEditField::Context,
            EntityEditField::Context => EntityEditField::Name,
        }),
{
    match f {
        EntityEditField::Name => EntityEditField::Type,
        EntityEditField::Type => EntityEditField::Context,
        EntityEditField::Context => EntityEditField::Name,
    }
}

/// The field above, the last one before the first.
#[verifier::allow_in_spec]
pub fn previous_field(f: EntityEditField) -> EntityEditField
    returns
        (match f {
            EntityEditField::Name => EntityEditField::Context,
            EntityEditField::Type => EntityEditField::Name,
            EntityEditField::Context => EntityEditField::Type,
        }),
{
    match f {
        EntityEditField::Name => EntityEditField::Context,
        EntityEditField::Type => EntityEditField::Name,
        EntityEditField::Context => EntityEditField::Type,
    }
}

/// The type that follows `t` in the cycle person, organization, project, other.
pub open spec fn type_after(t: Seq<char>) -> Seq<char> {
    if t == "organization"@ {
        "project"@
    } else if t == "project"@ {
        "other"@
    } else if t == "other"@ {
        "person"@
    } else {
        "organization"@
    }
}

/// The type that follows `t` in the cycle.
pub fn cycled_type(t: &str) -> (r: String)
    ensures
        r@ == type_after(t@),
{
    if same(t, "organization") {
        "project".to_owned()
    } else if same(t, "project") {
        "other".to_owned()
    } else if same(t, "other") {
        "person".to_owned()
    } else {
        "organization".to_owned()
    }
}

/// `Some(new)` where it differs from `old`.
pub open spec fn changed(new: Seq<char>, old: Seq<char>) -> Option<Seq<char>> {
    if new == old {
        None
    } else {
        Some(new)
    }
}

pub open spec fn or_empty(s: Option<Seq<char>>) -> Seq<char> {
    match s {
        Some(t) => t,
        None => Seq::empty(),
    }
}

/// The screen without an entity.
pub open spec fn fresh_entities() -> EntitiesView {
    EntitiesView {
        entities: Seq::empty(),
        selected: None,
        show_detail: false,
        selected_entity: None,
        merge_source: None,
        mode: EntityMode::Browse,
        edit_field: EntityEditField::Name,
        edit_name: Seq::empty(),
        edit_type: Seq::empty(),
        edit_context: Seq::empty(),
        add_field: EntityEditField::Name,
        add_name: Seq::empty(),
        add_type: "person"@,
        add_context: Seq::empty(),
        add_aliases: Seq::empty(),
        confirm_selection: 1,
    }
}

impl EntitiesView {
    /// The entity under the cursor.
    pub open spec fn current(self) -> Option<EntityView> {
        match self.selected {
            Some(i) => if i < self.entities.len() {
                Some(self.entities[i as int])
            } else {
                None
            },
            None => None,
        }
    }

    /// The cursor one up, from the first entity to the last.
    pub open spec fn up(self) -> EntitiesView {
        let i = match self.selected {
            Some(i) => if i == 0 {
                crate::text::monus(self.entities.len() as int, 1) as int
            } else {
                i - 1
            },
            None => 0,
        };
        EntitiesView { selected: Some(i as usize), ..self }
    }

    /// The cursor one down, from the last entity to the first.
    pub open spec fn down(self) -> EntitiesView {
        let i = match self.selected {
            Some(i) => if i >= crate::text::monus(self.entities.len() as int, 1) {
                0
            } else {
                i + 1
            },
            None => 0,
        };
        EntitiesView { selected: Some(i as usize), ..self }
    }

    /// Fresh entities; the cursor is put on the first one if it was nowhere.
    pub open spec fn loaded(self, list: Seq<EntityView>) -> EntitiesView {
        EntitiesView {
            entities: list,
            selected: if list.len() > 0 && self.selected is None {
                Some(0)
            } else {
                self.selected
            },
            ..self
        }
    }

    /// Editing begins with the fields of the entity under the cursor.
    pub open spec fn editing(self) -> EntitiesView {
        match self.current() {
            Some(e) => EntitiesView {
                selected_entity: Some(e),
                edit_name: e.canonical_name,
                edit_type: e.entity_type,
                edit_context: or_empty(e.context),
                edit_field: EntityEditField::Name,
                mode: EntityMode::Editing,
                ..self
            },
            None => self,
        }
    }

    /// Adding begins with empty fields.
    pub open spec fn adding(self) -> EntitiesView {
        EntitiesView {
            add_name: Seq::empty(),
            add_type: "person"@,
            add_context: Seq::empty(),
            add_aliases: Seq::empty(),
            add_field: EntityEditField::Name,
            mode: EntityMode::Adding,
            ..self
        }
    }

    /// A key press while browsing.
    pub open spec fn browse_key(self, key: Key) -> (EntitiesView, Option<EntityActionView>) {
        if self.show_detail {
            if key == Key::Esc {
                (EntitiesView { show_detail: false, selected_entity: None, ..self }, None)
            } else {
                (self, None)
            }
        } else {
            match key {
                Key::Esc | Key::Char('q') => (
                    EntitiesView { show_detail: false, selected_entity: None, ..self },
                    Some(EntityActionView::Leave),
                ),
                Key::Up => (self.up(), None),
                Key::Down => (self.down(), None),
                Key::Enter => match self.current() {
                    Some(e) => (
                        EntitiesView { selected_entity: Some(e), show_detail: true, ..self },
                        None,
                    ),
                    None => (self, None),
                },
                Key::Char('e') | Key::Char('E') => (self.editing(), None),
                Key::Char('d') | Key::Char('D') | Key::Delete => match self.current() {
                    Some(e) => (
                        EntitiesView {
                            selected_entity: Some(e),
                            confirm_selection: 1,
                            mode: EntityMode::DeleteConfirm,
                            ..self
                        },
                        None,
                    ),
                    None => (self, None),
                },
                Key::Char('m') | Key::Char('M') => match self.current() {
                    Some(e) => (
                        EntitiesView {
                            merge_source: Some(e),
                            mode: EntityMode::MergeSelectTarget,
                            ..self
                        },
                        None,
                    ),
                    None => (self, None),
                },
                Key::Char('a') | Key::Char('A') => (self.adding(), None),
                Key::Char('r') | Key::Char('R') => (self, Some(EntityActionView::Reload)),
                _ => (self, None),
            }
        }
    }

    /// A key press in the form for a new entity.
    pub open spec fn adding_key(self, key: Key) -> (EntitiesView, Option<EntityActionView>) {
        match key {
            Key::Esc => (EntitiesView { mode: EntityMode::Browse, ..self }, None),
            Key::Tab | Key::Down => (
                EntitiesView { add_field: next_field(self.add_field), ..self },
                None,
            ),
            Key::BackTab | Key::Up => (
                EntitiesView { add_field: previous_field(self.add_field), ..self },
                None,
            ),
            Key::Enter => if self.add_field == EntityEditField::Type {
                (EntitiesView { add_type: type_after(self.add_type), ..self }, None)
            } else if trimmed(self.add_name).len() > 0 {
                (
                    self,
                    Some(
                        EntityActionView::Create {
                            entity_type: trimmed(self.add_type),
                            name: trimmed(self.add_name),
                            context: nonempty(trimmed(self.add_context)),
                            aliases: list_entries(self.add_aliases),
                        },
                    ),
                )
            } else {
                (self, None)
            },
            Key::Backspace => (
                match self.add_field {
                    EntityEditField::Name => EntitiesView {
                        add_name: without_last(self.add_name),
                        ..self
                    },
                    EntityEditField::Type => self,
                    EntityEditField::Context => EntitiesView {
                        add_context: without_last(self.add_context),
                        ..self
                    },
                },
                None,
            ),
            Key::Char(c) => (
                match self.add_field {
                    EntityEditField::Name => EntitiesView {
                        add_name: self.add_name.push(c),
                        ..self
                    },
                    EntityEditField::Type => if c == ' ' {
                        EntitiesView { add_type: type_after(self.add_type), ..self }
                    } else {
                        self
                    },
                    EntityEditField::Context => EntitiesView {
                        add_context: self.add_context.push(c),
                        ..self
                    },
                },
                None,
            ),
            _ => (self, None),
        }
    }

    /// Enter in the last field of the editor: what changed is written.
    pub open spec fn saving(self) -> (EntitiesView, Option<EntityActionView>) {
        match self.selected_entity {
            Some(e) => match e.id {
                Some(id) => (
                    self,
                    Some(
                        EntityActionView::Update {
                            id,
                            name: if self.edit_name.len() > 0 {
                                changed(self.edit_name, e.canonical_name)
                            } else {
                                None
                            },
                            entity_type: changed(self.edit_type, e.entity_type),
                            context: changed(self.edit_context, or_empty(e.context)),
                        },
                    ),
                ),
                None => (EntitiesView { mode: EntityMode::Browse, ..self }, None),
            },
            None => (EntitiesView { mode: EntityMode::Browse, ..self }, None),
        }
    }

    /// A key press in the editor.
    pub open spec fn editing_key(self, key: Key) -> (EntitiesView, Option<EntityActionView>) {
        match key {
            Key::Esc => (
                EntitiesView { selected_entity: None, mode: EntityMode::Browse, ..self },
                None,
            ),
            Key::Tab | Key::Down => (
                EntitiesView { edit_field: next_field(self.edit_field), ..self },
                None,
            ),
            Key::BackTab | Key::Up => (
                EntitiesView { edit_field: previous_field(self.edit_field), ..self },
                None,
            ),
            Key::Enter => match self.edit_field {
                EntityEditField::Type => (
                    EntitiesView { edit_type: type_after(self.edit_type), ..self },
                    None,
                ),
                EntityEditField::Context => self.saving(),
                EntityEditField::Name => (
                    EntitiesView { edit_field: EntityEditField::Type, ..self },
                    None,
                ),
            },
            Key::Char(c) => (
                match self.edit_field {
                    EntityEditField::Name => EntitiesView {
                        edit_name: self.edit_name.push(c),
                        ..self
                    },
                    EntityEditField::Type => if c == ' ' {
                        EntitiesView { edit_type: type_after(self.edit_type), ..self }
                    } else {
                        self
                    },
                    EntityEditField::Context => EntitiesView {
                        edit_context: self.edit_context.push(c),
                        ..self
                    },
                },
                None,
            ),
            Key::Backspace => (
                match self.edit_field {
                    EntityEditField::Name => EntitiesView {
                        edit_name: without_last(self.edit_name),
                        ..self
                    },
                    EntityEditField::Type => self,
                    EntityEditField::Context => EntitiesView {
                        edit_context: without_last(self.edit_context),
                        ..self
                    },
                },
                None,
            ),
            _ => (self, None),
        }
    }

    /// The deletion is over, whatever came of it.
    pub open spec fn delete_closed(self) -> EntitiesView {
        EntitiesView { selected_entity: None, mode: EntityMode::Browse, ..self }
    }

    /// A key press while a deletion waits for its confirmation.
    pub open spec fn delete_key(self, key: Key) -> (EntitiesView, Option<EntityActionView>) {
        if is_up(key) {
            (EntitiesView { confirm_selection: 0, ..self }, None)
        } else if is_down(key) {
            (EntitiesView { confirm_selection: 1, ..self }, None)
        } else if key == Key::Enter {
            match self.selected_entity {
                Some(EntityView { id: Some(id), .. }) => if self.confirm_selection == 0 {
                    (self, Some(EntityActionView::Delete { id }))
                } else {
                    (self.delete_closed(), None)
                },
                _ => (self.delete_closed(), None),
            }
        } else if key == Key::Esc {
            (self.delete_closed(), None)
        } else {
            (self, None)
        }
    }

    /// A key press while the target of a merge is chosen. An entity cannot be
    /// merged into itself, nor one that is not stored into another.
    pub open spec fn merge_target_key(self, key: Key) -> (EntitiesView, Option<EntityActionView>) {
        match key {
            Key::Up => (self.up(), None),
            Key::Down => (self.down(), None),
            Key::Enter => (
                match (self.current(), self.merge_source) {
                    (Some(target), Some(EntityView { id: Some(source), .. })) => if target.id
                        != Some(source) {
                        EntitiesView {
                            selected_entity: Some(target),
                            confirm_selection: 1,
                            mode: EntityMode::MergeConfirm,
                            ..self
                        }
                    } else {
                        self
                    },
                    _ => self,
                },
                None,
            ),
            Key::Esc => (
                EntitiesView { merge_source: None, mode: EntityMode::Browse, ..self },
                None,
            ),
            _ => (self, None),
        }
    }

    /// The merge is over, whatever came of it.
    pub open spec fn merge_closed(self) -> EntitiesView {
        EntitiesView {
            selected_entity: None,
            merge_source: None,
            mode: EntityMode::Browse,
            ..self
        }
    }

    /// A key press while a merge waits for its confirmation.
    pub open spec fn merge_key(self, key: Key) -> (EntitiesView, Option<EntityActionView>) {
        if is_up(key) {
            (EntitiesView { confirm_selection: 0, ..self }, None)
        } else if is_down(key) {
            (EntitiesView { confirm_selection: 1, ..self }, None)
        } else if key == Key::Enter {
            match (self.merge_source, self.selected_entity) {
                (
                    Some(EntityView { id: Some(source), .. }),
                    Some(EntityView { id: Some(target), .. }),
                ) => if self.confirm_selection == 0 {
                    (self, Some(EntityActionView::Merge { source, target }))
                } else {
                    (self.merge_closed(), None)
                },
                _ => (self.merge_closed(), None),
            }
        } else if key == Key::Esc {
            (self.merge_closed(), None)
        } else {
            (self, None)
        }
    }

    /// A key press on the entities screen: the next state, and what is left to
    /// the caller.
    pub open spec fn pressing(self, key: Key) -> (EntitiesView, Option<EntityActionView>) {
        match self.mode {
            EntityMode::Browse => self.browse_key(key),
            EntityMode::Adding => self.adding_key(key),
            EntityMode::Editing => self.editing_key(key),
            EntityMode::DeleteConfirm => self.delete_key(key),
            EntityMode::MergeSelectTarget => self.merge_target_key(key),
            EntityMode::MergeConfirm => self.merge_key(key),
        }
    }

    /// The deletion was done: the cursor stays within the list.
    pub open spec fn deleted(self, list: Seq<EntityView>) -> EntitiesView {
        let next = self.loaded(list).delete_closed();
        match next.selected {
            Some(i) => if i >= list.len() && list.len() > 0 {
                EntitiesView { selected: Some((list.len() - 1) as usize), ..next }
            } else {
                next
            },
            None => next,
        }
    }

    /// The new entity was stored: the cursor goes to it.
    pub open spec fn created(self, list: Seq<EntityView>) -> EntitiesView {
        let next = EntitiesView { mode: EntityMode::Browse, ..self.loaded(list) };
        match name_position(list, trimmed(self.add_name), 0) {
            Some(i) => EntitiesView { selected: Some(i as usize), ..next },
            None => next,
        }
    }
}

/// The position of the first entity called `name`, from position `from` on.
pub open spec fn name_position(list: Seq<EntityView>, name: Seq<char>, from: int) -> Option<int>
    decreases list.len() - from,
{
    if from < 0 || from >= list.len() {
        None
    } else if list[from].canonical_name == name {
        Some(from)
    } else {
        name_position(list, name, from + 1)
    }
}

fn position_by_name(list: &Vec<Entity>, name: &str) -> (r: Option<usize>)
    ensures
        (match r {
            Some(i) => Some(i as int),
            None => None,
        }) == name_position(entity_views(list@), name@, 0),
{
    let mut i: usize = 0;
    while i < list.len()
        invariant
            i <= list@.len(),
            name_position(entity_views(list@), name@, 0) == name_position(
                entity_views(list@),
                name@,
                i as int,
            ),
        decreases list.len() - i,
    {
        if same(list[i].canonical_name.as_str(), name) {
            return Some(i);
        }
        i += 1;
    }
    None
}

fn changed_text(new: &str, old: &str) -> (r: Option<String>)
    ensures
        option_text(r) == changed(new@, old@),
{
    if same(new, old) {
        None
    } else {
        Some(new.to_owned())
    }
}

impl Entities {
    /// The screen without an entity.
    pub fn new() -> (r: Entities)
        ensures
            r@ == fresh_entities(),
    {
        let r = Entities {
            entities: Vec::new(),
            selected: None,
            show_detail: false,
            selected_entity: None,
            merge_source: None,
            mode: EntityMode::Browse,
            edit_field: EntityEditField::Name,
            edit_name: String::new(),
            edit_type: String::new(),
            edit_context: String::new(),
            add_field: EntityEditField::Name,
            add_name: String::new(),
            add_type: "person".to_owned(),
            add_context: String::new(),
            add_aliases: String::new(),
            confirm_selection: 1,
        };
        assert(r@.entities =~= Seq::<EntityView>::empty());
        r
    }

    /// The entities were read anew.
    pub fn load_entities(&mut self, list: Vec<Entity>)
        ensures
            final(self)@ == old(self)@.loaded(entity_views(list@)),
    {
        let some = list.len() > 0;
        self.entities = list;
        if some && self.selected.is_none() {
            self.selected = Some(0);
        }
    }

    fn current_entity(&self) -> (r: Option<Entity>)
        ensures
            optional(r) == self@.current(),
    {
        match self.selected {
            Some(i) => if i < self.entities.len() {
                Some(self.entities[i].copy())
            } else {
                None
            },
            None => None,
        }
    }

    pub fn entity_navigate_up(&mut self)
        ensures
            final(self)@ == old(self)@.up(),
    {
        let i = match self.selected {
            Some(i) => if i == 0 {
                self.entities.len().saturating_sub(1)
            } else {
                i - 1
            },
            None => 0,
        };
        self.selected = Some(i);
    }

    pub fn entity_navigate_down(&mut self)
        ensures
            final(self)@ == old(self)@.down(),
    {
        let i = match self.selected {
            Some(i) => if i >= self.entities.len().saturating_sub(1) {
                0
            } else {
                i + 1
            },
            None => 0,
        };
        self.selected = Some(i);
    }

    pub fn start_entity_edit(&mut self)
        ensures
            final(self)@ == old(self)@.editing(),
    {
        match self.current_entity() {
            Some(e) => {
                self.edit_name = e.canonical_name.clone();
                self.edit_type = e.entity_type.clone();
                self.edit_context = match &e.context {
                    Some(c) => c.clone(),
                    None => String::new(),
                };
                self.edit_field = EntityEditField::Name;
                self.mode = EntityMode::Editing;
                self.selected_entity = Some(e);
            },
            None => {},
        }
    }

    pub fn start_entity_add(&mut self)
        ensures
            final(self)@ == old(self)@.adding(),
    {
        self.add_name = String::new();
        self.add_type = "person".to_owned();
        self.add_context = String::new();
        self.add_aliases = String::new();
        self.add_field = EntityEditField::Name;
        self.mode = EntityMode::Adding;
    }

    pub fn cycle_entity_type(&mut self)
        ensures
            final(self)@ == (EntitiesView {
                edit_type: type_after(old(self)@.edit_type),
                ..old(self)@
            }),
    {
        self.edit_type = cycled_type(self.edit_type.as_str());
    }

    fn on_browse_key(&mut self, key: Key) -> (r: Option<EntityAction>)
        ensures
            (final(self)@, action_view(r)) == old(self)@.browse_key(key),
    {
        if self.show_detail {
            if key == Key::Esc {
                self.show_detail = false;
                self.selected_entity = None;
            }
            return None;
        }
        match key {
            Key::Esc | Key::Char('q') => {
                self.show_detail = false;
                self.selected_entity = None;
                return Some(EntityAction::Leave);
            },
            Key::Up => self.entity_navigate_up(),
            Key::Down => self.entity_navigate_down(),
            Key::Enter => match self.current_entity() {
                Some(e) => {
                    self.selected_entity = Some(e);
                    self.show_detail = true;
                },
                None => {},
            },
            Key::Char('e') | Key::Char('E') => self.start_entity_edit(),
            Key::Char('d') | Key::Char('D') | Key::Delete => match self.current_entity() {
                Some(e) => {
                    self.selected_entity = Some(e);
                    self.confirm_selection = 1;
                    self.mode = EntityMode::DeleteConfirm;
                },
                None => {},
            },
            Key::Char('m') | Key::Char('M') => match self.current_entity() {
                Some(e) => {
                    self.merge_source = Some(e);
                    self.mode = EntityMode::MergeSelectTarget;
                },
                None => {},
            },
            Key::Char('a') | Key::Char('A') => self.start_entity_add(),
            Key::Char('r') | Key::Char('R') => {
                return Some(EntityAction::Reload);
            },
            _ => {},
        }
        None
    }

    /// What storing the new entity takes: its name must not be blank.
    pub fn save_entity_add(&self) -> (r: Option<EntityAction>)
        ensures
            action_view(r) == (if trimmed(self@.add_name).len() > 0 {
                Some(
                    EntityActionView::Create {
                        entity_type: trimmed(self@.add_type),
                        name: trimmed(self@.add_name),
                        context: nonempty(trimmed(self@.add_context)),
                        aliases: list_entries(self@.add_aliases),
                    },
                )
            } else {
                None
            }),
    {
        let name = trim(self.add_name.as_str());
        if name.unicode_len() == 0 {
            return None;
        }
        Some(
            EntityAction::Create {
                entity_type: trim(self.add_type.as_str()).to_owned(),
                name: name.to_owned(),
                context: crate::providers::some_nonempty(trim(self.add_context.as_str())),
                aliases: parse_list(self.add_aliases.as_str()),
            },
        )
    }

    fn on_adding_key(&mut self, key: Key) -> (r: Option<EntityAction>)
        ensures
            (final(self)@, action_view(r)) == old(self)@.adding_key(key),
    {
        match key {
            Key::Esc => self.mode = EntityMode::Browse,
            Key::Tab | Key::Down => self.add_field = next_field(self.add_field),
            Key::BackTab | Key::Up => self.add_field = previous_field(self.add_field),
            Key::Enter => {
                if self.add_field == EntityEditField::Type {
                    self.add_type = cycled_type(self.add_type.as_str());
                } else {
                    return self.save_entity_add();
                }
            },
            Key::Backspace => match self.add_field {
                EntityEditField::Name => {
                    let _ = self.add_name.pop();
                },
                EntityEditField::Type => {},
                EntityEditField::Context => {
                    let _ = self.add_context.pop();
                },
            },
            Key::Char(c) => match self.add_field {
                EntityEditField::Name => self.add_name.push(c),
                EntityEditField::Type => {
                    if c == ' ' {
                        self.add_type = cycled_type(self.add_type.as_str());
                    }
                },
                EntityEditField::Context => self.add_context.push(c),
            },
            _ => {},
        }
        None
    }

    /// Writes what changed: an empty name keeps the old one.
    pub fn save_entity_edit(&mut self) -> (r: Option<EntityAction>)
        ensures
            (final(self)@, action_view(r)) == old(self)@.saving(),
    {
        match &self.selected_entity {
            Some(e) => match e.id {
                Some(id) => {
                    let name = if self.edit_name.as_str().unicode_len() > 0 {
                        changed_text(self.edit_name.as_str(), e.canonical_name.as_str())
                    } else {
                        None
                    };
                    let entity_type = changed_text(
                        self.edit_type.as_str(),
                        e.entity_type.as_str(),
                    );
                    let before = match &e.context {
                        Some(c) => c.clone(),
                        None => String::new(),
                    };
                    let context = changed_text(self.edit_context.as_str(), before.as_str());
                    return Some(EntityAction::Update { id, name, entity_type, context });
                },
                None => {},
            },
            None => {},
        }
        self.mode = EntityMode::Browse;
        None
    }

    fn on_editing_key(&mut self, key: Key) -> (r: Option<EntityAction>)
        ensures
            (final(self)@, action_view(r)) == old(self)@.editing_key(key),
    {
        match key {
            Key::Esc => {
                self.selected_entity = None;
                self.mode = EntityMode::Browse;
            },
            Key::Tab | Key::Down => self.edit_field = next_field(self.edit_field),
            Key::BackTab | Key::Up => self.edit_field = previous_field(self.edit_field),
            Key::Enter => match self.edit_field {
                EntityEditField::Type => self.cycle_entity_type(),
                EntityEditField::Context => {
                    return self.save_entity_edit();
                },
                EntityEditField::Name => self.edit_field = EntityEditField::Type,
            },
            Key::Char(c) => match self.edit_field {
                EntityEditField::Name => self.edit_name.push(c),
                EntityEditField::Type => {
                    if c == ' ' {
                        self.cycle_entity_type();
                    }
                },
                EntityEditField::Context => self.edit_context.push(c),
            },
            Key::Backspace => match self.edit_field {
                EntityEditField::Name => {
                    let _ = self.edit_name.pop();
                },
                EntityEditField::Type => {},
                EntityEditField::Context => {
                    let _ = self.edit_context.pop();
                },
            },
            _ => {},
        }
        None
    }

    fn on_delete_key(&mut self, key: Key) -> (r: Option<EntityAction>)
        ensures
            (final(self)@, action_view(r)) == old(self)@.delete_key(key),
    {
        if is_up(key) {
            self.confirm_selection = 0;
        } else if is_down(key) {
            self.confirm_selection = 1;
        } else if key == Key::Enter {
            if self.confirm_selection == 0 {
                match &self.selected_entity {
                    Some(e) => match e.id {
                        Some(id) => {
                            return Some(EntityAction::Delete { id });
                        },
                        None => {},
                    },
                    None => {},
                }
            }
            self.selected_entity = None;
            self.mode = EntityMode::Browse;
        } else if key == Key::Esc {
            self.selected_entity = None;
            self.mode = EntityMode::Browse;
        }
        None
    }

    fn on_merge_target_key(&mut self, key: Key) -> (r: Option<EntityAction>)
        ensures
            (final(self)@, action_view(r)) == old(self)@.merge_target_key(key),
    {
        match key {
            Key::Up => self.entity_navigate_up(),
            Key::Down => self.entity_navigate_down(),
            Key::Enter => {
                let source = match &self.merge_source {
                    Some(e) => e.id,
                    None => None,
                };
                match (self.current_entity(), source) {
                    (Some(target), Some(source)) => {
                        let itself = match target.id {
                            Some(id) => id == source,
                            None => false,
                        };
                        if !itself {
                            self.selected_entity = Some(target);
                            self.confirm_selection = 1;
                            self.mode = EntityMode::MergeConfirm;
                        }
                    },
                    _ => {},
                }
            },
            Key::Esc => {
                self.merge_source = None;
                self.mode = EntityMode::Browse;
            },
            _ => {},
        }
        None
    }

    fn on_merge_key(&mut self, key: Key) -> (r: Option<EntityAction>)
        ensures
            (final(self)@, action_view(r)) == old(self)@.merge_key(key),
    {
        if is_up(key) {
            self.confirm_selection = 0;
        } else if is_down(key) {
            self.confirm_selection = 1;
        } else if key == Key::Enter || key == Key::Esc {
            if key == Key::Enter && self.confirm_selection == 0 {
                let source = match &self.merge_source {
                    Some(e) => e.id,
                    None => None,
                };
                let target = match &self.selected_entity {
                    Some(e) => e.id,
                    None => None,
                };
                match (source, target) {
                    (Some(source), Some(target)) => {
                        return Some(EntityAction::Merge { source, target });
                    },
                    _ => {},
                }
            }
            self.selected_entity = None;
            self.merge_source = None;
            self.mode = EntityMode::Browse;
        }
        None
    }

    /// A key press on the entities screen.
    pub fn handle_entities_keys(&mut self, key: Key) -> (r: Option<EntityAction>)
        ensures
            (final(self)@, action_view(r)) == old(self)@.pressing(key),
    {
        match self.mode {
            EntityMode::Browse => self.on_browse_key(key),
            EntityMode::Adding => self.on_adding_key(key),
            EntityMode::Editing => self.on_editing_key(key),
            EntityMode::DeleteConfirm => self.on_delete_key(key),
            EntityMode::MergeSelectTarget => self.on_merge_target_key(key),
            EntityMode::MergeConfirm => self.on_merge_key(key),
        }
    }

    /// The changes of the editor were stored.
    pub fn entity_edited(&mut self, list: Vec<Entity>)
        ensures
            final(self)@ == old(self)@.loaded(entity_views(list@)).delete_closed(),
    {
        self.load_entities(list);
        self.selected_entity = None;
        self.mode = EntityMode::Browse;
    }

    /// The entity was deleted.
    pub fn entity_deleted(&mut self, list: Vec<Entity>)
        ensures
            final(self)@ == old(self)@.deleted(entity_views(list@)),
    {
        self.load_entities(list);
        match self.selected {
            Some(i) => {
                if i >= self.entities.len() && self.entities.len() > 0 {
                    self.selected = Some(self.entities.len() - 1);
                }
            },
            None => {},
        }
        self.selected_entity = None;
        self.mode = EntityMode::Browse;
    }

    /// The two entities were merged.
    pub fn entities_merged(&mut self, list: Vec<Entity>)
        ensures
            final(self)@ == old(self)@.loaded(entity_views(list@)).merge_closed(),
    {
        self.load_entities(list);
        self.merge_source = None;
        self.selected_entity = None;
        self.mode = EntityMode::Browse;
    }

    /// The new entity was stored.
    pub fn entity_created(&mut self, list: Vec<Entity>)
        ensures
            final(self)@ == old(self)@.created(entity_views(list@)),
    {
        self.load_entities(list);
        self.mode = EntityMode::Browse;
        match position_by_name(&self.entities, trim(self.add_name.as_str())) {
            Some(i) => self.selected = Some(i),
            None => {},
        }
    }
}

// ─── Laws ────────────────────────────────────────────────────────────────────

/// Going down and then up, or up and then down, comes back to the same entity.
pub proof fn navigation_is_invertible(v: EntitiesView)
    requires
        v.current() is Some,
        v.entities.len() <= usize::MAX,
    ensures
        v.down().up() == v,
        v.up().down() == v,
        v.down().current() is Some,
        v.up().current() is Some,
{
}

/// Asking to delete or to merge preselects "No": Enter right after it changes
/// nothing that is stored.
pub proof fn confirmation_defaults_to_no(v: EntitiesView, key: Key)
    requires
        v.mode == EntityMode::Browse || v.mode == EntityMode::MergeSelectTarget,
        ({
            let next = v.pressing(key).0;
            next.mode == EntityMode::DeleteConfirm || next.mode == EntityMode::MergeConfirm
        }),
    ensures
        v.pressing(key).0.pressing(Key::Enter).1 is None,
        v.pressing(key).0.pressing(Key::Enter).0.mode == EntityMode::Browse,
{
}

/// Esc never has anything stored changed.
pub proof fn esc_changes_nothing_stored(v: EntitiesView)
    ensures
        v.pressing(Key::Esc).1 is None || v.pressing(Key::Esc).1 == Some(EntityActionView::Leave),
        v.pressing(Key::Esc).0.entities == v.entities,
        v.pressing(Key::Esc).0.mode == EntityMode::Browse,
{
}

/// No entity is ever merged into itself.
pub proof fn merge_needs_two(v: EntitiesView, key: Key)
    requires
        v.mode == EntityMode::MergeSelectTarget,
        v.pressing(key).0.mode == EntityMode::MergeConfirm,
    ensures
        ({
            let next = v.pressing(key).0;
            next.merge_source is Some && next.selected_entity is Some && next.merge_source->0.id
                is Some && next.selected_entity->0.id != next.merge_source->0.id
        }),
{
}

/// After a deletion the cursor is on an entity, as long as one is left.
pub proof fn deletion_keeps_the_cursor(v: EntitiesView, list: Seq<EntityView>)
    requires
        0 < list.len() <= usize::MAX,
    ensures
        v.deleted(list).current() is Some,
{
}

/// An editor left without a change writes nothing but "no change".
pub proof fn untouched_editor_changes_nothing(v: EntitiesView)
    requires
        v.current() is Some,
        v.current()->0.id is Some,
    ensures
        v.editing().saving().1 == Some(
            EntityActionView::Update {
                id: v.current()->0.id->0,
                name: None,
                entity_type: None,
                context: None,
            },
        ),
{
}

/// The type cycle has four stations.
pub proof fn type_cycle_closes(t: Seq<char>)
    requires
        t == "person"@ || t == "organization"@ || t == "project"@ || t == "other"@,
    ensures
        type_after(type_after(type_after(type_after(t)))) == t,
{
    reveal_strlit("person");
    reveal_strlit("organization");
    reveal_strlit("project");
    reveal_strlit("other");
    assert("person"@.len() == 6 && "organization"@.len() == 12 && "project"@.len() == 7
        && "other"@.len() == 5);
}

} // verus!
