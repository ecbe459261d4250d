//! The entities screen as lines of styled text.
use vstd::prelude::*;

use crate::entities::{Entities, EntitiesView, Entity, EntityEditField, EntityMode, EntityView};
use crate::style::{
    accent, bold, empty_line, fg, fg_bold, fg_on, footer_left, footer_mark, hinted, justified,
    justify, plain, push_hint, selected_bg, span, Color, Line, Page, SpanView, Style,
};
use crate::text::{
    blanks, cat, cat3, decimal, decimal_of, join, joined, push_text, same, signed_decimal,
    signed_decimal_of, spaces, take, texts,
};

verus! {

/// The number of entities of type `t`.
pub open spec fn count_of(list: Seq<EntityView>, t: Seq<char>) -> nat
    decreases list.len(),
{
    if list.len() == 0 {
        0
    } else {
        count_of(list.drop_last(), t) + (if list.last().entity_type == t {
            1nat
        } else {
            0nat
        })
    }
}

/// The number of entities of type `t`.
pub fn count_type(list: &Vec<Entity>, t: &str) -> (r: usize)
    ensures
        r == count_of(crate::entities::entity_views(list@), t@),
{
    let ghost views = crate::entities::entity_views(list@);
    let mut n: usize = 0;
    let mut i: usize = 0;
    proof {
        assert(views.take(0) =~= Seq::<EntityView>::empty());
    }
    while i < list.len()
        invariant
            views == crate::entities::entity_views(list@),
            n <= i <= list@.len(),
            n == count_of(views.take(i as int), t@),
        decreases list.len() - i,
    {
        proof {
            assert(views.take(i + 1).drop_last() =~= views.take(i as int));
        }
        if same(list[i].entity_type.as_str(), t) {
            n += 1;
        }
        i += 1;
    }
    proof {
        assert(views.take(views.len() as int) =~= views);
    }
    n
}

pub open spec fn counted(parts: Seq<Seq<char>>, n: nat, noun: Seq<char>) -> Seq<Seq<char>> {
    if n > 0 {
        parts.push(decimal(n) + noun)
    } else {
        parts
    }
}

/// How many there are of each kind, kinds without an entity left out.
pub open spec fn count_parts(list: Seq<EntityView>) -> Seq<Seq<char>> {
    counted(
        counted(
            counted(Seq::empty(), count_of(list, "person"@), " people"@),
            count_of(list, "organization"@),
            " orgs"@,
        ),
        count_of(list, "project"@),
        " projects"@,
    )
}

pub open spec fn entities_header(v: EntitiesView) -> Seq<SpanView> {
    let parts = count_parts(v.entities);
    empty_line().push(span("  "@, plain())).push(
        span("Scriba's World"@, fg_bold(Color::White)),
    ).push(
        span(
            if parts.len() == 0 {
                ""@
            } else {
                " \u{00B7} "@ + joined(parts, " \u{00B7} "@)
            },
            fg(Color::DarkGray),
        ),
    )
}

fn push_count(parts: &mut Vec<String>, n: usize, noun: &str)
    ensures
        texts(final(parts)@) == counted(texts(old(parts)@), n as nat, noun@),
{
    if n > 0 {
        push_text(parts, cat(decimal_of(n as u64).as_str(), noun));
    }
}

/// `s` in at most `max` characters, with three dots where it was cut.
pub open spec fn dotted(s: Seq<char>, max: int) -> Seq<char> {
    if s.len() > max {
        s.take(max - 3) + "..."@
    } else {
        s
    }
}

/// `s` in at most `max` characters, with three dots where it was cut.
pub fn dots(s: &str, max: usize) -> (r: String)
    requires
        max >= 3,
    ensures
        r@ == dotted(s@, max as int),
        r@.len() <= max,
{
    proof {
        reveal_strlit("...");
    }
    if s.unicode_len() > max {
        cat(take(s, max - 3), "...")
    } else {
        s.to_owned()
    }
}

pub open spec fn or_dash(s: Seq<char>) -> Seq<char> {
    if s.len() == 0 {
        "-"@
    } else {
        s
    }
}

pub open spec fn type_color(t: Seq<char>) -> Color {
    if t == "person"@ {
        Color::Green
    } else if t == "organization"@ {
        Color::Blue
    } else {
        Color::Gray
    }
}

pub open spec fn id_text(id: Option<i64>) -> Seq<char> {
    signed_decimal(
        match id {
            Some(i) => i as int,
            None => 0,
        },
    )
}

/// The cells of an entity in the table: id, type, name, aliases, context,
/// mentions. The source of a merge is dimmed.
pub open spec fn table_row(e: EntityView, merging: bool) -> Seq<SpanView> {
    let dim = fg(Color::DarkGray);
    empty_line().push(span(id_text(e.id), plain())).push(
        span(
            e.entity_type,
            if merging {
                dim
            } else {
                fg(type_color(e.entity_type))
            },
        ),
    ).push(
        span(
            e.canonical_name,
            if merging {
                dim
            } else {
                bold()
            },
        ),
    ).push(
        span(
            dotted(or_dash(joined(e.aliases, ", "@)), 20),
            if merging {
                dim
            } else {
                fg(Color::Gray)
            },
        ),
    ).push(
        span(
            match e.context {
                Some(c) => dotted(c, 30),
                None => "-"@,
            },
            if merging {
                dim
            } else {
                fg(Color::Gray)
            },
        ),
    ).push(
        span(
            signed_decimal(e.mention_count as int),
            if merging {
                dim
            } else {
                fg(Color::Yellow)
            },
        ),
    )
}

fn id_label(id: Option<i64>) -> (r: String)
    ensures
        r@ == id_text(id),
{
    match id {
        Some(i) => signed_decimal_of(i),
        None => signed_decimal_of(0),
    }
}

fn aliases_label(e: &Entity) -> (r: String)
    ensures
        r@ == or_dash(joined(e@.aliases, ", "@)),
{
    let all = join(&e.aliases, ", ");
    if all.as_str().unicode_len() == 0 {
        "-".to_owned()
    } else {
        all
    }
}

/// The cells of an entity in the table.
pub fn render_table_row(e: &Entity, merging: bool) -> (r: Line)
    ensures
        r@ == table_row(e@, merging),
{
    proof {
        reveal_strlit("-");
    }
    let dim = fg(Color::DarkGray);
    let gray = if merging {
        dim
    } else {
        fg(Color::Gray)
    };
    let color = if same(e.entity_type.as_str(), "person") {
        Color::Green
    } else if same(e.entity_type.as_str(), "organization") {
        Color::Blue
    } else {
        Color::Gray
    };
    let mut l = Line::new();
    l.push(id_label(e.id).as_str(), plain());
    l.push(
        e.entity_type.as_str(),
        if merging {
            dim
        } else {
            fg(color)
        },
    );
    l.push(
        e.canonical_name.as_str(),
        if merging {
            dim
        } else {
            bold()
        },
    );
    l.push(dots(aliases_label(e).as_str(), 20).as_str(), gray);
    let context = match &e.context {
        Some(c) => dots(c.as_str(), 30),
        None => "-".to_owned(),
    };
    l.push(context.as_str(), gray);
    l.push(
        signed_decimal_of(e.mention_count).as_str(),
        if merging {
            dim
        } else {
            fg(Color::Yellow)
        },
    );
    l
}

/// The entity is the source of the merge whose target is being chosen.
pub open spec fn is_merge_source(v: EntitiesView, e: EntityView) -> bool {
    v.mode == EntityMode::MergeSelectTarget && (match v.merge_source {
        Some(s) => s.id,
        None => None,
    }) == e.id
}

/// The table of the screen.
pub open spec fn table_of(v: EntitiesView) -> Seq<Seq<SpanView>> {
    Seq::new(
        v.entities.len(),
        |i: int| table_row(v.entities[i], is_merge_source(v, v.entities[i])),
    )
}

/// The key hints of the footer.
pub open spec fn entity_hints(mode: EntityMode) -> Seq<SpanView> {
    let l = empty_line();
    match mode {
        EntityMode::Browse => hinted(
            hinted(
                hinted(
                    hinted(hinted(hinted(l, "A"@, "] Add  "@), "E"@, "] Edit  "@), "D"@, "] Del  "@),
                    "M"@,
                    "] Merge  "@,
                ),
                "R"@,
                "] Refresh  "@,
            ),
            "Esc"@,
            "] Back "@,
        ),
        EntityMode::MergeSelectTarget => hinted(
            hinted(l, "Enter"@, "] Confirm  "@),
            "Esc"@,
            "] Cancel "@,
        ),
        EntityMode::DeleteConfirm | EntityMode::MergeConfirm => hinted(
            hinted(l, "Y"@, "] Confirm  "@),
            "N"@,
            "] Cancel "@,
        ),
        EntityMode::Adding | EntityMode::Editing => hinted(
            hinted(hinted(l, "Tab"@, "] Next field  "@), "Space"@, "] Cycle type  "@),
            "Esc"@,
            "] Done "@,
        ),
    }
}

/// The popup that shows an entity.
pub open spec fn detail_page(e: EntityView) -> Seq<Seq<SpanView>> {
    let green = fg(Color::Green);
    let white = fg(Color::White);
    Seq::empty().push(
        seq![
            span(
                "["@ + (if e.entity_type == "person"@ {
                    "person"@
                } else if e.entity_type == "organization"@ {
                    "org"@
                } else {
                    "other"@
                }) + "] "@,
                fg(Color::DarkGray),
            ),
            span(e.canonical_name, fg_bold(accent())),
        ],
    ).push(empty_line()).push(seq![span("Type: "@, green), span(e.entity_type, white)]).push(
        seq![span("ID: "@, green), span(id_text(e.id), white)],
    ).push(
        seq![
            span("Mentions: "@, green),
            span(signed_decimal(e.mention_count as int), fg(Color::Yellow)),
        ],
    ).push(empty_line()).push(
        seq![
            span("Aliases: "@, green),
            span(or_dash(joined(e.aliases, ", "@)), fg(Color::Gray)),
        ],
    ).push(empty_line()).push(seq![span("Context:"@, green)]).push(
        seq![
            span(
                match e.context {
                    Some(c) => c,
                    None => "(no context)"@,
                },
                white,
            ),
        ],
    ).push(empty_line()).push(empty_line()).push(
        seq![
            span(
                "Press ESC to close | E to edit | D to delete | M to merge"@,
                fg(Color::Blue),
            ),
        ],
    )
}

/// A text field of a form: the cursor is shown while the field is active, a
/// placeholder while it is empty and inactive.
pub open spec fn field_text(text: Seq<char>, active: bool, placeholder: Seq<char>) -> Seq<char> {
    if active {
        text + "\u{2588}"@
    } else if text.len() == 0 {
        placeholder
    } else {
        text
    }
}

pub open spec fn field_style(active: bool) -> Style {
    if active {
        fg_bold(Color::Yellow)
    } else {
        fg(Color::White)
    }
}

pub open spec fn type_choice(t: Seq<char>, chosen: Seq<char>) -> SpanView {
    if t == chosen {
        span(" ["@ + t + "] "@, fg_bold(accent()))
    } else {
        span("  "@ + t + "  "@, fg(Color::Gray))
    }
}

/// The four types with the chosen one in brackets.
pub open spec fn type_choices(chosen: Seq<char>) -> Seq<SpanView> {
    empty_line().push(type_choice("person"@, chosen)).push(
        type_choice("organization"@, chosen),
    ).push(type_choice("project"@, chosen)).push(type_choice("other"@, chosen))
}

/// The fields that the form for a new entity and the editor have in common.
pub open spec fn form_page(
    name: Seq<char>,
    name_hint: Seq<char>,
    kind: Seq<char>,
    context: Seq<char>,
    context_hint: Seq<char>,
    field: EntityEditField,
) -> Seq<Seq<SpanView>> {
    let on_name = field == EntityEditField::Name;
    let on_context = field == EntityEditField::Context;
    Seq::empty().push(seq![span("Name: "@, fg(Color::Green))]).push(
        seq![span(field_text(name, on_name, name_hint), field_style(on_name))],
    ).push(empty_line()).push(seq![span("Type: "@, fg(Color::Green))]).push(
        type_choices(kind),
    ).push(empty_line()).push(seq![span("Context: "@, fg(Color::Green))]).push(
        seq![span(field_text(context, on_context, context_hint), field_style(on_context))],
    )
}

/// The form for a new entity.
pub open spec fn add_page(v: EntitiesView) -> Seq<Seq<SpanView>> {
    form_page(
        v.add_name,
        "(type a name)"@,
        v.add_type,
        v.add_context,
        "(optional)"@,
        v.add_field,
    ).push(empty_line()).push(
        seq![
            span(
                "Tab/\u{2191}\u{2193}: Switch Field | Space: Cycle Type | Enter: Save | Esc: Cancel"@,
                fg(Color::DarkGray),
            ),
        ],
    )
}

/// The editor of an entity.
pub open spec fn edit_page(v: EntitiesView) -> Seq<Seq<SpanView>> {
    form_page(v.edit_name, ""@, v.edit_type, v.edit_context, "(empty)"@, v.edit_field)
}

/// A choice of two: the chosen one is marked and padded to `width`.
pub open spec fn choice_line(label: Seq<char>, chosen: bool, width: int) -> Seq<SpanView> {
    if chosen {
        seq![
            span("\u{25B8} "@, fg_on(accent(), selected_bg())),
            span(
                label + blanks(crate::text::monus(width, label.len() as int + 2)),
                fg_on(Color::White, selected_bg()),
            ),
        ]
    } else {
        seq![span("  "@ + label, fg(Color::DarkGray))]
    }
}

pub open spec fn name_or_unknown(e: Option<EntityView>) -> Seq<char> {
    match e {
        Some(e) => e.canonical_name,
        None => "?"@,
    }
}

/// The question before a deletion.
pub open spec fn delete_page(v: EntitiesView) -> Seq<Seq<SpanView>> {
    let white = fg(Color::White);
    Seq::empty().push(
        seq![
            span("Delete entity: "@, white),
            span(name_or_unknown(v.selected_entity), fg_bold(Color::Red)),
            span("?"@, white),
        ],
    ).push(empty_line()).push(
        choice_line("Yes, delete"@, v.confirm_selection == 0, 13),
    ).push(choice_line("No, keep it"@, v.confirm_selection == 1, 13))
}

/// The question before a merge.
pub open spec fn merge_page(v: EntitiesView) -> Seq<Seq<SpanView>> {
    let white = fg(Color::White);
    let source = name_or_unknown(v.merge_source);
    Seq::empty().push(
        empty_line().push(span("Merge "@, white)).push(span(source, fg_bold(Color::Yellow))).push(
            span(" into "@, white),
        ).push(span(name_or_unknown(v.selected_entity), fg_bold(accent()))).push(
            span("?"@, white),
        ),
    ).push(
        seq![
            span(
                "'"@ + source + "' becomes an alias. Mentions transferred."@,
                fg(Color::DarkGray),
            ),
        ],
    ).push(empty_line()).push(
        choice_line("Yes, merge"@, v.confirm_selection == 0, 12),
    ).push(choice_line("No, cancel"@, v.confirm_selection == 1, 12))
}

/// Appends an answer to choose from.
pub fn push_choice(page: &mut Page, label: &str, chosen: bool, width: usize)
    ensures
        final(page)@ == old(page)@.push(choice_line(label@, chosen, width as int)),
{
    if chosen {
        let pad = spaces(width.saturating_sub(label.unicode_len()).saturating_sub(2));
        page.line2(
            "\u{25B8} ",
            fg_on(accent(), selected_bg()),
            cat(label, pad.as_str()).as_str(),
            fg_on(Color::White, selected_bg()),
        );
    } else {
        page.line(cat("  ", label).as_str(), fg(Color::DarkGray));
    }
}

fn field(text: &str, active: bool, placeholder: &str) -> (r: String)
    ensures
        r@ == field_text(text@, active, placeholder@),
{
    if active {
        cat(text, "\u{2588}")
    } else if text.unicode_len() == 0 {
        placeholder.to_owned()
    } else {
        text.to_owned()
    }
}

fn push_type(l: &mut Line, t: &str, chosen: &str)
    ensures
        final(l)@ == old(l)@.push(type_choice(t@, chosen@)),
{
    if same(t, chosen) {
        l.push(cat3(" [", t, "] ").as_str(), fg_bold(accent()));
    } else {
        l.push(cat3("  ", t, "  ").as_str(), fg(Color::Gray));
    }
}

fn render_form(
    name: &str,
    name_hint: &str,
    kind: &str,
    context: &str,
    context_hint: &str,
    at: EntityEditField,
) -> (r: Page)
    ensures
        r@ == form_page(name@, name_hint@, kind@, context@, context_hint@, at),
{
    let on_name = at == EntityEditField::Name;
    let on_context = at == EntityEditField::Context;
    let mut page = Page::new();
    page.line("Name: ", fg(Color::Green));
    page.line(
        field(name, on_name, name_hint).as_str(),
        if on_name {
            fg_bold(Color::Yellow)
        } else {
            fg(Color::White)
        },
    );
    page.blank();
    page.line("Type: ", fg(Color::Green));
    let mut types = Line::new();
    push_type(&mut types, "person", kind);
    push_type(&mut types, "organization", kind);
    push_type(&mut types, "project", kind);
    push_type(&mut types, "other", kind);
    page.push(types);
    page.blank();
    page.line("Context: ", fg(Color::Green));
    page.line(
        field(context, on_context, context_hint).as_str(),
        if on_context {
            fg_bold(Color::Yellow)
        } else {
            fg(Color::White)
        },
    );
    page
}

/// The popup that shows an entity.
pub fn render_entity_detail(e: &Entity) -> (r: Page)
    ensures
        r@ == detail_page(e@),
{
    let green = fg(Color::Green);
    let white = fg(Color::White);
    let label = if same(e.entity_type.as_str(), "person") {
        "person"
    } else if same(e.entity_type.as_str(), "organization") {
        "org"
    } else {
        "other"
    };
    let mut page = Page::new();
    page.line2(
        cat3("[", label, "] ").as_str(),
        fg(Color::DarkGray),
        e.canonical_name.as_str(),
        fg_bold(accent()),
    );
    page.blank();
    page.line2("Type: ", green, e.entity_type.as_str(), white);
    page.line2("ID: ", green, id_label(e.id).as_str(), white);
    page.line2(
        "Mentions: ",
        green,
        signed_decimal_of(e.mention_count).as_str(),
        fg(Color::Yellow),
    );
    page.blank();
    page.line2("Aliases: ", green, aliases_label(e).as_str(), fg(Color::Gray));
    page.blank();
    page.line("Context:", green);
    match &e.context {
        Some(c) => page.line(c.as_str(), white),
        None => page.line("(no context)", white),
    }
    page.blank();
    page.blank();
    page.line(
        "Press ESC to close | E to edit | D to delete | M to merge",
        fg(Color::Blue),
    );
    page
}

impl Entities {
    /// The header line.
    pub fn render_header(&self) -> (r: Line)
        ensures
            r@ == entities_header(self@),
    {
        let mut parts: Vec<String> = Vec::new();
        proof {
            assert(texts(parts@) =~= Seq::<Seq<char>>::empty());
        }
        push_count(&mut parts, count_type(&self.entities, "person"), " people");
        push_count(&mut parts, count_type(&self.entities, "organization"), " orgs");
        push_count(&mut parts, count_type(&self.entities, "project"), " projects");
        let suffix = if parts.len() == 0 {
            "".to_owned()
        } else {
            cat(" \u{00B7} ", join(&parts, " \u{00B7} ").as_str())
        };
        let mut l = Line::new();
        l.push("  ", plain());
        l.push("Scriba's World", fg_bold(Color::White));
        l.push(suffix.as_str(), fg(Color::DarkGray));
        l
    }

    /// The table of entities, one line per entity and one span per cell.
    pub fn render_table(&self) -> (r: Page)
        ensures
            r@ == table_of(self@),
    {
        let source = match &self.merge_source {
            Some(e) => e.id,
            None => None,
        };
        let mut page = Page::new();
        let mut i: usize = 0;
        while i < self.entities.len()
            invariant
                i <= self.entities@.len(),
                source == (match self@.merge_source {
                    Some(s) => s.id,
                    None => None,
                }),
                page@ =~= table_of(self@).take(i as int),
            decreases self.entities.len() - i,
        {
            let e = &self.entities[i];
            let same_id = match (source, e.id) {
                (Some(a), Some(b)) => a == b,
                (None, None) => true,
                _ => false,
            };
            let merging = self.mode == EntityMode::MergeSelectTarget && same_id;
            page.push(render_table_row(e, merging));
            i += 1;
        }
        page
    }

    /// The footer line.
    pub fn render_footer(&self, width: u16, version: &str) -> (r: Line)
        ensures
            r@ == justified(
                footer_mark(
                    version@,
                    " \u{00B7} "@ + decimal(self@.entities.len()) + " entities"@,
                ),
                entity_hints(self@.mode),
                width as int,
            ),
    {
        let mut right = Line::new();
        match self.mode {
            EntityMode::Browse => {
                push_hint(&mut right, "A", "] Add  ");
                push_hint(&mut right, "E", "] Edit  ");
                push_hint(&mut right, "D", "] Del  ");
                push_hint(&mut right, "M", "] Merge  ");
                push_hint(&mut right, "R", "] Refresh  ");
                push_hint(&mut right, "Esc", "] Back ");
            },
            EntityMode::MergeSelectTarget => {
                push_hint(&mut right, "Enter", "] Confirm  ");
                push_hint(&mut right, "Esc", "] Cancel ");
            },
            EntityMode::DeleteConfirm | EntityMode::MergeConfirm => {
                push_hint(&mut right, "Y", "] Confirm  ");
                push_hint(&mut right, "N", "] Cancel ");
            },
            EntityMode::Adding | EntityMode::Editing => {
                push_hint(&mut right, "Tab", "] Next field  ");
                push_hint(&mut right, "Space", "] Cycle type  ");
                push_hint(&mut right, "Esc", "] Done ");
            },
        }
        let count = decimal_of(self.entities.len() as u64);
        let more = cat3(" \u{00B7} ", count.as_str(), " entities");
        justify(footer_left(version, more.as_str()), right, width as usize)
    }

    /// The form for a new entity.
    pub fn render_add(&self) -> (r: Page)
        ensures
            r@ == add_page(self@),
    {
        let mut page = render_form(
            self.add_name.as_str(),
            "(type a name)",
            self.add_type.as_str(),
            self.add_context.as_str(),
            "(optional)",
            self.add_field,
        );
        page.blank();
        page.line(
            "Tab/\u{2191}\u{2193}: Switch Field | Space: Cycle Type | Enter: Save | Esc: Cancel",
            fg(Color::DarkGray),
        );
        page
    }

    /// The editor of an entity.
    pub fn render_edit(&self) -> (r: Page)
        ensures
            r@ == edit_page(self@),
    {
        render_form(
            self.edit_name.as_str(),
            "",
            self.edit_type.as_str(),
            self.edit_context.as_str(),
            "(empty)",
            self.edit_field,
        )
    }

    /// The question before a deletion.
    pub fn render_delete_confirm(&self) -> (r: Page)
        ensures
            r@ == delete_page(self@),
    {
        proof {
            reveal_strlit("Yes, delete");
            reveal_strlit("No, keep it");
        }
        let name = match &self.selected_entity {
            Some(e) => e.canonical_name.clone(),
            None => "?".to_owned(),
        };
        let mut page = Page::new();
        page.line3(
            "Delete entity: ",
            fg(Color::White),
            name.as_str(),
            fg_bold(Color::Red),
            "?",
            fg(Color::White),
        );
        page.blank();
        push_choice(&mut page, "Yes, delete", self.confirm_selection == 0, 13);
        push_choice(&mut page, "No, keep it", self.confirm_selection == 1, 13);
        page
    }

    /// The question before a merge.
    pub fn render_merge_confirm(&self) -> (r: Page)
        ensures
            r@ == merge_page(self@),
    {
        proof {
            reveal_strlit("Yes, merge");
            reveal_strlit("No, cancel");
        }
        let source = match &self.merge_source {
            Some(e) => e.canonical_name.clone(),
            None => "?".to_owned(),
        };
        let target = match &self.selected_entity {
            Some(e) => e.canonical_name.clone(),
            None => "?".to_owned(),
        };
        let white = fg(Color::White);
        let mut l = Line::new();
        l.push("Merge ", white);
        l.push(source.as_str(), fg_bold(Color::Yellow));
        l.push(" into ", white);
        l.push(target.as_str(), fg_bold(accent()));
        l.push("?", white);
        let mut page = Page::new();
        page.push(l);
        page.line(
            cat3("'", source.as_str(), "' becomes an alias. Mentions transferred.").as_str(),
            fg(Color::DarkGray),
        );
        page.blank();
        push_choice(&mut page, "Yes, merge", self.confirm_selection == 0, 12);
        push_choice(&mut page, "No, cancel", self.confirm_selection == 1, 12);
        page
    }
}

} // verus!
