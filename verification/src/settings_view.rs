//! The settings screen as lines of styled text.
use vstd::prelude::*;

use crate::settings::{
    badge, rows_of, settings_rows, setup_badge, visible, visible_picker_items, EditView, PickerItem,
    PickerItemView, Row, Settings, SettingsEdit, SettingsView, Surroundings,
};
use crate::settings_text::{fit, fitted, DetailTone, RowView};
use crate::style::{
    accent, fg, fg_bold, footer_left, footer_mark, hinted, justified, justify, pad, padded, plain,
    push_hint, span, Color, Line, Page, SpanView, Style,
};
use crate::text::{
    at_least, at_most, blanks, cat, cat3, decimal, decimal_of, longest, monus, same, spaces,
};

verus! {

/// Label column width. Labels are fixed and short; provider names live in the value column.
pub const LABEL_WIDTH: usize = 14;

/// Rows shown in a picker before it scrolls.
pub const PICKER_VISIBLE: usize = 9;

/// Pickers longer than this show the type-to-filter line up front.
pub const PICKER_FILTER_THRESHOLD: usize = 10;

/// The screen's header: its name at the left, the setup badge at the right.
pub open spec fn settings_header(v: SettingsView, width: int) -> Seq<SpanView> {
    let text = badge(v.config).0@ + " "@ + badge(v.config).1@;
    crate::style::empty_line().push(span("  "@, plain())).push(
        span("Settings"@, fg_bold(Color::White)),
    ).push(span(blanks(monus(width, 12 + text.len() as int)), plain())).push(
        span(text, fg(accent())),
    ).push(span("  "@, plain()))
}

/// The section that a row belongs to.
pub open spec fn section_of(row: Row) -> Option<Seq<char>> {
    match row.section() {
        Some(s) => Some(s@),
        None => None,
    }
}

/// The lines above a row that begins a section.
pub open spec fn section_lines(before: Option<Seq<char>>, row: Row) -> Seq<Seq<SpanView>> {
    match section_of(row) {
        Some(s) => if before == Some(s) {
            Seq::empty()
        } else {
            Seq::empty().push(crate::style::empty_line()).push(
                seq![span("  "@, plain()), span(s, fg_bold(accent()))],
            )
        },
        None => Seq::empty(),
    }
}

/// The part of a row's width that is left for value and detail.
pub open spec fn row_room(width: int, hint: Seq<char>) -> nat {
    monus(monus(width, 2 + LABEL_WIDTH + 1) as int, hint.len() as int)
}

pub open spec fn shown_hint(r: RowView, selected: bool) -> Seq<char> {
    if selected && r.hint@.len() > 0 {
        "  "@ + r.hint@
    } else {
        ""@
    }
}

/// The value keeps at least half of what the hint leaves.
pub open spec fn shown_value(r: RowView, room: int) -> Seq<char> {
    fitted(r.value, at_most(r.value.len() as int, at_least(room * 55 / 100, 12)))
}

/// The detail takes the rest or disappears if too cramped.
pub open spec fn shown_detail(r: RowView, room: int) -> Seq<char> {
    let left = monus(room, shown_value(r, room).len() as int);
    if r.detail.len() == 0 || left < 10 {
        ""@
    } else {
        fitted("  "@ + r.detail, left as int)
    }
}

pub open spec fn tone_style(t: DetailTone) -> Style {
    match t {
        DetailTone::Neutral => fg(Color::DarkGray),
        DetailTone::Good => fg(Color::Green),
        DetailTone::Bad => fg(Color::Red),
    }
}

pub open spec fn value_style(v: SettingsView, row: Row, r: RowView, selected: bool) -> Style {
    if r.editing {
        fg_bold(Color::Green)
    } else if selected {
        fg_bold(Color::Yellow)
    } else if row == Row::Timeout && !v.config.silence_auto_stop.enabled {
        fg(Color::DarkGray)
    } else {
        fg(Color::White)
    }
}

/// One row: marker, label, value, detail, hint, fitted to the width.
#[verifier::opaque]
pub open spec fn row_line(
    v: SettingsView,
    row: Row,
    selected: bool,
    width: int,
    sur: Surroundings,
) -> Seq<SpanView> {
    let r = v.row(row, sur);
    let hint = shown_hint(r, selected);
    let room = row_room(width, hint) as int;
    let detail = shown_detail(r, room);
    let base = crate::style::empty_line().push(
        span(
            if selected {
                "\u{25B8} "@
            } else {
                "  "@
            },
            if selected {
                fg(accent())
            } else {
                plain()
            },
        ),
    ).push(span(padded(row.label()@, LABEL_WIDTH as int), fg_bold(Color::DarkGray))).push(
        span(shown_value(r, room), value_style(v, row, r, selected)),
    );
    let with_detail = if detail.len() > 0 {
        base.push(span(detail, tone_style(r.tone)))
    } else {
        base
    };
    if hint.len() > 0 {
        with_detail.push(span(hint, fg(Color::DarkGray)))
    } else {
        with_detail
    }
}

/// The blanks in front of what stands under a row.
pub open spec fn indent() -> Seq<char> {
    blanks((2 + LABEL_WIDTH) as nat)
}

/// The labels of the items that the filter lets through.
pub open spec fn open_labels(items: Seq<PickerItemView>, open: Seq<int>) -> Seq<Seq<char>> {
    Seq::new(open.len(), |k: int| items[open[k]].label)
}

/// The first item in the picker's window: the selected one stays in sight.
pub open spec fn window_start(selection: int, count: int) -> int {
    at_most(monus(selection, PICKER_VISIBLE as int / 2) as int, monus(count, PICKER_VISIBLE as int) as int)
}

pub open spec fn window_end(selection: int, count: int) -> int {
    at_most(window_start(selection, count) + PICKER_VISIBLE, count)
}

/// One item of the picker.
pub open spec fn item_line(
    item: PickerItemView,
    selected: bool,
    label_width: int,
    width: int,
) -> Seq<SpanView> {
    seq![
        span(
            indent() + "\u{2502} "@ + (if selected {
                "\u{25B8} "@
            } else {
                "  "@
            }),
            fg(Color::DarkGray),
        ),
        span(
            padded(fitted(item.label, label_width), label_width),
            if selected {
                fg_bold(Color::Yellow)
            } else {
                fg(Color::White)
            },
        ),
        span(
            "  "@ + fitted(
                item.detail,
                monus(width, 2 + LABEL_WIDTH + 4 + label_width + 2) as int,
            ),
            fg(Color::DarkGray),
        ),
    ]
}

/// The items of the window from its start up to position `n`.
pub open spec fn item_lines(
    items: Seq<PickerItemView>,
    open: Seq<int>,
    selection: int,
    label_width: int,
    width: int,
    start: int,
    n: int,
) -> Seq<Seq<SpanView>>
    decreases n - start,
{
    if n <= start {
        Seq::empty()
    } else {
        item_lines(items, open, selection, label_width, width, start, n - 1).push(
            item_line(items[open[n - 1]], n - 1 == selection, label_width, width),
        )
    }
}

pub open spec fn hint_line(text: Seq<char>) -> Seq<SpanView> {
    seq![span(text, fg(Color::DarkGray))]
}

/// The width of the picker's label column.
pub open spec fn label_column(items: Seq<PickerItemView>, open: Seq<int>) -> int {
    at_most(longest(open_labels(items, open)) as int, 44)
}

/// The picker's list: the filter, the window of items, what is left below it.
pub open spec fn list_lines(
    items: Seq<PickerItemView>,
    selection: int,
    filter: Seq<char>,
    width: int,
) -> Seq<Seq<SpanView>> {
    let open = visible(items, filter);
    let count = open.len() as int;
    let end = window_end(selection, count);
    let head = if filter.len() > 0 || items.len() > PICKER_FILTER_THRESHOLD {
        Seq::empty().push(
            seq![
                span(indent() + "\u{2502} filter: "@, fg(Color::DarkGray)),
                span(filter + "_"@, fg_bold(Color::Green)),
            ],
        )
    } else {
        Seq::empty()
    };
    let none = if count == 0 {
        head.push(hint_line(indent() + "\u{2502} no match"@))
    } else {
        head
    };
    let listed = none + item_lines(
        items,
        open,
        selection,
        label_column(items, open),
        width,
        window_start(selection, count),
        end,
    );
    if end < count {
        listed.push(
            hint_line(
                indent() + "\u{2502} \u{2026} "@ + (decimal((count - end) as nat) + " more"@),
            ),
        )
    } else {
        listed
    }
}

/// What stands under a row: the note of its text field, or its picker.
#[verifier::opaque]
pub open spec fn editor_lines(v: SettingsView, row: Row, width: int) -> Seq<Seq<SpanView>> {
    match v.edit {
        EditView::Text { row: r, note: Some(note), .. } => if r == row {
            Seq::empty().push(hint_line(indent() + note))
        } else {
            Seq::empty()
        },
        EditView::Picker { row: r, title, items, selection, filter, loading, message } => if r
            == row {
            let top = Seq::empty().push(hint_line(indent() + "\u{250C} "@ + title + " "@));
            let body = if loading {
                top.push(hint_line(indent() + "\u{2502} Loading\u{2026}"@))
            } else {
                top + list_lines(items, selection, filter, width)
            };
            let noted = match message {
                Some(m) => body.push(
                    seq![span(indent() + "\u{2502} "@ + m, fg(Color::Red))],
                ),
                None => body,
            };
            noted.push(hint_line(indent() + "\u{2514}"@))
        } else {
            Seq::empty()
        },
        _ => Seq::empty(),
    }
}

/// The section of the row before position `i`.
pub open spec fn section_before(rows: Seq<Row>, i: int) -> Option<Seq<char>> {
    if i <= 0 {
        None
    } else {
        section_of(rows[i - 1])
    }
}

/// The lines of the first `n` rows.
pub open spec fn body_of(v: SettingsView, sur: Surroundings, width: int, n: nat) -> Seq<
    Seq<SpanView>,
>
    decreases n,
{
    if n == 0 {
        Seq::empty()
    } else {
        let rows = rows_of(v.config);
        let row = rows[n - 1];
        (body_of(v, sur, width, (n - 1) as nat) + section_lines(
            section_before(rows, n - 1),
            row,
        )).push(row_line(v, row, n - 1 == v.selection, width, sur)) + editor_lines(v, row, width)
    }
}

/// The key hints of the footer.
pub open spec fn settings_hints(edit: EditView) -> Seq<SpanView> {
    let l = crate::style::empty_line();
    match edit {
        EditView::Idle => hinted(
            hinted(hinted(l, "\u{2191}\u{2193}"@, "] Navigate  "@), "Enter"@, "] Change  "@),
            "Esc"@,
            "] Back  "@,
        ),
        EditView::Text { .. } => hinted(
            hinted(l, "Enter"@, "] Save  "@),
            "Esc"@,
            "] Cancel  "@,
        ),
        EditView::Picker { .. } => hinted(
            hinted(
                hinted(hinted(l, "\u{2191}\u{2193}"@, "] Select  "@), "Enter"@, "] Pick  "@),
                "type"@,
                "] Filter  "@,
            ),
            "Esc"@,
            "] Cancel  "@,
        ),
    }
}

fn tone(t: DetailTone) -> (r: Style)
    ensures
        r == tone_style(t),
{
    match t {
        DetailTone::Neutral => fg(Color::DarkGray),
        DetailTone::Good => fg(Color::Green),
        DetailTone::Bad => fg(Color::Red),
    }
}

fn render_item(item: &PickerItem, selected: bool, label_width: usize, width: u16) -> (r: Line)
    requires
        label_width <= 44,
    ensures
        r@ == item_line(item@, selected, label_width as int, width as int),
{
    let mut l = Line::new();
    l.push(
        cat3(
            spaces(2 + LABEL_WIDTH).as_str(),
            "\u{2502} ",
            if selected {
                "\u{25B8} "
            } else {
                "  "
            },
        ).as_str(),
        fg(Color::DarkGray),
    );
    let label = pad(fit(item.label.as_str(), label_width).as_str(), label_width);
    l.push(
        label.as_str(),
        if selected {
            fg_bold(Color::Yellow)
        } else {
            fg(Color::White)
        },
    );
    let room = (width as usize).saturating_sub(2 + LABEL_WIDTH + 4 + label_width + 2);
    l.push(cat("  ", fit(item.detail.as_str(), room).as_str()).as_str(), fg(Color::DarkGray));
    assert(l@ =~= item_line(item@, selected, label_width as int, width as int));
    l
}

fn widest_label(open: &Vec<(usize, &PickerItem)>, Ghost(items): Ghost<Seq<PickerItemView>>, Ghost(
    positions,
): Ghost<Seq<int>>) -> (r: usize)
    requires
        positions.len() == open@.len(),
        forall|k: int| 0 <= k < open@.len() ==> items[positions[k]] == (#[trigger] open@[k]).1@,
    ensures
        r == label_column(items, positions),
{
    let ghost labels = open_labels(items, positions);
    let mut widest: usize = 0;
    let mut i: usize = 0;
    proof {
        assert(labels.take(0) =~= Seq::<Seq<char>>::empty());
    }
    while i < open.len()
        invariant
            i <= open@.len(),
            labels == open_labels(items, positions),
            positions.len() == open@.len(),
            forall|k: int| 0 <= k < open@.len() ==> items[positions[k]] == (#[trigger] open@[k]).1@,
            widest == longest(labels.take(i as int)),
        decreases open.len() - i,
    {
        proof {
            assert(labels.take(i + 1).drop_last() =~= labels.take(i as int));
        }
        let n = open[i].1.label.as_str().unicode_len();
        if n > widest {
            widest = n;
        }
        i += 1;
    }
    proof {
        assert(labels.take(labels.len() as int) =~= labels);
    }
    if widest < 44 {
        widest
    } else {
        44
    }
}

fn render_list(items: &Vec<PickerItem>, selection: usize, filter: &str, width: u16) -> (r: Page)
    ensures
        r@ == list_lines(
            crate::settings::items_view(items@),
            selection as int,
            filter@,
            width as int,
        ),
{
    let ghost all = crate::settings::items_view(items@);
    let ghost positions = visible(all, filter@);
    let mut page = Page::new();
    let margin = spaces(2 + LABEL_WIDTH);
    if filter.unicode_len() > 0 || items.len() > PICKER_FILTER_THRESHOLD {
        page.line2(
            cat(margin.as_str(), "\u{2502} filter: ").as_str(),
            fg(Color::DarkGray),
            cat(filter, "_").as_str(),
            fg_bold(Color::Green),
        );
    }
    let open = visible_picker_items(items.as_slice(), filter);
    proof {
        assert(positions.len() == open@.len());
        assert forall|k: int| 0 <= k < open@.len() implies all[positions[k]] == (
        #[trigger] open@[k]).1@ by {
            assert(positions[k] == open@[k].0);
        }
    }
    let count = open.len();
    let label_width = widest_label(&open, Ghost(all), Ghost(positions));
    let first = selection.saturating_sub(PICKER_VISIBLE / 2);
    let last_start = count.saturating_sub(PICKER_VISIBLE);
    let start = if first < last_start {
        first
    } else {
        last_start
    };
    let end = if count - start > PICKER_VISIBLE {
        start + PICKER_VISIBLE
    } else {
        count
    };
    if count == 0 {
        page.line(cat(margin.as_str(), "\u{2502} no match").as_str(), fg(Color::DarkGray));
    }
    let ghost head = page@;
    let mut i: usize = start;
    proof {
        assert(head =~= head + item_lines(
            all,
            positions,
            selection as int,
            label_width as int,
            width as int,
            start as int,
            start as int,
        ));
    }
    while i < end
        invariant
            start <= i <= end <= count,
            count == open@.len(),
            positions.len() == count,
            label_width <= 44,
            forall|k: int| 0 <= k < open@.len() ==> all[positions[k]] == (#[trigger] open@[k]).1@,
            page@ == head + item_lines(
                all,
                positions,
                selection as int,
                label_width as int,
                width as int,
                start as int,
                i as int,
            ),
        decreases end - i,
    {
        let l = render_item(open[i].1, i == selection, label_width, width);
        page.push(l);
        i += 1;
        proof {
            assert(page@ =~= head + item_lines(
                all,
                positions,
                selection as int,
                label_width as int,
                width as int,
                start as int,
                i as int,
            ));
        }
    }
    if end < count {
        let more = cat(decimal_of((count - end) as u64).as_str(), " more");
        page.line(
            cat3(margin.as_str(), "\u{2502} \u{2026} ", more.as_str()).as_str(),
            fg(Color::DarkGray),
        );
    }
    page
}

/// The three texts of a row, fitted to the width: hint, value and detail.
fn fit_row(content: &(String, String, DetailTone, &'static str, bool), selected: bool, width: u16) -> (r: (
    String,
    String,
    String,
))
    ensures
        ({
            let row = crate::settings_text::row_view(*content);
            let room = row_room(width as int, shown_hint(row, selected)) as int;
            &&& r.0@ == shown_hint(row, selected)
            &&& r.1@ == shown_value(row, room)
            &&& r.2@ == shown_detail(row, room)
        }),
{
    let hint_text = if selected && content.3.unicode_len() > 0 {
        cat("  ", content.3)
    } else {
        "".to_owned()
    };
    let room = (width as usize).saturating_sub(2 + LABEL_WIDTH + 1).saturating_sub(
        hint_text.as_str().unicode_len(),
    );
    let share = room * 55 / 100;
    let wanted = if share > 12 {
        share
    } else {
        12
    };
    let value_len = content.0.as_str().unicode_len();
    let value_max = if value_len < wanted {
        value_len
    } else {
        wanted
    };
    let value_fitted = fit(content.0.as_str(), value_max);
    let left = room.saturating_sub(value_fitted.as_str().unicode_len());
    let detail_fitted = if content.1.as_str().unicode_len() == 0 || left < 10 {
        "".to_owned()
    } else {
        fit(cat("  ", content.1.as_str()).as_str(), left)
    };
    (hint_text, value_fitted, detail_fitted)
}

impl Settings {
    /// The header line.
    pub fn render_header(&self, width: u16) -> (r: Line)
        ensures
            r@ == settings_header(self@, width as int),
    {
        let (icon, name) = setup_badge(&self.config);
        let text = cat3(icon, " ", name);
        let mut l = Line::new();
        l.push("  ", plain());
        l.push("Settings", fg_bold(Color::White));
        let gap = (width as usize).saturating_sub(12).saturating_sub(text.as_str().unicode_len());
        l.push(spaces(gap).as_str(), plain());
        l.push(text.as_str(), fg(accent()));
        l.push("  ", plain());
        l
    }

    /// One row of the screen.
    pub fn render_row(&self, row: Row, selected: bool, width: u16, sur: &Surroundings) -> (r: Line)
        ensures
            r@ == row_line(self@, row, selected, width as int, *sur),
    {
        proof {
            reveal(row_line);
        }
        let content = self.row_content(row, sur);
        let (hint_text, value_fitted, detail_fitted) = fit_row(&content, selected, width);
        let detail_tone = content.2;
        let editing = content.4;
        let style = if editing {
            fg_bold(Color::Green)
        } else if selected {
            fg_bold(Color::Yellow)
        } else if row == Row::Timeout && !self.config.silence_auto_stop.enabled {
            fg(Color::DarkGray)
        } else {
            fg(Color::White)
        };
        let mut l = Line::new();
        if selected {
            l.push("\u{25B8} ", fg(accent()));
        } else {
            l.push("  ", plain());
        }
        l.push(pad(row.label(), LABEL_WIDTH).as_str(), fg_bold(Color::DarkGray));
        l.push(value_fitted.as_str(), style);
        if detail_fitted.as_str().unicode_len() > 0 {
            l.push(detail_fitted.as_str(), tone(detail_tone));
        }
        if hint_text.as_str().unicode_len() > 0 {
            l.push(hint_text.as_str(), fg(Color::DarkGray));
        }
        l
    }

    /// What stands under a row.
    pub fn render_editor(&self, row: Row, width: u16) -> (r: Page)
        ensures
            r@ == editor_lines(self@, row, width as int),
    {
        proof {
            reveal(editor_lines);
        }
        let mut page = Page::new();
        let margin = spaces(2 + LABEL_WIDTH);
        match &self.edit {
            SettingsEdit::Text { row: r, note, .. } => {
                match note {
                    Some(note) => {
                        if *r == row {
                            page.line(
                                cat(margin.as_str(), note.as_str()).as_str(),
                                fg(Color::DarkGray),
                            );
                        }
                    },
                    None => {},
                }
            },
            SettingsEdit::Picker { row: r, title, items, selection, filter, loading, message } => {
                if *r == row {
                    page.line(
                        cat(
                            cat3(margin.as_str(), "\u{250C} ", title.as_str()).as_str(),
                            " ",
                        ).as_str(),
                        fg(Color::DarkGray),
                    );
                    if *loading {
                        page.line(
                            cat(margin.as_str(), "\u{2502} Loading\u{2026}").as_str(),
                            fg(Color::DarkGray),
                        );
                    } else {
                        page.append(render_list(items, *selection, filter.as_str(), width));
                    }
                    match message {
                        Some(m) => {
                            page.line(
                                cat3(margin.as_str(), "\u{2502} ", m.as_str()).as_str(),
                                fg(Color::Red),
                            );
                        },
                        None => {},
                    }
                    page.line(cat(margin.as_str(), "\u{2514}").as_str(), fg(Color::DarkGray));
                }
            },
            SettingsEdit::Idle => {},
        }
        page
    }

    /// The body of the screen.
    pub fn render_body(&self, width: u16, sur: &Surroundings) -> (r: Page)
        ensures
            r@ == body_of(self@, *sur, width as int, rows_of(self@.config).len()),
    {
        let rows = settings_rows(&self.config);
        let mut page = Page::new();
        let mut i: usize = 0;
        while i < rows.len()
            invariant
                rows@ == rows_of(self@.config),
                i <= rows@.len(),
                page@ == body_of(self@, *sur, width as int, i as nat),
            decreases rows.len() - i,
        {
            let row = rows[i];
            let new_section = match row.section() {
                None => false,
                Some(s) => if i == 0 {
                    true
                } else {
                    match rows[i - 1].section() {
                        Some(before) => !same(before, s),
                        None => true,
                    }
                },
            };
            let ghost start = page@;
            if new_section {
                match row.section() {
                    Some(s) => {
                        page.blank();
                        page.line2("  ", plain(), s, fg_bold(accent()));
                    },
                    None => {},
                }
            }
            proof {
                assert(page@ =~= start + section_lines(section_before(rows@, i as int), row));
            }
            page.push(self.render_row(row, i == self.selection, width, sur));
            page.append(self.render_editor(row, width));
            i += 1;
        }
        page
    }

    /// The footer line.
    pub fn render_footer(&self, width: u16, version: &str) -> (r: Line)
        ensures
            r@ == justified(
                footer_mark(version@, ""@),
                settings_hints(self@.edit),
                width as int,
            ),
    {
        let mut right = Line::new();
        match &self.edit {
            SettingsEdit::Idle => {
                push_hint(&mut right, "\u{2191}\u{2193}", "] Navigate  ");
                push_hint(&mut right, "Enter", "] Change  ");
                push_hint(&mut right, "Esc", "] Back  ");
            },
            SettingsEdit::Text { .. } => {
                push_hint(&mut right, "Enter", "] Save  ");
                push_hint(&mut right, "Esc", "] Cancel  ");
            },
            SettingsEdit::Picker { .. } => {
                push_hint(&mut right, "\u{2191}\u{2193}", "] Select  ");
                push_hint(&mut right, "Enter", "] Pick  ");
                push_hint(&mut right, "type", "] Filter  ");
                push_hint(&mut right, "Esc", "] Cancel  ");
            },
        }
        justify(footer_left(version, ""), right, width as usize)
    }
}

} // verus!
