//! What stands on the pages: nothing that is known is left out of them.
use vstd::prelude::*;

use crate::browse::{DeletionView, FileDialogStage, FileDialogView};
use crate::chat::{ChatView, HomeView, RenderedView};
use crate::chat_view::{entry_rows, offer_lines, offers_below, recordings_below};
use crate::entities::{EntitiesView, EntityEditField, EntityView};
use crate::entities_view::{add_page, detail_page, edit_page};
use crate::geometry::Rect;
use crate::settings::{rows_of, visible, PickerItemView, SettingsView, Surroundings};
use crate::settings_view::{
    body_of, item_lines, label_column, list_lines, row_line, shown_value, window_end, window_start,
    LABEL_WIDTH,
};
use crate::style::{empty_line, line_text, padded, SpanView};
use crate::text::{byte_len, clipped, joined, monus, signed_decimal};
use crate::transcript::{
    display_rows, labeled, labeled_rows, names_below, preview, told_rows, with_names, MentionKind,
    TranscriptView,
};
use crate::wrap::wrapped;

verus! {

/// `q` begins with the lines of `p`.
pub open spec fn extends(p: Seq<Seq<SpanView>>, q: Seq<Seq<SpanView>>) -> bool {
    p.len() <= q.len() && forall|i: int| 0 <= i < p.len() ==> #[trigger] q[i] == p[i]
}

/// A line of the page ends with this text.
pub open spec fn shows(p: Seq<Seq<SpanView>>, t: Seq<char>) -> bool {
    exists|i: int| 0 <= i < p.len() && (#[trigger] p[i]).len() > 0 && p[i].last().text == t
}

proof fn shown_stays(p: Seq<Seq<SpanView>>, q: Seq<Seq<SpanView>>, t: Seq<char>)
    requires
        extends(p, q),
        shows(p, t),
    ensures
        shows(q, t),
{
    let i = choose|i: int| 0 <= i < p.len() && (#[trigger] p[i]).len() > 0 && p[i].last().text == t;
    assert(q[i] == p[i]);
}

// ─── The transcript ──────────────────────────────────────────────────────────

proof fn told_rows_show(p: Seq<Seq<SpanView>>, rows: Seq<Seq<char>>, n: nat)
    requires
        n <= rows.len(),
    ensures
        extends(p, told_rows(p, rows, n)),
        forall|i: int| 0 <= i < n ==> shows(told_rows(p, rows, n), #[trigger] rows[i]),
    decreases n,
{
    if n > 0 {
        told_rows_show(p, rows, (n - 1) as nat);
        let before = told_rows(p, rows, (n - 1) as nat);
        let all = told_rows(p, rows, n);
        assert(extends(before, all));
        assert forall|i: int| 0 <= i < n implies shows(all, #[trigger] rows[i]) by {
            if i < n - 1 {
                shown_stays(before, all, rows[i]);
            } else {
                assert(all[all.len() - 1].last().text == rows[i]);
            }
        }
    }
}

proof fn labeled_rows_show(
    p: Seq<Seq<SpanView>>,
    label: Seq<char>,
    rows: Seq<Seq<char>>,
    n: nat,
)
    requires
        n <= rows.len(),
    ensures
        extends(p, labeled_rows(p, label, rows, n)),
        forall|i: int| 0 <= i < n ==> shows(labeled_rows(p, label, rows, n), #[trigger] rows[i]),
        n > 0 ==> labeled_rows(p, label, rows, n).len() > p.len() && labeled_rows(
            p,
            label,
            rows,
            n,
        )[p.len() as int].len() == 3 && labeled_rows(p, label, rows, n)[p.len() as int][1].text
            == label,
    decreases n,
{
    if n > 0 {
        labeled_rows_show(p, label, rows, (n - 1) as nat);
        let before = labeled_rows(p, label, rows, (n - 1) as nat);
        let all = labeled_rows(p, label, rows, n);
        assert(extends(before, all));
        assert forall|i: int| 0 <= i < n implies shows(all, #[trigger] rows[i]) by {
            if i < n - 1 {
                shown_stays(before, all, rows[i]);
            } else {
                assert(all[all.len() - 1].last().text == rows[i]);
            }
        }
    }
}

proof fn labeled_shows(p: Seq<Seq<SpanView>>, label: Seq<char>, value: Seq<char>, width: int)
    ensures
        extends(p, labeled(p, label, value, width)),
        ({
            let room = monus(width, 2 + byte_len(label) as int);
            &&& room == 0 ==> shows(labeled(p, label, value, width), value)
            &&& room > 0 ==> forall|i: int|
                0 <= i < wrapped(value, room).len() ==> shows(
                    labeled(p, label, value, width),
                    #[trigger] wrapped(value, room)[i],
                )
        }),
{
    let room = monus(width, 2 + byte_len(label) as int);
    let all = labeled(p, label, value, width);
    if room == 0 {
        assert(all[all.len() - 1].last().text == value);
    } else {
        let rows = wrapped(value, room);
        labeled_rows_show(p, label, rows, rows.len());
    }
}

proof fn names_extend(
    p: Seq<Seq<SpanView>>,
    v: Seq<(Seq<char>, Seq<char>)>,
    kind: MentionKind,
    label: Seq<char>,
    width: int,
)
    ensures
        extends(p, with_names(p, v, kind, label, width)),
{
    let names = names_below(v, kind, v.len());
    labeled_shows(p, label, joined(names, " \u{00B7} "@), width);
}

proof fn enrichment_extends(v: TranscriptView, p: Seq<Seq<SpanView>>, width: int)
    ensures
        extends(p, v.with_summary(p, width)),
        extends(p, v.with_topics(p, width)),
        extends(p, v.with_entities(p, width)),
        extends(p, v.with_takeaway(p, width)),
{
    match v.summary {
        Some(s) => {
                let rows = wrapped(s, width as nat);
            let titled = p.push(
                seq![
                    crate::style::span("  "@, crate::style::plain()),
                    crate::style::span(
                        "Summary"@,
                        crate::style::fg_bold(crate::style::Color::DarkGray),
                    ),
                ],
            );
            told_rows_show(titled, rows, rows.len());
        },
        None => {},
    }
    match v.topics {
        Some(t) => {
            labeled_shows(p, "Topics  "@, joined(t, " \u{00B7} "@), width);
        },
        None => {},
    }
    match v.entities {
        Some(e) => {
            let a = with_names(p, e, MentionKind::Person, "People  "@, width);
            let b = with_names(a, e, MentionKind::Organization, "Orgs    "@, width);
            names_extend(p, e, MentionKind::Person, "People  "@, width);
            names_extend(a, e, MentionKind::Organization, "Orgs    "@, width);
            names_extend(b, e, MentionKind::Other, "Entities "@, width);
        },
        None => {},
    }
    match v.key_points {
        Some(k) => {
            if k.len() > 0 {
                let rows = wrapped(k[0], width as nat);
                let titled = p.push(empty_line()).push(
                    seq![
                        crate::style::span("  "@, crate::style::plain()),
                        crate::style::span(
                            "Key takeaway"@,
                            crate::style::fg_bold(crate::style::Color::DarkGray),
                        ),
                    ],
                );
                told_rows_show(titled, rows, rows.len());
            }
        },
        None => {},
    }
}

/// What is known of a recording stands above its transcript: every row of its
/// summary, its topics, and its first key point.
pub proof fn the_enrichment_is_shown(v: TranscriptView, area_width: u16, i: int)
    ensures
        ({
            let width = monus(area_width as int, 4);
            let body = v.body(area_width);
            &&& v.summary matches Some(s) ==> (0 <= i < wrapped(s, width).len() ==> shows(
                body,
                wrapped(s, width)[i],
            ))
            &&& (v.has_enrichment() && v.key_points is Some && v.key_points->0.len() > 0) ==> (0
                <= i < wrapped(v.key_points->0[0], width).len() ==> shows(
                body,
                wrapped(v.key_points->0[0], width)[i],
            ))
            &&& v.topics matches Some(t) ==> (t.len() > 0 ==> {
                let room = monus(width as int, 2 + byte_len("Topics  "@) as int);
                room > 0 && 0 <= i < wrapped(joined(t, " \u{00B7} "@), room).len() ==> shows(
                    body,
                    wrapped(joined(t, " \u{00B7} "@), room)[i],
                )
            })
        }),
{
    if v.has_enrichment() {
        let width = monus(area_width as int, 4) as int;
        let body = v.body(area_width);
        let p0 = Seq::<Seq<SpanView>>::empty().push(empty_line());
        let p1 = v.with_summary(p0, width);
        let p2 = v.with_topics(p1, width);
        let p3 = v.with_entities(p2, width);
        let p4 = v.with_takeaway(p3, width);
        enrichment_extends(v, p0, width);
        enrichment_extends(v, p1, width);
        enrichment_extends(v, p2, width);
        enrichment_extends(v, p3, width);
        assert(extends(p4, v.enrichment_lines(area_width, width)));
        assert(extends(p4, body));
        assert(extends(p1, p4));
        assert(extends(p2, p4));
        match v.summary {
            Some(s) => {
                let rows = wrapped(s, width as nat);
                let titled = p0.push(
                    seq![
                        crate::style::span("  "@, crate::style::plain()),
                        crate::style::span(
                            "Summary"@,
                            crate::style::fg_bold(crate::style::Color::DarkGray),
                        ),
                    ],
                );
                told_rows_show(titled, rows, rows.len());
                if 0 <= i < rows.len() {
                    let told = told_rows(titled, rows, rows.len());
                    assert(shows(told, rows[i]));
                    assert(extends(told, p1));
                    shown_stays(told, p1, rows[i]);
                    shown_stays(p1, body, rows[i]);
                }
            },
            None => {},
        }
        match v.topics {
            Some(t) => {
                if t.len() > 0 {
                    let value = joined(t, " \u{00B7} "@);
                    let room = monus(width, 2 + byte_len("Topics  "@) as int);
                    labeled_shows(p1, "Topics  "@, value, width);
                    if room > 0 && 0 <= i < wrapped(value, room).len() {
                        assert(shows(p2, wrapped(value, room)[i]));
                        shown_stays(p2, body, wrapped(value, room)[i]);
                    }
                }
            },
            None => {},
        }
        match v.key_points {
            Some(k) => {
                if k.len() > 0 {
                    let rows = wrapped(k[0], width as nat);
                    let titled = p3.push(empty_line()).push(
                        seq![
                            crate::style::span("  "@, crate::style::plain()),
                            crate::style::span(
                                "Key takeaway"@,
                                crate::style::fg_bold(crate::style::Color::DarkGray),
                            ),
                        ],
                    );
                    told_rows_show(titled, rows, rows.len());
                    if 0 <= i < rows.len() {
                        assert(shows(p4, rows[i]));
                        shown_stays(p4, body, rows[i]);
                    }
                }
            },
            None => {},
        }
    }
}

/// The transcript stands below it: the body ends with the preview of its rows.
pub proof fn the_body_ends_with_the_transcript(v: TranscriptView, area_width: u16)
    ensures
        ({
            let all = crate::markdown::lines_of(v.content);
            let rows = display_rows(all, monus(area_width as int, 4), all.len());
            let body = v.body(area_width);
            body.len() >= preview(rows).len() && body.subrange(
                body.len() - preview(rows).len(),
                body.len() as int,
            ) == preview(rows)
        }),
{
    let all = crate::markdown::lines_of(v.content);
    let rows = display_rows(all, monus(area_width as int, 4), all.len());
    let body = v.body(area_width);
    assert(body.subrange(body.len() - preview(rows).len(), body.len() as int) =~= preview(rows));
}

/// Every line of the transcript is among its rows: an empty one as an empty
/// row, any other by the rows into which it is wrapped.
pub proof fn every_line_has_its_rows(all: Seq<Seq<char>>, width: nat, n: nat, i: int, k: int)
    requires
        0 <= i < n <= all.len(),
    ensures
        all[i].len() == 0 ==> display_rows(all, width, n).contains(None),
        all[i].len() > 0 && 0 <= k < wrapped(all[i], width).len() ==> display_rows(
            all,
            width,
            n,
        ).contains(Some(wrapped(all[i], width)[k])),
    decreases n,
{
    let before = display_rows(all, width, (n - 1) as nat);
    let rows = display_rows(all, width, n);
    if i < n - 1 {
        every_line_has_its_rows(all, width, (n - 1) as nat, i, k);
        if all[i].len() == 0 {
            let j = choose|j: int| 0 <= j < before.len() && before[j] == None::<Seq<char>>;
            assert(rows[j] == None::<Seq<char>>);
        } else if 0 <= k < wrapped(all[i], width).len() {
            let t = Some(wrapped(all[i], width)[k]);
            let j = choose|j: int| 0 <= j < before.len() && before[j] == t;
            assert(rows[j] == t);
        }
    } else if all[i].len() == 0 {
        assert(rows[rows.len() - 1] == None::<Seq<char>>);
    } else if 0 <= k < wrapped(all[i], width).len() {
        assert(rows[before.len() + k] == Some(wrapped(all[i], width)[k]));
    }
}

// ─── Entities ────────────────────────────────────────────────────────────────

/// The popup of an entity shows all that is known of it.
pub proof fn the_popup_shows_the_entity(e: EntityView)
    ensures
        shows(detail_page(e), e.canonical_name),
        shows(detail_page(e), e.entity_type),
        shows(detail_page(e), signed_decimal(e.mention_count as int)),
        e.context matches Some(c) ==> shows(detail_page(e), c),
        e.id matches Some(id) ==> shows(detail_page(e), signed_decimal(id as int)),
        joined(e.aliases, ", "@).len() > 0 ==> shows(detail_page(e), joined(e.aliases, ", "@)),
{
    let p = detail_page(e);
    assert(p[0].last().text == e.canonical_name);
    assert(p[2].last().text == e.entity_type);
    assert(p[3].last().text == crate::entities_view::id_text(e.id));
    assert(p[4].last().text == signed_decimal(e.mention_count as int));
    assert(p[6].last().text == crate::entities_view::or_dash(joined(e.aliases, ", "@)));
    assert(p[9].len() == 1);
    match e.context {
        Some(c) => {
            assert(p[9].last().text == c);
        },
        None => {},
    }
}

/// The forms show what was typed, with the cursor in the field that has it.
pub proof fn the_forms_show_what_was_typed(v: EntitiesView)
    ensures
        v.add_field == EntityEditField::Name ==> shows(add_page(v), v.add_name + "\u{2588}"@),
        v.add_field != EntityEditField::Name && v.add_name.len() > 0 ==> shows(
            add_page(v),
            v.add_name,
        ),
        v.edit_field == EntityEditField::Name ==> shows(edit_page(v), v.edit_name + "\u{2588}"@),
        v.edit_field == EntityEditField::Context ==> shows(
            edit_page(v),
            v.edit_context + "\u{2588}"@,
        ),
        v.edit_field != EntityEditField::Context && v.edit_context.len() > 0 ==> shows(
            edit_page(v),
            v.edit_context,
        ),
{
    let a = add_page(v);
    let e = edit_page(v);
    assert(a[1].len() == 1 && e[1].len() == 1 && e[7].len() == 1);
    assert(a[1].last().text == crate::entities_view::field_text(
        v.add_name,
        v.add_field == EntityEditField::Name,
        "(type a name)"@,
    ));
    assert(e[1].last().text == crate::entities_view::field_text(
        v.edit_name,
        v.edit_field == EntityEditField::Name,
        ""@,
    ));
    assert(e[7].last().text == crate::entities_view::field_text(
        v.edit_context,
        v.edit_field == EntityEditField::Context,
        "(empty)"@,
    ));
}

// ─── Settings ────────────────────────────────────────────────────────────────

proof fn body_holds_row(v: SettingsView, sur: Surroundings, width: int, n: nat, i: int)
    requires
        0 <= i < n <= rows_of(v.config).len(),
    ensures
        body_of(v, sur, width, n).contains(
            row_line(v, rows_of(v.config)[i], i == v.selection, width, sur),
        ),
    decreases n,
{
    let before = body_of(v, sur, width, (n - 1) as nat);
    let all = body_of(v, sur, width, n);
    let row = rows_of(v.config)[n - 1];
    let line = row_line(v, rows_of(v.config)[i], i == v.selection, width, sur);
    let head = before + crate::settings_view::section_lines(
        crate::settings_view::section_before(rows_of(v.config), n - 1),
        row,
    );
    if i == n - 1 {
        assert(all[head.len() as int] == line);
    } else {
        body_holds_row(v, sur, width, (n - 1) as nat, i);
        let k = choose|k: int| 0 <= k < before.len() && before[k] == line;
        assert(head[k] == line);
        assert(all[k] == line);
    }
}

/// Every row of the settings stands on the page with its name and its value,
/// and the one under the cursor has the mark.
pub proof fn every_setting_is_on_the_page(v: SettingsView, sur: Surroundings, width: int, i: int)
    requires
        0 <= i < rows_of(v.config).len(),
    ensures
        ({
            let row = rows_of(v.config)[i];
            let line = row_line(v, row, i == v.selection, width, sur);
            let r = v.row(row, sur);
            &&& body_of(v, sur, width, rows_of(v.config).len()).contains(line)
            &&& line.len() >= 3
            &&& line[1].text == padded(row.label()@, LABEL_WIDTH as int)
            &&& line[2].text == shown_value(
                r,
                crate::settings_view::row_room(
                    width,
                    crate::settings_view::shown_hint(r, i == v.selection),
                ) as int,
            )
            &&& i == v.selection ==> line[0].text == "\u{25B8} "@
            &&& i != v.selection ==> line[0].text == "  "@
        }),
{
    reveal(row_line);
    body_holds_row(v, sur, width, rows_of(v.config).len(), i);
}

proof fn item_lines_hold(
    items: Seq<PickerItemView>,
    open: Seq<int>,
    selection: int,
    label_width: int,
    width: int,
    start: int,
    n: int,
    k: int,
)
    requires
        start <= k < n,
    ensures
        item_lines(items, open, selection, label_width, width, start, n).len() == n - start,
        item_lines(items, open, selection, label_width, width, start, n)[k - start]
            == crate::settings_view::item_line(
            items[open[k]],
            k == selection,
            label_width,
            width,
        ),
    decreases n - start,
{
    if n - 1 > start {
        if k < n - 1 {
            item_lines_hold(items, open, selection, label_width, width, start, n - 1, k);
        } else {
            item_lines_hold(items, open, selection, label_width, width, start, n - 1, start);
        }
    } else {
        assert(item_lines(items, open, selection, label_width, width, start, n - 1)
            =~= Seq::<Seq<SpanView>>::empty());
    }
}

/// A picker shows the items that its filter lets through, those of its window,
/// each by its label, and marks the one under the cursor.
pub proof fn the_picker_shows_its_items(
    items: Seq<PickerItemView>,
    selection: int,
    filter: Seq<char>,
    width: int,
    k: int,
)
    requires
        window_start(selection, visible(items, filter).len() as int) <= k < window_end(
            selection,
            visible(items, filter).len() as int,
        ),
        items[visible(items, filter)[k]].label.len() <= 44,
        0 <= k < visible(items, filter).len(),
    ensures
        exists|i: int|
            0 <= i < list_lines(items, selection, filter, width).len() && (#[trigger] list_lines(
                items,
                selection,
                filter,
                width,
            )[i]).len() == 3 && list_lines(items, selection, filter, width)[i][1].text == padded(
                items[visible(items, filter)[k]].label,
                label_column(items, visible(items, filter)),
            ) && (k == selection <==> list_lines(items, selection, filter, width)[i][1].style.bold),
{
    let open = visible(items, filter);
    let count = open.len() as int;
    let start = window_start(selection, count);
    let end = window_end(selection, count);
    let column = label_column(items, open);
    let lines = item_lines(items, open, selection, column, width, start, end);
    item_lines_hold(items, open, selection, column, width, start, end, k);
    let labels = crate::settings_view::open_labels(items, open);
    crate::text_laws::the_longest_is_one_of_them(labels);
    assert(labels[k] == items[open[k]].label);
    let all = list_lines(items, selection, filter, width);
    let head = if filter.len() > 0 || items.len() > crate::settings_view::PICKER_FILTER_THRESHOLD {
        1int
    } else {
        0int
    };
    assert(all[head + (k - start)] == lines[k - start]);
}

// ─── The chat ────────────────────────────────────────────────────────────────

/// A line of the chat reads so.
pub open spec fn reads(r: RenderedView, t: Seq<char>) -> bool {
    exists|i: int| 0 <= i < r.texts.len() && #[trigger] r.texts[i] == t
}

/// `b` begins with the texts of `a`.
pub open spec fn goes_on(a: RenderedView, b: RenderedView) -> bool {
    a.texts.len() <= b.texts.len() && forall|i: int|
        0 <= i < a.texts.len() ==> #[trigger] b.texts[i] == a.texts[i]
}

proof fn read_stays(a: RenderedView, b: RenderedView, t: Seq<char>)
    requires
        goes_on(a, b),
        reads(a, t),
    ensures
        reads(b, t),
{
    let i = choose|i: int| 0 <= i < a.texts.len() && #[trigger] a.texts[i] == t;
    assert(b.texts[i] == t);
}

proof fn offers_are_read(suggestions: Seq<Seq<char>>, selected: int, n: nat, i: int)
    requires
        0 <= i < n <= suggestions.len(),
    ensures
        offers_below(suggestions, selected, n).texts.len() == n,
        offers_below(suggestions, selected, n).texts[i] == "  "@ + (if selected == i {
            "\u{25B8}"@
        } else {
            " "@
        }) + " "@ + suggestions[i],
    decreases n,
{
    reveal_with_fuel(offers_below, 2);
    if n > 1 {
        if i < n - 1 {
            offers_are_read(suggestions, selected, (n - 1) as nat, i);
        } else {
            offers_are_read(suggestions, selected, (n - 1) as nat, 0);
        }
    }
}

/// Every question on offer stands in its line, and the chosen one is marked.
pub proof fn the_questions_are_offered(suggestions: Seq<Seq<char>>, selected: int, i: int)
    requires
        0 <= i < suggestions.len(),
    ensures
        offer_lines(suggestions, selected).texts.len() == suggestions.len() + 1,
        offer_lines(suggestions, selected).texts[i] == "  "@ + (if selected == i {
            "\u{25B8}"@
        } else {
            " "@
        }) + " "@ + suggestions[i],
{
    offers_are_read(suggestions, selected, suggestions.len(), i);
}

/// The recordings of the home screen are named there, with their length.
pub proof fn the_home_screen_names_its_recordings(home: HomeView, width: int, n: nat, i: int)
    requires
        0 <= i < n <= home.recordings.len(),
    ensures
        ({
            let rec = home.recordings[i];
            let prefix = if i == home.recordings.len() - 1 {
                "      \u{2514}\u{2500}\u{2500} "@
            } else {
                "      \u{251C}\u{2500}\u{2500} "@
            };
            let suffix = " ("@ + signed_decimal(rec.duration_mins as int) + "m)"@;
            reads(
                recordings_below(home, width, n),
                prefix + clipped(
                    rec.name,
                    monus(monus(width, 2) as int, (prefix.len() + suffix.len()) as int) as int,
                ) + suffix,
            )
        }),
    decreases n,
{
    let before = recordings_below(home, width, (n - 1) as nat);
    let all = recordings_below(home, width, n);
    assert(goes_on(before, all));
    if i < n - 1 {
        the_home_screen_names_its_recordings(home, width, (n - 1) as nat, i);
        let rec = home.recordings[i];
        let prefix = if i == home.recordings.len() - 1 {
            "      \u{2514}\u{2500}\u{2500} "@
        } else {
            "      \u{251C}\u{2500}\u{2500} "@
        };
        let suffix = " ("@ + signed_decimal(rec.duration_mins as int) + "m)"@;
        read_stays(
            before,
            all,
            prefix + clipped(
                rec.name,
                monus(monus(width, 2) as int, (prefix.len() + suffix.len()) as int) as int,
            ) + suffix,
        );
    } else {
        let k = before.texts.len() as int;
        let rec = home.recordings[i];
        let prefix = if i == home.recordings.len() - 1 {
            "      \u{2514}\u{2500}\u{2500} "@
        } else {
            "      \u{251C}\u{2500}\u{2500} "@
        };
        let suffix = " ("@ + signed_decimal(rec.duration_mins as int) + "m)"@;
        assert(all.texts[k] == prefix + clipped(
            rec.name,
            monus(monus(width, 2) as int, (prefix.len() + suffix.len()) as int) as int,
        ) + suffix);
    }
}

proof fn entry_rows_show(p: Seq<Seq<SpanView>>, rows: Seq<Seq<char>>, n: nat, i: int)
    requires
        0 <= i < n <= rows.len(),
    ensures
        shows(entry_rows(p, rows, n), rows[i]),
    decreases n,
{
    let before = entry_rows(p, rows, (n - 1) as nat);
    let all = entry_rows(p, rows, n);
    if i < n - 1 {
        entry_rows_show(p, rows, (n - 1) as nat, i);
        assert(extends(before, all));
        shown_stays(before, all, rows[i]);
    } else {
        assert(all[all.len() - 1].last().text == rows[i]);
    }
}

/// What is typed stands below the conversation, and what waits is shown there
/// as waiting.
pub proof fn what_is_typed_is_shown(v: ChatView, page: Seq<Seq<SpanView>>, area: Rect, i: int)
    ensures
        v.entry.input_buffer.len() > 0 ==> {
            let rows = wrapped(
                v.entry.input_buffer + v.cursor(),
                monus(v.content_width(area), 5),
            );
            0 <= i < rows.len() ==> shows(v.with_entry(page, area), rows[i])
        },
        v.talk.pending_message matches Some(m) ==> (v.entry.input_buffer.len() == 0 ==> {
            let l = v.with_entry(page, area).last();
            l.len() == 3 && l[1].text == m + " "@ && l[2].text == "(queued)"@
        }),
{
    if v.entry.input_buffer.len() > 0 {
        let width = v.content_width(area);
        let rows = wrapped(v.entry.input_buffer + v.cursor(), monus(width, 5));
        let all = v.with_entry(page, area);
        let n = rows.len();
        if 0 <= i < n {
            let rule = seq![
                crate::style::span(
                    "  "@ + crate::text::repeated(
                        '\u{2500}',
                        crate::text::at_most(width, monus(area.width as int, 4) as int) as nat,
                    ),
                    crate::style::fg(crate::style::Color::DarkGray),
                ),
            ];
            let ruled = if v.has_conversation() {
                page.push(rule)
            } else {
                page
            };
            entry_rows_show(ruled, rows, n, i);
            assert(all == entry_rows(ruled, rows, n));
        }
    }
}

/// The wheel scrolls by three lines: up from the end of the conversation, or
/// from where it stands, and down again; at its end the conversation scrolls by
/// itself.
pub proof fn the_wheel_scrolls_by_three(v: ChatView, column: int, row: int)
    requires
        v.viewport.panel_rect.has(column, row),
        0 <= v.viewport.total_content_lines <= usize::MAX,
    ensures
        ({
            let up = v.moused(crate::chat_keys::MouseKind::ScrollUp, column, row).0.viewport;
            let down = v.moused(crate::chat_keys::MouseKind::ScrollDown, column, row).0.viewport;
            let w = v.viewport;
            &&& !up.auto_scroll
            &&& !w.auto_scroll && w.scroll_offset >= 3 ==> up.scroll_offset == w.scroll_offset - 3
            &&& !w.auto_scroll && w.scroll_offset < 3 ==> up.scroll_offset == 0
            &&& w.auto_scroll && w.total_content_lines >= 3 ==> up.scroll_offset
                == w.total_content_lines - 3
            &&& w.auto_scroll ==> down == w
            &&& !w.auto_scroll && w.scroll_offset + 3 <= usize::MAX ==> down.scroll_offset
                == w.scroll_offset + 3
            &&& !w.auto_scroll && w.scroll_offset + 3 >= w.total_content_lines && w.scroll_offset
                + 3 <= usize::MAX ==> down.auto_scroll
        }),
{
}

// ─── Dialogs ─────────────────────────────────────────────────────────────────

/// The question names the recording that is to be deleted, and marks the
/// answer under the cursor.
pub proof fn the_question_names_the_recording(d: DeletionView)
    ensures
        d.candidate matches Some(r) ==> line_text(d.page()[0]) == "Delete recording: "@
            + r.shown_name() + "?"@,
        d.selection == 0 ==> d.page()[2].len() == 2 && d.page()[3].len() == 1,
        d.selection == 1 ==> d.page()[2].len() == 1 && d.page()[3].len() == 2,
{
    let l = d.page()[0];
    reveal_with_fuel(line_text, 4);
    assert(l.drop_last().drop_last().drop_last() =~= Seq::empty());
    match d.candidate {
        Some(r) => {
            assert(line_text(l) =~= "Delete recording: "@ + r.shown_name() + "?"@);
        },
        None => {},
    }
}

/// The dialog shows what was typed in the field that it asks for.
pub proof fn the_dialog_shows_what_was_typed(d: FileDialogView)
    ensures
        d.stage == FileDialogStage::FilePath ==> shows(d.page(), d.path_input + "_"@),
        d.stage == FileDialogStage::FileName ==> shows(d.page(), d.name_input + "_"@),
{
    let p = d.page();
    assert(p[2].len() == 2);
    assert(p[2].last().text == (match d.stage {
        FileDialogStage::FilePath => d.path_input,
        FileDialogStage::FileName => d.name_input,
    }) + "_"@);
}

} // verus!
