//! What rendering markdown is for: nothing of an answer is lost but its marks
//! and blanks, and every part stands in its own style.
use vstd::prelude::*;

use crate::markdown::{
    find, find_stars, flushed, glyphs, glyphs_spell_the_text, hashes, heading_of, in_code, inked,
    inline_from, is_fence, is_item, italic, lines_of, markdown, prose, rejoined, source_line,
    source_lines, span_glyphs, two_stars, wrap_from, wrapped_line, wrapping_keeps_the_text, Glyph,
};
use crate::style::{
    bold, empty_line, fg, fg_bold, line_chars, line_text, span, Color, SpanView, Style,
};
use crate::text::{pieces, repeated, stands_at, trimmed_start, whitespace};

verus! {

// ─── Nothing is lost ─────────────────────────────────────────────────────────

/// All styled characters of some lines, one line behind the other.
pub open spec fn page_glyphs(p: Seq<Seq<SpanView>>) -> Seq<Glyph>
    decreases p.len(),
{
    if p.len() == 0 {
        Seq::empty()
    } else {
        page_glyphs(p.drop_last()) + glyphs(p.last())
    }
}

/// What is to be seen of some lines: their characters but for the blanks.
pub open spec fn ink(p: Seq<Seq<SpanView>>) -> Seq<Glyph> {
    inked(page_glyphs(p))
}

/// The characters of a text but for the blanks, in a style.
pub open spec fn ink_of(s: Seq<char>, style: Style) -> Seq<Glyph>
    decreases s.len(),
{
    if s.len() == 0 {
        Seq::empty()
    } else if s.last() == ' ' {
        ink_of(s.drop_last(), style)
    } else {
        ink_of(s.drop_last(), style).push((s.last(), style))
    }
}

proof fn inked_sum(a: Seq<Glyph>, b: Seq<Glyph>)
    ensures
        inked(a + b) == inked(a) + inked(b),
    decreases b.len(),
{
    if b.len() == 0 {
        assert(a + b =~= a);
        assert(inked(a) + inked(b) =~= inked(a));
    } else {
        inked_sum(a, b.drop_last());
        assert((a + b).drop_last() =~= a + b.drop_last());
        assert(inked(a + b) =~= inked(a) + inked(b));
    }
}

proof fn page_sum(p: Seq<Seq<SpanView>>, q: Seq<Seq<SpanView>>)
    ensures
        page_glyphs(p + q) == page_glyphs(p) + page_glyphs(q),
    decreases q.len(),
{
    if q.len() == 0 {
        assert(p + q =~= p);
        assert(page_glyphs(p) + page_glyphs(q) =~= page_glyphs(p));
    } else {
        page_sum(p, q.drop_last());
        assert((p + q).drop_last() =~= p + q.drop_last());
        assert(page_glyphs(p + q) =~= page_glyphs(p) + page_glyphs(q));
    }
}

proof fn ink_sum(p: Seq<Seq<SpanView>>, q: Seq<Seq<SpanView>>)
    ensures
        ink(p + q) == ink(p) + ink(q),
{
    page_sum(p, q);
    inked_sum(page_glyphs(p), page_glyphs(q));
}

proof fn rejoined_is_the_page(p: Seq<Seq<SpanView>>, parts: Seq<Seq<Glyph>>)
    requires
        p.len() == parts.len(),
        forall|i: int| 0 <= i < p.len() ==> glyphs(#[trigger] p[i]) == parts[i],
    ensures
        rejoined(parts) == page_glyphs(p),
    decreases p.len(),
{
    if p.len() > 0 {
        let q = p.subrange(1, p.len() as int);
        let rest = parts.subrange(1, parts.len() as int);
        assert forall|i: int| 0 <= i < q.len() implies glyphs(#[trigger] q[i]) == rest[i] by {
            assert(q[i] == p[i + 1]);
        }
        rejoined_is_the_page(q, rest);
        let one = seq![p[0]];
        assert(p =~= one + q);
        page_sum(one, q);
        assert(one.drop_last() =~= Seq::<Seq<SpanView>>::empty());
        reveal_with_fuel(page_glyphs, 2);
        assert(page_glyphs(one) =~= glyphs(p[0]));
    }
}

proof fn wrapping_keeps_the_ink(l: Seq<SpanView>, width: int)
    ensures
        ink(wrapped_line(l, width)) == inked(glyphs(l)),
{
    let p = wrapped_line(l, width);
    if line_chars(l) <= width || width <= 0 {
        assert(p.drop_last() =~= Seq::<Seq<SpanView>>::empty());
        reveal_with_fuel(page_glyphs, 2);
        assert(page_glyphs(p) =~= glyphs(l));
    } else {
        wrapping_keeps_the_text(l, width);
        rejoined_is_the_page(p, wrap_from(glyphs(l), 0, width));
    }
}

proof fn ink_of_a_span(s: Seq<char>, style: Style)
    ensures
        inked(glyphs(seq![span(s, style)])) == ink_of(s, style),
{
    let l = seq![span(s, style)];
    assert(l.drop_last() =~= empty_line());
    reveal_with_fuel(glyphs, 2);
    assert(glyphs(l) =~= span_glyphs(span(s, style)));
    ink_of_glyphs(s, style);
}

proof fn ink_of_glyphs(s: Seq<char>, style: Style)
    ensures
        inked(span_glyphs(span(s, style))) == ink_of(s, style),
    decreases s.len(),
{
    let g = span_glyphs(span(s, style));
    if s.len() > 0 {
        ink_of_glyphs(s.drop_last(), style);
        assert(g.drop_last() =~= span_glyphs(span(s.drop_last(), style)));
    }
}

/// The number of fences among the first `n` lines.
pub open spec fn fences(rows: Seq<Seq<char>>, n: nat) -> nat
    decreases n,
{
    if n == 0 {
        0
    } else {
        fences(rows, (n - 1) as nat) + (if stands_at(trimmed_start(rows[n - 1]), "```"@, 0) {
            1nat
        } else {
            0nat
        })
    }
}

/// A fence is a line that begins with three backticks, whatever is behind them
/// and however far it is indented.
pub proof fn fences_are_backticks(line: Seq<char>)
    ensures
        is_fence(line) <==> stands_at(trimmed_start(line), "```"@, 0),
{
    let t = trimmed_start(line);
    reveal_strlit("```");
    if is_fence(line) {
        assert(t.subrange(0, 3) =~= "```"@);
    }
    if stands_at(t, "```"@, 0) {
        assert(t[0] == t.subrange(0, 3)[0]);
        assert(t[1] == t.subrange(0, 3)[1]);
        assert(t[2] == t.subrange(0, 3)[2]);
    }
}

/// Fences open and close code by turns.
pub proof fn fences_take_turns(rows: Seq<Seq<char>>, n: nat)
    ensures
        in_code(rows, n) <==> fences(rows, n) % 2 == 1,
    decreases n,
{
    if n > 0 {
        fences_take_turns(rows, (n - 1) as nat);
        fences_are_backticks(rows[n - 1]);
    }
}

/// What is to be seen of the first `n` lines of a source: nothing of a fence,
/// the line itself in the style of code between two fences, and the spans of
/// the prose outside.
pub open spec fn source_ink(rows: Seq<Seq<char>>, n: nat) -> Seq<Glyph>
    decreases n,
{
    if n == 0 {
        Seq::empty()
    } else {
        source_ink(rows, (n - 1) as nat) + (if stands_at(trimmed_start(rows[n - 1]), "```"@, 0) {
            Seq::empty()
        } else if fences(rows, (n - 1) as nat) % 2 == 1 {
            ink_of(rows[n - 1], fg(Color::Green))
        } else {
            inked(glyphs(prose(rows[n - 1])))
        })
    }
}

proof fn lines_keep_the_ink(rows: Seq<Seq<char>>, width: int, n: nat)
    ensures
        ink(source_lines(rows, width, n)) == source_ink(rows, n),
    decreases n,
{
    if n > 0 {
        let line = rows[n - 1];
        let before = source_lines(rows, width, (n - 1) as nat);
        let code = in_code(rows, (n - 1) as nat);
        lines_keep_the_ink(rows, width, (n - 1) as nat);
        fences_take_turns(rows, (n - 1) as nat);
        fences_are_backticks(line);
        ink_sum(before, source_line(line, code, width));
        wrapping_keeps_the_ink(seq![span(line, fg(Color::Green))], width);
        wrapping_keeps_the_ink(prose(line), width);
        ink_of_a_span(line, fg(Color::Green));
    }
}

/// Rendering keeps what there is to be seen: the lines on the screen hold, in
/// order, every character of the source that is no blank and no mark; only
/// fences give nothing. The width changes where lines break and nothing else.
pub proof fn rendering_keeps_the_ink(text: Seq<char>, width: int)
    ensures
        ink(markdown(text, width)) == source_ink(lines_of(text), lines_of(text).len()),
{
    let rows = lines_of(text);
    let all = source_lines(rows, width, rows.len());
    lines_keep_the_ink(rows, width, rows.len());
    if all.len() == 0 {
        let one = Seq::empty().push(empty_line());
        assert(one.drop_last() =~= Seq::<Seq<SpanView>>::empty());
        reveal_with_fuel(page_glyphs, 2);
        assert(page_glyphs(one) =~= Seq::<Glyph>::empty());
        assert(page_glyphs(all) =~= Seq::<Glyph>::empty());
        assert(markdown(text, width) == one);
    }
}

proof fn ink_grows(rows: Seq<Seq<char>>, i: nat, n: nat)
    requires
        i <= n,
    ensures
        source_ink(rows, i).is_prefix_of(source_ink(rows, n)),
    decreases n - i,
{
    if i < n {
        ink_grows(rows, i, (n - 1) as nat);
        let a = source_ink(rows, i);
        let b = source_ink(rows, (n - 1) as nat);
        let c = source_ink(rows, n);
        assert(b =~= c.subrange(0, b.len() as int));
        assert(a =~= b.subrange(0, a.len() as int));
        assert(a =~= c.subrange(0, a.len() as int));
    } else {
        let a = source_ink(rows, i);
        assert(a =~= a.subrange(0, a.len() as int));
    }
}

/// Every line of code is shown: of a line between two fences all characters but
/// blanks stand on the screen, in order, in the style of code, behind all that
/// stands before it in the source.
pub proof fn code_is_shown(text: Seq<char>, width: int, i: nat)
    requires
        i < lines_of(text).len(),
        fences(lines_of(text), i) % 2 == 1,
        !stands_at(trimmed_start(lines_of(text)[i as int]), "```"@, 0),
    ensures
        ({
            let rows = lines_of(text);
            (source_ink(rows, i) + ink_of(rows[i as int], fg(Color::Green))).is_prefix_of(
                ink(markdown(text, width)),
            )
        }),
{
    let rows = lines_of(text);
    rendering_keeps_the_ink(text, width);
    ink_grows(rows, i + 1, rows.len());
}

/// No line on the screen is wider than there is room.
pub proof fn lines_fit_the_width(text: Seq<char>, width: int, i: int)
    requires
        width > 0,
        0 <= i < markdown(text, width).len(),
    ensures
        line_chars(markdown(text, width)[i]) <= width,
{
    let rows = lines_of(text);
    if source_lines(rows, width, rows.len()).len() > 0 {
        source_lines_fit(rows, width, rows.len(), i);
    }
}

proof fn source_lines_fit(rows: Seq<Seq<char>>, width: int, n: nat, i: int)
    requires
        width > 0,
        0 <= i < source_lines(rows, width, n).len(),
    ensures
        line_chars(source_lines(rows, width, n)[i]) <= width,
    decreases n,
{
    if n > 0 {
        let before = source_lines(rows, width, (n - 1) as nat);
        let line = rows[n - 1];
        if i < before.len() {
            source_lines_fit(rows, width, (n - 1) as nat, i);
        } else {
            let green = seq![span(line, fg(Color::Green))];
            if line_chars(green) > width {
                wrapping_keeps_the_text(green, width);
            }
            if line_chars(prose(line)) > width {
                wrapping_keeps_the_text(prose(line), width);
            }
        }
    }
}

/// An empty line of the source is an empty line on the screen, and a line that
/// fits is one line there.
pub proof fn short_lines_stay_one(line: Seq<char>, code: bool, width: int)
    requires
        !is_fence(line),
        line_chars(prose(line)) <= width,
        line.len() <= width,
    ensures
        source_line(line, code, width).len() == 1,
        code ==> source_line(line, code, width)[0] == seq![span(line, fg(Color::Green))],
        !code ==> source_line(line, code, width)[0] == prose(line),
{
    let green = seq![span(line, fg(Color::Green))];
    assert(green.drop_last() =~= empty_line());
    assert(line_chars(empty_line()) == 0);
    assert(line_chars(green) == line.len());
}

// ─── Prose ───────────────────────────────────────────────────────────────────

/// A text begins with neither white space nor one of the marks of a line.
pub open spec fn begins_plainly(s: Seq<char>) -> bool {
    s.len() > 0 && !whitespace(s[0]) && s[0] != '#'
}

proof fn hashes_of(n: nat, rest: Seq<char>)
    requires
        rest.len() > 0 ==> rest[0] != '#',
    ensures
        hashes(repeated('#', n) + rest) == n,
    decreases n,
{
    let s = repeated('#', n) + rest;
    if n > 0 {
        hashes_of((n - 1) as nat, rest);
        assert(s[0] == '#');
        assert(s.subrange(1, s.len() as int) =~= repeated('#', (n - 1) as nat) + rest);
    } else {
        assert(s =~= rest);
    }
}

/// A heading is shown without its hash marks, in bold.
pub proof fn headings_are_bold(n: nat, h: Seq<char>)
    requires
        1 <= n <= 6,
        begins_plainly(h),
    ensures
        prose(repeated('#', n) + seq![' '] + h) == seq![span(h, fg_bold(Color::White))],
{
    let line = repeated('#', n) + seq![' '] + h;
    let rest = seq![' '] + h;
    assert(line =~= repeated('#', n) + rest);
    hashes_of(n, rest);
    assert(line[0] == '#');
    assert(trimmed_start(line) == line);
    assert(line.subrange(n as int, line.len() as int) =~= rest);
    assert(rest.subrange(1, rest.len() as int) =~= h);
    assert(trimmed_start(h) == h);
    assert(trimmed_start(rest) == h);
}

/// Without a hash mark in front there is no heading.
pub proof fn headings_begin_with_a_hash(line: Seq<char>)
    ensures
        heading_of(line) is Some ==> trimmed_start(line).len() > 0 && trimmed_start(line)[0] == '#',
        heading_of(line) is Some ==> hashes(trimmed_start(line)) <= 6,
{
}

/// An item of a list has a bullet in place of its mark, and the rest is prose.
pub proof fn items_have_bullets(mark: char, t: Seq<char>)
    requires
        mark == '-' || mark == '*',
    ensures
        ({
            let l = prose(seq![mark, ' '] + t);
            &&& l.len() == 1 + crate::markdown::inline(t).len()
            &&& l[0].text == "\u{2022} "@
            &&& l.subrange(1, l.len() as int) == crate::markdown::inline(t)
        }),
{
    let line = seq![mark, ' '] + t;
    assert(line[0] == mark && line[1] == ' ');
    assert(trimmed_start(line) == line);
    assert(hashes(line) == 0);
    assert(heading_of(line) is None);
    assert(is_item(line));
    assert(line.subrange(2, line.len() as int) =~= t);
    let l = prose(line);
    assert(crate::markdown::indent_of(line) == 0);
    assert(crate::text::blanks(0) + "\u{2022} "@ =~= "\u{2022} "@);
    assert(l.subrange(1, l.len() as int) =~= crate::markdown::inline(t));
}

/// A line that is neither a heading nor an item is prose as it stands.
pub proof fn other_lines_are_prose(line: Seq<char>)
    requires
        trimmed_start(line).len() > 0 ==> trimmed_start(line)[0] != '#' && trimmed_start(line)[0]
            != '-' && trimmed_start(line)[0] != '*',
    ensures
        prose(line) == crate::markdown::inline(line),
{
}

// ─── Emphasis ────────────────────────────────────────────────────────────────

/// No mark of emphasis stands in the text.
pub open spec fn unmarked(s: Seq<char>) -> bool {
    forall|k: int| 0 <= k < s.len() ==> #[trigger] s[k] != '*' && s[k] != '`'
}

proof fn find_hits(s: Seq<char>, c: char, from: int, at: int)
    requires
        0 <= from <= at <= s.len(),
        forall|k: int| from <= k < at ==> #[trigger] s[k] != c,
        at < s.len() ==> s[at] == c,
    ensures
        find(s, c, from) == at,
    decreases at - from,
{
    if from < at {
        assert(s[from] != c);
        find_hits(s, c, from + 1, at);
    }
}

proof fn find_stars_hits(s: Seq<char>, from: int, at: int)
    requires
        0 <= from <= at,
        at + 1 < s.len(),
        two_stars(s, at),
        forall|k: int| from <= k < at ==> #[trigger] s[k] != '*',
    ensures
        find_stars(s, from) == at,
    decreases at - from,
{
    if from < at {
        assert(s[from] != '*');
        find_stars_hits(s, from + 1, at);
    }
}

proof fn find_shifts(p: Seq<char>, s: Seq<char>, c: char, from: int)
    requires
        0 <= from <= s.len(),
    ensures
        find(p + s, c, p.len() + from) == p.len() + find(s, c, from),
        from <= find(s, c, from) <= s.len(),
    decreases s.len() - from,
{
    if from < s.len() && s[from] != c {
        find_shifts(p, s, c, from + 1);
    }
}

proof fn find_stars_shifts(p: Seq<char>, s: Seq<char>, from: int)
    requires
        0 <= from <= s.len(),
    ensures
        find_stars(p + s, p.len() + from) == p.len() + find_stars(s, from),
        from <= find_stars(s, from) <= s.len(),
    decreases s.len() - from,
{
    if from + 1 < s.len() && !two_stars(s, from) {
        find_stars_shifts(p, s, from + 1);
    }
}

proof fn inline_shifts(p: Seq<char>, s: Seq<char>, i: int, text: Seq<char>)
    requires
        0 <= i <= s.len(),
    ensures
        inline_from(p + s, p.len() + i, text) == inline_from(s, i, text),
    decreases s.len() - i,
{
    let all = p + s;
    let n = p.len() as int;
    if i < s.len() {
        assert(all[n + i] == s[i]);
        find_shifts(p, s, '`', i + 1);
        find_shifts(p, s, '*', i + 1);
        if s[i] == '`' {
            let e = find(s, '`', i + 1);
            assert(all.subrange(n + i + 1, n + e) =~= s.subrange(i + 1, e));
            inline_shifts(
                p,
                s,
                if e < s.len() {
                    e + 1
                } else {
                    e
                },
                Seq::empty(),
            );
        } else if two_stars(s, i) {
            assert(two_stars(all, n + i));
            find_stars_shifts(p, s, i + 2);
            let e = find_stars(s, i + 2);
            assert(all.subrange(n + i + 2, n + e) =~= s.subrange(i + 2, e));
            inline_shifts(
                p,
                s,
                if e + 1 < s.len() {
                    e + 2
                } else {
                    e
                },
                Seq::empty(),
            );
        } else if s[i] == '*' {
            assert(!two_stars(all, n + i));
            let e = find(s, '*', i + 1);
            assert(all.subrange(n + i + 1, n + e) =~= s.subrange(i + 1, e));
            inline_shifts(
                p,
                s,
                if e < s.len() {
                    e + 1
                } else {
                    e
                },
                Seq::empty(),
            );
        } else {
            inline_shifts(p, s, i + 1, text.push(s[i]));
        }
    }
}

proof fn plain_run(a: Seq<char>, s: Seq<char>, i: int)
    requires
        unmarked(a),
        0 <= i <= a.len(),
    ensures
        inline_from(a + s, i, a.take(i)) == inline_from(a + s, a.len() as int, a),
    decreases a.len() - i,
{
    if i < a.len() {
        assert((a + s)[i] == a[i]);
        assert(a.take(i).push(a[i]) =~= a.take(i + 1));
        plain_run(a, s, i + 1);
    } else {
        assert(a.take(i) =~= a);
    }
}

/// Plain text goes before the emphasis: it is shown as it is, and what follows
/// does not depend on it.
pub proof fn bold_is_between_two_stars(a: Seq<char>, t: Seq<char>, b: Seq<char>)
    requires
        unmarked(a),
        forall|k: int| 0 <= k < t.len() ==> #[trigger] t[k] != '*',
    ensures
        crate::markdown::inline(a + (seq!['*', '*'] + t + seq!['*', '*']) + b) == flushed(a).push(span(t, bold()))
            + crate::markdown::inline(b),
{
    let mark = seq!['*', '*'] + t + seq!['*', '*'];
    let s = a + mark + b;
    let n = a.len() as int;
    let e = n + 2 + t.len();
    assert(s =~= a + (mark + b));
    plain_run(a, mark + b, 0);
    assert(a.take(0) =~= Seq::<char>::empty());
    assert(s[n] == '*' && s[n + 1] == '*');
    assert(two_stars(s, n));
    assert forall|k: int| n + 2 <= k < e implies #[trigger] s[k] != '*' by {
        assert(s[k] == t[k - n - 2]);
    }
    assert(s[e] == '*' && s[e + 1] == '*');
    find_stars_hits(s, n + 2, e);
    assert(s.subrange(n + 2, e) =~= t);
    inline_shifts(a + mark, b, 0, Seq::empty());
}

/// A single star on each side gives italics.
pub proof fn italics_are_between_stars(a: Seq<char>, t: Seq<char>, b: Seq<char>)
    requires
        unmarked(a),
        t.len() > 0,
        forall|k: int| 0 <= k < t.len() ==> #[trigger] t[k] != '*',
    ensures
        crate::markdown::inline(a + (seq!['*'] + t + seq!['*']) + b) == flushed(a).push(span(t, italic())) + crate::markdown::inline(
            b,
        ),
{
    let mark = seq!['*'] + t + seq!['*'];
    let s = a + mark + b;
    let n = a.len() as int;
    let e = n + 1 + t.len();
    assert(s =~= a + (mark + b));
    plain_run(a, mark + b, 0);
    assert(a.take(0) =~= Seq::<char>::empty());
    assert(s[n] == '*');
    assert(s[n + 1] == t[0]);
    assert forall|k: int| n + 1 <= k < e implies #[trigger] s[k] != '*' by {
        assert(s[k] == t[k - n - 1]);
    }
    assert(s[e] == '*');
    find_hits(s, '*', n + 1, e);
    assert(s.subrange(n + 1, e) =~= t);
    inline_shifts(a + mark, b, 0, Seq::empty());
}

/// Backticks give code: stars between them are shown as they are.
pub proof fn code_is_between_backticks(a: Seq<char>, t: Seq<char>, b: Seq<char>)
    requires
        unmarked(a),
        forall|k: int| 0 <= k < t.len() ==> #[trigger] t[k] != '`',
    ensures
        crate::markdown::inline(a + (seq!['`'] + t + seq!['`']) + b) == flushed(a).push(span(t, fg(Color::Green)))
            + crate::markdown::inline(b),
{
    let mark = seq!['`'] + t + seq!['`'];
    let s = a + mark + b;
    let n = a.len() as int;
    let e = n + 1 + t.len();
    assert(s =~= a + (mark + b));
    plain_run(a, mark + b, 0);
    assert(a.take(0) =~= Seq::<char>::empty());
    assert(s[n] == '`');
    assert forall|k: int| n + 1 <= k < e implies #[trigger] s[k] != '`' by {
        assert(s[k] == t[k - n - 1]);
    }
    assert(s[e] == '`');
    find_hits(s, '`', n + 1, e);
    assert(s.subrange(n + 1, e) =~= t);
    inline_shifts(a + mark, b, 0, Seq::empty());
}

/// The styles of emphasis are what their names say.
pub proof fn emphasis_is_seen()
    ensures
        bold().bold && !bold().italic,
        italic().italic && !italic().bold,
        fg(Color::Green).fg == Some(Color::Green),
{
}

/// The text of plain prose is shown letter by letter.
pub proof fn plain_prose_is_shown(s: Seq<char>)
    requires
        unmarked(s),
    ensures
        line_text(crate::markdown::inline(s)) == s,
{
    crate::markdown::plain_text_stays(s);
    if s.len() > 0 {
        assert(flushed(s).drop_last() =~= empty_line());
        reveal_with_fuel(line_text, 2);
        assert(line_text(flushed(s)) =~= s);
    } else {
        assert(line_text(flushed(s)) =~= s);
    }
}

// ─── Lines of a text ─────────────────────────────────────────────────────────

/// The lines of a text without carriage returns are its parts between the line
/// feeds; a line feed at the end begins no further line.
pub proof fn lines_are_between_line_feeds(s: Seq<char>)
    requires
        !s.contains('\r'),
    ensures
        ({
            let parts = pieces(s, '\n');
            &&& parts.last().len() > 0 ==> lines_of(s) == parts
            &&& parts.last().len() == 0 ==> lines_of(s) == parts.drop_last()
        }),
{
    let parts = pieces(s, '\n');
    crate::text::pieces_nonempty(s, '\n');
    assert forall|i: int| 0 <= i < parts.len() implies crate::markdown::without_cr(
        #[trigger] parts[i],
    ) == parts[i] by {
        pieces_are_within(s, '\n', i);
        if parts[i].len() > 0 {
            assert(parts[i].contains(parts[i].last()));
        }
    }
    let ended = Seq::new(
        (parts.len() - 1) as nat,
        |i: int| crate::markdown::without_cr(parts[i]),
    );
    assert(ended =~= parts.drop_last());
    assert(parts.drop_last().push(parts.last()) =~= parts);
}

proof fn pieces_are_within(s: Seq<char>, c: char, i: int)
    requires
        0 <= i < pieces(s, c).len(),
    ensures
        forall|x: char| pieces(s, c)[i].contains(x) ==> s.contains(x),
    decreases s.len(),
{
    if s.len() > 0 {
        let t = s.drop_last();
        let before = pieces(t, c);
        crate::text::pieces_nonempty(t, c);
        assert forall|x: char| t.contains(x) implies s.contains(x) by {
            let k = choose|k: int| 0 <= k < t.len() && t[k] == x;
            assert(s[k] == x);
        }
        if i < before.len() - 1 || (s.last() == c && i < before.len()) {
            pieces_are_within(t, c, i);
        } else if s.last() != c {
            pieces_are_within(t, c, before.len() - 1);
            let p = pieces(s, c)[i];
            assert forall|x: char| p.contains(x) implies s.contains(x) by {
                let k = choose|k: int| 0 <= k < p.len() && p[k] == x;
                if k < before.last().len() {
                    assert(before.last()[k] == x);
                    assert(before.last().contains(x));
                } else {
                    assert(s[s.len() - 1] == x);
                }
            }
        }
    }
}

/// A line that fits is not wrapped, and one that does not is broken into lines
/// that hold its characters in order, blanks at the breaks left out.
pub proof fn wrapping_keeps_what_is_seen(l: Seq<SpanView>, width: int)
    ensures
        ink(wrapped_line(l, width)) == inked(glyphs(l)),
        glyphs(l).len() == line_chars(l),
{
    wrapping_keeps_the_ink(l, width);
    glyphs_spell_the_text(l);
}

/// A carriage return in front of a line feed belongs to the end of the line.
pub proof fn carriage_returns_end_lines(s: Seq<char>, i: int, t: Seq<char>)
    requires
        0 <= i < pieces(s, '\n').len() - 1,
    ensures
        pieces(s, '\n')[i] == t.push('\r') ==> lines_of(s)[i] == t,
        pieces(s, '\n')[i].len() == 0 ==> lines_of(s)[i].len() == 0,
        i < lines_of(s).len(),
{
    assert(t.push('\r').drop_last() =~= t);
}

proof fn lead_goes(w: Seq<char>, t: Seq<char>)
    requires
        forall|k: int| 0 <= k < w.len() ==> whitespace(#[trigger] w[k]),
        t.len() > 0,
        !whitespace(t[0]),
    ensures
        trimmed_start(w + t) == t,
    decreases w.len(),
{
    let s = w + t;
    if w.len() > 0 {
        assert(s[0] == w[0]);
        let v = w.subrange(1, w.len() as int);
        assert(s.subrange(1, s.len() as int) =~= v + t);
        lead_goes(v, t);
    } else {
        assert(s =~= t);
    }
}

/// An indented item is an item: its bullet stands as far in as its mark did,
/// and the rest is prose.
pub proof fn indented_items_have_bullets(w: Seq<char>, mark: char, t: Seq<char>)
    requires
        mark == '-' || mark == '*',
        forall|k: int| 0 <= k < w.len() ==> whitespace(#[trigger] w[k]),
    ensures
        ({
            let line = w + (seq![mark, ' '] + t);
            let l = prose(line);
            &&& l.len() == 1 + crate::markdown::inline(t).len()
            &&& l[0].text == crate::text::blanks(crate::markdown::indent_of(line))
                + "\u{2022} "@
            &&& l.subrange(1, l.len() as int) == crate::markdown::inline(t)
        }),
{
    let body = seq![mark, ' '] + t;
    let line = w + body;
    assert(body[0] == mark && body[1] == ' ');
    lead_goes(w, body);
    assert(hashes(body) == 0);
    assert(is_item(line));
    assert(body.subrange(2, body.len() as int) =~= t);
    let l = prose(line);
    assert(l.subrange(1, l.len() as int) =~= crate::markdown::inline(t));
}

/// An indented heading is a heading.
pub proof fn indented_headings_are_bold(w: Seq<char>, n: nat, h: Seq<char>)
    requires
        1 <= n <= 6,
        begins_plainly(h),
        forall|k: int| 0 <= k < w.len() ==> whitespace(#[trigger] w[k]),
    ensures
        prose(w + (repeated('#', n) + seq![' '] + h)) == seq![span(h, fg_bold(Color::White))],
{
    let body = repeated('#', n) + seq![' '] + h;
    assert(body[0] == '#');
    lead_goes(w, body);
    headings_are_bold(n, h);
    assert(trimmed_start(body) == body);
    assert(heading_of(w + body) == heading_of(body));
    let rest = seq![' '] + h;
    assert(body =~= repeated('#', n) + rest);
    hashes_of(n, rest);
    assert(body.subrange(n as int, body.len() as int) =~= rest);
    assert(rest.subrange(1, rest.len() as int) =~= h);
    assert(trimmed_start(h) == h);
    assert(trimmed_start(rest) == h);
}

/// Emphasis that is not closed goes on to the end: nothing behind its mark is
/// lost.
pub proof fn open_emphasis_goes_on(a: Seq<char>, t: Seq<char>)
    requires
        unmarked(a),
        unmarked(t),
    ensures
        crate::markdown::inline(a + (seq!['`'] + t)) == flushed(a).push(span(t, fg(Color::Green))),
        t.len() > 0 ==> crate::markdown::inline(a + (seq!['*'] + t)) == flushed(a).push(
            span(t, italic()),
        ),
{
    let n = a.len() as int;
    let none = Seq::<char>::empty();
    assert(a.take(0) =~= none);
    let s = a + (seq!['`'] + t);
    plain_run(a, seq!['`'] + t, 0);
    assert(s[n] == '`');
    assert forall|k: int| n + 1 <= k < s.len() implies #[trigger] s[k] != '`' by {
        assert(s[k] == t[k - n - 1]);
    }
    find_hits(s, '`', n + 1, s.len() as int);
    assert(s.subrange(n + 1, s.len() as int) =~= t);
    assert(inline_from(s, s.len() as int, none) =~= Seq::<SpanView>::empty());
    assert(crate::markdown::inline(s) =~= flushed(a).push(span(t, fg(Color::Green))));
    if t.len() > 0 {
        let u = a + (seq!['*'] + t);
        plain_run(a, seq!['*'] + t, 0);
        assert(u[n] == '*');
        assert(u[n + 1] == t[0]);
        assert forall|k: int| n + 1 <= k < u.len() implies #[trigger] u[k] != '*' by {
            assert(u[k] == t[k - n - 1]);
        }
        find_hits(u, '*', n + 1, u.len() as int);
        assert(u.subrange(n + 1, u.len() as int) =~= t);
        assert(inline_from(u, u.len() as int, none) =~= Seq::<SpanView>::empty());
        assert(crate::markdown::inline(u) =~= flushed(a).push(span(t, italic())));
    }
}

} // verus!
