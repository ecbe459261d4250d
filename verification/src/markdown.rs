//! Markdown as styled lines: headings, lists, code, and inline emphasis,
//! wrapped to a width.
use vstd::prelude::*;

use crate::style::{
    bold, empty_line, fg, fg_bold, line_chars, line_text, plain, span, Color, Line, Page, SpanView,
    Style,
};
use crate::text::{
    at_most, blanks, cat, chars_of, monus, pieces, spaces, split, string_of, texts, trim_start,
    trimmed_start,
};

verus! {

// ─── Lines of a text ─────────────────────────────────────────────────────────

/// A line without the carriage return at its end.
pub open spec fn without_cr(line: Seq<char>) -> Seq<char> {
    if line.len() > 0 && line.last() == '\r' {
        line.drop_last()
    } else {
        line
    }
}

/// The lines of a text. A line ends with a line feed or with a carriage return
/// and a line feed; the last one may go without.
pub open spec fn lines_of(s: Seq<char>) -> Seq<Seq<char>> {
    let parts = pieces(s, '\n');
    let last = parts.last();
    let ended = Seq::new((parts.len() - 1) as nat, |i: int| without_cr(parts[i]));
    if last.len() == 0 {
        ended
    } else {
        ended.push(last)
    }
}

/// The lines of a text.
pub fn lines(s: &str) -> (r: Vec<String>)
    ensures
        texts(r@) == lines_of(s@),
{
    let parts = split(s, '\n');
    let ghost all = pieces(s@, '\n');
    proof {
        crate::text::pieces_nonempty(s@, '\n');
        assert(texts(parts@).len() == parts@.len());
    }
    let n = parts.len();
    let ghost ended = Seq::new((all.len() - 1) as nat, |i: int| without_cr(all[i]));
    let mut r: Vec<String> = Vec::new();
    let mut i: usize = 0;
    while i < n - 1
        invariant
            n == parts@.len(),
            n >= 1,
            i <= n - 1,
            all == texts(parts@),
            ended == Seq::new((all.len() - 1) as nat, |i: int| without_cr(all[i])),
            texts(r@) =~= ended.take(i as int),
        decreases n - i,
    {
        let line = parts[i].as_str();
        assert(all[i as int] == line@);
        let len = line.unicode_len();
        if len > 0 && line.get_char(len - 1) == '\r' {
            assert(line@.subrange(0, len - 1) =~= line@.drop_last());
            crate::text::push_text(&mut r, line.substring_char(0, len - 1).to_owned());
        } else {
            crate::text::push_text(&mut r, line.to_owned());
        }
        i += 1;
    }
    assert(ended.take(ended.len() as int) =~= ended);
    let last = parts[n - 1].as_str();
    assert(all.last() == last@);
    if last.unicode_len() > 0 {
        crate::text::push_text(&mut r, last.to_owned());
    }
    r
}

// ─── Styled characters ───────────────────────────────────────────────────────

/// A character with its style.
pub type Glyph = (char, Style);

/// The characters of a span, each with the span's style.
pub open spec fn span_glyphs(s: SpanView) -> Seq<Glyph> {
    Seq::new(s.text.len(), |i: int| (s.text[i], s.style))
}

/// The characters of a line, each with its style.
pub open spec fn glyphs(l: Seq<SpanView>) -> Seq<Glyph>
    decreases l.len(),
{
    if l.len() == 0 {
        Seq::empty()
    } else {
        glyphs(l.drop_last()) + span_glyphs(l.last())
    }
}

/// The characters of glyphs, styles left out.
pub open spec fn letters(g: Seq<Glyph>) -> Seq<char> {
    Seq::new(g.len(), |i: int| g[i].0)
}

/// The shortest sequence of spans with these styled characters: neighbours in
/// the same style share a span.
pub open spec fn grouped(g: Seq<Glyph>) -> Seq<SpanView>
    decreases g.len(),
{
    if g.len() == 0 {
        Seq::empty()
    } else {
        let before = grouped(g.drop_last());
        if before.len() > 0 && before.last().style == g.last().1 {
            before.drop_last().push(
                span(before.last().text.push(g.last().0), g.last().1),
            )
        } else {
            before.push(span(seq![g.last().0], g.last().1))
        }
    }
}

/// Grouping changes no character and no style.
pub proof fn grouping_keeps_glyphs(g: Seq<Glyph>)
    ensures
        glyphs(grouped(g)) == g,
        g.len() > 0 ==> grouped(g).len() > 0 && grouped(g).last().style == g.last().1,
    decreases g.len(),
{
    if g.len() > 0 {
        let t = g.drop_last();
        let before = grouped(t);
        grouping_keeps_glyphs(t);
        assert(g =~= t.push(g.last()));
        if before.len() > 0 && before.last().style == g.last().1 {
            let all = grouped(g);
            assert(all.drop_last() =~= before.drop_last());
            assert(span_glyphs(all.last()) =~= span_glyphs(before.last()).push(g.last()));
            assert(glyphs(all) =~= (glyphs(before.drop_last()) + span_glyphs(before.last())).push(
                g.last(),
            ));
        } else {
            let all = grouped(g);
            assert(all.drop_last() =~= before);
            assert(span_glyphs(all.last()) =~= seq![g.last()]);
            assert(glyphs(all) =~= t.push(g.last()));
        }
    }
}

/// A line has as many glyphs as characters, and they spell its text.
pub proof fn glyphs_spell_the_text(l: Seq<SpanView>)
    ensures
        glyphs(l).len() == line_chars(l),
        letters(glyphs(l)) == line_text(l),
        line_text(l).len() == line_chars(l),
    decreases l.len(),
{
    if l.len() > 0 {
        glyphs_spell_the_text(l.drop_last());
        assert(letters(glyphs(l)) =~= letters(glyphs(l.drop_last())) + l.last().text);
    } else {
        assert(letters(glyphs(l)) =~= line_text(l));
    }
}

/// The characters of a line, each with its style.
fn glyphs_of(l: &Line) -> (r: Vec<Glyph>)
    ensures
        r@ == glyphs(l@),
{
    let mut r: Vec<Glyph> = Vec::new();
    let mut i: usize = 0;
    assert(l@.take(0) =~= empty_line());
    while i < l.spans.len()
        invariant
            i <= l.spans@.len(),
            r@ == glyphs(l@.take(i as int)),
        decreases l.spans.len() - i,
    {
        let chars = chars_of(l.spans[i].text.as_str());
        let style = l.spans[i].style;
        let ghost start = r@;
        let ghost s = l.spans@[i as int]@;
        let mut k: usize = 0;
        assert(r@ =~= start + span_glyphs(s).take(0));
        while k < chars.len()
            invariant
                k <= chars@.len(),
                chars@ == s.text,
                style == s.style,
                r@ == start + span_glyphs(s).take(k as int),
            decreases chars.len() - k,
        {
            r.push((chars[k], style));
            k += 1;
            assert(r@ =~= start + span_glyphs(s).take(k as int));
        }
        proof {
            assert(span_glyphs(s).take(chars@.len() as int) =~= span_glyphs(s));
            let t = l@.take(i + 1);
            assert(t.drop_last() =~= l@.take(i as int));
            assert(t.last() == s);
        }
        i += 1;
    }
    assert(l@.take(l@.len() as int) =~= l@);
    r
}

/// The glyphs `from..to` as spans.
fn group(g: &Vec<Glyph>, from: usize, to: usize) -> (r: Line)
    requires
        from <= to <= g@.len(),
    ensures
        r@ == grouped(g@.subrange(from as int, to as int)),
{
    let mut done = Line::new();
    let mut text = String::new();
    let mut style = plain();
    let mut i: usize = from;
    while i < to
        invariant
            from <= i <= to <= g@.len(),
            i == from ==> done@ == empty_line() && text@ == Seq::<char>::empty(),
            i > from ==> grouped(g@.subrange(from as int, i as int)) == done@.push(
                span(text@, style),
            ),
        decreases to - i,
    {
        let glyph = g[i];
        let ghost cur = g@.subrange(from as int, i + 1);
        proof {
            assert(cur.drop_last() =~= g@.subrange(from as int, i as int));
            assert(cur.last() == glyph);
            if i > from {
                let before = done@.push(span(text@, style));
                assert(before.drop_last() =~= done@);
                assert(before.last() == span(text@, style));
            } else {
                assert(grouped(cur.drop_last()) =~= empty_line());
            }
        }
        if i == from {
            style = glyph.1;
            text.push(glyph.0);
            assert(text@ =~= seq![glyph.0]);
        } else if glyph.1 == style {
            text.push(glyph.0);
        } else {
            done.push(text.as_str(), style);
            text = String::new();
            text.push(glyph.0);
            assert(text@ =~= seq![glyph.0]);
            style = glyph.1;
        }
        i += 1;
    }
    if from < to {
        done.push(text.as_str(), style);
    } else {
        assert(g@.subrange(from as int, to as int) =~= Seq::<Glyph>::empty());
    }
    done
}

// ─── Wrapping styled lines ───────────────────────────────────────────────────

/// The last blank in `g[from..to]`.
pub open spec fn last_blank(g: Seq<Glyph>, from: int, to: int) -> Option<int>
    decreases to - from,
{
    if to <= from {
        None
    } else if g[to - 1].0 == ' ' {
        Some(to - 1)
    } else {
        last_blank(g, from, to - 1)
    }
}

/// The first position at or behind `from` that holds no blank.
pub open spec fn past_blanks(g: Seq<Glyph>, from: int) -> int
    decreases g.len() - from,
{
    if 0 <= from < g.len() && g[from].0 == ' ' {
        past_blanks(g, from + 1)
    } else {
        from
    }
}

/// Where the line that begins at `pos` ends: behind the last blank that fits,
/// or at the full width where no blank does.
pub open spec fn line_end(g: Seq<Glyph>, pos: int, width: int) -> int {
    let end = at_most(pos + width, g.len() as int);
    if end >= g.len() {
        end
    } else {
        match last_blank(g, pos, end) {
            Some(p) => p + 1,
            None => end,
        }
    }
}

proof fn last_blank_bounds(g: Seq<Glyph>, from: int, to: int)
    ensures
        last_blank(g, from, to) matches Some(p) ==> from <= p < to && g[p].0 == ' ',
    decreases to - from,
{
    if to > from && g[to - 1].0 != ' ' {
        last_blank_bounds(g, from, to - 1);
    }
}

proof fn past_blanks_bounds(g: Seq<Glyph>, from: int)
    requires
        0 <= from <= g.len(),
    ensures
        from <= past_blanks(g, from) <= g.len(),
        forall|k: int| from <= k < past_blanks(g, from) ==> (#[trigger] g[k]).0 == ' ',
    decreases g.len() - from,
{
    if from < g.len() && g[from].0 == ' ' {
        past_blanks_bounds(g, from + 1);
    }
}

proof fn line_end_bounds(g: Seq<Glyph>, pos: int, width: int)
    requires
        0 <= pos < g.len(),
        width > 0,
    ensures
        pos < line_end(g, pos, width) <= pos + width,
        line_end(g, pos, width) <= g.len(),
{
    last_blank_bounds(g, pos, at_most(pos + width, g.len() as int));
}

/// The pieces of the line from `pos` on. Blanks at a break are dropped.
pub open spec fn wrap_from(g: Seq<Glyph>, pos: int, width: int) -> Seq<Seq<Glyph>>
    decreases g.len() - pos,
    when 0 <= pos && width > 0
    via wrap_from_decreases
{
    if pos >= g.len() {
        Seq::empty()
    } else {
        let end = line_end(g, pos, width);
        seq![g.subrange(pos, end)] + wrap_from(g, past_blanks(g, end), width)
    }
}

#[via_fn]
proof fn wrap_from_decreases(g: Seq<Glyph>, pos: int, width: int) {
    if pos < g.len() {
        line_end_bounds(g, pos, width);
        past_blanks_bounds(g, line_end(g, pos, width));
    }
}

/// A line wrapped to `width` characters, styles kept. A line that fits, or a
/// width of 0, is left alone.
pub open spec fn wrapped_line(l: Seq<SpanView>, width: int) -> Seq<Seq<SpanView>> {
    if line_chars(l) <= width || width <= 0 {
        seq![l]
    } else {
        let parts = wrap_from(glyphs(l), 0, width);
        Seq::new(parts.len(), |i: int| grouped(parts[i]))
    }
}

/// Wrap a styled line to fit within `max_width`, preserving span styles.
pub fn wrap_styled_line(line: Line, max_width: usize) -> (r: Page)
    ensures
        r@ == wrapped_line(line@, max_width as int),
{
    let g = glyphs_of(&line);
    proof {
        glyphs_spell_the_text(line@);
    }
    let mut page = Page::new();
    let n = g.len();
    if n <= max_width || max_width == 0 {
        page.push(line);
        assert(page@ =~= seq![line@]);
        return page;
    }
    let ghost all = wrap_from(g@, 0, max_width as int);
    let ghost views = Seq::new(all.len(), |i: int| grouped(all[i]));
    let mut pos: usize = 0;
    let ghost mut count: int = 0;
    proof {
        assert(all =~= all.take(0) + wrap_from(g@, 0, max_width as int));
    }
    while pos < n
        invariant
            n == g@.len(),
            pos <= n,
            max_width > 0,
            0 <= count <= all.len(),
            all == all.take(count) + wrap_from(g@, pos as int, max_width as int),
            views == Seq::new(all.len(), |i: int| grouped(all[i])),
            page@ =~= views.take(count),
        decreases n - pos,
    {
        let end = if n - pos > max_width {
            pos + max_width
        } else {
            n
        };
        let mut cut: usize = end;
        if end < n {
            let mut k: usize = end;
            while k > pos && g[k - 1].0 != ' '
                invariant
                    pos <= k <= end < g@.len(),
                    last_blank(g@, pos as int, end as int) == last_blank(
                        g@,
                        pos as int,
                        k as int,
                    ),
                decreases k,
            {
                k -= 1;
            }
            if k > pos {
                cut = k;
            }
        }
        proof {
            line_end_bounds(g@, pos as int, max_width as int);
            assert(cut == line_end(g@, pos as int, max_width as int));
        }
        page.push(group(&g, pos, cut));
        let mut next: usize = cut;
        while next < n && g[next].0 == ' '
            invariant
                n == g@.len(),
                cut <= next <= n,
                past_blanks(g@, cut as int) == past_blanks(g@, next as int),
            decreases n - next,
        {
            next += 1;
        }
        proof {
            let rest = wrap_from(g@, next as int, max_width as int);
            assert(wrap_from(g@, pos as int, max_width as int) =~= seq![
                g@.subrange(pos as int, cut as int),
            ] + rest);
            assert(all[count] == g@.subrange(pos as int, cut as int));
            assert(all =~= all.take(count + 1) + rest);
            count = count + 1;
        }
        pos = next;
    }
    proof {
        assert(wrap_from(g@, pos as int, max_width as int) =~= Seq::<Seq<Glyph>>::empty());
        assert(count == all.len());
        assert(page@ =~= views);
    }
    page
}

/// The glyphs of `g` that are not blanks.
pub open spec fn inked(g: Seq<Glyph>) -> Seq<Glyph>
    decreases g.len(),
{
    if g.len() == 0 {
        Seq::empty()
    } else if g.last().0 == ' ' {
        inked(g.drop_last())
    } else {
        inked(g.drop_last()).push(g.last())
    }
}

/// All pieces put together.
pub open spec fn rejoined(parts: Seq<Seq<Glyph>>) -> Seq<Glyph>
    decreases parts.len(),
{
    if parts.len() == 0 {
        Seq::empty()
    } else {
        parts[0] + rejoined(parts.subrange(1, parts.len() as int))
    }
}

proof fn inked_adds(a: Seq<Glyph>, b: Seq<Glyph>)
    ensures
        inked(a + b) == inked(a) + inked(b),
    decreases b.len(),
{
    if b.len() == 0 {
        assert(a + b =~= a);
        assert(inked(a) + inked(b) =~= inked(a));
    } else {
        inked_adds(a, b.drop_last());
        assert((a + b).drop_last() =~= a + b.drop_last());
        assert(inked(a + b) =~= inked(a) + inked(b));
    }
}

proof fn inked_of_blanks(g: Seq<Glyph>)
    requires
        forall|k: int| 0 <= k < g.len() ==> (#[trigger] g[k]).0 == ' ',
    ensures
        inked(g) == Seq::<Glyph>::empty(),
    decreases g.len(),
{
    if g.len() > 0 {
        assert forall|k: int| 0 <= k < g.drop_last().len() implies (
        #[trigger] g.drop_last()[k]).0 == ' ' by {
            assert(g[k].0 == ' ');
        }
        inked_of_blanks(g.drop_last());
    }
}

proof fn wrap_from_facts(g: Seq<Glyph>, pos: int, width: int)
    requires
        0 <= pos <= g.len(),
        width > 0,
    ensures
        forall|i: int|
            0 <= i < wrap_from(g, pos, width).len() ==> 1 <= (#[trigger] wrap_from(
                g,
                pos,
                width,
            )[i]).len() <= width,
        inked(rejoined(wrap_from(g, pos, width))) == inked(g.subrange(pos, g.len() as int)),
    decreases g.len() - pos,
{
    let all = wrap_from(g, pos, width);
    let n = g.len() as int;
    if pos < n {
        line_end_bounds(g, pos, width);
        let end = line_end(g, pos, width);
        past_blanks_bounds(g, end);
        let next = past_blanks(g, end);
        wrap_from_facts(g, next, width);
        let rest = wrap_from(g, next, width);
        assert(all =~= seq![g.subrange(pos, end)] + rest);
        assert(all.subrange(1, all.len() as int) =~= rest);
        assert forall|i: int| 0 <= i < all.len() implies 1 <= (#[trigger] all[i]).len()
            <= width by {
            if i > 0 {
                assert(all[i] == rest[i - 1]);
            }
        }
        let gap = g.subrange(end, next);
        assert forall|k: int| 0 <= k < gap.len() implies (#[trigger] gap[k]).0 == ' ' by {
            assert(g[end + k].0 == ' ');
        }
        inked_of_blanks(gap);
        inked_adds(g.subrange(pos, end), rejoined(rest));
        inked_adds(gap, g.subrange(next, n));
        inked_adds(g.subrange(pos, end), g.subrange(end, n));
        assert(g.subrange(end, n) =~= gap + g.subrange(next, n));
        assert(g.subrange(pos, n) =~= g.subrange(pos, end) + g.subrange(end, n));
        assert(inked(gap) + inked(g.subrange(next, n)) =~= inked(g.subrange(next, n)));
    } else {
        assert(g.subrange(pos, n) =~= Seq::<Glyph>::empty());
    }
}

/// Wrapping loses nothing but blanks and keeps every style; no line is wider
/// than asked, and none is empty.
pub proof fn wrapping_keeps_the_text(l: Seq<SpanView>, width: int)
    requires
        0 < width < line_chars(l),
    ensures
        inked(rejoined(wrap_from(glyphs(l), 0, width))) == inked(glyphs(l)),
        forall|i: int|
            0 <= i < wrapped_line(l, width).len() ==> 1 <= line_chars(
                #[trigger] wrapped_line(l, width)[i],
            ) <= width,
        forall|i: int|
            0 <= i < wrapped_line(l, width).len() ==> glyphs(#[trigger] wrapped_line(l, width)[i])
                == wrap_from(glyphs(l), 0, width)[i],
{
    let g = glyphs(l);
    glyphs_spell_the_text(l);
    wrap_from_facts(g, 0, width);
    assert(g.subrange(0, g.len() as int) =~= g);
    let parts = wrap_from(g, 0, width);
    assert forall|i: int| 0 <= i < wrapped_line(l, width).len() implies 1 <= line_chars(
        #[trigger] wrapped_line(l, width)[i],
    ) <= width && glyphs(wrapped_line(l, width)[i]) == parts[i] by {
        grouping_keeps_glyphs(parts[i]);
        glyphs_spell_the_text(grouped(parts[i]));
        assert(1 <= parts[i].len() <= width);
    }
}

// ─── Selection ───────────────────────────────────────────────────────────────

/// `style` on the background of a selection.
#[verifier::allow_in_spec]
pub fn highlighted(style: Style) -> Style
    returns
        (Style {
            fg: style.fg,
            bg: Some(Color::Indexed(237)),
            bold: style.bold,
            italic: style.italic,
        }),
{
    Style { fg: style.fg, bg: Some(Color::Indexed(237)), bold: style.bold, italic: style.italic }
}

/// A span that begins at column `col`, with the columns `from..to` highlighted.
pub open spec fn lit_span(s: SpanView, col: int, from: int, to: int) -> Seq<SpanView> {
    let n = s.text.len() as int;
    if col + n <= from || col >= to {
        seq![s]
    } else {
        let a = monus(from, col) as int;
        let b = at_most(to - col, n);
        let before = if a > 0 {
            Seq::empty().push(span(s.text.take(a), s.style))
        } else {
            Seq::empty()
        };
        let through = before.push(span(s.text.subrange(a, b), highlighted(s.style)));
        if b < n {
            through.push(span(s.text.subrange(b, n), s.style))
        } else {
            through
        }
    }
}

/// The first `n` spans of a line with the columns `from..to` highlighted.
pub open spec fn lit_below(l: Seq<SpanView>, from: int, to: int, n: nat) -> Seq<SpanView>
    decreases n,
{
    if n == 0 {
        Seq::empty()
    } else {
        lit_below(l, from, to, (n - 1) as nat) + lit_span(
            l[n - 1],
            line_chars(l.take(n - 1)) as int,
            from,
            to,
        )
    }
}

/// A line with the columns `from..to` highlighted.
pub open spec fn lit(l: Seq<SpanView>, from: int, to: int) -> Seq<SpanView> {
    if from >= to {
        l
    } else {
        lit_below(l, from, to, l.len())
    }
}

fn push_lit(
    out: &mut Line,
    text: &str,
    style: Style,
    col: usize,
    from: usize,
    to: usize,
)
    requires
        from < to,
    ensures
        final(out)@ == old(out)@ + lit_span(
            span(text@, style),
            col as int,
            from as int,
            to as int,
        ),
{
    let ghost start = out@;
    let n = text.unicode_len();
    if col.saturating_add(n) <= from || col >= to {
        out.push(text, style);
        assert(out@ =~= start + seq![span(text@, style)]);
        return;
    }
    let a = from.saturating_sub(col);
    let b = if to - col < n {
        to - col
    } else {
        n
    };
    if a > 0 {
        assert(text@.subrange(0, a as int) =~= text@.take(a as int));
        out.push(text.substring_char(0, a), style);
    }
    out.push(text.substring_char(a, b), highlighted(style));
    if b < n {
        out.push(text.substring_char(b, n), style);
    }
    assert(out@ =~= start + lit_span(span(text@, style), col as int, from as int, to as int));
}

/// Apply a highlight background to a portion of a line (for text selection).
pub fn apply_selection_highlight(line: Line, sel_start: usize, sel_end: usize) -> (r: Line)
    ensures
        r@ == lit(line@, sel_start as int, sel_end as int),
{
    if sel_start >= sel_end {
        return line;
    }
    let mut out = Line::new();
    let mut col: usize = 0;
    let mut i: usize = 0;
    assert(line@.take(0) =~= empty_line());
    while i < line.spans.len()
        invariant
            i <= line.spans@.len(),
            sel_start < sel_end,
            col == at_most(line_chars(line@.take(i as int)) as int, usize::MAX as int),
            out@ == lit_below(line@, sel_start as int, sel_end as int, i as nat),
        decreases line.spans.len() - i,
    {
        proof {
            let t = line@.take(i + 1);
            assert(t.drop_last() =~= line@.take(i as int));
            assert(t.last() == line.spans@[i as int]@);
        }
        let text = line.spans[i].text.as_str();
        push_lit(&mut out, text, line.spans[i].style, col, sel_start, sel_end);
        col = col.saturating_add(text.unicode_len());
        i += 1;
    }
    out
}

proof fn line_text_adds(a: Seq<SpanView>, b: Seq<SpanView>)
    ensures
        line_text(a + b) == line_text(a) + line_text(b),
    decreases b.len(),
{
    if b.len() == 0 {
        assert(a + b =~= a);
        assert(line_text(a) + line_text(b) =~= line_text(a));
    } else {
        line_text_adds(a, b.drop_last());
        assert((a + b).drop_last() =~= a + b.drop_last());
        assert(line_text(a + b) =~= line_text(a) + line_text(b));
    }
}

proof fn lit_span_text(s: SpanView, col: int, from: int, to: int)
    requires
        from < to,
        0 <= col,
    ensures
        line_text(lit_span(s, col, from, to)) == s.text,
{
    let r = lit_span(s, col, from, to);
    let n = s.text.len() as int;
    reveal_with_fuel(line_text, 5);
    if col + n <= from || col >= to {
        assert(r.drop_last() =~= empty_line());
        assert(line_text(r) =~= s.text);
    } else {
        let a = monus(from, col) as int;
        let b = at_most(to - col, n);
        let mid = span(s.text.subrange(a, b), highlighted(s.style));
        if a > 0 {
            let one = Seq::empty().push(span(s.text.take(a), s.style));
            assert(one.drop_last() =~= empty_line());
            let two = one.push(mid);
            assert(two.drop_last() =~= one);
            if b < n {
                assert(r.drop_last() =~= two);
            }
        } else {
            let one = Seq::<SpanView>::empty().push(mid);
            assert(one.drop_last() =~= empty_line());
            if b < n {
                assert(r.drop_last() =~= one);
            }
        }
        assert(line_text(r) =~= s.text);
    }
}

proof fn lit_below_text(l: Seq<SpanView>, from: int, to: int, n: nat)
    requires
        from < to,
        n <= l.len(),
    ensures
        line_text(lit_below(l, from, to, n)) == line_text(l.take(n as int)),
    decreases n,
{
    if n > 0 {
        lit_below_text(l, from, to, (n - 1) as nat);
        let col = line_chars(l.take(n - 1)) as int;
        lit_span_text(l[n - 1], col, from, to);
        line_text_adds(
            lit_below(l, from, to, (n - 1) as nat),
            lit_span(l[n - 1], col, from, to),
        );
        assert(l.take(n as int).drop_last() =~= l.take(n - 1));
    } else {
        assert(l.take(0) =~= empty_line());
    }
}

/// Styled characters that begin at column `col`, with those in the columns
/// `from..to` highlighted.
pub open spec fn lit_glyphs(g: Seq<Glyph>, col: int, from: int, to: int) -> Seq<Glyph> {
    Seq::new(
        g.len(),
        |i: int|
            if from <= col + i < to {
                (g[i].0, highlighted(g[i].1))
            } else {
                g[i]
            },
    )
}

proof fn glyphs_add(a: Seq<SpanView>, b: Seq<SpanView>)
    ensures
        glyphs(a + b) == glyphs(a) + glyphs(b),
    decreases b.len(),
{
    if b.len() == 0 {
        assert(a + b =~= a);
        assert(glyphs(a) + glyphs(b) =~= glyphs(a));
    } else {
        glyphs_add(a, b.drop_last());
        assert((a + b).drop_last() =~= a + b.drop_last());
        assert(glyphs(a + b) =~= glyphs(a) + glyphs(b));
    }
}

proof fn lit_span_glyphs(s: SpanView, col: int, from: int, to: int)
    requires
        from < to,
        0 <= col,
    ensures
        glyphs(lit_span(s, col, from, to)) == lit_glyphs(span_glyphs(s), col, from, to),
{
    let r = lit_span(s, col, from, to);
    let n = s.text.len() as int;
    let wanted = lit_glyphs(span_glyphs(s), col, from, to);
    reveal_with_fuel(glyphs, 5);
    if col + n <= from || col >= to {
        assert(r.drop_last() =~= empty_line());
        assert(glyphs(r) =~= wanted);
    } else {
        let a = monus(from, col) as int;
        let b = at_most(to - col, n);
        let mid = span(s.text.subrange(a, b), highlighted(s.style));
        if a > 0 {
            let one = Seq::empty().push(span(s.text.take(a), s.style));
            assert(one.drop_last() =~= empty_line());
            let two = one.push(mid);
            assert(two.drop_last() =~= one);
            if b < n {
                assert(r.drop_last() =~= two);
            }
        } else {
            let one = Seq::<SpanView>::empty().push(mid);
            assert(one.drop_last() =~= empty_line());
            if b < n {
                assert(r.drop_last() =~= one);
            }
        }
        assert(glyphs(r) =~= wanted);
    }
}

proof fn lit_below_glyphs(l: Seq<SpanView>, from: int, to: int, n: nat)
    requires
        from < to,
        n <= l.len(),
    ensures
        glyphs(lit_below(l, from, to, n)) == lit_glyphs(glyphs(l.take(n as int)), 0, from, to),
    decreases n,
{
    if n > 0 {
        lit_below_glyphs(l, from, to, (n - 1) as nat);
        let col = line_chars(l.take(n - 1)) as int;
        lit_span_glyphs(l[n - 1], col, from, to);
        glyphs_add(lit_below(l, from, to, (n - 1) as nat), lit_span(l[n - 1], col, from, to));
        glyphs_spell_the_text(l.take(n - 1));
        assert(l.take(n as int).drop_last() =~= l.take(n - 1));
        assert(lit_glyphs(glyphs(l.take(n as int)), 0, from, to) =~= lit_glyphs(
            glyphs(l.take(n - 1)),
            0,
            from,
            to,
        ) + lit_glyphs(span_glyphs(l[n - 1]), col, from, to));
    } else {
        assert(l.take(0) =~= empty_line());
        assert(lit_glyphs(glyphs(l.take(0)), 0, from, to) =~= Seq::<Glyph>::empty());
    }
}

/// Highlighting gives the characters in its columns another background, and
/// changes no character, no style and no background besides.
pub proof fn highlighting_marks_its_columns(l: Seq<SpanView>, from: int, to: int)
    ensures
        glyphs(lit(l, from, to)) == lit_glyphs(glyphs(l), 0, from, to),
{
    if from < to {
        lit_below_glyphs(l, from, to, l.len());
        assert(l.take(l.len() as int) =~= l);
    } else {
        assert(lit_glyphs(glyphs(l), 0, from, to) =~= glyphs(l));
    }
}

/// Highlighting changes no character of the line.
pub proof fn highlighting_keeps_the_text(l: Seq<SpanView>, from: int, to: int)
    ensures
        line_text(lit(l, from, to)) == line_text(l),
{
    if from < to {
        lit_below_text(l, from, to, l.len());
        assert(l.take(l.len() as int) =~= l);
    }
}

// ─── Inline emphasis ─────────────────────────────────────────────────────────

/// The first position at or behind `from` that holds `c`, or the end.
pub open spec fn find(s: Seq<char>, c: char, from: int) -> int
    decreases s.len() - from,
{
    if from < 0 || from >= s.len() || s[from] == c {
        from
    } else {
        find(s, c, from + 1)
    }
}

/// Two stars stand at position `i`.
pub open spec fn two_stars(s: Seq<char>, i: int) -> bool {
    0 <= i && i + 1 < s.len() && s[i] == '*' && s[i + 1] == '*'
}

/// The first position at or behind `from` where two stars stand, or where
/// fewer than two characters are left.
pub open spec fn find_stars(s: Seq<char>, from: int) -> int
    decreases s.len() - from,
{
    if from < 0 || from + 1 >= s.len() || two_stars(s, from) {
        from
    } else {
        find_stars(s, from + 1)
    }
}

/// Plain text so far as a span of its own, if there is any.
pub open spec fn flushed(text: Seq<char>) -> Seq<SpanView> {
    if text.len() == 0 {
        Seq::empty()
    } else {
        Seq::empty().push(span(text, plain()))
    }
}

/// Italic, in the terminal's own colours.
#[verifier::allow_in_spec]
pub fn italic() -> Style
    returns
        (Style { fg: None, bg: None, bold: false, italic: true }),
{
    Style { fg: None, bg: None, bold: false, italic: true }
}

proof fn find_bounds(s: Seq<char>, c: char, from: int)
    requires
        0 <= from <= s.len(),
    ensures
        from <= find(s, c, from) <= s.len(),
    decreases s.len() - from,
{
    if from < s.len() && s[from] != c {
        find_bounds(s, c, from + 1);
    }
}

proof fn find_stars_bounds(s: Seq<char>, from: int)
    requires
        0 <= from <= s.len(),
    ensures
        from <= find_stars(s, from) <= s.len(),
    decreases s.len() - from,
{
    if from + 1 < s.len() && !two_stars(s, from) {
        find_stars_bounds(s, from + 1);
    }
}

/// The spans of the text from position `i` on, where `text` is the plain text
/// that has not become a span yet. A backtick opens code up to the next one,
/// two stars open bold, one star opens italic; what is not closed goes on to
/// the end.
pub open spec fn inline_from(s: Seq<char>, i: int, text: Seq<char>) -> Seq<SpanView>
    decreases s.len() - i,
    when 0 <= i
    via inline_from_decreases
{
    if i >= s.len() {
        flushed(text)
    } else if s[i] == '`' {
        let e = find(s, '`', i + 1);
        flushed(text).push(span(s.subrange(i + 1, e), fg(Color::Green))) + inline_from(
            s,
            if e < s.len() {
                e + 1
            } else {
                e
            },
            Seq::empty(),
        )
    } else if two_stars(s, i) {
        let e = find_stars(s, i + 2);
        flushed(text).push(span(s.subrange(i + 2, e), bold())) + inline_from(
            s,
            if e + 1 < s.len() {
                e + 2
            } else {
                e
            },
            Seq::empty(),
        )
    } else if s[i] == '*' {
        let e = find(s, '*', i + 1);
        flushed(text).push(span(s.subrange(i + 1, e), italic())) + inline_from(
            s,
            if e < s.len() {
                e + 1
            } else {
                e
            },
            Seq::empty(),
        )
    } else {
        inline_from(s, i + 1, text.push(s[i]))
    }
}

#[via_fn]
proof fn inline_from_decreases(s: Seq<char>, i: int, text: Seq<char>) {
    if i < s.len() {
        find_bounds(s, '`', i + 1);
        find_bounds(s, '*', i + 1);
        if two_stars(s, i) {
            find_stars_bounds(s, i + 2);
        }
    }
}

/// Inline markdown as styled spans.
pub open spec fn inline(s: Seq<char>) -> Seq<SpanView> {
    inline_from(s, 0, Seq::empty())
}

fn seek(v: &Vec<char>, c: char, from: usize) -> (r: usize)
    requires
        from <= v@.len(),
    ensures
        r == find(v@, c, from as int),
        from <= r <= v@.len(),
{
    let mut i: usize = from;
    while i < v.len() && v[i] != c
        invariant
            from <= i <= v@.len(),
            find(v@, c, from as int) == find(v@, c, i as int),
        decreases v.len() - i,
    {
        i += 1;
    }
    i
}

fn seek_stars(v: &Vec<char>, from: usize) -> (r: usize)
    requires
        from <= v@.len(),
    ensures
        r == find_stars(v@, from as int),
        from <= r <= v@.len(),
{
    let mut i: usize = from;
    while v.len() - i > 1 && !(v[i] == '*' && v[i + 1] == '*')
        invariant
            from <= i <= v@.len(),
            find_stars(v@, from as int) == find_stars(v@, i as int),
        decreases v.len() - i,
    {
        i += 1;
    }
    i
}

fn flush(out: &mut Line, text: &str)
    ensures
        final(out)@ == old(out)@ + flushed(text@),
{
    let ghost start = out@;
    if text.unicode_len() > 0 {
        out.push(text, plain());
    }
    assert(out@ =~= start + flushed(text@));
}

/// Parse inline markdown (`**bold**`, `*italic*`, `` `code` ``) into styled spans.
pub fn parse_inline_markdown(text: &str, spans: &mut Line)
    ensures
        final(spans)@ == old(spans)@ + inline(text@),
{
    let v = chars_of(text);
    let n = v.len();
    let ghost start = spans@;
    let mut i: usize = 0;
    let mut run = String::new();
    assert(run@ =~= Seq::<char>::empty());
    while i < n
        invariant
            v@ == text@,
            n == v@.len(),
            i <= n,
            start + inline(text@) == spans@ + inline_from(text@, i as int, run@),
        decreases n - i,
    {
        let c = v[i];
        let ghost here = spans@;
        let ghost rest = inline_from(text@, i as int, run@);
        if c == '`' || c == '*' {
            flush(spans, run.as_str());
            let stars = n - i > 1 && c == '*' && v[i + 1] == '*';
            let ghost lead = flushed(run@);
            if stars {
                let e = seek_stars(&v, i + 2);
                spans.push(string_of(&v, i + 2, e).as_str(), bold());
                i = if n - e > 1 {
                    e + 2
                } else {
                    e
                };
            } else {
                let e = seek(&v, c, i + 1);
                spans.push(
                    string_of(&v, i + 1, e).as_str(),
                    if c == '`' {
                        fg(Color::Green)
                    } else {
                        italic()
                    },
                );
                i = if e < n {
                    e + 1
                } else {
                    e
                };
            }
            run = String::new();
            proof {
                assert(run@ =~= Seq::<char>::empty());
                let tail = inline_from(text@, i as int, run@);
                let mark = spans@.last();
                assert(rest =~= lead.push(mark) + tail);
                assert(spans@ =~= here + lead.push(mark));
                assert(here + rest =~= spans@ + tail);
            }
        } else {
            run.push(c);
            i += 1;
        }
    }
    flush(spans, run.as_str());
}

/// Text without stars and backticks is shown as it is.
pub proof fn plain_text_stays(s: Seq<char>)
    requires
        forall|k: int| 0 <= k < s.len() ==> #[trigger] s[k] != '*' && s[k] != '`',
    ensures
        inline(s) == flushed(s),
{
    plain_from(s, 0, Seq::empty());
    assert(Seq::<char>::empty() + s.subrange(0, s.len() as int) =~= s);
}

proof fn plain_from(s: Seq<char>, i: int, text: Seq<char>)
    requires
        0 <= i <= s.len(),
        forall|k: int| 0 <= k < s.len() ==> #[trigger] s[k] != '*' && s[k] != '`',
    ensures
        inline_from(s, i, text) == flushed(text + s.subrange(i, s.len() as int)),
    decreases s.len() - i,
{
    if i < s.len() {
        plain_from(s, i + 1, text.push(s[i]));
        assert(text.push(s[i]) + s.subrange(i + 1, s.len() as int) =~= text + s.subrange(
            i,
            s.len() as int,
        ));
    } else {
        assert(text + s.subrange(i, s.len() as int) =~= text);
    }
}

proof fn inline_from_len(s: Seq<char>, i: int, text: Seq<char>)
    requires
        0 <= i <= s.len(),
    ensures
        line_text(inline_from(s, i, text)).len() <= text.len() + (s.len() - i),
    decreases s.len() - i,
{
    assert(line_text(empty_line()).len() == 0);
    assert(flushed(text).len() > 0 ==> flushed(text).drop_last() =~= empty_line());
    assert(line_text(flushed(text)).len() == text.len());
    if i < s.len() {
        find_bounds(s, '`', i + 1);
        find_bounds(s, '*', i + 1);
        if s[i] == '`' {
            let e = find(s, '`', i + 1);
            let next = if e < s.len() {
                e + 1
            } else {
                e
            };
            let mark = span(s.subrange(i + 1, e), fg(Color::Green));
            let head = flushed(text).push(mark);
            assert(head.drop_last() =~= flushed(text));
            inline_from_len(s, next, Seq::empty());
            line_text_adds(head, inline_from(s, next, Seq::empty()));
        } else if two_stars(s, i) {
            find_stars_bounds(s, i + 2);
            let e = find_stars(s, i + 2);
            let next = if e + 1 < s.len() {
                e + 2
            } else {
                e
            };
            let mark = span(s.subrange(i + 2, e), bold());
            let head = flushed(text).push(mark);
            assert(head.drop_last() =~= flushed(text));
            inline_from_len(s, next, Seq::empty());
            line_text_adds(head, inline_from(s, next, Seq::empty()));
        } else if s[i] == '*' {
            let e = find(s, '*', i + 1);
            let next = if e < s.len() {
                e + 1
            } else {
                e
            };
            let mark = span(s.subrange(i + 1, e), italic());
            let head = flushed(text).push(mark);
            assert(head.drop_last() =~= flushed(text));
            inline_from_len(s, next, Seq::empty());
            line_text_adds(head, inline_from(s, next, Seq::empty()));
        } else {
            inline_from_len(s, i + 1, text.push(s[i]));
        }
    }
}

/// Rendering never makes a text longer: marks go, nothing comes.
pub proof fn inline_adds_nothing(s: Seq<char>)
    ensures
        line_text(inline(s)).len() <= s.len(),
{
    inline_from_len(s, 0, Seq::empty());
}

// ─── Blocks ──────────────────────────────────────────────────────────────────

/// The number of hash marks at the beginning of `s`.
pub open spec fn hashes(s: Seq<char>) -> nat
    decreases s.len(),
{
    if s.len() > 0 && s[0] == '#' {
        1 + hashes(s.subrange(1, s.len() as int))
    } else {
        0
    }
}

/// The text of a heading: up to six hash marks, then something.
pub open spec fn heading_of(line: Seq<char>) -> Option<Seq<char>> {
    let t = trimmed_start(line);
    let n = hashes(t);
    if 1 <= n <= 6 {
        let rest = trimmed_start(t.subrange(n as int, t.len() as int));
        if rest.len() > 0 {
            Some(rest)
        } else {
            None
        }
    } else {
        None
    }
}

fn count_hashes(s: &str) -> (r: usize)
    ensures
        r == hashes(s@),
        r <= s@.len(),
{
    let v = chars_of(s);
    let n = v.len();
    let mut i: usize = 0;
    assert(s@.subrange(0, n as int) =~= s@);
    while i < n && v[i] == '#'
        invariant
            v@ == s@,
            n == v@.len(),
            i <= n,
            hashes(s@) == i + hashes(s@.subrange(i as int, n as int)),
        decreases n - i,
    {
        proof {
            let rest = s@.subrange(i as int, n as int);
            assert(rest.subrange(1, rest.len() as int) =~= s@.subrange(i + 1, n as int));
        }
        i += 1;
    }
    i
}

/// Strip `# ` / `## ` / `### ` etc. from the start of a line, returning the heading text.
pub fn strip_heading_md(line: &str) -> (r: Option<String>)
    ensures
        crate::text::option_text(r) == heading_of(line@),
{
    let t = trim_start(line);
    let n = count_hashes(t);
    if 1 <= n && n <= 6 {
        let rest = trim_start(t.substring_char(n, t.unicode_len()));
        if rest.unicode_len() > 0 {
            return Some(rest.to_owned());
        }
    }
    None
}

/// A code fence.
pub open spec fn is_fence(line: Seq<char>) -> bool {
    let t = trimmed_start(line);
    t.len() >= 3 && t[0] == '`' && t[1] == '`' && t[2] == '`'
}

/// A list item: a dash or a star, then a blank.
pub open spec fn is_item(line: Seq<char>) -> bool {
    let t = trimmed_start(line);
    t.len() >= 2 && (t[0] == '-' || t[0] == '*') && t[1] == ' '
}

/// The length in bytes of the white space at the beginning of a line.
pub open spec fn indent_of(line: Seq<char>) -> nat {
    monus(
        vstd::utf8::encode_utf8(line).len() as int,
        vstd::utf8::encode_utf8(trimmed_start(line)).len() as int,
    )
}

/// A line outside a code block as spans.
pub open spec fn prose(line: Seq<char>) -> Seq<SpanView> {
    match heading_of(line) {
        Some(h) => seq![span(h, fg_bold(Color::White))],
        None => if is_item(line) {
            let t = trimmed_start(line);
            Seq::empty().push(
                span(blanks(indent_of(line)) + "\u{2022} "@, fg(Color::Yellow)),
            ) + inline(t.subrange(2, t.len() as int))
        } else {
            inline(line)
        },
    }
}

/// A code block is open after the first `n` lines.
pub open spec fn in_code(rows: Seq<Seq<char>>, n: nat) -> bool
    decreases n,
{
    if n == 0 {
        false
    } else if is_fence(rows[n - 1]) {
        !in_code(rows, (n - 1) as nat)
    } else {
        in_code(rows, (n - 1) as nat)
    }
}

/// What a line of the source gives: nothing for a fence, code in its own
/// style, else prose; wrapped to the width.
pub open spec fn source_line(line: Seq<char>, code: bool, width: int) -> Seq<Seq<SpanView>> {
    if is_fence(line) {
        Seq::empty()
    } else if code {
        wrapped_line(seq![span(line, fg(Color::Green))], width)
    } else {
        wrapped_line(prose(line), width)
    }
}

/// The first `n` lines of the source.
pub open spec fn source_lines(rows: Seq<Seq<char>>, width: int, n: nat) -> Seq<Seq<SpanView>>
    decreases n,
{
    if n == 0 {
        Seq::empty()
    } else {
        source_lines(rows, width, (n - 1) as nat) + source_line(
            rows[n - 1],
            in_code(rows, (n - 1) as nat),
            width,
        )
    }
}

/// Markdown as styled lines: at least one.
pub open spec fn markdown(text: Seq<char>, width: int) -> Seq<Seq<SpanView>> {
    let rows = lines_of(text);
    let all = source_lines(rows, width, rows.len());
    if all.len() == 0 {
        Seq::empty().push(empty_line())
    } else {
        all
    }
}

fn render_prose(line: &str) -> (r: Line)
    ensures
        r@ == prose(line@),
{
    match strip_heading_md(line) {
        Some(h) => {
            return Line::of(h.as_str(), fg_bold(Color::White));
        },
        None => {},
    }
    let t = trim_start(line);
    let n = t.unicode_len();
    let item = n >= 2 && (t.get_char(0) == '-' || t.get_char(0) == '*') && t.get_char(1) == ' ';
    let mut out = Line::new();
    if item {
        let indent = line.as_bytes().len().saturating_sub(t.as_bytes().len());
        out.push(cat(spaces(indent).as_str(), "\u{2022} ").as_str(), fg(Color::Yellow));
        parse_inline_markdown(t.substring_char(2, n), &mut out);
    } else {
        parse_inline_markdown(line, &mut out);
        assert(out@ =~= inline(line@));
    }
    out
}

/// Safe markdown renderer — handles headers, bold, italic, inline code, code blocks,
/// and list items with styled spans.
pub fn safe_markdown_lines(text: &str, wrap_width: usize) -> (r: Page)
    ensures
        r@ == markdown(text@, wrap_width as int),
{
    let rows = lines(text);
    let ghost all = lines_of(text@);
    let mut page = Page::new();
    let mut code = false;
    let mut i: usize = 0;
    while i < rows.len()
        invariant
            i <= rows@.len(),
            all == texts(rows@),
            code == in_code(all, i as nat),
            page@ == source_lines(all, wrap_width as int, i as nat),
        decreases rows.len() - i,
    {
        let row = rows[i].as_str();
        assert(all[i as int] == row@);
        let t = trim_start(row);
        let fence = t.unicode_len() >= 3 && t.get_char(0) == '`' && t.get_char(1) == '`'
            && t.get_char(2) == '`';
        let ghost before = page@;
        if fence {
            code = !code;
            assert(before =~= before + Seq::<Seq<SpanView>>::empty());
        } else if code {
            page.append(wrap_styled_line(Line::of(row, fg(Color::Green)), wrap_width));
        } else {
            page.append(wrap_styled_line(render_prose(row), wrap_width));
        }
        i += 1;
    }
    if page.lines.len() == 0 {
        assert(page@ =~= Seq::<Seq<SpanView>>::empty());
        page.blank();
    }
    page
}

} // verus!
