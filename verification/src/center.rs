//! Content in the middle of an area. How many columns a text takes is a matter
//! of its characters, not of their number.
use vstd::prelude::*;

use crate::geometry::{center_columns, center_lines, centered, centering_lines, Rect};
use crate::style::{empty_line, with_blanks, Page, SpanView};
use crate::text::at_least;

verus! {

/// The columns that a text takes on a terminal.
pub uninterp spec fn display_width(text: Seq<char>) -> nat;

/// `ratatui::text::Span::width` of an unstyled span: the columns depend on the
/// text alone.
#[verifier::external_body]
pub(crate) fn width_of(text: &str) -> (r: usize)
    ensures
        r == display_width(text@),
{
    ratatui::text::Span::raw(text).width()
}

/// The columns that a line takes.
pub open spec fn line_width(l: Seq<SpanView>) -> nat
    decreases l.len(),
{
    if l.len() == 0 {
        0
    } else {
        line_width(l.drop_last()) + display_width(l.last().text)
    }
}

/// The columns of the widest line among the first `n`, and at least `least`.
/// Only the lowest 16 bits of a width count.
pub open spec fn widest_below(p: Seq<Seq<SpanView>>, least: int, n: nat) -> int
    decreases n,
{
    if n == 0 {
        least
    } else {
        at_least(widest_below(p, least, (n - 1) as nat), line_width(p[n - 1]) as int % 65536)
    }
}

/// The columns of the widest line, and at least `least`.
pub open spec fn widest(p: Seq<Seq<SpanView>>, least: int) -> int {
    widest_below(p, least, p.len())
}

/// The columns of line `i`, as far as 16 bits count them.
fn measure_line(p: &Page, i: usize) -> (r: u16)
    requires
        i < p.lines@.len(),
    ensures
        r == line_width(p@[i as int]) as int % 65536,
{
    let line = &p.lines[i];
    let mut sum: u32 = 0;
    let mut k: usize = 0;
    assert(line@.take(0) =~= empty_line());
    while k < line.spans.len()
        invariant
            k <= line.spans@.len(),
            sum == line_width(line@.take(k as int)) as int % 65536,
        decreases line.spans.len() - k,
    {
        proof {
            let t = line@.take(k + 1);
            assert(t.drop_last() =~= line@.take(k as int));
            assert(t.last() == line.spans@[k as int]@);
        }
        let w = width_of(line.spans[k].text.as_str());
        let low: u32 = (w % 65536) as u32;
        sum = (sum + low) % 65536;
        k += 1;
    }
    assert(line@.take(line@.len() as int) =~= line@);
    sum as u16
}

fn measure(p: &Page, least: u16) -> (r: u16)
    ensures
        r == widest(p@, least as int),
{
    let mut r: u16 = least;
    let mut i: usize = 0;
    while i < p.lines.len()
        invariant
            i <= p.lines@.len(),
            r == widest_below(p@, least as int, i as nat),
        decreases p.lines.len() - i,
    {
        let w = measure_line(p, i);
        if w > r {
            r = w;
        }
        i += 1;
    }
    r
}

/// Lines and the columns in which they stand.
#[derive(Debug)]
pub struct Placed {
    pub lines: Page,
    pub area: Rect,
}

/// Puts lines that take `columns` columns into the middle of an area.
pub fn place_page(p: Page, columns: u16, area: Rect) -> (r: Placed)
    requires
        area.wf(),
    ensures
        r.lines@ == with_blanks(
            Seq::empty(),
            centering_lines(area.height as int, p@.len() as int) as nat,
        ) + p@,
        r.area == centered(area, columns as int),
{
    let top = center_lines(area.height, p.lines.len());
    let mut lines = Page::new();
    lines.push_blanks(top);
    lines.append(p);
    Placed { lines, area: center_columns(area, columns) }
}

/// Puts lines into the middle of an area, as if the widest had at least
/// `least` columns.
pub fn center_page(p: Page, area: Rect, least: u16) -> (r: Placed)
    requires
        area.wf(),
    ensures
        r.lines@ == with_blanks(
            Seq::empty(),
            centering_lines(area.height as int, p@.len() as int) as nat,
        ) + p@,
        r.area == centered(area, widest(p@, least as int)),
{
    let columns = measure(&p, least);
    place_page(p, columns, area)
}

// ─── Laws ────────────────────────────────────────────────────────────────────

/// Centred lines stay within the area, and keep their order at its end.
pub proof fn centering_keeps_the_lines(p: Seq<Seq<SpanView>>, least: int, area: Rect)
    requires
        area.wf(),
        0 <= least <= u16::MAX,
    ensures
        ({
            let top = centering_lines(area.height as int, p.len() as int);
            let all = with_blanks(Seq::empty(), top as nat) + p;
            &&& all.subrange(top, all.len() as int) == p
            &&& p.len() <= area.height ==> all.len() <= area.height
            &&& centered(area, widest(p, least)).within(area)
        }),
{
    let top = centering_lines(area.height as int, p.len() as int);
    let all = with_blanks(Seq::empty(), top as nat) + p;
    assert(all.subrange(top, all.len() as int) =~= p);
    widest_is_bounded(p, least, p.len());
}

proof fn widest_is_bounded(p: Seq<Seq<SpanView>>, least: int, n: nat)
    requires
        0 <= least <= u16::MAX,
    ensures
        least <= widest_below(p, least, n) <= u16::MAX,
    decreases n,
{
    if n > 0 {
        widest_is_bounded(p, least, (n - 1) as nat);
    }
}

} // verus!
