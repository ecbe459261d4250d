//! Styled text: what a screen is made of. A span is text in one style, a line
//! is a sequence of spans, a page a sequence of lines.
use vstd::prelude::*;

verus! {

/// A terminal colour.
#[derive(Clone, Copy, Debug, PartialEq, Eq, Structural)]
pub enum Color {
    Black,
    Red,
    Green,
    Yellow,
    Blue,
    Magenta,
    Cyan,
    Gray,
    DarkGray,
    White,
    /// A colour of the 256-colour palette.
    Indexed(u8),
}

/// How a span is drawn. A colour that is not set is left to the terminal.
#[derive(Clone, Copy, Debug, PartialEq, Eq, Structural)]
pub struct Style {
    pub fg: Option<Color>,
    pub bg: Option<Color>,
    pub bold: bool,
    pub italic: bool,
}

/// The accent colour of the interface.
#[verifier::allow_in_spec]
pub fn accent() -> Color
    returns
        Color::Indexed(141),
{
    Color::Indexed(141)
}

/// The background of a selected row.
#[verifier::allow_in_spec]
pub fn selected_bg() -> Color
    returns
        Color::Indexed(236),
{
    Color::Indexed(236)
}

/// No colour and no modifier.
#[verifier::allow_in_spec]
pub fn plain() -> Style
    returns
        (Style { fg: None, bg: None, bold: false, italic: false }),
{
    Style { fg: None, bg: None, bold: false, italic: false }
}

/// Foreground colour `c`.
#[verifier::allow_in_spec]
pub fn fg(c: Color) -> Style
    returns
        (Style { fg: Some(c), bg: None, bold: false, italic: false }),
{
    Style { fg: Some(c), bg: None, bold: false, italic: false }
}

/// Foreground colour `c` in bold.
#[verifier::allow_in_spec]
pub fn fg_bold(c: Color) -> Style
    returns
        (Style { fg: Some(c), bg: None, bold: true, italic: false }),
{
    Style { fg: Some(c), bg: None, bold: true, italic: false }
}

/// Foreground colour `c` in italics.
#[verifier::allow_in_spec]
pub fn fg_italic(c: Color) -> Style
    returns
        (Style { fg: Some(c), bg: None, bold: false, italic: true }),
{
    Style { fg: Some(c), bg: None, bold: false, italic: true }
}

/// Background colour `b`.
#[verifier::allow_in_spec]
pub fn on(b: Color) -> Style
    returns
        (Style { fg: None, bg: Some(b), bold: false, italic: false }),
{
    Style { fg: None, bg: Some(b), bold: false, italic: false }
}

/// Foreground colour `c` on background `b`.
#[verifier::allow_in_spec]
pub fn fg_on(c: Color, b: Color) -> Style
    returns
        (Style { fg: Some(c), bg: Some(b), bold: false, italic: false }),
{
    Style { fg: Some(c), bg: Some(b), bold: false, italic: false }
}

/// Bold, in the terminal's own colours.
#[verifier::allow_in_spec]
pub fn bold() -> Style
    returns
        (Style { fg: None, bg: None, bold: true, italic: false }),
{
    Style { fg: None, bg: None, bold: true, italic: false }
}

/// Text in one style.
#[derive(Debug)]
pub struct Span {
    pub text: String,
    pub style: Style,
}

/// What a span shows.
pub struct SpanView {
    pub text: Seq<char>,
    pub style: Style,
}

impl View for Span {
    type V = SpanView;

    open spec fn view(&self) -> SpanView {
        SpanView { text: self.text@, style: self.style }
    }
}

/// The span that shows `text` in `style`.
pub open spec fn span(text: Seq<char>, style: Style) -> SpanView {
    SpanView { text, style }
}

/// One line of a screen.
#[derive(Debug)]
pub struct Line {
    pub spans: Vec<Span>,
}

impl View for Line {
    type V = Seq<SpanView>;

    open spec fn view(&self) -> Seq<SpanView> {
        Seq::new(self.spans@.len(), |i: int| self.spans@[i]@)
    }
}

/// A sequence of lines.
#[derive(Debug)]
pub struct Page {
    pub lines: Vec<Line>,
}

impl View for Page {
    type V = Seq<Seq<SpanView>>;

    open spec fn view(&self) -> Seq<Seq<SpanView>> {
        Seq::new(self.lines@.len(), |i: int| self.lines@[i]@)
    }
}

/// The text of a line, spans put together.
pub open spec fn line_text(l: Seq<SpanView>) -> Seq<char>
    decreases l.len(),
{
    if l.len() == 0 {
        Seq::empty()
    } else {
        line_text(l.drop_last()) + l.last().text
    }
}

/// The number of characters in a line.
pub open spec fn line_chars(l: Seq<SpanView>) -> nat
    decreases l.len(),
{
    if l.len() == 0 {
        0
    } else {
        line_chars(l.drop_last()) + l.last().text.len()
    }
}

/// The empty line.
pub open spec fn empty_line() -> Seq<SpanView> {
    Seq::empty()
}

impl Line {
    /// The line without a span.
    pub fn new() -> (r: Line)
        ensures
            r@ == empty_line(),
    {
        let r = Line { spans: Vec::new() };
        assert(r@ =~= empty_line());
        r
    }

    /// The line of one span.
    pub fn of(text: &str, style: Style) -> (r: Line)
        ensures
            r@ == seq![span(text@, style)],
    {
        let mut r = Line::new();
        r.push(text, style);
        r
    }

    /// Appends a span.
    pub fn push(&mut self, text: &str, style: Style)
        ensures
            final(self)@ == old(self)@.push(span(text@, style)),
    {
        self.spans.push(Span { text: text.to_owned(), style });
        assert(self@ =~= old(self)@.push(span(text@, style)));
    }

    /// Appends all spans of `other`.
    pub fn append(&mut self, other: &mut Line)
        ensures
            final(self)@ == old(self)@ + old(other)@,
    {
        self.spans.append(&mut other.spans);
        assert(self@ =~= old(self)@ + old(other)@);
    }

    /// A copy of the line.
    pub fn copy(&self) -> (r: Line)
        ensures
            r@ == self@,
    {
        let mut r = Line::new();
        let mut i: usize = 0;
        while i < self.spans.len()
            invariant
                i <= self.spans@.len(),
                r@ =~= self@.take(i as int),
            decreases self.spans.len() - i,
        {
            r.push(self.spans[i].text.as_str(), self.spans[i].style);
            i += 1;
        }
        r
    }

    /// The text of the line.
    pub fn text(&self) -> (r: String)
        ensures
            r@ == line_text(self@),
    {
        let mut r = String::new();
        let mut i: usize = 0;
        proof {
            assert(self@.take(0) =~= empty_line());
        }
        while i < self.spans.len()
            invariant
                i <= self.spans@.len(),
                r@ == line_text(self@.take(i as int)),
            decreases self.spans.len() - i,
        {
            proof {
                let t = self@.take(i + 1);
                assert(t.drop_last() =~= self@.take(i as int));
                assert(t.last() == self.spans@[i as int]@);
            }
            r.append(self.spans[i].text.as_str());
            i += 1;
        }
        proof {
            assert(self@.take(self@.len() as int) =~= self@);
        }
        r
    }

    /// `available - (the number of characters in the line)`, at least 0.
    pub fn room_in(&self, available: usize) -> (r: usize)
        ensures
            r == crate::text::monus(available as int, line_chars(self@) as int),
    {
        let mut left: usize = available;
        let mut i: usize = 0;
        proof {
            assert(self@.take(0) =~= empty_line());
        }
        while i < self.spans.len()
            invariant
                i <= self.spans@.len(),
                left == crate::text::monus(
                    available as int,
                    line_chars(self@.take(i as int)) as int,
                ),
            decreases self.spans.len() - i,
        {
            proof {
                let t = self@.take(i + 1);
                assert(t.drop_last() =~= self@.take(i as int));
                assert(t.last() == self.spans@[i as int]@);
            }
            left = left.saturating_sub(self.spans[i].text.as_str().unicode_len());
            i += 1;
        }
        proof {
            assert(self@.take(self@.len() as int) =~= self@);
        }
        left
    }
}

/// `n` empty lines behind `p`.
pub open spec fn with_blanks(p: Seq<Seq<SpanView>>, n: nat) -> Seq<Seq<SpanView>> {
    p + Seq::new(n, |i: int| empty_line())
}

impl Page {
    /// The page without a line.
    pub fn new() -> (r: Page)
        ensures
            r@ == Seq::<Seq<SpanView>>::empty(),
    {
        let r = Page { lines: Vec::new() };
        assert(r@ =~= Seq::<Seq<SpanView>>::empty());
        r
    }

    /// Appends a line.
    pub fn push(&mut self, l: Line)
        ensures
            final(self)@ == old(self)@.push(l@),
    {
        self.lines.push(l);
        assert(self@ =~= old(self)@.push(l@));
    }

    /// Appends an empty line.
    pub fn blank(&mut self)
        ensures
            final(self)@ == old(self)@.push(empty_line()),
    {
        self.push(Line::new());
    }

    /// Appends `n` empty lines.
    pub fn push_blanks(&mut self, n: usize)
        ensures
            final(self)@ == with_blanks(old(self)@, n as nat),
    {
        let mut i: usize = 0;
        assert(self@ =~= with_blanks(old(self)@, 0));
        while i < n
            invariant
                i <= n,
                self@ =~= with_blanks(old(self)@, i as nat),
            decreases n - i,
        {
            self.blank();
            i += 1;
        }
    }

    /// Appends a line of one span.
    pub fn line(&mut self, text: &str, style: Style)
        ensures
            final(self)@ == old(self)@.push(seq![span(text@, style)]),
    {
        self.push(Line::of(text, style));
    }

    /// Appends a line of two spans.
    pub fn line2(&mut self, a: &str, a_style: Style, b: &str, b_style: Style)
        ensures
            final(self)@ == old(self)@.push(seq![span(a@, a_style), span(b@, b_style)]),
    {
        let mut l = Line::of(a, a_style);
        l.push(b, b_style);
        assert(l@ =~= seq![span(a@, a_style), span(b@, b_style)]);
        self.push(l);
    }

    /// Appends a line of three spans.
    pub fn line3(&mut self, a: &str, a_style: Style, b: &str, b_style: Style, c: &str, c_style: Style)
        ensures
            final(self)@ == old(self)@.push(
                seq![span(a@, a_style), span(b@, b_style), span(c@, c_style)],
            ),
    {
        let mut l = Line::of(a, a_style);
        l.push(b, b_style);
        l.push(c, c_style);
        assert(l@ =~= seq![span(a@, a_style), span(b@, b_style), span(c@, c_style)]);
        self.push(l);
    }

    /// Appends all lines of `other`.
    pub fn append(&mut self, other: Page)
        ensures
            final(self)@ == old(self)@ + other@,
    {
        let mut other = other;
        let ghost o = other@;
        self.lines.append(&mut other.lines);
        assert(self@ =~= old(self)@ + o);
    }
}

/// The footer of a screen: `left`, a gap that fills the width, `right`.
pub open spec fn justified(
    left: Seq<SpanView>,
    right: Seq<SpanView>,
    width: int,
) -> Seq<SpanView> {
    left.push(
        span(
            crate::text::blanks(
                crate::text::monus(width, (line_chars(left) + line_chars(right)) as int),
            ),
            plain(),
        ),
    ) + right
}

/// `left` and `right` at the two ends of a line of `width` characters.
pub fn justify(left: Line, right: Line, width: usize) -> (r: Line)
    ensures
        r@ == justified(left@, right@, width as int),
{
    let gap = right.room_in(left.room_in(width));
    let mut r = left;
    r.push(crate::text::spaces(gap).as_str(), plain());
    let mut right = right;
    r.append(&mut right);
    r
}

/// A key hint: the key in brackets, then what it does. `tail` begins with the
/// closing bracket.
pub open spec fn hinted(l: Seq<SpanView>, key: Seq<char>, tail: Seq<char>) -> Seq<SpanView> {
    l.push(span("["@, fg(Color::DarkGray))).push(span(key, fg(Color::White))).push(
        span(tail, fg(Color::DarkGray)),
    )
}

/// Appends a key hint.
pub fn push_hint(l: &mut Line, key: &str, tail: &str)
    ensures
        final(l)@ == hinted(old(l)@, key@, tail@),
{
    l.push("[", fg(Color::DarkGray));
    l.push(key, fg(Color::White));
    l.push(tail, fg(Color::DarkGray));
}

/// The left part of a footer: the marker and what follows the program's name.
pub open spec fn footer_mark(version: Seq<char>, more: Seq<char>) -> Seq<SpanView> {
    empty_line().push(span(" \u{25B8} "@, fg(accent()))).push(
        span("scriba \u{00B7} v"@ + version + more, fg(Color::DarkGray)),
    )
}

/// The left part of a footer.
pub fn footer_left(version: &str, more: &str) -> (r: Line)
    ensures
        r@ == footer_mark(version@, more@),
{
    let mut r = Line::new();
    r.push(" \u{25B8} ", fg(accent()));
    r.push(crate::text::cat3("scriba \u{00B7} v", version, more).as_str(), fg(Color::DarkGray));
    r
}

/// `s` with blanks behind it up to `width` characters.
pub open spec fn padded(s: Seq<char>, width: int) -> Seq<char> {
    s + crate::text::blanks(crate::text::monus(width, s.len() as int))
}

/// `s` with blanks behind it up to `width` characters.
pub fn pad(s: &str, width: usize) -> (r: String)
    ensures
        r@ == padded(s@, width as int),
{
    let n = s.unicode_len();
    crate::text::cat(s, crate::text::spaces(width.saturating_sub(n)).as_str())
}

/// The horizontal rule that separates header and footer from the body.
pub fn rule(width: u16) -> (r: Line)
    ensures
        r@ == seq![
            span(crate::text::repeated('\u{2500}', width as nat), fg(Color::Indexed(237))),
        ],
{
    Line::of(crate::text::repeat('\u{2500}', width as usize).as_str(), fg(Color::Indexed(237)))
}

} // verus!
