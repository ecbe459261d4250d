//! The messages of a conversation as lines of the screen, each with its text
//! as shown and as copied.
use vstd::prelude::*;

use crate::chat::{
    blocks_view, content_of, messages_view, BlockView, ChatBlock, ChatMessage, ChatRole,
    MessageView, Rendered, RenderedView, ToolCallDisplay, ToolCallView,
};
use crate::markdown::{lines, lines_of, markdown, safe_markdown_lines};
use crate::style::{
    empty_line, fg, fg_bold, fg_italic, line_text, plain, span, Color, Line, Page, SpanView, Style,
};
use crate::text::{
    cat, cat3, cat4, monus, option_text, push_text, repeat, repeated, texts, trim_start,
    trimmed_start,
};
use crate::wrap::{wrap, wrapped};

verus! {

// ─── Building ────────────────────────────────────────────────────────────────

/// No line.
pub open spec fn no_lines() -> RenderedView {
    RenderedView { lines: Seq::empty(), texts: Seq::empty(), raw: Seq::empty() }
}

impl RenderedView {
    /// Every line has its two texts.
    pub open spec fn wf(self) -> bool {
        self.lines.len() == self.texts.len() == self.raw.len()
    }

    /// One more line.
    pub open spec fn with(self, line: Seq<SpanView>, text: Seq<char>, raw: Seq<char>) -> RenderedView {
        RenderedView {
            lines: self.lines.push(line),
            texts: self.texts.push(text),
            raw: self.raw.push(raw),
        }
    }

    /// One more line of one span, copied as it is shown.
    pub open spec fn with_text(self, text: Seq<char>, style: Style) -> RenderedView {
        self.with(seq![span(text, style)], text, text)
    }

    /// One more empty line.
    pub open spec fn with_blank(self) -> RenderedView {
        self.with(empty_line(), Seq::empty(), Seq::empty())
    }

    /// The lines of `other` behind these.
    pub open spec fn with_all(self, other: RenderedView) -> RenderedView {
        RenderedView {
            lines: self.lines + other.lines,
            texts: self.texts + other.texts,
            raw: self.raw + other.raw,
        }
    }
}

impl Rendered {
    /// No line.
    pub fn new() -> (r: Rendered)
        ensures
            r@ == no_lines(),
    {
        let r = Rendered { lines: Page::new(), texts: Vec::new(), raw: Vec::new() };
        assert(r@.texts =~= Seq::<Seq<char>>::empty());
        assert(r@.raw =~= Seq::<Seq<char>>::empty());
        r
    }

    /// Appends a line.
    pub fn push(&mut self, line: Line, text: &str, raw: &str)
        ensures
            final(self)@ == old(self)@.with(line@, text@, raw@),
    {
        self.lines.push(line);
        push_text(&mut self.texts, text.to_owned());
        push_text(&mut self.raw, raw.to_owned());
    }

    /// Appends a line of one span, copied as it is shown.
    pub fn push_text(&mut self, text: &str, style: Style)
        ensures
            final(self)@ == old(self)@.with_text(text@, style),
    {
        self.push(Line::of(text, style), text, text);
    }

    /// Appends an empty line.
    pub fn push_blank(&mut self)
        ensures
            final(self)@ == old(self)@.with_blank(),
    {
        self.push(Line::new(), "", "");
        proof {
            reveal_strlit("");
            assert(""@ =~= Seq::<char>::empty());
        }
    }
}

// ─── User ────────────────────────────────────────────────────────────────────

/// The bar left of what the user said, and of the input line.
pub const USER_BAR: &'static str = " \u{2502} ";

/// The first `n` rows of a wrapped line of the user.
pub open spec fn user_rows(r: RenderedView, rows: Seq<Seq<char>>, n: nat) -> RenderedView
    decreases n,
{
    if n == 0 {
        r
    } else {
        user_rows(r, rows, (n - 1) as nat).with(
            seq![
                span(USER_BAR@, fg(Color::Indexed(60))),
                span(rows[n - 1], fg(Color::Indexed(249))),
            ],
            USER_BAR@ + rows[n - 1],
            rows[n - 1],
        )
    }
}

/// A line of the user, wrapped into `rows`.
pub open spec fn user_line(r: RenderedView, rows: Seq<Seq<char>>) -> RenderedView {
    if rows.len() == 0 {
        r.with(seq![span("  "@, plain())], "  "@, Seq::empty())
    } else {
        user_rows(r, rows, rows.len())
    }
}

/// The first `n` lines of the user.
pub open spec fn user_lines(
    r: RenderedView,
    all: Seq<Seq<char>>,
    width: nat,
    n: nat,
) -> RenderedView
    decreases n,
{
    if n == 0 {
        r
    } else {
        user_line(user_lines(r, all, width, (n - 1) as nat), wrapped(all[n - 1], width))
    }
}

/// Appends a line of the user that was wrapped into `rows`.
pub fn push_user_line(out: &mut Rendered, rows: &Vec<String>)
    ensures
        final(out)@ == user_line(old(out)@, texts(rows@)),
{
    if rows.len() == 0 {
        out.push(Line::of("  ", plain()), "  ", "");
        proof {
            reveal_strlit("");
            assert(""@ =~= Seq::<char>::empty());
        }
        return;
    }
    let mut i: usize = 0;
    while i < rows.len()
        invariant
            i <= rows@.len(),
            out@ == user_rows(old(out)@, texts(rows@), i as nat),
        decreases rows.len() - i,
    {
        let w = rows[i].as_str();
        let mut l = Line::of(USER_BAR, fg(Color::Indexed(60)));
        l.push(w, fg(Color::Indexed(249)));
        assert(l@ =~= seq![
            span(USER_BAR@, fg(Color::Indexed(60))),
            span(w@, fg(Color::Indexed(249))),
        ]);
        out.push(l, cat(USER_BAR, w).as_str(), w);
        i += 1;
    }
}

fn push_user_lines(out: &mut Rendered, content: &str, width: usize)
    ensures
        final(out)@ == user_lines(
            old(out)@,
            lines_of(content@),
            width as nat,
            lines_of(content@).len(),
        ),
{
    let all = lines(content);
    let mut i: usize = 0;
    assert(texts(all@).len() == all@.len());
    while i < all.len()
        invariant
            i <= all@.len(),
            texts(all@) == lines_of(content@),
            out@ == user_lines(old(out)@, texts(all@), width as nat, i as nat),
        decreases all.len() - i,
    {
        let rows = wrap(all[i].as_str(), width);
        push_user_line(out, &rows);
        i += 1;
    }
}

// ─── Notices ─────────────────────────────────────────────────────────────────

/// The first `n` rows of a wrapped line, in one style.
pub open spec fn styled_rows(
    r: RenderedView,
    rows: Seq<Seq<char>>,
    style: Style,
    n: nat,
) -> RenderedView
    decreases n,
{
    if n == 0 {
        r
    } else {
        styled_rows(r, rows, style, (n - 1) as nat).with_text(rows[n - 1], style)
    }
}

/// A line that was wrapped into `rows`, in one style. Where `holds_place`, an
/// empty one is shown too.
pub open spec fn styled_line(
    r: RenderedView,
    rows: Seq<Seq<char>>,
    style: Style,
    holds_place: bool,
) -> RenderedView {
    if rows.len() == 0 && holds_place {
        r.with_text(Seq::empty(), style)
    } else {
        styled_rows(r, rows, style, rows.len())
    }
}

/// The first `n` lines of a text in one style.
pub open spec fn styled_lines(
    r: RenderedView,
    all: Seq<Seq<char>>,
    width: nat,
    style: Style,
    holds_place: bool,
    n: nat,
) -> RenderedView
    decreases n,
{
    if n == 0 {
        r
    } else {
        styled_line(
            styled_lines(r, all, width, style, holds_place, (n - 1) as nat),
            wrapped(all[n - 1], width),
            style,
            holds_place,
        )
    }
}

/// Appends a line in one style that was wrapped into `rows`.
pub fn push_styled_line(out: &mut Rendered, rows: &Vec<String>, style: Style, holds_place: bool)
    ensures
        final(out)@ == styled_line(old(out)@, texts(rows@), style, holds_place),
{
    if rows.len() == 0 && holds_place {
        out.push_text("", style);
        proof {
            reveal_strlit("");
            assert(""@ =~= Seq::<char>::empty());
        }
        return;
    }
    let mut i: usize = 0;
    while i < rows.len()
        invariant
            i <= rows@.len(),
            out@ == styled_rows(old(out)@, texts(rows@), style, i as nat),
        decreases rows.len() - i,
    {
        out.push_text(rows[i].as_str(), style);
        i += 1;
    }
}

fn push_styled_lines(
    out: &mut Rendered,
    content: &str,
    width: usize,
    style: Style,
    holds_place: bool,
)
    ensures
        final(out)@ == styled_lines(
            old(out)@,
            lines_of(content@),
            width as nat,
            style,
            holds_place,
            lines_of(content@).len(),
        ),
{
    let all = lines(content);
    let mut i: usize = 0;
    assert(texts(all@).len() == all@.len());
    while i < all.len()
        invariant
            i <= all@.len(),
            texts(all@) == lines_of(content@),
            out@ == styled_lines(
                old(out)@,
                texts(all@),
                width as nat,
                style,
                holds_place,
                i as nat,
            ),
        decreases all.len() - i,
    {
        let rows = wrap(all[i].as_str(), width);
        push_styled_line(out, &rows, style, holds_place);
        i += 1;
    }
}

/// The text of the line that marks where the history was summed up.
pub open spec fn marker_text(width: int) -> Seq<char> {
    let dashes = repeated('\u{2500}', (monus(width, 22) as int / 2) as nat);
    "  "@ + dashes + " context compacted "@ + dashes
}

/// The line that marks where the history was summed up. It is not copied.
pub open spec fn with_marker(r: RenderedView, width: int) -> RenderedView {
    r.with(
        seq![span(marker_text(width), fg_italic(Color::DarkGray))],
        marker_text(width),
        Seq::empty(),
    )
}

fn push_marker(out: &mut Rendered, width: usize)
    ensures
        final(out)@ == with_marker(old(out)@, width as int),
{
    let dashes = repeat('\u{2500}', width.saturating_sub(22) / 2);
    let text = cat4("  ", dashes.as_str(), " context compacted ", dashes.as_str());
    out.push(Line::of(text.as_str(), fg_italic(Color::DarkGray)), text.as_str(), "");
    proof {
        reveal_strlit("");
        assert(""@ =~= Seq::<char>::empty());
    }
}

// ─── Assistant ───────────────────────────────────────────────────────────────

/// The first `n` lines of a markdown text, indented by two.
pub open spec fn indented(r: RenderedView, md: Seq<Seq<SpanView>>, n: nat) -> RenderedView
    decreases n,
{
    if n == 0 {
        r
    } else {
        indented(r, md, (n - 1) as nat).with(
            seq![span("  "@, plain())] + md[n - 1],
            "  "@ + line_text(md[n - 1]),
            line_text(md[n - 1]),
        )
    }
}

/// A text of the assistant on a screen `width` wide.
pub open spec fn with_markdown(r: RenderedView, text: Seq<char>, width: int) -> RenderedView {
    let md = markdown(text, monus(width, 2) as int);
    indented(r, md, md.len())
}

fn push_markdown(out: &mut Rendered, text: &str, width: usize)
    ensures
        final(out)@ == with_markdown(old(out)@, text@, width as int),
{
    let md = safe_markdown_lines(text, width.saturating_sub(2));
    let mut i: usize = 0;
    while i < md.lines.len()
        invariant
            i <= md.lines@.len(),
            out@ == indented(old(out)@, md@, i as nat),
        decreases md.lines.len() - i,
    {
        let said = md.lines[i].text();
        let mut l = Line::of("  ", plain());
        let mut rest = md.lines[i].copy();
        l.append(&mut rest);
        out.push(l, cat("  ", said.as_str()).as_str(), said.as_str());
        i += 1;
    }
}

/// A tool call: an icon, the name, what went in and, where `shows_output`,
/// what came out.
pub open spec fn tool_spans(
    tc: ToolCallView,
    icon: Seq<char>,
    color: Color,
    shows_output: bool,
) -> Seq<SpanView> {
    let called = empty_line().push(span(icon, fg(color))).push(
        span(tc.name, fg_bold(Color::White)),
    );
    let fed = if tc.input_summary.len() > 0 {
        called.push(span("("@ + tc.input_summary + ")"@, fg(Color::DarkGray)))
    } else {
        called
    };
    if shows_output && tc.output_summary.len() > 0 {
        fed.push(span(" \u{2192} "@ + tc.output_summary, fg(Color::DarkGray)))
    } else {
        fed
    }
}

/// A line with a tool call; it is copied without its indentation.
pub open spec fn with_tool(r: RenderedView, l: Seq<SpanView>) -> RenderedView {
    r.with(l, line_text(l), trimmed_start(line_text(l)))
}

fn push_tool(out: &mut Rendered, tc: &ToolCallDisplay, icon: &str, color: Color, shows_output: bool)
    ensures
        final(out)@ == with_tool(old(out)@, tool_spans(tc@, icon@, color, shows_output)),
{
    let mut l = Line::new();
    l.push(icon, fg(color));
    l.push(tc.name.as_str(), fg_bold(Color::White));
    if tc.input_summary.as_str().unicode_len() > 0 {
        l.push(cat3("(", tc.input_summary.as_str(), ")").as_str(), fg(Color::DarkGray));
    }
    if shows_output && tc.output_summary.as_str().unicode_len() > 0 {
        l.push(cat(" \u{2192} ", tc.output_summary.as_str()).as_str(), fg(Color::DarkGray));
    }
    let text = l.text();
    out.push(l, text.as_str(), trim_start(text.as_str()));
}

/// The first `n` blocks of a finished answer.
pub open spec fn answer_blocks(
    r: RenderedView,
    blocks: Seq<BlockView>,
    width: int,
    n: nat,
) -> RenderedView
    decreases n,
{
    if n == 0 {
        r
    } else {
        let before = answer_blocks(r, blocks, width, (n - 1) as nat);
        match blocks[n - 1] {
            BlockView::ToolCall(tc) => with_tool(
                before,
                tool_spans(tc, "  \u{2713} "@, Color::Green, true),
            ),
            BlockView::Text(t) => with_markdown(before, t, width),
            BlockView::CompactionMarker => with_marker(before, width),
        }
    }
}

fn push_answer(out: &mut Rendered, blocks: &Vec<ChatBlock>, width: usize)
    ensures
        final(out)@ == answer_blocks(
            old(out)@,
            blocks_view(blocks@),
            width as int,
            blocks@.len(),
        ),
{
    let ghost views = blocks_view(blocks@);
    let mut i: usize = 0;
    while i < blocks.len()
        invariant
            i <= blocks@.len(),
            views == blocks_view(blocks@),
            out@ == answer_blocks(old(out)@, views, width as int, i as nat),
        decreases blocks.len() - i,
    {
        assert(views[i as int] == blocks@[i as int]@);
        match &blocks[i] {
            ChatBlock::ToolCall(tc) => push_tool(out, tc, "  \u{2713} ", Color::Green, true),
            ChatBlock::Text(t) => push_markdown(out, t.as_str(), width),
            ChatBlock::CompactionMarker => push_marker(out, width),
        }
        i += 1;
    }
}

// ─── System ──────────────────────────────────────────────────────────────────

/// One of the blocks is a compaction marker.
pub open spec fn has_marker(blocks: Seq<BlockView>) -> bool {
    exists|i: int| 0 <= i < blocks.len() && #[trigger] blocks[i] is CompactionMarker
}

fn marker_among(blocks: &Vec<ChatBlock>) -> (r: bool)
    ensures
        r == has_marker(blocks_view(blocks@)),
{
    let ghost views = blocks_view(blocks@);
    let mut i: usize = 0;
    while i < blocks.len()
        invariant
            i <= blocks@.len(),
            views == blocks_view(blocks@),
            forall|j: int| 0 <= j < i ==> !(#[trigger] views[j] is CompactionMarker),
        decreases blocks.len() - i,
    {
        assert(views[i as int] == blocks@[i as int]@);
        match &blocks[i] {
            ChatBlock::CompactionMarker => {
                return true;
            },
            _ => {},
        }
        i += 1;
    }
    false
}

/// The first `n` blocks of a message that holds a marker.
pub open spec fn marked_blocks(
    r: RenderedView,
    blocks: Seq<BlockView>,
    width: nat,
    n: nat,
) -> RenderedView
    decreases n,
{
    if n == 0 {
        r
    } else {
        let before = marked_blocks(r, blocks, width, (n - 1) as nat);
        match blocks[n - 1] {
            BlockView::CompactionMarker => with_marker(before, width as int),
            BlockView::Text(t) => styled_lines(
                before,
                lines_of(t),
                width,
                fg_italic(Color::DarkGray),
                false,
                lines_of(t).len(),
            ),
            BlockView::ToolCall(_) => before,
        }
    }
}

fn push_marked(out: &mut Rendered, blocks: &Vec<ChatBlock>, width: usize)
    ensures
        final(out)@ == marked_blocks(
            old(out)@,
            blocks_view(blocks@),
            width as nat,
            blocks@.len(),
        ),
{
    let ghost views = blocks_view(blocks@);
    let mut i: usize = 0;
    while i < blocks.len()
        invariant
            i <= blocks@.len(),
            views == blocks_view(blocks@),
            out@ == marked_blocks(old(out)@, views, width as nat, i as nat),
        decreases blocks.len() - i,
    {
        assert(views[i as int] == blocks@[i as int]@);
        match &blocks[i] {
            ChatBlock::CompactionMarker => push_marker(out, width),
            ChatBlock::Text(t) => push_styled_lines(
                out,
                t.as_str(),
                width,
                fg_italic(Color::DarkGray),
                false,
            ),
            ChatBlock::ToolCall(_) => {},
        }
        i += 1;
    }
}

// ─── Messages ────────────────────────────────────────────────────────────────

/// One more message on a screen `width` wide, with an empty line behind it.
pub open spec fn with_message(r: RenderedView, m: MessageView, width: nat) -> RenderedView {
    let said = lines_of(content_of(m.blocks));
    (match m.role {
        ChatRole::User => user_lines(r, said, monus(width as int, 2), said.len()),
        ChatRole::Assistant => answer_blocks(r, m.blocks, width as int, m.blocks.len()),
        ChatRole::System => if has_marker(m.blocks) {
            marked_blocks(r, m.blocks, width, m.blocks.len())
        } else {
            styled_lines(r, said, width, fg_italic(Color::Red), true, said.len())
        },
    }).with_blank()
}

/// The first `n` messages.
pub open spec fn messages_below(
    messages: Seq<MessageView>,
    width: nat,
    n: nat,
) -> RenderedView
    decreases n,
{
    if n == 0 {
        no_lines()
    } else {
        with_message(messages_below(messages, width, (n - 1) as nat), messages[n - 1], width)
    }
}

/// All messages.
pub open spec fn messages_lines(messages: Seq<MessageView>, width: nat) -> RenderedView {
    messages_below(messages, width, messages.len())
}

/// Appends a message, with an empty line behind it.
pub fn push_message_lines(out: &mut Rendered, m: &ChatMessage, width: usize)
    ensures
        final(out)@ == with_message(old(out)@, m@, width as nat),
{
    match m.role {
        ChatRole::User => {
            let said = m.content();
            push_user_lines(out, said.as_str(), width.saturating_sub(2));
        },
        ChatRole::Assistant => push_answer(out, &m.blocks, width),
        ChatRole::System => {
            if marker_among(&m.blocks) {
                push_marked(out, &m.blocks, width);
            } else {
                let said = m.content();
                push_styled_lines(out, said.as_str(), width, fg_italic(Color::Red), true);
            }
        },
    }
    out.push_blank();
}

/// All messages.
pub fn render_messages(messages: &Vec<ChatMessage>, width: usize) -> (r: Rendered)
    ensures
        r@ == messages_lines(messages_view(messages@), width as nat),
{
    let ghost views = messages_view(messages@);
    let mut out = Rendered::new();
    let mut i: usize = 0;
    while i < messages.len()
        invariant
            i <= messages@.len(),
            views == messages_view(messages@),
            out@ == messages_below(views, width as nat, i as nat),
        decreases messages.len() - i,
    {
        assert(views[i as int] == messages@[i as int]@);
        push_message_lines(&mut out, &messages[i], width);
        i += 1;
    }
    out
}

// ─── The answer in progress ──────────────────────────────────────────────────

/// The spinner of the chat in a frame.
#[verifier::allow_in_spec]
pub fn chat_spinner(frame: usize) -> &'static str
    returns
        (match frame % 4 {
            0 => "\u{25D0}",
            1 => "\u{25D1}",
            2 => "\u{25D2}",
            _ => "\u{25D3}",
        }),
{
    match frame % 4 {
        0 => "\u{25D0}",
        1 => "\u{25D1}",
        2 => "\u{25D2}",
        _ => "\u{25D3}",
    }
}

/// The first `n` blocks of an answer that is still coming.
pub open spec fn pending_below(
    blocks: Seq<BlockView>,
    frame: usize,
    width: int,
    n: nat,
) -> RenderedView
    decreases n,
{
    if n == 0 {
        no_lines()
    } else {
        let before = pending_below(blocks, frame, width, (n - 1) as nat);
        match blocks[n - 1] {
            BlockView::ToolCall(tc) => with_tool(
                before,
                if tc.is_complete {
                    tool_spans(tc, "  \u{2713} "@, Color::Green, true)
                } else {
                    tool_spans(
                        tc,
                        "  "@ + chat_spinner(frame)@ + " "@,
                        Color::Magenta,
                        false,
                    )
                },
            ),
            BlockView::Text(t) => with_markdown(before, t, width),
            BlockView::CompactionMarker => with_marker(before, width),
        }
    }
}

/// The answer in progress with the status below it. The status is not copied.
pub open spec fn pending_lines(
    blocks: Seq<BlockView>,
    status: Option<Seq<char>>,
    frame: usize,
    width: int,
) -> RenderedView {
    let before = pending_below(blocks, frame, width, blocks.len());
    match status {
        Some(s) => before.with(
            seq![
                span(" "@ + chat_spinner(frame)@ + " "@, fg_bold(Color::Magenta)),
                span(s, fg(Color::Yellow)),
            ],
            " "@ + chat_spinner(frame)@ + " "@ + s,
            Seq::empty(),
        ),
        None => before,
    }
}

/// The answer in progress with the status below it.
pub fn render_pending(
    blocks: &Vec<ChatBlock>,
    status: &Option<String>,
    frame: usize,
    width: usize,
) -> (r: Rendered)
    ensures
        r@ == pending_lines(blocks_view(blocks@), option_text(*status), frame, width as int),
{
    let ghost views = blocks_view(blocks@);
    let mut out = Rendered::new();
    let mut i: usize = 0;
    while i < blocks.len()
        invariant
            i <= blocks@.len(),
            views == blocks_view(blocks@),
            out@ == pending_below(views, frame, width as int, i as nat),
        decreases blocks.len() - i,
    {
        assert(views[i as int] == blocks@[i as int]@);
        match &blocks[i] {
            ChatBlock::ToolCall(tc) => {
                if tc.is_complete {
                    push_tool(&mut out, tc, "  \u{2713} ", Color::Green, true);
                } else {
                    let icon = cat3("  ", chat_spinner(frame), " ");
                    push_tool(&mut out, tc, icon.as_str(), Color::Magenta, false);
                }
            },
            ChatBlock::Text(t) => push_markdown(&mut out, t.as_str(), width),
            ChatBlock::CompactionMarker => push_marker(&mut out, width),
        }
        i += 1;
    }
    match status {
        Some(s) => {
            let icon = cat3(" ", chat_spinner(frame), " ");
            let mut l = Line::of(icon.as_str(), fg_bold(Color::Magenta));
            l.push(s.as_str(), fg(Color::Yellow));
            assert(l@ =~= seq![
                span(icon@, fg_bold(Color::Magenta)),
                span(s@, fg(Color::Yellow)),
            ]);
            out.push(l, cat(icon.as_str(), s.as_str()).as_str(), "");
            proof {
                reveal_strlit("");
                assert(""@ =~= Seq::<char>::empty());
            }
        },
        None => {},
    }
    out
}

// ─── Laws ────────────────────────────────────────────────────────────────────

proof fn user_rows_wf(r: RenderedView, rows: Seq<Seq<char>>, n: nat)
    requires
        r.wf(),
    ensures
        user_rows(r, rows, n).wf(),
    decreases n,
{
    if n > 0 {
        user_rows_wf(r, rows, (n - 1) as nat);
    }
}

proof fn user_lines_wf(r: RenderedView, all: Seq<Seq<char>>, width: nat, n: nat)
    requires
        r.wf(),
    ensures
        user_lines(r, all, width, n).wf(),
    decreases n,
{
    if n > 0 {
        user_lines_wf(r, all, width, (n - 1) as nat);
        let before = user_lines(r, all, width, (n - 1) as nat);
        let rows = wrapped(all[n - 1], width);
        user_rows_wf(before, rows, rows.len());
    }
}

proof fn styled_rows_wf(r: RenderedView, rows: Seq<Seq<char>>, style: Style, n: nat)
    requires
        r.wf(),
    ensures
        styled_rows(r, rows, style, n).wf(),
    decreases n,
{
    if n > 0 {
        styled_rows_wf(r, rows, style, (n - 1) as nat);
    }
}

proof fn styled_lines_wf(
    r: RenderedView,
    all: Seq<Seq<char>>,
    width: nat,
    style: Style,
    holds_place: bool,
    n: nat,
)
    requires
        r.wf(),
    ensures
        styled_lines(r, all, width, style, holds_place, n).wf(),
    decreases n,
{
    if n > 0 {
        styled_lines_wf(r, all, width, style, holds_place, (n - 1) as nat);
        let before = styled_lines(r, all, width, style, holds_place, (n - 1) as nat);
        let rows = wrapped(all[n - 1], width);
        styled_rows_wf(before, rows, style, rows.len());
    }
}

proof fn indented_wf(r: RenderedView, md: Seq<Seq<SpanView>>, n: nat)
    requires
        r.wf(),
    ensures
        indented(r, md, n).wf(),
    decreases n,
{
    if n > 0 {
        indented_wf(r, md, (n - 1) as nat);
    }
}

proof fn answer_wf(r: RenderedView, blocks: Seq<BlockView>, width: int, n: nat)
    requires
        r.wf(),
    ensures
        answer_blocks(r, blocks, width, n).wf(),
    decreases n,
{
    if n > 0 {
        answer_wf(r, blocks, width, (n - 1) as nat);
        let before = answer_blocks(r, blocks, width, (n - 1) as nat);
        match blocks[n - 1] {
            BlockView::Text(t) => {
                let md = markdown(t, monus(width, 2) as int);
                indented_wf(before, md, md.len());
            },
            _ => {},
        }
    }
}

proof fn marked_wf(r: RenderedView, blocks: Seq<BlockView>, width: nat, n: nat)
    requires
        r.wf(),
    ensures
        marked_blocks(r, blocks, width, n).wf(),
    decreases n,
{
    if n > 0 {
        marked_wf(r, blocks, width, (n - 1) as nat);
        let before = marked_blocks(r, blocks, width, (n - 1) as nat);
        match blocks[n - 1] {
            BlockView::Text(t) => {
                let all = lines_of(t);
                styled_lines_wf(before, all, width, fg_italic(Color::DarkGray), false, all.len());
            },
            _ => {},
        }
    }
}

proof fn messages_below_wf(messages: Seq<MessageView>, width: nat, n: nat)
    ensures
        messages_below(messages, width, n).wf(),
    decreases n,
{
    if n > 0 {
        messages_below_wf(messages, width, (n - 1) as nat);
        let before = messages_below(messages, width, (n - 1) as nat);
        let m = messages[n - 1];
        let said = lines_of(content_of(m.blocks));
        user_lines_wf(before, said, monus(width as int, 2), said.len());
        answer_wf(before, m.blocks, width as int, m.blocks.len());
        marked_wf(before, m.blocks, width, m.blocks.len());
        styled_lines_wf(before, said, width, fg_italic(Color::Red), true, said.len());
    }
}

/// Every line of the conversation has one text as shown and one as copied.
pub proof fn messages_lines_wf(messages: Seq<MessageView>, width: nat)
    ensures
        messages_lines(messages, width).wf(),
{
    messages_below_wf(messages, width, messages.len());
}

proof fn pending_below_wf(blocks: Seq<BlockView>, frame: usize, width: int, n: nat)
    ensures
        pending_below(blocks, frame, width, n).wf(),
    decreases n,
{
    if n > 0 {
        pending_below_wf(blocks, frame, width, (n - 1) as nat);
        let before = pending_below(blocks, frame, width, (n - 1) as nat);
        match blocks[n - 1] {
            BlockView::Text(t) => {
                let md = markdown(t, monus(width, 2) as int);
                indented_wf(before, md, md.len());
            },
            _ => {},
        }
    }
}

/// Every line of the answer in progress has one text as shown and one as
/// copied.
pub proof fn pending_lines_wf(
    blocks: Seq<BlockView>,
    status: Option<Seq<char>>,
    frame: usize,
    width: int,
)
    ensures
        pending_lines(blocks, status, frame, width).wf(),
{
    pending_below_wf(blocks, frame, width, blocks.len());
}

/// What was said stays where it is: another message only adds lines behind
/// those of the messages before it.
pub proof fn messages_only_grow(messages: Seq<MessageView>, m: MessageView, width: nat)
    ensures
        messages_lines(messages.push(m), width) == with_message(
            messages_lines(messages, width),
            m,
            width,
        ),
{
    messages_below_prefix(messages, m, width, messages.len());
}

proof fn messages_below_prefix(messages: Seq<MessageView>, m: MessageView, width: nat, n: nat)
    requires
        n <= messages.len(),
    ensures
        messages_below(messages.push(m), width, n) == messages_below(messages, width, n),
    decreases n,
{
    if n > 0 {
        messages_below_prefix(messages, m, width, (n - 1) as nat);
    }
}

} // verus!
