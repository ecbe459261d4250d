//! What the screen shows of a conversation: everything that was said, by line,
//! and what is copied from a line is what the line shows.
use vstd::prelude::*;

use crate::chat::{
    content_of, selected_line, selected_lines, selected_text, BlockView, ChatRole, ChatView,
    MessageView, RenderedView, ToolCallView, ViewportView,
};
use crate::chat_lines::{
    answer_blocks, indented, marked_blocks, messages_below, messages_lines, pending_below,
    pending_lines, styled_lines, styled_rows, tool_spans, user_lines, user_rows, with_markdown,
    with_marker, with_message, with_tool, USER_BAR,
};
use crate::markdown::{glyphs, inked, lines_of, markdown, Glyph};
use crate::markdown_laws::{ink, page_glyphs, rendering_keeps_the_ink, source_ink};
use crate::style::{empty_line, fg, fg_italic, line_text, plain, span, Color, SpanView, Style};
use crate::text::{joined, monus, trimmed_end, trimmed_start};
use crate::wrap::wrapped;

verus! {

// ─── What was said is shown ──────────────────────────────────────────────────

/// The rows into which the first `n` lines of a text are wrapped; a line
/// without a row holds its place.
pub open spec fn rows_of_lines(all: Seq<Seq<char>>, width: nat, n: nat) -> Seq<Seq<char>>
    decreases n,
{
    if n == 0 {
        Seq::empty()
    } else {
        rows_of_lines(all, width, (n - 1) as nat) + (if wrapped(all[n - 1], width).len() == 0 {
            seq![Seq::<char>::empty()]
        } else {
            wrapped(all[n - 1], width)
        })
    }
}

proof fn user_rows_are_shown(r: RenderedView, rows: Seq<Seq<char>>, n: nat)
    requires
        n <= rows.len(),
    ensures
        user_rows(r, rows, n).raw == r.raw + rows.take(n as int),
    decreases n,
{
    if n > 0 {
        user_rows_are_shown(r, rows, (n - 1) as nat);
        assert(rows.take(n as int) =~= rows.take(n - 1).push(rows[n - 1]));
        assert(user_rows(r, rows, n).raw =~= r.raw + rows.take(n as int));
    } else {
        assert(user_rows(r, rows, n).raw =~= r.raw + rows.take(0));
    }
}

proof fn user_lines_are_shown(r: RenderedView, all: Seq<Seq<char>>, width: nat, n: nat)
    ensures
        user_lines(r, all, width, n).raw == r.raw + rows_of_lines(all, width, n),
    decreases n,
{
    if n > 0 {
        user_lines_are_shown(r, all, width, (n - 1) as nat);
        let before = user_lines(r, all, width, (n - 1) as nat);
        let rows = wrapped(all[n - 1], width);
        user_rows_are_shown(before, rows, rows.len());
        assert(rows.take(rows.len() as int) =~= rows);
        assert(user_lines(r, all, width, n).raw =~= r.raw + rows_of_lines(all, width, n));
    } else {
        assert(user_lines(r, all, width, n).raw =~= r.raw + rows_of_lines(all, width, n));
    }
}

/// A message of the user is shown line by line, each line wrapped, with an empty
/// line behind it.
pub proof fn what_the_user_said_is_shown(r: RenderedView, m: MessageView, width: nat)
    requires
        m.role == ChatRole::User,
    ensures
        ({
            let said = lines_of(content_of(m.blocks));
            with_message(r, m, width).raw == (r.raw + rows_of_lines(
                said,
                monus(width as int, 2),
                said.len(),
            )).push(Seq::empty())
        }),
{
    let said = lines_of(content_of(m.blocks));
    user_lines_are_shown(r, said, monus(width as int, 2), said.len());
}

proof fn styled_rows_are_shown(r: RenderedView, rows: Seq<Seq<char>>, style: Style, n: nat)
    requires
        n <= rows.len(),
    ensures
        styled_rows(r, rows, style, n).raw == r.raw + rows.take(n as int),
    decreases n,
{
    if n > 0 {
        styled_rows_are_shown(r, rows, style, (n - 1) as nat);
        assert(rows.take(n as int) =~= rows.take(n - 1).push(rows[n - 1]));
        assert(styled_rows(r, rows, style, n).raw =~= r.raw + rows.take(n as int));
    } else {
        assert(styled_rows(r, rows, style, n).raw =~= r.raw + rows.take(0));
    }
}

proof fn styled_lines_are_shown(
    r: RenderedView,
    all: Seq<Seq<char>>,
    width: nat,
    style: Style,
    n: nat,
)
    ensures
        styled_lines(r, all, width, style, true, n).raw == r.raw + rows_of_lines(all, width, n),
    decreases n,
{
    if n > 0 {
        styled_lines_are_shown(r, all, width, style, (n - 1) as nat);
        let before = styled_lines(r, all, width, style, true, (n - 1) as nat);
        let rows = wrapped(all[n - 1], width);
        styled_rows_are_shown(before, rows, style, rows.len());
        assert(rows.take(rows.len() as int) =~= rows);
        assert(styled_lines(r, all, width, style, true, n).raw =~= r.raw + rows_of_lines(
            all,
            width,
            n,
        ));
    } else {
        assert(styled_lines(r, all, width, style, true, n).raw =~= r.raw + rows_of_lines(
            all,
            width,
            n,
        ));
    }
}

/// What the system says, errors above all, is shown line by line too.
pub proof fn what_the_system_said_is_shown(r: RenderedView, m: MessageView, width: nat)
    requires
        m.role == ChatRole::System,
        !crate::chat_lines::has_marker(m.blocks),
    ensures
        ({
            let said = lines_of(content_of(m.blocks));
            with_message(r, m, width).raw == (r.raw + rows_of_lines(
                said,
                width,
                said.len(),
            )).push(Seq::empty())
        }),
{
    let said = lines_of(content_of(m.blocks));
    styled_lines_are_shown(r, said, width, fg_italic(Color::Red), said.len());
}

// ─── Answers ─────────────────────────────────────────────────────────────────

proof fn ink_of_one_more(p: Seq<Seq<SpanView>>, l: Seq<SpanView>)
    ensures
        ink(p.push(l)) == ink(p) + inked(glyphs(l)),
{
    assert(p.push(l).drop_last() =~= p);
    inked_adds(page_glyphs(p), glyphs(l));
}

proof fn inked_adds(a: Seq<Glyph>, b: Seq<Glyph>)
    ensures
        inked(a + b) == inked(a) + inked(b),
    decreases b.len(),
{
    if b.len() == 0 {
        assert(a + b =~= a);
        assert(inked(a) + inked(b) =~= inked(a));
    } else {
        inked_adds(a, b.drop_last());
        assert((a + b).drop_last() =~= a + b.drop_last());
        assert(inked(a + b) =~= inked(a) + inked(b));
    }
}

proof fn glyphs_add(a: Seq<SpanView>, b: Seq<SpanView>)
    ensures
        glyphs(a + b) == glyphs(a) + glyphs(b),
        line_text(a + b) == line_text(a) + line_text(b),
    decreases b.len(),
{
    if b.len() == 0 {
        assert(a + b =~= a);
        assert(glyphs(a) + glyphs(b) =~= glyphs(a));
        assert(line_text(a) + line_text(b) =~= line_text(a));
    } else {
        glyphs_add(a, b.drop_last());
        assert((a + b).drop_last() =~= a + b.drop_last());
        assert(glyphs(a + b) =~= glyphs(a) + glyphs(b));
        assert(line_text(a + b) =~= line_text(a) + line_text(b));
    }
}

proof fn an_indented_line_has_the_same_ink(l: Seq<SpanView>)
    ensures
        inked(glyphs(seq![span("  "@, plain())] + l)) == inked(glyphs(l)),
        line_text(seq![span("  "@, plain())] + l) == "  "@ + line_text(l),
{
    let lead = seq![span("  "@, plain())];
    reveal_strlit("  ");
    assert(lead.drop_last() =~= empty_line());
    reveal_with_fuel(glyphs, 2);
    reveal_with_fuel(line_text, 2);
    reveal_with_fuel(inked, 3);
    let g = glyphs(lead);
    assert(g.len() == 2 && g[0].0 == ' ' && g[1].0 == ' ');
    assert(g.drop_last().drop_last() =~= Seq::<Glyph>::empty());
    assert(inked(g) =~= Seq::<Glyph>::empty());
    assert(line_text(lead) =~= "  "@);
    glyphs_add(lead, l);
    inked_adds(g, glyphs(l));
    assert(inked(g) + inked(glyphs(l)) =~= inked(glyphs(l)));
}

proof fn indented_lines_are_shown(r: RenderedView, md: Seq<Seq<SpanView>>, n: nat)
    requires
        n <= md.len(),
    ensures
        ink(indented(r, md, n).lines) == ink(r.lines) + ink(md.take(n as int)),
        indented(r, md, n).raw == r.raw + Seq::new(n, |i: int| line_text(md[i])),
    decreases n,
{
    let all = indented(r, md, n);
    if n > 0 {
        indented_lines_are_shown(r, md, (n - 1) as nat);
        let before = indented(r, md, (n - 1) as nat);
        let l = seq![span("  "@, plain())] + md[n - 1];
        an_indented_line_has_the_same_ink(md[n - 1]);
        ink_of_one_more(before.lines, l);
        assert(md.take(n as int) =~= md.take(n - 1).push(md[n - 1]));
        ink_of_one_more(md.take(n - 1), md[n - 1]);
        assert(ink(all.lines) =~= ink(r.lines) + ink(md.take(n as int)));
        assert(all.raw =~= r.raw + Seq::new(n, |i: int| line_text(md[i])));
    } else {
        assert(md.take(0) =~= Seq::<Seq<SpanView>>::empty());
        assert(ink(all.lines) =~= ink(r.lines) + ink(md.take(0)));
        assert(all.raw =~= r.raw + Seq::new(n, |i: int| line_text(md[i])));
    }
}

/// What is to be seen of the first `n` blocks of an answer: all of each text,
/// and each tool call with its result.
pub open spec fn answer_ink(blocks: Seq<BlockView>, width: int, n: nat) -> Seq<Glyph>
    decreases n,
{
    if n == 0 {
        Seq::empty()
    } else {
        answer_ink(blocks, width, (n - 1) as nat) + (match blocks[n - 1] {
            BlockView::Text(t) => source_ink(lines_of(t), lines_of(t).len()),
            BlockView::ToolCall(tc) => inked(
                glyphs(tool_spans(tc, "  \u{2713} "@, Color::Green, true)),
            ),
            BlockView::CompactionMarker => inked(
                glyphs(
                    seq![
                        span(crate::chat_lines::marker_text(width), fg_italic(Color::DarkGray)),
                    ],
                ),
            ),
        })
    }
}

proof fn a_text_is_shown(r: RenderedView, t: Seq<char>, width: int)
    ensures
        ink(with_markdown(r, t, width).lines) == ink(r.lines) + source_ink(
            lines_of(t),
            lines_of(t).len(),
        ),
{
    let md = markdown(t, monus(width, 2) as int);
    indented_lines_are_shown(r, md, md.len());
    assert(md.take(md.len() as int) =~= md);
    rendering_keeps_the_ink(t, monus(width, 2) as int);
}

/// An answer is shown whole: the lines on the screen hold every character of
/// its texts that is no mark and no blank, and every tool call, in order,
/// whatever the width.
pub proof fn the_answer_is_shown_whole(
    r: RenderedView,
    blocks: Seq<BlockView>,
    width: int,
    n: nat,
)
    requires
        n <= blocks.len(),
    ensures
        ink(answer_blocks(r, blocks, width, n).lines) == ink(r.lines) + answer_ink(
            blocks,
            width,
            n,
        ),
    decreases n,
{
    let all = answer_blocks(r, blocks, width, n);
    if n > 0 {
        the_answer_is_shown_whole(r, blocks, width, (n - 1) as nat);
        let before = answer_blocks(r, blocks, width, (n - 1) as nat);
        match blocks[n - 1] {
            BlockView::Text(t) => {
                a_text_is_shown(before, t, width);
            },
            BlockView::ToolCall(tc) => {
                ink_of_one_more(
                    before.lines,
                    tool_spans(tc, "  \u{2713} "@, Color::Green, true),
                );
            },
            BlockView::CompactionMarker => {
                ink_of_one_more(
                    before.lines,
                    seq![span(crate::chat_lines::marker_text(width), fg_italic(Color::DarkGray))],
                );
            },
        }
        assert(ink(all.lines) =~= ink(r.lines) + answer_ink(blocks, width, n));
    } else {
        assert(ink(all.lines) =~= ink(r.lines) + answer_ink(blocks, width, n));
    }
}

/// A tool call is told by its name, by what went in and by what came out.
pub proof fn tool_calls_tell_their_story(tc: ToolCallView, icon: Seq<char>, color: Color)
    requires
        tc.input_summary.len() > 0,
        tc.output_summary.len() > 0,
    ensures
        line_text(tool_spans(tc, icon, color, true)) == icon + tc.name + ("("@ + tc.input_summary
            + ")"@) + (" \u{2192} "@ + tc.output_summary),
{
    let l = tool_spans(tc, icon, color, true);
    reveal_with_fuel(line_text, 5);
    let l3 = l.drop_last();
    let l2 = l3.drop_last();
    let l1 = l2.drop_last();
    assert(l.len() == 4);
    assert(l1.drop_last() =~= empty_line());
    assert(line_text(l) =~= icon + tc.name + ("("@ + tc.input_summary + ")"@) + (" \u{2192} "@
        + tc.output_summary));
}

/// The text of an answer in progress is shown as that of a finished one, and
/// what is being done stands below it.
pub proof fn the_answer_in_progress_is_shown(
    blocks: Seq<BlockView>,
    t: Seq<char>,
    s: Seq<char>,
    frame: usize,
    width: int,
)
    ensures
        ({
            let before = pending_below(blocks, frame, width, blocks.len());
            let after = pending_below(
                blocks.push(BlockView::Text(t)),
                frame,
                width,
                blocks.len() + 1,
            );
            ink(after.lines) == ink(before.lines) + source_ink(lines_of(t), lines_of(t).len())
        }),
        ({
            let all = pending_lines(blocks, Some(s), frame, width);
            all.texts.last() == " "@ + crate::chat_lines::chat_spinner(frame)@ + " "@ + s
        }),
        pending_lines(blocks, None, frame, width) == pending_below(
            blocks,
            frame,
            width,
            blocks.len(),
        ),
{
    let more = blocks.push(BlockView::Text(t));
    let before = pending_below(blocks, frame, width, blocks.len());
    pending_prefix(blocks, more, frame, width, blocks.len());
    a_text_is_shown(before, t, width);
}

proof fn pending_prefix(
    a: Seq<BlockView>,
    b: Seq<BlockView>,
    frame: usize,
    width: int,
    n: nat,
)
    requires
        n <= a.len() <= b.len(),
        forall|i: int| 0 <= i < n ==> a[i] == b[i],
    ensures
        pending_below(a, frame, width, n) == pending_below(b, frame, width, n),
    decreases n,
{
    if n > 0 {
        pending_prefix(a, b, frame, width, (n - 1) as nat);
        assert(a[n - 1] == b[n - 1]);
    }
}

/// The chat shows its messages and, below them, the answer in progress.
pub proof fn the_conversation_is_on_the_screen(v: ChatView, width: int)
    requires
        v.coherent(),
        width >= 0,
        !v.shows_home(),
        !v.shows_offers(),
    ensures
        v.content(width).lines == messages_lines(v.talk.messages, width as nat).lines
            + pending_lines(
            v.talk.pending_blocks,
            v.talk.current_status,
            v.entry.spinner_frame,
            width,
        ).lines,
{
    crate::chat_view::cache_is_transparent(v, width);
}

// ─── What is shown is what is copied ─────────────────────────────────────────

/// Every line reads as its text, and what is copied of it is its text without
/// something in front, or nothing.
pub open spec fn faithful(r: RenderedView) -> bool {
    &&& r.wf()
    &&& forall|i: int|
        0 <= i < r.lines.len() ==> line_text(#[trigger] r.lines[i]) == r.texts[i] && ends_with(
            r.texts[i],
            r.raw[i],
        )
}

/// A text ends with another.
pub open spec fn ends_with(s: Seq<char>, tail: Seq<char>) -> bool {
    tail.len() <= s.len() && s.subrange(s.len() - tail.len(), s.len() as int) == tail
}

proof fn one_more_is_faithful(
    r: RenderedView,
    line: Seq<SpanView>,
    text: Seq<char>,
    raw: Seq<char>,
)
    requires
        faithful(r),
        line_text(line) == text,
        ends_with(text, raw),
    ensures
        faithful(r.with(line, text, raw)),
{
    let n = r.with(line, text, raw);
    assert forall|i: int| 0 <= i < n.lines.len() implies line_text(#[trigger] n.lines[i])
        == n.texts[i] && ends_with(n.texts[i], n.raw[i]) by {
        if i < r.lines.len() {
            assert(n.lines[i] == r.lines[i]);
            assert(line_text(r.lines[i]) == r.texts[i]);
        }
    }
}

proof fn text_of_one(s: Seq<char>, style: Style)
    ensures
        line_text(seq![span(s, style)]) == s,
        ends_with(s, s),
        ends_with(s, Seq::empty()),
{
    let l = seq![span(s, style)];
    assert(l.drop_last() =~= empty_line());
    reveal_with_fuel(line_text, 2);
    assert(line_text(l) =~= s);
    assert(s.subrange(0, s.len() as int) =~= s);
    assert(s.subrange(s.len() as int, s.len() as int) =~= Seq::<char>::empty());
}

proof fn text_of_two(a: Seq<char>, s: Style, b: Seq<char>, t: Style)
    ensures
        line_text(seq![span(a, s), span(b, t)]) == a + b,
        ends_with(a + b, b),
        ends_with(a + b, Seq::empty()),
{
    let l = seq![span(a, s), span(b, t)];
    assert(l.drop_last() =~= seq![span(a, s)]);
    text_of_one(a, s);
    assert((a + b).subrange(a.len() as int, (a + b).len() as int) =~= b);
    assert((a + b).subrange((a + b).len() as int, (a + b).len() as int) =~= Seq::<char>::empty());
}

proof fn user_rows_are_faithful(r: RenderedView, rows: Seq<Seq<char>>, n: nat)
    requires
        faithful(r),
    ensures
        faithful(user_rows(r, rows, n)),
    decreases n,
{
    if n > 0 {
        user_rows_are_faithful(r, rows, (n - 1) as nat);
        let bar = fg(Color::Indexed(60));
        let said = fg(Color::Indexed(249));
        text_of_two(USER_BAR@, bar, rows[n - 1], said);
        one_more_is_faithful(
            user_rows(r, rows, (n - 1) as nat),
            seq![span(USER_BAR@, bar), span(rows[n - 1], said)],
            USER_BAR@ + rows[n - 1],
            rows[n - 1],
        );
    }
}

proof fn user_lines_are_faithful(r: RenderedView, all: Seq<Seq<char>>, width: nat, n: nat)
    requires
        faithful(r),
    ensures
        faithful(user_lines(r, all, width, n)),
    decreases n,
{
    if n > 0 {
        user_lines_are_faithful(r, all, width, (n - 1) as nat);
        let before = user_lines(r, all, width, (n - 1) as nat);
        let rows = wrapped(all[n - 1], width);
        user_rows_are_faithful(before, rows, rows.len());
        text_of_one("  "@, plain());
        one_more_is_faithful(before, seq![span("  "@, plain())], "  "@, Seq::empty());
    }
}

proof fn styled_rows_are_faithful(r: RenderedView, rows: Seq<Seq<char>>, style: Style, n: nat)
    requires
        faithful(r),
    ensures
        faithful(styled_rows(r, rows, style, n)),
    decreases n,
{
    if n > 0 {
        styled_rows_are_faithful(r, rows, style, (n - 1) as nat);
        text_of_one(rows[n - 1], style);
        one_more_is_faithful(
            styled_rows(r, rows, style, (n - 1) as nat),
            seq![span(rows[n - 1], style)],
            rows[n - 1],
            rows[n - 1],
        );
    }
}

proof fn styled_lines_are_faithful(
    r: RenderedView,
    all: Seq<Seq<char>>,
    width: nat,
    style: Style,
    holds_place: bool,
    n: nat,
)
    requires
        faithful(r),
    ensures
        faithful(styled_lines(r, all, width, style, holds_place, n)),
    decreases n,
{
    if n > 0 {
        styled_lines_are_faithful(r, all, width, style, holds_place, (n - 1) as nat);
        let before = styled_lines(r, all, width, style, holds_place, (n - 1) as nat);
        let rows = wrapped(all[n - 1], width);
        styled_rows_are_faithful(before, rows, style, rows.len());
        text_of_one(Seq::empty(), style);
        one_more_is_faithful(
            before,
            seq![span(Seq::<char>::empty(), style)],
            Seq::empty(),
            Seq::empty(),
        );
    }
}

proof fn markdown_is_faithful(r: RenderedView, md: Seq<Seq<SpanView>>, n: nat)
    requires
        faithful(r),
        n <= md.len(),
    ensures
        faithful(indented(r, md, n)),
    decreases n,
{
    if n > 0 {
        markdown_is_faithful(r, md, (n - 1) as nat);
        let l = md[n - 1];
        let t = line_text(l);
        an_indented_line_has_the_same_ink(l);
        reveal_strlit("  ");
        assert(("  "@ + t).subrange(2, ("  "@ + t).len() as int) =~= t);
        one_more_is_faithful(
            indented(r, md, (n - 1) as nat),
            seq![span("  "@, plain())] + l,
            "  "@ + t,
            t,
        );
    }
}

proof fn starts_go(s: Seq<char>)
    ensures
        ends_with(s, trimmed_start(s)),
    decreases s.len(),
{
    if s.len() > 0 && crate::text::whitespace(s[0]) {
        let rest = s.subrange(1, s.len() as int);
        starts_go(rest);
        let t = trimmed_start(s);
        assert(rest.subrange(rest.len() - t.len(), rest.len() as int) =~= s.subrange(
            s.len() - t.len(),
            s.len() as int,
        ));
    } else {
        assert(s.subrange(0, s.len() as int) =~= s);
    }
}

proof fn a_block_is_faithful(r: RenderedView, b: BlockView, l: Seq<SpanView>, width: int)
    requires
        faithful(r),
    ensures
        b matches BlockView::Text(t) ==> faithful(with_markdown(r, t, width)),
        faithful(with_marker(r, width)),
        faithful(with_tool(r, l)),
{
    match b {
        BlockView::Text(t) => {
            let md = markdown(t, monus(width, 2) as int);
            markdown_is_faithful(r, md, md.len());
        },
        _ => {},
    }
    let mark = crate::chat_lines::marker_text(width);
    text_of_one(mark, fg_italic(Color::DarkGray));
    one_more_is_faithful(r, seq![span(mark, fg_italic(Color::DarkGray))], mark, Seq::empty());
    starts_go(line_text(l));
    one_more_is_faithful(r, l, line_text(l), trimmed_start(line_text(l)));
}

proof fn answers_are_faithful(r: RenderedView, blocks: Seq<BlockView>, width: int, n: nat)
    requires
        faithful(r),
    ensures
        faithful(answer_blocks(r, blocks, width, n)),
    decreases n,
{
    if n > 0 {
        answers_are_faithful(r, blocks, width, (n - 1) as nat);
        let before = answer_blocks(r, blocks, width, (n - 1) as nat);
        let l = match blocks[n - 1] {
            BlockView::ToolCall(tc) => tool_spans(tc, "  \u{2713} "@, Color::Green, true),
            _ => empty_line(),
        };
        a_block_is_faithful(before, blocks[n - 1], l, width);
    }
}

proof fn marked_blocks_are_faithful(r: RenderedView, blocks: Seq<BlockView>, width: nat, n: nat)
    requires
        faithful(r),
    ensures
        faithful(marked_blocks(r, blocks, width, n)),
    decreases n,
{
    if n > 0 {
        marked_blocks_are_faithful(r, blocks, width, (n - 1) as nat);
        let before = marked_blocks(r, blocks, width, (n - 1) as nat);
        a_block_is_faithful(before, blocks[n - 1], empty_line(), width as int);
        match blocks[n - 1] {
            BlockView::Text(t) => {
                styled_lines_are_faithful(
                    before,
                    lines_of(t),
                    width,
                    fg_italic(Color::DarkGray),
                    false,
                    lines_of(t).len(),
                );
            },
            _ => {},
        }
    }
}

proof fn a_message_is_faithful(r: RenderedView, m: MessageView, width: nat)
    requires
        faithful(r),
    ensures
        faithful(with_message(r, m, width)),
{
    let said = lines_of(content_of(m.blocks));
    user_lines_are_faithful(r, said, monus(width as int, 2), said.len());
    answers_are_faithful(r, m.blocks, width as int, m.blocks.len());
    marked_blocks_are_faithful(r, m.blocks, width, m.blocks.len());
    styled_lines_are_faithful(r, said, width, fg_italic(Color::Red), true, said.len());
    let none = Seq::<char>::empty();
    assert(none.subrange(0, 0) =~= none);
    let shown = match m.role {
        ChatRole::User => user_lines(r, said, monus(width as int, 2), said.len()),
        ChatRole::Assistant => answer_blocks(r, m.blocks, width as int, m.blocks.len()),
        ChatRole::System => if crate::chat_lines::has_marker(m.blocks) {
            marked_blocks(r, m.blocks, width, m.blocks.len())
        } else {
            styled_lines(r, said, width, fg_italic(Color::Red), true, said.len())
        },
    };
    assert(line_text(empty_line()) =~= none);
    one_more_is_faithful(shown, empty_line(), none, none);
}

/// Of every line of a conversation the text that is kept for the mouse is what
/// the line shows, and what is copied is that text without its indentation and
/// its bar, or nothing.
pub proof fn lines_are_copied_as_shown(messages: Seq<MessageView>, width: nat, n: nat)
    requires
        n <= messages.len(),
    ensures
        faithful(messages_below(messages, width, n)),
    decreases n,
{
    if n > 0 {
        lines_are_copied_as_shown(messages, width, (n - 1) as nat);
        a_message_is_faithful(
            messages_below(messages, width, (n - 1) as nat),
            messages[n - 1],
            width,
        );
    }
}

// ─── Selecting ───────────────────────────────────────────────────────────────

/// The part of one line that is selected is copied: the characters between the
/// two columns, counted on what is shown, without what is shown only.
pub proof fn the_selected_part_is_copied(
    v: ViewportView,
    line: usize,
    prefix: int,
    from: int,
    to: int,
    a: usize,
    b: usize,
)
    requires
        line < v.content_texts_raw.len(),
        line < v.content_texts.len(),
        v.content_texts[line as int].len() == v.content_texts_raw[line as int].len() + prefix,
        prefix >= 0,
        0 <= from <= to <= v.content_texts_raw[line as int].len(),
        a == prefix + from,
        b == prefix + to,
    ensures
        selected_text(v, (line, a), (line, b)) == trimmed_end(
            v.content_texts_raw[line as int].subrange(from, to),
        ),
{
    let raw = v.content_texts_raw;
    let s = (line, a);
    let e = (line, b);
    let part = raw[line as int].subrange(from, to);
    let one = selected_line(v.content_texts, raw, line as int, s, e);
    assert(selected_lines(v.content_texts, raw, s, e, line as int) =~= Seq::<Seq<char>>::empty());
    let all = selected_lines(v.content_texts, raw, s, e, line + 1);
    assert(all =~= seq![one]);
    if from == to {
        assert(part =~= Seq::<char>::empty());
    }
    assert(one == trimmed_end(part));
    trimming_twice(part);
    assert(joined(all, "\n"@) == one);
}

proof fn trimming_twice(s: Seq<char>)
    ensures
        trimmed_end(trimmed_end(s)) == trimmed_end(s),
{
    crate::text::trimmed_end_prefix(s);
}

/// Of the lines between the first and the last of a selection each is copied
/// whole; of the first what stands behind the column where it begins, and of
/// the last what stands in front of the column where it ends.
pub proof fn the_lines_between_are_copied_whole(
    shown: Seq<Seq<char>>,
    raw: Seq<Seq<char>>,
    start: (usize, usize),
    end: (usize, usize),
    i: int,
)
    requires
        0 <= i < raw.len(),
        i < shown.len(),
        shown[i] == raw[i],
        start.0 < end.0,
    ensures
        start.0 < i < end.0 ==> selected_line(shown, raw, i, start, end) == trimmed_end(raw[i]),
        i == start.0 && start.1 <= raw[i].len() ==> selected_line(shown, raw, i, start, end)
            == trimmed_end(raw[i].subrange(start.1 as int, raw[i].len() as int)),
        i == end.0 && end.1 <= raw[i].len() ==> selected_line(shown, raw, i, start, end)
            == trimmed_end(raw[i].subrange(0, end.1 as int)),
{
    assert(raw[i].subrange(0, raw[i].len() as int) =~= raw[i]);
    let none = Seq::<char>::empty();
    if raw[i].len() == 0 {
        assert(raw[i] =~= none);
    }
    if i == start.0 && start.1 == raw[i].len() {
        assert(raw[i].subrange(start.1 as int, raw[i].len() as int) =~= none);
    }
    if i == end.0 && end.1 == 0 {
        assert(raw[i].subrange(0, 0) =~= none);
    }
}

/// The mouse marks where it goes down and where it is dragged to, and copies
/// what lies between when it is let go; where nothing was dragged the mark goes
/// away.
pub proof fn the_mouse_copies_what_it_marks(
    v: ChatView,
    column: int,
    row: int,
    a: (usize, usize),
    b: (usize, usize),
)
    requires
        v.viewport.panel_rect.has(column, row),
    ensures
        crate::chat::content_pos(v, column, row) matches Some(p) ==> {
            let down = v.moused(crate::chat_keys::MouseKind::Down, column, row).0;
            &&& down.viewport.selection_anchor == Some((p.0 as usize, p.1 as usize))
            &&& down.viewport.selection_end is None
            &&& down.moused(crate::chat_keys::MouseKind::Up, column, row).1 is None
            &&& down.moused(
                crate::chat_keys::MouseKind::Up,
                column,
                row,
            ).0.viewport.selection_anchor is None
        },
        v.viewport.selection_anchor == Some(a) && v.viewport.selection_end == Some(b) ==> {
            let up = v.moused(crate::chat_keys::MouseKind::Up, column, row);
            &&& up.1 matches Some(t) ==> t == selected_text(v.viewport, a, b)
            &&& up.1 is None <==> crate::text::trimmed(selected_text(v.viewport, a, b)).len() == 0
            &&& up.0 == v
        },
{
}

/// The column under the mouse is counted from the left edge of the text, inside
/// the border where there is one.
pub proof fn columns_are_counted_from_the_text(v: ChatView, column: int, row: int)
    ensures
        crate::chat::content_pos(v, column, row) matches Some(p) ==> {
            &&& v.viewport.content_border_overhead == 0 && column >= v.viewport.panel_rect.x
                ==> p.1 == column - v.viewport.panel_rect.x
            &&& v.viewport.content_border_overhead > 0 && column > v.viewport.panel_rect.x ==> p.1
                == column - v.viewport.panel_rect.x - 1
        },
{
}

/// Dragging marks up to where the mouse is, and keeps where it began.
pub proof fn dragging_marks_up_to_the_mouse(v: ChatView, column: int, row: int, a: (usize, usize))
    requires
        v.viewport.panel_rect.has(column, row),
        v.viewport.selection_anchor == Some(a),
    ensures
        ({
            let next = v.moused(crate::chat_keys::MouseKind::Drag, column, row).0;
            let looked = v.edged(row);
            &&& next.viewport.selection_anchor == Some(a)
            &&& crate::chat::content_pos(looked, column, row) matches Some(p)
                ==> next.viewport.selection_end == Some((p.0 as usize, p.1 as usize))
            &&& next.talk == v.talk
        }),
{
}

} // verus!
