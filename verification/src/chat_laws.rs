//! What holds of the chat as a whole: what is kept of its rendering is in step
//! with its messages, and what is selected reads cleanly.
use vstd::prelude::*;

use crate::chat::{
    fresh_chat, in_order, selected_line, selected_lines, selected_text, ChatView, ContextView,
    MessageView, ViewportView,
};
use crate::chat_keys::MouseKind;
use crate::chat_lines::{messages_lines, no_lines};
use crate::keys::Key;
use crate::recordings::RecordingView;
use crate::text::{
    at_most, ends_clean, joined, joined_ends_clean, monus, pieces, pieces_end_clean,
    pieces_nonempty, prefix_is_as_clean, trimmed_end, trimmed_end_prefix,
};

verus! {

// ─── The cache ───────────────────────────────────────────────────────────────

/// A new chat is in step with its messages, of which there are none.
pub proof fn fresh_is_coherent(limit: Option<Seq<char>>)
    ensures
        fresh_chat(limit).coherent(),
{
    assert(fresh_chat(limit).cache.rendered =~= no_lines());
}

/// A chat of which nothing is kept is in step with its messages, whatever they
/// are.
pub proof fn invalidating_is_coherent(v: ChatView)
    ensures
        v.uncached().coherent(),
{
}

/// Clearing the conversation leaves a cache that is in step, whatever was kept
/// before: nothing of the old messages is drawn again.
pub proof fn clearing_is_coherent(v: ChatView, width: int)
    requires
        width >= 0,
    ensures
        v.emptied().coherent(),
        v.emptied().current_messages(width) == messages_lines(Seq::empty(), width as nat),
{
}

/// Switching to another conversation leaves a cache that is in step, whatever
/// was kept before: what is drawn next are the messages switched to.
pub proof fn switching_is_coherent(
    v: ChatView,
    context: ContextView,
    messages: Seq<MessageView>,
    width: int,
)
    requires
        width >= 0,
    ensures
        v.switched(context, messages).coherent(),
        v.switched(context, messages).current_messages(width) == messages_lines(
            messages,
            width as nat,
        ),
{
}

/// Going into the chat about a recording and coming back keeps the cache in
/// step.
pub proof fn visits_keep_coherence(
    v: ChatView,
    r: RecordingView,
    prompt: Seq<char>,
    suggestions: Seq<Seq<char>>,
    messages: Seq<MessageView>,
    on_main: bool,
)
    ensures
        v.about(r, prompt, suggestions).coherent(),
        v.restored(messages, suggestions, on_main).coherent(),
{
}

/// No key puts the cache out of step.
pub proof fn keys_keep_coherence(v: ChatView, key: Key, on_main: bool)
    requires
        v.coherent(),
    ensures
        v.pressing(key, on_main).0.coherent(),
        v.pressing_below(key).0.coherent(),
{
}

/// The mouse does not put the cache out of step, nor do a greeting, a new
/// prompt and a message that was waiting.
pub proof fn the_rest_keeps_coherence(
    v: ChatView,
    kind: MouseKind,
    column: int,
    row: int,
    owner: Seq<char>,
    recordings: Seq<RecordingView>,
    today: int,
    prompt: Seq<char>,
    suggestions: Seq<Seq<char>>,
)
    requires
        v.coherent(),
    ensures
        v.moused(kind, column, row).0.coherent(),
        v.greeted(owner, recordings, today).coherent(),
        v.globally(prompt, suggestions).coherent(),
        v.resending().0.coherent(),
{
}

// ─── The selection ───────────────────────────────────────────────────────────

/// The lines that a selection is taken from.
pub open spec fn selectable(v: ViewportView) -> Seq<Seq<char>> {
    if v.content_texts_raw.len() > 0 {
        v.content_texts_raw
    } else {
        v.content_texts
    }
}

proof fn cut_line_is_clean(line: Seq<char>, from: int, to: int)
    requires
        0 <= from <= to <= line.len(),
        !line.contains('\n'),
    ensures
        ends_clean(trimmed_end(line.subrange(from, to))),
        !trimmed_end(line.subrange(from, to)).contains('\n'),
{
    let cut = line.subrange(from, to);
    let t = trimmed_end(cut);
    trimmed_end_prefix(cut);
    assert forall|k: int| 0 <= k < t.len() implies #[trigger] t[k] != '\n' by {
        assert(t[k] == cut.take(t.len() as int)[k]);
        assert(t[k] == line[from + k]);
    }
}

proof fn selected_line_is_clean(
    shown: Seq<Seq<char>>,
    raw: Seq<Seq<char>>,
    i: int,
    start: (usize, usize),
    end: (usize, usize),
)
    requires
        0 <= i < raw.len(),
        !raw[i].contains('\n'),
    ensures
        ends_clean(selected_line(shown, raw, i, start, end)),
        !selected_line(shown, raw, i, start, end).contains('\n'),
{
    let line = raw[i];
    let n = line.len() as int;
    let prefix = if i < shown.len() {
        monus(shown[i].len() as int, n) as int
    } else {
        0
    };
    let from = if i == start.0 {
        at_most(monus(start.1 as int, prefix) as int, n)
    } else {
        0
    };
    let to = if i == end.0 {
        at_most(monus(end.1 as int, prefix) as int, n)
    } else {
        n
    };
    if from < to {
        cut_line_is_clean(line, from, to);
    }
}

proof fn selected_lines_are_clean(
    shown: Seq<Seq<char>>,
    raw: Seq<Seq<char>>,
    start: (usize, usize),
    end: (usize, usize),
    n: int,
)
    requires
        start.0 <= n <= raw.len(),
        forall|i: int| 0 <= i < raw.len() ==> !(#[trigger] raw[i]).contains('\n'),
    ensures
        selected_lines(shown, raw, start, end, n).len() == n - start.0,
        forall|i: int|
            0 <= i < n - start.0 ==> ends_clean(
                #[trigger] selected_lines(shown, raw, start, end, n)[i],
            ),
        forall|i: int|
            0 <= i < n - start.0 ==> !(#[trigger] selected_lines(
                shown,
                raw,
                start,
                end,
                n,
            )[i]).contains('\n'),
    decreases n - start.0,
{
    if n > start.0 {
        selected_lines_are_clean(shown, raw, start, end, n - 1);
        selected_line_is_clean(shown, raw, n - 1, start, end);
    }
}

/// The text of a selection and each of its lines end in no white space, and it
/// has at most one line for each line that the selection touches, where no line
/// of the content holds a line break.
pub proof fn selection_reads_cleanly(v: ViewportView, a: (usize, usize), b: (usize, usize))
    requires
        forall|i: int| 0 <= i < selectable(v).len() ==> !(#[trigger] selectable(v)[i]).contains('\n'),
    ensures
        ends_clean(selected_text(v, a, b)),
        forall|i: int|
            0 <= i < pieces(selected_text(v, a, b), '\n').len() ==> ends_clean(
                #[trigger] pieces(selected_text(v, a, b), '\n')[i],
            ),
        pieces(selected_text(v, a, b), '\n').len() <= (if a.0 <= b.0 {
            b.0 - a.0
        } else {
            a.0 - b.0
        }) + 1,
{
    let raw = selectable(v);
    let (start, end) = in_order(a, b);
    let t = selected_text(v, a, b);
    if start.0 < raw.len() {
        let n = at_most(end.0 as int, raw.len() - 1) + 1;
        let lines = selected_lines(v.content_texts, raw, start, end, n);
        let all = joined(lines, seq!['\n']);
        selected_lines_are_clean(v.content_texts, raw, start, end, n);
        joined_ends_clean(lines, '\n');
        reveal_strlit("\n");
        assert("\n"@ =~= seq!['\n']);
        trimmed_end_prefix(all);
        prefix_is_as_clean(all, t.len() as int, '\n');
    }
    pieces_end_clean(t, '\n');
    pieces_nonempty(t, '\n');
}

} // verus!
