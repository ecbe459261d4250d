//! What the chat is for: what is asked goes out with the whole conversation,
//! and the answer that is streamed becomes part of it.
use vstd::prelude::*;

use crate::chat::{
    compacted, compacts, content_is_joined, content_of, fresh_chat, prompt_with_summary, summed_up,
    text_message, text_message_content, with_chunk, BlockView, ChatFocus, ChatRole, ChatStreamEvent,
    ChatView, ToolCallView,
};
use crate::chat_keys::{ChatDoView, OutgoingView};
use crate::keys::Key;
use crate::text::{decimal, signed_decimal};

verus! {

// ─── What goes out ───────────────────────────────────────────────────────────

/// A turn says who spoke.
pub open spec fn speaks_as(turn: (Seq<char>, Seq<char>), role: ChatRole) -> bool {
    &&& role == ChatRole::User <==> turn.0 == "User"@
    &&& role == ChatRole::Assistant <==> turn.0 == "Assistant"@
    &&& role == ChatRole::System <==> turn.0 == "System"@
}

/// The conversation goes out whole: every message so far, whoever spoke, with
/// its role and its full text, and then the new message of the user.
pub proof fn the_conversation_goes_out_whole(v: ChatView, i: int)
    requires
        v.sending().1 is Some,
        0 <= i < v.talk.messages.len(),
    ensures
        ({
            let o = v.sending().1->0;
            &&& o.messages.len() == v.talk.messages.len() + 1
            &&& speaks_as(o.messages[i], v.talk.messages[i].role)
            &&& o.messages[i].1 == content_of(v.talk.messages[i].blocks)
            &&& speaks_as(o.messages.last(), ChatRole::User)
            &&& o.messages.last().1 == o.user_message
        }),
{
    roles_have_names();
    let o = v.sending().1->0;
    text_message_content(ChatRole::User, o.user_message);
}

proof fn roles_have_names()
    ensures
        "User"@ != "Assistant"@,
        "User"@ != "System"@,
        "Assistant"@ != "System"@,
{
    reveal_strlit("User");
    reveal_strlit("Assistant");
    reveal_strlit("System");
    assert("User"@.len() == 4 && "Assistant"@.len() == 9 && "System"@.len() == 6);
}

/// No part of what was said is left out: wherever a text stands in a message,
/// it stands in the turn that goes out, between the texts of the blocks before
/// it and of those behind it.
pub proof fn every_text_block_goes_out(
    v: ChatView,
    i: int,
    before: Seq<BlockView>,
    t: Seq<char>,
    behind: Seq<BlockView>,
)
    requires
        v.sending().1 is Some,
        0 <= i < v.talk.messages.len(),
        v.talk.messages[i].blocks == before.push(BlockView::Text(t)) + behind,
    ensures
        v.sending().1->0.messages[i].1 == content_of(before) + t + content_of(behind),
{
    the_conversation_goes_out_whole(v, i);
    content_is_joined(before.push(BlockView::Text(t)), behind);
    assert(before.push(BlockView::Text(t)).drop_last() =~= before);
}

/// An answer that has ended is part of what goes out next: the model gets its
/// own words back.
pub proof fn answers_go_out_again(v: ChatView, typed: Seq<char>)
    requires
        typed.len() > 0,
    ensures
        ({
            let answered = v.hearing(ChatStreamEvent::Done);
            let asked = (ChatView {
                entry: crate::chat::EntryView { input_buffer: typed, ..answered.entry },
                offers: crate::chat::OffersView { show_suggestions: false, ..answered.offers },
                ..answered
            }).sending();
            let n = v.talk.messages.len() as int;
            asked.1 matches Some(o) && o.messages.len() == n + 2 && o.messages[n] == (
                "Assistant"@,
                content_of(v.talk.pending_blocks),
            ) && o.messages[n + 1] == ("User"@, typed)
        }),
{
    text_message_content(ChatRole::User, typed);
}

/// What was typed is what is asked, and the conversation shows it as a message
/// of the user; the input is empty then. The prompt of the chat goes with it.
pub proof fn what_was_typed_is_asked(v: ChatView)
    requires
        !v.offering(),
        v.entry.input_buffer.len() > 0,
    ensures
        v.sending().1 matches Some(o) && o.user_message == v.entry.input_buffer && o.system_prompt
            == v.entry.system_prompt,
        v.sending().0.talk.messages.last().role == ChatRole::User,
        content_of(v.sending().0.talk.messages.last().blocks) == v.entry.input_buffer,
        v.sending().0.talk.messages.drop_last() == v.talk.messages,
        v.sending().0.entry.input_buffer.len() == 0,
        v.sending().0.entry.system_prompt == v.entry.system_prompt,
        v.sending().0.talk.is_generating,
        v.sending().0.talk.streaming,
        v.sending().0.talk.pending_blocks.len() == 0,
        !v.sending().0.home.show_home_screen,
        v.sending().0.viewport.auto_scroll,
{
    text_message_content(ChatRole::User, v.entry.input_buffer);
    assert(v.sending().0.talk.messages.drop_last() =~= v.talk.messages);
}

/// Of the questions on offer the chosen one is asked; the entry below the last
/// one asks nothing and takes the questions away. With nothing typed and
/// nothing on offer nothing goes out and nothing changes.
pub proof fn the_chosen_question_is_asked(v: ChatView)
    ensures
        v.offers.show_suggestions && v.offers.selected_suggestion < v.offers.suggestions.len() ==> (
        v.sending().1 matches Some(o) && o.user_message
            == v.offers.suggestions[v.offers.selected_suggestion as int]),
        v.offering() && v.offers.selected_suggestion >= v.offers.suggestions.len()
            ==> v.sending().1 is None && v.sending().0.talk == v.talk,
        v.offering() ==> !v.sending().0.offers.show_suggestions,
        !v.offering() && v.entry.input_buffer.len() == 0 ==> v.sending() == (
            v,
            None::<OutgoingView>,
        ),
{
}

/// Enter sends what was typed, on the main screen and below a transcript,
/// unless an answer is coming; then nothing goes out before it has ended.
pub proof fn enter_sends(v: ChatView, on_main: bool)
    requires
        v.entry.focus == ChatFocus::ChatInput,
        v.entry.input_buffer.len() > 0,
    ensures
        !v.talk.is_generating && !v.offering() ==> {
            &&& v.pressing(Key::Enter, on_main).1 matches ChatDoView::Send(o) && o.user_message
                == v.entry.input_buffer
            &&& v.pressing_below(Key::Enter).1 matches ChatDoView::Send(o) && o.user_message
                == v.entry.input_buffer
        },
        v.talk.is_generating ==> {
            &&& v.pressing(Key::Enter, on_main).1 == ChatDoView::Done
            &&& v.pressing_below(Key::Enter).1 == ChatDoView::Done
            &&& v.pressing(Key::Enter, on_main).0.talk.messages == v.talk.messages
            &&& v.pressing(Key::Enter, on_main).0.talk.pending_message == Some(
                v.entry.input_buffer,
            )
            &&& v.pressing_below(Key::Enter).0.talk.pending_message == Some(v.entry.input_buffer)
        },
{
}

/// Only Enter sends anything.
pub proof fn only_enter_sends(v: ChatView, key: Key, on_main: bool)
    requires
        key != Key::Enter,
    ensures
        !(v.pressing(key, on_main).1 is Send),
        !(v.pressing(key, on_main).1 is Fresh),
        !(v.pressing(key, on_main).1 is OpenTranscript),
        !(v.pressing_below(key).1 is Send),
        key != Key::Esc ==> v.pressing(key, on_main).0.talk == v.talk,
        v.pressing_below(key).0.talk == v.talk,
{
}

/// What waited for the end of an answer goes out as it was typed, behind that
/// answer, and waits no longer.
pub proof fn what_waited_goes_out_behind_the_answer(v: ChatView, m: Seq<char>)
    requires
        v.talk.pending_message == Some(m),
        m.len() > 0,
        !v.offering(),
    ensures
        ({
            let answered = v.hearing(ChatStreamEvent::Done);
            let n = v.talk.messages.len() as int;
            &&& answered.resending().1 matches Some(o) && o.user_message == m && o.messages.len()
                == n + 2 && o.messages[n].1 == content_of(v.talk.pending_blocks)
                && o.messages.last().1 == m
            &&& answered.resending().0.talk.pending_message is None
        }),
{
    text_message_content(ChatRole::User, m);
}

/// The conversation is to be summed up first exactly where more than four
/// fifths of the window are in use.
pub proof fn a_full_window_is_summed_up(v: ChatView)
    requires
        v.sending().1 is Some,
    ensures
        v.sending().1->0.needs_compaction <==> 100 * (v.usage.input_tokens
            + v.usage.output_tokens) > 80 * v.usage.window_max,
{
}

/// The last four messages are never summed up, and nothing is without need.
pub proof fn short_histories_stay(needed: bool, count: nat)
    ensures
        compacts(needed, count) ==> needed && count >= 4,
        needed && count >= 4 ==> compacts(needed, count),
        crate::chat::KEPT_MESSAGES == 4,
{
}

/// What is summed up are the first messages, all but the last four, and only
/// where that is needed; the rest goes out as it is, behind the prompt and the
/// summary.
pub proof fn the_beginning_is_summed_up(
    needed: bool,
    count: nat,
    prompt: Seq<char>,
    summary: Seq<char>,
)
    ensures
        !needed ==> summed_up(needed, count) == 0,
        count < 4 ==> summed_up(needed, count) == 0,
        needed && count >= 4 ==> summed_up(needed, count) + 4 == count,
        prompt_with_summary(prompt, summary).take(prompt.len() as int) == prompt,
        prompt_with_summary(prompt, summary) == prompt
            + "\n\n## Previous Conversation Summary\n"@ + summary,
        prompt_with_summary(prompt, summary).subrange(
            prompt_with_summary(prompt, summary).len() - summary.len(),
            prompt_with_summary(prompt, summary).len() as int,
        ) == summary,
{
    let all = prompt_with_summary(prompt, summary);
    assert(all.take(prompt.len() as int) =~= prompt);
    assert(all.subrange(all.len() - summary.len(), all.len() as int) =~= summary);
}

// ─── What comes in ───────────────────────────────────────────────────────────

/// The text that a stream brings, in order.
pub open spec fn streamed(events: Seq<ChatStreamEvent>) -> Seq<char>
    decreases events.len(),
{
    if events.len() == 0 {
        Seq::empty()
    } else {
        streamed(events.drop_last()) + (match events.last() {
            ChatStreamEvent::Chunk(t) => t@,
            _ => Seq::empty(),
        })
    }
}

/// The chat after some events, one after the other.
pub open spec fn after_events(v: ChatView, events: Seq<ChatStreamEvent>) -> ChatView
    decreases events.len(),
{
    if events.len() == 0 {
        v
    } else {
        after_events(v, events.drop_last()).hearing(events.last())
    }
}

/// An event that belongs to an answer in progress.
pub open spec fn goes_on(e: ChatStreamEvent) -> bool {
    !(e is Done) && !(e is Error) && !(e is Compacted)
}

/// A chunk adds its text to the end of what was streamed.
pub proof fn a_chunk_adds_its_text(blocks: Seq<BlockView>, text: Seq<char>)
    ensures
        content_of(with_chunk(blocks, text)) == content_of(blocks) + text,
{
    let next = with_chunk(blocks, text);
    if blocks.len() > 0 && blocks.last() is Text {
        assert(next.drop_last() =~= blocks.drop_last());
        assert(content_of(next) =~= content_of(blocks) + text);
    } else {
        assert(next.drop_last() =~= blocks);
    }
}

proof fn a_result_says_nothing(blocks: Seq<BlockView>, name: Seq<char>, output: Seq<char>)
    ensures
        content_of(crate::chat::with_result(blocks, name, output)) == content_of(blocks),
{
    crate::chat::results_go_to_the_last_open_call(blocks, name, output);
    let next = crate::chat::with_result(blocks, name, output);
    same_texts_same_content(blocks, next);
}

proof fn same_texts_same_content(a: Seq<BlockView>, b: Seq<BlockView>)
    requires
        a.len() == b.len(),
        forall|i: int|
            0 <= i < a.len() ==> #[trigger] a[i] == b[i] || (a[i] is ToolCall && b[i] is ToolCall),
    ensures
        content_of(a) == content_of(b),
    decreases a.len(),
{
    if a.len() > 0 {
        assert(a[a.len() - 1] == b[a.len() - 1] || a[a.len() - 1] is ToolCall);
        assert forall|i: int| 0 <= i < a.drop_last().len() implies #[trigger] a.drop_last()[i]
            == b.drop_last()[i] || (a.drop_last()[i] is ToolCall && b.drop_last()[i]
            is ToolCall) by {
            assert(a[i] == b[i] || (a[i] is ToolCall && b[i] is ToolCall));
        }
        same_texts_same_content(a.drop_last(), b.drop_last());
    }
}

/// The whole answer arrives: whatever tools are called in between, the answer
/// consists of all the text that was streamed, in order, and becomes a message
/// of the assistant when the stream ends.
pub proof fn the_streamed_answer_is_kept(v: ChatView, events: Seq<ChatStreamEvent>)
    requires
        forall|i: int| 0 <= i < events.len() ==> goes_on(#[trigger] events[i]),
    ensures
        ({
            let heard = after_events(v, events);
            let done = heard.hearing(ChatStreamEvent::Done);
            &&& content_of(heard.talk.pending_blocks) == content_of(v.talk.pending_blocks)
                + streamed(events)
            &&& heard.talk.messages == v.talk.messages
            &&& heard.talk.is_generating == v.talk.is_generating
            &&& done.talk.messages.len() == v.talk.messages.len() + 1
            &&& done.talk.messages.last().role == ChatRole::Assistant
            &&& content_of(done.talk.messages.last().blocks) == content_of(v.talk.pending_blocks)
                + streamed(events)
            &&& !done.talk.is_generating
        }),
    decreases events.len(),
{
    if events.len() > 0 {
        let front = events.drop_last();
        assert forall|i: int| 0 <= i < front.len() implies goes_on(#[trigger] front[i]) by {
            assert(goes_on(events[i]));
        }
        the_streamed_answer_is_kept(v, front);
        assert(goes_on(events[events.len() - 1]));
        let before = after_events(v, front);
        let blocks = before.talk.pending_blocks;
        let start = content_of(v.talk.pending_blocks);
        match events.last() {
            ChatStreamEvent::Chunk(t) => {
                a_chunk_adds_its_text(blocks, t@);
                assert((start + streamed(front)) + t@ =~= start + streamed(events));
            },
            ChatStreamEvent::ToolCall { name, input_summary } => {
                let after = before.hearing(events.last()).talk.pending_blocks;
                assert(after.drop_last() =~= blocks);
                assert(start + streamed(front) =~= start + streamed(events));
            },
            ChatStreamEvent::ToolResult { name, output_summary } => {
                a_result_says_nothing(blocks, name@, output_summary@);
                assert(start + streamed(front) =~= start + streamed(events));
            },
            _ => {
                assert(start + streamed(front) =~= start + streamed(events));
            },
        }
    } else {
        assert(content_of(v.talk.pending_blocks) + streamed(events) =~= content_of(
            v.talk.pending_blocks,
        ));
    }
}

/// A tool call is shown from the moment it is made, open, with its name and its
/// input; its result closes it and is shown with it.
pub proof fn tool_calls_are_shown(v: ChatView, name: String, input: String, output: String)
    ensures
        ({
            let called = v.hearing(
                ChatStreamEvent::ToolCall { name, input_summary: input },
            );
            let told = called.hearing(
                ChatStreamEvent::ToolResult { name, output_summary: output },
            );
            let n = v.talk.pending_blocks.len() as int;
            &&& called.talk.pending_blocks.drop_last() == v.talk.pending_blocks
            &&& called.talk.pending_blocks.last() == BlockView::ToolCall(
                ToolCallView {
                    name: name@,
                    input_summary: input@,
                    output_summary: Seq::empty(),
                    is_complete: false,
                },
            )
            &&& told.talk.pending_blocks.len() == n + 1
            &&& told.talk.pending_blocks[n] == BlockView::ToolCall(
                ToolCallView {
                    name: name@,
                    input_summary: input@,
                    output_summary: output@,
                    is_complete: true,
                },
            )
            &&& told.talk.pending_blocks.take(n) == v.talk.pending_blocks
        }),
{
    let called = v.hearing(ChatStreamEvent::ToolCall { name, input_summary: input });
    let told = called.hearing(ChatStreamEvent::ToolResult { name, output_summary: output });
    let n = v.talk.pending_blocks.len() as int;
    assert(called.talk.pending_blocks.drop_last() =~= v.talk.pending_blocks);
    assert(crate::chat::open_call(called.talk.pending_blocks, name@, (n + 1) as nat) == Some(n));
    assert(told.talk.pending_blocks.take(n) =~= v.talk.pending_blocks);
}

/// What is being done is said while it is done: the status of the stream is
/// shown as it comes, text takes it away, and so does the end.
pub proof fn the_status_is_shown(v: ChatView, msg: String, text: String)
    ensures
        v.hearing(ChatStreamEvent::Status(msg)).talk.current_status == Some(msg@),
        v.hearing(ChatStreamEvent::Status(msg)).talk.pending_blocks == v.talk.pending_blocks,
        v.hearing(ChatStreamEvent::Chunk(text)).talk.current_status is None,
        v.hearing(ChatStreamEvent::Done).talk.current_status is None,
        v.hearing(ChatStreamEvent::Error(msg)).talk.current_status is None,
{
}

/// What went wrong is said in the conversation.
pub proof fn errors_are_told(v: ChatView, msg: String)
    ensures
        content_of(v.hearing(ChatStreamEvent::Error(msg)).talk.messages.last().blocks) == "Error: "@
            + msg@,
        !v.hearing(ChatStreamEvent::Error(msg)).talk.streaming,
{
    text_message_content(ChatRole::System, "Error: "@ + msg@);
}

/// A conversation that was summed up: the summary stands where the old messages
/// stood, the user is told how many they were, and the others are all there.
/// The window counts from the beginning.
pub proof fn the_summary_takes_the_place(v: ChatView, summary: String, removed_count: usize)
    ensures
        ({
            let next = v.hearing(ChatStreamEvent::Compacted { summary, removed_count });
            let n = v.talk.messages.len() as int;
            let all = next.talk.messages;
            &&& removed_count <= n ==> {
                &&& all.len() == n - removed_count + 3
                &&& content_of(all[0].blocks) == "Context compacted: "@ + decimal(
                    removed_count as nat,
                ) + " messages summarized, "@ + (decimal((n - removed_count) as nat) + " kept"@)
                &&& content_of(all[2].blocks) == summary@
                &&& all[2].role == ChatRole::System
                &&& forall|i: int|
                    removed_count <= i < n ==> #[trigger] v.talk.messages[i] == all[i
                        - removed_count + 3]
            }
            &&& removed_count > n ==> {
                &&& all.len() == n + 2
                &&& content_of(all.last().blocks) == summary@
                &&& all.take(n) == v.talk.messages
            }
            &&& next.usage.input_tokens == 0
            &&& next.usage.output_tokens == 0
            &&& next.usage.window_max == v.usage.window_max
            &&& next.talk.pending_blocks == v.talk.pending_blocks
            &&& next.talk.streaming == v.talk.streaming
        }),
{
    let n = v.talk.messages.len() as int;
    let all = compacted(v.talk.messages, summary@, removed_count as nat);
    text_message_content(ChatRole::System, summary@);
    if removed_count <= n {
        let note = "Context compacted: "@ + decimal(removed_count as nat)
            + " messages summarized, "@ + (decimal((n - removed_count) as nat) + " kept"@);
        text_message_content(ChatRole::System, note);
        assert(all[0] == text_message(ChatRole::System, note));
        assert(all[2] == text_message(ChatRole::System, summary@));
    } else {
        assert(all.take(n) =~= v.talk.messages);
    }
}

/// Nothing is received after the end of an answer, and what waited is sent
/// only then, unless the answer failed.
pub proof fn the_stream_ends_with_the_answer(
    v: ChatView,
    rest: Seq<ChatStreamEvent>,
    e: ChatStreamEvent,
)
    requires
        v.talk.streaming,
        e is Done || e is Error,
    ensures
        v.hearing_from(seq![e] + rest, 0) == v.hearing(e),
        e is Done ==> v.resends(seq![e] + rest) == (v.talk.pending_message is Some),
        e is Error ==> !v.resends(seq![e] + rest),
{
    let all = seq![e] + rest;
    assert(all[0] == e);
    assert(v.hearing_from(all, 0) == v.hearing(e).hearing_from(all, 1));
    assert(!v.hearing(e).talk.streaming);
}

/// Every event is heard while the stream lasts, in its order.
pub proof fn events_are_heard_in_order(v: ChatView, e: ChatStreamEvent, f: ChatStreamEvent)
    requires
        v.talk.streaming,
        goes_on(e),
    ensures
        v.hearing_from(seq![e, f], 0) == v.hearing(e).hearing(f),
        !v.resends(seq![e]),
{
    reveal_with_fuel(ChatView::hearing_from, 3);
}

/// A report on the usage counts the conversation by the first report of an
/// answer; the next answer counts anew.
pub proof fn usage_is_counted_per_answer(v: ChatView, i: u32, o: u32)
    ensures
        ({
            let e = ChatStreamEvent::Usage { input_tokens: i, output_tokens: o };
            &&& v.hearing(e).usage.output_tokens == o
            &&& v.hearing(ChatStreamEvent::Done).hearing(e).usage.input_tokens == i
            &&& v.hearing(e).usage.window_max == v.usage.window_max
            &&& v.hearing(e).talk == v.talk
        }),
{
}

// ─── The home screen ─────────────────────────────────────────────────────────

/// The menu of the home screen is about the recording that was chosen: it
/// opens its transcript, asks for its summary, or prepares a question about it.
pub proof fn the_menu_is_about_the_chosen_recording(v: ChatView, at: int)
    requires
        v.home.recordings.len() > 0,
        v.home.selected_action == at,
        at < v.home.recordings.len(),
    ensures
        ({
            let rec = v.home.recordings[at];
            &&& v.home.action_menu_selection == 0 ==> v.acting().1 == ChatDoView::OpenTranscript(
                rec.recording_id,
            )
            &&& v.home.action_menu_selection == 1 ==> {
                &&& v.acting().1 matches ChatDoView::Fresh(Some(o)) && o.user_message
                    == "Summarize my "@ + rec.name + " recording (recording id="@ + (
                signed_decimal(rec.recording_id as int) + ")."@) && o.messages.len() == 1
            }
            &&& v.home.action_menu_selection == 2 ==> {
                &&& v.acting().1 == ChatDoView::Fresh(None)
                &&& v.acting().0.entry.input_buffer == "What happened in my "@ + rec.name
                    + "? (recording id="@ + (signed_decimal(rec.recording_id as int) + ")"@)
                &&& v.acting().0.talk.messages.len() == 0
            }
            &&& !v.acting().0.home.action_menu_open
        }),
{
    let rec = v.home.recordings[at];
    reveal_strlit("Summarize my ");
    assert(("Summarize my "@ + rec.name + " recording (recording id="@ + (signed_decimal(
        rec.recording_id as int,
    ) + ")."@)).len() > 0);
}

/// On the home screen the arrows choose a recording, Enter opens the menu on
/// it, the arrows choose in the menu, and Esc closes it.
pub proof fn the_home_screen_is_operated_by_keys(v: ChatView)
    requires
        v.entry.focus == ChatFocus::ChatInput,
        v.home.show_home_screen,
        v.entry.input_buffer.len() == 0,
        0 < v.home.recordings.len() <= usize::MAX,
    ensures
        !v.home.action_menu_open ==> {
            &&& v.pressing(Key::Enter, true).0.home.action_menu_open
            &&& v.pressing(Key::Enter, true).0.home.action_menu_selection == 0
            &&& v.pressing(Key::Enter, true).0.home.selected_action == v.home.selected_action
            &&& v.pressing(Key::Enter, true).1 == ChatDoView::Done
            &&& v.home.selected_action + 1 < v.home.recordings.len() ==> v.pressing(
                Key::Down,
                true,
            ).0.home.selected_action == v.home.selected_action + 1
            &&& v.home.selected_action > 0 ==> v.pressing(Key::Up, true).0.home.selected_action
                == v.home.selected_action - 1
        },
        v.home.action_menu_open ==> {
            &&& v.pressing(Key::Enter, true) == v.acting()
            &&& !v.pressing(Key::Esc, true).0.home.action_menu_open
            &&& v.pressing(Key::Esc, true).0.talk == v.talk
            &&& v.home.action_menu_selection < 2 ==> v.pressing(
                Key::Down,
                true,
            ).0.home.action_menu_selection == v.home.action_menu_selection + 1
            &&& v.home.action_menu_selection > 0 ==> v.pressing(
                Key::Up,
                true,
            ).0.home.action_menu_selection == v.home.action_menu_selection - 1
        },
{
}

/// Esc first clears what was typed; with nothing typed it ends the
/// conversation and goes home, but not while an answer is coming. Below a
/// transcript, or in the list, it gives up the focus and keeps the conversation.
pub proof fn esc_goes_home(v: ChatView)
    requires
        v.entry.focus == ChatFocus::ChatInput,
        !v.home.action_menu_open,
    ensures
        v.entry.input_buffer.len() > 0 ==> {
            &&& v.pressing(Key::Esc, true).0.entry.input_buffer.len() == 0
            &&& v.pressing(Key::Esc, true).0.talk == v.talk
            &&& v.pressing_below(Key::Esc).0.entry.input_buffer.len() == 0
            &&& v.pressing_below(Key::Esc).0.entry.focus == ChatFocus::ChatInput
        },
        v.entry.input_buffer.len() == 0 && !v.home.show_home_screen && !v.talk.is_generating ==> {
            &&& v.pressing(Key::Esc, true).1 == ChatDoView::Home
            &&& v.pressing(Key::Esc, true).0.talk.messages.len() == 0
            &&& v.pressing(Key::Esc, true).0.home.show_home_screen
        },
        v.entry.input_buffer.len() == 0 && v.talk.is_generating ==> v.pressing(
            Key::Esc,
            true,
        ).0.talk == v.talk,
        v.entry.input_buffer.len() == 0 ==> {
            &&& v.pressing_below(Key::Esc).0.entry.focus == ChatFocus::Table
            &&& v.pressing_below(Key::Esc).0.talk == v.talk
        },
{
}

/// A character is added to the end of what is typed, wherever the chat stands.
pub proof fn characters_are_typed(v: ChatView, c: char, on_main: bool)
    requires
        v.entry.focus == ChatFocus::ChatInput,
    ensures
        v.pressing(Key::Char(c), on_main).0.entry.input_buffer == v.entry.input_buffer.push(c),
        v.pressing_below(Key::Char(c)).0.entry.input_buffer == v.entry.input_buffer.push(c),
        !v.pressing(Key::Char(c), on_main).0.offers.show_suggestions,
        !v.pressing_below(Key::Char(c)).0.offers.show_suggestions,
        v.pressing_below(Key::Char(c)).0.pressing_below(Key::Backspace).0.entry.input_buffer
            == v.entry.input_buffer,
{
    assert(v.entry.input_buffer.push(c).drop_last() =~= v.entry.input_buffer);
}

/// Without the focus the chat takes no key but Tab, which gives it the focus.
pub proof fn the_focus_takes_the_keys(v: ChatView, key: Key)
    requires
        v.entry.focus == ChatFocus::Table,
    ensures
        key != Key::Tab ==> v.pressing_below(key) == (v, ChatDoView::Ignored),
        v.pressing_below(Key::Tab).0.entry.focus == ChatFocus::ChatInput,
        v.pressing_below(Key::Tab).0.pressing_below(Key::Tab).0 == v,
        v.pressing(Key::Tab, true) == (v, ChatDoView::Browse),
{
}

/// A new chat is about everything, without a message, with the home screen,
/// and with the window that was set.
pub proof fn a_new_chat_is_empty(limit: Option<Seq<char>>)
    ensures
        ({
            let v = fresh_chat(limit);
            &&& v.talk.messages.len() == 0
            &&& v.talk.pending_blocks.len() == 0
            &&& v.talk.pending_message is None
            &&& !v.talk.is_generating
            &&& !v.talk.streaming
            &&& v.home.show_home_screen
            &&& v.entry.input_buffer.len() == 0
            &&& v.viewport.auto_scroll
            &&& v.usage.input_tokens == 0 && v.usage.output_tokens == 0
            &&& limit is None ==> v.usage.window_max == 200_000
            &&& limit matches Some(s) ==> (crate::numbers::u32_of(s) matches Some(n)
                ==> v.usage.window_max == n)
            &&& limit matches Some(s) ==> (crate::numbers::u32_of(s) is None
                ==> v.usage.window_max == 200_000)
        }),
{
}

} // verus!
