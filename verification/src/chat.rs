//! "Ask Scriba": the conversation, the stream of an answer, and the selection
//! of text in it.
use vstd::prelude::*;

use crate::chat_lines::no_lines;
use crate::geometry::Rect;
use crate::numbers::{parse_u32, u32_of};
use crate::style::{Page, SpanView};
use crate::text::{
    at_most, cat, cat3, cat4, decimal, decimal_of, join, joined, monus, option_text, push_text,
    same, texts, trim_end, trimmed_end,
};

verus! {

/// What the stream of an answer brings.
#[derive(Clone, Debug)]
pub enum ChatStreamEvent {
    Status(String),
    Chunk(String),
    ToolCall { name: String, input_summary: String },
    ToolResult { name: String, output_summary: String },
    Usage { input_tokens: u32, output_tokens: u32 },
    Compacted { summary: String, removed_count: usize },
    Done,
    Error(String),
}

#[derive(Clone, Copy, Debug, PartialEq, Eq, Structural)]
pub enum ChatRole {
    User,
    Assistant,
    System,
}

/// What the conversation is about.
#[derive(Clone, Debug, PartialEq)]
pub enum ChatContext {
    Global,
    Recording { recording_id: i64, recording_name: String },
}

pub enum ContextView {
    Global,
    Recording { recording_id: i64, recording_name: Seq<char> },
}

impl View for ChatContext {
    type V = ContextView;

    open spec fn view(&self) -> ContextView {
        match *self {
            ChatContext::Global => ContextView::Global,
            ChatContext::Recording { recording_id, recording_name } => ContextView::Recording {
                recording_id,
                recording_name: recording_name@,
            },
        }
    }
}

/// A tool that the assistant called.
#[derive(Clone, Debug)]
pub struct ToolCallDisplay {
    pub name: String,
    pub input_summary: String,
    pub output_summary: String,
    pub is_complete: bool,
}

pub struct ToolCallView {
    pub name: Seq<char>,
    pub input_summary: Seq<char>,
    pub output_summary: Seq<char>,
    pub is_complete: bool,
}

impl View for ToolCallDisplay {
    type V = ToolCallView;

    open spec fn view(&self) -> ToolCallView {
        ToolCallView {
            name: self.name@,
            input_summary: self.input_summary@,
            output_summary: self.output_summary@,
            is_complete: self.is_complete,
        }
    }
}

/// A part of a message.
#[derive(Clone, Debug)]
pub enum ChatBlock {
    Text(String),
    ToolCall(ToolCallDisplay),
    CompactionMarker,
}

pub enum BlockView {
    Text(Seq<char>),
    ToolCall(ToolCallView),
    CompactionMarker,
}

impl View for ChatBlock {
    type V = BlockView;

    open spec fn view(&self) -> BlockView {
        match *self {
            ChatBlock::Text(t) => BlockView::Text(t@),
            ChatBlock::ToolCall(tc) => BlockView::ToolCall(tc@),
            ChatBlock::CompactionMarker => BlockView::CompactionMarker,
        }
    }
}

pub open spec fn blocks_view(v: Seq<ChatBlock>) -> Seq<BlockView> {
    Seq::new(v.len(), |i: int| v[i]@)
}

/// One message of the conversation.
#[derive(Clone, Debug)]
pub struct ChatMessage {
    pub role: ChatRole,
    pub blocks: Vec<ChatBlock>,
}

pub struct MessageView {
    pub role: ChatRole,
    pub blocks: Seq<BlockView>,
}

impl View for ChatMessage {
    type V = MessageView;

    open spec fn view(&self) -> MessageView {
        MessageView { role: self.role, blocks: blocks_view(self.blocks@) }
    }
}

pub open spec fn messages_view(v: Seq<ChatMessage>) -> Seq<MessageView> {
    Seq::new(v.len(), |i: int| v[i]@)
}

/// The message that consists of one text.
pub open spec fn text_message(role: ChatRole, content: Seq<char>) -> MessageView {
    MessageView { role, blocks: seq![BlockView::Text(content)] }
}

/// All text blocks put together.
pub open spec fn content_of(blocks: Seq<BlockView>) -> Seq<char>
    decreases blocks.len(),
{
    if blocks.len() == 0 {
        Seq::empty()
    } else {
        match blocks.last() {
            BlockView::Text(t) => content_of(blocks.drop_last()) + t,
            _ => content_of(blocks.drop_last()),
        }
    }
}

impl ChatMessage {
    /// Create a simple text-only message (user, system, or fallback assistant).
    pub fn text(role: ChatRole, content: String) -> (r: ChatMessage)
        ensures
            r@ == text_message(role, content@),
    {
        let mut blocks: Vec<ChatBlock> = Vec::new();
        blocks.push(ChatBlock::Text(content));
        let r = ChatMessage { role, blocks };
        assert(r@.blocks =~= seq![BlockView::Text(content@)]);
        r
    }

    /// Concatenate all text blocks for LLM conversation history.
    pub fn content(&self) -> (r: String)
        ensures
            r@ == content_of(self@.blocks),
    {
        let ghost views = self@.blocks;
        let mut s = String::new();
        let mut i: usize = 0;
        assert(views.take(0) =~= Seq::<BlockView>::empty());
        while i < self.blocks.len()
            invariant
                i <= self.blocks@.len(),
                views == self@.blocks,
                s@ == content_of(views.take(i as int)),
            decreases self.blocks.len() - i,
        {
            proof {
                let t = views.take(i + 1);
                assert(t.drop_last() =~= views.take(i as int));
                assert(t.last() == self.blocks@[i as int]@);
            }
            match &self.blocks[i] {
                ChatBlock::Text(t) => s.append(t.as_str()),
                _ => {},
            }
            i += 1;
        }
        assert(views.take(views.len() as int) =~= views);
        s
    }
}

/// A simple message says what it was made with.
pub proof fn text_message_content(role: ChatRole, content: Seq<char>)
    ensures
        content_of(text_message(role, content).blocks) == content,
{
    let blocks = text_message(role, content).blocks;
    reveal_with_fuel(content_of, 2);
    assert(blocks.drop_last() =~= Seq::<BlockView>::empty());
    assert(content_of(blocks) =~= content);
}

/// The text of a message is that of its blocks, one after the other; a tool
/// call adds nothing to it.
pub proof fn content_is_joined(a: Seq<BlockView>, b: Seq<BlockView>)
    ensures
        content_of(a + b) == content_of(a) + content_of(b),
        (forall|i: int| 0 <= i < b.len() ==> !(#[trigger] b[i] is Text)) ==> content_of(a + b)
            == content_of(a),
    decreases b.len(),
{
    if b.len() == 0 {
        assert(a + b =~= a);
        assert(content_of(a) + content_of(b) =~= content_of(a));
    } else {
        content_is_joined(a, b.drop_last());
        assert((a + b).drop_last() =~= a + b.drop_last());
        assert(content_of(a + b) =~= content_of(a) + content_of(b));
        if forall|i: int| 0 <= i < b.len() ==> !(#[trigger] b[i] is Text) {
            assert forall|i: int| 0 <= i < b.drop_last().len() implies !(
            #[trigger] b.drop_last()[i] is Text) by {
                assert(!(b[i] is Text));
            }
            assert(!(b[b.len() - 1] is Text));
        }
    }
}

/// A recording on the home screen.
#[derive(Clone, Debug)]
pub struct HomeRecording {
    pub recording_id: i64,
    pub name: String,
    pub duration_mins: i64,
    pub summary_line: Option<String>,
    pub directory_name: String,
    /// Work on it goes on in the background.
    pub busy: bool,
}

pub struct HomeRecordingView {
    pub recording_id: i64,
    pub name: Seq<char>,
    pub duration_mins: i64,
    pub summary_line: Option<Seq<char>>,
    pub directory_name: Seq<char>,
    pub busy: bool,
}

impl View for HomeRecording {
    type V = HomeRecordingView;

    open spec fn view(&self) -> HomeRecordingView {
        HomeRecordingView {
            recording_id: self.recording_id,
            name: self.name@,
            duration_mins: self.duration_mins,
            summary_line: option_text(self.summary_line),
            directory_name: self.directory_name@,
            busy: self.busy,
        }
    }
}

pub open spec fn home_views(v: Seq<HomeRecording>) -> Seq<HomeRecordingView> {
    Seq::new(v.len(), |i: int| v[i]@)
}

#[derive(Clone, Copy, Debug, PartialEq, Eq, Structural)]
pub enum ChatFocus {
    Table,
    ChatInput,
}

/// The conversation and the answer that is being streamed.
#[derive(Debug)]
pub struct Talk {
    pub context: ChatContext,
    pub messages: Vec<ChatMessage>,
    /// The blocks of the answer so far.
    pub pending_blocks: Vec<ChatBlock>,
    pub current_status: Option<String>,
    pub is_generating: bool,
    /// A message that waits for the answer in progress to end.
    pub pending_message: Option<String>,
    /// An answer is being received.
    pub streaming: bool,
}

pub struct TalkView {
    pub context: ContextView,
    pub messages: Seq<MessageView>,
    pub pending_blocks: Seq<BlockView>,
    pub current_status: Option<Seq<char>>,
    pub is_generating: bool,
    pub pending_message: Option<Seq<char>>,
    pub streaming: bool,
}

impl View for Talk {
    type V = TalkView;

    open spec fn view(&self) -> TalkView {
        TalkView {
            context: self.context@,
            messages: messages_view(self.messages@),
            pending_blocks: blocks_view(self.pending_blocks@),
            current_status: option_text(self.current_status),
            is_generating: self.is_generating,
            pending_message: option_text(self.pending_message),
            streaming: self.streaming,
        }
    }
}

/// How much of the model's context window is in use.
#[derive(Clone, Copy, Debug, PartialEq, Eq, Structural)]
pub struct ContextUsage {
    pub window_max: u32,
    pub input_tokens: u32,
    pub output_tokens: u32,
    /// The first report of the answer in progress has come.
    pub baseline_set: bool,
}

/// The home screen.
#[derive(Debug)]
pub struct Home {
    pub greeting_text: String,
    pub greeting_subtitle: String,
    pub recordings: Vec<HomeRecording>,
    pub selected_action: usize,
    pub show_home_screen: bool,
    pub action_menu_open: bool,
    /// 0 is the transcript, 1 a summary, 2 a question.
    pub action_menu_selection: usize,
}

pub struct HomeView {
    pub greeting_text: Seq<char>,
    pub greeting_subtitle: Seq<char>,
    pub recordings: Seq<HomeRecordingView>,
    pub selected_action: usize,
    pub show_home_screen: bool,
    pub action_menu_open: bool,
    pub action_menu_selection: usize,
}

impl View for Home {
    type V = HomeView;

    open spec fn view(&self) -> HomeView {
        HomeView {
            greeting_text: self.greeting_text@,
            greeting_subtitle: self.greeting_subtitle@,
            recordings: home_views(self.recordings@),
            selected_action: self.selected_action,
            show_home_screen: self.show_home_screen,
            action_menu_open: self.action_menu_open,
            action_menu_selection: self.action_menu_selection,
        }
    }
}

/// The questions on offer.
#[derive(Debug)]
pub struct Offers {
    pub suggestions: Vec<String>,
    pub show_suggestions: bool,
    pub selected_suggestion: usize,
}

pub struct OffersView {
    pub suggestions: Seq<Seq<char>>,
    pub show_suggestions: bool,
    pub selected_suggestion: usize,
}

impl View for Offers {
    type V = OffersView;

    open spec fn view(&self) -> OffersView {
        OffersView {
            suggestions: texts(self.suggestions@),
            show_suggestions: self.show_suggestions,
            selected_suggestion: self.selected_suggestion,
        }
    }
}

/// The input line and what it depends on.
#[derive(Debug)]
pub struct Entry {
    pub input_buffer: String,
    /// Shown in the input box while it is empty.
    pub placeholder: String,
    pub system_prompt: String,
    pub focus: ChatFocus,
    pub borderless: bool,
    pub spinner_frame: usize,
}

pub struct EntryView {
    pub input_buffer: Seq<char>,
    pub placeholder: Seq<char>,
    pub system_prompt: Seq<char>,
    pub focus: ChatFocus,
    pub borderless: bool,
    pub spinner_frame: usize,
}

impl View for Entry {
    type V = EntryView;

    open spec fn view(&self) -> EntryView {
        EntryView {
            input_buffer: self.input_buffer@,
            placeholder: self.placeholder@,
            system_prompt: self.system_prompt@,
            focus: self.focus,
            borderless: self.borderless,
            spinner_frame: self.spinner_frame,
        }
    }
}

/// What is on the screen, for the mouse.
#[derive(Debug)]
pub struct Viewport {
    pub scroll_offset: usize,
    /// Stays true until the user scrolls up.
    pub auto_scroll: bool,
    pub panel_rect: Rect,
    pub total_content_lines: usize,
    /// Where a drag started, and where it is now: line and column.
    pub selection_anchor: Option<(usize, usize)>,
    pub selection_end: Option<(usize, usize)>,
    /// The text of each line, as shown and without the prefixes of the screen.
    pub content_texts: Vec<String>,
    pub content_texts_raw: Vec<String>,
    /// Blank lines above the content.
    pub content_top_pad: usize,
    /// Lines that borders take.
    pub content_border_overhead: u16,
}

pub struct ViewportView {
    pub scroll_offset: usize,
    pub auto_scroll: bool,
    pub panel_rect: Rect,
    pub total_content_lines: int,
    pub selection_anchor: Option<(usize, usize)>,
    pub selection_end: Option<(usize, usize)>,
    pub content_texts: Seq<Seq<char>>,
    pub content_texts_raw: Seq<Seq<char>>,
    pub content_top_pad: int,
    pub content_border_overhead: u16,
}

impl View for Viewport {
    type V = ViewportView;

    open spec fn view(&self) -> ViewportView {
        ViewportView {
            scroll_offset: self.scroll_offset,
            auto_scroll: self.auto_scroll,
            panel_rect: self.panel_rect,
            total_content_lines: self.total_content_lines as int,
            selection_anchor: self.selection_anchor,
            selection_end: self.selection_end,
            content_texts: texts(self.content_texts@),
            content_texts_raw: texts(self.content_texts_raw@),
            content_top_pad: self.content_top_pad as int,
            content_border_overhead: self.content_border_overhead,
        }
    }
}

/// Lines with their text as shown and as copied.
#[derive(Debug)]
pub struct Rendered {
    pub lines: Page,
    pub texts: Vec<String>,
    pub raw: Vec<String>,
}

pub struct RenderedView {
    pub lines: Seq<Seq<SpanView>>,
    pub texts: Seq<Seq<char>>,
    pub raw: Seq<Seq<char>>,
}

impl View for Rendered {
    type V = RenderedView;

    open spec fn view(&self) -> RenderedView {
        RenderedView { lines: self.lines@, texts: texts(self.texts@), raw: texts(self.raw@) }
    }
}

/// The rendered messages, kept while neither their number nor the width
/// changes.
#[derive(Debug)]
pub struct RenderCache {
    pub rendered: Rendered,
    pub msg_count: usize,
    pub width: usize,
}

pub struct RenderCacheView {
    pub rendered: RenderedView,
    pub msg_count: int,
    pub width: int,
}

impl View for RenderCache {
    type V = RenderCacheView;

    open spec fn view(&self) -> RenderCacheView {
        RenderCacheView {
            rendered: self.rendered@,
            msg_count: self.msg_count as int,
            width: self.width as int,
        }
    }
}

/// The state of the chat.
#[derive(Debug)]
pub struct ChatState {
    pub talk: Talk,
    pub usage: ContextUsage,
    pub home: Home,
    pub offers: Offers,
    pub entry: Entry,
    pub viewport: Viewport,
    pub cache: RenderCache,
}

pub struct ChatView {
    pub talk: TalkView,
    pub usage: ContextUsage,
    pub home: HomeView,
    pub offers: OffersView,
    pub entry: EntryView,
    pub viewport: ViewportView,
    pub cache: RenderCacheView,
}

impl View for ChatState {
    type V = ChatView;

    open spec fn view(&self) -> ChatView {
        ChatView {
            talk: self.talk@,
            usage: self.usage,
            home: self.home@,
            offers: self.offers@,
            entry: self.entry@,
            viewport: self.viewport@,
            cache: self.cache@,
        }
    }
}

/// More than 80 % of the context window are in use.
pub open spec fn nearly_full(u: ContextUsage) -> bool {
    5 * (u.input_tokens + u.output_tokens) > 4 * u.window_max
}

/// The size of the context window: what the user set, or 200 000 tokens.
pub open spec fn window_of(limit: Option<Seq<char>>) -> u32 {
    match limit {
        Some(s) => match u32_of(s) {
            Some(n) => n,
            None => 200_000,
        },
        None => 200_000,
    }
}

/// The position of the last call of tool `name` that has no result yet, among
/// the first `n` blocks.
pub open spec fn open_call(blocks: Seq<BlockView>, name: Seq<char>, n: nat) -> Option<int>
    decreases n,
{
    if n == 0 {
        None
    } else if blocks[n - 1] matches BlockView::ToolCall(tc) && tc.name == name && !tc.is_complete {
        Some(n - 1)
    } else {
        open_call(blocks, name, (n - 1) as nat)
    }
}

/// Text is added to the last block if that is text, else it begins one.
pub open spec fn with_chunk(blocks: Seq<BlockView>, text: Seq<char>) -> Seq<BlockView> {
    if blocks.len() > 0 && blocks.last() is Text {
        blocks.drop_last().push(BlockView::Text(blocks.last()->Text_0 + text))
    } else {
        blocks.push(BlockView::Text(text))
    }
}

/// The result of a tool goes to the last open call of that tool.
pub open spec fn with_result(
    blocks: Seq<BlockView>,
    name: Seq<char>,
    output: Seq<char>,
) -> Seq<BlockView> {
    match open_call(blocks, name, blocks.len()) {
        Some(i) => {
            let tc = blocks[i]->ToolCall_0;
            blocks.update(
                i,
                BlockView::ToolCall(
                    ToolCallView { output_summary: output, is_complete: true, ..tc },
                ),
            )
        },
        None => blocks,
    }
}

pub open spec fn marker_message() -> MessageView {
    MessageView { role: ChatRole::System, blocks: seq![BlockView::CompactionMarker] }
}

/// The conversation after its first `removed` messages were summed up.
pub open spec fn compacted(
    messages: Seq<MessageView>,
    summary: Seq<char>,
    removed: nat,
) -> Seq<MessageView> {
    if removed <= messages.len() {
        let kept = messages.subrange(removed as int, messages.len() as int);
        Seq::empty().push(
            text_message(
                ChatRole::System,
                "Context compacted: "@ + decimal(removed) + " messages summarized, "@ + (decimal(
                    kept.len(),
                ) + " kept"@),
            ),
        ).push(marker_message()).push(text_message(ChatRole::System, summary)) + kept
    } else {
        messages.push(marker_message()).push(text_message(ChatRole::System, summary))
    }
}

impl ChatView {
    /// Nothing is kept of what the messages rendered to.
    pub open spec fn uncached(self) -> ChatView {
        ChatView {
            cache: RenderCacheView { rendered: no_lines(), msg_count: 0, ..self.cache },
            ..self
        }
    }

    pub open spec fn talking(self, talk: TalkView) -> ChatView {
        ChatView { talk, ..self }
    }

    /// The chat after an event of the stream.
    pub open spec fn hearing(self, event: ChatStreamEvent) -> ChatView {
        let t = self.talk;
        match event {
            ChatStreamEvent::Status(msg) => self.talking(
                TalkView { current_status: Some(msg@), ..t },
            ),
            ChatStreamEvent::Chunk(text) => self.talking(
                TalkView {
                    pending_blocks: with_chunk(t.pending_blocks, text@),
                    current_status: None,
                    ..t
                },
            ),
            ChatStreamEvent::ToolCall { name, input_summary } => self.talking(
                TalkView {
                    current_status: None,
                    pending_blocks: t.pending_blocks.push(
                        BlockView::ToolCall(
                            ToolCallView {
                                name: name@,
                                input_summary: input_summary@,
                                output_summary: Seq::empty(),
                                is_complete: false,
                            },
                        ),
                    ),
                    ..t
                },
            ),
            ChatStreamEvent::ToolResult { name, output_summary } => self.talking(
                TalkView {
                    pending_blocks: with_result(t.pending_blocks, name@, output_summary@),
                    current_status: Some("Thinking..."@),
                    ..t
                },
            ),
            ChatStreamEvent::Usage { input_tokens, output_tokens } => ChatView {
                usage: ContextUsage {
                    input_tokens: if self.usage.baseline_set {
                        self.usage.input_tokens
                    } else {
                        input_tokens
                    },
                    output_tokens,
                    baseline_set: true,
                    ..self.usage
                },
                ..self
            },
            ChatStreamEvent::Compacted { summary, removed_count } => ChatView {
                talk: TalkView {
                    messages: compacted(t.messages, summary@, removed_count as nat),
                    ..t
                },
                usage: ContextUsage {
                    input_tokens: 0,
                    output_tokens: 0,
                    baseline_set: false,
                    ..self.usage
                },
                cache: RenderCacheView { msg_count: 0, ..self.cache },
                ..self
            },
            ChatStreamEvent::Done => ChatView {
                talk: TalkView {
                    messages: t.messages.push(
                        MessageView { role: ChatRole::Assistant, blocks: t.pending_blocks },
                    ),
                    pending_blocks: Seq::empty(),
                    is_generating: false,
                    streaming: false,
                    current_status: None,
                    ..t
                },
                usage: ContextUsage { baseline_set: false, ..self.usage },
                ..self
            },
            ChatStreamEvent::Error(msg) => ChatView {
                talk: TalkView {
                    messages: t.messages.push(
                        text_message(ChatRole::System, "Error: "@ + msg@),
                    ),
                    pending_blocks: Seq::empty(),
                    is_generating: false,
                    streaming: false,
                    current_status: None,
                    pending_message: None,
                    ..t
                },
                usage: ContextUsage { baseline_set: false, ..self.usage },
                ..self
            },
        }
    }

    /// The chat after the events from position `from` on. The answer ends with
    /// `Done` or `Error`: what follows is not received.
    pub open spec fn hearing_from(self, events: Seq<ChatStreamEvent>, from: int) -> ChatView
        decreases events.len() - from,
    {
        if !self.talk.streaming || from < 0 || from >= events.len() {
            self
        } else {
            self.hearing(events[from]).hearing_from(events, from + 1)
        }
    }

    /// The answer ended well with a message waiting: it is to be sent now.
    pub open spec fn resends(self, events: Seq<ChatStreamEvent>) -> bool {
        self.talk.streaming && !self.hearing_from(events, 0).talk.streaming && self.hearing_from(
            events,
            0,
        ).talk.pending_message is Some
    }
}

fn push_block(blocks: &mut Vec<ChatBlock>, b: ChatBlock)
    ensures
        blocks_view(final(blocks)@) == blocks_view(old(blocks)@).push(b@),
{
    blocks.push(b);
    assert(blocks_view(blocks@) =~= blocks_view(old(blocks)@).push(b@));
}

fn push_message(messages: &mut Vec<ChatMessage>, m: ChatMessage)
    ensures
        messages_view(final(messages)@) == messages_view(old(messages)@).push(m@),
{
    messages.push(m);
    assert(messages_view(messages@) =~= messages_view(old(messages)@).push(m@));
}

fn add_chunk(blocks: &mut Vec<ChatBlock>, text: &str)
    ensures
        blocks_view(final(blocks)@) == with_chunk(blocks_view(old(blocks)@), text@),
{
    let ghost before = blocks_view(blocks@);
    match blocks.pop() {
        Some(ChatBlock::Text(s)) => {
            proof {
                assert(before.drop_last() =~= blocks_view(blocks@));
                assert(before.last() == BlockView::Text(s@));
            }
            let mut s = s;
            s.append(text);
            push_block(blocks, ChatBlock::Text(s));
        },
        Some(b) => {
            proof {
                assert(before.drop_last() =~= blocks_view(blocks@));
                assert(before.last() == b@);
                assert(before =~= before.drop_last().push(b@));
            }
            push_block(blocks, b);
            push_block(blocks, ChatBlock::Text(text.to_owned()));
        },
        None => {
            proof {
                assert(before =~= blocks_view(blocks@));
            }
            push_block(blocks, ChatBlock::Text(text.to_owned()));
        },
    }
}

fn add_result(blocks: &mut Vec<ChatBlock>, name: &str, output: &str)
    ensures
        blocks_view(final(blocks)@) == with_result(blocks_view(old(blocks)@), name@, output@),
{
    let ghost views = blocks_view(blocks@);
    let mut i: usize = blocks.len();
    while i > 0
        invariant
            i <= blocks@.len(),
            blocks@ == old(blocks)@,
            views == blocks_view(blocks@),
            open_call(views, name@, views.len()) == open_call(views, name@, i as nat),
        decreases i,
    {
        i -= 1;
        assert(views[i as int] == blocks@[i as int]@);
        let mut found: Option<String> = None;
        match &blocks[i] {
            ChatBlock::ToolCall(tc) => {
                if same(tc.name.as_str(), name) && !tc.is_complete {
                    found = Some(tc.input_summary.clone());
                }
            },
            _ => {},
        }
        match found {
            Some(input_summary) => {
                blocks.set(
                    i,
                    ChatBlock::ToolCall(
                        ToolCallDisplay {
                            name: name.to_owned(),
                            input_summary,
                            output_summary: output.to_owned(),
                            is_complete: true,
                        },
                    ),
                );
                assert(blocks_view(blocks@) =~= with_result(views, name@, output@));
                return;
            },
            None => {},
        }
    }
}

fn compact(messages: &mut Vec<ChatMessage>, summary: &str, removed: usize)
    ensures
        messages_view(final(messages)@) == compacted(
            messages_view(old(messages)@),
            summary@,
            removed as nat,
        ),
{
    let ghost before = messages_view(messages@);
    let marker = ChatMessage {
        role: ChatRole::System,
        blocks: vec![ChatBlock::CompactionMarker],
    };
    assert(marker@.blocks =~= marker_message().blocks);
    if removed <= messages.len() {
        let mut kept = messages.split_off(removed);
        let ghost rest = messages_view(kept@);
        assert(rest =~= before.subrange(removed as int, before.len() as int));
        let tail = cat(decimal_of(kept.len() as u64).as_str(), " kept");
        let note = cat4(
            "Context compacted: ",
            decimal_of(removed as u64).as_str(),
            " messages summarized, ",
            tail.as_str(),
        );
        messages.clear();
        assert(messages_view(messages@) =~= Seq::<MessageView>::empty());
        push_message(messages, ChatMessage::text(ChatRole::System, note));
        push_message(messages, marker);
        push_message(messages, ChatMessage::text(ChatRole::System, summary.to_owned()));
        let ghost head = messages_view(messages@);
        messages.append(&mut kept);
        assert(messages_view(messages@) =~= head + rest);
    } else {
        push_message(messages, marker);
        push_message(messages, ChatMessage::text(ChatRole::System, summary.to_owned()));
    }
}

/// The first of two positions comes before the second, or they are the same.
pub open spec fn not_after(a: (usize, usize), b: (usize, usize)) -> bool {
    a.0 < b.0 || (a.0 == b.0 && a.1 <= b.1)
}

/// Both ends of a selection in the order of the text.
#[verifier::allow_in_spec]
pub fn in_order(a: (usize, usize), b: (usize, usize)) -> ((usize, usize), (usize, usize))
    returns
        (if not_after(a, b) {
            (a, b)
        } else {
            (b, a)
        }),
{
    if a.0 < b.0 || (a.0 == b.0 && a.1 <= b.1) {
        (a, b)
    } else {
        (b, a)
    }
}

/// The characters of line `i` between the two ends, columns counted on the
/// shown text. White space at the end of a line does not count.
pub open spec fn selected_line(
    shown: Seq<Seq<char>>,
    raw: Seq<Seq<char>>,
    i: int,
    start: (usize, usize),
    end: (usize, usize),
) -> Seq<char> {
    let line = raw[i];
    let n = line.len() as int;
    let prefix = if i < shown.len() {
        monus(shown[i].len() as int, n) as int
    } else {
        0
    };
    let from = if i == start.0 {
        at_most(monus(start.1 as int, prefix) as int, n)
    } else {
        0
    };
    let to = if i == end.0 {
        at_most(monus(end.1 as int, prefix) as int, n)
    } else {
        n
    };
    if from < to {
        trimmed_end(line.subrange(from, to))
    } else {
        Seq::empty()
    }
}

/// The selected lines from `start` up to line `n`.
pub open spec fn selected_lines(
    shown: Seq<Seq<char>>,
    raw: Seq<Seq<char>>,
    start: (usize, usize),
    end: (usize, usize),
    n: int,
) -> Seq<Seq<char>>
    decreases n - start.0,
{
    if n <= start.0 {
        Seq::empty()
    } else {
        selected_lines(shown, raw, start, end, n - 1).push(
            selected_line(shown, raw, n - 1, start, end),
        )
    }
}

/// The text between two positions, without the prefixes of the screen.
pub open spec fn selected_text(v: ViewportView, a: (usize, usize), b: (usize, usize)) -> Seq<char> {
    let raw = if v.content_texts_raw.len() > 0 {
        v.content_texts_raw
    } else {
        v.content_texts
    };
    let (start, end) = in_order(a, b);
    if start.0 >= raw.len() {
        Seq::empty()
    } else {
        trimmed_end(
            joined(
                selected_lines(
                    v.content_texts,
                    raw,
                    start,
                    end,
                    at_most(end.0 as int, raw.len() - 1) + 1,
                ),
                "\n"@,
            ),
        )
    }
}

/// It does not matter in which direction text was selected.
pub proof fn selection_is_symmetric(v: ViewportView, a: (usize, usize), b: (usize, usize))
    ensures
        selected_text(v, a, b) == selected_text(v, b, a),
{
    if not_after(a, b) && not_after(b, a) {
        assert(a == b);
    }
}

fn select_line(
    shown: &Vec<String>,
    raw: &Vec<String>,
    i: usize,
    start: (usize, usize),
    end: (usize, usize),
) -> (r: String)
    requires
        i < raw@.len(),
    ensures
        r@ == selected_line(texts(shown@), texts(raw@), i as int, start, end),
{
    let line = raw[i].as_str();
    let n = line.unicode_len();
    let prefix = if i < shown.len() {
        shown[i].as_str().unicode_len().saturating_sub(n)
    } else {
        0
    };
    let mut from: usize = 0;
    if i == start.0 {
        from = start.1.saturating_sub(prefix);
        if from > n {
            from = n;
        }
    }
    let mut to: usize = n;
    if i == end.0 {
        to = end.1.saturating_sub(prefix);
        if to > n {
            to = n;
        }
    }
    if from < to {
        trim_end(line.substring_char(from, to)).to_owned()
    } else {
        String::new()
    }
}

fn select_text(shown: &Vec<String>, raw: &Vec<String>, start: (usize, usize), end: (usize, usize)) -> (r:
    String)
    requires
        start.0 < raw@.len(),
        start.0 <= end.0,
    ensures
        r@ == trimmed_end(
            joined(
                selected_lines(
                    texts(shown@),
                    texts(raw@),
                    start,
                    end,
                    at_most(end.0 as int, raw@.len() - 1) + 1,
                ),
                "\n"@,
            ),
        ),
{
    let stop = if end.0 < raw.len() - 1 {
        end.0 + 1
    } else {
        raw.len()
    };
    let mut lines: Vec<String> = Vec::new();
    let mut i: usize = start.0;
    assert(texts(lines@) =~= Seq::<Seq<char>>::empty());
    while i < stop
        invariant
            start.0 <= i <= stop <= raw@.len(),
            texts(lines@) == selected_lines(texts(shown@), texts(raw@), start, end, i as int),
        decreases stop - i,
    {
        push_text(&mut lines, select_line(shown, raw, i, start, end));
        i += 1;
    }
    let all = join(&lines, "\n");
    trim_end(all.as_str()).to_owned()
}

/// The number of lines that the chat content has on the screen.
pub open spec fn mouse_chat_height(v: ChatView) -> int {
    monus(
        monus(
            v.viewport.panel_rect.height as int,
            v.viewport.content_border_overhead as int,
        ) as int,
        if v.talk.messages.len() > 0 || v.talk.is_generating {
            2
        } else {
            1
        },
    ) as int
}

/// The first content line on the screen.
pub open spec fn scroll_position(
    auto: bool,
    offset: int,
    total: int,
    height: int,
) -> int {
    if auto || total <= height {
        monus(total, height) as int
    } else {
        at_most(offset, monus(total, height) as int)
    }
}

/// The line of the content `row` lines below the top of the panel, in a
/// content of `total` lines that begins with line `top` on a screen of
/// `height` lines.
pub open spec fn content_line(row: int, top_pad: int, top: int, total: int, height: int) -> Option<
    int,
> {
    let click = row - top_pad;
    let pad = monus(height, at_most(total - top, height));
    let line = top + click - pad;
    if click < 0 || click < pad || line >= total {
        None
    } else {
        Some(line)
    }
}

/// The line and column of the content under the mouse.
pub open spec fn content_pos(v: ChatView, column: int, row: int) -> Option<(int, int)> {
    let w = v.viewport;
    let border: int = if w.content_border_overhead > 0 {
        1
    } else {
        0
    };
    let height = mouse_chat_height(v);
    let top = scroll_position(
        w.auto_scroll,
        w.scroll_offset as int,
        w.total_content_lines,
        height,
    );
    match content_line(
        monus(row, w.panel_rect.y + border) as int,
        w.content_top_pad,
        top,
        w.total_content_lines,
        height,
    ) {
        Some(line) => Some((line, monus(column, w.panel_rect.x + border) as int)),
        None => None,
    }
}

fn find_line(row: usize, top_pad: usize, top: usize, total: usize, height: usize) -> (r: Option<
    usize,
>)
    requires
        top <= total,
    ensures
        (match r {
            Some(line) => Some(line as int),
            None => None,
        }) == content_line(row as int, top_pad as int, top as int, total as int, height as int),
{
    if row < top_pad {
        return None;
    }
    let click = row - top_pad;
    let shown = if total - top < height {
        total - top
    } else {
        height
    };
    let pad = height - shown;
    if click < pad || click - pad >= total - top {
        None
    } else {
        Some(top + (click - pad))
    }
}

/// The first content line on the screen.
pub fn scroll_top(auto_scroll: bool, offset: usize, total: usize, height: usize) -> (r: usize)
    ensures
        r == scroll_position(auto_scroll, offset as int, total as int, height as int),
        r <= total,
{
    let max = total.saturating_sub(height);
    if auto_scroll || total <= height || offset > max {
        max
    } else {
        offset
    }
}

/// The chat without a message, with the window that `limit` sets.
pub open spec fn fresh_chat(limit: Option<Seq<char>>) -> ChatView {
    ChatView {
        talk: TalkView {
            context: ContextView::Global,
            messages: Seq::empty(),
            pending_blocks: Seq::empty(),
            current_status: None,
            is_generating: false,
            pending_message: None,
            streaming: false,
        },
        usage: ContextUsage {
            window_max: window_of(limit),
            input_tokens: 0,
            output_tokens: 0,
            baseline_set: false,
        },
        home: HomeView {
            greeting_text: Seq::empty(),
            greeting_subtitle: Seq::empty(),
            recordings: Seq::empty(),
            selected_action: 0,
            show_home_screen: true,
            action_menu_open: false,
            action_menu_selection: 0,
        },
        offers: OffersView {
            suggestions: Seq::empty(),
            show_suggestions: true,
            selected_suggestion: 0,
        },
        entry: EntryView {
            input_buffer: Seq::empty(),
            placeholder: Seq::empty(),
            system_prompt: Seq::empty(),
            focus: ChatFocus::ChatInput,
            borderless: false,
            spinner_frame: 0,
        },
        viewport: ViewportView {
            scroll_offset: 0,
            auto_scroll: true,
            panel_rect: Rect { x: 0, y: 0, width: 0, height: 0 },
            total_content_lines: 0,
            selection_anchor: None,
            selection_end: None,
            content_texts: Seq::empty(),
            content_texts_raw: Seq::empty(),
            content_top_pad: 0,
            content_border_overhead: 2,
        },
        cache: RenderCacheView {
            rendered: RenderedView {
                lines: Seq::empty(),
                texts: Seq::empty(),
                raw: Seq::empty(),
            },
            msg_count: 0,
            width: 0,
        },
    }
}

impl ChatState {
    /// The chat without a message, with the window that `limit` sets.
    pub fn new(limit: &Option<String>) -> (r: ChatState)
        ensures
            r@ == fresh_chat(option_text(*limit)),
    {
        let window_max = match limit {
            Some(s) => match parse_u32(s.as_str()) {
                Some(n) => n,
                None => 200_000,
            },
            None => 200_000,
        };
        let r = ChatState {
            talk: Talk {
                context: ChatContext::Global,
                messages: Vec::new(),
                pending_blocks: Vec::new(),
                current_status: None,
                is_generating: false,
                pending_message: None,
                streaming: false,
            },
            usage: ContextUsage {
                window_max,
                input_tokens: 0,
                output_tokens: 0,
                baseline_set: false,
            },
            home: Home {
                greeting_text: String::new(),
                greeting_subtitle: String::new(),
                recordings: Vec::new(),
                selected_action: 0,
                show_home_screen: true,
                action_menu_open: false,
                action_menu_selection: 0,
            },
            offers: Offers {
                suggestions: Vec::new(),
                show_suggestions: true,
                selected_suggestion: 0,
            },
            entry: Entry {
                input_buffer: String::new(),
                placeholder: String::new(),
                system_prompt: String::new(),
                focus: ChatFocus::ChatInput,
                borderless: false,
                spinner_frame: 0,
            },
            viewport: Viewport {
                scroll_offset: 0,
                auto_scroll: true,
                panel_rect: Rect { x: 0, y: 0, width: 0, height: 0 },
                total_content_lines: 0,
                selection_anchor: None,
                selection_end: None,
                content_texts: Vec::new(),
                content_texts_raw: Vec::new(),
                content_top_pad: 0,
                content_border_overhead: 2,
            },
            cache: RenderCache {
                rendered: Rendered { lines: Page::new(), texts: Vec::new(), raw: Vec::new() },
                msg_count: 0,
                width: 0,
            },
        };
        proof {
            assert(r@.talk.messages =~= Seq::<MessageView>::empty());
            assert(r@.talk.pending_blocks =~= Seq::<BlockView>::empty());
            assert(r@.home.recordings =~= Seq::<HomeRecordingView>::empty());
            assert(r@.offers.suggestions =~= Seq::<Seq<char>>::empty());
            assert(r@.viewport.content_texts =~= Seq::<Seq<char>>::empty());
            assert(r@.viewport.content_texts_raw =~= Seq::<Seq<char>>::empty());
            assert(r@.cache.rendered.texts =~= Seq::<Seq<char>>::empty());
            assert(r@.cache.rendered.raw =~= Seq::<Seq<char>>::empty());
        }
        r
    }

    /// Invalidate the render cache (e.g. after clearing messages).
    pub fn invalidate_cache(&mut self)
        ensures
            final(self)@ == old(self)@.uncached(),
    {
        self.cache.rendered = Rendered::new();
        self.cache.msg_count = 0;
    }

    /// Whether more than 80 % of the context window are in use.
    pub fn needs_compaction(&self) -> (r: bool)
        ensures
            r == nearly_full(self.usage),
    {
        let total: u64 = self.usage.input_tokens as u64 + self.usage.output_tokens as u64;
        5 * total > 4 * self.usage.window_max as u64
    }

    /// One event of the stream.
    pub fn on_stream_event(&mut self, event: &ChatStreamEvent)
        ensures
            final(self)@ == old(self)@.hearing(*event),
    {
        match event {
            ChatStreamEvent::Status(msg) => self.talk.current_status = Some(msg.clone()),
            ChatStreamEvent::Chunk(text) => {
                add_chunk(&mut self.talk.pending_blocks, text.as_str());
                self.talk.current_status = None;
            },
            ChatStreamEvent::ToolCall { name, input_summary } => {
                self.talk.current_status = None;
                push_block(
                    &mut self.talk.pending_blocks,
                    ChatBlock::ToolCall(
                        ToolCallDisplay {
                            name: name.clone(),
                            input_summary: input_summary.clone(),
                            output_summary: String::new(),
                            is_complete: false,
                        },
                    ),
                );
            },
            ChatStreamEvent::ToolResult { name, output_summary } => {
                add_result(
                    &mut self.talk.pending_blocks,
                    name.as_str(),
                    output_summary.as_str(),
                );
                self.talk.current_status = Some("Thinking...".to_owned());
            },
            ChatStreamEvent::Usage { input_tokens, output_tokens } => {
                // Later reports of the same answer count the calls of its tools too.
                if !self.usage.baseline_set {
                    self.usage.input_tokens = *input_tokens;
                    self.usage.baseline_set = true;
                }
                self.usage.output_tokens = *output_tokens;
            },
            ChatStreamEvent::Compacted { summary, removed_count } => {
                compact(&mut self.talk.messages, summary.as_str(), *removed_count);
                self.cache.msg_count = 0;
                self.usage.input_tokens = 0;
                self.usage.output_tokens = 0;
                self.usage.baseline_set = false;
            },
            ChatStreamEvent::Done => {
                let mut blocks: Vec<ChatBlock> = Vec::new();
                assert(blocks_view(blocks@) =~= Seq::<BlockView>::empty());
                std::mem::swap(&mut blocks, &mut self.talk.pending_blocks);
                push_message(
                    &mut self.talk.messages,
                    ChatMessage { role: ChatRole::Assistant, blocks },
                );
                self.talk.is_generating = false;
                self.talk.streaming = false;
                self.talk.current_status = None;
                self.usage.baseline_set = false;
            },
            ChatStreamEvent::Error(msg) => {
                self.talk.pending_blocks.clear();
                assert(self.talk@.pending_blocks =~= Seq::<BlockView>::empty());
                push_message(
                    &mut self.talk.messages,
                    ChatMessage::text(ChatRole::System, cat("Error: ", msg.as_str())),
                );
                self.talk.is_generating = false;
                self.talk.streaming = false;
                self.talk.current_status = None;
                self.usage.baseline_set = false;
                self.talk.pending_message = None;
            },
        }
    }

    /// Takes the events that have come. Returns `true` if a pending message
    /// should be sent now (i.e. the answer finished and a queued message exists).
    pub fn poll_stream(&mut self, events: &Vec<ChatStreamEvent>) -> (resend: bool)
        ensures
            final(self)@ == old(self)@.hearing_from(events@, 0),
            resend == old(self)@.resends(events@),
    {
        let was_streaming = self.talk.streaming;
        let ghost start = self@;
        let mut i: usize = 0;
        while i < events.len() && self.talk.streaming
            invariant
                i <= events@.len(),
                was_streaming == start.talk.streaming,
                start.hearing_from(events@, 0) == self@.hearing_from(events@, i as int),
            decreases events.len() - i,
        {
            self.on_stream_event(&events[i]);
            i += 1;
        }
        was_streaming && !self.talk.streaming && self.talk.pending_message.is_some()
    }

    /// Map a mouse position to a (content_line, char_col) in the chat content.
    pub fn mouse_to_content_pos(&self, mouse_col: u16, mouse_row: u16) -> (r: Option<
        (usize, usize),
    >)
        requires
            self.viewport.content_border_overhead > 0 ==> self.viewport.panel_rect.x < u16::MAX
                && self.viewport.panel_rect.y < u16::MAX,
        ensures
            (match r {
                Some((line, col)) => Some((line as int, col as int)),
                None => None,
            }) == content_pos(self@, mouse_col as int, mouse_row as int),
    {
        let rect = self.viewport.panel_rect;
        let border: u16 = if self.viewport.content_border_overhead > 0 {
            1
        } else {
            0
        };
        let click_row = mouse_row.saturating_sub(rect.y + border) as usize;
        let char_col = mouse_col.saturating_sub(rect.x + border) as usize;
        let inner_height = rect.height.saturating_sub(
            self.viewport.content_border_overhead,
        ) as usize;
        let reserved: usize = if self.talk.messages.len() > 0 || self.talk.is_generating {
            2
        } else {
            1
        };
        let height = inner_height.saturating_sub(reserved);
        let total = self.viewport.total_content_lines;
        let top = scroll_top(
            self.viewport.auto_scroll,
            self.viewport.scroll_offset,
            total,
            height,
        );
        assert(height == mouse_chat_height(self@));
        match find_line(click_row, self.viewport.content_top_pad, top, total, height) {
            Some(line) => Some((line, char_col)),
            None => None,
        }
    }

    /// Extract the plain text between two content positions, without the
    /// prefixes of the screen.
    pub fn extract_selected_text(&self, anchor: (usize, usize), end: (usize, usize)) -> (r: String)
        ensures
            r@ == selected_text(self@.viewport, anchor, end),
    {
        let (first, last) = in_order(anchor, end);
        let shown = &self.viewport.content_texts;
        if self.viewport.content_texts_raw.len() > 0 {
            let raw = &self.viewport.content_texts_raw;
            if first.0 >= raw.len() {
                return String::new();
            }
            select_text(shown, raw, first, last)
        } else {
            if first.0 >= shown.len() {
                return String::new();
            }
            select_text(shown, shown, first, last)
        }
    }
}

// ─── Compaction ──────────────────────────────────────────────────────────────

/// One turn of a conversation: the role and what was said.
pub type Turn = (String, String);

pub open spec fn turns(v: Seq<Turn>) -> Seq<(Seq<char>, Seq<char>)> {
    Seq::new(v.len(), |i: int| (v[i].0@, v[i].1@))
}

/// What the model is asked with.
#[derive(Debug)]
pub struct Request {
    pub system_prompt: String,
    pub messages: Vec<Turn>,
}

/// How the way to an answer begins.
#[derive(Debug)]
pub enum Plan {
    /// The request goes out as it is.
    Ask(Request),
    /// `status` is shown, and the messages in `old` are summed up first; the
    /// request is what is left.
    Compact { status: ChatStreamEvent, old: Vec<Turn>, rest: Request },
}

/// How many messages at the end of the history are never summed up.
pub const KEPT_MESSAGES: usize = 4;

/// The history is summed up where the window is nearly full and there are
/// enough messages.
pub open spec fn compacts(needs_compaction: bool, count: nat) -> bool {
    needs_compaction && count >= KEPT_MESSAGES
}

/// How many of the first messages are summed up.
pub open spec fn summed_up(needs_compaction: bool, count: nat) -> nat {
    if compacts(needs_compaction, count) {
        (count - KEPT_MESSAGES) as nat
    } else {
        0
    }
}

/// The prompt with the summary of what was said before.
pub open spec fn prompt_with_summary(prompt: Seq<char>, summary: Seq<char>) -> Seq<char> {
    prompt + "\n\n## Previous Conversation Summary\n"@ + summary
}

/// Decides whether the history is summed up before the request.
pub fn plan_request(system_prompt: String, messages: Vec<Turn>, needs_compaction: bool) -> (r: Plan)
    ensures
        compacts(needs_compaction, messages@.len()) == r is Compact,
        r matches Plan::Ask(q) ==> q.system_prompt@ == system_prompt@ && q.messages@ == messages@,
        r matches Plan::Compact { status, old, rest } ==> {
            &&& status matches ChatStreamEvent::Status(s) && s@ == "Compacting context ("@
                + decimal(messages@.len()) + " messages)..."@
            &&& old@ + rest.messages@ == messages@
            &&& old@ == messages@.take(summed_up(needs_compaction, messages@.len()) as int)
            &&& rest.messages@.len() == KEPT_MESSAGES
            &&& rest.system_prompt@ == system_prompt@
        },
{
    let n = messages.len();
    if needs_compaction && n >= KEPT_MESSAGES {
        let status = cat3("Compacting context (", decimal_of(n as u64).as_str(), " messages)...");
        let mut old = messages;
        let rest = old.split_off(n - KEPT_MESSAGES);
        assert(old@ + rest@ =~= messages@);
        assert(old@ =~= messages@.take(n - KEPT_MESSAGES));
        Plan::Compact {
            status: ChatStreamEvent::Status(status),
            old,
            rest: Request { system_prompt, messages: rest },
        }
    } else {
        Plan::Ask(Request { system_prompt, messages })
    }
}

/// The events after the old messages were summed up, and the request that
/// goes out with the summary: none where summing up failed.
pub fn after_compaction(rest: Request, removed_count: usize, outcome: &Result<String, String>) -> (r:
    (Vec<ChatStreamEvent>, Option<Request>))
    ensures
        match *outcome {
            Ok(summary) => {
                &&& r.0@.len() == 2
                &&& r.0@[0] matches ChatStreamEvent::Compacted { summary: s, removed_count: n }
                    && s@ == summary@ && n == removed_count
                &&& r.0@[1] matches ChatStreamEvent::Status(s) && s@ == "Compacted "@ + decimal(
                    removed_count as nat,
                ) + " messages into summary, "@ + (decimal(rest.messages@.len()) + " kept"@)
                &&& r.1 matches Some(q) && q.messages@ == rest.messages@ && q.system_prompt@
                    == prompt_with_summary(rest.system_prompt@, summary@)
            },
            Err(e) => {
                &&& r.0@.len() == 1
                &&& r.0@[0] matches ChatStreamEvent::Error(s) && s@ == "Compaction failed: "@ + e@
                &&& r.1 is None
            },
        },
{
    let mut events: Vec<ChatStreamEvent> = Vec::new();
    match outcome {
        Ok(summary) => {
            let status = cat4(
                "Compacted ",
                decimal_of(removed_count as u64).as_str(),
                " messages into summary, ",
                cat(decimal_of(rest.messages.len() as u64).as_str(), " kept").as_str(),
            );
            events.push(ChatStreamEvent::Compacted { summary: summary.clone(), removed_count });
            events.push(ChatStreamEvent::Status(status));
            let system_prompt = cat3(
                rest.system_prompt.as_str(),
                "\n\n## Previous Conversation Summary\n",
                summary.as_str(),
            );
            (events, Some(Request { system_prompt, messages: rest.messages }))
        },
        Err(e) => {
            events.push(ChatStreamEvent::Error(cat("Compaction failed: ", e.as_str())));
            (events, None)
        },
    }
}

// ─── Laws ────────────────────────────────────────────────────────────────────

/// An answer ends as one message of the assistant that holds everything that
/// was streamed, and nothing stays pending.
pub proof fn done_keeps_the_answer(v: ChatView)
    ensures
        ({
            let next = v.hearing(ChatStreamEvent::Done);
            &&& next.talk.messages.last() == (MessageView {
                role: ChatRole::Assistant,
                blocks: v.talk.pending_blocks,
            })
            &&& next.talk.messages.drop_last() == v.talk.messages
            &&& next.talk.pending_blocks.len() == 0
            &&& !next.talk.is_generating
            &&& next.talk.pending_message == v.talk.pending_message
        }),
{
    assert(v.hearing(ChatStreamEvent::Done).talk.messages.drop_last() =~= v.talk.messages);
}

/// After an error nothing is pending: neither a part of the answer nor a
/// message that waited for it.
pub proof fn error_drops_what_waits(v: ChatView, msg: String)
    ensures
        ({
            let next = v.hearing(ChatStreamEvent::Error(msg));
            &&& next.talk.pending_blocks.len() == 0
            &&& next.talk.pending_message is None
            &&& !next.talk.is_generating
            &&& next.talk.messages.drop_last() == v.talk.messages
            &&& next.talk.messages.last().role == ChatRole::System
        }),
{
    assert(v.hearing(ChatStreamEvent::Error(msg)).talk.messages.drop_last() =~= v.talk.messages);
}

/// Streamed text comes together in order, however it was cut.
pub proof fn chunks_come_together(blocks: Seq<BlockView>, a: Seq<char>, b: Seq<char>)
    ensures
        with_chunk(with_chunk(blocks, a), b) == with_chunk(blocks, a + b),
{
    let once = with_chunk(blocks, a);
    if blocks.len() > 0 && blocks.last() is Text {
        let t = blocks.last()->Text_0;
        assert((t + a) + b =~= t + (a + b));
        assert(once.drop_last() =~= blocks.drop_last());
        assert(with_chunk(once, b) =~= with_chunk(blocks, a + b));
    } else {
        assert(once.drop_last() =~= blocks);
        assert(with_chunk(once, b) =~= with_chunk(blocks, a + b));
    }
}

/// Compaction keeps the messages that were not summed up, in order, at the
/// end of the conversation.
pub proof fn compaction_keeps_the_rest(
    messages: Seq<MessageView>,
    summary: Seq<char>,
    removed: nat,
)
    requires
        removed <= messages.len(),
    ensures
        compacted(messages, summary, removed).len() == messages.len() - removed + 3,
        compacted(messages, summary, removed).subrange(
            3,
            compacted(messages, summary, removed).len() as int,
        ) == messages.subrange(removed as int, messages.len() as int),
{
    let all = compacted(messages, summary, removed);
    assert(all.subrange(3, all.len() as int) =~= messages.subrange(
        removed as int,
        messages.len() as int,
    ));
}

/// A position under the mouse always lies within the content.
pub proof fn mouse_hits_content(v: ChatView, column: int, row: int)
    requires
        v.viewport.total_content_lines >= 0,
        v.viewport.content_top_pad >= 0,
    ensures
        content_pos(v, column, row) matches Some(p) ==> 0 <= p.0 < v.viewport.total_content_lines
            && p.1 >= 0,
{
}

/// Of all reports on an answer the first gives the size of the conversation,
/// and the last that of the answer.
pub proof fn first_usage_counts(v: ChatView, i1: u32, o1: u32, i2: u32, o2: u32)
    requires
        !v.usage.baseline_set,
    ensures
        ({
            let next = v.hearing(
                ChatStreamEvent::Usage { input_tokens: i1, output_tokens: o1 },
            ).hearing(ChatStreamEvent::Usage { input_tokens: i2, output_tokens: o2 });
            next.usage.input_tokens == i1 && next.usage.output_tokens == o2
        }),
{
}

proof fn open_call_bounds(blocks: Seq<BlockView>, name: Seq<char>, n: nat)
    requires
        n <= blocks.len(),
    ensures
        open_call(blocks, name, n) matches Some(i) ==> 0 <= i < n && (
        blocks[i] matches BlockView::ToolCall(tc) && tc.name == name && !tc.is_complete),
        open_call(blocks, name, n) matches Some(i) ==> forall|j: int|
            i < j < n ==> !((#[trigger] blocks[j]) matches BlockView::ToolCall(tc) && tc.name
                == name && !tc.is_complete),
        open_call(blocks, name, n) is None ==> forall|j: int|
            0 <= j < n ==> !((#[trigger] blocks[j]) matches BlockView::ToolCall(tc) && tc.name
                == name && !tc.is_complete),
    decreases n,
{
    if n > 0 {
        open_call_bounds(blocks, name, (n - 1) as nat);
    }
}

/// The result of a tool goes to the last call of that tool that has none yet,
/// and changes nothing else; without such a call it is dropped.
pub proof fn results_go_to_the_last_open_call(
    blocks: Seq<BlockView>,
    name: Seq<char>,
    output: Seq<char>,
)
    ensures
        with_result(blocks, name, output).len() == blocks.len(),
        forall|j: int|
            0 <= j < blocks.len() && Some(j) != open_call(blocks, name, blocks.len())
                ==> #[trigger] with_result(blocks, name, output)[j] == blocks[j],
        open_call(blocks, name, blocks.len()) matches Some(i) ==> {
            &&& 0 <= i < blocks.len()
            &&& blocks[i] matches BlockView::ToolCall(tc) && with_result(blocks, name, output)[i]
                == BlockView::ToolCall(
                ToolCallView { output_summary: output, is_complete: true, ..tc },
            ) && tc.name == name && !tc.is_complete
            &&& forall|j: int|
                i < j < blocks.len() ==> !((#[trigger] blocks[j]) matches BlockView::ToolCall(tc)
                    && tc.name == name && !tc.is_complete)
        },
{
    open_call_bounds(blocks, name, blocks.len());
}

/// But for compaction, what the stream brings only adds to the conversation.
pub proof fn events_only_add(v: ChatView, event: ChatStreamEvent)
    requires
        !(event is Compacted),
    ensures
        v.talk.messages.len() <= v.hearing(event).talk.messages.len(),
        v.hearing(event).talk.messages.take(v.talk.messages.len() as int) == v.talk.messages,
{
    assert(v.hearing(event).talk.messages.take(v.talk.messages.len() as int)
        =~= v.talk.messages);
}

} // verus!
