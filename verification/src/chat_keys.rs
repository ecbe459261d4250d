//! Keys and mouse in the chat.
use vstd::prelude::*;

use crate::chat::{
    content_of, content_pos, messages_view, nearly_full, selected_text, text_message, turns,
    BlockView, ChatFocus, ChatMessage, ChatRole, ChatState, ChatView, EntryView, HomeRecordingView,
    HomeView, MessageView, OffersView, TalkView, Turn, ViewportView,
};
use crate::keys::Key;
use crate::text::{
    at_most, cat, cat4, monus, option_text, signed_decimal, signed_decimal_of, trim, trimmed,
    without_last,
};

verus! {

// ─── Sending ─────────────────────────────────────────────────────────────────

/// A message on its way to the model.
#[derive(Debug)]
pub struct Outgoing {
    pub system_prompt: String,
    /// The conversation, the message included.
    pub messages: Vec<Turn>,
    pub user_message: String,
    pub needs_compaction: bool,
}

pub struct OutgoingView {
    pub system_prompt: Seq<char>,
    pub messages: Seq<(Seq<char>, Seq<char>)>,
    pub user_message: Seq<char>,
    pub needs_compaction: bool,
}

impl View for Outgoing {
    type V = OutgoingView;

    open spec fn view(&self) -> OutgoingView {
        OutgoingView {
            system_prompt: self.system_prompt@,
            messages: turns(self.messages@),
            user_message: self.user_message@,
            needs_compaction: self.needs_compaction,
        }
    }
}

pub open spec fn option_outgoing(o: Option<Outgoing>) -> Option<OutgoingView> {
    match o {
        Some(x) => Some(x@),
        None => None,
    }
}

/// The name of a role.
#[verifier::allow_in_spec]
pub fn role_name(role: ChatRole) -> &'static str
    returns
        (match role {
            ChatRole::User => "User",
            ChatRole::Assistant => "Assistant",
            ChatRole::System => "System",
        }),
{
    match role {
        ChatRole::User => "User",
        ChatRole::Assistant => "Assistant",
        ChatRole::System => "System",
    }
}

/// A conversation as turns.
pub open spec fn history(messages: Seq<MessageView>) -> Seq<(Seq<char>, Seq<char>)> {
    Seq::new(
        messages.len(),
        |i: int| (role_name(messages[i].role)@, content_of(messages[i].blocks)),
    )
}

fn history_of(messages: &Vec<ChatMessage>) -> (r: Vec<Turn>)
    ensures
        turns(r@) == history(messages_view(messages@)),
{
    let ghost views = messages_view(messages@);
    let mut r: Vec<Turn> = Vec::new();
    let mut i: usize = 0;
    while i < messages.len()
        invariant
            i <= messages@.len(),
            views == messages_view(messages@),
            turns(r@) =~= history(views).take(i as int),
        decreases messages.len() - i,
    {
        assert(views[i as int] == messages@[i as int]@);
        let ghost before = turns(r@);
        let role = role_name(messages[i].role).to_owned();
        let said = messages[i].content();
        r.push((role, said));
        assert(turns(r@) =~= before.push((role@, said@)));
        i += 1;
    }
    r
}

impl ChatView {
    /// Questions are on offer.
    pub open spec fn offering(self) -> bool {
        self.offers.show_suggestions && self.offers.suggestions.len() > 0
    }

    /// A message is on its way.
    pub open spec fn asking(self, message: Seq<char>) -> (ChatView, Option<OutgoingView>) {
        let messages = self.talk.messages.push(text_message(ChatRole::User, message));
        (
            ChatView {
                talk: TalkView {
                    messages,
                    streaming: true,
                    is_generating: true,
                    pending_blocks: Seq::empty(),
                    current_status: Some("Preparing..."@),
                    ..self.talk
                },
                viewport: ViewportView { auto_scroll: true, ..self.viewport },
                ..self
            },
            Some(
                OutgoingView {
                    system_prompt: self.entry.system_prompt,
                    messages: history(messages),
                    user_message: message,
                    needs_compaction: nearly_full(self.usage),
                },
            ),
        )
    }

    /// What Enter sends: the chosen question, or what was typed. The last
    /// choice among the questions stands for a free one.
    pub open spec fn sending(self) -> (ChatView, Option<OutgoingView>) {
        let quiet = ChatView {
            offers: OffersView { show_suggestions: false, ..self.offers },
            ..self
        };
        if self.offering() {
            if self.offers.selected_suggestion >= self.offers.suggestions.len() {
                (quiet, None)
            } else {
                quiet.asking(
                    self.offers.suggestions[self.offers.selected_suggestion as int],
                )
            }
        } else if self.entry.input_buffer.len() > 0 {
            (ChatView {
                entry: EntryView { input_buffer: Seq::empty(), ..self.entry },
                home: HomeView { show_home_screen: false, ..self.home },
                ..quiet
            }).asking(self.entry.input_buffer)
        } else {
            (self, None)
        }
    }

    /// Enter while an answer is coming: what was typed waits for its end.
    pub open spec fn queueing(self) -> ChatView {
        if self.entry.input_buffer.len() > 0 {
            ChatView {
                talk: TalkView {
                    pending_message: Some(self.entry.input_buffer),
                    ..self.talk
                },
                entry: EntryView { input_buffer: Seq::empty(), ..self.entry },
                ..self
            }
        } else {
            self
        }
    }

    /// The message that waited is sent, once the answer has ended.
    pub open spec fn resending(self) -> (ChatView, Option<OutgoingView>) {
        match self.talk.pending_message {
            Some(m) => (ChatView {
                talk: TalkView { pending_message: None, ..self.talk },
                entry: EntryView { input_buffer: m, ..self.entry },
                ..self
            }).sending(),
            None => (self, None),
        }
    }
}

impl ChatState {
    fn ask(&mut self, message: String) -> (r: Option<Outgoing>)
        ensures
            (final(self)@, option_outgoing(r)) == old(self)@.asking(message@),
    {
        let ghost before = self@.talk.messages;
        let user_message = message.clone();
        self.talk.messages.push(ChatMessage::text(ChatRole::User, message));
        assert(self@.talk.messages =~= before.push(text_message(ChatRole::User, message@)));
        self.talk.streaming = true;
        self.talk.is_generating = true;
        self.viewport.auto_scroll = true;
        self.talk.pending_blocks.clear();
        assert(self@.talk.pending_blocks =~= Seq::<BlockView>::empty());
        self.talk.current_status = Some("Preparing...".to_owned());
        Some(
            Outgoing {
                system_prompt: self.entry.system_prompt.clone(),
                messages: history_of(&self.talk.messages),
                user_message,
                needs_compaction: self.needs_compaction(),
            },
        )
    }

    fn is_offering(&self) -> (r: bool)
        ensures
            r == self@.offering(),
    {
        self.offers.show_suggestions && self.offers.suggestions.len() > 0
    }

    /// Sends the chosen question, or what was typed.
    pub fn send_chat_message(&mut self) -> (r: Option<Outgoing>)
        ensures
            (final(self)@, option_outgoing(r)) == old(self)@.sending(),
    {
        if self.is_offering() {
            let i = self.offers.selected_suggestion;
            self.offers.show_suggestions = false;
            if i >= self.offers.suggestions.len() {
                return None;
            }
            let message = self.offers.suggestions[i].clone();
            assert(message@ == old(self)@.offers.suggestions[i as int]);
            self.ask(message)
        } else if self.entry.input_buffer.as_str().unicode_len() > 0 {
            let mut message = String::new();
            let ghost typed = self.entry.input_buffer@;
            std::mem::swap(&mut message, &mut self.entry.input_buffer);
            self.offers.show_suggestions = false;
            self.home.show_home_screen = false;
            assert(self@.entry.input_buffer =~= Seq::<char>::empty());
            self.ask(message)
        } else {
            None
        }
    }

    fn queue_message(&mut self)
        ensures
            final(self)@ == old(self)@.queueing(),
    {
        if self.entry.input_buffer.as_str().unicode_len() > 0 {
            let mut message = String::new();
            std::mem::swap(&mut message, &mut self.entry.input_buffer);
            assert(self@.entry.input_buffer =~= Seq::<char>::empty());
            self.talk.pending_message = Some(message);
        }
    }

    /// Sends the message that waited.
    pub fn resend_pending(&mut self) -> (r: Option<Outgoing>)
        ensures
            (final(self)@, option_outgoing(r)) == old(self)@.resending(),
    {
        let mut waiting: Option<String> = None;
        std::mem::swap(&mut waiting, &mut self.talk.pending_message);
        match waiting {
            Some(m) => {
                self.entry.input_buffer = m;
                self.send_chat_message()
            },
            None => None,
        }
    }
}

// ─── The menu of the home screen ─────────────────────────────────────────────

/// What comes of a key in the chat.
#[derive(Debug)]
pub enum ChatDo {
    /// The key is not for the chat.
    Ignored,
    Done,
    /// The list of recordings is wanted.
    Browse,
    /// A message goes out.
    Send(Outgoing),
    /// The transcript of the recording with this ID is wanted.
    OpenTranscript(i64),
    /// A new conversation began; the one that was put aside is dropped. A
    /// message may go out.
    Fresh(Option<Outgoing>),
    /// Back to the home screen: it greets anew.
    Home,
}

pub enum ChatDoView {
    Ignored,
    Done,
    Browse,
    Send(OutgoingView),
    OpenTranscript(i64),
    Fresh(Option<OutgoingView>),
    Home,
}

impl View for ChatDo {
    type V = ChatDoView;

    open spec fn view(&self) -> ChatDoView {
        match *self {
            ChatDo::Ignored => ChatDoView::Ignored,
            ChatDo::Done => ChatDoView::Done,
            ChatDo::Browse => ChatDoView::Browse,
            ChatDo::Send(o) => ChatDoView::Send(o@),
            ChatDo::OpenTranscript(id) => ChatDoView::OpenTranscript(id),
            ChatDo::Fresh(o) => ChatDoView::Fresh(option_outgoing(o)),
            ChatDo::Home => ChatDoView::Home,
        }
    }
}

/// A message that may go out.
pub open spec fn sent(o: Option<OutgoingView>) -> ChatDoView {
    match o {
        Some(x) => ChatDoView::Send(x),
        None => ChatDoView::Done,
    }
}

fn do_send(o: Option<Outgoing>) -> (r: ChatDo)
    ensures
        r@ == sent(option_outgoing(o)),
{
    match o {
        Some(x) => ChatDo::Send(x),
        None => ChatDo::Done,
    }
}

impl ChatView {
    /// The conversation is over and nothing is left of it.
    pub open spec fn emptied(self) -> ChatView {
        ChatView {
            talk: TalkView {
                messages: Seq::empty(),
                pending_blocks: Seq::empty(),
                current_status: None,
                ..self.talk
            },
            viewport: ViewportView { scroll_offset: 0, auto_scroll: true, ..self.viewport },
            ..self.uncached()
        }
    }

    /// The recording that the menu of the home screen is about.
    pub open spec fn chosen_recording(self) -> HomeRecordingView {
        self.home.recordings[at_most(
            self.home.selected_action as int,
            monus(self.home.recordings.len() as int, 1) as int,
        )]
    }

    /// The chosen entry of the menu is carried out.
    pub open spec fn acting(self) -> (ChatView, ChatDoView) {
        let rec = self.chosen_recording();
        let choice = self.home.action_menu_selection;
        let closed = ChatView {
            home: HomeView { action_menu_open: false, ..self.home },
            ..self
        };
        if choice == 0 {
            (closed, ChatDoView::OpenTranscript(rec.recording_id))
        } else if choice == 1 || choice == 2 {
            let empty = closed.emptied();
            let fresh = ChatView {
                home: HomeView { show_home_screen: false, ..empty.home },
                offers: OffersView { show_suggestions: false, ..empty.offers },
                ..empty
            };
            let number = signed_decimal(rec.recording_id as int);
            if choice == 1 {
                let (next, out) = (ChatView {
                    entry: EntryView {
                        input_buffer: "Summarize my "@ + rec.name + " recording (recording id="@ + (
                        number + ")."@),
                        ..fresh.entry
                    },
                    ..fresh
                }).sending();
                (next, ChatDoView::Fresh(out))
            } else {
                (
                    ChatView {
                        entry: EntryView {
                            input_buffer: "What happened in my "@ + rec.name
                                + "? (recording id="@ + (number + ")"@),
                            ..fresh.entry
                        },
                        ..fresh
                    },
                    ChatDoView::Fresh(None),
                )
            }
        } else {
            (closed, ChatDoView::Done)
        }
    }
}

impl ChatState {
    fn empty(&mut self)
        ensures
            final(self)@ == old(self)@.emptied(),
    {
        self.talk.messages.clear();
        self.talk.pending_blocks.clear();
        assert(self@.talk.messages =~= Seq::<MessageView>::empty());
        assert(self@.talk.pending_blocks =~= Seq::<BlockView>::empty());
        self.talk.current_status = None;
        self.viewport.scroll_offset = 0;
        self.viewport.auto_scroll = true;
        self.invalidate_cache();
    }

    /// Execute the selected action from the home screen quick-action menu.
    pub fn execute_home_action(&mut self) -> (r: ChatDo)
        requires
            old(self).home.recordings@.len() > 0,
        ensures
            (final(self)@, r@) == old(self)@.acting(),
    {
        let last = self.home.recordings.len() - 1;
        let i = if self.home.selected_action < last {
            self.home.selected_action
        } else {
            last
        };
        assert(self@.chosen_recording() == self.home.recordings@[i as int]@);
        let recording_id = self.home.recordings[i].recording_id;
        let name = self.home.recordings[i].name.clone();
        self.home.action_menu_open = false;
        let choice = self.home.action_menu_selection;
        if choice == 0 {
            ChatDo::OpenTranscript(recording_id)
        } else if choice == 1 || choice == 2 {
            self.empty();
            self.home.show_home_screen = false;
            self.offers.show_suggestions = false;
            let number = signed_decimal_of(recording_id);
            if choice == 1 {
                self.entry.input_buffer = cat4(
                    "Summarize my ",
                    name.as_str(),
                    " recording (recording id=",
                    cat(number.as_str(), ").").as_str(),
                );
                ChatDo::Fresh(self.send_chat_message())
            } else {
                self.entry.input_buffer = cat4(
                    "What happened in my ",
                    name.as_str(),
                    "? (recording id=",
                    cat(number.as_str(), ")").as_str(),
                );
                ChatDo::Fresh(None)
            }
        } else {
            ChatDo::Done
        }
    }
}

// ─── Keys ────────────────────────────────────────────────────────────────────

impl ChatView {
    pub open spec fn with_viewport(self, viewport: ViewportView) -> ChatView {
        ChatView { viewport, ..self }
    }

    pub open spec fn with_input(self, input_buffer: Seq<char>) -> ChatView {
        ChatView { entry: EntryView { input_buffer, ..self.entry }, ..self }
    }

    pub open spec fn with_focus(self, focus: ChatFocus) -> ChatView {
        ChatView { entry: EntryView { focus, ..self.entry }, ..self }
    }

    pub open spec fn with_home(self, home: HomeView) -> ChatView {
        ChatView { home, ..self }
    }

    pub open spec fn with_offers(self, offers: OffersView) -> ChatView {
        ChatView { offers, ..self }
    }

    /// The focus goes to the other part of the screen.
    pub open spec fn refocused(self) -> ChatView {
        self.with_focus(
            match self.entry.focus {
                ChatFocus::Table => ChatFocus::ChatInput,
                ChatFocus::ChatInput => ChatFocus::Table,
            },
        )
    }

    /// The recordings of the home screen take the keys.
    pub open spec fn on_home(self) -> bool {
        self.home.show_home_screen && self.entry.input_buffer.len() == 0
            && self.home.recordings.len() > 0
    }

    /// A line up in the questions, or in the conversation, which then stays
    /// where it is.
    pub open spec fn upward(self) -> ChatView {
        if self.offering() {
            self.with_offers(
                OffersView {
                    selected_suggestion: monus(
                        self.offers.selected_suggestion as int,
                        1,
                    ) as usize,
                    ..self.offers
                },
            )
        } else {
            let from = if self.viewport.auto_scroll {
                usize::MAX
            } else {
                self.viewport.scroll_offset
            };
            self.with_viewport(
                ViewportView {
                    auto_scroll: false,
                    scroll_offset: monus(from as int, 1) as usize,
                    ..self.viewport
                },
            )
        }
    }

    /// A line down in the questions; or the conversation scrolls by itself
    /// again.
    pub open spec fn downward(self) -> ChatView {
        if self.offering() {
            if self.offers.selected_suggestion < self.offers.suggestions.len() {
                self.with_offers(
                    OffersView {
                        selected_suggestion: (self.offers.selected_suggestion + 1) as usize,
                        ..self.offers
                    },
                )
            } else {
                self
            }
        } else if !self.viewport.auto_scroll {
            self.with_viewport(
                ViewportView {
                    auto_scroll: true,
                    scroll_offset: at_most(
                        self.viewport.scroll_offset + 1,
                        usize::MAX as int,
                    ) as usize,
                    ..self.viewport
                },
            )
        } else {
            self
        }
    }

    /// Enter on the main screen.
    pub open spec fn entering(self) -> (ChatView, ChatDoView) {
        if self.on_home() && !self.home.action_menu_open {
            (
                self.with_home(
                    HomeView { action_menu_open: true, action_menu_selection: 0, ..self.home },
                ),
                ChatDoView::Done,
            )
        } else if self.on_home() {
            self.acting()
        } else if self.talk.is_generating {
            (self.queueing(), ChatDoView::Done)
        } else {
            (self.sending().0, sent(self.sending().1))
        }
    }

    /// Esc on the main screen or in the list: closes the menu, clears the
    /// input, goes back to the home screen, or gives up the focus.
    pub open spec fn leaving(self, on_main: bool) -> (ChatView, ChatDoView) {
        if self.home.action_menu_open {
            (
                self.with_home(HomeView { action_menu_open: false, ..self.home }),
                ChatDoView::Done,
            )
        } else if self.entry.input_buffer.len() > 0 {
            (self.with_input(Seq::empty()), ChatDoView::Done)
        } else if on_main && !self.home.show_home_screen && !self.talk.is_generating {
            let empty = self.emptied();
            (
                ChatView {
                    home: HomeView {
                        show_home_screen: true,
                        selected_action: 0,
                        action_menu_open: false,
                        ..empty.home
                    },
                    offers: OffersView {
                        show_suggestions: true,
                        selected_suggestion: 0,
                        ..empty.offers
                    },
                    ..empty
                },
                ChatDoView::Home,
            )
        } else if !on_main {
            (self.with_focus(ChatFocus::Table), ChatDoView::Done)
        } else {
            (self, ChatDoView::Done)
        }
    }

    /// Up on the main screen.
    pub open spec fn going_up(self) -> ChatView {
        if self.home.action_menu_open {
            self.with_home(
                HomeView {
                    action_menu_selection: monus(
                        self.home.action_menu_selection as int,
                        1,
                    ) as usize,
                    ..self.home
                },
            )
        } else if self.on_home() {
            self.with_home(
                HomeView {
                    selected_action: monus(self.home.selected_action as int, 1) as usize,
                    ..self.home
                },
            )
        } else {
            self.upward()
        }
    }

    /// Down on the main screen.
    pub open spec fn going_down(self) -> ChatView {
        if self.home.action_menu_open {
            if self.home.action_menu_selection < 2 {
                self.with_home(
                    HomeView {
                        action_menu_selection: (self.home.action_menu_selection + 1) as usize,
                        ..self.home
                    },
                )
            } else {
                self
            }
        } else if self.on_home() {
            if self.home.selected_action < self.home.recordings.len() - 1 {
                self.with_home(
                    HomeView {
                        selected_action: (self.home.selected_action + 1) as usize,
                        ..self.home
                    },
                )
            } else {
                self
            }
        } else {
            self.downward()
        }
    }

    /// A character.
    pub open spec fn typing(self, c: char) -> ChatView {
        self.with_input(self.entry.input_buffer.push(c)).with_offers(
            OffersView { show_suggestions: false, ..self.offers },
        )
    }

    /// A key in the chat of the main screen.
    pub open spec fn pressing(self, key: Key, on_main: bool) -> (ChatView, ChatDoView) {
        if key == Key::Tab {
            if on_main {
                (self, ChatDoView::Browse)
            } else {
                (self.refocused(), ChatDoView::Done)
            }
        } else if self.entry.focus != ChatFocus::ChatInput {
            (self, ChatDoView::Ignored)
        } else {
            match key {
                Key::Enter => self.entering(),
                Key::Esc => self.leaving(on_main),
                Key::Backspace => (
                    self.with_input(without_last(self.entry.input_buffer)),
                    ChatDoView::Done,
                ),
                Key::Up => (self.going_up(), ChatDoView::Done),
                Key::Down => (self.going_down(), ChatDoView::Done),
                Key::Char(c) => (
                    self.typing(c).with_home(
                        HomeView { action_menu_open: false, ..self.home },
                    ),
                    ChatDoView::Done,
                ),
                _ => (self, ChatDoView::Done),
            }
        }
    }

    /// A key in the chat below a transcript.
    pub open spec fn pressing_below(self, key: Key) -> (ChatView, ChatDoView) {
        if key == Key::Tab {
            (self.refocused(), ChatDoView::Done)
        } else if self.entry.focus != ChatFocus::ChatInput {
            (self, ChatDoView::Ignored)
        } else {
            match key {
                Key::Enter => if self.talk.is_generating {
                    (self.queueing(), ChatDoView::Done)
                } else {
                    (self.sending().0, sent(self.sending().1))
                },
                Key::Backspace => (
                    self.with_input(without_last(self.entry.input_buffer)),
                    ChatDoView::Done,
                ),
                Key::Up => (self.upward(), ChatDoView::Done),
                Key::Down => (self.downward(), ChatDoView::Done),
                Key::Char(c) => (self.typing(c), ChatDoView::Done),
                Key::Esc => (
                    if self.entry.input_buffer.len() > 0 {
                        self.with_input(Seq::empty())
                    } else {
                        self.with_focus(ChatFocus::Table)
                    },
                    ChatDoView::Done,
                ),
                _ => (self, ChatDoView::Done),
            }
        }
    }
}

impl ChatState {
    fn refocus(&mut self)
        ensures
            final(self)@ == old(self)@.refocused(),
    {
        self.entry.focus = match self.entry.focus {
            ChatFocus::Table => ChatFocus::ChatInput,
            ChatFocus::ChatInput => ChatFocus::Table,
        };
    }

    fn is_on_home(&self) -> (r: bool)
        ensures
            r == self@.on_home(),
    {
        self.home.show_home_screen && self.entry.input_buffer.as_str().unicode_len() == 0
            && self.home.recordings.len() > 0
    }

    fn scroll_up(&mut self)
        ensures
            final(self)@ == old(self)@.upward(),
    {
        if self.is_offering() {
            self.offers.selected_suggestion = self.offers.selected_suggestion.saturating_sub(1);
        } else {
            if self.viewport.auto_scroll {
                self.viewport.scroll_offset = usize::MAX;
            }
            self.viewport.auto_scroll = false;
            self.viewport.scroll_offset = self.viewport.scroll_offset.saturating_sub(1);
        }
    }

    fn scroll_down(&mut self)
        ensures
            final(self)@ == old(self)@.downward(),
    {
        if self.is_offering() {
            if self.offers.selected_suggestion < self.offers.suggestions.len() {
                self.offers.selected_suggestion = self.offers.selected_suggestion + 1;
            }
        } else if !self.viewport.auto_scroll {
            self.viewport.scroll_offset = self.viewport.scroll_offset.saturating_add(1);
            self.viewport.auto_scroll = true;
        }
    }

    fn enter(&mut self) -> (r: ChatDo)
        ensures
            (final(self)@, r@) == old(self)@.entering(),
    {
        if self.is_on_home() {
            if self.home.action_menu_open {
                self.execute_home_action()
            } else {
                self.home.action_menu_open = true;
                self.home.action_menu_selection = 0;
                ChatDo::Done
            }
        } else if self.talk.is_generating {
            self.queue_message();
            ChatDo::Done
        } else {
            do_send(self.send_chat_message())
        }
    }

    fn leave(&mut self, on_main: bool) -> (r: ChatDo)
        ensures
            (final(self)@, r@) == old(self)@.leaving(on_main),
    {
        if self.home.action_menu_open {
            self.home.action_menu_open = false;
            ChatDo::Done
        } else if self.entry.input_buffer.as_str().unicode_len() > 0 {
            self.entry.input_buffer.clear();
            ChatDo::Done
        } else if on_main && !self.home.show_home_screen && !self.talk.is_generating {
            self.empty();
            self.home.show_home_screen = true;
            self.offers.show_suggestions = true;
            self.offers.selected_suggestion = 0;
            self.home.selected_action = 0;
            self.home.action_menu_open = false;
            ChatDo::Home
        } else {
            if !on_main {
                self.entry.focus = ChatFocus::Table;
            }
            ChatDo::Done
        }
    }

    fn go_up(&mut self)
        ensures
            final(self)@ == old(self)@.going_up(),
    {
        if self.home.action_menu_open {
            self.home.action_menu_selection = self.home.action_menu_selection.saturating_sub(1);
        } else if self.is_on_home() {
            self.home.selected_action = self.home.selected_action.saturating_sub(1);
        } else {
            self.scroll_up();
        }
    }

    fn go_down(&mut self)
        ensures
            final(self)@ == old(self)@.going_down(),
    {
        if self.home.action_menu_open {
            if self.home.action_menu_selection < 2 {
                self.home.action_menu_selection = self.home.action_menu_selection + 1;
            }
        } else if self.is_on_home() {
            if self.home.selected_action < self.home.recordings.len() - 1 {
                self.home.selected_action = self.home.selected_action + 1;
            }
        } else {
            self.scroll_down();
        }
    }

    fn type_char(&mut self, c: char)
        ensures
            final(self)@ == old(self)@.typing(c),
    {
        self.entry.input_buffer.push(c);
        self.offers.show_suggestions = false;
    }

    fn erase(&mut self)
        ensures
            final(self)@ == old(self)@.with_input(without_last(old(self)@.entry.input_buffer)),
    {
        let _ = self.entry.input_buffer.pop();
    }

    /// A key in the chat of the main screen.
    pub fn handle_chat_key(&mut self, key: Key, on_main: bool) -> (r: ChatDo)
        ensures
            (final(self)@, r@) == old(self)@.pressing(key, on_main),
    {
        match key {
            Key::Tab => {
                if on_main {
                    return ChatDo::Browse;
                }
                self.refocus();
                return ChatDo::Done;
            },
            _ => {},
        }
        match self.entry.focus {
            ChatFocus::Table => {
                return ChatDo::Ignored;
            },
            ChatFocus::ChatInput => {},
        }
        match key {
            Key::Enter => {
                return self.enter();
            },
            Key::Esc => {
                return self.leave(on_main);
            },
            Key::Backspace => self.erase(),
            Key::Up => self.go_up(),
            Key::Down => self.go_down(),
            Key::Char(c) => {
                self.type_char(c);
                self.home.action_menu_open = false;
            },
            _ => {},
        }
        ChatDo::Done
    }

    /// A key in the chat below a transcript.
    pub fn handle_transcript_chat_key(&mut self, key: Key) -> (r: ChatDo)
        ensures
            (final(self)@, r@) == old(self)@.pressing_below(key),
    {
        match key {
            Key::Tab => {
                self.refocus();
                return ChatDo::Done;
            },
            _ => {},
        }
        match self.entry.focus {
            ChatFocus::Table => {
                return ChatDo::Ignored;
            },
            ChatFocus::ChatInput => {},
        }
        match key {
            Key::Enter => {
                if self.talk.is_generating {
                    self.queue_message();
                } else {
                    return do_send(self.send_chat_message());
                }
            },
            Key::Backspace => self.erase(),
            Key::Up => self.scroll_up(),
            Key::Down => self.scroll_down(),
            Key::Char(c) => self.type_char(c),
            Key::Esc => {
                if self.entry.input_buffer.as_str().unicode_len() > 0 {
                    self.entry.input_buffer.clear();
                } else {
                    self.entry.focus = ChatFocus::Table;
                }
            },
            _ => {},
        }
        ChatDo::Done
    }
}

// ─── Mouse ───────────────────────────────────────────────────────────────────

/// What the mouse did.
#[derive(Clone, Copy, Debug, PartialEq, Eq, Structural)]
pub enum MouseKind {
    ScrollUp,
    ScrollDown,
    /// The left button: pressed, moved while pressed, released.
    Down,
    Drag,
    Up,
    Other,
}

/// The lines of the content in a panel with a border.
pub open spec fn bordered_height(v: ChatView) -> int {
    monus(
        monus(v.viewport.panel_rect.height as int, 2) as int,
        if v.talk.messages.len() > 0 || v.talk.is_generating {
            2
        } else {
            1
        },
    ) as int
}

/// A line and column of the content, if it is one.
pub open spec fn position(p: Option<(int, int)>) -> Option<(usize, usize)> {
    match p {
        Some((line, column)) => Some((line as usize, column as usize)),
        None => None,
    }
}

impl ChatView {
    /// The conversation scrolls up by `n` lines and stays there.
    pub open spec fn rolled_up(self, n: int) -> ChatView {
        let from = if self.viewport.auto_scroll {
            self.viewport.total_content_lines
        } else {
            self.viewport.scroll_offset as int
        };
        self.with_viewport(
            ViewportView {
                auto_scroll: false,
                scroll_offset: monus(from, n) as usize,
                ..self.viewport
            },
        )
    }

    /// The conversation scrolls down by `n` lines; at its end it scrolls by
    /// itself again.
    pub open spec fn rolled_down(self, n: int) -> ChatView {
        if self.viewport.auto_scroll {
            self
        } else {
            let to = at_most(self.viewport.scroll_offset + n, usize::MAX as int);
            self.with_viewport(
                ViewportView {
                    auto_scroll: to + bordered_height(self) >= self.viewport.total_content_lines,
                    scroll_offset: to as usize,
                    ..self.viewport
                },
            )
        }
    }

    /// Dragging near an edge scrolls.
    pub open spec fn edged(self, row: int) -> ChatView {
        let rect = self.viewport.panel_rect;
        let bottom = rect.y + 1 + bordered_height(self);
        if row < rect.y + 3 {
            self.rolled_up(2)
        } else if row >= monus(bottom, 2) {
            self.rolled_down(2)
        } else {
            self
        }
    }

    /// The mouse in the panel, and the text that is copied.
    pub open spec fn moused(self, kind: MouseKind, column: int, row: int) -> (
        ChatView,
        Option<Seq<char>>,
    ) {
        let rect = self.viewport.panel_rect;
        if !rect.has(column, row) {
            (self, None)
        } else {
            match kind {
                MouseKind::ScrollUp => (self.rolled_up(3), None),
                MouseKind::ScrollDown => (self.rolled_down(3), None),
                MouseKind::Down => match content_pos(self, column, row) {
                    Some(p) => (
                        self.with_viewport(
                            ViewportView {
                                selection_anchor: position(Some(p)),
                                selection_end: None,
                                ..self.viewport
                            },
                        ).with_focus(ChatFocus::ChatInput),
                        None,
                    ),
                    None => (self, None),
                },
                MouseKind::Drag => if self.viewport.selection_anchor is Some {
                    let next = self.edged(row);
                    match content_pos(next, column, row) {
                        Some(p) => (
                            next.with_viewport(
                                ViewportView {
                                    selection_end: position(Some(p)),
                                    ..next.viewport
                                },
                            ),
                            None,
                        ),
                        None => (next, None),
                    }
                } else {
                    (self, None)
                },
                MouseKind::Up => match (
                    self.viewport.selection_anchor,
                    self.viewport.selection_end,
                ) {
                    (Some(a), Some(b)) => {
                        let text = selected_text(self.viewport, a, b);
                        (
                            self,
                            if trimmed(text).len() > 0 {
                                Some(text)
                            } else {
                                None
                            },
                        )
                    },
                    _ => (
                        self.with_viewport(
                            ViewportView {
                                selection_anchor: None,
                                selection_end: None,
                                ..self.viewport
                            },
                        ),
                        None,
                    ),
                },
                MouseKind::Other => (self, None),
            }
        }
    }
}

impl ChatState {
    fn roll_up(&mut self, n: usize)
        ensures
            final(self)@ == old(self)@.rolled_up(n as int),
    {
        if self.viewport.auto_scroll {
            self.viewport.scroll_offset = self.viewport.total_content_lines;
        }
        self.viewport.auto_scroll = false;
        self.viewport.scroll_offset = self.viewport.scroll_offset.saturating_sub(n);
    }

    fn bordered_lines(&self) -> (r: usize)
        ensures
            r == bordered_height(self@),
            r <= monus(self.viewport.panel_rect.height as int, 3),
    {
        let inner = self.viewport.panel_rect.height.saturating_sub(2) as usize;
        let reserved: usize = if self.talk.messages.len() > 0 || self.talk.is_generating {
            2
        } else {
            1
        };
        inner.saturating_sub(reserved)
    }

    fn roll_down(&mut self, n: usize)
        ensures
            final(self)@ == old(self)@.rolled_down(n as int),
    {
        if !self.viewport.auto_scroll {
            let height = self.bordered_lines();
            self.viewport.scroll_offset = self.viewport.scroll_offset.saturating_add(n);
            let left = self.viewport.total_content_lines.saturating_sub(
                self.viewport.scroll_offset,
            );
            if height >= left {
                self.viewport.auto_scroll = true;
            }
        }
    }

    fn edge(&mut self, row: u16)
        ensures
            final(self)@ == old(self)@.edged(row as int),
    {
        let top: u32 = self.viewport.panel_rect.y as u32;
        let at: u32 = row as u32;
        let bottom: u32 = top + 1 + self.bordered_lines() as u32;
        if at < top + 3 {
            self.roll_up(2);
        } else if at >= bottom.saturating_sub(2) {
            self.roll_down(2);
        }
    }

    fn press(&mut self, column: u16, row: u16)
        requires
            old(self).viewport.panel_rect.wf(),
            old(self).viewport.panel_rect.has(column as int, row as int),
        ensures
            (final(self)@, None::<Seq<char>>) == old(self)@.moused(
                MouseKind::Down,
                column as int,
                row as int,
            ),
    {
        match self.mouse_to_content_pos(column, row) {
            Some(p) => {
                self.viewport.selection_anchor = Some(p);
                self.viewport.selection_end = None;
                self.entry.focus = ChatFocus::ChatInput;
            },
            None => {},
        }
    }

    fn drag(&mut self, column: u16, row: u16)
        requires
            old(self).viewport.panel_rect.wf(),
            old(self).viewport.panel_rect.has(column as int, row as int),
        ensures
            (final(self)@, None::<Seq<char>>) == old(self)@.moused(
                MouseKind::Drag,
                column as int,
                row as int,
            ),
    {
        if self.viewport.selection_anchor.is_some() {
            self.edge(row);
            match self.mouse_to_content_pos(column, row) {
                Some(p) => {
                    self.viewport.selection_end = Some(p);
                },
                None => {},
            }
        }
    }

    fn release(&mut self, column: u16, row: u16) -> (r: Option<String>)
        requires
            old(self).viewport.panel_rect.has(column as int, row as int),
        ensures
            (final(self)@, option_text(r)) == old(self)@.moused(
                MouseKind::Up,
                column as int,
                row as int,
            ),
    {
        match (self.viewport.selection_anchor, self.viewport.selection_end) {
            (Some(a), Some(b)) => {
                let selected = self.extract_selected_text(a, b);
                if trim(selected.as_str()).unicode_len() > 0 {
                    Some(selected)
                } else {
                    None
                }
            },
            _ => {
                self.viewport.selection_anchor = None;
                self.viewport.selection_end = None;
                None
            },
        }
    }

    /// The mouse; the text that is to be copied is returned.
    pub fn handle_mouse_event(&mut self, kind: MouseKind, column: u16, row: u16) -> (r: Option<String>)
        requires
            old(self).viewport.panel_rect.wf(),
        ensures
            (final(self)@, option_text(r)) == old(self)@.moused(kind, column as int, row as int),
    {
        let rect = self.viewport.panel_rect;
        if column < rect.x || column >= rect.x + rect.width || row < rect.y || row >= rect.y
            + rect.height {
            return None;
        }
        match kind {
            MouseKind::ScrollUp => {
                self.roll_up(3);
                None
            },
            MouseKind::ScrollDown => {
                self.roll_down(3);
                None
            },
            MouseKind::Down => {
                self.press(column, row);
                None
            },
            MouseKind::Drag => {
                self.drag(column, row);
                None
            },
            MouseKind::Up => self.release(column, row),
            MouseKind::Other => None,
        }
    }
}

// ─── Laws ────────────────────────────────────────────────────────────────────

/// What goes out ends with the message itself, and the conversation shows it.
pub proof fn messages_go_out_whole(v: ChatView)
    requires
        v.sending().1 is Some,
    ensures
        ({
            let (next, out) = v.sending();
            let o = out->Some_0;
            &&& next.talk.messages.len() == v.talk.messages.len() + 1
            &&& next.talk.messages.drop_last() == v.talk.messages
            &&& o.messages.len() == next.talk.messages.len()
            &&& o.messages.last() == ("User"@, o.user_message)
            &&& next.talk.is_generating
        }),
{
    let (next, out) = v.sending();
    assert(next.talk.messages.drop_last() =~= v.talk.messages);
    let m = out->Some_0.user_message;
    crate::chat::text_message_content(ChatRole::User, m);
}

/// While an answer is coming nothing is sent: what is typed waits, and goes
/// out as it was typed once the answer has ended.
pub proof fn queued_messages_go_out_later(v: ChatView)
    requires
        v.talk.is_generating,
        v.entry.input_buffer.len() > 0,
        v.entry.focus == ChatFocus::ChatInput,
        !v.offering(),
    ensures
        v.pressing(Key::Enter, true).1 == ChatDoView::Done,
        v.pressing(Key::Enter, true).0.talk.pending_message == Some(v.entry.input_buffer),
        v.pressing(Key::Enter, true).0.entry.input_buffer.len() == 0,
        v.pressing(Key::Enter, true).0.resending().1 matches Some(o) && o.user_message
            == v.entry.input_buffer,
{
}

/// Typing and erasing cancel out.
pub proof fn backspace_undoes_typing(v: ChatView, c: char)
    requires
        v.entry.focus == ChatFocus::ChatInput,
    ensures
        v.pressing(Key::Char(c), true).0.pressing(Key::Backspace, true).0.entry.input_buffer
            == v.entry.input_buffer,
{
    assert(v.entry.input_buffer.push(c).drop_last() =~= v.entry.input_buffer);
}

/// The mouse outside the panel changes nothing.
pub proof fn mouse_outside_is_ignored(v: ChatView, kind: MouseKind, column: int, row: int)
    requires
        !v.viewport.panel_rect.has(column, row),
    ensures
        v.moused(kind, column, row) == (v, None::<Seq<char>>),
{
}

/// The mouse never changes the conversation, nor what is typed.
pub proof fn mouse_only_looks(v: ChatView, kind: MouseKind, column: int, row: int)
    ensures
        v.moused(kind, column, row).0.talk == v.talk,
        v.moused(kind, column, row).0.entry.input_buffer == v.entry.input_buffer,
{
}

/// The choices stay within what there is to choose from.
pub proof fn choices_stay_inside(v: ChatView, key: Key)
    requires
        v.home.action_menu_selection <= 2,
        v.home.recordings.len() > 0 ==> v.home.selected_action < v.home.recordings.len(),
        v.offers.selected_suggestion <= v.offers.suggestions.len(),
        v.offers.suggestions.len() < usize::MAX,
    ensures
        ({
            let next = v.pressing(key, true).0;
            &&& next.home.action_menu_selection <= 2
            &&& next.home.recordings.len() > 0 ==> next.home.selected_action
                < next.home.recordings.len()
            &&& next.offers.selected_suggestion <= next.offers.suggestions.len()
        }),
{
}

/// The conversation scrolls by itself until the user scrolls up: no other key
/// stops it, nor anything else that the mouse does but dragging.
pub proof fn scrolls_by_itself_until_up(
    v: ChatView,
    key: Key,
    on_main: bool,
    kind: MouseKind,
    column: int,
    row: int,
)
    requires
        v.viewport.auto_scroll,
    ensures
        key != Key::Up ==> v.pressing(key, on_main).0.viewport.auto_scroll,
        key != Key::Up ==> v.pressing_below(key).0.viewport.auto_scroll,
        kind != MouseKind::ScrollUp && kind != MouseKind::Drag ==> v.moused(
            kind,
            column,
            row,
        ).0.viewport.auto_scroll,
{
}

} // verus!
