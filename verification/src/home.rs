//! The home screen: the greeting, today's recordings, the questions on offer,
//! and which conversation the chat holds.
use vstd::prelude::*;

use crate::chat::{
    home_views, messages_view, BlockView, ChatContext, ChatFocus, ChatMessage, ChatState, ChatView,
    ContextView, EntryView, HomeRecording, HomeRecordingView, HomeView, MessageView, OffersView,
    TalkView, ViewportView,
};
use crate::entities::{entity_views, Entity, EntityView};
use crate::numbers::{quotient, quotient_of};
use crate::recordings::{filled_list, is_filled_list, recording_views, Recording, RecordingView};
use crate::text::{
    at_most, cat, cat3, decimal, decimal_of, first_sentence, first_word, push_text, same,
    sentence_of, texts, uppercase, word_of,
};
use crate::times::{day_number, day_of};
use crate::transcript::{mention_texts, option_mentions, Mention};

verus! {

// ─── The owner ───────────────────────────────────────────────────────────────

/// The name of the owner: what is known of them, or the name of the account
/// with its first letter in upper case.
pub open spec fn owner_of(known: Seq<char>, account: Seq<char>) -> Seq<char> {
    if known.len() > 0 {
        known
    } else if account.len() > 0 {
        uppercase(account.take(1)) + account.subrange(1, account.len() as int)
    } else {
        Seq::empty()
    }
}

/// The name of the owner.
pub fn owner_name(known: &str, account: &str) -> (r: String)
    ensures
        r@ == owner_of(known@, account@),
{
    let n = account.unicode_len();
    if known.unicode_len() > 0 {
        known.to_owned()
    } else if n > 0 {
        let first = account.substring_char(0, 1);
        assert(first@ =~= account@.take(1));
        cat(first.to_uppercase().as_str(), account.substring_char(1, n))
    } else {
        String::new()
    }
}

/// The name of the owner in the chat about a recording.
pub fn owner_or_user(known: &str) -> (r: String)
    ensures
        r@ == (if known@.len() > 0 {
            known@
        } else {
            "User"@
        }),
{
    if known.unicode_len() > 0 {
        known.to_owned()
    } else {
        "User".to_owned()
    }
}

// ─── Greeting ────────────────────────────────────────────────────────────────

/// The greeting.
pub open spec fn greeting(owner: Seq<char>) -> Seq<char> {
    let first = first_word(owner);
    if first.len() == 0 {
        "Welcome back."@
    } else {
        "Welcome back, "@ + first + "."@
    }
}

/// What is said about today.
pub open spec fn today_text(count: nat) -> Seq<char> {
    if count == 0 {
        "No recordings today yet."@
    } else if count == 1 {
        "You had 1 recording today."@
    } else {
        "You had "@ + decimal(count) + " recordings today."@
    }
}

/// The recordings that were made on a day, among the first `n`.
pub open spec fn made_on(v: Seq<RecordingView>, day: int, n: nat) -> Seq<RecordingView>
    decreases n,
{
    if n == 0 {
        Seq::empty()
    } else if day_number(v[n - 1].created_local as int) == day {
        made_on(v, day, (n - 1) as nat).push(v[n - 1])
    } else {
        made_on(v, day, (n - 1) as nat)
    }
}

/// The first sentence of a summary, if it has one.
pub open spec fn summary_line(summary: Option<Seq<char>>) -> Option<Seq<char>> {
    match summary {
        Some(s) => if first_sentence(s).len() > 0 {
            Some(first_sentence(s) + "."@)
        } else {
            None
        },
        None => None,
    }
}

/// A length in minutes; less than one counts as one.
pub open spec fn whole_minutes(seconds: int) -> int {
    let m = quotient(seconds, 60);
    if m == 0 {
        1
    } else {
        m
    }
}

/// A recording as the home screen shows it.
pub open spec fn home_entry(r: RecordingView) -> HomeRecordingView {
    HomeRecordingView {
        recording_id: r.number(),
        name: r.shown_name(),
        duration_mins: whole_minutes(r.seconds() as int) as i64,
        summary_line: summary_line(r.summary),
        directory_name: r.directory_name,
        busy: false,
    }
}

/// The home screen shows at most this many recordings.
pub const HOME_RECORDINGS: usize = 5;

/// Today's recordings on the home screen.
pub open spec fn home_entries(v: Seq<RecordingView>, today: int) -> Seq<HomeRecordingView> {
    let made = made_on(v, today, v.len());
    Seq::new(
        at_most(made.len() as int, HOME_RECORDINGS as int) as nat,
        |i: int| home_entry(made[i]),
    )
}

fn entry_of(r: &Recording) -> (e: HomeRecording)
    ensures
        e@ == home_entry(r@),
{
    let minutes = quotient_of(r.seconds(), 60);
    let summary_line = match &r.summary {
        Some(s) => {
            let first = sentence_of(s.as_str());
            if first.unicode_len() > 0 {
                Some(cat(first, "."))
            } else {
                None
            }
        },
        None => None,
    };
    HomeRecording {
        recording_id: r.number(),
        name: r.shown_name().to_owned(),
        duration_mins: if minutes == 0 {
            1
        } else {
            minutes
        },
        summary_line,
        directory_name: r.directory_name.clone(),
        busy: false,
    }
}

fn entries_of(v: &Vec<Recording>, today: i64) -> (r: (Vec<HomeRecording>, usize))
    ensures
        home_views(r.0@) == home_entries(recording_views(v@), today as int),
        r.1 == made_on(recording_views(v@), today as int, v@.len()).len(),
{
    let ghost views = recording_views(v@);
    let ghost day = today as int;
    let mut list: Vec<HomeRecording> = Vec::new();
    let mut count: usize = 0;
    let mut i: usize = 0;
    assert(home_views(list@) =~= Seq::<HomeRecordingView>::empty());
    while i < v.len()
        invariant
            i <= v@.len(),
            views == recording_views(v@),
            day == today,
            count <= i,
            count == made_on(views, day, i as nat).len(),
            home_views(list@) =~= Seq::new(
                at_most(count as int, HOME_RECORDINGS as int) as nat,
                |k: int| home_entry(made_on(views, day, i as nat)[k]),
            ),
        decreases v.len() - i,
    {
        assert(views[i as int] == v@[i as int]@);
        let ghost made = made_on(views, day, i as nat);
        if day_of(v[i].created_local) == today {
            assert(made_on(views, day, (i + 1) as nat) == made.push(views[i as int]));
            if count < HOME_RECORDINGS {
                let ghost before = home_views(list@);
                let e = entry_of(&v[i]);
                list.push(e);
                assert(home_views(list@) =~= before.push(home_entry(views[i as int])));
            }
            count += 1;
        } else {
            assert(made_on(views, day, (i + 1) as nat) == made);
        }
        i += 1;
    }
    assert(home_views(list@) =~= home_entries(views, day));
    (list, count)
}

impl ChatView {
    /// The chat with a new greeting.
    pub open spec fn greeted(self, owner: Seq<char>, v: Seq<RecordingView>, today: int) -> ChatView {
        ChatView {
            home: HomeView {
                greeting_text: greeting(owner),
                greeting_subtitle: today_text(made_on(v, today, v.len()).len()),
                recordings: home_entries(v, today),
                selected_action: 0,
                ..self.home
            },
            entry: EntryView { placeholder: "Ask anything..."@, ..self.entry },
            ..self
        }
    }
}

impl ChatState {
    /// Greets the owner and shows today's recordings.
    pub fn generate_greeting(&mut self, owner: &str, v: &Vec<Recording>, today: i64)
        ensures
            final(self)@ == old(self)@.greeted(owner@, recording_views(v@), today as int),
    {
        let first = word_of(owner);
        let text = if first.unicode_len() == 0 {
            "Welcome back.".to_owned()
        } else {
            cat3("Welcome back, ", first, ".")
        };
        let (list, count) = entries_of(v, today);
        let subtitle = if count == 0 {
            "No recordings today yet.".to_owned()
        } else if count == 1 {
            "You had 1 recording today.".to_owned()
        } else {
            cat3("You had ", decimal_of(count as u64).as_str(), " recordings today.")
        };
        self.home.greeting_text = text;
        self.home.greeting_subtitle = subtitle;
        self.home.recordings = list;
        self.home.selected_action = 0;
        self.entry.placeholder = "Ask anything...".to_owned();
    }
}

// ─── Suggestions ─────────────────────────────────────────────────────────────

/// Some recording has action items.
pub open spec fn any_action_items(v: Seq<RecordingView>) -> bool {
    exists|i: int| 0 <= i < v.len() && filled_list(#[trigger] v[i].action_items)
}

/// Some entity is a person.
pub open spec fn any_person(v: Seq<EntityView>) -> bool {
    exists|i: int| 0 <= i < v.len() && #[trigger] v[i].entity_type == "person"@
}

/// The questions on offer in the chat about everything.
pub open spec fn global_suggestions(entities: Seq<EntityView>, v: Seq<RecordingView>) -> Seq<
    Seq<char>,
> {
    let s0 = Seq::empty().push("What have I been talking about recently?"@);
    let s1 = if entities.len() > 0 {
        s0.push("Summarize my conversations about "@ + entities[0].canonical_name)
    } else {
        s0
    };
    let s2 = if any_action_items(v) {
        s1.push("What action items do I have pending?"@)
    } else {
        s1
    };
    if any_person(entities) {
        s2.push("Who have I been meeting with most?"@)
    } else {
        s2
    }
}

/// The questions on offer in the chat about a recording.
pub open spec fn recording_suggestions(
    recording: Option<RecordingView>,
    mentions: Option<Seq<(Seq<char>, Seq<char>)>>,
) -> Seq<Seq<char>> {
    let s0 = Seq::empty().push("Summarize the key takeaways"@);
    let s1 = match recording {
        Some(r) => {
            let drafted = if filled_list(r.action_items) || filled_list(r.key_points) {
                s0.push("Draft a follow-up email"@)
            } else {
                s0
            };
            if filled_list(r.action_items) {
                drafted.push("What were the action items?"@)
            } else {
                drafted
            }
        },
        None => s0,
    };
    match mentions {
        Some(m) => if m.len() > 0 {
            s1.push("What other recordings mention "@ + m[0].0 + "?"@)
        } else {
            s1
        },
        None => s1,
    }
}

fn has_action_items(v: &Vec<Recording>) -> (r: bool)
    ensures
        r == any_action_items(recording_views(v@)),
{
    let ghost views = recording_views(v@);
    let mut i: usize = 0;
    while i < v.len()
        invariant
            i <= v@.len(),
            views == recording_views(v@),
            forall|j: int| 0 <= j < i ==> !filled_list(#[trigger] views[j].action_items),
        decreases v.len() - i,
    {
        assert(views[i as int] == v@[i as int]@);
        if is_filled_list(&v[i].action_items) {
            assert(filled_list(views[i as int].action_items));
            return true;
        }
        i += 1;
    }
    false
}

fn has_person(v: &Vec<Entity>) -> (r: bool)
    ensures
        r == any_person(entity_views(v@)),
{
    let ghost views = entity_views(v@);
    let mut i: usize = 0;
    while i < v.len()
        invariant
            i <= v@.len(),
            views == entity_views(v@),
            forall|j: int| 0 <= j < i ==> #[trigger] views[j].entity_type != "person"@,
        decreases v.len() - i,
    {
        assert(views[i as int] == v@[i as int]@);
        if same(v[i].entity_type.as_str(), "person") {
            assert(views[i as int].entity_type == "person"@);
            return true;
        }
        i += 1;
    }
    false
}

/// The questions on offer in the chat about everything.
pub fn suggest_globally(entities: &Vec<Entity>, recordings: &Vec<Recording>) -> (r: Vec<String>)
    ensures
        texts(r@) == global_suggestions(entity_views(entities@), recording_views(recordings@)),
        r@.len() <= 4,
{
    let mut r: Vec<String> = Vec::new();
    assert(texts(r@) =~= Seq::<Seq<char>>::empty());
    push_text(&mut r, "What have I been talking about recently?".to_owned());
    if entities.len() > 0 {
        assert(entity_views(entities@)[0] == entities@[0]@);
        push_text(
            &mut r,
            cat("Summarize my conversations about ", entities[0].canonical_name.as_str()),
        );
    }
    if has_action_items(recordings) {
        push_text(&mut r, "What action items do I have pending?".to_owned());
    }
    if has_person(entities) {
        push_text(&mut r, "Who have I been meeting with most?".to_owned());
    }
    assert(texts(r@).len() == r@.len());
    r
}

/// The questions on offer in the chat about a recording.
pub fn suggest_for_recording(recording: &Option<Recording>, mentions: &Option<Vec<Mention>>) -> (r:
    Vec<String>)
    ensures
        texts(r@) == recording_suggestions(
            crate::recordings::option_recording(*recording),
            option_mentions(*mentions),
        ),
        r@.len() <= 4,
{
    let mut r: Vec<String> = Vec::new();
    assert(texts(r@) =~= Seq::<Seq<char>>::empty());
    push_text(&mut r, "Summarize the key takeaways".to_owned());
    match recording {
        Some(rec) => {
            let has_actions = is_filled_list(&rec.action_items);
            if has_actions || is_filled_list(&rec.key_points) {
                push_text(&mut r, "Draft a follow-up email".to_owned());
            }
            if has_actions {
                push_text(&mut r, "What were the action items?".to_owned());
            }
        },
        None => {},
    }
    match mentions {
        Some(m) => {
            if m.len() > 0 {
                assert(mention_texts(m@)[0] == (m@[0].0@, m@[0].1@));
                push_text(
                    &mut r,
                    cat3("What other recordings mention ", m[0].0.as_str(), "?"),
                );
            }
        },
        None => {},
    }
    assert(texts(r@).len() == r@.len());
    r
}

// ─── Which conversation ──────────────────────────────────────────────────────

impl ChatView {
    /// The chat about everything.
    pub open spec fn globally(self, prompt: Seq<char>, suggestions: Seq<Seq<char>>) -> ChatView {
        let fresh = self.talk.messages.len() == 0;
        ChatView {
            talk: TalkView { context: ContextView::Global, ..self.talk },
            offers: OffersView { suggestions, show_suggestions: fresh, ..self.offers },
            home: HomeView { show_home_screen: fresh, ..self.home },
            entry: EntryView {
                system_prompt: prompt,
                borderless: true,
                focus: ChatFocus::ChatInput,
                ..self.entry
            },
            ..self
        }
    }

    /// The chat with another conversation; what was typed and what was being
    /// said is dropped.
    pub open spec fn switched(self, context: ContextView, messages: Seq<MessageView>) -> ChatView {
        ChatView {
            talk: TalkView {
                context,
                messages,
                pending_blocks: Seq::empty(),
                current_status: None,
                is_generating: false,
                ..self.talk
            },
            entry: EntryView { input_buffer: Seq::empty(), ..self.entry },
            viewport: ViewportView { scroll_offset: 0, ..self.viewport },
            ..self.uncached()
        }
    }

    /// The chat about a recording.
    pub open spec fn about(
        self,
        r: RecordingView,
        prompt: Seq<char>,
        suggestions: Seq<Seq<char>>,
    ) -> ChatView {
        let next = self.switched(
            ContextView::Recording { recording_id: r.number(), recording_name: r.shown_name() },
            Seq::empty(),
        );
        ChatView {
            offers: OffersView { suggestions, show_suggestions: true, ..next.offers },
            home: HomeView { show_home_screen: false, ..next.home },
            entry: EntryView { system_prompt: prompt, borderless: true, ..next.entry },
            ..next
        }
    }

    /// The chat about everything once more, with the conversation that was put
    /// aside.
    pub open spec fn restored(
        self,
        messages: Seq<MessageView>,
        suggestions: Seq<Seq<char>>,
        on_main: bool,
    ) -> ChatView {
        let next = self.switched(ContextView::Global, messages);
        let fresh = messages.len() == 0;
        ChatView {
            offers: OffersView { suggestions, show_suggestions: fresh, ..next.offers },
            home: HomeView { show_home_screen: fresh, ..next.home },
            entry: EntryView {
                borderless: on_main,
                focus: if on_main {
                    ChatFocus::ChatInput
                } else {
                    ChatFocus::Table
                },
                ..next.entry
            },
            ..next
        }
    }
}

impl ChatState {
    /// The chat about everything.
    pub fn init_global_chat(&mut self, prompt: String, suggestions: Vec<String>)
        ensures
            final(self)@ == old(self)@.globally(prompt@, texts(suggestions@)),
    {
        let fresh = self.talk.messages.len() == 0;
        self.entry.system_prompt = prompt;
        self.talk.context = ChatContext::Global;
        self.offers.suggestions = suggestions;
        self.offers.show_suggestions = fresh;
        self.home.show_home_screen = fresh;
        self.entry.borderless = true;
        self.entry.focus = ChatFocus::ChatInput;
    }

    /// Another conversation; the one so far is returned.
    fn switch(&mut self, context: ChatContext, messages: Vec<ChatMessage>) -> (r: Vec<ChatMessage>)
        ensures
            final(self)@ == old(self)@.switched(context@, messages_view(messages@)),
            messages_view(r@) == old(self)@.talk.messages,
    {
        let mut messages = messages;
        std::mem::swap(&mut messages, &mut self.talk.messages);
        self.talk.context = context;
        self.entry.input_buffer.clear();
        self.talk.pending_blocks.clear();
        assert(self@.talk.pending_blocks =~= Seq::<BlockView>::empty());
        self.talk.current_status = None;
        self.talk.is_generating = false;
        self.viewport.scroll_offset = 0;
        self.invalidate_cache();
        messages
    }

    /// The chat about a recording; the conversation so far is returned.
    pub fn init_recording_chat(
        &mut self,
        recording: &Recording,
        prompt: String,
        suggestions: Vec<String>,
    ) -> (r: Vec<ChatMessage>)
        ensures
            final(self)@ == old(self)@.about(recording@, prompt@, texts(suggestions@)),
            messages_view(r@) == old(self)@.talk.messages,
    {
        let context = ChatContext::Recording {
            recording_id: recording.number(),
            recording_name: recording.shown_name().to_owned(),
        };
        let none: Vec<ChatMessage> = Vec::new();
        assert(messages_view(none@) =~= Seq::<MessageView>::empty());
        let aside = self.switch(context, none);
        self.entry.system_prompt = prompt;
        self.offers.suggestions = suggestions;
        self.offers.show_suggestions = true;
        self.entry.borderless = true;
        self.home.show_home_screen = false;
        aside
    }

    /// The chat about everything once more, with the conversation that was put
    /// aside.
    pub fn restore_global_chat(
        &mut self,
        messages: Vec<ChatMessage>,
        suggestions: Vec<String>,
        on_main: bool,
    )
        ensures
            final(self)@ == old(self)@.restored(
                messages_view(messages@),
                texts(suggestions@),
                on_main,
            ),
    {
        let fresh = messages.len() == 0;
        let _ = self.switch(ChatContext::Global, messages);
        self.offers.suggestions = suggestions;
        self.offers.show_suggestions = fresh;
        self.home.show_home_screen = fresh;
        self.entry.borderless = on_main;
        self.entry.focus = if on_main {
            ChatFocus::ChatInput
        } else {
            ChatFocus::Table
        };
    }
}

// ─── Laws ────────────────────────────────────────────────────────────────────

/// A visit to the chat about a recording leaves the conversation about
/// everything as it was.
pub proof fn visits_keep_the_conversation(
    v: ChatView,
    r: RecordingView,
    prompt: Seq<char>,
    offered: Seq<Seq<char>>,
    later: Seq<Seq<char>>,
    on_main: bool,
)
    requires
        v.talk.context is Global,
    ensures
        v.about(r, prompt, offered).restored(v.talk.messages, later, on_main).talk.messages
            == v.talk.messages,
        v.about(r, prompt, offered).restored(v.talk.messages, later, on_main).talk.context
            == v.talk.context,
        v.about(r, prompt, offered).talk.messages.len() == 0,
{
}

/// At most four questions are on offer, and always one.
pub proof fn few_suggestions(
    entities: Seq<EntityView>,
    v: Seq<RecordingView>,
    r: Option<RecordingView>,
    mentions: Option<Seq<(Seq<char>, Seq<char>)>>,
)
    ensures
        1 <= global_suggestions(entities, v).len() <= 4,
        1 <= recording_suggestions(r, mentions).len() <= 4,
{
}

proof fn made_on_that_day(v: Seq<RecordingView>, day: int, n: nat)
    requires
        n <= v.len(),
    ensures
        forall|i: int|
            0 <= i < made_on(v, day, n).len() ==> day_number(
                (#[trigger] made_on(v, day, n)[i]).created_local as int,
            ) == day,
        made_on(v, day, n).len() <= n,
    decreases n,
{
    if n > 0 {
        made_on_that_day(v, day, (n - 1) as nat);
    }
}

/// The home screen shows at most five recordings, all made today, none of
/// length 0.
pub proof fn home_shows_today(v: Seq<RecordingView>, today: int, i: int)
    requires
        0 <= i < home_entries(v, today).len(),
    ensures
        home_entries(v, today).len() <= HOME_RECORDINGS,
        home_entries(v, today)[i] == home_entry(made_on(v, today, v.len())[i]),
        day_number(made_on(v, today, v.len())[i].created_local as int) == today,
        home_entries(v, today)[i].duration_mins != 0,
{
    made_on_that_day(v, today, v.len());
    let s = made_on(v, today, v.len())[i].seconds() as int;
    assert(i64::MIN <= quotient(s, 60) <= i64::MAX) by {
        if s >= 0 {
            assert(0 <= s / 60 <= s);
        } else {
            assert(0 <= (-s) / 60 <= -s);
        }
    }
}

} // verus!
