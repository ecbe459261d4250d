//! The chat on the screen: the home screen, the questions on offer, or the
//! conversation, with the input line below.
use vstd::prelude::*;

use crate::chat::{
    content_pos, in_order, mouse_chat_height, scroll_position, scroll_top, ChatContext, ChatFocus,
    ChatState, ChatStreamEvent, ChatView, ContextView, HomeView, RenderCache, RenderCacheView,
    Rendered, RenderedView, ViewportView,
};
use crate::chat_lines::{
    messages_lines, messages_lines_wf, no_lines, pending_lines, pending_lines_wf, render_messages,
    render_pending, USER_BAR,
};
use crate::geometry::Rect;
use crate::markdown::{apply_selection_highlight, lit};
use crate::onboarding_view::{
    LOGO_ROW_1, LOGO_ROW_2, LOGO_ROW_3, LOGO_ROW_4, LOGO_ROW_5, LOGO_ROW_6,
};
use crate::style::{
    accent, empty_line, fg, fg_bold, fg_italic, fg_on, on, span, with_blanks, Color, Line, Page,
    SpanView,
};
use crate::text::{
    at_most, blanks, cat, cat3, cat4, clip, clipped, copy_texts, decimal, decimal_of, monus,
    push_text, repeat, repeated, signed_decimal, signed_decimal_of, spaces, texts,
};
use crate::wrap::{wrap, wrapped};

verus! {

// ─── Sizes ───────────────────────────────────────────────────────────────────

impl ChatView {
    pub open spec fn has_conversation(self) -> bool {
        self.talk.messages.len() > 0 || self.talk.is_generating
    }

    /// Nothing was said and nothing is being said.
    pub open spec fn silent(self) -> bool {
        self.talk.messages.len() == 0 && self.talk.pending_blocks.len() == 0
            && !self.talk.is_generating
    }

    pub open spec fn shows_home(self) -> bool {
        self.home.show_home_screen && self.entry.borderless && self.silent()
    }

    pub open spec fn shows_offers(self) -> bool {
        self.offers.show_suggestions && self.offers.suggestions.len() > 0 && self.silent()
            && !self.home.show_home_screen
    }

    pub open spec fn border(self) -> u16 {
        if self.entry.borderless {
            0
        } else {
            2
        }
    }

    pub open spec fn inner_height(self, area: Rect) -> int {
        monus(area.height as int, self.border() as int) as int
    }

    pub open spec fn content_width(self, area: Rect) -> int {
        monus(
            area.width as int,
            if self.entry.borderless {
                2
            } else {
                4
            },
        ) as int
    }

    /// The lines that the input takes.
    pub open spec fn input_rows(self, width: int) -> int {
        if self.entry.input_buffer.len() > 0 && width > 4 {
            wrapped(self.entry.input_buffer + "\u{2588}"@, (width - 4) as nat).len() as int
        } else {
            1
        }
    }

    /// The lines that are left for the content.
    pub open spec fn chat_height(self, area: Rect) -> int {
        if self.shows_home() {
            self.inner_height(area)
        } else {
            monus(
                self.inner_height(area),
                self.input_rows(self.content_width(area)) + if self.has_conversation() {
                    1int
                } else {
                    0
                },
            ) as int
        }
    }

    /// The cursor blinks: it is there for three frames out of five.
    pub open spec fn cursor(self) -> Seq<char> {
        if self.entry.focus == ChatFocus::ChatInput && self.entry.spinner_frame % 5 < 3 {
            "\u{2588}"@
        } else {
            " "@
        }
    }
}

// ─── Home screen ─────────────────────────────────────────────────────────────

/// The logo in the middle of a screen `width` wide.
pub open spec fn logo_lines(width: int) -> RenderedView {
    let pad = blanks((monus(width, 43) as int / 2) as nat);
    let style = fg(Color::Indexed(60));
    no_lines().with_text(pad + LOGO_ROW_1@, style).with_text(pad + LOGO_ROW_2@, style).with_text(
        pad + LOGO_ROW_3@,
        style,
    ).with_text(pad + LOGO_ROW_4@, style).with_text(pad + LOGO_ROW_5@, style).with_text(
        pad + LOGO_ROW_6@,
        style,
    )
}

fn render_home_logo(width: usize) -> (r: Rendered)
    ensures
        r@ == logo_lines(width as int),
{
    let pad = spaces(width.saturating_sub(43) / 2);
    let style = fg(Color::Indexed(60));
    let mut out = Rendered::new();
    out.push_text(cat(pad.as_str(), LOGO_ROW_1).as_str(), style);
    out.push_text(cat(pad.as_str(), LOGO_ROW_2).as_str(), style);
    out.push_text(cat(pad.as_str(), LOGO_ROW_3).as_str(), style);
    out.push_text(cat(pad.as_str(), LOGO_ROW_4).as_str(), style);
    out.push_text(cat(pad.as_str(), LOGO_ROW_5).as_str(), style);
    out.push_text(cat(pad.as_str(), LOGO_ROW_6).as_str(), style);
    out
}

/// The logo and the greeting.
pub open spec fn greeting_lines(home: HomeView, width: int) -> RenderedView {
    let greeted = logo_lines(width).with_blank().with_text(
        "   \u{25CB}  System initialization complete."@,
        fg(Color::DarkGray),
    ).with_blank().with_text("   \u{25CB}  "@ + home.greeting_text, fg_bold(Color::White));
    if home.greeting_subtitle.len() > 0 {
        greeted.with_text("      "@ + home.greeting_subtitle, fg(Color::DarkGray))
    } else {
        greeted
    }
}

/// What can be done with a recording of the home screen.
#[verifier::allow_in_spec]
pub fn action_label(i: usize) -> &'static str
    returns
        (match i {
            0 => "View transcript",
            1 => "Summarize",
            _ => "Ask about it",
        }),
{
    match i {
        0 => "View transcript",
        1 => "Summarize",
        _ => "Ask about it",
    }
}

/// One more entry of the menu below a recording.
pub open spec fn with_action(
    r: RenderedView,
    vert: Seq<char>,
    selected: usize,
    i: usize,
) -> RenderedView {
    let chosen = selected == i;
    r.with_text(
        ("      "@ + vert + "    "@) + (if chosen {
            "\u{25B8}"@
        } else {
            " "@
        }) + " "@ + action_label(i)@,
        if chosen {
            fg_bold(accent())
        } else {
            fg(Color::DarkGray)
        },
    )
}

fn push_action(out: &mut Rendered, vert: &str, selected: usize, i: usize)
    ensures
        final(out)@ == with_action(old(out)@, vert@, selected, i),
{
    let chosen = selected == i;
    let lead = cat3("      ", vert, "    ");
    let bullet = if chosen {
        "\u{25B8}"
    } else {
        " "
    };
    let text = cat4(lead.as_str(), bullet, " ", action_label(i));
    out.push_text(
        text.as_str(),
        if chosen {
            fg_bold(accent())
        } else {
            fg(Color::DarkGray)
        },
    );
}

/// One more recording of the home screen, number `i` of `count`.
pub open spec fn with_recording(
    r: RenderedView,
    home: HomeView,
    width: int,
    i: int,
) -> RenderedView {
    let rec = home.recordings[i];
    let is_last = i == home.recordings.len() - 1;
    let is_selected = i == home.selected_action;
    let room = monus(width, 2) as int;
    let prefix = if is_last {
        "      \u{2514}\u{2500}\u{2500} "@
    } else {
        "      \u{251C}\u{2500}\u{2500} "@
    };
    let vert = if is_last {
        " "@
    } else {
        "\u{2502}"@
    };
    let suffix = " ("@ + signed_decimal(rec.duration_mins as int) + "m)"@;
    let named = r.with_text(
        prefix + clipped(rec.name, monus(room, (prefix.len() + suffix.len()) as int) as int)
            + suffix,
        if is_selected {
            fg_bold(accent())
        } else {
            fg(Color::White)
        },
    );
    let told = match rec.summary_line {
        Some(s) => {
            let lead = "      "@ + vert + "   "@;
            named.with_text(
                lead + clipped(s, monus(room, lead.len() as int) as int),
                fg(Color::DarkGray),
            )
        },
        None => named,
    };
    if is_selected && home.action_menu_open {
        with_action(
            with_action(
                with_action(told, vert, home.action_menu_selection, 0),
                vert,
                home.action_menu_selection,
                1,
            ),
            vert,
            home.action_menu_selection,
            2,
        )
    } else {
        told
    }
}

/// The greeting and the first `n` recordings.
pub open spec fn recordings_below(home: HomeView, width: int, n: nat) -> RenderedView
    decreases n,
{
    if n == 0 {
        greeting_lines(home, width)
    } else {
        with_recording(recordings_below(home, width, (n - 1) as nat), home, width, n - 1)
    }
}

/// The text field of the home screen has this many lines at least.
pub const HOME_BOX_HEIGHT: usize = 7;

/// An empty line of the text field.
pub open spec fn with_fill(r: RenderedView, width: int) -> RenderedView {
    let fill = blanks(monus(width, 2));
    r.with(seq![span(" "@ + fill, on(Color::DarkGray))], fill, fill)
}

/// `n` empty lines of the text field.
pub open spec fn with_fills(r: RenderedView, width: int, n: nat) -> RenderedView
    decreases n,
{
    if n == 0 {
        r
    } else {
        with_fill(with_fills(r, width, (n - 1) as nat), width)
    }
}

/// The first `n` rows of the text in the text field.
pub open spec fn field_rows(r: RenderedView, rows: Seq<Seq<char>>, width: int, n: nat) -> RenderedView
    decreases n,
{
    if n == 0 {
        r
    } else {
        let w = rows[n - 1];
        let fill = blanks(monus(monus(width, 2) as int, 3 + w.len() as int));
        field_rows(r, rows, width, (n - 1) as nat).with(
            seq![
                span(" "@, on(Color::DarkGray)),
                span("   "@, on(Color::DarkGray)),
                span(w, fg_on(Color::White, Color::DarkGray)),
                span(fill, on(Color::DarkGray)),
            ],
            "   "@ + w + fill,
            "   "@ + w + fill,
        )
    }
}

/// The cursor in the empty text field, with a hint behind it.
pub open spec fn with_hint(
    r: RenderedView,
    cursor: Seq<char>,
    hint: Seq<char>,
    width: int,
) -> RenderedView {
    let fill = blanks(monus(monus(width, 2) as int, 4 + hint.len() as int));
    let text = "   "@ + cursor + hint + fill;
    r.with(
        seq![
            span(" "@, on(Color::DarkGray)),
            span("   "@, on(Color::DarkGray)),
            span(cursor, fg_on(Color::White, Color::DarkGray)),
            span(hint, fg_on(Color::Indexed(246), Color::DarkGray)),
            span(fill, on(Color::DarkGray)),
        ],
        text,
        text,
    )
}

/// The text field whose text was wrapped into `rows`.
pub open spec fn text_field(r: RenderedView, rows: Seq<Seq<char>>, width: int) -> RenderedView {
    with_fills(
        field_rows(with_fill(r, width), rows, width, rows.len()),
        width,
        monus(HOME_BOX_HEIGHT as int, rows.len() as int + 1),
    )
}

/// The width at which the text of the home screen's text field is wrapped.
pub open spec fn field_width(width: int) -> nat {
    (monus(width, 8) + 2) as nat
}

impl ChatView {
    /// The home screen, from the logo down to the text field.
    pub open spec fn home_lines(self, width: int) -> RenderedView {
        let above = recordings_below(self.home, width, self.home.recordings.len()).with_blank();
        if self.entry.input_buffer.len() > 0 {
            text_field(
                above,
                wrapped(self.entry.input_buffer + self.cursor(), field_width(width)),
                width,
            )
        } else {
            with_fills(
                with_hint(with_fill(above, width), self.cursor(), self.entry.placeholder, width),
                width,
                (HOME_BOX_HEIGHT - 2) as nat,
            )
        }
    }
}

fn push_fills(out: &mut Rendered, width: usize, n: usize)
    ensures
        final(out)@ == with_fills(old(out)@, width as int, n as nat),
{
    let mut i: usize = 0;
    while i < n
        invariant
            i <= n,
            out@ == with_fills(old(out)@, width as int, i as nat),
        decreases n - i,
    {
        push_fill(out, width);
        i += 1;
    }
}

fn push_fill(out: &mut Rendered, width: usize)
    ensures
        final(out)@ == with_fill(old(out)@, width as int),
{
    let fill = spaces(width.saturating_sub(2));
    out.push(
        Line::of(cat(" ", fill.as_str()).as_str(), on(Color::DarkGray)),
        fill.as_str(),
        fill.as_str(),
    );
}

fn push_hint_row(out: &mut Rendered, cursor: &str, hint: &str, width: usize)
    ensures
        final(out)@ == with_hint(old(out)@, cursor@, hint@, width as int),
{
    let room = width.saturating_sub(2).saturating_sub(4);
    let fill = spaces(room.saturating_sub(hint.unicode_len()));
    let mut l = Line::of(" ", on(Color::DarkGray));
    l.push("   ", on(Color::DarkGray));
    l.push(cursor, fg_on(Color::White, Color::DarkGray));
    l.push(hint, fg_on(Color::Indexed(246), Color::DarkGray));
    l.push(fill.as_str(), on(Color::DarkGray));
    let text = cat4("   ", cursor, hint, fill.as_str());
    assert(l@ =~= seq![
        span(" "@, on(Color::DarkGray)),
        span("   "@, on(Color::DarkGray)),
        span(cursor@, fg_on(Color::White, Color::DarkGray)),
        span(hint@, fg_on(Color::Indexed(246), Color::DarkGray)),
        span(fill@, on(Color::DarkGray)),
    ]);
    out.push(l, text.as_str(), text.as_str());
}

/// Appends the text field whose text was wrapped into `rows`.
pub fn push_text_field(out: &mut Rendered, rows: &Vec<String>, width: usize)
    ensures
        final(out)@ == text_field(old(out)@, texts(rows@), width as int),
{
    push_fill(out, width);
    let ghost above = out@;
    let room = width.saturating_sub(2).saturating_sub(3);
    let mut i: usize = 0;
    while i < rows.len()
        invariant
            i <= rows@.len(),
            room == monus(monus(width as int, 2) as int, 3),
            out@ == field_rows(above, texts(rows@), width as int, i as nat),
        decreases rows.len() - i,
    {
        let w = rows[i].as_str();
        let fill = spaces(room.saturating_sub(w.unicode_len()));
        let mut l = Line::of(" ", on(Color::DarkGray));
        l.push("   ", on(Color::DarkGray));
        l.push(w, fg_on(Color::White, Color::DarkGray));
        l.push(fill.as_str(), on(Color::DarkGray));
        let text = cat3("   ", w, fill.as_str());
        assert(l@ =~= seq![
            span(" "@, on(Color::DarkGray)),
            span("   "@, on(Color::DarkGray)),
            span(w@, fg_on(Color::White, Color::DarkGray)),
            span(fill@, on(Color::DarkGray)),
        ]);
        out.push(l, text.as_str(), text.as_str());
        i += 1;
    }
    push_fills(out, width, (HOME_BOX_HEIGHT - 1).saturating_sub(rows.len()));
}

impl ChatState {
    fn cursor_char(&self) -> (r: &'static str)
        ensures
            r@ == self@.cursor(),
    {
        let focused = match self.entry.focus {
            ChatFocus::ChatInput => true,
            ChatFocus::Table => false,
        };
        if focused && self.entry.spinner_frame % 5 < 3 {
            "\u{2588}"
        } else {
            " "
        }
    }

    fn push_recording(&self, out: &mut Rendered, width: usize, i: usize)
        requires
            i < self.home.recordings@.len(),
        ensures
            final(out)@ == with_recording(old(out)@, self@.home, width as int, i as int),
    {
        let rec = &self.home.recordings[i];
        assert(self@.home.recordings[i as int] == rec@);
        let is_last = i == self.home.recordings.len() - 1;
        let is_selected = i == self.home.selected_action;
        let room = width.saturating_sub(2);
        let prefix = if is_last {
            "      \u{2514}\u{2500}\u{2500} "
        } else {
            "      \u{251C}\u{2500}\u{2500} "
        };
        let vert = if is_last {
            " "
        } else {
            "\u{2502}"
        };
        let minutes = signed_decimal_of(rec.duration_mins);
        let suffix = cat3(" (", minutes.as_str(), "m)");
        let max_name = room.saturating_sub(prefix.unicode_len()).saturating_sub(
            suffix.as_str().unicode_len(),
        );
        let name = clip(rec.name.as_str(), max_name);
        out.push_text(
            cat3(prefix, name.as_str(), suffix.as_str()).as_str(),
            if is_selected {
                fg_bold(accent())
            } else {
                fg(Color::White)
            },
        );
        match &rec.summary_line {
            Some(s) => {
                let lead = cat3("      ", vert, "   ");
                let max_sum = room.saturating_sub(lead.as_str().unicode_len());
                let told = clip(s.as_str(), max_sum);
                out.push_text(cat(lead.as_str(), told.as_str()).as_str(), fg(Color::DarkGray));
            },
            None => {},
        }
        if is_selected && self.home.action_menu_open {
            push_action(out, vert, self.home.action_menu_selection, 0);
            push_action(out, vert, self.home.action_menu_selection, 1);
            push_action(out, vert, self.home.action_menu_selection, 2);
        }
    }

    fn render_home(&self, width: usize) -> (r: Rendered)
        requires
            width <= u16::MAX,
        ensures
            r@ == self@.home_lines(width as int),
    {
        let mut out = render_home_logo(width);
        out.push_blank();
        out.push_text("   \u{25CB}  System initialization complete.", fg(Color::DarkGray));
        out.push_blank();
        out.push_text(
            cat("   \u{25CB}  ", self.home.greeting_text.as_str()).as_str(),
            fg_bold(Color::White),
        );
        if self.home.greeting_subtitle.as_str().unicode_len() > 0 {
            out.push_text(
                cat("      ", self.home.greeting_subtitle.as_str()).as_str(),
                fg(Color::DarkGray),
            );
        }
        let ghost home = self@.home;
        let mut i: usize = 0;
        while i < self.home.recordings.len()
            invariant
                i <= self.home.recordings@.len(),
                home == self@.home,
                home.recordings.len() == self.home.recordings@.len(),
                out@ == recordings_below(home, width as int, i as nat),
            decreases self.home.recordings.len() - i,
        {
            self.push_recording(&mut out, width, i);
            i += 1;
        }
        out.push_blank();
        let cursor = self.cursor_char();
        if self.entry.input_buffer.as_str().unicode_len() > 0 {
            let display = cat(self.entry.input_buffer.as_str(), cursor);
            let rows = wrap(display.as_str(), width.saturating_sub(8) + 2);
            push_text_field(&mut out, &rows, width);
        } else {
            push_fill(&mut out, width);
            push_hint_row(&mut out, cursor, self.entry.placeholder.as_str(), width);
            push_fills(&mut out, width, HOME_BOX_HEIGHT - 2);
        }
        out
    }
}

// ─── Offers ──────────────────────────────────────────────────────────────────

/// One more question on offer.
pub open spec fn with_offer(r: RenderedView, text: Seq<char>, chosen: bool) -> RenderedView {
    r.with_text(
        "  "@ + (if chosen {
            "\u{25B8}"@
        } else {
            " "@
        }) + " "@ + text,
        if chosen {
            fg_bold(Color::White)
        } else {
            fg(Color::DarkGray)
        },
    )
}

/// The first `n` questions on offer.
pub open spec fn offers_below(suggestions: Seq<Seq<char>>, selected: int, n: nat) -> RenderedView
    decreases n,
{
    if n == 0 {
        no_lines()
    } else {
        with_offer(
            offers_below(suggestions, selected, (n - 1) as nat),
            suggestions[n - 1],
            selected == n - 1,
        )
    }
}

/// The questions on offer, and the free one.
pub open spec fn offer_lines(suggestions: Seq<Seq<char>>, selected: int) -> RenderedView {
    with_offer(
        offers_below(suggestions, selected, suggestions.len()),
        "Ask Scriba anything..."@,
        selected == suggestions.len(),
    )
}

fn push_offer(out: &mut Rendered, text: &str, chosen: bool)
    ensures
        final(out)@ == with_offer(old(out)@, text@, chosen),
{
    let bullet = if chosen {
        "\u{25B8}"
    } else {
        " "
    };
    out.push_text(
        cat4("  ", bullet, " ", text).as_str(),
        if chosen {
            fg_bold(Color::White)
        } else {
            fg(Color::DarkGray)
        },
    );
}

fn render_offers(suggestions: &Vec<String>, selected: usize) -> (r: Rendered)
    ensures
        r@ == offer_lines(texts(suggestions@), selected as int),
{
    let mut out = Rendered::new();
    let mut i: usize = 0;
    while i < suggestions.len()
        invariant
            i <= suggestions@.len(),
            out@ == offers_below(texts(suggestions@), selected as int, i as nat),
        decreases suggestions.len() - i,
    {
        push_offer(&mut out, suggestions[i].as_str(), selected == i);
        i += 1;
    }
    push_offer(&mut out, "Ask Scriba anything...", selected == suggestions.len());
    out
}

// ─── The visible part ────────────────────────────────────────────────────────

/// The home screen in `height` lines: a third of the room above it, the rest
/// below.
pub open spec fn framed_home(all: Seq<Seq<SpanView>>, height: int) -> Seq<Seq<SpanView>> {
    let total = all.len() as int;
    let top = monus(height, total) as int / 3;
    let shown = at_most(height - top, total);
    with_blanks(
        with_blanks(Seq::empty(), top as nat) + all.take(shown),
        (height - top - shown) as nat,
    )
}

fn frame_home(all: &Page, height: usize) -> (r: Page)
    ensures
        r@ == framed_home(all@, height as int),
{
    let total = all.lines.len();
    let top = height.saturating_sub(total) / 3;
    let shown = if height - top < total {
        height - top
    } else {
        total
    };
    let mut page = Page::new();
    page.push_blanks(top);
    let ghost head = page@;
    let mut i: usize = 0;
    while i < shown
        invariant
            i <= shown <= all.lines@.len(),
            page@ =~= head + all@.take(i as int),
        decreases shown - i,
    {
        page.push(all.lines[i].copy());
        i += 1;
    }
    page.push_blanks(height - top - shown);
    page
}

/// A selection, from its first to its last position.
pub type Selected = Option<((usize, usize), (usize, usize))>;

/// Both ends of the selection in the order of the text.
pub open spec fn selection_of(v: ViewportView) -> Selected {
    match (v.selection_anchor, v.selection_end) {
        (Some(a), Some(b)) => Some(in_order(a, b)),
        _ => None,
    }
}

/// Line `i` of the content with its selected part highlighted.
pub open spec fn marked_line(
    line: Seq<SpanView>,
    i: int,
    shown: Seq<Seq<char>>,
    selected: Selected,
) -> Seq<SpanView> {
    match selected {
        Some((a, b)) => if a.0 <= i <= b.0 {
            lit(
                line,
                if i == a.0 {
                    a.1 as int
                } else {
                    0
                },
                if i == b.0 {
                    b.1 as int
                } else if i < shown.len() {
                    shown[i].len() as int
                } else {
                    0
                },
            )
        } else {
            line
        },
        None => line,
    }
}

fn mark_line(line: Line, i: usize, shown: &Vec<String>, selected: Selected) -> (r: Line)
    ensures
        r@ == marked_line(line@, i as int, texts(shown@), selected),
{
    match selected {
        Some((a, b)) => {
            if a.0 <= i && i <= b.0 {
                let from = if i == a.0 {
                    a.1
                } else {
                    0
                };
                let to = if i == b.0 {
                    b.1
                } else if i < shown.len() {
                    shown[i].as_str().unicode_len()
                } else {
                    0
                };
                apply_selection_highlight(line, from, to)
            } else {
                line
            }
        },
        None => line,
    }
}

/// The lines from `start` up to `end` with the selection highlighted.
pub open spec fn marked_lines(
    all: Seq<Seq<SpanView>>,
    shown: Seq<Seq<char>>,
    selected: Selected,
    start: int,
    end: int,
) -> Seq<Seq<SpanView>> {
    Seq::new(
        monus(end, start),
        |k: int| marked_line(all[start + k], start + k, shown, selected),
    )
}

/// What of the content is on the screen. Content that is shorter than the
/// screen stands at its bottom. Only the lowest 16 bits of a scroll position
/// count.
pub open spec fn window(
    all: Seq<Seq<SpanView>>,
    shown: Seq<Seq<char>>,
    selected: Selected,
    scroll: int,
    height: int,
) -> Seq<Seq<SpanView>> {
    let start = scroll % 65536;
    let total = all.len() as int;
    with_blanks(Seq::empty(), monus(height, monus(total, start) as int)) + marked_lines(
        all,
        shown,
        selected,
        start,
        at_most(start + height, total),
    )
}

/// What of the content in `first` and `second` is on the screen.
fn render_window(
    first: &Page,
    second: &Page,
    shown: &Vec<String>,
    selected: Selected,
    scroll: usize,
    height: usize,
) -> (r: Page)
    requires
        height <= u16::MAX,
        shown@.len() == first@.len() + second@.len(),
    ensures
        r@ == window(first@ + second@, texts(shown@), selected, scroll as int, height as int),
{
    let ghost all = first@ + second@;
    let total = shown.len();
    let start = scroll % 65536;
    let end = if start + height < total {
        start + height
    } else {
        total
    };
    let mut page = Page::new();
    page.push_blanks(height.saturating_sub(total.saturating_sub(start)));
    let ghost head = page@;
    let n = end.saturating_sub(start);
    let mut k: usize = 0;
    assert(page@ =~= head + marked_lines(all, texts(shown@), selected, start as int, start as int));
    while k < n
        invariant
            k <= n,
            n > 0 ==> start + n == end && end <= total,
            total == shown@.len(),
            all == first@ + second@,
            total == all.len(),
            page@ =~= head + marked_lines(
                all,
                texts(shown@),
                selected,
                start as int,
                start + k,
            ),
        decreases n - k,
    {
        let i = start + k;
        let m = first.lines.len();
        let line = if i < m {
            first.lines[i].copy()
        } else {
            second.lines[i - m].copy()
        };
        assert(line@ == all[i as int]);
        page.push(mark_line(line, i, shown, selected));
        k += 1;
    }
    proof {
        assert(marked_lines(all, texts(shown@), selected, start as int, start + n)
            =~= marked_lines(all, texts(shown@), selected, start as int, end as int));
        assert(monus(height as int, monus(total as int, start as int) as int)
            == height.saturating_sub(total.saturating_sub(start)));
    }
    page
}

// ─── Input line ──────────────────────────────────────────────────────────────

/// The first `n` rows of the input.
pub open spec fn entry_rows(p: Seq<Seq<SpanView>>, rows: Seq<Seq<char>>, n: nat) -> Seq<Seq<SpanView>>
    decreases n,
{
    if n == 0 {
        p
    } else {
        entry_rows(p, rows, (n - 1) as nat).push(
            seq![span(USER_BAR@, fg(Color::Indexed(60))), span(rows[n - 1], fg(Color::White))],
        )
    }
}

/// Appends the input that was wrapped into `rows`.
pub fn push_entry_rows(page: &mut Page, rows: &Vec<String>)
    ensures
        final(page)@ == entry_rows(old(page)@, texts(rows@), rows@.len()),
{
    let mut i: usize = 0;
    while i < rows.len()
        invariant
            i <= rows@.len(),
            page@ == entry_rows(old(page)@, texts(rows@), i as nat),
        decreases rows.len() - i,
    {
        page.line2(USER_BAR, fg(Color::Indexed(60)), rows[i].as_str(), fg(Color::White));
        i += 1;
    }
}

impl ChatView {
    /// A rule where there is a conversation, then the input.
    pub open spec fn with_entry(
        self,
        page: Seq<Seq<SpanView>>,
        area: Rect,
    ) -> Seq<Seq<SpanView>> {
        let width = self.content_width(area);
        let ruled = if self.has_conversation() {
            page.push(
                seq![
                    span(
                        "  "@ + repeated(
                            '\u{2500}',
                            at_most(width, monus(area.width as int, 4) as int) as nat,
                        ),
                        fg(Color::DarkGray),
                    ),
                ],
            )
        } else {
            page
        };
        if self.talk.pending_message is Some && self.entry.input_buffer.len() == 0 {
            ruled.push(
                seq![
                    span(USER_BAR@, fg(Color::Indexed(60))),
                    span(self.talk.pending_message->Some_0 + " "@, fg(Color::Yellow)),
                    span("(queued)"@, fg_italic(Color::DarkGray)),
                ],
            )
        } else if self.entry.input_buffer.len() > 0 {
            let rows = wrapped(self.entry.input_buffer + self.cursor(), monus(width, 5));
            entry_rows(ruled, rows, rows.len())
        } else {
            ruled.push(
                seq![
                    span(USER_BAR@, fg(Color::Indexed(60))),
                    span(self.cursor(), fg(Color::White)),
                ],
            )
        }
    }
}

impl ChatState {
    fn push_entry(&self, page: &mut Page, area: Rect, width: usize)
        requires
            width == self@.content_width(area),
        ensures
            final(page)@ == self@.with_entry(old(page)@, area),
    {
        if self.talk.messages.len() > 0 || self.talk.is_generating {
            let room = area.width.saturating_sub(4) as usize;
            let rule = repeat(
                '\u{2500}',
                if width < room {
                    width
                } else {
                    room
                },
            );
            page.line(cat("  ", rule.as_str()).as_str(), fg(Color::DarkGray));
        }
        let empty = self.entry.input_buffer.as_str().unicode_len() == 0;
        match &self.talk.pending_message {
            Some(m) => {
                if empty {
                    page.line3(
                        USER_BAR,
                        fg(Color::Indexed(60)),
                        cat(m.as_str(), " ").as_str(),
                        fg(Color::Yellow),
                        "(queued)",
                        fg_italic(Color::DarkGray),
                    );
                    return;
                }
            },
            None => {},
        }
        let cursor = self.cursor_char();
        if empty {
            page.line2(USER_BAR, fg(Color::Indexed(60)), cursor, fg(Color::White));
        } else {
            let display = cat(self.entry.input_buffer.as_str(), cursor);
            let rows = wrap(display.as_str(), width.saturating_sub(5));
            assert(texts(rows@).len() == rows@.len());
            push_entry_rows(page, &rows);
        }
    }
}

// ─── The whole panel ─────────────────────────────────────────────────────────

/// What is drawn of the chat.
#[derive(Debug)]
pub struct ChatFrame {
    pub lines: Page,
    /// The title and the colour of the border, where there is one.
    pub border: Option<(&'static str, Color)>,
    /// The border shows how full the context window is.
    pub shows_usage: bool,
    /// Where the scrollbar stands, how much there is to scroll, and the
    /// position in it.
    pub scrollbar: Option<(Rect, usize, usize)>,
}

pub struct ChatFrameView {
    pub lines: Seq<Seq<SpanView>>,
    pub border: Option<(Seq<char>, Color)>,
    pub shows_usage: bool,
    pub scrollbar: Option<(Rect, int, int)>,
}

impl View for ChatFrame {
    type V = ChatFrameView;

    open spec fn view(&self) -> ChatFrameView {
        ChatFrameView {
            lines: self.lines@,
            border: match self.border {
                Some((title, color)) => Some((title@, color)),
                None => None,
            },
            shows_usage: self.shows_usage,
            scrollbar: match self.scrollbar {
                Some((area, total, position)) => Some((area, total as int, position as int)),
                None => None,
            },
        }
    }
}

impl ChatView {
    /// The rendered messages: those that were kept, while they are current.
    pub open spec fn current_messages(self, width: int) -> RenderedView {
        if self.cache.msg_count == self.talk.messages.len() && self.cache.width == width {
            self.cache.rendered
        } else {
            messages_lines(self.talk.messages, width as nat)
        }
    }

    /// What there is to show.
    pub open spec fn content(self, width: int) -> RenderedView {
        if self.shows_home() {
            self.home_lines(width)
        } else if self.shows_offers() {
            offer_lines(self.offers.suggestions, self.offers.selected_suggestion as int)
        } else {
            self.current_messages(width).with_all(
                pending_lines(
                    self.talk.pending_blocks,
                    self.talk.current_status,
                    self.entry.spinner_frame,
                    width,
                ),
            )
        }
    }

    /// The chat after it was drawn in `area`.
    pub open spec fn drawn(self, area: Rect) -> ChatView {
        if area.height < 3 {
            ChatView { viewport: ViewportView { panel_rect: area, ..self.viewport }, ..self }
        } else {
            let width = self.content_width(area);
            let all = self.content(width);
            let total = all.texts.len() as int;
            let talks = !self.shows_home() && !self.shows_offers();
            ChatView {
                viewport: ViewportView {
                    panel_rect: area,
                    content_border_overhead: self.border(),
                    content_top_pad: if self.shows_home() {
                        monus(self.inner_height(area), total) as int / 3
                    } else {
                        0
                    },
                    content_texts: all.texts,
                    content_texts_raw: all.raw,
                    total_content_lines: total,
                    scroll_offset: if talks {
                        at_most(
                            self.viewport.scroll_offset as int,
                            monus(total, self.chat_height(area)) as int,
                        ) as usize
                    } else {
                        self.viewport.scroll_offset
                    },
                    ..self.viewport
                },
                cache: if talks {
                    RenderCacheView {
                        rendered: self.current_messages(width),
                        msg_count: self.talk.messages.len() as int,
                        width,
                    }
                } else {
                    self.cache
                },
                ..self
            }
        }
    }

    pub open spec fn scroll(self, total: int, height: int) -> int {
        scroll_position(
            self.viewport.auto_scroll,
            self.viewport.scroll_offset as int,
            total,
            height,
        )
    }

    /// The lines in `area`.
    pub open spec fn panel_lines(self, area: Rect) -> Seq<Seq<SpanView>> {
        let all = self.content(self.content_width(area));
        if self.shows_home() {
            framed_home(all.lines, self.inner_height(area))
        } else {
            let height = self.chat_height(area);
            self.with_entry(
                window(
                    all.lines,
                    all.texts,
                    selection_of(self.viewport),
                    self.scroll(all.lines.len() as int, height),
                    height,
                ),
                area,
            )
        }
    }

    /// The scrollbar, where not everything fits.
    pub open spec fn scrollbar(self, area: Rect) -> Option<(Rect, int, int)> {
        let total = self.content(self.content_width(area)).lines.len() as int;
        let height = self.chat_height(area);
        let inset: int = if self.entry.borderless {
            0
        } else {
            1
        };
        if total > height && height > 0 {
            Some(
                (
                    Rect {
                        x: area.x,
                        y: (area.y + inset) as u16,
                        width: area.width,
                        height: monus(area.height as int, inset * 2) as u16,
                    },
                    total,
                    self.scroll(total, height),
                ),
            )
        } else {
            None
        }
    }

    /// The border: its title says what the chat is about, its colour whether
    /// it has the focus.
    pub open spec fn border_of(self) -> Option<(Seq<char>, Color)> {
        if self.entry.borderless {
            None
        } else {
            Some(
                (
                    match self.talk.context {
                        ContextView::Global => "Ask Scriba"@,
                        ContextView::Recording { .. } => "Ask about this recording"@,
                    },
                    if self.entry.focus == ChatFocus::ChatInput {
                        accent()
                    } else {
                        Color::DarkGray
                    },
                ),
            )
        }
    }

    /// What is drawn in `area`: nothing where it has less than three lines.
    pub open spec fn frame(self, area: Rect) -> Option<ChatFrameView> {
        if area.height < 3 {
            None
        } else {
            Some(
                ChatFrameView {
                    lines: self.panel_lines(area),
                    border: self.border_of(),
                    shows_usage: !self.entry.borderless && self.usage.input_tokens > 0,
                    scrollbar: self.scrollbar(area),
                },
            )
        }
    }

    /// What is kept of the rendered messages is complete.
    pub open spec fn wf(self) -> bool {
        self.cache.rendered.wf()
    }
}

proof fn fills_wf(r: RenderedView, width: int, n: nat)
    requires
        r.wf(),
    ensures
        with_fills(r, width, n).wf(),
    decreases n,
{
    if n > 0 {
        fills_wf(r, width, (n - 1) as nat);
    }
}

proof fn field_rows_wf(r: RenderedView, rows: Seq<Seq<char>>, width: int, n: nat)
    requires
        r.wf(),
    ensures
        field_rows(r, rows, width, n).wf(),
    decreases n,
{
    if n > 0 {
        field_rows_wf(r, rows, width, (n - 1) as nat);
    }
}

proof fn recordings_wf(home: HomeView, width: int, n: nat)
    ensures
        recordings_below(home, width, n).wf(),
    decreases n,
{
    if n > 0 {
        recordings_wf(home, width, (n - 1) as nat);
    }
}

proof fn home_wf(v: ChatView, width: int)
    ensures
        v.home_lines(width).wf(),
{
    recordings_wf(v.home, width, v.home.recordings.len());
    let above = recordings_below(v.home, width, v.home.recordings.len()).with_blank();
    let rows = wrapped(v.entry.input_buffer + v.cursor(), field_width(width));
    field_rows_wf(with_fill(above, width), rows, width, rows.len());
    fills_wf(
        field_rows(with_fill(above, width), rows, width, rows.len()),
        width,
        monus(HOME_BOX_HEIGHT as int, rows.len() as int + 1),
    );
    fills_wf(
        with_hint(with_fill(above, width), v.cursor(), v.entry.placeholder, width),
        width,
        (HOME_BOX_HEIGHT - 2) as nat,
    );
}

proof fn offers_wf(suggestions: Seq<Seq<char>>, selected: int, n: nat)
    ensures
        offers_below(suggestions, selected, n).wf(),
    decreases n,
{
    if n > 0 {
        offers_wf(suggestions, selected, (n - 1) as nat);
    }
}

fn append_texts(a: &Vec<String>, b: Vec<String>) -> (r: Vec<String>)
    ensures
        texts(r@) == texts(a@) + texts(b@),
{
    let mut r = copy_texts(a);
    let mut b = b;
    let ghost tail = texts(b@);
    r.append(&mut b);
    assert(texts(r@) =~= texts(a@) + tail);
    r
}

impl ChatState {
    fn input_row_count(&self, width: usize) -> (r: usize)
        ensures
            r == self@.input_rows(width as int),
    {
        if self.entry.input_buffer.as_str().unicode_len() > 0 && width > 4 {
            let display = cat(self.entry.input_buffer.as_str(), "\u{2588}");
            let rows = wrap(display.as_str(), width - 4);
            assert(texts(rows@).len() == rows@.len());
            rows.len()
        } else {
            1
        }
    }

    fn refresh_cache(&mut self, width: usize)
        requires
            old(self)@.wf(),
        ensures
            final(self)@ == (ChatView {
                cache: RenderCacheView {
                    rendered: old(self)@.current_messages(width as int),
                    msg_count: old(self)@.talk.messages.len() as int,
                    width: width as int,
                },
                ..old(self)@
            }),
            final(self)@.wf(),
            final(self)@.cache.rendered.wf(),
    {
        if self.talk.messages.len() != self.cache.msg_count || width != self.cache.width {
            proof {
                messages_lines_wf(self@.talk.messages, width as nat);
            }
            let rendered = render_messages(&self.talk.messages, width);
            self.cache = RenderCache { rendered, msg_count: self.talk.messages.len(), width };
        }
    }

    fn selection(&self) -> (r: Selected)
        ensures
            r == selection_of(self@.viewport),
    {
        match (self.viewport.selection_anchor, self.viewport.selection_end) {
            (Some(a), Some(b)) => Some(in_order(a, b)),
            _ => None,
        }
    }

    fn show(&mut self, lines: Vec<String>, raw: Vec<String>, top_pad: usize)
        ensures
            final(self)@ == (ChatView {
                viewport: ViewportView {
                    content_texts: texts(lines@),
                    content_texts_raw: texts(raw@),
                    total_content_lines: lines@.len() as int,
                    content_top_pad: top_pad as int,
                    ..old(self)@.viewport
                },
                ..old(self)@
            }),
    {
        self.viewport.total_content_lines = lines.len();
        self.viewport.content_texts = lines;
        self.viewport.content_texts_raw = raw;
        self.viewport.content_top_pad = top_pad;
    }

    fn frame_around(&self, lines: Page, area: Rect, total: usize, height: usize) -> (r: ChatFrame)
        requires
            area.wf(),
            area.height >= 3,
            total == self@.content(self@.content_width(area)).lines.len(),
            height == self@.chat_height(area),
            lines@ == self@.panel_lines(area),
        ensures
            Some(r@) == self@.frame(area),
    {
        let border = if self.entry.borderless {
            None
        } else {
            let title = match &self.talk.context {
                ChatContext::Global => "Ask Scriba",
                ChatContext::Recording { .. } => "Ask about this recording",
            };
            let color = match self.entry.focus {
                ChatFocus::ChatInput => accent(),
                ChatFocus::Table => Color::DarkGray,
            };
            Some((title, color))
        };
        let inset: u16 = if self.entry.borderless {
            0
        } else {
            1
        };
        let scrollbar = if total > height && height > 0 {
            let bar = Rect {
                x: area.x,
                y: area.y + inset,
                width: area.width,
                height: area.height.saturating_sub(inset * 2),
            };
            let position = scroll_top(
                self.viewport.auto_scroll,
                self.viewport.scroll_offset,
                total,
                height,
            );
            Some((bar, total, position))
        } else {
            None
        };
        ChatFrame {
            lines,
            border,
            shows_usage: !self.entry.borderless && self.usage.input_tokens > 0,
            scrollbar,
        }
    }

    fn draw_home(&mut self, area: Rect) -> (r: ChatFrame)
        requires
            area.wf(),
            area.height >= 3,
            old(self)@.shows_home(),
        ensures
            final(self)@ == old(self)@.drawn(area),
            Some(r@) == old(self)@.frame(area),
    {
        let ghost v = self@;
        let height = area.height as usize;
        let width = area.width.saturating_sub(2) as usize;
        let all = self.render_home(width);
        proof {
            home_wf(v, width as int);
        }
        let total = all.texts.len();
        let lines = frame_home(&all.lines, height);
        let frame = self.frame_around(lines, area, total, height);
        self.viewport.panel_rect = area;
        self.viewport.content_border_overhead = 0;
        self.show(all.texts, all.raw, height.saturating_sub(total) / 3);
        frame
    }

    fn draw_offers(&mut self, area: Rect, width: usize, height: usize) -> (r: ChatFrame)
        requires
            area.wf(),
            area.height >= 3,
            old(self)@.shows_offers(),
            width == old(self)@.content_width(area),
            height == old(self)@.chat_height(area),
        ensures
            final(self)@ == old(self)@.drawn(area),
            Some(r@) == old(self)@.frame(area),
    {
        let ghost v = self@;
        let all = render_offers(&self.offers.suggestions, self.offers.selected_suggestion);
        proof {
            offers_wf(
                v.offers.suggestions,
                v.offers.selected_suggestion as int,
                v.offers.suggestions.len(),
            );
        }
        let total = all.texts.len();
        let scroll = scroll_top(
            self.viewport.auto_scroll,
            self.viewport.scroll_offset,
            total,
            height,
        );
        let none = Page::new();
        assert(all.lines@ + none@ =~= all.lines@);
        let mut lines = render_window(
            &all.lines,
            &none,
            &all.texts,
            self.selection(),
            scroll,
            height,
        );
        self.push_entry(&mut lines, area, width);
        let frame = self.frame_around(lines, area, total, height);
        self.viewport.panel_rect = area;
        self.viewport.content_border_overhead = self.border_lines();
        self.show(all.texts, all.raw, 0);
        frame
    }

    fn draw_talk(&mut self, area: Rect, width: usize, height: usize) -> (r: ChatFrame)
        requires
            area.wf(),
            area.height >= 3,
            old(self)@.wf(),
            !old(self)@.shows_home(),
            !old(self)@.shows_offers(),
            width == old(self)@.content_width(area),
            height == old(self)@.chat_height(area),
        ensures
            final(self)@ == old(self)@.drawn(area),
            Some(r@) == old(self)@.frame(area),
    {
        let ghost v = self@;
        self.refresh_cache(width);
        let coming = render_pending(
            &self.talk.pending_blocks,
            &self.talk.current_status,
            self.entry.spinner_frame,
            width,
        );
        proof {
            pending_lines_wf(
                v.talk.pending_blocks,
                v.talk.current_status,
                v.entry.spinner_frame,
                width as int,
            );
        }
        let shown = append_texts(&self.cache.rendered.texts, coming.texts);
        let raw = append_texts(&self.cache.rendered.raw, coming.raw);
        let total = shown.len();
        let scroll = scroll_top(
            self.viewport.auto_scroll,
            self.viewport.scroll_offset,
            total,
            height,
        );
        assert(texts(shown@).len() == total);
        let mut lines = render_window(
            &self.cache.rendered.lines,
            &coming.lines,
            &shown,
            self.selection(),
            scroll,
            height,
        );
        self.push_entry(&mut lines, area, width);
        let frame = self.frame_around(lines, area, total, height);
        let max = total.saturating_sub(height);
        if self.viewport.scroll_offset > max {
            self.viewport.scroll_offset = max;
        }
        self.viewport.panel_rect = area;
        self.viewport.content_border_overhead = self.border_lines();
        self.show(shown, raw, 0);
        frame
    }

    fn border_lines(&self) -> (r: u16)
        ensures
            r == self@.border(),
    {
        if self.entry.borderless {
            0
        } else {
            2
        }
    }

    /// Draws the chat in `area`.
    pub fn render(&mut self, area: Rect) -> (r: Option<ChatFrame>)
        requires
            area.wf(),
            old(self)@.wf(),
        ensures
            final(self)@ == old(self)@.drawn(area),
            (match r {
                Some(f) => Some(f@),
                None => None,
            }) == old(self)@.frame(area),
            final(self)@.wf(),
    {
        proof {
            drawing_settles(self@, area);
        }
        if area.height < 3 {
            self.viewport.panel_rect = area;
            return None;
        }
        let talking = self.talk.messages.len() > 0 || self.talk.is_generating;
        let silent = !talking && self.talk.pending_blocks.len() == 0;
        if self.home.show_home_screen && self.entry.borderless && silent {
            return Some(self.draw_home(area));
        }
        let padding: u16 = if self.entry.borderless {
            2
        } else {
            4
        };
        let width = area.width.saturating_sub(padding) as usize;
        let inner_height = area.height.saturating_sub(self.border_lines()) as usize;
        let separator: usize = if talking {
            1
        } else {
            0
        };
        let height = inner_height.saturating_sub(separator).saturating_sub(
            self.input_row_count(width),
        );
        if self.offers.show_suggestions && self.offers.suggestions.len() > 0 && silent
            && !self.home.show_home_screen {
            Some(self.draw_offers(area, width, height))
        } else {
            Some(self.draw_talk(area, width, height))
        }
    }
}

// ─── Context window ──────────────────────────────────────────────────────────

/// The colour of the bar: green up to 60 % of the window, yellow up to 80 %.
pub open spec fn usage_color(used: int, window: int) -> Color {
    if 5 * used <= 3 * window {
        Color::Green
    } else if 5 * used <= 4 * window {
        Color::Yellow
    } else {
        Color::Red
    }
}

impl ChatState {
    /// The bar in the border with `filled` of its ten cells full.
    pub fn usage_bar(&self, filled: usize, percent: u32) -> (r: Line)
        ensures
            r@ == seq![
                span(" ctx ["@, fg(Color::DarkGray)),
                span(
                    repeated('\u{2588}', filled as nat),
                    fg(
                        usage_color(
                            self.usage.input_tokens + self.usage.output_tokens,
                            self.usage.window_max as int,
                        ),
                    ),
                ),
                span(
                    repeated('\u{2591}', monus(10, filled as int)),
                    fg(Color::Indexed(237)),
                ),
                span("] "@ + decimal(percent as nat) + "% "@, fg(Color::DarkGray)),
            ],
    {
        let used: u64 = self.usage.input_tokens as u64 + self.usage.output_tokens as u64;
        let window: u64 = self.usage.window_max as u64;
        let color = if 5 * used <= 3 * window {
            Color::Green
        } else if 5 * used <= 4 * window {
            Color::Yellow
        } else {
            Color::Red
        };
        let empty = if filled < 10 {
            10 - filled
        } else {
            0
        };
        let full = repeat('\u{2588}', filled);
        let free = repeat('\u{2591}', empty);
        let tail = cat3("] ", decimal_of(percent as u64).as_str(), "% ");
        let mut l = Line::of(" ctx [", fg(Color::DarkGray));
        l.push(full.as_str(), fg(color));
        l.push(free.as_str(), fg(Color::Indexed(237)));
        l.push(tail.as_str(), fg(Color::DarkGray));
        assert(l@ =~= seq![
            span(" ctx ["@, fg(Color::DarkGray)),
            span(full@, fg(color)),
            span(free@, fg(Color::Indexed(237))),
            span(tail@, fg(Color::DarkGray)),
        ]);
        l
    }
}

// ─── Laws ────────────────────────────────────────────────────────────────────

impl ChatView {
    /// What is kept of the rendered messages, if it is current, is what the
    /// messages render to.
    pub open spec fn coherent(self) -> bool {
        &&& self.wf()
        &&& 0 <= self.cache.msg_count <= self.talk.messages.len()
        &&& self.cache.msg_count == self.talk.messages.len() && self.cache.width >= 0
            ==> self.cache.rendered == messages_lines(
            self.talk.messages,
            self.cache.width as nat,
        )
    }
}

/// Drawing keeps the chat well-formed, and draws the same again.
pub proof fn drawing_settles(v: ChatView, area: Rect)
    requires
        v.wf(),
    ensures
        v.drawn(area).wf(),
        v.drawn(area).content(v.content_width(area)) == v.content(v.content_width(area)),
{
    let width = v.content_width(area);
    messages_lines_wf(v.talk.messages, width as nat);
}

/// Drawing from what was kept shows what the messages render to.
pub proof fn cache_is_transparent(v: ChatView, width: int)
    requires
        v.coherent(),
        width >= 0,
    ensures
        v.current_messages(width) == messages_lines(v.talk.messages, width as nat),
{
}

/// Drawing keeps the cache in step with the messages.
pub proof fn drawing_keeps_coherence(v: ChatView, area: Rect)
    requires
        v.coherent(),
    ensures
        v.drawn(area).coherent(),
{
    let width = v.content_width(area);
    cache_is_transparent(v, width);
    messages_lines_wf(v.talk.messages, width as nat);
}

/// What the stream brings keeps the cache in step with the messages.
pub proof fn hearing_keeps_coherence(v: ChatView, event: ChatStreamEvent)
    requires
        v.coherent(),
    ensures
        v.hearing(event).coherent(),
{
}

/// The content is never scrolled past its end, and stands at its end while
/// the chat scrolls by itself.
pub proof fn scroll_stays_inside(auto: bool, offset: int, total: int, height: int)
    requires
        offset >= 0,
        total >= 0,
        height >= 0,
    ensures
        0 <= scroll_position(auto, offset, total, height) <= monus(total, height),
        auto ==> scroll_position(auto, offset, total, height) == monus(total, height),
{
}

/// The home screen fills its area exactly.
pub proof fn home_fills_the_area(all: Seq<Seq<SpanView>>, height: int)
    requires
        height >= 0,
    ensures
        framed_home(all, height).len() == height,
{
}

/// The content that is shown fills its part of the screen exactly, while its
/// length fits into 16 bits.
pub proof fn window_fills_the_area(
    all: Seq<Seq<SpanView>>,
    shown: Seq<Seq<char>>,
    selected: Selected,
    auto: bool,
    offset: int,
    height: int,
)
    requires
        height >= 0,
        offset >= 0,
        all.len() < 65536,
    ensures
        window(
            all,
            shown,
            selected,
            scroll_position(auto, offset, all.len() as int, height),
            height,
        ).len() == height,
{
}

/// Every line of the content has one text as shown and one as copied.
pub proof fn content_lines_up(v: ChatView, width: int)
    requires
        v.wf(),
    ensures
        v.content(width).wf(),
{
    home_wf(v, width);
    offers_wf(
        v.offers.suggestions,
        v.offers.selected_suggestion as int,
        v.offers.suggestions.len(),
    );
    messages_lines_wf(v.talk.messages, width as nat);
    pending_lines_wf(
        v.talk.pending_blocks,
        v.talk.current_status,
        v.entry.spinner_frame,
        width,
    );
}

proof fn entry_rows_prefix(p: Seq<Seq<SpanView>>, rows: Seq<Seq<char>>, n: nat)
    ensures
        entry_rows(p, rows, n).len() == p.len() + n,
        forall|k: int| 0 <= k < p.len() ==> #[trigger] entry_rows(p, rows, n)[k] == p[k],
    decreases n,
{
    if n > 0 {
        entry_rows_prefix(p, rows, (n - 1) as nat);
    }
}

proof fn entry_keeps_the_window(v: ChatView, page: Seq<Seq<SpanView>>, area: Rect, k: int)
    requires
        0 <= k < page.len(),
    ensures
        v.with_entry(page, area)[k] == page[k],
{
    let width = v.content_width(area);
    let rows = wrapped(v.entry.input_buffer + v.cursor(), monus(width, 5));
    let rule = seq![
        span(
            "  "@ + repeated(
                '\u{2500}',
                at_most(width, monus(area.width as int, 4) as int) as nat,
            ),
            fg(Color::DarkGray),
        ),
    ];
    let ruled = if v.has_conversation() {
        page.push(rule)
    } else {
        page
    };
    entry_rows_prefix(ruled, rows, rows.len());
    assert(ruled[k] == page[k]);
}

/// The mouse hits the line that is drawn under it: in a conversation with one
/// line of input, the position below the mouse is that of the content line
/// which the panel shows there, and rows without content hit nothing. (The
/// length of the content fits into 16 bits.)
pub proof fn mouse_hits_the_drawn_line(v: ChatView, area: Rect, k: int, column: int)
    requires
        v.wf(),
        area.height >= 3,
        !v.shows_home(),
        v.input_rows(v.content_width(area)) == 1,
        v.content(v.content_width(area)).lines.len() < 65536,
        0 <= k < v.chat_height(area),
    ensures
        ({
            let all = v.content(v.content_width(area));
            let border: int = if v.entry.borderless {
                0
            } else {
                1
            };
            match content_pos(v.drawn(area), column, area.y + border + k) {
                Some((line, _)) => 0 <= line < all.lines.len() && v.panel_lines(area)[k]
                    == marked_line(
                    all.lines[line],
                    line,
                    all.texts,
                    selection_of(v.viewport),
                ),
                None => v.panel_lines(area)[k] == empty_line(),
            }
        }),
{
    content_lines_up(v, v.content_width(area));
    let width = v.content_width(area);
    let all = v.content(width);
    let total = all.lines.len() as int;
    let height = v.chat_height(area);
    let top = v.scroll(total, height);
    let shown = window(all.lines, all.texts, selection_of(v.viewport), top, height);
    let next = v.drawn(area);
    assert(top % 65536 == top);
    assert(mouse_chat_height(next) == height);
    assert(scroll_position(
        next.viewport.auto_scroll,
        next.viewport.scroll_offset as int,
        total,
        height,
    ) == top);
    let pad = monus(height, monus(total, top) as int) as int;
    assert(shown.len() == height);
    entry_keeps_the_window(v, shown, area, k);
    if k < pad {
        assert(shown[k] == empty_line());
    } else {
        assert(shown[k] == marked_line(
            all.lines[top + (k - pad)],
            top + (k - pad),
            all.texts,
            selection_of(v.viewport),
        ));
    }
}

} // verus!
