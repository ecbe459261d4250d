//! The frame around the screens: footers, help, and the owls.
use vstd::prelude::*;

use crate::browse_view::{notice, render_notice, Bar, BarView};
use crate::dashboard::{Dashboard, DashboardModel};
use crate::geometry::Rect;
use crate::onboarding_view::spinner;
use crate::style::{
    accent, empty_line, fg, fg_bold, footer_left, footer_mark, hinted, justified, justify, plain,
    push_hint, span, Color, Line, Page, SpanView,
};
use crate::text::{at_least, at_most, byte_count, byte_len, cat, cat3, monus};

verus! {

// ─── What is on top ──────────────────────────────────────────────────────────

/// What fills the main screen and the list.
#[derive(Clone, Copy, Debug, PartialEq, Eq, Structural)]
pub enum Surface {
    FileDialog,
    Message,
    Transcript,
    DeleteConfirm,
    Content,
}

impl DashboardModel {
    /// What fills the main screen and the list.
    pub open spec fn surface(self) -> Surface {
        if self.import.shown {
            Surface::FileDialog
        } else if self.shell.show_message {
            Surface::Message
        } else if self.transcript.shown {
            Surface::Transcript
        } else if self.deletion.show_delete_confirm {
            Surface::DeleteConfirm
        } else {
            Surface::Content
        }
    }
}

impl Dashboard {
    /// What fills the main screen and the list.
    pub fn surface(&self) -> (r: Surface)
        ensures
            r == self@.surface(),
    {
        if self.import.shown {
            Surface::FileDialog
        } else if self.shell.show_message {
            Surface::Message
        } else if self.transcript.shown {
            Surface::Transcript
        } else if self.deletion.show_delete_confirm {
            Surface::DeleteConfirm
        } else {
            Surface::Content
        }
    }
}

/// The home screen is at most this wide.
pub const HOME_WIDTH: u16 = 90;

/// The columns of `area` that the chat gets: its middle on the home screen,
/// all of it in a conversation.
pub open spec fn main_area(area: Rect, on_home: bool) -> Rect {
    let pad = if on_home {
        monus(area.width as int, HOME_WIDTH as int) as int / 2
    } else {
        0
    };
    Rect { x: (area.x + pad) as u16, width: (area.width - 2 * pad) as u16, ..area }
}

impl Dashboard {
    /// The columns of `area` that the chat gets on the main screen.
    pub fn chat_area(&self, area: Rect) -> (r: Rect)
        requires
            area.wf(),
        ensures
            r == main_area(
                area,
                self@.chat.home.show_home_screen && self@.chat.talk.messages.len() == 0,
            ),
            r.within(area),
            r.wf(),
    {
        let pad: u16 = if self.chat.home.show_home_screen && self.chat.talk.messages.len() == 0 {
            area.width.saturating_sub(HOME_WIDTH) / 2
        } else {
            0
        };
        Rect { x: area.x + pad, y: area.y, width: area.width - 2 * pad, height: area.height }
    }
}

// ─── The footer of the main screen ───────────────────────────────────────────

/// The banner of an update.
pub open spec fn update_banner(version: Seq<char>, in_progress: bool, frame: usize) -> Seq<SpanView> {
    if in_progress {
        empty_line().push(span(spinner(frame)@, fg(accent()))).push(
            span("Updating to v"@ + version + "..."@, fg(Color::DarkGray)),
        )
    } else {
        hinted(
            hinted(
                empty_line().push(span("v"@ + version + " available "@, fg(accent()))),
                "u"@,
                "] Update  "@,
            ),
            "Esc"@,
            "] Dismiss"@,
        )
    }
}

/// The outcome of an update.
pub open spec fn update_outcome(outcome: Result<Seq<char>, Seq<char>>) -> Seq<SpanView> {
    match outcome {
        Ok(v) => seq![
            span(
                "Updated to v"@ + v + " \u{2014} restart Scriba to use it"@,
                fg_bold(Color::Green),
            ),
        ],
        Err(e) => seq![span("Update failed: "@ + e, fg_bold(Color::Red))],
    }
}

/// The shortcuts of the main screen.
pub open spec fn home_shortcuts(in_chat: bool) -> Seq<SpanView> {
    let start = if in_chat {
        hinted(empty_line(), "Esc"@, "] Home  "@)
    } else {
        empty_line()
    };
    hinted(hinted(hinted(start, "Tab"@, "] Browse  "@), "Ctrl+R"@, "] Record  "@), "?"@, "] Help "@)
}

impl DashboardModel {
    /// The footer of the main screen: a note, the state of an update, or the
    /// shortcuts.
    pub open spec fn home_footer(self, version: Seq<char>, width: int) -> BarView {
        if self.shell.notification is Some {
            BarView::Centered(notice(self.shell.notification->Some_0.0))
        } else if self.update.completed is Some {
            BarView::Centered(update_outcome(self.update.completed->Some_0))
        } else if self.update.available is Some {
            BarView::Centered(
                update_banner(
                    self.update.available->Some_0,
                    self.update.in_progress,
                    self.jobs.progress_frame,
                ),
            )
        } else {
            BarView::Ruled(
                justified(
                    footer_mark(version, ""@),
                    home_shortcuts(
                        !self.chat.home.show_home_screen && self.chat.talk.messages.len() > 0,
                    ),
                    width,
                ),
            )
        }
    }
}

fn render_update_banner(version: &str, in_progress: bool, frame: usize) -> (r: Line)
    ensures
        r@ == update_banner(version@, in_progress, frame),
{
    let mut l = Line::new();
    if in_progress {
        l.push(spinner(frame), fg(accent()));
        l.push(cat3("Updating to v", version, "...").as_str(), fg(Color::DarkGray));
    } else {
        l.push(cat3("v", version, " available ").as_str(), fg(accent()));
        push_hint(&mut l, "u", "] Update  ");
        push_hint(&mut l, "Esc", "] Dismiss");
    }
    l
}

fn render_home_shortcuts(in_chat: bool) -> (r: Line)
    ensures
        r@ == home_shortcuts(in_chat),
{
    let mut l = Line::new();
    if in_chat {
        push_hint(&mut l, "Esc", "] Home  ");
    }
    push_hint(&mut l, "Tab", "] Browse  ");
    push_hint(&mut l, "Ctrl+R", "] Record  ");
    push_hint(&mut l, "?", "] Help ");
    l
}

impl Dashboard {
    /// The footer of the main screen in `width` columns.
    pub fn render_home_footer(&self, version: &str, width: usize) -> (r: Bar)
        ensures
            r@ == self@.home_footer(version@, width as int),
    {
        match &self.shell.notification {
            Some((msg, _)) => {
                return Bar::Centered(render_notice(msg.as_str()));
            },
            None => {},
        }
        match &self.update.completed {
            Some(Ok(v)) => {
                let text = cat3(
                    "Updated to v",
                    v.as_str(),
                    " \u{2014} restart Scriba to use it",
                );
                return Bar::Centered(Line::of(text.as_str(), fg_bold(Color::Green)));
            },
            Some(Err(e)) => {
                let text = cat("Update failed: ", e.as_str());
                return Bar::Centered(Line::of(text.as_str(), fg_bold(Color::Red)));
            },
            None => {},
        }
        match &self.update.available {
            Some(v) => {
                return Bar::Centered(
                    render_update_banner(
                        v.as_str(),
                        self.update.in_progress,
                        self.jobs.progress_frame,
                    ),
                );
            },
            None => {},
        }
        let in_chat = !self.chat.home.show_home_screen && self.chat.talk.messages.len() > 0;
        Bar::Ruled(justify(footer_left(version, ""), render_home_shortcuts(in_chat), width))
    }
}

// ─── Help ────────────────────────────────────────────────────────────────────

/// The help.
pub open spec fn help_page() -> Seq<Seq<SpanView>> {
    Seq::empty()
        .push(seq![span("SCRIBA HELP"@, plain())])
        .push(empty_line())
        .push(seq![span("Global Shortcuts:"@, plain())])
        .push(seq![span("  Ctrl+R     - Record audio (Esc to stop)"@, plain())])
        .push(seq![span("  Tab        - Browse recordings"@, plain())])
        .push(seq![span("  Ctrl+S     - Settings"@, plain())])
        .push(seq![span("  Ctrl+W     - World (entities)"@, plain())])
        .push(seq![span("  ?/F1       - Show this help"@, plain())])
        .push(seq![span("  Esc        - Back / Quit"@, plain())])
        .push(empty_line())
        .push(seq![span("Home:"@, plain())])
        .push(seq![span("  Type in the chat box to ask questions about your recordings"@, plain())])
        .push(empty_line())
        .push(seq![span("Browse:"@, plain())])
        .push(seq![span("  \u{2191}/\u{2193}        - Navigate recordings (auto-pages)"@, plain())])
        .push(seq![span("  Enter      - View transcript"@, plain())])
        .push(seq![span("  T          - Transcribe selected"@, plain())])
        .push(seq![span("  P          - Play recording"@, plain())])
        .push(seq![span("  D          - Delete recording"@, plain())])
        .push(seq![span("  /          - Search recordings"@, plain())])
        .push(seq![span("  A          - Add external audio file"@, plain())])
        .push(empty_line())
        .push(seq![span("Transcript Viewer:"@, plain())])
        .push(seq![span("  \u{2191}/\u{2193}        - Scroll"@, plain())])
        .push(seq![span("  Ctrl+Y     - Copy transcript"@, plain())])
        .push(seq![span("  Ctrl+T     - Re-transcribe"@, plain())])
        .push(seq![span("  Esc        - Close"@, plain())])
        .push(empty_line())
        .push(seq![span("Press Esc to close this help."@, plain())])
}

/// The help.
pub fn render_help() -> (r: Page)
    ensures
        r@ == help_page(),
{
    let mut page = Page::new();
    page.line("SCRIBA HELP", plain());
    page.blank();
    page.line("Global Shortcuts:", plain());
    page.line("  Ctrl+R     - Record audio (Esc to stop)", plain());
    page.line("  Tab        - Browse recordings", plain());
    page.line("  Ctrl+S     - Settings", plain());
    page.line("  Ctrl+W     - World (entities)", plain());
    page.line("  ?/F1       - Show this help", plain());
    page.line("  Esc        - Back / Quit", plain());
    page.blank();
    page.line("Home:", plain());
    page.line("  Type in the chat box to ask questions about your recordings", plain());
    page.blank();
    page.line("Browse:", plain());
    page.line("  \u{2191}/\u{2193}        - Navigate recordings (auto-pages)", plain());
    page.line("  Enter      - View transcript", plain());
    page.line("  T          - Transcribe selected", plain());
    page.line("  P          - Play recording", plain());
    page.line("  D          - Delete recording", plain());
    page.line("  /          - Search recordings", plain());
    page.line("  A          - Add external audio file", plain());
    page.blank();
    page.line("Transcript Viewer:", plain());
    page.line("  \u{2191}/\u{2193}        - Scroll", plain());
    page.line("  Ctrl+Y     - Copy transcript", plain());
    page.line("  Ctrl+T     - Re-transcribe", plain());
    page.line("  Esc        - Close", plain());
    page.blank();
    page.line("Press Esc to close this help.", plain());
    page
}

// ─── Owls ────────────────────────────────────────────────────────────────────

/// Row `i` of the first picture.
#[verifier::allow_in_spec]
pub fn owl_0(i: usize) -> &'static str
    returns
        (match i {
            0 => "                                          ",
            1 => "        ,_,      ,_,                      ",
            2 => "       (O,O)    (O,O)     HOOT HOOT!!     ",
            3 => "      /{   }\\  /{   }\\                    ",
            _ => "       -\"-\"-    -\"-\"-     I NEVER LEFT!!  ",
        }),
{
    match i {
        0 => "                                          ",
        1 => "        ,_,      ,_,                      ",
        2 => "       (O,O)    (O,O)     HOOT HOOT!!     ",
        3 => "      /{   }\\  /{   }\\                    ",
        _ => "       -\"-\"-    -\"-\"-     I NEVER LEFT!!  ",
    }
}

/// Row `i` of the second picture.
#[verifier::allow_in_spec]
pub fn owl_1(i: usize) -> &'static str
    returns
        (match i {
            0 => "                                          ",
            1 => "       \\(@,@)/ \\(@,@)/                    ",
            2 => "        /{_}\\   /{_}\\   YOU THOUGHT YOU   ",
            3 => "        -\"-\"-   -\"-\"-   COULD GET RID     ",
            _ => "                        OF ME?! HOOOO!!   ",
        }),
{
    match i {
        0 => "                                          ",
        1 => "       \\(@,@)/ \\(@,@)/                    ",
        2 => "        /{_}\\   /{_}\\   YOU THOUGHT YOU   ",
        3 => "        -\"-\"-   -\"-\"-   COULD GET RID     ",
        _ => "                        OF ME?! HOOOO!!   ",
    }
}

/// Row `i` of the third picture.
#[verifier::allow_in_spec]
pub fn owl_2(i: usize) -> &'static str
    returns
        (match i {
            0 => "                                          ",
            1 => "          /(O,O)\\     /(O,O)\\             ",
            2 => "           |\\_/|       |\\_/|              ",
            3 => "           -\"-\"-       -\"-\"-              ",
            _ => "        *AGGRESSIVELY HOOTING*            ",
        }),
{
    match i {
        0 => "                                          ",
        1 => "          /(O,O)\\     /(O,O)\\             ",
        2 => "           |\\_/|       |\\_/|              ",
        3 => "           -\"-\"-       -\"-\"-              ",
        _ => "        *AGGRESSIVELY HOOTING*            ",
    }
}

/// Row `i` of the fourth picture.
#[verifier::allow_in_spec]
pub fn owl_3(i: usize) -> &'static str
    returns
        (match i {
            0 => "                                          ",
            1 => "    \\(O,O)/  (o,o)  \\(@,@)/  /(O,O)\\     ",
            2 => "     |][|   {{`\"'}}    |><|    |}{|       ",
            3 => "     -\"-\"-  -\"-\"-   -\"-\"-   -\"-\"-        ",
            _ => "   THE OWLS ARE NOT WHAT THEY SEEM!!!     ",
        }),
{
    match i {
        0 => "                                          ",
        1 => "    \\(O,O)/  (o,o)  \\(@,@)/  /(O,O)\\     ",
        2 => "     |][|   {{`\"'}}    |><|    |}{|       ",
        3 => "     -\"-\"-  -\"-\"-   -\"-\"-   -\"-\"-        ",
        _ => "   THE OWLS ARE NOT WHAT THEY SEEM!!!     ",
    }
}

/// Row `i` of the fifth picture.
#[verifier::allow_in_spec]
pub fn owl_4(i: usize) -> &'static str
    returns
        (match i {
            0 => "                                          ",
            1 => "              ,___,                        ",
            2 => "             (O   O)   hoo hoo hoo...     ",
            3 => "              /)_(\\                        ",
            4 => "             ' - - `   i see everything   ",
            5 => "                                          ",
            _ => "          ...hoo remembers everything...  ",
        }),
{
    match i {
        0 => "                                          ",
        1 => "              ,___,                        ",
        2 => "             (O   O)   hoo hoo hoo...     ",
        3 => "              /)_(\\                        ",
        4 => "             ' - - `   i see everything   ",
        5 => "                                          ",
        _ => "          ...hoo remembers everything...  ",
    }
}

/// Row `i` of a picture.
#[verifier::allow_in_spec]
pub fn owl_row(set: usize, i: usize) -> &'static str
    returns
        (match set {
            0 => owl_0(i),
            1 => owl_1(i),
            2 => owl_2(i),
            3 => owl_3(i),
            _ => owl_4(i),
        }),
{
    match set {
        0 => owl_0(i),
        1 => owl_1(i),
        2 => owl_2(i),
        3 => owl_3(i),
        _ => owl_4(i),
    }
}

/// The number of rows of a picture.
#[verifier::allow_in_spec]
pub fn owl_height(set: usize) -> u16
    returns
        (match set {
            4 => 7u16,
            _ => 5u16,
        }),
{
    match set {
        4 => 7u16,
        _ => 5u16,
    }
}

/// The colour behind the owls flashes.
#[verifier::allow_in_spec]
pub fn owl_background(frame: usize) -> Color
    returns
        (match (frame / 8) % 4 {
            0 => Color::Black,
            1 => Color::Indexed(17),
            2 => Color::Black,
            _ => Color::Indexed(52),
        }),
{
    match (frame / 8) % 4 {
        0 => Color::Black,
        1 => Color::Indexed(17),
        2 => Color::Black,
        _ => Color::Indexed(52),
    }
}

/// So does that of the owls.
#[verifier::allow_in_spec]
pub fn owl_color(frame: usize) -> Color
    returns
        (match (frame / 5) % 5 {
            0 => Color::Yellow,
            1 => Color::Magenta,
            2 => Color::Cyan,
            3 => Color::Red,
            _ => Color::Green,
        }),
{
    match (frame / 5) % 5 {
        0 => Color::Yellow,
        1 => Color::Magenta,
        2 => Color::Cyan,
        3 => Color::Red,
        _ => Color::Green,
    }
}

/// The longest of the first `n` rows of a picture, in bytes.
pub open spec fn owl_width(set: usize, n: nat) -> int
    decreases n,
{
    if n == 0 {
        0
    } else {
        at_least(
            owl_width(set, (n - 1) as nat),
            byte_len(owl_row(set, (n - 1) as usize)@) as int,
        )
    }
}

/// A frame of the owls.
#[derive(Debug)]
pub struct Owls {
    /// Which picture.
    pub set: usize,
    pub background: Color,
    pub color: Color,
    /// Where the picture stands; rows below the area are left out.
    pub area: Rect,
    /// The columns of the bar that counts down.
    pub bar: usize,
}

/// The owls in the middle of `area`.
pub fn render_owls(area: Rect, frame: usize) -> (r: Owls)
    requires
        area.wf(),
    ensures
        r.set == (frame / 30) % 5,
        r.background == owl_background(frame),
        r.color == owl_color(frame),
        r.area.x == area.x + monus(area.width as int, owl_width(r.set, owl_height(r.set) as nat))
            as int / 2,
        r.area.y == area.y + monus(area.height as int, owl_height(r.set) as int) as int / 2,
        r.area.width == at_most(owl_width(r.set, owl_height(r.set) as nat), area.width as int),
        r.area.height == at_most(owl_height(r.set) as int, area.height as int),
        r.bar == monus(150, frame as int) as int * area.width / 150,
{
    let set = (frame / 30) % 5;
    let height = owl_height(set);
    let mut width: usize = 0;
    let mut i: usize = 0;
    while i < height as usize
        invariant
            i <= height,
            height == owl_height(set),
            width == owl_width(set, i as nat),
        decreases height - i,
    {
        let n = byte_count(owl_row(set, i));
        if n > width {
            width = n;
        }
        i += 1;
    }
    let free = (area.width as usize).saturating_sub(width);
    let left: u64 = if frame < 150 {
        (150 - frame) as u64
    } else {
        0
    };
    assert(0 <= left * area.width <= 150 * 65535) by (nonlinear_arith)
        requires
            0 <= left <= 150,
            0 <= area.width <= 65535,
    ;
    let bar = (left * (area.width as u64) / 150) as usize;
    let wide = if width < area.width as usize {
        width as u16
    } else {
        area.width
    };
    let tall = if height < area.height {
        height
    } else {
        area.height
    };
    Owls {
        set,
        background: owl_background(frame),
        color: owl_color(frame),
        area: Rect {
            x: area.x + (free as u16) / 2,
            y: area.y + area.height.saturating_sub(height) / 2,
            width: wide,
            height: tall,
        },
        bar,
    }
}

// ─── Laws ────────────────────────────────────────────────────────────────────

/// A note hides the state of an update, and that hides the shortcuts.
pub proof fn notes_come_first(m: DashboardModel, version: Seq<char>, width: int)
    ensures
        m.home_footer(version, width) is Ruled <==> m.shell.notification is None
            && m.update.completed is None && m.update.available is None,
        m.shell.notification matches Some(n) ==> m.home_footer(version, width)
            == BarView::Centered(notice(n.0)),
{
}

} // verus!
