//! The list of recordings on the screen, its footer and its dialogs.
use vstd::prelude::*;

use crate::browse::{
    Deletion, DeletionView, FileDialog, FileDialogStage, FileDialogView, Listing, ListingView,
};
use crate::entities_view::{choice_line, push_choice};
use crate::jobs::{Jobs, JobsView};
use crate::numbers::{quotient, quotient_of, remainder, remainder_of};
use crate::recordings::{recording_views, Recording, RecordingStats, RecordingView};
use crate::style::{
    accent, empty_line, fg, fg_bold, footer_left, footer_mark, hinted, justified, justify, plain,
    push_hint, span, Color, Line, Page, SpanView,
};
use crate::text::{
    blanks, byte_count, byte_len, cat, cat3, cat4, clip, clipped, contains, monus, occurs,
    option_text, same, signed_decimal, signed_decimal_of, spaces,
};
use crate::times::{day_number, day_of, show_time, time_text, CLOCK_PATTERN, DAY_PATTERN};

verus! {

// ─── Notices and footers ─────────────────────────────────────────────────────

/// What stands at the bottom of a screen.
#[derive(Debug)]
pub enum Bar {
    /// One line in the middle, in place of everything else.
    Centered(Line),
    /// A rule, and a line below it.
    Ruled(Line),
}

pub enum BarView {
    Centered(Seq<SpanView>),
    Ruled(Seq<SpanView>),
}

impl View for Bar {
    type V = BarView;

    open spec fn view(&self) -> BarView {
        match *self {
            Bar::Centered(l) => BarView::Centered(l@),
            Bar::Ruled(l) => BarView::Ruled(l@),
        }
    }
}

/// A notification: red where it speaks of a failure, green otherwise.
pub open spec fn notice(msg: Seq<char>) -> Seq<SpanView> {
    seq![
        span(
            msg,
            fg_bold(
                if occurs(msg, "failed"@) || occurs(msg, "Failed"@) {
                    Color::Red
                } else {
                    Color::Green
                },
            ),
        ),
    ]
}

/// A notification: red where it speaks of a failure, green otherwise.
pub fn render_notice(msg: &str) -> (r: Line)
    ensures
        r@ == notice(msg@),
{
    let bad = contains(msg, "failed") || contains(msg, "Failed");
    Line::of(
        msg,
        fg_bold(
            if bad {
                Color::Red
            } else {
                Color::Green
            },
        ),
    )
}

/// A total length: hours where there are any, and minutes.
pub open spec fn total_text(seconds: int) -> Seq<char> {
    let hours = quotient(seconds, 3600);
    let minutes = signed_decimal(quotient(remainder(seconds, 3600), 60)) + "m"@;
    if hours > 0 {
        signed_decimal(hours) + "h "@ + minutes
    } else {
        minutes
    }
}

fn show_total(seconds: i64) -> (r: String)
    ensures
        r@ == total_text(seconds as int),
{
    let hours = quotient_of(seconds, 3600);
    let rest = quotient_of(remainder_of(seconds, 3600), 60);
    let minutes = cat(signed_decimal_of(rest).as_str(), "m");
    if hours > 0 {
        cat3(signed_decimal_of(hours).as_str(), "h ", minutes.as_str())
    } else {
        minutes
    }
}

/// The statistics as the footer shows them.
pub open spec fn stats_text(stats: Option<RecordingStats>) -> Seq<char> {
    let (count, seconds) = match stats {
        Some(s) => (s.total_recordings as int, s.total_duration_seconds as int),
        None => (0int, 0int),
    };
    " \u{00B7} "@ + signed_decimal(count) + " recordings \u{00B7} "@ + total_text(seconds)
}

/// The footer of the list.
pub open spec fn browse_footer(
    notification: Option<Seq<char>>,
    version: Seq<char>,
    stats: Option<RecordingStats>,
    transcribing: bool,
    width: int,
) -> BarView {
    match notification {
        Some(msg) => BarView::Centered(notice(msg)),
        None => {
            let mark = footer_mark(version, stats_text(stats));
            let left = if transcribing {
                mark.push(span(" \u{00B7} Transcribing..."@, fg(Color::Yellow)))
            } else {
                mark
            };
            let right = hinted(
                hinted(
                    hinted(empty_line(), "Tab"@, "] Home  "@),
                    "Ctrl+R"@,
                    "] Record  "@,
                ),
                "/"@,
                "] Search "@,
            );
            BarView::Ruled(justified(left, right, width))
        },
    }
}

/// The footer of the list.
pub fn render_browse_footer(
    notification: &Option<(String, usize)>,
    version: &str,
    stats: Option<RecordingStats>,
    transcribing: bool,
    width: usize,
) -> (r: Bar)
    ensures
        r@ == browse_footer(
            match *notification {
                Some((msg, _)) => Some(msg@),
                None => None,
            },
            version@,
            stats,
            transcribing,
            width as int,
        ),
{
    match notification {
        Some((msg, _)) => Bar::Centered(render_notice(msg.as_str())),
        None => {
            let (count, seconds): (i64, i64) = match stats {
                Some(s) => (s.total_recordings, s.total_duration_seconds),
                None => (0, 0),
            };
            let more = cat4(
                " \u{00B7} ",
                signed_decimal_of(count).as_str(),
                " recordings \u{00B7} ",
                show_total(seconds).as_str(),
            );
            let mut left = footer_left(version, more.as_str());
            if transcribing {
                left.push(" \u{00B7} Transcribing...", fg(Color::Yellow));
            }
            let mut right = Line::new();
            push_hint(&mut right, "Tab", "] Home  ");
            push_hint(&mut right, "Ctrl+R", "] Record  ");
            push_hint(&mut right, "/", "] Search ");
            Bar::Ruled(justify(left, right, width))
        },
    }
}

// ─── The list ────────────────────────────────────────────────────────────────

/// The heading of a day and the time of day of a recording.
pub type Labels = (String, String);

pub open spec fn label_texts(v: Seq<Labels>) -> Seq<(Seq<char>, Seq<char>)> {
    Seq::new(v.len(), |i: int| (v[i].0@, v[i].1@))
}

/// The heading under which a recording stands.
pub open spec fn day_label(created: int, today: int) -> Seq<char> {
    if day_number(created) == today {
        "Today"@
    } else if day_number(created) == today - 1 {
        "Yesterday"@
    } else {
        time_text(created, DAY_PATTERN@)
    }
}

/// The heading and the time of day of each recording.
pub open spec fn labels_of(v: Seq<RecordingView>, today: int) -> Seq<(Seq<char>, Seq<char>)> {
    Seq::new(
        v.len(),
        |i: int|
            (
                day_label(v[i].created_local as int, today),
                time_text(v[i].created_local as int, CLOCK_PATTERN@),
            ),
    )
}

fn label_recordings(v: &Vec<Recording>, today: i64) -> (r: Vec<Labels>)
    ensures
        label_texts(r@) == labels_of(recording_views(v@), today as int),
{
    let ghost views = recording_views(v@);
    let mut r: Vec<Labels> = Vec::new();
    let mut i: usize = 0;
    while i < v.len()
        invariant
            i <= v@.len(),
            views == recording_views(v@),
            label_texts(r@) =~= labels_of(views, today as int).take(i as int),
        decreases v.len() - i,
    {
        let created = v[i].created_local;
        let day = day_of(created);
        let heading = if day == today {
            "Today".to_owned()
        } else if today > i64::MIN && day == today - 1 {
            "Yesterday".to_owned()
        } else {
            show_time(created, DAY_PATTERN)
        };
        let clock = show_time(created, CLOCK_PATTERN);
        let ghost before = label_texts(r@);
        r.push((heading, clock));
        assert(label_texts(r@) =~= before.push((heading@, clock@)));
        i += 1;
    }
    r
}

/// A length of time in short form.
pub open spec fn short_duration(seconds: Option<i64>) -> Seq<char> {
    match seconds {
        Some(d) => {
            let minutes = quotient(d as int, 60);
            if minutes >= 60 {
                signed_decimal(quotient(minutes, 60)) + "h"@ + signed_decimal(
                    remainder(minutes, 60),
                ) + "m"@
            } else {
                signed_decimal(minutes) + "m"@
            }
        },
        None => Seq::empty(),
    }
}

fn show_short_duration(seconds: Option<i64>) -> (r: String)
    ensures
        r@ == short_duration(seconds),
{
    match seconds {
        Some(d) => {
            let minutes = quotient_of(d, 60);
            if minutes >= 60 {
                cat4(
                    signed_decimal_of(quotient_of(minutes, 60)).as_str(),
                    "h",
                    signed_decimal_of(remainder_of(minutes, 60)).as_str(),
                    "m",
                )
            } else {
                cat(signed_decimal_of(minutes).as_str(), "m")
            }
        },
        None => String::new(),
    }
}

/// The dot in front of a recording: a spinner while it is transcribed, a
/// circle while it waits, a disk once it has a transcript.
pub open spec fn status_dot(rec: RecordingView, jobs: JobsView) -> (Seq<char>, Color) {
    if jobs.active == Some(rec.directory_name) {
        (
            match jobs.progress_frame % 4 {
                0 => "\u{25D0} "@,
                1 => "\u{25D3} "@,
                2 => "\u{25D1} "@,
                _ => "\u{25D2} "@,
            },
            Color::Yellow,
        )
    } else if jobs.waits(rec.directory_name) {
        ("\u{25CB} "@, Color::Yellow)
    } else if rec.has_transcript {
        ("\u{25CF} "@, accent())
    } else {
        ("\u{25CB} "@, Color::DarkGray)
    }
}

fn dot_of(rec: &Recording, jobs: &Jobs) -> (r: (&'static str, Color))
    ensures
        (r.0@, r.1) == status_dot(rec@, jobs@),
{
    if jobs.is_active(rec.directory_name.as_str()) {
        (
            match jobs.progress_frame % 4 {
                0 => "\u{25D0} ",
                1 => "\u{25D3} ",
                2 => "\u{25D1} ",
                _ => "\u{25D2} ",
            },
            Color::Yellow,
        )
    } else if jobs.is_queued(rec.directory_name.as_str()) {
        ("\u{25CB} ", Color::Yellow)
    } else if rec.has_transcript {
        ("\u{25CF} ", accent())
    } else {
        ("\u{25CB} ", Color::DarkGray)
    }
}

/// Duration and time of day, at the right of a row.
pub open spec fn right_part(seconds: Option<i64>, clock: Seq<char>) -> Seq<char> {
    let d = short_duration(seconds);
    (blanks(monus(6, d.len() as int)) + d) + "  "@ + clock
}

/// The row of a recording in a list `width` wide.
pub open spec fn row_line(
    rec: RecordingView,
    clock: Seq<char>,
    is_selected: bool,
    jobs: JobsView,
    width: int,
) -> Seq<SpanView> {
    let (dot, color) = status_dot(rec, jobs);
    let right = right_part(rec.duration_seconds, clock);
    let room = monus(monus(width, 16) as int, byte_len(right) as int + 6) as int;
    let name = clipped(rec.shown_name(), room);
    seq![
        span(
            if is_selected {
                "  \u{25B8} "@
            } else {
                "    "@
            },
            fg(Color::White),
        ),
        span(dot, fg(color)),
        span(
            name,
            if is_selected {
                fg_bold(Color::White)
            } else {
                fg(Color::Indexed(249))
            },
        ),
        span(blanks(monus(room, name.len() as int)), plain()),
        span(right, fg(Color::DarkGray)),
    ]
}

fn push_row(
    page: &mut Page,
    rec: &Recording,
    clock: &str,
    is_selected: bool,
    jobs: &Jobs,
    width: usize,
)
    ensures
        final(page)@ == old(page)@.push(
            row_line(rec@, clock@, is_selected, jobs@, width as int),
        ),
{
    let (dot, color) = dot_of(rec, jobs);
    let duration = show_short_duration(rec.duration_seconds);
    let gap = spaces((6usize).saturating_sub(duration.as_str().unicode_len()));
    let right = cat3(cat(gap.as_str(), duration.as_str()).as_str(), "  ", clock);
    let room = width.saturating_sub(16).saturating_sub(6).saturating_sub(
        byte_count(right.as_str()),
    );
    let name = clip(rec.shown_name(), room);
    let mut l = Line::of(
        if is_selected {
            "  \u{25B8} "
        } else {
            "    "
        },
        fg(Color::White),
    );
    l.push(dot, fg(color));
    l.push(
        name.as_str(),
        if is_selected {
            fg_bold(Color::White)
        } else {
            fg(Color::Indexed(249))
        },
    );
    l.push(spaces(room.saturating_sub(name.as_str().unicode_len())).as_str(), plain());
    l.push(right.as_str(), fg(Color::DarkGray));
    assert(l@ =~= row_line(rec@, clock@, is_selected, jobs@, width as int));
    page.push(l);
}

/// The lines so far, the heading that they stand under, and the line of the
/// recording under the cursor.
pub struct ListRows {
    pub lines: Seq<Seq<SpanView>>,
    pub heading: Option<Seq<char>>,
    pub at: Option<int>,
}

impl ListRows {
    /// The heading of a day, where a new one begins.
    pub open spec fn under(self, heading: Seq<char>) -> ListRows {
        if self.heading == Some(heading) {
            self
        } else {
            let spaced = if self.heading is Some {
                self.lines.push(empty_line())
            } else {
                self.lines
            };
            ListRows {
                lines: spaced.push(seq![span("  "@ + heading, fg_bold(Color::DarkGray))]),
                heading: Some(heading),
                ..self
            }
        }
    }

    /// A row.
    pub open spec fn with(self, row: Seq<SpanView>, is_selected: bool) -> ListRows {
        ListRows {
            lines: self.lines.push(row),
            at: if is_selected {
                Some(self.lines.len() as int)
            } else {
                self.at
            },
            ..self
        }
    }
}

/// The first `n` recordings, grouped by day.
pub open spec fn rows_below(
    v: Seq<RecordingView>,
    labels: Seq<(Seq<char>, Seq<char>)>,
    selected: int,
    jobs: JobsView,
    width: int,
    n: nat,
) -> ListRows
    decreases n,
{
    if n == 0 {
        ListRows { lines: Seq::empty(), heading: None, at: None }
    } else {
        rows_below(v, labels, selected, jobs, width, (n - 1) as nat).under(
            labels[n - 1].0,
        ).with(
            row_line(v[n - 1], labels[n - 1].1, selected == n - 1, jobs, width),
            selected == n - 1,
        )
    }
}

/// The list scrolls so far that the cursor is seen; only the lowest 16 bits of
/// the position count.
pub open spec fn list_scroll(at: Option<int>, height: int) -> int {
    let line = match at {
        Some(l) => l,
        None => 0,
    };
    if line >= height {
        (line - height + 2) % 65536
    } else {
        0
    }
}

/// How far the list scrolls, given the line of the cursor.
fn scroll_to(at: Option<usize>, height: usize) -> (r: u16)
    ensures
        r == list_scroll(
            match at {
                Some(l) => Some(l as int),
                None => None,
            },
            height as int,
        ),
{
    let line = match at {
        Some(l) => l,
        None => 0,
    };
    if line >= height {
        let low: u32 = ((line - height) % 65536) as u32;
        ((low + 2) % 65536) as u16
    } else {
        0
    }
}

/// The list while it is put together.
struct RowsSoFar {
    page: Page,
    heading: Option<String>,
    at: Option<usize>,
}

impl RowsSoFar {
    spec fn model(self) -> ListRows {
        ListRows {
            lines: self.page@,
            heading: option_text(self.heading),
            at: match self.at {
                Some(l) => Some(l as int),
                None => None,
            },
        }
    }

    /// The heading of a day, where a new one begins.
    fn under(&mut self, heading: &str)
        ensures
            final(self).model() == old(self).model().under(heading@),
    {
        let begins = match &self.heading {
            Some(h) => {
                let known = same(h.as_str(), heading);
                if !known {
                    self.page.blank();
                }
                !known
            },
            None => true,
        };
        if begins {
            self.page.line(cat("  ", heading).as_str(), fg_bold(Color::DarkGray));
            self.heading = Some(heading.to_owned());
        }
    }

    /// The row of a recording.
    fn push(&mut self, rec: &Recording, clock: &str, is_selected: bool, jobs: &Jobs, width: usize)
        ensures
            final(self).model() == old(self).model().with(
                row_line(rec@, clock@, is_selected, jobs@, width as int),
                is_selected,
            ),
    {
        if is_selected {
            self.at = Some(self.page.lines.len());
        }
        push_row(&mut self.page, rec, clock, is_selected, jobs, width);
    }
}

/// The lines of the list and how far they are scrolled.
#[derive(Debug)]
pub struct RecordingList {
    pub lines: Page,
    pub scroll: u16,
}

/// The recordings under given headings and with given times of day.
pub fn render_rows(
    v: &Vec<Recording>,
    labels: &Vec<Labels>,
    selected: usize,
    jobs: &Jobs,
    width: usize,
    height: usize,
) -> (r: RecordingList)
    requires
        labels@.len() == v@.len(),
    ensures
        r.lines@ == rows_below(
            recording_views(v@),
            label_texts(labels@),
            selected as int,
            jobs@,
            width as int,
            v@.len(),
        ).lines,
        r.scroll == list_scroll(
            rows_below(
                recording_views(v@),
                label_texts(labels@),
                selected as int,
                jobs@,
                width as int,
                v@.len(),
            ).at,
            height as int,
        ),
{
    let ghost views = recording_views(v@);
    let ghost texts = label_texts(labels@);
    let mut rows = RowsSoFar { page: Page::new(), heading: None, at: None };
    let mut i: usize = 0;
    while i < v.len()
        invariant
            i <= v@.len(),
            labels@.len() == v@.len(),
            views == recording_views(v@),
            texts == label_texts(labels@),
            rows.model() == rows_below(
                views,
                texts,
                selected as int,
                jobs@,
                width as int,
                i as nat,
            ),
        decreases v.len() - i,
    {
        assert(views[i as int] == v@[i as int]@);
        assert(texts[i as int] == (labels@[i as int].0@, labels@[i as int].1@));
        rows.under(labels[i].0.as_str());
        rows.push(&v[i], labels[i].1.as_str(), i == selected, jobs, width);
        i += 1;
    }
    RecordingList { scroll: scroll_to(rows.at, height), lines: rows.page }
}

/// What is said where there is no recording.
pub open spec fn empty_list_text(query: Seq<char>) -> Seq<char> {
    if query.len() == 0 {
        "No recordings yet. Press Ctrl+R to start recording."@
    } else {
        "No recordings match your search."@
    }
}

impl ListingView {
    /// The rows of the list.
    pub open spec fn rows(self, today: int, jobs: JobsView, width: int) -> ListRows {
        rows_below(
            self.recordings,
            labels_of(self.recordings, today),
            match self.selected {
                Some(i) => i as int,
                None => 0,
            },
            jobs,
            width,
            self.recordings.len(),
        )
    }
}

impl Listing {
    /// The list in an area of `width` columns and `height` lines; `Err` with
    /// what is said in its middle where it is empty.
    pub fn render_recording_list(&self, today: i64, jobs: &Jobs, width: usize, height: usize) -> (r:
        Result<RecordingList, &'static str>)
        ensures
            r is Err <==> self@.recordings.len() == 0,
            r matches Err(msg) ==> msg@ == empty_list_text(self@.search_query),
            r matches Ok(list) ==> list.lines@ == self@.rows(
                today as int,
                jobs@,
                width as int,
            ).lines && list.scroll == list_scroll(
                self@.rows(today as int, jobs@, width as int).at,
                height as int,
            ),
    {
        if self.recordings.len() == 0 {
            return if self.search_query.as_str().unicode_len() == 0 {
                Err("No recordings yet. Press Ctrl+R to start recording.")
            } else {
                Err("No recordings match your search.")
            };
        }
        let selected: usize = match self.selected {
            Some(i) => i,
            None => 0,
        };
        let labels = label_recordings(&self.recordings, today);
        assert(label_texts(labels@).len() == self@.recordings.len());
        Ok(render_rows(&self.recordings, &labels, selected, jobs, width, height))
    }

    /// The text of the search field.
    pub fn search_text(&self) -> (r: String)
        ensures
            r@ == "Search: "@ + self@.search_query,
    {
        cat("Search: ", self.search_query.as_str())
    }
}

// ─── Dialogs ─────────────────────────────────────────────────────────────────

impl DeletionView {
    /// The question before a recording is deleted.
    pub open spec fn page(self) -> Seq<Seq<SpanView>> {
        Seq::empty().push(
            seq![
                span("Delete recording: "@, fg(Color::White)),
                span(
                    match self.candidate {
                        Some(r) => r.shown_name(),
                        None => "?"@,
                    },
                    fg_bold(Color::Red),
                ),
                span("?"@, fg(Color::White)),
            ],
        ).push(empty_line()).push(choice_line("Yes, delete"@, self.selection == 0, 13)).push(
            choice_line("No, keep it"@, self.selection == 1, 13),
        )
    }
}

impl Deletion {
    /// The question before a recording is deleted.
    pub fn render_delete_confirmation(&self) -> (r: Page)
        ensures
            r@ == self@.page(),
    {
        let name = match &self.candidate {
            Some(r) => r.shown_name(),
            None => "?",
        };
        let mut page = Page::new();
        page.line3(
            "Delete recording: ",
            fg(Color::White),
            name,
            fg_bold(Color::Red),
            "?",
            fg(Color::White),
        );
        page.blank();
        push_choice(&mut page, "Yes, delete", self.selection == 0, 13);
        push_choice(&mut page, "No, keep it", self.selection == 1, 13);
        proof {
            let want = self@.page();
            assert(page@[0] =~= want[0]);
            assert(page@ =~= want);
        }
        page
    }
}

impl FileDialogView {
    pub open spec fn title(self) -> Seq<char> {
        match self.stage {
            FileDialogStage::FilePath => "Import Audio File - Step 1/2"@,
            FileDialogStage::FileName => "Import Audio File - Step 2/2"@,
        }
    }

    /// What the dialog says.
    pub open spec fn page(self) -> Seq<Seq<SpanView>> {
        let (prompt, input, hint) = match self.stage {
            FileDialogStage::FilePath => (
                "Enter the full path to the audio file:"@,
                self.path_input,
                "Example: /path/to/your/audio.mp3 or ~/Downloads/recording.wav"@,
            ),
            FileDialogStage::FileName => (
                "Enter a display name for this recording:"@,
                self.name_input,
                "This name will be shown in your recordings list"@,
            ),
        };
        Seq::empty().push(seq![span(prompt, fg(Color::White))]).push(empty_line()).push(
            seq![span("Input: "@, fg(Color::Green)), span(input + "_"@, fg_bold(Color::Yellow))],
        ).push(empty_line()).push(seq![span(hint, fg(Color::Gray))]).push(empty_line()).push(
            seq![span("Press ENTER to continue, ESC to cancel"@, fg(Color::Blue))],
        )
    }
}

impl FileDialog {
    pub fn title(&self) -> (r: &'static str)
        ensures
            r@ == self@.title(),
    {
        match self.stage {
            FileDialogStage::FilePath => "Import Audio File - Step 1/2",
            FileDialogStage::FileName => "Import Audio File - Step 2/2",
        }
    }

    /// What the dialog says.
    pub fn render_file_dialog(&self) -> (r: Page)
        ensures
            r@ == self@.page(),
    {
        let (prompt, input, hint) = match self.stage {
            FileDialogStage::FilePath => (
                "Enter the full path to the audio file:",
                self.path_input.as_str(),
                "Example: /path/to/your/audio.mp3 or ~/Downloads/recording.wav",
            ),
            FileDialogStage::FileName => (
                "Enter a display name for this recording:",
                self.name_input.as_str(),
                "This name will be shown in your recordings list",
            ),
        };
        let mut page = Page::new();
        page.line(prompt, fg(Color::White));
        page.blank();
        page.line2(
            "Input: ",
            fg(Color::Green),
            cat(input, "_").as_str(),
            fg_bold(Color::Yellow),
        );
        page.blank();
        page.line(hint, fg(Color::Gray));
        page.blank();
        page.line("Press ENTER to continue, ESC to cancel", fg(Color::Blue));
        page
    }
}

// ─── Laws ────────────────────────────────────────────────────────────────────

/// The line of the cursor is one of the lines, and it is a recording's.
pub proof fn cursor_line_exists(
    v: Seq<RecordingView>,
    labels: Seq<(Seq<char>, Seq<char>)>,
    selected: int,
    jobs: JobsView,
    width: int,
    n: nat,
)
    ensures
        rows_below(v, labels, selected, jobs, width, n).at is Some <==> 0 <= selected < n,
        rows_below(v, labels, selected, jobs, width, n).at matches Some(l) ==> 0 <= l < rows_below(
            v,
            labels,
            selected,
            jobs,
            width,
            n,
        ).lines.len() && rows_below(v, labels, selected, jobs, width, n).lines[l] == row_line(
            v[selected],
            labels[selected].1,
            true,
            jobs,
            width,
        ),
    decreases n,
{
    if n > 0 {
        cursor_line_exists(v, labels, selected, jobs, width, (n - 1) as nat);
    }
}

/// The cursor is on the screen, in a list of fewer lines than 16 bits count
/// and an area of two lines at least.
pub proof fn cursor_is_seen(at: int, height: int)
    requires
        0 <= at < 65534,
        height >= 2,
    ensures
        list_scroll(Some(at), height) <= at < list_scroll(Some(at), height) + height,
{
}

} // verus!
