//! Capturing audio: what is being recorded, how it is toggled, and how it is
//! shown.
use vstd::prelude::*;

use crate::chat::{home_views, HomeRecording, HomeRecordingView};
use crate::geometry::Rect;
use crate::jobs::{Jobs, JobsView};
use crate::style::{
    accent, empty_line, fg, fg_bold, hinted, justified, justify, plain, push_hint, span, Color,
    Line, SpanView,
};
use crate::text::{
    at_most, cat, cat3, cat4, copy_option, decimal, decimal_of, monus, option_text, repeat,
    repeated, same,
};

verus! {

#[derive(Clone, Copy, Debug, PartialEq, Eq, Structural)]
pub enum RecordingKind {
    /// Started by the user.
    Manual,
    /// Started when a meeting was noticed.
    Meeting,
}

#[derive(Clone, Copy, Debug, PartialEq, Eq, Structural)]
pub enum RecordingPhase {
    /// Audio is being captured.
    Recording,
    /// Capture is done; transcription and enrichment go on.
    Processing,
}

/// The recording that is in progress, whoever started it.
#[derive(Debug)]
pub struct RecordingInfo {
    pub kind: RecordingKind,
    pub phase: RecordingPhase,
    /// The app in which the meeting takes place.
    pub source: Option<String>,
    pub directory: Option<String>,
    pub elapsed_secs: u64,
}

pub struct RecordingInfoView {
    pub kind: RecordingKind,
    pub phase: RecordingPhase,
    pub source: Option<Seq<char>>,
    pub directory: Option<Seq<char>>,
    pub elapsed_secs: u64,
}

impl View for RecordingInfo {
    type V = RecordingInfoView;

    open spec fn view(&self) -> RecordingInfoView {
        RecordingInfoView {
            kind: self.kind,
            phase: self.phase,
            source: option_text(self.source),
            directory: option_text(self.directory),
            elapsed_secs: self.elapsed_secs,
        }
    }
}

pub open spec fn option_info(info: Option<RecordingInfo>) -> Option<RecordingInfoView> {
    match info {
        Some(i) => Some(i@),
        None => None,
    }
}

/// Audio is being captured right now, by the user or for a meeting.
pub open spec fn capturing(by_user: bool, info: Option<RecordingInfoView>) -> bool {
    by_user || (info matches Some(i) && i.phase == RecordingPhase::Recording)
}

/// Whether audio is being captured right now (manual or meeting). Only
/// capture gets the strip; post-capture work is indicated on the recording's
/// own row instead.
pub fn recording_indicator_visible(by_user: bool, info: &Option<RecordingInfo>) -> (r: bool)
    ensures
        r == capturing(by_user, option_info(*info)),
{
    by_user || match info {
        Some(i) => match i.phase {
            RecordingPhase::Recording => true,
            RecordingPhase::Processing => false,
        },
        None => false,
    }
}

/// What Ctrl+R does.
#[derive(Clone, Copy, Debug, PartialEq, Eq, Structural)]
pub enum Toggle {
    /// Stop the user's recording.
    Stop,
    /// Stop the recording of a meeting.
    StopMeeting,
    /// A meeting's recording is being processed: nothing to stop.
    Wait,
    /// Start a recording.
    Start,
}

/// What Ctrl+R does: it stops whichever recording is in progress, or starts
/// one.
pub open spec fn toggle_of(by_user: bool, info: Option<RecordingInfoView>) -> Toggle {
    if by_user {
        Toggle::Stop
    } else if info matches Some(i) && i.kind == RecordingKind::Meeting {
        if info->Some_0.phase == RecordingPhase::Recording {
            Toggle::StopMeeting
        } else {
            Toggle::Wait
        }
    } else {
        Toggle::Start
    }
}

/// Ctrl+R: start a manual recording, or stop whichever recording (manual or
/// meeting) is in progress.
pub fn toggle_recording(by_user: bool, info: &Option<RecordingInfo>) -> (r: Toggle)
    ensures
        r == toggle_of(by_user, option_info(*info)),
{
    if by_user {
        return Toggle::Stop;
    }
    match info {
        Some(i) => match (i.kind, i.phase) {
            (RecordingKind::Meeting, RecordingPhase::Recording) => Toggle::StopMeeting,
            (RecordingKind::Meeting, RecordingPhase::Processing) => Toggle::Wait,
            (RecordingKind::Manual, _) => Toggle::Start,
        },
        None => Toggle::Start,
    }
}

/// The directory of a meeting's recording that is being processed.
pub open spec fn processed_directory(info: Option<RecordingInfoView>) -> Option<Seq<char>> {
    match info {
        Some(i) => if i.phase == RecordingPhase::Processing {
            i.directory
        } else {
            None
        },
        None => None,
    }
}

/// Directory of a meeting recording whose capture is done but whose
/// transcription/enrichment is still running in the autopilot.
pub fn processing_directory(info: &Option<RecordingInfo>) -> (r: Option<String>)
    ensures
        option_text(r) == processed_directory(option_info(*info)),
{
    match info {
        Some(i) => match i.phase {
            RecordingPhase::Processing => copy_option(&i.directory),
            RecordingPhase::Recording => None,
        },
        None => None,
    }
}

/// Background work is running for a recording.
pub open spec fn busy(jobs: JobsView, info: Option<RecordingInfoView>, name: Seq<char>) -> bool {
    jobs.busy_with(name) || processed_directory(info) == Some(name)
}

/// Whether background work (TUI transcription queue or autopilot
/// finalization) is running for a recording.
pub fn is_recording_busy(jobs: &Jobs, info: &Option<RecordingInfo>, directory_name: &str) -> (r:
    bool)
    ensures
        r == busy(jobs@, option_info(*info), directory_name@),
{
    if jobs.is_transcription_pending_or_active(directory_name) {
        return true;
    }
    match processing_directory(info) {
        Some(d) => same(d.as_str(), directory_name),
        None => false,
    }
}

/// A recording of the home screen with its flag in step.
pub open spec fn flagged(
    rec: HomeRecordingView,
    jobs: JobsView,
    info: Option<RecordingInfoView>,
) -> HomeRecordingView {
    HomeRecordingView { busy: busy(jobs, info, rec.directory_name), ..rec }
}

/// Keep the home list's per-row busy flags in sync with current state.
pub fn refresh_home_busy(
    list: &mut Vec<HomeRecording>,
    jobs: &Jobs,
    info: &Option<RecordingInfo>,
)
    ensures
        home_views(final(list)@) == Seq::new(
            old(list)@.len(),
            |i: int| flagged(old(list)@[i]@, jobs@, option_info(*info)),
        ),
{
    let ghost before = list@;
    let mut i: usize = 0;
    while i < list.len()
        invariant
            i <= list@.len(),
            list@.len() == before.len(),
            forall|j: int|
                0 <= j < i ==> (#[trigger] list@[j])@ == flagged(
                    before[j]@,
                    jobs@,
                    option_info(*info),
                ),
            forall|j: int| i <= j < before.len() ==> #[trigger] list@[j] == before[j],
        decreases list.len() - i,
    {
        let b = is_recording_busy(jobs, info, list[i].directory_name.as_str());
        list[i].busy = b;
        i += 1;
    }
    assert(home_views(list@) =~= Seq::new(
        before.len(),
        |k: int| flagged(before[k]@, jobs@, option_info(*info)),
    ));
}

// ─── Progress ────────────────────────────────────────────────────────────────

/// The spinner of a progress message.
#[verifier::allow_in_spec]
pub fn progress_spinner(frame: usize) -> &'static str
    returns
        (match frame % 10 {
            0 => "\u{280B}",
            1 => "\u{2819}",
            2 => "\u{2839}",
            3 => "\u{2838}",
            4 => "\u{283C}",
            5 => "\u{2834}",
            6 => "\u{2826}",
            7 => "\u{2827}",
            8 => "\u{2807}",
            _ => "\u{280F}",
        }),
{
    match frame % 10 {
        0 => "\u{280B}",
        1 => "\u{2819}",
        2 => "\u{2839}",
        3 => "\u{2838}",
        4 => "\u{283C}",
        5 => "\u{2834}",
        6 => "\u{2826}",
        7 => "\u{2827}",
        8 => "\u{2807}",
        _ => "\u{280F}",
    }
}

/// The bar grows from the left, then shrinks towards the right.
pub open spec fn bar_cell(frame: int, i: int) -> char {
    let pos = (frame / 2) % 40;
    if (pos < 20 && i <= pos) || (pos >= 20 && i >= 39 - pos) {
        '\u{25B0}'
    } else {
        '\u{25B1}'
    }
}

/// The progress bar in a frame.
pub open spec fn bar_of(frame: int) -> Seq<char> {
    Seq::new(20, |i: int| bar_cell(frame, i))
}

/// The progress bar in a frame.
pub fn progress_bar(frame: usize) -> (r: String)
    ensures
        r@ == bar_of(frame as int),
{
    let pos: usize = (frame / 2) % 40;
    let mut bar = String::new();
    let mut i: usize = 0;
    assert(bar@ =~= bar_of(frame as int).take(0));
    while i < 20
        invariant
            i <= 20,
            pos == (frame as int / 2) % 40,
            bar@ =~= bar_of(frame as int).take(i as int),
        decreases 20 - i,
    {
        let full = (pos < 20 && i <= pos) || (pos >= 20 && i >= 39 - pos);
        bar.push(
            if full {
                '\u{25B0}'
            } else {
                '\u{25B1}'
            },
        );
        i += 1;
    }
    bar
}

/// A progress message: the spinner, what is going on, and a bar.
pub fn progress_message(frame: usize, what: &str, bar: &str) -> (r: String)
    ensures
        r@ == progress_spinner(frame)@ + " "@ + what@ + (" ["@ + bar@ + "]"@),
{
    cat4(progress_spinner(frame), " ", what, cat3(" [", bar, "]").as_str())
}

/// The volume as a bar with `filled` of its 20 cells full.
pub fn volume_bar(filled: usize, percent: u8) -> (r: String)
    ensures
        r@ == repeated('\u{25B0}', at_most(filled as int, 20) as nat) + repeated(
            '\u{25B1}',
            monus(20, filled as int),
        ) + "|"@ + (decimal(percent as nat) + "%"@),
{
    let n = if filled < 20 {
        filled
    } else {
        20
    };
    cat4(
        repeat('\u{25B0}', n).as_str(),
        repeat('\u{25B1}', 20 - n).as_str(),
        "|",
        cat(decimal_of(percent as u64).as_str(), "%").as_str(),
    )
}

// ─── The strip ───────────────────────────────────────────────────────────────

/// At least two digits.
pub open spec fn two_digits(n: nat) -> Seq<char> {
    if n < 10 {
        "0"@ + decimal(n)
    } else {
        decimal(n)
    }
}

fn pad_two(n: u64) -> (r: String)
    ensures
        r@ == two_digits(n as nat),
{
    if n < 10 {
        cat("0", decimal_of(n).as_str())
    } else {
        decimal_of(n)
    }
}

/// A column of the waveform, one of nine heights.
#[verifier::allow_in_spec]
pub fn wave_column(height: usize) -> &'static str
    returns
        (match height {
            0 => " ",
            1 => "\u{2581}",
            2 => "\u{2582}",
            3 => "\u{2583}",
            4 => "\u{2584}",
            5 => "\u{2585}",
            6 => "\u{2586}",
            7 => "\u{2587}",
            _ => "\u{2588}",
        }),
{
    match height {
        0 => " ",
        1 => "\u{2581}",
        2 => "\u{2582}",
        3 => "\u{2583}",
        4 => "\u{2584}",
        5 => "\u{2585}",
        6 => "\u{2586}",
        7 => "\u{2587}",
        _ => "\u{2588}",
    }
}

/// The sample that column `i` of a waveform shows, of so many samples: the
/// newest stands at the right, and columns without a sample are flat.
pub open spec fn sample_at(i: int, width: int, samples: int) -> Option<int> {
    if i < width - samples {
        None
    } else {
        Some(samples - (width - i))
    }
}

/// The sample that column `i` of a waveform shows.
pub fn wave_sample(i: usize, width: usize, samples: usize) -> (r: Option<usize>)
    requires
        i < width,
    ensures
        (match r {
            Some(k) => Some(k as int),
            None => None,
        }) == sample_at(i as int, width as int, samples as int),
        r matches Some(k) ==> k < samples,
{
    if i < width.saturating_sub(samples) {
        None
    } else {
        Some(samples - (width - i))
    }
}

/// The first `n` columns of the waveform behind `l`.
pub open spec fn with_wave(l: Seq<SpanView>, wave: Seq<usize>, n: nat) -> Seq<SpanView>
    decreases n,
{
    if n == 0 {
        l
    } else {
        with_wave(l, wave, (n - 1) as nat).push(
            span(
                wave_column(wave[n - 1])@,
                fg(
                    if wave[n - 1] <= 1 {
                        Color::Indexed(237)
                    } else {
                        accent()
                    },
                ),
            ),
        )
    }
}

fn push_wave(l: &mut Line, wave: &Vec<usize>)
    ensures
        final(l)@ == with_wave(old(l)@, wave@, wave@.len()),
{
    let mut i: usize = 0;
    while i < wave.len()
        invariant
            i <= wave@.len(),
            l@ == with_wave(old(l)@, wave@, i as nat),
        decreases wave.len() - i,
    {
        l.push(
            wave_column(wave[i]),
            fg(
                if wave[i] <= 1 {
                    Color::Indexed(237)
                } else {
                    accent()
                },
            ),
        );
        i += 1;
    }
}

/// What is recorded, from where, and since how many seconds.
pub open spec fn strip_facts(info: Option<RecordingInfoView>, since_start: u64) -> (
    Seq<char>,
    Option<Seq<char>>,
    u64,
) {
    match info {
        Some(i) => (
            match i.kind {
                RecordingKind::Manual => "Recording"@,
                RecordingKind::Meeting => "Recording meeting"@,
            },
            i.source,
            i.elapsed_secs,
        ),
        None => ("Recording"@, None, since_start),
    }
}

/// The recording indicator: a pulsing dot, the kind, the elapsed time, the
/// waveform, and a hint at the right.
pub open spec fn strip_line(
    info: Option<RecordingInfoView>,
    since_start: u64,
    frame: usize,
    wave: Seq<usize>,
    width: int,
    margin: Seq<char>,
) -> Seq<SpanView> {
    let (label, source, elapsed) = strip_facts(info, since_start);
    let dot = if (frame / 5) % 2 == 0 {
        Color::Red
    } else {
        Color::Indexed(88)
    };
    let named = empty_line().push(span(margin, plain())).push(
        span("\u{25CF} "@, fg(dot)),
    ).push(span(label, fg_bold(Color::White)));
    let sourced = match source {
        Some(s) => named.push(span(" \u{00B7} "@ + s, fg(accent()))),
        None => named,
    };
    let timed = sourced.push(
        span(
            "  "@ + (two_digits((elapsed / 60) as nat) + ":"@ + two_digits((elapsed % 60) as nat))
                + "  "@,
            fg(Color::DarkGray),
        ),
    );
    justified(
        with_wave(timed, wave, wave.len()),
        hinted(empty_line(), "Ctrl+R"@, "] Stop"@),
        width,
    )
}

/// The recording indicator as a single line: pulsing dot, kind (with the
/// source app for meetings), elapsed time, live waveform, and a right-aligned
/// Ctrl+R hint.
pub fn recording_strip_line(
    info: &Option<RecordingInfo>,
    since_start: u64,
    frame: usize,
    wave: &Vec<usize>,
    width: usize,
    margin: &str,
) -> (r: Line)
    ensures
        r@ == strip_line(option_info(*info), since_start, frame, wave@, width as int, margin@),
{
    let dot = if (frame / 5) % 2 == 0 {
        Color::Red
    } else {
        Color::Indexed(88)
    };
    let mut l = Line::new();
    l.push(margin, plain());
    l.push("\u{25CF} ", fg(dot));
    let elapsed = match info {
        Some(i) => {
            let label = match i.kind {
                RecordingKind::Manual => "Recording",
                RecordingKind::Meeting => "Recording meeting",
            };
            l.push(label, fg_bold(Color::White));
            match &i.source {
                Some(s) => l.push(cat(" \u{00B7} ", s.as_str()).as_str(), fg(accent())),
                None => {},
            }
            i.elapsed_secs
        },
        None => {
            l.push("Recording", fg_bold(Color::White));
            since_start
        },
    };
    let clock = cat3(pad_two(elapsed / 60).as_str(), ":", pad_two(elapsed % 60).as_str());
    l.push(cat3("  ", clock.as_str(), "  ").as_str(), fg(Color::DarkGray));
    push_wave(&mut l, wave);
    let mut hint = Line::new();
    push_hint(&mut hint, "Ctrl+R", "] Stop");
    justify(l, hint, width)
}

/// An area with a margin of two columns on each side.
pub open spec fn inset(area: Rect) -> Rect {
    Rect {
        x: (area.x + 2) as u16,
        y: area.y,
        width: monus(area.width as int, 4) as u16,
        height: area.height,
    }
}

/// An area with a margin of two columns on each side.
pub fn inset_area(area: Rect) -> (r: Rect)
    requires
        area.x <= u16::MAX - 2,
    ensures
        r == inset(area),
{
    Rect { x: area.x + 2, y: area.y, width: area.width.saturating_sub(4), height: area.height }
}

// ─── Laws ────────────────────────────────────────────────────────────────────

/// Ctrl+R never starts a second capture beside one that is going on for the
/// user or for a meeting.
pub proof fn one_capture_at_a_time(by_user: bool, info: Option<RecordingInfoView>)
    requires
        by_user || (info matches Some(i) && i.kind == RecordingKind::Meeting),
    ensures
        toggle_of(by_user, info) != Toggle::Start,
{
}

/// The newest sample stands at the right of the waveform, each older one a
/// column further left.
pub proof fn newest_at_the_right(width: int, samples: int, back: int)
    requires
        0 <= back < width,
        back < samples,
    ensures
        sample_at(width - 1 - back, width, samples) == Some(samples - 1 - back),
{
}

/// The progress bar comes back to where it was after 80 frames.
pub proof fn bar_repeats(frame: int)
    requires
        frame >= 0,
    ensures
        bar_of(frame + 80) == bar_of(frame),
{
    assert((frame + 80) / 2 == frame / 2 + 40);
    assert((frame / 2 + 40) % 40 == (frame / 2) % 40);
    assert(bar_of(frame + 80) =~= bar_of(frame));
}

} // verus!
