//! Voice enrollment: the owner reads a few sentences, and the clip becomes
//! voice samples. Times are in milliseconds.
use vstd::prelude::*;

use crate::keys::Key;
use crate::style::{accent, empty_line, fg, fg_bold, span, Color, Page, SpanView};
use crate::text::{
    at_least, at_most, cat, cat3, cat4, decimal, decimal_of, monus, push_text, repeat, repeated,
    texts, trim, trimmed,
};

verus! {

/// How long the owner reads for.
pub const ENROLL_MS: u64 = 12_000;

/// Enter stops the recording early once this much has been captured.
pub const MIN_EARLY_STOP_MS: u64 = 4_000;

/// If the recorder has not returned this long after being told to stop, the
/// microphone is stuck (permissions, missing device) and we give up.
pub const STOP_GRACE_MS: u64 = 8_000;

pub const STUCK_MICROPHONE: &'static str = "The microphone did not respond. Check that Scriba may use the microphone (System Settings > Privacy & Security > Microphone) and try again.";

#[derive(Debug)]
pub enum VoicePhase {
    /// Showing the script, waiting for Enter.
    Prompt,
    Recording {
        elapsed: u64,
        /// The level of the microphone, in millionths of full scale.
        level: u32,
        /// When the recorder was told to stop.
        stop_at: Option<u64>,
    },
    Processing,
    Done {
        stored: usize,
        total_samples: usize,
        /// In whole seconds.
        total_secs: u64,
    },
    Failed(String),
    Skipped,
}

pub enum VoicePhaseView {
    Prompt,
    Recording { elapsed: u64, level: u32, stop_at: Option<u64> },
    Processing,
    Done { stored: usize, total_samples: usize, total_secs: u64 },
    Failed(Seq<char>),
    Skipped,
}

impl View for VoicePhase {
    type V = VoicePhaseView;

    open spec fn view(&self) -> VoicePhaseView {
        match *self {
            VoicePhase::Prompt => VoicePhaseView::Prompt,
            VoicePhase::Recording { elapsed, level, stop_at } => VoicePhaseView::Recording {
                elapsed,
                level,
                stop_at,
            },
            VoicePhase::Processing => VoicePhaseView::Processing,
            VoicePhase::Done { stored, total_samples, total_secs } => VoicePhaseView::Done {
                stored,
                total_samples,
                total_secs,
            },
            VoicePhase::Failed(msg) => VoicePhaseView::Failed(msg@),
            VoicePhase::Skipped => VoicePhaseView::Skipped,
        }
    }
}

/// Outcome of a key press.
#[derive(Clone, Copy, Debug, PartialEq, Eq, Structural)]
pub enum VoiceAction {
    Continue,
    /// The flow is over (done, failed, or skipped): the caller moves on.
    Finished,
}

/// What the recorder has to do.
#[derive(Clone, Copy, Debug, PartialEq, Eq, Structural)]
pub enum VoiceErrand {
    /// Start to record.
    Record,
    /// Stop, and keep the clip.
    Stop,
    /// Give up, and remove the clip.
    Abort,
    /// Turn the clip into samples, store them, and remove the clip.
    Learn,
}

/// What background work has brought since the last frame.
#[derive(Debug)]
pub struct VoiceNews {
    /// The latest level.
    pub level: Option<u32>,
    /// The recorder has returned.
    pub recorder_finished: bool,
    /// The samples were stored, or could not be: how many, how many there are
    /// in total, and their length in seconds.
    pub learned: Option<Result<(usize, usize, u64), String>>,
}

#[derive(Debug)]
pub struct VoiceEnrollment {
    pub phase: VoicePhase,
    pub name: String,
    /// What is left to do, oldest first.
    pub errands: Vec<VoiceErrand>,
}

pub struct VoiceView {
    pub phase: VoicePhaseView,
    pub name: Seq<char>,
    pub errands: Seq<VoiceErrand>,
}

impl View for VoiceEnrollment {
    type V = VoiceView;

    open spec fn view(&self) -> VoiceView {
        VoiceView { phase: self.phase@, name: self.name@, errands: self.errands@ }
    }
}

/// The sentences to read.
pub open spec fn script_for(name: Seq<char>) -> Seq<Seq<char>> {
    seq![
        if name.len() == 0 {
            "\u{201C}Hey Scriba, it's me."@
        } else {
            "\u{201C}Hey Scriba, this is "@ + name + "."@
        },
        "I'm going to use you to remember my meetings,"@,
        "my ideas, and the people I work with."@,
        "Let's see how well you learn my voice.\u{201D}"@,
    ]
}

impl VoiceView {
    /// What a key changes, and whether the flow is over.
    pub open spec fn pressing(self, key: Key) -> (VoiceView, VoiceAction) {
        match (self.phase, key) {
            (VoicePhaseView::Prompt, Key::Enter) => (
                VoiceView {
                    phase: VoicePhaseView::Recording { elapsed: 0, level: 0, stop_at: None },
                    errands: self.errands.push(VoiceErrand::Record),
                    ..self
                },
                VoiceAction::Continue,
            ),
            (VoicePhaseView::Prompt, Key::Char(c)) => if c == 's' || c == 'S' {
                (VoiceView { phase: VoicePhaseView::Skipped, ..self }, VoiceAction::Finished)
            } else {
                (self, VoiceAction::Continue)
            },
            (VoicePhaseView::Recording { elapsed, level, stop_at }, Key::Enter) => (
                if stop_at is None && elapsed >= MIN_EARLY_STOP_MS {
                    self.stopping(elapsed, level)
                } else {
                    self
                },
                VoiceAction::Continue,
            ),
            (VoicePhaseView::Done { .. }, Key::Enter) => (self, VoiceAction::Finished),
            (VoicePhaseView::Failed(_), Key::Enter) => (self, VoiceAction::Finished),
            (VoicePhaseView::Skipped, Key::Enter) => (self, VoiceAction::Finished),
            (VoicePhaseView::Failed(_), Key::Char(c)) => if c == 'r' || c == 'R' {
                (VoiceView { phase: VoicePhaseView::Prompt, ..self }, VoiceAction::Continue)
            } else {
                (self, VoiceAction::Continue)
            },
            _ => (self, VoiceAction::Continue),
        }
    }

    /// The recorder is told to stop.
    pub open spec fn stopping(self, elapsed: u64, level: u32) -> VoiceView {
        VoiceView {
            phase: VoicePhaseView::Recording { elapsed, level, stop_at: Some(elapsed) },
            errands: self.errands.push(VoiceErrand::Stop),
            ..self
        }
    }

    /// The clock shows `elapsed` since the recording began.
    pub open spec fn timed(self, elapsed: u64) -> VoiceView {
        match self.phase {
            VoicePhaseView::Recording { level, stop_at, .. } => VoiceView {
                phase: VoicePhaseView::Recording { elapsed, level, stop_at },
                ..self
            },
            _ => self,
        }
    }

    /// A recording with its latest level, told to stop when the time is up.
    pub open spec fn measured(self, news: VoiceNews) -> VoiceView {
        match self.phase {
            VoicePhaseView::Recording { elapsed, level, stop_at } => {
                let heard = match news.level {
                    Some(l) => l,
                    None => level,
                };
                if stop_at is None && elapsed >= ENROLL_MS {
                    self.stopping(elapsed, heard)
                } else {
                    VoiceView {
                        phase: VoicePhaseView::Recording { elapsed, level: heard, stop_at },
                        ..self
                    }
                }
            },
            _ => self,
        }
    }

    /// One frame.
    pub open spec fn ticking(self, news: VoiceNews) -> VoiceView {
        match self.phase {
            VoicePhaseView::Recording { elapsed, .. } => {
                let now = self.measured(news);
                let stop_at = now.phase->stop_at;
                if news.recorder_finished {
                    VoiceView {
                        phase: VoicePhaseView::Processing,
                        errands: now.errands.push(VoiceErrand::Learn),
                        ..now
                    }
                } else if stop_at matches Some(at) && elapsed - at > STOP_GRACE_MS {
                    VoiceView {
                        phase: VoicePhaseView::Failed(STUCK_MICROPHONE@),
                        errands: now.errands.push(VoiceErrand::Abort),
                        ..now
                    }
                } else {
                    now
                }
            },
            VoicePhaseView::Processing => match news.learned {
                Some(Ok((stored, total_samples, total_secs))) => VoiceView {
                    phase: VoicePhaseView::Done { stored, total_samples, total_secs },
                    ..self
                },
                Some(Err(msg)) => VoiceView { phase: VoicePhaseView::Failed(msg@), ..self },
                None => self,
            },
            _ => self,
        }
    }
}

/// The name of the directory for the clip, made of the time.
pub fn clip_dir(stamp: u64) -> (r: String)
    ensures
        r@ == "scriba-voice-"@ + decimal(stamp as nat),
{
    cat("scriba-voice-", decimal_of(stamp).as_str())
}

impl VoiceEnrollment {
    pub fn new(name: &str) -> (r: VoiceEnrollment)
        ensures
            r@ == (VoiceView {
                phase: VoicePhaseView::Prompt,
                name: trimmed(name@),
                errands: Seq::empty(),
            }),
    {
        let r = VoiceEnrollment {
            phase: VoicePhase::Prompt,
            name: trim(name).to_owned(),
            errands: Vec::new(),
        };
        assert(r@.errands =~= Seq::<VoiceErrand>::empty());
        r
    }

    /// The sentences to read: short, natural, and covering varied sounds.
    pub fn script(&self) -> (r: Vec<String>)
        ensures
            texts(r@) == script_for(self@.name),
    {
        let hello = if self.name.as_str().unicode_len() == 0 {
            "\u{201C}Hey Scriba, it's me.".to_owned()
        } else {
            cat3("\u{201C}Hey Scriba, this is ", self.name.as_str(), ".")
        };
        let mut r: Vec<String> = Vec::new();
        push_text(&mut r, hello);
        push_text(&mut r, "I'm going to use you to remember my meetings,".to_owned());
        push_text(&mut r, "my ideas, and the people I work with.".to_owned());
        push_text(&mut r, "Let's see how well you learn my voice.\u{201D}".to_owned());
        assert(texts(r@) =~= script_for(self@.name));
        r
    }

    fn stop(&mut self, elapsed: u64, level: u32)
        ensures
            final(self)@ == old(self)@.stopping(elapsed, level),
    {
        self.phase = VoicePhase::Recording { elapsed, level, stop_at: Some(elapsed) };
        self.errands.push(VoiceErrand::Stop);
    }

    /// A key was pressed.
    pub fn handle_key(&mut self, key: Key) -> (r: VoiceAction)
        ensures
            (final(self)@, r) == old(self)@.pressing(key),
    {
        match (&self.phase, key) {
            (VoicePhase::Prompt, Key::Enter) => {
                self.phase = VoicePhase::Recording { elapsed: 0, level: 0, stop_at: None };
                self.errands.push(VoiceErrand::Record);
                VoiceAction::Continue
            },
            (VoicePhase::Prompt, Key::Char(c)) => {
                if c == 's' || c == 'S' {
                    self.phase = VoicePhase::Skipped;
                    VoiceAction::Finished
                } else {
                    VoiceAction::Continue
                }
            },
            (VoicePhase::Recording { elapsed, level, stop_at }, Key::Enter) => {
                let (elapsed, level, stop_at) = (*elapsed, *level, *stop_at);
                if stop_at.is_none() && elapsed >= MIN_EARLY_STOP_MS {
                    self.stop(elapsed, level);
                }
                VoiceAction::Continue
            },
            (VoicePhase::Done { .. }, Key::Enter) => VoiceAction::Finished,
            (VoicePhase::Failed(_), Key::Enter) => VoiceAction::Finished,
            (VoicePhase::Skipped, Key::Enter) => VoiceAction::Finished,
            (VoicePhase::Failed(_), Key::Char(c)) => {
                if c == 'r' || c == 'R' {
                    self.phase = VoicePhase::Prompt;
                }
                VoiceAction::Continue
            },
            _ => VoiceAction::Continue,
        }
    }

    /// The clock shows `now` since the recording began.
    pub fn set_elapsed(&mut self, now: u64)
        ensures
            final(self)@ == old(self)@.timed(now),
    {
        match &mut self.phase {
            VoicePhase::Recording { elapsed, .. } => {
                *elapsed = now;
            },
            _ => {},
        }
    }

    fn measure(&mut self, news: &VoiceNews)
        ensures
            final(self)@ == old(self)@.measured(*news),
    {
        match &self.phase {
            VoicePhase::Recording { elapsed, level, stop_at } => {
                let (elapsed, level, stop_at) = (*elapsed, *level, *stop_at);
                let heard = match news.level {
                    Some(l) => l,
                    None => level,
                };
                if stop_at.is_none() && elapsed >= ENROLL_MS {
                    self.stop(elapsed, heard);
                } else {
                    self.phase = VoicePhase::Recording { elapsed, level: heard, stop_at };
                }
            },
            _ => {},
        }
    }

    /// Advance timers and background work; call once per frame.
    pub fn tick(&mut self, news: &VoiceNews)
        ensures
            final(self)@ == old(self)@.ticking(*news),
    {
        self.measure(news);
        match &self.phase {
            VoicePhase::Recording { elapsed, stop_at, .. } => {
                let stuck = match stop_at {
                    Some(at) => elapsed.saturating_sub(*at) > STOP_GRACE_MS,
                    None => false,
                };
                if news.recorder_finished {
                    self.phase = VoicePhase::Processing;
                    self.errands.push(VoiceErrand::Learn);
                } else if stuck {
                    self.phase = VoicePhase::Failed(STUCK_MICROPHONE.to_owned());
                    self.errands.push(VoiceErrand::Abort);
                }
            },
            VoicePhase::Processing => match &news.learned {
                Some(Ok((stored, total_samples, total_secs))) => {
                    self.phase = VoicePhase::Done {
                        stored: *stored,
                        total_samples: *total_samples,
                        total_secs: *total_secs,
                    };
                },
                Some(Err(msg)) => {
                    self.phase = VoicePhase::Failed(msg.clone());
                },
                None => {},
            },
            _ => {},
        }
    }

    /// Footer hint for the current phase.
    pub fn footer_hint(&self) -> (r: &'static str)
        ensures
            r@ == (match self@.phase {
                VoicePhaseView::Prompt => "[Enter] Record  [S] Skip"@,
                VoicePhaseView::Recording { .. } => "[Enter] Stop early"@,
                VoicePhaseView::Processing => "Learning your voice..."@,
                VoicePhaseView::Failed(_) => "[R] Retry  [Enter] Continue"@,
                VoicePhaseView::Done { .. } => "[Enter] Continue"@,
                VoicePhaseView::Skipped => "[Enter] Continue"@,
            }),
    {
        match &self.phase {
            VoicePhase::Prompt => "[Enter] Record  [S] Skip",
            VoicePhase::Recording { .. } => "[Enter] Stop early",
            VoicePhase::Processing => "Learning your voice...",
            VoicePhase::Failed(_) => "[R] Retry  [Enter] Continue",
            VoicePhase::Done { .. } => "[Enter] Continue",
            VoicePhase::Skipped => "[Enter] Continue",
        }
    }
}

// ─── The screen ──────────────────────────────────────────────────────────────

/// The first `n` lines of the script.
pub open spec fn script_lines(
    p: Seq<Seq<SpanView>>,
    script: Seq<Seq<char>>,
    n: nat,
) -> Seq<Seq<SpanView>>
    decreases n,
{
    if n == 0 {
        p
    } else {
        script_lines(p, script, (n - 1) as nat).push(
            seq![span("   "@ + script[n - 1], fg_bold(accent()))],
        )
    }
}

/// The width of the bars.
pub open spec fn voice_bar_width(width: int) -> int {
    at_most(at_least(monus(width, 12) as int, 10), 40)
}

/// `filled` of `width` cells.
pub open spec fn cells(full: char, empty: char, filled: int, width: int) -> Seq<char> {
    repeated(full, filled as nat) + repeated(empty, monus(width, filled))
}

impl VoiceView {
    /// Body lines for the current phase.
    pub open spec fn lines(self, width: int) -> Seq<Seq<SpanView>> {
        let script = script_for(self.name);
        match self.phase {
            VoicePhaseView::Prompt => script_lines(
                Seq::empty().push(
                    seq![span("Let Scriba learn your voice."@, fg(Color::White))],
                ).push(empty_line()).push(
                    seq![
                        span(
                            "Press Enter, then read this aloud (about 12 seconds):"@,
                            fg(Color::White),
                        ),
                    ],
                ).push(empty_line()),
                script,
                script.len(),
            ).push(empty_line()).push(
                seq![
                    span(
                        "Only a voiceprint is kept, never the audio. You can redo this in Settings."@,
                        fg(Color::Indexed(245)),
                    ),
                ],
            ),
            VoicePhaseView::Recording { elapsed, level, stop_at } => {
                let passed = at_most(elapsed as int, ENROLL_MS as int);
                let bar = voice_bar_width(width);
                script_lines(
                    Seq::empty().push(
                        seq![
                            span("\u{25CF} Recording "@, fg_bold(Color::Red)),
                            span(
                                if stop_at is Some {
                                    "finishing..."@
                                } else {
                                    decimal(((ENROLL_MS - passed + 999) / 1000) as nat) + "s left"@
                                },
                                fg(Color::White),
                            ),
                        ],
                    ).push(empty_line()),
                    script,
                    script.len(),
                ).push(empty_line()).push(
                    seq![
                        span("   time  "@, fg(Color::Indexed(245))),
                        span(
                            cells('\u{2593}', '\u{2591}', passed * bar / ENROLL_MS as int, bar),
                            fg(accent()),
                        ),
                    ],
                ).push(
                    seq![
                        span("   level "@, fg(Color::Indexed(245))),
                        span(
                            cells(
                                '\u{25AE}',
                                '\u{25AF}',
                                at_most(level * 4, 1_000_000) * bar / 1_000_000,
                                bar,
                            ),
                            fg(Color::Green),
                        ),
                    ],
                )
            },
            VoicePhaseView::Processing => seq![
                seq![span("Learning your voice..."@, fg(Color::White))],
                seq![
                    span(
                        "First time only: downloading the voice model (about 40 MB)."@,
                        fg(Color::Indexed(245)),
                    ),
                ],
            ],
            VoicePhaseView::Done { stored, total_samples, total_secs } => seq![
                seq![
                    span(
                        "\u{2713} Got it. Learned "@ + decimal(stored as nat)
                            + " sample(s) of your voice."@,
                        fg_bold(Color::Green),
                    ),
                ],
                seq![
                    span(
                        "Scriba now knows "@ + decimal(total_samples as nat) + " sample(s), "@ + (
                        decimal(total_secs as nat)
                            + "s in total, and keeps learning from your meetings."@),
                        fg(Color::Indexed(245)),
                    ),
                ],
            ],
            VoicePhaseView::Failed(msg) => seq![
                seq![span("\u{2717} Could not learn your voice."@, fg(Color::Red))],
                seq![span(msg, fg(Color::Indexed(245)))],
            ],
            VoicePhaseView::Skipped => seq![
                seq![
                    span(
                        "Skipped. You can teach Scriba your voice later in Settings."@,
                        fg(Color::Indexed(245)),
                    ),
                ],
            ],
        }
    }
}

fn bar_cells(full: char, empty: char, filled: usize, width: usize) -> (r: String)
    ensures
        r@ == cells(full, empty, filled as int, width as int),
{
    cat(
        repeat(full, filled).as_str(),
        repeat(empty, width.saturating_sub(filled)).as_str(),
    )
}

impl VoiceEnrollment {
    fn push_script(&self, page: &mut Page)
        ensures
            final(page)@ == script_lines(
                old(page)@,
                script_for(self@.name),
                script_for(self@.name).len(),
            ),
    {
        let script = self.script();
        let mut i: usize = 0;
        assert(texts(script@).len() == script@.len());
        while i < script.len()
            invariant
                i <= script@.len(),
                page@ == script_lines(old(page)@, texts(script@), i as nat),
            decreases script.len() - i,
        {
            page.line(cat("   ", script[i].as_str()).as_str(), fg_bold(accent()));
            i += 1;
        }
    }

    fn render_recording(&self, width: usize, elapsed: u64, level: u32, stopping: bool) -> (r: Page)
        requires
            self@.phase matches VoicePhaseView::Recording { elapsed: e, level: l, stop_at: s }
                && e == elapsed && l == level && (s is Some) == stopping,
        ensures
            r@ == self@.lines(width as int),
    {
        let passed = if elapsed < ENROLL_MS {
            elapsed
        } else {
            ENROLL_MS
        };
        let room = width.saturating_sub(12);
        let bar: usize = if room < 10 {
            10
        } else if room > 40 {
            40
        } else {
            room
        };
        let mut page = Page::new();
        let left = if stopping {
            "finishing...".to_owned()
        } else {
            cat(decimal_of((ENROLL_MS - passed + 999) / 1000).as_str(), "s left")
        };
        page.line2(
            "\u{25CF} Recording ",
            fg_bold(Color::Red),
            left.as_str(),
            fg(Color::White),
        );
        page.blank();
        self.push_script(&mut page);
        page.blank();
        assert(0 <= passed * bar <= ENROLL_MS * 40) by (nonlinear_arith)
            requires
                0 <= passed <= ENROLL_MS,
                0 <= bar <= 40,
        ;
        let filled = passed * (bar as u64) / ENROLL_MS;
        let time = bar_cells('\u{2593}', '\u{2591}', filled as usize, bar);
        page.line2("   time  ", fg(Color::Indexed(245)), time.as_str(), fg(accent()));
        let loud: u64 = if level as u64 * 4 < 1_000_000 {
            level as u64 * 4
        } else {
            1_000_000
        };
        assert(0 <= loud * bar <= 1_000_000 * 40) by (nonlinear_arith)
            requires
                0 <= loud <= 1_000_000,
                0 <= bar <= 40,
        ;
        let lit = loud * (bar as u64) / 1_000_000;
        let meter = bar_cells('\u{25AE}', '\u{25AF}', lit as usize, bar);
        page.line2("   level ", fg(Color::Indexed(245)), meter.as_str(), fg(Color::Green));
        page
    }

    /// Body lines for the current phase. `width` is the available columns.
    pub fn render_lines(&self, width: usize) -> (r: Page)
        ensures
            r@ == self@.lines(width as int),
    {
        let mut page = Page::new();
        match &self.phase {
            VoicePhase::Prompt => {
                page.line("Let Scriba learn your voice.", fg(Color::White));
                page.blank();
                page.line(
                    "Press Enter, then read this aloud (about 12 seconds):",
                    fg(Color::White),
                );
                page.blank();
                self.push_script(&mut page);
                page.blank();
                page.line(
                    "Only a voiceprint is kept, never the audio. You can redo this in Settings.",
                    fg(Color::Indexed(245)),
                );
            },
            VoicePhase::Recording { elapsed, level, stop_at } => {
                return self.render_recording(width, *elapsed, *level, stop_at.is_some());
            },
            VoicePhase::Processing => {
                page.line("Learning your voice...", fg(Color::White));
                page.line(
                    "First time only: downloading the voice model (about 40 MB).",
                    fg(Color::Indexed(245)),
                );
            },
            VoicePhase::Done { stored, total_samples, total_secs } => {
                let got = cat3(
                    "\u{2713} Got it. Learned ",
                    decimal_of(*stored as u64).as_str(),
                    " sample(s) of your voice.",
                );
                page.line(got.as_str(), fg_bold(Color::Green));
                let tail = cat(
                    decimal_of(*total_secs).as_str(),
                    "s in total, and keeps learning from your meetings.",
                );
                let knows = cat4(
                    "Scriba now knows ",
                    decimal_of(*total_samples as u64).as_str(),
                    " sample(s), ",
                    tail.as_str(),
                );
                page.line(knows.as_str(), fg(Color::Indexed(245)));
            },
            VoicePhase::Failed(msg) => {
                page.line("\u{2717} Could not learn your voice.", fg(Color::Red));
                page.line(msg.as_str(), fg(Color::Indexed(245)));
            },
            VoicePhase::Skipped => {
                page.line(
                    "Skipped. You can teach Scriba your voice later in Settings.",
                    fg(Color::Indexed(245)),
                );
            },
        }
        assert(page@ =~= self@.lines(width as int));
        page
    }
}

// ─── Laws ────────────────────────────────────────────────────────────────────

/// The recorder is told to stop once at most: after that neither a key nor a
/// frame tells it again.
pub proof fn stopped_once(v: VoiceView, key: Key, news: VoiceNews)
    requires
        v.phase matches VoicePhaseView::Recording { stop_at: Some(_), .. },
    ensures
        v.pressing(key).0 == v,
        v.ticking(news).errands == v.errands || v.ticking(news).errands == v.errands.push(
            VoiceErrand::Learn,
        ) || v.ticking(news).errands == v.errands.push(VoiceErrand::Abort),
{
}

/// A recording does not go on for ever: once the time to read and the grace
/// period are over, the next frames end it, whatever the recorder does.
pub proof fn recording_ends(v: VoiceView, later: u64, end: u64, first: VoiceNews, second: VoiceNews)
    requires
        v.phase matches VoicePhaseView::Recording { stop_at, .. } && (stop_at matches Some(at)
            ==> at <= later),
        later >= ENROLL_MS,
        end > later + STOP_GRACE_MS,
    ensures
        !(v.timed(later).ticking(first).timed(end).ticking(second).phase is Recording),
{
}

/// Enter does not stop a recording before enough was captured.
pub proof fn no_stop_too_early(v: VoiceView)
    requires
        v.phase matches VoicePhaseView::Recording { elapsed, .. } && elapsed < MIN_EARLY_STOP_MS,
    ensures
        v.pressing(Key::Enter) == (v, VoiceAction::Continue),
{
}

/// After a failure a retry begins where the first attempt did.
pub proof fn retry_starts_over(v: VoiceView)
    requires
        v.phase is Failed,
    ensures
        v.pressing(Key::Char('r')).0 == (VoiceView { phase: VoicePhaseView::Prompt, ..v }),
        v.pressing(Key::Char('R')).0 == (VoiceView { phase: VoicePhaseView::Prompt, ..v }),
{
}

/// The bars keep their width.
pub proof fn bars_keep_their_width(full: char, empty: char, filled: int, width: int)
    requires
        0 <= filled <= width,
    ensures
        cells(full, empty, filled, width).len() == width,
{
}

} // verus!
