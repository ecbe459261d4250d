//! Transcriptions in the background: one runs, the others wait their turn.
use vstd::prelude::*;

use crate::config::{TranscriptionMode, TranscriptionView};
use crate::text::{option_text, same};

verus! {

/// What happens to a recording once it is there.
#[derive(Clone, Copy, Debug, PartialEq, Eq, Structural)]
pub enum RecordingMode {
    RecordAndTranscribe,
}

/// A transcription that waits.
#[derive(Debug)]
pub enum PendingTranscription {
    Retranscribe { recording_name: String, transcription_mode: TranscriptionMode },
    Import { source_path: String, display_name: String, transcription_mode: TranscriptionMode },
}

pub enum PendingView {
    Retranscribe { recording_name: Seq<char>, transcription_mode: TranscriptionView },
    Import {
        source_path: Seq<char>,
        display_name: Seq<char>,
        transcription_mode: TranscriptionView,
    },
}

impl View for PendingTranscription {
    type V = PendingView;

    open spec fn view(&self) -> PendingView {
        match *self {
            PendingTranscription::Retranscribe { recording_name, transcription_mode } =>
                PendingView::Retranscribe {
                recording_name: recording_name@,
                transcription_mode: transcription_mode@,
            },
            PendingTranscription::Import { source_path, display_name, transcription_mode } =>
                PendingView::Import {
                source_path: source_path@,
                display_name: display_name@,
                transcription_mode: transcription_mode@,
            },
        }
    }
}

impl PendingView {
    /// The name of the recording that it is about.
    pub open spec fn name(self) -> Seq<char> {
        match self {
            PendingView::Retranscribe { recording_name, .. } => recording_name,
            PendingView::Import { display_name, .. } => display_name,
        }
    }
}

impl PendingTranscription {
    /// The name of the recording that it is about.
    pub fn recording_name(&self) -> (r: &str)
        ensures
            r@ == self@.name(),
    {
        match self {
            PendingTranscription::Retranscribe { recording_name, .. } => recording_name.as_str(),
            PendingTranscription::Import { display_name, .. } => display_name.as_str(),
        }
    }
}

pub open spec fn pending_views(v: Seq<PendingTranscription>) -> Seq<PendingView> {
    Seq::new(v.len(), |i: int| v[i]@)
}

pub open spec fn option_pending(p: Option<PendingTranscription>) -> Option<PendingView> {
    match p {
        Some(x) => Some(x@),
        None => None,
    }
}

/// The transcriptions.
#[derive(Debug)]
pub struct Jobs {
    /// The name of the recording that is being transcribed.
    pub active: Option<String>,
    /// What waits, oldest first.
    pub queue: Vec<PendingTranscription>,
    /// The frame of the animation.
    pub progress_frame: usize,
}

pub struct JobsView {
    pub active: Option<Seq<char>>,
    pub queue: Seq<PendingView>,
    pub progress_frame: usize,
}

impl View for Jobs {
    type V = JobsView;

    open spec fn view(&self) -> JobsView {
        JobsView {
            active: option_text(self.active),
            queue: pending_views(self.queue@),
            progress_frame: self.progress_frame,
        }
    }
}

impl JobsView {
    /// A transcription of this recording waits.
    pub open spec fn waits(self, name: Seq<char>) -> bool {
        exists|i: int| 0 <= i < self.queue.len() && #[trigger] self.queue[i].name() == name
    }

    /// A transcription of this recording runs or waits.
    pub open spec fn busy_with(self, name: Seq<char>) -> bool {
        self.active == Some(name) || self.waits(name)
    }

    /// The oldest transcription starts, if none runs: it is returned.
    pub open spec fn draining(self) -> (JobsView, Option<PendingView>) {
        if self.active is Some || self.queue.len() == 0 {
            (self, None)
        } else {
            (
                JobsView {
                    active: Some(self.queue[0].name()),
                    queue: self.queue.subrange(1, self.queue.len() as int),
                    progress_frame: 0,
                },
                Some(self.queue[0]),
            )
        }
    }

    /// One more transcription, unless there is one of the same recording.
    pub open spec fn enqueuing(self, p: PendingView) -> (JobsView, Option<PendingView>) {
        if self.busy_with(p.name()) {
            (self, None)
        } else {
            (JobsView { queue: self.queue.push(p), ..self }).draining()
        }
    }

    /// The running transcription has ended.
    pub open spec fn finishing(self) -> (JobsView, Option<PendingView>) {
        (JobsView { active: None, ..self }).draining()
    }

    /// No recording is transcribed twice at a time.
    pub open spec fn distinct(self) -> bool {
        &&& forall|i: int, j: int|
            0 <= i < j < self.queue.len() ==> (#[trigger] self.queue[i]).name() != (
            #[trigger] self.queue[j]).name()
        &&& self.active matches Some(name) ==> !self.waits(name)
    }
}

impl Jobs {
    /// No transcription.
    pub fn new() -> (r: Jobs)
        ensures
            r@ == (JobsView { active: None, queue: Seq::empty(), progress_frame: 0 }),
    {
        let r = Jobs { active: None, queue: Vec::new(), progress_frame: 0 };
        assert(r@.queue =~= Seq::<PendingView>::empty());
        r
    }

    pub fn has_active_transcription(&self) -> (r: bool)
        ensures
            r == self@.active is Some,
    {
        self.active.is_some()
    }

    /// Whether a transcription of this recording runs.
    pub fn is_active(&self, dir_name: &str) -> (r: bool)
        ensures
            r == (self@.active == Some(dir_name@)),
    {
        match &self.active {
            Some(name) => same(name.as_str(), dir_name),
            None => false,
        }
    }

    /// Whether a transcription of this recording waits.
    pub fn is_queued(&self, dir_name: &str) -> (r: bool)
        ensures
            r == self@.waits(dir_name@),
    {
        let mut i: usize = 0;
        while i < self.queue.len()
            invariant
                i <= self.queue@.len(),
                forall|j: int| 0 <= j < i ==> #[trigger] self@.queue[j].name() != dir_name@,
            decreases self.queue.len() - i,
        {
            assert(self@.queue[i as int] == self.queue@[i as int]@);
            if same(self.queue[i].recording_name(), dir_name) {
                assert(self@.queue[i as int].name() == dir_name@);
                return true;
            }
            i += 1;
        }
        false
    }

    pub fn is_transcription_pending_or_active(&self, dir_name: &str) -> (r: bool)
        ensures
            r == self@.busy_with(dir_name@),
    {
        self.is_active(dir_name) || self.is_queued(dir_name)
    }

    /// The oldest transcription starts, if none runs: it is returned.
    pub fn drain_transcription_queue(&mut self) -> (r: Option<PendingTranscription>)
        ensures
            (final(self)@, option_pending(r)) == old(self)@.draining(),
    {
        if self.active.is_some() || self.queue.len() == 0 {
            return None;
        }
        let ghost before = self@.queue;
        let pending = self.queue.remove(0);
        proof {
            assert(before[0] == pending@);
            assert(self@.queue =~= before.subrange(1, before.len() as int));
        }
        self.active = Some(pending.recording_name().to_owned());
        self.progress_frame = 0;
        Some(pending)
    }

    /// One more transcription, unless there is one of the same recording. The
    /// one that starts now is returned.
    pub fn enqueue_transcription(&mut self, pending: PendingTranscription) -> (r: Option<
        PendingTranscription,
    >)
        ensures
            (final(self)@, option_pending(r)) == old(self)@.enqueuing(pending@),
    {
        if self.is_transcription_pending_or_active(pending.recording_name()) {
            return None;
        }
        let ghost before = self@;
        self.queue.push(pending);
        assert(self@.queue =~= before.queue.push(pending@));
        self.drain_transcription_queue()
    }

    /// The running transcription has ended. The one that starts now is
    /// returned.
    pub fn finish_transcription(&mut self) -> (r: Option<PendingTranscription>)
        ensures
            (final(self)@, option_pending(r)) == old(self)@.finishing(),
    {
        self.active = None;
        self.drain_transcription_queue()
    }
}

// ─── Laws ────────────────────────────────────────────────────────────────────

proof fn draining_keeps_distinct(v: JobsView)
    requires
        v.distinct(),
    ensures
        v.draining().0.distinct(),
{
    let next = v.draining().0;
    if v.active is None && v.queue.len() > 0 {
        assert forall|i: int, j: int| 0 <= i < j < next.queue.len() implies (
        #[trigger] next.queue[i]).name() != (#[trigger] next.queue[j]).name() by {
            assert(next.queue[i] == v.queue[i + 1]);
            assert(next.queue[j] == v.queue[j + 1]);
        }
        if next.waits(v.queue[0].name()) {
            let i = choose|i: int|
                0 <= i < next.queue.len() && #[trigger] next.queue[i].name() == v.queue[0].name();
            assert(next.queue[i] == v.queue[i + 1]);
            assert(v.queue[0].name() != v.queue[i + 1].name());
        }
    }
}

/// Whatever is asked for and whatever ends, no recording is transcribed twice
/// at a time.
pub proof fn jobs_stay_distinct(v: JobsView, p: PendingView)
    requires
        v.distinct(),
    ensures
        v.draining().0.distinct(),
        v.enqueuing(p).0.distinct(),
        v.finishing().0.distinct(),
{
    draining_keeps_distinct(v);
    draining_keeps_distinct(JobsView { active: None, ..v });
    if !v.busy_with(p.name()) {
        let more = JobsView { queue: v.queue.push(p), ..v };
        assert forall|i: int, j: int| 0 <= i < j < more.queue.len() implies (
        #[trigger] more.queue[i]).name() != (#[trigger] more.queue[j]).name() by {
            assert(more.queue[i] == v.queue[i]);
            if j < v.queue.len() {
                assert(more.queue[j] == v.queue[j]);
            }
        }
        if v.active is Some && more.waits(v.active->Some_0) {
            let i = choose|i: int|
                0 <= i < more.queue.len() && #[trigger] more.queue[i].name() == v.active->Some_0;
            if i < v.queue.len() {
                assert(v.queue[i].name() == v.active->Some_0);
            }
        }
        draining_keeps_distinct(more);
    }
}

/// What was asked for is not lost: afterwards it runs or waits.
pub proof fn requests_are_kept(v: JobsView, p: PendingView)
    ensures
        v.enqueuing(p).0.busy_with(p.name()),
{
    if !v.busy_with(p.name()) {
        let more = JobsView { queue: v.queue.push(p), ..v };
        let n = v.queue.len() as int;
        assert(more.queue[n] == p);
        let next = more.draining().0;
        if v.active is Some {
            assert(next.queue[n].name() == p.name());
        } else if n > 0 {
            assert(next.queue[n - 1] == more.queue[n]);
            assert(next.queue[n - 1].name() == p.name());
        }
    }
}

/// First come, first served: the next one is the oldest, and the others keep
/// their order.
pub proof fn first_come_first_served(v: JobsView)
    requires
        v.queue.len() > 0,
    ensures
        v.finishing().1 == Some(v.queue[0]),
        v.finishing().0.active == Some(v.queue[0].name()),
        seq![v.queue[0]] + v.finishing().0.queue == v.queue,
{
    assert(seq![v.queue[0]] + v.finishing().0.queue =~= v.queue);
}

/// The queue never stands still: while something waits, something runs.
pub proof fn no_idle_queue(v: JobsView, p: PendingView)
    requires
        v.queue.len() > 0 ==> v.active is Some,
    ensures
        v.enqueuing(p).0.queue.len() > 0 ==> v.enqueuing(p).0.active is Some,
        v.finishing().0.queue.len() > 0 ==> v.finishing().0.active is Some,
{
}

} // verus!
