//! State of the one active job: the phased synthesize → playback →
//! recognize pipeline.

use vstd::prelude::*;
use vstd::slice::{slice_index_get, slice_subrange};

verus! {

/// The stage the active job is in. `Idle` means no job is running.
#[derive(Clone, Copy, Debug, PartialEq, Eq, Structural)]
pub enum Phase {
    Synthesize,
    Playback,
    Recognize,
    Idle,
}

/// Sum of a sequence of segment lengths.
pub open spec fn sum_of(s: Seq<int>) -> int
    decreases s.len(),
{
    if s.len() == 0 {
        0
    } else {
        sum_of(s.drop_last()) + s.last()
    }
}

/// Appending one length adds it to the sum.
pub proof fn lemma_sum_push(s: Seq<int>, x: int)
    ensures
        sum_of(s.push(x)) == sum_of(s) + x,
{
    assert(s.push(x).drop_last() =~= s);
}

/// The accumulated history only grows within a job: recording one more
/// segment adds exactly its length to the sum of segment lengths, so the
/// history length, which always equals that sum, never decreases.
pub proof fn lemma_history_monotone(lens: Seq<int>, n: int)
    requires
        n >= 0,
    ensures
        sum_of(lens.push(n)) >= sum_of(lens),
{
    lemma_sum_push(lens, n);
}

/// A sum of non-negative lengths is at least its last summand.
pub proof fn lemma_sum_bounds(s: Seq<int>)
    requires
        forall|i: int| 0 <= i < s.len() ==> s[i] >= 0,
    ensures
        sum_of(s) >= 0,
        s.len() > 0 ==> sum_of(s) >= s.last(),
    decreases s.len(),
{
    if s.len() > 0 {
        lemma_sum_bounds(s.drop_last());
    }
}

/// The state of the active job. The sample history `wav` accumulates every
/// segment a synthesize step produced since the job started;
/// `last_frame_len` is the length of the most recent segment, which is the
/// only part playback and recognition touch.
pub struct LoopState {
    pub phase: Phase,
    pub text: String,
    pub wav: Vec<i16>,
    pub last_frame_len: usize,
    pub remaining_iters: usize,
    /// The length of each segment appended so far, oldest first.
    pub segment_lens: Ghost<Seq<int>>,
}

/// The job state at the spec level.
pub struct WorkView {
    pub phase: Phase,
    pub text: Seq<char>,
    pub wav: Seq<i16>,
    pub last_frame_len: int,
    pub remaining_iters: int,
}

impl View for LoopState {
    type V = WorkView;

    open spec fn view(&self) -> WorkView {
        WorkView {
            phase: self.phase,
            text: self.text@,
            wav: self.wav@,
            last_frame_len: self.last_frame_len as int,
            remaining_iters: self.remaining_iters as int,
        }
    }
}

impl LoopState {
    /// The sample history is exactly the segments produced so far, in
    /// order: its length is the sum of the per-iteration segment lengths,
    /// and the most recent segment is a suffix of it.
    pub open spec fn wf(&self) -> bool {
        &&& self.wav@.len() == sum_of(self.segment_lens@)
        &&& if self.segment_lens@.len() == 0 {
            self.last_frame_len == 0
        } else {
            self.last_frame_len == self.segment_lens@.last()
        }
        &&& forall|i: int| 0 <= i < self.segment_lens@.len() ==> #[trigger] self.segment_lens@[i]
            >= 0
    }

    /// No job running, empty history.
    pub fn new() -> (r: LoopState)
        ensures
            r@.phase is Idle,
            r@.text == Seq::<char>::empty(),
            r@.wav == Seq::<i16>::empty(),
            r@.last_frame_len == 0,
            r@.remaining_iters == 0,
            r.segment_lens@ == Seq::<int>::empty(),
            r.wf(),
    {
        LoopState {
            phase: Phase::Idle,
            text: String::new(),
            wav: Vec::new(),
            last_frame_len: 0,
            remaining_iters: 0,
            segment_lens: Ghost(Seq::empty()),
        }
    }

    /// A fresh job over `text`, about to synthesize its first segment.
    pub fn start_job(text: String, iterations: usize) -> (r: LoopState)
        ensures
            r@.phase is Synthesize,
            r@.text == text@,
            r@.wav == Seq::<i16>::empty(),
            r@.last_frame_len == 0,
            r@.remaining_iters == iterations,
            r.segment_lens@ == Seq::<int>::empty(),
            r.wf(),
    {
        LoopState {
            phase: Phase::Synthesize,
            text,
            wav: Vec::new(),
            last_frame_len: 0,
            remaining_iters: iterations,
            segment_lens: Ghost(Seq::empty()),
        }
    }

    /// The most recent segment: the suffix of the history produced by the
    /// last synthesize step.
    pub fn last_frame(&self) -> (r: &[i16])
        requires
            self.wf(),
        ensures
            r@ == self@.wav.subrange(self@.wav.len() - self@.last_frame_len, self@.wav.len() as int),
    {
        proof {
            lemma_sum_bounds(self.segment_lens@);
        }
        let frame_start = self.wav.len() - self.last_frame_len;
        slice_subrange(self.wav.as_slice(), frame_start, self.wav.len())
    }

    /// Whether no job is running.
    pub fn is_finished(&self) -> (r: bool)
        ensures
            r == (self@.phase is Idle),
    {
        match self.phase {
            Phase::Synthesize | Phase::Recognize | Phase::Playback => false,
            Phase::Idle => true,
        }
    }

    /// Stop the job, keeping the history accumulated so far.
    pub fn set_finished(&mut self)
        ensures
            final(self)@ == (WorkView { phase: Phase::Idle, ..old(self)@ }),
            final(self).segment_lens@ == old(self).segment_lens@,
            old(self).wf() ==> final(self).wf(),
    {
        self.phase = Phase::Idle;
    }

    /// Append one synthesized segment to the history and record it as the
    /// most recent frame.
    pub fn append_segment(&mut self, segment: &[i16])
        requires
            old(self).wf(),
            old(self)@.wav.len() + segment@.len() <= usize::MAX,
        ensures
            final(self)@.wav == old(self)@.wav + segment@,
            final(self)@.last_frame_len == segment@.len(),
            final(self)@.phase == old(self)@.phase,
            final(self)@.text == old(self)@.text,
            final(self)@.remaining_iters == old(self)@.remaining_iters,
            final(self).segment_lens@ == old(self).segment_lens@.push(segment@.len() as int),
            final(self).wf(),
    {
        let ghost orig = self.wav@;
        let mut i: usize = 0;
        while i < segment.len()
            invariant
                0 <= i <= segment@.len(),
                orig.len() + segment@.len() <= usize::MAX,
                self.wav@ == orig + segment@.subrange(0, i as int),
                self.phase == old(self).phase,
                self.text == old(self).text,
                self.last_frame_len == old(self).last_frame_len,
                self.remaining_iters == old(self).remaining_iters,
                self.segment_lens@ == old(self).segment_lens@,
            decreases segment@.len() - i,
        {
            let sample = *slice_index_get(segment, i);
            self.wav.push(sample);
            proof {
                assert(orig + segment@.subrange(0, i as int) + seq![segment@[i as int]] =~= orig
                    + segment@.subrange(0, i + 1));
            }
            i = i + 1;
        }
        proof {
            assert(orig + segment@.subrange(0, segment@.len() as int) =~= orig + segment@);
        }
        self.last_frame_len = segment.len();
        proof {
            self.segment_lens@ = self.segment_lens@.push(segment@.len() as int);
            lemma_sum_push(old(self).segment_lens@, segment@.len() as int);
        }
    }
}

} // verus!
