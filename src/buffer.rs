//! The session buffer: every sample of the capture session, in arrival order.
use vstd::prelude::*;

verus! {

/// Append-only store of the samples of one session. Samples are kept as read;
/// their normalized value (the sample over `i16::MAX`) is a function of each
/// sample alone, taken when the buffer is handed to transcription.
pub struct SessionBuffer {
    samples: Vec<i16>,
}

impl View for SessionBuffer {
    type V = Seq<i16>;

    closed spec fn view(&self) -> Seq<i16> {
        self.samples@
    }
}

/// The samples of `frames`, one frame after the other.
pub open spec fn joined(frames: Seq<Seq<i16>>) -> Seq<i16>
    decreases frames.len(),
{
    if frames.len() == 0 {
        Seq::empty()
    } else {
        joined(frames.drop_last()) + frames.last()
    }
}

/// After `n` frames of `f` samples each, the buffer holds `n * f` samples,
/// whatever the frames were classified as.
pub proof fn lemma_joined_len(frames: Seq<Seq<i16>>, f: nat)
    requires
        forall|i: int| 0 <= i < frames.len() ==> (#[trigger] frames[i]).len() == f,
    ensures
        joined(frames).len() == frames.len() * f,
    decreases frames.len(),
{
    if frames.len() > 0 {
        let prev = frames.drop_last();
        assert forall|i: int| 0 <= i < prev.len() implies (#[trigger] prev[i]).len() == f by {
            assert(prev[i] == frames[i]);
        }
        lemma_joined_len(prev, f);
        assert(frames.last() == frames[frames.len() - 1]);
        assert(prev.len() * f + f == frames.len() * f) by (nonlinear_arith)
            requires
                prev.len() + 1 == frames.len(),
        ;
    }
}

impl SessionBuffer {
    /// An empty buffer.
    pub fn new() -> (r: SessionBuffer)
        ensures
            r@ == Seq::<i16>::empty(),
    {
        SessionBuffer { samples: Vec::new() }
    }

    /// Appends the samples of `frame`, in order.
    pub fn ingest(&mut self, frame: &[i16])
        ensures
            final(self)@ == old(self)@ + frame@,
    {
        let mut i: usize = 0;
        while i < frame.len()
            invariant
                i <= frame@.len(),
                self@ == old(self)@ + frame@.subrange(0, i as int),
            decreases frame@.len() - i,
        {
            self.samples.push(frame[i]);
            i = i + 1;
            assert(frame@.subrange(0, i as int) =~= frame@.subrange(0, i - 1).push(frame@[i - 1]));
        }
        assert(frame@.subrange(0, i as int) =~= frame@);
    }

    /// Number of samples held.
    pub fn len(&self) -> (r: usize)
        ensures
            r == self@.len(),
    {
        self.samples.len()
    }

    /// The samples held, in arrival order.
    pub fn samples(&self) -> (r: &[i16])
        ensures
            r@ == self@,
    {
        self.samples.as_slice()
    }
}

} // verus!
