//! The sample buffer: the recorded samples in the order of their ticks. It
//! only grows, by one sample a tick, until a reset empties it.

use vstd::prelude::*;

verus! {

/// One recorded sample: where the source was asked, and what it answered, a
/// fixed-point scalar kept as it came. A source answers in `-1 ..= 1` by
/// name only, and a reading outside is recorded like any other.
#[derive(Clone, Copy, Debug, PartialEq, Eq, Structural)]
pub struct Sample {
    pub position: u64,
    pub value: i32,
}

/// The recorded samples, oldest first.
pub struct SampleBuffer {
    samples: Vec<Sample>,
}

impl View for SampleBuffer {
    type V = Seq<Sample>;

    closed spec fn view(&self) -> Seq<Sample> {
        self.samples@
    }
}

/// The buffer after one more tick.
pub open spec fn ticked(samples: Seq<Sample>, sample: Sample) -> Seq<Sample> {
    samples.push(sample)
}

/// The buffer after one tick for each sample of `ticks`, in their order.
pub open spec fn ticked_all(samples: Seq<Sample>, ticks: Seq<Sample>) -> Seq<Sample>
    decreases ticks.len(),
{
    if ticks.len() == 0 {
        samples
    } else {
        ticked(ticked_all(samples, ticks.drop_last()), ticks.last())
    }
}

impl SampleBuffer {
    /// The number of samples, which is the number of ticks since the last
    /// reset.
    pub open spec fn spec_len(&self) -> nat {
        self@.len()
    }

    /// An empty buffer.
    pub fn new() -> (buffer: SampleBuffer)
        ensures
            buffer@ == Seq::<Sample>::empty(),
    {
        SampleBuffer { samples: Vec::new() }
    }

    /// One tick: records `reading`, taken at `position`, behind all earlier
    /// samples.
    pub fn tick(&mut self, position: u64, reading: i32)
        ensures
            final(self)@ == ticked(old(self)@, (Sample { position, value: reading })),
    {
        self.samples.push(Sample { position, value: reading });
    }

    /// Empties the buffer: the next tick records sample 0 again.
    pub fn reset(&mut self)
        ensures
            final(self)@ == Seq::<Sample>::empty(),
    {
        self.samples.clear();
    }

    /// The number of samples, which is the number of ticks since the last
    /// reset.
    pub fn len(&self) -> (n: usize)
        ensures
            n == self.spec_len(),
    {
        self.samples.len()
    }

    /// Whether no tick has happened since the last reset.
    pub fn is_empty(&self) -> (empty: bool)
        ensures
            empty == (self.spec_len() == 0),
    {
        self.samples.len() == 0
    }

    /// The sample of tick `index`; `None` if that tick has not happened.
    pub fn get(&self, index: usize) -> (sample: Option<Sample>)
        ensures
            sample == (if index < self.spec_len() {
                Some(self@[index as int])
            } else {
                None
            }),
    {
        if index < self.samples.len() {
            Some(self.samples[index])
        } else {
            None
        }
    }

    /// The newest sample.
    pub fn last(&self) -> (sample: Sample)
        requires
            self.spec_len() > 0,
        ensures
            sample == self@.last(),
    {
        self.samples[self.samples.len() - 1]
    }
}

/// Ticks only append: after any number of ticks the earlier samples stand
/// where they stood, and the new ones follow in the order of their ticks.
pub proof fn lemma_ticks_append(samples: Seq<Sample>, ticks: Seq<Sample>)
    ensures
        ticked_all(samples, ticks) == samples + ticks,
        ticked_all(samples, ticks).len() == samples.len() + ticks.len(),
    decreases ticks.len(),
{
    if ticks.len() > 0 {
        lemma_ticks_append(samples, ticks.drop_last());
        assert((samples + ticks.drop_last()).push(ticks.last()) =~= samples + ticks);
    } else {
        assert(samples + ticks =~= samples);
    }
}

/// After `n` ticks on an empty buffer it holds `n` samples, and sample `i` is
/// the one that tick `i` recorded: no gaps, nothing out of order.
pub proof fn lemma_ticks_fill_in_order(ticks: Seq<Sample>)
    ensures
        ticked_all(Seq::<Sample>::empty(), ticks) == ticks,
        ticked_all(Seq::<Sample>::empty(), ticks).len() == ticks.len(),
{
    lemma_ticks_append(Seq::<Sample>::empty(), ticks);
    assert(Seq::<Sample>::empty() + ticks =~= ticks);
}

} // verus!
