//! A bounded history of samples, oldest first.
//!
//! The buffer keeps the memory and the swap percentages in two sequences of
//! equal length. Its model is one sequence of samples; the two sequences
//! that a chart reads are projections of it.

use vstd::prelude::*;
use crate::percentage::Percentage;
use crate::sampler::Sample;

verus! {

/// The history after one more sample: `sample` goes to the end, and where
/// that makes more than `capacity` entries, the oldest entry leaves.
pub open spec fn pushed(history: Seq<Sample>, capacity: nat, sample: Sample) -> Seq<Sample> {
    if history.len() + 1 > capacity {
        history.push(sample).remove(0)
    } else {
        history.push(sample)
    }
}

/// The history after each of `samples` has been appended in turn.
pub open spec fn fed(history: Seq<Sample>, capacity: nat, samples: Seq<Sample>) -> Seq<Sample>
    decreases samples.len(),
{
    if samples.len() == 0 {
        history
    } else {
        pushed(fed(history, capacity, samples.drop_last()), capacity, samples.last())
    }
}

/// The smaller of two numbers.
pub open spec fn smaller(a: nat, b: nat) -> nat {
    if a <= b {
        a
    } else {
        b
    }
}

/// The last `count` entries of `samples`, in their order.
pub open spec fn newest(samples: Seq<Sample>, count: nat) -> Seq<Sample>
    recommends
        count <= samples.len(),
{
    samples.subrange(samples.len() - count, samples.len() as int)
}

/// The memory percentage of each sample.
pub open spec fn memory_of(samples: Seq<Sample>) -> Seq<Percentage> {
    Seq::new(samples.len(), |i: int| samples[i].memory)
}

/// The swap percentage of each sample.
pub open spec fn swap_of(samples: Seq<Sample>) -> Seq<Percentage> {
    Seq::new(samples.len(), |i: int| samples[i].swap)
}

/// A first-in, first-out buffer of at most `capacity` samples.
pub struct HistoryBuffer {
    memory: Vec<Percentage>,
    swap: Vec<Percentage>,
    capacity: usize,
}

impl View for HistoryBuffer {
    type V = Seq<Sample>;

    /// The samples held, oldest first.
    closed spec fn view(&self) -> Seq<Sample> {
        Seq::new(
            self.memory@.len(),
            |i: int| Sample { memory: self.memory@[i], swap: self.swap@[i] },
        )
    }
}

impl HistoryBuffer {
    /// Both sequences have one length, and it is at most the capacity.
    pub closed spec fn wf(&self) -> bool {
        &&& self.memory@.len() == self.swap@.len()
        &&& self.memory@.len() <= self.capacity
    }

    /// The most samples that the buffer keeps.
    pub closed spec fn spec_capacity(&self) -> nat {
        self.capacity as nat
    }

    /// `memory` and `swap` are what `snapshot` hands out for this buffer.
    pub open spec fn is_snapshot(&self, memory: Seq<Percentage>, swap: Seq<Percentage>) -> bool {
        &&& memory == memory_of(self@)
        &&& swap == swap_of(self@)
    }

    /// A well-formed buffer never holds more than its capacity.
    pub proof fn lemma_bounded(&self)
        requires
            self.wf(),
        ensures
            self@.len() <= self.spec_capacity(),
    {
    }

    /// An empty buffer that keeps at most `capacity` samples.
    pub fn new(capacity: usize) -> (h: HistoryBuffer)
        ensures
            h.wf(),
            h@ == Seq::<Sample>::empty(),
            h.spec_capacity() == capacity,
    {
        let h = HistoryBuffer { memory: Vec::new(), swap: Vec::new(), capacity };
        assert(h@ =~= Seq::<Sample>::empty());
        h
    }

    /// The most samples that the buffer keeps.
    pub fn capacity(&self) -> (c: usize)
        ensures
            c == self.spec_capacity(),
    {
        self.capacity
    }

    /// How many samples the buffer holds.
    pub fn len(&self) -> (n: usize)
        ensures
            n == self@.len(),
    {
        self.memory.len()
    }

    /// Whether the buffer holds no sample.
    pub fn is_empty(&self) -> (e: bool)
        ensures
            e == (self@.len() == 0),
    {
        self.memory.len() == 0
    }

    /// Appends one sample; where the buffer then holds more than its
    /// capacity, the oldest sample leaves.
    pub fn append(&mut self, sample: Sample)
        requires
            old(self).wf(),
        ensures
            final(self).wf(),
            final(self).spec_capacity() == old(self).spec_capacity(),
            final(self)@ == pushed(old(self)@, old(self).spec_capacity(), sample),
    {
        self.memory.push(sample.memory);
        self.swap.push(sample.swap);
        if self.memory.len() > self.capacity {
            self.memory.remove(0);
            self.swap.remove(0);
        }
        assert(self@ =~= pushed(old(self)@, old(self).spec_capacity(), sample));
    }

    /// The memory and the swap percentages held, each oldest first; the
    /// entries at one index belong to one sample.
    pub fn snapshot(&self) -> (r: (&Vec<Percentage>, &Vec<Percentage>))
        requires
            self.wf(),
        ensures
            self.is_snapshot(r.0@, r.1@),
            r.0@.len() == self@.len(),
            r.1@.len() == self@.len(),
    {
        assert(self.memory@ =~= memory_of(self@));
        assert(self.swap@ =~= swap_of(self@));
        (&self.memory, &self.swap)
    }
}

/// Appending to a history within its capacity keeps it within its capacity.
pub proof fn lemma_pushed_len(history: Seq<Sample>, capacity: nat, sample: Sample)
    requires
        history.len() <= capacity,
    ensures
        pushed(history, capacity, sample).len() == smaller(history.len() + 1, capacity),
{
}

/// After any run of appends, a history that began within its capacity holds
/// the newest samples of all that it has seen, as many as the capacity
/// allows, in the order in which they came.
pub proof fn lemma_fed_keeps_newest(history: Seq<Sample>, capacity: nat, samples: Seq<Sample>)
    requires
        history.len() <= capacity,
    ensures
        fed(history, capacity, samples).len() == smaller(history.len() + samples.len(), capacity),
        fed(history, capacity, samples) == newest(
            history + samples,
            smaller(history.len() + samples.len(), capacity),
        ),
    decreases samples.len(),
{
    let all = history + samples;
    if samples.len() == 0 {
        assert(all =~= history);
        assert(newest(all, history.len()) =~= history);
    } else {
        let earlier = samples.drop_last();
        lemma_fed_keeps_newest(history, capacity, earlier);
        let before = fed(history, capacity, earlier);
        assert(history + earlier =~= all.drop_last());
        assert(all.last() == samples.last());
        let kept = smaller(history.len() + samples.len(), capacity);
        assert(pushed(before, capacity, samples.last()) =~= newest(all, kept));
    }
}

/// Appending `samples` one by one to an empty buffer of capacity `capacity`
/// leaves the smaller of `samples.len()` and `capacity` entries: the last
/// ones of `samples`, in chronological order.
pub proof fn lemma_fed_from_empty(capacity: nat, samples: Seq<Sample>)
    ensures
        fed(Seq::empty(), capacity, samples).len() == smaller(samples.len(), capacity),
        fed(Seq::empty(), capacity, samples) == newest(
            samples,
            smaller(samples.len(), capacity),
        ),
{
    lemma_fed_keeps_newest(Seq::empty(), capacity, samples);
    assert(Seq::<Sample>::empty() + samples =~= samples);
}

/// Reading the buffer twice with no append in between gives the same two
/// sequences.
pub proof fn lemma_snapshot_repeatable(
    buffer: HistoryBuffer,
    first: (Seq<Percentage>, Seq<Percentage>),
    second: (Seq<Percentage>, Seq<Percentage>),
)
    requires
        buffer.is_snapshot(first.0, first.1),
        buffer.is_snapshot(second.0, second.1),
    ensures
        first == second,
{
}

} // verus!
