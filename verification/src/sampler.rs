//! From raw memory counters to a sample of two percentages.

use vstd::prelude::*;
use crate::percentage::Percentage;

verus! {

/// The four counters that a metrics source reports, in bytes.
#[derive(Clone, Copy, Debug, PartialEq, Eq)]
pub struct MemoryReading {
    pub total_memory: u64,
    pub used_memory: u64,
    pub total_swap: u64,
    pub used_swap: u64,
}

/// What one tick records: how full memory and swap are.
#[derive(Clone, Copy, Debug, PartialEq, Eq)]
pub struct Sample {
    pub memory: Percentage,
    pub swap: Percentage,
}

/// The sample of a reading: memory is `used_memory` of `total_memory`, swap
/// is `used_swap` of `total_swap`, and a total of zero gives zero percent.
pub open spec fn sample_of(reading: MemoryReading) -> Sample {
    Sample {
        memory: Percentage::spec_of(reading.used_memory, reading.total_memory),
        swap: Percentage::spec_of(reading.used_swap, reading.total_swap),
    }
}

/// Turns the counters of one reading into percentages.
pub fn sample(reading: MemoryReading) -> (s: Sample)
    ensures
        s == sample_of(reading),
        s.memory@ == Percentage::kept(reading.used_memory, reading.total_memory),
        s.swap@ == Percentage::kept(reading.used_swap, reading.total_swap),
        reading.total_swap == 0 ==> s.swap.is_zero(),
{
    Sample {
        memory: Percentage::of(reading.used_memory, reading.total_memory),
        swap: Percentage::of(reading.used_swap, reading.total_swap),
    }
}

/// Without swap space the swap percentage is zero, whatever else is read.
pub proof fn lemma_no_swap_is_zero(reading: MemoryReading)
    requires
        reading.total_swap == 0,
    ensures
        sample_of(reading).swap.is_zero(),
{
    Percentage::lemma_spec_of(reading.used_swap, reading.total_swap);
}

/// Where no more is used than there is, both percentages lie between 0 and
/// 100.
pub proof fn lemma_sample_in_range(reading: MemoryReading)
    requires
        reading.used_memory <= reading.total_memory,
        reading.used_swap <= reading.total_swap,
    ensures
        sample_of(reading).memory.in_range(),
        sample_of(reading).swap.in_range(),
{
    Percentage::lemma_spec_of(reading.used_memory, reading.total_memory);
    Percentage::lemma_spec_of(reading.used_swap, reading.total_swap);
}

} // verus!
