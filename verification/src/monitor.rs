//! The monitor's state and what one tick does to it.

use vstd::prelude::*;
use crate::alarm::{AlarmEvaluator, UsageLevel};
use crate::glitch::{draw_glitch_effect, generate_glitch_text, is_glitch_of};
use crate::history::{pushed, HistoryBuffer};
use crate::percentage::Percentage;
use crate::sampler::{sample, sample_of, MemoryReading, Sample};

verus! {

/// How many samples a monitor keeps unless told otherwise.
pub const MAX_HISTORY: usize = 100;

/// The pause between two ticks, in milliseconds.
pub const TICK_MILLIS: u64 = 500;

/// What is owned from tick to tick.
pub struct MemoryMonitor {
    /// The samples of the last ticks, oldest first.
    pub history: HistoryBuffer,
    /// Whether the last tick showed the glitch effect.
    pub glitch_effect: bool,
    /// Whether memory use was critical at the last tick.
    pub critical_alarm: bool,
}

/// What one tick hands to whoever draws it. The history is read from the
/// monitor.
#[derive(Clone, Copy, Debug, PartialEq, Eq)]
pub struct RenderModel {
    pub memory_percentage: Percentage,
    pub swap_percentage: Percentage,
    pub alarm: bool,
    pub level: UsageLevel,
    pub glitch_effect: bool,
    pub total_memory_bytes: u64,
    pub used_memory_bytes: u64,
}

/// The model of a tick that read `reading`, with or without glitch effect.
pub open spec fn model_of(reading: MemoryReading, glitch: bool) -> RenderModel {
    RenderModel {
        memory_percentage: sample_of(reading).memory,
        swap_percentage: sample_of(reading).swap,
        alarm: AlarmEvaluator::is_critical(sample_of(reading).memory),
        level: AlarmEvaluator::level_of(sample_of(reading).memory),
        glitch_effect: glitch,
        total_memory_bytes: reading.total_memory,
        used_memory_bytes: reading.used_memory,
    }
}

impl MemoryMonitor {
    /// The history is well-formed.
    pub open spec fn wf(&self) -> bool {
        self.history.wf()
    }

    /// `self` is `before` after one tick that read `reading`, with or
    /// without glitch effect: the sample of the reading is appended to the
    /// history, and the two flags are those of this tick.
    pub open spec fn follows(&self, before: &MemoryMonitor, reading: MemoryReading, glitch: bool) -> bool {
        &&& self.wf()
        &&& self.history.spec_capacity() == before.history.spec_capacity()
        &&& self.history@ == pushed(
            before.history@,
            before.history.spec_capacity(),
            sample_of(reading),
        )
        &&& self.glitch_effect == glitch
        &&& self.critical_alarm == AlarmEvaluator::is_critical(sample_of(reading).memory)
    }

    /// A monitor with an empty history of `MAX_HISTORY` samples and both
    /// flags off.
    pub fn new() -> (m: MemoryMonitor)
        ensures
            m.wf(),
            m.history@ == Seq::<Sample>::empty(),
            m.history.spec_capacity() == MAX_HISTORY,
            !m.glitch_effect,
            !m.critical_alarm,
    {
        Self::with_capacity(MAX_HISTORY)
    }

    /// A monitor with an empty history of `capacity` samples and both flags
    /// off.
    pub fn with_capacity(capacity: usize) -> (m: MemoryMonitor)
        ensures
            m.wf(),
            m.history@ == Seq::<Sample>::empty(),
            m.history.spec_capacity() == capacity,
            !m.glitch_effect,
            !m.critical_alarm,
    {
        MemoryMonitor {
            history: HistoryBuffer::new(capacity),
            glitch_effect: false,
            critical_alarm: false,
        }
    }

    /// One tick on a reading that was taken and a glitch draw that was made:
    /// samples the reading, appends the sample to the history, and sets the
    /// alarm from this sample alone.
    pub fn tick(&mut self, reading: MemoryReading, glitch: bool) -> (model: RenderModel)
        requires
            old(self).wf(),
        ensures
            final(self).follows(old(self), reading, glitch),
            model == model_of(reading, glitch),
            model.memory_percentage@ == Percentage::kept(reading.used_memory, reading.total_memory),
            model.swap_percentage@ == Percentage::kept(reading.used_swap, reading.total_swap),
    {
        let latest = sample(reading);
        self.history.append(latest);
        self.glitch_effect = glitch;
        self.critical_alarm = AlarmEvaluator::evaluate(latest.memory);
        RenderModel {
            memory_percentage: latest.memory,
            swap_percentage: latest.swap,
            alarm: self.critical_alarm,
            level: AlarmEvaluator::level(latest.memory),
            glitch_effect: glitch,
            total_memory_bytes: reading.total_memory,
            used_memory_bytes: reading.used_memory,
        }
    }

    /// One tick on a reading that was taken: draws whether this tick shows
    /// the glitch effect, and does the rest as `tick` does. Whatever was
    /// drawn, the monitor's flag and the model's agree on it.
    pub fn update(&mut self, reading: MemoryReading) -> (model: RenderModel)
        requires
            old(self).wf(),
        ensures
            final(self).follows(old(self), reading, model.glitch_effect),
            model == model_of(reading, model.glitch_effect),
            model.memory_percentage@ == Percentage::kept(reading.used_memory, reading.total_memory),
            model.swap_percentage@ == Percentage::kept(reading.used_swap, reading.total_swap),
    {
        let glitch = draw_glitch_effect();
        self.tick(reading, glitch)
    }

    /// `text` with some of its characters replaced by chance, each by a
    /// symbol of the glitch alphabet.
    pub fn generate_glitch_text(&self, text: &str) -> (out: String)
        ensures
            is_glitch_of(out@, text@),
    {
        generate_glitch_text(text)
    }
}

} // verus!
