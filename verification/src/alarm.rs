//! When memory use counts as critical.

use vstd::prelude::*;
use crate::percentage::Percentage;

verus! {

/// Memory use above this many percent is critical.
pub const CRITICAL_PERCENT: u64 = 90;

/// Memory use above this many percent, and not critical, is elevated.
pub const ELEVATED_PERCENT: u64 = 70;

/// How memory use is to be shown.
#[derive(Clone, Copy, Debug, PartialEq, Eq)]
pub enum UsageLevel {
    /// At most `ELEVATED_PERCENT`.
    Normal,
    /// Above `ELEVATED_PERCENT`, at most `CRITICAL_PERCENT`.
    Elevated,
    /// Above `CRITICAL_PERCENT`.
    Critical,
}

/// Decides the alarm from the latest memory percentage alone.
pub struct AlarmEvaluator;

impl AlarmEvaluator {
    /// Memory use is critical where it is strictly above `CRITICAL_PERCENT`.
    pub open spec fn is_critical(latest_memory: Percentage) -> bool {
        latest_memory.exceeds(CRITICAL_PERCENT as nat)
    }

    /// The level of a memory percentage.
    pub open spec fn level_of(latest_memory: Percentage) -> UsageLevel {
        if latest_memory.exceeds(CRITICAL_PERCENT as nat) {
            UsageLevel::Critical
        } else if latest_memory.exceeds(ELEVATED_PERCENT as nat) {
            UsageLevel::Elevated
        } else {
            UsageLevel::Normal
        }
    }

    /// Whether the alarm is on: the latest memory percentage is strictly
    /// above `CRITICAL_PERCENT`. At exactly that percentage it is off.
    pub fn evaluate(latest_memory: Percentage) -> (alarm: bool)
        ensures
            alarm == Self::is_critical(latest_memory),
            alarm <==> latest_memory.part() * 100 > 90 * latest_memory.whole(),
            latest_memory.part() * 100 == 90 * latest_memory.whole() ==> !alarm,
    {
        latest_memory.is_above(CRITICAL_PERCENT)
    }

    /// The level at which the latest memory percentage is shown.
    pub fn level(latest_memory: Percentage) -> (level: UsageLevel)
        ensures
            level == Self::level_of(latest_memory),
            (level == UsageLevel::Critical) == Self::is_critical(latest_memory),
    {
        if latest_memory.is_above(CRITICAL_PERCENT) {
            UsageLevel::Critical
        } else if latest_memory.is_above(ELEVATED_PERCENT) {
            UsageLevel::Elevated
        } else {
            UsageLevel::Normal
        }
    }
}

} // verus!
