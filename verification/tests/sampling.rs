use memory_monitor::alarm::{AlarmEvaluator, UsageLevel, CRITICAL_PERCENT, ELEVATED_PERCENT};
use memory_monitor::percentage::Percentage;
use memory_monitor::sampler::{sample, MemoryReading};

fn reading(total_memory: u64, used_memory: u64, total_swap: u64, used_swap: u64) -> MemoryReading {
    MemoryReading { total_memory, used_memory, total_swap, used_swap }
}

#[test]
fn ninety_five_percent_raises_the_alarm() {
    let s = sample(reading(1000, 950, 0, 0));
    assert_eq!(s.memory.ratio(), (950, 1000));
    assert_eq!(s.memory, Percentage::of(950, 1000));
    assert_eq!(s.memory.floor_of_quotient(1), 95);
    assert!(AlarmEvaluator::evaluate(s.memory));
    assert_eq!(AlarmEvaluator::level(s.memory), UsageLevel::Critical);
}

#[test]
fn no_swap_space_is_zero_percent() {
    let s = sample(reading(1000, 950, 0, 0));
    assert_eq!(s.swap, Percentage::zero());
    assert_eq!(s.swap.ratio(), (0, 1));
    assert_eq!(s.swap.floor_of_quotient(1), 0);
    assert!(!s.swap.is_above(0));
}

#[test]
fn no_swap_space_ignores_used_swap() {
    for used in [0u64, 1, 77, u64::MAX] {
        let s = sample(reading(8, 4, 0, used));
        assert_eq!(s.swap, Percentage::zero());
        assert_eq!(s.memory.ratio(), (4, 8));
    }
}

#[test]
fn no_memory_total_is_zero_percent() {
    let s = sample(reading(0, 5, 10, 5));
    assert_eq!(s.memory, Percentage::zero());
    assert!(!AlarmEvaluator::evaluate(s.memory));
    assert_eq!(s.swap.ratio(), (5, 10));
}

#[test]
fn swap_percentage_is_used_of_total() {
    let s = sample(reading(16, 4, 2048, 512));
    assert_eq!(s.swap.ratio(), (512, 2048));
    assert_eq!(s.swap.floor_of_quotient(1), 25);
    assert_eq!(s.memory.floor_of_quotient(1), 25);
}

#[test]
fn alarm_is_strict_at_ninety() {
    assert!(!AlarmEvaluator::evaluate(Percentage::of(90, 100)));
    assert!(!AlarmEvaluator::evaluate(Percentage::of(900, 1000)));
    assert!(!AlarmEvaluator::evaluate(Percentage::of(9, 10)));
    assert!(AlarmEvaluator::evaluate(Percentage::of(91, 100)));
    assert!(AlarmEvaluator::evaluate(Percentage::of(901, 1000)));
    assert!(AlarmEvaluator::evaluate(Percentage::of(9_000_000_001, 10_000_000_000)));
    assert!(!AlarmEvaluator::evaluate(Percentage::of(8_999_999_999, 10_000_000_000)));
    assert!(!AlarmEvaluator::evaluate(Percentage::of(0, 100)));
    assert!(AlarmEvaluator::evaluate(Percentage::of(100, 100)));
}

#[test]
fn alarm_on_the_largest_counters() {
    assert!(AlarmEvaluator::evaluate(Percentage::of(u64::MAX, u64::MAX)));
    assert!(AlarmEvaluator::evaluate(Percentage::of(u64::MAX, 1)));
    assert!(!AlarmEvaluator::evaluate(Percentage::of(1, u64::MAX)));
    assert!(!AlarmEvaluator::evaluate(Percentage::of(u64::MAX / 10 * 9, u64::MAX)));
}

#[test]
fn levels_change_above_seventy_and_above_ninety() {
    assert_eq!(CRITICAL_PERCENT, 90);
    assert_eq!(ELEVATED_PERCENT, 70);
    assert_eq!(AlarmEvaluator::level(Percentage::of(0, 100)), UsageLevel::Normal);
    assert_eq!(AlarmEvaluator::level(Percentage::of(70, 100)), UsageLevel::Normal);
    assert_eq!(AlarmEvaluator::level(Percentage::of(701, 1000)), UsageLevel::Elevated);
    assert_eq!(AlarmEvaluator::level(Percentage::of(90, 100)), UsageLevel::Elevated);
    assert_eq!(AlarmEvaluator::level(Percentage::of(901, 1000)), UsageLevel::Critical);
    assert_eq!(AlarmEvaluator::level(Percentage::of(100, 100)), UsageLevel::Critical);
}

#[test]
fn percentage_of_zero_whole_is_zero() {
    assert_eq!(Percentage::of(5, 0), Percentage::zero());
    assert_eq!(Percentage::of(5, 0).ratio(), (0, 1));
    assert_eq!(Percentage::of(5, 7).ratio(), (5, 7));
}

#[test]
fn is_above_compares_exactly() {
    let third = Percentage::of(1, 3);
    assert!(third.is_above(33));
    assert!(!third.is_above(34));
    let half = Percentage::of(1, 2);
    assert!(half.is_above(49));
    assert!(!half.is_above(50));
    assert!(!Percentage::of(u64::MAX, u64::MAX).is_above(100));
    assert!(Percentage::of(u64::MAX, u64::MAX).is_above(99));
    assert!(!Percentage::of(u64::MAX, u64::MAX).is_above(u64::MAX));
}

#[test]
fn floor_of_quotient_rounds_down() {
    assert_eq!(Percentage::of(95, 100).floor_of_quotient(2), 47);
    assert_eq!(Percentage::of(1, 3).floor_of_quotient(1), 33);
    assert_eq!(Percentage::of(2, 3).floor_of_quotient(1), 66);
    assert_eq!(Percentage::of(2, 3).floor_of_quotient(2), 33);
    assert_eq!(Percentage::of(1, 100).floor_of_quotient(2), 0);
    assert_eq!(Percentage::of(u64::MAX, 1).floor_of_quotient(1), u64::MAX as u128 * 100);
    assert_eq!(Percentage::of(u64::MAX, u64::MAX).floor_of_quotient(u64::MAX), 0);
}
