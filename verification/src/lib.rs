//! The core of a memory monitor.
//!
//! Once per tick the monitor is handed the machine's memory counters. It
//! turns them into two exact percentages (`sampler`, `percentage`), appends
//! them to a bounded history that forgets its oldest entry first
//! (`history`), and raises an alarm while memory use is above ninety percent
//! (`alarm`). `monitor` ties these into one step from state and reading to
//! what is drawn; `bar` and `glitch` make the texts that go with it.
//!
//! Reading the counters and drawing are left to the caller.

pub mod alarm;
pub mod bar;
pub mod glitch;
pub mod history;
pub mod monitor;
pub mod percentage;
pub mod sampler;
