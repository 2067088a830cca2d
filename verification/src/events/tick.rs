//! The tick that drives periodic updates.

use std::time::Duration;
use vstd::prelude::*;

verus! {

/// The duration of a whole number of milliseconds.
pub uninterp spec fn duration_of_millis(millis: u64) -> Duration;

/// `Duration::from_millis` of the standard library gives the duration of
/// that many milliseconds: a function of the number alone.
pub assume_specification[ Duration::from_millis ](millis: u64) -> (duration: Duration)
    ensures
        duration == duration_of_millis(millis),
;

/// Represents a tick event for periodic updates
#[derive(Debug, Clone, Copy)]
pub struct TickEvent {
    pub interval: Duration,
}

impl TickEvent {
    /// A tick every `interval_ms` milliseconds.
    pub fn new(interval_ms: u64) -> (tick: Self)
        ensures
            tick.interval == duration_of_millis(interval_ms),
    {
        TickEvent { interval: Duration::from_millis(interval_ms) }
    }
}

impl Default for TickEvent {
    fn default() -> (tick: Self)
        ensures
            tick.interval == duration_of_millis(250),
    {
        Self::new(250)
    }
}

} // verus!
