//! The monitor of last resort: it knows no vendor and reports the baseline.

use super::{baseline, GpuError, GpuStats};
use vstd::prelude::*;

verus! {

pub struct FallbackMonitor {}

impl FallbackMonitor {
    /// The monitor; it needs nothing and is always there.
    pub fn new() -> (monitor: Result<Self, GpuError>)
        ensures
            monitor is Ok,
    {
        Ok(FallbackMonitor {  })
    }

    /// The baseline sample, on every call.
    pub fn get_stats(&self) -> (stats: Result<GpuStats, GpuError>)
        ensures
            stats matches Ok(s) && s@ == baseline(),
    {
        Ok(GpuStats::baseline())
    }
}

impl Default for FallbackMonitor {
    fn default() -> (monitor: Self) {
        FallbackMonitor {  }
    }
}

} // verus!
