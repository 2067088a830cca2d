//! The probe for NVIDIA devices, which answer through the vendor's
//! management library rather than through files.

use super::{baseline, unknown_name, GpuError, GpuStats, GpuStatsView};
use vstd::prelude::*;

verus! {

/// What the management library answered at one poll for the first device:
/// each value, or `None` where the query for it failed.
#[derive(Debug)]
pub struct NvidiaReadings {
    pub name: Option<String>,
    /// Busy share of the device in percent.
    pub utilization: Option<u32>,
    /// Memory in use and in all, in bytes.
    pub memory: Option<(u64, u64)>,
    /// Temperature of the die in degrees Celsius.
    pub temperature: Option<u32>,
}

/// The sample that the answers give: each value as answered; 0, or
/// `Unknown` for the name, where its query failed.
pub open spec fn nvidia_stats(readings: NvidiaReadings) -> GpuStatsView {
    GpuStatsView {
        name: match readings.name {
            Some(name) => name@,
            None => unknown_name(),
        },
        utilization: match readings.utilization {
            Some(percent) => percent,
            None => 0,
        },
        memory_used: match readings.memory {
            Some(memory) => memory.0,
            None => 0,
        },
        memory_total: match readings.memory {
            Some(memory) => memory.1,
            None => 0,
        },
        temperature: match readings.temperature {
            Some(degrees) => degrees,
            None => 0,
        },
    }
}

/// The probe. It is bound once the management library has started.
#[derive(Debug)]
pub struct NvidiaMonitor {}

impl NvidiaMonitor {
    /// Binds the probe where the management library has started.
    pub fn new(library_started: bool) -> (monitor: Result<Self, GpuError>)
        ensures
            monitor is Ok <==> library_started,
            monitor matches Err(e) ==> e == GpuError::NotFound,
    {
        if library_started {
            Ok(NvidiaMonitor {  })
        } else {
            Err(GpuError::NotFound)
        }
    }

    /// The sample that `readings` give. It never fails: a value whose query
    /// failed is 0, or `Unknown` for the name, and the other values are not
    /// touched by that.
    pub fn get_stats(&self, readings: &NvidiaReadings) -> (stats: Result<GpuStats, GpuError>)
        ensures
            stats matches Ok(sample) && sample@ == nvidia_stats(*readings),
    {
        let name = match &readings.name {
            Some(name) => name.clone(),
            None => "Unknown".to_owned(),
        };
        let utilization = match readings.utilization {
            Some(percent) => percent,
            None => 0,
        };
        let (memory_used, memory_total) = match readings.memory {
            Some(memory) => memory,
            None => (0, 0),
        };
        let temperature = match readings.temperature {
            Some(degrees) => degrees,
            None => 0,
        };
        Ok(GpuStats { name, utilization, memory_used, memory_total, temperature })
    }
}

/// A value comes from its own query alone: answers that agree on one value
/// give the same value, whatever the other queries answered.
pub proof fn nvidia_values_are_independent(first: NvidiaReadings, second: NvidiaReadings)
    ensures
        first.name == second.name ==> nvidia_stats(first).name == nvidia_stats(second).name,
        first.utilization == second.utilization ==> nvidia_stats(first).utilization
            == nvidia_stats(second).utilization,
        first.memory == second.memory ==> nvidia_stats(first).memory_used == nvidia_stats(
            second,
        ).memory_used && nvidia_stats(first).memory_total == nvidia_stats(second).memory_total,
        first.temperature == second.temperature ==> nvidia_stats(first).temperature
            == nvidia_stats(second).temperature,
{
}

/// A value whose query failed is the baseline's: `Unknown` for the name, 0
/// for a number.
pub proof fn nvidia_failed_value_is_baseline(readings: NvidiaReadings)
    ensures
        readings.name is None ==> nvidia_stats(readings).name == baseline().name,
        readings.utilization is None ==> nvidia_stats(readings).utilization == 0,
        readings.memory is None ==> nvidia_stats(readings).memory_used == 0 && nvidia_stats(
            readings,
        ).memory_total == 0,
        readings.temperature is None ==> nvidia_stats(readings).temperature == 0,
{
}

} // verus!
