//! GPU telemetry: one stats shape for every vendor, and the resolver that
//! binds the vendor found at startup.

pub mod amd;
pub mod fallback;
pub mod intel;
pub mod nvidia;
pub mod sysfs;

use amd::{amd_stats, amd_vendor_id, AmdMonitor, AmdReadings};
use fallback::FallbackMonitor;
use intel::{intel_stats, intel_vendor_id, IntelMonitor, IntelReadings};
use nvidia::{nvidia_stats, NvidiaMonitor, NvidiaReadings};
use sysfs::{first_device_at, is_device_of, DrmEntry};
use vstd::prelude::*;

verus! {

/// One sample of GPU telemetry. All zeros under the name `Unknown` is the
/// baseline: a valid sample that says no telemetry is available.
#[derive(Debug)]
pub struct GpuStats {
    /// Marketing or driver name of the device.
    pub name: String,
    /// Busy share in percent, best effort.
    pub utilization: u32,
    /// Device memory in use, in bytes.
    pub memory_used: u64,
    /// Device memory in all, in bytes.
    pub memory_total: u64,
    /// Temperature in degrees Celsius.
    pub temperature: u32,
}

/// What a `GpuStats` holds, with the name as a character sequence.
pub struct GpuStatsView {
    pub name: Seq<char>,
    pub utilization: u32,
    pub memory_used: u64,
    pub memory_total: u64,
    pub temperature: u32,
}

impl View for GpuStats {
    type V = GpuStatsView;

    open spec fn view(&self) -> GpuStatsView {
        GpuStatsView {
            name: self.name@,
            utilization: self.utilization,
            memory_used: self.memory_used,
            memory_total: self.memory_total,
            temperature: self.temperature,
        }
    }
}

impl Clone for GpuStats {
    fn clone(&self) -> (copy: Self)
        ensures
            copy@ == self@,
    {
        GpuStats {
            name: self.name.clone(),
            utilization: self.utilization,
            memory_used: self.memory_used,
            memory_total: self.memory_total,
            temperature: self.temperature,
        }
    }
}

/// The name that stands for an unknown device.
pub open spec fn unknown_name() -> Seq<char> {
    "Unknown"@
}

/// The baseline sample: no telemetry available.
pub open spec fn baseline() -> GpuStatsView {
    GpuStatsView {
        name: unknown_name(),
        utilization: 0,
        memory_used: 0,
        memory_total: 0,
        temperature: 0,
    }
}

impl GpuStats {
    /// The baseline sample.
    pub fn baseline() -> (stats: GpuStats)
        ensures
            stats@ == baseline(),
    {
        GpuStats {
            name: "Unknown".to_owned(),
            utilization: 0,
            memory_used: 0,
            memory_total: 0,
            temperature: 0,
        }
    }
}

/// The vendor whose probe the resolver bound.
#[derive(Debug, Clone, Copy, PartialEq, Eq, Structural)]
pub enum GpuType {
    Nvidia,
    Amd,
    Intel,
    Unknown,
}

/// Why a probe gave nothing.
#[derive(Debug, Clone, Copy, PartialEq, Eq, Structural)]
pub enum GpuError {
    /// No matching hardware or file.
    NotFound,
    /// A file was there but could not be read or understood.
    ReadError,
}

/// What the bound vendor's probe gave at one poll.
#[derive(Debug)]
pub enum ProbeReadings {
    Nvidia(NvidiaReadings),
    Amd(AmdReadings),
    Intel(IntelReadings),
    /// Nothing was read.
    Nothing,
}

/// Whether some entry is a card of the vendor with identifier `vendor_id`.
pub open spec fn has_device(entries: Seq<DrmEntry>, vendor_id: Seq<char>) -> bool {
    exists|at: int| 0 <= at < entries.len() && is_device_of(#[trigger] entries[at], vendor_id)
}

/// The vendor to bind, given which vendors were found: NVIDIA before AMD,
/// AMD before Intel.
pub open spec fn preferred(nvidia: bool, amd: bool, intel: bool) -> GpuType {
    if nvidia {
        GpuType::Nvidia
    } else if amd {
        GpuType::Amd
    } else if intel {
        GpuType::Intel
    } else {
        GpuType::Unknown
    }
}

/// The vendor that detection binds on a host.
pub open spec fn detected(nvidia_library_started: bool, entries: Seq<DrmEntry>) -> GpuType {
    preferred(
        nvidia_library_started,
        has_device(entries, amd_vendor_id()),
        has_device(entries, intel_vendor_id()),
    )
}

/// The sample of one poll: that of the bound vendor's readings, and the
/// baseline where no vendor is bound or the readings are not its own.
pub open spec fn resolved(vendor: GpuType, readings: ProbeReadings) -> GpuStatsView {
    match (vendor, readings) {
        (GpuType::Nvidia, ProbeReadings::Nvidia(answers)) => nvidia_stats(answers),
        (GpuType::Amd, ProbeReadings::Amd(files)) => amd_stats(files),
        (GpuType::Intel, ProbeReadings::Intel(files)) => intel_stats(files),
        _ => baseline(),
    }
}

/// The resolver: it binds at most one vendor's probe, once, and answers
/// every poll.
pub struct GpuMonitor {
    gpu_type: GpuType,
    nvidia_monitor: Option<NvidiaMonitor>,
    amd_monitor: Option<AmdMonitor>,
    intel_monitor: Option<IntelMonitor>,
    fallback_monitor: FallbackMonitor,
}

impl GpuMonitor {
    #[verifier::type_invariant]
    spec fn bound_probe_is_of_bound_vendor(self) -> bool {
        &&& self.nvidia_monitor is Some <==> self.gpu_type == GpuType::Nvidia
        &&& self.amd_monitor is Some <==> self.gpu_type == GpuType::Amd
        &&& self.intel_monitor is Some <==> self.gpu_type == GpuType::Intel
    }

    /// The bound vendor.
    pub closed spec fn vendor(self) -> GpuType {
        self.gpu_type
    }

    /// The control directory of the bound device, for the vendors that have
    /// one.
    pub closed spec fn bound_path(self) -> Option<Seq<char>> {
        match self.gpu_type {
            GpuType::Amd => Some(self.amd_monitor->0.path()),
            GpuType::Intel => Some(self.intel_monitor->0.path()),
            _ => None,
        }
    }

    /// Detects the vendor once: NVIDIA where its management library has
    /// started, else AMD, else Intel, where `entries` (the entries of the
    /// device-enumeration directory, none where it is absent) hold a card of
    /// theirs. The first vendor found in that order is bound for good.
    pub fn new(nvidia_library_started: bool, entries: &Vec<DrmEntry>) -> (monitor: Result<
        Self,
        GpuError,
    >)
        ensures
            monitor matches Ok(bound) && bound.vendor() == detected(
                nvidia_library_started,
                entries@,
            ) && (bound.bound_path() matches Some(path) ==> exists|at: int|
                {
                    &&& 0 <= at < entries.len()
                    &&& path == #[trigger] entries[at].path@
                    &&& bound.vendor() == GpuType::Amd ==> first_device_at(
                        entries@,
                        amd_vendor_id(),
                        at,
                    )
                    &&& bound.vendor() == GpuType::Intel ==> first_device_at(
                        entries@,
                        intel_vendor_id(),
                        at,
                    )
                }),
    {
        let mut gpu_type = GpuType::Unknown;
        let mut nvidia_monitor = None;
        let mut amd_monitor = None;
        let mut intel_monitor = None;
        if let Ok(monitor) = NvidiaMonitor::new(nvidia_library_started) {
            gpu_type = GpuType::Nvidia;
            nvidia_monitor = Some(monitor);
        } else if let Ok(monitor) = AmdMonitor::new(entries) {
            gpu_type = GpuType::Amd;
            amd_monitor = Some(monitor);
        } else if let Ok(monitor) = IntelMonitor::new(entries) {
            gpu_type = GpuType::Intel;
            intel_monitor = Some(monitor);
        }
        let fallback_monitor = FallbackMonitor {  };
        Ok(GpuMonitor { gpu_type, nvidia_monitor, amd_monitor, intel_monitor, fallback_monitor })
    }

    /// The sample of one poll. It never fails: with no vendor bound, or
    /// with readings that are not the bound vendor's, it is the baseline.
    pub fn get_stats(&self, readings: &ProbeReadings) -> (stats: GpuStats)
        ensures
            stats@ == resolved(self.vendor(), *readings),
            self.vendor() == GpuType::Unknown ==> stats@ == baseline(),
    {
        proof {
            use_type_invariant(self);
        }
        match (self.gpu_type, readings) {
            (GpuType::Nvidia, ProbeReadings::Nvidia(answers)) => {
                if let Some(monitor) = &self.nvidia_monitor {
                    if let Ok(stats) = monitor.get_stats(answers) {
                        return stats;
                    }
                }
            },
            (GpuType::Amd, ProbeReadings::Amd(files)) => {
                if let Some(monitor) = &self.amd_monitor {
                    if let Ok(stats) = monitor.get_stats(files) {
                        return stats;
                    }
                }
            },
            (GpuType::Intel, ProbeReadings::Intel(files)) => {
                if let Some(monitor) = &self.intel_monitor {
                    if let Ok(stats) = monitor.get_stats(files) {
                        return stats;
                    }
                }
            },
            _ => {},
        }
        match self.fallback_monitor.get_stats() {
            Ok(stats) => stats,
            Err(_) => GpuStats::baseline(),
        }
    }

    /// The bound vendor; `Unknown` where none is bound.
    pub fn get_gpu_type(&self) -> (vendor: GpuType)
        ensures
            vendor == self.vendor(),
    {
        self.gpu_type
    }

    /// The control directory of the bound device, for the vendors that have
    /// one: where the bound vendor's files are read.
    pub fn device_path(&self) -> (path: Option<&str>)
        ensures
            match path {
                Some(directory) => self.bound_path() == Some(directory@),
                None => self.bound_path() is None,
            },
    {
        proof {
            use_type_invariant(self);
        }
        match self.gpu_type {
            GpuType::Amd => match &self.amd_monitor {
                Some(monitor) => Some(monitor.device_path()),
                None => None,
            },
            GpuType::Intel => match &self.intel_monitor {
                Some(monitor) => Some(monitor.device_path()),
                None => None,
            },
            _ => None,
        }
    }
}

impl Default for GpuMonitor {
    /// A resolver that binds no vendor.
    fn default() -> (monitor: Self)
        ensures
            monitor.vendor() == GpuType::Unknown,
            monitor.bound_path() is None,
    {
        GpuMonitor {
            gpu_type: GpuType::Unknown,
            nvidia_monitor: None,
            amd_monitor: None,
            intel_monitor: None,
            fallback_monitor: FallbackMonitor {  },
        }
    }
}

/// Detection prefers NVIDIA to AMD and AMD to Intel, and which vendor it
/// binds does not depend on the order in which the system lists the entries.
pub proof fn detection_follows_priority(
    nvidia_library_started: bool,
    entries: Seq<DrmEntry>,
    reordered: Seq<DrmEntry>,
)
    requires
        entries.to_multiset() == reordered.to_multiset(),
    ensures
        detected(nvidia_library_started, reordered) == detected(nvidia_library_started, entries),
        nvidia_library_started ==> detected(nvidia_library_started, entries) == GpuType::Nvidia,
        !nvidia_library_started && has_device(entries, amd_vendor_id()) ==> detected(
            nvidia_library_started,
            entries,
        ) == GpuType::Amd,
        !nvidia_library_started && !has_device(entries, amd_vendor_id()) && has_device(
            entries,
            intel_vendor_id(),
        ) ==> detected(nvidia_library_started, entries) == GpuType::Intel,
{
    lemma_has_device_ignores_order(entries, reordered, amd_vendor_id());
    lemma_has_device_ignores_order(entries, reordered, intel_vendor_id());
}

proof fn lemma_has_device_ignores_order(
    entries: Seq<DrmEntry>,
    reordered: Seq<DrmEntry>,
    vendor_id: Seq<char>,
)
    requires
        entries.to_multiset() == reordered.to_multiset(),
    ensures
        has_device(entries, vendor_id) == has_device(reordered, vendor_id),
{
    entries.to_multiset_ensures();
    reordered.to_multiset_ensures();
    if has_device(entries, vendor_id) {
        let at = choose|at: int|
            0 <= at < entries.len() && is_device_of(#[trigger] entries[at], vendor_id);
        assert(entries.contains(entries[at]));
        assert(entries.to_multiset().count(entries[at]) > 0);
        assert(reordered.to_multiset().count(entries[at]) > 0);
        assert(reordered.contains(entries[at]));
        let to = choose|to: int| 0 <= to < reordered.len() && reordered[to] == entries[at];
        assert(is_device_of(reordered[to], vendor_id));
    }
    if has_device(reordered, vendor_id) {
        let at = choose|at: int|
            0 <= at < reordered.len() && is_device_of(#[trigger] reordered[at], vendor_id);
        assert(reordered.contains(reordered[at]));
        assert(reordered.to_multiset().count(reordered[at]) > 0);
        assert(entries.to_multiset().count(reordered[at]) > 0);
        assert(entries.contains(reordered[at]));
        let to = choose|to: int| 0 <= to < entries.len() && entries[to] == reordered[at];
        assert(is_device_of(entries[to], vendor_id));
    }
}

/// With no vendor bound, every poll gives the baseline, whatever was read.
pub proof fn unbound_resolver_gives_baseline(readings: ProbeReadings)
    ensures
        resolved(GpuType::Unknown, readings) == baseline(),
{
}

} // verus!
