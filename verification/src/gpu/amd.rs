//! The probe for AMD devices, which the `amdgpu` driver shows under the
//! device's control directory.

use super::sysfs::{
    counter, find_device, first_device_at, label_name, labelled, no_device, read_celsius,
    read_counter, read_u32, reading_celsius, reading_u32, reading_u64, DrmEntry,
};
use super::{baseline, unknown_name, GpuError, GpuStats, GpuStatsView};
use crate::text::{chars_spell, to_chars, trim, trim_chars};
use vstd::prelude::*;
use vstd::string::StringExecFns;

verus! {

/// The PCI vendor identifier of AMD, as the vendor file writes it.
pub open spec fn amd_vendor_id() -> Seq<char> {
    "0x1002"@
}

/// A file that the probe reads.
#[derive(Debug, Clone, Copy, PartialEq, Eq, Structural)]
pub enum AmdSource {
    ProductName,
    DeviceName,
    DeviceId,
    BusyPercent,
    HwmonBusyPercent,
    VramUsed,
    VramTotal,
    VisibleVramUsed,
    VisibleVramTotal,
    Temp1Input,
    Temp2Input,
}

impl AmdSource {
    /// Whether the file lies under the device's hardware-monitoring
    /// directory rather than under its control directory.
    pub open spec fn in_hwmon(self) -> bool {
        self == AmdSource::HwmonBusyPercent || self == AmdSource::Temp1Input || self
            == AmdSource::Temp2Input
    }

    /// The file's path below the directory that `in_hwmon` names.
    pub open spec fn path(self) -> Seq<char> {
        match self {
            AmdSource::ProductName => "device/product_name"@,
            AmdSource::DeviceName => "device/name"@,
            AmdSource::DeviceId => "device/device"@,
            AmdSource::BusyPercent => "device/gpu_busy_percent"@,
            AmdSource::HwmonBusyPercent => "device/gpu_busy_percent"@,
            AmdSource::VramUsed => "device/mem_info_vram_used"@,
            AmdSource::VramTotal => "device/mem_info_vram_total"@,
            AmdSource::VisibleVramUsed => "device/mem_info_vis_vram_used"@,
            AmdSource::VisibleVramTotal => "device/mem_info_vis_vram_total"@,
            AmdSource::Temp1Input => "temp1_input"@,
            AmdSource::Temp2Input => "temp2_input"@,
        }
    }

    /// Every file that the probe reads, once.
    pub fn all() -> (sources: Vec<AmdSource>)
        ensures
            sources@.no_duplicates(),
            forall|source: AmdSource| sources@.contains(source),
    {
        let sources = vec![
            AmdSource::ProductName,
            AmdSource::DeviceName,
            AmdSource::DeviceId,
            AmdSource::BusyPercent,
            AmdSource::HwmonBusyPercent,
            AmdSource::VramUsed,
            AmdSource::VramTotal,
            AmdSource::VisibleVramUsed,
            AmdSource::VisibleVramTotal,
            AmdSource::Temp1Input,
            AmdSource::Temp2Input,
        ];
        proof {
            assert(sources@[0] == AmdSource::ProductName);
            assert(sources@[1] == AmdSource::DeviceName);
            assert(sources@[2] == AmdSource::DeviceId);
            assert(sources@[3] == AmdSource::BusyPercent);
            assert(sources@[4] == AmdSource::HwmonBusyPercent);
            assert(sources@[5] == AmdSource::VramUsed);
            assert(sources@[6] == AmdSource::VramTotal);
            assert(sources@[7] == AmdSource::VisibleVramUsed);
            assert(sources@[8] == AmdSource::VisibleVramTotal);
            assert(sources@[9] == AmdSource::Temp1Input);
            assert(sources@[10] == AmdSource::Temp2Input);
        }
        sources
    }

    /// Whether the file lies under the hardware-monitoring directory.
    pub fn is_in_hwmon(&self) -> (under: bool)
        ensures
            under == self.in_hwmon(),
    {
        match self {
            AmdSource::HwmonBusyPercent | AmdSource::Temp1Input | AmdSource::Temp2Input => true,
            _ => false,
        }
    }

    /// The file's path below the directory that `is_in_hwmon` names.
    pub fn relative_path(&self) -> (path: &'static str)
        ensures
            path@ == self.path(),
    {
        match self {
            AmdSource::ProductName => "device/product_name",
            AmdSource::DeviceName => "device/name",
            AmdSource::DeviceId => "device/device",
            AmdSource::BusyPercent => "device/gpu_busy_percent",
            AmdSource::HwmonBusyPercent => "device/gpu_busy_percent",
            AmdSource::VramUsed => "device/mem_info_vram_used",
            AmdSource::VramTotal => "device/mem_info_vram_total",
            AmdSource::VisibleVramUsed => "device/mem_info_vis_vram_used",
            AmdSource::VisibleVramTotal => "device/mem_info_vis_vram_total",
            AmdSource::Temp1Input => "temp1_input",
            AmdSource::Temp2Input => "temp2_input",
        }
    }
}

/// What the probe's files gave at one poll: the text of each, or `None`
/// where it could not be read.
#[derive(Debug)]
pub struct AmdReadings {
    pub product_name: Option<String>,
    pub device_name: Option<String>,
    pub device_id: Option<String>,
    pub busy_percent: Option<String>,
    pub hwmon_busy_percent: Option<String>,
    pub vram_used: Option<String>,
    pub vram_total: Option<String>,
    pub visible_vram_used: Option<String>,
    pub visible_vram_total: Option<String>,
    pub temp1_input: Option<String>,
    pub temp2_input: Option<String>,
}

impl AmdReadings {
    /// The reading of `source`.
    pub open spec fn of(self, source: AmdSource) -> Option<String> {
        match source {
            AmdSource::ProductName => self.product_name,
            AmdSource::DeviceName => self.device_name,
            AmdSource::DeviceId => self.device_id,
            AmdSource::BusyPercent => self.busy_percent,
            AmdSource::HwmonBusyPercent => self.hwmon_busy_percent,
            AmdSource::VramUsed => self.vram_used,
            AmdSource::VramTotal => self.vram_total,
            AmdSource::VisibleVramUsed => self.visible_vram_used,
            AmdSource::VisibleVramTotal => self.visible_vram_total,
            AmdSource::Temp1Input => self.temp1_input,
            AmdSource::Temp2Input => self.temp2_input,
        }
    }

    /// Readings in which no file could be read.
    pub fn new() -> (readings: Self)
        ensures
            forall|source: AmdSource| readings.of(source) is None,
    {
        AmdReadings {
            product_name: None,
            device_name: None,
            device_id: None,
            busy_percent: None,
            hwmon_busy_percent: None,
            vram_used: None,
            vram_total: None,
            visible_vram_used: None,
            visible_vram_total: None,
            temp1_input: None,
            temp2_input: None,
        }
    }

    /// Records what `source` gave; the other readings stay.
    pub fn record(&mut self, source: AmdSource, text: Option<String>)
        ensures
            final(self).of(source) == text,
            forall|other: AmdSource|
                other != source ==> final(self).of(other) == old(self).of(other),
    {
        match source {
            AmdSource::ProductName => self.product_name = text,
            AmdSource::DeviceName => self.device_name = text,
            AmdSource::DeviceId => self.device_id = text,
            AmdSource::BusyPercent => self.busy_percent = text,
            AmdSource::HwmonBusyPercent => self.hwmon_busy_percent = text,
            AmdSource::VramUsed => self.vram_used = text,
            AmdSource::VramTotal => self.vram_total = text,
            AmdSource::VisibleVramUsed => self.visible_vram_used = text,
            AmdSource::VisibleVramTotal => self.visible_vram_total = text,
            AmdSource::Temp1Input => self.temp1_input = text,
            AmdSource::Temp2Input => self.temp2_input = text,
        }
    }
}

/// The model that a PCI device identifier stands for; `GPU` for one that the
/// table does not hold.
pub open spec fn amd_model(device_id: Seq<char>) -> Seq<char> {
    if device_id == "0x73bf"@ {
        "Radeon RX 7900 XTX"@
    } else if device_id == "0x744c"@ {
        "Radeon RX 7900 XT"@
    } else if device_id == "0x73df"@ {
        "Radeon RX 6950 XT"@
    } else if device_id == "0x73af"@ {
        "Radeon RX 6900 XT"@
    } else if device_id == "0x73a0"@ {
        "Radeon RX 6800 XT"@
    } else if device_id == "0x73ab"@ {
        "Radeon RX 6800"@
    } else if device_id == "0x73ff"@ {
        "Radeon RX 6700 XT"@
    } else if device_id == "0x73e0"@ {
        "Radeon RX 6650 XT"@
    } else if device_id == "0x73ef"@ {
        "Radeon RX 6600 XT"@
    } else if device_id == "0x73e3"@ {
        "Radeon RX 6600"@
    } else {
        "GPU"@
    }
}

/// The device name: from the product-name file, else from the name file,
/// else from the device identifier; `Unknown` where none could be read.
pub open spec fn amd_name(readings: AmdReadings) -> Seq<char> {
    match readings.product_name {
        Some(text) => labelled("AMD"@, text@),
        None => match readings.device_name {
            Some(text) => labelled("AMD"@, text@),
            None => match readings.device_id {
                Some(text) => "AMD"@ + seq![' '] + amd_model(trim(text@)),
                None => unknown_name(),
            },
        },
    }
}

/// The busy share: from the device's busy-percent file, else from the one
/// under the hardware-monitoring directory, else 0.
pub open spec fn amd_utilization(readings: AmdReadings) -> u32 {
    match reading_u32(readings.busy_percent) {
        Some(percent) => percent,
        None => match reading_u32(readings.hwmon_busy_percent) {
            Some(percent) => percent,
            None => 0,
        },
    }
}

/// Memory in use and in all: the VRAM counters; where they give no total,
/// the CPU-visible VRAM counters if these give one.
pub open spec fn amd_memory(readings: AmdReadings) -> (u64, u64) {
    if counter(readings.vram_total) == 0 && counter(readings.visible_vram_total) > 0 {
        (counter(readings.visible_vram_used), counter(readings.visible_vram_total))
    } else {
        (counter(readings.vram_used), counter(readings.vram_total))
    }
}

/// The temperature: from the first sensor, else from the second, else 0.
pub open spec fn amd_temperature(readings: AmdReadings) -> u32 {
    match reading_celsius(readings.temp1_input) {
        Some(degrees) => degrees,
        None => match reading_celsius(readings.temp2_input) {
            Some(degrees) => degrees,
            None => 0,
        },
    }
}

/// The sample that the readings give. Each of the four values comes from its
/// own files alone.
pub open spec fn amd_stats(readings: AmdReadings) -> GpuStatsView {
    GpuStatsView {
        name: amd_name(readings),
        utilization: amd_utilization(readings),
        memory_used: amd_memory(readings).0,
        memory_total: amd_memory(readings).1,
        temperature: amd_temperature(readings),
    }
}

/// The probe, bound to the control directory of the device it found.
#[derive(Debug)]
pub struct AmdMonitor {
    device_path: String,
}

impl AmdMonitor {
    /// The control directory of the bound device.
    pub closed spec fn path(self) -> Seq<char> {
        self.device_path@
    }

    /// Binds the first AMD card among `entries`, the entries of the
    /// device-enumeration directory in the order the system gave them (none
    /// where the directory is absent).
    pub fn new(entries: &Vec<DrmEntry>) -> (monitor: Result<Self, GpuError>)
        ensures
            match monitor {
                Ok(bound) => exists|at: int|
                    #[trigger] first_device_at(entries@, amd_vendor_id(), at) && bound.path()
                        == entries[at].path@,
                Err(e) => e == GpuError::NotFound && no_device(entries@, amd_vendor_id()),
            },
    {
        match find_device(entries, "0x1002") {
            Some(at) => Ok(AmdMonitor { device_path: entries[at].path.clone() }),
            None => Err(GpuError::NotFound),
        }
    }

    /// The control directory of the bound device.
    pub fn device_path(&self) -> (path: &str)
        ensures
            path@ == self.path(),
    {
        self.device_path.as_str()
    }

    fn model_of(device_id: &Vec<char>) -> (model: &'static str)
        ensures
            model@ == amd_model(device_id@),
    {
        if chars_spell(device_id, "0x73bf") {
            "Radeon RX 7900 XTX"
        } else if chars_spell(device_id, "0x744c") {
            "Radeon RX 7900 XT"
        } else if chars_spell(device_id, "0x73df") {
            "Radeon RX 6950 XT"
        } else if chars_spell(device_id, "0x73af") {
            "Radeon RX 6900 XT"
        } else if chars_spell(device_id, "0x73a0") {
            "Radeon RX 6800 XT"
        } else if chars_spell(device_id, "0x73ab") {
            "Radeon RX 6800"
        } else if chars_spell(device_id, "0x73ff") {
            "Radeon RX 6700 XT"
        } else if chars_spell(device_id, "0x73e0") {
            "Radeon RX 6650 XT"
        } else if chars_spell(device_id, "0x73ef") {
            "Radeon RX 6600 XT"
        } else if chars_spell(device_id, "0x73e3") {
            "Radeon RX 6600"
        } else {
            "GPU"
        }
    }

    fn get_gpu_name(&self, readings: &AmdReadings) -> (name: String)
        ensures
            name@ == amd_name(*readings),
    {
        if let Some(text) = &readings.product_name {
            return label_name("AMD", text.as_str());
        }
        if let Some(text) = &readings.device_name {
            return label_name("AMD", text.as_str());
        }
        if let Some(text) = &readings.device_id {
            let chars = to_chars(text.as_str());
            let model = Self::model_of(&trim_chars(&chars));
            proof {
                reveal_strlit(" ");
                assert(" "@ =~= seq![' ']);
            }
            return String::from_str("AMD").concat(" ").concat(model);
        }
        "Unknown".to_owned()
    }

    fn get_gpu_utilization(&self, readings: &AmdReadings) -> (percent: u32)
        ensures
            percent == amd_utilization(*readings),
    {
        if let Some(percent) = read_u32(&readings.busy_percent) {
            return percent;
        }
        if let Some(percent) = read_u32(&readings.hwmon_busy_percent) {
            return percent;
        }
        0
    }

    fn get_vram_usage(&self, readings: &AmdReadings) -> (memory: (u64, u64))
        ensures
            memory == amd_memory(*readings),
    {
        let used = read_counter(&readings.vram_used);
        let total = read_counter(&readings.vram_total);
        if total == 0 {
            let visible_used = read_counter(&readings.visible_vram_used);
            let visible_total = read_counter(&readings.visible_vram_total);
            if visible_total > 0 {
                return (visible_used, visible_total);
            }
        }
        (used, total)
    }

    fn get_temperature(&self, readings: &AmdReadings) -> (degrees: u32)
        ensures
            degrees == amd_temperature(*readings),
    {
        if let Some(degrees) = read_celsius(&readings.temp1_input) {
            return degrees;
        }
        if let Some(degrees) = read_celsius(&readings.temp2_input) {
            return degrees;
        }
        0
    }

    /// The sample that `readings` give. It never fails: a value whose files
    /// could not be read or understood is 0, or `Unknown` for the name, and
    /// the other values are not touched by that.
    pub fn get_stats(&self, readings: &AmdReadings) -> (stats: Result<GpuStats, GpuError>)
        ensures
            stats matches Ok(sample) && sample@ == amd_stats(*readings),
    {
        let name = self.get_gpu_name(readings);
        let utilization = self.get_gpu_utilization(readings);
        let (memory_used, memory_total) = self.get_vram_usage(readings);
        let temperature = self.get_temperature(readings);
        Ok(GpuStats { name, utilization, memory_used, memory_total, temperature })
    }
}

/// A value is read from its own files alone: readings that agree on the
/// files of one value give the same value, whatever the other files hold.
pub proof fn amd_values_are_independent(first: AmdReadings, second: AmdReadings)
    ensures
        first.product_name == second.product_name && first.device_name == second.device_name
            && first.device_id == second.device_id ==> amd_stats(first).name == amd_stats(
            second,
        ).name,
        first.busy_percent == second.busy_percent && first.hwmon_busy_percent
            == second.hwmon_busy_percent ==> amd_stats(first).utilization == amd_stats(
            second,
        ).utilization,
        first.vram_used == second.vram_used && first.vram_total == second.vram_total
            && first.visible_vram_used == second.visible_vram_used && first.visible_vram_total
            == second.visible_vram_total ==> amd_stats(first).memory_used == amd_stats(
            second,
        ).memory_used && amd_stats(first).memory_total == amd_stats(second).memory_total,
        first.temp1_input == second.temp1_input && first.temp2_input == second.temp2_input
            ==> amd_stats(first).temperature == amd_stats(second).temperature,
{
}

/// A value none of whose files could be read or understood is the
/// baseline's: `Unknown` for the name, 0 for a number.
pub proof fn amd_failed_value_is_baseline(readings: AmdReadings)
    ensures
        readings.product_name is None && readings.device_name is None && readings.device_id
            is None ==> amd_stats(readings).name == baseline().name,
        reading_u32(readings.busy_percent) is None && reading_u32(readings.hwmon_busy_percent)
            is None ==> amd_stats(readings).utilization == 0,
        reading_u64(readings.vram_used) is None && reading_u64(readings.vram_total) is None
            && reading_u64(readings.visible_vram_used) is None && reading_u64(
            readings.visible_vram_total,
        ) is None ==> amd_stats(readings).memory_used == 0 && amd_stats(readings).memory_total
            == 0,
        reading_u32(readings.temp1_input) is None && reading_u32(readings.temp2_input) is None
            ==> amd_stats(readings).temperature == 0,
{
}

} // verus!
