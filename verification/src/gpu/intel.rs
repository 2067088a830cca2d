//! The probe for Intel devices, which the `i915` driver shows under the
//! card's directory, with sensors under the hardware-monitoring subtree and
//! the system's thermal zones.

use super::sysfs::{
    counter, find_device, first_device_at, label_name, labelled, no_device, read_celsius,
    read_counter, read_u32, reading_celsius, reading_u32, reading_u64, DrmEntry,
};
use super::{baseline, unknown_name, GpuError, GpuStats, GpuStatsView};
use crate::text::{
    chars_contain, chars_spell, contains, first_line_len, first_word, first_word_of, line_end,
    lowercase_of, parse_u64, parse_u64_spec, slice_chars, to_chars, to_lowercase, trim,
    trim_chars,
};
use vstd::prelude::*;
use vstd::string::StringExecFns;

verus! {

/// The PCI vendor identifier of Intel, as the vendor file writes it.
pub open spec fn intel_vendor_id() -> Seq<char> {
    "0x8086"@
}

/// The memory that an integrated device is taken to share with the system
/// where the driver names no total: 2 GiB.
pub const SHARED_MEMORY_ESTIMATE: u64 = 2147483648;

/// The number of sensors under the hardware-monitoring directory that the
/// probe looks at, `temp1` to `temp9`.
pub const SENSOR_COUNT: usize = 9;

/// The directory whose entries are the system's thermal zones.
pub const THERMAL_DIRECTORY: &'static str = "/sys/class/thermal";

/// The file of a thermal zone that says what the zone measures.
pub const THERMAL_TYPE_FILE: &'static str = "type";

/// The file of a thermal zone that holds its temperature in millidegrees.
pub const THERMAL_TEMP_FILE: &'static str = "temp";

/// The label file and the value file of the sensor with that number, below
/// the hardware-monitoring directory; the sensors are numbered from 1 to
/// `SENSOR_COUNT`.
pub open spec fn sensor_paths(number: usize) -> Option<(Seq<char>, Seq<char>)> {
    if number == 1 {
        Some(("temp1_label"@, "temp1_input"@))
    } else if number == 2 {
        Some(("temp2_label"@, "temp2_input"@))
    } else if number == 3 {
        Some(("temp3_label"@, "temp3_input"@))
    } else if number == 4 {
        Some(("temp4_label"@, "temp4_input"@))
    } else if number == 5 {
        Some(("temp5_label"@, "temp5_input"@))
    } else if number == 6 {
        Some(("temp6_label"@, "temp6_input"@))
    } else if number == 7 {
        Some(("temp7_label"@, "temp7_input"@))
    } else if number == 8 {
        Some(("temp8_label"@, "temp8_input"@))
    } else if number == 9 {
        Some(("temp9_label"@, "temp9_input"@))
    } else {
        None
    }
}

/// The label file and the value file of the sensor with that number.
pub fn sensor_files(number: usize) -> (files: Option<(&'static str, &'static str)>)
    ensures
        files is Some <==> 1 <= number <= SENSOR_COUNT,
        match files {
            Some(pair) => sensor_paths(number) == Some((pair.0@, pair.1@)),
            None => sensor_paths(number) is None,
        },
{
    match number {
        1 => Some(("temp1_label", "temp1_input")),
        2 => Some(("temp2_label", "temp2_input")),
        3 => Some(("temp3_label", "temp3_input")),
        4 => Some(("temp4_label", "temp4_input")),
        5 => Some(("temp5_label", "temp5_input")),
        6 => Some(("temp6_label", "temp6_input")),
        7 => Some(("temp7_label", "temp7_input")),
        8 => Some(("temp8_label", "temp8_input")),
        9 => Some(("temp9_label", "temp9_input")),
        _ => None,
    }
}

/// A file that the probe reads, below the card's directory or, for the
/// sensor, below its hardware-monitoring directory.
#[derive(Debug, Clone, Copy, PartialEq, Eq, Structural)]
pub enum IntelSource {
    GtName,
    DeviceName,
    DeviceId,
    CurrentFrequency,
    MaxFrequency,
    RenderBusy,
    GemObjects,
    MemoryUsed,
    MemoryTotal,
    Temp1Input,
}

impl IntelSource {
    /// Whether the file lies under the device's hardware-monitoring
    /// directory rather than under the card's directory.
    pub open spec fn in_hwmon(self) -> bool {
        self == IntelSource::Temp1Input
    }

    /// The file's path below the directory that `in_hwmon` names.
    pub open spec fn path(self) -> Seq<char> {
        match self {
            IntelSource::GtName => "gt/gt0/name"@,
            IntelSource::DeviceName => "device/name"@,
            IntelSource::DeviceId => "device/device"@,
            IntelSource::CurrentFrequency => "gt/gt0/rps_cur_freq_mhz"@,
            IntelSource::MaxFrequency => "gt/gt0/rps_max_freq_mhz"@,
            IntelSource::RenderBusy => "engine/rcs0/busy"@,
            IntelSource::GemObjects => "i915_gem_objects"@,
            IntelSource::MemoryUsed => "mem_info_used"@,
            IntelSource::MemoryTotal => "mem_info_total"@,
            IntelSource::Temp1Input => "temp1_input"@,
        }
    }

    /// Every file that the probe reads, once, the labelled sensors and the
    /// thermal zones aside.
    pub fn all() -> (sources: Vec<IntelSource>)
        ensures
            sources@.no_duplicates(),
            forall|source: IntelSource| sources@.contains(source),
    {
        let sources = vec![
            IntelSource::GtName,
            IntelSource::DeviceName,
            IntelSource::DeviceId,
            IntelSource::CurrentFrequency,
            IntelSource::MaxFrequency,
            IntelSource::RenderBusy,
            IntelSource::GemObjects,
            IntelSource::MemoryUsed,
            IntelSource::MemoryTotal,
            IntelSource::Temp1Input,
        ];
        proof {
            assert(sources@[0] == IntelSource::GtName);
            assert(sources@[1] == IntelSource::DeviceName);
            assert(sources@[2] == IntelSource::DeviceId);
            assert(sources@[3] == IntelSource::CurrentFrequency);
            assert(sources@[4] == IntelSource::MaxFrequency);
            assert(sources@[5] == IntelSource::RenderBusy);
            assert(sources@[6] == IntelSource::GemObjects);
            assert(sources@[7] == IntelSource::MemoryUsed);
            assert(sources@[8] == IntelSource::MemoryTotal);
            assert(sources@[9] == IntelSource::Temp1Input);
        }
        sources
    }

    /// Whether the file lies under the hardware-monitoring directory.
    pub fn is_in_hwmon(&self) -> (under: bool)
        ensures
            under == self.in_hwmon(),
    {
        match self {
            IntelSource::Temp1Input => true,
            _ => false,
        }
    }

    /// The file's path below the directory that `is_in_hwmon` names.
    pub fn relative_path(&self) -> (path: &'static str)
        ensures
            path@ == self.path(),
    {
        match self {
            IntelSource::GtName => "gt/gt0/name",
            IntelSource::DeviceName => "device/name",
            IntelSource::DeviceId => "device/device",
            IntelSource::CurrentFrequency => "gt/gt0/rps_cur_freq_mhz",
            IntelSource::MaxFrequency => "gt/gt0/rps_max_freq_mhz",
            IntelSource::RenderBusy => "engine/rcs0/busy",
            IntelSource::GemObjects => "i915_gem_objects",
            IntelSource::MemoryUsed => "mem_info_used",
            IntelSource::MemoryTotal => "mem_info_total",
            IntelSource::Temp1Input => "temp1_input",
        }
    }
}

/// A sensor that says in a label what it measures: the text of its label
/// file and of its value file, each `None` where it could not be read.
#[derive(Debug)]
pub struct LabelledSensor {
    pub label: Option<String>,
    pub input: Option<String>,
}

/// What the probe's files gave at one poll.
#[derive(Debug)]
pub struct IntelReadings {
    pub gt_name: Option<String>,
    pub device_name: Option<String>,
    pub device_id: Option<String>,
    pub current_frequency: Option<String>,
    pub max_frequency: Option<String>,
    pub render_busy: Option<String>,
    pub gem_objects: Option<String>,
    pub memory_used: Option<String>,
    pub memory_total: Option<String>,
    pub temp1_input: Option<String>,
    /// The sensors `temp1` to `temp9` of the hardware-monitoring directory,
    /// in that order.
    pub sensors: Vec<LabelledSensor>,
    /// The system's thermal zones, in the order the system gave them: the
    /// text of each zone's `type` file as the label, of its `temp` file as
    /// the value.
    pub thermal_zones: Vec<LabelledSensor>,
}

impl IntelReadings {
    /// The reading of `source`.
    pub open spec fn of(self, source: IntelSource) -> Option<String> {
        match source {
            IntelSource::GtName => self.gt_name,
            IntelSource::DeviceName => self.device_name,
            IntelSource::DeviceId => self.device_id,
            IntelSource::CurrentFrequency => self.current_frequency,
            IntelSource::MaxFrequency => self.max_frequency,
            IntelSource::RenderBusy => self.render_busy,
            IntelSource::GemObjects => self.gem_objects,
            IntelSource::MemoryUsed => self.memory_used,
            IntelSource::MemoryTotal => self.memory_total,
            IntelSource::Temp1Input => self.temp1_input,
        }
    }

    /// Readings in which no file could be read and no sensor was seen.
    pub fn new() -> (readings: Self)
        ensures
            forall|source: IntelSource| readings.of(source) is None,
            readings.sensors@.len() == 0,
            readings.thermal_zones@.len() == 0,
    {
        IntelReadings {
            gt_name: None,
            device_name: None,
            device_id: None,
            current_frequency: None,
            max_frequency: None,
            render_busy: None,
            gem_objects: None,
            memory_used: None,
            memory_total: None,
            temp1_input: None,
            sensors: Vec::new(),
            thermal_zones: Vec::new(),
        }
    }

    /// Records what `source` gave; the other readings stay.
    pub fn record(&mut self, source: IntelSource, text: Option<String>)
        ensures
            final(self).of(source) == text,
            forall|other: IntelSource|
                other != source ==> final(self).of(other) == old(self).of(other),
            final(self).sensors == old(self).sensors,
            final(self).thermal_zones == old(self).thermal_zones,
    {
        match source {
            IntelSource::GtName => self.gt_name = text,
            IntelSource::DeviceName => self.device_name = text,
            IntelSource::DeviceId => self.device_id = text,
            IntelSource::CurrentFrequency => self.current_frequency = text,
            IntelSource::MaxFrequency => self.max_frequency = text,
            IntelSource::RenderBusy => self.render_busy = text,
            IntelSource::GemObjects => self.gem_objects = text,
            IntelSource::MemoryUsed => self.memory_used = text,
            IntelSource::MemoryTotal => self.memory_total = text,
            IntelSource::Temp1Input => self.temp1_input = text,
        }
    }
}

/// The model that a PCI device identifier stands for; `Graphics` for one
/// that the table does not hold.
pub open spec fn intel_model(device_id: Seq<char>) -> Seq<char> {
    if device_id == "0x56a0"@ || device_id == "0x56a1"@ || device_id == "0x56a2"@ {
        "Arc A770"@
    } else if device_id == "0x5690"@ || device_id == "0x5691"@ || device_id == "0x5692"@ {
        "Arc A750"@
    } else if device_id == "0x56a5"@ || device_id == "0x56a6"@ {
        "Arc A580"@
    } else if device_id == "0x56b0"@ || device_id == "0x56b1"@ {
        "Arc A380"@
    } else if device_id == "0x56c0"@ || device_id == "0x56c1"@ {
        "Arc A310"@
    } else if device_id == "0x9a49"@ || device_id == "0x9a40"@ || device_id == "0x9a59"@ {
        "Iris Xe Graphics"@
    } else if device_id == "0x9a60"@ || device_id == "0x9a68"@ || device_id == "0x9a70"@ {
        "UHD Graphics"@
    } else if device_id == "0x9a78"@ {
        "UHD Graphics (Tiger Lake)"@
    } else if device_id == "0x4680"@ || device_id == "0x4682"@ || device_id == "0x4688"@ {
        "UHD Graphics (Alder Lake)"@
    } else if device_id == "0xa780"@ || device_id == "0xa781"@ || device_id == "0xa782"@ {
        "UHD Graphics (Raptor Lake)"@
    } else {
        "Graphics"@
    }
}

/// The device name: from the name file of the first graphics tile, else
/// from the device's name file, else from the device identifier; `Unknown`
/// where none could be read.
pub open spec fn intel_name(readings: IntelReadings) -> Seq<char> {
    match readings.gt_name {
        Some(text) => labelled("Intel"@, text@),
        None => match readings.device_name {
            Some(text) => labelled("Intel"@, text@),
            None => match readings.device_id {
                Some(text) => "Intel"@ + seq![' '] + intel_model(trim(text@)),
                None => unknown_name(),
            },
        },
    }
}

/// The share of `max` that `current` is, in percent, rounded to the nearest
/// whole number (a half rounds up) and held to at most 100.
pub open spec fn frequency_share(current: u32, max: u32) -> u32
    recommends
        max > 0,
{
    let rounded = (200 * current + max) / (2 * max);
    if rounded > 100 {
        100
    } else {
        rounded as u32
    }
}

/// The busy share: the current frequency as a share of the maximum where
/// both are read and the maximum is not 0, else the render engine's busy
/// value, else 0.
pub open spec fn intel_utilization(readings: IntelReadings) -> u32 {
    match (reading_u32(readings.current_frequency), reading_u32(readings.max_frequency)) {
        (Some(current), Some(max)) if max > 0 => frequency_share(current, max),
        _ => match reading_u32(readings.render_busy) {
            Some(percent) => percent,
            None => 0,
        },
    }
}

/// The byte count that one line of the driver's object summary gives: the
/// number that its first word writes, where the line speaks of `bytes`.
pub open spec fn gem_line_bytes(line: Seq<char>) -> Option<u64> {
    if contains(line, "bytes"@) {
        parse_u64_spec(first_word(line))
    } else {
        None
    }
}

/// The byte count of the first line of the driver's object summary that
/// gives one.
pub open spec fn gem_bytes(content: Seq<char>) -> Option<u64>
    decreases content.len(),
{
    let end = first_line_len(content) as int;
    if end > content.len() {
        None
    } else if gem_line_bytes(content.take(end)) is Some {
        gem_line_bytes(content.take(end))
    } else if end < content.len() {
        gem_bytes(content.skip(end + 1))
    } else {
        None
    }
}

/// Memory in use and in all: the byte count of the driver's object summary
/// against the shared-memory estimate; where the summary gives none, the
/// memory counters.
pub open spec fn intel_memory(readings: IntelReadings) -> (u64, u64) {
    match readings.gem_objects {
        Some(content) if gem_bytes(content@) is Some => (
            gem_bytes(content@)->0,
            SHARED_MEMORY_ESTIMATE,
        ),
        _ => (counter(readings.memory_used), counter(readings.memory_total)),
    }
}

/// Whether a label, in lowercase, holds one of the two words.
pub open spec fn names_either(lowered: Seq<char>, first: Seq<char>, second: Seq<char>) -> bool {
    contains(lowered, first) || contains(lowered, second)
}

/// The temperature of a labelled sensor whose label holds one of the two
/// words, whatever the case of its letters.
pub open spec fn sensor_celsius(
    sensor: LabelledSensor,
    first: Seq<char>,
    second: Seq<char>,
) -> Option<u32> {
    match sensor.label {
        Some(label) if names_either(lowercase_of(label@), first, second) => reading_celsius(
            sensor.input,
        ),
        _ => None,
    }
}

/// The temperature of the first sensor of `sensors` that gives one.
pub open spec fn first_sensor_celsius(
    sensors: Seq<LabelledSensor>,
    first: Seq<char>,
    second: Seq<char>,
) -> Option<u32>
    decreases sensors.len(),
{
    if sensors.len() == 0 {
        None
    } else if sensor_celsius(sensors.first(), first, second) is Some {
        sensor_celsius(sensors.first(), first, second)
    } else {
        first_sensor_celsius(sensors.drop_first(), first, second)
    }
}

/// The temperature: from the first sensor of the hardware-monitoring
/// directory, else from the first of its sensors labelled `gpu` or `package`
/// that gives one, else from the first thermal zone of type `gpu` or `pch`
/// that gives one, else 0.
pub open spec fn intel_temperature(readings: IntelReadings) -> u32 {
    match reading_celsius(readings.temp1_input) {
        Some(degrees) => degrees,
        None => match first_sensor_celsius(readings.sensors@, "gpu"@, "package"@) {
            Some(degrees) => degrees,
            None => match first_sensor_celsius(readings.thermal_zones@, "gpu"@, "pch"@) {
                Some(degrees) => degrees,
                None => 0,
            },
        },
    }
}

/// The sample that the readings give. Each of the four values comes from its
/// own files alone.
pub open spec fn intel_stats(readings: IntelReadings) -> GpuStatsView {
    GpuStatsView {
        name: intel_name(readings),
        utilization: intel_utilization(readings),
        memory_used: intel_memory(readings).0,
        memory_total: intel_memory(readings).1,
        temperature: intel_temperature(readings),
    }
}

/// The share of `max` that `current` is, in percent.
pub fn share_of_max(current: u32, max: u32) -> (percent: u32)
    requires
        max > 0,
    ensures
        percent == frequency_share(current, max),
        percent <= 100,
        percent < 100 ==> 2 * max * percent <= 200 * current + max < 2 * max * (percent + 1),
        percent == 100 ==> 200 * current + max >= 200 * max,
{
    let scaled: u64 = 200 * (current as u64) + (max as u64);
    let rounded: u64 = scaled / (2 * (max as u64));
    proof {
        let d = 2 * (max as int);
        vstd::arithmetic::div_mod::lemma_fundamental_div_mod(scaled as int, d);
        vstd::arithmetic::div_mod::lemma_mod_bound(scaled as int, d);
        assert(d * (rounded + 1) == d * rounded + d) by (nonlinear_arith);
        if rounded >= 100 {
            assert(d * rounded >= d * 100) by (nonlinear_arith)
                requires
                    rounded >= 100,
                    d > 0,
            ;
        }
    }
    if rounded > 100 {
        100
    } else {
        rounded as u32
    }
}

/// Whether a label that is already in lowercase holds one of the two words.
pub fn label_names_either(lowered: &Vec<char>, first: &str, second: &str) -> (named: bool)
    ensures
        named == names_either(lowered@, first@, second@),
{
    chars_contain(lowered, first) || chars_contain(lowered, second)
}

/// The byte count that the driver's object summary gives.
pub fn parse_gem_objects(content: &Vec<char>) -> (bytes: Option<u64>)
    ensures
        bytes == gem_bytes(content@),
{
    let n = content.len();
    let mut from: usize = 0;
    assert(content@.skip(0) =~= content@);
    loop
        invariant
            from <= n,
            n == content.len(),
            gem_bytes(content@) == gem_bytes(content@.skip(from as int)),
        decreases n - from,
    {
        let end = line_end(content, from);
        let line = slice_chars(content, from, end);
        let ghost rest = content@.skip(from as int);
        assert(rest.take(end - from) =~= line@);
        if chars_contain(&line, "bytes") {
            let word = first_word_of(&line);
            if let Some(bytes) = parse_u64(&word) {
                return Some(bytes);
            }
        }
        if end == n {
            return None;
        }
        assert(rest.skip(end - from + 1) =~= content@.skip(end + 1));
        from = end + 1;
    }
}

/// The temperature of the first sensor of `sensors` that gives one.
pub fn first_labelled_celsius(sensors: &Vec<LabelledSensor>, first: &str, second: &str) -> (degrees:
    Option<u32>)
    ensures
        degrees == first_sensor_celsius(sensors@, first@, second@),
{
    let mut at: usize = 0;
    assert(sensors@.skip(0) =~= sensors@);
    while at < sensors.len()
        invariant
            at <= sensors.len(),
            first_sensor_celsius(sensors@, first@, second@) == first_sensor_celsius(
                sensors@.skip(at as int),
                first@,
                second@,
            ),
        decreases sensors.len() - at,
    {
        let sensor = &sensors[at];
        let ghost rest = sensors@.skip(at as int);
        assert(rest.first() == sensors@[at as int]);
        assert(rest.drop_first() =~= sensors@.skip(at + 1));
        if let Some(label) = &sensor.label {
            let lowered = to_lowercase(label.as_str());
            let lowered = to_chars(lowered.as_str());
            if label_names_either(&lowered, first, second) {
                if let Some(found) = read_celsius(&sensor.input) {
                    return Some(found);
                }
            }
        }
        at += 1;
    }
    assert(sensors@.skip(at as int).len() == 0);
    None
}

/// The probe, bound to the directory of the card it found.
#[derive(Debug)]
pub struct IntelMonitor {
    device_path: String,
}

impl IntelMonitor {
    /// The directory of the bound card.
    pub closed spec fn path(self) -> Seq<char> {
        self.device_path@
    }

    /// Binds the first Intel card among `entries`, the entries of the
    /// device-enumeration directory in the order the system gave them (none
    /// where the directory is absent).
    pub fn new(entries: &Vec<DrmEntry>) -> (monitor: Result<Self, GpuError>)
        ensures
            match monitor {
                Ok(bound) => exists|at: int|
                    #[trigger] first_device_at(entries@, intel_vendor_id(), at) && bound.path()
                        == entries[at].path@,
                Err(e) => e == GpuError::NotFound && no_device(entries@, intel_vendor_id()),
            },
    {
        match find_device(entries, "0x8086") {
            Some(at) => Ok(IntelMonitor { device_path: entries[at].path.clone() }),
            None => Err(GpuError::NotFound),
        }
    }

    /// The directory of the bound card.
    pub fn device_path(&self) -> (path: &str)
        ensures
            path@ == self.path(),
    {
        self.device_path.as_str()
    }

    fn model_of(id: &Vec<char>) -> (model: &'static str)
        ensures
            model@ == intel_model(id@),
    {
        if chars_spell(id, "0x56a0") || chars_spell(id, "0x56a1") || chars_spell(id, "0x56a2") {
            "Arc A770"
        } else if chars_spell(id, "0x5690") || chars_spell(id, "0x5691") || chars_spell(
            id,
            "0x5692",
        ) {
            "Arc A750"
        } else if chars_spell(id, "0x56a5") || chars_spell(id, "0x56a6") {
            "Arc A580"
        } else if chars_spell(id, "0x56b0") || chars_spell(id, "0x56b1") {
            "Arc A380"
        } else if chars_spell(id, "0x56c0") || chars_spell(id, "0x56c1") {
            "Arc A310"
        } else if chars_spell(id, "0x9a49") || chars_spell(id, "0x9a40") || chars_spell(
            id,
            "0x9a59",
        ) {
            "Iris Xe Graphics"
        } else if chars_spell(id, "0x9a60") || chars_spell(id, "0x9a68") || chars_spell(
            id,
            "0x9a70",
        ) {
            "UHD Graphics"
        } else if chars_spell(id, "0x9a78") {
            "UHD Graphics (Tiger Lake)"
        } else if chars_spell(id, "0x4680") || chars_spell(id, "0x4682") || chars_spell(
            id,
            "0x4688",
        ) {
            "UHD Graphics (Alder Lake)"
        } else if chars_spell(id, "0xa780") || chars_spell(id, "0xa781") || chars_spell(
            id,
            "0xa782",
        ) {
            "UHD Graphics (Raptor Lake)"
        } else {
            "Graphics"
        }
    }

    fn get_gpu_name(&self, readings: &IntelReadings) -> (name: String)
        ensures
            name@ == intel_name(*readings),
    {
        if let Some(text) = &readings.gt_name {
            return label_name("Intel", text.as_str());
        }
        if let Some(text) = &readings.device_name {
            return label_name("Intel", text.as_str());
        }
        if let Some(text) = &readings.device_id {
            let chars = to_chars(text.as_str());
            let model = Self::model_of(&trim_chars(&chars));
            proof {
                reveal_strlit(" ");
                assert(" "@ =~= seq![' ']);
            }
            return String::from_str("Intel").concat(" ").concat(model);
        }
        "Unknown".to_owned()
    }

    fn get_gpu_utilization(&self, readings: &IntelReadings) -> (percent: u32)
        ensures
            percent == intel_utilization(*readings),
    {
        if let Some(current) = read_u32(&readings.current_frequency) {
            if let Some(max) = read_u32(&readings.max_frequency) {
                if max > 0 {
                    return share_of_max(current, max);
                }
            }
        }
        if let Some(percent) = read_u32(&readings.render_busy) {
            return percent;
        }
        0
    }

    fn get_memory_usage(&self, readings: &IntelReadings) -> (memory: (u64, u64))
        ensures
            memory == intel_memory(*readings),
    {
        if let Some(content) = &readings.gem_objects {
            let chars = to_chars(content.as_str());
            if let Some(bytes) = parse_gem_objects(&chars) {
                return (bytes, SHARED_MEMORY_ESTIMATE);
            }
        }
        let used = read_counter(&readings.memory_used);
        let total = read_counter(&readings.memory_total);
        (used, total)
    }

    fn get_temperature(&self, readings: &IntelReadings) -> (degrees: u32)
        ensures
            degrees == intel_temperature(*readings),
    {
        if let Some(degrees) = read_celsius(&readings.temp1_input) {
            return degrees;
        }
        if let Some(degrees) = first_labelled_celsius(&readings.sensors, "gpu", "package") {
            return degrees;
        }
        if let Some(degrees) = first_labelled_celsius(&readings.thermal_zones, "gpu", "pch") {
            return degrees;
        }
        0
    }

    /// The sample that `readings` give. It never fails: a value whose files
    /// could not be read or understood is 0, or `Unknown` for the name, and
    /// the other values are not touched by that.
    pub fn get_stats(&self, readings: &IntelReadings) -> (stats: Result<GpuStats, GpuError>)
        ensures
            stats matches Ok(sample) && sample@ == intel_stats(*readings),
    {
        let name = self.get_gpu_name(readings);
        let utilization = self.get_gpu_utilization(readings);
        let (memory_used, memory_total) = self.get_memory_usage(readings);
        let temperature = self.get_temperature(readings);
        Ok(GpuStats { name, utilization, memory_used, memory_total, temperature })
    }
}

/// A value is read from its own files alone: readings that agree on the
/// files of one value give the same value, whatever the other files hold.
pub proof fn intel_values_are_independent(first: IntelReadings, second: IntelReadings)
    ensures
        first.gt_name == second.gt_name && first.device_name == second.device_name
            && first.device_id == second.device_id ==> intel_stats(first).name == intel_stats(
            second,
        ).name,
        first.current_frequency == second.current_frequency && first.max_frequency
            == second.max_frequency && first.render_busy == second.render_busy ==> intel_stats(
            first,
        ).utilization == intel_stats(second).utilization,
        first.gem_objects == second.gem_objects && first.memory_used == second.memory_used
            && first.memory_total == second.memory_total ==> intel_stats(first).memory_used
            == intel_stats(second).memory_used && intel_stats(first).memory_total == intel_stats(
            second,
        ).memory_total,
        first.temp1_input == second.temp1_input && first.sensors@ == second.sensors@
            && first.thermal_zones@ == second.thermal_zones@ ==> intel_stats(first).temperature
            == intel_stats(second).temperature,
{
}

/// A value none of whose files could be read or understood is the
/// baseline's: `Unknown` for the name, 0 for a number.
pub proof fn intel_failed_value_is_baseline(readings: IntelReadings)
    ensures
        readings.gt_name is None && readings.device_name is None && readings.device_id is None
            ==> intel_stats(readings).name == baseline().name,
        (reading_u32(readings.current_frequency) is None || reading_u32(readings.max_frequency)
            is None) && reading_u32(readings.render_busy) is None ==> intel_stats(
            readings,
        ).utilization == 0,
        (readings.gem_objects matches Some(content) ==> gem_bytes(content@) is None)
            && reading_u64(readings.memory_used) is None && reading_u64(readings.memory_total)
            is None ==> intel_stats(readings).memory_used == 0 && intel_stats(
            readings,
        ).memory_total == 0,
        reading_u32(readings.temp1_input) is None && first_sensor_celsius(
            readings.sensors@,
            "gpu"@,
            "package"@,
        ) is None && first_sensor_celsius(readings.thermal_zones@, "gpu"@, "pch"@) is None
            ==> intel_stats(readings).temperature == 0,
{
}

} // verus!
