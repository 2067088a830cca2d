//! What the vendor probes share: the text of a kernel-interface file as a
//! reading, and the numbers read from it.

use crate::text::{
    chars_contain, chars_spell, chars_start_with, contains, parse_u32, parse_u32_spec, parse_u64,
    parse_u64_spec, starts_with, to_chars, trim, trim_bounds, trim_chars,
};
use vstd::string::{StrSliceExecFns, StringExecFns};
use vstd::prelude::*;

verus! {

/// The directory whose entries are the system's graphics devices.
pub const DRM_DIRECTORY: &'static str = "/sys/class/drm";

/// The vendor-identifier file of a device, below the device's directory.
pub const VENDOR_FILE: &'static str = "device/vendor";

/// The directory that holds a device's hardware-monitoring directory, below
/// the device's directory.
pub const HWMON_DIRECTORY: &'static str = "device/hwmon";

/// The `u32` that a reading writes, surrounding whitespace aside.
pub open spec fn reading_u32(reading: Option<String>) -> Option<u32> {
    match reading {
        Some(text) => parse_u32_spec(trim(text@)),
        None => None,
    }
}

/// The `u64` that a reading writes, surrounding whitespace aside.
pub open spec fn reading_u64(reading: Option<String>) -> Option<u64> {
    match reading {
        Some(text) => parse_u64_spec(trim(text@)),
        None => None,
    }
}

/// A memory counter: the number that the reading writes, else 0.
pub open spec fn counter(reading: Option<String>) -> u64 {
    match reading_u64(reading) {
        Some(bytes) => bytes,
        None => 0,
    }
}

/// Degrees Celsius from a sensor value in millidegrees.
pub open spec fn celsius(millidegrees: u32) -> u32 {
    (millidegrees / 1000) as u32
}

/// The temperature that a sensor reading gives, in degrees Celsius.
pub open spec fn reading_celsius(reading: Option<String>) -> Option<u32> {
    match reading_u32(reading) {
        Some(millidegrees) => Some(celsius(millidegrees)),
        None => None,
    }
}

/// The `u32` that a reading writes.
pub fn read_u32(reading: &Option<String>) -> (value: Option<u32>)
    ensures
        value == reading_u32(*reading),
{
    match reading {
        Some(text) => {
            let chars = to_chars(text.as_str());
            parse_u32(&trim_chars(&chars))
        },
        None => None,
    }
}

/// The `u64` that a reading writes.
pub fn read_u64(reading: &Option<String>) -> (value: Option<u64>)
    ensures
        value == reading_u64(*reading),
{
    match reading {
        Some(text) => {
            let chars = to_chars(text.as_str());
            parse_u64(&trim_chars(&chars))
        },
        None => None,
    }
}

/// The memory counter that a reading gives.
pub fn read_counter(reading: &Option<String>) -> (bytes: u64)
    ensures
        bytes == counter(*reading),
{
    match read_u64(reading) {
        Some(bytes) => bytes,
        None => 0,
    }
}

/// The temperature that a sensor reading gives, in degrees Celsius.
pub fn read_celsius(reading: &Option<String>) -> (value: Option<u32>)
    ensures
        value == reading_celsius(*reading),
{
    match read_u32(reading) {
        Some(millidegrees) => Some(millidegrees / 1000),
        None => None,
    }
}

/// `label`, a space, and `text` without its surrounding whitespace.
pub open spec fn labelled(label: Seq<char>, text: Seq<char>) -> Seq<char> {
    label + seq![' '] + trim(text)
}

/// The device name made of a vendor label and the text of a name file.
pub fn label_name(label: &str, text: &str) -> (name: String)
    ensures
        name@ == labelled(label@, text@),
{
    let chars = to_chars(text);
    let (start, end) = trim_bounds(&chars);
    let trimmed = text.substring_char(start, end);
    proof {
        reveal_strlit(" ");
        assert(" "@ =~= seq![' ']);
    }
    String::from_str(label).concat(" ").concat(trimmed)
}

/// One entry of the device-enumeration directory.
#[derive(Debug)]
pub struct DrmEntry {
    /// The entry's file name.
    pub name: String,
    /// The entry's full path.
    pub path: String,
    /// The text of the entry's vendor-identifier file, where it could be read.
    pub vendor: Option<String>,
}

/// Whether a directory entry names a graphics card rather than a render node.
pub open spec fn is_card_name(name: Seq<char>) -> bool {
    starts_with(name, "card"@) && !contains(name, "render"@)
}

/// Whether `entry` is a card of the vendor with identifier `vendor_id`.
pub open spec fn is_device_of(entry: DrmEntry, vendor_id: Seq<char>) -> bool {
    &&& is_card_name(entry.name@)
    &&& entry.vendor matches Some(text)
    &&& trim(text@) == vendor_id
}

/// Whether the entry at `at` is the first card of the given vendor, in the
/// order of `entries`: the first match wins.
pub open spec fn first_device_at(entries: Seq<DrmEntry>, vendor_id: Seq<char>, at: int) -> bool {
    &&& 0 <= at < entries.len()
    &&& is_device_of(entries[at], vendor_id)
    &&& forall|j: int| 0 <= j < at ==> !is_device_of(#[trigger] entries[j], vendor_id)
}

/// Whether no entry is a card of the given vendor.
pub open spec fn no_device(entries: Seq<DrmEntry>, vendor_id: Seq<char>) -> bool {
    forall|j: int| 0 <= j < entries.len() ==> !is_device_of(#[trigger] entries[j], vendor_id)
}

/// The first entry that is a card of the given vendor, in the order of
/// `entries`.
pub fn find_device(entries: &Vec<DrmEntry>, vendor_id: &str) -> (found: Option<usize>)
    ensures
        match found {
            Some(at) => first_device_at(entries@, vendor_id@, at as int),
            None => no_device(entries@, vendor_id@),
        },
{
    let mut at: usize = 0;
    while at < entries.len()
        invariant
            at <= entries.len(),
            forall|j: int| 0 <= j < at ==> !is_device_of(#[trigger] entries[j], vendor_id@),
        decreases entries.len() - at,
    {
        let entry = &entries[at];
        let name = to_chars(entry.name.as_str());
        if chars_start_with(&name, "card") && !chars_contain(&name, "render") {
            match &entry.vendor {
                Some(text) => {
                    let chars = to_chars(text.as_str());
                    if chars_spell(&trim_chars(&chars), vendor_id) {
                        return Some(at);
                    }
                },
                None => {},
            }
        }
        at += 1;
    }
    None
}

/// The first name that begins with `hwmon`, in the order of `names`: the
/// hardware-monitoring directory of a device.
pub fn find_hwmon(names: &Vec<String>) -> (found: Option<usize>)
    ensures
        match found {
            Some(at) => {
                &&& at < names.len()
                &&& starts_with(names[at as int]@, "hwmon"@)
                &&& forall|j: int| 0 <= j < at ==> !starts_with(#[trigger] names[j]@, "hwmon"@)
            },
            None => forall|j: int|
                0 <= j < names.len() ==> !starts_with(#[trigger] names[j]@, "hwmon"@),
        },
{
    let mut at: usize = 0;
    while at < names.len()
        invariant
            at <= names.len(),
            forall|j: int| 0 <= j < at ==> !starts_with(#[trigger] names[j]@, "hwmon"@),
        decreases names.len() - at,
    {
        let name = to_chars(names[at].as_str());
        if chars_start_with(&name, "hwmon") {
            return Some(at);
        }
        at += 1;
    }
    None
}

} // verus!
