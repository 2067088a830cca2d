//! What the dashboard shows, as far as it is decided and not drawn: the
//! severity of a value, the cells of a bar, the texts of the gauges and the
//! part of the log that fits.

use crate::app::InputMode;
use crate::status::LogLevel;
use crate::text::{
    chars_spell, decimal_digits, one_decimal, render_decimal, render_one_decimal,
    render_two_decimals, rounded_quotient, scaled_quotient, to_chars, two_decimals,
};
use vstd::prelude::*;
use vstd::string::StringExecFns;

verus! {

/// The number of cells of a progress bar.
pub const BAR_WIDTH: usize = 30;

/// The number of bytes of a GB, as sizes are shown.
pub const GIGABYTE: u64 = 1073741824;

/// How alarming a value is; it is shown in green, yellow or red.
#[derive(Debug, Clone, Copy, PartialEq, Eq, Structural)]
pub enum Severity {
    Low,
    Medium,
    High,
}

/// The severity of a value against its two thresholds.
pub open spec fn severity_above(value: u32, medium: u32, high: u32) -> Severity {
    if value > high {
        Severity::High
    } else if value > medium {
        Severity::Medium
    } else {
        Severity::Low
    }
}

/// The severity of a busy share or of a memory share: high above 80
/// percent, medium above 50.
pub fn load_severity(percent: u32) -> (severity: Severity)
    ensures
        severity == severity_above(percent, 50, 80),
{
    if percent > 80 {
        Severity::High
    } else if percent > 50 {
        Severity::Medium
    } else {
        Severity::Low
    }
}

/// The severity of a temperature: high above 80 degrees, medium above 70.
pub fn temperature_severity(degrees: u32) -> (severity: Severity)
    ensures
        severity == severity_above(degrees, 70, 80),
{
    if degrees > 80 {
        Severity::High
    } else if degrees > 70 {
        Severity::Medium
    } else {
        Severity::Low
    }
}

/// The share of `total` that `used` is, in whole percent, rounded down; it
/// is held to what a `u32` holds.
pub open spec fn memory_share(used: u64, total: u64) -> u32
    recommends
        total > 0,
{
    let percent = used * 100 / (total as int);
    if percent > u32::MAX {
        u32::MAX
    } else {
        percent as u32
    }
}

/// The share of the memory that is in use, in percent; `None` where the
/// total is not known.
pub fn memory_percent(used: u64, total: u64) -> (percent: Option<u32>)
    ensures
        percent == if total > 0 {
            Some(memory_share(used, total))
        } else {
            None
        },
{
    if total == 0 {
        return None;
    }
    let share: u128 = (used as u128) * 100 / (total as u128);
    if share > u32::MAX as u128 {
        Some(u32::MAX)
    } else {
        Some(share as u32)
    }
}

/// The number of filled cells of a progress bar that shows `percent`.
pub open spec fn filled_cells(percent: u32) -> nat {
    let cells = percent * BAR_WIDTH / 100;
    if cells > BAR_WIDTH {
        BAR_WIDTH as nat
    } else {
        cells as nat
    }
}

/// The filled and the empty cells of a progress bar that shows `percent`.
pub fn bar_cells(percent: u32) -> (cells: (usize, usize))
    ensures
        cells.0 == filled_cells(percent),
        cells.0 + cells.1 == BAR_WIDTH,
{
    let width: u64 = 30;
    assert(width == BAR_WIDTH);
    let filled: u64 = (percent as u64) * width / 100;
    if filled > width {
        (BAR_WIDTH, 0)
    } else {
        (filled as usize, BAR_WIDTH - filled as usize)
    }
}

/// `count` times the character `c`.
pub open spec fn repeated(c: char, count: nat) -> Seq<char> {
    Seq::new(count, |i: int| c)
}

/// A progress bar as text: the filled cells, then the empty ones, in
/// brackets.
pub open spec fn bar_text(percent: u32) -> Seq<char> {
    seq!['['] + repeated('█', filled_cells(percent)) + repeated(
        '░',
        (BAR_WIDTH - filled_cells(percent)) as nat,
    ) + seq![']']
}

fn append_repeated(text: String, cell: &str, c: char, count: usize) -> (longer: String)
    requires
        cell@ == seq![c],
    ensures
        longer@ == text@ + repeated(c, count as nat),
{
    let mut longer = text;
    let mut done: usize = 0;
    assert(longer@ =~= text@ + repeated(c, 0));
    while done < count
        invariant
            done <= count,
            cell@ == seq![c],
            longer@ == text@ + repeated(c, done as nat),
        decreases count - done,
    {
        longer = longer.concat(cell);
        done += 1;
        assert(longer@ =~= text@ + repeated(c, done as nat));
    }
    longer
}

/// The progress bar that shows `percent`.
pub fn progress_bar(percent: u32) -> (text: String)
    ensures
        text@ == bar_text(percent),
{
    let (filled, empty) = bar_cells(percent);
    proof {
        reveal_strlit("[");
        reveal_strlit("]");
        reveal_strlit("█");
        reveal_strlit("░");
        assert("█"@ =~= seq!['█']);
        assert("░"@ =~= seq!['░']);
    }
    let text = String::from_str("[");
    let text = append_repeated(text, "█", '█', filled);
    let text = append_repeated(text, "░", '░', empty);
    let text = text.concat("]");
    assert(text@ =~= bar_text(percent));
    text
}

/// Whether there is GPU telemetry to show: not where the total memory is 0
/// and the name is `Unknown`.
pub fn has_gpu_data(memory_total: u64, name: &str) -> (shown: bool)
    ensures
        shown == !(memory_total == 0 && name@ == "Unknown"@),
{
    !(memory_total == 0 && chars_spell(&to_chars(name), "Unknown"))
}

/// The GPU summary of the title bar: the busy share and the memory in use in
/// GB with one decimal; `GPU: N/A` where the total memory is not known.
pub open spec fn summary_text(utilization: u32, memory_used: u64, memory_total: u64) -> Seq<char> {
    if memory_total > 0 {
        "GPU: "@ + decimal_digits(utilization as nat) + "% "@ + one_decimal(
            rounded_quotient(memory_used as nat * 10, GIGABYTE as nat),
        ) + "GB"@
    } else {
        "GPU: N/A"@
    }
}

/// The GPU summary of the title bar.
pub fn gpu_summary(utilization: u32, memory_used: u64, memory_total: u64) -> (text: String)
    ensures
        text@ == summary_text(utilization, memory_used, memory_total),
{
    if memory_total > 0 {
        let memory = render_one_decimal(scaled_quotient(memory_used, 10, GIGABYTE));
        String::from_str("GPU: ").concat(render_decimal(utilization as u64).as_str()).concat(
            "% ",
        ).concat(memory.as_str()).concat("GB")
    } else {
        String::from_str("GPU: N/A")
    }
}

/// The memory gauge: the memory in use and in all, in GB with two decimals.
pub open spec fn memory_text(used: u64, total: u64) -> Seq<char> {
    two_decimals(rounded_quotient(used as nat * 100, GIGABYTE as nat)) + " / "@ + two_decimals(
        rounded_quotient(total as nat * 100, GIGABYTE as nat),
    ) + " GB"@
}

/// The memory gauge.
pub fn vram_text(used: u64, total: u64) -> (text: String)
    ensures
        text@ == memory_text(used, total),
{
    let total_text = render_two_decimals(scaled_quotient(total, 100, GIGABYTE));
    render_two_decimals(scaled_quotient(used, 100, GIGABYTE)).concat(" / ").concat(
        total_text.as_str(),
    ).concat(" GB")
}

/// A busy share as text.
pub fn percent_text(percent: u32) -> (text: String)
    ensures
        text@ == decimal_digits(percent as nat) + "%"@,
{
    render_decimal(percent as u64).concat("%")
}

/// A temperature as text.
pub fn temperature_text(degrees: u32) -> (text: String)
    ensures
        text@ == decimal_digits(degrees as nat) + "°C"@,
{
    render_decimal(degrees as u64).concat("°C")
}

/// The tag that the status log shows before a message.
pub open spec fn level_tag(level: LogLevel) -> Seq<char> {
    match level {
        LogLevel::Info => "[INFO]"@,
        LogLevel::Warning => "[WARN]"@,
        LogLevel::Error => "[ERROR]"@,
    }
}

/// The tag that the status log shows before a message.
pub fn level_label(level: LogLevel) -> (label: &'static str)
    ensures
        label@ == level_tag(level),
{
    match level {
        LogLevel::Info => "[INFO]",
        LogLevel::Warning => "[WARN]",
        LogLevel::Error => "[ERROR]",
    }
}

/// The severity that a log level is shown with.
pub fn level_severity(level: LogLevel) -> (severity: Severity)
    ensures
        severity == match level {
            LogLevel::Info => Severity::Low,
            LogLevel::Warning => Severity::Medium,
            LogLevel::Error => Severity::High,
        },
{
    match level {
        LogLevel::Info => Severity::Low,
        LogLevel::Warning => Severity::Medium,
        LogLevel::Error => Severity::High,
    }
}

/// The index of the first message that the status log shows in `height`
/// lines: the last `height` messages fit.
pub fn log_window_start(count: usize, height: usize) -> (start: usize)
    ensures
        start == if count > height {
            count - height
        } else {
            0
        },
{
    if count > height {
        count - height
    } else {
        0
    }
}

/// The width of the gap between the title and the GPU summary in a title
/// bar of that width: what the two texts and six cells of padding and
/// border leave, and 0 where they leave nothing.
pub fn title_gap(width: u16, title_width: usize, summary_width: usize) -> (gap: u16)
    ensures
        gap == if width > title_width + summary_width + 6 {
            width - title_width - summary_width - 6
        } else {
            0
        },
{
    let width = width as usize;
    if title_width >= width || summary_width >= width - title_width || 6 >= width - title_width
        - summary_width {
        0
    } else {
        (width - title_width - summary_width - 6) as u16
    }
}

/// What the model list says while it is empty.
pub fn empty_list_hint(ollama_running: bool) -> (hint: &'static str)
    ensures
        hint@ == if ollama_running {
            "No models found. Press 'p' to pull a model."@
        } else {
            "Ollama not running. Press 's' to start."@
        },
{
    if ollama_running {
        "No models found. Press 'p' to pull a model."
    } else {
        "Ollama not running. Press 's' to start."
    }
}

/// The title of the pull dialog; `None` while the dialog is not shown.
pub fn dialog_title(mode: &InputMode) -> (title: Option<String>)
    ensures
        match mode {
            InputMode::Normal => title is None,
            InputMode::PullDialog => title matches Some(text) && text@ == " Pull Model "@,
            InputMode::Pulling(name) => title matches Some(text) && text@ == " Pulling: "@ + name@
                + " "@,
        },
{
    match mode {
        InputMode::Normal => None,
        InputMode::PullDialog => Some(String::from_str(" Pull Model ")),
        InputMode::Pulling(name) => Some(
            String::from_str(" Pulling: ").concat(name.as_str()).concat(" "),
        ),
    }
}

} // verus!
