use ollama_tui::app::InputMode;
use ollama_tui::status::LogLevel;
use ollama_tui::ui::{
    bar_cells, dialog_title, empty_list_hint, gpu_summary, has_gpu_data, level_label,
    level_severity, load_severity, log_window_start, memory_percent, percent_text, progress_bar,
    temperature_severity, temperature_text, title_gap, vram_text, Severity, BAR_WIDTH, GIGABYTE,
};

const GIB: f64 = 1024.0 * 1024.0 * 1024.0;

#[test]
fn load_is_high_above_80_and_medium_above_50() {
    assert_eq!(load_severity(0), Severity::Low);
    assert_eq!(load_severity(50), Severity::Low);
    assert_eq!(load_severity(51), Severity::Medium);
    assert_eq!(load_severity(80), Severity::Medium);
    assert_eq!(load_severity(81), Severity::High);
    assert_eq!(load_severity(u32::MAX), Severity::High);
}

#[test]
fn temperature_is_high_above_80_and_medium_above_70() {
    assert_eq!(temperature_severity(0), Severity::Low);
    assert_eq!(temperature_severity(70), Severity::Low);
    assert_eq!(temperature_severity(71), Severity::Medium);
    assert_eq!(temperature_severity(80), Severity::Medium);
    assert_eq!(temperature_severity(81), Severity::High);
}

#[test]
fn memory_percent_is_the_share_in_use() {
    assert_eq!(memory_percent(0, 0), None);
    assert_eq!(memory_percent(5, 0), None);
    assert_eq!(memory_percent(0, 8), Some(0));
    assert_eq!(memory_percent(2147483648, 8589934592), Some(25));
    assert_eq!(memory_percent(1, 3), Some(33));
    assert_eq!(memory_percent(2, 3), Some(66));
    assert_eq!(memory_percent(8, 8), Some(100));
    assert_eq!(memory_percent(16, 8), Some(200));
    assert_eq!(memory_percent(u64::MAX, 1), Some(u32::MAX));
    assert_eq!(memory_percent(u64::MAX, u64::MAX), Some(100));
}

#[test]
fn a_bar_has_thirty_cells() {
    assert_eq!(BAR_WIDTH, 30);
    assert_eq!(bar_cells(0), (0, 30));
    assert_eq!(bar_cells(3), (0, 30));
    assert_eq!(bar_cells(4), (1, 29));
    assert_eq!(bar_cells(37), (11, 19));
    assert_eq!(bar_cells(50), (15, 15));
    assert_eq!(bar_cells(99), (29, 1));
    assert_eq!(bar_cells(100), (30, 0));
    assert_eq!(bar_cells(250), (30, 0));
    assert_eq!(bar_cells(u32::MAX), (30, 0));
}

#[test]
fn a_progress_bar_shows_its_cells() {
    for percent in [0u32, 4, 37, 50, 100, 180] {
        let (filled, empty) = bar_cells(percent);
        let expected = format!("[{}{}]", "\u{2588}".repeat(filled), "\u{2591}".repeat(empty));
        assert_eq!(progress_bar(percent), expected);
        assert_eq!(progress_bar(percent).chars().count(), 32);
    }
    assert_eq!(
        progress_bar(50),
        "[\u{2588}\u{2588}\u{2588}\u{2588}\u{2588}\u{2588}\u{2588}\u{2588}\u{2588}\u{2588}\u{2588}\u{2588}\u{2588}\u{2588}\u{2588}\u{2591}\u{2591}\u{2591}\u{2591}\u{2591}\u{2591}\u{2591}\u{2591}\u{2591}\u{2591}\u{2591}\u{2591}\u{2591}\u{2591}\u{2591}]"
    );
}

#[test]
fn gpu_data_is_shown_unless_all_is_unknown() {
    assert!(!has_gpu_data(0, "Unknown"));
    assert!(has_gpu_data(1, "Unknown"));
    assert!(has_gpu_data(0, "AMD GPU"));
    assert!(has_gpu_data(0, "Unknown GPU"));
    assert!(has_gpu_data(0, ""));
}

#[test]
fn the_summary_gives_load_and_memory() {
    assert_eq!(gpu_summary(37, 2147483648, 8589934592), "GPU: 37% 2.0GB");
    assert_eq!(gpu_summary(0, 0, 1), "GPU: 0% 0.0GB");
    assert_eq!(gpu_summary(100, 1610612736, 8589934592), "GPU: 100% 1.5GB");
    assert_eq!(gpu_summary(5, 123, 0), "GPU: N/A");
    let mut used: u64 = 0;
    while used < 60_000_000_000 {
        let expected = format!("GPU: {}% {:.1}GB", 12, used as f64 / GIB);
        assert_eq!(gpu_summary(12, used, 1), expected, "{}", used);
        used = used * 5 / 4 + 53_687_091;
    }
}

#[test]
fn the_memory_gauge_gives_use_and_total() {
    assert_eq!(GIGABYTE, 1073741824);
    assert_eq!(vram_text(2147483648, 8589934592), "2.00 / 8.00 GB");
    assert_eq!(vram_text(0, 0), "0.00 / 0.00 GB");
    assert_eq!(vram_text(1610612736, 25769803776), "1.50 / 24.00 GB");
    let mut used: u64 = 1;
    while used < 60_000_000_000 {
        let total = used * 3 + 7;
        let expected = format!("{:.2} / {:.2} GB", used as f64 / GIB, total as f64 / GIB);
        assert_eq!(vram_text(used, total), expected, "{}", used);
        used = used * 7 / 5 + 5_368_709;
    }
}

#[test]
fn values_are_shown_with_their_unit() {
    assert_eq!(percent_text(0), "0%");
    assert_eq!(percent_text(37), "37%");
    assert_eq!(percent_text(100), "100%");
    assert_eq!(temperature_text(45), "45\u{b0}C");
    assert_eq!(temperature_text(0), "0\u{b0}C");
}

#[test]
fn log_levels_have_their_tag() {
    assert_eq!(level_label(LogLevel::Info), "[INFO]");
    assert_eq!(level_label(LogLevel::Warning), "[WARN]");
    assert_eq!(level_label(LogLevel::Error), "[ERROR]");
    assert_eq!(level_severity(LogLevel::Info), Severity::Low);
    assert_eq!(level_severity(LogLevel::Warning), Severity::Medium);
    assert_eq!(level_severity(LogLevel::Error), Severity::High);
}

#[test]
fn the_log_shows_its_last_messages() {
    assert_eq!(log_window_start(0, 10), 0);
    assert_eq!(log_window_start(7, 10), 0);
    assert_eq!(log_window_start(10, 10), 0);
    assert_eq!(log_window_start(11, 10), 1);
    assert_eq!(log_window_start(100, 8), 92);
    assert_eq!(log_window_start(100, 0), 100);
}

#[test]
fn the_title_gap_is_what_the_texts_leave() {
    assert_eq!(title_gap(80, 10, 14), 50);
    assert_eq!(title_gap(30, 10, 14), 0);
    assert_eq!(title_gap(31, 10, 14), 1);
    assert_eq!(title_gap(0, 10, 14), 0);
    assert_eq!(title_gap(u16::MAX, 0, 0), u16::MAX - 6);
    assert_eq!(title_gap(100, usize::MAX, usize::MAX), 0);
    assert_eq!(title_gap(100, 95, 0), 0);
    assert_eq!(title_gap(100, 0, 94), 0);
    assert_eq!(title_gap(100, 0, 93), 1);
}

#[test]
fn an_empty_list_says_what_to_do() {
    assert_eq!(empty_list_hint(true), "No models found. Press 'p' to pull a model.");
    assert_eq!(empty_list_hint(false), "Ollama not running. Press 's' to start.");
}

#[test]
fn the_dialog_title_names_the_model_being_pulled() {
    assert_eq!(dialog_title(&InputMode::Normal), None);
    assert_eq!(dialog_title(&InputMode::PullDialog), Some(" Pull Model ".to_string()));
    assert_eq!(
        dialog_title(&InputMode::Pulling("llama3.2".to_string())),
        Some(" Pulling: llama3.2 ".to_string())
    );
}
