use sysmon::color::color_for;
use sysmon::color::UsageColor;
use sysmon::color::HIGH_THRESHOLD_MILLI;
use sysmon::color::MEDIUM_THRESHOLD_MILLI;
use sysmon::frame::display_percent;
use sysmon::metrics::mem_percent_milli;

#[test]
fn color_band_boundaries() {
    // 49.999% is low, exactly 50% is medium, 79.999% is medium,
    // exactly 80% is high.
    assert_eq!(color_for(49_999), UsageColor::Green);
    assert_eq!(color_for(50_000), UsageColor::Yellow);
    assert_eq!(color_for(79_999), UsageColor::Yellow);
    assert_eq!(color_for(80_000), UsageColor::Red);
}

#[test]
fn color_band_interiors() {
    assert_eq!(color_for(0), UsageColor::Green);
    assert_eq!(color_for(25_000), UsageColor::Green);
    assert_eq!(color_for(65_000), UsageColor::Yellow);
    assert_eq!(color_for(99_000), UsageColor::Red);
    assert_eq!(color_for(250_000), UsageColor::Red);
}

#[test]
fn color_thresholds_are_50_and_80_percent() {
    assert_eq!(MEDIUM_THRESHOLD_MILLI, 50_000);
    assert_eq!(HIGH_THRESHOLD_MILLI, 80_000);
}

#[test]
fn mem_percent_quarter_used() {
    // 250 of 1000 bytes used is 25%, i.e. 25000 milli-percent.
    assert_eq!(mem_percent_milli(1000, 250), 25_000);
}

#[test]
fn mem_percent_zero_total_is_zero() {
    // A zero total must yield 0, never an undefined value.
    assert_eq!(mem_percent_milli(0, 0), 0);
}

#[test]
fn mem_percent_all_used() {
    assert_eq!(mem_percent_milli(1234, 1234), 100_000);
}

#[test]
fn mem_percent_rounds_down() {
    // 1 of 3 bytes used: 33.333...% truncates to 33333 milli-percent.
    assert_eq!(mem_percent_milli(3, 1), 33_333);
}

#[test]
fn mem_percent_largest_sizes() {
    assert_eq!(mem_percent_milli(u64::MAX, u64::MAX), 100_000);
    assert_eq!(mem_percent_milli(u64::MAX, u64::MAX / 2), 49_999);
}

#[test]
fn display_percent_truncates_to_whole() {
    assert_eq!(display_percent(42_500), 42);
    assert_eq!(display_percent(999), 0);
}

#[test]
fn display_percent_clamps_overflowing_cpu_sums() {
    // Multi-core CPU sums may exceed 100%; the gauge shows at most 100.
    assert_eq!(display_percent(100_000), 100);
    assert_eq!(display_percent(150_000), 100);
    assert_eq!(display_percent(u64::MAX), 100);
}
