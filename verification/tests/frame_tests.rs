use sysmon::color::UsageColor;
use sysmon::frame::build_frame;
use sysmon::frame::cpu_gauge_title;
use sysmon::frame::cpu_header;
use sysmon::frame::mem_gauge_title;
use sysmon::frame::name_header;
use sysmon::frame::pid_header;
use sysmon::frame::table_title;
use sysmon::frame::CPU_COLUMN_PERCENT;
use sysmon::frame::CPU_GAUGE_HEIGHT;
use sysmon::frame::MEM_GAUGE_HEIGHT;
use sysmon::frame::NAME_COLUMN_PERCENT;
use sysmon::frame::PID_COLUMN_PERCENT;
use sysmon::frame::TABLE_MIN_HEIGHT;
use sysmon::metrics::ProcessInfo;
use sysmon::metrics::Snapshot;

fn proc(pid: u64, cpu_milli_percent: u64) -> ProcessInfo {
    ProcessInfo { pid, name: format!("proc-{}", pid), cpu_milli_percent }
}

fn sample_snapshot() -> Snapshot {
    Snapshot {
        cpu_milli_percent: 62_500,
        total_memory_bytes: 1000,
        used_memory_bytes: 250,
        processes: vec![proc(1, 5_000), proc(2, 90_000), proc(3, 12_000)],
    }
}

#[test]
fn frame_shows_snapshot_values() {
    let frame = build_frame(&sample_snapshot());
    assert_eq!(frame.cpu_gauge.milli_percent, 62_500);
    assert_eq!(frame.cpu_gauge.color, UsageColor::Yellow);
    assert_eq!(frame.cpu_gauge.display_percent, 62);
    assert_eq!(frame.mem_gauge.milli_percent, 25_000);
    assert_eq!(frame.mem_gauge.color, UsageColor::Green);
    assert_eq!(frame.mem_gauge.display_percent, 25);
    let pids: Vec<u64> = frame.rows.iter().map(|p| p.pid).collect();
    assert_eq!(pids, vec![2, 3, 1]);
}

#[test]
fn same_snapshot_builds_same_frame() {
    // Frame building is pure: two consecutive builds from one snapshot
    // agree, and the snapshot itself is left unchanged.
    let snapshot = sample_snapshot();
    let first = build_frame(&snapshot);
    let second = build_frame(&snapshot);
    assert_eq!(first, second);
    assert_eq!(snapshot, sample_snapshot());
}

#[test]
fn zero_total_memory_renders_zero_gauge() {
    let snapshot = Snapshot {
        cpu_milli_percent: 10_000,
        total_memory_bytes: 0,
        used_memory_bytes: 0,
        processes: Vec::new(),
    };
    let frame = build_frame(&snapshot);
    assert_eq!(frame.mem_gauge.milli_percent, 0);
    assert_eq!(frame.mem_gauge.display_percent, 0);
    assert_eq!(frame.mem_gauge.color, UsageColor::Green);
    assert!(frame.rows.is_empty());
}

#[test]
fn cpu_above_hundred_percent_is_clamped_on_display() {
    let snapshot = Snapshot {
        cpu_milli_percent: 240_000,
        total_memory_bytes: 8,
        used_memory_bytes: 8,
        processes: Vec::new(),
    };
    let frame = build_frame(&snapshot);
    assert_eq!(frame.cpu_gauge.milli_percent, 240_000);
    assert_eq!(frame.cpu_gauge.display_percent, 100);
    assert_eq!(frame.cpu_gauge.color, UsageColor::Red);
    assert_eq!(frame.mem_gauge.display_percent, 100);
}

#[test]
fn panel_titles_are_exact() {
    assert_eq!(cpu_gauge_title(), " CPU Usage ");
    assert_eq!(mem_gauge_title(), " Memory Usage ");
    assert_eq!(table_title(), " Top Processes ");
}

#[test]
fn table_headers_are_exact() {
    assert_eq!(pid_header(), "PID");
    assert_eq!(name_header(), "Name");
    assert_eq!(cpu_header(), "CPU%");
}

#[test]
fn layout_measurements_are_exact() {
    assert_eq!(CPU_GAUGE_HEIGHT, 3);
    assert_eq!(MEM_GAUGE_HEIGHT, 3);
    assert_eq!(TABLE_MIN_HEIGHT, 5);
    assert_eq!(PID_COLUMN_PERCENT, 20);
    assert_eq!(NAME_COLUMN_PERCENT, 50);
    assert_eq!(CPU_COLUMN_PERCENT, 30);
}
