//! Frame description: what one repaint of the screen shows.
//!
//! A frame is a vertical stack of three regions: a CPU gauge, a memory
//! gauge, and the top-processes table. Building a frame from a snapshot
//! is a pure computation; the drawing itself is left to the render
//! surface, which receives the finished description.

use vstd::prelude::*;
use crate::color::UsageColor;
use crate::color::spec_color_for;
use crate::color::color_for;
use crate::metrics::Snapshot;
use crate::metrics::SnapshotView;
use crate::metrics::ProcessInfo;
use crate::metrics::spec_mem_percent_milli;
use crate::metrics::mem_percent_milli;
use crate::metrics::clone_processes;
use crate::rank::top_ranked;
use crate::rank::rank_processes;

verus! {

/// Height, in terminal rows, of the CPU gauge region.
pub const CPU_GAUGE_HEIGHT: u16 = 3;

/// Height, in terminal rows, of the memory gauge region.
pub const MEM_GAUGE_HEIGHT: u16 = 3;

/// Least height, in terminal rows, of the process-table region.
pub const TABLE_MIN_HEIGHT: u16 = 5;

/// Width share, in percent, of the process id column.
pub const PID_COLUMN_PERCENT: u16 = 20;

/// Width share, in percent, of the process name column.
pub const NAME_COLUMN_PERCENT: u16 = 50;

/// Width share, in percent, of the CPU usage column.
pub const CPU_COLUMN_PERCENT: u16 = 30;

/// One gauge of the frame: the value it stands for in milli-percent,
/// its severity color, and the whole percentage it displays.
#[derive(Clone, Copy, Debug, PartialEq, Eq, Structural)]
pub struct GaugeView {
    pub milli_percent: u64,
    pub color: UsageColor,
    pub display_percent: u16,
}

/// One repaint of the screen: two gauges and the ranked process table.
#[derive(Debug, PartialEq, Eq)]
pub struct Frame {
    pub cpu_gauge: GaugeView,
    pub mem_gauge: GaugeView,
    pub rows: Vec<ProcessInfo>,
}

/// Mathematical model of a frame.
pub struct FrameView {
    pub cpu_gauge: GaugeView,
    pub mem_gauge: GaugeView,
    pub rows: Seq<ProcessInfo>,
}

impl View for Frame {
    type V = FrameView;

    open spec fn view(&self) -> FrameView {
        FrameView { cpu_gauge: self.cpu_gauge, mem_gauge: self.mem_gauge, rows: self.rows@ }
    }
}

/// The whole percentage a gauge displays for a milli-percent value:
/// the value cut to whole percent and clamped to at most 100, since a
/// per-core CPU sum may exceed 100%.
pub open spec fn spec_display_percent(milli_percent: u64) -> u16 {
    if milli_percent / 1000 >= 100 {
        100
    } else {
        (milli_percent / 1000) as u16
    }
}

/// Clamps a milli-percent value to the whole percentage a gauge shows.
pub fn display_percent(milli_percent: u64) -> (r: u16)
    ensures
        r == spec_display_percent(milli_percent),
        r <= 100,
{
    let whole = milli_percent / 1000;
    if whole >= 100 {
        100
    } else {
        whole as u16
    }
}

/// The gauge that stands for a milli-percent value.
pub open spec fn spec_gauge(milli_percent: u64) -> GaugeView {
    GaugeView {
        milli_percent,
        color: spec_color_for(milli_percent),
        display_percent: spec_display_percent(milli_percent),
    }
}

fn gauge_for(milli_percent: u64) -> (g: GaugeView)
    ensures
        g == spec_gauge(milli_percent),
{
    GaugeView {
        milli_percent,
        color: color_for(milli_percent),
        display_percent: display_percent(milli_percent),
    }
}

/// The frame a snapshot is rendered as: a CPU gauge, a memory gauge
/// whose value is the used share of total memory, and the ranked
/// process table.
pub open spec fn spec_frame(s: SnapshotView) -> FrameView {
    FrameView {
        cpu_gauge: spec_gauge(s.cpu_milli_percent),
        mem_gauge: spec_gauge(
            spec_mem_percent_milli(s.total_memory_bytes, s.used_memory_bytes) as u64,
        ),
        rows: top_ranked(s.processes),
    }
}

/// Builds the frame for one snapshot.
///
/// The computation is a function of the snapshot alone: two calls on
/// the same snapshot describe the same frame.
pub fn build_frame(snapshot: &Snapshot) -> (f: Frame)
    requires
        snapshot@.wf(),
    ensures
        f@ == spec_frame(snapshot@),
{
    let cpu_gauge = gauge_for(snapshot.cpu_milli_percent);
    let mem_milli = mem_percent_milli(snapshot.total_memory_bytes, snapshot.used_memory_bytes);
    let mem_gauge = gauge_for(mem_milli);
    let rows = rank_processes(clone_processes(&snapshot.processes));
    Frame { cpu_gauge, mem_gauge, rows }
}

/// Frame building is deterministic: any two frames built from the same
/// snapshot are equal. No state leaks from one build into the next.
pub proof fn lemma_frame_deterministic(s: SnapshotView, f1: FrameView, f2: FrameView)
    requires
        f1 == spec_frame(s),
        f2 == spec_frame(s),
    ensures
        f1 == f2,
{
}

/// The table a frame shows is the ranked view of the snapshot's
/// processes: at most [`crate::rank::TOP_N`] rows, in ranking order,
/// each a process of the snapshot, and every process left out ranks no
/// earlier than every row shown.
pub proof fn lemma_frame_rows_ranked(s: SnapshotView)
    ensures
        spec_frame(s).rows.len() <= crate::rank::TOP_N,
        crate::rank::sorted_by_rank(spec_frame(s).rows),
        forall|x: ProcessInfo|
            spec_frame(s).rows.to_multiset().count(x) <= s.processes.to_multiset().count(x),
        forall|i: int, x: ProcessInfo|
            0 <= i < spec_frame(s).rows.len() && s.processes.to_multiset().count(x) > spec_frame(
                s,
            ).rows.to_multiset().count(x) ==> crate::rank::ranks_no_later(spec_frame(s).rows[i], x),
{
    broadcast use vstd::seq_lib::group_to_multiset_ensures;

    crate::rank::lemma_top_ranked_len(s.processes);
    crate::rank::lemma_ranked_sorted(s.processes);
    crate::rank::lemma_ranked_len(s.processes);
    crate::rank::lemma_ranked_multiset(s.processes);
    crate::rank::lemma_top_ranked_dominates(s.processes);
    let all = crate::rank::ranked(s.processes);
    if s.processes.len() <= crate::rank::TOP_N {
    } else {
        let kept = all.take(crate::rank::TOP_N as int);
        let dropped = all.skip(crate::rank::TOP_N as int);
        assert(all =~= kept + dropped);
        vstd::seq_lib::lemma_multiset_commutative(kept, dropped);
        assert forall|i: int, j: int|
            0 <= i <= j < kept.len() implies crate::rank::ranks_no_later(kept[i], kept[j]) by {
            assert(crate::rank::ranks_no_later(all[i], all[j]));
        }
    }
}

/// Title of the CPU gauge panel.
pub fn cpu_gauge_title() -> (t: &'static str)
    ensures
        t@ == " CPU Usage "@,
{
    " CPU Usage "
}

/// Title of the memory gauge panel.
pub fn mem_gauge_title() -> (t: &'static str)
    ensures
        t@ == " Memory Usage "@,
{
    " Memory Usage "
}

/// Title of the process-table panel.
pub fn table_title() -> (t: &'static str)
    ensures
        t@ == " Top Processes "@,
{
    " Top Processes "
}

/// Header of the process id column.
pub fn pid_header() -> (t: &'static str)
    ensures
        t@ == "PID"@,
{
    "PID"
}

/// Header of the process name column.
pub fn name_header() -> (t: &'static str)
    ensures
        t@ == "Name"@,
{
    "Name"
}

/// Header of the CPU usage column.
pub fn cpu_header() -> (t: &'static str)
    ensures
        t@ == "CPU%"@,
{
    "CPU%"
}

} // verus!
