//! Snapshot data model and the memory-percentage computation.
//!
//! A snapshot is one synchronous read of host and per-process metrics.
//! CPU percentages are carried in milli-percent (thousandths of a
//! percent); memory sizes are byte counts.

use vstd::prelude::*;

verus! {

/// One process as seen in a snapshot: id, name, and its CPU usage in
/// milli-percent (a value may exceed 100% on multi-core hosts).
#[derive(Debug, PartialEq, Eq)]
pub struct ProcessInfo {
    pub pid: u64,
    pub name: String,
    pub cpu_milli_percent: u64,
}

/// One synchronous read of host and process metrics.
#[derive(Debug, PartialEq, Eq)]
pub struct Snapshot {
    pub cpu_milli_percent: u64,
    pub total_memory_bytes: u64,
    pub used_memory_bytes: u64,
    pub processes: Vec<ProcessInfo>,
}

/// Mathematical model of a snapshot.
pub struct SnapshotView {
    pub cpu_milli_percent: u64,
    pub total_memory_bytes: u64,
    pub used_memory_bytes: u64,
    pub processes: Seq<ProcessInfo>,
}

impl View for Snapshot {
    type V = SnapshotView;

    open spec fn view(&self) -> SnapshotView {
        SnapshotView {
            cpu_milli_percent: self.cpu_milli_percent,
            total_memory_bytes: self.total_memory_bytes,
            used_memory_bytes: self.used_memory_bytes,
            processes: self.processes@,
        }
    }
}

impl SnapshotView {
    /// A snapshot never reports more memory used than the host has.
    pub open spec fn wf(self) -> bool {
        self.used_memory_bytes <= self.total_memory_bytes
    }
}

/// Used memory as a share of total memory, in milli-percent; zero when
/// the total is zero, so that a gauge never receives an undefined value.
pub open spec fn spec_mem_percent_milli(total_memory_bytes: u64, used_memory_bytes: u64) -> int {
    if total_memory_bytes == 0 {
        0
    } else {
        (used_memory_bytes as int) * 100_000 / (total_memory_bytes as int)
    }
}

/// Computes the used-memory percentage in milli-percent.
///
/// A zero total (which would make the ratio undefined) yields 0 rather
/// than an error, as the gauge must always receive a percentage.
pub fn mem_percent_milli(total_memory_bytes: u64, used_memory_bytes: u64) -> (r: u64)
    requires
        used_memory_bytes <= total_memory_bytes,
    ensures
        r == spec_mem_percent_milli(total_memory_bytes, used_memory_bytes),
        r <= 100_000,
{
    if total_memory_bytes == 0 {
        0
    } else {
        let wide: u128 = (used_memory_bytes as u128) * 100_000 / (total_memory_bytes as u128);
        proof {
            assert((used_memory_bytes as int) * 100_000 / (total_memory_bytes as int) <= 100_000)
                by (nonlinear_arith)
                requires
                    used_memory_bytes <= total_memory_bytes,
                    total_memory_bytes > 0,
            ;
        }
        wide as u64
    }
}

/// A field-for-field copy of a process record.
pub fn clone_process(p: &ProcessInfo) -> (r: ProcessInfo)
    ensures
        r == *p,
{
    ProcessInfo { pid: p.pid, name: p.name.clone(), cpu_milli_percent: p.cpu_milli_percent }
}

/// A field-for-field copy of a process list.
pub fn clone_processes(ps: &Vec<ProcessInfo>) -> (r: Vec<ProcessInfo>)
    ensures
        r@ == ps@,
{
    let mut r: Vec<ProcessInfo> = Vec::new();
    let mut i: usize = 0;
    while i < ps.len()
        invariant
            i <= ps@.len(),
            r@ == ps@.take(i as int),
        decreases ps@.len() - i,
    {
        r.push(clone_process(&ps[i]));
        proof {
            assert(r@ =~= ps@.take(i + 1 as int));
        }
        i = i + 1;
    }
    proof {
        assert(ps@.take(ps@.len() as int) =~= ps@);
    }
    r
}

} // verus!
