use sysmon::metrics::ProcessInfo;
use sysmon::rank::rank_processes;
use sysmon::rank::ranks_no_later_than;
use sysmon::rank::TOP_N;

fn proc(pid: u64, cpu_milli_percent: u64) -> ProcessInfo {
    ProcessInfo { pid, name: format!("proc-{}", pid), cpu_milli_percent }
}

#[test]
fn five_processes_ranked_descending() {
    // CPU values 5.0, 90.0, 12.0, 0.0, 50.0 come out as
    // 90.0, 50.0, 12.0, 5.0, 0.0.
    let procs = vec![proc(1, 5_000), proc(2, 90_000), proc(3, 12_000), proc(4, 0), proc(
        5, 50_000,
    )];
    let ranked = rank_processes(procs);
    let cpus: Vec<u64> = ranked.iter().map(|p| p.cpu_milli_percent).collect();
    assert_eq!(cpus, vec![90_000, 50_000, 12_000, 5_000, 0]);
    assert!(ranked.len() <= 10);
}

#[test]
fn fifteen_processes_cut_to_top_ten() {
    let mut procs = Vec::new();
    for pid in 1..=15u64 {
        // CPU usage 1.0%, 2.0%, ... 15.0%.
        procs.push(proc(pid, pid * 1_000));
    }
    let ranked = rank_processes(procs);
    assert_eq!(ranked.len(), 10);
    let cpus: Vec<u64> = ranked.iter().map(|p| p.cpu_milli_percent).collect();
    // The top 10 by CPU usage are 15.0% down to 6.0%.
    assert_eq!(
        cpus,
        vec![15_000, 14_000, 13_000, 12_000, 11_000, 10_000, 9_000, 8_000, 7_000, 6_000]
    );
}

#[test]
fn ties_broken_by_ascending_pid() {
    let procs = vec![proc(30, 40_000), proc(10, 40_000), proc(20, 40_000), proc(5, 90_000)];
    let ranked = rank_processes(procs);
    let pids: Vec<u64> = ranked.iter().map(|p| p.pid).collect();
    assert_eq!(pids, vec![5, 10, 20, 30]);
}

#[test]
fn empty_process_list_gives_empty_table() {
    let ranked = rank_processes(Vec::new());
    assert!(ranked.is_empty());
}

#[test]
fn exactly_ten_processes_all_kept() {
    let mut procs = Vec::new();
    for pid in 1..=10u64 {
        procs.push(proc(pid, 100_000 - pid * 1_000));
    }
    let ranked = rank_processes(procs);
    assert_eq!(ranked.len(), 10);
}

#[test]
fn ranking_keeps_names_with_their_processes() {
    let procs = vec![proc(7, 1_000), proc(8, 2_000)];
    let ranked = rank_processes(procs);
    assert_eq!(ranked[0].pid, 8);
    assert_eq!(ranked[0].name, "proc-8");
    assert_eq!(ranked[1].pid, 7);
    assert_eq!(ranked[1].name, "proc-7");
}

#[test]
fn rank_order_predicate() {
    let hot = proc(2, 80_000);
    let cool = proc(1, 10_000);
    assert!(ranks_no_later_than(&hot, &cool));
    assert!(!ranks_no_later_than(&cool, &hot));
    // Equal CPU: the lower pid ranks first.
    let a = proc(3, 50_000);
    let b = proc(4, 50_000);
    assert!(ranks_no_later_than(&a, &b));
    assert!(!ranks_no_later_than(&b, &a));
}

#[test]
fn top_n_is_ten() {
    assert_eq!(TOP_N, 10);
}
