use process_analyzer::analysis::growth::{
    group_windows, longest_increasing_run, memory_bucket_size, memory_growth_candidates, memory_growth_severity,
    sort_by_bucket, GrowthRow,
};
use process_analyzer::analysis::stall::{io_stall_severity, sched_wait_severity, stall_zoom_range};
use process_analyzer::analysis::{FindingKind, Severity};

#[test]
fn run_all_increasing() {
    assert_eq!(longest_increasing_run(&[1, 2, 3, 4, 5]), 5);
}

#[test]
fn run_none_increasing() {
    assert_eq!(longest_increasing_run(&[5, 4, 3, 2, 1]), 1);
}

#[test]
fn run_partial() {
    assert_eq!(longest_increasing_run(&[1, 2, 1, 2, 3, 4]), 4);
}

#[test]
fn run_empty() {
    assert_eq!(longest_increasing_run(&[]), 0);
}

#[test]
fn run_equal_values_break_the_run() {
    assert_eq!(longest_increasing_run(&[1, 1, 1]), 1);
    assert_eq!(longest_increasing_run(&[3, 4, 4, 5, 6]), 3);
}

#[test]
fn severity_order_and_levels() {
    assert!(Severity::Critical > Severity::High);
    assert!(Severity::High > Severity::Medium);
    assert!(Severity::Medium > Severity::Low);
    assert!(Severity::Low > Severity::Info);
    assert_eq!(Severity::Critical.level(), 4);
    assert_eq!(Severity::Info.level(), 0);
    assert!(Severity::High.is_more_severe_than(&Severity::Low));
    assert!(!Severity::Low.is_more_severe_than(&Severity::Low));
    assert_ne!(FindingKind::IoStall, FindingKind::SchedWait);
}

#[test]
fn io_stall_thresholds() {
    assert_eq!(io_stall_severity(100_000_000), Severity::High);
    assert_eq!(io_stall_severity(99_999_999), Severity::Medium);
    assert_eq!(io_stall_severity(50_000_000), Severity::Medium);
    assert_eq!(io_stall_severity(49_999_999), Severity::Low);
    assert_eq!(io_stall_severity(10_000_000), Severity::Low);
}

#[test]
fn sched_wait_thresholds() {
    assert_eq!(sched_wait_severity(50_000_000), Severity::High);
    assert_eq!(sched_wait_severity(20_000_000), Severity::Medium);
    assert_eq!(sched_wait_severity(19_999_999), Severity::Low);
}

#[test]
fn zoom_window_is_at_least_one_millisecond() {
    assert_eq!(stall_zoom_range(10_000_000, 500), (9_000_000, 11_000_000));
    assert_eq!(stall_zoom_range(100_000_000, 30_000_000), (70_000_000, 130_000_000));
}

#[test]
fn growth_severity_by_coverage() {
    assert_eq!(memory_growth_severity(9, 10), Severity::High);
    assert_eq!(memory_growth_severity(10, 10), Severity::High);
    assert_eq!(memory_growth_severity(8, 10), Severity::Medium);
    assert_eq!(memory_growth_severity(5, 10), Severity::Medium);
}

#[test]
fn bucket_size_over_a_range() {
    assert_eq!(memory_bucket_size(0, 1_000, 10), Some(100));
    assert_eq!(memory_bucket_size(0, 5, 10), Some(1));
    assert_eq!(memory_bucket_size(10, 10, 10), None);
    assert_eq!(memory_bucket_size(10, 0, 10), None);
}

fn row(pid: u32, bucket: i64, alloc: i64, free: i64) -> GrowthRow {
    GrowthRow { pid, bucket, alloc_bytes: alloc, free_bytes: free }
}

#[test]
fn windows_group_by_process() {
    let rows = vec![row(1, 0, 10, 0), row(2, 0, 5, 5), row(1, 1, 20, 5), row(2, 1, 1, 0)];
    let g = group_windows(&rows);
    assert_eq!(g.len(), 2);
    let p1 = g.iter().find(|p| p.pid == 1).unwrap();
    assert_eq!(p1.windows, vec![(0, 10), (1, 15)]);
    let p2 = g.iter().find(|p| p.pid == 2).unwrap();
    assert_eq!(p2.windows, vec![(0, 0), (1, 1)]);
}

#[test]
fn windows_sorted_by_bucket() {
    let v = vec![(3, 30), (1, 10), (2, 20), (1, 11)];
    assert_eq!(sort_by_bucket(&v), vec![(1, 10), (1, 11), (2, 20), (3, 30)]);
}

#[test]
fn growth_candidates_need_long_enough_runs() {
    let mut rows = Vec::new();
    for b in 0..6 {
        rows.push(row(7, b, 100 * (b + 1), 0));
        rows.push(if b % 2 == 0 { row(8, b, 10, 0) } else { row(8, b, 0, 5) });
    }
    let c = memory_growth_candidates(&rows, 5);
    assert_eq!(c.len(), 1);
    assert_eq!(c[0].pid, 7);
    assert_eq!(c[0].max_run, 6);
    assert_eq!(c[0].total_growth, 100 + 200 + 300 + 400 + 500 + 600);
}

#[test]
fn growth_windows_are_ordered_before_the_run_is_measured() {
    let rows = vec![row(3, 4, 5, 0), row(3, 0, 1, 0), row(3, 2, 3, 0), row(3, 1, 2, 0), row(3, 3, 4, 0)];
    let c = memory_growth_candidates(&rows, 5);
    assert_eq!(c.len(), 1);
    assert_eq!(c[0].max_run, 5);
}

#[test]
fn steady_leak_grows_the_running_total() {
    let rows: Vec<_> = (0..5).map(|b| row(4, b, 1, 0)).collect();
    let c = memory_growth_candidates(&rows, 5);
    assert_eq!(c.len(), 1);
    assert_eq!(c[0].max_run, 5);
    assert_eq!(c[0].total_growth, 5);
    let flat: Vec<_> = (0..5).map(|b| row(4, b, 1, 1)).collect();
    assert!(memory_growth_candidates(&flat, 2).is_empty());
}

use process_analyzer::analysis::engine::{absorb_outcome, DetectorOutcome};

#[test]
fn detector_outcomes() {
    let mut all: Vec<u32> = vec![1];
    assert!(absorb_outcome(&mut all, DetectorOutcome::Found(vec![2, 3])));
    assert!(absorb_outcome(&mut all, DetectorOutcome::Failed));
    assert!(!absorb_outcome(&mut all, DetectorOutcome::Cancelled));
    assert_eq!(all, vec![1, 2, 3]);
}
