use process_analyzer::diff::engine::{
    diff_entities, diff_functions, diff_io, diff_memory, summarize, FunctionStat, IoStat, MemoryStat, ProcessRow,
};
use process_analyzer::diff::key::{make_key, parse_key};
use process_analyzer::diff::delta::classify_change;
use process_analyzer::diff::{ChangeKind, DiffSummary, EntityKind};

fn fstat(symbol: &str, count: i64) -> FunctionStat {
    FunctionStat { key: make_key(symbol, Some("app")), self_samples: count, total_samples: count, module: Some("app".to_string()) }
}

#[test]
fn change_classification() {
    assert_eq!(classify_change(true, true), Some(ChangeKind::Changed));
    assert_eq!(classify_change(true, false), Some(ChangeKind::Removed));
    assert_eq!(classify_change(false, true), Some(ChangeKind::Added));
    assert_eq!(classify_change(false, false), None);
}

#[test]
fn test_diff_detects_function_regression() {
    let a = vec![fstat("slow_fn", 2)];
    let b = vec![fstat("slow_fn", 8)];
    let d = diff_functions(&a, &b);
    let delta = d.iter().find(|d| d.function_name == "slow_fn").expect("slow_fn");
    assert_eq!(delta.kind, ChangeKind::Changed);
    assert_eq!(delta.self_samples_delta, 6);
    assert_eq!(delta.binary_name.as_deref(), Some("app"));
}

#[test]
fn functions_ranked_by_self_change() {
    let a = vec![fstat("f", 10), fstat("g", 10), fstat("gone", 3)];
    let b = vec![fstat("f", 11), fstat("g", 2), fstat("new", 5)];
    let d = diff_functions(&a, &b);
    let names: Vec<&str> = d.iter().map(|x| x.function_name.as_str()).collect();
    assert_eq!(names, vec!["g", "new", "gone", "f"]);
    assert_eq!(d[1].kind, ChangeKind::Added);
    assert_eq!(d[2].kind, ChangeKind::Removed);
    assert_eq!(d[2].self_samples_delta, -3);
}

fn proc_row(pid: u32, name: &str) -> ProcessRow {
    ProcessRow { pid, name: Some(name.to_string()) }
}

#[test]
fn test_diff_detects_added_process() {
    let a = vec![proc_row(1, "app")];
    let b = vec![proc_row(1, "app"), proc_row(2, "new-daemon")];
    let (added, removed) = diff_entities(&a, &b);
    assert_eq!(added.len(), 1);
    assert_eq!(added[0].pid, 2);
    assert_eq!(added[0].name.as_deref(), Some("new-daemon"));
    assert_eq!(added[0].change, ChangeKind::Added);
    assert_eq!(added[0].kind, EntityKind::Process);
    assert!(removed.is_empty());
    let s = summarize(1_000_000, 1_000_000, &[], &added, &removed);
    assert_eq!(s.processes_added, 1);
}

#[test]
fn test_diff_detects_removed_process() {
    let a = vec![proc_row(1, "app"), proc_row(2, "gone-daemon")];
    let b = vec![proc_row(1, "app")];
    let (added, removed) = diff_entities(&a, &b);
    assert!(added.is_empty());
    assert_eq!(removed.len(), 1);
    assert_eq!(removed[0].pid, 2);
    assert_eq!(removed[0].change, ChangeKind::Removed);
    let s = summarize(1, 2, &[], &added, &removed);
    assert_eq!(s.processes_removed, 1);
    assert_eq!(s.duration_b_ns, 2);
}

#[test]
fn test_diff_io_delta() {
    let a = vec![IoStat { pid: 1, bytes: 4096, ops: 1, name: Some("app".to_string()) }];
    let b = vec![IoStat { pid: 1, bytes: 65536, ops: 1, name: Some("app".to_string()) }];
    let d = diff_io(&a, &b);
    let io = d.iter().find(|d| d.pid == 1).expect("pid 1");
    assert_eq!(io.kind, ChangeKind::Changed);
    assert_eq!(io.io_bytes_delta, 65536 - 4096);
    assert_eq!(io.io_ops_delta, 0);
}

#[test]
fn io_name_prefers_trace_b() {
    let a = vec![IoStat { pid: 4, bytes: 1, ops: 1, name: Some("old".to_string()) }];
    let b = vec![IoStat { pid: 4, bytes: 2, ops: 1, name: None }, IoStat { pid: 5, bytes: 0, ops: 3, name: None }];
    let d = diff_io(&a, &b);
    assert_eq!(d.len(), 1);
    assert_eq!(d[0].process_name.as_deref(), Some("old"));
}

#[test]
fn memory_deltas_ranked_by_magnitude() {
    let a = vec![MemoryStat { pid: 1, net_alloc: 100, name: None }, MemoryStat { pid: 2, net_alloc: 0, name: None }];
    let b = vec![MemoryStat { pid: 1, net_alloc: 50, name: None }, MemoryStat { pid: 3, net_alloc: -500, name: None }];
    let d = diff_memory(&a, &b);
    assert_eq!(d.len(), 2);
    assert_eq!(d[0].pid, 3);
    assert_eq!(d[0].kind, ChangeKind::Added);
    assert_eq!(d[0].net_alloc_delta, -500);
    assert_eq!(d[1].pid, 1);
    assert_eq!(d[1].net_alloc_delta, -50);
}

#[test]
fn test_diff_identical_traces_minimal_deltas() {
    let f = vec![fstat("fn_x", 5)];
    let d = diff_functions(&f, &f);
    for delta in &d {
        assert_eq!(delta.self_samples_delta, 0, "identical traces should have zero self delta for {}", delta.function_name);
    }
    let p = vec![proc_row(1, "app")];
    let (added, removed) = diff_entities(&p, &p);
    assert!(added.is_empty());
    assert!(removed.is_empty());
    let io = vec![IoStat { pid: 1, bytes: 10, ops: 2, name: None }];
    assert!(diff_io(&io, &io).iter().all(|d| d.io_bytes_delta == 0 && d.kind == ChangeKind::Changed));
}

#[test]
fn summary_counts_function_kinds() {
    let kinds = [ChangeKind::Changed, ChangeKind::Added, ChangeKind::Changed, ChangeKind::Removed];
    let s = summarize(5, 6, &kinds, &[], &[]);
    assert_eq!(s.functions_changed, 2);
    assert_eq!(s.functions_added, 1);
    assert_eq!(s.functions_removed, 1);
    assert_eq!(DiffSummary::default().functions_changed, 0);
}

#[test]
fn key_round_trip() {
    let k = make_key("main", Some("libapp.so"));
    assert_eq!(k, "main#libapp.so");
    assert_eq!(parse_key(&k), ("main".to_string(), Some("libapp.so".to_string())));
    let k2 = make_key("main", None);
    assert_eq!(k2, "main#");
    assert_eq!(parse_key(&k2), ("main".to_string(), None));
    assert_eq!(parse_key("bare"), ("bare".to_string(), None));
    assert_eq!(parse_key("a#b#c"), ("a".to_string(), Some("b#c".to_string())));
}
