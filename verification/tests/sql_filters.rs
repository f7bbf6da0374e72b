use process_analyzer::sql::{
    detector_pid_filter, detector_time_filter, event_time_where, i64_to_decimal, join_ids, memory_where, sample_where,
    Selection,
};

fn sel(time: Option<(i64, i64)>, pids: Option<Vec<u32>>, tids: Option<Vec<u32>>) -> Selection {
    Selection { time_range: time, pids, tids }
}

#[test]
fn signed_decimals() {
    assert_eq!(i64_to_decimal(0), "0");
    assert_eq!(i64_to_decimal(-42), "-42");
    assert_eq!(i64_to_decimal(i64::MIN), i64::MIN.to_string());
    assert_eq!(i64_to_decimal(i64::MAX), i64::MAX.to_string());
}

#[test]
fn id_lists() {
    assert_eq!(join_ids(&[]), "");
    assert_eq!(join_ids(&[7]), "7");
    assert_eq!(join_ids(&[1, 2, 3]), "1, 2, 3");
}

#[test]
fn detector_filters() {
    let s = sel(Some((-5, 10)), Some(vec![3, 4]), None);
    assert_eq!(detector_time_filter(&s), "AND timestamp_ns BETWEEN -5 AND 10");
    assert_eq!(detector_pid_filter(&s), "AND process_id IN (3, 4)");
    let empty = sel(None, Some(vec![]), None);
    assert_eq!(detector_time_filter(&empty), "");
    assert_eq!(detector_pid_filter(&empty), "");
}

#[test]
fn diff_where_clauses() {
    let s = sel(Some((1, 2)), Some(vec![9]), Some(vec![10, 11]));
    assert_eq!(
        sample_where(&s),
        "WHERE cs.timestamp_ns BETWEEN 1 AND 2 AND cs.process_id IN (9) AND cs.thread_id IN (10, 11)"
    );
    assert_eq!(memory_where(&s), "WHERE m.timestamp_ns BETWEEN 1 AND 2 AND m.process_id IN (9)");
    assert_eq!(event_time_where(&s), "WHERE timestamp_ns BETWEEN 1 AND 2");
    let none = sel(None, None, Some(vec![]));
    assert_eq!(sample_where(&none), "");
    assert_eq!(memory_where(&none), "");
    assert_eq!(event_time_where(&none), "");
    let only_tids = sel(None, None, Some(vec![5]));
    assert_eq!(sample_where(&only_tids), "WHERE cs.thread_id IN (5)");
}

use process_analyzer::analysis::queries::{io_stall_sql, memory_growth_sql, sched_wait_sql};

#[test]
fn sched_wait_query_text() {
    let s = sel(Some((0, 99)), Some(vec![4]), None);
    assert_eq!(
        sched_wait_sql(5_000_000, &s, 50),
        "SELECT timestamp_ns, process_id, thread_id, CAST(duration_ns AS BIGINT) AS dur_ns FROM scheduling WHERE duration_ns > 5000000 AND timestamp_ns BETWEEN 0 AND 99 AND process_id IN (4) ORDER BY duration_ns DESC LIMIT 50"
    );
    let none = sel(None, None, None);
    assert_eq!(
        sched_wait_sql(1, &none, 2),
        "SELECT timestamp_ns, process_id, thread_id, CAST(duration_ns AS BIGINT) AS dur_ns FROM scheduling WHERE duration_ns > 1   ORDER BY duration_ns DESC LIMIT 2"
    );
}

#[test]
fn io_stall_query_text() {
    let none = sel(None, None, None);
    let q = io_stall_sql(10_000_000, &none, 50);
    assert!(q.starts_with("WITH io_union AS ( SELECT timestamp_ns, process_id, CAST(duration_ns AS BIGINT) AS dur_ns, CAST(size_bytes AS BIGINT) AS bytes, 'disk' AS io_type FROM disk_io  WHERE duration_ns > 10000000   UNION ALL SELECT"));
    assert!(q.contains("FROM file_io  WHERE duration_ns > 10000000   ) SELECT timestamp_ns, process_id, dur_ns, bytes, io_type FROM io_union ORDER BY dur_ns DESC LIMIT 50"));
}

#[test]
fn memory_growth_query_text() {
    let s = sel(None, Some(vec![1, 2]), None);
    assert_eq!(
        memory_growth_sql(-10, 90, 10, &s),
        "SELECT process_id, CAST(FLOOR(CAST(timestamp_ns - -10 AS DOUBLE) / 10) AS BIGINT) AS bucket, SUM(CASE WHEN event_type = 0 THEN CAST(COALESCE(size_bytes, 0) AS BIGINT) ELSE 0 END) AS alloc_bytes, SUM(CASE WHEN event_type = 1  THEN CAST(COALESCE(size_bytes, 0) AS BIGINT) ELSE 0 END) AS free_bytes FROM memory WHERE timestamp_ns BETWEEN -10 AND 90 AND process_id IN (1, 2) GROUP BY process_id, bucket ORDER BY process_id, bucket"
    );
}

use process_analyzer::diff::queries::{function_stats_sql, io_stats_sql, memory_stats_sql, processes_sql, table_name};

#[test]
fn diff_table_names() {
    assert_eq!(table_name("stacks", "b"), "stacks_b");
    assert_eq!(processes_sql("a"), "SELECT process_id, name FROM processes_a");
}

#[test]
fn diff_function_query_text() {
    let none = sel(None, None, None);
    assert_eq!(
        function_stats_sql("a", &none),
        "SELECT f.symbol_name, f.module_name, SUM(CASE WHEN st.depth = 0 THEN 1 ELSE 0 END) AS self_s, COUNT(*) AS total_s FROM cpu_samples_a cs JOIN stacks_a st ON cs.stack_id = st.stack_id JOIN frames_a f  ON st.frame_id = f.frame_id  GROUP BY f.symbol_name, f.module_name"
    );
    let s = sel(Some((1, 2)), None, Some(vec![3]));
    let q = function_stats_sql("b", &s);
    assert!(q.contains("FROM cpu_samples_b cs JOIN stacks_b st"));
    assert!(q.ends_with("f  ON st.frame_id = f.frame_id WHERE cs.timestamp_ns BETWEEN 1 AND 2 AND cs.thread_id IN (3) GROUP BY f.symbol_name, f.module_name"));
}

#[test]
fn diff_io_and_memory_query_text() {
    let s = sel(Some((5, 6)), Some(vec![7]), None);
    let io = io_stats_sql("a", &s);
    assert!(io.contains("FROM disk_io_a WHERE timestamp_ns BETWEEN 5 AND 6 UNION ALL"));
    assert!(io.contains("FROM file_io_a WHERE timestamp_ns BETWEEN 5 AND 6 ) io LEFT JOIN processes_a p"));
    assert!(io.ends_with("GROUP BY io.process_id, p.name"));
    let mem = memory_stats_sql("b", &s);
    assert!(mem.contains("FROM memory_b m LEFT JOIN processes_b p ON m.process_id = p.process_id WHERE m.timestamp_ns BETWEEN 5 AND 6 AND m.process_id IN (7) GROUP BY m.process_id, p.name"));
}
