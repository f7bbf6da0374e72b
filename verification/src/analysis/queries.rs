use vstd::prelude::*;

use super::growth::{MEM_ALLOC, MEM_FREE};
use crate::sql::{
    between_spec, detector_pid_filter, detector_time_filter, i64_to_decimal, in_list_spec, restricts, signed_decimal,
    Selection,
};
use crate::text::{decimal, u64_to_decimal};

verus! {

/// The time condition a detector adds to its query.
pub open spec fn time_filter_spec(sel: Selection) -> Seq<char> {
    match sel.time_range {
        Some(tr) => "AND "@ + between_spec("timestamp_ns"@, tr.0 as int, tr.1 as int),
        None => Seq::empty(),
    }
}

/// The process condition a detector adds to its query.
pub open spec fn pid_filter_spec(sel: Selection) -> Seq<char> {
    if restricts(sel.pids) {
        "AND "@ + in_list_spec("process_id"@, sel.pids->0@)
    } else {
        Seq::empty()
    }
}

/// The I/O-stall query: disk and file operations longer than `threshold_ns`
/// within the selection, longest first, at most `max_findings`.
pub open spec fn io_stall_sql_spec(threshold_ns: u64, sel: Selection, max_findings: usize) -> Seq<char> {
    let t = decimal(threshold_ns as nat);
    let tf = time_filter_spec(sel);
    let pf = pid_filter_spec(sel);
    "WITH io_union AS ( SELECT timestamp_ns, process_id, CAST(duration_ns AS BIGINT) AS dur_ns, CAST(size_bytes AS BIGINT) AS bytes, 'disk' AS io_type FROM disk_io  WHERE duration_ns > "@
        + t + " "@ + tf + " "@ + pf
        + " UNION ALL SELECT timestamp_ns, process_id, CAST(duration_ns AS BIGINT) AS dur_ns, CAST(COALESCE(size_bytes, 0) AS BIGINT) AS bytes, 'file' AS io_type FROM file_io  WHERE duration_ns > "@
        + t + " "@ + tf + " "@ + pf
        + " ) SELECT timestamp_ns, process_id, dur_ns, bytes, io_type FROM io_union ORDER BY dur_ns DESC LIMIT "@
        + decimal(max_findings as nat)
}

/// The I/O-stall query for a selection.
pub fn io_stall_sql(threshold_ns: u64, sel: &Selection, max_findings: usize) -> (q: String)
    ensures
        q@ == io_stall_sql_spec(threshold_ns, *sel, max_findings),
{
    let t = u64_to_decimal(threshold_ns);
    let tf = detector_time_filter(sel);
    let pf = detector_pid_filter(sel);
    let mut q = String::from_str(
        "WITH io_union AS ( SELECT timestamp_ns, process_id, CAST(duration_ns AS BIGINT) AS dur_ns, CAST(size_bytes AS BIGINT) AS bytes, 'disk' AS io_type FROM disk_io  WHERE duration_ns > ",
    );
    q.append(t.as_str());
    q.append(" ");
    q.append(tf.as_str());
    q.append(" ");
    q.append(pf.as_str());
    q.append(
        " UNION ALL SELECT timestamp_ns, process_id, CAST(duration_ns AS BIGINT) AS dur_ns, CAST(COALESCE(size_bytes, 0) AS BIGINT) AS bytes, 'file' AS io_type FROM file_io  WHERE duration_ns > ",
    );
    q.append(t.as_str());
    q.append(" ");
    q.append(tf.as_str());
    q.append(" ");
    q.append(pf.as_str());
    q.append(" ) SELECT timestamp_ns, process_id, dur_ns, bytes, io_type FROM io_union ORDER BY dur_ns DESC LIMIT ");
    let m = u64_to_decimal(max_findings as u64);
    q.append(m.as_str());
    q
}

/// The scheduling-wait query: waits longer than `threshold_ns` within the
/// selection, longest first, at most `max_findings`.
pub open spec fn sched_wait_sql_spec(threshold_ns: u64, sel: Selection, max_findings: usize) -> Seq<char> {
    "SELECT timestamp_ns, process_id, thread_id, CAST(duration_ns AS BIGINT) AS dur_ns FROM scheduling WHERE duration_ns > "@
        + decimal(threshold_ns as nat) + " "@ + time_filter_spec(sel) + " "@ + pid_filter_spec(sel)
        + " ORDER BY duration_ns DESC LIMIT "@ + decimal(max_findings as nat)
}

/// The scheduling-wait query for a selection.
pub fn sched_wait_sql(threshold_ns: u64, sel: &Selection, max_findings: usize) -> (q: String)
    ensures
        q@ == sched_wait_sql_spec(threshold_ns, *sel, max_findings),
{
    let mut q = String::from_str(
        "SELECT timestamp_ns, process_id, thread_id, CAST(duration_ns AS BIGINT) AS dur_ns FROM scheduling WHERE duration_ns > ",
    );
    let t = u64_to_decimal(threshold_ns);
    q.append(t.as_str());
    q.append(" ");
    let tf = detector_time_filter(sel);
    q.append(tf.as_str());
    q.append(" ");
    let pf = detector_pid_filter(sel);
    q.append(pf.as_str());
    q.append(" ORDER BY duration_ns DESC LIMIT ");
    let m = u64_to_decimal(max_findings as u64);
    q.append(m.as_str());
    q
}

/// The memory-growth query: per process and window of `bucket_size` ns from
/// `range_start`, the bytes allocated and freed within `[range_start,
/// range_end]` and the selection's processes.
pub open spec fn memory_growth_sql_spec(range_start: i64, range_end: i64, bucket_size: i64, sel: Selection) -> Seq<char> {
    let s = signed_decimal(range_start as int);
    "SELECT process_id, CAST(FLOOR(CAST(timestamp_ns - "@ + s + " AS DOUBLE) / "@ + signed_decimal(bucket_size as int)
        + ") AS BIGINT) AS bucket, SUM(CASE WHEN event_type = "@ + decimal(MEM_ALLOC as nat)
        + " THEN CAST(COALESCE(size_bytes, 0) AS BIGINT) ELSE 0 END) AS alloc_bytes, SUM(CASE WHEN event_type = "@
        + decimal(MEM_FREE as nat)
        + "  THEN CAST(COALESCE(size_bytes, 0) AS BIGINT) ELSE 0 END) AS free_bytes FROM memory WHERE timestamp_ns BETWEEN "@
        + s + " AND "@ + signed_decimal(range_end as int) + " "@ + pid_filter_spec(sel)
        + " GROUP BY process_id, bucket ORDER BY process_id, bucket"@
}

/// The memory-growth query for a selection.
pub fn memory_growth_sql(range_start: i64, range_end: i64, bucket_size: i64, sel: &Selection) -> (q: String)
    ensures
        q@ == memory_growth_sql_spec(range_start, range_end, bucket_size, *sel),
{
    let s = i64_to_decimal(range_start);
    let mut q = String::from_str("SELECT process_id, CAST(FLOOR(CAST(timestamp_ns - ");
    q.append(s.as_str());
    q.append(" AS DOUBLE) / ");
    let b = i64_to_decimal(bucket_size);
    q.append(b.as_str());
    q.append(") AS BIGINT) AS bucket, SUM(CASE WHEN event_type = ");
    let a = u64_to_decimal(MEM_ALLOC as u64);
    q.append(a.as_str());
    q.append(" THEN CAST(COALESCE(size_bytes, 0) AS BIGINT) ELSE 0 END) AS alloc_bytes, SUM(CASE WHEN event_type = ");
    let f = u64_to_decimal(MEM_FREE as u64);
    q.append(f.as_str());
    q.append(
        "  THEN CAST(COALESCE(size_bytes, 0) AS BIGINT) ELSE 0 END) AS free_bytes FROM memory WHERE timestamp_ns BETWEEN ",
    );
    q.append(s.as_str());
    q.append(" AND ");
    let e = i64_to_decimal(range_end);
    q.append(e.as_str());
    q.append(" ");
    let pf = detector_pid_filter(sel);
    q.append(pf.as_str());
    q.append(" GROUP BY process_id, bucket ORDER BY process_id, bucket");
    q
}

} // verus!
