use vstd::prelude::*;

use crate::sql::{event_time_where, memory_conditions, memory_where, sample_conditions, sample_where, where_spec, Selection};

verus! {

/// The function-sample query over the tables of the trace named by `suffix`
/// (`a` or `b`): per symbol and module, the samples where it is the leaf
/// frame and the samples where it is on the stack, within the selection.
pub open spec fn function_stats_sql_spec(suffix: Seq<char>, sel: Selection) -> Seq<char> {
    "SELECT f.symbol_name, f.module_name, SUM(CASE WHEN st.depth = 0 THEN 1 ELSE 0 END) AS self_s, COUNT(*) AS total_s FROM cpu_samples_"@
        + suffix + " cs JOIN stacks_"@ + suffix + " st ON cs.stack_id = st.stack_id JOIN frames_"@ + suffix
        + " f  ON st.frame_id = f.frame_id "@ + where_spec(sample_conditions(sel))
        + " GROUP BY f.symbol_name, f.module_name"@
}

/// The function-sample query of one trace.
pub fn function_stats_sql(suffix: &str, sel: &Selection) -> (q: String)
    ensures
        q@ == function_stats_sql_spec(suffix@, *sel),
{
    let mut q = String::from_str(
        "SELECT f.symbol_name, f.module_name, SUM(CASE WHEN st.depth = 0 THEN 1 ELSE 0 END) AS self_s, COUNT(*) AS total_s FROM cpu_samples_",
    );
    q.append(suffix);
    q.append(" cs JOIN stacks_");
    q.append(suffix);
    q.append(" st ON cs.stack_id = st.stack_id JOIN frames_");
    q.append(suffix);
    q.append(" f  ON st.frame_id = f.frame_id ");
    let w = sample_where(sel);
    q.append(w.as_str());
    q.append(" GROUP BY f.symbol_name, f.module_name");
    q
}

/// The time condition of the I/O query (`WHERE timestamp_ns BETWEEN ...`).
pub open spec fn event_time_where_spec(sel: Selection) -> Seq<char> {
    match sel.time_range {
        Some(tr) => "WHERE "@ + crate::sql::between_spec("timestamp_ns"@, tr.0 as int, tr.1 as int),
        None => Seq::empty(),
    }
}

/// The per-process I/O query of the trace named by `suffix`: bytes and
/// operations over disk and file I/O within the selection's time range, with
/// each process's name.
pub open spec fn io_stats_sql_spec(suffix: Seq<char>, sel: Selection) -> Seq<char> {
    let tf = event_time_where_spec(sel);
    "SELECT io.process_id, p.name, COALESCE(SUM(io.size_bytes), 0) AS io_bytes, COUNT(*) AS io_ops FROM ( SELECT process_id, CAST(size_bytes AS BIGINT) AS size_bytes, timestamp_ns FROM disk_io_"@
        + suffix + " "@ + tf
        + " UNION ALL SELECT process_id, CAST(COALESCE(size_bytes, 0) AS BIGINT) AS size_bytes, timestamp_ns FROM file_io_"@
        + suffix + " "@ + tf + " ) io LEFT JOIN processes_"@ + suffix
        + " p ON io.process_id = p.process_id GROUP BY io.process_id, p.name"@
}

/// The per-process I/O query of one trace.
pub fn io_stats_sql(suffix: &str, sel: &Selection) -> (q: String)
    ensures
        q@ == io_stats_sql_spec(suffix@, *sel),
{
    let tf = event_time_where(sel);
    let mut q = String::from_str(
        "SELECT io.process_id, p.name, COALESCE(SUM(io.size_bytes), 0) AS io_bytes, COUNT(*) AS io_ops FROM ( SELECT process_id, CAST(size_bytes AS BIGINT) AS size_bytes, timestamp_ns FROM disk_io_",
    );
    q.append(suffix);
    q.append(" ");
    q.append(tf.as_str());
    q.append(
        " UNION ALL SELECT process_id, CAST(COALESCE(size_bytes, 0) AS BIGINT) AS size_bytes, timestamp_ns FROM file_io_",
    );
    q.append(suffix);
    q.append(" ");
    q.append(tf.as_str());
    q.append(" ) io LEFT JOIN processes_");
    q.append(suffix);
    q.append(" p ON io.process_id = p.process_id GROUP BY io.process_id, p.name");
    q
}

/// The per-process net allocation query of the trace named by `suffix`:
/// allocated minus freed bytes within the selection, with each process's name.
pub open spec fn memory_stats_sql_spec(suffix: Seq<char>, sel: Selection) -> Seq<char> {
    "SELECT m.process_id, p.name, SUM(CASE WHEN m.event_type = 0 THEN CAST(COALESCE(m.size_bytes, 0) AS BIGINT) ELSE 0 END) - SUM(CASE WHEN m.event_type = 1 THEN CAST(COALESCE(m.size_bytes, 0) AS BIGINT) ELSE 0 END) AS net_alloc FROM memory_"@
        + suffix + " m LEFT JOIN processes_"@ + suffix + " p ON m.process_id = p.process_id "@
        + where_spec(memory_conditions(sel)) + " GROUP BY m.process_id, p.name"@
}

/// The per-process net allocation query of one trace.
pub fn memory_stats_sql(suffix: &str, sel: &Selection) -> (q: String)
    ensures
        q@ == memory_stats_sql_spec(suffix@, *sel),
{
    let mut q = String::from_str(
        "SELECT m.process_id, p.name, SUM(CASE WHEN m.event_type = 0 THEN CAST(COALESCE(m.size_bytes, 0) AS BIGINT) ELSE 0 END) - SUM(CASE WHEN m.event_type = 1 THEN CAST(COALESCE(m.size_bytes, 0) AS BIGINT) ELSE 0 END) AS net_alloc FROM memory_",
    );
    q.append(suffix);
    q.append(" m LEFT JOIN processes_");
    q.append(suffix);
    q.append(" p ON m.process_id = p.process_id ");
    let w = memory_where(sel);
    q.append(w.as_str());
    q.append(" GROUP BY m.process_id, p.name");
    q
}

/// The process list query of the trace named by `suffix`.
pub fn processes_sql(suffix: &str) -> (q: String)
    ensures
        q@ == "SELECT process_id, name FROM processes_"@ + suffix@,
{
    let mut q = String::from_str("SELECT process_id, name FROM processes_");
    q.append(suffix);
    q
}

/// The name a trace's table is registered under: the table and the trace's
/// suffix.
pub fn table_name(table: &str, suffix: &str) -> (n: String)
    ensures
        n@ == table@ + "_"@ + suffix@,
{
    let mut n = String::from_str(table);
    n.append("_");
    n.append(suffix);
    n
}

} // verus!
