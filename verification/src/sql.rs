//! The filter clauses that restrict trace queries to a selection: a time
//! range, processes and threads, written as SQL text.

use vstd::prelude::*;

use crate::text::{decimal, u64_to_decimal};

verus! {

/// The part of a trace a query is restricted to.
#[derive(Debug, Clone)]
pub struct Selection {
    /// Inclusive `(start_ns, end_ns)`.
    pub time_range: Option<(i64, i64)>,
    pub pids: Option<Vec<u32>>,
    pub tids: Option<Vec<u32>>,
}

/// The decimal numeral of a signed integer, with a leading `-` when negative.
pub open spec fn signed_decimal(x: int) -> Seq<char> {
    if x < 0 {
        seq!['-'] + decimal((-x) as nat)
    } else {
        decimal(x as nat)
    }
}

/// `i64::to_string`.
pub fn i64_to_decimal(x: i64) -> (r: String)
    ensures
        r@ == signed_decimal(x as int),
{
    if x >= 0 {
        u64_to_decimal(x as u64)
    } else {
        let mag: u64 = if x == i64::MIN {
            0x8000_0000_0000_0000u64
        } else {
            (-x) as u64
        };
        let digits = u64_to_decimal(mag);
        let mut r = String::from_str("-");
        r.append(digits.as_str());
        proof {
            reveal_strlit("-");
        }
        r
    }
}

/// The numbers' decimal numerals separated by `", "`.
pub open spec fn join_decimals(s: Seq<u32>) -> Seq<char>
    decreases s.len(),
{
    if s.len() == 0 {
        Seq::empty()
    } else if s.len() == 1 {
        decimal(s[0] as nat)
    } else {
        join_decimals(s.drop_last()) + ", "@ + decimal(s.last() as nat)
    }
}

/// The ids as a comma-separated list.
pub fn join_ids(ids: &[u32]) -> (r: String)
    ensures
        r@ == join_decimals(ids@),
{
    let mut r = String::new();
    let mut i: usize = 0;
    while i < ids.len()
        invariant
            0 <= i <= ids@.len(),
            r@ == join_decimals(ids@.take(i as int)),
        decreases ids@.len() - i,
    {
        let d = u64_to_decimal(ids[i] as u64);
        let ghost prefix = ids@.take(i as int + 1);
        assert(prefix.drop_last() =~= ids@.take(i as int));
        if i > 0 {
            r.append(", ");
        }
        r.append(d.as_str());
        proof {
            reveal_strlit(", ");
            if i == 0 {
                assert(r@ =~= join_decimals(prefix));
            } else {
                assert(r@ =~= join_decimals(prefix));
            }
        }
        i = i + 1;
    }
    assert(ids@.take(ids@.len() as int) =~= ids@);
    r
}

/// `"{column} BETWEEN {start} AND {end}"`.
pub open spec fn between_spec(column: Seq<char>, start: int, end: int) -> Seq<char> {
    column + " BETWEEN "@ + signed_decimal(start) + " AND "@ + signed_decimal(end)
}

/// `"{column} IN ({ids})"`.
pub open spec fn in_list_spec(column: Seq<char>, ids: Seq<u32>) -> Seq<char> {
    column + " IN ("@ + join_decimals(ids) + ")"@
}

/// The clause restricting `column` to `[start, end]`.
pub fn between_clause(column: &str, start: i64, end: i64) -> (r: String)
    ensures
        r@ == between_spec(column@, start as int, end as int),
{
    let mut r = String::from_str(column);
    r.append(" BETWEEN ");
    let s = i64_to_decimal(start);
    r.append(s.as_str());
    r.append(" AND ");
    let e = i64_to_decimal(end);
    r.append(e.as_str());
    r
}

/// The clause restricting `column` to the listed ids.
pub fn in_list_clause(column: &str, ids: &[u32]) -> (r: String)
    ensures
        r@ == in_list_spec(column@, ids@),
{
    let mut r = String::from_str(column);
    r.append(" IN (");
    let l = join_ids(ids);
    r.append(l.as_str());
    r.append(")");
    r
}

/// Whether a selection's id list restricts anything: present and nonempty.
pub open spec fn restricts(ids: Option<Vec<u32>>) -> bool {
    ids matches Some(v) && v@.len() > 0
}

/// The time condition a detector appends to its query: `AND timestamp_ns
/// BETWEEN start AND end`, or nothing without a time range.
pub fn detector_time_filter(sel: &Selection) -> (r: String)
    ensures
        sel.time_range is None ==> r@ == Seq::<char>::empty(),
        sel.time_range matches Some(tr) ==> r@ == "AND "@ + between_spec("timestamp_ns"@, tr.0 as int, tr.1 as int),
{
    match &sel.time_range {
        Some(tr) => {
            let mut r = String::from_str("AND ");
            let c = between_clause("timestamp_ns", tr.0, tr.1);
            r.append(c.as_str());
            r
        },
        None => String::new(),
    }
}

/// The process condition a detector appends to its query: `AND process_id IN
/// (...)`, or nothing when the selection lists no process.
pub fn detector_pid_filter(sel: &Selection) -> (r: String)
    ensures
        !restricts(sel.pids) ==> r@ == Seq::<char>::empty(),
        restricts(sel.pids) ==> r@ == "AND "@ + in_list_spec("process_id"@, sel.pids->0@),
{
    match &sel.pids {
        Some(pids) => {
            if pids.len() == 0 {
                return String::new();
            }
            let mut r = String::from_str("AND ");
            let c = in_list_clause("process_id", pids.as_slice());
            r.append(c.as_str());
            r
        },
        None => String::new(),
    }
}

/// The parts joined by `" AND "`.
pub open spec fn join_and(parts: Seq<Seq<char>>) -> Seq<char>
    decreases parts.len(),
{
    if parts.len() == 0 {
        Seq::empty()
    } else if parts.len() == 1 {
        parts[0]
    } else {
        join_and(parts.drop_last()) + " AND "@ + parts.last()
    }
}

/// `WHERE` followed by the parts joined by `" AND "`, or nothing without parts.
pub open spec fn where_spec(parts: Seq<Seq<char>>) -> Seq<char> {
    if parts.len() == 0 {
        Seq::empty()
    } else {
        "WHERE "@ + join_and(parts)
    }
}

/// A `WHERE` clause over the given conditions.
pub fn where_clause(parts: &Vec<String>) -> (r: String)
    ensures
        r@ == where_spec(parts@.map_values(|p: String| p@)),
{
    let ghost views = parts@.map_values(|p: String| p@);
    if parts.len() == 0 {
        return String::new();
    }
    let mut r = String::from_str("WHERE ");
    let mut body = String::new();
    let mut i: usize = 0;
    while i < parts.len()
        invariant
            0 <= i <= parts@.len(),
            views == parts@.map_values(|p: String| p@),
            body@ == join_and(views.take(i as int)),
        decreases parts@.len() - i,
    {
        assert(views.take(i as int + 1).drop_last() =~= views.take(i as int));
        if i > 0 {
            body.append(" AND ");
        }
        body.append(parts[i].as_str());
        proof {
            reveal_strlit(" AND ");
            assert(body@ =~= join_and(views.take(i as int + 1)));
        }
        i = i + 1;
    }
    assert(views.take(parts@.len() as int) =~= views);
    r.append(body.as_str());
    proof {
        reveal_strlit("WHERE ");
    }
    r
}

/// The conditions of a selection over the sample tables of a diff query, with
/// time, process and thread columns qualified by `cs.`.
pub open spec fn sample_conditions(sel: Selection) -> Seq<Seq<char>> {
    let t = match sel.time_range {
        Some(tr) => seq![between_spec("cs.timestamp_ns"@, tr.0 as int, tr.1 as int)],
        None => Seq::empty(),
    };
    let p = if restricts(sel.pids) {
        seq![in_list_spec("cs.process_id"@, sel.pids->0@)]
    } else {
        Seq::empty()
    };
    let d = if restricts(sel.tids) {
        seq![in_list_spec("cs.thread_id"@, sel.tids->0@)]
    } else {
        Seq::empty()
    };
    t + p + d
}

/// The `WHERE` clause of the function-diff query over the sample tables.
pub fn sample_where(sel: &Selection) -> (r: String)
    ensures
        r@ == where_spec(sample_conditions(*sel)),
{
    let mut parts: Vec<String> = Vec::new();
    if let Some(tr) = &sel.time_range {
        parts.push(between_clause("cs.timestamp_ns", tr.0, tr.1));
    }
    if let Some(pids) = &sel.pids {
        if pids.len() > 0 {
            parts.push(in_list_clause("cs.process_id", pids.as_slice()));
        }
    }
    if let Some(tids) = &sel.tids {
        if tids.len() > 0 {
            parts.push(in_list_clause("cs.thread_id", tids.as_slice()));
        }
    }
    let r = where_clause(&parts);
    assert(parts@.map_values(|p: String| p@) =~= sample_conditions(*sel));
    r
}

/// The conditions of a selection over the memory table of a diff query, with
/// time and process columns qualified by `m.`.
pub open spec fn memory_conditions(sel: Selection) -> Seq<Seq<char>> {
    let t = match sel.time_range {
        Some(tr) => seq![between_spec("m.timestamp_ns"@, tr.0 as int, tr.1 as int)],
        None => Seq::empty(),
    };
    let p = if restricts(sel.pids) {
        seq![in_list_spec("m.process_id"@, sel.pids->0@)]
    } else {
        Seq::empty()
    };
    t + p
}

/// The `WHERE` clause of the memory-diff query.
pub fn memory_where(sel: &Selection) -> (r: String)
    ensures
        r@ == where_spec(memory_conditions(*sel)),
{
    let mut parts: Vec<String> = Vec::new();
    if let Some(tr) = &sel.time_range {
        parts.push(between_clause("m.timestamp_ns", tr.0, tr.1));
    }
    if let Some(pids) = &sel.pids {
        if pids.len() > 0 {
            parts.push(in_list_clause("m.process_id", pids.as_slice()));
        }
    }
    let r = where_clause(&parts);
    assert(parts@.map_values(|p: String| p@) =~= memory_conditions(*sel));
    r
}

/// The `WHERE` clause of the I/O-diff query: the time range only.
pub fn event_time_where(sel: &Selection) -> (r: String)
    ensures
        sel.time_range is None ==> r@ == Seq::<char>::empty(),
        sel.time_range matches Some(tr) ==> r@ == "WHERE "@ + between_spec("timestamp_ns"@, tr.0 as int, tr.1 as int),
{
    match &sel.time_range {
        Some(tr) => {
            let mut r = String::from_str("WHERE ");
            let c = between_clause("timestamp_ns", tr.0, tr.1);
            r.append(c.as_str());
            r
        },
        None => String::new(),
    }
}

} // verus!
