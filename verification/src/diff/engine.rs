use vstd::prelude::*;

use super::delta::{
    change_of, classify_change, ChangeKind, DiffSummary, Entity, EntityKind, FunctionDelta,
    FunctionDeltaView, IoDelta, IoDeltaView, MemoryDelta, MemoryDeltaView,
};
use super::key::{parse_key, parse_key_spec};
use crate::text::str_eq;
use super::rank::{ranked_desc, sort_by_rank_desc, views};
use crate::import::contract::opt_text;

verus! {

// ── Entities ─────────────────────────────────────────────────────────────────

/// A process listed in a trace, with its name where known.
#[derive(Debug, Clone)]
pub struct ProcessRow {
    pub pid: u32,
    pub name: Option<String>,
}

/// Whether some row lists `pid`.
pub open spec fn has_pid(rows: Seq<ProcessRow>, pid: u32) -> bool {
    exists|i: int| 0 <= i < rows.len() && (#[trigger] rows[i]).pid == pid
}

/// The rows of `x` whose process `y` does not list, in order.
pub open spec fn only_in(x: Seq<ProcessRow>, y: Seq<ProcessRow>) -> Seq<ProcessRow>
    decreases x.len(),
{
    if x.len() == 0 {
        Seq::empty()
    } else {
        let r = only_in(x.drop_last(), y);
        if has_pid(y, x.last().pid) {
            r
        } else {
            r.push(x.last())
        }
    }
}

/// Whether `e` is the process entity for `row` with change `change`.
pub open spec fn is_process_entity(e: Entity, row: ProcessRow, change: ChangeKind) -> bool {
    &&& e.kind == EntityKind::Process
    &&& e.pid == row.pid
    &&& e.tid is None
    &&& opt_text(e.name) == opt_text(row.name)
    &&& e.change == change
}

fn lists_pid(rows: &[ProcessRow], pid: u32) -> (b: bool)
    ensures
        b == has_pid(rows@, pid),
{
    let mut i: usize = 0;
    while i < rows.len()
        invariant
            0 <= i <= rows@.len(),
            forall|j: int| 0 <= j < i ==> (#[trigger] rows@[j]).pid != pid,
        decreases rows@.len() - i,
    {
        if rows[i].pid == pid {
            return true;
        }
        i = i + 1;
    }
    false
}

fn clone_name(n: &Option<String>) -> (r: Option<String>)
    ensures
        opt_text(r) == opt_text(*n),
{
    match n {
        Some(s) => Some(s.clone()),
        None => None,
    }
}

/// The entities for the processes of `x` that `y` does not list.
fn entities_only_in(x: &[ProcessRow], y: &[ProcessRow], change: ChangeKind) -> (r: Vec<Entity>)
    ensures
        r@.len() == only_in(x@, y@).len(),
        forall|k: int| 0 <= k < r@.len() ==> is_process_entity(#[trigger] r@[k], only_in(x@, y@)[k], change),
{
    let mut r: Vec<Entity> = Vec::new();
    let mut i: usize = 0;
    while i < x.len()
        invariant
            0 <= i <= x@.len(),
            r@.len() == only_in(x@.take(i as int), y@).len(),
            forall|k: int| 0 <= k < r@.len() ==> is_process_entity(#[trigger] r@[k], only_in(x@.take(i as int), y@)[k], change),
        decreases x@.len() - i,
    {
        assert(x@.take(i as int + 1).drop_last() =~= x@.take(i as int));
        assert(x@.take(i as int + 1).last() == x@[i as int]);
        if !lists_pid(y, x[i].pid) {
            r.push(Entity {
                kind: EntityKind::Process,
                pid: x[i].pid,
                tid: None,
                name: clone_name(&x[i].name),
                change,
            });
        }
        i = i + 1;
    }
    assert(x@.take(x@.len() as int) =~= x@);
    r
}

/// The processes added in trace B (listed by B only) and removed from it
/// (listed by A only), each in its trace's order.
pub fn diff_entities(pids_a: &[ProcessRow], pids_b: &[ProcessRow]) -> (r: (Vec<Entity>, Vec<Entity>))
    ensures
        r.0@.len() == only_in(pids_b@, pids_a@).len(),
        forall|k: int| 0 <= k < r.0@.len() ==> is_process_entity(#[trigger] r.0@[k], only_in(pids_b@, pids_a@)[k], ChangeKind::Added),
        r.1@.len() == only_in(pids_a@, pids_b@).len(),
        forall|k: int| 0 <= k < r.1@.len() ==> is_process_entity(#[trigger] r.1@[k], only_in(pids_a@, pids_b@)[k], ChangeKind::Removed),
{
    let added = entities_only_in(pids_b, pids_a, ChangeKind::Added);
    let removed = entities_only_in(pids_a, pids_b, ChangeKind::Removed);
    (added, removed)
}

/// Every row of `only_in(x, y)` is a row of `x` whose process `y` does not list.
pub proof fn lemma_only_in(x: Seq<ProcessRow>, y: Seq<ProcessRow>)
    ensures
        forall|k: int| 0 <= k < only_in(x, y).len() ==> !has_pid(y, (#[trigger] only_in(x, y)[k]).pid)
            && has_pid(x, only_in(x, y)[k].pid),
    decreases x.len(),
{
    if x.len() > 0 {
        lemma_only_in(x.drop_last(), y);
        let r = only_in(x.drop_last(), y);
        assert forall|k: int| 0 <= k < only_in(x, y).len() implies !has_pid(y, (#[trigger] only_in(x, y)[k]).pid)
            && has_pid(x, only_in(x, y)[k].pid) by {
            if k < r.len() {
                let i = choose|i: int| 0 <= i < x.drop_last().len() && (#[trigger] x.drop_last()[i]).pid == r[k].pid;
                assert(x[i] == x.drop_last()[i]);
            } else {
                assert(x[x.len() - 1].pid == only_in(x, y)[k].pid);
            }
        }
    }
}

/// Every process of `x` that `y` does not list is in `only_in(x, y)`.
pub proof fn lemma_only_in_complete(x: Seq<ProcessRow>, y: Seq<ProcessRow>, i: int)
    requires
        0 <= i < x.len(),
        !has_pid(y, x[i].pid),
    ensures
        has_pid(only_in(x, y), x[i].pid),
    decreases x.len(),
{
    let r = only_in(x.drop_last(), y);
    if i == x.len() - 1 {
        assert(only_in(x, y)[r.len() as int] == x[i]);
    } else {
        assert(x.drop_last()[i] == x[i]);
        lemma_only_in_complete(x.drop_last(), y, i);
        let k = choose|k: int| 0 <= k < r.len() && (#[trigger] r[k]).pid == x[i].pid;
        assert(only_in(x, y)[k] == r[k]);
    }
}

/// Added processes are exactly those trace B lists and trace A does not;
/// removed processes exactly those A lists and B does not.
pub proof fn law_entities_are_set_differences(a: Seq<ProcessRow>, b: Seq<ProcessRow>, pid: u32)
    ensures
        has_pid(only_in(b, a), pid) <==> (has_pid(b, pid) && !has_pid(a, pid)),
        has_pid(only_in(a, b), pid) <==> (has_pid(a, pid) && !has_pid(b, pid)),
{
    lemma_only_in(b, a);
    lemma_only_in(a, b);
    if has_pid(b, pid) && !has_pid(a, pid) {
        let i = choose|i: int| 0 <= i < b.len() && (#[trigger] b[i]).pid == pid;
        lemma_only_in_complete(b, a, i);
    }
    if has_pid(a, pid) && !has_pid(b, pid) {
        let i = choose|i: int| 0 <= i < a.len() && (#[trigger] a[i]).pid == pid;
        lemma_only_in_complete(a, b, i);
    }
    if has_pid(only_in(b, a), pid) {
        let k = choose|k: int| 0 <= k < only_in(b, a).len() && (#[trigger] only_in(b, a)[k]).pid == pid;
    }
    if has_pid(only_in(a, b), pid) {
        let k = choose|k: int| 0 <= k < only_in(a, b).len() && (#[trigger] only_in(a, b)[k]).pid == pid;
    }
}

/// A trace compared with itself adds and removes no process.
pub proof fn law_same_trace_no_entities(a: Seq<ProcessRow>)
    ensures
        only_in(a, a).len() == 0,
{
    lemma_only_in(a, a);
    if only_in(a, a).len() > 0 {
        assert(has_pid(a, only_in(a, a)[0].pid));
    }
}

// ── Summary ──────────────────────────────────────────────────────────────────

/// How many of the kinds equal `k`.
pub open spec fn count_kind(s: Seq<ChangeKind>, k: ChangeKind) -> nat
    decreases s.len(),
{
    if s.len() == 0 {
        0
    } else {
        count_kind(s.drop_last(), k) + if s.last() == k {
            1nat
        } else {
            0nat
        }
    }
}

/// How many of the entities are processes.
pub open spec fn count_processes(s: Seq<Entity>) -> nat
    decreases s.len(),
{
    if s.len() == 0 {
        0
    } else {
        count_processes(s.drop_last()) + if s.last().kind == EntityKind::Process {
            1nat
        } else {
            0nat
        }
    }
}

proof fn lemma_count_kind_le(s: Seq<ChangeKind>, k: ChangeKind)
    ensures
        count_kind(s, k) <= s.len(),
    decreases s.len(),
{
    if s.len() > 0 {
        lemma_count_kind_le(s.drop_last(), k);
    }
}

proof fn lemma_count_processes_le(s: Seq<Entity>)
    ensures
        count_processes(s) <= s.len(),
    decreases s.len(),
{
    if s.len() > 0 {
        lemma_count_processes_le(s.drop_last());
    }
}

fn count_of_kind(kinds: &[ChangeKind], k: ChangeKind) -> (n: usize)
    ensures
        n == count_kind(kinds@, k),
{
    let mut n: usize = 0;
    let mut i: usize = 0;
    while i < kinds.len()
        invariant
            0 <= i <= kinds@.len(),
            n == count_kind(kinds@.take(i as int), k),
        decreases kinds@.len() - i,
    {
        assert(kinds@.take(i as int + 1).drop_last() =~= kinds@.take(i as int));
        proof {
            lemma_count_kind_le(kinds@.take(i as int), k);
        }
        if kinds[i] == k {
            n = n + 1;
        }
        i = i + 1;
    }
    assert(kinds@.take(kinds@.len() as int) =~= kinds@);
    n
}

fn count_process_entities(es: &[Entity]) -> (n: usize)
    ensures
        n == count_processes(es@),
{
    let mut n: usize = 0;
    let mut i: usize = 0;
    while i < es.len()
        invariant
            0 <= i <= es@.len(),
            n == count_processes(es@.take(i as int)),
        decreases es@.len() - i,
    {
        assert(es@.take(i as int + 1).drop_last() =~= es@.take(i as int));
        proof {
            lemma_count_processes_le(es@.take(i as int));
        }
        if es[i].kind == EntityKind::Process {
            n = n + 1;
        }
        i = i + 1;
    }
    assert(es@.take(es@.len() as int) =~= es@);
    n
}

/// The summary of a diff: both durations, how many functions changed, were
/// added and were removed (`function_kinds` holds each function delta's kind),
/// and how many processes were added and removed.
pub fn summarize(
    duration_a_ns: u64,
    duration_b_ns: u64,
    function_kinds: &[ChangeKind],
    added: &[Entity],
    removed: &[Entity],
) -> (s: DiffSummary)
    ensures
        s.duration_a_ns == duration_a_ns,
        s.duration_b_ns == duration_b_ns,
        s.functions_changed == count_kind(function_kinds@, ChangeKind::Changed),
        s.functions_added == count_kind(function_kinds@, ChangeKind::Added),
        s.functions_removed == count_kind(function_kinds@, ChangeKind::Removed),
        s.processes_added == count_processes(added@),
        s.processes_removed == count_processes(removed@),
{
    DiffSummary {
        duration_a_ns,
        duration_b_ns,
        functions_changed: count_of_kind(function_kinds, ChangeKind::Changed),
        functions_added: count_of_kind(function_kinds, ChangeKind::Added),
        functions_removed: count_of_kind(function_kinds, ChangeKind::Removed),
        processes_added: count_process_entities(added),
        processes_removed: count_process_entities(removed),
    }
}

// ── Per-process I/O ──────────────────────────────────────────────────────────

/// One process's I/O in one trace: bytes moved and operations.
#[derive(Debug, Clone)]
pub struct IoStat {
    pub pid: u32,
    pub bytes: i64,
    pub ops: i64,
    pub name: Option<String>,
}

/// The last row for `pid`, if any.
pub open spec fn lookup_io(s: Seq<IoStat>, pid: u32) -> Option<IoStat>
    decreases s.len(),
{
    if s.len() == 0 {
        None
    } else if s.last().pid == pid {
        Some(s.last())
    } else {
        lookup_io(s.drop_last(), pid)
    }
}

/// Whether the rows list each process at most once.
pub open spec fn io_distinct(s: Seq<IoStat>) -> bool {
    forall|i: int, j: int| 0 <= i < j < s.len() ==> (#[trigger] s[i]).pid != (#[trigger] s[j]).pid
}

/// The I/O delta of process `pid` from its row in A to its row in B (a
/// missing row counts as zero): the change is decided by which side moved
/// any bytes, the name is B's where known, else A's.
pub open spec fn io_delta_spec(pid: u32, a: Option<IoStat>, b: Option<IoStat>) -> Option<IoDeltaView> {
    let (ab, ao, an) = match a {
        Some(x) => (x.bytes as int, x.ops as int, opt_text(x.name)),
        None => (0int, 0int, None),
    };
    let (bb, bo, bn) = match b {
        Some(y) => (y.bytes as int, y.ops as int, opt_text(y.name)),
        None => (0int, 0int, None),
    };
    match change_of(ab > 0, bb > 0) {
        None => None,
        Some(k) => Some((pid, if bn is Some { bn } else { an }, k, (bb - ab) as i64, (bo - ao) as i64)),
    }
}

/// Whether the I/O delta of `pid` fits in `i64` wherever one is made.
pub open spec fn io_delta_fits(a: Option<IoStat>, b: Option<IoStat>) -> bool {
    let (ab, ao) = match a {
        Some(x) => (x.bytes as int, x.ops as int),
        None => (0int, 0int),
    };
    let (bb, bo) = match b {
        Some(y) => (y.bytes as int, y.ops as int),
        None => (0int, 0int),
    };
    change_of(ab > 0, bb > 0) is Some ==> (i64::MIN <= bb - ab <= i64::MAX && i64::MIN <= bo - ao <= i64::MAX)
}

/// The deltas of A's processes, in A's order.
pub open spec fn io_from_a(a: Seq<IoStat>, b: Seq<IoStat>) -> Seq<IoDeltaView>
    decreases a.len(),
{
    if a.len() == 0 {
        Seq::empty()
    } else {
        let r = io_from_a(a.drop_last(), b);
        match io_delta_spec(a.last().pid, Some(a.last()), lookup_io(b, a.last().pid)) {
            Some(d) => r.push(d),
            None => r,
        }
    }
}

/// The deltas of the processes only B lists, in B's order.
pub open spec fn io_from_b(a: Seq<IoStat>, b: Seq<IoStat>) -> Seq<IoDeltaView>
    decreases b.len(),
{
    if b.len() == 0 {
        Seq::empty()
    } else {
        let r = io_from_b(a, b.drop_last());
        if lookup_io(a, b.last().pid) is Some {
            r
        } else {
            match io_delta_spec(b.last().pid, None, Some(b.last())) {
                Some(d) => r.push(d),
                None => r,
            }
        }
    }
}

/// Whether every delta the I/O diff makes fits in `i64`.
pub open spec fn io_inputs_fit(a: Seq<IoStat>, b: Seq<IoStat>) -> bool {
    &&& forall|i: int| 0 <= i < a.len() ==> io_delta_fits(Some(#[trigger] a[i]), lookup_io(b, a[i].pid))
    &&& forall|j: int| 0 <= j < b.len() ==> io_delta_fits(None, Some(#[trigger] b[j]))
}

fn find_io(s: &[IoStat], pid: u32) -> (r: Option<usize>)
    ensures
        match r {
            Some(i) => i < s@.len() && lookup_io(s@, pid) == Some(s@[i as int]),
            None => lookup_io(s@, pid) is None,
        },
{
    let mut i: usize = s.len();
    assert(s@.take(s@.len() as int) =~= s@);
    while i > 0
        invariant
            0 <= i <= s@.len(),
            lookup_io(s@, pid) == lookup_io(s@.take(i as int), pid),
        decreases i,
    {
        assert(s@.take(i as int).drop_last() =~= s@.take(i as int - 1));
        assert(s@.take(i as int).last() == s@[i - 1]);
        if s[i - 1].pid == pid {
            return Some(i - 1);
        }
        i = i - 1;
    }
    assert(s@.take(0) =~= Seq::<IoStat>::empty());
    None
}

fn io_delta(pid: u32, a: Option<&IoStat>, b: Option<&IoStat>) -> (r: Option<IoDelta>)
    requires
        io_delta_fits(match a { Some(x) => Some(*x), None => None }, match b { Some(y) => Some(*y), None => None }),
    ensures
        match r {
            Some(d) => io_delta_spec(pid, match a { Some(x) => Some(*x), None => None }, match b {
                Some(y) => Some(*y),
                None => None,
            }) == Some(d@),
            None => io_delta_spec(pid, match a { Some(x) => Some(*x), None => None }, match b {
                Some(y) => Some(*y),
                None => None,
            }) is None,
        },
{
    let (ab, ao): (i64, i64) = match a {
        Some(x) => (x.bytes, x.ops),
        None => (0, 0),
    };
    let (bb, bo): (i64, i64) = match b {
        Some(y) => (y.bytes, y.ops),
        None => (0, 0),
    };
    let kind = match classify_change(ab > 0, bb > 0) {
        Some(k) => k,
        None => return None,
    };
    let name = match b {
        Some(y) if y.name.is_some() => clone_name(&y.name),
        _ => match a {
            Some(x) => clone_name(&x.name),
            None => None,
        },
    };
    Some(IoDelta { pid, process_name: name, kind, io_bytes_delta: bb - ab, io_ops_delta: bo - ao })
}

/// The per-process I/O diff: one delta for each process that moved bytes in
/// either trace, ordered from the largest byte change down. The order among
/// equal changes is not part of the contract.
pub fn diff_io(a: &[IoStat], b: &[IoStat]) -> (r: Vec<IoDelta>)
    requires
        io_distinct(a@),
        io_distinct(b@),
        io_inputs_fit(a@, b@),
    ensures
        ranked_desc(r@),
        views(r@).to_multiset() == (io_from_a(a@, b@) + io_from_b(a@, b@)).to_multiset(),
{
    let mut deltas: Vec<IoDelta> = Vec::new();
    let mut i: usize = 0;
    while i < a.len()
        invariant
            0 <= i <= a@.len(),
            io_inputs_fit(a@, b@),
            views(deltas@) == io_from_a(a@.take(i as int), b@),
        decreases a@.len() - i,
    {
        assert(a@.take(i as int + 1).drop_last() =~= a@.take(i as int));
        assert(a@.take(i as int + 1).last() == a@[i as int]);
        let x = &a[i];
        let other = match find_io(b, x.pid) {
            Some(j) => Some(&b[j]),
            None => None,
        };
        assert(io_delta_fits(Some(a@[i as int]), lookup_io(b@, a@[i as int].pid)));
        let d = io_delta(x.pid, Some(x), other);
        let ghost before = deltas@;
        match d {
            Some(d) => {
                deltas.push(d);
                assert(views(deltas@) =~= views(before).push(d@));
            },
            None => {},
        }
        i = i + 1;
    }
    assert(a@.take(a@.len() as int) =~= a@);
    let ghost part_a = views(deltas@);
    let mut j: usize = 0;
    while j < b.len()
        invariant
            0 <= j <= b@.len(),
            io_inputs_fit(a@, b@),
            part_a == io_from_a(a@, b@),
            views(deltas@) == part_a + io_from_b(a@, b@.take(j as int)),
        decreases b@.len() - j,
    {
        assert(b@.take(j as int + 1).drop_last() =~= b@.take(j as int));
        assert(b@.take(j as int + 1).last() == b@[j as int]);
        let y = &b[j];
        if find_io(a, y.pid).is_none() {
            assert(io_delta_fits(None, Some(b@[j as int])));
            let d = io_delta(y.pid, None, Some(y));
            let ghost before = deltas@;
            match d {
                Some(d) => {
                    deltas.push(d);
                    assert(views(deltas@) =~= views(before).push(d@));
                },
                None => {},
            }
        }
        j = j + 1;
    }
    assert(b@.take(b@.len() as int) =~= b@);
    sort_by_rank_desc(deltas)
}

// ── Per-process memory ───────────────────────────────────────────────────────

/// One process's net allocation (allocated minus freed bytes) in one trace.
#[derive(Debug, Clone)]
pub struct MemoryStat {
    pub pid: u32,
    pub net_alloc: i64,
    pub name: Option<String>,
}

/// The last row for `pid`, if any.
pub open spec fn lookup_mem(s: Seq<MemoryStat>, pid: u32) -> Option<MemoryStat>
    decreases s.len(),
{
    if s.len() == 0 {
        None
    } else if s.last().pid == pid {
        Some(s.last())
    } else {
        lookup_mem(s.drop_last(), pid)
    }
}

/// Whether the rows list each process at most once.
pub open spec fn mem_distinct(s: Seq<MemoryStat>) -> bool {
    forall|i: int, j: int| 0 <= i < j < s.len() ==> (#[trigger] s[i]).pid != (#[trigger] s[j]).pid
}

/// The memory delta of process `pid` from its row in A to its row in B (a
/// missing row counts as zero): the change is decided by which side has a
/// nonzero net allocation, the name is B's where known, else A's.
pub open spec fn mem_delta_spec(pid: u32, a: Option<MemoryStat>, b: Option<MemoryStat>) -> Option<MemoryDeltaView> {
    let (an, aname) = match a {
        Some(x) => (x.net_alloc as int, opt_text(x.name)),
        None => (0int, None),
    };
    let (bn, bname) = match b {
        Some(y) => (y.net_alloc as int, opt_text(y.name)),
        None => (0int, None),
    };
    match change_of(an != 0, bn != 0) {
        None => None,
        Some(k) => Some((pid, if bname is Some { bname } else { aname }, k, (bn - an) as i64)),
    }
}

/// Whether the net change of a process fits in `i64`.
pub open spec fn mem_delta_fits(a: Option<MemoryStat>, b: Option<MemoryStat>) -> bool {
    let an = match a {
        Some(x) => x.net_alloc as int,
        None => 0int,
    };
    let bn = match b {
        Some(y) => y.net_alloc as int,
        None => 0int,
    };
    i64::MIN <= bn - an <= i64::MAX
}

/// The deltas of A's processes, in A's order.
pub open spec fn mem_from_a(a: Seq<MemoryStat>, b: Seq<MemoryStat>) -> Seq<MemoryDeltaView>
    decreases a.len(),
{
    if a.len() == 0 {
        Seq::empty()
    } else {
        let r = mem_from_a(a.drop_last(), b);
        match mem_delta_spec(a.last().pid, Some(a.last()), lookup_mem(b, a.last().pid)) {
            Some(d) => r.push(d),
            None => r,
        }
    }
}

/// The deltas of the processes only B lists, in B's order.
pub open spec fn mem_from_b(a: Seq<MemoryStat>, b: Seq<MemoryStat>) -> Seq<MemoryDeltaView>
    decreases b.len(),
{
    if b.len() == 0 {
        Seq::empty()
    } else {
        let r = mem_from_b(a, b.drop_last());
        if lookup_mem(a, b.last().pid) is Some {
            r
        } else {
            match mem_delta_spec(b.last().pid, None, Some(b.last())) {
                Some(d) => r.push(d),
                None => r,
            }
        }
    }
}

/// Whether every net change the memory diff computes fits in `i64`.
pub open spec fn mem_inputs_fit(a: Seq<MemoryStat>, b: Seq<MemoryStat>) -> bool {
    forall|i: int| 0 <= i < a.len() ==> mem_delta_fits(Some(#[trigger] a[i]), lookup_mem(b, a[i].pid))
}

fn find_mem(s: &[MemoryStat], pid: u32) -> (r: Option<usize>)
    ensures
        match r {
            Some(i) => i < s@.len() && lookup_mem(s@, pid) == Some(s@[i as int]),
            None => lookup_mem(s@, pid) is None,
        },
{
    let mut i: usize = s.len();
    assert(s@.take(s@.len() as int) =~= s@);
    while i > 0
        invariant
            0 <= i <= s@.len(),
            lookup_mem(s@, pid) == lookup_mem(s@.take(i as int), pid),
        decreases i,
    {
        assert(s@.take(i as int).drop_last() =~= s@.take(i as int - 1));
        assert(s@.take(i as int).last() == s@[i - 1]);
        if s[i - 1].pid == pid {
            return Some(i - 1);
        }
        i = i - 1;
    }
    assert(s@.take(0) =~= Seq::<MemoryStat>::empty());
    None
}

fn mem_delta(pid: u32, a: Option<&MemoryStat>, b: Option<&MemoryStat>) -> (r: Option<MemoryDelta>)
    requires
        mem_delta_fits(match a { Some(x) => Some(*x), None => None }, match b { Some(y) => Some(*y), None => None }),
    ensures
        match r {
            Some(d) => mem_delta_spec(pid, match a { Some(x) => Some(*x), None => None }, match b {
                Some(y) => Some(*y),
                None => None,
            }) == Some(d@),
            None => mem_delta_spec(pid, match a { Some(x) => Some(*x), None => None }, match b {
                Some(y) => Some(*y),
                None => None,
            }) is None,
        },
{
    let an: i64 = match a {
        Some(x) => x.net_alloc,
        None => 0,
    };
    let bn: i64 = match b {
        Some(y) => y.net_alloc,
        None => 0,
    };
    let net_delta = bn - an;
    let kind = match classify_change(an != 0, bn != 0) {
        Some(k) => k,
        None => return None,
    };
    let name = match b {
        Some(y) if y.name.is_some() => clone_name(&y.name),
        _ => match a {
            Some(x) => clone_name(&x.name),
            None => None,
        },
    };
    Some(MemoryDelta { pid, process_name: name, kind, net_alloc_delta: net_delta })
}

/// The per-process memory diff: one delta for each process with a nonzero net
/// allocation in either trace, ordered from the largest change down. The order
/// among equal changes is not part of the contract.
pub fn diff_memory(a: &[MemoryStat], b: &[MemoryStat]) -> (r: Vec<MemoryDelta>)
    requires
        mem_distinct(a@),
        mem_distinct(b@),
        mem_inputs_fit(a@, b@),
    ensures
        ranked_desc(r@),
        views(r@).to_multiset() == (mem_from_a(a@, b@) + mem_from_b(a@, b@)).to_multiset(),
{
    let mut deltas: Vec<MemoryDelta> = Vec::new();
    let mut i: usize = 0;
    while i < a.len()
        invariant
            0 <= i <= a@.len(),
            mem_inputs_fit(a@, b@),
            views(deltas@) == mem_from_a(a@.take(i as int), b@),
        decreases a@.len() - i,
    {
        assert(a@.take(i as int + 1).drop_last() =~= a@.take(i as int));
        assert(a@.take(i as int + 1).last() == a@[i as int]);
        let x = &a[i];
        let other = match find_mem(b, x.pid) {
            Some(j) => Some(&b[j]),
            None => None,
        };
        assert(mem_delta_fits(Some(a@[i as int]), lookup_mem(b@, a@[i as int].pid)));
        let d = mem_delta(x.pid, Some(x), other);
        let ghost before = deltas@;
        match d {
            Some(d) => {
                deltas.push(d);
                assert(views(deltas@) =~= views(before).push(d@));
            },
            None => {},
        }
        i = i + 1;
    }
    assert(a@.take(a@.len() as int) =~= a@);
    let ghost part_a = views(deltas@);
    let mut j: usize = 0;
    while j < b.len()
        invariant
            0 <= j <= b@.len(),
            part_a == mem_from_a(a@, b@),
            views(deltas@) == part_a + mem_from_b(a@, b@.take(j as int)),
        decreases b@.len() - j,
    {
        assert(b@.take(j as int + 1).drop_last() =~= b@.take(j as int));
        assert(b@.take(j as int + 1).last() == b@[j as int]);
        let y = &b[j];
        if find_mem(a, y.pid).is_none() {
            let d = mem_delta(y.pid, None, Some(y));
            let ghost before = deltas@;
            match d {
                Some(d) => {
                    deltas.push(d);
                    assert(views(deltas@) =~= views(before).push(d@));
                },
                None => {},
            }
        }
        j = j + 1;
    }
    assert(b@.take(b@.len() as int) =~= b@);
    sort_by_rank_desc(deltas)
}

// ── Per-function samples ─────────────────────────────────────────────────────

/// One function's samples in one trace, stored under its key (see
/// `make_key`): samples where it is the leaf frame, samples where it is on
/// the stack at all, and its module.
#[derive(Debug, Clone)]
pub struct FunctionStat {
    pub key: String,
    pub self_samples: i64,
    pub total_samples: i64,
    pub module: Option<String>,
}

/// The last row stored under `key`, if any.
pub open spec fn lookup_fn(s: Seq<FunctionStat>, key: Seq<char>) -> Option<FunctionStat>
    decreases s.len(),
{
    if s.len() == 0 {
        None
    } else if s.last().key@ == key {
        Some(s.last())
    } else {
        lookup_fn(s.drop_last(), key)
    }
}

/// Whether the rows hold each key at most once.
pub open spec fn fn_distinct(s: Seq<FunctionStat>) -> bool {
    forall|i: int, j: int| 0 <= i < j < s.len() ==> (#[trigger] s[i]).key@ != (#[trigger] s[j]).key@
}

/// The delta of the function under `key` from its row in A to its row in B (a
/// missing row counts as zero): the change is decided by which side sampled
/// it at all; name and module come from the key, the module else from A.
pub open spec fn fn_delta_spec(key: Seq<char>, a: Option<FunctionStat>, b: Option<FunctionStat>) -> Option<FunctionDeltaView> {
    let (a_self, a_total, a_module) = match a {
        Some(x) => (x.self_samples as int, x.total_samples as int, opt_text(x.module)),
        None => (0int, 0int, None),
    };
    let (b_self, b_total) = match b {
        Some(y) => (y.self_samples as int, y.total_samples as int),
        None => (0int, 0int),
    };
    let (name, module) = parse_key_spec(key);
    match change_of(a_self > 0 || a_total > 0, b_self > 0 || b_total > 0) {
        None => None,
        Some(k) => Some((name, if module is Some { module } else { a_module }, k, (b_self - a_self) as i64,
            (b_total - a_total) as i64)),
    }
}

/// Whether the sample changes of a function fit in `i64` wherever a delta is made.
pub open spec fn fn_delta_fits(a: Option<FunctionStat>, b: Option<FunctionStat>) -> bool {
    let (a_self, a_total) = match a {
        Some(x) => (x.self_samples as int, x.total_samples as int),
        None => (0int, 0int),
    };
    let (b_self, b_total) = match b {
        Some(y) => (y.self_samples as int, y.total_samples as int),
        None => (0int, 0int),
    };
    change_of(a_self > 0 || a_total > 0, b_self > 0 || b_total > 0) is Some ==> (i64::MIN <= b_self - a_self
        <= i64::MAX && i64::MIN <= b_total - a_total <= i64::MAX)
}

/// The deltas of A's functions, in A's order.
pub open spec fn fn_from_a(a: Seq<FunctionStat>, b: Seq<FunctionStat>) -> Seq<FunctionDeltaView>
    decreases a.len(),
{
    if a.len() == 0 {
        Seq::empty()
    } else {
        let r = fn_from_a(a.drop_last(), b);
        match fn_delta_spec(a.last().key@, Some(a.last()), lookup_fn(b, a.last().key@)) {
            Some(d) => r.push(d),
            None => r,
        }
    }
}

/// The deltas of the functions only B holds, in B's order.
pub open spec fn fn_from_b(a: Seq<FunctionStat>, b: Seq<FunctionStat>) -> Seq<FunctionDeltaView>
    decreases b.len(),
{
    if b.len() == 0 {
        Seq::empty()
    } else {
        let r = fn_from_b(a, b.drop_last());
        if lookup_fn(a, b.last().key@) is Some {
            r
        } else {
            match fn_delta_spec(b.last().key@, None, Some(b.last())) {
                Some(d) => r.push(d),
                None => r,
            }
        }
    }
}

/// Whether every delta the function diff makes fits in `i64`.
pub open spec fn fn_inputs_fit(a: Seq<FunctionStat>, b: Seq<FunctionStat>) -> bool {
    &&& forall|i: int| 0 <= i < a.len() ==> fn_delta_fits(Some(#[trigger] a[i]), lookup_fn(b, a[i].key@))
    &&& forall|j: int| 0 <= j < b.len() ==> fn_delta_fits(None, Some(#[trigger] b[j]))
}

fn find_fn(s: &[FunctionStat], key: &str) -> (r: Option<usize>)
    ensures
        match r {
            Some(i) => i < s@.len() && lookup_fn(s@, key@) == Some(s@[i as int]),
            None => lookup_fn(s@, key@) is None,
        },
{
    let mut i: usize = s.len();
    assert(s@.take(s@.len() as int) =~= s@);
    while i > 0
        invariant
            0 <= i <= s@.len(),
            lookup_fn(s@, key@) == lookup_fn(s@.take(i as int), key@),
        decreases i,
    {
        assert(s@.take(i as int).drop_last() =~= s@.take(i as int - 1));
        assert(s@.take(i as int).last() == s@[i - 1]);
        if str_eq(s[i - 1].key.as_str(), key) {
            return Some(i - 1);
        }
        i = i - 1;
    }
    assert(s@.take(0) =~= Seq::<FunctionStat>::empty());
    None
}

fn fn_delta(key: &str, a: Option<&FunctionStat>, b: Option<&FunctionStat>) -> (r: Option<FunctionDelta>)
    requires
        fn_delta_fits(match a { Some(x) => Some(*x), None => None }, match b { Some(y) => Some(*y), None => None }),
    ensures
        match r {
            Some(d) => fn_delta_spec(key@, match a { Some(x) => Some(*x), None => None }, match b {
                Some(y) => Some(*y),
                None => None,
            }) == Some(d@),
            None => fn_delta_spec(key@, match a { Some(x) => Some(*x), None => None }, match b {
                Some(y) => Some(*y),
                None => None,
            }) is None,
        },
{
    let (a_self, a_total): (i64, i64) = match a {
        Some(x) => (x.self_samples, x.total_samples),
        None => (0, 0),
    };
    let (b_self, b_total): (i64, i64) = match b {
        Some(y) => (y.self_samples, y.total_samples),
        None => (0, 0),
    };
    let kind = match classify_change(a_self > 0 || a_total > 0, b_self > 0 || b_total > 0) {
        Some(k) => k,
        None => return None,
    };
    let (name, module) = parse_key(key);
    let binary = match module {
        Some(m) => Some(m),
        None => match a {
            Some(x) => clone_name(&x.module),
            None => None,
        },
    };
    Some(FunctionDelta {
        function_name: name,
        binary_name: binary,
        kind,
        self_samples_delta: b_self - a_self,
        total_samples_delta: b_total - a_total,
    })
}

/// The per-function diff: one delta for each function sampled in either
/// trace, ordered from the largest self-sample change down. The order among
/// equal changes is not part of the contract.
pub fn diff_functions(a: &[FunctionStat], b: &[FunctionStat]) -> (r: Vec<FunctionDelta>)
    requires
        fn_distinct(a@),
        fn_distinct(b@),
        fn_inputs_fit(a@, b@),
    ensures
        ranked_desc(r@),
        views(r@).to_multiset() == (fn_from_a(a@, b@) + fn_from_b(a@, b@)).to_multiset(),
{
    let mut deltas: Vec<FunctionDelta> = Vec::new();
    let mut i: usize = 0;
    while i < a.len()
        invariant
            0 <= i <= a@.len(),
            fn_inputs_fit(a@, b@),
            views(deltas@) == fn_from_a(a@.take(i as int), b@),
        decreases a@.len() - i,
    {
        assert(a@.take(i as int + 1).drop_last() =~= a@.take(i as int));
        assert(a@.take(i as int + 1).last() == a@[i as int]);
        let x = &a[i];
        let other = match find_fn(b, x.key.as_str()) {
            Some(j) => Some(&b[j]),
            None => None,
        };
        assert(fn_delta_fits(Some(a@[i as int]), lookup_fn(b@, a@[i as int].key@)));
        let d = fn_delta(x.key.as_str(), Some(x), other);
        let ghost before = deltas@;
        match d {
            Some(d) => {
                deltas.push(d);
                assert(views(deltas@) =~= views(before).push(d@));
            },
            None => {},
        }
        i = i + 1;
    }
    assert(a@.take(a@.len() as int) =~= a@);
    let ghost part_a = views(deltas@);
    let mut j: usize = 0;
    while j < b.len()
        invariant
            0 <= j <= b@.len(),
            fn_inputs_fit(a@, b@),
            part_a == fn_from_a(a@, b@),
            views(deltas@) == part_a + fn_from_b(a@, b@.take(j as int)),
        decreases b@.len() - j,
    {
        assert(b@.take(j as int + 1).drop_last() =~= b@.take(j as int));
        assert(b@.take(j as int + 1).last() == b@[j as int]);
        let y = &b[j];
        if find_fn(a, y.key.as_str()).is_none() {
            assert(fn_delta_fits(None, Some(b@[j as int])));
            let d = fn_delta(y.key.as_str(), None, Some(y));
            let ghost before = deltas@;
            match d {
                Some(d) => {
                    deltas.push(d);
                    assert(views(deltas@) =~= views(before).push(d@));
                },
                None => {},
            }
        }
        j = j + 1;
    }
    assert(b@.take(b@.len() as int) =~= b@);
    sort_by_rank_desc(deltas)
}

// ── A trace compared with itself ─────────────────────────────────────────────

proof fn lemma_lookup_io_own(a: Seq<IoStat>, i: int)
    requires
        io_distinct(a),
        0 <= i < a.len(),
    ensures
        lookup_io(a, a[i].pid) == Some(a[i]),
    decreases a.len(),
{
    if i < a.len() - 1 {
        assert(a[a.len() - 1].pid != a[i].pid);
        assert(a.drop_last()[i] == a[i]);
        lemma_lookup_io_own(a.drop_last(), i);
    }
}

proof fn lemma_io_self_prefix(a: Seq<IoStat>, n: int)
    requires
        io_distinct(a),
        0 <= n <= a.len(),
    ensures
        forall|k: int| 0 <= k < io_from_a(a.take(n), a).len() ==> (#[trigger] io_from_a(a.take(n), a)[k]).2
            == ChangeKind::Changed && io_from_a(a.take(n), a)[k].3 == 0 && io_from_a(a.take(n), a)[k].4 == 0,
    decreases n,
{
    if n > 0 {
        lemma_io_self_prefix(a, n - 1);
        assert(a.take(n).drop_last() =~= a.take(n - 1));
        assert(a.take(n).last() == a[n - 1]);
        lemma_lookup_io_own(a, n - 1);
    }
}

proof fn lemma_io_self_b(a: Seq<IoStat>, n: int)
    requires
        io_distinct(a),
        0 <= n <= a.len(),
    ensures
        io_from_b(a, a.take(n)).len() == 0,
    decreases n,
{
    if n > 0 {
        lemma_io_self_b(a, n - 1);
        assert(a.take(n).drop_last() =~= a.take(n - 1));
        assert(a.take(n).last() == a[n - 1]);
        lemma_lookup_io_own(a, n - 1);
    }
}

/// A trace's I/O compared with itself: every delta is zero and marked
/// changed, and no process appears as added.
pub proof fn law_io_self_diff_is_zero(a: Seq<IoStat>)
    requires
        io_distinct(a),
    ensures
        io_from_b(a, a).len() == 0,
        forall|k: int| 0 <= k < io_from_a(a, a).len() ==> (#[trigger] io_from_a(a, a)[k]).2 == ChangeKind::Changed
            && io_from_a(a, a)[k].3 == 0 && io_from_a(a, a)[k].4 == 0,
{
    assert(a.take(a.len() as int) =~= a);
    lemma_io_self_prefix(a, a.len() as int);
    lemma_io_self_b(a, a.len() as int);
}

proof fn lemma_lookup_mem_own(a: Seq<MemoryStat>, i: int)
    requires
        mem_distinct(a),
        0 <= i < a.len(),
    ensures
        lookup_mem(a, a[i].pid) == Some(a[i]),
    decreases a.len(),
{
    if i < a.len() - 1 {
        assert(a[a.len() - 1].pid != a[i].pid);
        assert(a.drop_last()[i] == a[i]);
        lemma_lookup_mem_own(a.drop_last(), i);
    }
}

proof fn lemma_mem_self_prefix(a: Seq<MemoryStat>, n: int)
    requires
        mem_distinct(a),
        0 <= n <= a.len(),
    ensures
        forall|k: int| 0 <= k < mem_from_a(a.take(n), a).len() ==> (#[trigger] mem_from_a(a.take(n), a)[k]).2
            == ChangeKind::Changed && mem_from_a(a.take(n), a)[k].3 == 0,
        mem_from_b(a, a.take(n)).len() == 0,
    decreases n,
{
    if n > 0 {
        lemma_mem_self_prefix(a, n - 1);
        assert(a.take(n).drop_last() =~= a.take(n - 1));
        assert(a.take(n).last() == a[n - 1]);
        lemma_lookup_mem_own(a, n - 1);
    }
}

/// A trace's memory compared with itself: every delta is zero and marked
/// changed, and no process appears as added.
pub proof fn law_memory_self_diff_is_zero(a: Seq<MemoryStat>)
    requires
        mem_distinct(a),
    ensures
        mem_from_b(a, a).len() == 0,
        forall|k: int| 0 <= k < mem_from_a(a, a).len() ==> (#[trigger] mem_from_a(a, a)[k]).2 == ChangeKind::Changed
            && mem_from_a(a, a)[k].3 == 0,
{
    assert(a.take(a.len() as int) =~= a);
    lemma_mem_self_prefix(a, a.len() as int);
}

proof fn lemma_lookup_fn_own(a: Seq<FunctionStat>, i: int)
    requires
        fn_distinct(a),
        0 <= i < a.len(),
    ensures
        lookup_fn(a, a[i].key@) == Some(a[i]),
    decreases a.len(),
{
    if i < a.len() - 1 {
        assert(a[a.len() - 1].key@ != a[i].key@);
        assert(a.drop_last()[i] == a[i]);
        lemma_lookup_fn_own(a.drop_last(), i);
    }
}

proof fn lemma_fn_self_prefix(a: Seq<FunctionStat>, n: int)
    requires
        fn_distinct(a),
        0 <= n <= a.len(),
    ensures
        forall|k: int| 0 <= k < fn_from_a(a.take(n), a).len() ==> (#[trigger] fn_from_a(a.take(n), a)[k]).2
            == ChangeKind::Changed && fn_from_a(a.take(n), a)[k].3 == 0 && fn_from_a(a.take(n), a)[k].4 == 0,
        fn_from_b(a, a.take(n)).len() == 0,
    decreases n,
{
    if n > 0 {
        lemma_fn_self_prefix(a, n - 1);
        assert(a.take(n).drop_last() =~= a.take(n - 1));
        assert(a.take(n).last() == a[n - 1]);
        lemma_lookup_fn_own(a, n - 1);
    }
}

/// A trace's functions compared with themselves: every delta is zero and
/// marked changed, and no function appears as added.
pub proof fn law_functions_self_diff_is_zero(a: Seq<FunctionStat>)
    requires
        fn_distinct(a),
    ensures
        fn_from_b(a, a).len() == 0,
        forall|k: int| 0 <= k < fn_from_a(a, a).len() ==> (#[trigger] fn_from_a(a, a)[k]).2 == ChangeKind::Changed
            && fn_from_a(a, a)[k].3 == 0 && fn_from_a(a, a)[k].4 == 0,
{
    assert(a.take(a.len() as int) =~= a);
    lemma_fn_self_prefix(a, a.len() as int);
}

/// The kinds of a list of function deltas, in order.
pub open spec fn fn_kinds(d: Seq<FunctionDeltaView>) -> Seq<ChangeKind> {
    d.map_values(|x: FunctionDeltaView| x.2)
}

proof fn lemma_count_kind_absent(s: Seq<ChangeKind>, k: ChangeKind)
    requires
        forall|i: int| 0 <= i < s.len() ==> s[i] != k,
    ensures
        count_kind(s, k) == 0,
    decreases s.len(),
{
    if s.len() > 0 {
        lemma_count_kind_absent(s.drop_last(), k);
    }
}

/// Law: a trace diffed against itself adds and removes no process, every
/// function, I/O and memory delta is zero and marked changed, and the summary
/// counts no function added or removed.
pub proof fn law_self_diff_is_empty(
    procs: Seq<ProcessRow>,
    fns: Seq<FunctionStat>,
    io: Seq<IoStat>,
    mem: Seq<MemoryStat>,
)
    requires
        fn_distinct(fns),
        io_distinct(io),
        mem_distinct(mem),
    ensures
        only_in(procs, procs).len() == 0,
        fn_from_b(fns, fns).len() == 0,
        forall|k: int| 0 <= k < fn_from_a(fns, fns).len() ==> (#[trigger] fn_from_a(fns, fns)[k]).2
            == ChangeKind::Changed && fn_from_a(fns, fns)[k].3 == 0 && fn_from_a(fns, fns)[k].4 == 0,
        count_kind(fn_kinds(fn_from_a(fns, fns) + fn_from_b(fns, fns)), ChangeKind::Added) == 0,
        count_kind(fn_kinds(fn_from_a(fns, fns) + fn_from_b(fns, fns)), ChangeKind::Removed) == 0,
        io_from_b(io, io).len() == 0,
        forall|k: int| 0 <= k < io_from_a(io, io).len() ==> (#[trigger] io_from_a(io, io)[k]).2
            == ChangeKind::Changed && io_from_a(io, io)[k].3 == 0 && io_from_a(io, io)[k].4 == 0,
        mem_from_b(mem, mem).len() == 0,
        forall|k: int| 0 <= k < mem_from_a(mem, mem).len() ==> (#[trigger] mem_from_a(mem, mem)[k]).2
            == ChangeKind::Changed && mem_from_a(mem, mem)[k].3 == 0,
{
    law_same_trace_no_entities(procs);
    law_functions_self_diff_is_zero(fns);
    law_io_self_diff_is_zero(io);
    law_memory_self_diff_is_zero(mem);
    let all = fn_from_a(fns, fns) + fn_from_b(fns, fns);
    assert(all =~= fn_from_a(fns, fns));
    let kinds = fn_kinds(all);
    assert forall|i: int| 0 <= i < kinds.len() implies kinds[i] == ChangeKind::Changed by {
        assert(kinds[i] == all[i].2);
    }
    lemma_count_kind_absent(kinds, ChangeKind::Added);
    lemma_count_kind_absent(kinds, ChangeKind::Removed);
}

/// Law: for a function that both traces list and at least one sampled, the
/// delta made for it is B's counts minus A's: the self-sample change from the
/// self columns and the total-sample change from the total columns.
pub proof fn law_function_delta_is_b_minus_a(a: Seq<FunctionStat>, b: Seq<FunctionStat>, i: int, j: int)
    requires
        fn_distinct(a),
        fn_distinct(b),
        fn_inputs_fit(a, b),
        0 <= i < a.len(),
        0 <= j < b.len(),
        a[i].key@ == b[j].key@,
        a[i].self_samples > 0 || a[i].total_samples > 0 || b[j].self_samples > 0 || b[j].total_samples > 0,
    ensures
        exists|k: int|
            0 <= k < fn_from_a(a, b).len() && (#[trigger] fn_from_a(a, b)[k]).3 == b[j].self_samples
                - a[i].self_samples && fn_from_a(a, b)[k].4 == b[j].total_samples - a[i].total_samples
                && fn_from_a(a, b)[k].2 == change_of(
                a[i].self_samples > 0 || a[i].total_samples > 0,
                b[j].self_samples > 0 || b[j].total_samples > 0,
            )->0,
    decreases a.len(),
{
    lemma_lookup_fn_own(b, j);
    let a2 = a.drop_last();
    if i == a.len() - 1 {
        assert(a.last() == a[i]);
        assert(fn_delta_fits(Some(a[i]), lookup_fn(b, a[i].key@)));
        let k = fn_from_a(a2, b).len() as int;
        assert(fn_from_a(a, b)[k].4 == b[j].total_samples - a[i].total_samples);
    } else {
        assert(fn_distinct(a2)) by {
            assert forall|x: int, y: int| 0 <= x < y < a2.len() implies (#[trigger] a2[x]).key@ != (#[trigger] a2[y]).key@ by {
                assert(a2[x] == a[x] && a2[y] == a[y]);
            }
        }
        assert(fn_inputs_fit(a2, b)) by {
            assert forall|x: int| 0 <= x < a2.len() implies fn_delta_fits(Some(#[trigger] a2[x]), lookup_fn(b, a2[x].key@)) by {
                assert(a2[x] == a[x]);
            }
        }
        assert(a2[i] == a[i]);
        law_function_delta_is_b_minus_a(a2, b, i, j);
        let k = choose|k: int|
            0 <= k < fn_from_a(a2, b).len() && (#[trigger] fn_from_a(a2, b)[k]).3 == b[j].self_samples
                - a[i].self_samples && fn_from_a(a2, b)[k].4 == b[j].total_samples - a[i].total_samples
                && fn_from_a(a2, b)[k].2 == change_of(
                a[i].self_samples > 0 || a[i].total_samples > 0,
                b[j].self_samples > 0 || b[j].total_samples > 0,
            )->0;
        assert(fn_from_a(a, b)[k] == fn_from_a(a2, b)[k]);
    }
}

} // verus!
