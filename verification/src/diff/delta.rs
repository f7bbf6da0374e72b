use vstd::prelude::*;

use crate::import::contract::opt_text;

verus! {

/// Change status of an entity in the diff.
#[derive(Debug, Clone, Copy, PartialEq, Eq, Structural)]
pub enum ChangeKind {
    /// Present in both traces with changed metrics.
    Changed,
    /// Present only in trace A.
    Removed,
    /// Present only in trace B.
    Added,
}

/// How an entity changed, given whether it is present in trace A and in
/// trace B; `None` when it is present in neither.
pub open spec fn change_of(in_a: bool, in_b: bool) -> Option<ChangeKind> {
    if in_a && in_b {
        Some(ChangeKind::Changed)
    } else if in_a {
        Some(ChangeKind::Removed)
    } else if in_b {
        Some(ChangeKind::Added)
    } else {
        None
    }
}

/// How an entity changed between trace A and trace B.
pub fn classify_change(in_a: bool, in_b: bool) -> (r: Option<ChangeKind>)
    ensures
        r == change_of(in_a, in_b),
{
    if in_a && in_b {
        Some(ChangeKind::Changed)
    } else if in_a {
        Some(ChangeKind::Removed)
    } else if in_b {
        Some(ChangeKind::Added)
    } else {
        None
    }
}

/// Per-function sample-count change between two traces. The duration-normalized
/// deltas are these counts divided by trace A's duration.
#[derive(Debug, Clone)]
pub struct FunctionDelta {
    pub function_name: String,
    pub binary_name: Option<String>,
    pub kind: ChangeKind,
    /// Change in self-sample count (positive = more samples in B).
    pub self_samples_delta: i64,
    /// Change in total-sample count.
    pub total_samples_delta: i64,
}

/// A function delta with its texts as sequences.
pub type FunctionDeltaView = (Seq<char>, Option<Seq<char>>, ChangeKind, i64, i64);

impl View for FunctionDelta {
    type V = FunctionDeltaView;

    open spec fn view(&self) -> FunctionDeltaView {
        (self.function_name@, opt_text(self.binary_name), self.kind, self.self_samples_delta, self.total_samples_delta)
    }
}

/// Per-process I/O change between two traces.
#[derive(Debug, Clone)]
pub struct IoDelta {
    pub pid: u32,
    pub process_name: Option<String>,
    pub kind: ChangeKind,
    /// Change in I/O bytes (positive = more in B).
    pub io_bytes_delta: i64,
    /// Change in I/O operation count.
    pub io_ops_delta: i64,
}

/// An I/O delta with its name as a sequence.
pub type IoDeltaView = (u32, Option<Seq<char>>, ChangeKind, i64, i64);

impl View for IoDelta {
    type V = IoDeltaView;

    open spec fn view(&self) -> IoDeltaView {
        (self.pid, opt_text(self.process_name), self.kind, self.io_bytes_delta, self.io_ops_delta)
    }
}

/// Per-process net allocation change between two traces.
#[derive(Debug, Clone)]
pub struct MemoryDelta {
    pub pid: u32,
    pub process_name: Option<String>,
    pub kind: ChangeKind,
    /// Change in net allocated bytes (alloc - free).
    pub net_alloc_delta: i64,
}

/// A memory delta with its name as a sequence.
pub type MemoryDeltaView = (u32, Option<Seq<char>>, ChangeKind, i64);

impl View for MemoryDelta {
    type V = MemoryDeltaView;

    open spec fn view(&self) -> MemoryDeltaView {
        (self.pid, opt_text(self.process_name), self.kind, self.net_alloc_delta)
    }
}

/// The kind of an entity observed in only one trace.
#[derive(Debug, Clone, Copy, PartialEq, Eq, Structural)]
pub enum EntityKind {
    Process,
    Thread,
}

/// A process or thread observed in only one of the two traces.
#[derive(Debug, Clone)]
pub struct Entity {
    pub kind: EntityKind,
    pub pid: u32,
    pub tid: Option<u32>,
    pub name: Option<String>,
    pub change: ChangeKind,
}

/// Summary statistics for the diff.
#[derive(Debug, Clone, Copy, PartialEq, Eq, Structural)]
pub struct DiffSummary {
    /// Duration of trace A in nanoseconds.
    pub duration_a_ns: u64,
    /// Duration of trace B in nanoseconds.
    pub duration_b_ns: u64,
    pub functions_changed: usize,
    pub functions_added: usize,
    pub functions_removed: usize,
    pub processes_added: usize,
    pub processes_removed: usize,
}

impl Default for DiffSummary {
    fn default() -> (s: Self)
        ensures
            s.duration_a_ns == 0 && s.duration_b_ns == 0 && s.functions_changed == 0
                && s.functions_added == 0 && s.functions_removed == 0 && s.processes_added == 0
                && s.processes_removed == 0,
    {
        DiffSummary {
            duration_a_ns: 0,
            duration_b_ns: 0,
            functions_changed: 0,
            functions_added: 0,
            functions_removed: 0,
            processes_added: 0,
            processes_removed: 0,
        }
    }
}

} // verus!
