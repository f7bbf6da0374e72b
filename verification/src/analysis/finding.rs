use vstd::prelude::*;

verus! {

/// Severity level of a finding. The derived order runs from the least severe
/// (`Info`) to the most severe (`Critical`).
#[derive(Debug, Clone, Copy, PartialEq, Eq, Structural, PartialOrd, Ord, Hash)]
pub enum Severity {
    Info,
    Low,
    Medium,
    High,
    Critical,
}

/// The numeric level of a severity: `Info` 0 up to `Critical` 4.
pub open spec fn severity_level(s: Severity) -> nat {
    match s {
        Severity::Info => 0,
        Severity::Low => 1,
        Severity::Medium => 2,
        Severity::High => 3,
        Severity::Critical => 4,
    }
}

impl Severity {
    /// The numeric level: `Info` 0, `Low` 1, `Medium` 2, `High` 3, `Critical` 4.
    pub fn level(&self) -> (l: u8)
        ensures
            l == severity_level(*self),
    {
        match self {
            Severity::Info => 0,
            Severity::Low => 1,
            Severity::Medium => 2,
            Severity::High => 3,
            Severity::Critical => 4,
        }
    }

    /// Whether `self` is strictly more severe than `other`.
    pub fn is_more_severe_than(&self, other: &Severity) -> (b: bool)
        ensures
            b == (severity_level(*self) > severity_level(*other)),
    {
        self.level() > other.level()
    }
}

/// The category of issue a finding describes.
#[derive(Debug, Clone, Copy, PartialEq, Eq, Structural)]
pub enum FindingKind {
    /// A process dominating CPU for a sustained period.
    HotProcess,
    /// A sudden spike in CPU usage relative to baseline.
    CpuSpike,
    /// An I/O operation that took longer than the stall threshold.
    IoStall,
    /// Scheduling latency that delayed a thread beyond the wait threshold.
    SchedWait,
    /// Monotonically growing heap indicating a potential memory leak.
    MemoryGrowth,
}

} // verus!
