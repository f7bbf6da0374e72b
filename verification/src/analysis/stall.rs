use vstd::prelude::*;

use super::finding::Severity;

verus! {

/// Nanoseconds in a millisecond.
pub const NS_PER_MS: i64 = 1_000_000;

/// Default I/O stall threshold: 10 ms.
pub const IO_STALL_THRESHOLD_NS: u64 = 10_000_000;

/// Default scheduling wait threshold: 5 ms.
pub const SCHED_WAIT_THRESHOLD_NS: u64 = 5_000_000;

/// Default number of findings a stall detector reports.
pub const STALL_MAX_FINDINGS: usize = 50;

/// Severity of an I/O stall of `dur_ns`: at least 100 ms is high, at least
/// 50 ms medium, anything shorter low.
pub open spec fn io_stall_severity_spec(dur_ns: int) -> Severity {
    if dur_ns >= 100 * NS_PER_MS {
        Severity::High
    } else if dur_ns >= 50 * NS_PER_MS {
        Severity::Medium
    } else {
        Severity::Low
    }
}

/// Severity of a scheduling wait of `dur_ns`: at least 50 ms is high, at least
/// 20 ms medium, anything shorter low.
pub open spec fn sched_wait_severity_spec(dur_ns: int) -> Severity {
    if dur_ns >= 50 * NS_PER_MS {
        Severity::High
    } else if dur_ns >= 20 * NS_PER_MS {
        Severity::Medium
    } else {
        Severity::Low
    }
}

/// The severity an I/O stall of `dur_ns` nanoseconds is reported with.
pub fn io_stall_severity(dur_ns: i64) -> (s: Severity)
    ensures
        s == io_stall_severity_spec(dur_ns as int),
{
    if dur_ns >= 100 * NS_PER_MS {
        Severity::High
    } else if dur_ns >= 50 * NS_PER_MS {
        Severity::Medium
    } else {
        Severity::Low
    }
}

/// The severity a scheduling wait of `dur_ns` nanoseconds is reported with.
pub fn sched_wait_severity(dur_ns: i64) -> (s: Severity)
    ensures
        s == sched_wait_severity_spec(dur_ns as int),
{
    if dur_ns >= 50 * NS_PER_MS {
        Severity::High
    } else if dur_ns >= 20 * NS_PER_MS {
        Severity::Medium
    } else {
        Severity::Low
    }
}

/// The half-width of the window a stall finding zooms to: the stall's own
/// duration, at least one millisecond.
pub open spec fn zoom_half_width(dur_ns: int) -> int {
    if dur_ns >= NS_PER_MS {
        dur_ns
    } else {
        NS_PER_MS as int
    }
}

/// The time range a stall finding zooms to: `zoom_half_width` on each side of
/// the stall's timestamp.
pub fn stall_zoom_range(ts_ns: i64, dur_ns: i64) -> (r: (i64, i64))
    requires
        i64::MIN <= ts_ns - zoom_half_width(dur_ns as int),
        ts_ns + zoom_half_width(dur_ns as int) <= i64::MAX,
    ensures
        r.0 == ts_ns - zoom_half_width(dur_ns as int),
        r.1 == ts_ns + zoom_half_width(dur_ns as int),
{
    let w: i64 = if dur_ns >= NS_PER_MS { dur_ns } else { NS_PER_MS };
    (ts_ns - w, ts_ns + w)
}

/// A longer stall is never reported as less severe than a shorter one.
pub proof fn law_stall_severity_monotone(d1: int, d2: int)
    requires
        d1 <= d2,
    ensures
        crate::analysis::finding::severity_level(io_stall_severity_spec(d1))
            <= crate::analysis::finding::severity_level(io_stall_severity_spec(d2)),
        crate::analysis::finding::severity_level(sched_wait_severity_spec(d1))
            <= crate::analysis::finding::severity_level(sched_wait_severity_spec(d2)),
{
}

/// The zoom window always contains the stall's timestamp, with at least one
/// millisecond on each side.
pub proof fn law_zoom_contains_stall(ts_ns: int, dur_ns: int)
    ensures
        ts_ns - zoom_half_width(dur_ns) <= ts_ns - NS_PER_MS,
        ts_ns + NS_PER_MS <= ts_ns + zoom_half_width(dur_ns),
        zoom_half_width(dur_ns) >= dur_ns,
{
}

} // verus!
