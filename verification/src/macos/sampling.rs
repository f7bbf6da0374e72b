use vstd::prelude::*;

use super::error::RecordError;
use super::types::{MemorySnapshot, StackSample};
use crate::text::{numeral, u32_to_hex_padded, zero_padded};

verus! {

/// Maximum threads sampled per pass (a safety cap).
pub const MAX_THREADS: usize = 1024;

/// Highest memory snapshot rate.
pub const MAX_MEM_HZ: u32 = 10;

/// How many of a task's `count` threads one sampling pass visits.
pub fn threads_to_sample(count: usize) -> (n: usize)
    ensures
        n == if count < MAX_THREADS { count } else { MAX_THREADS },
{
    if count < MAX_THREADS {
        count
    } else {
        MAX_THREADS
    }
}

/// The sample of one thread: its id where the kernel reported one, else its
/// thread port, with the frames walked from its registers; `None` without
/// frames.
pub fn thread_sample(pid: u32, thread_id: Option<u64>, thread_port: u32, timestamp_ns: u64, frames: Vec<u64>) -> (r: Option<StackSample>)
    ensures
        frames@.len() == 0 <==> r is None,
        r matches Some(s) ==> s.pid == pid && s.timestamp_ns == timestamp_ns && s.frames@ == frames@ && s.tid == match thread_id {
            Some(t) => t,
            None => thread_port as u64,
        },
{
    if frames.len() == 0 {
        return None;
    }
    let tid = match thread_id {
        Some(t) => t,
        None => thread_port as u64,
    };
    Some(StackSample { timestamp_ns, pid, tid, frames })
}

/// The rate memory snapshots are taken at: the sampling rate, between 1 and
/// `MAX_MEM_HZ` per second.
pub fn memory_rate_hz(rate_hz: u32) -> (r: u32)
    ensures
        r == if rate_hz < 1 { 1 } else if rate_hz > MAX_MEM_HZ { MAX_MEM_HZ } else { rate_hz },
{
    let capped = if rate_hz > MAX_MEM_HZ { MAX_MEM_HZ } else { rate_hz };
    if capped < 1 {
        1
    } else {
        capped
    }
}

/// The memory snapshot of `pid` from the figures `task_info(TASK_VM_INFO)`
/// reported at `timestamp_ns`.
pub fn memory_snapshot(pid: u32, timestamp_ns: u64, resident_size: u64, virtual_size: u64, phys_footprint: u64) -> (s: MemorySnapshot)
    ensures
        s.pid == pid && s.timestamp_ns == timestamp_ns && s.resident_bytes == resident_size
            && s.virtual_bytes == virtual_size && s.footprint_bytes == phys_footprint,
{
    MemorySnapshot {
        timestamp_ns,
        pid,
        resident_bytes: resident_size,
        virtual_bytes: virtual_size,
        footprint_bytes: phys_footprint,
    }
}

/// Why `task_for_pid` gave no task port (it answered `kr`): a process that
/// does not exist, else a denied permission quoting the answer in hexadecimal.
pub fn task_port_error(pid: u32, kr: i32, process_exists: bool) -> (e: RecordError)
    ensures
        !process_exists ==> e == RecordError::ProcessNotFound(pid),
        process_exists ==> (e matches RecordError::PermissionDenied { pid: p, detail: d } && p == pid && d@
            == "task_for_pid returned "@ + seq!['0', 'x'] + zero_padded(numeral((kr as u32) as nat, 16), 8)),
{
    if !process_exists {
        return RecordError::ProcessNotFound(pid);
    }
    let mut detail = String::from_str("task_for_pid returned ");
    let hex = u32_to_hex_padded(kr as u32);
    detail.append(hex.as_str());
    RecordError::PermissionDenied { pid, detail }
}

} // verus!
