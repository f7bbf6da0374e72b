//! The event contract between capture backends, the container store and the
//! normalizer: one record per captured fact, in the store's units
//! (nanosecond `i64` timestamps).

use vstd::prelude::*;

verus! {

/// A CPU sample.
#[derive(Debug, Clone)]
pub struct CpuSampleEvent {
    pub timestamp_ns: i64,
    pub process_id: u32,
    pub thread_id: u32,
    pub cpu_id: u32,
    pub sample_weight: u64,
    pub stack_id: Option<u64>,
}

/// What a scheduling record describes.
#[derive(Debug, Clone, Copy, PartialEq, Eq, Structural)]
pub enum SchedulingEventType {
    ContextSwitchOut,
    ContextSwitchIn,
    Wakeup,
    Migration,
}

/// A scheduler event.
#[derive(Debug, Clone)]
pub struct SchedulingEvent {
    pub timestamp_ns: i64,
    pub process_id: u32,
    pub thread_id: u32,
    pub cpu_id: u32,
    pub event_type: SchedulingEventType,
    pub prev_state: Option<u8>,
    pub next_process_id: Option<u32>,
    pub next_thread_id: Option<u32>,
    pub duration_ns: Option<u64>,
}

/// A block-device I/O operation.
#[derive(Debug, Clone)]
pub struct DiskIoEvent {
    pub timestamp_ns: i64,
    pub process_id: u32,
    pub size_bytes: u64,
    pub duration_ns: u64,
}

/// A file-system I/O operation.
#[derive(Debug, Clone)]
pub struct FileIoEvent {
    pub timestamp_ns: i64,
    pub process_id: u32,
    pub size_bytes: Option<u64>,
    pub duration_ns: u64,
}

/// An allocation (`event_type` 0) or free (`event_type` 1).
#[derive(Debug, Clone)]
pub struct MemoryEvent {
    pub timestamp_ns: i64,
    pub process_id: u32,
    pub event_type: u8,
    pub size_bytes: Option<u64>,
}

/// A network transfer.
#[derive(Debug, Clone)]
pub struct NetworkEvent {
    pub timestamp_ns: i64,
    pub process_id: u32,
    pub size_bytes: u64,
}

/// A process's lifetime.
#[derive(Debug, Clone)]
pub struct ProcessInfoEvent {
    pub process_id: u32,
    pub parent_process_id: Option<u32>,
    pub name: String,
    pub cmdline: Option<String>,
    pub start_time_ns: i64,
    pub exit_time_ns: Option<i64>,
    pub exit_code: Option<i32>,
}

/// A thread's lifetime.
#[derive(Debug, Clone)]
pub struct ThreadInfoEvent {
    pub thread_id: u32,
    pub process_id: u32,
    pub name: Option<String>,
    pub start_time_ns: i64,
    pub exit_time_ns: Option<i64>,
}

/// A code address with whatever symbol information is known for it.
#[derive(Debug, Clone)]
pub struct FrameInfoEvent {
    pub frame_id: u64,
    pub address: u64,
    pub symbol_name: Option<String>,
    pub module_name: Option<String>,
    pub file_path: Option<String>,
    pub line_number: Option<u32>,
}

/// One frame of an interned stack.
#[derive(Debug, Clone)]
pub struct StackEntryEvent {
    pub stack_id: u64,
    pub depth: u32,
    pub frame_id: u64,
}

/// Any recorded event.
#[derive(Debug, Clone)]
pub enum TraceEvent {
    CpuSample(CpuSampleEvent),
    Scheduling(SchedulingEvent),
    DiskIo(DiskIoEvent),
    FileIo(FileIoEvent),
    Memory(MemoryEvent),
    Network(NetworkEvent),
    Process(ProcessInfoEvent),
    Thread(ThreadInfoEvent),
    Frame(FrameInfoEvent),
    StackEntry(StackEntryEvent),
}

} // verus!
