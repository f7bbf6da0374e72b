use vstd::prelude::*;

verus! {

/// A stack sample from one thread at one instant.
#[derive(Debug, Clone)]
pub struct StackSample {
    /// Nanoseconds since the Unix epoch (CLOCK_REALTIME).
    pub timestamp_ns: u64,
    pub pid: u32,
    /// OS-assigned thread identifier (from `thread_identifier_info`).
    pub tid: u64,
    /// Raw instruction-pointer addresses, outermost (current) frame first,
    /// with PAC bits stripped.
    pub frames: Vec<u64>,
}

/// A block-layer I/O event captured via DTrace `io:::start`.
#[derive(Debug, Clone)]
pub struct IoEvent {
    pub timestamp_ns: u64,
    pub pid: u32,
    pub tid: u64,
    pub kind: IoKind,
    pub bytes: u64,
    /// Filesystem path of the file involved, if available.
    pub path: Option<String>,
}

#[derive(Debug, Clone, Copy, PartialEq, Eq, Structural)]
pub enum IoKind {
    Read,
    Write,
}

/// A CPU scheduling event captured via DTrace `sched:::on-cpu` / `off-cpu`.
#[derive(Debug, Clone, Copy)]
pub struct SchedEvent {
    pub timestamp_ns: u64,
    pub pid: u32,
    pub tid: u64,
    pub kind: SchedKind,
    pub cpu: u32,
}

#[derive(Debug, Clone, Copy, PartialEq, Eq, Structural)]
pub enum SchedKind {
    OnCpu,
    OffCpu,
}

/// Memory figures for one point in time, from `task_info(TASK_VM_INFO)`.
#[derive(Debug, Clone, Copy)]
pub struct MemorySnapshot {
    pub timestamp_ns: u64,
    pub pid: u32,
    /// Resident set size (RSS) in bytes.
    pub resident_bytes: u64,
    /// Virtual memory footprint in bytes.
    pub virtual_bytes: u64,
    /// Physical memory footprint as reported by Activity Monitor (`phys_footprint`).
    pub footprint_bytes: u64,
}

/// A Mach-O image loaded in the target process, from the dyld image list.
#[derive(Debug, Clone)]
pub struct DyldImage {
    /// Base load address (start of the Mach-O header in the target VA space).
    pub load_address: u64,
    /// ASLR slide: `load_address - preferred_load_address`.
    pub slide: i64,
    /// Path to the binary on disk.
    pub path: String,
    /// LC_UUID bytes from the Mach-O header (16 bytes), or all-zeros if not found.
    pub uuid: [u8; 16],
}

/// All data collected during one recording session.
#[derive(Debug)]
pub struct TraceData {
    pub stack_samples: Vec<StackSample>,
    pub io_events: Vec<IoEvent>,
    pub sched_events: Vec<SchedEvent>,
    pub memory_snapshots: Vec<MemorySnapshot>,
    pub dyld_images: Vec<DyldImage>,
}

impl TraceData {
    /// Whether every list is empty.
    pub open spec fn is_empty_spec(&self) -> bool {
        &&& self.stack_samples@.len() == 0
        &&& self.io_events@.len() == 0
        &&& self.sched_events@.len() == 0
        &&& self.memory_snapshots@.len() == 0
        &&& self.dyld_images@.len() == 0
    }
}

impl Default for TraceData {
    fn default() -> (d: Self)
        ensures
            d.is_empty_spec(),
    {
        TraceData {
            stack_samples: Vec::new(),
            io_events: Vec::new(),
            sched_events: Vec::new(),
            memory_snapshots: Vec::new(),
            dyld_images: Vec::new(),
        }
    }
}

} // verus!
