use vstd::prelude::*;

use super::error::RecordError;

verus! {

/// Kernel provider flags — the ETW `EnableFlags` field of `EVENT_TRACE_PROPERTIES`.
#[derive(Debug, Clone, Copy, PartialEq, Eq, Structural)]
pub struct KernelFlags {
    bits: u32,
}

impl KernelFlags {
    /// CPU sampling (PROFILE) — interrupt-based samples at ~1 kHz.
    pub fn profile() -> (f: KernelFlags)
        ensures
            f.spec_bits() == 0x0100_0000,
    {
        KernelFlags { bits: 0x0100_0000 }
    }

    /// Context switch events (thread scheduler).
    pub fn cswitch() -> (f: KernelFlags)
        ensures
            f.spec_bits() == 0x0000_0010,
    {
        KernelFlags { bits: 0x0000_0010 }
    }

    /// Disk I/O completion events.
    pub fn disk_io() -> (f: KernelFlags)
        ensures
            f.spec_bits() == 0x0000_0100,
    {
        KernelFlags { bits: 0x0000_0100 }
    }

    /// Disk file I/O (name, path) accompanying DISK_IO.
    pub fn disk_file_io() -> (f: KernelFlags)
        ensures
            f.spec_bits() == 0x0000_0200,
    {
        KernelFlags { bits: 0x0000_0200 }
    }

    /// File system I/O (open/close/read/write).
    pub fn file_io() -> (f: KernelFlags)
        ensures
            f.spec_bits() == 0x0200_0000,
    {
        KernelFlags { bits: 0x0200_0000 }
    }

    /// File I/O init events (pre-operation).
    pub fn file_io_init() -> (f: KernelFlags)
        ensures
            f.spec_bits() == 0x0400_0000,
    {
        KernelFlags { bits: 0x0400_0000 }
    }

    /// TCP/IP network events.
    pub fn network_tcpip() -> (f: KernelFlags)
        ensures
            f.spec_bits() == 0x0001_0000,
    {
        KernelFlags { bits: 0x0001_0000 }
    }

    /// Image load events (DLL/EXE load into a process).
    pub fn image_load() -> (f: KernelFlags)
        ensures
            f.spec_bits() == 0x0000_0004,
    {
        KernelFlags { bits: 0x0000_0004 }
    }

    /// Process start/stop events.
    pub fn process() -> (f: KernelFlags)
        ensures
            f.spec_bits() == 0x0000_0001,
    {
        KernelFlags { bits: 0x0000_0001 }
    }

    /// Thread start/stop events.
    pub fn thread() -> (f: KernelFlags)
        ensures
            f.spec_bits() == 0x0000_0002,
    {
        KernelFlags { bits: 0x0000_0002 }
    }

    /// Recommended set: CPU, scheduler, I/O, network, image loads, processes, threads.
    pub fn default_set() -> (f: KernelFlags)
        ensures
            f.spec_bits() == 0x0301_0317,
            f.spec_bits() == (0x0100_0000u32 | 0x0000_0010u32 | 0x0000_0100u32 | 0x0000_0200u32
                | 0x0200_0000u32 | 0x0001_0000u32 | 0x0000_0004u32 | 0x0000_0001u32
                | 0x0000_0002u32),
    {
        assert((0x0100_0000u32 | 0x0000_0010u32 | 0x0000_0100u32 | 0x0000_0200u32
            | 0x0200_0000u32 | 0x0001_0000u32 | 0x0000_0004u32 | 0x0000_0001u32
            | 0x0000_0002u32) == 0x0301_0317u32) by (bit_vector);
        KernelFlags { bits: 0x0301_0317 }
    }

    pub closed spec fn spec_bits(&self) -> u32 {
        self.bits
    }

    pub fn bits(&self) -> (b: u32)
        ensures
            b == self.spec_bits(),
    {
        self.bits
    }

    /// The flags with exactly the given bits.
    pub fn from_bits_retain(bits: u32) -> (f: KernelFlags)
        ensures
            f.spec_bits() == bits,
    {
        KernelFlags { bits }
    }

    /// Whether every flag of `other` is set here.
    pub fn contains(&self, other: KernelFlags) -> (b: bool)
        ensures
            b == (self.spec_bits() & other.spec_bits() == other.spec_bits()),
    {
        self.bits & other.bits == other.bits
    }

    /// The flags set in either.
    pub fn union(&self, other: KernelFlags) -> (f: KernelFlags)
        ensures
            f.spec_bits() == self.spec_bits() | other.spec_bits(),
    {
        KernelFlags { bits: self.bits | other.bits }
    }
}

/// Configuration passed to `start`.
#[derive(Debug, Clone, Copy)]
pub struct RecordConfig {
    /// Which kernel providers to enable.
    pub kernel_flags: KernelFlags,
    /// Whether to enable user-space stack walk on PROFILE and CSWITCH events.
    pub collect_stacks: bool,
    /// ETW buffer size in KB (0 = system default, typically 64 KB).
    pub buffer_size_kb: u32,
    /// Maximum number of ETW buffers (0 = system default).
    pub max_buffers: u32,
    /// If true, fall back to `wpr.exe -filemode` when the NT Kernel Logger is taken.
    pub allow_wpr_fallback: bool,
}

impl Default for RecordConfig {
    fn default() -> (c: Self)
        ensures
            c.kernel_flags.spec_bits() == 0x0301_0317,
            c.collect_stacks,
            c.buffer_size_kb == 1024,
            c.max_buffers == 0,
            c.allow_wpr_fallback,
    {
        RecordConfig {
            kernel_flags: KernelFlags::default_set(),
            collect_stacks: true,
            buffer_size_kb: 1024,
            max_buffers: 0,
            allow_wpr_fallback: true,
        }
    }
}

/// Live statistics read via `ControlTraceW(EVENT_TRACE_CONTROL_QUERY)`.
#[derive(Debug, Clone, Copy, Default)]
pub struct SessionStats {
    pub buffers_written: u32,
    pub log_buffers_lost: u32,
    pub events_lost: u32,
    pub realtime_buffers_lost: u32,
    pub number_of_buffers: u32,
    pub free_buffers: u32,
}

/// Statistics returned when stopping or querying a capture.
#[derive(Debug, Clone, Copy)]
pub struct RecorderStats {
    /// Total events written to ETW buffers.
    pub events_written: u64,
    /// Buffers flushed to the consumer.
    pub buffers_written: u32,
    /// Buffers lost (consumer couldn't keep up with producer).
    pub buffers_lost: u32,
    /// Events dropped inside the ETW session (kernel-side loss).
    pub events_lost: u32,
    /// Real-time delivery buffers lost (consumer thread was too slow).
    pub realtime_buffers_lost: u32,
}

impl Default for RecorderStats {
    fn default() -> (s: Self)
        ensures
            s.events_written == 0 && s.buffers_written == 0 && s.buffers_lost == 0
                && s.events_lost == 0 && s.realtime_buffers_lost == 0,
    {
        RecorderStats {
            events_written: 0,
            buffers_written: 0,
            buffers_lost: 0,
            events_lost: 0,
            realtime_buffers_lost: 0,
        }
    }
}

impl RecorderStats {
    /// The recorder's view of a session query (events are counted consumer-side).
    pub fn from_session(s: &SessionStats) -> (r: RecorderStats)
        ensures
            r.events_written == 0,
            r.buffers_written == s.buffers_written,
            r.buffers_lost == s.log_buffers_lost,
            r.events_lost == s.events_lost,
            r.realtime_buffers_lost == s.realtime_buffers_lost,
    {
        RecorderStats {
            events_written: 0,
            buffers_written: s.buffers_written,
            buffers_lost: s.log_buffers_lost,
            events_lost: s.events_lost,
            realtime_buffers_lost: s.realtime_buffers_lost,
        }
    }

    /// Whether any buffers were lost (the capture should get larger buffers).
    pub fn has_buffer_loss(&self) -> (b: bool)
        ensures
            b == (self.buffers_lost > 0 || self.realtime_buffers_lost > 0),
    {
        self.buffers_lost > 0 || self.realtime_buffers_lost > 0
    }
}

/// Which capture a recorder is running.
#[derive(Debug, Clone, Copy, PartialEq, Eq, Structural)]
pub enum ActiveCapture {
    /// A live NT Kernel Logger session with its consumer.
    Etw,
    /// A `wpr.exe` file-mode recording.
    Wpr,
}

/// What a start request does once the ETW session has answered.
#[derive(Debug)]
pub enum StartStep {
    /// The ETW session and its consumer run: the capture has started.
    Started,
    /// The NT Kernel Logger is taken and fallback is allowed: start `wpr.exe`.
    StartWpr,
    /// The start failed with this error.
    Failed(RecordError),
}

/// The capture state of the Windows ETW recorder: at most one capture, ETW or
/// `wpr.exe`, runs at a time.
pub struct WindowsEtwRecorder {
    active: Option<ActiveCapture>,
}

impl WindowsEtwRecorder {
    /// The capture that runs, if any.
    pub closed spec fn active(&self) -> Option<ActiveCapture> {
        self.active
    }

    pub fn new() -> (r: Self)
        ensures
            r.active() is None,
    {
        WindowsEtwRecorder { active: None }
    }

    /// Whether a capture runs.
    pub fn is_active(&self) -> (b: bool)
        ensures
            b == self.active() is Some,
    {
        self.active.is_some()
    }

    /// The checks a start request makes before any session is opened: a
    /// running capture refuses it, then a process without Administrator
    /// rights (`elevated` is the token's elevation state).
    pub fn begin_start(&self, elevated: bool) -> (r: Result<(), RecordError>)
        ensures
            self.active() is Some ==> (r matches Err(e) && e is AlreadyRunning),
            self.active() is None && !elevated ==> (r matches Err(e) && e is NotElevated),
            r is Ok <==> (self.active() is None && elevated),
    {
        if self.active.is_some() {
            return Err(RecordError::AlreadyRunning);
        }
        if !elevated {
            return Err(RecordError::NotElevated);
        }
        Ok(())
    }

    /// Decides a start request on the outcome of opening the ETW session and
    /// its consumer: success starts the ETW capture; a taken NT Kernel Logger
    /// asks for the `wpr.exe` fallback where the configuration allows it; any
    /// other error fails the request.
    pub fn on_etw_start(&mut self, outcome: Result<(), RecordError>, allow_wpr_fallback: bool) -> (step: StartStep)
        requires
            old(self).active() is None,
        ensures
            match outcome {
                Ok(_) => step is Started && final(self).active() == Some(ActiveCapture::Etw),
                Err(e) => if e is KernelLoggerConflict && allow_wpr_fallback {
                    step is StartWpr && final(self).active() is None
                } else {
                    step == StartStep::Failed(e) && final(self).active() is None
                },
            },
    {
        match outcome {
            Ok(()) => {
                self.active = Some(ActiveCapture::Etw);
                StartStep::Started
            },
            Err(e) => {
                if allow_wpr_fallback && matches!(e, RecordError::KernelLoggerConflict) {
                    StartStep::StartWpr
                } else {
                    StartStep::Failed(e)
                }
            },
        }
    }

    /// Records the outcome of starting the `wpr.exe` fallback.
    pub fn on_wpr_start(&mut self, outcome: Result<(), RecordError>) -> (r: Result<(), RecordError>)
        requires
            old(self).active() is None,
        ensures
            r == outcome,
            outcome is Ok ==> final(self).active() == Some(ActiveCapture::Wpr),
            outcome is Err ==> final(self).active() is None,
    {
        if outcome.is_ok() {
            self.active = Some(ActiveCapture::Wpr);
        }
        outcome
    }

    /// Ends the running capture and says which one it was; with none running
    /// the request fails with `NotRunning`. Afterwards no capture runs.
    pub fn stop(&mut self) -> (r: Result<ActiveCapture, RecordError>)
        ensures
            final(self).active() is None,
            old(self).active() is None ==> (r matches Err(e) && e is NotRunning),
            old(self).active() matches Some(k) ==> r == Ok::<ActiveCapture, RecordError>(k),
    {
        match self.active.take() {
            None => Err(RecordError::NotRunning),
            Some(k) => Ok(k),
        }
    }

    /// Which capture live statistics come from; `None` when none runs.
    pub fn stats(&self) -> (r: Option<ActiveCapture>)
        ensures
            r == self.active(),
    {
        self.active
    }
}

/// Live statistics of a running capture: an ETW capture reports its session
/// query (`None` when the query failed), a `wpr.exe` capture reports zeros.
pub fn capture_stats(kind: ActiveCapture, query: Option<SessionStats>) -> (r: Option<RecorderStats>)
    ensures
        kind == ActiveCapture::Wpr ==> (r matches Some(s) && s.events_written == 0 && s.buffers_written == 0
            && s.buffers_lost == 0 && s.events_lost == 0 && s.realtime_buffers_lost == 0),
        kind == ActiveCapture::Etw ==> (r is Some <==> query is Some),
        (kind == ActiveCapture::Etw && query is Some) ==> (r matches Some(s) && s.events_written == 0
            && s.buffers_written == query->0.buffers_written && s.buffers_lost == query->0.log_buffers_lost
            && s.events_lost == query->0.events_lost
            && s.realtime_buffers_lost == query->0.realtime_buffers_lost),
{
    match kind {
        ActiveCapture::Wpr => Some(RecorderStats::default()),
        ActiveCapture::Etw => match query {
            Some(q) => Some(RecorderStats::from_session(&q)),
            None => None,
        },
    }
}

/// The summary of a stopped ETW capture, from the session's last query.
pub fn etw_stop_summary(stats: &SessionStats) -> (r: RecordSummary)
    ensures
        r.etl_path is None,
        r.stats.events_written == 0,
        r.stats.buffers_written == stats.buffers_written,
        r.stats.buffers_lost == stats.log_buffers_lost,
        r.stats.events_lost == stats.events_lost,
        r.stats.realtime_buffers_lost == stats.realtime_buffers_lost,
{
    RecordSummary { stats: RecorderStats::from_session(stats), etl_path: None }
}

/// The summary of a stopped `wpr.exe` capture: zero statistics and the ETL
/// file it wrote.
pub fn wpr_stop_summary(etl_path: String) -> (r: RecordSummary)
    ensures
        r.etl_path == Some(etl_path),
        r.stats.events_written == 0 && r.stats.buffers_written == 0 && r.stats.buffers_lost == 0
            && r.stats.events_lost == 0 && r.stats.realtime_buffers_lost == 0,
{
    RecordSummary { stats: RecorderStats::default(), etl_path: Some(etl_path) }
}

/// Final summary returned when a capture stops.
#[derive(Debug, Clone)]
pub struct RecordSummary {
    pub stats: RecorderStats,
    /// Path to an ETL file produced by the wpr.exe fallback, if used.
    pub etl_path: Option<String>,
}

} // verus!
