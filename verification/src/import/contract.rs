use vstd::prelude::*;
use bytes::Bytes;

verus! {

/// `bytes::Bytes`, the shared byte buffer carrying event payloads.
#[verifier::external_type_specification]
#[verifier::external_body]
pub struct ExBytes(Bytes);

/// The bytes a `Bytes` buffer holds.
pub uninterp spec fn bytes_contents(b: Bytes) -> Seq<u8>;

/// `Bytes::new`: an empty buffer.
#[verifier::external_body]
pub(crate) fn bytes_empty() -> (b: Bytes)
    ensures
        bytes_contents(b) == Seq::<u8>::empty(),
{
    Bytes::new()
}

/// `Bytes::copy_from_slice`: a buffer holding a copy of `data`.
#[verifier::external_body]
pub(crate) fn bytes_copy_from_slice(data: &[u8]) -> (b: Bytes)
    ensures
        bytes_contents(b) == data@,
{
    Bytes::copy_from_slice(data)
}

/// `Bytes::clone`: another handle on the same bytes.
pub assume_specification[ <Bytes as Clone>::clone ](b: &Bytes) -> (r: Bytes)
    ensures
        bytes_contents(r) == bytes_contents(*b),
;

/// A single raw event emitted by a capture backend or import adapter.
#[derive(Debug, Clone)]
pub struct RawEvent {
    /// Nanoseconds since Unix epoch (CLOCK_REALTIME).
    /// For ETL files, converted from Windows FILETIME (100-ns ticks since 1601-01-01).
    pub timestamp_ns: u64,
    pub pid: u32,
    pub tid: u32,
    /// CPU index; None when not recorded by the source format.
    pub cpu: Option<u16>,
    pub kind: RawEventKind,
    /// Raw payload bytes. Interpretation is format-specific.
    pub payload: Bytes,
}

#[derive(Debug, Clone)]
pub enum RawEventKind {
    /// Scheduler switched another thread onto this CPU.
    ContextSwitchIn { next_pid: u32, next_tid: u32 },
    /// Scheduler preempted or blocked the running thread.
    ContextSwitchOut { prev_pid: u32, prev_tid: u32 },
    /// CPU performance counter sample.
    PerfSample {
        /// Instruction pointer at sample time.
        ip: u64,
        /// Return-address call stack (innermost first), empty if not captured.
        call_stack: Vec<u64>,
    },
    IoBegin { file_path: Option<String>, size_bytes: u64 },
    IoEnd { bytes_transferred: u64, latency_ns: u64 },
    ProcessCreate { parent_pid: u32, name: String },
    ProcessExit { exit_code: i32 },
    ThreadCreate { name: Option<String> },
    ThreadExit,
    /// ETW-sourced event (Windows ETL import).
    EtwEvent {
        /// Provider GUID (16 bytes, little-endian field order).
        provider: [u8; 16],
        opcode: u8,
        version: u8,
        event_id: u16,
        level: u8,
    },
    /// Unclassified event from a backend.
    Raw { provider_tag: u32, opcode: u32 },
}

/// A `RawEventKind` with its texts and lists as sequences.
pub enum RawEventKindView {
    ContextSwitchIn { next_pid: u32, next_tid: u32 },
    ContextSwitchOut { prev_pid: u32, prev_tid: u32 },
    PerfSample { ip: u64, call_stack: Seq<u64> },
    IoBegin { file_path: Option<Seq<char>>, size_bytes: u64 },
    IoEnd { bytes_transferred: u64, latency_ns: u64 },
    ProcessCreate { parent_pid: u32, name: Seq<char> },
    ProcessExit { exit_code: i32 },
    ThreadCreate { name: Option<Seq<char>> },
    ThreadExit,
    EtwEvent { provider: Seq<u8>, opcode: u8, version: u8, event_id: u16, level: u8 },
    Raw { provider_tag: u32, opcode: u32 },
}

/// A `RawEvent` with its payload as the bytes it holds.
pub struct RawEventView {
    pub timestamp_ns: u64,
    pub pid: u32,
    pub tid: u32,
    pub cpu: Option<u16>,
    pub kind: RawEventKindView,
    pub payload: Seq<u8>,
}

pub open spec fn opt_text(o: Option<String>) -> Option<Seq<char>> {
    match o {
        Some(s) => Some(s@),
        None => None,
    }
}

impl View for RawEventKind {
    type V = RawEventKindView;

    open spec fn view(&self) -> RawEventKindView {
        match self {
            RawEventKind::ContextSwitchIn { next_pid, next_tid } =>
                RawEventKindView::ContextSwitchIn { next_pid: *next_pid, next_tid: *next_tid },
            RawEventKind::ContextSwitchOut { prev_pid, prev_tid } =>
                RawEventKindView::ContextSwitchOut { prev_pid: *prev_pid, prev_tid: *prev_tid },
            RawEventKind::PerfSample { ip, call_stack } => RawEventKindView::PerfSample {
                ip: *ip,
                call_stack: call_stack@,
            },
            RawEventKind::IoBegin { file_path, size_bytes } => RawEventKindView::IoBegin {
                file_path: opt_text(*file_path),
                size_bytes: *size_bytes,
            },
            RawEventKind::IoEnd { bytes_transferred, latency_ns } => RawEventKindView::IoEnd {
                bytes_transferred: *bytes_transferred,
                latency_ns: *latency_ns,
            },
            RawEventKind::ProcessCreate { parent_pid, name } => RawEventKindView::ProcessCreate {
                parent_pid: *parent_pid,
                name: name@,
            },
            RawEventKind::ProcessExit { exit_code } => RawEventKindView::ProcessExit {
                exit_code: *exit_code,
            },
            RawEventKind::ThreadCreate { name } => RawEventKindView::ThreadCreate {
                name: opt_text(*name),
            },
            RawEventKind::ThreadExit => RawEventKindView::ThreadExit,
            RawEventKind::EtwEvent { provider, opcode, version, event_id, level } =>
                RawEventKindView::EtwEvent {
                provider: provider@,
                opcode: *opcode,
                version: *version,
                event_id: *event_id,
                level: *level,
            },
            RawEventKind::Raw { provider_tag, opcode } => RawEventKindView::Raw {
                provider_tag: *provider_tag,
                opcode: *opcode,
            },
        }
    }
}

impl View for RawEvent {
    type V = RawEventView;

    open spec fn view(&self) -> RawEventView {
        RawEventView {
            timestamp_ns: self.timestamp_ns,
            pid: self.pid,
            tid: self.tid,
            cpu: self.cpu,
            kind: self.kind@,
            payload: bytes_contents(self.payload),
        }
    }
}

/// The view of an optional event.
pub open spec fn opt_event(o: Option<RawEvent>) -> Option<RawEventView> {
    match o {
        Some(e) => Some(e@),
        None => None,
    }
}

} // verus!
