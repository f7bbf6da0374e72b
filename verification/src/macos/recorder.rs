use vstd::prelude::*;

use super::error::RecordError;
use super::types::{DyldImage, IoEvent, MemorySnapshot, SchedEvent, StackSample, TraceData};

verus! {

/// How a macOS recording runs.
#[derive(Debug, Clone, Copy, PartialEq, Eq, Structural)]
pub enum CaptureMode {
    /// Mach thread sampling, with DTrace I/O and scheduling events, memory
    /// snapshots and the dyld image list.
    Full,
    /// `xctrace record` stack sampling, the fallback without Mach access.
    Xctrace,
}

/// What a start request does once the full-mode start has answered.
#[derive(Debug)]
pub enum StartAction {
    /// Full mode runs: the recording has started.
    Started,
    /// Mach access was denied: try the `xctrace` fallback; if that fails too,
    /// the request fails with the carried full-mode error.
    TryXctrace(RecordError),
    /// The start failed with this error.
    Failed(RecordError),
}

/// The recording state of the macOS recorder: at most one recording, full or
/// `xctrace`, runs at a time.
pub struct MacosRecorder {
    mode: Option<CaptureMode>,
}

impl MacosRecorder {
    /// The recording that runs, if any.
    pub closed spec fn mode(&self) -> Option<CaptureMode> {
        self.mode
    }

    pub fn new() -> (r: Self)
        ensures
            r.mode() is None,
    {
        MacosRecorder { mode: None }
    }

    /// Whether a recording runs.
    pub fn is_recording(&self) -> (b: bool)
        ensures
            b == self.mode() is Some,
    {
        self.mode.is_some()
    }

    /// The check a start request for `pid` makes first: a running recording
    /// refuses it.
    pub fn begin_start(&self, pid: u32) -> (r: Result<(), RecordError>)
        ensures
            self.mode() is Some <==> r is Err,
            r matches Err(e) ==> e == RecordError::AlreadyRecording(pid),
    {
        if self.mode.is_some() {
            return Err(RecordError::AlreadyRecording(pid));
        }
        Ok(())
    }

    /// Decides a start request on the outcome of the full-mode start: success
    /// starts a full recording; a permission error asks for the `xctrace`
    /// fallback; any other error fails the request.
    pub fn on_full_start(&mut self, outcome: Result<(), RecordError>) -> (a: StartAction)
        requires
            old(self).mode() is None,
        ensures
            match outcome {
                Ok(_) => a is Started && final(self).mode() == Some(CaptureMode::Full),
                Err(e) => final(self).mode() is None && if e is PermissionDenied {
                    a == StartAction::TryXctrace(e)
                } else {
                    a == StartAction::Failed(e)
                },
            },
    {
        match outcome {
            Ok(()) => {
                self.mode = Some(CaptureMode::Full);
                StartAction::Started
            },
            Err(e) => {
                if e.is_permission_error() {
                    StartAction::TryXctrace(e)
                } else {
                    StartAction::Failed(e)
                }
            },
        }
    }

    /// Records the outcome of starting the `xctrace` fallback: success starts
    /// an `xctrace` recording; failure fails the request with the full-mode
    /// error `full_error`.
    pub fn on_xctrace_start(&mut self, outcome: Result<(), RecordError>, full_error: RecordError) -> (r: Result<(), RecordError>)
        requires
            old(self).mode() is None,
        ensures
            outcome is Ok ==> r is Ok && final(self).mode() == Some(CaptureMode::Xctrace),
            outcome is Err ==> r == Err::<(), RecordError>(full_error) && final(self).mode() is None,
    {
        match outcome {
            Ok(()) => {
                self.mode = Some(CaptureMode::Xctrace);
                Ok(())
            },
            Err(_) => Err(full_error),
        }
    }

    /// Ends the running recording and says which one it was; with none running
    /// the request fails with `NotRecording`. Afterwards no recording runs.
    pub fn stop(&mut self) -> (r: Result<CaptureMode, RecordError>)
        ensures
            final(self).mode() is None,
            old(self).mode() is None ==> r == Err::<CaptureMode, RecordError>(RecordError::NotRecording),
            old(self).mode() matches Some(m) ==> r == Ok::<CaptureMode, RecordError>(m),
    {
        match self.mode.take() {
            None => Err(RecordError::NotRecording),
            Some(m) => Ok(m),
        }
    }
}

impl Default for MacosRecorder {
    fn default() -> (r: Self)
        ensures
            r.mode() is None,
    {
        MacosRecorder::new()
    }
}

/// The I/O events with their process id set to `pid` (DTrace's parser leaves
/// it 0).
pub fn with_io_pid(events: Vec<IoEvent>, pid: u32) -> (r: Vec<IoEvent>)
    ensures
        r@.len() == events@.len(),
        forall|i: int| 0 <= i < r@.len() ==> #[trigger] r@[i] == (IoEvent { pid, ..events@[i] }),
{
    let ghost e0 = events@;
    let mut events = events;
    let mut rev: Vec<IoEvent> = Vec::new();
    while events.len() > 0
        invariant
            events@.len() + rev@.len() == e0.len(),
            forall|i: int| 0 <= i < events@.len() ==> #[trigger] events@[i] == e0[i],
            forall|k: int| 0 <= k < rev@.len() ==> #[trigger] rev@[k] == (IoEvent { pid, ..e0[e0.len() - 1 - k] }),
        decreases events@.len(),
    {
        let mut e = events.pop().unwrap();
        e.pid = pid;
        rev.push(e);
    }
    let mut r: Vec<IoEvent> = Vec::new();
    while rev.len() > 0
        invariant
            rev@.len() + r@.len() == e0.len(),
            forall|k: int| 0 <= k < rev@.len() ==> #[trigger] rev@[k] == (IoEvent { pid, ..e0[e0.len() - 1 - k] }),
            forall|i: int| 0 <= i < r@.len() ==> #[trigger] r@[i] == (IoEvent { pid, ..e0[i] }),
        decreases rev@.len(),
    {
        let e = rev.pop().unwrap();
        r.push(e);
    }
    r
}

/// The scheduling events with their process id set to `pid`.
pub fn with_sched_pid(events: &Vec<SchedEvent>, pid: u32) -> (r: Vec<SchedEvent>)
    ensures
        r@.len() == events@.len(),
        forall|i: int| 0 <= i < r@.len() ==> #[trigger] r@[i] == (SchedEvent { pid, ..events@[i] }),
{
    let mut r: Vec<SchedEvent> = Vec::new();
    let mut i: usize = 0;
    while i < events.len()
        invariant
            0 <= i <= events@.len(),
            r@.len() == i,
            forall|k: int| 0 <= k < i ==> #[trigger] r@[k] == (SchedEvent { pid, ..events@[k] }),
        decreases events@.len() - i,
    {
        let e = events[i];
        r.push(SchedEvent { pid, ..e });
        i = i + 1;
    }
    r
}

/// The data of a finished full-mode recording of `pid`: the DTrace events,
/// with `pid` filled in, beside the stack samples, memory snapshots and
/// images collected.
pub fn full_trace_data(
    pid: u32,
    io_events: Vec<IoEvent>,
    sched_events: Vec<SchedEvent>,
    stack_samples: Vec<StackSample>,
    memory_snapshots: Vec<MemorySnapshot>,
    dyld_images: Vec<DyldImage>,
) -> (t: TraceData)
    ensures
        t.stack_samples@ == stack_samples@,
        t.memory_snapshots@ == memory_snapshots@,
        t.dyld_images@ == dyld_images@,
        t.io_events@.len() == io_events@.len(),
        forall|i: int| 0 <= i < t.io_events@.len() ==> #[trigger] t.io_events@[i] == (IoEvent { pid, ..io_events@[i] }),
        t.sched_events@.len() == sched_events@.len(),
        forall|i: int| 0 <= i < t.sched_events@.len() ==> #[trigger] t.sched_events@[i] == (SchedEvent {
            pid,
            ..sched_events@[i]
        }),
{
    let io = with_io_pid(io_events, pid);
    let sched = with_sched_pid(&sched_events, pid);
    TraceData { stack_samples, io_events: io, sched_events: sched, memory_snapshots, dyld_images }
}

} // verus!
