use vstd::prelude::*;

use super::clock::{
    corrected, is_backwards, lemma_run_clock_monotone, next_last, non_decreasing, run_clock, ClockCorrector,
};
use crate::trace_event::{
    CpuSampleEvent, DiskIoEvent, FileIoEvent, FrameInfoEvent, MemoryEvent, NetworkEvent,
    ProcessInfoEvent, SchedulingEvent, ThreadInfoEvent, TraceEvent,
};

verus! {

/// Statistics accumulated since the normalizer was created.
#[derive(Debug, Clone, Copy, PartialEq, Eq, Structural)]
pub struct NormalizerStats {
    pub events_processed: u64,
    pub frames_symbolized: u64,
    pub clock_corrections: u64,
}

impl Default for NormalizerStats {
    fn default() -> (s: Self)
        ensures
            s.events_processed == 0 && s.frames_symbolized == 0 && s.clock_corrections == 0,
    {
        NormalizerStats { events_processed: 0, frames_symbolized: 0, clock_corrections: 0 }
    }
}

/// One source-level frame a symbolicator resolved an address to.
#[derive(Debug, Clone)]
pub struct SymbolFrame {
    pub function: String,
    pub module: String,
    pub file: Option<String>,
    pub line: Option<u32>,
}

/// What a symbolicator answered for an address.
#[derive(Debug, Clone)]
pub enum LookupResult {
    /// The address resolved to these frames, innermost (inlined) first.
    Resolved(Vec<SymbolFrame>),
    /// The address lies in a known module, at this offset, without a symbol.
    ModuleOffset { module: String, offset: u64 },
    /// The address lies in no known module.
    Unknown { address: u64 },
}

/// The event with its timestamps clock-corrected in order, starting from the
/// corrector's last accepted timestamp `last`: a process's or thread's start,
/// then its exit; frames and stack entries carry none.
pub open spec fn corrected_event(last: Option<i64>, e: TraceEvent) -> TraceEvent {
    match e {
        TraceEvent::CpuSample(c) => TraceEvent::CpuSample(
            CpuSampleEvent { timestamp_ns: corrected(last, c.timestamp_ns), ..c },
        ),
        TraceEvent::Scheduling(c) => TraceEvent::Scheduling(
            SchedulingEvent { timestamp_ns: corrected(last, c.timestamp_ns), ..c },
        ),
        TraceEvent::DiskIo(c) => TraceEvent::DiskIo(DiskIoEvent { timestamp_ns: corrected(last, c.timestamp_ns), ..c }),
        TraceEvent::FileIo(c) => TraceEvent::FileIo(FileIoEvent { timestamp_ns: corrected(last, c.timestamp_ns), ..c }),
        TraceEvent::Memory(c) => TraceEvent::Memory(MemoryEvent { timestamp_ns: corrected(last, c.timestamp_ns), ..c }),
        TraceEvent::Network(c) => TraceEvent::Network(
            NetworkEvent { timestamp_ns: corrected(last, c.timestamp_ns), ..c },
        ),
        TraceEvent::Process(p) => TraceEvent::Process(
            ProcessInfoEvent {
                start_time_ns: corrected(last, p.start_time_ns),
                exit_time_ns: match p.exit_time_ns {
                    Some(t) => Some(corrected(next_last(last, p.start_time_ns), t)),
                    None => None,
                },
                ..p
            },
        ),
        TraceEvent::Thread(p) => TraceEvent::Thread(
            ThreadInfoEvent {
                start_time_ns: corrected(last, p.start_time_ns),
                exit_time_ns: match p.exit_time_ns {
                    Some(t) => Some(corrected(next_last(last, p.start_time_ns), t)),
                    None => None,
                },
                ..p
            },
        ),
        other => other,
    }
}

/// The timestamps of an event, in the order the normalizer corrects them.
pub open spec fn event_times(e: TraceEvent) -> Seq<i64> {
    match e {
        TraceEvent::CpuSample(c) => seq![c.timestamp_ns],
        TraceEvent::Scheduling(c) => seq![c.timestamp_ns],
        TraceEvent::DiskIo(c) => seq![c.timestamp_ns],
        TraceEvent::FileIo(c) => seq![c.timestamp_ns],
        TraceEvent::Memory(c) => seq![c.timestamp_ns],
        TraceEvent::Network(c) => seq![c.timestamp_ns],
        TraceEvent::Process(p) => match p.exit_time_ns {
            Some(t) => seq![p.start_time_ns, t],
            None => seq![p.start_time_ns],
        },
        TraceEvent::Thread(p) => match p.exit_time_ns {
            Some(t) => seq![p.start_time_ns, t],
            None => seq![p.start_time_ns],
        },
        _ => Seq::empty(),
    }
}

/// The corrector's last accepted timestamp after feeding it `ts` in order.
pub open spec fn last_after(last: Option<i64>, ts: Seq<i64>) -> Option<i64>
    decreases ts.len(),
{
    if ts.len() == 0 {
        last
    } else {
        last_after(next_last(last, ts[0]), ts.drop_first())
    }
}

/// How many of `ts`, fed in order after `last`, jump backwards.
pub open spec fn backwards_count(last: Option<i64>, ts: Seq<i64>) -> nat
    decreases ts.len(),
{
    if ts.len() == 0 {
        0
    } else {
        (if is_backwards(last, ts[0]) {
            1nat
        } else {
            0nat
        }) + backwards_count(next_last(last, ts[0]), ts.drop_first())
    }
}

/// The frame enriched with a symbolicator's answer: a frame that already has a
/// symbol keeps it; a resolved address takes the first frame's function,
/// module, file and line; an address inside a known module takes that
/// module; anything else leaves the frame as it is.
pub open spec fn symbolicated(e: FrameInfoEvent, lookup: Option<LookupResult>) -> FrameInfoEvent {
    if e.symbol_name is Some {
        e
    } else {
        match lookup {
            Some(LookupResult::Resolved(frames)) => if frames@.len() > 0 {
                let f = frames@[0];
                FrameInfoEvent {
                    symbol_name: Some(f.function),
                    module_name: Some(f.module),
                    file_path: f.file,
                    line_number: f.line,
                    ..e
                }
            } else {
                e
            },
            Some(LookupResult::ModuleOffset { module, .. }) => FrameInfoEvent { module_name: Some(module), ..e },
            _ => e,
        }
    }
}

/// Whether the answer resolves a frame that had no symbol.
pub open spec fn resolves(e: FrameInfoEvent, lookup: Option<LookupResult>) -> bool {
    e.symbol_name is None && (lookup matches Some(LookupResult::Resolved(frames)) && frames@.len() > 0)
}

/// Law: the timestamps of a normalized event are exactly what the session
/// clock hands out for the event's timestamps in order, so across a session
/// they never run backwards and never fall before the last one handed out.
pub proof fn law_normalized_times_follow_clock(last: Option<i64>, e: TraceEvent)
    ensures
        event_times(corrected_event(last, e)) == run_clock(last, event_times(e)),
        non_decreasing(event_times(corrected_event(last, e))),
        last matches Some(l) ==> forall|i: int|
            0 <= i < event_times(e).len() ==> l <= #[trigger] event_times(corrected_event(last, e))[i],
{
    reveal_with_fuel(run_clock, 3);
    let ts = event_times(e);
    if ts.len() >= 1 {
        assert(ts.drop_first().len() == ts.len() - 1);
        if ts.len() == 2 {
            assert(ts.drop_first()[0] == ts[1]);
            assert(ts.drop_first().drop_first().len() == 0);
        }
    }
    assert(event_times(corrected_event(last, e)) =~= run_clock(last, ts));
    lemma_run_clock_monotone(last, ts);
}

/// The decisions of the normalizing recorder, which sits in front of another
/// recorder: it counts every event, clock-corrects its timestamps so that they
/// never run backwards across the session, and fills in frames' symbols from
/// a symbolicator's answers. Each event it returns is forwarded as is.
pub struct NormalizingRecorder {
    clock: ClockCorrector,
    stats: NormalizerStats,
}

impl NormalizingRecorder {
    /// The clock's last accepted timestamp.
    pub closed spec fn last(&self) -> Option<i64> {
        self.clock.last()
    }

    /// The statistics so far.
    pub closed spec fn stats_spec(&self) -> NormalizerStats {
        NormalizerStats { clock_corrections: self.clock.count() as u64, ..self.stats }
    }

    pub fn new() -> (r: Self)
        ensures
            r.last() is None,
            r.stats_spec() == (NormalizerStats { events_processed: 0, frames_symbolized: 0, clock_corrections: 0 }),
    {
        NormalizingRecorder { clock: ClockCorrector::new(), stats: NormalizerStats::default() }
    }

    /// The statistics so far.
    pub fn stats(&self) -> (s: NormalizerStats)
        ensures
            s == self.stats_spec(),
    {
        NormalizerStats { clock_corrections: self.clock.corrections(), ..self.stats }
    }

    /// Whether the symbolicator needs asking about this event: a frame without
    /// a symbol.
    pub fn needs_lookup(event: &TraceEvent) -> (b: bool)
        ensures
            b == (event matches TraceEvent::Frame(f) && f.symbol_name is None),
    {
        match event {
            TraceEvent::Frame(f) => f.symbol_name.is_none(),
            _ => false,
        }
    }

    fn symbolicate_frame(&mut self, e: FrameInfoEvent, lookup: Option<LookupResult>) -> (r: FrameInfoEvent)
        requires
            old(self).stats.frames_symbolized < u64::MAX,
        ensures
            r == symbolicated(e, lookup),
            final(self).clock == old(self).clock,
            final(self).stats.events_processed == old(self).stats.events_processed,
            final(self).stats.frames_symbolized == old(self).stats.frames_symbolized + if resolves(e, lookup) {
                1int
            } else {
                0int
            },
    {
        if e.symbol_name.is_some() {
            return e;
        }
        let mut e = e;
        match lookup {
            Some(LookupResult::Resolved(frames)) => {
                let mut frames = frames;
                if frames.len() > 0 {
                    let f = frames.remove(0);
                    e.symbol_name = Some(f.function);
                    e.module_name = Some(f.module);
                    e.file_path = f.file;
                    e.line_number = f.line;
                    self.stats.frames_symbolized = self.stats.frames_symbolized + 1;
                }
            },
            Some(LookupResult::ModuleOffset { module, .. }) => {
                e.module_name = Some(module);
            },
            _ => {},
        }
        e
    }

    /// Normalizes one event: counts it, clock-corrects its timestamps in order
    /// (frames and stack entries carry none), and fills a frame without a
    /// symbol from `lookup`, the symbolicator's answer for its address.
    pub fn record(&mut self, event: TraceEvent, lookup: Option<LookupResult>) -> (r: TraceEvent)
        requires
            old(self).stats_spec().events_processed < u64::MAX,
            old(self).stats_spec().frames_symbolized < u64::MAX,
            old(self).stats_spec().clock_corrections < u64::MAX - 1,
        ensures
            final(self).stats_spec().events_processed == old(self).stats_spec().events_processed + 1,
            final(self).stats_spec().clock_corrections == old(self).stats_spec().clock_corrections
                + backwards_count(old(self).last(), event_times(event)),
            final(self).last() == last_after(old(self).last(), event_times(event)),
            match event {
                TraceEvent::Frame(f) => r == TraceEvent::Frame(symbolicated(f, lookup))
                    && final(self).stats_spec().frames_symbolized == old(self).stats_spec().frames_symbolized
                    + if resolves(f, lookup) {
                    1int
                } else {
                    0int
                },
                _ => r == corrected_event(old(self).last(), event) && final(self).stats_spec().frames_symbolized
                    == old(self).stats_spec().frames_symbolized,
            },
    {
        proof {
            self.clock.lemma_count_fits();
        }
        self.stats.events_processed = self.stats.events_processed + 1;
        let r = match event {
            TraceEvent::CpuSample(mut e) => {
                e.timestamp_ns = self.clock.correct(e.timestamp_ns);
                TraceEvent::CpuSample(e)
            },
            TraceEvent::Scheduling(mut e) => {
                e.timestamp_ns = self.clock.correct(e.timestamp_ns);
                TraceEvent::Scheduling(e)
            },
            TraceEvent::DiskIo(mut e) => {
                e.timestamp_ns = self.clock.correct(e.timestamp_ns);
                TraceEvent::DiskIo(e)
            },
            TraceEvent::FileIo(mut e) => {
                e.timestamp_ns = self.clock.correct(e.timestamp_ns);
                TraceEvent::FileIo(e)
            },
            TraceEvent::Memory(mut e) => {
                e.timestamp_ns = self.clock.correct(e.timestamp_ns);
                TraceEvent::Memory(e)
            },
            TraceEvent::Network(mut e) => {
                e.timestamp_ns = self.clock.correct(e.timestamp_ns);
                TraceEvent::Network(e)
            },
            TraceEvent::Process(mut e) => {
                e.start_time_ns = self.clock.correct(e.start_time_ns);
                if let Some(t) = e.exit_time_ns {
                    e.exit_time_ns = Some(self.clock.correct(t));
                }
                TraceEvent::Process(e)
            },
            TraceEvent::Thread(mut e) => {
                e.start_time_ns = self.clock.correct(e.start_time_ns);
                if let Some(t) = e.exit_time_ns {
                    e.exit_time_ns = Some(self.clock.correct(t));
                }
                TraceEvent::Thread(e)
            },
            TraceEvent::Frame(e) => TraceEvent::Frame(self.symbolicate_frame(e, lookup)),
            other => other,
        };
        proof {
            self.clock.lemma_count_fits();
            reveal_with_fuel(last_after, 3);
            reveal_with_fuel(backwards_count, 3);
            let ts = event_times(event);
            if ts.len() >= 1 {
                assert(ts.drop_first().len() == ts.len() - 1);
                if ts.len() == 2 {
                    assert(ts.drop_first()[0] == ts[1]);
                    assert(ts.drop_first().drop_first().len() == 0);
                }
            }
        }
        r
    }
}

} // verus!
