use process_analyzer::normalizer::clock::ClockCorrector;
use process_analyzer::normalizer::intern::StackInterner;
use process_analyzer::normalizer::raw_event::RawEvent;
use process_analyzer::normalizer::recorder::{LookupResult, NormalizingRecorder, SymbolFrame};
use process_analyzer::trace_event::{CpuSampleEvent, FrameInfoEvent, ProcessInfoEvent, StackEntryEvent, TraceEvent};

#[test]
fn monotone_passthrough() {
    let mut c = ClockCorrector::new();
    assert_eq!(c.correct(100), 100);
    assert_eq!(c.correct(200), 200);
    assert_eq!(c.corrections, 0);
}

#[test]
fn backwards_clamped() {
    let mut c = ClockCorrector::new();
    c.correct(200);
    assert_eq!(c.correct(100), 200);
    assert_eq!(c.corrections, 1);
}

#[test]
fn equal_not_counted() {
    let mut c = ClockCorrector::new();
    c.correct(100);
    assert_eq!(c.correct(100), 100);
    assert_eq!(c.corrections, 0);
}

#[test]
fn handles_negative_timestamps() {
    let mut c = ClockCorrector::new();
    assert_eq!(c.correct(-500), -500);
    assert_eq!(c.correct(-300), -300);
    assert_eq!(c.correct(-400), -300);
    assert_eq!(c.corrections, 1);
}

#[test]
fn corrected_sequence_never_decreases() {
    let mut c = ClockCorrector::new();
    let input = [5i64, 3, 9, 9, 1, 12, -4];
    let out: Vec<i64> = input.iter().map(|t| c.correct(*t)).collect();
    assert_eq!(out, vec![5, 5, 9, 9, 9, 12, 12]);
    assert_eq!(c.corrections(), 3);
}

#[test]
fn same_stack_same_id() {
    let mut si = StackInterner::new();
    let a = si.intern(&[0x1000, 0x2000]);
    let b = si.intern(&[0x1000, 0x2000]);
    assert_eq!(a, b);
}

#[test]
fn different_stacks_different_ids() {
    let mut si = StackInterner::new();
    let a = si.intern(&[0x1000]);
    let b = si.intern(&[0x2000]);
    assert_ne!(a, b);
}

#[test]
fn get_round_trip() {
    let mut si = StackInterner::new();
    let frames = vec![0x1000u64, 0x2000, 0x3000];
    let id = si.intern(&frames);
    assert_eq!(si.get(id), Some(frames.as_slice()));
}

#[test]
fn get_zero_returns_none() {
    let si = StackInterner::new();
    assert!(si.get(0).is_none());
}

#[test]
fn ids_start_at_one() {
    let mut si = StackInterner::new();
    assert_eq!(si.intern(&[0x1000]), 1);
    assert_eq!(si.intern(&[0x2000]), 2);
}

#[test]
fn interner_len_counts_distinct_stacks() {
    let mut si = StackInterner::new();
    assert!(si.is_empty());
    si.intern(&[1, 2]);
    si.intern(&[1, 2]);
    si.intern(&[3]);
    assert_eq!(si.len(), 2);
    assert!(si.get(3).is_none());
}

fn cpu(ts: i64) -> TraceEvent {
    TraceEvent::CpuSample(CpuSampleEvent {
        timestamp_ns: ts,
        process_id: 1,
        thread_id: 1,
        cpu_id: 0,
        sample_weight: 1,
        stack_id: None,
    })
}

fn frame(addr: u64) -> FrameInfoEvent {
    FrameInfoEvent { frame_id: addr, address: addr, symbol_name: None, module_name: None, file_path: None, line_number: None }
}

#[test]
fn pass_through_counts_events() {
    let mut r = NormalizingRecorder::new();
    r.record(cpu(1000), None);
    assert_eq!(r.stats().events_processed, 1);
}

#[test]
fn clock_backwards_counted() {
    let mut r = NormalizingRecorder::new();
    r.record(cpu(2000), None);
    let out = r.record(cpu(1000), None);
    assert_eq!(r.stats().clock_corrections, 1);
    match out {
        TraceEvent::CpuSample(e) => assert_eq!(e.timestamp_ns, 2000),
        other => panic!("unexpected: {other:?}"),
    }
}

#[test]
fn frame_unresolved_without_module() {
    let mut r = NormalizingRecorder::new();
    let ev = TraceEvent::Frame(frame(0xdead_beef));
    assert!(NormalizingRecorder::needs_lookup(&ev));
    r.record(ev, Some(LookupResult::Unknown { address: 0xdead_beef }));
    assert_eq!(r.stats().frames_symbolized, 0);
}

#[test]
fn frame_existing_symbol_preserved() {
    let mut r = NormalizingRecorder::new();
    let ev = TraceEvent::Frame(FrameInfoEvent {
        frame_id: 1,
        address: 0x1234,
        symbol_name: Some("known".to_owned()),
        module_name: None,
        file_path: None,
        line_number: None,
    });
    assert!(!NormalizingRecorder::needs_lookup(&ev));
    let out = r.record(ev, None);
    assert_eq!(r.stats().frames_symbolized, 0);
    match out {
        TraceEvent::Frame(f) => assert_eq!(f.symbol_name.as_deref(), Some("known")),
        other => panic!("unexpected: {other:?}"),
    }
}

#[test]
fn process_backwards_exit_corrected() {
    let mut r = NormalizingRecorder::new();
    let out = r.record(
        TraceEvent::Process(ProcessInfoEvent {
            process_id: 1,
            parent_process_id: None,
            name: "t".to_owned(),
            cmdline: None,
            start_time_ns: 5000,
            exit_time_ns: Some(3000),
            exit_code: Some(0),
        }),
        None,
    );
    assert_eq!(r.stats().clock_corrections, 1);
    match out {
        TraceEvent::Process(p) => {
            assert_eq!(p.start_time_ns, 5000);
            assert_eq!(p.exit_time_ns, Some(5000));
        },
        other => panic!("unexpected: {other:?}"),
    }
}

#[test]
fn resolved_frame_takes_first_symbol() {
    let mut r = NormalizingRecorder::new();
    let answer = LookupResult::Resolved(vec![
        SymbolFrame { function: "inner".to_string(), module: "libx".to_string(), file: Some("x.c".to_string()), line: Some(7) },
        SymbolFrame { function: "outer".to_string(), module: "libx".to_string(), file: None, line: None },
    ]);
    let out = r.record(TraceEvent::Frame(frame(0x4000)), Some(answer));
    assert_eq!(r.stats().frames_symbolized, 1);
    match out {
        TraceEvent::Frame(f) => {
            assert_eq!(f.symbol_name.as_deref(), Some("inner"));
            assert_eq!(f.module_name.as_deref(), Some("libx"));
            assert_eq!(f.file_path.as_deref(), Some("x.c"));
            assert_eq!(f.line_number, Some(7));
        },
        other => panic!("unexpected: {other:?}"),
    }
}

#[test]
fn module_offset_sets_module_only() {
    let mut r = NormalizingRecorder::new();
    let out = r.record(
        TraceEvent::Frame(frame(0x5000)),
        Some(LookupResult::ModuleOffset { module: "libz".to_string(), offset: 0x10 }),
    );
    assert_eq!(r.stats().frames_symbolized, 0);
    match out {
        TraceEvent::Frame(f) => {
            assert!(f.symbol_name.is_none());
            assert_eq!(f.module_name.as_deref(), Some("libz"));
        },
        other => panic!("unexpected: {other:?}"),
    }
}

#[test]
fn stack_entries_pass_unchanged() {
    let mut r = NormalizingRecorder::new();
    let out = r.record(TraceEvent::StackEntry(StackEntryEvent { stack_id: 3, depth: 1, frame_id: 9 }), None);
    assert_eq!(r.stats().events_processed, 1);
    assert_eq!(r.stats().clock_corrections, 0);
    assert!(matches!(out, TraceEvent::StackEntry(StackEntryEvent { stack_id: 3, depth: 1, frame_id: 9 })));
}

#[test]
fn raw_event_timestamp_of_every_kind() {
    let evs = vec![
        RawEvent::ProcessCreate { pid: 1, ppid: 0, name: "a".to_string(), timestamp_ns: 1 },
        RawEvent::ThreadExit { pid: 1, tid: 2, timestamp_ns: 2 },
        RawEvent::StackSample { pid: 1, tid: 2, frames: vec![1, 2], timestamp_ns: 3, cpu: None },
        RawEvent::SyscallExit { pid: 1, tid: 2, nr: 3, ret: -1, timestamp_ns: 4 },
        RawEvent::ModuleUnload { pid: 1, base: 0x1000, timestamp_ns: 5 },
        RawEvent::Unknown { event_type: 99, timestamp_ns: 6, payload: vec![] },
    ];
    let ts: Vec<u64> = evs.iter().map(|e| e.timestamp_ns()).collect();
    assert_eq!(ts, vec![1, 2, 3, 4, 5, 6]);
}
