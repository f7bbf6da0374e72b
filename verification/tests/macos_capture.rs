use process_analyzer::macos::arch::{Arch, CPU_TYPE_ARM64};
use process_analyzer::macos::dyld::{
    arch_from_first_header, cstring_len, decode_image_infos, image_count, image_from_entry, ImageInfo, LoadCommandScan,
    ScanRead, LC_SEGMENT_64, LC_UUID, MAX_IMAGES, MAX_LOAD_CMDS, MH_MAGIC_64,
};
use process_analyzer::macos::recorder::{full_trace_data, CaptureMode, MacosRecorder, StartAction};
use process_analyzer::macos::stackwalk::{StackWalk, MAX_FRAMES};
use process_analyzer::macos::{IoEvent, IoKind, RecordError, SchedEvent, SchedKind};

#[test]
fn stop_without_start() {
    let mut recorder = MacosRecorder::default();
    let err = recorder.stop().unwrap_err();
    assert!(matches!(err, RecordError::NotRecording));
}

#[test]
fn double_start_returns_error() {
    let pid = 4242;
    let mut recorder = MacosRecorder::default();
    assert!(recorder.begin_start(pid).is_ok());
    match recorder.on_full_start(Ok(())) {
        StartAction::Started => {
            let err = recorder.begin_start(pid).unwrap_err();
            assert!(matches!(err, RecordError::AlreadyRecording(4242)), "expected AlreadyRecording, got: {}", err.message());
            let _ = recorder.stop();
        },
        other => panic!("unexpected: {other:?}"),
    }
}

#[test]
fn permission_denied_falls_back_to_xctrace() {
    let mut r = MacosRecorder::new();
    let denied = RecordError::PermissionDenied { pid: 9, detail: "task_for_pid".to_string() };
    let full_error = match r.on_full_start(Err(denied)) {
        StartAction::TryXctrace(e) => e,
        other => panic!("unexpected: {other:?}"),
    };
    assert!(r.on_xctrace_start(Ok(()), full_error).is_ok());
    assert!(r.is_recording());
    assert_eq!(r.stop().unwrap(), CaptureMode::Xctrace);
}

#[test]
fn failed_fallback_reports_the_permission_error() {
    let mut r = MacosRecorder::new();
    let denied = RecordError::PermissionDenied { pid: 9, detail: "denied".to_string() };
    let full_error = match r.on_full_start(Err(denied)) {
        StartAction::TryXctrace(e) => e,
        other => panic!("unexpected: {other:?}"),
    };
    let res = r.on_xctrace_start(Err(RecordError::XctraceNotFound), full_error);
    assert!(matches!(res, Err(RecordError::PermissionDenied { pid: 9, .. })));
    assert!(!r.is_recording());
}

#[test]
fn other_start_errors_fail() {
    let mut r = MacosRecorder::new();
    assert!(matches!(r.on_full_start(Err(RecordError::ProcessNotFound(3))), StartAction::Failed(RecordError::ProcessNotFound(3))));
    assert!(!r.is_recording());
}

#[test]
fn full_trace_data_backfills_pid() {
    let io = vec![
        IoEvent { timestamp_ns: 1, pid: 0, tid: 2, kind: IoKind::Read, bytes: 3, path: Some("/a".to_string()) },
        IoEvent { timestamp_ns: 4, pid: 0, tid: 5, kind: IoKind::Write, bytes: 6, path: None },
    ];
    let sched = vec![SchedEvent { timestamp_ns: 7, pid: 0, tid: 8, kind: SchedKind::OnCpu, cpu: 1 }];
    let t = full_trace_data(77, io, sched, vec![], vec![], vec![]);
    assert_eq!(t.io_events.len(), 2);
    assert!(t.io_events.iter().all(|e| e.pid == 77));
    assert_eq!(t.io_events[0].path.as_deref(), Some("/a"));
    assert_eq!(t.io_events[1].tid, 5);
    assert_eq!(t.sched_events[0].pid, 77);
    assert_eq!(t.sched_events[0].cpu, 1);
}

fn walk(pc: u64, fp: u64, memory: &[(u64, (u64, u64))]) -> Vec<u64> {
    let mut w = StackWalk::new(pc, fp);
    while let Some(addr) = w.next_record() {
        let rec = memory.iter().find(|(a, _)| *a == addr).map(|(_, r)| *r);
        w.on_record(rec);
    }
    w.into_frames()
}

#[test]
fn stack_walk_follows_frame_pointers() {
    let mem = [(0x7000, (0x7100, 0x1111_0000)), (0x7100, (0x7200, 0x2222_0000)), (0x7200, (0, 0x3333_0000))];
    assert_eq!(walk(0x9999, 0x7000, &mem), vec![0x9999, 0x1111_0000, 0x2222_0000, 0x3333_0000]);
}

#[test]
fn stack_walk_strips_pac_and_stops_on_bad_return() {
    let mem = [(0x7000, (0x7100, 0xABCD_0000_1111_0000)), (0x7100, (0x7200, 0x10))];
    assert_eq!(walk(1, 0x7000, &mem), vec![1, 0x1111_0000]);
}

#[test]
fn stack_walk_stops_on_non_increasing_fp_and_unreadable_record() {
    let mem = [(0x7000, (0x6000, 0x5000))];
    assert_eq!(walk(1, 0x7000, &mem), vec![1, 0x5000]);
    assert_eq!(walk(1, 0x7000, &[]), vec![1]);
    assert_eq!(walk(1, 0x10, &[]), vec![1]);
}

#[test]
fn stack_walk_caps_frames() {
    let mem: Vec<(u64, (u64, u64))> = (0..400u64).map(|i| (0x10_000 + i * 16, (0x10_000 + (i + 1) * 16, 0x40_0000 + i))).collect();
    let frames = walk(0x1234, 0x10_000, &mem);
    assert_eq!(frames.len(), MAX_FRAMES);
}

fn scan(load: u64, magic: u32, cmds: &[(u64, u32, u32)], uuid_at: Option<(u64, [u8; 16])>, vmaddr_at: Option<(u64, u64)>) -> Option<([u8; 16], i64)> {
    let mut s = LoadCommandScan::start(load, magic, cmds.len() as u32)?;
    loop {
        match s.next_read() {
            ScanRead::LoadCommand(a) => {
                let lc = cmds.iter().find(|c| c.0 == a).map(|c| (c.1, c.2));
                s.on_load_command(lc);
            },
            ScanRead::Uuid(a) => s.on_uuid(uuid_at.filter(|u| u.0 == a).map(|u| u.1)),
            ScanRead::Vmaddr(a) => s.on_vmaddr(vmaddr_at.filter(|v| v.0 == a).map(|v| v.1)),
            ScanRead::Finished => break,
        }
    }
    assert!(s.check_slide());
    Some(s.finish())
}

#[test]
fn load_commands_give_uuid_and_slide() {
    let load = 0x1_0000_0000u64;
    let first = load + 32;
    let cmds = [(first, LC_SEGMENT_64, 72), (first + 72, 0x2, 24), (first + 96, LC_UUID, 24)];
    let uuid = [7u8; 16];
    let r = scan(load, MH_MAGIC_64, &cmds, Some((first + 96, uuid)), Some((first + 24, 0x1_0000_0000 - 0x4000))).unwrap();
    assert_eq!(r.0, uuid);
    assert_eq!(r.1, 0x4000);
}

#[test]
fn wrong_magic_and_missing_uuid() {
    assert!(LoadCommandScan::start(0x1000, 0xcafe_babe, 3).is_none());
    let load = 0x2000u64;
    let r = scan(load, MH_MAGIC_64, &[(load + 32, 0x2, 4)], None, None).unwrap();
    assert_eq!(r, ([0u8; 16], 0));
}

#[test]
fn load_command_walk_is_capped() {
    let s = LoadCommandScan::start(0x1000, MH_MAGIC_64, 100_000).unwrap();
    assert_eq!(s.next_read(), ScanRead::LoadCommand(0x1020));
    assert_eq!(MAX_LOAD_CMDS, 512);
}

#[test]
fn image_infos_decode() {
    let mut buf = Vec::new();
    for v in [0x1000u64, 0x2000, 3, 0x4000, 0x5000, 6] {
        buf.extend_from_slice(&v.to_le_bytes());
    }
    buf.extend_from_slice(&[1, 2, 3]);
    let infos = decode_image_infos(&buf);
    assert_eq!(infos, vec![
        ImageInfo { image_load_address: 0x1000, image_file_path: 0x2000, image_file_mod_date: 3 },
        ImageInfo { image_load_address: 0x4000, image_file_path: 0x5000, image_file_mod_date: 6 },
    ]);
}

#[test]
fn image_count_caps_and_null_list() {
    assert_eq!(image_count(10, 0x1000), 10);
    assert_eq!(image_count(100_000, 0x1000), MAX_IMAGES);
    assert_eq!(image_count(10, 0), 0);
}

#[test]
fn image_from_entry_defaults() {
    let e = ImageInfo { image_load_address: 0x1000, image_file_path: 0, image_file_mod_date: 0 };
    let img = image_from_entry(&e, None, None).unwrap();
    assert_eq!(img.path, "<unknown>");
    assert_eq!(img.uuid, [0u8; 16]);
    assert_eq!(img.slide, 0);
    let zero = ImageInfo { image_load_address: 0, image_file_path: 0, image_file_mod_date: 0 };
    assert!(image_from_entry(&zero, Some("/x".to_string()), None).is_none());
}

#[test]
fn cstring_stops_at_nul() {
    assert_eq!(cstring_len(b"abc\0def"), 3);
    assert_eq!(cstring_len(b"abc"), 3);
    assert_eq!(cstring_len(b"\0"), 0);
}

#[test]
fn arch_from_header() {
    assert_eq!(arch_from_first_header(Some((MH_MAGIC_64, CPU_TYPE_ARM64)), Arch::X86_64), Arch::Arm64);
    assert_eq!(arch_from_first_header(Some((0xcafe_babe, CPU_TYPE_ARM64)), Arch::X86_64), Arch::X86_64);
    assert_eq!(arch_from_first_header(None, Arch::Arm64), Arch::Arm64);
}

use process_analyzer::macos::dtrace::{dtrace_args, dtrace_spawn_error, DEFAULT_SCRIPT};
use process_analyzer::macos::sampling::{memory_rate_hz, memory_snapshot, task_port_error, thread_sample, threads_to_sample};
use process_analyzer::macos::xctrace::{
    xctrace_export_args, xctrace_export_result, xctrace_record_args, xctrace_record_exit_error,
};

#[test]
fn dtrace_command_line() {
    let v = dtrace_args(42, None);
    assert_eq!(v[..4], ["-q", "-p", "42", "-n"]);
    assert_eq!(v[4], DEFAULT_SCRIPT);
    assert!(DEFAULT_SCRIPT.contains("io:::start"));
    assert_eq!(dtrace_args(42, Some("custom"))[4], "custom");
    match dtrace_spawn_error(true, "x".to_string()) {
        RecordError::DTraceUnavailable(m) => assert!(m.starts_with("dtrace binary not found")),
        other => panic!("unexpected: {other:?}"),
    }
    match dtrace_spawn_error(false, "permission denied".to_string()) {
        RecordError::DTraceUnavailable(m) => assert_eq!(m, "permission denied"),
        other => panic!("unexpected: {other:?}"),
    }
}

#[test]
fn xctrace_command_lines() {
    let r = xctrace_record_args(7, 0, "/tmp/x.xctrace");
    assert_eq!(r, vec!["record", "--template", "Time Profiler", "--target-pid", "7", "--time-limit", "1s", "--output", "/tmp/x.xctrace"]);
    assert_eq!(xctrace_record_args(7, 30, "o")[6], "30s");
    let e = xctrace_export_args("/tmp/x.xctrace");
    assert_eq!(e[2], "/tmp/x.xctrace");
    assert_eq!(e[8], "-");
}

#[test]
fn xctrace_export_outcomes() {
    let empty = xctrace_export_result(&[], 5).unwrap();
    assert!(empty.stack_samples.is_empty());
    let json = br#"{"rows": [{"timestamp": 10, "thread": 3, "backtrace": [{"addr": "0x10"}]}]}"#;
    let d = xctrace_export_result(json, 5).unwrap();
    assert_eq!(d.stack_samples.len(), 1);
    assert_eq!(d.stack_samples[0].pid, 5);
    match xctrace_record_exit_error(Some(3)) {
        RecordError::XctraceError(m) => assert_eq!(m, "xctrace record exited Some(3)"),
        other => panic!("unexpected: {other:?}"),
    }
    match xctrace_record_exit_error(None) {
        RecordError::XctraceError(m) => assert_eq!(m, "xctrace record exited None"),
        other => panic!("unexpected: {other:?}"),
    }
}

#[test]
fn sampling_decisions() {
    assert_eq!(threads_to_sample(10), 10);
    assert_eq!(threads_to_sample(5000), 1024);
    assert_eq!(memory_rate_hz(0), 1);
    assert_eq!(memory_rate_hz(5), 5);
    assert_eq!(memory_rate_hz(100), 10);
    let s = thread_sample(1, None, 77, 9, vec![0x10, 0x20]).unwrap();
    assert_eq!(s.tid, 77);
    assert_eq!(thread_sample(1, Some(5), 77, 9, vec![0x10]).unwrap().tid, 5);
    assert!(thread_sample(1, Some(5), 77, 9, vec![]).is_none());
    let m = memory_snapshot(3, 4, 5, 6, 7);
    assert_eq!((m.pid, m.timestamp_ns, m.resident_bytes, m.virtual_bytes, m.footprint_bytes), (3, 4, 5, 6, 7));
}

#[test]
fn task_port_errors() {
    assert!(matches!(task_port_error(9, 5, false), RecordError::ProcessNotFound(9)));
    match task_port_error(9, 5, true) {
        RecordError::PermissionDenied { pid, detail } => {
            assert_eq!(pid, 9);
            assert_eq!(detail, "task_for_pid returned 0x00000005");
        },
        other => panic!("unexpected: {other:?}"),
    }
    match task_port_error(9, -1, true) {
        RecordError::PermissionDenied { detail, .. } => assert_eq!(detail, "task_for_pid returned 0xffffffff"),
        other => panic!("unexpected: {other:?}"),
    }
}

#[test]
fn recording_error_messages() {
    assert_eq!(RecordError::NotRecording.message(), "not recording");
    assert_eq!(RecordError::AlreadyRecording(7).message(), "already recording pid 7");
    assert_eq!(RecordError::MachError { code: 5, context: "task_info" }.message(), "mach kernel error 0x00000005 in task_info");
    assert_eq!(
        RecordError::MemoryReadFailed { address: 0x1000, detail: "bad".to_string() }.message(),
        "remote memory read failed at 0x0000000000001000: bad"
    );
    assert_eq!(
        RecordError::PermissionDenied { pid: 3, detail: "no".to_string() }.message(),
        "permission denied acquiring task port for pid 3: no\nRemediation: run as root, or codesign with com.apple.security.cs.debugger entitlement, or use xctrace fallback"
    );
    assert!(RecordError::DTraceUnavailable("d".to_string()).message().starts_with("DTrace unavailable: d\nSIP may"));
}
