use process_analyzer::macos::arch::{strip_pac, Arch, CPU_TYPE_ARM64, CPU_TYPE_X86_64};
use process_analyzer::macos::dtrace::{parse_dtrace_output, parse_io_line, parse_sched_line};
use process_analyzer::macos::xctrace::{extract_backtrace_addrs, extract_number_after, parse_xctrace_json};
use process_analyzer::macos::{IoKind, RecordError, SchedKind};

#[test]
fn parse_io_read() {
    let ev = parse_io_line("IO R 1718000000000000000 12345 4096 /var/log/system.log").expect("should parse");
    assert_eq!(ev.kind, IoKind::Read);
    assert_eq!(ev.tid, 12345);
    assert_eq!(ev.bytes, 4096);
    assert_eq!(ev.path.as_deref(), Some("/var/log/system.log"));
}

#[test]
fn parse_io_write() {
    let ev = parse_io_line("IO W 1718000000000000001 99 512 ?").expect("should parse");
    assert_eq!(ev.kind, IoKind::Write);
    assert!(ev.path.is_none());
}

#[test]
fn parse_sched_on() {
    let ev = parse_sched_line("SCHED ON 1718000000000000002 42 3").expect("should parse");
    assert_eq!(ev.kind, SchedKind::OnCpu);
    assert_eq!(ev.cpu, 3);
}

#[test]
fn parse_sched_off() {
    let ev = parse_sched_line("SCHED OFF 1718000000000000003 42 3").expect("should parse");
    assert_eq!(ev.kind, SchedKind::OffCpu);
}

#[test]
fn parse_garbage_returns_none() {
    assert!(parse_io_line("not an io line").is_none());
    assert!(parse_sched_line("IO R 1 2 3 /foo").is_none());
}

#[test]
fn io_line_fields_and_zero_pid() {
    let ev = parse_io_line("IO R 1718000000000000000 12345 4096 /var/log/system.log").unwrap();
    assert_eq!(ev.timestamp_ns, 1_718_000_000_000_000_000);
    assert_eq!(ev.pid, 0);
}

#[test]
fn io_line_with_bad_number_is_rejected() {
    assert!(parse_io_line("IO R notanumber 1 2 /x").is_none());
    assert!(parse_io_line("IO X 1 2 3 /x").is_none());
}

#[test]
fn dtrace_output_splits_io_and_sched_lines() {
    let lines = vec![
        "IO R 1 2 3 /a".to_string(),
        "SCHED ON 4 5 6".to_string(),
        "garbage".to_string(),
        "IO W 7 8 9 ?".to_string(),
    ];
    let (io, sched) = parse_dtrace_output(&lines);
    assert_eq!(io.len(), 2);
    assert_eq!(sched.len(), 1);
    assert_eq!(io[1].kind, IoKind::Write);
    assert_eq!(sched[0].cpu, 6);
}

#[test]
fn cputype_arm64_detected() {
    assert_eq!(Arch::from_cputype(CPU_TYPE_ARM64, Arch::X86_64), Arch::Arm64);
}

#[test]
fn cputype_x86_64_detected() {
    assert_eq!(Arch::from_cputype(CPU_TYPE_X86_64, Arch::Arm64), Arch::X86_64);
}

#[test]
fn unknown_cputype_falls_back_to_host() {
    assert_eq!(Arch::from_cputype(0, Arch::Arm64), Arch::Arm64);
    assert_eq!(Arch::from_cputype(0, Arch::X86_64), Arch::X86_64);
}

#[test]
fn strip_pac_keeps_low_48_bits() {
    assert_eq!(strip_pac(0xABCD_0000_1234_5678), 0x0000_0000_1234_5678);
    assert_eq!(strip_pac(0x1000), 0x1000);
}

#[test]
fn extract_number_basic() {
    assert_eq!(extract_number_after(r#""timestamp": 1234567"#, "\"timestamp\":"), Some(1234567));
}

#[test]
fn extract_number_missing_key() {
    assert_eq!(extract_number_after(r#""thread": 5"#, "\"timestamp\":"), None);
}

#[test]
fn extract_addrs_from_backtrace() {
    let json = r#""backtrace": [{"addr": "0x1000abcd"}, {"addr": "0x2000ef01"}]"#;
    let addrs = extract_backtrace_addrs(json);
    assert_eq!(addrs, vec![0x1000abcd_u64, 0x2000ef01_u64]);
}

#[test]
fn parse_minimal_json() {
    let json = br#"{"rows": [{"timestamp": 1718000000000, "thread": 42,
        "backtrace": [{"addr": "0xdeadbeef"}]}]}"#;
    let data = parse_xctrace_json(json, 99).unwrap();
    assert_eq!(data.stack_samples.len(), 1);
    assert_eq!(data.stack_samples[0].tid, 42);
    assert_eq!(data.stack_samples[0].frames[0], 0xdeadbeef);
}

#[test]
fn xctrace_json_that_is_not_utf8_is_an_error() {
    match parse_xctrace_json(&[0xff, 0xfe, 0x00], 1) {
        Err(RecordError::XctraceError(m)) => assert_eq!(m, "xctrace JSON not UTF-8: invalid utf-8 sequence of 1 bytes from index 0"),
        other => panic!("unexpected: {other:?}"),
    }
}

#[test]
fn permission_error_is_recognised() {
    let e = RecordError::PermissionDenied { pid: 1, detail: "denied".to_string() };
    assert!(e.is_permission_error());
    assert!(!RecordError::NotRecording.is_permission_error());
}
