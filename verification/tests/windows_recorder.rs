use process_analyzer::windows::elevation::require_elevated;
use process_analyzer::windows::error::ERROR_ALREADY_EXISTS;
use process_analyzer::windows::recorder::{capture_stats, etw_stop_summary, wpr_stop_summary};
use process_analyzer::windows::wpr::instance_name;
use process_analyzer::windows::{
    ActiveCapture, KernelFlags, RecordConfig, RecordError, RecorderStats, SessionStats, StartStep,
    WindowsEtwRecorder,
};

#[test]
fn elevation_check_returns_typed_error_when_not_admin() {
    match require_elevated(false) {
        Ok(()) => panic!("a process without elevation must be refused"),
        Err(RecordError::NotElevated) => {},
        Err(other) => panic!("unexpected error: {}", other.message()),
    }
    assert!(require_elevated(true).is_ok());
}

#[test]
fn default_config_includes_all_required_providers() {
    let cfg = RecordConfig::default();
    assert!(cfg.kernel_flags.contains(KernelFlags::profile()));
    assert!(cfg.kernel_flags.contains(KernelFlags::cswitch()));
    assert!(cfg.kernel_flags.contains(KernelFlags::disk_io()));
    assert!(cfg.kernel_flags.contains(KernelFlags::file_io()));
    assert!(cfg.kernel_flags.contains(KernelFlags::network_tcpip()));
    assert!(cfg.kernel_flags.contains(KernelFlags::image_load()));
}

#[test]
fn kernel_flags_bits_match_etw_enable_flags() {
    assert_eq!(KernelFlags::profile().bits(), 0x0100_0000);
    assert_eq!(KernelFlags::cswitch().bits(), 0x0000_0010);
    assert_eq!(KernelFlags::disk_io().bits(), 0x0000_0100);
    assert_eq!(KernelFlags::file_io().bits(), 0x0200_0000);
    assert_eq!(KernelFlags::network_tcpip().bits(), 0x0001_0000);
    assert_eq!(KernelFlags::image_load().bits(), 0x0000_0004);
}

#[test]
fn default_flags_are_the_union_of_the_recommended_providers() {
    let all = KernelFlags::profile()
        .union(KernelFlags::cswitch())
        .union(KernelFlags::disk_io())
        .union(KernelFlags::disk_file_io())
        .union(KernelFlags::file_io())
        .union(KernelFlags::network_tcpip())
        .union(KernelFlags::image_load())
        .union(KernelFlags::process())
        .union(KernelFlags::thread());
    assert_eq!(all.bits(), KernelFlags::default_set().bits());
    assert!(!KernelFlags::default_set().contains(KernelFlags::file_io_init()));
}

#[test]
fn default_config_values() {
    let cfg = RecordConfig::default();
    assert!(cfg.collect_stacks);
    assert_eq!(cfg.buffer_size_kb, 1024);
    assert_eq!(cfg.max_buffers, 0);
    assert!(cfg.allow_wpr_fallback);
}

#[test]
fn stop_before_start_returns_not_running() {
    let mut r = WindowsEtwRecorder::new();
    assert!(matches!(r.stop(), Err(RecordError::NotRunning)));
}

#[test]
fn stats_before_start_returns_none() {
    let r = WindowsEtwRecorder::new();
    assert!(r.stats().is_none());
}

#[test]
fn double_start_returns_already_running() {
    let mut r = WindowsEtwRecorder::new();
    let cfg = RecordConfig::default();
    match r.begin_start(true) {
        Err(RecordError::NotElevated) => return,
        Err(e) => panic!("unexpected first-start error: {}", e.message()),
        Ok(()) => {},
    }
    assert!(matches!(r.on_etw_start(Ok(()), cfg.allow_wpr_fallback), StartStep::Started));
    let result = r.begin_start(true);
    let _ = r.stop();
    assert!(matches!(result, Err(RecordError::AlreadyRunning)));
}

#[test]
fn start_without_elevation_is_refused() {
    let r = WindowsEtwRecorder::new();
    assert!(matches!(r.begin_start(false), Err(RecordError::NotElevated)));
}

#[test]
fn logger_conflict_falls_back_to_wpr_when_allowed() {
    let mut r = WindowsEtwRecorder::new();
    let step = r.on_etw_start(Err(RecordError::KernelLoggerConflict), true);
    assert!(matches!(step, StartStep::StartWpr));
    assert!(!r.is_active());
    assert!(r.on_wpr_start(Ok(())).is_ok());
    assert_eq!(r.stats(), Some(ActiveCapture::Wpr));
    assert_eq!(r.stop().unwrap(), ActiveCapture::Wpr);
    assert!(!r.is_active());
}

#[test]
fn logger_conflict_fails_without_fallback() {
    let mut r = WindowsEtwRecorder::new();
    let step = r.on_etw_start(Err(RecordError::KernelLoggerConflict), false);
    assert!(matches!(step, StartStep::Failed(RecordError::KernelLoggerConflict)));
    assert!(!r.is_active());
}

#[test]
fn failed_wpr_start_keeps_recorder_idle() {
    let mut r = WindowsEtwRecorder::new();
    let res = r.on_wpr_start(Err(RecordError::WprNotFound));
    assert!(matches!(res, Err(RecordError::WprNotFound)));
    assert!(!r.is_active());
}

#[test]
fn wpr_not_found_returns_typed_error() {
    let _: RecordError = RecordError::WprNotFound;
}

#[test]
fn win32_already_exists_is_logger_conflict() {
    assert!(matches!(RecordError::from_win32(ERROR_ALREADY_EXISTS, String::new()), RecordError::KernelLoggerConflict));
    match RecordError::from_win32(5, "Access is denied.".to_string()) {
        RecordError::EtwSession { code, message } => {
            assert_eq!(code, 5);
            assert_eq!(message, "Access is denied.");
        },
        other => panic!("unexpected: {other:?}"),
    }
}

fn session(lost: u32, rt_lost: u32) -> SessionStats {
    SessionStats {
        buffers_written: 10,
        log_buffers_lost: lost,
        events_lost: 3,
        realtime_buffers_lost: rt_lost,
        number_of_buffers: 8,
        free_buffers: 2,
    }
}

#[test]
fn recorder_stats_from_session_copies_counters() {
    let s = RecorderStats::from_session(&session(1, 2));
    assert_eq!(s.events_written, 0);
    assert_eq!(s.buffers_written, 10);
    assert_eq!(s.buffers_lost, 1);
    assert_eq!(s.events_lost, 3);
    assert_eq!(s.realtime_buffers_lost, 2);
    assert!(s.has_buffer_loss());
    assert!(!RecorderStats::from_session(&session(0, 0)).has_buffer_loss());
}

#[test]
fn live_stats_by_capture_kind() {
    assert!(capture_stats(ActiveCapture::Etw, None).is_none());
    assert_eq!(capture_stats(ActiveCapture::Etw, Some(session(4, 0))).unwrap().buffers_lost, 4);
    let w = capture_stats(ActiveCapture::Wpr, Some(session(4, 0))).unwrap();
    assert_eq!(w.buffers_lost, 0);
    assert_eq!(w.buffers_written, 0);
}

#[test]
fn stop_summaries() {
    let e = etw_stop_summary(&session(1, 0));
    assert!(e.etl_path.is_none());
    assert_eq!(e.stats.buffers_lost, 1);
    let w = wpr_stop_summary("C:\\t\\process-analyzer-1.etl".to_string());
    assert_eq!(w.etl_path.as_deref(), Some("C:\\t\\process-analyzer-1.etl"));
    assert_eq!(w.stats.buffers_written, 0);
}

#[test]
fn wpr_instance_name() {
    assert_eq!(instance_name(), "process-analyzer");
}

use process_analyzer::windows::session::{
    kernel_logger_name_units, session_settings, stop_outcome, PropsBuffer, ERROR_MORE_DATA, LOG_FILE_MODE_REALTIME,
    WNODE_FLAG_TRACED_GUID,
};

#[test]
fn props_buffer_holds_properties_and_name() {
    let mut b = PropsBuffer::new(120);
    assert_eq!(b.total_size(), 120 + 34);
    b.write_logger_name();
    let units = kernel_logger_name_units();
    let expected: Vec<u16> = "NT Kernel Logger\0".encode_utf16().collect();
    assert_eq!(units, expected);
}

#[test]
fn session_settings_follow_config() {
    let cfg = RecordConfig::default();
    let s = session_settings(&cfg);
    assert_eq!(s.buffer_size_kb, Some(1024));
    assert_eq!(s.max_buffers, None);
    assert_eq!(s.enable_flags, 0x0301_0317);
    assert_eq!(s.log_file_mode, LOG_FILE_MODE_REALTIME);
    assert_eq!(s.wnode_flags, WNODE_FLAG_TRACED_GUID);
    let zero = RecordConfig { buffer_size_kb: 0, max_buffers: 64, ..RecordConfig::default() };
    let s = session_settings(&zero);
    assert_eq!(s.buffer_size_kb, None);
    assert_eq!(s.max_buffers, Some(64));
}

#[test]
fn stop_codes() {
    assert!(stop_outcome(0, String::new()).is_ok());
    assert!(stop_outcome(ERROR_MORE_DATA, String::new()).is_ok());
    assert!(matches!(stop_outcome(6, "The handle is invalid.".to_string()), Err(RecordError::EtwSession { code: 6, .. })));
}

use process_analyzer::windows::wpr::{
    etl_file_name, wpr_launch_error, wpr_missing_etl_error, wpr_path_from_where, wpr_start_args, wpr_start_exit_error,
    wpr_stop_args, wpr_stop_exit_error,
};

#[test]
fn wpr_command_lines() {
    assert_eq!(wpr_start_args(), vec!["-start", "GeneralProfile", "-filemode", "-instancename", "process-analyzer"]);
    assert_eq!(wpr_stop_args("C:\\t\\a.etl"), vec!["-stop", "C:\\t\\a.etl", "-instancename", "process-analyzer"]);
    assert_eq!(etl_file_name(1234), "process-analyzer-1234.etl");
}

#[test]
fn wpr_error_messages() {
    match wpr_start_exit_error(Some(2)) {
        RecordError::WprFailed(m) => assert_eq!(m, "wpr.exe -start exited with code 2"),
        other => panic!("unexpected: {other:?}"),
    }
    match wpr_start_exit_error(None) {
        RecordError::WprFailed(m) => assert_eq!(m, "wpr.exe -start exited with code -1"),
        other => panic!("unexpected: {other:?}"),
    }
    match wpr_stop_exit_error(Some(-5), "boom") {
        RecordError::WprFailed(m) => assert_eq!(m, "wpr.exe -stop exited with code -5: boom"),
        other => panic!("unexpected: {other:?}"),
    }
    match wpr_launch_error("not found") {
        RecordError::WprFailed(m) => assert_eq!(m, "could not launch wpr.exe: not found"),
        other => panic!("unexpected: {other:?}"),
    }
    match wpr_missing_etl_error("x.etl") {
        RecordError::WprFailed(m) => assert_eq!(m, "wpr.exe reported success but ETL file not found: x.etl"),
        other => panic!("unexpected: {other:?}"),
    }
}

#[test]
fn wpr_path_from_where_output() {
    assert_eq!(wpr_path_from_where("  C:\\Kits\\wpr.exe \r\nC:\\Other\\wpr.exe\r\n"), Some("C:\\Kits\\wpr.exe".to_string()));
    assert_eq!(wpr_path_from_where(""), None);
    assert_eq!(wpr_path_from_where("\nC:\\x\\wpr.exe"), None);
}

use process_analyzer::windows::stackwalk::{stack_tracing_ids, OPCODE_CSWITCH, OPCODE_SAMPLED_PROFILE};

#[test]
fn stack_tracing_follows_flags() {
    let both = stack_tracing_ids(KernelFlags::default_set());
    assert_eq!(both.len(), 2);
    assert_eq!(both[0].opcode, OPCODE_SAMPLED_PROFILE);
    assert_eq!(both[0].guid.data1, 0xce1d_bfb4);
    assert_eq!(both[1].opcode, OPCODE_CSWITCH);
    assert_eq!(both[1].guid.data4, [0x9d, 0xda, 0x00, 0xc0, 0x4f, 0xd7, 0xba, 0x7c]);
    let only_cswitch = stack_tracing_ids(KernelFlags::cswitch());
    assert_eq!(only_cswitch.len(), 1);
    assert_eq!(only_cswitch[0].opcode, OPCODE_CSWITCH);
    assert!(stack_tracing_ids(KernelFlags::disk_io()).is_empty());
}

#[test]
fn kernel_flags_from_bits() {
    let f = KernelFlags::from_bits_retain(0x0100_0010);
    assert!(f.contains(KernelFlags::profile()));
    assert!(f.contains(KernelFlags::cswitch()));
    assert!(!f.contains(KernelFlags::disk_io()));
    assert_eq!(f.bits(), 0x0100_0010);
}

#[test]
fn capture_error_messages() {
    assert_eq!(RecordError::NotRunning.message(), "No capture session is currently active");
    assert_eq!(
        RecordError::EtwSession { code: 5, message: "Access is denied.".to_string() }.message(),
        "ETW session error (Win32 code 0x00000005): Access is denied."
    );
    assert_eq!(RecordError::WprFailed("x".to_string()).message(), "wpr.exe fallback failed: x");
    assert!(RecordError::NotElevated.message().starts_with("Process Analyzer requires Administrator privileges."));
    assert!(RecordError::KernelLoggerConflict.message().contains("NT Kernel Logger"));
}
