use process_analyzer::import::detect::{detect_format, TraceFormat};
use process_analyzer::import::etl::{
    decode_etl_record, filetime_to_unix_ns, is_valid_buffer_size, parse_etl_buffer, ETL_EVENT_HEADER_SIZE,
    ETL_EVENT_OPCODE_OFFSET, ETL_PROCESS_ID_OFFSET, ETL_THREAD_ID_OFFSET, ETL_TIMESTAMP_OFFSET,
    FILETIME_TO_UNIX_OFFSET_100NS,
};
use process_analyzer::import::perf::{
    decode_sample, decode_switch, read_u32_le, read_u64_le, PERF_RECORD_MISC_SWITCH_OUT, PERF_SAMPLE_TID,
    PERF_SAMPLE_TIME,
};
use process_analyzer::import::{ImportError, RawEventKind};

#[test]
fn detects_perf_by_magic_v2() {
    assert_eq!(detect_format("x", b"PERFILE2xxx").unwrap(), TraceFormat::PerfData);
}

#[test]
fn detects_perf_by_magic_v1() {
    assert_eq!(detect_format("x", b"PERFILE xxx").unwrap(), TraceFormat::PerfData);
}

#[test]
fn detects_etl_by_extension() {
    assert_eq!(detect_format("trace.etl", &[]).unwrap(), TraceFormat::Etl);
}

#[test]
fn detects_patrace_by_extension() {
    assert_eq!(detect_format("s.patrace", &[]).unwrap(), TraceFormat::PatraceDirectory);
}

#[test]
fn detects_perf_data_by_filename() {
    assert_eq!(detect_format("perf.data", &[]).unwrap(), TraceFormat::PerfData);
}

#[test]
fn detects_perf_data_by_suffix() {
    assert_eq!(detect_format("sess.perf.data", &[]).unwrap(), TraceFormat::PerfData);
}

#[test]
fn unknown_format_lists_supported_types() {
    let err = detect_format("mystery.xyz", &[]).unwrap_err();
    let msg = err.message();
    assert!(msg.contains("mystery.xyz"), "{msg}");
    assert!(msg.contains("ETL"), "{msg}");
}

#[test]
fn extension_is_matched_without_case() {
    assert_eq!(detect_format("TRACE.ETL", &[]).unwrap(), TraceFormat::Etl);
}

#[test]
fn unknown_format_error_carries_path() {
    match detect_format("dir/mystery.xyz", &[]) {
        Err(ImportError::UnknownFormat { path }) => assert_eq!(path, "dir/mystery.xyz"),
        other => panic!("unexpected: {other:?}"),
    }
}

#[test]
fn format_labels() {
    assert_eq!(TraceFormat::Etl.label(), "ETL (Windows ETW trace)");
    assert_eq!(TraceFormat::PerfData.label(), "perf.data (Linux perf)");
}

#[test]
fn filetime_converts_to_unix_ns() {
    let filetime: u64 = 125_911_584_000_000_000;
    let unix_ns = filetime_to_unix_ns(filetime);
    let expected = 946_684_800_000_000_000u64;
    assert!((unix_ns as i64 - expected as i64).abs() <= 1, "got {unix_ns}, expected {expected}");
}

#[test]
fn filetime_before_epoch_saturates_to_zero() {
    let filetime: u64 = FILETIME_TO_UNIX_OFFSET_100NS - 1000;
    assert_eq!(filetime_to_unix_ns(filetime), 0);
}

#[test]
fn filetime_overflow_saturates_to_max() {
    assert_eq!(filetime_to_unix_ns(u64::MAX), u64::MAX);
}

#[test]
fn invalid_buffer_size_detected() {
    assert!(!is_valid_buffer_size(1));
    assert!(is_valid_buffer_size(4096));
}

fn make_etl_record(pid: u32, tid: u32, filetime: u64, opcode: u8) -> Vec<u8> {
    let mut r = vec![0u8; ETL_EVENT_HEADER_SIZE];
    let size = ETL_EVENT_HEADER_SIZE as u16;
    r[0..2].copy_from_slice(&size.to_le_bytes());
    r[ETL_THREAD_ID_OFFSET..ETL_THREAD_ID_OFFSET + 4].copy_from_slice(&tid.to_le_bytes());
    r[ETL_PROCESS_ID_OFFSET..ETL_PROCESS_ID_OFFSET + 4].copy_from_slice(&pid.to_le_bytes());
    r[ETL_TIMESTAMP_OFFSET..ETL_TIMESTAMP_OFFSET + 8].copy_from_slice(&filetime.to_le_bytes());
    r[ETL_EVENT_OPCODE_OFFSET] = opcode;
    r
}

#[test]
fn decode_etl_record_extracts_fields() {
    let filetime: u64 = 125_911_584_000_000_000;
    let record = make_etl_record(999, 1000, filetime, 42);
    let ev = decode_etl_record(&record).unwrap();
    assert_eq!(ev.pid, 999);
    assert_eq!(ev.tid, 1000);
    assert_eq!(ev.timestamp_ns, filetime_to_unix_ns(filetime));
    assert!(matches!(ev.kind, RawEventKind::EtwEvent { opcode: 42, .. }));
}

#[test]
fn too_short_record_returns_none() {
    let short = vec![0u8; ETL_EVENT_HEADER_SIZE - 1];
    assert!(decode_etl_record(&short).is_none());
}

#[test]
fn etl_buffer_with_two_records() {
    let mut buf = vec![0u8; 64];
    buf.extend(make_etl_record(1, 2, FILETIME_TO_UNIX_OFFSET_100NS + 10, 7));
    buf.extend(make_etl_record(3, 4, FILETIME_TO_UNIX_OFFSET_100NS + 20, 8));
    let size = buf.len() as u32;
    buf[0..4].copy_from_slice(&size.to_le_bytes());
    let events = parse_etl_buffer(&buf);
    assert_eq!(events.len(), 2);
    assert_eq!(events[0].pid, 1);
    assert_eq!(events[0].timestamp_ns, 1000);
    assert_eq!(events[1].tid, 4);
    assert_eq!(events[1].timestamp_ns, 2000);
}

#[test]
fn decode_sample_with_tid_and_time() {
    let sample_type = PERF_SAMPLE_TID | PERF_SAMPLE_TIME;
    let mut payload = vec![0u8; 16];
    payload[0..4].copy_from_slice(&42u32.to_le_bytes());
    payload[4..8].copy_from_slice(&43u32.to_le_bytes());
    payload[8..16].copy_from_slice(&7_000_000_000u64.to_le_bytes());
    let ev = decode_sample(&payload, sample_type).unwrap();
    assert_eq!(ev.pid, 42);
    assert_eq!(ev.tid, 43);
    assert_eq!(ev.timestamp_ns, 7_000_000_000);
    assert!(matches!(ev.kind, RawEventKind::PerfSample { ip: 0, .. }));
}

#[test]
fn decode_sample_too_short_returns_none() {
    let payload = vec![0u8; 7];
    assert!(decode_sample(&payload, PERF_SAMPLE_TID | PERF_SAMPLE_TIME).is_none());
}

#[test]
fn decode_switch_out() {
    let misc = PERF_RECORD_MISC_SWITCH_OUT;
    let ev = decode_switch(misc, &[], false).unwrap();
    assert!(matches!(ev.kind, RawEventKind::ContextSwitchOut { .. }));
}

#[test]
fn decode_switch_in() {
    let ev = decode_switch(0, &[], false).unwrap();
    assert!(matches!(ev.kind, RawEventKind::ContextSwitchIn { .. }));
}

#[test]
fn little_endian_reads() {
    let b = [0x78, 0x56, 0x34, 0x12, 0xef, 0xcd, 0xab, 0x90];
    assert_eq!(read_u32_le(&b, 0), Some(0x1234_5678));
    assert_eq!(read_u64_le(&b, 0), Some(0x90ab_cdef_1234_5678));
    assert_eq!(read_u32_le(&b, 5), None);
}

use process_analyzer::import::etl::check_buffer_size;
use process_analyzer::import::perf::{parse_file_header, PerfStream};

fn perf_header(magic: &[u8; 8], header_size: u64) -> Vec<u8> {
    let mut b = vec![0u8; 104];
    b[0..8].copy_from_slice(magic);
    b[8..16].copy_from_slice(&header_size.to_le_bytes());
    b[16..24].copy_from_slice(&136u64.to_le_bytes());
    b[24..32].copy_from_slice(&104u64.to_le_bytes());
    b[32..40].copy_from_slice(&136u64.to_le_bytes());
    b[40..48].copy_from_slice(&240u64.to_le_bytes());
    b[48..56].copy_from_slice(&4096u64.to_le_bytes());
    b
}

#[test]
fn perf_file_header_fields() {
    let h = parse_file_header("p.data", &perf_header(b"PERFILE2", 104)).unwrap();
    assert_eq!(h.attr_size, 136);
    assert_eq!(h.attrs.offset, 104);
    assert_eq!(h.attrs.size, 136);
    assert_eq!(h.data.offset, 240);
    assert_eq!(h.data.size, 4096);
}

#[test]
fn perf_bad_magic_is_invalid_file() {
    let e = parse_file_header("p.data", &perf_header(b"NOTPERF!", 104)).unwrap_err();
    match &e {
        ImportError::InvalidFile { path, format, reason } => {
            assert_eq!(path, "p.data");
            assert_eq!(*format, TraceFormat::PerfData);
            assert_eq!(reason, "unexpected magic bytes \"NOTPERF!\"; expected 'PERFILE2' or 'PERFILE '");
        },
        other => panic!("unexpected: {other:?}"),
    }
    assert_eq!(
        e.message(),
        "'p.data' is detected as perf.data (Linux perf) but failed validation: unexpected magic bytes \"NOTPERF!\"; expected 'PERFILE2' or 'PERFILE '"
    );
}

#[test]
fn perf_short_header_size_is_invalid_file() {
    match parse_file_header("p.data", &perf_header(b"PERFILE2", 64)).unwrap_err() {
        ImportError::InvalidFile { reason, .. } => assert_eq!(reason, "header size 64 < minimum 104"),
        other => panic!("unexpected: {other:?}"),
    }
}

#[test]
fn perf_record_smaller_than_its_header_is_corruption() {
    let s = PerfStream::new(100, 0);
    let hdr = [1, 0, 0, 0, 0, 0, 4, 0];
    let e = s.on_header("p.data", &hdr).unwrap_err();
    match &e {
        ImportError::PartialCorruption { boundary_offset, reason, .. } => {
            assert_eq!(*boundary_offset, 0);
            assert_eq!(reason, "event size 4 < 8 at offset 0");
        },
        other => panic!("unexpected: {other:?}"),
    }
    assert_eq!(e.message(), "'p.data' is corrupt; partial data imported up to byte 0: event size 4 < 8 at offset 0");
    let r = s.read_failed("p.data", "early eof".to_string(), true);
    assert!(matches!(r, ImportError::PartialCorruption { boundary_offset: 8, .. }));
}

#[test]
fn perf_stream_accounts_for_records() {
    let mut s = PerfStream::new(32, 0);
    assert!(s.wants_header());
    let h = s.on_header("p", &[13, 0, 0, 0, 0, 0, 32, 0]).unwrap();
    let mut payload = vec![0u8; 24];
    payload[0..4].copy_from_slice(&5u32.to_le_bytes());
    payload[8..12].copy_from_slice(&6u32.to_le_bytes());
    payload[16..24].copy_from_slice(&9u64.to_le_bytes());
    let ev = s.on_record(h, &payload);
    assert_eq!(s.bytes_read(), 32);
    assert!(!s.wants_header());
    assert!(matches!(ev.map(|e| e.kind), Some(RawEventKind::ProcessExit { .. })));
}

#[test]
fn etl_bad_buffer_size_is_invalid_file() {
    let e = check_buffer_size("t.etl", &[1, 0, 0, 0]).unwrap_err();
    match &e {
        ImportError::InvalidFile { format, reason, .. } => {
            assert_eq!(*format, TraceFormat::Etl);
            assert_eq!(
                reason,
                "first 4 bytes 0x1 are not a valid ETL buffer size (expected one of [4096, 8192, 16384, 32768, 65536])"
            );
        },
        other => panic!("unexpected: {other:?}"),
    }
    assert_eq!(check_buffer_size("t.etl", &[0, 0x10, 0, 0]).unwrap(), 4096);
}

#[test]
fn error_messages_of_other_variants() {
    let io = ImportError::Io { path: "a".to_string(), source: "denied".to_string() };
    assert_eq!(io.message(), "I/O error reading 'a': denied");
    let tc = ImportError::TraceCore { path: "b".to_string(), reason: "bad".to_string() };
    assert_eq!(tc.message(), "trace-core error reading 'b': bad");
    let uf = ImportError::UnknownFormat { path: "c".to_string() };
    assert_eq!(
        uf.message(),
        "unsupported trace format for 'c'; supported: ETL (.etl), Linux perf (perf.data / *.perf.data), Process Analyzer container (.patrace directory)"
    );
}

#[test]
fn etl_record_payload_follows_the_header() {
    let mut record = make_etl_record(1, 2, FILETIME_TO_UNIX_OFFSET_100NS, 9);
    record.extend_from_slice(&[1, 2, 3, 4]);
    let size = record.len() as u16;
    record[0..2].copy_from_slice(&size.to_le_bytes());
    let ev = decode_etl_record(&record).unwrap();
    assert_eq!(&ev.payload[..], &[1, 2, 3, 4]);
}
