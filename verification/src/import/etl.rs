//! Decoding of Windows ETW trace logs (.etl).
//!
//! Best-effort binary parsing: each buffer starts with a `WMI_BUFFER_HEADER`
//! and holds `EVENT_HEADER` records from which timestamp, pid, tid, provider
//! GUID and the event descriptor fields are extracted.

use vstd::prelude::*;

use super::contract::{
    bytes_copy_from_slice, opt_event, RawEvent, RawEventKind, RawEventKindView, RawEventView,
};
use super::detect::TraceFormat;
use super::error::{ImportError, ImportErrorView};
use super::perf::{le_u16, le_u32, le_u64, read_u16_le, read_u32_le, read_u64_le};
use crate::text::{numeral, u64_to_hex_prefixed};

verus! {

/// Conservative minimum size of the `WMI_BUFFER_HEADER`.
pub const ETL_BUFFER_HEADER_SIZE: usize = 64;
/// Size of an `EVENT_HEADER` record header.
pub const ETL_EVENT_HEADER_SIZE: usize = 80;
pub const ETL_THREAD_ID_OFFSET: usize = 8;
pub const ETL_PROCESS_ID_OFFSET: usize = 12;
pub const ETL_TIMESTAMP_OFFSET: usize = 16;
pub const ETL_PROVIDER_ID_OFFSET: usize = 24;
pub const ETL_EVENT_ID_OFFSET: usize = 40;
pub const ETL_EVENT_VERSION_OFFSET: usize = 42;
pub const ETL_EVENT_LEVEL_OFFSET: usize = 44;
pub const ETL_EVENT_OPCODE_OFFSET: usize = 45;

/// Unix epoch in Windows FILETIME ticks (100 ns since 1601-01-01).
pub const FILETIME_TO_UNIX_OFFSET_100NS: u64 = 116_444_736_000_000_000;

/// FILETIME to Unix nanoseconds, saturating at 0 before the epoch and at
/// `u64::MAX` on overflow.
pub open spec fn filetime_ns(filetime: u64) -> u64 {
    let ticks = if filetime < FILETIME_TO_UNIX_OFFSET_100NS {
        0
    } else {
        filetime - FILETIME_TO_UNIX_OFFSET_100NS
    };
    if ticks * 100 > u64::MAX {
        u64::MAX
    } else {
        (ticks * 100) as u64
    }
}

/// Windows FILETIME → Unix nanoseconds; saturates rather than panicking on
/// pre-epoch input or overflow.
pub fn filetime_to_unix_ns(filetime: u64) -> (r: u64)
    ensures
        r == filetime_ns(filetime),
{
    let ticks = filetime.saturating_sub(FILETIME_TO_UNIX_OFFSET_100NS);
    match ticks.checked_mul(100) {
        Some(v) => v,
        None => u64::MAX,
    }
}

/// The buffer sizes a real ETL file uses.
pub open spec fn valid_buffer_size(size: u32) -> bool {
    size == 4096 || size == 8192 || size == 16384 || size == 32768 || size == 65536
}

/// Plausible ETL buffer sizes. Any first-buffer `BufferSize` field that isn't
/// one of these is likely a random binary file, not an ETL.
pub fn is_valid_buffer_size(size: u32) -> (b: bool)
    ensures
        b == valid_buffer_size(size),
{
    size == 4096 || size == 8192 || size == 16384 || size == 32768 || size == 65536
}

/// Validate the first 4 bytes of the file (`BufferSize` of the first buffer).
pub fn check_buffer_size(path: &str, first: &[u8]) -> (r: Result<u32, ImportError>)
    requires
        first@.len() >= 4,
    ensures
        valid_buffer_size(le_u32(first@, 0)) ==> r == Ok::<u32, ImportError>(le_u32(first@, 0)),
        !valid_buffer_size(le_u32(first@, 0)) ==> (r matches Err(e) && e@
            == (ImportErrorView::InvalidFile {
            path: path@,
            format: TraceFormat::Etl,
            reason: "first 4 bytes "@ + seq!['0', 'x'] + numeral(le_u32(first@, 0) as nat, 16)
                + " are not a valid ETL buffer size (expected one of [4096, 8192, 16384, 32768, 65536])"@,
        })),
{
    let buffer_size = read_u32_le(first, 0).unwrap();
    if !is_valid_buffer_size(buffer_size) {
        let mut reason = String::from_str("first 4 bytes ");
        let hex = u64_to_hex_prefixed(buffer_size as u64);
        reason.append(hex.as_str());
        let tail = " are not a valid ETL buffer size (expected one of [4096, 8192, 16384, 32768, 65536])";
        reason.append(tail);
        assert(reason@ =~= "first 4 bytes "@ + seq!['0', 'x'] + numeral(buffer_size as nat, 16)
            + tail@);
        return Err(
            ImportError::InvalidFile { path: String::from_str(path), format: TraceFormat::Etl, reason },
        );
    }
    Ok(buffer_size)
}

/// The end of valid event data in a buffer: `SavedOffset` (bytes 4..8), or the
/// whole buffer when it is 0 or beyond the buffer.
pub open spec fn region_end(buf: Seq<u8>, buffer_size: nat) -> nat {
    let saved = le_u32(buf, 4) as nat;
    if saved == 0 || saved > buffer_size {
        buffer_size
    } else {
        saved
    }
}

/// Where the event records of a buffer end.
pub fn event_region_end(buf: &[u8], buffer_size: usize) -> (r: usize)
    requires
        buf@.len() >= 8,
    ensures
        r == region_end(buf@, buffer_size as nat),
{
    let saved = read_u32_le(buf, 4).unwrap() as usize;
    if saved == 0 || saved > buffer_size {
        buffer_size
    } else {
        saved
    }
}

/// The event an `EVENT_HEADER` record decodes to (records shorter than the
/// header decode to nothing).
pub open spec fn etl_record_spec(r: Seq<u8>) -> Option<RawEventView> {
    if r.len() < 80 {
        None
    } else {
        Some(
            RawEventView {
                timestamp_ns: filetime_ns(le_u64(r, 16)),
                pid: le_u32(r, 12),
                tid: le_u32(r, 8),
                cpu: None,
                kind: RawEventKindView::EtwEvent {
                    provider: r.subrange(24, 40),
                    opcode: r[45],
                    version: r[42],
                    event_id: le_u16(r, 40),
                    level: r[44],
                },
                payload: r.skip(80),
            },
        )
    }
}

/// Decode one `EVENT_HEADER` record.
pub fn decode_etl_record(record: &[u8]) -> (r: Option<RawEvent>)
    ensures
        opt_event(r) == etl_record_spec(record@),
{
    if record.len() < ETL_EVENT_HEADER_SIZE {
        return None;
    }
    let tid = read_u32_le(record, ETL_THREAD_ID_OFFSET).unwrap();
    let pid = read_u32_le(record, ETL_PROCESS_ID_OFFSET).unwrap();
    let filetime = read_u64_le(record, ETL_TIMESTAMP_OFFSET).unwrap();
    let timestamp_ns = filetime_to_unix_ns(filetime);
    let mut provider = [0u8; 16];
    let mut i: usize = 0;
    while i < 16
        invariant
            record@.len() >= 80,
            i <= 16,
            forall|j: int| 0 <= j < i ==> provider@[j] == record@[24 + j],
        decreases 16 - i,
    {
        provider.set(i, record[ETL_PROVIDER_ID_OFFSET + i]);
        i = i + 1;
    }
    assert(provider@ =~= record@.subrange(24, 40));
    let event_id = read_u16_le(record, ETL_EVENT_ID_OFFSET).unwrap();
    let version = record[ETL_EVENT_VERSION_OFFSET];
    let level = record[ETL_EVENT_LEVEL_OFFSET];
    let opcode = record[ETL_EVENT_OPCODE_OFFSET];
    let rest = vstd::slice::slice_subrange(record, ETL_EVENT_HEADER_SIZE, record.len());
    let payload = bytes_copy_from_slice(rest);
    Some(
        RawEvent {
            timestamp_ns,
            pid,
            tid,
            cpu: None,
            kind: RawEventKind::EtwEvent { provider, opcode, version, event_id, level },
            payload,
        },
    )
}

/// `n` rounded up to a multiple of 8 (records are 8-byte aligned).
pub open spec fn align8(n: int) -> int {
    (n + 7) / 8 * 8
}

/// The events of a buffer's event region from offset `off` on: records follow
/// one another at 8-byte alignment; a zero size ends the region, and a record
/// shorter than its header or running past the region (corrupt or padded tail)
/// stops it.
pub open spec fn buffer_events_from(data: Seq<u8>, off: int) -> Seq<RawEventView>
    decreases data.len() - off,
{
    if off < 0 || off + 2 > data.len() {
        Seq::empty()
    } else {
        let size = le_u16(data, off) as int;
        if size == 0 || size < 80 || off + size > data.len() {
            Seq::empty()
        } else {
            let head = etl_record_spec(data.subrange(off, off + size))->0;
            let next = align8(off + size);
            if next > data.len() {
                seq![head]
            } else {
                seq![head] + buffer_events_from(data, next)
            }
        }
    }
}

/// Decode all event records of a buffer's event region, in order.
pub fn parse_buffer_events(data: &[u8]) -> (r: Vec<RawEvent>)
    requires
        data@.len() <= usize::MAX - 8,
    ensures
        r@.map_values(|e: RawEvent| e@) == buffer_events_from(data@, 0),
{
    let ghost d = data@;
    let mut out: Vec<RawEvent> = Vec::new();
    let mut off: usize = 0;
    loop
        invariant_except_break
            out@.map_values(|e: RawEvent| e@) + buffer_events_from(d, off as int)
                == buffer_events_from(d, 0),
        invariant
            d == data@,
            d.len() <= usize::MAX - 8,
            off <= d.len() + 8,
        ensures
            out@.map_values(|e: RawEvent| e@) == buffer_events_from(d, 0),
        decreases d.len() + 8 - off,
    {
        if off > data.len() || data.len() - off < 2 {
            assert(buffer_events_from(d, off as int) == Seq::<RawEventView>::empty());
            assert(out@.map_values(|e: RawEvent| e@) =~= buffer_events_from(d, 0));
            break;
        }
        let ev_size = read_u16_le(data, off).unwrap() as usize;
        if ev_size == 0 || ev_size < ETL_EVENT_HEADER_SIZE || data.len() - off < ev_size {
            assert(buffer_events_from(d, off as int) == Seq::<RawEventView>::empty());
            assert(out@.map_values(|e: RawEvent| e@) =~= buffer_events_from(d, 0));
            break;
        }
        let record = vstd::slice::slice_subrange(data, off, off + ev_size);
        let ev = decode_etl_record(record);
        let ghost before = out@.map_values(|e: RawEvent| e@);
        let ghost head = etl_record_spec(d.subrange(off as int, off + ev_size))->0;
        out.push(ev.unwrap());
        assert(out@.map_values(|e: RawEvent| e@) =~= before.push(head));
        let end = off + ev_size;
        let aligned = (end + 7) / 8 * 8;
        if aligned > data.len() {
            assert(buffer_events_from(d, off as int) == seq![head]);
            assert(out@.map_values(|e: RawEvent| e@) =~= buffer_events_from(d, 0));
            break;
        }
        assert(buffer_events_from(d, off as int) == seq![head] + buffer_events_from(
            d,
            aligned as int,
        ));
        assert(before.push(head) + buffer_events_from(d, aligned as int) =~= before + (seq![head]
            + buffer_events_from(d, aligned as int)));
        off = aligned;
    }
    out
}

/// Decode the events of one whole buffer: the records between the buffer header
/// and the end of valid data.
pub fn parse_etl_buffer(buf: &[u8]) -> (r: Vec<RawEvent>)
    requires
        buf@.len() >= 8,
        buf@.len() <= usize::MAX - 8,
        region_end(buf@, buf@.len()) >= ETL_BUFFER_HEADER_SIZE,
    ensures
        r@.map_values(|e: RawEvent| e@) == buffer_events_from(
            buf@.subrange(64, region_end(buf@, buf@.len()) as int),
            0,
        ),
{
    let end = event_region_end(buf, buf.len());
    let events = vstd::slice::slice_subrange(buf, ETL_BUFFER_HEADER_SIZE, end);
    parse_buffer_events(events)
}

/// Law: event records sit at 8-byte boundaries. Given a record of `size`
/// bytes (a valid `EVENT_HEADER` and payload) at `off`, the next record is read
/// at `off + size` rounded up to a multiple of 8, skipping the padding: with a
/// valid record there too, the events from `off` begin with the record at
/// `off` and then the record at that boundary, each with the thread and
/// process ids and the payload stored in its own bytes.
pub proof fn law_etl_records_are_8_byte_aligned(data: Seq<u8>, off: int)
    requires
        0 <= off,
        off + 2 <= data.len(),
        80 <= le_u16(data, off),
        off + le_u16(data, off) <= data.len(),
        (off + le_u16(data, off) + 7) / 8 * 8 + 2 <= data.len(),
        80 <= le_u16(data, (off + le_u16(data, off) + 7) / 8 * 8),
        (off + le_u16(data, off) + 7) / 8 * 8 + le_u16(data, (off + le_u16(data, off) + 7) / 8 * 8) <= data.len(),
    ensures
        ({
            let size = le_u16(data, off) as int;
            let next = (off + size + 7) / 8 * 8;
            let size2 = le_u16(data, next) as int;
            let evs = buffer_events_from(data, off);
            &&& evs.len() >= 2
            &&& evs[0].tid == le_u32(data, off + 8)
            &&& evs[0].pid == le_u32(data, off + 12)
            &&& evs[0].payload == data.subrange(off + 80, off + size)
            &&& evs[1].tid == le_u32(data, next + 8)
            &&& evs[1].pid == le_u32(data, next + 12)
            &&& evs[1].payload == data.subrange(next + 80, next + size2)
        }),
{
    let size = le_u16(data, off) as int;
    let next = (off + size + 7) / 8 * 8;
    let size2 = le_u16(data, next) as int;
    assert(next == align8(off + size));
    assert(next >= off + size);
    let r1 = data.subrange(off, off + size);
    let r2 = data.subrange(next, next + size2);
    assert(buffer_events_from(data, off) == seq![etl_record_spec(r1)->0] + buffer_events_from(data, next));
    let rest = buffer_events_from(data, next);
    assert(rest.len() >= 1 && rest[0] == etl_record_spec(r2)->0);
    reveal(le_u32);
    assert(le_u32(r1, 8) == le_u32(data, off + 8));
    assert(le_u32(r1, 12) == le_u32(data, off + 12));
    assert(le_u32(r2, 8) == le_u32(data, next + 8));
    assert(le_u32(r2, 12) == le_u32(data, next + 12));
    assert(r1.skip(80) =~= data.subrange(off + 80, off + size));
    assert(r2.skip(80) =~= data.subrange(next + 80, next + size2));
}

} // verus!
