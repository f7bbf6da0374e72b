//! Decoding of Linux `perf.data` files produced by `perf record`.
//!
//! Binary format reference: linux/tools/perf/Documentation/perf.data-file-format.txt.
//! All multi-byte fields are little-endian.

use vstd::prelude::*;
use vstd::utf8::*;

use super::contract::{bytes_copy_from_slice, bytes_empty, opt_event, RawEvent, RawEventKind, RawEventKindView, RawEventView};
use super::detect::TraceFormat;
use super::error::{ImportError, ImportErrorView};
use crate::text::{debug_text, debug_text_spec, decimal, u64_to_decimal, utf8_to_str};

verus! {

// ── perf_event_type ──────────────────────────────────────────────────────────
pub const PERF_RECORD_MMAP: u32 = 1;
pub const PERF_RECORD_COMM: u32 = 3;
pub const PERF_RECORD_FORK: u32 = 7;
pub const PERF_RECORD_SAMPLE: u32 = 9;
pub const PERF_RECORD_EXIT: u32 = 13;
pub const PERF_RECORD_SWITCH: u32 = 14;
pub const PERF_RECORD_SWITCH_CPU_WIDE: u32 = 15;

/// Set in `misc` when a SWITCH record means "thread being switched out".
pub const PERF_RECORD_MISC_SWITCH_OUT: u16 = 0x2000;

// ── perf_sample_type bits ────────────────────────────────────────────────────
pub const PERF_SAMPLE_IP: u64 = 0x1;
pub const PERF_SAMPLE_TID: u64 = 0x2;
pub const PERF_SAMPLE_TIME: u64 = 0x4;
pub const PERF_SAMPLE_ADDR: u64 = 0x8;
pub const PERF_SAMPLE_READ: u64 = 0x10;
pub const PERF_SAMPLE_CALLCHAIN: u64 = 0x20;
pub const PERF_SAMPLE_ID: u64 = 0x40;
pub const PERF_SAMPLE_CPU: u64 = 0x80;
pub const PERF_SAMPLE_PERIOD: u64 = 0x100;
pub const PERF_SAMPLE_STREAM_ID: u64 = 0x200;
pub const PERF_SAMPLE_IDENTIFIER: u64 = 0x10000;

/// Byte offset of `sample_type` within `perf_event_attr`.
pub const ATTR_SAMPLE_TYPE_OFFSET: usize = 24;
/// Size of the fixed perf file header.
pub const PERF_FILE_HEADER_MIN_SIZE: usize = 104;

/// The little-endian `u32` at `off`.
#[verifier::opaque]
pub open spec fn le_u32(b: Seq<u8>, off: int) -> u32 {
    (b[off] as int + b[off + 1] as int * 0x100 + b[off + 2] as int * 0x10000 + b[off + 3] as int
        * 0x1000000) as u32
}

/// The little-endian `u16` at `off`.
#[verifier::opaque]
pub open spec fn le_u16(b: Seq<u8>, off: int) -> u16 {
    (b[off] as int + b[off + 1] as int * 0x100) as u16
}

/// The little-endian `u64` at `off`.
#[verifier::opaque]
pub open spec fn le_u64(b: Seq<u8>, off: int) -> u64 {
    (le_u32(b, off) as int + le_u32(b, off + 4) as int * 0x1_0000_0000) as u64
}

/// Read a little-endian `u32` at `off`, if the four bytes are there.
pub fn read_u32_le(buf: &[u8], off: usize) -> (r: Option<u32>)
    ensures
        r == (if off + 4 <= buf@.len() {
            Some(le_u32(buf@, off as int))
        } else {
            None::<u32>
        }),
{
    reveal(le_u32);
    if off > buf.len() || buf.len() - off < 4 {
        return None;
    }
    let v: u32 = buf[off] as u32 + buf[off + 1] as u32 * 0x100 + buf[off + 2] as u32 * 0x10000
        + buf[off + 3] as u32 * 0x1000000;
    Some(v)
}

/// Read a little-endian `u16` at `off`, if the two bytes are there.
pub fn read_u16_le(buf: &[u8], off: usize) -> (r: Option<u16>)
    ensures
        r == (if off + 2 <= buf@.len() {
            Some(le_u16(buf@, off as int))
        } else {
            None::<u16>
        }),
{
    reveal(le_u16);
    if off > buf.len() || buf.len() - off < 2 {
        return None;
    }
    let v: u16 = buf[off] as u16 + buf[off + 1] as u16 * 0x100;
    Some(v)
}

/// Read a little-endian `u64` at `off`, if the eight bytes are there.
pub fn read_u64_le(buf: &[u8], off: usize) -> (r: Option<u64>)
    ensures
        r == (if off + 8 <= buf@.len() {
            Some(le_u64(buf@, off as int))
        } else {
            None::<u64>
        }),
{
    if off > buf.len() || buf.len() - off < 8 {
        return None;
    }
    reveal(le_u64);
    let lo = read_u32_le(buf, off).unwrap();
    let hi = read_u32_le(buf, off + 4).unwrap();
    Some(lo as u64 + hi as u64 * 0x1_0000_0000)
}

/// An event with the given ids and kind, no CPU, and an empty payload.
pub open spec fn plain_event(ts: u64, pid: u32, tid: u32, kind: RawEventKindView) -> RawEventView {
    RawEventView { timestamp_ns: ts, pid, tid, cpu: None, kind, payload: Seq::empty() }
}

/// FORK record: pid(u32) ppid(u32) tid(u32) ptid(u32) time(u64).
pub open spec fn fork_spec(p: Seq<u8>) -> Option<RawEventView> {
    if p.len() < 24 {
        None
    } else {
        Some(
            plain_event(
                le_u64(p, 16),
                le_u32(p, 0),
                le_u32(p, 8),
                RawEventKindView::ProcessCreate { parent_pid: le_u32(p, 4), name: Seq::empty() },
            ),
        )
    }
}

/// EXIT record: pid(u32) ppid(u32) tid(u32) ptid(u32) time(u64).
pub open spec fn exit_spec(p: Seq<u8>) -> Option<RawEventView> {
    if p.len() < 24 {
        None
    } else {
        Some(
            plain_event(
                le_u64(p, 16),
                le_u32(p, 0),
                le_u32(p, 8),
                RawEventKindView::ProcessExit { exit_code: 0 },
            ),
        )
    }
}

/// The length of the prefix of `s` before its first zero byte (all of `s` if none).
pub open spec fn until_nul(s: Seq<u8>) -> nat
    decreases s.len(),
{
    if s.len() == 0 || s[0] == 0 {
        0
    } else {
        1 + until_nul(s.drop_first())
    }
}

/// The command name of a COMM record: the bytes after the ids up to the first NUL,
/// decoded as UTF-8 (empty when they are not valid UTF-8).
pub open spec fn comm_name(p: Seq<u8>) -> Seq<char> {
    let s = p.skip(8);
    let raw = s.take(until_nul(s) as int);
    if valid_utf8(raw) {
        decode_utf8(raw)
    } else {
        Seq::empty()
    }
}

/// COMM record: pid(u32) tid(u32) comm[...] (NUL-terminated).
pub open spec fn comm_spec(p: Seq<u8>) -> Option<RawEventView> {
    if p.len() < 8 {
        None
    } else {
        Some(
            plain_event(
                0,
                le_u32(p, 0),
                le_u32(p, 4),
                RawEventKindView::ProcessCreate { parent_pid: 0, name: comm_name(p) },
            ),
        )
    }
}

/// SWITCH / SWITCH_CPU_WIDE record.
pub open spec fn switch_spec(misc: u16, p: Seq<u8>, cpu_wide: bool) -> Option<RawEventView> {
    let out = misc & PERF_RECORD_MISC_SWITCH_OUT != 0;
    let (a, b) = if cpu_wide && p.len() >= 8 {
        (le_u32(p, 0), le_u32(p, 4))
    } else {
        (0u32, 0u32)
    };
    Some(
        plain_event(
            0,
            0,
            0,
            if out {
                RawEventKindView::ContextSwitchOut { prev_pid: a, prev_tid: b }
            } else {
                RawEventKindView::ContextSwitchIn { next_pid: a, next_tid: b }
            },
        ),
    )
}

/// Whether `bit` is set in `sample_type`.
pub open spec fn has(st: u64, bit: u64) -> bool {
    st & bit != 0
}

/// 8 when `bit` is set (the field is present), else 0.
pub open spec fn w8(st: u64, bit: u64) -> int {
    if has(st, bit) {
        8
    } else {
        0
    }
}

/// Offsets of the fixed SAMPLE fields, which appear in the order of their bit
/// position (IDENTIFIER first).
pub open spec fn off_ip(st: u64) -> int {
    w8(st, PERF_SAMPLE_IDENTIFIER)
}

pub open spec fn off_tid(st: u64) -> int {
    off_ip(st) + w8(st, PERF_SAMPLE_IP)
}

pub open spec fn off_time(st: u64) -> int {
    off_tid(st) + w8(st, PERF_SAMPLE_TID)
}

pub open spec fn off_cpu(st: u64) -> int {
    off_time(st) + w8(st, PERF_SAMPLE_TIME) + w8(st, PERF_SAMPLE_ADDR) + w8(st, PERF_SAMPLE_ID)
        + w8(st, PERF_SAMPLE_STREAM_ID)
}

/// Where the fixed fields end (after PERIOD).
pub open spec fn off_end(st: u64) -> int {
    off_cpu(st) + w8(st, PERF_SAMPLE_CPU) + w8(st, PERF_SAMPLE_PERIOD)
}

/// The call chain of a SAMPLE whose fixed fields end at `fixed`: the count `nr`
/// followed by that many addresses, with `nr` capped by what the payload holds.
pub open spec fn callchain_spec(p: Seq<u8>, fixed: int) -> Seq<u64> {
    let nr = le_u64(p, fixed) as int;
    let avail = (p.len() - fixed - 8) / 8;
    let n = if nr < avail {
        nr
    } else {
        avail
    };
    Seq::new(n as nat, |k: int| le_u64(p, fixed + 8 + 8 * k))
}

/// SAMPLE record decoded under `st`.
///
/// When READ is set, the variable-length read format cannot be skipped, so the
/// sample stops there and the rest of the record becomes the payload.
pub open spec fn sample_spec(p: Seq<u8>, st: u64) -> Option<RawEventView> {
    let fixed = off_end(st);
    if p.len() < fixed {
        None
    } else {
        let ip = if has(st, PERF_SAMPLE_IP) {
            le_u64(p, off_ip(st))
        } else {
            0
        };
        let pid = if has(st, PERF_SAMPLE_TID) {
            le_u32(p, off_tid(st))
        } else {
            0
        };
        let tid = if has(st, PERF_SAMPLE_TID) {
            le_u32(p, off_tid(st) + 4)
        } else {
            0
        };
        let ts = if has(st, PERF_SAMPLE_TIME) {
            le_u64(p, off_time(st))
        } else {
            0
        };
        let cpu = if has(st, PERF_SAMPLE_CPU) {
            Some(le_u32(p, off_cpu(st)) as u16)
        } else {
            None
        };
        if has(st, PERF_SAMPLE_READ) {
            Some(
                RawEventView {
                    timestamp_ns: ts,
                    pid,
                    tid,
                    cpu,
                    kind: RawEventKindView::PerfSample { ip, call_stack: Seq::empty() },
                    payload: p.skip(fixed),
                },
            )
        } else if has(st, PERF_SAMPLE_CALLCHAIN) && p.len() < fixed + 8 {
            None
        } else {
            Some(
                RawEventView {
                    timestamp_ns: ts,
                    pid,
                    tid,
                    cpu,
                    kind: RawEventKindView::PerfSample {
                        ip,
                        call_stack: if has(st, PERF_SAMPLE_CALLCHAIN) {
                            callchain_spec(p, fixed)
                        } else {
                            Seq::empty()
                        },
                    },
                    payload: Seq::empty(),
                },
            )
        }
    }
}

/// A perf record decoded by type; other record types produce nothing.
pub open spec fn event_spec(ev_type: u32, misc: u16, p: Seq<u8>, st: u64) -> Option<RawEventView> {
    if ev_type == PERF_RECORD_FORK {
        fork_spec(p)
    } else if ev_type == PERF_RECORD_EXIT {
        exit_spec(p)
    } else if ev_type == PERF_RECORD_COMM {
        comm_spec(p)
    } else if ev_type == PERF_RECORD_SWITCH || ev_type == PERF_RECORD_SWITCH_CPU_WIDE {
        switch_spec(misc, p, ev_type == PERF_RECORD_SWITCH_CPU_WIDE)
    } else if ev_type == PERF_RECORD_SAMPLE {
        sample_spec(p, st)
    } else {
        None
    }
}

fn event(ts: u64, pid: u32, tid: u32, kind: RawEventKind) -> (e: RawEvent)
    ensures
        e@ == plain_event(ts, pid, tid, kind@),
{
    RawEvent { timestamp_ns: ts, pid, tid, cpu: None, kind, payload: bytes_empty() }
}

/// Decode a FORK record.
pub fn decode_fork(payload: &[u8]) -> (r: Option<RawEvent>)
    ensures
        opt_event(r) == fork_spec(payload@),
{
    if payload.len() < 24 {
        return None;
    }
    let pid = read_u32_le(payload, 0).unwrap();
    let ppid = read_u32_le(payload, 4).unwrap();
    let tid = read_u32_le(payload, 8).unwrap();
    let timestamp_ns = read_u64_le(payload, 16).unwrap();
    let name = String::new();
    Some(event(timestamp_ns, pid, tid, RawEventKind::ProcessCreate { parent_pid: ppid, name }))
}

/// Decode an EXIT record.
pub fn decode_exit(payload: &[u8]) -> (r: Option<RawEvent>)
    ensures
        opt_event(r) == exit_spec(payload@),
{
    if payload.len() < 24 {
        return None;
    }
    let pid = read_u32_le(payload, 0).unwrap();
    let tid = read_u32_le(payload, 8).unwrap();
    let timestamp_ns = read_u64_le(payload, 16).unwrap();
    Some(event(timestamp_ns, pid, tid, RawEventKind::ProcessExit { exit_code: 0 }))
}

proof fn lemma_until_nul(s: Seq<u8>, i: int)
    requires
        0 <= i <= s.len(),
        forall|j: int| 0 <= j < i ==> s[j] != 0,
        i == s.len() || s[i] == 0,
    ensures
        until_nul(s) == i,
    decreases i,
{
    if i > 0 {
        lemma_until_nul(s.drop_first(), i - 1);
    }
}

/// Decode a COMM record.
pub fn decode_comm(payload: &[u8]) -> (r: Option<RawEvent>)
    ensures
        opt_event(r) == comm_spec(payload@),
{
    if payload.len() < 8 {
        return None;
    }
    let pid = read_u32_le(payload, 0).unwrap();
    let tid = read_u32_le(payload, 4).unwrap();
    let mut end: usize = 8;
    while end < payload.len() && payload[end] != 0
        invariant
            8 <= end <= payload@.len(),
            forall|j: int| 8 <= j < end ==> payload@[j] != 0,
        decreases payload@.len() - end,
    {
        end = end + 1;
    }
    let ghost s = payload@.skip(8);
    proof {
        lemma_until_nul(s, end - 8);
    }
    let raw = vstd::slice::slice_subrange(payload, 8, end);
    assert(raw@ == s.take(until_nul(s) as int));
    let name = match utf8_to_str(raw) {
        Some(t) => t.to_owned(),
        None => String::new(),
    };
    Some(event(0, pid, tid, RawEventKind::ProcessCreate { parent_pid: 0, name }))
}

/// Decode a SWITCH (or, with `cpu_wide`, SWITCH_CPU_WIDE) record.
pub fn decode_switch(misc: u16, payload: &[u8], cpu_wide: bool) -> (r: Option<RawEvent>)
    ensures
        opt_event(r) == switch_spec(misc, payload@, cpu_wide),
{
    let switching_out = (misc & PERF_RECORD_MISC_SWITCH_OUT) != 0;
    let (a, b) = if cpu_wide && payload.len() >= 8 {
        (read_u32_le(payload, 0).unwrap(), read_u32_le(payload, 4).unwrap())
    } else {
        (0u32, 0u32)
    };
    let kind = if switching_out {
        RawEventKind::ContextSwitchOut { prev_pid: a, prev_tid: b }
    } else {
        RawEventKind::ContextSwitchIn { next_pid: a, next_tid: b }
    };
    Some(event(0, 0, 0, kind))
}

/// 8 when a field is present, else 0.
fn width(present: bool) -> (r: usize)
    ensures
        r == (if present {
            8usize
        } else {
            0usize
        }),
{
    if present {
        8
    } else {
        0
    }
}

/// The fixed fields of a SAMPLE record: ip, pid, tid, time and cpu.
pub struct SampleFields {
    pub ip: u64,
    pub pid: u32,
    pub tid: u32,
    pub timestamp_ns: u64,
    pub cpu: Option<u16>,
}

/// Where the fixed SAMPLE fields end.
fn fixed_end(st: u64) -> (r: usize)
    ensures
        r == off_end(st),
{
    width(st & PERF_SAMPLE_IDENTIFIER != 0) + width(st & PERF_SAMPLE_IP != 0) + width(
        st & PERF_SAMPLE_TID != 0,
    ) + width(st & PERF_SAMPLE_TIME != 0) + width(st & PERF_SAMPLE_ADDR != 0) + width(
        st & PERF_SAMPLE_ID != 0,
    ) + width(st & PERF_SAMPLE_STREAM_ID != 0) + width(st & PERF_SAMPLE_CPU != 0) + width(
        st & PERF_SAMPLE_PERIOD != 0,
    )
}

/// Read the fixed SAMPLE fields; `None` when the payload is shorter than they are.
fn sample_fields(payload: &[u8], st: u64) -> (r: Option<SampleFields>)
    ensures
        r is None <==> payload@.len() < off_end(st),
        r matches Some(f) ==> {
            &&& f.ip == (if has(st, PERF_SAMPLE_IP) {
                le_u64(payload@, off_ip(st))
            } else {
                0
            })
            &&& f.pid == (if has(st, PERF_SAMPLE_TID) {
                le_u32(payload@, off_tid(st))
            } else {
                0
            })
            &&& f.tid == (if has(st, PERF_SAMPLE_TID) {
                le_u32(payload@, off_tid(st) + 4)
            } else {
                0
            })
            &&& f.timestamp_ns == (if has(st, PERF_SAMPLE_TIME) {
                le_u64(payload@, off_time(st))
            } else {
                0
            })
            &&& f.cpu == (if has(st, PERF_SAMPLE_CPU) {
                Some(le_u32(payload@, off_cpu(st)) as u16)
            } else {
                None
            })
        },
{
    let o_ip = width(st & PERF_SAMPLE_IDENTIFIER != 0);
    let o_tid = o_ip + width(st & PERF_SAMPLE_IP != 0);
    let o_time = o_tid + width(st & PERF_SAMPLE_TID != 0);
    let o_cpu = o_time + width(st & PERF_SAMPLE_TIME != 0) + width(st & PERF_SAMPLE_ADDR != 0)
        + width(st & PERF_SAMPLE_ID != 0) + width(st & PERF_SAMPLE_STREAM_ID != 0);
    let o_end = o_cpu + width(st & PERF_SAMPLE_CPU != 0) + width(st & PERF_SAMPLE_PERIOD != 0);
    assert(o_end == off_end(st));
    if payload.len() < o_end {
        return None;
    }
    let ip = if st & PERF_SAMPLE_IP != 0 {
        read_u64_le(payload, o_ip).unwrap()
    } else {
        0
    };
    let (pid, tid) = if st & PERF_SAMPLE_TID != 0 {
        (read_u32_le(payload, o_tid).unwrap(), read_u32_le(payload, o_tid + 4).unwrap())
    } else {
        (0u32, 0u32)
    };
    let timestamp_ns = if st & PERF_SAMPLE_TIME != 0 {
        read_u64_le(payload, o_time).unwrap()
    } else {
        0
    };
    let cpu = if st & PERF_SAMPLE_CPU != 0 {
        Some(read_u32_le(payload, o_cpu).unwrap() as u16)
    } else {
        None
    };
    Some(SampleFields { ip, pid, tid, timestamp_ns, cpu })
}

/// Read the call chain that starts at `fixed`; `None` when its count is cut off.
fn read_callchain(payload: &[u8], fixed: usize) -> (r: Option<Vec<u64>>)
    requires
        fixed <= payload@.len(),
    ensures
        r is None <==> payload@.len() < fixed + 8,
        r matches Some(v) ==> v@ == callchain_spec(payload@, fixed as int),
{
    let ghost p = payload@;
    if payload.len() - fixed < 8 {
        return None;
    }
    let nr = read_u64_le(payload, fixed).unwrap();
    let off = fixed + 8;
    let avail: usize = (payload.len() - off) / 8;
    let n: usize = if nr < avail as u64 {
        nr as usize
    } else {
        avail
    };
    assert(off + 8 * n <= p.len()) by (nonlinear_arith)
        requires
            n <= avail,
            avail == (p.len() - off) / 8,
            off <= p.len(),
    ;
    let mut stack: Vec<u64> = Vec::new();
    let mut k: usize = 0;
    while k < n
        invariant
            fixed + 8 == off,
            off + 8 * n <= p.len(),
            payload@ == p,
            p.len() == payload.len(),
            k <= n,
            stack@ == Seq::new(k as nat, |j: int| le_u64(p, fixed + 8 + 8 * j)),
        decreases n - k,
    {
        let v = read_u64_le(payload, off + 8 * k).unwrap();
        stack.push(v);
        k = k + 1;
        assert(stack@ =~= Seq::new(k as nat, |j: int| le_u64(p, fixed + 8 + 8 * j)));
    }
    assert(stack@ =~= callchain_spec(p, fixed as int));
    Some(stack)
}

/// Decode a SAMPLE record laid out according to `sample_type`.
pub fn decode_sample(payload: &[u8], sample_type: u64) -> (r: Option<RawEvent>)
    ensures
        opt_event(r) == sample_spec(payload@, sample_type),
{
    let f = match sample_fields(payload, sample_type) {
        Some(f) => f,
        None => return None,
    };
    let off: usize = fixed_end(sample_type);
    if sample_type & PERF_SAMPLE_READ != 0 {
        // The variable-length read format cannot be skipped without read_format.
        let rest = vstd::slice::slice_subrange(payload, off, payload.len());
        return Some(
            RawEvent {
                timestamp_ns: f.timestamp_ns,
                pid: f.pid,
                tid: f.tid,
                cpu: f.cpu,
                kind: RawEventKind::PerfSample { ip: f.ip, call_stack: Vec::new() },
                payload: bytes_copy_from_slice(rest),
            },
        );
    }
    let call_stack = if sample_type & PERF_SAMPLE_CALLCHAIN != 0 {
        match read_callchain(payload, off) {
            Some(v) => v,
            None => return None,
        }
    } else {
        Vec::new()
    };
    Some(
        RawEvent {
            timestamp_ns: f.timestamp_ns,
            pid: f.pid,
            tid: f.tid,
            cpu: f.cpu,
            kind: RawEventKind::PerfSample { ip: f.ip, call_stack },
            payload: bytes_empty(),
        },
    )
}

/// Decode one perf record by type; record types other than FORK, EXIT, COMM,
/// SWITCH, SWITCH_CPU_WIDE and SAMPLE produce nothing.
pub fn decode_event(ev_type: u32, misc: u16, payload: &[u8], sample_type: u64) -> (r: Option<
    RawEvent,
>)
    ensures
        opt_event(r) == event_spec(ev_type, misc, payload@, sample_type),
{
    if ev_type == PERF_RECORD_FORK {
        decode_fork(payload)
    } else if ev_type == PERF_RECORD_EXIT {
        decode_exit(payload)
    } else if ev_type == PERF_RECORD_COMM {
        decode_comm(payload)
    } else if ev_type == PERF_RECORD_SWITCH || ev_type == PERF_RECORD_SWITCH_CPU_WIDE {
        decode_switch(misc, payload, ev_type == PERF_RECORD_SWITCH_CPU_WIDE)
    } else if ev_type == PERF_RECORD_SAMPLE {
        decode_sample(payload, sample_type)
    } else {
        None
    }
}

/// A `{offset, size}` section of the perf file.
#[derive(Debug, Clone, Copy)]
pub struct FileSection {
    pub offset: u64,
    pub size: u64,
}

/// The fields of the perf file header that the import uses.
#[derive(Debug, Clone, Copy)]
pub struct PerfFileHeader {
    pub attr_size: u64,
    pub attrs: FileSection,
    pub data: FileSection,
}

/// The reason text for a header whose magic is neither perf magic.
pub open spec fn bad_magic_reason(magic: Seq<u8>) -> Seq<char> {
    "unexpected magic bytes "@ + debug_text_spec(
        if valid_utf8(magic) {
            decode_utf8(magic)
        } else {
            "<binary>"@
        },
    ) + "; expected 'PERFILE2' or 'PERFILE '"@
}

/// The header parsed from its first 104 bytes, or why the file is not perf.data.
pub open spec fn file_header_spec(path: Seq<char>, b: Seq<u8>) -> Result<
    (u64, u64, u64, u64, u64),
    ImportErrorView,
> {
    let magic = b.take(8);
    let header_size = le_u64(b, 8);
    if magic != super::detect::perf_magic_v2() && magic != super::detect::perf_magic_v1() {
        Err(
            ImportErrorView::InvalidFile {
                path,
                format: TraceFormat::PerfData,
                reason: bad_magic_reason(magic),
            },
        )
    } else if (header_size as usize) < 104 {
        Err(
            ImportErrorView::InvalidFile {
                path,
                format: TraceFormat::PerfData,
                reason: "header size "@ + decimal(header_size as nat) + " < minimum 104"@,
            },
        )
    } else {
        Ok((le_u64(b, 16), le_u64(b, 24), le_u64(b, 32), le_u64(b, 40), le_u64(b, 48)))
    }
}

/// The header as the tuple `file_header_spec` speaks of.
pub open spec fn header_tuple(h: PerfFileHeader) -> (u64, u64, u64, u64, u64) {
    (h.attr_size, h.attrs.offset, h.attrs.size, h.data.offset, h.data.size)
}

fn is_perf_magic(magic: &[u8]) -> (r: bool)
    requires
        magic@.len() == 8,
    ensures
        r == (magic@ == super::detect::perf_magic_v2() || magic@ == super::detect::perf_magic_v1()),
{
    let same_prefix = magic[0] == 0x50 && magic[1] == 0x45 && magic[2] == 0x52 && magic[3] == 0x46
        && magic[4] == 0x49 && magic[5] == 0x4c && magic[6] == 0x45;
    let r = same_prefix && (magic[7] == 0x32 || magic[7] == 0x20);
    if r {
        if magic[7] == 0x32 {
            assert(magic@ =~= super::detect::perf_magic_v2());
        } else {
            assert(magic@ =~= super::detect::perf_magic_v1());
        }
    }
    r
}

/// Parse the 104-byte perf file header.
pub fn parse_file_header(path: &str, buf: &[u8]) -> (r: Result<PerfFileHeader, ImportError>)
    requires
        buf@.len() >= PERF_FILE_HEADER_MIN_SIZE,
    ensures
        match file_header_spec(path@, buf@) {
            Ok(t) => r matches Ok(h) && header_tuple(h) == t,
            Err(e) => r matches Err(x) && x@ == e,
        },
{
    let magic = vstd::slice::slice_subrange(buf, 0, 8);
    assert(magic@ == buf@.take(8));
    if !is_perf_magic(magic) {
        let text = match utf8_to_str(magic) {
            Some(t) => t,
            None => "<binary>",
        };
        let mut reason = String::from_str("unexpected magic bytes ");
        let quoted = debug_text(text);
        reason.append(quoted.as_str());
        reason.append("; expected 'PERFILE2' or 'PERFILE '");
        return Err(
            ImportError::InvalidFile {
                path: String::from_str(path),
                format: TraceFormat::PerfData,
                reason,
            },
        );
    }
    let header_size = read_u64_le(buf, 8).unwrap();
    if (header_size as usize) < PERF_FILE_HEADER_MIN_SIZE {
        let mut reason = String::from_str("header size ");
        let n = u64_to_decimal(header_size);
        reason.append(n.as_str());
        reason.append(" < minimum 104");
        return Err(
            ImportError::InvalidFile {
                path: String::from_str(path),
                format: TraceFormat::PerfData,
                reason,
            },
        );
    }
    let attr_size = read_u64_le(buf, 16).unwrap();
    let attrs = FileSection {
        offset: read_u64_le(buf, 24).unwrap(),
        size: read_u64_le(buf, 32).unwrap(),
    };
    let data = FileSection {
        offset: read_u64_le(buf, 40).unwrap(),
        size: read_u64_le(buf, 48).unwrap(),
    };
    Ok(PerfFileHeader { attr_size, attrs, data })
}

/// How many bytes of the first `perf_event_attr` to read for `sample_type`
/// (`None` when the header has no attribute that holds it).
pub fn attr_read_len(header: &PerfFileHeader) -> (r: Option<usize>)
    ensures
        r == (if header.attrs.size == 0 || header.attr_size < 32 {
            None::<usize>
        } else if header.attr_size < 256 {
            Some(header.attr_size as usize)
        } else {
            Some(256usize)
        }),
{
    if header.attrs.size == 0 || header.attr_size < (ATTR_SAMPLE_TYPE_OFFSET as u64 + 8) {
        return None;
    }
    if header.attr_size < 256 {
        Some(header.attr_size as usize)
    } else {
        Some(256)
    }
}

/// `sample_type` from the bytes of the first `perf_event_attr`.
pub fn sample_type_from_attr(attr_buf: &[u8]) -> (r: Option<u64>)
    ensures
        r == (if attr_buf@.len() < 32 {
            None::<u64>
        } else {
            Some(le_u64(attr_buf@, 24))
        }),
{
    if attr_buf.len() < ATTR_SAMPLE_TYPE_OFFSET + 8 {
        return None;
    }
    read_u64_le(attr_buf, ATTR_SAMPLE_TYPE_OFFSET)
}

/// The 8-byte `perf_event_header` that starts every record.
#[derive(Debug, Clone, Copy)]
pub struct PerfEventHeader {
    pub ev_type: u32,
    pub misc: u16,
    pub size: u16,
}

/// Progress through the data section: each record is a header read followed by
/// a payload read, both done by the caller; this decides what they mean.
#[derive(Debug, Clone, Copy)]
pub struct PerfStream {
    bytes_read: u64,
    data_size: u64,
    sample_type: u64,
}

impl PerfStream {
    pub closed spec fn consumed(&self) -> u64 {
        self.bytes_read
    }

    pub closed spec fn size(&self) -> u64 {
        self.data_size
    }

    pub closed spec fn layout(&self) -> u64 {
        self.sample_type
    }

    /// Start at the beginning of a data section of `data_size` bytes.
    pub fn new(data_size: u64, sample_type: u64) -> (s: Self)
        ensures
            s.consumed() == 0,
            s.size() == data_size,
            s.layout() == sample_type,
    {
        PerfStream { bytes_read: 0, data_size, sample_type }
    }

    /// Bytes of the data section consumed so far.
    pub fn bytes_read(&self) -> (n: u64)
        ensures
            n == self.consumed(),
    {
        self.bytes_read
    }

    /// Whether another record should be read (the section is not exhausted).
    pub fn wants_header(&self) -> (b: bool)
        ensures
            b == (self.consumed() < self.size()),
    {
        self.bytes_read < self.data_size
    }

    /// Interpret the 8 header bytes of the next record: type(u32), misc(u16),
    /// size(u16). A size below 8 is corruption at the current offset.
    pub fn on_header(&self, path: &str, hdr: &[u8]) -> (r: Result<PerfEventHeader, ImportError>)
        requires
            hdr@.len() >= 8,
        ensures
            le_u16(hdr@, 6) < 8 ==> (r matches Err(e) && e@ == (ImportErrorView::PartialCorruption {
                path: path@,
                boundary_offset: self.consumed(),
                reason: "event size "@ + decimal(le_u16(hdr@, 6) as nat) + " < 8 at offset "@
                    + decimal(self.consumed() as nat),
            })),
            le_u16(hdr@, 6) >= 8 ==> r == Ok::<PerfEventHeader, ImportError>(
                PerfEventHeader {
                    ev_type: le_u32(hdr@, 0),
                    misc: le_u16(hdr@, 4),
                    size: le_u16(hdr@, 6),
                },
            ),
    {
        let ev_type = read_u32_le(hdr, 0).unwrap();
        let misc = read_u16_le(hdr, 4).unwrap();
        let size = read_u16_le(hdr, 6).unwrap();
        if size < 8 {
            let mut reason = String::from_str("event size ");
            let a = u64_to_decimal(size as u64);
            reason.append(a.as_str());
            reason.append(" < 8 at offset ");
            let b = u64_to_decimal(self.bytes_read);
            reason.append(b.as_str());
            return Err(
                ImportError::PartialCorruption {
                    path: String::from_str(path),
                    boundary_offset: self.bytes_read,
                    reason,
                },
            );
        }
        Ok(PerfEventHeader { ev_type, misc, size })
    }

    /// The error for a failed read: of the header when `in_payload` is false
    /// (boundary at the current offset), else of the payload (after the header).
    pub fn read_failed(&self, path: &str, reason: String, in_payload: bool) -> (e: ImportError)
        requires
            in_payload ==> self.consumed() + 8 <= u64::MAX,
        ensures
            e@ == (ImportErrorView::PartialCorruption {
                path: path@,
                boundary_offset: if in_payload {
                    (self.consumed() + 8) as u64
                } else {
                    self.consumed()
                },
                reason: reason@,
            }),
    {
        let boundary_offset = if in_payload {
            self.bytes_read + 8
        } else {
            self.bytes_read
        };
        ImportError::PartialCorruption { path: String::from_str(path), boundary_offset, reason }
    }

    /// Account for a whole record (header and payload) and decode it.
    pub fn on_record(&mut self, header: PerfEventHeader, payload: &[u8]) -> (r: Option<RawEvent>)
        requires
            header.size >= 8,
            old(self).consumed() + header.size <= u64::MAX,
        ensures
            final(self).consumed() == old(self).consumed() + header.size,
            final(self).size() == old(self).size(),
            final(self).layout() == old(self).layout(),
            opt_event(r) == event_spec(header.ev_type, header.misc, payload@, old(self).layout()),
    {
        self.bytes_read = self.bytes_read + header.size as u64;
        decode_event(header.ev_type, header.misc, payload, self.sample_type)
    }
}

/// Law: a FORK record's event is the new process: its pid is the little-endian
/// `u32` in payload bytes 0..4, its parent the one in bytes 4..8, its thread
/// the one in bytes 8..12 and its time the little-endian `u64` in bytes 16..24;
/// a payload shorter than 24 bytes gives no event.
pub proof fn law_fork_child_and_parent(p: Seq<u8>)
    ensures
        p.len() < 24 ==> fork_spec(p) is None,
        p.len() >= 24 ==> (fork_spec(p) matches Some(e) && e.pid == p[0] as int + p[1] as int * 0x100
            + p[2] as int * 0x10000 + p[3] as int * 0x1000000 && e.tid == p[8] as int + p[9] as int
            * 0x100 + p[10] as int * 0x10000 + p[11] as int * 0x1000000 && e.timestamp_ns == p[16] as int
            + p[17] as int * 0x100 + p[18] as int * 0x10000 + p[19] as int * 0x1000000 + p[20] as int
            * 0x1_0000_0000 + p[21] as int * 0x100_0000_0000 + p[22] as int * 0x1_0000_0000_0000
            + p[23] as int * 0x100_0000_0000_0000 && (e.kind matches RawEventKindView::ProcessCreate {
            parent_pid,
            ..
        } && parent_pid == p[4] as int + p[5] as int * 0x100 + p[6] as int * 0x10000 + p[7] as int
            * 0x1000000)),
{
    reveal(le_u32);
    reveal(le_u64);
}

} // verus!
