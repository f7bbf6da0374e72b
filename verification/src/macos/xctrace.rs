//! Parsing of the `xctrace export` JSON time-sample table.
//!
//! The format is regular enough for scan-based extraction:
//! `{"rows": [{"timestamp": 1234567890, "thread": 42, "backtrace": [{"addr": "0x1a2b3c4d"}, ...]}, ...]}`

use vstd::prelude::*;
use vstd::utf8::*;

use super::error::RecordError;
use super::types::{StackSample, TraceData};
use crate::text::{
    chars_of, count_leading, find_chars, find_from, find_spec, parse_hex_u64, parse_u64,
    parse_u64_spec, utf8_error_text, utf8_error_text_spec, utf8_to_str,
};

verus! {

/// `' '`, `'\t'`, `'\n'` and `'\r'`, skipped before a number.
pub open spec fn blank_pred() -> spec_fn(char) -> bool {
    |c: char| c == ' ' || c == '\t' || c == '\n' || c == '\r'
}

/// `' '`, `'\t'` and `'"'`, skipped before an address.
pub open spec fn quote_pred() -> spec_fn(char) -> bool {
    |c: char| c == ' ' || c == '\t' || c == '"'
}

/// ASCII decimal digits.
pub open spec fn digit_pred() -> spec_fn(char) -> bool {
    |c: char| '0' <= c <= '9'
}

/// ASCII hexadecimal digits.
pub open spec fn hex_pred() -> spec_fn(char) -> bool {
    |c: char| ('0' <= c <= '9') || ('a' <= c <= 'f') || ('A' <= c <= 'F')
}

/// The first integer after the first occurrence of `key` in `text`: blanks are
/// skipped, then the run of ASCII digits is read (`None` if empty or too large).
pub open spec fn number_after_spec(text: Seq<char>, key: Seq<char>) -> Option<u64> {
    match find_spec(text, key) {
        None => None,
        Some(p) => {
            let a = p + key.len() + count_leading(text, p + key.len(), blank_pred());
            let d = count_leading(text, a, digit_pred());
            parse_u64_spec(text.subrange(a, a + d), 10)
        },
    }
}

/// `"addr":`, the key of each backtrace entry.
pub open spec fn addr_key() -> Seq<char> {
    seq!['"', 'a', 'd', 'd', 'r', '"', ':']
}

/// The backtrace array: from the first `"backtrace"` up to and including the next `]`
/// (or to the end).
pub open spec fn backtrace_region(text: Seq<char>) -> Option<Seq<char>> {
    match find_spec(text, "\"backtrace\""@) {
        None => None,
        Some(b) => {
            let r = text.subrange(b, text.len() as int);
            let end = match find_spec(r, seq![']']) {
                Some(e) => e + 1,
                None => r.len() as int,
            };
            Some(r.subrange(0, end))
        },
    }
}

/// The address of the entry whose `"addr":` key ends at `vs`: after spaces, tabs
/// and quotes, a `0x`/`0X` prefix and a run of hex digits that fits in 64 bits.
pub open spec fn addr_at(r: Seq<char>, vs: int) -> Option<u64> {
    let a = vs + count_leading(r, vs, quote_pred());
    if a + 2 <= r.len() && r[a] == '0' && (r[a + 1] == 'x' || r[a + 1] == 'X') {
        let d = count_leading(r, a + 2, hex_pred());
        parse_u64_spec(r.subrange(a + 2, a + 2 + d), 16)
    } else {
        None
    }
}

/// The addresses of the entries of a backtrace region from `cursor` on.
pub open spec fn addrs_from(r: Seq<char>, cursor: int) -> Seq<u64>
    decreases r.len() + 1 - cursor,
{
    if cursor < 0 {
        Seq::empty()
    } else {
        match find_from(r, addr_key(), cursor) {
            None => Seq::empty(),
            Some(p) => {
                proof {
                    crate::text::lemma_find_from_bounds(r, addr_key(), cursor);
                }
                (match addr_at(r, p + 7) {
                    Some(x) => seq![x],
                    None => Seq::empty(),
                }) + addrs_from(r, p + 7)
            },
        }
    }
}

/// The raw instruction-pointer addresses of the first backtrace in `text`.
pub open spec fn backtrace_addrs_spec(text: Seq<char>) -> Seq<u64> {
    match backtrace_region(text) {
        None => Seq::empty(),
        Some(r) => addrs_from(r, 0),
    }
}

fn is_skip_char(c: char, quotes: bool) -> (b: bool)
    ensures
        b == (if quotes {
            quote_pred()
        } else {
            blank_pred()
        })(c),
{
    if quotes {
        c == ' ' || c == '\t' || c == '"'
    } else {
        c == ' ' || c == '\t' || c == '\n' || c == '\r'
    }
}

fn is_digit_char(c: char, hex: bool) -> (b: bool)
    ensures
        b == (if hex {
            hex_pred()
        } else {
            digit_pred()
        })(c),
{
    if hex {
        ('0' <= c && c <= '9') || ('a' <= c && c <= 'f') || ('A' <= c && c <= 'F')
    } else {
        '0' <= c && c <= '9'
    }
}

/// Skip the characters from `i` on that satisfy `pred` (given as `is_blank`).
fn skip_while(v: &Vec<char>, i: usize, quotes: bool, Ghost(pred): Ghost<spec_fn(char) -> bool>) -> (j: usize)
    requires
        i <= v@.len(),
        pred == (if quotes {
            quote_pred()
        } else {
            blank_pred()
        }),
    ensures
        j == i + count_leading(v@, i as int, pred),
        j <= v@.len(),
{
    let mut j = i;
    while j < v.len() && is_skip_char(v[j], quotes)
        invariant
            i <= j <= v@.len(),
            pred == (if quotes {
                quote_pred()
            } else {
                blank_pred()
            }),
            count_leading(v@, i as int, pred) == (j - i) + count_leading(v@, j as int, pred),
        decreases v@.len() - j,
    {
        j = j + 1;
    }
    j
}

/// The end of the run of decimal (or, with `hex`, hexadecimal) digits from `i`.
fn digits_end(v: &Vec<char>, i: usize, hex: bool, Ghost(pred): Ghost<spec_fn(char) -> bool>) -> (j: usize)
    requires
        i <= v@.len(),
        pred == (if hex {
            hex_pred()
        } else {
            digit_pred()
        }),
    ensures
        j == i + count_leading(v@, i as int, pred),
        j <= v@.len(),
{
    let mut j = i;
    while j < v.len() && is_digit_char(v[j], hex)
        invariant
            i <= j <= v@.len(),
            pred == (if hex {
                hex_pred()
            } else {
                digit_pred()
            }),
            count_leading(v@, i as int, pred) == (j - i) + count_leading(v@, j as int, pred),
        decreases v@.len() - j,
    {
        j = j + 1;
    }
    j
}

/// Extract the first integer value after `key` in `text`.
pub fn extract_number_after(text: &str, key: &str) -> (r: Option<u64>)
    ensures
        r == number_after_spec(text@, key@),
{
    let v = chars_of(text);
    let k = chars_of(key);
    let p = match find_chars(&v, &k, 0) {
        Some(p) => p,
        None => return None,
    };
    proof {
        crate::text::lemma_find_from_bounds(v@, k@, 0);
    }
    let a = skip_while(&v, p + k.len(), false, Ghost(blank_pred()));
    let d = digits_end(&v, a, false, Ghost(digit_pred()));
    parse_u64(text.substring_char(a, d))
}

/// Extract raw instruction-pointer addresses from the first `"backtrace"` JSON
/// array: the hex strings under its `"addr"` keys, in order.
pub fn extract_backtrace_addrs(text: &str) -> (r: Vec<u64>)
    ensures
        r@ == backtrace_addrs_spec(text@),
{
    let mut addrs: Vec<u64> = Vec::new();
    let v = chars_of(text);
    let bt_key = chars_of("\"backtrace\"");
    let b = match find_chars(&v, &bt_key, 0) {
        Some(b) => b,
        None => return addrs,
    };
    proof {
        crate::text::lemma_find_from_bounds(v@, bt_key@, 0);
    }
    let tail = text.substring_char(b, v.len());
    let tv = chars_of(tail);
    let close = vec![']'];
    assert(close@ == seq![']']);
    proof {
        crate::text::lemma_find_from_bounds(tv@, close@, 0);
    }
    let end = match find_chars(&tv, &close, 0) {
        Some(e) => e + 1,
        None => tv.len(),
    };
    let region = tail.substring_char(0, end);
    let rv = chars_of(region);
    let ghost rs = rv@;
    assert(backtrace_region(text@) == Some(rs));
    let key = vec!['"', 'a', 'd', 'd', 'r', '"', ':'];
    assert(key@ == addr_key());
    let mut cursor: usize = 0;
    loop
        invariant_except_break
            addrs@ + addrs_from(rs, cursor as int) == addrs_from(rs, 0),
        invariant
            rv@ == rs,
            rv@.len() == rv.len(),
            rs == region@,
            key@ == addr_key(),
            cursor <= rs.len(),
        ensures
            addrs@ == addrs_from(rs, 0),
        decreases rs.len() + 1 - cursor,
    {
        let p = match find_chars(&rv, &key, cursor) {
            Some(p) => p,
            None => {
                assert(addrs@ =~= addrs_from(rs, 0));
                break;
            },
        };
        proof {
            crate::text::lemma_find_from_bounds(rs, addr_key(), cursor as int);
            assert(addr_key().len() == 7);
        }
        let ghost before = addrs@;
        let val_start = p + 7;
        let a = skip_while(&rv, val_start, true, Ghost(quote_pred()));
        if a < rv.len() && rv.len() - a >= 2 && rv[a] == '0' && (rv[a + 1] == 'x' || rv[a + 1] == 'X') {
            let d = digits_end(&rv, a + 2, true, Ghost(hex_pred()));
            match parse_hex_u64(region.substring_char(a + 2, d)) {
                Some(x) => {
                    addrs.push(x);
                },
                None => {},
            }
        }
        assert(addrs@ + addrs_from(rs, val_start as int) =~= before + addrs_from(rs, cursor as int));
        cursor = val_start;
    }
    addrs
}

/// `"timestamp":`, the key that starts each row.
pub open spec fn ts_key() -> Seq<char> {
    seq!['"', 't', 'i', 'm', 'e', 's', 't', 'a', 'm', 'p', '"', ':']
}

/// `"thread":`.
pub open spec fn thread_key() -> Seq<char> {
    seq!['"', 't', 'h', 'r', 'e', 'a', 'd', '"', ':']
}

/// The samples of `text` from `cursor` on, as `(timestamp, thread, frames)`: one
/// per `"timestamp":` occurrence that is followed by a timestamp and a thread.
pub open spec fn samples_from(text: Seq<char>, cursor: int) -> Seq<(u64, u64, Seq<u64>)>
    decreases text.len() + 1 - cursor,
{
    if cursor < 0 {
        Seq::empty()
    } else {
        match find_from(text, ts_key(), cursor) {
            None => Seq::empty(),
            Some(p) => {
                proof {
                    crate::text::lemma_find_from_bounds(text, ts_key(), cursor);
                }
                let row = text.subrange(p, text.len() as int);
                (match (number_after_spec(row, ts_key()), number_after_spec(row, thread_key())) {
                    (Some(ts), Some(tid)) => seq![(ts, tid, backtrace_addrs_spec(row))],
                    _ => Seq::empty(),
                }) + samples_from(text, p + 12)
            },
        }
    }
}

/// A sample as `(timestamp, thread, frames)`.
pub open spec fn sample_fields(s: StackSample) -> (u64, u64, Seq<u64>) {
    (s.timestamp_ns, s.tid, s.frames@)
}

/// Best-effort parser for the xctrace JSON time-sample export of process `pid`.
pub fn parse_xctrace_json(json: &[u8], pid: u32) -> (r: Result<TraceData, RecordError>)
    ensures
        !valid_utf8(json@) ==> (r matches Err(RecordError::XctraceError(m)) && m@
            == "xctrace JSON not UTF-8: "@ + utf8_error_text_spec(json@)),
        valid_utf8(json@) ==> (r matches Ok(d) && d.stack_samples@.map_values(
            |s: StackSample| sample_fields(s),
        ) == samples_from(decode_utf8(json@), 0) && (forall|i: int|
            0 <= i < d.stack_samples@.len() ==> (#[trigger] d.stack_samples@[i]).pid == pid)
            && d.io_events@.len() == 0 && d.sched_events@.len() == 0
            && d.memory_snapshots@.len() == 0 && d.dyld_images@.len() == 0),
{
    let text = match utf8_to_str(json) {
        Some(t) => t,
        None => {
            let mut m = String::from_str("xctrace JSON not UTF-8: ");
            let e = utf8_error_text(json);
            m.append(e.as_str());
            return Err(RecordError::XctraceError(m));
        },
    };
    let v = chars_of(text);
    let ghost t = v@;
    let key = vec!['"', 't', 'i', 'm', 'e', 's', 't', 'a', 'm', 'p', '"', ':'];
    assert(key@ == ts_key());
    let mut samples: Vec<StackSample> = Vec::new();
    let mut cursor: usize = 0;
    loop
        invariant_except_break
            samples@.map_values(|s: StackSample| sample_fields(s)) + samples_from(t, cursor as int)
                == samples_from(t, 0),
        invariant
            v@ == t,
            t == text@,
            v@.len() == v.len(),
            key@ == ts_key(),
            cursor <= t.len(),
            forall|i: int| 0 <= i < samples@.len() ==> (#[trigger] samples@[i]).pid == pid,
        ensures
            samples@.map_values(|s: StackSample| sample_fields(s)) == samples_from(t, 0),
        decreases t.len() + 1 - cursor,
    {
        let ghost before = samples@.map_values(|s: StackSample| sample_fields(s));
        let row_start = match find_chars(&v, &key, cursor) {
            Some(p) => p,
            None => {
                assert(before =~= samples_from(t, 0));
                break;
            },
        };
        proof {
            crate::text::lemma_find_from_bounds(t, ts_key(), cursor as int);
            assert(ts_key().len() == 12);
        }
        let row = text.substring_char(row_start, v.len());
        let ts = extract_number_after(row, "\"timestamp\":");
        let tid = extract_number_after(row, "\"thread\":");
        let frames = extract_backtrace_addrs(row);
        proof {
            reveal_strlit("\"timestamp\":");
            reveal_strlit("\"thread\":");
            assert("\"timestamp\":"@ =~= ts_key());
            assert("\"thread\":"@ =~= thread_key());
        }
        match (ts, tid) {
            (Some(ts), Some(tid)) => {
                samples.push(StackSample { timestamp_ns: ts, pid, tid, frames });
            },
            _ => {},
        }
        assert(samples@.map_values(|s: StackSample| sample_fields(s)) + samples_from(
            t,
            row_start + 12,
        ) =~= before + samples_from(t, cursor as int));
        cursor = row_start + 12;
    }
    Ok(
        TraceData {
            stack_samples: samples,
            io_events: Vec::new(),
            sched_events: Vec::new(),
            memory_snapshots: Vec::new(),
            dyld_images: Vec::new(),
        },
    )
}

/// The result of `xctrace export`'s standard output: no data when it printed
/// nothing, else the parsed time samples of process `pid`.
pub fn xctrace_export_result(stdout: &[u8], pid: u32) -> (r: Result<TraceData, RecordError>)
    ensures
        stdout@.len() == 0 ==> (r matches Ok(d) && d.is_empty_spec()),
        stdout@.len() > 0 ==> ({
            let p = parse_xctrace_json_spec(stdout@, pid);
            &&& (r is Ok <==> p is Ok)
            &&& (r matches Err(RecordError::XctraceError(m)) ==> p == Err::<Seq<(u64, u64, Seq<u64>)>, Seq<char>>(m@))
            &&& (r matches Ok(d) ==> p == Ok::<Seq<(u64, u64, Seq<u64>)>, Seq<char>>(
                d.stack_samples@.map_values(|s: StackSample| sample_fields(s)),
            ) && (forall|i: int| 0 <= i < d.stack_samples@.len() ==> (#[trigger] d.stack_samples@[i]).pid == pid)
                && d.io_events@.len() == 0 && d.sched_events@.len() == 0 && d.memory_snapshots@.len() == 0
                && d.dyld_images@.len() == 0)
        }),
{
    if stdout.len() == 0 {
        return Ok(TraceData::default());
    }
    parse_xctrace_json(stdout, pid)
}

/// What `parse_xctrace_json` gives for `json`: the samples' fields, or the
/// error message for text that is not UTF-8.
pub open spec fn parse_xctrace_json_spec(json: Seq<u8>, pid: u32) -> Result<Seq<(u64, u64, Seq<u64>)>, Seq<char>> {
    if valid_utf8(json) {
        Ok(samples_from(decode_utf8(json), 0))
    } else {
        Err("xctrace JSON not UTF-8: "@ + utf8_error_text_spec(json))
    }
}

/// The arguments of `xctrace record` for `pid` over `duration_secs` seconds
/// (at least one), writing to `output`.
pub fn xctrace_record_args(pid: u32, duration_secs: u64, output: &str) -> (v: Vec<String>)
    ensures
        v@.len() == 9,
        v@[0]@ == "record"@,
        v@[1]@ == "--template"@,
        v@[2]@ == "Time Profiler"@,
        v@[3]@ == "--target-pid"@,
        v@[4]@ == crate::text::decimal(pid as nat),
        v@[5]@ == "--time-limit"@,
        v@[6]@ == crate::text::decimal(if duration_secs >= 1 { duration_secs as nat } else { 1 }) + "s"@,
        v@[7]@ == "--output"@,
        v@[8]@ == output@,
{
    let secs: u64 = if duration_secs >= 1 { duration_secs } else { 1 };
    let mut limit = crate::text::u64_to_decimal(secs);
    limit.append("s");
    let mut v: Vec<String> = Vec::new();
    v.push(String::from_str("record"));
    v.push(String::from_str("--template"));
    v.push(String::from_str("Time Profiler"));
    v.push(String::from_str("--target-pid"));
    v.push(crate::text::u64_to_decimal(pid as u64));
    v.push(String::from_str("--time-limit"));
    v.push(limit);
    v.push(String::from_str("--output"));
    v.push(String::from_str(output));
    v
}

/// The arguments of `xctrace export` that print the time-sample table of the
/// recording at `input` as JSON.
pub fn xctrace_export_args(input: &str) -> (v: Vec<String>)
    ensures
        v@.len() == 9,
        v@[0]@ == "export"@,
        v@[1]@ == "--input"@,
        v@[2]@ == input@,
        v@[3]@ == "--xpath"@,
        v@[4]@ == "/trace-toc/run[@number='1']/data/table[@schema='time-sample']"@,
        v@[5]@ == "--format"@,
        v@[6]@ == "json"@,
        v@[7]@ == "--output"@,
        v@[8]@ == "-"@,
{
    let mut v: Vec<String> = Vec::new();
    v.push(String::from_str("export"));
    v.push(String::from_str("--input"));
    v.push(String::from_str(input));
    v.push(String::from_str("--xpath"));
    v.push(String::from_str("/trace-toc/run[@number='1']/data/table[@schema='time-sample']"));
    v.push(String::from_str("--format"));
    v.push(String::from_str("json"));
    v.push(String::from_str("--output"));
    v.push(String::from_str("-"));
    v
}

/// The text `{:?}` gives for an optional exit code: `Some(code)` or `None`.
pub open spec fn exit_status_debug(code: Option<i32>) -> Seq<char> {
    match code {
        Some(c) => "Some("@ + crate::sql::signed_decimal(c as int) + ")"@,
        None => "None"@,
    }
}

/// The error for `xctrace record` exiting unsuccessfully with `code`.
pub fn xctrace_record_exit_error(code: Option<i32>) -> (e: RecordError)
    ensures
        e matches RecordError::XctraceError(m) && m@ == "xctrace record exited "@ + exit_status_debug(code),
{
    let mut m = String::from_str("xctrace record exited ");
    match code {
        Some(c) => {
            m.append("Some(");
            let d = crate::sql::i64_to_decimal(c as i64);
            m.append(d.as_str());
            m.append(")");
        },
        None => {
            m.append("None");
        },
    }
    RecordError::XctraceError(m)
}

} // verus!
