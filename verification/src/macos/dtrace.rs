//! Parsing of the DTrace helper's output: one event per line with a fixed
//! prefix (`IO R`, `IO W`, `SCHED ON`, `SCHED OFF`).

use vstd::prelude::*;

use super::error::RecordError;
use super::types::{IoEvent, IoKind, SchedEvent, SchedKind};
use crate::import::contract::opt_text;
use crate::text::{
    lemma_splitn_word, splitn_from, parse_u32, parse_u32_spec, parse_u64, parse_u64_spec, splitn, splitn_spec, str_eq, trim,
    trim_spec,
};

verus! {

/// The fields of an `IO {R|W} {timestamp_ns} {tid} {bytes} {path}` line:
/// `(timestamp_ns, tid, kind, bytes, path)`, `path` absent when it is `?`.
pub open spec fn io_line_spec(line: Seq<char>) -> Option<(u64, u64, IoKind, u64, Option<Seq<char>>)> {
    let parts = splitn_spec(line, 6, ' ');
    if parts.len() < 5 || parts[0] != "IO"@ {
        None
    } else {
        let kind = if parts[1] == "R"@ {
            Some(IoKind::Read)
        } else if parts[1] == "W"@ {
            Some(IoKind::Write)
        } else {
            None
        };
        let path = if parts.len() < 6 || parts[5] == "?"@ {
            None
        } else {
            Some(parts[5])
        };
        match (kind, parse_u64_spec(parts[2], 10), parse_u64_spec(parts[3], 10), parse_u64_spec(
            parts[4],
            10,
        )) {
            (Some(k), Some(ts), Some(tid), Some(bytes)) => Some((ts, tid, k, bytes, path)),
            _ => None,
        }
    }
}

/// The fields of a `SCHED {ON|OFF} {timestamp_ns} {tid} {cpu}` line:
/// `(timestamp_ns, tid, kind, cpu)`.
pub open spec fn sched_line_spec(line: Seq<char>) -> Option<(u64, u64, SchedKind, u32)> {
    let parts = splitn_spec(line, 5, ' ');
    if parts.len() < 5 || parts[0] != "SCHED"@ {
        None
    } else {
        let kind = if parts[1] == "ON"@ {
            Some(SchedKind::OnCpu)
        } else if parts[1] == "OFF"@ {
            Some(SchedKind::OffCpu)
        } else {
            None
        };
        match (kind, parse_u64_spec(parts[2], 10), parse_u64_spec(parts[3], 10), parse_u32_spec(
            trim_spec(parts[4]),
        )) {
            (Some(k), Some(ts), Some(tid), Some(cpu)) => Some((ts, tid, k, cpu)),
            _ => None,
        }
    }
}

/// An I/O event as the tuple `io_line_spec` gives, with its pid.
pub open spec fn io_fields(e: IoEvent) -> (u64, u64, IoKind, u64, Option<Seq<char>>) {
    (e.timestamp_ns, e.tid, e.kind, e.bytes, opt_text(e.path))
}

/// A scheduling event as the tuple `sched_line_spec` gives.
pub open spec fn sched_fields(e: SchedEvent) -> (u64, u64, SchedKind, u32) {
    (e.timestamp_ns, e.tid, e.kind, e.cpu)
}

/// Parses `IO {R|W} {timestamp_ns} {tid} {bytes} {path}`. The pid is left 0 for
/// the recorder to fill in.
pub fn parse_io_line(line: &str) -> (r: Option<IoEvent>)
    ensures
        match io_line_spec(line@) {
            None => r is None,
            Some(t) => r matches Some(e) && io_fields(e) == t && e.pid == 0,
        },
{
    let parts = splitn(line, 6, ' ');
    let ghost ps = parts@.map_values(|p: &str| p@);
    if parts.len() < 5 {
        return None;
    }
    assert(ps[0] == parts@[0]@);
    if !str_eq(parts[0], "IO") {
        return None;
    }
    let kind = if str_eq(parts[1], "R") {
        IoKind::Read
    } else if str_eq(parts[1], "W") {
        IoKind::Write
    } else {
        return None;
    };
    let timestamp_ns = match parse_u64(parts[2]) {
        Some(v) => v,
        None => return None,
    };
    let tid = match parse_u64(parts[3]) {
        Some(v) => v,
        None => return None,
    };
    let bytes = match parse_u64(parts[4]) {
        Some(v) => v,
        None => return None,
    };
    let path = if parts.len() < 6 || str_eq(parts[5], "?") {
        None
    } else {
        Some(parts[5].to_owned())
    };
    assert(ps[1] == parts@[1]@ && ps[2] == parts@[2]@ && ps[3] == parts@[3]@ && ps[4]
        == parts@[4]@);
    assert(parts@.len() >= 6 ==> ps[5] == parts@[5]@);
    Some(IoEvent { timestamp_ns, pid: 0, tid, kind, bytes, path })
}

/// Parses `SCHED {ON|OFF} {timestamp_ns} {tid} {cpu}`. The pid is left 0 for
/// the recorder to fill in.
pub fn parse_sched_line(line: &str) -> (r: Option<SchedEvent>)
    ensures
        match sched_line_spec(line@) {
            None => r is None,
            Some(t) => r matches Some(e) && sched_fields(e) == t && e.pid == 0,
        },
{
    let parts = splitn(line, 5, ' ');
    let ghost ps = parts@.map_values(|p: &str| p@);
    if parts.len() < 5 {
        return None;
    }
    assert(ps[0] == parts@[0]@ && ps[1] == parts@[1]@ && ps[2] == parts@[2]@ && ps[3]
        == parts@[3]@ && ps[4] == parts@[4]@);
    if !str_eq(parts[0], "SCHED") {
        return None;
    }
    let kind = if str_eq(parts[1], "ON") {
        SchedKind::OnCpu
    } else if str_eq(parts[1], "OFF") {
        SchedKind::OffCpu
    } else {
        return None;
    };
    let timestamp_ns = match parse_u64(parts[2]) {
        Some(v) => v,
        None => return None,
    };
    let tid = match parse_u64(parts[3]) {
        Some(v) => v,
        None => return None,
    };
    let cpu = match parse_u32(trim(parts[4])) {
        Some(v) => v,
        None => return None,
    };
    Some(SchedEvent { timestamp_ns, pid: 0, tid, kind, cpu })
}

/// How one output line is classified: empty lines are skipped, then a line is
/// an I/O event, else a scheduling event, else unrecognised (and skipped).
pub enum LineClass {
    Io((u64, u64, IoKind, u64, Option<Seq<char>>)),
    Sched((u64, u64, SchedKind, u32)),
    Skip,
}

pub open spec fn classify_line(line: Seq<char>) -> LineClass {
    let t = trim_spec(line);
    if t.len() == 0 {
        LineClass::Skip
    } else {
        match io_line_spec(t) {
            Some(x) => LineClass::Io(x),
            None => match sched_line_spec(t) {
                Some(y) => LineClass::Sched(y),
                None => LineClass::Skip,
            },
        }
    }
}

/// The I/O events of a sequence of lines, in order.
pub open spec fn io_events_of(lines: Seq<Seq<char>>) -> Seq<(u64, u64, IoKind, u64, Option<Seq<char>>)>
    decreases lines.len(),
{
    if lines.len() == 0 {
        Seq::empty()
    } else {
        io_events_of(lines.drop_last()) + match classify_line(lines.last()) {
            LineClass::Io(x) => seq![x],
            _ => Seq::empty(),
        }
    }
}

/// The scheduling events of a sequence of lines, in order.
pub open spec fn sched_events_of(lines: Seq<Seq<char>>) -> Seq<(u64, u64, SchedKind, u32)>
    decreases lines.len(),
{
    if lines.len() == 0 {
        Seq::empty()
    } else {
        sched_events_of(lines.drop_last()) + match classify_line(lines.last()) {
            LineClass::Sched(y) => seq![y],
            _ => Seq::empty(),
        }
    }
}

/// Parse the helper's output lines into I/O and scheduling events.
pub fn parse_dtrace_output(lines: &Vec<String>) -> (r: (Vec<IoEvent>, Vec<SchedEvent>))
    ensures
        r.0@.map_values(|e: IoEvent| io_fields(e)) == io_events_of(
            lines@.map_values(|l: String| l@),
        ),
        r.1@.map_values(|e: SchedEvent| sched_fields(e)) == sched_events_of(
            lines@.map_values(|l: String| l@),
        ),
        forall|i: int| 0 <= i < r.0@.len() ==> (#[trigger] r.0@[i]).pid == 0,
        forall|i: int| 0 <= i < r.1@.len() ==> (#[trigger] r.1@[i]).pid == 0,
{
    let ghost ls = lines@.map_values(|l: String| l@);
    let mut io_events: Vec<IoEvent> = Vec::new();
    let mut sched_events: Vec<SchedEvent> = Vec::new();
    let mut i: usize = 0;
    while i < lines.len()
        invariant
            ls == lines@.map_values(|l: String| l@),
            i <= lines@.len(),
            io_events@.map_values(|e: IoEvent| io_fields(e)) == io_events_of(ls.take(i as int)),
            sched_events@.map_values(|e: SchedEvent| sched_fields(e)) == sched_events_of(
                ls.take(i as int),
            ),
            forall|k: int| 0 <= k < io_events@.len() ==> (#[trigger] io_events@[k]).pid == 0,
            forall|k: int| 0 <= k < sched_events@.len() ==> (#[trigger] sched_events@[k]).pid == 0,
        decreases lines@.len() - i,
    {
        let ghost io_before = io_events@.map_values(|e: IoEvent| io_fields(e));
        let ghost sched_before = sched_events@.map_values(|e: SchedEvent| sched_fields(e));
        assert(ls.take(i + 1).drop_last() =~= ls.take(i as int));
        assert(ls.take(i + 1).last() == lines@[i as int]@);
        let line = trim(lines[i].as_str());
        if !line.is_empty() {
            match parse_io_line(line) {
                Some(ev) => {
                    io_events.push(ev);
                    assert(io_events@.map_values(|e: IoEvent| io_fields(e)) =~= io_before.push(
                        io_fields(ev),
                    ));
                },
                None => match parse_sched_line(line) {
                    Some(ev) => {
                        sched_events.push(ev);
                        assert(sched_events@.map_values(|e: SchedEvent| sched_fields(e))
                            =~= sched_before.push(sched_fields(ev)));
                    },
                    None => {},
                },
            }
        }
        i = i + 1;
    }
    assert(ls.take(lines@.len() as int) =~= ls);
    (io_events, sched_events)
}

/// The built-in DTrace script: `IO R|W` lines for block I/O and `SCHED
/// ON|OFF` lines for scheduling of the process `$target`.
pub const DEFAULT_SCRIPT: &'static str = r#"
#pragma D option quiet
#pragma D option switchrate=100hz

io:::start
/pid == $target/
{
    printf("IO %c %u %u %u %s\n",
        (args[0]->b_flags & 0x0001) ? 'R' : 'W',
        walltimestamp,
        tid,
        args[0]->b_bcount,
        (args[2]->fi_pathname != NULL) ? args[2]->fi_pathname : "?");
}

sched:::on-cpu
/pid == $target/
{
    printf("SCHED ON %u %u %u\n", walltimestamp, tid, cpu);
}

sched:::off-cpu
/pid == $target/
{
    printf("SCHED OFF %u %u %u\n", walltimestamp, tid, cpu);
}
"#;

/// The arguments of `dtrace`: quiet, attached to `pid`, running `custom_script`
/// or else the built-in script.
pub fn dtrace_args(pid: u32, custom_script: Option<&str>) -> (v: Vec<String>)
    ensures
        v@.len() == 5,
        v@[0]@ == "-q"@,
        v@[1]@ == "-p"@,
        v@[2]@ == crate::text::decimal(pid as nat),
        v@[3]@ == "-n"@,
        v@[4]@ == match custom_script {
            Some(s) => s@,
            None => DEFAULT_SCRIPT@,
        },
{
    let script = match custom_script {
        Some(s) => s,
        None => DEFAULT_SCRIPT,
    };
    let mut v: Vec<String> = Vec::new();
    v.push(String::from_str("-q"));
    v.push(String::from_str("-p"));
    v.push(crate::text::u64_to_decimal(pid as u64));
    v.push(String::from_str("-n"));
    v.push(String::from_str(script));
    v
}

/// The error for a `dtrace` that could not be started: a missing binary gets
/// advice, anything else its own message.
pub fn dtrace_spawn_error(binary_missing: bool, detail: String) -> (e: RecordError)
    ensures
        binary_missing ==> (e matches RecordError::DTraceUnavailable(m) && m@ == "dtrace binary not found; install Xcode Command Line Tools or disable SIP's DTrace restriction"@),
        !binary_missing ==> (e matches RecordError::DTraceUnavailable(m) && m@ == detail@),
{
    if binary_missing {
        RecordError::DTraceUnavailable(
            String::from_str("dtrace binary not found; install Xcode Command Line Tools or disable SIP's DTrace restriction"),
        )
    } else {
        RecordError::DTraceUnavailable(detail)
    }
}

/// Law: in a line `IO {c} {t} {tid} {n} {path}` whose first four fields hold
/// no space, the path is the whole rest of the line, spaces included (`?`
/// meaning none); the line parses exactly when `c` is `R` or `W` and the
/// three numbers parse, and then the fields are those numbers.
pub proof fn law_io_path_is_line_remainder(c: char, t: Seq<char>, tid: Seq<char>, n: Seq<char>, path: Seq<char>)
    requires
        c != ' ',
        !t.contains(' '),
        !tid.contains(' '),
        !n.contains(' '),
    ensures
        ({
            let line = seq!['I', 'O', ' ', c, ' '] + t + seq![' '] + tid + seq![' '] + n + seq![' '] + path;
            &&& io_line_spec(line) is Some <==> ((c == 'R' || c == 'W') && parse_u64_spec(t, 10) is Some
                && parse_u64_spec(tid, 10) is Some && parse_u64_spec(n, 10) is Some)
            &&& io_line_spec(line) matches Some(x) ==> x.0 == parse_u64_spec(t, 10)->0 && x.1
                == parse_u64_spec(tid, 10)->0 && x.2 == (if c == 'R' {
                IoKind::Read
            } else {
                IoKind::Write
            }) && x.3 == parse_u64_spec(n, 10)->0 && x.4 == (if path == "?"@ {
                None
            } else {
                Some(path)
            })
        }),
{
    let line = seq!['I', 'O', ' ', c, ' '] + t + seq![' '] + tid + seq![' '] + n + seq![' '] + path;
    let k2: int = 5 + t.len() as int;
    let k3: int = k2 + 1 + tid.len();
    let k4: int = k3 + 1 + n.len();
    assert(line.len() == k4 + 1 + path.len());
    assert(line[2] == ' ' && line[4] == ' ' && line[k2] == ' ' && line[k3] == ' ' && line[k4] == ' ');
    assert(line[0] == 'I' && line[1] == 'O' && line[3] == c);
    assert forall|i: int| 5 <= i < k2 implies line[i] != ' ' by {
        assert(line[i] == t[i - 5]);
        if line[i] == ' ' {
            assert(t.contains(' '));
        }
    }
    assert forall|i: int| k2 + 1 <= i < k3 implies line[i] != ' ' by {
        assert(line[i] == tid[i - k2 - 1]);
        if line[i] == ' ' {
            assert(tid.contains(' '));
        }
    }
    assert forall|i: int| k3 + 1 <= i < k4 implies line[i] != ' ' by {
        assert(line[i] == n[i - k3 - 1]);
        if line[i] == ' ' {
            assert(n.contains(' '));
        }
    }
    lemma_splitn_word(line, 0, 2, 6, ' ');
    lemma_splitn_word(line, 3, 4, 5, ' ');
    lemma_splitn_word(line, 5, k2, 4, ' ');
    lemma_splitn_word(line, k2 + 1, k3, 3, ' ');
    lemma_splitn_word(line, k3 + 1, k4, 2, ' ');
    let parts = splitn_spec(line, 6, ' ');
    assert(parts =~= seq![
        line.subrange(0, 2),
        line.subrange(3, 4),
        line.subrange(5, k2),
        line.subrange(k2 + 1, k3),
        line.subrange(k3 + 1, k4),
        line.subrange(k4 + 1, line.len() as int),
    ]);
    assert(line.subrange(0, 2) =~= seq!['I', 'O']);
    assert(line.subrange(3, 4) =~= seq![c]);
    assert(line.subrange(5, k2) =~= t);
    assert(line.subrange(k2 + 1, k3) =~= tid);
    assert(line.subrange(k3 + 1, k4) =~= n);
    assert(line.subrange(k4 + 1, line.len() as int) =~= path);
    reveal_strlit("IO");
    reveal_strlit("R");
    reveal_strlit("W");
    assert("IO"@ =~= seq!['I', 'O']);
    assert("R"@ =~= seq!['R']);
    assert("W"@ =~= seq!['W']);
    assert(seq![c] == "R"@ <==> c == 'R') by {
        if seq![c] == "R"@ {
            assert(seq![c][0] == "R"@[0]);
        }
    }
    assert(seq![c] == "W"@ <==> c == 'W') by {
        if seq![c] == "W"@ {
            assert(seq![c][0] == "W"@[0]);
        }
    }
}

} // verus!
