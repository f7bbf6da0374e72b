use vstd::prelude::*;

use super::error::RecordError;
use crate::sql::{i64_to_decimal, signed_decimal};
use crate::text::{chars_of, decimal, trim, trim_spec, u64_to_decimal};

verus! {

/// An active `wpr.exe` file-mode recording: where the ETL file will be written
/// and which `wpr.exe` runs it.
#[derive(Debug, Clone)]
pub struct WprSession {
    pub etl_path: String,
    pub wpr_path: String,
}

/// The instance name given to `wpr.exe`.
pub open spec fn wpr_instance_name() -> Seq<char> {
    "process-analyzer"@
}

/// The instance name given to `wpr.exe`.
pub fn instance_name() -> (s: &'static str)
    ensures
        s@ == wpr_instance_name(),
{
    "process-analyzer"
}

/// The file name of the ETL file a recording by process `pid` writes.
pub fn etl_file_name(pid: u32) -> (s: String)
    ensures
        s@ == "process-analyzer-"@ + decimal(pid as nat) + ".etl"@,
{
    let mut s = String::from_str("process-analyzer-");
    let d = u64_to_decimal(pid as u64);
    s.append(d.as_str());
    s.append(".etl");
    s
}

/// The arguments that start a general-profile kernel capture in file mode.
pub fn wpr_start_args() -> (v: Vec<&'static str>)
    ensures
        v@.len() == 5,
        v@[0]@ == "-start"@,
        v@[1]@ == "GeneralProfile"@,
        v@[2]@ == "-filemode"@,
        v@[3]@ == "-instancename"@,
        v@[4]@ == wpr_instance_name(),
{
    vec!["-start", "GeneralProfile", "-filemode", "-instancename", instance_name()]
}

/// The arguments that stop the capture and write it to `etl_path`.
pub fn wpr_stop_args(etl_path: &str) -> (v: Vec<String>)
    ensures
        v@.len() == 4,
        v@[0]@ == "-stop"@,
        v@[1]@ == etl_path@,
        v@[2]@ == "-instancename"@,
        v@[3]@ == wpr_instance_name(),
{
    let mut v: Vec<String> = Vec::new();
    v.push(String::from_str("-stop"));
    v.push(String::from_str(etl_path));
    v.push(String::from_str("-instancename"));
    v.push(String::from_str(instance_name()));
    v
}

/// The exit code `wpr.exe` reports, `-1` when it ended without one.
pub open spec fn exit_code_text(code: Option<i32>) -> Seq<char> {
    match code {
        Some(c) => signed_decimal(c as int),
        None => "-1"@,
    }
}

fn exit_code_string(code: Option<i32>) -> (s: String)
    ensures
        s@ == exit_code_text(code),
{
    match code {
        Some(c) => i64_to_decimal(c as i64),
        None => String::from_str("-1"),
    }
}

/// The error for a `wpr.exe` that could not be launched.
pub fn wpr_launch_error(detail: &str) -> (e: RecordError)
    ensures
        e matches RecordError::WprFailed(m) && m@ == "could not launch wpr.exe: "@ + detail@,
{
    let mut m = String::from_str("could not launch wpr.exe: ");
    m.append(detail);
    RecordError::WprFailed(m)
}

/// The error for `wpr.exe -start` exiting unsuccessfully with `code`.
pub fn wpr_start_exit_error(code: Option<i32>) -> (e: RecordError)
    ensures
        e matches RecordError::WprFailed(m) && m@ == "wpr.exe -start exited with code "@ + exit_code_text(code),
{
    let mut m = String::from_str("wpr.exe -start exited with code ");
    let c = exit_code_string(code);
    m.append(c.as_str());
    RecordError::WprFailed(m)
}

/// The error for `wpr.exe -stop` exiting unsuccessfully with `code`, quoting
/// what it wrote to standard error.
pub fn wpr_stop_exit_error(code: Option<i32>, stderr: &str) -> (e: RecordError)
    ensures
        e matches RecordError::WprFailed(m) && m@ == "wpr.exe -stop exited with code "@ + exit_code_text(code)
            + ": "@ + stderr@,
{
    let mut m = String::from_str("wpr.exe -stop exited with code ");
    let c = exit_code_string(code);
    m.append(c.as_str());
    m.append(": ");
    m.append(stderr);
    RecordError::WprFailed(m)
}

/// The error for a successful `wpr.exe -stop` whose ETL file is missing.
pub fn wpr_missing_etl_error(etl_path: &str) -> (e: RecordError)
    ensures
        e matches RecordError::WprFailed(m) && m@ == "wpr.exe reported success but ETL file not found: "@ + etl_path@,
{
    let mut m = String::from_str("wpr.exe reported success but ETL file not found: ");
    m.append(etl_path);
    RecordError::WprFailed(m)
}

/// The text before the first line break (all of it without one).
pub open spec fn first_line(s: Seq<char>) -> Seq<char> {
    if exists|i: int| 0 <= i < s.len() && s[i] == '\n' {
        s.take(choose|i: int| 0 <= i < s.len() && s[i] == '\n' && forall|j: int| 0 <= j < i ==> s[j] != '\n')
    } else {
        s
    }
}

/// The path `where wpr.exe` printed: its first line, trimmed; `None` when
/// that is empty.
pub fn wpr_path_from_where(output: &str) -> (r: Option<String>)
    ensures
        trim_spec(first_line(output@)).len() == 0 <==> r is None,
        r matches Some(p) ==> p@ == trim_spec(first_line(output@)),
{
    let v = chars_of(output);
    let mut i: usize = 0;
    while i < v.len() && v[i] != '\n'
        invariant
            v@ == output@,
            0 <= i <= v@.len(),
            forall|j: int| 0 <= j < i ==> v@[j] != '\n',
        decreases v@.len() - i,
    {
        i = i + 1;
    }
    proof {
        if i < v@.len() {
            let k = choose|k: int| 0 <= k < output@.len() && output@[k] == '\n' && forall|j: int| 0 <= j < k ==> output@[j] != '\n';
            if k < i {
                assert(output@[k] != '\n');
            } else if k > i {
                assert(output@[i as int] != '\n');
            }
            assert(first_line(output@) == output@.take(i as int));
        } else {
            assert(output@.take(i as int) =~= output@);
            assert(first_line(output@) == output@);
        }
    }
    let line = output.substring_char(0, i);
    assert(line@ == first_line(output@));
    let t = trim(line);
    if t.unicode_len() == 0 {
        None
    } else {
        Some(String::from_str(t))
    }
}

} // verus!
