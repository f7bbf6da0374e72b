use vstd::prelude::*;

use super::error::{ImportError, ImportErrorView};
use crate::text::{chars_eq, chars_of};

verus! {

/// A recognised trace file format.
#[derive(Debug, Clone, Copy, PartialEq, Eq, Structural)]
pub enum TraceFormat {
    /// Windows ETW trace log (.etl)
    Etl,
    /// Linux perf recording (perf.data / *.perf.data)
    PerfData,
    /// Process Analyzer native container directory (.patrace, or a directory with the container's index file)
    PatraceDirectory,
}

/// The display text of a format.
pub open spec fn format_label(f: TraceFormat) -> Seq<char> {
    match f {
        TraceFormat::Etl => "ETL (Windows ETW trace)"@,
        TraceFormat::PerfData => "perf.data (Linux perf)"@,
        TraceFormat::PatraceDirectory => "Process Analyzer container (.patrace directory)"@,
    }
}

impl TraceFormat {
    /// The display text of the format.
    pub fn label(&self) -> (s: &'static str)
        ensures
            s@ == format_label(*self),
    {
        match self {
            TraceFormat::Etl => "ETL (Windows ETW trace)",
            TraceFormat::PerfData => "perf.data (Linux perf)",
            TraceFormat::PatraceDirectory => "Process Analyzer container (.patrace directory)",
        }
    }
}

/// `PERFILE2`, the perf.data magic.
pub open spec fn perf_magic_v2() -> Seq<u8> {
    seq![0x50u8, 0x45u8, 0x52u8, 0x46u8, 0x49u8, 0x4cu8, 0x45u8, 0x32u8]
}

/// `PERFILE ` (trailing space), the magic of older perf.
pub open spec fn perf_magic_v1() -> Seq<u8> {
    seq![0x50u8, 0x45u8, 0x52u8, 0x46u8, 0x49u8, 0x4cu8, 0x45u8, 0x20u8]
}

/// Whether `header` starts with either perf magic.
pub open spec fn has_perf_magic(header: Seq<u8>) -> bool {
    header.len() >= 8 && (header.take(8) == perf_magic_v2() || header.take(8) == perf_magic_v1())
}

/// Whether `s` ends with `suffix`.
pub open spec fn ends_with(s: Seq<char>, suffix: Seq<char>) -> bool {
    suffix.len() <= s.len() && s.skip(s.len() - suffix.len()) == suffix
}

/// The format a file has, given its first bytes, its lower-cased extension and its
/// lower-cased file name: magic bytes are authoritative, then the extension, then
/// the perf.data naming convention.
pub open spec fn classify(
    header: Seq<u8>,
    ext: Option<Seq<char>>,
    name: Option<Seq<char>>,
) -> Option<TraceFormat> {
    if has_perf_magic(header) {
        Some(TraceFormat::PerfData)
    } else if ext == Some("etl"@) {
        Some(TraceFormat::Etl)
    } else if ext == Some("patrace"@) {
        Some(TraceFormat::PatraceDirectory)
    } else if name matches Some(n) && (n == "perf.data"@ || ends_with(n, ".perf.data"@)) {
        Some(TraceFormat::PerfData)
    } else {
        None
    }
}

/// What `Path::extension` gives for a path (as text).
pub uninterp spec fn path_extension_spec(path: Seq<char>) -> Option<Seq<char>>;

/// What `Path::file_name` gives for a path (as text).
pub uninterp spec fn path_file_name_spec(path: Seq<char>) -> Option<Seq<char>>;

/// What `str::to_lowercase` gives.
pub uninterp spec fn lowercase_spec(s: Seq<char>) -> Seq<char>;

/// `Path::extension` of a path given as text, as text.
#[verifier::external_body]
fn path_extension(path: &str) -> (r: Option<&str>)
    ensures
        r matches Some(e) ==> path_extension_spec(path@) == Some(e@),
        r is None ==> path_extension_spec(path@) is None,
{
    std::path::Path::new(path).extension().and_then(|e| e.to_str())
}

/// `Path::file_name` of a path given as text, as text.
#[verifier::external_body]
fn path_file_name(path: &str) -> (r: Option<&str>)
    ensures
        r matches Some(n) ==> path_file_name_spec(path@) == Some(n@),
        r is None ==> path_file_name_spec(path@) is None,
{
    std::path::Path::new(path).file_name().and_then(|n| n.to_str())
}

/// `str::to_lowercase`.
#[verifier::external_body]
fn to_lowercase(s: &str) -> (r: String)
    ensures
        r@ == lowercase_spec(s@),
{
    s.to_lowercase()
}

/// The lower-cased text of an optional text.
pub open spec fn lowered(o: Option<Seq<char>>) -> Option<Seq<char>> {
    match o {
        Some(s) => Some(lowercase_spec(s)),
        None => None,
    }
}

fn chars_ends_with(s: &Vec<char>, suffix: &Vec<char>) -> (r: bool)
    ensures
        r == ends_with(s@, suffix@),
{
    if suffix.len() > s.len() {
        return false;
    }
    let start = s.len() - suffix.len();
    let mut i: usize = 0;
    while i < suffix.len()
        invariant
            start + suffix@.len() == s@.len(),
            s@.len() == s.len(),
            suffix@.len() == suffix.len(),
            i <= suffix@.len(),
            forall|j: int| 0 <= j < i ==> s@[start + j] == suffix@[j],
        decreases suffix@.len() - i,
    {
        if s[start + i] != suffix[i] {
            assert(s@.skip(start as int)[i as int] != suffix@[i as int]);
            return false;
        }
        i = i + 1;
    }
    assert(s@.skip(start as int) =~= suffix@);
    true
}

fn starts_with_bytes(header: &[u8], magic: &[u8]) -> (r: bool)
    requires
        magic@.len() == 8,
    ensures
        r == (header@.len() >= 8 && header@.take(8) == magic@),
{
    if header.len() < 8 {
        return false;
    }
    let mut i: usize = 0;
    while i < 8
        invariant
            header@.len() >= 8,
            magic@.len() == 8,
            i <= 8,
            forall|j: int| 0 <= j < i ==> header@[j] == magic@[j],
        decreases 8 - i,
    {
        if header[i] != magic[i] {
            assert(header@.take(8)[i as int] != magic@[i as int]);
            return false;
        }
        i = i + 1;
    }
    assert(header@.take(8) =~= magic@);
    true
}

/// Classify a trace file from its first bytes, its lower-cased extension and its
/// lower-cased file name (see [`classify`]).
pub fn classify_format(header: &[u8], ext: Option<&str>, name: Option<&str>) -> (r: Option<
    TraceFormat,
>)
    ensures
        r == classify(
            header@,
            match ext {
                Some(e) => Some(e@),
                None => None,
            },
            match name {
                Some(n) => Some(n@),
                None => None,
            },
        ),
{
    let v2: [u8; 8] = [0x50, 0x45, 0x52, 0x46, 0x49, 0x4c, 0x45, 0x32];
    let v1: [u8; 8] = [0x50, 0x45, 0x52, 0x46, 0x49, 0x4c, 0x45, 0x20];
    assert(v2@ == perf_magic_v2());
    assert(v1@ == perf_magic_v1());
    if starts_with_bytes(header, v2.as_slice()) || starts_with_bytes(header, v1.as_slice()) {
        return Some(TraceFormat::PerfData);
    }
    if let Some(e) = ext {
        let ev = chars_of(e);
        if chars_eq(&ev, &chars_of("etl")) {
            return Some(TraceFormat::Etl);
        }
        if chars_eq(&ev, &chars_of("patrace")) {
            return Some(TraceFormat::PatraceDirectory);
        }
    }
    if let Some(n) = name {
        let nv = chars_of(n);
        if chars_eq(&nv, &chars_of("perf.data")) || chars_ends_with(&nv, &chars_of(".perf.data")) {
            return Some(TraceFormat::PerfData);
        }
    }
    None
}

/// Identify the format of a trace *file* using magic bytes and/or extension.
///
/// For directory inputs, look for the container's index file before calling this
/// function — `detect_format` is only for file inputs.
pub fn detect_format(path: &str, header_bytes: &[u8]) -> (r: Result<TraceFormat, ImportError>)
    ensures
        match classify(
            header_bytes@,
            lowered(path_extension_spec(path@)),
            lowered(path_file_name_spec(path@)),
        ) {
            Some(f) => r == Ok::<TraceFormat, ImportError>(f),
            None => r matches Err(e) && e@ == (ImportErrorView::UnknownFormat { path: path@ }),
        },
{
    let ext = match path_extension(path) {
        Some(e) => Some(to_lowercase(e)),
        None => None,
    };
    let name = match path_file_name(path) {
        Some(n) => Some(to_lowercase(n)),
        None => None,
    };
    let ext_ref = match &ext {
        Some(e) => Some(e.as_str()),
        None => None,
    };
    let name_ref = match &name {
        Some(n) => Some(n.as_str()),
        None => None,
    };
    match classify_format(header_bytes, ext_ref, name_ref) {
        Some(f) => Ok(f),
        None => Err(ImportError::UnknownFormat { path: String::from_str(path) }),
    }
}

} // verus!
