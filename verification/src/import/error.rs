use vstd::prelude::*;

use super::detect::{format_label, TraceFormat};
use crate::text::{decimal, u64_to_decimal};

verus! {

/// Why an import failed. Paths are carried as text.
#[derive(Debug, Clone)]
pub enum ImportError {
    UnknownFormat { path: String },
    InvalidFile { path: String, format: TraceFormat, reason: String },
    /// The source was readable up to `boundary_offset`; events before that offset
    /// were already emitted. This is the terminal error from the event stream.
    PartialCorruption { path: String, boundary_offset: u64, reason: String },
    Io { path: String, source: String },
    TraceCore { path: String, reason: String },
}

/// An `ImportError` with its texts as character sequences.
pub enum ImportErrorView {
    UnknownFormat { path: Seq<char> },
    InvalidFile { path: Seq<char>, format: TraceFormat, reason: Seq<char> },
    PartialCorruption { path: Seq<char>, boundary_offset: u64, reason: Seq<char> },
    Io { path: Seq<char>, source: Seq<char> },
    TraceCore { path: Seq<char>, reason: Seq<char> },
}

impl View for ImportError {
    type V = ImportErrorView;

    open spec fn view(&self) -> ImportErrorView {
        match self {
            ImportError::UnknownFormat { path } => ImportErrorView::UnknownFormat { path: path@ },
            ImportError::InvalidFile { path, format, reason } => ImportErrorView::InvalidFile {
                path: path@,
                format: *format,
                reason: reason@,
            },
            ImportError::PartialCorruption { path, boundary_offset, reason } =>
                ImportErrorView::PartialCorruption {
                path: path@,
                boundary_offset: *boundary_offset,
                reason: reason@,
            },
            ImportError::Io { path, source } => ImportErrorView::Io {
                path: path@,
                source: source@,
            },
            ImportError::TraceCore { path, reason } => ImportErrorView::TraceCore {
                path: path@,
                reason: reason@,
            },
        }
    }
}

/// The human-readable text of an import error.
pub open spec fn import_error_message(e: ImportErrorView) -> Seq<char> {
    match e {
        ImportErrorView::UnknownFormat { path } => "unsupported trace format for '"@ + path
            + "'; supported: ETL (.etl), Linux perf (perf.data / *.perf.data), Process Analyzer container (.patrace directory)"@,
        ImportErrorView::InvalidFile { path, format, reason } => "'"@ + path + "' is detected as "@
            + format_label(format) + " but failed validation: "@ + reason,
        ImportErrorView::PartialCorruption { path, boundary_offset, reason } => "'"@ + path
            + "' is corrupt; partial data imported up to byte "@ + decimal(boundary_offset as nat)
            + ": "@ + reason,
        ImportErrorView::Io { path, source } => "I/O error reading '"@ + path + "': "@ + source,
        ImportErrorView::TraceCore { path, reason } => "trace-core error reading '"@ + path
            + "': "@ + reason,
    }
}

impl ImportError {
    /// The error's message text.
    pub fn message(&self) -> (m: String)
        ensures
            m@ == import_error_message(self@),
    {
        match self {
            ImportError::UnknownFormat { path } => {
                let mut m = String::from_str("unsupported trace format for '");
                m.append(path.as_str());
                m.append(
                    "'; supported: ETL (.etl), Linux perf (perf.data / *.perf.data), Process Analyzer container (.patrace directory)",
                );
                m
            },
            ImportError::InvalidFile { path, format, reason } => {
                let mut m = String::from_str("'");
                m.append(path.as_str());
                m.append("' is detected as ");
                m.append(format.label());
                m.append(" but failed validation: ");
                m.append(reason.as_str());
                m
            },
            ImportError::PartialCorruption { path, boundary_offset, reason } => {
                let mut m = String::from_str("'");
                m.append(path.as_str());
                m.append("' is corrupt; partial data imported up to byte ");
                let n = u64_to_decimal(*boundary_offset);
                m.append(n.as_str());
                m.append(": ");
                m.append(reason.as_str());
                m
            },
            ImportError::Io { path, source } => {
                let mut m = String::from_str("I/O error reading '");
                m.append(path.as_str());
                m.append("': ");
                m.append(source.as_str());
                m
            },
            ImportError::TraceCore { path, reason } => {
                let mut m = String::from_str("trace-core error reading '");
                m.append(path.as_str());
                m.append("': ");
                m.append(reason.as_str());
                m
            },
        }
    }
}

} // verus!
