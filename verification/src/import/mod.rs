//! Importing recorded traces: format detection and the perf.data, ETL and
//! container decoders, producing events of the import contract.

pub mod contract;
pub mod detect;
pub mod error;
pub mod etl;
pub mod patrace;
pub mod perf;

pub use contract::{RawEvent, RawEventKind};
pub use detect::{detect_format, TraceFormat};
pub use error::ImportError;
