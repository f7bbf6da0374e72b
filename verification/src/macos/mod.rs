//! The macOS capture backend's data model and the parsers for what its helper
//! tools (DTrace, xctrace) print.

pub mod arch;
pub mod dtrace;
pub mod dyld;
pub mod error;
pub mod recorder;
pub mod sampling;
pub mod stackwalk;
pub mod types;
pub mod xctrace;

pub use error::RecordError;
pub use types::{DyldImage, IoEvent, IoKind, MemorySnapshot, SchedEvent, SchedKind, StackSample, TraceData};
