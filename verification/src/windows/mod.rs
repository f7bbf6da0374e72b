//! The Windows ETW capture backend's configuration, statistics and session
//! state machine.

pub mod elevation;
pub mod error;
pub mod recorder;
pub mod session;
pub mod stackwalk;
pub mod wpr;

pub use error::RecordError;
pub use recorder::{
    ActiveCapture, KernelFlags, RecordConfig, RecordSummary, RecorderStats, SessionStats, StartStep,
    WindowsEtwRecorder,
};
