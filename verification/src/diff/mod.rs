//! Differences between two traces: processes that appear or disappear, and
//! per-function, per-process I/O and memory changes, ranked by magnitude.

pub mod delta;
pub mod engine;
pub mod key;
pub mod queries;
pub mod rank;

pub use delta::{ChangeKind, DiffSummary, Entity, EntityKind, FunctionDelta, IoDelta, MemoryDelta};
