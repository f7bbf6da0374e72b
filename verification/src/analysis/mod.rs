//! Performance findings: their severity scale, and the integer decisions the
//! detectors make on query results (thresholds, zoom windows, growth runs,
//! query filters).

pub mod engine;
pub mod finding;
pub mod growth;
pub mod queries;
pub mod stall;

pub use finding::{FindingKind, Severity};
