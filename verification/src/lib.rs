//! Trace capture, import, normalization, analysis and diffing logic for a
//! cross-platform process profiler, with its behaviour stated as contracts.

pub mod normalizer;
pub mod analysis;
pub mod diff;
pub mod import;
pub mod macos;
pub mod sql;
pub mod text;
pub mod trace_event;
pub mod windows;
