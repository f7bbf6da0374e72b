//! Clock correction, stack interning and the normalizer's event contract.

pub mod batch;
pub mod clock;
pub mod intern;
pub mod raw_event;
pub mod recorder;
