//! A monotonic clock driven by periodic timer interrupts: every tick adds a
//! fixed step, counted in units of the clock's scaling factor, to an instant
//! that application code reads.

pub mod clock;
pub mod instant;
pub mod laws;
pub mod period;
pub mod storage;
pub mod ticker;
