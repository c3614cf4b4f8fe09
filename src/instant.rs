use vstd::prelude::*;

verus! {

/// A point in time on one clock: a count of the clock's scaled units
/// since the first tick.
#[derive(Clone, Copy, Debug, PartialEq, Eq, Structural)]
pub struct Instant {
    pub ticks: u32,
}

/// Why a clock could not be read.
#[derive(Clone, Copy, Debug, PartialEq, Eq, Structural)]
pub enum ClockError {
    /// No tick has occurred yet: the clock has not started.
    NotRunning,
}

/// Why a tick could not be recorded. Every variant is fatal to the clock.
#[derive(Clone, Copy, Debug, PartialEq, Eq, Structural)]
pub enum TickError {
    /// The accumulated instant would leave the range of its representation.
    Overflow,
}

} // verus!
