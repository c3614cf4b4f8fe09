use vstd::prelude::*;

use crate::instant::{ClockError, Instant, TickError};

verus! {

/// The instant that follows `current` after one tick of `step` units, on
/// unbounded integers: the first tick sets the epoch at zero, every later
/// one adds `step`.
pub open spec fn advanced(current: Option<int>, step: int) -> Option<int> {
    match current {
        None => Some(0),
        Some(i) => Some(i + step),
    }
}

/// The units that a tick adds, where `None` stands for a duration that the
/// clock's units cannot express.
pub open spec fn step_units(step: Option<u32>) -> int {
    match step {
        Some(s) => s as int,
        None => 0,
    }
}

/// Whether a tick from `current` cannot be recorded: the clock runs and
/// either the step cannot be expressed or the sum leaves the range of `u32`.
pub open spec fn tick_overflows(current: Option<int>, step: Option<u32>) -> bool {
    match current {
        None => false,
        Some(i) => step is None || i + step_units(step) > u32::MAX,
    }
}

/// The cell of one clock: `None` until the first tick.
pub struct Storage {
    instant: Option<Instant>,
}

impl View for Storage {
    type V = Option<int>;

    closed spec fn view(&self) -> Option<int> {
        match self.instant {
            Some(i) => Some(i.ticks as int),
            None => None,
        }
    }
}

impl Storage {
    /// A storage with no tick recorded.
    pub fn new() -> (r: Self)
        ensures
            r@ is None,
    {
        Storage { instant: None }
    }

    /// Records one tick of `step` units. The first tick sets the instant to
    /// zero whatever the step. A later tick whose step is `None`, or whose sum
    /// leaves the range of `u32`, changes nothing and returns `Overflow`: the
    /// instant never wraps around.
    pub fn tick(&mut self, step: Option<u32>) -> (r: Result<(), TickError>)
        ensures
            r is Err <==> tick_overflows(old(self)@, step),
            r is Err ==> r == Err::<(), TickError>(TickError::Overflow) && final(self)@ == old(self)@,
            r is Ok ==> final(self)@ == advanced(old(self)@, step_units(step)),
    {
        match self.instant {
            None => {
                self.instant = Some(Instant { ticks: 0 });
                Ok(())
            },
            Some(i) => {
                let sum = match step {
                    Some(s) => i.ticks.checked_add(s),
                    None => None,
                };
                match sum {
                    Some(t) => {
                        self.instant = Some(Instant { ticks: t });
                        Ok(())
                    },
                    None => Err(TickError::Overflow),
                }
            },
        }
    }

    /// The recorded instant, or `NotRunning` before the first tick.
    pub fn get(&self) -> (r: Result<Instant, ClockError>)
        ensures
            match self@ {
                None => r == Err::<Instant, ClockError>(ClockError::NotRunning),
                Some(i) => r is Ok && r->Ok_0.ticks == i,
            },
    {
        match self.instant {
            Some(i) => Ok(i),
            None => Err(ClockError::NotRunning),
        }
    }
}

} // verus!
