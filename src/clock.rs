use vstd::prelude::*;

use crate::instant::{ClockError, Instant};
use crate::period::{tick_units, units_per_tick, ScalingFactor, TickPeriod};
use crate::storage::Storage;
use crate::ticker::Ticker;

verus! {

/// The tick resolutions that come pre-configured.
#[derive(Clone, Copy, Debug, PartialEq, Eq, Structural)]
pub enum Resolution {
    Milliseconds1,
    Milliseconds2,
    Milliseconds5,
    Milliseconds10,
    Milliseconds25,
    Milliseconds50,
    Milliseconds100,
    Milliseconds200,
    Milliseconds250,
    Milliseconds500,
    Seconds1,
    Seconds30,
    Seconds60,
}

/// The tick period of a pre-configured resolution.
pub open spec fn resolution_period(r: Resolution) -> TickPeriod {
    match r {
        Resolution::Milliseconds1 => TickPeriod::Milliseconds(1),
        Resolution::Milliseconds2 => TickPeriod::Milliseconds(2),
        Resolution::Milliseconds5 => TickPeriod::Milliseconds(5),
        Resolution::Milliseconds10 => TickPeriod::Milliseconds(10),
        Resolution::Milliseconds25 => TickPeriod::Milliseconds(25),
        Resolution::Milliseconds50 => TickPeriod::Milliseconds(50),
        Resolution::Milliseconds100 => TickPeriod::Milliseconds(100),
        Resolution::Milliseconds200 => TickPeriod::Milliseconds(200),
        Resolution::Milliseconds250 => TickPeriod::Milliseconds(250),
        Resolution::Milliseconds500 => TickPeriod::Milliseconds(500),
        Resolution::Seconds1 => TickPeriod::Seconds(1),
        Resolution::Seconds30 => TickPeriod::Seconds(30),
        Resolution::Seconds60 => TickPeriod::Seconds(60),
    }
}

/// The scaling factor of a pre-configured resolution: one unit per tick.
pub open spec fn resolution_scaling_factor(r: Resolution) -> ScalingFactor {
    match r {
        Resolution::Milliseconds1 => ScalingFactor { numerator: 1, denominator: 1000 },
        Resolution::Milliseconds2 => ScalingFactor { numerator: 1, denominator: 500 },
        Resolution::Milliseconds5 => ScalingFactor { numerator: 1, denominator: 200 },
        Resolution::Milliseconds10 => ScalingFactor { numerator: 1, denominator: 100 },
        Resolution::Milliseconds25 => ScalingFactor { numerator: 1, denominator: 40 },
        Resolution::Milliseconds50 => ScalingFactor { numerator: 1, denominator: 20 },
        Resolution::Milliseconds100 => ScalingFactor { numerator: 1, denominator: 10 },
        Resolution::Milliseconds200 => ScalingFactor { numerator: 1, denominator: 5 },
        Resolution::Milliseconds250 => ScalingFactor { numerator: 1, denominator: 4 },
        Resolution::Milliseconds500 => ScalingFactor { numerator: 1, denominator: 2 },
        Resolution::Seconds1 => ScalingFactor { numerator: 1, denominator: 1 },
        Resolution::Seconds30 => ScalingFactor { numerator: 30, denominator: 1 },
        Resolution::Seconds60 => ScalingFactor { numerator: 60, denominator: 1 },
    }
}

/// A monotonic clock that counts fixed-period ticks in units of its
/// scaling factor.
pub struct ClockVariant {
    period: TickPeriod,
    scaling_factor: ScalingFactor,
    instant: Storage,
}

impl ClockVariant {
    /// The duration of one tick.
    pub closed spec fn spec_tick_period(&self) -> TickPeriod {
        self.period
    }

    /// The seconds that one unit of an instant stands for.
    pub closed spec fn spec_scaling_factor(&self) -> ScalingFactor {
        self.scaling_factor
    }

    /// The current instant, `None` before the first tick.
    pub closed spec fn spec_now(&self) -> Option<int> {
        self.instant@
    }

    /// The units that each tick adds, `None` where the tick period cannot be
    /// expressed in them.
    pub open spec fn spec_step(&self) -> Option<u32> {
        units_per_tick(self.spec_tick_period(), self.spec_scaling_factor())
    }

    /// A clock that has not started: no tick recorded.
    pub fn new(period: TickPeriod, scaling_factor: ScalingFactor) -> (r: Self)
        ensures
            r.spec_tick_period() == period,
            r.spec_scaling_factor() == scaling_factor,
            r.spec_now() is None,
    {
        ClockVariant { period, scaling_factor, instant: Storage::new() }
    }

    /// A clock of one of the pre-configured resolutions, not yet started.
    pub fn with_resolution(resolution: Resolution) -> (r: Self)
        ensures
            r.spec_tick_period() == resolution_period(resolution),
            r.spec_scaling_factor() == resolution_scaling_factor(resolution),
            r.spec_now() is None,
    {
        let (period, numerator, denominator) = match resolution {
            Resolution::Milliseconds1 => (TickPeriod::Milliseconds(1), 1, 1000),
            Resolution::Milliseconds2 => (TickPeriod::Milliseconds(2), 1, 500),
            Resolution::Milliseconds5 => (TickPeriod::Milliseconds(5), 1, 200),
            Resolution::Milliseconds10 => (TickPeriod::Milliseconds(10), 1, 100),
            Resolution::Milliseconds25 => (TickPeriod::Milliseconds(25), 1, 40),
            Resolution::Milliseconds50 => (TickPeriod::Milliseconds(50), 1, 20),
            Resolution::Milliseconds100 => (TickPeriod::Milliseconds(100), 1, 10),
            Resolution::Milliseconds200 => (TickPeriod::Milliseconds(200), 1, 5),
            Resolution::Milliseconds250 => (TickPeriod::Milliseconds(250), 1, 4),
            Resolution::Milliseconds500 => (TickPeriod::Milliseconds(500), 1, 2),
            Resolution::Seconds1 => (TickPeriod::Seconds(1), 1, 1),
            Resolution::Seconds30 => (TickPeriod::Seconds(30), 30, 1),
            Resolution::Seconds60 => (TickPeriod::Seconds(60), 60, 1),
        };
        ClockVariant::new(period, ScalingFactor { numerator, denominator })
    }

    /// The duration of one tick.
    pub fn tick_period(&self) -> (r: TickPeriod)
        ensures
            r == self.spec_tick_period(),
    {
        self.period
    }

    /// The seconds that one unit of an instant stands for.
    pub fn scaling_factor(&self) -> (r: ScalingFactor)
        ensures
            r == self.spec_scaling_factor(),
    {
        self.scaling_factor
    }

    /// The current instant, or `NotRunning` before the first tick.
    pub fn try_now(&self) -> (r: Result<Instant, ClockError>)
        ensures
            match self.spec_now() {
                None => r == Err::<Instant, ClockError>(ClockError::NotRunning),
                Some(i) => r is Ok && r->Ok_0.ticks == i,
            },
    {
        self.instant.get()
    }

    /// A ticker bound to this clock's storage, advancing it by this clock's
    /// step on every tick. Once the ticker is done, the clock holds what the
    /// ticker left in the storage; its configuration stays.
    pub fn ticker(&mut self) -> (r: Ticker<'_>)
        ensures
            r.step == old(self).spec_step(),
            (*r.storage)@ == old(self).spec_now(),
            final(self).spec_now() == (*final(r.storage))@,
            final(self).spec_tick_period() == old(self).spec_tick_period(),
            final(self).spec_scaling_factor() == old(self).spec_scaling_factor(),
    {
        let step = tick_units(self.period, self.scaling_factor);
        Ticker::new(&mut self.instant, step)
    }
}

} // verus!
