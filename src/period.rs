use vstd::prelude::*;

use embedded_time::duration::{Milliseconds, Seconds};
use embedded_time::fixed_point::FixedPoint;
use embedded_time::fraction::Fraction;
use embedded_time::ConversionError;

verus! {

#[verifier::external_type_specification]
#[verifier::external_body]
pub struct ExConversionError(ConversionError);

/// The number of seconds that one unit of an instant stands for,
/// `numerator / denominator`.
#[derive(Clone, Copy, Debug, PartialEq, Eq, Structural)]
pub struct ScalingFactor {
    pub numerator: u32,
    pub denominator: u32,
}

/// The fixed duration of one tick.
#[derive(Clone, Copy, Debug, PartialEq, Eq, Structural)]
pub enum TickPeriod {
    Milliseconds(u32),
    Seconds(u32),
}

/// `ms` milliseconds in units of `numerator / denominator` seconds, as
/// embedded-time converts a `Milliseconds<u32>`; `None` where it fails.
pub uninterp spec fn millis_in_units(ms: u32, numerator: u32, denominator: u32) -> Option<u32>;

/// `s` seconds in units of `numerator / denominator` seconds, as
/// embedded-time converts a `Seconds<u32>`; `None` where it fails.
pub uninterp spec fn seconds_in_units(s: u32, numerator: u32, denominator: u32) -> Option<u32>;

/// Relies on embedded_time's `FixedPoint::into_ticks` for `Milliseconds<u32>`:
/// the duration expressed as a count of units of the given fraction of a second.
#[verifier::external_body]
fn millis_into_units(ms: u32, numerator: u32, denominator: u32) -> (r: Result<u32, ConversionError>)
    ensures
        match r {
            Ok(t) => millis_in_units(ms, numerator, denominator) == Some(t),
            Err(_) => millis_in_units(ms, numerator, denominator) is None,
        },
{
    Milliseconds(ms).into_ticks(Fraction::new(numerator, denominator))
}

/// Relies on embedded_time's `FixedPoint::into_ticks` for `Seconds<u32>`:
/// the duration expressed as a count of units of the given fraction of a second.
#[verifier::external_body]
fn seconds_into_units(s: u32, numerator: u32, denominator: u32) -> (r: Result<u32, ConversionError>)
    ensures
        match r {
            Ok(t) => seconds_in_units(s, numerator, denominator) == Some(t),
            Err(_) => seconds_in_units(s, numerator, denominator) is None,
        },
{
    Seconds(s).into_ticks(Fraction::new(numerator, denominator))
}

/// One tick of `period`, counted in units of `scaling_factor`.
pub open spec fn units_per_tick(period: TickPeriod, scaling_factor: ScalingFactor) -> Option<u32> {
    match period {
        TickPeriod::Milliseconds(ms) => millis_in_units(
            ms,
            scaling_factor.numerator,
            scaling_factor.denominator,
        ),
        TickPeriod::Seconds(s) => seconds_in_units(
            s,
            scaling_factor.numerator,
            scaling_factor.denominator,
        ),
    }
}

/// The number of units of `scaling_factor` that one tick of `period` adds,
/// or `None` where the duration cannot be expressed in them.
pub fn tick_units(period: TickPeriod, scaling_factor: ScalingFactor) -> (r: Option<u32>)
    ensures
        r == units_per_tick(period, scaling_factor),
{
    let converted = match period {
        TickPeriod::Milliseconds(ms) => millis_into_units(
            ms,
            scaling_factor.numerator,
            scaling_factor.denominator,
        ),
        TickPeriod::Seconds(s) => seconds_into_units(
            s,
            scaling_factor.numerator,
            scaling_factor.denominator,
        ),
    };
    match converted {
        Ok(t) => Some(t),
        Err(_) => None,
    }
}

} // verus!
