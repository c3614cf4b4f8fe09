use tick_clock::clock::{ClockVariant, Resolution};
use tick_clock::instant::{ClockError, Instant, TickError};
use tick_clock::period::{tick_units, ScalingFactor, TickPeriod};
use tick_clock::storage::Storage;

const ALL_RESOLUTIONS: [Resolution; 13] = [
    Resolution::Milliseconds1,
    Resolution::Milliseconds2,
    Resolution::Milliseconds5,
    Resolution::Milliseconds10,
    Resolution::Milliseconds25,
    Resolution::Milliseconds50,
    Resolution::Milliseconds100,
    Resolution::Milliseconds200,
    Resolution::Milliseconds250,
    Resolution::Milliseconds500,
    Resolution::Seconds1,
    Resolution::Seconds30,
    Resolution::Seconds60,
];

fn ticks(clock: &mut ClockVariant, n: u32) {
    let mut ticker = clock.ticker();
    for _ in 0..n {
        ticker.tick().unwrap();
    }
}

fn now(clock: &ClockVariant) -> u32 {
    clock.try_now().unwrap().ticks
}

#[test]
fn quarter_second_clock_counts_from_first_tick() {
    let mut clock = ClockVariant::new(
        TickPeriod::Milliseconds(250),
        ScalingFactor { numerator: 1, denominator: 4 },
    );
    assert_eq!(clock.try_now(), Err(ClockError::NotRunning));
    ticks(&mut clock, 1);
    assert_eq!(clock.try_now(), Ok(Instant { ticks: 0 }));
    ticks(&mut clock, 3);
    assert_eq!(clock.try_now(), Ok(Instant { ticks: 3 }));
    ticks(&mut clock, 1);
    assert_eq!(clock.try_now(), Ok(Instant { ticks: 4 }));
}

#[test]
fn two_clocks_keep_their_own_instants() {
    let mut millis = ClockVariant::with_resolution(Resolution::Milliseconds1);
    let mut seconds = ClockVariant::with_resolution(Resolution::Seconds1);
    ticks(&mut millis, 10);
    assert_eq!(seconds.try_now(), Err(ClockError::NotRunning));
    ticks(&mut seconds, 3);
    assert_eq!(now(&millis), 9);
    assert_eq!(now(&seconds), 2);
    ticks(&mut millis, 5);
    assert_eq!(now(&millis), 14);
    assert_eq!(now(&seconds), 2);
}

#[test]
fn every_resolution_counts_one_unit_per_tick() {
    for resolution in ALL_RESOLUTIONS {
        let mut clock = ClockVariant::with_resolution(resolution);
        ticks(&mut clock, 7);
        assert_eq!(now(&clock), 6, "{:?}", resolution);
    }
}

#[test]
fn fresh_clocks_are_not_running() {
    for resolution in ALL_RESOLUTIONS {
        let clock = ClockVariant::with_resolution(resolution);
        assert_eq!(clock.try_now(), Err(ClockError::NotRunning));
    }
}

#[test]
fn reads_never_go_back() {
    let mut clock = ClockVariant::with_resolution(Resolution::Milliseconds10);
    ticks(&mut clock, 1);
    let first = now(&clock);
    let again = now(&clock);
    assert_eq!(first, again);
    ticks(&mut clock, 2);
    let later = now(&clock);
    assert!(later > first);
    assert_eq!(later, first + 2);
}

#[test]
fn overflow_is_reported_and_never_wraps() {
    let mut storage = Storage::new();
    assert_eq!(storage.tick(Some(u32::MAX)), Ok(()));
    assert_eq!(storage.get(), Ok(Instant { ticks: 0 }));
    assert_eq!(storage.tick(Some(u32::MAX)), Ok(()));
    assert_eq!(storage.get(), Ok(Instant { ticks: u32::MAX }));
    assert_eq!(storage.tick(Some(1)), Err(TickError::Overflow));
    assert_eq!(storage.get(), Ok(Instant { ticks: u32::MAX }));
    assert_eq!(storage.tick(Some(0)), Ok(()));
    assert_eq!(storage.get(), Ok(Instant { ticks: u32::MAX }));
}

#[test]
fn step_that_cannot_be_expressed_is_an_overflow_after_the_epoch() {
    let mut clock = ClockVariant::new(
        TickPeriod::Milliseconds(u32::MAX),
        ScalingFactor { numerator: 1, denominator: 1_000_000 },
    );
    let mut ticker = clock.ticker();
    assert_eq!(ticker.step, None);
    assert_eq!(ticker.tick(), Ok(()));
    assert_eq!(ticker.tick(), Err(TickError::Overflow));
    drop(ticker);
    assert_eq!(clock.try_now(), Ok(Instant { ticks: 0 }));
}

#[test]
fn storage_starts_empty() {
    let storage = Storage::new();
    assert_eq!(storage.get(), Err(ClockError::NotRunning));
}

#[test]
fn storage_first_tick_ignores_missing_step() {
    let mut storage = Storage::new();
    assert_eq!(storage.tick(None), Ok(()));
    assert_eq!(storage.get(), Ok(Instant { ticks: 0 }));
    assert_eq!(storage.tick(None), Err(TickError::Overflow));
    assert_eq!(storage.get(), Ok(Instant { ticks: 0 }));
}

#[test]
fn tick_units_converts_durations() {
    let quarter = ScalingFactor { numerator: 1, denominator: 4 };
    assert_eq!(tick_units(TickPeriod::Milliseconds(250), quarter), Some(1));
    assert_eq!(tick_units(TickPeriod::Milliseconds(1000), quarter), Some(4));
    let milli = ScalingFactor { numerator: 1, denominator: 1000 };
    assert_eq!(tick_units(TickPeriod::Seconds(1), milli), Some(1000));
    let half_minute = ScalingFactor { numerator: 30, denominator: 1 };
    assert_eq!(tick_units(TickPeriod::Seconds(30), half_minute), Some(1));
    assert_eq!(tick_units(TickPeriod::Seconds(90), half_minute), Some(3));
    let second = ScalingFactor { numerator: 1, denominator: 1 };
    assert_eq!(tick_units(TickPeriod::Milliseconds(1), second), Some(0));
}

#[test]
fn tick_units_fails_when_the_count_overflows() {
    let micro = ScalingFactor { numerator: 1, denominator: 1_000_000 };
    assert_eq!(tick_units(TickPeriod::Milliseconds(u32::MAX), micro), None);
    assert_eq!(tick_units(TickPeriod::Seconds(u32::MAX), micro), None);
}

#[test]
fn ticker_step_matches_configuration() {
    let mut clock = ClockVariant::with_resolution(Resolution::Seconds60);
    assert_eq!(clock.ticker().step, Some(1));
    let mut coarse = ClockVariant::new(
        TickPeriod::Seconds(120),
        ScalingFactor { numerator: 60, denominator: 1 },
    );
    assert_eq!(coarse.ticker().step, Some(2));
}

#[test]
fn configured_clock_reports_its_configuration() {
    let clock = ClockVariant::with_resolution(Resolution::Milliseconds25);
    assert_eq!(clock.tick_period(), TickPeriod::Milliseconds(25));
    assert_eq!(
        clock.scaling_factor(),
        ScalingFactor { numerator: 1, denominator: 40 }
    );
    let minute = ClockVariant::with_resolution(Resolution::Seconds60);
    assert_eq!(minute.tick_period(), TickPeriod::Seconds(60));
    assert_eq!(
        minute.scaling_factor(),
        ScalingFactor { numerator: 60, denominator: 1 }
    );
}
