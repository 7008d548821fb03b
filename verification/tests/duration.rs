use tick_timeout::{TickDuration, TickFrequency};

struct MockInstant;

impl TickFrequency for MockInstant {
    fn spec_frequency() -> u32 {
        1_000_000
    }

    fn frequency() -> u32 {
        1_000_000
    }
}

struct SlowInstant;

impl TickFrequency for SlowInstant {
    fn spec_frequency() -> u32 {
        3
    }

    fn frequency() -> u32 {
        3
    }
}

struct KiloInstant;

impl TickFrequency for KiloInstant {
    fn spec_frequency() -> u32 {
        1
    }

    fn frequency() -> u32 {
        1
    }
}

type Duration = TickDuration<MockInstant>;

#[test]
fn duration() {
    let d = Duration::nanos(123);
    assert_eq!(d.as_nanos(), 123);

    let d = Duration::nanos(123_000);
    assert_eq!(d.as_nanos(), 123_000);

    let d = Duration::micros(5234);
    assert_eq!(d.as_micros(), 5234);

    let d = Duration::millis(472);
    assert_eq!(d.as_millis(), 472);

    let d = Duration::micros(123);
    assert_eq!(d.as_millis(), 1);
}

#[test]
fn duration_round_trip_never_loses_time() {
    // At 3 ticks per millisecond one nanosecond needs a whole tick, and the
    // tick reads back as a third of a millisecond, rounded up.
    let d = TickDuration::<SlowInstant>::nanos(1);
    assert_eq!(d.as_ticks(), 1);
    assert_eq!(d.as_nanos(), 333_334);

    // A microsecond count that is no whole number of ticks also rounds up
    // in both directions.
    let d = TickDuration::<SlowInstant>::micros(100);
    assert_eq!(d.as_ticks(), 1);
    assert_eq!(d.as_micros(), 334);

    // Exact conversions come back exactly.
    let d = TickDuration::<KiloInstant>::millis(40_000);
    assert_eq!(d.as_ticks(), 40_000);
    assert_eq!(d.as_millis(), 40_000);
}

#[test]
fn duration_raw_ticks_and_zero() {
    let d = Duration::from_ticks(77);
    assert_eq!(d.as_ticks(), 77);
    assert!(!d.is_zero());
    assert!(Duration::zero().is_zero());
    assert_eq!(Duration::max().as_ticks(), u64::MAX);

    let d = Duration::millis(1);
    assert_eq!(d.as_ticks(), 1_000_000);
}

#[test]
fn duration_saturating_arithmetic() {
    let a = Duration::from_ticks(u64::MAX - 1);
    let b = Duration::from_ticks(10);
    assert_eq!(a.saturating_add(&b).as_ticks(), u64::MAX);
    assert_eq!(b.saturating_add(&b).as_ticks(), 20);
    assert_eq!(b.saturating_sub(&a).as_ticks(), 0);
    assert_eq!(a.saturating_sub(&b).as_ticks(), u64::MAX - 11);
}

#[test]
fn duration_ordering_by_tick_count() {
    let a = Duration::micros(100);
    let b = Duration::micros(99);
    assert!(b < a);
    assert!(a > b);
    assert!(a == a.clone());
    assert!(a != b);
    assert!(b <= a && a <= a);
}
