use fugit::{ExtU32, NanosDurationU32};
use std::sync::atomic::{AtomicU64, Ordering};
use tick_timeout::rounds::reduce_threshold;
use tick_timeout::{RoundTimeoutState, TickCounter, TickFrequency, TickTimeoutState};

static TICK_SOURCE: AtomicU64 = AtomicU64::new(0);

#[derive(Clone, Copy)]
struct MockInstant {
    tick: u64,
}

impl MockInstant {
    fn add_time(t: NanosDurationU32) {
        let tick = t.to_nanos() as u64;
        TICK_SOURCE.fetch_add(tick, Ordering::Relaxed);
    }
}

impl TickFrequency for MockInstant {
    fn spec_frequency() -> u32 {
        1_000_000
    }

    fn frequency() -> u32 {
        1_000_000
    }
}

impl TickCounter for MockInstant {
    fn sample() -> Self {
        Self {
            tick: TICK_SOURCE.load(Ordering::Relaxed),
        }
    }

    fn tick_since(&self, earlier: &Self) -> u32 {
        self.tick.wrapping_sub(earlier.tick) as u32
    }
}

#[test]
fn reduction_values() {
    // A threshold already in the narrow range is kept exactly.
    assert_eq!(reduce_threshold(0), (0, 1));
    assert_eq!(reduce_threshold(100), (100, 1));
    assert_eq!(reduce_threshold(0x7fff_ffff), (0x7fff_ffff, 1));

    // One past the limit halves once.
    assert_eq!(reduce_threshold(0x8000_0000), (0x4000_0000, 2));

    // Forty seconds at a gigahertz: five halvings, all exact.
    assert_eq!(reduce_threshold(40_000_000_000), (1_250_000_000, 32));
    assert_eq!(32u64 * 1_250_000_000u64, 40_000_000_000u64);

    // An odd threshold is biased upward, never downward.
    let (base, rounds) = reduce_threshold(0x8000_0001);
    assert_eq!((base, rounds), (0x4000_0001, 2));
    assert!(base as u64 * rounds >= 0x8000_0001);
}

#[test]
fn round_form_forty_second_threshold() {
    // The threshold of forty seconds exceeds the 32-bit range; the narrow
    // detector must fire only after the full forty seconds, not after one
    // round's worth.
    let mut t = RoundTimeoutState::<MockInstant>::new_ms(40_000);
    assert_eq!(t.base(), 1_250_000_000);
    assert_eq!(t.rounds(), 32);

    assert!(!t.timeout());
    for _ in 0..40 {
        MockInstant::add_time(999.millis());
        assert!(!t.timeout());
    }
    MockInstant::add_time(100.millis());
    assert!(t.timeout());
    assert!(!t.timeout());

    // Restart discards the carried progress.
    for _ in 0..39 {
        MockInstant::add_time(999.millis());
        assert!(!t.timeout());
    }
    t.restart();
    for _ in 0..40 {
        MockInstant::add_time(999.millis());
        assert!(!t.timeout());
    }
    MockInstant::add_time(100.millis());
    assert!(t.timeout());
}

#[test]
fn wide_and_round_forms_fire_together() {
    // For thresholds that the reduction represents exactly, the wide and
    // the narrow detector agree poll by poll, from small thresholds to one
    // needing five halving rounds.
    let schedule_ns: [u32; 12] = [
        100, 400, 1, 499, 500, 1500, 250, 250, 3, 997, 2000, 123,
    ];
    // 500 ticks (exact, one round) and 2^31 ticks (exact, two rounds).
    for threshold_ns in [500u32, 2_147_483_648u32] {
        let mut wide = TickTimeoutState::<MockInstant>::new_ns(threshold_ns);
        let mut narrow = RoundTimeoutState::<MockInstant>::new_ns(threshold_ns);
        for ns in schedule_ns {
            MockInstant::add_time(ns.nanos());
            assert_eq!(wide.timeout(), narrow.timeout());
        }
    }

    // Forty seconds: 32 rounds of 1.25e9 ticks, advanced in uneven steps.
    let mut wide = TickTimeoutState::<MockInstant>::new_ms(40_000);
    let mut narrow = RoundTimeoutState::<MockInstant>::new_ms(40_000);
    for _ in 0..100 {
        MockInstant::add_time(813.millis());
        assert_eq!(wide.timeout(), narrow.timeout());
    }
}

#[test]
fn round_form_odd_threshold_never_fires_early() {
    // 2^31 + 1 reduces to (2^30 + 1) * 2 = 2^31 + 2: the narrow form may
    // overshoot by the ceiling bias, never undershoot.
    let t: u64 = 0x8000_0001;
    let mut narrow = RoundTimeoutState::<MockInstant>::new(t);
    assert_eq!(narrow.base(), 0x4000_0001);
    assert_eq!(narrow.rounds(), 2);

    assert!(!narrow.timeout());
    // Advance exactly the original threshold: the biased reduction needs
    // one more tick.
    MockInstant::add_time(2_147_483_647.nanos());
    MockInstant::add_time(2.nanos());
    assert!(!narrow.timeout());
    MockInstant::add_time(1.nanos());
    assert!(narrow.timeout());
}

#[test]
fn round_form_zero_threshold_always_fires() {
    let mut t = RoundTimeoutState::<MockInstant>::new(0);
    assert!(t.timeout());
    assert!(t.timeout());
    MockInstant::add_time(5.nanos());
    assert!(t.timeout());
}

#[test]
fn restart_discards_progress_immediately() {
    let mut t = TickTimeoutState::<MockInstant>::new_ns(100);
    MockInstant::add_time(90.nanos());
    assert!(!t.timeout());
    MockInstant::add_time(20.nanos());
    t.restart();
    // Zero additional elapsed time after the restart: no fire, although the
    // discarded progress had already crossed the threshold.
    assert!(!t.timeout());
    MockInstant::add_time(99.nanos());
    assert!(!t.timeout());
    MockInstant::add_time(1.nanos());
    assert!(t.timeout());
}

#[test]
fn wide_form_zero_threshold_always_fires() {
    let mut t = TickTimeoutState::<MockInstant>::new_ms(0);
    assert_eq!(t.timeout_tick(), 0);
    assert!(t.timeout());
    assert!(t.timeout());
    MockInstant::add_time(5.nanos());
    assert!(t.timeout());
}
