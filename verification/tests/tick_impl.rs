use fugit::{ExtU32, NanosDurationU32};
use std::sync::atomic::{AtomicU64, Ordering};
use tick_timeout::{Poller, TickCounter, TickFrequency, TickTimeoutNs, TickTimeoutState};

static TICK_SOURCE: AtomicU64 = AtomicU64::new(0);

#[derive(Clone, Copy)]
struct MockInstant {
    tick: u64,
}

impl MockInstant {
    fn add_time(t: NanosDurationU32) {
        let tick = t.to_nanos() as u64;
        TICK_SOURCE.fetch_add(tick, Ordering::Relaxed);
    }

    fn tick_elapsed(&self) -> u32 {
        MockInstant::sample().tick_since(self)
    }
}

impl TickFrequency for MockInstant {
    fn spec_frequency() -> u32 {
        1_000_000
    }

    fn frequency() -> u32 {
        1_000_000
    }
}

impl TickCounter for MockInstant {
    fn sample() -> Self {
        Self {
            tick: TICK_SOURCE.load(Ordering::Relaxed),
        }
    }

    fn tick_since(&self, earlier: &Self) -> u32 {
        self.tick.wrapping_sub(earlier.tick) as u32
    }
}

struct AdvancingPoller {
    count: u32,
}

impl Poller for AdvancingPoller {
    fn poll(&mut self) -> bool {
        MockInstant::add_time(10.nanos());
        self.count += 1;
        true
    }
}

#[test]
fn tick_impl_tick_timeout() {
    let now = MockInstant::sample();
    assert_eq!(now.tick_elapsed(), 0);
    MockInstant::add_time(10.nanos());
    assert_eq!(now.tick_elapsed(), 10);
    MockInstant::add_time(1.millis());
    assert_eq!(now.tick_elapsed(), 1_000_010);
    MockInstant::add_time(10.micros());
    let now2 = MockInstant::sample();
    assert_eq!(now2.tick_since(&now), 1_010_010);
    MockInstant::add_time(10.micros());
    let now3 = MockInstant::sample();
    assert_eq!(now3.tick_since(&now2), 10_000);

    let mut t = TickTimeoutNs::<MockInstant>::new().start_ns(100);
    assert!(!t.timeout());
    MockInstant::add_time(10.nanos());
    assert!(!t.timeout());
    MockInstant::add_time(90.nanos());
    assert!(t.timeout());
    assert!(!t.timeout());
    MockInstant::add_time(100.nanos());
    assert!(t.timeout());

    MockInstant::add_time(90.nanos());
    assert!(!t.timeout());
    t.restart();
    MockInstant::add_time(90.nanos());
    assert!(!t.timeout());
    MockInstant::add_time(10.nanos());
    assert!(t.timeout());

    let mut t = TickTimeoutNs::<MockInstant>::new().start_us(100);
    assert!(!t.timeout());
    MockInstant::add_time(10.micros());
    assert!(!t.timeout());
    MockInstant::add_time(90.micros());
    assert!(t.timeout());
    assert!(!t.timeout());
    MockInstant::add_time(100.micros());
    assert!(t.timeout());

    MockInstant::add_time(90.micros());
    assert!(!t.timeout());
    t.restart();
    MockInstant::add_time(90.micros());
    assert!(!t.timeout());
    MockInstant::add_time(10.micros());
    assert!(t.timeout());

    let mut t = TickTimeoutNs::<MockInstant>::new().start_ms(100);
    assert!(!t.timeout());
    MockInstant::add_time(10.millis());
    assert!(!t.timeout());
    MockInstant::add_time(90.millis());
    assert!(t.timeout());
    assert!(!t.timeout());
    MockInstant::add_time(100.millis());
    assert!(t.timeout());

    MockInstant::add_time(90.millis());
    assert!(!t.timeout());
    t.restart();
    MockInstant::add_time(90.millis());
    assert!(!t.timeout());
    MockInstant::add_time(10.millis());
    assert!(t.timeout());

    let mut poller = AdvancingPoller { count: 0 };
    let t = TickTimeoutNs::<MockInstant>::new();
    assert!(t.ns_with(100, &mut poller));
    assert_eq!(poller.count, 10);

    let t = TickTimeoutState::<MockInstant>::new_us(40_000_000);
    assert_eq!(t.timeout_tick(), 40_000_000_000);

    let mut t = TickTimeoutState::<MockInstant>::new_ms(40_000);
    assert_eq!(t.timeout_tick(), 40_000_000_000);

    assert!(!t.timeout());

    for _ in 0..40 {
        MockInstant::add_time(999.millis());
        assert!(!t.timeout());
    }
    assert!(t.elapsed_tick() > 0);
    MockInstant::add_time(100.millis());
    assert!(t.timeout());
    assert!(!t.timeout());

    for _ in 0..39 {
        MockInstant::add_time(999.millis());
        assert!(!t.timeout());
    }
    t.restart();
    for _ in 0..40 {
        MockInstant::add_time(999.millis());
        assert!(!t.timeout());
    }
    MockInstant::add_time(100.millis());
    assert!(t.timeout());
}
