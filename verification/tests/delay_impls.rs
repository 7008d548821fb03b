use std::sync::atomic::{AtomicU64, Ordering};
use tick_timeout::{TickCounter, TickDelay, TickFrequency};

static AUTO_TICK: AtomicU64 = AtomicU64::new(0);

/// A self-advancing counter: every sample costs fifty ticks, imitating a
/// clock that keeps running while the delay polls it.
#[derive(Clone, Copy)]
struct AutoInstant {
    tick: u64,
}

impl TickFrequency for AutoInstant {
    fn spec_frequency() -> u32 {
        1_000_000
    }

    fn frequency() -> u32 {
        1_000_000
    }
}

impl TickCounter for AutoInstant {
    fn sample() -> Self {
        Self {
            tick: AUTO_TICK.fetch_add(50, Ordering::Relaxed),
        }
    }

    fn tick_since(&self, earlier: &Self) -> u32 {
        self.tick.wrapping_sub(earlier.tick) as u32
    }
}

#[test]
fn tick_delay_waits_at_least_requested() {
    let start = AUTO_TICK.load(Ordering::Relaxed);
    let mut d = TickDelay::<AutoInstant>::new();
    // One tick is a nanosecond at this rate.
    d.delay_ns(10_000);
    let end = AUTO_TICK.load(Ordering::Relaxed);
    assert!(end - start >= 10_000);

    // A zero delay returns at once: the first poll already fires.
    let start = AUTO_TICK.load(Ordering::Relaxed);
    d.delay_ns(0);
    let end = AUTO_TICK.load(Ordering::Relaxed);
    assert!(end - start <= 100);
}
