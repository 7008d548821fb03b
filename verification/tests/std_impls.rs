use tick_timeout::{Poller, StdTickInstant, TickDuration, TickInstant, TickTimeout};

/// Busy-waits until `ms` milliseconds have passed on the tick source `T`.
fn wait_millis<T: TickInstant>(ms: u64) {
    let khz = T::frequency() as u64;
    let mut t = T::now();
    while t.elapsed().as_ticks() < ms * khz {}
}

struct SpinPoller;

impl Poller for SpinPoller {
    fn poll(&mut self) -> bool {
        true
    }
}

struct UseTimeout<T: TickInstant> {
    interval: TickTimeout<T>,
}

fn test_timeout<T: TickInstant>() {
    let mut t = TickTimeout::<T>::from_millis(500);
    assert!(!t.timeout());
    wait_millis::<T>(260);
    assert!(!t.timeout());
    wait_millis::<T>(260);
    assert!(t.timeout());
    assert!(!t.timeout());

    t.restart();
    assert!(!t.timeout());
    wait_millis::<T>(260);
    assert!(!t.timeout());
    wait_millis::<T>(260);
    assert!(t.timeout());
    assert!(!t.timeout());

    let dur = TickDuration::<T>::nanos(100);
    assert!(T::now().timeout_with(&dur, &mut SpinPoller));

    let mut u = UseTimeout {
        interval: TickTimeout::<T>::from_millis(1),
    };
    u.interval.timeout();
}

#[test]
fn std_impls_tick_timeout() {
    test_timeout::<StdTickInstant>();
}

#[test]
fn tick_instant() {
    let mut now = StdTickInstant::now();
    wait_millis::<StdTickInstant>(200);
    assert!(now.elapsed().as_ticks() - 200_000 < 1000);
}
