use tick_timeout::{FakeTickInstant, TickCounter, TickInstant, TickTimeout};

#[test]
fn fake_instant_counts() {
    let mut i = FakeTickInstant::now();
    assert_eq!(i.elapsed().as_ticks(), 1);
    assert_eq!(i.elapsed().as_ticks(), 2);
    assert_eq!(i.elapsed().as_ticks(), 3);

    let s1 = FakeTickInstant::sample();
    let s2 = FakeTickInstant::sample();
    assert_eq!(s2.tick_since(&s1), 0);
}

#[test]
fn fake_timeout_engine() {
    // The fake runs at one tick per millisecond and advances one tick per
    // reading, so a three-millisecond timeout fires on every third poll.
    let mut t = TickTimeout::<FakeTickInstant>::from_millis(3);
    assert!(!t.timeout());
    assert!(!t.timeout());
    assert!(t.timeout());
    assert!(!t.timeout());
    assert!(!t.timeout());
    assert!(t.timeout());
}
