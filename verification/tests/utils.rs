use tick_timeout::FrequencyHolder;

#[test]
fn frequency_holder_publishes() {
    let h = FrequencyHolder::new(1000);
    assert_eq!(h.get(), 1000);
    h.set(8000);
    assert_eq!(h.get(), 8000);
    h.set(72_000);
    assert_eq!(h.get(), 72_000);
}
