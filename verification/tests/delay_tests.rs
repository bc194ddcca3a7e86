use avr_flight::delay::delay;

#[test]
fn delay_zero_returns_immediately() {
    assert_eq!(delay(0), 0);
}

#[test]
fn delay_counts_exactly_the_requested_cycles() {
    assert_eq!(delay(1), 1);
    assert_eq!(delay(5), 5);
    assert_eq!(delay(100_000), 100_000);
}

#[test]
fn delay_is_monotonic_in_iteration_count() {
    assert!(delay(10) <= delay(20));
    assert!(delay(0) <= delay(1));
    assert!(delay(999) <= delay(1000));
}
