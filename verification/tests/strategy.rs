use tokio_retry2::strategy::{
    jitter, ExponentialBackoff, FibonacciBackoff, FixedInterval, MaxInterval, Policy,
};

fn busy_wait(ms: u64) {
    let start = std::time::Instant::now();
    while start.elapsed() < std::time::Duration::from_millis(ms) {}
}

#[test]
fn returns_the_fibonacci_series_starting_at_10() {
    let mut iter = FibonacciBackoff::from_millis(10);
    assert_eq!(iter.next(), Some(10));
    assert_eq!(iter.next(), Some(10));
    assert_eq!(iter.next(), Some(20));
    assert_eq!(iter.next(), Some(30));
    assert_eq!(iter.next(), Some(50));
    assert_eq!(iter.next(), Some(80));
}

#[test]
fn fibonacci_backoff_saturates_at_maximum_value() {
    let mut iter = FibonacciBackoff::from_millis(u64::MAX);
    assert_eq!(iter.next(), Some(u64::MAX));
    assert_eq!(iter.next(), Some(u64::MAX));
}

#[test]
fn fibonacci_backoff_stops_increasing_at_max_delay() {
    let mut iter = FibonacciBackoff::from_millis(10).max_delay(50);
    assert_eq!(iter.next(), Some(10));
    assert_eq!(iter.next(), Some(10));
    assert_eq!(iter.next(), Some(20));
    assert_eq!(iter.next(), Some(30));
    assert_eq!(iter.next(), Some(50));
    assert_eq!(iter.next(), Some(50));
}

#[test]
fn fibonacci_backoff_returns_max_when_max_less_than_base() {
    let mut iter = FibonacciBackoff::from_millis(20).max_delay(10);

    assert_eq!(iter.next(), Some(10));
    assert_eq!(iter.next(), Some(10));
}

#[test]
fn fibonacci_backoff_can_use_factor_to_get_seconds() {
    let factor: u64 = 1000;
    let mut s = FibonacciBackoff::from_millis(1).factor(factor);

    assert_eq!(s.next(), Some(1000));
    assert_eq!(s.next(), Some(1000));
    assert_eq!(s.next(), Some(2000));
}

#[test]
fn fixed_interval_always_returns_the_base() {
    let mut s = FixedInterval::from_millis(500);
    let mut i: usize = 0;
    while i < 8 {
        assert_eq!(s.next(), Some(500));
        i += 1;
    }
}

#[test]
fn exponential_returns_powers_of_the_base() {
    let mut s = ExponentialBackoff::from_millis(10);
    assert_eq!(s.next(), Some(10));
    assert_eq!(s.next(), Some(100));
    assert_eq!(s.next(), Some(1000));
    assert_eq!(s.next(), Some(10000));
}

#[test]
fn exponential_factor_multiplies_each_term() {
    let mut s = ExponentialBackoff::from_millis(2).factor(1000);
    assert_eq!(s.next(), Some(2000));
    assert_eq!(s.next(), Some(4000));
    assert_eq!(s.next(), Some(8000));
}

#[test]
fn exponential_stops_increasing_at_max_delay() {
    let mut s = ExponentialBackoff::from_millis(10).max_delay(100);
    assert_eq!(s.next(), Some(10));
    assert_eq!(s.next(), Some(100));
    assert_eq!(s.next(), Some(100));
    assert_eq!(s.next(), Some(100));
}

#[test]
fn exponential_returns_max_when_max_less_than_base() {
    let mut s = ExponentialBackoff::from_millis(20).max_delay(10);
    assert_eq!(s.next(), Some(10));
    assert_eq!(s.next(), Some(10));
}

#[test]
fn exponential_saturates_at_maximum_value() {
    let max: u64 = u32::MAX as u64;
    let mut s = ExponentialBackoff::from_millis(max - 1);
    assert_eq!(s.next(), Some(max - 1));
    assert_eq!(s.next(), Some(max));
    assert_eq!(s.next(), Some(max));
}

#[test]
fn take_limits_the_number_of_values() {
    let mut s = FixedInterval::from_millis(100).take(2);
    assert_eq!(s.next(), Some(100));
    assert_eq!(s.next(), Some(100));
    assert_eq!(s.next(), None);
    assert_eq!(s.next(), None);
}

#[test]
fn test_jitter() {
    let jitter = jitter(100);
    assert!(jitter >= 50);
    assert!(jitter <= 150);
    assert!(jitter != 100);
}

#[test]
fn jitter_collapses_tiny_delays_to_zero() {
    assert_eq!(jitter(0), 0);
    assert_eq!(jitter(1), 0);
    assert_eq!(jitter(2), 1);
}

#[test]
fn jitter_never_returns_the_input_itself() {
    let mut i: usize = 0;
    while i < 200 {
        let j = jitter(7);
        assert!(j >= 3);
        assert!(j < 10);
        assert!(j != 7);
        i += 1;
    }
}

#[test]
fn returns_none_after_max_interval_passes() {
    let mut s = FixedInterval::from_millis(10).max_interval(50);
    assert_eq!(s.next(), Some(10));
    busy_wait(15);
    assert_eq!(s.next(), Some(10));
    busy_wait(100);
    assert_eq!(s.next(), None);
}

#[test]
fn returns_none_after_max_duration_passes() {
    let mut s = FixedInterval::from_millis(10).max_duration(50);
    assert_eq!(s.next(), Some(10));
    busy_wait(15);
    assert_eq!(s.next(), Some(10));
    busy_wait(100);
    assert_eq!(s.next(), None);
}

#[test]
fn expired_policy_stays_expired() {
    let mut s = FixedInterval::from_millis(10).max_interval(20);
    busy_wait(50);
    assert_eq!(s.next(), None);
    assert_eq!(s.next(), None);
    assert_eq!(s.next(), None);
}
