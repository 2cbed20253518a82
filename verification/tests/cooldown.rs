use holy_bullet_hell::cooldown::Cooldown;
use holy_bullet_hell::time::{Duration, Timestamp};

fn at(nanos: u64) -> Timestamp {
    Timestamp { nanos }
}

#[test]
fn cooldown_is_over_before_first_reset() {
    let c = Cooldown::with_duration(Duration { nanos: 500 });
    assert!(c.is_over(at(0)));
    assert!(c.is_over(at(1_000_000)));
    assert!(c.is_over(at(u64::MAX)));
}

#[test]
fn cooldown_not_over_right_after_reset() {
    let mut c = Cooldown::with_duration(Duration { nanos: 500 });
    c.reset(at(1000));
    assert!(!c.is_over(at(1000)));
    assert!(!c.is_over(at(1499)));
}

#[test]
fn cooldown_over_once_interval_has_passed() {
    let mut c = Cooldown::with_duration(Duration { nanos: 500 });
    c.reset(at(1000));
    assert!(c.is_over(at(1500)));
    assert!(c.is_over(at(9000)));
}

#[test]
fn cooldown_can_be_reset_again() {
    let mut c = Cooldown::with_duration(Duration { nanos: 10 });
    c.reset(at(0));
    assert!(c.is_over(at(10)));
    c.reset(at(10));
    assert!(!c.is_over(at(19)));
    assert!(c.is_over(at(20)));
    assert_eq!(c.last_emit, Some(at(10)));
    assert_eq!(c.cooldown, Duration { nanos: 10 });
}

#[test]
fn cooldown_without_interval_is_always_over() {
    let mut c = Cooldown::with_duration(Duration { nanos: 0 });
    c.reset(at(77));
    assert!(c.is_over(at(77)));
}

#[test]
fn cooldown_counts_no_time_for_a_clock_that_went_back() {
    let mut c = Cooldown::with_duration(Duration { nanos: 5 });
    c.reset(at(100));
    assert!(!c.is_over(at(50)));
}

#[test]
fn timestamp_since_is_the_difference_or_zero() {
    assert_eq!(at(10).since(at(4)), Duration { nanos: 6 });
    assert_eq!(at(4).since(at(10)), Duration { nanos: 0 });
    assert_eq!(at(4).since(at(4)), Duration { nanos: 0 });
}

#[test]
fn timestamp_after_adds_and_stops_at_the_last_nanosecond() {
    assert_eq!(at(10).after(Duration { nanos: 5 }), at(15));
    assert_eq!(at(u64::MAX - 1).after(Duration { nanos: 5 }), at(u64::MAX));
}
