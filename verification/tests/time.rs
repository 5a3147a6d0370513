use libafl_events::time::{current_time, Duration};

#[test]
fn new_carries_nanoseconds_into_seconds() {
    let d = Duration::new(3, 2_500_000_000);
    assert_eq!(d.as_secs(), 5);
    assert_eq!(d.subsec_nanos(), 500_000_000);
    assert_eq!(d.as_nanos(), 5_500_000_000);
    assert_eq!(d, Duration::new(5, 500_000_000));
}

#[test]
fn from_millis_and_as_millis() {
    let d = Duration::from_millis(12_345);
    assert_eq!(d.as_secs(), 12);
    assert_eq!(d.subsec_nanos(), 345_000_000);
    assert_eq!(d.as_millis(), 12_345);
    assert_eq!(Duration::from_secs(2).as_millis(), 2000);
    assert_eq!(Duration::zero().as_nanos(), 0);
}

#[test]
fn checked_sub_borrows_a_second() {
    let a = Duration::new(10, 100);
    let b = Duration::new(3, 200);
    let d = a.checked_sub(&b).unwrap();
    assert_eq!(d.as_secs(), 6);
    assert_eq!(d.subsec_nanos(), 999_999_900);
    assert_eq!(b.checked_sub(&a), None);
    assert_eq!(a.checked_sub(&a), Some(Duration::zero()));
}

#[test]
fn longer_than_is_strict() {
    let a = Duration::new(1, 1);
    let b = Duration::new(1, 0);
    assert!(a.longer_than(&b));
    assert!(!b.longer_than(&a));
    assert!(!a.longer_than(&a));
    assert!(Duration::new(2, 0).longer_than(&Duration::new(1, 999_999_999)));
}

#[test]
fn largest_duration_in_nanoseconds() {
    let d = Duration::new(u64::MAX, 999_999_999);
    assert_eq!(d.as_nanos(), (u64::MAX as u128) * 1_000_000_000 + 999_999_999);
}

#[test]
fn current_time_is_after_the_epoch() {
    let now = current_time();
    assert!(now.as_secs() > 1_600_000_000);
    assert!(now.subsec_nanos() < 1_000_000_000);
}
