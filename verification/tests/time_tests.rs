use chicandoit::time::Timestamp;

#[test]
fn hour_is_taken_from_the_utc_day() {
    assert_eq!(Timestamp::new(0, 0).hour(), 0);
    assert_eq!(Timestamp::new(36_000, 0).hour(), 10);
    assert_eq!(Timestamp::new(86_399, 999_999_999).hour(), 23);
    assert_eq!(Timestamp::new(-1, 0).hour(), 23);
    assert_eq!(Timestamp::new(1_700_000_000, 0).hour(), 22);
}

#[test]
fn instants_are_ordered_by_seconds_then_nanoseconds() {
    let a = Timestamp::new(5, 10);
    let b = Timestamp::new(5, 11);
    let c = Timestamp::new(6, 0);
    assert!(a.before(&b));
    assert!(b.before(&c));
    assert!(!b.before(&a));
    assert!(!a.before(&a));
    assert!(c.after(&a));
}

#[test]
fn whole_days_are_cut_towards_zero() {
    let now = Timestamp::new(1_000_000, 0);
    assert_eq!(Timestamp::new(1_000_000 + 86_400, 0).days_since(&now), 1);
    assert_eq!(Timestamp::new(1_000_000 + 86_399, 999_999_999).days_since(&now), 0);
    assert_eq!(Timestamp::new(1_000_000 - 86_399, 0).days_since(&now), 0);
    assert_eq!(Timestamp::new(1_000_000 - 86_400, 0).days_since(&now), -1);
    assert_eq!(Timestamp::new(1_000_000 - 3 * 86_400 - 5, 0).days_since(&now), -3);
    assert_eq!(Timestamp::new(i64::MAX, 0).days_since(&Timestamp::new(i64::MIN, 0)), 213_503_982_334_601);
}

#[test]
fn minute_is_taken_from_the_hour() {
    assert_eq!(Timestamp::new(0, 0).minute(), 0);
    assert_eq!(Timestamp::new(36_000 + 17 * 60 + 59, 0).minute(), 17);
    assert_eq!(Timestamp::new(-1, 0).minute(), 59);
}
