use gateway_session::clock::interval_millis;
use gateway_session::clock::Timestamp;

fn at(sec: i64, nsec: i32) -> Timestamp {
    Timestamp { sec, nsec }
}

#[test]
fn new_accepts_nanoseconds_within_a_second() {
    assert_eq!(Timestamp::new(5, 0), Some(at(5, 0)));
    assert_eq!(Timestamp::new(-5, 999_999_999), Some(at(-5, 999_999_999)));
    assert_eq!(Timestamp::new(5, 1_000_000_000), None);
    assert_eq!(Timestamp::new(5, -1), None);
}

#[test]
fn add_millis_moves_forward() {
    assert_eq!(at(100, 0).add_millis(40_000), at(140, 0));
    assert_eq!(at(100, 250_000_000).add_millis(1_500), at(101, 750_000_000));
    assert_eq!(at(100, 0).add_millis(1), at(100, 1_000_000));
}

#[test]
fn add_millis_carries_into_the_seconds() {
    assert_eq!(at(100, 900_000_000).add_millis(250), at(101, 150_000_000));
    assert_eq!(at(100, 999_999_999).add_millis(1), at(101, 999_999));
}

#[test]
fn add_millis_moves_backward() {
    assert_eq!(at(100, 0).add_millis(-1), at(99, 999_000_000));
    assert_eq!(at(100, 500_000_000).add_millis(-1_500), at(99, 0));
    assert_eq!(at(0, 0).add_millis(-2_250), at(-3, 750_000_000));
}

#[test]
fn add_millis_of_nothing_changes_nothing() {
    assert_eq!(at(7, 123_456_789).add_millis(0), at(7, 123_456_789));
}

#[test]
fn can_add_millis_knows_the_ends_of_time() {
    assert!(at(0, 0).can_add_millis(i64::MAX));
    assert!(at(0, 0).can_add_millis(i64::MIN));
    assert!(at(i64::MAX, 0).can_add_millis(0));
    assert!(at(i64::MAX, 0).can_add_millis(999));
    assert!(!at(i64::MAX, 0).can_add_millis(1_000));
    assert!(!at(i64::MAX, 999_000_000).can_add_millis(1));
    assert!(at(i64::MAX, 998_999_999).can_add_millis(1));
    assert!(at(i64::MAX - 1, 0).can_add_millis(1_999));
    assert!(!at(i64::MAX - 1, 0).can_add_millis(2_000));
    assert!(at(i64::MIN, 0).can_add_millis(0));
    assert!(!at(i64::MIN, 0).can_add_millis(-1));
    assert!(at(i64::MIN, 1_000_000).can_add_millis(-1));
    assert!(at(i64::MIN + 1, 0).can_add_millis(-1_000));
    assert!(!at(i64::MIN + 1, 0).can_add_millis(-1_001));
}

#[test]
fn add_millis_reaches_the_last_second_it_is_allowed() {
    assert_eq!(
        at(i64::MAX - 1, 999_999_999).add_millis(999),
        at(i64::MAX, 998_999_999)
    );
    assert_eq!(at(i64::MAX, 0).add_millis(999), at(i64::MAX, 999_000_000));
    assert_eq!(
        at(i64::MAX, 500_000_000).add_millis(-600),
        at(i64::MAX - 1, 900_000_000)
    );
    assert_eq!(at(i64::MIN + 1, 0).add_millis(-1_000), at(i64::MIN, 0));
    assert_eq!(at(i64::MIN, 1_000_000).add_millis(-1), at(i64::MIN, 0));
    assert_eq!(at(i64::MIN, 0).add_millis(1), at(i64::MIN, 1_000_000));
}

#[test]
fn add_millis_takes_the_longest_intervals() {
    assert_eq!(
        at(0, 0).add_millis(i64::MAX),
        at(9_223_372_036_854_775, 807_000_000)
    );
    assert_eq!(
        at(0, 0).add_millis(i64::MIN),
        at(-9_223_372_036_854_776, 192_000_000)
    );
}

#[test]
fn reached_compares_seconds_first() {
    assert!(at(10, 0).reached(&at(10, 0)));
    assert!(at(10, 1).reached(&at(10, 0)));
    assert!(!at(10, 0).reached(&at(10, 1)));
    assert!(at(11, 0).reached(&at(10, 999_999_999)));
    assert!(!at(9, 999_999_999).reached(&at(10, 0)));
    assert!(at(-1, 0).reached(&at(-2, 999_999_999)));
}

#[test]
fn interval_millis_reads_the_interval_as_signed() {
    assert_eq!(interval_millis(0), 0);
    assert_eq!(interval_millis(40_000), 40_000);
    assert_eq!(interval_millis(i64::MAX as u64), i64::MAX);
    assert_eq!(interval_millis(i64::MAX as u64 + 1), i64::MIN);
    assert_eq!(interval_millis(u64::MAX), -1);
    assert_eq!(interval_millis(u64::MAX - 41), (u64::MAX - 41) as i64);
}
