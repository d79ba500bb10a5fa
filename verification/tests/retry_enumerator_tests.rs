use sql_client::retry_enumerators::sql_exponential_interval_enumerator::SqlExponentialIntervalEnumerator;
use sql_client::retry_enumerators::sql_fixed_interval_enumerator::SqlFixedIntervalEnumerator;
use sql_client::retry_enumerators::sql_incremental_interval_enumerator::SqlIncrementalIntervalEnumerator;
use sql_client::retry_enumerators::sql_none_interval_enumerator::SqlNoneIntervalEnumerator;
use sql_client::TimeSpan;

#[test]
fn test_none_interval_enumerator() {
    // Create the enumerator, eliminating the randomness so that our tests are repeatable.
    let mut subject = SqlNoneIntervalEnumerator::new().unwrap();
    // Move to the next interval, which should return "true".
    assert!(subject.move_next());
    // The current value should be the 0
    assert_eq!(0, subject.current().as_secs());
}

#[test]
fn test_fixed_interval_enumerator() {
    let gap_threshold = TimeSpan::from_secs(1);
    // Create the enumerator, eliminating the randomness so that our tests are repeatable.
    let mut subject = SqlFixedIntervalEnumerator::new_random(gap_threshold, 0).unwrap();
    // Move to the next interval, which should return "true".
    assert!(subject.move_next());
    // The current value should be the fixed gap
    assert_eq!(1, subject.current().as_secs());
    // Move to the next interval, which should return "true".
    assert!(subject.move_next());
    // The current value should be the fixed gap
    assert_eq!(1, subject.current().as_secs());
    // Reset the intervals
    subject.reset();
    // Move to the next interval, which should return "true".
    assert!(subject.move_next());
    // The current value should be the fixed gap
    assert_eq!(1, subject.current().as_secs());
}

#[test]
fn test_incremental_interval_enumerator() {
    let gap_threshold = TimeSpan::from_secs(1);
    let min_interval = TimeSpan::from_secs(5);
    let max_interval = TimeSpan::from_secs(10);
    // Create the enumerator, eliminating the randomness so that our tests are repeatable.
    let mut subject =
        SqlIncrementalIntervalEnumerator::new_random(gap_threshold, max_interval, min_interval, 0)
            .unwrap();
    // Move to the next interval, which should return "true".
    assert!(subject.move_next());
    // The current value should be the minimum
    assert_eq!(5, subject.current().as_secs());
    // Move to the next interval, which should return "true".
    assert!(subject.move_next());
    // The current value should have advanced by the gap
    assert_eq!(6, subject.current().as_secs());
    // Move to the next interval, which should return "true".
    assert!(subject.move_next());
    // The current value should have advanced by the gap
    assert_eq!(7, subject.current().as_secs());
    // Move to the next interval, which should return "true".
    assert!(subject.move_next());
    // The current value should have advanced by the gap
    assert_eq!(8, subject.current().as_secs());
    // Move to the next interval, which should return "true".
    assert!(subject.move_next());
    // The current value should have advanced by the gap
    assert_eq!(9, subject.current().as_secs());
    // Move to the next interval, which should return "true".
    assert!(subject.move_next());
    // The current value should have advanced by the gap
    assert_eq!(10, subject.current().as_secs());
    // Move to the next interval, which should return "false".
    assert!(!subject.move_next());
    // The current value should NOT have advanced
    assert_eq!(10, subject.current().as_secs());
    // Reset the intervals
    subject.reset();
    // Move to the next interval, which should return "true".
    assert!(subject.move_next());
    // The current value should be the minimum
    assert_eq!(5, subject.current().as_secs());
}

#[test]
fn sql_exponential_interval_enumerator_test_exponential_interval_enumerator() {
    let gap_threshold = TimeSpan::from_secs(1);
    let min_interval = TimeSpan::from_secs(5);
    let max_interval = TimeSpan::from_secs(20);
    // Create the enumerator, eliminating the randomness so that our tests are repeatable.
    let mut subject =
        SqlExponentialIntervalEnumerator::new_random(gap_threshold, max_interval, min_interval, 0)
            .unwrap();
    // Move to the next interval, which should return "true".
    assert!(subject.move_next());
    // The current value should be the minimum
    assert_eq!(5, subject.current().as_secs());
    // Move to the next interval, which should return "true".
    assert!(subject.move_next());
    // The current value should have advanced by the next exponent of the gap
    assert_eq!(8, subject.current().as_secs());
    // Move to the next interval, which should return "true".
    assert!(subject.move_next());
    // The current value should have advanced by the next exponent of the gap
    assert_eq!(13, subject.current().as_secs());
    // Move to the next interval, which should return "true".
    assert!(subject.move_next());
    // The current value should have advanced by the next exponent of the gap
    assert_eq!(20, subject.current().as_secs());
    // Move to the next interval, which should return "false".
    assert!(!subject.move_next());
    // The current value should NOT have advanced
    assert_eq!(20, subject.current().as_secs());
    // Reset the intervals
    subject.reset();
    // Move to the next interval, which should return "true".
    assert!(subject.move_next());
    // The current value should be the minimum
    assert_eq!(5, subject.current().as_secs());
}

#[test]
fn mod_test_exponential_interval_enumerator() {
    let gap_threshold = TimeSpan::from_secs(1);
    let min_interval = TimeSpan::from_secs(5);
    let max_interval = TimeSpan::from_secs(20);
    // Create the enumerator, eliminating the randomness so that our tests are repeatable.
    let mut subject = sql_client::retry_enumerators2::SqlExponentialIntervalEnumerator::new_random(
        gap_threshold,
        max_interval,
        min_interval,
        0,
    )
    .unwrap();
    // Move to the next interval, which should return "true".
    assert!(subject.move_next());
    // The current value should be the minimum
    assert_eq!(5, subject.current().as_secs());
    // Move to the next interval, which should return "true".
    assert!(subject.move_next());
    // The current value should have advanced by the next exponent of the gap
    assert_eq!(8, subject.current().as_secs());
    // Move to the next interval, which should return "true".
    assert!(subject.move_next());
    // The current value should have advanced by the next exponent of the gap
    assert_eq!(13, subject.current().as_secs());
    // Move to the next interval, which should return "true".
    assert!(subject.move_next());
    // The current value should have advanced by the next exponent of the gap
    assert_eq!(20, subject.current().as_secs());
    // Move to the next interval, which should return "false".
    assert!(!subject.move_next());
    // The current value should NOT have advanced
    assert_eq!(20, subject.current().as_secs());
    // Reset the intervals
    subject.reset();
    // Move to the next interval, which should return "true".
    assert!(subject.move_next());
    // The current value should be the minimum
    assert_eq!(5, subject.current().as_secs());
}

#[test]
fn sql_retry_interval_test_exponential_interval_enumerator() {
    let gap_threshold = TimeSpan::from_secs(1);
    let min_interval = TimeSpan::from_secs(5);
    let max_interval = TimeSpan::from_secs(20);
    // Create the enumerator, eliminating the randomness so that our tests are repeatable.
    let mut subject = sql_client::sql_retry_interval::SqlExponentialIntervalEnumerator::new_random(
        gap_threshold,
        max_interval,
        min_interval,
        0,
    )
    .unwrap();
    // Move to the next interval, which should return "true".
    assert!(subject.move_next());
    // The current value should be the minimum
    assert_eq!(5, subject.current().as_secs());
    // Move to the next interval, which should return "true".
    assert!(subject.move_next());
    // The current value should have advanced by the next exponent of the gap
    assert_eq!(8, subject.current().as_secs());
    // Move to the next interval, which should return "true".
    assert!(subject.move_next());
    // The current value should have advanced by the next exponent of the gap
    assert_eq!(13, subject.current().as_secs());
    // Move to the next interval, which should return "true".
    assert!(subject.move_next());
    // The current value should have advanced by the next exponent of the gap
    assert_eq!(20, subject.current().as_secs());
    // Move to the next interval, which should return "false".
    assert!(!subject.move_next());
    // The current value should NOT have advanced
    assert_eq!(20, subject.current().as_secs());
}
