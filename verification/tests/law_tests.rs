use sql_client::retry_enumerators::sql_exponential_interval_enumerator::SqlExponentialIntervalEnumerator;
use sql_client::retry_enumerators::sql_fixed_interval_enumerator::SqlFixedIntervalEnumerator;
use sql_client::retry_enumerators::sql_incremental_interval_enumerator::SqlIncrementalIntervalEnumerator;
use sql_client::retry_enumerators::sql_none_interval_enumerator::SqlNoneIntervalEnumerator;
use sql_client::TimeSpan;

#[test]
fn test_reset_twice_equals_reset_once() {
    // Incremental: after one or two resets the observable state is the
    // same, and the next step floors at the minimum again.
    let mut once = SqlIncrementalIntervalEnumerator::new_random(
        TimeSpan::from_secs(1),
        TimeSpan::from_secs(10),
        TimeSpan::from_secs(5),
        0,
    )
    .unwrap();
    let mut twice = once.clone();
    assert!(once.move_next());
    assert!(once.move_next());
    assert!(twice.move_next());
    assert!(twice.move_next());
    once.reset();
    twice.reset();
    twice.reset();
    assert_eq!(once.current().as_millis(), twice.current().as_millis());
    assert!(once.move_next());
    assert!(twice.move_next());
    assert_eq!(5, once.current().as_secs());
    assert_eq!(5, twice.current().as_secs());

    // Exponential: the growth curve restarts identically after one or two
    // resets.
    let mut once = SqlExponentialIntervalEnumerator::new_random(
        TimeSpan::from_secs(1),
        TimeSpan::from_secs(20),
        TimeSpan::from_secs(5),
        0,
    )
    .unwrap();
    let mut twice = once.clone();
    assert!(once.move_next());
    assert!(twice.move_next());
    once.reset();
    twice.reset();
    twice.reset();
    assert!(once.move_next());
    assert!(twice.move_next());
    assert_eq!(once.current().as_millis(), twice.current().as_millis());

    // Fixed and none behave the same way trivially.
    let mut f = SqlFixedIntervalEnumerator::new_random(TimeSpan::from_secs(1), 0).unwrap();
    f.reset();
    f.reset();
    assert_eq!(0, f.current().as_millis());
    let mut n = SqlNoneIntervalEnumerator::new().unwrap();
    n.reset();
    n.reset();
    assert_eq!(0, n.current().as_millis());
}

#[test]
fn test_successful_intervals_never_decrease() {
    // Incremental, with a genuinely random window: every committed value
    // is at least the one before it.
    let mut e = SqlIncrementalIntervalEnumerator::new(
        TimeSpan::from_secs(1),
        TimeSpan::from_secs(10),
        TimeSpan::from_secs(5),
    )
    .unwrap();
    let mut previous: u64 = 0;
    while e.move_next() {
        let current = e.current().as_millis();
        assert!(current >= previous);
        previous = current;
    }

    // Exponential, with a degenerate window: the committed sequence grows.
    let mut e = SqlExponentialIntervalEnumerator::new_random(
        TimeSpan::from_secs(1),
        TimeSpan::from_secs(20),
        TimeSpan::from_secs(5),
        0,
    )
    .unwrap();
    let mut previous: u64 = 0;
    while e.move_next() {
        let current = e.current().as_millis();
        assert!(current >= previous);
        previous = current;
    }
}

#[test]
fn test_candidate_equal_to_max_is_accepted() {
    // Incremental with a degenerate one-second step reaches its maximum of
    // 10 s exactly, and that boundary candidate is accepted.
    let mut e = SqlIncrementalIntervalEnumerator::new_random(
        TimeSpan::from_secs(1),
        TimeSpan::from_secs(10),
        TimeSpan::from_secs(5),
        0,
    )
    .unwrap();
    let mut accepted: Vec<u64> = Vec::new();
    while e.move_next() {
        accepted.push(e.current().as_secs());
    }
    assert_eq!(Some(&10), accepted.last());

    // Exponential: the candidate 5 + 15 * 1 s lands exactly on the 20 s
    // maximum and is accepted.
    let mut e = SqlExponentialIntervalEnumerator::new_random(
        TimeSpan::from_secs(1),
        TimeSpan::from_secs(20),
        TimeSpan::from_secs(5),
        0,
    )
    .unwrap();
    let mut accepted: Vec<u64> = Vec::new();
    while e.move_next() {
        accepted.push(e.current().as_secs());
    }
    assert_eq!(vec![5, 8, 13, 20], accepted);
}

#[test]
fn test_fixed_interval_draws_stay_in_the_window() {
    // With randomness 0.2 around a one-second gap, every draw lies in
    // [800 ms, 1200 ms), and the strategy never exhausts.
    let mut e = SqlFixedIntervalEnumerator::new(TimeSpan::from_secs(1)).unwrap();
    for _ in 0..50 {
        assert!(e.move_next());
        let ms = e.current().as_millis();
        assert!((800..1200).contains(&ms));
    }
}

#[test]
fn test_none_interval_state_never_changes() {
    let mut e = SqlNoneIntervalEnumerator::new().unwrap();
    for _ in 0..10 {
        assert!(e.move_next());
        assert_eq!(0, e.current().as_millis());
    }
    e.reset();
    assert_eq!(0, e.current().as_millis());
}

#[test]
fn test_exhausted_exponential_counts_rejected_proposals() {
    // After exhaustion the early variant's reset restarts only the step
    // counter, so a sequence frozen at its maximum stays exhausted.
    let mut e = sql_client::sql_retry_interval::SqlExponentialIntervalEnumerator::new_random(
        TimeSpan::from_secs(1),
        TimeSpan::from_secs(20),
        TimeSpan::from_secs(5),
        0,
    )
    .unwrap();
    while e.move_next() {}
    assert_eq!(20, e.current().as_secs());
    e.reset();
    assert!(!e.move_next());
    assert_eq!(20, e.current().as_secs());
}
