use sql_client::retry_enumerators::sql_exponential_interval_enumerator::SqlExponentialIntervalEnumerator;
use sql_client::retry_enumerators::sql_incremental_interval_enumerator::SqlIncrementalIntervalEnumerator;
use sql_client::retry_enumerators::validate;
use sql_client::SqlClientError;
use sql_client::TimeSpan;

#[test]
fn test_validate_accepts_legal_configurations() {
    // An ordinary configuration.
    assert!(validate(
        &TimeSpan::from_secs(1),
        &TimeSpan::from_secs(20),
        &TimeSpan::from_secs(5),
    )
    .is_ok());
    // Everything at zero.
    assert!(validate(&TimeSpan::zero(), &TimeSpan::zero(), &TimeSpan::zero()).is_ok());
    // Everything exactly at the 120 s limit.
    assert!(validate(
        &TimeSpan::from_secs(120),
        &TimeSpan::from_secs(120),
        &TimeSpan::from_secs(120),
    )
    .is_ok());
    // A minimum equal to the maximum.
    assert!(validate(
        &TimeSpan::from_secs(2),
        &TimeSpan::from_secs(7),
        &TimeSpan::from_secs(7),
    )
    .is_ok());
}

#[test]
fn test_validate_rejects_max_over_limit() {
    // One millisecond over the limit is enough, and the failure is
    // reported against the min parameter.
    let r = validate(
        &TimeSpan::from_secs(1),
        &TimeSpan::from_millis(120_001),
        &TimeSpan::from_secs(5),
    );
    match r {
        Err(SqlClientError::ArgumentOutOfRange(parameter, _)) => {
            assert_eq!("min_time_interval", parameter);
        }
        _ => panic!("expected an out-of-range error"),
    }
}

#[test]
fn test_validate_rejects_gap_over_limit() {
    let r = validate(
        &TimeSpan::from_millis(120_001),
        &TimeSpan::from_secs(20),
        &TimeSpan::from_secs(5),
    );
    match r {
        Err(SqlClientError::ArgumentOutOfRange(parameter, _)) => {
            assert_eq!("gap_time_interval", parameter);
        }
        _ => panic!("expected an out-of-range error"),
    }
}

#[test]
fn test_validate_rejects_max_below_min() {
    let r = validate(
        &TimeSpan::from_secs(1),
        &TimeSpan::from_secs(5),
        &TimeSpan::from_secs(6),
    );
    match r {
        Err(SqlClientError::ArgumentOutOfRange(parameter, _)) => {
            assert_eq!("max_time_interval", parameter);
        }
        _ => panic!("expected an out-of-range error"),
    }
}

#[test]
fn test_constructors_validate_their_intervals() {
    // A legal configuration constructs.
    assert!(SqlIncrementalIntervalEnumerator::new(
        TimeSpan::from_secs(1),
        TimeSpan::from_secs(10),
        TimeSpan::from_secs(5),
    )
    .is_ok());
    assert!(SqlExponentialIntervalEnumerator::new(
        TimeSpan::from_secs(1),
        TimeSpan::from_secs(20),
        TimeSpan::from_secs(5),
    )
    .is_ok());
    // An illegal one is rejected by every validated constructor.
    assert!(SqlIncrementalIntervalEnumerator::new(
        TimeSpan::from_secs(1),
        TimeSpan::from_secs(5),
        TimeSpan::from_secs(6),
    )
    .is_err());
    assert!(SqlExponentialIntervalEnumerator::new(
        TimeSpan::from_secs(121),
        TimeSpan::from_secs(20),
        TimeSpan::from_secs(5),
    )
    .is_err());
    assert!(
        sql_client::retry_enumerators2::SqlExponentialIntervalEnumerator::new(
            TimeSpan::from_secs(1),
            TimeSpan::from_secs(121),
            TimeSpan::from_secs(5),
        )
        .is_err()
    );
    assert!(sql_client::sql_retry_interval::SqlExponentialIntervalEnumerator::new(
        TimeSpan::from_secs(1),
        TimeSpan::from_secs(121),
        TimeSpan::from_secs(5),
    )
    .is_err());
}
