//! test suite for the timing subsystem

use timberwolf::timing::{RevLimiter, RevLimiterBuilder, Speed, TimingError};

/// a whole number of milliseconds as the nanosecond count the library uses
fn from_millis(ms: u64) -> u64 {
    ms * 1_000_000
}

#[test]
fn revlimiter_waits_when_ahead() {
    assert_eq!(
        RevLimiter::calculate_wait(from_millis(1), from_millis(15), from_millis(0)),
        from_millis(14)
    );
}

#[test]
fn revlimiter_continues_when_on_time() {
    assert_eq!(
        RevLimiter::calculate_wait(from_millis(15), from_millis(15), from_millis(0)),
        from_millis(0)
    );
}

#[test]
fn revlimiter_continues_when_behind() {
    assert_eq!(
        RevLimiter::calculate_wait(from_millis(19), from_millis(15), from_millis(0)),
        from_millis(0)
    );
}

#[test]
fn revlimiter_decreases_lag_when_ahead() {
    assert_eq!(
        RevLimiter::calculate_lag(from_millis(1), from_millis(15), from_millis(100), true),
        from_millis(86)
    );
}

#[test]
fn revlimiter_keeps_lag_when_on_time() {
    assert_eq!(
        RevLimiter::calculate_lag(from_millis(15), from_millis(15), from_millis(100), true),
        from_millis(100)
    );
}

#[test]
fn revlimiter_increases_lag_when_behind() {
    assert_eq!(
        RevLimiter::calculate_lag(from_millis(27), from_millis(15), from_millis(100), true),
        from_millis(112)
    );
}

#[test]
fn revlimiter_has_no_lag_without_catchup() {
    assert_eq!(
        RevLimiter::calculate_lag(from_millis(27), from_millis(15), from_millis(100), false),
        from_millis(0)
    );
}

#[test]
fn test_revlimiter_waits_when_ahead() {
    assert_eq!(
        RevLimiter::calculate_wait(from_millis(1), from_millis(15), from_millis(0)),
        from_millis(14)
    );
}

#[test]
fn test_revlimiter_continues_when_on_time() {
    assert_eq!(
        RevLimiter::calculate_wait(from_millis(15), from_millis(15), from_millis(0)),
        from_millis(0)
    );
}

#[test]
fn test_revlimiter_continues_when_behind() {
    assert_eq!(
        RevLimiter::calculate_wait(from_millis(19), from_millis(15), from_millis(0)),
        from_millis(0)
    );
}

#[test]
fn test_revlimiter_decreases_lag_when_ahead() {
    assert_eq!(
        RevLimiter::calculate_lag(from_millis(1), from_millis(15), from_millis(100), true),
        from_millis(86)
    );
}

#[test]
fn test_revlimiter_keeps_lag_when_on_time() {
    assert_eq!(
        RevLimiter::calculate_lag(from_millis(15), from_millis(15), from_millis(100), true),
        from_millis(100)
    );
}

#[test]
fn test_revlimiter_increases_lag_when_behind() {
    assert_eq!(
        RevLimiter::calculate_lag(from_millis(27), from_millis(15), from_millis(100), true),
        from_millis(112)
    );
}

#[test]
fn test_revlimiter_has_no_lag_without_catchup() {
    assert_eq!(
        RevLimiter::calculate_lag(from_millis(27), from_millis(15), from_millis(100), false),
        from_millis(0)
    );
}

#[test]
fn revlimiter_wait_is_zero_when_lag_covers_idle_time() {
    // only one millisecond elapsed, but twenty milliseconds of lag are owed
    assert_eq!(
        RevLimiter::calculate_wait(from_millis(1), from_millis(15), from_millis(20)),
        from_millis(0)
    );
}

#[test]
fn revlimiter_lag_saturates_at_the_machine_limit() {
    // the accrued excess would exceed what a u64 can hold, so it caps there
    assert_eq!(RevLimiter::calculate_lag(u64::MAX, 1, 5, true), u64::MAX);
}

#[test]
fn revlimiter_rejects_zero_interval() {
    let result = RevLimiter::new(false, false, 0, Speed { numer: 1, denom: 1 });
    assert!(matches!(result, Err(TimingError::InvalidConfiguration)));
}

#[test]
fn revlimiter_rejects_zero_speed_denominator() {
    let result = RevLimiter::new(false, false, from_millis(15), Speed { numer: 1, denom: 0 });
    assert!(matches!(result, Err(TimingError::InvalidConfiguration)));
}

#[test]
fn revlimiter_rejects_zero_frequency() {
    let result = RevLimiter::new_from_frequency(false, false, 0, Speed { numer: 1, denom: 1 });
    assert!(matches!(result, Err(TimingError::InvalidConfiguration)));
}

#[test]
fn revlimiter_frequency_maps_to_interval() {
    let limiter =
        RevLimiter::new_from_frequency(false, false, 20, Speed { numer: 1, denom: 1 }).unwrap();
    assert_eq!(limiter.interval, from_millis(50));
}

#[test]
fn revlimiter_lockstep_delta_is_scaled_interval() {
    // at double speed a lockstep iteration reports twice the interval
    let limiter =
        RevLimiter::new(true, false, from_millis(15), Speed { numer: 2, denom: 1 }).unwrap();
    assert_eq!(limiter.begin(), from_millis(30));
}

#[test]
fn revlimiter_lockstep_delta_saturates() {
    let limiter = RevLimiter::new(true, false, u64::MAX, Speed { numer: 2, denom: 1 }).unwrap();
    assert_eq!(limiter.begin(), u64::MAX);
}

#[test]
fn revlimiter_end_clears_lag_without_catchup() {
    let mut limiter =
        RevLimiter::new(false, false, from_millis(15), Speed { numer: 1, denom: 1 }).unwrap();
    let wait = limiter.end_with_elapsed(from_millis(19));
    assert_eq!(wait, from_millis(0));
    assert_eq!(limiter.lag, 0);
}

#[test]
fn revlimiter_end_pays_lag_out_of_idle_time() {
    let mut limiter =
        RevLimiter::new(false, true, from_millis(15), Speed { numer: 1, denom: 1 }).unwrap();
    limiter.lag = from_millis(4);
    let wait = limiter.end_with_elapsed(from_millis(1));
    // fourteen idle milliseconds remain; four of them go to the owed lag
    assert_eq!(wait, from_millis(10));
    assert_eq!(limiter.lag, 0);
}

#[test]
fn revlimiter_set_interval_validates() {
    let mut limiter =
        RevLimiter::new(false, false, from_millis(15), Speed { numer: 1, denom: 1 }).unwrap();
    assert!(limiter.set_interval(from_millis(20)).is_ok());
    assert_eq!(limiter.interval, from_millis(20));
    assert!(matches!(limiter.set_interval(0), Err(TimingError::InvalidConfiguration)));
    assert_eq!(limiter.interval, from_millis(20));
}

#[test]
fn revlimiter_set_frequency_validates() {
    let mut limiter =
        RevLimiter::new(false, false, from_millis(15), Speed { numer: 1, denom: 1 }).unwrap();
    assert!(limiter.set_frequency(100).is_ok());
    assert_eq!(limiter.interval, from_millis(10));
    assert!(matches!(limiter.set_frequency(0), Err(TimingError::InvalidConfiguration)));
    assert_eq!(limiter.interval, from_millis(10));
}

#[test]
fn builder_builds_configured_limiter() {
    let limiter = RevLimiterBuilder::new_from_interval(from_millis(15))
        .enable_lockstep()
        .enable_catchup()
        .build()
        .unwrap();
    assert!(limiter.lockstep_enabled);
    assert!(limiter.catchup_enabled);
    assert_eq!(limiter.interval, from_millis(15));
    assert_eq!(limiter.lag, 0);
}

#[test]
fn builder_toggles_back() {
    let limiter = RevLimiterBuilder::new_from_frequency(20)
        .enable_lockstep()
        .disable_lockstep()
        .enable_catchup()
        .disable_catchup()
        .build()
        .unwrap();
    assert!(!limiter.lockstep_enabled);
    assert!(!limiter.catchup_enabled);
    assert_eq!(limiter.interval, from_millis(50));
}

#[test]
fn builder_rejects_zero_interval() {
    let result = RevLimiterBuilder::new_from_interval(0).build();
    assert!(matches!(result, Err(TimingError::InvalidConfiguration)));
}

#[test]
fn builder_rejects_zero_frequency() {
    let result = RevLimiterBuilder::new_from_frequency(0).build();
    assert!(matches!(result, Err(TimingError::InvalidConfiguration)));
}
