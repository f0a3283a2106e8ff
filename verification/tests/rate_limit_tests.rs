use x402_escrow::errors::EscrowError;
use x402_escrow::rate_limit::{check_rate_limit, get_rate_limits, RateLimiter, VerificationLevel};

fn fresh_limiter(level: VerificationLevel) -> RateLimiter {
    RateLimiter {
        entity: [9u8; 32],
        verification_level: level,
        transactions_last_hour: 0,
        transactions_last_day: 0,
        disputes_last_day: 0,
        last_hour_check: 0,
        last_day_check: 0,
    }
}

#[test]
fn tier_limits_match_schedule() {
    assert_eq!(get_rate_limits(VerificationLevel::Basic), (1, 10, 3));
    assert_eq!(get_rate_limits(VerificationLevel::Staked), (10, 100, 10));
    assert_eq!(get_rate_limits(VerificationLevel::Social), (50, 500, 50));
    assert_eq!(get_rate_limits(VerificationLevel::KYC), (1000, 10000, 1000));
}

#[test]
fn basic_tier_allows_one_per_hour_and_resets() {
    let mut limiter = fresh_limiter(VerificationLevel::Basic);
    let now = 10 * 3600;

    assert_eq!(check_rate_limit(&mut limiter, now), Ok(()));
    assert_eq!(limiter.transactions_last_hour, 1);

    // Second operation in the same hour bucket is rejected and changes
    // nothing.
    assert_eq!(
        check_rate_limit(&mut limiter, now + 60),
        Err(EscrowError::RateLimitExceeded)
    );
    assert_eq!(limiter.transactions_last_hour, 1);

    // Once the hour bucket advances, the counter resets and the operation
    // succeeds again.
    assert_eq!(check_rate_limit(&mut limiter, now + 3600), Ok(()));
    assert_eq!(limiter.transactions_last_hour, 1);
    assert_eq!(limiter.transactions_last_day, 2);
}

#[test]
fn daily_ceiling_holds_across_hours() {
    let mut limiter = fresh_limiter(VerificationLevel::Basic);
    // One operation in each of ten distinct hours of the same day.
    for h in 0..10i64 {
        assert_eq!(check_rate_limit(&mut limiter, h * 3600), Ok(()));
    }
    assert_eq!(limiter.transactions_last_day, 10);
    // The eleventh hits the daily ceiling even in a fresh hour.
    assert_eq!(
        check_rate_limit(&mut limiter, 10 * 3600),
        Err(EscrowError::RateLimitExceeded)
    );
    // A new day clears the daily counters.
    assert_eq!(check_rate_limit(&mut limiter, 24 * 3600), Ok(()));
    assert_eq!(limiter.transactions_last_day, 1);
}

#[test]
fn day_rollover_clears_dispute_counter_too() {
    let mut limiter = fresh_limiter(VerificationLevel::Staked);
    limiter.disputes_last_day = 7;
    assert_eq!(check_rate_limit(&mut limiter, 86400 + 5), Ok(()));
    assert_eq!(limiter.disputes_last_day, 0);
}
