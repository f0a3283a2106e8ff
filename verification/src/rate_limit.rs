//! Per-entity rate limiting by verification tier, with lazily reset hourly
//! and daily counters.

use vstd::prelude::*;
use crate::errors::EscrowError;
use crate::keys::Pubkey;

verus! {

/// How strongly an entity's identity has been verified; stronger
/// verification buys higher ceilings.
#[derive(Clone, Copy, Debug, PartialEq, Eq, Structural)]
pub enum VerificationLevel {
    /// Bare wallet: lowest limits.
    Basic,
    /// Stake posted: medium limits.
    Staked,
    /// Social identity linked: high limits.
    Social,
    /// Identity verified: effectively unlimited.
    KYC,
}

/// Rolling transaction counters for one entity.
#[derive(Clone, Copy, Debug)]
pub struct RateLimiter {
    /// Identity of the limited entity.
    pub entity: Pubkey,
    /// Verification tier that sets the ceilings.
    pub verification_level: VerificationLevel,
    /// Transactions seen in the current hour bucket.
    pub transactions_last_hour: u16,
    /// Transactions seen in the current day bucket.
    pub transactions_last_day: u16,
    /// Disputes seen in the current day bucket.
    pub disputes_last_day: u16,
    /// Hour bucket the hourly counter belongs to.
    pub last_hour_check: i64,
    /// Day bucket the daily counters belong to.
    pub last_day_check: i64,
}

/// The (hourly, daily, daily-dispute) ceilings of a verification tier.
pub open spec fn spec_rate_limits(level: VerificationLevel) -> (u16, u16, u16) {
    match level {
        VerificationLevel::Basic => (1, 10, 3),
        VerificationLevel::Staked => (10, 100, 10),
        VerificationLevel::Social => (50, 500, 50),
        VerificationLevel::KYC => (1000, 10000, 1000),
    }
}

/// Returns the (hourly, daily, daily-dispute) transaction ceilings of a
/// verification tier.
pub fn get_rate_limits(verification: VerificationLevel) -> (r: (u16, u16, u16))
    ensures
        r == spec_rate_limits(verification),
{
    match verification {
        VerificationLevel::Basic => (1, 10, 3),
        VerificationLevel::Staked => (10, 100, 10),
        VerificationLevel::Social => (50, 500, 50),
        VerificationLevel::KYC => (1000, 10000, 1000),
    }
}

/// The hour bucket a timestamp falls in.
pub open spec fn spec_hour_bucket(now: i64) -> int {
    now / 3600
}

/// The day bucket a timestamp falls in.
pub open spec fn spec_day_bucket(now: i64) -> int {
    now / 86400
}

/// The limiter state after its lazy reset at time `now`: the hourly counter
/// clears when the hour bucket has advanced past the stored marker, the
/// daily counters when the day bucket has.
pub open spec fn spec_after_reset(rl: RateLimiter, now: i64) -> RateLimiter {
    let hour_reset = spec_hour_bucket(now) > rl.last_hour_check;
    let day_reset = spec_day_bucket(now) > rl.last_day_check;
    RateLimiter {
        transactions_last_hour: if hour_reset {
            0u16
        } else {
            rl.transactions_last_hour
        },
        last_hour_check: if hour_reset {
            spec_hour_bucket(now) as i64
        } else {
            rl.last_hour_check
        },
        transactions_last_day: if day_reset {
            0u16
        } else {
            rl.transactions_last_day
        },
        disputes_last_day: if day_reset {
            0u16
        } else {
            rl.disputes_last_day
        },
        last_day_check: if day_reset {
            spec_day_bucket(now) as i64
        } else {
            rl.last_day_check
        },
        ..rl
    }
}

/// Whether the bucket-adjusted counters still sit below both ceilings.
pub open spec fn spec_rate_limit_ok(rl: RateLimiter, now: i64) -> bool {
    let reset = spec_after_reset(rl, now);
    let limits = spec_rate_limits(rl.verification_level);
    reset.transactions_last_hour < limits.0 && reset.transactions_last_day < limits.1
}

/// Checks an entity against its hourly and daily transaction ceilings and
/// records the transaction. Counters reset lazily when their hour or day
/// bucket advances. Fails with `RateLimitExceeded`, changing nothing, when
/// a ceiling is already met.
pub fn check_rate_limit(rate_limiter: &mut RateLimiter, now: i64) -> (r: Result<(), EscrowError>)
    requires
        now >= 0,
    ensures
        r is Ok <==> spec_rate_limit_ok(*old(rate_limiter), now),
        r is Ok ==> *final(rate_limiter) == (RateLimiter {
            transactions_last_hour: (spec_after_reset(*old(rate_limiter), now).transactions_last_hour
                + 1) as u16,
            transactions_last_day: (spec_after_reset(*old(rate_limiter), now).transactions_last_day
                + 1) as u16,
            ..spec_after_reset(*old(rate_limiter), now)
        }),
        r is Err ==> r == Err::<(), EscrowError>(EscrowError::RateLimitExceeded)
            && *final(rate_limiter) == *old(rate_limiter),
{
    let current_hour: i64 = ((now as u64) / 3600) as i64;
    let current_day: i64 = ((now as u64) / 86400) as i64;

    let snapshot = *rate_limiter;

    if current_hour > rate_limiter.last_hour_check {
        rate_limiter.transactions_last_hour = 0;
        rate_limiter.last_hour_check = current_hour;
    }
    if current_day > rate_limiter.last_day_check {
        rate_limiter.transactions_last_day = 0;
        rate_limiter.disputes_last_day = 0;
        rate_limiter.last_day_check = current_day;
    }

    let limits = get_rate_limits(rate_limiter.verification_level);

    if rate_limiter.transactions_last_hour >= limits.0
        || rate_limiter.transactions_last_day >= limits.1 {
        *rate_limiter = snapshot;
        return Err(EscrowError::RateLimitExceeded);
    }

    rate_limiter.transactions_last_hour = rate_limiter.transactions_last_hour + 1;
    rate_limiter.transactions_last_day = rate_limiter.transactions_last_day + 1;
    Ok(())
}

} // verus!
