//! Refund policy: quality score to refund percentage, and the exact split of
//! an escrowed amount into refund and payment.

use vstd::prelude::*;
use crate::errors::EscrowError;

verus! {

/// Refund percentage owed for a quality score, on the fixed tiered schedule:
/// 0..=49 -> 100%, 50..=64 -> 75%, 65..=79 -> 35%, 80..=255 -> 0%.
pub open spec fn spec_refund_from_quality(quality_score: u8) -> u8 {
    if quality_score <= 49 {
        100
    } else if quality_score <= 64 {
        75
    } else if quality_score <= 79 {
        35
    } else {
        0
    }
}

/// Maps a quality score to its refund percentage on the tiered schedule.
pub fn calculate_refund_from_quality(quality_score: u8) -> (r: u8)
    ensures
        r == spec_refund_from_quality(quality_score),
{
    if quality_score <= 49 {
        100
    } else if quality_score <= 64 {
        75
    } else if quality_score <= 79 {
        35
    } else {
        0
    }
}

/// The refund owed to the agent: `floor(amount * pct / 100)`.
pub open spec fn spec_refund_amount(amount: u64, pct: u8) -> int {
    (amount * pct) / 100
}

/// The payment owed to the provider: the rest of the amount.
pub open spec fn spec_payment_amount(amount: u64, pct: u8) -> int {
    amount - spec_refund_amount(amount, pct)
}

/// Refund and payment together return exactly the escrowed amount, and the
/// refund never exceeds it, for every amount and every valid percentage.
pub proof fn lemma_split_conserves_amount(amount: u64, pct: u8)
    requires
        pct <= 100,
    ensures
        0 <= spec_refund_amount(amount, pct) <= amount,
        spec_refund_amount(amount, pct) + spec_payment_amount(amount, pct) == amount,
{
    vstd::arithmetic::mul::lemma_mul_inequality(pct as int, 100, amount as int);
    vstd::arithmetic::div_mod::lemma_div_is_ordered(
        amount * pct,
        amount * 100,
        100,
    );
    vstd::arithmetic::div_mod::lemma_div_multiples_vanish(amount as int, 100);
    vstd::arithmetic::div_mod::lemma_div_pos_is_pos(amount * pct, 100);
    vstd::arithmetic::mul::lemma_mul_nonnegative(amount as int, pct as int);
}

/// Splits an escrowed amount by a refund percentage, computing
/// `floor(amount * pct / 100)` in wide arithmetic so no input overflows.
/// Returns `(refund_amount, payment_amount)`.
pub fn calculate_split(amount: u64, refund_percentage: u8) -> (r: (u64, u64))
    requires
        refund_percentage <= 100,
    ensures
        r.0 == spec_refund_amount(amount, refund_percentage),
        r.1 == spec_payment_amount(amount, refund_percentage),
        r.0 + r.1 == amount,
{
    proof {
        lemma_split_conserves_amount(amount, refund_percentage);
    }
    let wide: u128 = (amount as u128) * (refund_percentage as u128);
    let refund_amount: u64 = (wide / 100) as u64;
    let payment_amount: u64 = amount - refund_amount;
    (refund_amount, payment_amount)
}

} // verus!
