//! Per-entity reputation: historical dispute statistics, a bounded
//! reputation score derived from them, and the dispute-filing cost an
//! entity's history earns it.

use vstd::prelude::*;
use crate::errors::EscrowError;
use crate::keys::Pubkey;

verus! {

/// Cost of filing a dispute for an entity with no abusive history.
pub const BASE_DISPUTE_COST: u64 = 1_000_000;

/// Role a tracked entity plays.
#[derive(Clone, Copy, Debug, PartialEq, Eq, Structural)]
pub enum EntityType {
    /// The party that funds escrows and may dispute quality.
    Agent,
    /// The party that receives payment for service rendered.
    Provider,
}

/// Historical statistics and derived reputation of one participant.
#[derive(Clone, Copy, Debug)]
pub struct EntityReputation {
    /// Identity of the tracked participant.
    pub entity: Pubkey,
    /// Role the participant plays.
    pub entity_type: EntityType,
    /// Resolutions this entity has been party to.
    pub total_transactions: u64,
    /// Disputes this entity has filed.
    pub disputes_filed: u64,
    /// Resolutions that went in this entity's favour.
    pub disputes_won: u64,
    /// Resolutions with a partial outcome.
    pub disputes_partial: u64,
    /// Resolutions that went against this entity.
    pub disputes_lost: u64,
    /// Running average of the quality this entity received, 0..=255.
    pub average_quality_received: u8,
    /// Derived reputation score, 0..=1000.
    pub reputation_score: u16,
    /// When the record was created.
    pub created_at: i64,
    /// When the record was last updated.
    pub last_updated: i64,
}

/// `a + b`, stopping at the largest 64-bit value.
pub open spec fn sat_add_u64(a: int, b: int) -> int {
    if a + b > u64::MAX {
        u64::MAX as int
    } else {
        a + b
    }
}

/// The accumulated quality total `avg * prev_count + q`, each step stopping
/// at the largest 64-bit value.
pub open spec fn spec_quality_total(avg: u8, prev_count: int, q: u8) -> int {
    let prod = if avg * prev_count > u64::MAX {
        u64::MAX as int
    } else {
        avg * prev_count
    };
    if prod + q > u64::MAX {
        u64::MAX as int
    } else {
        prod + q
    }
}

/// The updated running average after a resolution of perceived quality `q`:
/// `(avg * (new_total - 1) + q) / new_total`, integer division.
pub open spec fn spec_avg_update(avg: u8, new_total: int, q: u8) -> int {
    spec_quality_total(avg, new_total - 1, q) / new_total
}

/// The updated running average always fits in a byte.
pub proof fn lemma_avg_update_bounded(avg: u8, new_total: int, q: u8)
    requires
        1 <= new_total,
    ensures
        0 <= spec_avg_update(avg, new_total, q) <= 255,
{
    let total = spec_quality_total(avg, new_total - 1, q);
    assert(avg * (new_total - 1) <= 255 * (new_total - 1)) by {
        vstd::arithmetic::mul::lemma_mul_inequality(avg as int, 255, new_total - 1);
    }
    assert(avg * (new_total - 1) >= 0) by {
        vstd::arithmetic::mul::lemma_mul_nonnegative(avg as int, new_total - 1);
    }
    assert(total <= new_total * 255);
    vstd::arithmetic::div_mod::lemma_multiply_divide_le(total, new_total, 255);
    vstd::arithmetic::div_mod::lemma_div_pos_is_pos(total, new_total);
}

/// The reputation score an entity's counters earn: the bounded sum of a
/// transaction-volume component (capped at 500), a dispute-win-rate
/// component (capped at 300, neutral 150 with no disputes filed) and a
/// quality component (capped at 200), the sum itself capped at 1000. A
/// fresh entity scores the neutral 500.
pub open spec fn spec_reputation_score(rep: EntityReputation) -> int {
    if rep.total_transactions == 0 {
        500
    } else {
        let tx_score = (if rep.total_transactions > 100 {
            100int
        } else {
            rep.total_transactions as int
        }) * 5;
        let dispute_score = if rep.disputes_filed > 0 {
            let win_rate = (rep.disputes_won * 100) / (rep.disputes_filed as int);
            if win_rate * 3 > 300 {
                300int
            } else {
                win_rate * 3
            }
        } else {
            150int
        };
        let quality_score = if rep.average_quality_received * 2 > 200 {
            200int
        } else {
            rep.average_quality_received * 2
        };
        let total = tx_score + dispute_score + quality_score;
        if total > 1000 {
            1000
        } else {
            total
        }
    }
}

/// The reputation score lies in 0..=1000 for every possible set of counters.
pub proof fn lemma_reputation_score_bounded(rep: EntityReputation)
    ensures
        0 <= spec_reputation_score(rep) <= 1000,
{
    if rep.total_transactions != 0 && rep.disputes_filed > 0 {
        vstd::arithmetic::mul::lemma_mul_nonnegative(
            rep.disputes_won as int,
            100,
        );
        vstd::arithmetic::div_mod::lemma_div_pos_is_pos(
            rep.disputes_won * 100,
            rep.disputes_filed as int,
        );
    }
}

/// The reputation score depends on the stored counters alone: two records
/// with the same counters score the same, whatever else they hold.
pub proof fn lemma_reputation_score_is_pure(a: EntityReputation, b: EntityReputation)
    requires
        a.total_transactions == b.total_transactions,
        a.disputes_filed == b.disputes_filed,
        a.disputes_won == b.disputes_won,
        a.average_quality_received == b.average_quality_received,
    ensures
        spec_reputation_score(a) == spec_reputation_score(b),
{
}

/// Recomputes an entity's reputation score from its stored counters.
pub fn calculate_reputation_score(reputation: &EntityReputation) -> (r: u16)
    ensures
        r == spec_reputation_score(*reputation),
{
    proof {
        lemma_reputation_score_bounded(*reputation);
    }
    if reputation.total_transactions == 0 {
        return 500;
    }
    let tx_score: u16 = if reputation.total_transactions > 100 {
        500
    } else {
        (reputation.total_transactions as u16) * 5
    };
    let dispute_score: u16 = if reputation.disputes_filed > 0 {
        let win_rate: u128 = ((reputation.disputes_won as u128) * 100) / (
        reputation.disputes_filed as u128);
        if win_rate * 3 > 300 {
            300
        } else {
            (win_rate * 3) as u16
        }
    } else {
        150
    };
    let quality_score: u16 = if (reputation.average_quality_received as u16) * 2 > 200 {
        200
    } else {
        (reputation.average_quality_received as u16) * 2
    };
    let total: u16 = tx_score + dispute_score + quality_score;
    if total > 1000 {
        1000
    } else {
        total
    }
}

/// The cost of filing a dispute, scaled by the entity's historical dispute
/// rate: up to 20% of transactions disputed costs the base, 21-40% twice,
/// 41-60% five times, beyond that ten times.
pub open spec fn spec_dispute_cost(rep: EntityReputation) -> int {
    if rep.total_transactions == 0 {
        BASE_DISPUTE_COST as int
    } else {
        let dispute_rate = (rep.disputes_filed * 100) / (rep.total_transactions as int);
        let multiplier: int = if dispute_rate <= 20 {
            1
        } else if dispute_rate <= 40 {
            2
        } else if dispute_rate <= 60 {
            5
        } else {
            10
        };
        BASE_DISPUTE_COST * multiplier
    }
}

/// Computes the dispute-filing cost an entity's history earns it.
pub fn calculate_dispute_cost(reputation: &EntityReputation) -> (r: u64)
    ensures
        r == spec_dispute_cost(*reputation),
{
    if reputation.total_transactions == 0 {
        return BASE_DISPUTE_COST;
    }
    let dispute_rate: u128 = ((reputation.disputes_filed as u128) * 100) / (
    reputation.total_transactions as u128);
    let multiplier: u64 = if dispute_rate <= 20 {
        1
    } else if dispute_rate <= 40 {
        2
    } else if dispute_rate <= 60 {
        5
    } else {
        10
    };
    BASE_DISPUTE_COST * multiplier
}

/// Creates a fresh reputation record: no history, neutral score of 500.
pub fn init_reputation(entity: &Pubkey, now: i64) -> (r: EntityReputation)
    ensures
        r.entity == *entity,
        r.entity_type == EntityType::Agent,
        r.total_transactions == 0,
        r.disputes_filed == 0,
        r.disputes_won == 0,
        r.disputes_partial == 0,
        r.disputes_lost == 0,
        r.average_quality_received == 0,
        r.reputation_score == 500,
        r.reputation_score == spec_reputation_score(r),
        r.created_at == now,
        r.last_updated == now,
{
    EntityReputation {
        entity: *entity,
        entity_type: EntityType::Agent,
        total_transactions: 0,
        disputes_filed: 0,
        disputes_won: 0,
        disputes_partial: 0,
        disputes_lost: 0,
        average_quality_received: 0,
        reputation_score: 500,
        created_at: now,
        last_updated: now,
    }
}

/// The reputation record after a resolution is applied to the party that
/// perceived quality `q`: transaction count up by one (stopping at the
/// 64-bit maximum), running average folded with `q`, the outcome bucket
/// named by `won`/`partial` (else lost) up by one, the score recomputed
/// from the new counters, and `last_updated` set to `now`.
pub open spec fn spec_rep_after_resolution(
    rep: EntityReputation,
    q: u8,
    won: bool,
    partial: bool,
    now: i64,
) -> EntityReputation {
    let total = sat_add_u64(rep.total_transactions as int, 1);
    let counters = EntityReputation {
        total_transactions: total as u64,
        average_quality_received: spec_avg_update(rep.average_quality_received, total, q) as u8,
        disputes_won: if won {
            sat_add_u64(rep.disputes_won as int, 1) as u64
        } else {
            rep.disputes_won
        },
        disputes_partial: if !won && partial {
            sat_add_u64(rep.disputes_partial as int, 1) as u64
        } else {
            rep.disputes_partial
        },
        disputes_lost: if !won && !partial {
            sat_add_u64(rep.disputes_lost as int, 1) as u64
        } else {
            rep.disputes_lost
        },
        last_updated: now,
        ..rep
    };
    EntityReputation { reputation_score: spec_reputation_score(counters) as u16, ..counters }
}

/// The agent's view of a resolution: perceived quality is the raw score;
/// the agent wins when at least 75% was refunded, draws from 25%.
pub open spec fn spec_agent_rep_update(
    rep: EntityReputation,
    quality_score: u8,
    refund_percentage: u8,
    now: i64,
) -> EntityReputation {
    spec_rep_after_resolution(
        rep,
        quality_score,
        refund_percentage >= 75,
        refund_percentage >= 25,
        now,
    )
}

/// The provider's view of a resolution: perceived quality is the inverse of
/// the refund; the provider wins when at most 25% was refunded, draws up
/// to 75%.
pub open spec fn spec_api_rep_update(
    rep: EntityReputation,
    refund_percentage: u8,
    now: i64,
) -> EntityReputation {
    let delivered: u8 = if refund_percentage > 100 {
        0u8
    } else {
        (100 - refund_percentage) as u8
    };
    spec_rep_after_resolution(
        rep,
        delivered,
        refund_percentage <= 25,
        refund_percentage <= 75,
        now,
    )
}

/// Applies one resolution to a reputation record: bumps the transaction
/// count, folds `q` into the running average, bumps the outcome bucket and
/// recomputes the score.
fn apply_resolution(rep: &mut EntityReputation, q: u8, won: bool, partial: bool, now: i64)
    ensures
        *final(rep) == spec_rep_after_resolution(*old(rep), q, won, partial, now),
{
    rep.total_transactions = if rep.total_transactions == u64::MAX {
        u64::MAX
    } else {
        rep.total_transactions + 1
    };
    let new_total = rep.total_transactions;
    proof {
        vstd::arithmetic::mul::lemma_mul_upper_bound(
            old(rep).average_quality_received as int,
            255,
            new_total - 1,
            u64::MAX as int,
        );
    }
    let prod: u128 = (rep.average_quality_received as u128) * ((new_total - 1) as u128);
    let prod_sat: u64 = if prod > u64::MAX as u128 {
        u64::MAX
    } else {
        prod as u64
    };
    let total_quality: u64 = if prod_sat > u64::MAX - (q as u64) {
        u64::MAX
    } else {
        prod_sat + (q as u64)
    };
    proof {
        lemma_avg_update_bounded(old(rep).average_quality_received, new_total as int, q);
    }
    rep.average_quality_received = (total_quality / new_total) as u8;
    if won {
        rep.disputes_won = if rep.disputes_won == u64::MAX {
            u64::MAX
        } else {
            rep.disputes_won + 1
        };
    } else if partial {
        rep.disputes_partial = if rep.disputes_partial == u64::MAX {
            u64::MAX
        } else {
            rep.disputes_partial + 1
        };
    } else {
        rep.disputes_lost = if rep.disputes_lost == u64::MAX {
            u64::MAX
        } else {
            rep.disputes_lost + 1
        };
    }
    rep.last_updated = now;
    let score = calculate_reputation_score(rep);
    proof {
        lemma_reputation_score_bounded(*rep);
    }
    rep.reputation_score = score;
}

/// Updates the agent's reputation after a dispute resolution of the given
/// quality score and refund percentage.
pub fn update_agent_reputation(
    reputation: &mut EntityReputation,
    quality_score: u8,
    refund_percentage: u8,
    now: i64,
)
    ensures
        *final(reputation) == spec_agent_rep_update(
            *old(reputation),
            quality_score,
            refund_percentage,
            now,
        ),
{
    apply_resolution(
        reputation,
        quality_score,
        refund_percentage >= 75,
        refund_percentage >= 25,
        now,
    );
}

/// Updates the provider's reputation after a dispute resolution; the
/// quality it delivered is the inverse of the refund percentage.
pub fn update_api_reputation(reputation: &mut EntityReputation, refund_percentage: u8, now: i64)
    ensures
        *final(reputation) == spec_api_rep_update(*old(reputation), refund_percentage, now),
{
    let delivered: u8 = if refund_percentage > 100 {
        0
    } else {
        100 - refund_percentage
    };
    apply_resolution(
        reputation,
        delivered,
        refund_percentage <= 25,
        refund_percentage <= 75,
        now,
    );
}

/// Records one resolution, perceived as the raw quality score, on a
/// reputation record. Never fails; the `Result` mirrors the operation
/// envelope of the other state-changing calls.
pub fn update_reputation(
    reputation: &mut EntityReputation,
    quality_score: u8,
    refund_percentage: u8,
    now: i64,
) -> (r: Result<(), EscrowError>)
    ensures
        r == Ok::<(), EscrowError>(()),
        *final(reputation) == spec_agent_rep_update(
            *old(reputation),
            quality_score,
            refund_percentage,
            now,
        ),
{
    update_agent_reputation(reputation, quality_score, refund_percentage, now);
    Ok(())
}

} // verus!
