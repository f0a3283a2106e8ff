//! The admin-curated registry of trusted oracles and the consensus
//! parameters a deployment resolves disputes with.

use vstd::prelude::*;
use crate::errors::EscrowError;
use crate::keys::{pubkey_eq, Pubkey};

verus! {

/// Most oracles a registry may hold, and most submissions one resolution
/// may carry.
pub const MAX_ORACLES: usize = 5;

/// Smallest admissible minimum-consensus threshold.
pub const MIN_CONSENSUS_ORACLES: u8 = 2;

/// How an oracle's attestations are verified.
#[derive(Clone, Copy, Debug, PartialEq, Eq, Structural)]
pub enum OracleType {
    /// Signs the canonical message; verified against the signature record.
    Ed25519,
    /// Writes an attested data feed; verified by feed freshness and value.
    Switchboard,
    /// Reserved for integrations with no verification procedure yet.
    Custom,
}

/// One trusted oracle: its identity, how it is verified, and a positive
/// weight (stored for a future weighted consensus; unread today).
#[derive(Clone, Copy, Debug)]
pub struct OracleConfig {
    /// The oracle's identity.
    pub pubkey: Pubkey,
    /// How the oracle's attestations are verified.
    pub oracle_type: OracleType,
    /// Stored weight, greater than zero.
    pub weight: u16,
}

/// The deployment's oracle registry.
#[derive(Debug)]
pub struct OracleRegistry {
    /// The only identity allowed to mutate the registry.
    pub admin: Pubkey,
    /// The trusted oracles, at most `MAX_ORACLES`, identities unique.
    pub oracles: Vec<OracleConfig>,
    /// Fewest oracle submissions a resolution must carry, at least 2.
    pub min_consensus: u8,
    /// Largest distance from the median a score may have, at most 50.
    pub max_score_deviation: u8,
    /// When the registry was created.
    pub created_at: i64,
    /// When the registry was last changed.
    pub updated_at: i64,
}

/// Well-formedness of a registry: bounded oracle list with unique
/// identities, and consensus parameters in their admissible ranges.
pub open spec fn spec_registry_wf(r: OracleRegistry) -> bool {
    &&& r.oracles@.len() <= MAX_ORACLES
    &&& r.min_consensus >= MIN_CONSENSUS_ORACLES
    &&& r.max_score_deviation <= 50
    &&& forall|i: int, j: int|
        0 <= i < j < r.oracles@.len() ==> r.oracles@[i].pubkey != r.oracles@[j].pubkey
}

/// Whether some registered oracle has this identity.
pub open spec fn spec_has_oracle(oracles: Seq<OracleConfig>, pk: Pubkey) -> bool {
    exists|i: int| 0 <= i < oracles.len() && oracles[i].pubkey == pk
}

/// The first registered oracle with this identity, if any.
pub open spec fn spec_find_oracle(oracles: Seq<OracleConfig>, pk: Pubkey) -> Option<OracleConfig>
    decreases oracles.len(),
{
    if oracles.len() == 0 {
        None
    } else if oracles[0].pubkey == pk {
        Some(oracles[0])
    } else {
        spec_find_oracle(oracles.drop_first(), pk)
    }
}

/// An oracle is found exactly when some registered oracle has its identity.
pub proof fn lemma_find_oracle_iff_has(oracles: Seq<OracleConfig>, pk: Pubkey)
    ensures
        spec_find_oracle(oracles, pk) is Some <==> spec_has_oracle(oracles, pk),
        spec_find_oracle(oracles, pk) matches Some(c) ==> c.pubkey == pk && oracles.contains(c),
    decreases oracles.len(),
{
    if oracles.len() > 0 && oracles[0].pubkey != pk {
        lemma_find_oracle_iff_has(oracles.drop_first(), pk);
        assert forall|i: int| 0 <= i < oracles.drop_first().len() implies oracles.drop_first()[i]
            == oracles[i + 1] by {}
        if spec_has_oracle(oracles, pk) {
            let i = choose|i: int| 0 <= i < oracles.len() && oracles[i].pubkey == pk;
            assert(oracles.drop_first()[i - 1] == oracles[i]);
        }
        if spec_find_oracle(oracles, pk) is Some {
            let c = spec_find_oracle(oracles, pk)->Some_0;
            assert(oracles.drop_first().contains(c));
            let i = choose|i: int|
                0 <= i < oracles.drop_first().len() && oracles.drop_first()[i] == c;
            assert(oracles[i + 1] == c);
        }
    }
}

/// Looks an oracle up in the registry by identity.
pub fn find_oracle(registry: &OracleRegistry, oracle: &Pubkey) -> (r: Option<OracleConfig>)
    ensures
        r == spec_find_oracle(registry.oracles@, *oracle),
{
    let ghost all = registry.oracles@;
    proof {
        assert(all.skip(0) =~= all);
    }
    let mut i: usize = 0;
    while i < registry.oracles.len()
        invariant
            i <= all.len(),
            all == registry.oracles@,
            spec_find_oracle(all, *oracle) == spec_find_oracle(all.skip(i as int), *oracle),
        decreases all.len() - i,
    {
        let config = registry.oracles[i];
        proof {
            assert(all.skip(i as int)[0] == all[i as int]);
            assert(all.skip(i as int).drop_first() =~= all.skip(i + 1));
        }
        if pubkey_eq(&config.pubkey, oracle) {
            return Some(config);
        }
        i += 1;
    }
    proof {
        assert(all.skip(all.len() as int).len() == 0);
    }
    None
}

/// The reason an `initialize_oracle_registry` call is rejected, if any.
pub open spec fn spec_initialize_registry_err(min_consensus: u8, max_score_deviation: u8) -> Option<
    EscrowError,
> {
    if min_consensus < MIN_CONSENSUS_ORACLES {
        Some(EscrowError::InsufficientOracleConsensus)
    } else if max_score_deviation > 50 {
        Some(EscrowError::InvalidQualityScore)
    } else {
        None
    }
}

/// Creates the oracle registry with its immutable consensus parameters: a
/// minimum consensus of at least two oracles and a maximum score deviation
/// of at most 50.
pub fn initialize_oracle_registry(
    admin: Pubkey,
    min_consensus: u8,
    max_score_deviation: u8,
    now: i64,
) -> (r: Result<OracleRegistry, EscrowError>)
    ensures
        r is Ok <==> spec_initialize_registry_err(min_consensus, max_score_deviation) is None,
        r is Err ==> Some(r->Err_0) == spec_initialize_registry_err(
            min_consensus,
            max_score_deviation,
        ),
        r matches Ok(reg) ==> {
            &&& reg.admin == admin
            &&& reg.oracles@.len() == 0
            &&& reg.min_consensus == min_consensus
            &&& reg.max_score_deviation == max_score_deviation
            &&& reg.created_at == now
            &&& reg.updated_at == now
            &&& spec_registry_wf(reg)
        },
{
    if min_consensus < MIN_CONSENSUS_ORACLES {
        return Err(EscrowError::InsufficientOracleConsensus);
    }
    if max_score_deviation > 50 {
        return Err(EscrowError::InvalidQualityScore);
    }
    Ok(
        OracleRegistry {
            admin,
            oracles: Vec::new(),
            min_consensus,
            max_score_deviation,
            created_at: now,
            updated_at: now,
        },
    )
}

/// The reason an `add_oracle` call is rejected, if any: only the admin may
/// add, the registry is capped, the weight must be positive and the
/// identity fresh.
pub open spec fn spec_add_oracle_err(
    registry: OracleRegistry,
    caller: Pubkey,
    oracle_pubkey: Pubkey,
    weight: u16,
) -> Option<EscrowError> {
    if caller != registry.admin {
        Some(EscrowError::Unauthorized)
    } else if registry.oracles@.len() >= MAX_ORACLES {
        Some(EscrowError::MaxOraclesReached)
    } else if weight == 0 {
        Some(EscrowError::InvalidOracleWeight)
    } else if spec_has_oracle(registry.oracles@, oracle_pubkey) {
        Some(EscrowError::DuplicateOracleSubmission)
    } else {
        None
    }
}

/// Adds an oracle to the registry. Admin-only; rejects duplicates, a zero
/// weight, and a sixth oracle. On failure the registry is unchanged.
pub fn add_oracle(
    registry: &mut OracleRegistry,
    caller: &Pubkey,
    oracle_pubkey: Pubkey,
    oracle_type: OracleType,
    weight: u16,
    now: i64,
) -> (r: Result<(), EscrowError>)
    requires
        spec_registry_wf(*old(registry)),
    ensures
        spec_registry_wf(*final(registry)),
        r is Ok <==> spec_add_oracle_err(*old(registry), *caller, oracle_pubkey, weight) is None,
        r is Err ==> Some(r->Err_0) == spec_add_oracle_err(
            *old(registry),
            *caller,
            oracle_pubkey,
            weight,
        ) && *final(registry) == *old(registry),
        r is Ok ==> {
            &&& final(registry).oracles@ == old(registry).oracles@.push(
                OracleConfig { pubkey: oracle_pubkey, oracle_type, weight },
            )
            &&& final(registry).updated_at == now
            &&& final(registry).admin == old(registry).admin
            &&& final(registry).min_consensus == old(registry).min_consensus
            &&& final(registry).max_score_deviation == old(registry).max_score_deviation
            &&& final(registry).created_at == old(registry).created_at
        },
{
    if !pubkey_eq(caller, &registry.admin) {
        return Err(EscrowError::Unauthorized);
    }
    if registry.oracles.len() >= MAX_ORACLES {
        return Err(EscrowError::MaxOraclesReached);
    }
    if weight == 0 {
        return Err(EscrowError::InvalidOracleWeight);
    }
    let mut i: usize = 0;
    while i < registry.oracles.len()
        invariant
            i <= registry.oracles@.len(),
            registry == old(registry),
            spec_registry_wf(*old(registry)),
            *caller == old(registry).admin,
            old(registry).oracles@.len() < MAX_ORACLES,
            weight != 0,
            forall|j: int| 0 <= j < i ==> registry.oracles@[j].pubkey != oracle_pubkey,
        decreases registry.oracles@.len() - i,
    {
        if pubkey_eq(&registry.oracles[i].pubkey, &oracle_pubkey) {
            return Err(EscrowError::DuplicateOracleSubmission);
        }
        i += 1;
    }
    registry.oracles.push(OracleConfig { pubkey: oracle_pubkey, oracle_type, weight });
    registry.updated_at = now;
    Ok(())
}

/// Keeps every oracle whose identity is not `pk`.
pub open spec fn keep_other(pk: Pubkey) -> spec_fn(OracleConfig) -> bool {
    |o: OracleConfig| o.pubkey != pk
}

/// The oracle list with one identity removed.
pub open spec fn spec_without_oracle(oracles: Seq<OracleConfig>, pk: Pubkey) -> Seq<
    OracleConfig,
> {
    oracles.filter(keep_other(pk))
}

/// Removes an oracle from the registry by identity. Admin-only; fails with
/// `OracleNotFound`, changing nothing, when no registered oracle has the
/// identity.
pub fn remove_oracle(registry: &mut OracleRegistry, caller: &Pubkey, oracle_pubkey: Pubkey, now: i64)
    -> (r: Result<(), EscrowError>)
    requires
        spec_registry_wf(*old(registry)),
    ensures
        spec_registry_wf(*final(registry)),
        r is Ok <==> *caller == old(registry).admin && spec_has_oracle(
            old(registry).oracles@,
            oracle_pubkey,
        ),
        r is Err ==> *final(registry) == *old(registry) && r->Err_0 == (
        if *caller != old(registry).admin {
            EscrowError::Unauthorized
        } else {
            EscrowError::OracleNotFound
        }),
        r is Ok ==> {
            &&& final(registry).oracles@ == spec_without_oracle(
                old(registry).oracles@,
                oracle_pubkey,
            )
            &&& final(registry).updated_at == now
            &&& final(registry).admin == old(registry).admin
            &&& final(registry).min_consensus == old(registry).min_consensus
            &&& final(registry).max_score_deviation == old(registry).max_score_deviation
            &&& final(registry).created_at == old(registry).created_at
        },
{
    if !pubkey_eq(caller, &registry.admin) {
        return Err(EscrowError::Unauthorized);
    }
    let ghost all = registry.oracles@;
    let ghost pred = keep_other(oracle_pubkey);
    let mut kept: Vec<OracleConfig> = Vec::new();
    let mut found = false;
    let mut i: usize = 0;
    while i < registry.oracles.len()
        invariant
            i <= all.len(),
            all == registry.oracles@,
            registry == old(registry),
            pred == keep_other(oracle_pubkey),
            forall|p: int, q: int| 0 <= p < q < all.len() ==> all[p].pubkey != all[q].pubkey,
            kept@ == all.subrange(0, i as int).filter(pred),
            found <==> exists|j: int| 0 <= j < i && all[j].pubkey == oracle_pubkey,
            forall|k: int|
                0 <= k < kept@.len() ==> exists|j: int|
                    0 <= j < i && all[j] == #[trigger] kept@[k],
            forall|p: int, q: int| 0 <= p < q < kept@.len() ==> kept@[p].pubkey != kept@[q].pubkey,
        decreases all.len() - i,
    {
        let config = registry.oracles[i];
        let ghost prev = kept@;
        if pubkey_eq(&config.pubkey, &oracle_pubkey) {
            found = true;
        } else {
            proof {
                assert forall|k: int| 0 <= k < prev.len() implies prev[k].pubkey
                    != all[i as int].pubkey by {
                    let j = choose|j: int| 0 <= j < i && all[j] == prev[k];
                }
            }
            kept.push(config);
        }
        proof {
            reveal(Seq::filter);
            assert(all.subrange(0, i + 1).drop_last() =~= all.subrange(0, i as int));
            assert(all.subrange(0, i + 1).last() == all[i as int]);
            assert(kept@ =~= all.subrange(0, i + 1).filter(pred));
        }
        i += 1;
    }
    proof {
        assert(all.subrange(0, all.len() as int) =~= all);
        all.lemma_filter_len(pred);
    }
    if !found {
        return Err(EscrowError::OracleNotFound);
    }
    registry.oracles = kept;
    registry.updated_at = now;
    Ok(())
}

} // verus!
