//! Auxiliary persisted records: written by the surrounding deployment for
//! future policy, not yet consumed by any operation of the engine.

use vstd::prelude::*;
use crate::keys::Pubkey;

verus! {

/// Longest accepted work-agreement query, in bytes.
pub const MAX_QUERY_LEN: usize = 128;

/// A structured scope descriptor for the work an escrow pays for.
#[derive(Debug)]
pub struct WorkAgreement {
    /// The escrow the agreement belongs to.
    pub escrow: Pubkey,
    /// The agreed query, at most `MAX_QUERY_LEN` bytes.
    pub query: Vec<u8>,
    /// Count of fields the result must carry.
    pub required_fields: u8,
    /// Fewest records the result must hold.
    pub min_records: u32,
    /// Oldest acceptable data, in days.
    pub max_age_days: u32,
    /// Lowest acceptable quality score.
    pub min_quality_score: u8,
    /// When the agreement was recorded.
    pub created_at: i64,
}

/// Well-formedness of a work agreement: its query is bounded.
pub open spec fn spec_work_agreement_wf(w: WorkAgreement) -> bool {
    w.query@.len() <= MAX_QUERY_LEN
}

/// Strikes and suspensions accumulated by a provider.
#[derive(Clone, Copy, Debug)]
pub struct ProviderPenalties {
    /// Identity of the provider.
    pub provider: Pubkey,
    /// Strikes on record.
    pub strike_count: u8,
    /// Whether the provider is currently suspended.
    pub suspended: bool,
    /// When a suspension ends, while one is in force.
    pub suspension_end: Option<i64>,
    /// Total refunds issued against the provider.
    pub total_refunds_issued: u64,
    /// Resolutions with a quality score below 30.
    pub poor_quality_count: u32,
    /// When the record was created.
    pub created_at: i64,
    /// When the record was last updated.
    pub last_updated: i64,
}

} // verus!
