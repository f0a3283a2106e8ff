//! Error taxonomy of the escrow engine.
//!
//! Every failing operation reports one specific reason; no operation applies
//! a partial state change when it fails.

use vstd::prelude::*;

verus! {

/// Reason an escrow operation was rejected.
#[derive(Clone, Copy, Debug, PartialEq, Eq, Structural)]
pub enum EscrowError {
    /// Operation illegal in the escrow's current lifecycle state.
    InvalidStatus,
    /// Caller is not entitled to this operation.
    Unauthorized,
    /// Quality score outside 0..=100.
    InvalidQualityScore,
    /// Refund percentage outside 0..=100.
    InvalidRefundPercentage,
    /// Signature record failed to authenticate the submission.
    InvalidSignature,
    /// Time lock outside the accepted range (one hour to thirty days).
    InvalidTimeLock,
    /// Escrowed amount must be greater than zero.
    InvalidAmount,
    /// Transaction identifier empty or longer than 64 bytes.
    InvalidTransactionId,
    /// Funds may not be released before the time lock elapses.
    TimeLockNotExpired,
    /// Disputes may only be filed before the time lock elapses.
    DisputeWindowExpired,
    /// Escrowed amount exceeds the supported maximum.
    AmountTooLarge,
    /// Caller's balance does not cover the dispute-filing cost.
    InsufficientDisputeFunds,
    /// Entity exceeded its hourly or daily transaction ceiling.
    RateLimitExceeded,
    /// Provider is currently suspended.
    ProviderSuspended,
    /// Reputation score too low for this operation.
    ReputationTooLow,
    /// Arithmetic guard tripped while computing a fund split.
    ArithmeticOverflow,
    /// Escrowed amount does not cover the account's rent reserve.
    InsufficientRentReserve,
    /// Oracle-network attestation record could not be read.
    InvalidSwitchboardAttestation,
    /// Oracle-network attestation is older than the freshness window.
    StaleAttestation,
    /// Attested value differs from the submitted quality score.
    QualityScoreMismatch,
    /// Fewer oracle submissions than the registry's minimum consensus.
    InsufficientOracleConsensus,
    /// Submitting oracle is not in the registry.
    UnregisteredOracle,
    /// Oracle scores too divergent; no consensus reached.
    NoConsensusReached,
    /// The same oracle submitted twice for one dispute.
    DuplicateOracleSubmission,
    /// Registry already holds the maximum number of oracles.
    MaxOraclesReached,
    /// Oracle to remove is not in the registry.
    OracleNotFound,
    /// Oracle weight must be greater than zero.
    InvalidOracleWeight,
    /// Token escrow requested without a token mint.
    MissingTokenMint,
    /// Token escrow requested without the required token account.
    MissingTokenAccount,
    /// Token escrow requested without the token program.
    MissingTokenProgram,
    /// Token decimals differ between accounts.
    TokenDecimalsMismatch,
    /// Escrow token account is not owned by the escrow.
    InvalidTokenAccountOwner,
    /// Token mint differs between the accounts of one transfer.
    TokenMintMismatch,
    /// Oracle kind has no verification procedure in consensus mode.
    UnsupportedOracleType,
}

} // verus!
