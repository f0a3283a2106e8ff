//! The escrow state machine: lifecycle of one escrowed payment, from
//! creation through release or dispute resolution.
//!
//! Operations validate, compute the fund movements they require, and apply
//! their state changes all-or-nothing: a failing call returns its reason and
//! leaves every record exactly as it was. Moving the funds themselves is the
//! environment's job; each successful operation reports the amounts owed.

use vstd::prelude::*;
use crate::consensus::{
    calculate_consensus_score, lemma_consensus_score_le_100, spec_consensus_score,
};
use crate::errors::EscrowError;
use crate::keys::{pubkey_eq, Pubkey};
use crate::refund::{
    calculate_refund_from_quality, calculate_split, spec_payment_amount, spec_refund_amount,
    spec_refund_from_quality,
};
use crate::registry::{
    find_oracle, spec_find_oracle, spec_registry_wf, OracleRegistry, OracleType, MAX_ORACLES,
};
use crate::reputation::{
    calculate_dispute_cost, sat_add_u64, spec_agent_rep_update, spec_api_rep_update,
    spec_dispute_cost, update_agent_reputation, update_api_reputation, EntityReputation,
};
use crate::sigverify::{
    ed25519_record_matches, score_message, spec_score_message, verify_ed25519_signature,
    InstructionRecord,
};

verus! {

/// Shortest accepted time lock: one hour, in seconds.
pub const MIN_TIME_LOCK: i64 = 3600;

/// Longest accepted time lock: thirty days, in seconds.
pub const MAX_TIME_LOCK: i64 = 2_592_000;

/// Longest accepted transaction identifier, in bytes.
pub const MAX_TRANSACTION_ID_LEN: usize = 64;

/// Oldest accepted oracle-network attestation, in seconds.
pub const MAX_ATTESTATION_AGE: i64 = 300;

/// Lifecycle state of an escrow.
#[derive(Clone, Copy, Debug, PartialEq, Eq, Structural)]
pub enum EscrowStatus {
    /// Payment locked, awaiting release or dispute.
    Active,
    /// Funds released to the provider; terminal.
    Released,
    /// Agent disputed quality; awaiting resolution.
    Disputed,
    /// Dispute resolved and funds split; terminal.
    Resolved,
}

/// One verified oracle submission, retained on the escrow for audit.
#[derive(Clone, Copy, Debug)]
pub struct OracleSubmission {
    /// Identity of the submitting oracle.
    pub oracle: Pubkey,
    /// The quality score it attested.
    pub quality_score: u8,
    /// When the submission was verified.
    pub submitted_at: i64,
}

/// One oracle's input to a multi-oracle resolution.
#[derive(Clone, Copy, Debug)]
pub struct OracleSubmissionInput {
    /// Identity of the submitting oracle.
    pub oracle: Pubkey,
    /// The quality score it attests.
    pub quality_score: u8,
    /// Its signature over the canonical message.
    pub signature: [u8; 64],
}

/// A token mint, as the environment describes it: its identity and decimal
/// precision.
#[derive(Clone, Copy, Debug)]
pub struct MintInfo {
    /// Identity of the mint.
    pub key: Pubkey,
    /// Decimal precision of the token.
    pub decimals: u8,
}

/// A token account, as the environment describes it at call time.
#[derive(Clone, Copy, Debug)]
pub struct TokenAccountInfo {
    /// Identity of the account.
    pub key: Pubkey,
    /// Mint of the token it holds.
    pub mint: Pubkey,
    /// Owner of the account.
    pub owner: Pubkey,
    /// Balance it holds.
    pub amount: u64,
}

/// A reading of an oracle-network data feed, as the environment decoded it.
#[derive(Clone, Copy, Debug)]
pub struct FeedReading {
    /// When the feed was last updated.
    pub last_update_timestamp: i64,
    /// The attested value.
    pub value: i128,
}

/// The fund movements one dispute resolution requires.
#[derive(Clone, Copy, Debug, PartialEq, Eq, Structural)]
pub struct Settlement {
    /// Owed to the agent from the escrowed balance.
    pub refund_amount: u64,
    /// Owed to the provider from the escrowed balance.
    pub payment_amount: u64,
}

/// The result of a multi-oracle resolution.
#[derive(Clone, Copy, Debug, PartialEq, Eq, Structural)]
pub struct MultiOracleOutcome {
    /// The consensus quality score.
    pub consensus_score: u8,
    /// Refund percentage the policy assigns to it.
    pub refund_percentage: u8,
    /// Owed to the agent from the escrowed balance.
    pub refund_amount: u64,
    /// Owed to the provider from the escrowed balance.
    pub payment_amount: u64,
}

/// One escrowed payment.
#[derive(Debug)]
pub struct Escrow {
    /// The party that funded the escrow and may dispute quality.
    pub agent: Pubkey,
    /// The party that receives payment for service rendered.
    pub api: Pubkey,
    /// Escrowed amount, in the smallest currency unit.
    pub amount: u64,
    /// Lifecycle state.
    pub status: EscrowStatus,
    /// When the escrow was created.
    pub created_at: i64,
    /// When the time lock elapses and funds auto-release.
    pub expires_at: i64,
    /// Stable external key of the transaction; immutable, 1..=64 bytes.
    pub transaction_id: Vec<u8>,
    /// Consensus or attested quality score; set only at resolution.
    pub quality_score: Option<u8>,
    /// Refund percentage applied; set only at resolution.
    pub refund_percentage: Option<u8>,
    /// Verified oracle submissions of the resolution, for audit.
    pub oracle_submissions: Vec<OracleSubmission>,
    /// Mint of the escrowed token, or `None` for native value.
    pub token_mint: Option<Pubkey>,
    /// The escrow's own token account, when a token is escrowed.
    pub escrow_token_account: Option<Pubkey>,
    /// Decimal precision of the escrowed value; 9 for native.
    pub token_decimals: u8,
}

/// Well-formedness of an escrow: positive amount, bounded identifier and
/// audit list, quality score and refund percentage set together, only at
/// resolution, and both valid percentages.
pub open spec fn spec_escrow_wf(e: Escrow) -> bool {
    &&& e.amount > 0
    &&& 1 <= e.transaction_id@.len() <= MAX_TRANSACTION_ID_LEN
    &&& e.created_at <= e.expires_at
    &&& e.oracle_submissions@.len() <= MAX_ORACLES
    &&& (e.quality_score is Some <==> e.refund_percentage is Some)
    &&& (e.quality_score is Some ==> e.status == EscrowStatus::Resolved)
    &&& (e.quality_score matches Some(q) ==> q <= 100)
    &&& (e.refund_percentage matches Some(p) ==> p <= 100)
}

/// The reason an `initialize_escrow` call is rejected, if any, in the order
/// the checks run.
pub open spec fn spec_initialize_escrow_err(
    escrow_key: Pubkey,
    amount: u64,
    time_lock: i64,
    transaction_id: Seq<u8>,
    use_spl_token: bool,
    token_mint: Option<MintInfo>,
    escrow_token_account: Option<TokenAccountInfo>,
    agent_token_account: Option<TokenAccountInfo>,
    has_token_program: bool,
    min_rent: u64,
) -> Option<EscrowError> {
    if amount == 0 {
        Some(EscrowError::InvalidAmount)
    } else if time_lock < MIN_TIME_LOCK || time_lock > MAX_TIME_LOCK {
        Some(EscrowError::InvalidTimeLock)
    } else if transaction_id.len() == 0 || transaction_id.len() > MAX_TRANSACTION_ID_LEN {
        Some(EscrowError::InvalidTransactionId)
    } else if use_spl_token {
        if token_mint is None {
            Some(EscrowError::MissingTokenMint)
        } else if escrow_token_account is None {
            Some(EscrowError::MissingTokenAccount)
        } else if agent_token_account is None {
            Some(EscrowError::MissingTokenAccount)
        } else if !has_token_program {
            Some(EscrowError::MissingTokenProgram)
        } else if escrow_token_account->Some_0.mint != token_mint->Some_0.key {
            Some(EscrowError::TokenMintMismatch)
        } else if agent_token_account->Some_0.mint != token_mint->Some_0.key {
            Some(EscrowError::TokenMintMismatch)
        } else if escrow_token_account->Some_0.owner != escrow_key {
            Some(EscrowError::InvalidTokenAccountOwner)
        } else if agent_token_account->Some_0.amount < amount {
            Some(EscrowError::InsufficientDisputeFunds)
        } else if escrow_token_account->Some_0.amount != 0 {
            Some(EscrowError::InvalidTokenAccountOwner)
        } else {
            None
        }
    } else {
        if amount < min_rent {
            Some(EscrowError::InsufficientRentReserve)
        } else {
            None
        }
    }
}

/// Creates an escrow in `Active` state for a payment from `agent` to `api`.
///
/// Validates the amount, the time lock (one hour to thirty days) and the
/// transaction identifier (non-empty, at most 64 bytes). A token escrow
/// additionally needs a mint, an empty escrow token account owned by
/// `escrow_key`, a funded agent token account of the same mint, and the
/// token program; a native escrow must cover its rent reserve `min_rent`.
/// On success the environment owes the escrow `amount` from the agent's
/// balance; the escrow expires at `now + time_lock`.
pub fn initialize_escrow(
    agent: Pubkey,
    api: Pubkey,
    escrow_key: Pubkey,
    amount: u64,
    time_lock: i64,
    transaction_id: Vec<u8>,
    use_spl_token: bool,
    token_mint: Option<MintInfo>,
    escrow_token_account: Option<TokenAccountInfo>,
    agent_token_account: Option<TokenAccountInfo>,
    has_token_program: bool,
    min_rent: u64,
    now: i64,
) -> (r: Result<Escrow, EscrowError>)
    requires
        0 <= now <= i64::MAX - MAX_TIME_LOCK,
    ensures
        r is Ok <==> spec_initialize_escrow_err(
            escrow_key,
            amount,
            time_lock,
            transaction_id@,
            use_spl_token,
            token_mint,
            escrow_token_account,
            agent_token_account,
            has_token_program,
            min_rent,
        ) is None,
        r is Err ==> Some(r->Err_0) == spec_initialize_escrow_err(
            escrow_key,
            amount,
            time_lock,
            transaction_id@,
            use_spl_token,
            token_mint,
            escrow_token_account,
            agent_token_account,
            has_token_program,
            min_rent,
        ),
        r matches Ok(e) ==> {
            &&& e.agent == agent
            &&& e.api == api
            &&& e.amount == amount
            &&& e.status == EscrowStatus::Active
            &&& e.created_at == now
            &&& e.expires_at == now + time_lock
            &&& e.transaction_id@ == transaction_id@
            &&& e.quality_score is None
            &&& e.refund_percentage is None
            &&& e.oracle_submissions@.len() == 0
            &&& e.token_mint == (if use_spl_token {
                Some(token_mint->Some_0.key)
            } else {
                None::<Pubkey>
            })
            &&& e.escrow_token_account == (if use_spl_token {
                Some(escrow_token_account->Some_0.key)
            } else {
                None::<Pubkey>
            })
            &&& e.token_decimals == (if use_spl_token {
                token_mint->Some_0.decimals
            } else {
                9u8
            })
            &&& spec_escrow_wf(e)
        },
{
    if amount == 0 {
        return Err(EscrowError::InvalidAmount);
    }
    if time_lock < MIN_TIME_LOCK || time_lock > MAX_TIME_LOCK {
        return Err(EscrowError::InvalidTimeLock);
    }
    if transaction_id.len() == 0 || transaction_id.len() > MAX_TRANSACTION_ID_LEN {
        return Err(EscrowError::InvalidTransactionId);
    }

    let mut mint_key: Option<Pubkey> = None;
    let mut escrow_token_key: Option<Pubkey> = None;
    let mut decimals: u8 = 9;

    if use_spl_token {
        let mint = match token_mint {
            Some(m) => m,
            None => {
                return Err(EscrowError::MissingTokenMint);
            },
        };
        let escrow_tok = match escrow_token_account {
            Some(t) => t,
            None => {
                return Err(EscrowError::MissingTokenAccount);
            },
        };
        let agent_tok = match agent_token_account {
            Some(t) => t,
            None => {
                return Err(EscrowError::MissingTokenAccount);
            },
        };
        if !has_token_program {
            return Err(EscrowError::MissingTokenProgram);
        }
        if !pubkey_eq(&escrow_tok.mint, &mint.key) {
            return Err(EscrowError::TokenMintMismatch);
        }
        if !pubkey_eq(&agent_tok.mint, &mint.key) {
            return Err(EscrowError::TokenMintMismatch);
        }
        if !pubkey_eq(&escrow_tok.owner, &escrow_key) {
            return Err(EscrowError::InvalidTokenAccountOwner);
        }
        if agent_tok.amount < amount {
            return Err(EscrowError::InsufficientDisputeFunds);
        }
        if escrow_tok.amount != 0 {
            return Err(EscrowError::InvalidTokenAccountOwner);
        }
        mint_key = Some(mint.key);
        escrow_token_key = Some(escrow_tok.key);
        decimals = mint.decimals;
    } else {
        if amount < min_rent {
            return Err(EscrowError::InsufficientRentReserve);
        }
    }

    Ok(
        Escrow {
            agent,
            api,
            amount,
            status: EscrowStatus::Active,
            created_at: now,
            expires_at: now + time_lock,
            transaction_id,
            quality_score: None,
            refund_percentage: None,
            oracle_submissions: Vec::new(),
            token_mint: mint_key,
            escrow_token_account: escrow_token_key,
            token_decimals: decimals,
        },
    )
}

/// The reason a `release_funds` call is rejected, if any, in the order the
/// checks run.
pub open spec fn spec_release_funds_err(
    e: Escrow,
    caller: Pubkey,
    escrow_token_account: Option<TokenAccountInfo>,
    api_token_account: Option<TokenAccountInfo>,
    has_token_program: bool,
    now: i64,
) -> Option<EscrowError> {
    if e.status != EscrowStatus::Active {
        Some(EscrowError::InvalidStatus)
    } else if caller != e.agent && now < e.expires_at {
        Some(EscrowError::TimeLockNotExpired)
    } else if e.token_mint is Some {
        if escrow_token_account is None || api_token_account is None {
            Some(EscrowError::MissingTokenAccount)
        } else if !has_token_program {
            Some(EscrowError::MissingTokenProgram)
        } else if escrow_token_account->Some_0.mint != e.token_mint->Some_0 {
            Some(EscrowError::TokenMintMismatch)
        } else if api_token_account->Some_0.mint != e.token_mint->Some_0 {
            Some(EscrowError::TokenMintMismatch)
        } else if escrow_token_account->Some_0.amount < e.amount {
            Some(EscrowError::InsufficientDisputeFunds)
        } else {
            None
        }
    } else {
        None
    }
}

/// Releases the full escrowed amount to the provider: the happy path.
///
/// Legal only from `Active`, and only for the agent before the time lock
/// elapses — afterwards anyone may trigger the release. A token escrow
/// additionally needs its token accounts, of the escrowed mint, with the
/// escrow account funded. On success the escrow is `Released` and the
/// environment owes the provider the returned amount from the escrowed
/// balance.
pub fn release_funds(
    escrow: &mut Escrow,
    caller: &Pubkey,
    escrow_token_account: Option<TokenAccountInfo>,
    api_token_account: Option<TokenAccountInfo>,
    has_token_program: bool,
    now: i64,
) -> (r: Result<u64, EscrowError>)
    requires
        spec_escrow_wf(*old(escrow)),
    ensures
        spec_escrow_wf(*final(escrow)),
        r is Ok <==> spec_release_funds_err(
            *old(escrow),
            *caller,
            escrow_token_account,
            api_token_account,
            has_token_program,
            now,
        ) is None,
        r is Err ==> Some(r->Err_0) == spec_release_funds_err(
            *old(escrow),
            *caller,
            escrow_token_account,
            api_token_account,
            has_token_program,
            now,
        ) && *final(escrow) == *old(escrow),
        r matches Ok(amount) ==> amount == old(escrow).amount && *final(escrow) == (Escrow {
            status: EscrowStatus::Released,
            ..*old(escrow)
        }),
{
    if !matches!(escrow.status, EscrowStatus::Active) {
        return Err(EscrowError::InvalidStatus);
    }
    let is_agent = pubkey_eq(caller, &escrow.agent);
    let time_lock_expired = now >= escrow.expires_at;
    if !is_agent && !time_lock_expired {
        return Err(EscrowError::TimeLockNotExpired);
    }

    if escrow.token_mint.is_some() {
        let expected_mint = escrow.token_mint.unwrap();
        let escrow_tok = match escrow_token_account {
            Some(t) => t,
            None => {
                return Err(EscrowError::MissingTokenAccount);
            },
        };
        let api_tok = match api_token_account {
            Some(t) => t,
            None => {
                return Err(EscrowError::MissingTokenAccount);
            },
        };
        if !has_token_program {
            return Err(EscrowError::MissingTokenProgram);
        }
        if !pubkey_eq(&escrow_tok.mint, &expected_mint) {
            return Err(EscrowError::TokenMintMismatch);
        }
        if !pubkey_eq(&api_tok.mint, &expected_mint) {
            return Err(EscrowError::TokenMintMismatch);
        }
        if escrow_tok.amount < escrow.amount {
            return Err(EscrowError::InsufficientDisputeFunds);
        }
    }

    escrow.status = EscrowStatus::Released;
    Ok(escrow.amount)
}

/// No funds leave a terminal escrow: a release attempt on a `Released` or
/// `Resolved` escrow is rejected with `InvalidStatus`, whoever calls and
/// whenever.
pub proof fn lemma_release_terminal(
    e: Escrow,
    caller: Pubkey,
    escrow_token_account: Option<TokenAccountInfo>,
    api_token_account: Option<TokenAccountInfo>,
    has_token_program: bool,
    now: i64,
)
    requires
        e.status == EscrowStatus::Released || e.status == EscrowStatus::Resolved,
    ensures
        spec_release_funds_err(
            e,
            caller,
            escrow_token_account,
            api_token_account,
            has_token_program,
            now,
        ) == Some(EscrowError::InvalidStatus),
{
}

/// Before the time lock elapses, nobody but the agent can release: any
/// other caller is rejected with `TimeLockNotExpired`.
pub proof fn lemma_release_needs_agent_before_expiry(
    e: Escrow,
    caller: Pubkey,
    escrow_token_account: Option<TokenAccountInfo>,
    api_token_account: Option<TokenAccountInfo>,
    has_token_program: bool,
    now: i64,
)
    requires
        caller != e.agent,
        now < e.expires_at,
    ensures
        spec_release_funds_err(
            e,
            caller,
            escrow_token_account,
            api_token_account,
            has_token_program,
            now,
        ) is Some,
        e.status == EscrowStatus::Active ==> spec_release_funds_err(
            e,
            caller,
            escrow_token_account,
            api_token_account,
            has_token_program,
            now,
        ) == Some(EscrowError::TimeLockNotExpired),
{
}

/// The reason a `mark_disputed` call is rejected, if any, in the order the
/// checks run.
pub open spec fn spec_mark_disputed_err(
    e: Escrow,
    rep: EntityReputation,
    caller: Pubkey,
    agent_balance: u64,
    now: i64,
) -> Option<EscrowError> {
    if e.status != EscrowStatus::Active {
        Some(EscrowError::InvalidStatus)
    } else if caller != e.agent {
        Some(EscrowError::Unauthorized)
    } else if now >= e.expires_at {
        Some(EscrowError::DisputeWindowExpired)
    } else if agent_balance < spec_dispute_cost(rep) {
        Some(EscrowError::InsufficientDisputeFunds)
    } else {
        None
    }
}

/// The dispute window closes exactly when the time lock elapses: from
/// `expires_at` on, marking a dispute always fails, and on an otherwise
/// legal call the reason is `DisputeWindowExpired`.
pub proof fn lemma_dispute_window_closes_at_expiry(
    e: Escrow,
    rep: EntityReputation,
    caller: Pubkey,
    agent_balance: u64,
    now: i64,
)
    requires
        now >= e.expires_at,
    ensures
        spec_mark_disputed_err(e, rep, caller, agent_balance, now) is Some,
        e.status == EscrowStatus::Active && caller == e.agent ==> spec_mark_disputed_err(
            e,
            rep,
            caller,
            agent_balance,
            now,
        ) == Some(EscrowError::DisputeWindowExpired),
{
}

/// Marks an escrow disputed.
///
/// Legal only from `Active`, only for the agent, and only while the dispute
/// window is open — it closes exactly when the time lock would release the
/// funds. The agent must hold at least the dispute-filing cost its history
/// earns it; the cost is checked, not charged. On success the escrow is
/// `Disputed` and the filing is recorded on the agent's reputation.
pub fn mark_disputed(
    escrow: &mut Escrow,
    reputation: &mut EntityReputation,
    caller: &Pubkey,
    agent_balance: u64,
    now: i64,
) -> (r: Result<(), EscrowError>)
    requires
        spec_escrow_wf(*old(escrow)),
    ensures
        spec_escrow_wf(*final(escrow)),
        r is Ok <==> spec_mark_disputed_err(
            *old(escrow),
            *old(reputation),
            *caller,
            agent_balance,
            now,
        ) is None,
        r is Err ==> Some(r->Err_0) == spec_mark_disputed_err(
            *old(escrow),
            *old(reputation),
            *caller,
            agent_balance,
            now,
        ) && *final(escrow) == *old(escrow) && *final(reputation) == *old(reputation),
        r is Ok ==> *final(escrow) == (Escrow {
            status: EscrowStatus::Disputed,
            ..*old(escrow)
        }) && *final(reputation) == (EntityReputation {
            disputes_filed: sat_add_u64(old(reputation).disputes_filed as int, 1) as u64,
            ..*old(reputation)
        }),
{
    if !matches!(escrow.status, EscrowStatus::Active) {
        return Err(EscrowError::InvalidStatus);
    }
    if !pubkey_eq(caller, &escrow.agent) {
        return Err(EscrowError::Unauthorized);
    }
    if now >= escrow.expires_at {
        return Err(EscrowError::DisputeWindowExpired);
    }
    let dispute_cost = calculate_dispute_cost(reputation);
    if agent_balance < dispute_cost {
        return Err(EscrowError::InsufficientDisputeFunds);
    }
    reputation.disputes_filed = if reputation.disputes_filed == u64::MAX {
        u64::MAX
    } else {
        reputation.disputes_filed + 1
    };
    escrow.status = EscrowStatus::Disputed;
    Ok(())
}

/// The reason a `resolve_dispute` call is rejected, if any, in the order
/// the checks run. The signature record at position 0 of the batch must
/// authenticate the canonical message for this escrow's transaction and
/// the submitted quality score, signed by the designated verifier.
pub open spec fn spec_resolve_dispute_err(
    e: Escrow,
    quality_score: u8,
    refund_percentage: u8,
    signature: Seq<u8>,
    instructions: Seq<InstructionRecord>,
    verifier: Pubkey,
) -> Option<EscrowError> {
    if e.status != EscrowStatus::Active && e.status != EscrowStatus::Disputed {
        Some(EscrowError::InvalidStatus)
    } else if quality_score > 100 {
        Some(EscrowError::InvalidQualityScore)
    } else if refund_percentage > 100 {
        Some(EscrowError::InvalidRefundPercentage)
    } else if !(0 < instructions.len() && ed25519_record_matches(
        instructions[0].program_id@,
        instructions[0].data@,
        signature,
        verifier@,
        spec_score_message(e.transaction_id@, quality_score),
    )) {
        Some(EscrowError::InvalidSignature)
    } else {
        None
    }
}

/// The escrow as one resolution leaves it: `Resolved`, with the quality
/// score and refund percentage recorded.
pub open spec fn spec_resolved_escrow(e: Escrow, quality_score: u8, refund_percentage: u8) -> Escrow {
    Escrow {
        status: EscrowStatus::Resolved,
        quality_score: Some(quality_score),
        refund_percentage: Some(refund_percentage),
        ..e
    }
}

/// Resolves a dispute from a single verifier oracle's signed assessment.
///
/// Legal from `Active` or `Disputed`. The quality score and refund
/// percentage must be valid percentages, and the signature record at
/// position 0 of the instruction batch must bind `verifier`'s signature to
/// the canonical message for this transaction and score. On success the
/// escrow is `Resolved` with the scores recorded, both parties' reputations
/// are updated, and the environment owes the agent and provider the
/// returned settlement out of the escrowed balance.
pub fn resolve_dispute(
    escrow: &mut Escrow,
    agent_reputation: &mut EntityReputation,
    api_reputation: &mut EntityReputation,
    quality_score: u8,
    refund_percentage: u8,
    signature: &[u8; 64],
    instructions: &Vec<InstructionRecord>,
    verifier: &Pubkey,
    now: i64,
) -> (r: Result<Settlement, EscrowError>)
    requires
        spec_escrow_wf(*old(escrow)),
    ensures
        spec_escrow_wf(*final(escrow)),
        r is Ok <==> spec_resolve_dispute_err(
            *old(escrow),
            quality_score,
            refund_percentage,
            signature@,
            instructions@,
            *verifier,
        ) is None,
        r is Err ==> Some(r->Err_0) == spec_resolve_dispute_err(
            *old(escrow),
            quality_score,
            refund_percentage,
            signature@,
            instructions@,
            *verifier,
        ) && *final(escrow) == *old(escrow) && *final(agent_reputation) == *old(agent_reputation)
            && *final(api_reputation) == *old(api_reputation),
        r matches Ok(s) ==> {
            &&& s.refund_amount == spec_refund_amount(old(escrow).amount, refund_percentage)
            &&& s.payment_amount == spec_payment_amount(old(escrow).amount, refund_percentage)
            &&& s.refund_amount + s.payment_amount == old(escrow).amount
            &&& *final(escrow) == spec_resolved_escrow(
                *old(escrow),
                quality_score,
                refund_percentage,
            )
            &&& *final(agent_reputation) == spec_agent_rep_update(
                *old(agent_reputation),
                quality_score,
                refund_percentage,
                now,
            )
            &&& *final(api_reputation) == spec_api_rep_update(
                *old(api_reputation),
                refund_percentage,
                now,
            )
        },
{
    if !matches!(escrow.status, EscrowStatus::Active | EscrowStatus::Disputed) {
        return Err(EscrowError::InvalidStatus);
    }
    if quality_score > 100 {
        return Err(EscrowError::InvalidQualityScore);
    }
    if refund_percentage > 100 {
        return Err(EscrowError::InvalidRefundPercentage);
    }

    let message = score_message(&escrow.transaction_id, quality_score);
    match verify_ed25519_signature(instructions, signature, verifier, message.as_slice(), 0) {
        Ok(()) => {},
        Err(e) => {
            return Err(e);
        },
    }

    let (refund_amount, payment_amount) = calculate_split(escrow.amount, refund_percentage);

    escrow.status = EscrowStatus::Resolved;
    escrow.quality_score = Some(quality_score);
    escrow.refund_percentage = Some(refund_percentage);

    update_agent_reputation(agent_reputation, quality_score, refund_percentage, now);
    update_api_reputation(api_reputation, refund_percentage, now);

    Ok(Settlement { refund_amount, payment_amount })
}

/// The reason a `resolve_dispute_switchboard` call is rejected, if any, in
/// the order the checks run. The feed must have been updated within the
/// freshness window and its attested value must equal the submitted
/// quality score exactly.
pub open spec fn spec_resolve_switchboard_err(
    e: Escrow,
    quality_score: u8,
    refund_percentage: u8,
    feed: FeedReading,
    now: i64,
) -> Option<EscrowError> {
    if e.status != EscrowStatus::Active && e.status != EscrowStatus::Disputed {
        Some(EscrowError::InvalidStatus)
    } else if quality_score > 100 {
        Some(EscrowError::InvalidQualityScore)
    } else if refund_percentage > 100 {
        Some(EscrowError::InvalidRefundPercentage)
    } else if !(0 <= now - feed.last_update_timestamp <= MAX_ATTESTATION_AGE) {
        Some(EscrowError::StaleAttestation)
    } else if feed.value != quality_score as i128 {
        Some(EscrowError::QualityScoreMismatch)
    } else {
        None
    }
}

/// Resolves a dispute from an oracle-network data-feed attestation.
///
/// Legal from `Active` or `Disputed`. The feed reading — decoded by the
/// environment from the oracle network's record — must be at most
/// `MAX_ATTESTATION_AGE` seconds old and attest exactly the submitted
/// quality score. Split, state change and reputation updates are the same
/// as for a signed resolution.
pub fn resolve_dispute_switchboard(
    escrow: &mut Escrow,
    agent_reputation: &mut EntityReputation,
    api_reputation: &mut EntityReputation,
    quality_score: u8,
    refund_percentage: u8,
    feed: &FeedReading,
    now: i64,
) -> (r: Result<Settlement, EscrowError>)
    requires
        spec_escrow_wf(*old(escrow)),
    ensures
        spec_escrow_wf(*final(escrow)),
        r is Ok <==> spec_resolve_switchboard_err(
            *old(escrow),
            quality_score,
            refund_percentage,
            *feed,
            now,
        ) is None,
        r is Err ==> Some(r->Err_0) == spec_resolve_switchboard_err(
            *old(escrow),
            quality_score,
            refund_percentage,
            *feed,
            now,
        ) && *final(escrow) == *old(escrow) && *final(agent_reputation) == *old(agent_reputation)
            && *final(api_reputation) == *old(api_reputation),
        r matches Ok(s) ==> {
            &&& s.refund_amount == spec_refund_amount(old(escrow).amount, refund_percentage)
            &&& s.payment_amount == spec_payment_amount(old(escrow).amount, refund_percentage)
            &&& s.refund_amount + s.payment_amount == old(escrow).amount
            &&& *final(escrow) == spec_resolved_escrow(
                *old(escrow),
                quality_score,
                refund_percentage,
            )
            &&& *final(agent_reputation) == spec_agent_rep_update(
                *old(agent_reputation),
                quality_score,
                refund_percentage,
                now,
            )
            &&& *final(api_reputation) == spec_api_rep_update(
                *old(api_reputation),
                refund_percentage,
                now,
            )
        },
{
    if !matches!(escrow.status, EscrowStatus::Active | EscrowStatus::Disputed) {
        return Err(EscrowError::InvalidStatus);
    }
    if quality_score > 100 {
        return Err(EscrowError::InvalidQualityScore);
    }
    if refund_percentage > 100 {
        return Err(EscrowError::InvalidRefundPercentage);
    }

    let age: i128 = (now as i128) - (feed.last_update_timestamp as i128);
    if !(0 <= age && age <= MAX_ATTESTATION_AGE as i128) {
        return Err(EscrowError::StaleAttestation);
    }
    if feed.value != quality_score as i128 {
        return Err(EscrowError::QualityScoreMismatch);
    }

    let (refund_amount, payment_amount) = calculate_split(escrow.amount, refund_percentage);

    escrow.status = EscrowStatus::Resolved;
    escrow.quality_score = Some(quality_score);
    escrow.refund_percentage = Some(refund_percentage);

    update_agent_reputation(agent_reputation, quality_score, refund_percentage, now);
    update_api_reputation(api_reputation, refund_percentage, now);

    Ok(Settlement { refund_amount, payment_amount })
}

/// The quality scores of a submission list, in order.
pub open spec fn spec_submission_scores(subs: Seq<OracleSubmissionInput>) -> Seq<u8> {
    subs.map_values(|s: OracleSubmissionInput| s.quality_score)
}

/// The oracle identities of a submission list, in order.
pub open spec fn spec_submission_oracles(subs: Seq<OracleSubmissionInput>) -> Seq<Pubkey> {
    subs.map_values(|s: OracleSubmissionInput| s.oracle)
}

/// The audit records a verified submission list leaves on the escrow.
pub open spec fn spec_audit_list(subs: Seq<OracleSubmissionInput>, now: i64) -> Seq<
    OracleSubmission,
> {
    subs.map_values(
        |s: OracleSubmissionInput| OracleSubmission {
            oracle: s.oracle,
            quality_score: s.quality_score,
            submitted_at: now,
        },
    )
}

/// The reason submission `i` of a multi-oracle resolution is rejected, if
/// any, in the order the checks run: its oracle must be registered, not yet
/// seen in this call, its score a valid percentage, and — for an oracle of
/// the signature-based kind — the record at position `i` of the instruction
/// batch must authenticate it; the other oracle kinds have no verification
/// procedure in consensus mode.
pub open spec fn spec_submission_err(
    subs: Seq<OracleSubmissionInput>,
    i: int,
    oracles: Seq<crate::registry::OracleConfig>,
    instructions: Seq<InstructionRecord>,
    transaction_id: Seq<u8>,
) -> Option<EscrowError> {
    if spec_find_oracle(oracles, subs[i].oracle) is None {
        Some(EscrowError::UnregisteredOracle)
    } else if exists|j: int| 0 <= j < i && subs[j].oracle == subs[i].oracle {
        Some(EscrowError::DuplicateOracleSubmission)
    } else if subs[i].quality_score > 100 {
        Some(EscrowError::InvalidQualityScore)
    } else {
        match spec_find_oracle(oracles, subs[i].oracle)->Some_0.oracle_type {
            OracleType::Ed25519 => if i < instructions.len() && ed25519_record_matches(
                instructions[i].program_id@,
                instructions[i].data@,
                subs[i].signature@,
                subs[i].oracle@,
                spec_score_message(transaction_id, subs[i].quality_score),
            ) {
                None
            } else {
                Some(EscrowError::InvalidSignature)
            },
            OracleType::Switchboard => Some(EscrowError::UnsupportedOracleType),
            OracleType::Custom => Some(EscrowError::UnsupportedOracleType),
        }
    }
}

/// The first rejection among submissions `i..`, if any.
pub open spec fn spec_first_submission_err(
    subs: Seq<OracleSubmissionInput>,
    oracles: Seq<crate::registry::OracleConfig>,
    instructions: Seq<InstructionRecord>,
    transaction_id: Seq<u8>,
    i: int,
) -> Option<EscrowError>
    decreases subs.len() - i,
{
    if i < 0 || i >= subs.len() {
        None
    } else if spec_submission_err(subs, i, oracles, instructions, transaction_id) is Some {
        spec_submission_err(subs, i, oracles, instructions, transaction_id)
    } else {
        spec_first_submission_err(subs, oracles, instructions, transaction_id, i + 1)
    }
}

/// When no submission is rejected, every per-submission check passes.
proof fn lemma_no_submission_err(
    subs: Seq<OracleSubmissionInput>,
    oracles: Seq<crate::registry::OracleConfig>,
    instructions: Seq<InstructionRecord>,
    transaction_id: Seq<u8>,
    i: int,
)
    requires
        0 <= i <= subs.len(),
        spec_first_submission_err(subs, oracles, instructions, transaction_id, i) is None,
    ensures
        forall|k: int|
            i <= k < subs.len() ==> #[trigger] spec_submission_err(
                subs,
                k,
                oracles,
                instructions,
                transaction_id,
            ) is None,
    decreases subs.len() - i,
{
    if i < subs.len() {
        lemma_no_submission_err(subs, oracles, instructions, transaction_id, i + 1);
    }
}

/// The reason the fund movements of a multi-oracle resolution are rejected,
/// if any: a token escrow revalidates, for each non-zero leg, that its
/// token accounts are present, of the escrowed mint, and funded.
pub open spec fn spec_multi_token_transfer_err(
    e: Escrow,
    refund: int,
    payment: int,
    escrow_token_account: Option<TokenAccountInfo>,
    agent_token_account: Option<TokenAccountInfo>,
    api_token_account: Option<TokenAccountInfo>,
    has_token_program: bool,
) -> Option<EscrowError> {
    if e.token_mint is None {
        None
    } else {
        let mint = e.token_mint->Some_0;
        let refund_err: Option<EscrowError> = if refund > 0 {
            if escrow_token_account is None || agent_token_account is None {
                Some(EscrowError::MissingTokenAccount)
            } else if !has_token_program {
                Some(EscrowError::MissingTokenProgram)
            } else if escrow_token_account->Some_0.mint != mint {
                Some(EscrowError::TokenMintMismatch)
            } else if agent_token_account->Some_0.mint != mint {
                Some(EscrowError::TokenMintMismatch)
            } else if escrow_token_account->Some_0.amount < refund {
                Some(EscrowError::InsufficientDisputeFunds)
            } else {
                None
            }
        } else {
            None
        };
        if refund_err is Some {
            refund_err
        } else if payment > 0 {
            if escrow_token_account is None || api_token_account is None {
                Some(EscrowError::MissingTokenAccount)
            } else if !has_token_program {
                Some(EscrowError::MissingTokenProgram)
            } else if escrow_token_account->Some_0.mint != mint {
                Some(EscrowError::TokenMintMismatch)
            } else if api_token_account->Some_0.mint != mint {
                Some(EscrowError::TokenMintMismatch)
            } else if escrow_token_account->Some_0.amount < payment {
                Some(EscrowError::InsufficientDisputeFunds)
            } else {
                None
            }
        } else {
            None
        }
    }
}

/// The reason a `resolve_dispute_multi_oracle` call is rejected, if any, in
/// the order the checks run.
pub open spec fn spec_multi_oracle_err(
    e: Escrow,
    registry: OracleRegistry,
    subs: Seq<OracleSubmissionInput>,
    instructions: Seq<InstructionRecord>,
    escrow_token_account: Option<TokenAccountInfo>,
    agent_token_account: Option<TokenAccountInfo>,
    api_token_account: Option<TokenAccountInfo>,
    has_token_program: bool,
) -> Option<EscrowError> {
    if e.status != EscrowStatus::Active && e.status != EscrowStatus::Disputed {
        Some(EscrowError::InvalidStatus)
    } else if subs.len() < registry.min_consensus {
        Some(EscrowError::InsufficientOracleConsensus)
    } else if subs.len() > MAX_ORACLES {
        Some(EscrowError::MaxOraclesReached)
    } else if spec_first_submission_err(
        subs,
        registry.oracles@,
        instructions,
        e.transaction_id@,
        0,
    ) is Some {
        spec_first_submission_err(subs, registry.oracles@, instructions, e.transaction_id@, 0)
    } else {
        match spec_consensus_score(spec_submission_scores(subs), registry.max_score_deviation) {
            Err(err) => Some(err),
            Ok(consensus) => {
                let pct = spec_refund_from_quality(consensus);
                spec_multi_token_transfer_err(
                    e,
                    spec_refund_amount(e.amount, pct),
                    spec_payment_amount(e.amount, pct),
                    escrow_token_account,
                    agent_token_account,
                    api_token_account,
                    has_token_program,
                )
            },
        }
    }
}

/// Resolves a dispute by multi-oracle consensus.
///
/// Legal from `Active` or `Disputed`. The call must carry at least the
/// registry's minimum consensus of submissions and at most `MAX_ORACLES`.
/// Each submission, in order, must come from a distinct registered oracle
/// of the signature-based kind, carry a valid score, and be authenticated
/// by the signature record at the matching position of the instruction
/// batch. The verified scores are reduced to a consensus score, the refund
/// policy sets the split, and — for a token escrow — the token accounts of
/// each non-zero leg are revalidated. On success the escrow is `Resolved`
/// with the consensus recorded and the submissions retained for audit,
/// both parties' reputations are updated, and the environment owes the
/// agent and provider the returned amounts out of the escrowed balance.
pub fn resolve_dispute_multi_oracle(
    escrow: &mut Escrow,
    registry: &OracleRegistry,
    agent_reputation: &mut EntityReputation,
    api_reputation: &mut EntityReputation,
    submissions: &Vec<OracleSubmissionInput>,
    instructions: &Vec<InstructionRecord>,
    escrow_token_account: Option<TokenAccountInfo>,
    agent_token_account: Option<TokenAccountInfo>,
    api_token_account: Option<TokenAccountInfo>,
    has_token_program: bool,
    now: i64,
) -> (r: Result<MultiOracleOutcome, EscrowError>)
    requires
        spec_escrow_wf(*old(escrow)),
        spec_registry_wf(*registry),
    ensures
        spec_escrow_wf(*final(escrow)),
        r is Ok <==> spec_multi_oracle_err(
            *old(escrow),
            *registry,
            submissions@,
            instructions@,
            escrow_token_account,
            agent_token_account,
            api_token_account,
            has_token_program,
        ) is None,
        r is Err ==> Some(r->Err_0) == spec_multi_oracle_err(
            *old(escrow),
            *registry,
            submissions@,
            instructions@,
            escrow_token_account,
            agent_token_account,
            api_token_account,
            has_token_program,
        ) && *final(escrow) == *old(escrow) && *final(agent_reputation) == *old(agent_reputation)
            && *final(api_reputation) == *old(api_reputation),
        r matches Ok(o) ==> {
            let consensus = spec_consensus_score(
                spec_submission_scores(submissions@),
                registry.max_score_deviation,
            )->Ok_0;
            &&& o.consensus_score == consensus
            &&& o.refund_percentage == spec_refund_from_quality(consensus)
            &&& o.refund_amount == spec_refund_amount(old(escrow).amount, o.refund_percentage)
            &&& o.payment_amount == spec_payment_amount(old(escrow).amount, o.refund_percentage)
            &&& o.refund_amount + o.payment_amount == old(escrow).amount
            &&& final(escrow).status == EscrowStatus::Resolved
            &&& final(escrow).quality_score == Some(consensus)
            &&& final(escrow).refund_percentage == Some(o.refund_percentage)
            &&& final(escrow).oracle_submissions@ == spec_audit_list(submissions@, now)
            &&& final(escrow).agent == old(escrow).agent
            &&& final(escrow).api == old(escrow).api
            &&& final(escrow).amount == old(escrow).amount
            &&& final(escrow).created_at == old(escrow).created_at
            &&& final(escrow).expires_at == old(escrow).expires_at
            &&& final(escrow).transaction_id@ == old(escrow).transaction_id@
            &&& final(escrow).token_mint == old(escrow).token_mint
            &&& final(escrow).escrow_token_account == old(escrow).escrow_token_account
            &&& final(escrow).token_decimals == old(escrow).token_decimals
            &&& *final(agent_reputation) == spec_agent_rep_update(
                *old(agent_reputation),
                consensus,
                o.refund_percentage,
                now,
            )
            &&& *final(api_reputation) == spec_api_rep_update(
                *old(api_reputation),
                o.refund_percentage,
                now,
            )
        },
{
    if !matches!(escrow.status, EscrowStatus::Active | EscrowStatus::Disputed) {
        return Err(EscrowError::InvalidStatus);
    }
    if submissions.len() < registry.min_consensus as usize {
        return Err(EscrowError::InsufficientOracleConsensus);
    }
    if submissions.len() > MAX_ORACLES {
        return Err(EscrowError::MaxOraclesReached);
    }

    let ghost subs = submissions@;
    let ghost oracles = registry.oracles@;
    let ghost txid = escrow.transaction_id@;

    let mut verified_scores: Vec<u8> = Vec::new();
    let mut verified_oracles: Vec<Pubkey> = Vec::new();
    let mut i: usize = 0;
    while i < submissions.len()
        invariant
            i <= subs.len(),
            subs.len() <= MAX_ORACLES,
            registry.min_consensus <= subs.len(),
            subs == submissions@,
            oracles == registry.oracles@,
            txid == escrow.transaction_id@,
            *escrow == *old(escrow),
            *agent_reputation == *old(agent_reputation),
            *api_reputation == *old(api_reputation),
            spec_escrow_wf(*old(escrow)),
            old(escrow).status == EscrowStatus::Active || old(escrow).status
                == EscrowStatus::Disputed,
            spec_first_submission_err(subs, oracles, instructions@, txid, 0)
                == spec_first_submission_err(subs, oracles, instructions@, txid, i as int),
            verified_scores@ == spec_submission_scores(subs.subrange(0, i as int)),
            verified_oracles@ == spec_submission_oracles(subs.subrange(0, i as int)),
        decreases subs.len() - i,
    {
        let sub = submissions[i];

        let config = match find_oracle(registry, &sub.oracle) {
            Some(c) => c,
            None => {
                assert(spec_submission_err(subs, i as int, oracles, instructions@, txid) == Some(
                    EscrowError::UnregisteredOracle,
                ));
                return Err(EscrowError::UnregisteredOracle);
            },
        };

        if crate::keys::contains_pubkey(&verified_oracles, &sub.oracle) {
            proof {
                let k = choose|k: int|
                    0 <= k < verified_oracles@.len() && verified_oracles@[k] == sub.oracle;
                assert(subs[k].oracle == sub.oracle);
            }
            return Err(EscrowError::DuplicateOracleSubmission);
        }
        assert(forall|j: int| 0 <= j < i ==> subs[j].oracle != subs[i as int].oracle) by {
            assert(forall|j: int|
                0 <= j < i ==> verified_oracles@[j] == #[trigger] subs[j].oracle);
        }

        if sub.quality_score > 100 {
            return Err(EscrowError::InvalidQualityScore);
        }

        match config.oracle_type {
            OracleType::Ed25519 => {
                let message = score_message(&escrow.transaction_id, sub.quality_score);
                match verify_ed25519_signature(
                    instructions,
                    &sub.signature,
                    &sub.oracle,
                    message.as_slice(),
                    i as u16,
                ) {
                    Ok(()) => {},
                    Err(_) => {
                        return Err(EscrowError::InvalidSignature);
                    },
                }
            },
            OracleType::Switchboard => {
                return Err(EscrowError::UnsupportedOracleType);
            },
            OracleType::Custom => {
                return Err(EscrowError::UnsupportedOracleType);
            },
        }

        verified_scores.push(sub.quality_score);
        verified_oracles.push(sub.oracle);
        proof {
            assert(subs.subrange(0, i + 1) =~= subs.subrange(0, i as int).push(subs[i as int]));
            assert(verified_scores@ =~= spec_submission_scores(subs.subrange(0, i + 1)));
            assert(verified_oracles@ =~= spec_submission_oracles(subs.subrange(0, i + 1)));
            assert(spec_submission_err(subs, i as int, oracles, instructions@, txid) is None);
        }
        i += 1;
    }
    proof {
        assert(subs.subrange(0, subs.len() as int) =~= subs);
        lemma_no_submission_err(subs, oracles, instructions@, txid, 0);
    }

    let consensus_score = match calculate_consensus_score(
        &verified_scores,
        registry.max_score_deviation,
    ) {
        Ok(c) => c,
        Err(e) => {
            return Err(e);
        },
    };
    proof {
        assert forall|k: int| 0 <= k < spec_submission_scores(subs).len() implies
            spec_submission_scores(subs)[k] <= 100 by {
            assert(spec_submission_err(subs, k, oracles, instructions@, txid) is None);
        }
        lemma_consensus_score_le_100(spec_submission_scores(subs), registry.max_score_deviation);
    }

    let refund_percentage = calculate_refund_from_quality(consensus_score);
    let (refund_amount, payment_amount) = calculate_split(escrow.amount, refund_percentage);

    if escrow.token_mint.is_some() {
        let mint = escrow.token_mint.unwrap();
        if refund_amount > 0 {
            let escrow_tok = match escrow_token_account {
                Some(t) => t,
                None => {
                    return Err(EscrowError::MissingTokenAccount);
                },
            };
            let agent_tok = match agent_token_account {
                Some(t) => t,
                None => {
                    return Err(EscrowError::MissingTokenAccount);
                },
            };
            if !has_token_program {
                return Err(EscrowError::MissingTokenProgram);
            }
            if !pubkey_eq(&escrow_tok.mint, &mint) {
                return Err(EscrowError::TokenMintMismatch);
            }
            if !pubkey_eq(&agent_tok.mint, &mint) {
                return Err(EscrowError::TokenMintMismatch);
            }
            if escrow_tok.amount < refund_amount {
                return Err(EscrowError::InsufficientDisputeFunds);
            }
        }
        if payment_amount > 0 {
            let escrow_tok = match escrow_token_account {
                Some(t) => t,
                None => {
                    return Err(EscrowError::MissingTokenAccount);
                },
            };
            let api_tok = match api_token_account {
                Some(t) => t,
                None => {
                    return Err(EscrowError::MissingTokenAccount);
                },
            };
            if !has_token_program {
                return Err(EscrowError::MissingTokenProgram);
            }
            if !pubkey_eq(&escrow_tok.mint, &mint) {
                return Err(EscrowError::TokenMintMismatch);
            }
            if !pubkey_eq(&api_tok.mint, &mint) {
                return Err(EscrowError::TokenMintMismatch);
            }
            if escrow_tok.amount < payment_amount {
                return Err(EscrowError::InsufficientDisputeFunds);
            }
        }
    }

    let mut audit: Vec<OracleSubmission> = Vec::new();
    let mut k: usize = 0;
    while k < submissions.len()
        invariant
            k <= subs.len(),
            subs == submissions@,
            audit@ == spec_audit_list(subs.subrange(0, k as int), now),
        decreases subs.len() - k,
    {
        let sub = submissions[k];
        audit.push(
            OracleSubmission {
                oracle: sub.oracle,
                quality_score: sub.quality_score,
                submitted_at: now,
            },
        );
        proof {
            assert(subs.subrange(0, k + 1) =~= subs.subrange(0, k as int).push(subs[k as int]));
            assert(audit@ =~= spec_audit_list(subs.subrange(0, k + 1), now));
        }
        k += 1;
    }
    proof {
        assert(subs.subrange(0, subs.len() as int) =~= subs);
    }

    escrow.status = EscrowStatus::Resolved;
    escrow.quality_score = Some(consensus_score);
    escrow.refund_percentage = Some(refund_percentage);
    escrow.oracle_submissions = audit;

    update_agent_reputation(agent_reputation, consensus_score, refund_percentage, now);
    update_api_reputation(api_reputation, refund_percentage, now);

    Ok(
        MultiOracleOutcome {
            consensus_score,
            refund_percentage,
            refund_amount,
            payment_amount,
        },
    )
}

} // verus!
