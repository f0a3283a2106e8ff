use x402_escrow::errors::EscrowError;
use x402_escrow::escrow::{
    initialize_escrow, resolve_dispute_multi_oracle, Escrow, EscrowStatus, MintInfo,
    OracleSubmissionInput, TokenAccountInfo,
};
use x402_escrow::keys::ED25519_PROGRAM_ID;
use x402_escrow::registry::{
    add_oracle, initialize_oracle_registry, OracleRegistry, OracleType,
};
use x402_escrow::reputation::init_reputation;
use x402_escrow::sigverify::InstructionRecord;

const AGENT: [u8; 32] = [1u8; 32];
const API: [u8; 32] = [2u8; 32];
const ESCROW_KEY: [u8; 32] = [3u8; 32];
const ADMIN: [u8; 32] = [5u8; 32];
const NOW: i64 = 1_700_000_000;

fn native_escrow() -> Escrow {
    initialize_escrow(
        AGENT,
        API,
        ESCROW_KEY,
        10_000_000,
        7200,
        b"tx-9".to_vec(),
        false,
        None,
        None,
        None,
        false,
        1_000_000,
        NOW,
    )
    .unwrap()
}

fn oracle_key(n: u8) -> [u8; 32] {
    [n; 32]
}

fn registry_with(oracles: &[(u8, OracleType)]) -> OracleRegistry {
    let mut registry = initialize_oracle_registry(ADMIN, 2, 15, NOW).unwrap();
    for &(n, kind) in oracles {
        add_oracle(&mut registry, &ADMIN, oracle_key(n), kind, 1, NOW).unwrap();
    }
    registry
}

fn make_record(signature: &[u8; 64], pubkey: &[u8; 32], message: &[u8]) -> InstructionRecord {
    let mut data = vec![0u8; 16];
    data[0] = 1;
    data[2] = 16;
    data[6] = 80;
    data[10] = 112;
    data[12] = (message.len() % 256) as u8;
    data[13] = (message.len() / 256) as u8;
    data.extend_from_slice(signature);
    data.extend_from_slice(pubkey);
    data.extend_from_slice(message);
    InstructionRecord { program_id: ED25519_PROGRAM_ID, data }
}

fn submission(n: u8, score: u8) -> OracleSubmissionInput {
    OracleSubmissionInput { oracle: oracle_key(n), quality_score: score, signature: [n; 64] }
}

/// One signature record per submission, at the matching batch position,
/// each over `"tx-9:{score}"`.
fn records_for(submissions: &[OracleSubmissionInput]) -> Vec<InstructionRecord> {
    submissions
        .iter()
        .map(|s| {
            let message = format!("tx-9:{}", s.quality_score);
            make_record(&s.signature, &s.oracle, message.as_bytes())
        })
        .collect()
}

#[test]
fn consensus_resolution_splits_by_policy() {
    let mut escrow = native_escrow();
    let registry = registry_with(&[(10, OracleType::Ed25519), (11, OracleType::Ed25519), (
        12,
        OracleType::Ed25519,
    )]);
    let mut agent_rep = init_reputation(&AGENT, NOW);
    let mut api_rep = init_reputation(&API, NOW);
    // Sorted [40, 90, 92], median 90, 40 discarded, consensus 92: quality at
    // least 80 earns no refund.
    let subs = vec![submission(10, 40), submission(11, 90), submission(12, 92)];
    let records = records_for(&subs);

    let outcome = resolve_dispute_multi_oracle(
        &mut escrow,
        &registry,
        &mut agent_rep,
        &mut api_rep,
        &subs,
        &records,
        None,
        None,
        None,
        false,
        NOW + 30,
    )
    .unwrap();

    assert_eq!(outcome.consensus_score, 92);
    assert_eq!(outcome.refund_percentage, 0);
    assert_eq!(outcome.refund_amount, 0);
    assert_eq!(outcome.payment_amount, 10_000_000);
    assert_eq!(escrow.status, EscrowStatus::Resolved);
    assert_eq!(escrow.quality_score, Some(92));
    assert_eq!(escrow.refund_percentage, Some(0));
    assert_eq!(escrow.oracle_submissions.len(), 3);
    assert_eq!(escrow.oracle_submissions[0].oracle, oracle_key(10));
    assert_eq!(escrow.oracle_submissions[0].quality_score, 40);
    assert_eq!(escrow.oracle_submissions[0].submitted_at, NOW + 30);
    // Consensus 92 with no refund: the agent lost, the provider won.
    assert_eq!(agent_rep.disputes_lost, 1);
    assert_eq!(api_rep.disputes_won, 1);
}

#[test]
fn low_consensus_refunds_in_full() {
    let mut escrow = native_escrow();
    let registry = registry_with(&[(10, OracleType::Ed25519), (11, OracleType::Ed25519)]);
    let mut agent_rep = init_reputation(&AGENT, NOW);
    let mut api_rep = init_reputation(&API, NOW);
    // Mean of [30, 40] is 35: quality below 50 earns a full refund.
    let subs = vec![submission(10, 30), submission(11, 40)];
    let records = records_for(&subs);

    let outcome = resolve_dispute_multi_oracle(
        &mut escrow,
        &registry,
        &mut agent_rep,
        &mut api_rep,
        &subs,
        &records,
        None,
        None,
        None,
        false,
        NOW,
    )
    .unwrap();
    assert_eq!(outcome.consensus_score, 35);
    assert_eq!(outcome.refund_percentage, 100);
    assert_eq!(outcome.refund_amount, 10_000_000);
    assert_eq!(outcome.payment_amount, 0);
}

#[test]
fn unregistered_oracle_is_rejected() {
    let mut escrow = native_escrow();
    let registry = registry_with(&[(10, OracleType::Ed25519), (11, OracleType::Ed25519)]);
    let mut agent_rep = init_reputation(&AGENT, NOW);
    let mut api_rep = init_reputation(&API, NOW);
    let subs = vec![submission(10, 40), submission(99, 50)];
    let records = records_for(&subs);
    assert_eq!(
        resolve_dispute_multi_oracle(
            &mut escrow, &registry, &mut agent_rep, &mut api_rep, &subs, &records, None, None,
            None, false, NOW,
        ),
        Err(EscrowError::UnregisteredOracle)
    );
    assert_eq!(escrow.status, EscrowStatus::Active);
    assert_eq!(agent_rep.total_transactions, 0);
}

#[test]
fn duplicate_submission_is_rejected() {
    let mut escrow = native_escrow();
    let registry = registry_with(&[(10, OracleType::Ed25519), (11, OracleType::Ed25519)]);
    let mut agent_rep = init_reputation(&AGENT, NOW);
    let mut api_rep = init_reputation(&API, NOW);
    let subs = vec![submission(10, 40), submission(10, 50)];
    let records = records_for(&subs);
    assert_eq!(
        resolve_dispute_multi_oracle(
            &mut escrow, &registry, &mut agent_rep, &mut api_rep, &subs, &records, None, None,
            None, false, NOW,
        ),
        Err(EscrowError::DuplicateOracleSubmission)
    );
}

#[test]
fn too_few_submissions_are_rejected() {
    let mut escrow = native_escrow();
    let registry = registry_with(&[(10, OracleType::Ed25519)]);
    let mut agent_rep = init_reputation(&AGENT, NOW);
    let mut api_rep = init_reputation(&API, NOW);
    let subs = vec![submission(10, 40)];
    let records = records_for(&subs);
    assert_eq!(
        resolve_dispute_multi_oracle(
            &mut escrow, &registry, &mut agent_rep, &mut api_rep, &subs, &records, None, None,
            None, false, NOW,
        ),
        Err(EscrowError::InsufficientOracleConsensus)
    );
}

#[test]
fn more_than_five_submissions_are_rejected() {
    let mut escrow = native_escrow();
    let registry = registry_with(&[(10, OracleType::Ed25519), (11, OracleType::Ed25519)]);
    let mut agent_rep = init_reputation(&AGENT, NOW);
    let mut api_rep = init_reputation(&API, NOW);
    let subs: Vec<OracleSubmissionInput> =
        (0..6u8).map(|n| submission(10 + n, 50)).collect();
    let records = records_for(&subs);
    assert_eq!(
        resolve_dispute_multi_oracle(
            &mut escrow, &registry, &mut agent_rep, &mut api_rep, &subs, &records, None, None,
            None, false, NOW,
        ),
        Err(EscrowError::MaxOraclesReached)
    );
}

#[test]
fn oracle_kinds_without_consensus_verification_are_rejected() {
    let mut escrow = native_escrow();
    let registry =
        registry_with(&[(10, OracleType::Ed25519), (11, OracleType::Switchboard)]);
    let mut agent_rep = init_reputation(&AGENT, NOW);
    let mut api_rep = init_reputation(&API, NOW);
    let subs = vec![submission(10, 40), submission(11, 50)];
    let records = records_for(&subs);
    assert_eq!(
        resolve_dispute_multi_oracle(
            &mut escrow, &registry, &mut agent_rep, &mut api_rep, &subs, &records, None, None,
            None, false, NOW,
        ),
        Err(EscrowError::UnsupportedOracleType)
    );
}

#[test]
fn signature_record_must_sit_at_the_submission_index() {
    let mut escrow = native_escrow();
    let registry = registry_with(&[(10, OracleType::Ed25519), (11, OracleType::Ed25519)]);
    let mut agent_rep = init_reputation(&AGENT, NOW);
    let mut api_rep = init_reputation(&API, NOW);
    let subs = vec![submission(10, 40), submission(11, 50)];
    let mut records = records_for(&subs);
    records.swap(0, 1);
    assert_eq!(
        resolve_dispute_multi_oracle(
            &mut escrow, &registry, &mut agent_rep, &mut api_rep, &subs, &records, None, None,
            None, false, NOW,
        ),
        Err(EscrowError::InvalidSignature)
    );
}

#[test]
fn divergent_scores_reach_no_consensus() {
    let mut escrow = native_escrow();
    let registry = registry_with(&[(10, OracleType::Ed25519), (11, OracleType::Ed25519), (
        12,
        OracleType::Ed25519,
    )]);
    let mut agent_rep = init_reputation(&AGENT, NOW);
    let mut api_rep = init_reputation(&API, NOW);
    let subs = vec![submission(10, 0), submission(11, 50), submission(12, 100)];
    let records = records_for(&subs);
    assert_eq!(
        resolve_dispute_multi_oracle(
            &mut escrow, &registry, &mut agent_rep, &mut api_rep, &subs, &records, None, None,
            None, false, NOW,
        ),
        Err(EscrowError::NoConsensusReached)
    );
    assert_eq!(escrow.status, EscrowStatus::Active);
}

#[test]
fn token_escrow_revalidates_accounts_before_moving_funds() {
    let mint = MintInfo { key: [7u8; 32], decimals: 6 };
    let escrow_tok =
        TokenAccountInfo { key: [8u8; 32], mint: mint.key, owner: ESCROW_KEY, amount: 0 };
    let agent_tok =
        TokenAccountInfo { key: [9u8; 32], mint: mint.key, owner: AGENT, amount: 600 };
    let mut escrow = initialize_escrow(
        AGENT,
        API,
        ESCROW_KEY,
        600,
        7200,
        b"tx-9".to_vec(),
        true,
        Some(mint),
        Some(escrow_tok),
        Some(agent_tok),
        true,
        0,
        NOW,
    )
    .unwrap();
    let registry = registry_with(&[(10, OracleType::Ed25519), (11, OracleType::Ed25519)]);
    let mut agent_rep = init_reputation(&AGENT, NOW);
    let mut api_rep = init_reputation(&API, NOW);
    // Mean of [50, 60] is 55: the policy refunds 75%, so both legs move.
    let subs = vec![submission(10, 50), submission(11, 60)];
    let records = records_for(&subs);
    let funded = TokenAccountInfo { amount: 600, ..escrow_tok };
    let api_tok = TokenAccountInfo { key: [10u8; 32], mint: mint.key, owner: API, amount: 0 };

    assert_eq!(
        resolve_dispute_multi_oracle(
            &mut escrow, &registry, &mut agent_rep, &mut api_rep, &subs, &records,
            Some(funded), None, Some(api_tok), true, NOW,
        ),
        Err(EscrowError::MissingTokenAccount)
    );
    assert_eq!(escrow.status, EscrowStatus::Active);

    let outcome = resolve_dispute_multi_oracle(
        &mut escrow,
        &registry,
        &mut agent_rep,
        &mut api_rep,
        &subs,
        &records,
        Some(funded),
        Some(agent_tok),
        Some(api_tok),
        true,
        NOW,
    )
    .unwrap();
    assert_eq!(outcome.consensus_score, 55);
    assert_eq!(outcome.refund_percentage, 75);
    assert_eq!(outcome.refund_amount, 450);
    assert_eq!(outcome.payment_amount, 150);
    assert_eq!(escrow.status, EscrowStatus::Resolved);
}
