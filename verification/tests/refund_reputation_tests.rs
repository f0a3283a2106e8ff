use x402_escrow::refund::{calculate_refund_from_quality, calculate_split};
use x402_escrow::reputation::{
    calculate_dispute_cost, calculate_reputation_score, init_reputation, update_agent_reputation,
    update_api_reputation, update_reputation, BASE_DISPUTE_COST,
};

#[test]
fn refund_tiers_match_schedule() {
    assert_eq!(calculate_refund_from_quality(0), 100);
    assert_eq!(calculate_refund_from_quality(49), 100);
    assert_eq!(calculate_refund_from_quality(50), 75);
    assert_eq!(calculate_refund_from_quality(64), 75);
    assert_eq!(calculate_refund_from_quality(65), 35);
    assert_eq!(calculate_refund_from_quality(79), 35);
    assert_eq!(calculate_refund_from_quality(80), 0);
    assert_eq!(calculate_refund_from_quality(100), 0);
}

#[test]
fn split_is_exact_floor_of_percentage() {
    assert_eq!(calculate_split(1000, 35), (350, 650));
    assert_eq!(calculate_split(7, 50), (3, 4));
    assert_eq!(calculate_split(1, 99), (0, 1));
    assert_eq!(calculate_split(0, 100), (0, 0));
}

#[test]
fn split_conserves_the_largest_amount() {
    let a = u64::MAX;
    let (refund, payment) = calculate_split(a, 33);
    assert_eq!(refund, ((a as u128) * 33 / 100) as u64);
    assert_eq!(refund + payment, a);
    assert_eq!(calculate_split(a, 100), (a, 0));
    assert_eq!(calculate_split(a, 0), (0, a));
}

#[test]
fn fresh_entity_scores_exactly_500() {
    let rep = init_reputation(&[7u8; 32], 1_700_000_000);
    assert_eq!(rep.reputation_score, 500);
    assert_eq!(rep.total_transactions, 0);
    assert_eq!(calculate_reputation_score(&rep), 500);
}

#[test]
fn score_is_a_pure_function_of_the_counters() {
    let mut rep = init_reputation(&[7u8; 32], 0);
    update_agent_reputation(&mut rep, 90, 0, 10);
    let first = calculate_reputation_score(&rep);
    let second = calculate_reputation_score(&rep);
    assert_eq!(first, second);
    assert_eq!(rep.reputation_score, first);
}

#[test]
fn score_stays_in_bounds_under_many_updates() {
    let mut rep = init_reputation(&[7u8; 32], 0);
    for i in 0..300u64 {
        let quality = (i % 101) as u8;
        let refund = ((i * 13) % 101) as u8;
        update_agent_reputation(&mut rep, quality, refund, i as i64);
        assert!(rep.reputation_score <= 1000);
    }
}

#[test]
fn agent_update_folds_average_and_buckets() {
    let mut rep = init_reputation(&[1u8; 32], 0);
    // Quality 80, refund 0: the agent lost this dispute.
    update_agent_reputation(&mut rep, 80, 0, 5);
    assert_eq!(rep.total_transactions, 1);
    assert_eq!(rep.average_quality_received, 80);
    assert_eq!(rep.disputes_lost, 1);
    assert_eq!(rep.disputes_won, 0);
    assert_eq!(rep.disputes_partial, 0);
    assert_eq!(rep.last_updated, 5);
    // Volume 1*5, no disputes filed 150, quality 80*2: 315.
    assert_eq!(rep.reputation_score, 315);

    // Quality 20, refund 100: the agent won; average (80 + 20) / 2 = 50.
    update_agent_reputation(&mut rep, 20, 100, 6);
    assert_eq!(rep.total_transactions, 2);
    assert_eq!(rep.average_quality_received, 50);
    assert_eq!(rep.disputes_won, 1);
    // Quality 50, refund 50: partial.
    update_agent_reputation(&mut rep, 50, 50, 7);
    assert_eq!(rep.disputes_partial, 1);
}

#[test]
fn provider_update_perceives_inverse_quality() {
    let mut rep = init_reputation(&[2u8; 32], 0);
    // Refund 0: the provider delivered 100 and won.
    update_api_reputation(&mut rep, 0, 5);
    assert_eq!(rep.average_quality_received, 100);
    assert_eq!(rep.disputes_won, 1);
    // Volume 5, neutral 150, quality capped at 200: 355.
    assert_eq!(rep.reputation_score, 355);

    // Refund 100: delivered 0, lost; average (100 + 0) / 2 = 50.
    update_api_reputation(&mut rep, 100, 6);
    assert_eq!(rep.average_quality_received, 50);
    assert_eq!(rep.disputes_lost, 1);
    // Refund 50: partial.
    update_api_reputation(&mut rep, 50, 7);
    assert_eq!(rep.disputes_partial, 1);
}

#[test]
fn update_reputation_records_like_an_agent() {
    let mut a = init_reputation(&[3u8; 32], 0);
    let mut b = init_reputation(&[3u8; 32], 0);
    assert_eq!(update_reputation(&mut a, 42, 80, 9), Ok(()));
    update_agent_reputation(&mut b, 42, 80, 9);
    assert_eq!(a.total_transactions, b.total_transactions);
    assert_eq!(a.average_quality_received, b.average_quality_received);
    assert_eq!(a.disputes_won, b.disputes_won);
    assert_eq!(a.reputation_score, b.reputation_score);
}

#[test]
fn dispute_cost_scales_with_dispute_rate() {
    let mut rep = init_reputation(&[4u8; 32], 0);
    assert_eq!(calculate_dispute_cost(&rep), BASE_DISPUTE_COST);

    rep.total_transactions = 100;
    rep.disputes_filed = 20;
    assert_eq!(calculate_dispute_cost(&rep), BASE_DISPUTE_COST);
    rep.disputes_filed = 21;
    assert_eq!(calculate_dispute_cost(&rep), 2 * BASE_DISPUTE_COST);
    rep.disputes_filed = 40;
    assert_eq!(calculate_dispute_cost(&rep), 2 * BASE_DISPUTE_COST);
    rep.disputes_filed = 41;
    assert_eq!(calculate_dispute_cost(&rep), 5 * BASE_DISPUTE_COST);
    rep.disputes_filed = 60;
    assert_eq!(calculate_dispute_cost(&rep), 5 * BASE_DISPUTE_COST);
    rep.disputes_filed = 61;
    assert_eq!(calculate_dispute_cost(&rep), 10 * BASE_DISPUTE_COST);
}

#[test]
fn win_rate_component_caps_at_300() {
    let mut rep = init_reputation(&[5u8; 32], 0);
    rep.total_transactions = 200;
    rep.disputes_filed = 1;
    rep.disputes_won = 1;
    rep.average_quality_received = 100;
    // Volume capped 500, win rate 100% -> 300, quality capped 200; total
    // capped at 1000.
    assert_eq!(calculate_reputation_score(&rep), 1000);
}
