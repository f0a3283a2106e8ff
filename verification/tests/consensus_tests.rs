use x402_escrow::consensus::calculate_consensus_score;
use x402_escrow::errors::EscrowError;

#[test]
fn two_scores_yield_truncated_mean() {
    let scores: Vec<u8> = vec![40, 90];
    assert_eq!(calculate_consensus_score(&scores, 15), Ok(65));
}

#[test]
fn two_scores_mean_truncates_down() {
    let scores: Vec<u8> = vec![1, 2];
    assert_eq!(calculate_consensus_score(&scores, 15), Ok(1));
}

#[test]
fn order_of_submission_does_not_matter() {
    let a: Vec<u8> = vec![90, 40];
    let b: Vec<u8> = vec![40, 90];
    assert_eq!(
        calculate_consensus_score(&a, 15),
        calculate_consensus_score(&b, 15)
    );
}

#[test]
fn outlier_is_discarded_and_median_of_survivors_wins() {
    // Sorted [40, 90, 92], median 90; 40 is 50 away and is discarded;
    // the median of the surviving [90, 92] is 92.
    let scores: Vec<u8> = vec![40, 90, 92];
    assert_eq!(calculate_consensus_score(&scores, 15), Ok(92));
}

#[test]
fn close_scores_all_survive() {
    // Sorted [10, 11, 12], median 11, everything within 15.
    let scores: Vec<u8> = vec![10, 12, 11];
    assert_eq!(calculate_consensus_score(&scores, 15), Ok(11));
}

#[test]
fn fewer_than_two_survivors_is_no_consensus() {
    // Sorted [0, 50, 100], median 50; both 0 and 100 are 50 away, so only
    // the median itself survives the filter.
    let scores: Vec<u8> = vec![0, 50, 100];
    assert_eq!(
        calculate_consensus_score(&scores, 15),
        Err(EscrowError::NoConsensusReached)
    );
}

#[test]
fn one_score_is_insufficient() {
    let scores: Vec<u8> = vec![77];
    assert_eq!(
        calculate_consensus_score(&scores, 15),
        Err(EscrowError::InsufficientOracleConsensus)
    );
}

#[test]
fn no_scores_is_insufficient() {
    let scores: Vec<u8> = vec![];
    assert_eq!(
        calculate_consensus_score(&scores, 15),
        Err(EscrowError::InsufficientOracleConsensus)
    );
}

#[test]
fn five_scores_with_tight_deviation() {
    // Sorted [70, 71, 72, 73, 95], median 72; 95 is discarded; the median
    // of [70, 71, 72, 73] is 72.
    let scores: Vec<u8> = vec![95, 71, 73, 70, 72];
    assert_eq!(calculate_consensus_score(&scores, 5), Ok(72));
}
