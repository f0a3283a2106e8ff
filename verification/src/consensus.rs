//! Multi-oracle consensus: reduces independently verified quality scores to
//! one consensus score by outlier-filtered median.

use vstd::prelude::*;
use vstd::relations::{sorted_by, total_ordering};
use vstd::seq_lib::lemma_sorted_unique;
use crate::errors::EscrowError;

verus! {

broadcast use vstd::seq_lib::group_to_multiset_ensures;

/// The ordering consensus sorts scores by.
pub open spec fn score_le() -> spec_fn(u8, u8) -> bool {
    |a: u8, b: u8| a <= b
}

/// `score_le` is a total ordering.
pub proof fn lemma_score_le_total_ordering()
    ensures
        total_ordering(score_le()),
{
    assert(vstd::relations::reflexive(score_le())) by {
        assert forall|x: u8| #[trigger] score_le()(x, x) by {}
    }
}

/// The scores in ascending order.
pub open spec fn sorted_scores(scores: Seq<u8>) -> Seq<u8> {
    scores.sort_by(score_le())
}

/// Absolute distance between two scores.
pub open spec fn score_distance(a: u8, b: u8) -> int {
    if a >= b {
        a - b
    } else {
        b - a
    }
}

/// Whether a score lies within `max_deviation` of the median.
pub open spec fn within_deviation(median: u8, max_deviation: u8) -> spec_fn(u8) -> bool {
    |x: u8| score_distance(x, median) <= max_deviation
}

/// The consensus quality score of a list of verified oracle scores.
/// Fewer than two scores reach no quorum. Exactly two yield their
/// truncated mean. Three or more are sorted; scores farther than
/// `max_deviation` from the median are discarded as outliers, and if fewer
/// than two survive there is no consensus; otherwise the median of the
/// surviving, still-sorted scores is the consensus.
pub open spec fn spec_consensus_score(scores: Seq<u8>, max_deviation: u8) -> Result<
    u8,
    EscrowError,
> {
    if scores.len() < 2 {
        Err(EscrowError::InsufficientOracleConsensus)
    } else if scores.len() == 2 {
        let s = sorted_scores(scores);
        Ok(((s[0] + s[1]) / 2) as u8)
    } else {
        let s = sorted_scores(scores);
        let median = s[s.len() as int / 2];
        let valid = s.filter(within_deviation(median, max_deviation));
        if valid.len() < 2 {
            Err(EscrowError::NoConsensusReached)
        } else {
            Ok(valid[valid.len() as int / 2])
        }
    }
}

/// The consensus score does not depend on the order of submission: any two
/// lists carrying the same scores agree.
pub proof fn lemma_consensus_is_order_independent(a: Seq<u8>, b: Seq<u8>, max_deviation: u8)
    requires
        a.to_multiset() == b.to_multiset(),
    ensures
        spec_consensus_score(a, max_deviation) == spec_consensus_score(b, max_deviation),
{
    lemma_score_le_total_ordering();
    a.lemma_sort_by_ensures(score_le());
    b.lemma_sort_by_ensures(score_le());
    lemma_sorted_unique(sorted_scores(a), sorted_scores(b), score_le());
    assert(a.to_multiset().len() == a.len());
    assert(b.to_multiset().len() == b.len());
}

/// Every element of a filtered sequence is an element of the original.
proof fn lemma_filter_is_subset<A>(s: Seq<A>, pred: spec_fn(A) -> bool)
    ensures
        forall|k: int| 0 <= k < s.filter(pred).len() ==> s.contains(#[trigger] s.filter(pred)[k]),
    decreases s.len(),
{
    reveal(Seq::filter);
    if s.len() > 0 {
        lemma_filter_is_subset(s.drop_last(), pred);
        assert forall|k: int| 0 <= k < s.filter(pred).len() implies s.contains(
            #[trigger] s.filter(pred)[k],
        ) by {
            let sub = s.drop_last().filter(pred);
            if k < sub.len() {
                let j = choose|j: int| 0 <= j < s.drop_last().len() && s.drop_last()[j] == sub[k];
                assert(s[j] == sub[k]);
            } else {
                assert(s[s.len() - 1] == s.filter(pred)[k]);
            }
        }
    }
}

/// When every submitted score is a valid quality score (at most 100), so is
/// the consensus score.
pub proof fn lemma_consensus_score_le_100(scores: Seq<u8>, max_deviation: u8)
    requires
        forall|i: int| 0 <= i < scores.len() ==> scores[i] <= 100,
    ensures
        spec_consensus_score(scores, max_deviation) matches Ok(c) ==> c <= 100,
{
    if scores.len() < 2 {
    } else {
        let s = sorted_scores(scores);
        lemma_score_le_total_ordering();
        scores.lemma_sort_by_ensures(score_le());
        assert(s.to_multiset().len() == s.len());
        assert(scores.to_multiset().len() == scores.len());
        assert(s.len() == scores.len());
        assert forall|k: int| 0 <= k < s.len() implies s[k] <= 100 by {
            assert(s.contains(s[k]));
            assert(scores.contains(s[k]));
            let j = choose|j: int| 0 <= j < scores.len() && scores[j] == s[k];
        }
        if scores.len() == 2 {
            assert(s[0] <= 100 && s[1] <= 100);
        } else {
            let median = s[s.len() as int / 2];
            let pred = within_deviation(median, max_deviation);
            let valid = s.filter(pred);
            if valid.len() >= 2 {
                lemma_filter_is_subset(s, pred);
                let c = valid[valid.len() as int / 2];
                assert(s.contains(c));
                let k = choose|k: int| 0 <= k < s.len() && s[k] == c;
                assert(s[k] <= 100);
            }
        }
    }
}

/// Sorts scores ascending.
fn sort_scores(scores: &Vec<u8>) -> (r: Vec<u8>)
    ensures
        r@ == sorted_scores(scores@),
        r@.len() == scores@.len(),
        sorted_by(r@, score_le()),
{
    let mut out: Vec<u8> = Vec::new();
    let mut i: usize = 0;
    while i < scores.len()
        invariant
            i <= scores@.len(),
            out@.len() == i,
            sorted_by(out@, score_le()),
            out@.to_multiset() == scores@.subrange(0, i as int).to_multiset(),
        decreases scores@.len() - i,
    {
        let x = scores[i];
        let mut j: usize = 0;
        while j < out.len() && out[j] <= x
            invariant
                j <= out@.len(),
                forall|k: int| 0 <= k < j ==> out@[k] <= x,
            decreases out@.len() - j,
        {
            j += 1;
        }
        let ghost prev = out@;
        out.insert(j, x);
        proof {
            let n = prev.len() as int;
            assert forall|k: int| j <= k < n implies x < prev[k] by {
                if k > j {
                    assert(score_le()(prev[j as int], prev[k]));
                }
            }
            assert forall|p: int, q: int| 0 <= p < q < out@.len() implies #[trigger] score_le()(
                out@[p],
                out@[q],
            ) by {
                assert(out@[j as int] == x);
                assert(forall|k: int| 0 <= k < j ==> out@[k] == prev[k]);
                assert(forall|k: int| j < k < out@.len() ==> out@[k] == prev[k - 1]);
                if q < j {
                    assert(score_le()(prev[p], prev[q]));
                } else if p < j && q > j {
                    assert(score_le()(prev[p], prev[q - 1]) || prev[p] <= x < prev[q - 1]);
                } else if p > j {
                    assert(score_le()(prev[p - 1], prev[q - 1]));
                }
                assert(out@[p] <= out@[q]);
            }
            assert(scores@.subrange(0, i + 1).drop_last() =~= scores@.subrange(0, i as int));
            assert(scores@.subrange(0, i + 1) =~= scores@.subrange(0, i as int).push(
                scores@[i as int],
            ));
        }
        i += 1;
    }
    proof {
        lemma_score_le_total_ordering();
        scores@.lemma_sort_by_ensures(score_le());
        assert(scores@.subrange(0, scores@.len() as int) =~= scores@);
        lemma_sorted_unique(out@, sorted_scores(scores@), score_le());
    }
    out
}

/// Keeps the scores within `max_deviation` of the median, in order.
fn filter_within(sorted: &Vec<u8>, median: u8, max_deviation: u8) -> (r: Vec<u8>)
    ensures
        r@ == sorted@.filter(within_deviation(median, max_deviation)),
{
    let ghost pred = within_deviation(median, max_deviation);
    let mut out: Vec<u8> = Vec::new();
    let mut i: usize = 0;
    while i < sorted.len()
        invariant
            i <= sorted@.len(),
            out@ == sorted@.subrange(0, i as int).filter(pred),
            pred == within_deviation(median, max_deviation),
        decreases sorted@.len() - i,
    {
        let x = sorted[i];
        let distance = if x > median {
            x - median
        } else {
            median - x
        };
        if distance <= max_deviation {
            out.push(x);
        }
        proof {
            reveal(Seq::filter);
            assert(sorted@.subrange(0, i + 1).drop_last() =~= sorted@.subrange(0, i as int));
            assert(sorted@.subrange(0, i + 1).last() == sorted@[i as int]);
        }
        i += 1;
    }
    proof {
        assert(sorted@.subrange(0, sorted@.len() as int) =~= sorted@);
    }
    out
}

/// Reduces two or more verified oracle scores to one consensus score by
/// outlier-filtered median, exactly as `spec_consensus_score` states.
pub fn calculate_consensus_score(scores: &Vec<u8>, max_deviation: u8) -> (r: Result<
    u8,
    EscrowError,
>)
    ensures
        r == spec_consensus_score(scores@, max_deviation),
{
    if scores.len() < 2 {
        return Err(EscrowError::InsufficientOracleConsensus);
    }
    let sorted = sort_scores(scores);
    if scores.len() == 2 {
        let avg: u16 = ((sorted[0] as u16) + (sorted[1] as u16)) / 2;
        return Ok(avg as u8);
    }
    let median = sorted[sorted.len() / 2];
    let valid = filter_within(&sorted, median, max_deviation);
    if valid.len() < 2 {
        return Err(EscrowError::NoConsensusReached);
    }
    Ok(valid[valid.len() / 2])
}

} // verus!
