//! Ranking of scored candidates.
//!
//! The driver scores every candidate and returns the list sorted ascending
//! by goodness of fit, with ties broken by catalog index so the ranking is
//! reproducible.  A score is carried as a `u64` key under which smaller
//! means better; the caller encodes its raw fit values into keys with a
//! total order (mapping a not-a-number fit to `u64::MAX`, so it sorts
//! last) before ranking.

use vstd::prelude::*;
use vstd::relations::{sorted_by, total_ordering};
use vstd::seq_lib::lemma_sorted_unique;

verus! {

/// One scored candidate: a catalog index and its fit key.
#[derive(Clone, Copy, PartialEq, Eq, Structural, Debug)]
pub struct FitScore {
    /// Index of the candidate in the catalog.
    pub index: usize,
    /// Fit key; smaller is better.
    pub fit: u64,
}

/// Ranking order: ascending by fit key, ties broken by catalog index.
pub open spec fn fit_le(a: FitScore, b: FitScore) -> bool {
    a.fit < b.fit || (a.fit == b.fit && a.index <= b.index)
}

/// A sequence of scores is ranked: every pair of positions is in order.
pub open spec fn ranked(s: Seq<FitScore>) -> bool {
    forall|i: int, j: int| 0 <= i < j < s.len() ==> fit_le(#[trigger] s[i], #[trigger] s[j])
}

/// Ranking order as an executable comparison.
fn fit_le_exec(a: FitScore, b: FitScore) -> (r: bool)
    ensures
        r == fit_le(a, b),
{
    a.fit < b.fit || (a.fit == b.fit && a.index <= b.index)
}

/// Sort scored candidates ascending by fit key, ties by catalog index.
///
/// The result holds exactly the given scores and is ranked; together with
/// `lemma_ranked_unique` this makes the returned order the one and only
/// ranking of the scores.
pub fn rank_fits(scores: &Vec<FitScore>) -> (r: Vec<FitScore>)
    ensures
        ranked(r@),
        r@.to_multiset() == scores@.to_multiset(),
        r@.len() == scores@.len(),
{
    let mut r: Vec<FitScore> = Vec::new();
    proof {
        assert(scores@.subrange(0, 0) =~= Seq::<FitScore>::empty());
        assert(r@.to_multiset() =~= scores@.subrange(0, 0).to_multiset());
    }
    let n: usize = scores.len();
    let mut k: usize = 0;
    while k < n
        invariant
            n == scores@.len(),
            k <= n,
            r@.len() == k,
            ranked(r@),
            r@.to_multiset() == scores@.subrange(0, k as int).to_multiset(),
        decreases n - k,
    {
        let x = scores[k];
        let mut p: usize = 0;
        while p < r.len() && fit_le_exec(r[p], x)
            invariant
                p <= r@.len(),
                ranked(r@),
                forall|q: int| 0 <= q < p ==> fit_le(#[trigger] r@[q], x),
            decreases r@.len() - p,
        {
            p = p + 1;
        }
        let ghost prev = r@;
        r.insert(p, x);
        proof {
            broadcast use vstd::seq_lib::to_multiset_insert;
            broadcast use vstd::seq_lib::to_multiset_build;

            assert(r@ == prev.insert(p as int, x));
            assert(scores@.subrange(0, k as int + 1) =~= scores@.subrange(0, k as int).push(
                scores@[k as int],
            ));
            assert(r@.to_multiset() =~= scores@.subrange(0, k as int + 1).to_multiset());
            assert forall|i: int, j: int| 0 <= i < j < r@.len() implies fit_le(
                #[trigger] r@[i],
                #[trigger] r@[j],
            ) by {
                if p < prev.len() {
                    // The probe stopped at an element not below `x`, so `x`
                    // precedes everything from position `p` on.
                    assert(!fit_le(prev[p as int], x));
                    assert(fit_le(x, prev[p as int]));
                }
                if i < p && j == p {
                    assert(fit_le(prev[i], x));
                } else if i == p && j > p {
                    assert(fit_le(x, prev[j - 1]));
                }
            }
        }
        k = k + 1;
    }
    proof {
        assert(scores@.subrange(0, n as int) =~= scores@);
    }
    r
}

/// Law: the ranking is deterministic.  Any two ranked sequences holding
/// the same scores are equal, whatever order the scores were produced in.
pub proof fn lemma_ranked_unique(x: Seq<FitScore>, y: Seq<FitScore>)
    requires
        ranked(x),
        ranked(y),
        x.to_multiset() == y.to_multiset(),
    ensures
        x == y,
{
    let leq = |a: FitScore, b: FitScore| fit_le(a, b);
    assert(sorted_by(x, leq));
    assert(sorted_by(y, leq));
    assert(total_ordering(leq));
    lemma_sorted_unique(x, y, leq);
}

} // verus!
