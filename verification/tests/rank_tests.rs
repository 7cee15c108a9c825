//! Tests of candidate ranking: ascending by fit key, ties by index,
//! worst-possible keys (the encoding of a not-a-number fit) last.

use rustamath_physics::rank::{rank_fits, FitScore};

fn score(index: usize, fit: u64) -> FitScore {
    FitScore { index, fit }
}

#[test]
fn ranking_sorts_ascending_by_fit() {
    let scores = vec![score(0, 30), score(1, 10), score(2, 20)];
    let ranked = rank_fits(&scores);
    assert_eq!(ranked, vec![score(1, 10), score(2, 20), score(0, 30)]);
}

#[test]
fn ranking_breaks_ties_by_index() {
    let scores = vec![score(7, 10), score(2, 10), score(5, 10)];
    let ranked = rank_fits(&scores);
    assert_eq!(ranked, vec![score(2, 10), score(5, 10), score(7, 10)]);
}

#[test]
fn worst_key_sorts_last() {
    // u64::MAX is the key a driver assigns to a not-a-number fit.
    let scores = vec![score(1, u64::MAX), score(2, 40), score(3, u64::MAX), score(4, 0)];
    let ranked = rank_fits(&scores);
    assert_eq!(
        ranked,
        vec![score(4, 0), score(2, 40), score(1, u64::MAX), score(3, u64::MAX)]
    );
}

#[test]
fn ranking_of_empty_and_singleton() {
    let ranked = rank_fits(&vec![]);
    assert!(ranked.is_empty());
    let one = vec![score(3, 12)];
    assert_eq!(rank_fits(&one), one);
}

#[test]
fn ranking_is_deterministic_across_input_orders() {
    let a = vec![score(0, 5), score(1, 3), score(2, 9)];
    let b = vec![score(2, 9), score(0, 5), score(1, 3)];
    assert_eq!(rank_fits(&a), rank_fits(&b));
}
