//! Unit-aware symbolic regression over a catalog of physics equations.
//!
//! A fixed catalog of candidate equations advertises, per entry, the unit
//! tags of its output, constant and input parameters.  Given query unit
//! signatures, the catalog is filtered to the entries whose declared units
//! match; a regression driver then fits each candidate's free constants to
//! measured data and ranks the candidates by goodness of fit.
//!
//! This crate verifies the discrete core of that pipeline: the catalog and
//! its signatures, the unit-directed filter, the measurement-layout
//! checks, the degrees-of-freedom rule, and the ranking order.  The
//! floating-point work (evaluating equations, minimizing chi-squared) is
//! carried out by unverified callers on top of these contracts.

use vstd::prelude::*;

pub mod catalog;
pub mod rank;
pub mod regression;
pub mod units;

use crate::catalog::{
    CATALOG_LEN, EquationKind, spec_kind, spec_out_units, spec_inp_units, equation_kind,
    equation_params,
};
use crate::units::{MksUnit, units_eq};

verus! {

/// The catalog entry at index `i` answers a query with input units `inp`
/// and output units `out`: its declared input and output unit sequences
/// equal the query's, element by element.
pub open spec fn units_match(i: int, inp: Seq<MksUnit>, out: Seq<MksUnit>) -> bool {
    &&& spec_out_units(i) == out
    &&& spec_inp_units(i) == inp
}

/// Every catalog index whose declared input and output units equal the
/// query's, in catalog order.
///
/// The result is sound (every returned index matches), complete (every
/// matching index is returned), and strictly ascending; in particular it
/// is empty exactly when no entry matches.
pub fn find_equation_by_units(inputs: &[MksUnit], outputs: &[MksUnit]) -> (r: Vec<usize>)
    ensures
        forall|k: int|
            0 <= k < r@.len() ==> #[trigger] r@[k] < CATALOG_LEN && units_match(
                r@[k] as int,
                inputs@,
                outputs@,
            ),
        forall|i: int|
            0 <= i < CATALOG_LEN && units_match(i, inputs@, outputs@) ==> r@.contains(i as usize),
        forall|k1: int, k2: int|
            0 <= k1 < k2 < r@.len() ==> #[trigger] r@[k1] < #[trigger] r@[k2],
        (forall|i: int| 0 <= i < CATALOG_LEN ==> !units_match(i, inputs@, outputs@)) ==> r@.len()
            == 0,
{
    let mut r: Vec<usize> = Vec::new();
    let mut i: usize = 0;
    while i < CATALOG_LEN
        invariant
            i <= CATALOG_LEN,
            forall|k: int|
                0 <= k < r@.len() ==> #[trigger] r@[k] < i && units_match(
                    r@[k] as int,
                    inputs@,
                    outputs@,
                ),
            forall|j: int|
                0 <= j < i && units_match(j, inputs@, outputs@) ==> r@.contains(j as usize),
            forall|k1: int, k2: int|
            0 <= k1 < k2 < r@.len() ==> #[trigger] r@[k1] < #[trigger] r@[k2],
        decreases CATALOG_LEN - i,
    {
        let sig = equation_params(i);
        let out_ok = units_eq(sig.out.as_slice(), outputs);
        let inp_ok = units_eq(sig.inp.as_slice(), inputs);
        if out_ok && inp_ok {
            let ghost prev = r@;
            r.push(i);
            proof {
                assert(r@[prev.len() as int] == i);
                assert forall|j: int|
                    0 <= j < i + 1 && units_match(j, inputs@, outputs@) implies r@.contains(
                    j as usize,
                ) by {
                    if j < i {
                        let k = choose|k: int| 0 <= k < prev.len() && prev[k] == j as usize;
                        assert(r@[k] == j as usize);
                    } else {
                        assert(r@[prev.len() as int] == j as usize);
                    }
                }
            }
        }
        i = i + 1;
    }
    proof {
        if r@.len() > 0 {
            assert(r@[0] < CATALOG_LEN && units_match(r@[0] as int, inputs@, outputs@));
        }
    }
    r
}

/// The index of the catalog entry with the given identity.
///
/// Every identity names a catalog entry and no two entries share one, so
/// the lookup always succeeds, with the unique index whose entry carries
/// `kind`.
pub fn get_equation_by_typeid(kind: EquationKind) -> (r: Option<usize>)
    ensures
        r is Some,
        r->0 < CATALOG_LEN && spec_kind(r->0 as int) == kind,
{
    let mut i: usize = 0;
    while i < CATALOG_LEN
        invariant
            i <= CATALOG_LEN,
            forall|j: int| 0 <= j < i ==> spec_kind(j) != kind,
        decreases CATALOG_LEN - i,
    {
        if equation_kind(i) == kind {
            return Some(i);
        }
        i = i + 1;
    }
    proof {
        // Unreachable: each identity occurs in the catalog.
        match kind {
            EquationKind::CirclePerimeter => assert(spec_kind(0) == kind),
            EquationKind::CircleArea => assert(spec_kind(1) == kind),
            EquationKind::SquarePerimeter => assert(spec_kind(2) == kind),
            EquationKind::SquareArea => assert(spec_kind(3) == kind),
            EquationKind::Sine => assert(spec_kind(4) == kind),
            EquationKind::Velocity => assert(spec_kind(5) == kind),
            EquationKind::VelocityByDist => assert(spec_kind(6) == kind),
            EquationKind::Distance => assert(spec_kind(7) == kind),
            EquationKind::DistanceByVel => assert(spec_kind(8) == kind),
        }
        assert(false);
    }
    None
}

/// Law: ranking keeps the candidate set sound.  If every scored candidate
/// was drawn from the catalog entries matching the query units, then so is
/// every entry of any reordering of the scores — in particular of the
/// ranked list the driver returns.
pub proof fn lemma_rank_preserves_candidates(
    s: Seq<crate::rank::FitScore>,
    r: Seq<crate::rank::FitScore>,
    inp: Seq<MksUnit>,
    out: Seq<MksUnit>,
)
    requires
        r.to_multiset() == s.to_multiset(),
        forall|k: int|
            0 <= k < s.len() ==> (#[trigger] s[k]).index < CATALOG_LEN && units_match(
                s[k].index as int,
                inp,
                out,
            ),
    ensures
        forall|k: int|
            0 <= k < r.len() ==> (#[trigger] r[k]).index < CATALOG_LEN && units_match(
                r[k].index as int,
                inp,
                out,
            ),
{
    broadcast use vstd::seq_lib::group_to_multiset_ensures;

    assert forall|k: int|
        0 <= k < r.len() implies (#[trigger] r[k]).index < CATALOG_LEN && units_match(
        r[k].index as int,
        inp,
        out,
    ) by {
        assert(r.contains(r[k]));
        assert(r.to_multiset().contains(r[k]));
        assert(s.contains(r[k]));
        let j = choose|j: int| 0 <= j < s.len() && s[j] == r[k];
        assert(s[j].index < CATALOG_LEN && units_match(s[j].index as int, inp, out));
    }
}

} // verus!
