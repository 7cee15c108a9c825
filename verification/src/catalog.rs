//! The equation catalog.
//!
//! An immutable, process-wide list of equation descriptors, indexed from
//! zero.  An entry's index is its external identity; entries are never
//! inserted, removed or reordered.  Each entry advertises a signature: the
//! unit tags of its output, constant and input parameters, as fixed, finite
//! sequences.  The closed forms themselves are evaluated by unverified
//! callers; the catalog pins down everything the driver reads of an entry.

use vstd::prelude::*;
use crate::units::{
    MksUnit, spec_scalar_unit, spec_time_unit, spec_distance_unit, spec_area_unit,
    spec_velocity_unit, spec_accel_unit, scalar_unit, time_unit, distance_unit,
    area_unit, velocity_unit, accel_unit,
};

verus! {

/// Number of entries in the catalog.
pub const CATALOG_LEN: usize = 9;

/// Stable identity of a catalog entry, one variant per entry.
#[derive(Clone, Copy, PartialEq, Eq, Structural, Debug)]
pub enum EquationKind {
    /// Circumference of a circle, `C = 2*pi*r`.
    CirclePerimeter,
    /// Area of a circle, `A = pi*r^2`.
    CircleArea,
    /// Perimeter of a square, `P = 4*side`.
    SquarePerimeter,
    /// Area of a square, `A = side*side`.
    SquareArea,
    /// Sine wave, `v = A*sin(speed*t + phase) + shift`.
    Sine,
    /// Velocity under constant acceleration, `v = v0 + a*t`.
    Velocity,
    /// Velocity by distance under constant acceleration, `v = sqrt(v0^2 + 2*a*s)`.
    VelocityByDist,
    /// Distance under constant acceleration, `s = v0*t + (a*t^2)/2`.
    Distance,
    /// Distance by initial and final velocity, `s = t*(v0 + v)/2`.
    DistanceByVel,
}

/// Identity of the entry at index `i` of the catalog.
pub open spec fn spec_kind(i: int) -> EquationKind {
    if i == 0 {
        EquationKind::CirclePerimeter
    } else if i == 1 {
        EquationKind::CircleArea
    } else if i == 2 {
        EquationKind::SquarePerimeter
    } else if i == 3 {
        EquationKind::SquareArea
    } else if i == 4 {
        EquationKind::Sine
    } else if i == 5 {
        EquationKind::Velocity
    } else if i == 6 {
        EquationKind::VelocityByDist
    } else if i == 7 {
        EquationKind::Distance
    } else {
        EquationKind::DistanceByVel
    }
}

/// Unit tags of the outputs of the entry at index `i`.
pub open spec fn spec_out_units(i: int) -> Seq<MksUnit> {
    if i == 0 {
        seq![spec_distance_unit()]
    } else if i == 1 {
        seq![spec_area_unit()]
    } else if i == 2 {
        seq![spec_distance_unit()]
    } else if i == 3 {
        seq![spec_area_unit()]
    } else if i == 4 {
        seq![spec_scalar_unit()]
    } else if i == 5 {
        seq![spec_velocity_unit()]
    } else if i == 6 {
        seq![spec_velocity_unit()]
    } else if i == 7 {
        seq![spec_distance_unit()]
    } else {
        seq![spec_distance_unit()]
    }
}

/// Unit tags of the constant parameters of the entry at index `i`.
pub open spec fn spec_cns_units(i: int) -> Seq<MksUnit> {
    if i == 4 {
        seq![spec_scalar_unit(), spec_scalar_unit(), spec_scalar_unit(), spec_scalar_unit()]
    } else if i == 5 || i == 6 || i == 7 {
        seq![spec_velocity_unit(), spec_accel_unit()]
    } else if i == 8 {
        seq![spec_velocity_unit(), spec_velocity_unit()]
    } else {
        Seq::empty()
    }
}

/// Unit tags of the inputs of the entry at index `i`.
pub open spec fn spec_inp_units(i: int) -> Seq<MksUnit> {
    if i == 4 {
        seq![spec_scalar_unit()]
    } else if i == 5 || i == 7 || i == 8 {
        seq![spec_time_unit()]
    } else {
        seq![spec_distance_unit()]
    }
}

/// The unit signature of one catalog entry: output, constant and input
/// unit tags, in that order.
pub struct EquationSignature {
    /// Unit tags of the outputs.
    pub out: Vec<MksUnit>,
    /// Unit tags of the constant parameters.
    pub cns: Vec<MksUnit>,
    /// Unit tags of the inputs.
    pub inp: Vec<MksUnit>,
}

impl EquationSignature {
    /// The signature agrees with the catalog entry at index `i`.
    pub open spec fn matches_catalog(self, i: int) -> bool {
        &&& self.out@ == spec_out_units(i)
        &&& self.cns@ == spec_cns_units(i)
        &&& self.inp@ == spec_inp_units(i)
    }
}

/// Identity of the catalog entry at index `i`.
pub fn equation_kind(i: usize) -> (k: EquationKind)
    requires
        i < CATALOG_LEN,
    ensures
        k == spec_kind(i as int),
{
    if i == 0 {
        EquationKind::CirclePerimeter
    } else if i == 1 {
        EquationKind::CircleArea
    } else if i == 2 {
        EquationKind::SquarePerimeter
    } else if i == 3 {
        EquationKind::SquareArea
    } else if i == 4 {
        EquationKind::Sine
    } else if i == 5 {
        EquationKind::Velocity
    } else if i == 6 {
        EquationKind::VelocityByDist
    } else if i == 7 {
        EquationKind::Distance
    } else {
        EquationKind::DistanceByVel
    }
}

/// The unit signature of the catalog entry at index `i`.
///
/// The result is a function of `i` alone, so any two calls on the same
/// index return identical sequences.
pub fn equation_params(i: usize) -> (sig: EquationSignature)
    requires
        i < CATALOG_LEN,
    ensures
        sig.matches_catalog(i as int),
{
    let out: Vec<MksUnit> = if i == 1 || i == 3 {
        vec![area_unit()]
    } else if i == 4 {
        vec![scalar_unit()]
    } else if i == 5 || i == 6 {
        vec![velocity_unit()]
    } else {
        vec![distance_unit()]
    };
    let cns: Vec<MksUnit> = if i == 4 {
        vec![scalar_unit(), scalar_unit(), scalar_unit(), scalar_unit()]
    } else if i == 5 || i == 6 || i == 7 {
        vec![velocity_unit(), accel_unit()]
    } else if i == 8 {
        vec![velocity_unit(), velocity_unit()]
    } else {
        Vec::new()
    };
    let inp: Vec<MksUnit> = if i == 4 {
        vec![scalar_unit()]
    } else if i == 5 || i == 7 || i == 8 {
        vec![time_unit()]
    } else {
        vec![distance_unit()]
    };
    proof {
        assert(out@ =~= spec_out_units(i as int));
        assert(cns@ =~= spec_cns_units(i as int));
        assert(inp@ =~= spec_inp_units(i as int));
    }
    EquationSignature { out, cns, inp }
}

/// Text describing the catalog entry at index `i`.
pub open spec fn spec_desc(i: int) -> Seq<char> {
    if i == 0 {
        "Circumference of circle `C = 2*Pi*r`"@
    } else if i == 1 {
        "Area of circle `A = Pi*r^2`"@
    } else if i == 2 {
        "Perimeter of square `P = 4*side`"@
    } else if i == 3 {
        "Area of square `A = side*side`"@
    } else if i == 4 {
        "Sine wave `v = A*sin(Speed*t + Phase) + Offset`"@
    } else if i == 5 {
        "Linear motion const accel velocity `v = v0 + a*t`"@
    } else if i == 6 {
        "Linear motion const accel velocity `v = sqrt(v0^2 + 2*a*s)`"@
    } else if i == 7 {
        "Linear motion const accel distance `s = v0*t + (a*t^2)/2`"@
    } else {
        "Linear motion const accel distance `s = t*(v0 + v)/2`"@
    }
}

/// Human-readable description of the catalog entry at index `i`.
pub fn equation_desc(i: usize) -> (d: &'static str)
    requires
        i < CATALOG_LEN,
    ensures
        d@ == spec_desc(i as int),
{
    if i == 0 {
        "Circumference of circle `C = 2*Pi*r`"
    } else if i == 1 {
        "Area of circle `A = Pi*r^2`"
    } else if i == 2 {
        "Perimeter of square `P = 4*side`"
    } else if i == 3 {
        "Area of square `A = side*side`"
    } else if i == 4 {
        "Sine wave `v = A*sin(Speed*t + Phase) + Offset`"
    } else if i == 5 {
        "Linear motion const accel velocity `v = v0 + a*t`"
    } else if i == 6 {
        "Linear motion const accel velocity `v = sqrt(v0^2 + 2*a*s)`"
    } else if i == 7 {
        "Linear motion const accel distance `s = v0*t + (a*t^2)/2`"
    } else {
        "Linear motion const accel distance `s = t*(v0 + v)/2`"
    }
}

/// Law: the catalog is stable.  The signature of an entry is a function of
/// its index alone, so any two signatures read for the same index hold
/// identical sequences; the catalog length is a compile-time constant.
pub proof fn lemma_catalog_stable(a: EquationSignature, b: EquationSignature, i: int)
    requires
        0 <= i < CATALOG_LEN,
        a.matches_catalog(i),
        b.matches_catalog(i),
    ensures
        a.out@ == b.out@,
        a.cns@ == b.cns@,
        a.inp@ == b.inp@,
{
}

/// Law: each identity names exactly one catalog entry.
pub proof fn lemma_kind_injective(i: int, j: int)
    requires
        0 <= i < CATALOG_LEN,
        0 <= j < CATALOG_LEN,
        spec_kind(i) == spec_kind(j),
    ensures
        i == j,
{
}

} // verus!
