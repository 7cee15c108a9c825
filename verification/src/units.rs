//! Physical-dimension tags in the MKS system.
//!
//! A unit tag is an exponent vector over the base dimensions metre,
//! kilogram, second and ampere; two quantities are commensurable exactly
//! when their tags are equal.  The catalog compares tags by equality only.

use vstd::prelude::*;

verus! {

/// An MKS unit tag: integer exponents of metre, kilogram, second, ampere.
#[derive(Clone, Copy, PartialEq, Eq, Structural, Debug)]
pub struct MksUnit {
    /// Exponent of metres.
    pub metre: i8,
    /// Exponent of kilograms.
    pub kilogram: i8,
    /// Exponent of seconds.
    pub second: i8,
    /// Exponent of amperes.
    pub ampere: i8,
}

/// The dimensionless unit.
pub open spec fn spec_scalar_unit() -> MksUnit {
    MksUnit { metre: 0, kilogram: 0, second: 0, ampere: 0 }
}

/// Seconds.
pub open spec fn spec_time_unit() -> MksUnit {
    MksUnit { metre: 0, kilogram: 0, second: 1, ampere: 0 }
}

/// Metres.
pub open spec fn spec_distance_unit() -> MksUnit {
    MksUnit { metre: 1, kilogram: 0, second: 0, ampere: 0 }
}

/// Square metres.
pub open spec fn spec_area_unit() -> MksUnit {
    MksUnit { metre: 2, kilogram: 0, second: 0, ampere: 0 }
}

/// Metres per second.
pub open spec fn spec_velocity_unit() -> MksUnit {
    MksUnit { metre: 1, kilogram: 0, second: -1i8, ampere: 0 }
}

/// Metres per second squared.
pub open spec fn spec_accel_unit() -> MksUnit {
    MksUnit { metre: 1, kilogram: 0, second: -2i8, ampere: 0 }
}

/// The dimensionless unit.
pub fn scalar_unit() -> (u: MksUnit)
    ensures
        u == spec_scalar_unit(),
{
    MksUnit { metre: 0, kilogram: 0, second: 0, ampere: 0 }
}

/// Seconds.
pub fn time_unit() -> (u: MksUnit)
    ensures
        u == spec_time_unit(),
{
    MksUnit { metre: 0, kilogram: 0, second: 1, ampere: 0 }
}

/// Metres.
pub fn distance_unit() -> (u: MksUnit)
    ensures
        u == spec_distance_unit(),
{
    MksUnit { metre: 1, kilogram: 0, second: 0, ampere: 0 }
}

/// Square metres.
pub fn area_unit() -> (u: MksUnit)
    ensures
        u == spec_area_unit(),
{
    MksUnit { metre: 2, kilogram: 0, second: 0, ampere: 0 }
}

/// Metres per second.
pub fn velocity_unit() -> (u: MksUnit)
    ensures
        u == spec_velocity_unit(),
{
    MksUnit { metre: 1, kilogram: 0, second: -1, ampere: 0 }
}

/// Metres per second squared.
pub fn accel_unit() -> (u: MksUnit)
    ensures
        u == spec_accel_unit(),
{
    MksUnit { metre: 1, kilogram: 0, second: -2, ampere: 0 }
}

/// Equality of two unit sequences, compared element by element.
pub fn units_eq(a: &[MksUnit], b: &[MksUnit]) -> (r: bool)
    ensures
        r <==> a@ == b@,
{
    if a.len() != b.len() {
        return false;
    }
    let n: usize = a.len();
    let mut i: usize = 0;
    while i < n
        invariant
            n == a@.len(),
            a@.len() == b@.len(),
            i <= n,
            forall|k: int| 0 <= k < i ==> a@[k] == b@[k],
        decreases n - i,
    {
        if a[i] != b[i] {
            return false;
        }
        i = i + 1;
    }
    proof {
        assert(a@ =~= b@);
    }
    true
}

} // verus!
