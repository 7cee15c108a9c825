//! Tests of the catalog: entry signatures, stability, identity lookup.

use rustamath_physics::catalog::{equation_desc, equation_kind, equation_params, EquationKind, CATALOG_LEN};
use rustamath_physics::units::{
    accel_unit, area_unit, distance_unit, scalar_unit, time_unit, velocity_unit, MksUnit,
};
use rustamath_physics::get_equation_by_typeid;

fn units(v: &[MksUnit]) -> Vec<MksUnit> {
    v.to_vec()
}

#[test]
fn catalog_signatures() {
    let expected: Vec<(Vec<MksUnit>, Vec<MksUnit>, Vec<MksUnit>)> = vec![
        (units(&[distance_unit()]), units(&[]), units(&[distance_unit()])),
        (units(&[area_unit()]), units(&[]), units(&[distance_unit()])),
        (units(&[distance_unit()]), units(&[]), units(&[distance_unit()])),
        (units(&[area_unit()]), units(&[]), units(&[distance_unit()])),
        (
            units(&[scalar_unit()]),
            units(&[scalar_unit(), scalar_unit(), scalar_unit(), scalar_unit()]),
            units(&[scalar_unit()]),
        ),
        (units(&[velocity_unit()]), units(&[velocity_unit(), accel_unit()]), units(&[time_unit()])),
        (
            units(&[velocity_unit()]),
            units(&[velocity_unit(), accel_unit()]),
            units(&[distance_unit()]),
        ),
        (units(&[distance_unit()]), units(&[velocity_unit(), accel_unit()]), units(&[time_unit()])),
        (
            units(&[distance_unit()]),
            units(&[velocity_unit(), velocity_unit()]),
            units(&[time_unit()]),
        ),
    ];
    assert_eq!(expected.len(), CATALOG_LEN);
    for (i, (out, cns, inp)) in expected.iter().enumerate() {
        let sig = equation_params(i);
        assert_eq!(&sig.out, out, "output units of entry {}", i);
        assert_eq!(&sig.cns, cns, "constant units of entry {}", i);
        assert_eq!(&sig.inp, inp, "input units of entry {}", i);
    }
}

#[test]
fn catalog_is_stable_across_calls() {
    for i in 0..CATALOG_LEN {
        let first = equation_params(i);
        let second = equation_params(i);
        assert_eq!(first.out, second.out);
        assert_eq!(first.cns, second.cns);
        assert_eq!(first.inp, second.inp);
    }
}

#[test]
fn catalog_descriptions() {
    assert_eq!(equation_desc(0), "Circumference of circle `C = 2*Pi*r`");
    assert_eq!(equation_desc(4), "Sine wave `v = A*sin(Speed*t + Phase) + Offset`");
    assert_eq!(equation_desc(8), "Linear motion const accel distance `s = t*(v0 + v)/2`");
}

#[test]
fn lookup_by_identity() {
    let kinds = [
        EquationKind::CirclePerimeter,
        EquationKind::CircleArea,
        EquationKind::SquarePerimeter,
        EquationKind::SquareArea,
        EquationKind::Sine,
        EquationKind::Velocity,
        EquationKind::VelocityByDist,
        EquationKind::Distance,
        EquationKind::DistanceByVel,
    ];
    for (i, kind) in kinds.iter().enumerate() {
        assert_eq!(get_equation_by_typeid(*kind), Some(i));
        assert_eq!(equation_kind(i), *kind);
    }
}
