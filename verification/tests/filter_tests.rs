//! Tests of the unit-directed candidate filter.

use rustamath_physics::find_equation_by_units;
use rustamath_physics::units::{
    accel_unit, area_unit, distance_unit, scalar_unit, time_unit, velocity_unit,
};

#[test]
fn find_velocity_equation() {
    let ids = find_equation_by_units(&[time_unit()], &[velocity_unit()]);
    assert_eq!(ids.len(), 1);
    assert_eq!(ids[0], 5);
}

#[test]
fn distance_to_distance_candidates() {
    let ids = find_equation_by_units(&[distance_unit()], &[distance_unit()]);
    assert_eq!(ids, vec![0, 2]);
}

#[test]
fn distance_to_area_candidates() {
    let ids = find_equation_by_units(&[distance_unit()], &[area_unit()]);
    assert_eq!(ids, vec![1, 3]);
}

#[test]
fn scalar_to_scalar_candidates() {
    let ids = find_equation_by_units(&[scalar_unit()], &[scalar_unit()]);
    assert_eq!(ids, vec![4]);
}

#[test]
fn time_to_distance_candidates() {
    let ids = find_equation_by_units(&[time_unit()], &[distance_unit()]);
    assert_eq!(ids, vec![7, 8]);
}

#[test]
fn no_candidate_for_unmatched_units() {
    let ids = find_equation_by_units(&[area_unit()], &[time_unit()]);
    assert!(ids.is_empty());
    let ids = find_equation_by_units(&[accel_unit()], &[accel_unit()]);
    assert!(ids.is_empty());
}

#[test]
fn multi_input_query_matches_nothing() {
    let ids = find_equation_by_units(&[time_unit(), time_unit()], &[velocity_unit()]);
    assert!(ids.is_empty());
    let ids = find_equation_by_units(&[time_unit()], &[]);
    assert!(ids.is_empty());
}
