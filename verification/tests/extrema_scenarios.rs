//! Literal scenarios for the extremum counter's boundary-aware rule.

use curvegen::extrema::count_local_extrema;

#[test]
fn ascending_curve_has_boundary_min_and_max() {
    // minimum at index 0, maximum at index 2, no interior extremum
    let ys: Vec<u64> = vec![1, 2, 3];
    assert_eq!(count_local_extrema(&ys), (1, 1));
}

#[test]
fn single_bump_has_two_boundary_minima() {
    // minimum at index 0, interior maximum at index 1, minimum at index 2
    let ys: Vec<u64> = vec![1, 3, 2];
    assert_eq!(count_local_extrema(&ys), (1, 2));
}

#[test]
fn flat_curve_has_no_extrema() {
    let ys: Vec<u64> = vec![1, 1, 1];
    assert_eq!(count_local_extrema(&ys), (0, 0));
}

#[test]
fn valley_curve_has_two_maxima_one_minimum() {
    // boundary maximum at index 0, interior minimum at index 1, and the
    // last element compares only against its left neighbour: 2 > 1 is a
    // boundary maximum
    let ys: Vec<u64> = vec![3, 1, 2];
    assert_eq!(count_local_extrema(&ys), (2, 1));
}

#[test]
fn two_samples_compare_against_each_other() {
    let up: Vec<u64> = vec![4, 9];
    assert_eq!(count_local_extrema(&up), (1, 1));
    let flat: Vec<u64> = vec![7, 7];
    assert_eq!(count_local_extrema(&flat), (0, 0));
}

#[test]
fn interior_shoulder_counts_as_neither() {
    // index 1 rises from 2 but ties with the next sample, and index 2
    // ties with the previous one: neither is an extremum; the
    // boundaries contribute a minimum each (2 < 5 and 3 < 5)
    let ys: Vec<u64> = vec![2, 5, 5, 3];
    assert_eq!(count_local_extrema(&ys), (0, 2));
}

#[test]
fn counter_is_deterministic_on_equal_inputs() {
    let ys: Vec<u64> = vec![10, 40, 20, 30, 5, 60];
    let first = count_local_extrema(&ys);
    let second = count_local_extrema(&ys);
    assert_eq!(first, second);
}
