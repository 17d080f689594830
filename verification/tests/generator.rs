//! The control-point sampler's ordering, the per-row retry state
//! machine, and the dataset's fixed shape.

use curvegen::dataset::{Dataset, DatasetError, Row};
use curvegen::filter::{accepts, FilterConfig};
use curvegen::quadruple::assemble_quadruple;
use curvegen::rowgen::{consider_candidate, RowOutcome};
use curvegen::{DEFAULT_GRID_LEN, DEFAULT_ROW_COUNT};

/// Order-preserving embedding of `f64` (IEEE total order) into `u64`.
fn ord_code(x: f64) -> u64 {
    let b = x.to_bits();
    if b & (1u64 << 63) != 0 {
        !b
    } else {
        b | (1u64 << 63)
    }
}

fn generator_config() -> FilterConfig {
    FilterConfig {
        finite_lo: ord_code(f64::MIN),
        finite_hi: ord_code(f64::MAX),
        amp_lo: ord_code(0.01),
        amp_hi: ord_code(10f64.powf(-0.5)),
        max_maxima: 1,
        max_minima: 2,
    }
}

#[test]
fn quadruple_keeps_ordering_without_swap() {
    let draws: Vec<u64> = vec![ord_code(0.3), ord_code(0.1), ord_code(0.7), ord_code(0.5)];
    let q = assemble_quadruple(&draws, false);
    assert_eq!(q.phi_1p, ord_code(0.1));
    assert_eq!(q.phi_0, ord_code(0.3));
    assert_eq!(q.phi_2, ord_code(0.5));
    assert_eq!(q.phi_1n, ord_code(0.7));
}

#[test]
fn quadruple_keeps_ordering_with_swap() {
    let draws: Vec<u64> = vec![ord_code(0.3), ord_code(0.1), ord_code(0.7), ord_code(0.5)];
    let q = assemble_quadruple(&draws, true);
    assert_eq!(q.phi_1p, ord_code(0.1));
    assert_eq!(q.phi_0, ord_code(0.5));
    assert_eq!(q.phi_2, ord_code(0.3));
    assert_eq!(q.phi_1n, ord_code(0.7));
}

#[test]
fn quadruple_ordering_holds_for_equal_draws() {
    let draws: Vec<u64> = vec![5, 5, 2, 5];
    for swap in [false, true] {
        let q = assemble_quadruple(&draws, swap);
        assert!(q.phi_1p <= q.phi_0.min(q.phi_2));
        assert!(q.phi_0.max(q.phi_2) <= q.phi_1n);
        assert_eq!(q.phi_1p, 2);
        assert_eq!(q.phi_1n, 5);
    }
}

#[test]
fn quadruple_ordering_holds_under_random_draws() {
    let mut state: u64 = 0x9e3779b97f4a7c15;
    for round in 0..200 {
        let mut draws: Vec<u64> = Vec::new();
        for _ in 0..4 {
            state = lcg_step(state);
            draws.push(state);
        }
        let q = assemble_quadruple(&draws, round % 2 == 0);
        assert!(q.phi_1p <= q.phi_0.min(q.phi_2));
        assert!(q.phi_0.max(q.phi_2) <= q.phi_1n);
    }
}

/// A deterministic 64-bit linear congruential step.
fn lcg_step(state: u64) -> u64 {
    state
        .wrapping_mul(6364136223846793005)
        .wrapping_add(1442695040888963407)
}

/// Uniform value in [0, 1) from one generator step.
fn lcg_unit(state: &mut u64) -> f64 {
    *state = lcg_step(*state);
    (*state >> 11) as f64 / (1u64 << 53) as f64
}

/// A deterministic single-bump candidate: amplitude drawn from the
/// seeded generator, shape fixed, so only the amplitude gate decides.
fn draw_candidate(state: &mut u64) -> Vec<u64> {
    let amp = lcg_unit(state);
    (0..DEFAULT_GRID_LEN)
        .map(|i| {
            let x = i as f64 / (DEFAULT_GRID_LEN - 1) as f64;
            ord_code(amp * x * (1.0 - x) * 4.0)
        })
        .collect()
}

#[test]
fn seeded_row_generation_reaches_acceptance() {
    let cfg = generator_config();
    let mut state: u64 = 42;
    let mut attempts_left: usize = 1000;
    let mut accepted: Option<Vec<u64>> = None;
    loop {
        let candidate = draw_candidate(&mut state);
        match consider_candidate(&cfg, attempts_left, candidate) {
            RowOutcome::Accepted(curve) => {
                accepted = Some(curve);
                break;
            }
            RowOutcome::Retry(left) => {
                attempts_left = left;
            }
            RowOutcome::Exhausted => {
                break;
            }
        }
    }
    let curve = accepted.expect("the seeded run must accept a curve");
    assert_eq!(curve.len(), DEFAULT_GRID_LEN);
    assert!(accepts(&cfg, &curve));
}

#[test]
fn exhausted_budget_is_reported() {
    let cfg = generator_config();
    // flat zero curve: amplitude below the band, always rejected
    let reject: Vec<u64> = vec![ord_code(0.0); DEFAULT_GRID_LEN];
    match consider_candidate(&cfg, 2, reject.clone()) {
        RowOutcome::Retry(left) => assert_eq!(left, 1),
        _ => panic!("two attempts left must leave a retry"),
    }
    match consider_candidate(&cfg, 1, reject) {
        RowOutcome::Exhausted => {}
        _ => panic!("the last attempt must exhaust the budget"),
    }
}

fn sample_row(fill: u64, len: usize) -> Row {
    Row { curve: vec![fill; len], deriv: None }
}

#[test]
fn dataset_keeps_rows_and_shape() {
    let rows = vec![sample_row(3, 4), sample_row(8, 4)];
    let ds = Dataset::assemble(4, 2, rows).expect("well-shaped rows must assemble");
    assert_eq!(ds.row_count(), 2);
    assert_eq!(ds.grid(), 4);
    assert_eq!(ds.rows()[0].curve, vec![3; 4]);
    assert_eq!(ds.rows()[1].curve, vec![8; 4]);
}

#[test]
fn dataset_accepts_paired_derivative_rows() {
    let row = Row { curve: vec![1; 4], deriv: Some(vec![2; 4]) };
    let ds = Dataset::assemble(4, 1, vec![row]).expect("paired rows must assemble");
    assert_eq!(ds.rows()[0].deriv.as_ref().unwrap().len(), 4);
}

#[test]
fn dataset_rejects_wrong_row_count() {
    let rows = vec![sample_row(1, 4)];
    match Dataset::assemble(4, 2, rows) {
        Err(DatasetError::WrongRowCount) => {}
        _ => panic!("one row of two expected must be refused"),
    }
}

#[test]
fn dataset_names_first_malformed_row() {
    let rows = vec![sample_row(1, 4), sample_row(2, 3), sample_row(3, 5)];
    match Dataset::assemble(4, 3, rows) {
        Err(DatasetError::MalformedRow(i)) => assert_eq!(i, 1),
        _ => panic!("a short row must be refused by index"),
    }
}

#[test]
fn dataset_rejects_mismatched_derivative() {
    let row = Row { curve: vec![1; 4], deriv: Some(vec![2; 3]) };
    match Dataset::assemble(4, 1, vec![row]) {
        Err(DatasetError::MalformedRow(i)) => assert_eq!(i, 0),
        _ => panic!("a short derivative curve must be refused"),
    }
}

#[test]
fn default_shape_matches_generator() {
    assert_eq!(DEFAULT_ROW_COUNT, 10000);
    assert_eq!(DEFAULT_GRID_LEN, 100);
}
