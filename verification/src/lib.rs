//! Constrained sampling of scalar potential curves.
//!
//! The library is the decision core of a rejection-sampling dataset
//! generator: it draws order-constrained control quadruples from supplied
//! random draws, classifies candidate curves by counting strict local
//! extrema, applies an amplitude/extremum acceptance filter, drives the
//! per-row retry state machine, and assembles the accepted rows into a
//! dataset of fixed shape.
//!
//! Curve samples are handled as *order codes*: unsigned integers that a
//! caller obtains from its own number type through any order-preserving
//! (monotone) embedding.  Every rule of the library — sorting the control
//! draws, locating local extrema, comparing a curve's maximum against the
//! acceptance band — reads only the relative order of samples, so its
//! verdicts agree with the verdicts on the caller's original numbers.
//! Codes that stand for non-numeric values (such as the IEEE payloads
//! above all finite numbers) are kept out of the acceptance band and are
//! rejected explicitly.

pub mod dataset;
pub mod extrema;
pub mod filter;
pub mod quadruple;
pub mod rowgen;

use vstd::prelude::*;

verus! {

/// Number of rows the generator produces by default.
pub const DEFAULT_ROW_COUNT: usize = 10000;

/// Number of evaluation points of the fixed grid.
pub const DEFAULT_GRID_LEN: usize = 100;

} // verus!
