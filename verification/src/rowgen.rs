//! The per-row retry state machine.
//!
//! One output row is produced by rejection sampling: candidates are
//! offered one at a time, and each is either accepted as the row's
//! curve or discarded.  The attempt budget makes exhaustion an explicit
//! outcome instead of an unbounded spin.

use crate::extrema::{count_maxima, count_minima};
use crate::filter::{accepts, accepts_spec, seq_max, FilterConfig};
use vstd::prelude::*;

verus! {

/// Outcome of offering one candidate curve to a row's state machine.
pub enum RowOutcome {
    /// The candidate passed the filter and becomes the row's curve.
    Accepted(Vec<u64>),
    /// The candidate was rejected; this many attempts remain.
    Retry(usize),
    /// The candidate was rejected and the attempt budget is spent.
    Exhausted,
}

/// Offer one candidate to a row whose budget still holds
/// `attempts_left` attempts (this one included).
///
/// An accepted candidate is returned unchanged as the row's curve; a
/// rejected one costs the attempt, and spending the last attempt ends
/// the row in `Exhausted`.
pub fn consider_candidate(cfg: &FilterConfig, attempts_left: usize, candidate: Vec<u64>) -> (r:
    RowOutcome)
    requires
        candidate@.len() >= 2,
        attempts_left >= 1,
    ensures
        accepts_spec(*cfg, candidate@) ==> (r matches RowOutcome::Accepted(c) && c@
            == candidate@),
        !accepts_spec(*cfg, candidate@) && attempts_left > 1 ==> r == RowOutcome::Retry(
            (attempts_left - 1) as usize,
        ),
        !accepts_spec(*cfg, candidate@) && attempts_left == 1 ==> r == RowOutcome::Exhausted,
        r matches RowOutcome::Accepted(c) ==> {
            &&& c@ == candidate@
            &&& accepts_spec(*cfg, c@)
            &&& cfg.amp_lo <= seq_max(c@) <= cfg.amp_hi
            &&& count_maxima(c@) <= cfg.max_maxima
            &&& count_minima(c@) <= cfg.max_minima
        },
{
    if accepts(cfg, &candidate) {
        RowOutcome::Accepted(candidate)
    } else if attempts_left > 1 {
        RowOutcome::Retry(attempts_left - 1)
    } else {
        RowOutcome::Exhausted
    }
}

} // verus!
