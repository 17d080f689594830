//! Counting strict local extrema of a sampled curve.
//!
//! A sample is a local maximum (minimum) when it is strictly above
//! (below) its neighbours, with the two boundary samples compared against
//! their single neighbour only.  Interior samples that tie with either
//! neighbour count as neither kind.

use vstd::prelude::*;

verus! {

/// The sample at position `i` is a strict local maximum of `ys`.
///
/// The first and last positions compare against their single neighbour;
/// interior positions must rise strictly above both neighbours.
pub open spec fn is_local_max(ys: Seq<u64>, i: int) -> bool
    recommends
        ys.len() >= 2,
        0 <= i < ys.len(),
{
    if i == 0 {
        ys[0] > ys[1]
    } else if i == ys.len() - 1 {
        ys[i] > ys[i - 1]
    } else {
        ys[i] > ys[i - 1] && ys[i] > ys[i + 1]
    }
}

/// The sample at position `i` is a strict local minimum of `ys`.
pub open spec fn is_local_min(ys: Seq<u64>, i: int) -> bool
    recommends
        ys.len() >= 2,
        0 <= i < ys.len(),
{
    if i == 0 {
        ys[0] < ys[1]
    } else if i == ys.len() - 1 {
        ys[i] < ys[i - 1]
    } else {
        ys[i] < ys[i - 1] && ys[i] < ys[i + 1]
    }
}

/// Number of local maxima among the first `n` positions of `ys`.
pub open spec fn count_maxima_upto(ys: Seq<u64>, n: int) -> int
    decreases n,
{
    if n <= 0 {
        0
    } else {
        count_maxima_upto(ys, n - 1) + if is_local_max(ys, n - 1) {
            1int
        } else {
            0int
        }
    }
}

/// Number of local minima among the first `n` positions of `ys`.
pub open spec fn count_minima_upto(ys: Seq<u64>, n: int) -> int
    decreases n,
{
    if n <= 0 {
        0
    } else {
        count_minima_upto(ys, n - 1) + if is_local_min(ys, n - 1) {
            1int
        } else {
            0int
        }
    }
}

/// Number of local maxima of the whole curve.
pub open spec fn count_maxima(ys: Seq<u64>) -> int {
    count_maxima_upto(ys, ys.len() as int)
}

/// Number of local minima of the whole curve.
pub open spec fn count_minima(ys: Seq<u64>) -> int {
    count_minima_upto(ys, ys.len() as int)
}

/// A prefix never holds more extrema of one kind than it has positions.
proof fn lemma_counts_bounded(ys: Seq<u64>, n: int)
    requires
        0 <= n,
    ensures
        count_maxima_upto(ys, n) <= n,
        count_minima_upto(ys, n) <= n,
        0 <= count_maxima_upto(ys, n),
        0 <= count_minima_upto(ys, n),
    decreases n,
{
    if n > 0 {
        lemma_counts_bounded(ys, n - 1);
    }
}

/// Scan the curve once and return `(maxima, minima)`, the numbers of
/// strict local maxima and minima under the boundary-aware rule.
pub fn count_local_extrema(ys: &Vec<u64>) -> (r: (usize, usize))
    requires
        ys@.len() >= 2,
    ensures
        r.0 == count_maxima(ys@),
        r.1 == count_minima(ys@),
{
    let len = ys.len();
    let mut maxima: usize = 0;
    let mut minima: usize = 0;
    let mut i: usize = 0;
    while i < len
        invariant
            2 <= len == ys@.len(),
            0 <= i <= len,
            maxima == count_maxima_upto(ys@, i as int),
            minima == count_minima_upto(ys@, i as int),
        decreases len - i,
    {
        proof {
            lemma_counts_bounded(ys@, i as int);
        }
        if i == 0 {
            if ys[0] > ys[1] {
                maxima = maxima + 1;
            } else if ys[0] < ys[1] {
                minima = minima + 1;
            }
        } else if i == len - 1 {
            if ys[i] > ys[i - 1] {
                maxima = maxima + 1;
            } else if ys[i] < ys[i - 1] {
                minima = minima + 1;
            }
        } else {
            if ys[i] > ys[i - 1] && ys[i] > ys[i + 1] {
                maxima = maxima + 1;
            } else if ys[i] < ys[i - 1] && ys[i] < ys[i + 1] {
                minima = minima + 1;
            }
        }
        i = i + 1;
    }
    (maxima, minima)
}

} // verus!
