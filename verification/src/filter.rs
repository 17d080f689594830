//! The acceptance filter for candidate curves.
//!
//! A candidate is accepted when every sample lies in the band of codes
//! that stand for ordinary (finite) numbers, its maximum lies in the
//! amplitude band, and its numbers of strict local maxima and minima do
//! not exceed the configured caps.

use crate::extrema::{count_local_extrema, count_maxima, count_minima};
use vstd::prelude::*;

verus! {

/// Bounds the acceptance filter applies to a candidate curve.
#[derive(Clone, Copy, PartialEq, Eq, Structural)]
pub struct FilterConfig {
    /// Smallest code that stands for an ordinary number; anything below
    /// is rejected outright.
    pub finite_lo: u64,
    /// Largest code that stands for an ordinary number; anything above
    /// is rejected outright.
    pub finite_hi: u64,
    /// Smallest acceptable maximum of a curve.
    pub amp_lo: u64,
    /// Largest acceptable maximum of a curve.
    pub amp_hi: u64,
    /// Largest acceptable number of strict local maxima.
    pub max_maxima: usize,
    /// Largest acceptable number of strict local minima.
    pub max_minima: usize,
}

/// The largest sample of a non-empty curve.
pub open spec fn seq_max(ys: Seq<u64>) -> u64
    recommends
        ys.len() >= 1,
    decreases ys.len(),
{
    if ys.len() <= 1 {
        ys[0]
    } else if ys[0] >= seq_max(ys.drop_first()) {
        ys[0]
    } else {
        seq_max(ys.drop_first())
    }
}

/// Every sample of `ys` lies in the band of ordinary numbers.
pub open spec fn all_samples_finite(cfg: FilterConfig, ys: Seq<u64>) -> bool {
    forall|i: int| 0 <= i < ys.len() ==> cfg.finite_lo <= #[trigger] ys[i] <= cfg.finite_hi
}

/// The acceptance rule.
pub open spec fn accepts_spec(cfg: FilterConfig, ys: Seq<u64>) -> bool {
    &&& all_samples_finite(cfg, ys)
    &&& cfg.amp_lo <= seq_max(ys) <= cfg.amp_hi
    &&& count_maxima(ys) <= cfg.max_maxima
    &&& count_minima(ys) <= cfg.max_minima
}

/// The value the amplitude gate inspects is the curve's true maximum:
/// it is one of the samples and bounds all of them.
pub proof fn lemma_seq_max_properties(ys: Seq<u64>)
    requires
        ys.len() >= 1,
    ensures
        exists|i: int| 0 <= i < ys.len() && ys[i] == seq_max(ys),
        forall|i: int| 0 <= i < ys.len() ==> #[trigger] ys[i] <= seq_max(ys),
    decreases ys.len(),
{
    if ys.len() == 1 {
        assert(ys[0] == seq_max(ys));
    } else {
        lemma_seq_max_properties(ys.drop_first());
        assert forall|i: int| 0 <= i < ys.len() implies #[trigger] ys[i] <= seq_max(ys) by {
            if i > 0 {
                assert(ys[i] == ys.drop_first()[i - 1]);
            }
        }
        if ys[0] >= seq_max(ys.drop_first()) {
            assert(ys[0] == seq_max(ys));
        } else {
            let j = choose|j: int|
                0 <= j < ys.drop_first().len() && ys.drop_first()[j] == seq_max(ys.drop_first());
            assert(ys[j + 1] == seq_max(ys));
        }
    }
}

/// Return the largest sample of the curve.
pub fn curve_max(ys: &Vec<u64>) -> (r: u64)
    requires
        ys@.len() >= 1,
    ensures
        r == seq_max(ys@),
{
    let mut r = ys[0];
    let mut i: usize = 1;
    while i < ys.len()
        invariant
            1 <= i <= ys@.len(),
            r == seq_max(ys@.subrange(0, i as int)),
        decreases ys@.len() - i,
    {
        proof {
            lemma_seq_max_extend(ys@, i as int);
        }
        if ys[i] > r {
            r = ys[i];
        }
        i = i + 1;
    }
    proof {
        assert(ys@.subrange(0, ys@.len() as int) =~= ys@);
    }
    r
}

/// Extending a prefix by one sample takes the larger of the old maximum
/// and the new sample.
proof fn lemma_seq_max_extend(ys: Seq<u64>, i: int)
    requires
        1 <= i < ys.len(),
    ensures
        seq_max(ys.subrange(0, i + 1)) == if ys[i] > seq_max(ys.subrange(0, i)) {
            ys[i]
        } else {
            seq_max(ys.subrange(0, i))
        },
    decreases i,
{
    let pre = ys.subrange(0, i);
    let ext = ys.subrange(0, i + 1);
    if i == 1 {
        assert(ext.drop_first() =~= seq![ys[1]]);
        assert(pre =~= seq![ys[0]]);
        assert(seq_max(ext.drop_first()) == ys[1]);
        assert(seq_max(pre) == ys[0]);
        assert(seq_max(ext) == if ext[0] >= seq_max(ext.drop_first()) {
            ext[0]
        } else {
            seq_max(ext.drop_first())
        });
        assert(ext[0] == ys[0]);
    } else {
        let dys = ys.drop_first();
        lemma_seq_max_extend(dys, i - 1);
        assert(ext.drop_first() =~= dys.subrange(0, i));
        assert(pre.drop_first() =~= dys.subrange(0, i - 1));
        assert(seq_max(ext) == if ext[0] >= seq_max(ext.drop_first()) {
            ext[0]
        } else {
            seq_max(ext.drop_first())
        });
        assert(seq_max(pre) == if pre[0] >= seq_max(pre.drop_first()) {
            pre[0]
        } else {
            seq_max(pre.drop_first())
        });
        assert(ext[0] == ys[0] && pre[0] == ys[0]);
        assert(dys[i - 1] == ys[i]);
    }
}

/// Decide whether a candidate curve is accepted.
///
/// The amplitude gate runs first and short-circuits: the extrema are
/// only counted when every sample is an ordinary number and the curve's
/// maximum lies in the amplitude band.
pub fn accepts(cfg: &FilterConfig, ys: &Vec<u64>) -> (r: bool)
    requires
        ys@.len() >= 2,
    ensures
        r == accepts_spec(*cfg, ys@),
{
    let mut i: usize = 0;
    while i < ys.len()
        invariant
            0 <= i <= ys@.len(),
            forall|j: int| 0 <= j < i ==> cfg.finite_lo <= #[trigger] ys@[j] <= cfg.finite_hi,
        decreases ys@.len() - i,
    {
        if ys[i] < cfg.finite_lo || ys[i] > cfg.finite_hi {
            return false;
        }
        i = i + 1;
    }
    let v_max = curve_max(ys);
    if v_max < cfg.amp_lo || v_max > cfg.amp_hi {
        return false;
    }
    let (maxima, minima) = count_local_extrema(ys);
    maxima <= cfg.max_maxima && minima <= cfg.max_minima
}

/// Acceptance law: every accepted curve has its maximum inside the
/// amplitude band and its extremum counts inside the caps.
pub proof fn lemma_acceptance_invariant(cfg: FilterConfig, ys: Seq<u64>)
    requires
        accepts_spec(cfg, ys),
    ensures
        cfg.amp_lo <= seq_max(ys) <= cfg.amp_hi,
        count_maxima(ys) <= cfg.max_maxima,
        count_minima(ys) <= cfg.max_minima,
{
}

/// Determinism law: the extremum counter and the acceptance filter are
/// pure — equal inputs give equal outputs.
pub proof fn lemma_pure_components_deterministic(
    cfg: FilterConfig,
    xs: Seq<u64>,
    ys: Seq<u64>,
)
    requires
        xs == ys,
    ensures
        count_maxima(xs) == count_maxima(ys),
        count_minima(xs) == count_minima(ys),
        accepts_spec(cfg, xs) == accepts_spec(cfg, ys),
{
}

} // verus!
