//! Order-constrained control quadruples.
//!
//! A candidate potential is parameterized by four knots drawn uniformly
//! at random.  The draws are sorted; the extreme pair becomes
//! (`phi_1p`, `phi_1n`) and the middle pair becomes (`phi_0`, `phi_2`),
//! in an order chosen by a fair orientation coin.

use vstd::prelude::*;

verus! {

use vstd::multiset::Multiset;

/// The four control knots of one candidate potential.
#[derive(Clone, Copy, PartialEq, Eq, Structural)]
pub struct ControlQuadruple {
    /// One of the middle-ranked knots.
    pub phi_0: u64,
    /// The largest knot.
    pub phi_1n: u64,
    /// The smallest knot.
    pub phi_1p: u64,
    /// The other middle-ranked knot.
    pub phi_2: u64,
}

impl ControlQuadruple {
    /// The knots as an unordered collection.
    pub open spec fn knot_multiset(self) -> Multiset<u64> {
        Multiset::empty().insert(self.phi_1p).insert(self.phi_0).insert(self.phi_2).insert(
            self.phi_1n,
        )
    }

    /// Ordering invariant: `phi_1p` is below both middle knots and
    /// `phi_1n` is above both, whichever way the pair is oriented.
    pub open spec fn well_formed(self) -> bool {
        &&& self.phi_1p <= self.phi_0
        &&& self.phi_1p <= self.phi_2
        &&& self.phi_0 <= self.phi_1n
        &&& self.phi_2 <= self.phi_1n
    }
}

/// Build a quadruple from four independent draws and one orientation coin.
///
/// The draws are sorted ascending; the smallest becomes `phi_1p`, the
/// largest `phi_1n`, and the middle two become `phi_0` and `phi_2` —
/// ascending when `swap_middle` is false, descending when it is true.
pub fn assemble_quadruple(draws: &Vec<u64>, swap_middle: bool) -> (q: ControlQuadruple)
    requires
        draws@.len() == 4,
    ensures
        q.well_formed(),
        q.knot_multiset() == draws@.to_multiset(),
        forall|i: int| 0 <= i < draws@.len() ==> q.phi_1p <= #[trigger] draws@[i] <= q.phi_1n,
        !swap_middle ==> q.phi_0 <= q.phi_2,
        swap_middle ==> q.phi_2 <= q.phi_0,
{
    let mut a = draws[0];
    let mut b = draws[1];
    let mut c = draws[2];
    let mut d = draws[3];
    if a > b {
        let t = a;
        a = b;
        b = t;
    }
    if c > d {
        let t = c;
        c = d;
        d = t;
    }
    if a > c {
        let t = a;
        a = c;
        c = t;
    }
    if b > d {
        let t = b;
        b = d;
        d = t;
    }
    if b > c {
        let t = b;
        b = c;
        c = t;
    }
    let q = if swap_middle {
        ControlQuadruple { phi_1p: a, phi_0: c, phi_2: b, phi_1n: d }
    } else {
        ControlQuadruple { phi_1p: a, phi_0: b, phi_2: c, phi_1n: d }
    };
    proof {
        broadcast use vstd::seq_lib::group_to_multiset_ensures;

        assert(draws@ =~= Seq::empty().push(draws@[0]).push(draws@[1]).push(draws@[2]).push(
            draws@[3],
        ));
        assert(Seq::<u64>::empty().to_multiset() =~= Multiset::<u64>::empty());
        assert(draws@.to_multiset() =~= Multiset::empty().insert(draws@[0]).insert(
            draws@[1],
        ).insert(draws@[2]).insert(draws@[3]));
        assert(q.knot_multiset() =~= Multiset::empty().insert(draws@[0]).insert(draws@[1]).insert(
            draws@[2],
        ).insert(draws@[3]));
    }
    q
}

/// Quadruple ordering law: for every well-formed quadruple,
/// `phi_1p <= min(phi_0, phi_2) <= max(phi_0, phi_2) <= phi_1n`.
pub proof fn lemma_quadruple_ordering(q: ControlQuadruple)
    requires
        q.well_formed(),
    ensures
        q.phi_1p <= vstd::math::min(q.phi_0 as int, q.phi_2 as int),
        vstd::math::min(q.phi_0 as int, q.phi_2 as int) <= vstd::math::max(
            q.phi_0 as int,
            q.phi_2 as int,
        ),
        vstd::math::max(q.phi_0 as int, q.phi_2 as int) <= q.phi_1n,
{
}

} // verus!
