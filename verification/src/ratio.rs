//! Exact quotients.
//!
//! A rate or an average is kept as the two whole numbers it is the quotient
//! of, so nothing is rounded away: a quotient is zero exactly when its
//! numerator is, and one exactly when numerator and denominator agree.

use vstd::prelude::*;

verus! {

/// The quotient `numerator / denominator`, kept exact.
#[derive(Clone, Copy, Debug, PartialEq, Eq, Structural)]
pub struct Ratio {
    pub numerator: u128,
    pub denominator: usize,
}

impl Ratio {
    /// Whether this is the quotient of `sum` over `entries`. Over no entries
    /// it is the quotient of `sum` over one, so that a sum of nothing over
    /// nothing is zero and no quotient has the denominator zero.
    pub open spec fn is_quotient(self, sum: nat, entries: nat) -> bool {
        &&& self.numerator == sum
        &&& self.denominator == (if entries == 0 {
            1
        } else {
            entries
        })
    }

    /// The quotient of `sum` over `entries`.
    pub fn over(sum: u128, entries: usize) -> (ratio: Ratio)
        ensures
            ratio.is_quotient(sum as nat, entries as nat),
    {
        if entries == 0 {
            Ratio { numerator: sum, denominator: 1 }
        } else {
            Ratio { numerator: sum, denominator: entries }
        }
    }
}

/// A quotient never has the denominator zero, and a sum of nothing over no
/// entries is the quotient zero over one.
pub proof fn lemma_quotient_denominator(ratio: Ratio, sum: nat, entries: nat)
    requires
        ratio.is_quotient(sum, entries),
    ensures
        ratio.denominator > 0,
        entries == 0 && sum == 0 ==> ratio == (Ratio { numerator: 0, denominator: 1 }),
{
}

} // verus!
