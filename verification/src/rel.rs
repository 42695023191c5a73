//! Totally ordered relative-age keys.
//!
//! When candidates are ordered by relative access time, each layer of a
//! tenant with `n` sorted resident layers gets the key `(total - i) / total`
//! for its position `i`, a value in `[0, 1]`. The key is kept as an exact
//! ratio of two integers; comparison multiplies across, so keys of tenants
//! with different layer counts compare exactly.

use vstd::prelude::*;

verus! {

/// An exact ratio `numerator / denominator` in `[0, 1]`, usable as a sort
/// key across tenants.
#[derive(Clone, Copy, Debug, PartialEq, Eq, Structural)]
pub struct RelativeKey {
    pub numerator: u64,
    pub denominator: u64,
}

impl RelativeKey {
    /// A well-formed key is a ratio in `[0, 1]` with a positive denominator.
    pub open spec fn wf(&self) -> bool {
        self.denominator >= 1 && self.numerator <= self.denominator
    }

    /// Order by the value of the ratio, via cross multiplication.
    pub open spec fn spec_le(&self, other: &RelativeKey) -> bool {
        self.numerator * other.denominator <= other.numerator * self.denominator
    }

    /// The key 0, the smallest well-formed key.
    pub fn zero() -> (r: RelativeKey)
        ensures
            r.wf(),
            r.numerator == 0,
            r.denominator == 1,
    {
        RelativeKey { numerator: 0, denominator: 1 }
    }

    /// Accepts exactly the ratios in `[0, 1]`, the normalized range.
    pub fn try_from_ratio(numerator: u64, denominator: u64) -> (r: Option<RelativeKey>)
        ensures
            r is Some <==> denominator >= 1 && numerator <= denominator,
            r matches Some(k) ==> k.wf() && k.numerator == numerator && k.denominator
                == denominator,
    {
        if denominator >= 1 && numerator <= denominator {
            Some(RelativeKey { numerator, denominator })
        } else {
            None
        }
    }

    pub fn le(&self, other: &RelativeKey) -> (r: bool)
        ensures
            r == self.spec_le(other),
    {
        proof {
            assert((self.numerator as int) * (other.denominator as int) < 0x1_0000_0000_0000_0000
                * 0x1_0000_0000_0000_0000 && (other.numerator as int) * (self.denominator as int)
                < 0x1_0000_0000_0000_0000 * 0x1_0000_0000_0000_0000) by (nonlinear_arith)
                requires
                    self.numerator < 0x1_0000_0000_0000_0000,
                    other.denominator < 0x1_0000_0000_0000_0000,
                    other.numerator < 0x1_0000_0000_0000_0000,
                    self.denominator < 0x1_0000_0000_0000_0000,
            ;
        }
        (self.numerator as u128) * (other.denominator as u128) <= (other.numerator as u128)
            * (self.denominator as u128)
    }
}

/// The key order is total: any two keys compare one way or the other.
pub proof fn lemma_key_le_total(a: RelativeKey, b: RelativeKey)
    ensures
        a.spec_le(&b) || b.spec_le(&a),
{
}

/// The key order is transitive.
pub proof fn lemma_key_le_trans(a: RelativeKey, b: RelativeKey, c: RelativeKey)
    requires
        a.wf(),
        b.wf(),
        c.wf(),
        a.spec_le(&b),
        b.spec_le(&c),
    ensures
        a.spec_le(&c),
{
    assert(a.numerator * c.denominator <= c.numerator * a.denominator) by (nonlinear_arith)
        requires
            a.numerator * b.denominator <= b.numerator * a.denominator,
            b.numerator * c.denominator <= c.numerator * b.denominator,
            a.denominator >= 1,
            b.denominator >= 1,
            c.denominator >= 1,
            a.numerator >= 0,
            b.numerator >= 0,
            c.numerator >= 0,
    ;
}

} // verus!
