//! A 256-bit unsigned number, the width in which the ledger counts fees,
//! balances and nonces.

use vstd::prelude::*;

verus! {

/// A 256-bit unsigned number as four 64-bit limbs, least significant first.
#[derive(Clone, Copy, Debug, PartialEq, Eq)]
pub struct Uint256 {
    pub w0: u64,
    pub w1: u64,
    pub w2: u64,
    pub w3: u64,
}

impl View for Uint256 {
    type V = nat;

    /// The number that the four limbs stand for.
    open spec fn view(&self) -> nat {
        (self.w0 + self.w1 * 0x1_0000_0000_0000_0000int + self.w2
            * 0x1_0000_0000_0000_0000_0000_0000_0000_0000int + self.w3
            * 0x1_0000_0000_0000_0000_0000_0000_0000_0000_0000_0000_0000_0000int) as nat
    }
}

impl Uint256 {
    /// The number `value`.
    pub fn from_u64(value: u64) -> (n: Uint256)
        ensures
            n@ == value,
    {
        Uint256 { w0: value, w1: 0, w2: 0, w3: 0 }
    }

    /// The number with the given limbs, least significant first.
    pub fn from_limbs(limbs: [u64; 4]) -> (n: Uint256)
        ensures
            n == (Uint256 { w0: limbs@[0], w1: limbs@[1], w2: limbs@[2], w3: limbs@[3] }),
    {
        Uint256 { w0: limbs[0], w1: limbs[1], w2: limbs[2], w3: limbs[3] }
    }

    /// The four limbs, least significant first.
    pub fn limbs(&self) -> (limbs: [u64; 4])
        ensures
            limbs@ == seq![self.w0, self.w1, self.w2, self.w3],
    {
        let limbs: [u64; 4] = [self.w0, self.w1, self.w2, self.w3];
        assert(limbs@ =~= seq![self.w0, self.w1, self.w2, self.w3]);
        limbs
    }

    /// Whether `self` is strictly below `other`.
    pub fn lt(&self, other: &Uint256) -> (below: bool)
        ensures
            below == (self@ < other@),
    {
        proof {
            bounded_below_the_next_limb(*self);
            bounded_below_the_next_limb(*other);
        }
        if self.w3 != other.w3 {
            self.w3 < other.w3
        } else if self.w2 != other.w2 {
            self.w2 < other.w2
        } else if self.w1 != other.w1 {
            self.w1 < other.w1
        } else {
            self.w0 < other.w0
        }
    }

    /// Whether the two numbers are equal.
    pub fn same(&self, other: &Uint256) -> (equal: bool)
        ensures
            equal == (self@ == other@),
            equal == (*self == *other),
    {
        proof {
            if self@ == other@ {
                value_determines_limbs(*self, *other);
            }
        }
        self.w3 == other.w3 && self.w2 == other.w2 && self.w1 == other.w1 && self.w0 == other.w0
    }
}

/// The limbs below each limb stand for less than one unit of that limb.
pub proof fn bounded_below_the_next_limb(a: Uint256)
    ensures
        0 <= a.w0 + a.w1 * 0x1_0000_0000_0000_0000int
            < 0x1_0000_0000_0000_0000_0000_0000_0000_0000int,
        0 <= a.w0 + a.w1 * 0x1_0000_0000_0000_0000int + a.w2
            * 0x1_0000_0000_0000_0000_0000_0000_0000_0000int
            < 0x1_0000_0000_0000_0000_0000_0000_0000_0000_0000_0000_0000_0000int,
{
}

/// Two numbers with the same value have the same limbs.
pub proof fn value_determines_limbs(a: Uint256, b: Uint256)
    requires
        a@ == b@,
    ensures
        a == b,
{
    let low_a = a.w0 + a.w1 * 0x1_0000_0000_0000_0000int;
    let low_b = b.w0 + b.w1 * 0x1_0000_0000_0000_0000int;
    let mid_a = low_a + a.w2 * 0x1_0000_0000_0000_0000_0000_0000_0000_0000int;
    let mid_b = low_b + b.w2 * 0x1_0000_0000_0000_0000_0000_0000_0000_0000int;
    assert(0 <= low_a < 0x1_0000_0000_0000_0000_0000_0000_0000_0000int);
    assert(0 <= low_b < 0x1_0000_0000_0000_0000_0000_0000_0000_0000int);
    assert(0 <= mid_a < 0x1_0000_0000_0000_0000_0000_0000_0000_0000_0000_0000_0000_0000int);
    assert(0 <= mid_b < 0x1_0000_0000_0000_0000_0000_0000_0000_0000_0000_0000_0000_0000int);
    if a.w3 != b.w3 {
        assert(a@ != b@);
    } else if a.w2 != b.w2 {
        assert(mid_a != mid_b);
    } else if a.w1 != b.w1 {
        assert(low_a != low_b);
    }
}

} // verus!
