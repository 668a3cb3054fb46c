use vstd::arithmetic::div_mod::{lemma_mod_self_0, lemma_small_mod};
use vstd::prelude::*;

verus! {

/// A 20-byte account address.
#[derive(Clone, Copy, Debug, PartialEq, Eq)]
pub struct Address {
    pub bytes: [u8; 20],
}

/// The value 2^128.
pub open spec fn two_pow_128() -> nat {
    0x1_0000_0000_0000_0000_0000_0000_0000_0000nat
}

/// An unsigned 256-bit integer, held as its high and low 128-bit halves.
#[derive(Clone, Copy, Debug, PartialEq, Eq)]
pub struct Uint256 {
    pub hi: u128,
    pub lo: u128,
}

impl Uint256 {
    /// The number this word stands for.
    pub open spec fn value(self) -> nat {
        self.hi as nat * two_pow_128() + self.lo as nat
    }

    /// The word holding `n`.
    pub fn from_u64(n: u64) -> (r: Uint256)
        ensures
            r.value() == n as nat,
    {
        Uint256 { hi: 0, lo: n as u128 }
    }

    /// The word holding `n`.
    pub fn from_usize(n: usize) -> (r: Uint256)
        ensures
            r.value() == n as nat,
    {
        Uint256 { hi: 0, lo: n as u128 }
    }

    /// Whether this word is strictly below `n`.
    pub fn is_below(&self, n: usize) -> (r: bool)
        ensures
            r == (self.value() < n as nat),
    {
        if self.hi == 0 {
            (self.lo as usize as u128 == self.lo) && (self.lo as usize) < n
        } else {
            proof {
                assert(self.hi as nat * two_pow_128() >= two_pow_128()) by (nonlinear_arith)
                    requires
                        self.hi >= 1,
                ;
            }
            false
        }
    }

    /// The value as a `usize`, for a word known to be below some `usize`.
    pub fn to_usize(&self, bound: usize) -> (r: usize)
        requires
            self.value() < bound as nat,
        ensures
            r as nat == self.value(),
    {
        if self.hi != 0 {
            proof {
                assert(self.hi as nat * two_pow_128() >= two_pow_128()) by (nonlinear_arith)
                    requires
                        self.hi >= 1,
                ;
            }
        }
        self.lo as usize
    }
    /// `self + 1`, wrapping around at 2^256.
    pub fn wrapping_increment(&self) -> (r: Uint256)
        ensures
            r.value() == (self.value() + 1) % (two_pow_128() * two_pow_128()),
    {
        let ghost p = two_pow_128();
        let ghost hi = self.hi as nat;
        let ghost lo = self.lo as nat;
        if self.lo < u128::MAX {
            assert(hi * p + lo + 1 < p * p) by (nonlinear_arith)
                requires
                    hi < p,
                    lo + 1 < p,
            ;
            proof {
                lemma_small_mod((hi * p + lo + 1) as nat, p * p);
            }
            Uint256 { hi: self.hi, lo: self.lo + 1 }
        } else if self.hi < u128::MAX {
            assert((hi + 1) * p == hi * p + p) by (nonlinear_arith);
            assert((hi + 1) * p < p * p) by (nonlinear_arith)
                requires
                    hi + 1 < p,
            ;
            proof {
                lemma_small_mod(((hi + 1) * p) as nat, p * p);
            }
            Uint256 { hi: self.hi + 1, lo: 0 }
        } else {
            assert(hi * p + lo + 1 == p * p) by (nonlinear_arith)
                requires
                    hi + 1 == p,
                    lo + 1 == p,
            ;
            proof {
                lemma_mod_self_0((p * p) as int);
            }
            Uint256 { hi: 0, lo: 0 }
        }
    }

    /// The value as a `u64`, or `u64::MAX` when it does not fit.
    pub fn saturating_to_u64(&self) -> (r: u64)
        ensures
            r as nat == if self.value() <= u64::MAX as nat {
                self.value()
            } else {
                u64::MAX as nat
            },
    {
        if self.hi != 0 {
            proof {
                assert(self.hi as nat * two_pow_128() >= two_pow_128()) by (nonlinear_arith)
                    requires
                        self.hi >= 1,
                ;
            }
            u64::MAX
        } else if self.lo <= u64::MAX as u128 {
            self.lo as u64
        } else {
            u64::MAX
        }
    }
}

} // verus!
