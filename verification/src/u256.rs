//! Unsigned 256-bit amounts.
//!
//! A [`U256`] is four 64-bit words, least significant first; its view is
//! the natural number they spell.  Comparison is proved here.  Addition,
//! subtraction, multiplication and division are carried out by
//! `stylus_sdk::alloy_primitives::U256` (a `ruint::Uint<256, 4>`), whose
//! operators wrap modulo 2^256; the four functions that call it are
//! trusted, everything built on them is proved.

use stylus_sdk::alloy_primitives::U256 as Uint256;
use vstd::prelude::*;

verus! {

/// 2^64: each word weighs this many times the word before it.
pub open spec fn word1() -> nat {
    0x1_0000_0000_0000_0000nat
}

/// 2^256, one more than the largest amount.
pub open spec fn modulus() -> nat {
    0x1_0000_0000_0000_0000_0000_0000_0000_0000_0000_0000_0000_0000_0000_0000_0000_0000nat
}

/// The difference of two amounts modulo 2^256: `a - b` where that is not
/// negative, `a - b + 2^256` where it is.
pub open spec fn wrapped_difference(a: nat, b: nat) -> nat {
    ((a - b) % (modulus() as int)) as nat
}

/// An unsigned 256-bit integer held as four 64-bit words, least significant
/// first.
#[derive(Clone, Copy, Debug, PartialEq, Eq, Structural, Hash)]
pub struct U256 {
    pub w0: u64,
    pub w1: u64,
    pub w2: u64,
    pub w3: u64,
}

impl View for U256 {
    type V = nat;

    open spec fn view(&self) -> nat {
        (self.w0 + word1() * (self.w1 + word1() * (self.w2 + word1() * self.w3))) as nat
    }
}

impl U256 {
    /// The amount whose value is `n` reduced modulo 2^256.
    pub open spec fn from_nat(n: nat) -> U256 {
        U256 {
            w0: (n % word1()) as u64,
            w1: ((n / word1()) % word1()) as u64,
            w2: (((n / word1()) / word1()) % word1()) as u64,
            w3: ((((n / word1()) / word1()) / word1()) % word1()) as u64,
        }
    }

    /// Every amount is below 2^256, and two amounts with the same value are
    /// the same amount.
    pub proof fn lemma_view_injective(a: U256, b: U256)
        ensures
            a@ < modulus(),
            a@ == b@ ==> a == b,
    {
        let base = word1() as int;
        assert(base * base * base * base == modulus()) by (nonlinear_arith)
            requires
                base == 0x1_0000_0000_0000_0000int,
                modulus()
                    == 0x1_0000_0000_0000_0000_0000_0000_0000_0000_0000_0000_0000_0000_0000_0000_0000_0000int,
        ;
        let a2 = a.w2 + base * a.w3;
        let a1 = a.w1 + base * a2;
        let b2 = b.w2 + base * b.w3;
        let b1 = b.w1 + base * b2;
        assert(a2 <= base * base - 1);
        assert(a1 <= base * base * base - 1) by {
            assert(base * a2 <= base * (base * base - 1)) by (nonlinear_arith)
                requires
                    a2 <= base * base - 1,
                    base > 0,
            ;
            assert(base * (base * base - 1) == base * base * base - base) by (nonlinear_arith);
        }
        assert(a@ <= base * base * base * base - 1) by {
            assert(base * a1 <= base * (base * base * base - 1)) by (nonlinear_arith)
                requires
                    a1 <= base * base * base - 1,
                    base > 0,
            ;
            assert(base * (base * base * base - 1) == base * base * base * base - base)
                by (nonlinear_arith);
        }
        if a@ == b@ {
            Self::lemma_split(a.w0 as int, a1, b.w0 as int, b1);
            Self::lemma_split(a.w1 as int, a2, b.w1 as int, b2);
            Self::lemma_split(a.w2 as int, a.w3 as int, b.w2 as int, b.w3 as int);
        }
    }

    /// Two numbers written as a digit below 2^64 plus 2^64 times a rest are
    /// equal only if digit and rest are.
    proof fn lemma_split(lo_a: int, hi_a: int, lo_b: int, hi_b: int)
        requires
            0 <= lo_a < word1(),
            0 <= lo_b < word1(),
            lo_a + word1() * hi_a == lo_b + word1() * hi_b,
        ensures
            lo_a == lo_b,
            hi_a == hi_b,
    {
        let base = word1() as int;
        assert(base * (hi_a - hi_b) == lo_b - lo_a) by (nonlinear_arith)
            requires
                lo_a + base * hi_a == lo_b + base * hi_b,
        ;
        if hi_a > hi_b {
            assert(base * (hi_a - hi_b) >= base) by (nonlinear_arith)
                requires
                    hi_a - hi_b >= 1,
                    base > 0,
            ;
        } else if hi_a < hi_b {
            assert(base * (hi_a - hi_b) <= -base) by (nonlinear_arith)
                requires
                    hi_a - hi_b <= -1,
                    base > 0,
            ;
        }
    }

    /// The value of `from_nat(n)` is `n` reduced modulo 2^256.
    pub proof fn lemma_from_nat(n: nat)
        ensures
            Self::from_nat(n)@ == n % modulus(),
            n < modulus() ==> Self::from_nat(n)@ == n,
    {
        let base = word1() as int;
        assert(base * base * base * base == modulus()) by (nonlinear_arith)
            requires
                base == 0x1_0000_0000_0000_0000int,
                modulus()
                    == 0x1_0000_0000_0000_0000_0000_0000_0000_0000_0000_0000_0000_0000_0000_0000_0000_0000int,
        ;
        let q1 = n as int / base;
        let q2 = q1 / base;
        let q3 = q2 / base;
        let q4 = q3 / base;
        let r = Self::from_nat(n);
        assert(n == base * q1 + r.w0);
        assert(q1 == base * q2 + r.w1);
        assert(q2 == base * q3 + r.w2);
        assert(q3 == base * q4 + r.w3);
        assert(r@ == r.w0 + base * (r.w1 + base * (r.w2 + base * r.w3)));
        assert(n == r@ + q4 * (base * base * base * base)) by (nonlinear_arith)
            requires
                n == base * q1 + r.w0,
                q1 == base * q2 + r.w1,
                q2 == base * q3 + r.w2,
                q3 == base * q4 + r.w3,
                r@ == r.w0 + base * (r.w1 + base * (r.w2 + base * r.w3)),
        ;
        Self::lemma_view_injective(r, r);
        vstd::arithmetic::div_mod::lemma_fundamental_div_mod_converse(
            n as int,
            modulus() as int,
            q4,
            r@ as int,
        );
        if n < modulus() {
            vstd::arithmetic::div_mod::lemma_small_mod(n, modulus());
        }
    }

    /// `from_nat` recovers an amount from its value.
    pub proof fn lemma_from_nat_view(a: U256)
        ensures
            Self::from_nat(a@) == a,
    {
        Self::lemma_from_nat(a@);
        Self::lemma_view_injective(a, a);
        Self::lemma_view_injective(Self::from_nat(a@), a);
    }

    /// The amount with the given four words, least significant first.
    pub fn from_limbs(limbs: [u64; 4]) -> (r: U256)
        ensures
            r.w0 == limbs[0],
            r.w1 == limbs[1],
            r.w2 == limbs[2],
            r.w3 == limbs[3],
    {
        U256 { w0: limbs[0], w1: limbs[1], w2: limbs[2], w3: limbs[3] }
    }

    /// The four words, least significant first.
    pub fn into_limbs(self) -> (limbs: [u64; 4])
        ensures
            limbs[0] == self.w0,
            limbs[1] == self.w1,
            limbs[2] == self.w2,
            limbs[3] == self.w3,
    {
        [self.w0, self.w1, self.w2, self.w3]
    }

    /// The amount equal to a 64-bit integer.
    pub open spec fn spec_from_u64(x: u64) -> U256 {
        U256 { w0: x, w1: 0, w2: 0, w3: 0 }
    }

    /// The amount equal to a 64-bit integer.
    #[verifier::when_used_as_spec(spec_from_u64)]
    pub fn from_u64(x: u64) -> (r: U256)
        ensures
            r == Self::spec_from_u64(x),
            r@ == x,
    {
        U256 { w0: x, w1: 0, w2: 0, w3: 0 }
    }

    /// Zero.
    pub open spec fn spec_zero() -> U256 {
        U256 { w0: 0, w1: 0, w2: 0, w3: 0 }
    }

    /// Zero.
    #[verifier::when_used_as_spec(spec_zero)]
    pub fn zero() -> (r: U256)
        ensures
            r == Self::spec_zero(),
            r@ == 0,
    {
        U256 { w0: 0, w1: 0, w2: 0, w3: 0 }
    }

    /// Whether the amount is zero.
    pub fn is_zero(&self) -> (r: bool)
        ensures
            r == (self@ == 0),
    {
        self.w0 == 0 && self.w1 == 0 && self.w2 == 0 && self.w3 == 0
    }

    /// The value as a 64-bit integer, if it fits.
    pub fn to_u64(&self) -> (r: Option<u64>)
        ensures
            r == if self@ <= u64::MAX { Some(self@ as u64) } else { None },
    {
        if self.w1 == 0 && self.w2 == 0 && self.w3 == 0 {
            Some(self.w0)
        } else {
            None
        }
    }

    /// Strictly less than.
    pub fn lt(&self, rhs: &U256) -> (r: bool)
        ensures
            r == (self@ < rhs@),
    {
        if self.w3 != rhs.w3 {
            self.w3 < rhs.w3
        } else if self.w2 != rhs.w2 {
            self.w2 < rhs.w2
        } else if self.w1 != rhs.w1 {
            self.w1 < rhs.w1
        } else {
            self.w0 < rhs.w0
        }
    }

    /// Strictly greater than.
    pub fn gt(&self, rhs: &U256) -> (r: bool)
        ensures
            r == (self@ > rhs@),
    {
        rhs.lt(self)
    }

    /// Less than or equal.
    pub fn le(&self, rhs: &U256) -> (r: bool)
        ensures
            r == (self@ <= rhs@),
    {
        !rhs.lt(self)
    }

    /// Greater than or equal.
    pub fn ge(&self, rhs: &U256) -> (r: bool)
        ensures
            r == (self@ >= rhs@),
    {
        !self.lt(rhs)
    }

    /// Sum modulo 2^256.
    pub fn wrapping_add(&self, rhs: &U256) -> (r: U256)
        ensures
            r@ == (self@ + rhs@) % modulus(),
            r == Self::from_nat(self@ + rhs@),
    {
        let r = uint_wrapping_add(self, rhs);
        proof {
            Self::lemma_from_nat(self@ + rhs@);
            Self::lemma_view_injective(r, Self::from_nat(self@ + rhs@));
        }
        r
    }

    /// Difference modulo 2^256.
    pub fn wrapping_sub(&self, rhs: &U256) -> (r: U256)
        ensures
            r@ == wrapped_difference(self@, rhs@),
            r == Self::from_nat(wrapped_difference(self@, rhs@)),
            self@ >= rhs@ ==> r@ == self@ - rhs@,
    {
        let r = uint_wrapping_sub(self, rhs);
        proof {
            Self::lemma_from_nat_view(r);
        }
        r
    }

    /// Product modulo 2^256.
    pub fn wrapping_mul(&self, rhs: &U256) -> (r: U256)
        ensures
            r@ == (self@ * rhs@) % modulus(),
            r == Self::from_nat(self@ * rhs@),
    {
        let r = uint_wrapping_mul(self, rhs);
        proof {
            Self::lemma_from_nat(self@ * rhs@);
            Self::lemma_view_injective(r, Self::from_nat(self@ * rhs@));
        }
        r
    }

    /// Quotient rounded down.
    pub fn wrapping_div(&self, rhs: &U256) -> (r: U256)
        requires
            rhs@ != 0,
        ensures
            r@ == self@ / rhs@,
            r == Self::from_nat(self@ / rhs@),
    {
        let r = uint_wrapping_div(self, rhs);
        proof {
            Self::lemma_view_injective(*self, *self);
            vstd::arithmetic::div_mod::lemma_div_pos_is_pos(self@ as int, rhs@ as int);
            vstd::arithmetic::div_mod::lemma_div_is_ordered_by_denominator(
                self@ as int,
                1,
                rhs@ as int,
            );
            Self::lemma_from_nat(self@ / rhs@);
            Self::lemma_view_injective(r, Self::from_nat(self@ / rhs@));
        }
        r
    }

    /// Quotient rounded down, or `None` for a zero divisor.
    pub fn checked_div(&self, rhs: &U256) -> (r: Option<U256>)
        ensures
            r == if rhs@ == 0 { None } else { Some(Self::from_nat(self@ / rhs@)) },
    {
        if rhs.is_zero() {
            None
        } else {
            Some(self.wrapping_div(rhs))
        }
    }
}

/// Calls `ruint::Uint::wrapping_add` on `alloy_primitives::U256` (the `+`
/// of that type), handing the words over with `from_limbs` and taking them
/// back with `into_limbs`, least significant first.  Trusted: the result is
/// the sum reduced modulo 2^256.
#[verifier::external_body]
fn uint_wrapping_add(a: &U256, b: &U256) -> (r: U256)
    ensures
        r@ == (a@ + b@) % modulus(),
{
    let x = Uint256::from_limbs([a.w0, a.w1, a.w2, a.w3]);
    let y = Uint256::from_limbs([b.w0, b.w1, b.w2, b.w3]);
    let l = x.wrapping_add(y).into_limbs();
    U256 { w0: l[0], w1: l[1], w2: l[2], w3: l[3] }
}

/// Calls `ruint::Uint::wrapping_sub` on `alloy_primitives::U256` (the `-`
/// of that type).  Trusted: the result is the difference reduced modulo
/// 2^256.
#[verifier::external_body]
fn uint_wrapping_sub(a: &U256, b: &U256) -> (r: U256)
    ensures
        r@ == wrapped_difference(a@, b@),
{
    let x = Uint256::from_limbs([a.w0, a.w1, a.w2, a.w3]);
    let y = Uint256::from_limbs([b.w0, b.w1, b.w2, b.w3]);
    let l = x.wrapping_sub(y).into_limbs();
    U256 { w0: l[0], w1: l[1], w2: l[2], w3: l[3] }
}

/// Calls `ruint::Uint::wrapping_mul` on `alloy_primitives::U256` (the `*`
/// of that type).  Trusted: the result is the product reduced modulo 2^256.
#[verifier::external_body]
fn uint_wrapping_mul(a: &U256, b: &U256) -> (r: U256)
    ensures
        r@ == (a@ * b@) % modulus(),
{
    let x = Uint256::from_limbs([a.w0, a.w1, a.w2, a.w3]);
    let y = Uint256::from_limbs([b.w0, b.w1, b.w2, b.w3]);
    let l = x.wrapping_mul(y).into_limbs();
    U256 { w0: l[0], w1: l[1], w2: l[2], w3: l[3] }
}

/// Calls `ruint::Uint::wrapping_div` on `alloy_primitives::U256` (the `/`
/// of that type), which panics on a zero divisor.  Trusted: for a non-zero
/// divisor the result is the quotient rounded down.
#[verifier::external_body]
fn uint_wrapping_div(a: &U256, b: &U256) -> (r: U256)
    requires
        b@ != 0,
    ensures
        r@ == a@ / b@,
{
    let x = Uint256::from_limbs([a.w0, a.w1, a.w2, a.w3]);
    let y = Uint256::from_limbs([b.w0, b.w1, b.w2, b.w3]);
    let l = x.wrapping_div(y).into_limbs();
    U256 { w0: l[0], w1: l[1], w2: l[2], w3: l[3] }
}

} // verus!
