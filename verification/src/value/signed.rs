//! Arbitrary-precision signed integers, as a sign over a magnitude.

use vstd::prelude::*;
use vstd::arithmetic::power::pow;
use crate::value::natural::Natural;

verus! {

/// The distance of a number from zero.
pub open spec fn magnitude(x: int) -> nat {
    if x < 0 {
        (-x) as nat
    } else {
        x as nat
    }
}

/// The quotient rounded towards zero.
pub open spec fn truncated_quotient(a: int, b: int) -> int {
    let q = (magnitude(a) / magnitude(b)) as int;
    if (a < 0) != (b < 0) {
        -q
    } else {
        q
    }
}

/// The remainder that goes with `truncated_quotient`: it has the sign of
/// the dividend.
pub open spec fn truncated_remainder(a: int, b: int) -> int {
    let r = (magnitude(a) % magnitude(b)) as int;
    if a < 0 {
        -r
    } else {
        r
    }
}

/// Quotient and remainder rebuild the dividend.
pub proof fn lemma_truncated_division(a: int, b: int)
    requires
        b != 0,
    ensures
        truncated_quotient(a, b) * b + truncated_remainder(a, b) == a,
        magnitude(truncated_remainder(a, b)) < magnitude(b),
{
    let ma = magnitude(a) as int;
    let mb = magnitude(b) as int;
    let q = ma / mb;
    let r = ma % mb;
    assert(ma == mb * q + r && 0 <= r < mb) by (nonlinear_arith)
        requires
            mb > 0,
            q == ma / mb,
            r == ma % mb,
    ;
    assert(truncated_quotient(a, b) * b + truncated_remainder(a, b) == a) by (nonlinear_arith)
        requires
            ma == mb * q + r,
            ma == if a < 0 { -a } else { a },
            mb == if b < 0 { -b } else { b },
            truncated_quotient(a, b) == if (a < 0) != (b < 0) { -q } else { q },
            truncated_remainder(a, b) == if a < 0 { -r } else { r },
    ;
}

/// A power of a negated base is the power of the base, negated where the
/// exponent is odd.
pub proof fn lemma_power_of_negation(base: int, exponent: nat)
    ensures
        pow(-base, exponent) == if exponent % 2 == 1 {
            -pow(base, exponent)
        } else {
            pow(base, exponent)
        },
    decreases exponent,
{
    reveal(pow);
    if exponent > 0 {
        let e = (exponent - 1) as nat;
        lemma_power_of_negation(base, e);
        let p = pow(base, e);
        assert(pow(base, exponent) == base * p);
        assert(pow(-base, exponent) == (-base) * pow(-base, e));
        assert((-base) * (-p) == base * p) by (nonlinear_arith);
        assert((-base) * p == -(base * p)) by (nonlinear_arith);
    }
}

/// An arbitrary-precision integer. Zero may carry either sign.
#[derive(Debug)]
pub struct BigInteger {
    pub negative: bool,
    pub magnitude: Natural,
}

impl View for BigInteger {
    type V = int;

    open spec fn view(&self) -> int {
        if self.negative {
            -(self.magnitude@ as int)
        } else {
            self.magnitude@ as int
        }
    }
}

impl Clone for BigInteger {
    fn clone(&self) -> (r: Self)
        ensures
            r@ == self@,
    {
        BigInteger { negative: self.negative, magnitude: self.magnitude.clone() }
    }
}

impl BigInteger {
    /// The integer of a sign and a magnitude.
    pub fn new(negative: bool, magnitude: Natural) -> (r: Self)
        ensures
            r@ == if negative { -(magnitude@ as int) } else { magnitude@ as int },
    {
        BigInteger { negative, magnitude }
    }

    /// The number zero.
    pub fn zero() -> (r: Self)
        ensures
            r@ == 0,
    {
        BigInteger { negative: false, magnitude: Natural::zero() }
    }

    /// The integer of a natural number.
    pub fn from_natural(value: Natural) -> (r: Self)
        ensures
            r@ == value@,
    {
        BigInteger { negative: false, magnitude: value }
    }

    /// The integer of a `u64`.
    pub fn from_u64(value: u64) -> (r: Self)
        ensures
            r@ == value as int,
    {
        BigInteger { negative: false, magnitude: Natural::from_u64(value) }
    }

    /// The integer of an `i64`.
    pub fn from_i64(value: i64) -> (r: Self)
        ensures
            r@ == value as int,
    {
        if value >= 0 {
            BigInteger { negative: false, magnitude: Natural::from_u64(value as u64) }
        } else {
            let wide: i128 = -(value as i128);
            BigInteger { negative: true, magnitude: Natural::from_u64(wide as u64) }
        }
    }

    /// The value as a natural number, where it is not negative.
    pub fn to_natural(&self) -> (r: Option<Natural>)
        ensures
            match r {
                Some(n) => self@ >= 0 && n@ == self@,
                None => self@ < 0,
            },
    {
        if self.is_negative() {
            None
        } else {
            if self.negative {
                Some(Natural::zero())
            } else {
                Some(self.magnitude.clone())
            }
        }
    }

    /// The value as an `i128`, where it lies between the least `i64` and
    /// the greatest `u64`.
    pub fn to_wide(&self) -> (r: Option<i128>)
        ensures
            match r {
                Some(v) => self@ == v as int && i64::MIN <= v <= u64::MAX,
                None => self@ < i64::MIN || self@ > u64::MAX,
            },
    {
        match self.magnitude.to_u64() {
            None => None,
            Some(m) => {
                if !self.negative {
                    Some(m as i128)
                } else if m <= 0x8000_0000_0000_0000u64 {
                    Some(-(m as i128))
                } else {
                    None
                }
            },
        }
    }

    /// Whether the number is zero.
    pub fn is_zero(&self) -> (r: bool)
        ensures
            r == (self@ == 0),
    {
        self.magnitude.is_zero()
    }

    /// Whether the number is below zero.
    pub fn is_negative(&self) -> (r: bool)
        ensures
            r == (self@ < 0),
    {
        self.negative && !self.magnitude.is_zero()
    }

    /// Whether the two numbers are the same.
    pub fn equals(&self, other: &BigInteger) -> (r: bool)
        ensures
            r == (self@ == other@),
    {
        if self.magnitude.is_zero() {
            other.magnitude.is_zero()
        } else {
            self.negative == other.negative && self.magnitude.equals(&other.magnitude)
        }
    }

    /// Whether the number is the smaller one.
    pub fn less_than(&self, other: &BigInteger) -> (r: bool)
        ensures
            r == (self@ < other@),
    {
        let a_negative = self.is_negative();
        let b_negative = other.is_negative();
        if a_negative && b_negative {
            other.magnitude.less_than(&self.magnitude)
        } else if a_negative {
            true
        } else if b_negative {
            false
        } else {
            self.magnitude.less_than(&other.magnitude)
        }
    }

    /// The negated number.
    pub fn negated(&self) -> (r: BigInteger)
        ensures
            r@ == -self@,
    {
        BigInteger { negative: !self.negative, magnitude: self.magnitude.clone() }
    }

    /// The sum.
    pub fn sum(&self, other: &BigInteger) -> (r: BigInteger)
        ensures
            r@ == self@ + other@,
    {
        if self.negative == other.negative {
            BigInteger { negative: self.negative, magnitude: self.magnitude.sum(&other.magnitude) }
        } else {
            match self.magnitude.difference(&other.magnitude) {
                Some(d) => BigInteger { negative: self.negative, magnitude: d },
                None => {
                    match other.magnitude.difference(&self.magnitude) {
                        Some(d) => BigInteger { negative: other.negative, magnitude: d },
                        None => BigInteger::zero(),
                    }
                },
            }
        }
    }

    /// The difference.
    pub fn difference(&self, other: &BigInteger) -> (r: BigInteger)
        ensures
            r@ == self@ - other@,
    {
        let negated = other.negated();
        self.sum(&negated)
    }

    /// The product.
    pub fn product(&self, other: &BigInteger) -> (r: BigInteger)
        ensures
            r@ == self@ * other@,
    {
        let m = self.magnitude.product(&other.magnitude);
        let r = BigInteger { negative: self.negative != other.negative, magnitude: m };
        proof {
            let a = self.magnitude@ as int;
            let b = other.magnitude@ as int;
            assert((-a) * b == -(a * b)) by (nonlinear_arith);
            assert(a * (-b) == -(a * b)) by (nonlinear_arith);
            assert((-a) * (-b) == a * b) by (nonlinear_arith);
        }
        r
    }

    /// The quotient rounded towards zero, or `None` where `other` is zero.
    pub fn quotient(&self, other: &BigInteger) -> (r: Option<BigInteger>)
        ensures
            match r {
                Some(q) => other@ != 0 && q@ == truncated_quotient(self@, other@),
                None => other@ == 0,
            },
    {
        match self.magnitude.quotient(&other.magnitude) {
            None => None,
            Some(q) => {
                let negative = self.is_negative() != other.is_negative();
                Some(BigInteger { negative, magnitude: q })
            },
        }
    }

    /// The remainder with the sign of `self`, or `None` where `other` is
    /// zero.
    pub fn remainder(&self, other: &BigInteger) -> (r: Option<BigInteger>)
        ensures
            match r {
                Some(m) => other@ != 0 && m@ == truncated_remainder(self@, other@),
                None => other@ == 0,
            },
    {
        match self.magnitude.remainder(&other.magnitude) {
            None => None,
            Some(m) => {
                let negative = self.is_negative();
                Some(BigInteger { negative, magnitude: m })
            },
        }
    }

    /// The power.
    pub fn power(&self, exponent: u64) -> (r: BigInteger)
        ensures
            r@ == pow(self@, exponent as nat),
    {
        let m = self.magnitude.power(exponent);
        let negative = self.negative && exponent % 2 == 1;
        proof {
            lemma_power_of_negation(self.magnitude@ as int, exponent as nat);
        }
        BigInteger { negative, magnitude: m }
    }

    /// The bitwise complement in two's complement: `-x - 1`.
    pub fn complement(&self) -> (r: BigInteger)
        ensures
            r@ == -self@ - 1,
    {
        let one = BigInteger::from_u64(1);
        let negated = self.negated();
        negated.difference(&one)
    }
}

} // verus!
