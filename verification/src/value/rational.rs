//! Exact fractions: an arbitrary-precision numerator over an
//! arbitrary-precision denominator.
//!
//! A fraction may be made of any numerator and any denominator other than
//! zero; the results of arithmetic are in lowest terms. Equality and order
//! compare the numbers that the fractions denote.

use vstd::prelude::*;
use vstd::arithmetic::power::pow;
use crate::value::natural::{
    Natural, divides, gcd_of, lemma_divisor_is_not_greater, lemma_gcd_exists,
};
use crate::value::signed::{BigInteger, magnitude, truncated_quotient};

verus! {

/// A fraction.
#[derive(Debug)]
pub struct Rational {
    pub numerator: BigInteger,
    pub denominator: Natural,
}

/// What a `Rational` is: two mathematical integers.
pub struct RationalModel {
    pub numerator: int,
    pub denominator: int,
}

/// The fraction in lowest terms, for a positive denominator: numerator
/// and denominator divided by the greatest number that divides both, and
/// zero over one for zero.
pub open spec fn lowest_terms(q: RationalModel) -> RationalModel {
    if q.denominator <= 0 {
        q
    } else if q.numerator == 0 {
        RationalModel { numerator: 0, denominator: 1 }
    } else {
        let greatest = gcd_of(magnitude(q.numerator), q.denominator as nat) as int;
        RationalModel {
            numerator: if q.numerator < 0 {
                -(magnitude(q.numerator) as int / greatest)
            } else {
                magnitude(q.numerator) as int / greatest
            },
            denominator: q.denominator / greatest,
        }
    }
}

/// A fraction in lowest terms denotes the number that it denoted before,
/// over a positive denominator.
pub proof fn law_lowest_terms_keep_the_number(q: RationalModel)
    requires
        q.denominator > 0,
    ensures
        fraction_equal(lowest_terms(q), q),
        lowest_terms(q).denominator > 0,
{
    if q.numerator != 0 {
        let m = magnitude(q.numerator);
        let d = q.denominator as nat;
        lemma_gcd_exists(m, d);
        let g = gcd_of(m, d);
        lemma_divisor_is_not_greater(g, d);
        let mi = m as int;
        let di = d as int;
        let gi = g as int;
        assert(mi == gi * (mi / gi) && di == gi * (di / gi) && di / gi > 0) by (nonlinear_arith)
            requires
                gi > 0,
                mi % gi == 0,
                di % gi == 0,
                di > 0,
                gi <= di,
        ;
        let mq = mi / gi;
        let dq = di / gi;
        assert(mq * di == mi * dq) by (nonlinear_arith)
            requires
                mi == gi * mq,
                di == gi * dq,
        ;
        assert((-mq) * di == (-mi) * dq) by (nonlinear_arith)
            requires
                mq * di == mi * dq,
        ;
    }
}

/// A product of a number and an exact quotient divides what the quotient
/// was taken of.
proof fn lemma_product_divides(number: nat, greatest: nat, divisor: nat)
    requires
        divides(greatest, number),
        divides(divisor, number / greatest),
    ensures
        divides(greatest * divisor, number),
{
    let q = number / greatest;
    let j = q / divisor;
    assert(number == greatest * q && q == divisor * j) by (nonlinear_arith)
        requires
            greatest > 0,
            divisor > 0,
            number % greatest == 0,
            q == number / greatest,
            q % divisor == 0,
            j == q / divisor,
    ;
    assert(greatest * divisor > 0 && number == (greatest * divisor) * j) by (nonlinear_arith)
        requires
            greatest > 0,
            divisor > 0,
            number == greatest * q,
            q == divisor * j,
    ;
    vstd::arithmetic::div_mod::lemma_mod_multiples_basic(j as int, (greatest * divisor) as int);
    assert(((greatest * divisor) * j) as int == (j as int) * ((greatest * divisor) as int))
        by (nonlinear_arith);
}

/// In a fraction in lowest terms no number but one divides both
/// numerator and denominator.
pub proof fn law_lowest_terms_are_lowest(q: RationalModel, divisor: nat)
    requires
        q.denominator > 0,
        divides(divisor, magnitude(lowest_terms(q).numerator)),
        divides(divisor, lowest_terms(q).denominator as nat),
    ensures
        divisor == 1,
{
    if q.numerator != 0 {
        let m = magnitude(q.numerator);
        let d = q.denominator as nat;
        lemma_gcd_exists(m, d);
        let g = gcd_of(m, d);
        assert(magnitude(lowest_terms(q).numerator) == m / g) by {
            assert((m as int) / (g as int) >= 0) by (nonlinear_arith)
                requires
                    m >= 0,
                    g > 0,
            ;
        }
        assert(lowest_terms(q).denominator as nat == d / g);
        lemma_product_divides(m, g, divisor);
        lemma_product_divides(d, g, divisor);
        assert(g * divisor <= g);
        assert(divisor <= 1) by (nonlinear_arith)
            requires
                g * divisor <= g,
                g > 0,
        ;
    } else {
        assert(lowest_terms(q).denominator == 1);
        lemma_divisor_is_not_greater(divisor, 1);
    }
}

/// The sum of two fractions, in lowest terms.
pub open spec fn fraction_sum(a: RationalModel, b: RationalModel) -> RationalModel {
    lowest_terms(
        RationalModel {
            numerator: a.numerator * b.denominator + b.numerator * a.denominator,
            denominator: a.denominator * b.denominator,
        },
    )
}

/// The difference of two fractions, in lowest terms.
pub open spec fn fraction_difference(a: RationalModel, b: RationalModel) -> RationalModel {
    lowest_terms(
        RationalModel {
            numerator: a.numerator * b.denominator - b.numerator * a.denominator,
            denominator: a.denominator * b.denominator,
        },
    )
}

/// The product of two fractions, in lowest terms.
pub open spec fn fraction_product(a: RationalModel, b: RationalModel) -> RationalModel {
    lowest_terms(
        RationalModel {
            numerator: a.numerator * b.numerator,
            denominator: a.denominator * b.denominator,
        },
    )
}

/// The quotient by a fraction other than zero, in lowest terms; the
/// sign goes to the numerator.
pub open spec fn fraction_quotient(a: RationalModel, b: RationalModel) -> RationalModel {
    lowest_terms(
        RationalModel {
            numerator: if b.numerator < 0 {
                -(a.numerator * b.denominator)
            } else {
                a.numerator * b.denominator
            },
            denominator: a.denominator * magnitude(b.numerator),
        },
    )
}

/// The negated fraction.
pub open spec fn fraction_negation(a: RationalModel) -> RationalModel {
    RationalModel { numerator: -a.numerator, denominator: a.denominator }
}

/// The power by an exponent of either sign, in lowest terms; for a
/// negative exponent the fraction is turned over first.
pub open spec fn fraction_power(a: RationalModel, exponent: int) -> RationalModel {
    if exponent >= 0 {
        lowest_terms(
            RationalModel {
                numerator: pow(a.numerator, exponent as nat),
                denominator: pow(a.denominator, exponent as nat),
            },
        )
    } else {
        let m = (-exponent) as nat;
        lowest_terms(
            RationalModel {
                numerator: if pow(a.numerator, m) < 0 {
                    -pow(a.denominator, m)
                } else {
                    pow(a.denominator, m)
                },
                denominator: magnitude(pow(a.numerator, m)) as int,
            },
        )
    }
}

/// Whether two fractions denote one number.
pub open spec fn fraction_equal(a: RationalModel, b: RationalModel) -> bool {
    a.numerator * b.denominator == b.numerator * a.denominator
}

/// Whether the first fraction denotes the smaller number, for positive
/// denominators.
pub open spec fn fraction_less(a: RationalModel, b: RationalModel) -> bool {
    a.numerator * b.denominator < b.numerator * a.denominator
}

impl View for Rational {
    type V = RationalModel;

    open spec fn view(&self) -> RationalModel {
        RationalModel { numerator: self.numerator@, denominator: self.denominator@ as int }
    }
}

impl Clone for Rational {
    fn clone(&self) -> (r: Self)
        ensures
            r@ == self@,
    {
        Rational { numerator: self.numerator.clone(), denominator: self.denominator.clone() }
    }
}

impl Rational {
    /// A fraction is well formed where its denominator is not zero.
    pub open spec fn well_formed(&self) -> bool {
        self.denominator@ > 0
    }

    /// The fraction of the two numbers, or `None` for a zero denominator.
    pub fn new(numerator: BigInteger, denominator: Natural) -> (r: Option<Rational>)
        ensures
            match r {
                Some(q) => denominator@ != 0 && q@ == (RationalModel {
                    numerator: numerator@,
                    denominator: denominator@ as int,
                }) && q.well_formed(),
                None => denominator@ == 0,
            },
    {
        if denominator.is_zero() {
            None
        } else {
            Some(Rational { numerator, denominator })
        }
    }

    /// The fraction in lowest terms.
    pub fn reduced(&self) -> (r: Rational)
        ensures
            r@ == lowest_terms(self@),
            self.well_formed() ==> r.well_formed(),
    {
        if self.denominator.is_zero() {
            return self.clone();
        }
        if self.numerator.is_zero() {
            return Rational::zero();
        }
        match self.numerator.magnitude.gcd(&self.denominator) {
            Some(greatest) => {
                proof {
                    law_lowest_terms_keep_the_number(self@);
                }
                let numerator = match self.numerator.magnitude.quotient(&greatest) {
                    Some(n) => n,
                    None => Natural::zero(),
                };
                let denominator = match self.denominator.quotient(&greatest) {
                    Some(d) => d,
                    None => Natural::zero(),
                };
                Rational {
                    numerator: BigInteger::new(self.numerator.is_negative(), numerator),
                    denominator,
                }
            },
            None => self.clone(),
        }
    }

    /// The fraction zero over one.
    pub fn zero() -> (r: Rational)
        ensures
            r@ == (RationalModel { numerator: 0, denominator: 1 }),
            r.well_formed(),
    {
        Rational { numerator: BigInteger::zero(), denominator: Natural::from_u64(1) }
    }

    /// The whole number as a fraction over one.
    pub fn from_integer(value: BigInteger) -> (r: Rational)
        ensures
            r@ == (RationalModel { numerator: value@, denominator: 1 }),
            r.well_formed(),
    {
        Rational { numerator: value, denominator: Natural::from_u64(1) }
    }

    /// The fraction rounded towards zero, or `None` for a zero
    /// denominator.
    pub fn truncated(&self) -> (r: Option<BigInteger>)
        ensures
            match r {
                Some(v) => self@.denominator != 0 && v@ == truncated_quotient(
                    self@.numerator,
                    self@.denominator,
                ),
                None => self@.denominator == 0,
            },
    {
        let d = BigInteger::from_natural(self.denominator.clone());
        self.numerator.quotient(&d)
    }

    /// Whether the numerator is zero.
    pub fn is_zero(&self) -> (r: bool)
        ensures
            r == (self@.numerator == 0),
    {
        self.numerator.is_zero()
    }

    /// Whether the numerator is below zero.
    pub fn is_negative(&self) -> (r: bool)
        ensures
            r == (self@.numerator < 0),
    {
        self.numerator.is_negative()
    }

    /// Whether the two fractions denote one number.
    pub fn equals(&self, other: &Rational) -> (r: bool)
        ensures
            r == fraction_equal(self@, other@),
    {
        let d1 = BigInteger::from_natural(self.denominator.clone());
        let d2 = BigInteger::from_natural(other.denominator.clone());
        let left = self.numerator.product(&d2);
        let right = other.numerator.product(&d1);
        left.equals(&right)
    }

    /// Whether the fraction denotes the smaller number, for positive denominators.
    pub fn less_than(&self, other: &Rational) -> (r: bool)
        ensures
            r == fraction_less(self@, other@),
    {
        let d1 = BigInteger::from_natural(self.denominator.clone());
        let d2 = BigInteger::from_natural(other.denominator.clone());
        let left = self.numerator.product(&d2);
        let right = other.numerator.product(&d1);
        left.less_than(&right)
    }

    /// The negated fraction.
    pub fn negated(&self) -> (r: Rational)
        ensures
            r@ == fraction_negation(self@),
            self.well_formed() ==> r.well_formed(),
    {
        Rational { numerator: self.numerator.negated(), denominator: self.denominator.clone() }
    }

    /// The sum, in lowest terms.
    pub fn sum(&self, other: &Rational) -> (r: Rational)
        ensures
            r@ == fraction_sum(self@, other@),
            self.well_formed() && other.well_formed() ==> r.well_formed(),
    {
        let d1 = BigInteger::from_natural(self.denominator.clone());
        let d2 = BigInteger::from_natural(other.denominator.clone());
        let left = self.numerator.product(&d2);
        let right = other.numerator.product(&d1);
        let denominator = self.denominator.product(&other.denominator);
        proof {
            lemma_product_positive(self.denominator@, other.denominator@);
        }
        Rational { numerator: left.sum(&right), denominator }.reduced()
    }

    /// The difference, in lowest terms.
    pub fn difference(&self, other: &Rational) -> (r: Rational)
        ensures
            r@ == fraction_difference(self@, other@),
            self.well_formed() && other.well_formed() ==> r.well_formed(),
    {
        let d1 = BigInteger::from_natural(self.denominator.clone());
        let d2 = BigInteger::from_natural(other.denominator.clone());
        let left = self.numerator.product(&d2);
        let right = other.numerator.product(&d1);
        let denominator = self.denominator.product(&other.denominator);
        proof {
            lemma_product_positive(self.denominator@, other.denominator@);
        }
        Rational { numerator: left.difference(&right), denominator }.reduced()
    }

    /// The product, in lowest terms.
    pub fn product(&self, other: &Rational) -> (r: Rational)
        ensures
            r@ == fraction_product(self@, other@),
            self.well_formed() && other.well_formed() ==> r.well_formed(),
    {
        let denominator = self.denominator.product(&other.denominator);
        proof {
            lemma_product_positive(self.denominator@, other.denominator@);
        }
        Rational { numerator: self.numerator.product(&other.numerator), denominator }.reduced()
    }

    /// The quotient, or `None` where `other` is zero.
    pub fn quotient(&self, other: &Rational) -> (r: Option<Rational>)
        ensures
            match r {
                Some(q) => other@.numerator != 0 && q@ == fraction_quotient(self@, other@) && (
                self.well_formed() ==> q.well_formed()),
                None => other@.numerator == 0,
            },
    {
        if other.numerator.is_zero() {
            return None;
        }
        let d2 = BigInteger::from_natural(other.denominator.clone());
        let crossed = self.numerator.product(&d2);
        let numerator = if other.numerator.is_negative() {
            crossed.negated()
        } else {
            crossed
        };
        let denominator = self.denominator.product(&other.numerator.magnitude);
        proof {
            lemma_product_positive(self.denominator@, other.numerator.magnitude@);
        }
        Some(Rational { numerator, denominator }.reduced())
    }

    /// The power, or `None` for zero to a negative exponent.
    pub fn power(&self, exponent: i64) -> (r: Option<Rational>)
        ensures
            match r {
                Some(p) => !(exponent < 0 && self@.numerator == 0) && p@ == fraction_power(
                    self@,
                    exponent as int,
                ),
                None => exponent < 0 && self@.numerator == 0,
            },
    {
        if exponent >= 0 {
            let e = exponent as u64;
            let n = self.numerator.power(e);
            let d = self.denominator.power(e);
            proof {
                crate::value::natural::lemma_power_not_negative(self.denominator@ as int, e as nat);
            }
            Some(Rational { numerator: n, denominator: d }.reduced())
        } else if self.numerator.is_zero() {
            None
        } else {
            let wide: i128 = -(exponent as i128);
            let m = wide as u64;
            let n = self.numerator.power(m);
            let d = self.denominator.power(m);
            proof {
                crate::value::natural::lemma_power_not_negative(self.denominator@ as int, m as nat);
            }
            let numerator = BigInteger::new(n.is_negative(), d);
            Some(Rational { numerator, denominator: n.magnitude }.reduced())
        }
    }
}

/// A product of two positive numbers is positive.
pub proof fn lemma_product_positive(a: nat, b: nat)
    ensures
        a > 0 && b > 0 ==> a * b > 0,
        (a as int) * (b as int) == (a * b) as int,
{
    assert(a > 0 && b > 0 ==> a * b > 0) by (nonlinear_arith);
}

} // verus!
