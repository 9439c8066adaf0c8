//! Arbitrary-precision natural numbers.
//!
//! A `Natural` holds its digits in base 2^64, least significant first. The
//! arithmetic itself is done by the `malachite` crate; the functions at the
//! end of this file are the only places where that crate is called, and
//! their contracts are believed, not proved.

use vstd::prelude::*;
use vstd::arithmetic::power::pow;

verus! {

/// The base of the digits of a `Natural`.
pub open spec fn limb_base() -> nat {
    0x1_0000_0000_0000_0000
}

/// The number that a sequence of base-2^64 digits denotes, least
/// significant digit first.
pub open spec fn limbs_value(limbs: Seq<u64>) -> nat
    decreases limbs.len(),
{
    if limbs.len() == 0 {
        0
    } else {
        limbs[0] as nat + limb_base() * limbs_value(limbs.drop_first())
    }
}

/// A single digit denotes itself.
pub proof fn lemma_limbs_value_single(digit: u64)
    ensures
        limbs_value(seq![digit]) == digit as nat,
{
    let s = seq![digit];
    assert(s.drop_first() =~= Seq::<u64>::empty());
    assert(limbs_value(s.drop_first()) == 0);
    assert(limbs_value(s) == s[0] as nat + limb_base() * limbs_value(s.drop_first()));
}

/// A number below the base is its own lowest digit.
pub proof fn lemma_limbs_value_small(limbs: Seq<u64>)
    requires
        limbs.len() > 0,
        limbs_value(limbs) < limb_base(),
    ensures
        limbs_value(limbs) == limbs[0] as nat,
{
    let rest = limbs_value(limbs.drop_first());
    if rest > 0 {
        assert(limb_base() * rest >= limb_base()) by (nonlinear_arith)
            requires
                rest >= 1,
        ;
    }
}

/// A power is the power of the square of its base by half its exponent,
/// once more times the base where the exponent is odd.
pub proof fn lemma_power_halves(base: int, exponent: nat)
    requires
        exponent > 0,
    ensures
        pow(base, exponent) == if exponent % 2 == 1 {
            base * pow(base * base, exponent / 2)
        } else {
            pow(base * base, exponent / 2)
        },
{
    let half = exponent / 2;
    vstd::arithmetic::power::lemma_square_is_pow2(base);
    vstd::arithmetic::power::lemma_pow_multiplies(base, 2, half);
    assert(pow(base * base, half) == pow(base, 2 * half));
    if exponent % 2 == 1 {
        assert(exponent == 2 * half + 1);
        vstd::arithmetic::power::lemma_pow_adds(base, 1, 2 * half);
        vstd::arithmetic::power::lemma_pow1(base);
    } else {
        assert(exponent == 2 * half);
    }
}

/// A power of a number that is not negative is not negative.
pub proof fn lemma_power_not_negative(base: int, exponent: nat)
    requires
        base >= 0,
    ensures
        pow(base, exponent) >= 0,
    decreases exponent,
{
    reveal(pow);
    if exponent > 0 {
        let e = (exponent - 1) as nat;
        lemma_power_not_negative(base, e);
        let p = pow(base, e);
        assert(base * p >= 0) by (nonlinear_arith)
            requires
                base >= 0,
                p >= 0,
        ;
    }
}

/// Whether a number other than zero divides another.
pub open spec fn divides(divisor: nat, number: nat) -> bool {
    divisor != 0 && number % divisor == 0
}

/// Whether a number is the greatest one that divides two others.
pub open spec fn is_gcd(greatest: nat, a: nat, b: nat) -> bool {
    &&& divides(greatest, a)
    &&& divides(greatest, b)
    &&& forall|divisor: nat| divides(divisor, a) && divides(divisor, b) ==> divisor <= greatest
}

/// The greatest number that divides two others.
pub open spec fn gcd_of(a: nat, b: nat) -> nat {
    choose|greatest: nat| is_gcd(greatest, a, b)
}

/// The greatest number up to a bound that divides two others, and one
/// where there is none.
pub open spec fn greatest_up_to(a: nat, b: nat, bound: nat) -> nat
    decreases bound,
{
    if bound <= 1 {
        1
    } else if divides(bound, a) && divides(bound, b) {
        bound
    } else {
        greatest_up_to(a, b, (bound - 1) as nat)
    }
}

/// The greatest common divisor up to a bound divides both numbers, and
/// no common divisor up to the bound is greater.
pub proof fn lemma_greatest_up_to(a: nat, b: nat, bound: nat)
    ensures
        divides(greatest_up_to(a, b, bound), a),
        divides(greatest_up_to(a, b, bound), b),
        forall|divisor: nat|
            divisor <= bound && divides(divisor, a) && divides(divisor, b) ==> divisor
                <= greatest_up_to(a, b, bound),
    decreases bound,
{
    if bound <= 1 {
        assert(a % 1 == 0 && b % 1 == 0);
    } else if divides(bound, a) && divides(bound, b) {
    } else {
        lemma_greatest_up_to(a, b, (bound - 1) as nat);
    }
}

/// A divisor of a number other than zero is not greater than it.
pub proof fn lemma_divisor_is_not_greater(divisor: nat, number: nat)
    requires
        number != 0,
        divides(divisor, number),
    ensures
        divisor <= number,
{
    if divisor > number {
        assert(number % divisor == number) by (nonlinear_arith)
            requires
                number < divisor,
        ;
    }
}

/// Two numbers other than zero have a greatest common divisor.
pub proof fn lemma_gcd_exists(a: nat, b: nat)
    requires
        a != 0,
        b != 0,
    ensures
        is_gcd(gcd_of(a, b), a, b),
{
    let greatest = greatest_up_to(a, b, a);
    lemma_greatest_up_to(a, b, a);
    assert forall|divisor: nat| divides(divisor, a) && divides(divisor, b) implies divisor
        <= greatest by {
        lemma_divisor_is_not_greater(divisor, a);
    }
    assert(is_gcd(greatest, a, b));
}

/// There is one greatest common divisor at most.
pub proof fn lemma_gcd_is_unique(greatest: nat, a: nat, b: nat)
    requires
        is_gcd(greatest, a, b),
    ensures
        gcd_of(a, b) == greatest,
{
    let chosen = gcd_of(a, b);
    assert(is_gcd(chosen, a, b));
    assert(chosen <= greatest);
    assert(greatest <= chosen);
}

/// An arbitrary-precision natural number.
#[derive(Debug)]
pub struct Natural {
    pub limbs: Vec<u64>,
}

impl View for Natural {
    type V = nat;

    open spec fn view(&self) -> nat {
        limbs_value(self.limbs@)
    }
}

impl Clone for Natural {
    fn clone(&self) -> (r: Self)
        ensures
            r@ == self@,
            r.limbs@ == self.limbs@,
    {
        Natural { limbs: self.limbs.clone() }
    }
}

impl Natural {
    /// The number whose base-2^64 digits are `limbs`, least significant
    /// first. Leading zero digits are allowed.
    pub fn new(limbs: Vec<u64>) -> (r: Self)
        ensures
            r@ == limbs_value(limbs@),
            r.limbs@ == limbs@,
    {
        Natural { limbs }
    }

    /// The number zero.
    pub fn zero() -> (r: Self)
        ensures
            r@ == 0,
    {
        Natural { limbs: Vec::new() }
    }

    /// The number of a `u64`.
    pub fn from_u64(value: u64) -> (r: Self)
        ensures
            r@ == value as nat,
    {
        let mut limbs: Vec<u64> = Vec::new();
        limbs.push(value);
        proof {
            assert(limbs@ =~= seq![value]);
            lemma_limbs_value_single(value);
        }
        Natural { limbs }
    }

    /// The value as a `u64`, where it has one.
    pub fn to_u64(&self) -> (r: Option<u64>)
        ensures
            match r {
                Some(v) => self@ == v as nat,
                None => self@ > u64::MAX as nat,
            },
    {
        let bound = Natural::from_u64(u64::MAX);
        if natural_less(&bound.limbs, &self.limbs) {
            None
        } else if self.limbs.len() == 0 {
            Some(0)
        } else {
            proof {
                lemma_limbs_value_small(self.limbs@);
            }
            Some(self.limbs[0])
        }
    }

    /// Whether the number is zero.
    pub fn is_zero(&self) -> (r: bool)
        ensures
            r == (self@ == 0),
    {
        let zero = Natural::zero();
        natural_equal(&self.limbs, &zero.limbs)
    }

    /// Whether the two numbers are the same.
    pub fn equals(&self, other: &Natural) -> (r: bool)
        ensures
            r == (self@ == other@),
    {
        natural_equal(&self.limbs, &other.limbs)
    }

    /// Whether the number is the smaller one.
    pub fn less_than(&self, other: &Natural) -> (r: bool)
        ensures
            r == (self@ < other@),
    {
        natural_less(&self.limbs, &other.limbs)
    }

    /// The sum.
    pub fn sum(&self, other: &Natural) -> (r: Natural)
        ensures
            r@ == self@ + other@,
    {
        Natural { limbs: natural_add(&self.limbs, &other.limbs) }
    }

    /// The difference, or `None` where `other` is the greater.
    pub fn difference(&self, other: &Natural) -> (r: Option<Natural>)
        ensures
            match r {
                Some(d) => self@ >= other@ && d@ == self@ - other@,
                None => self@ < other@,
            },
    {
        if natural_less(&self.limbs, &other.limbs) {
            None
        } else {
            Some(Natural { limbs: natural_subtract(&self.limbs, &other.limbs) })
        }
    }

    /// The product.
    pub fn product(&self, other: &Natural) -> (r: Natural)
        ensures
            r@ == self@ * other@,
    {
        Natural { limbs: natural_multiply(&self.limbs, &other.limbs) }
    }

    /// The quotient rounded down, or `None` where `other` is zero.
    pub fn quotient(&self, other: &Natural) -> (r: Option<Natural>)
        ensures
            match r {
                Some(q) => other@ != 0 && q@ == self@ / other@,
                None => other@ == 0,
            },
    {
        if other.is_zero() {
            None
        } else {
            Some(Natural { limbs: natural_divide(&self.limbs, &other.limbs) })
        }
    }

    /// The remainder of the division rounded down, or `None` where `other`
    /// is zero.
    pub fn remainder(&self, other: &Natural) -> (r: Option<Natural>)
        ensures
            match r {
                Some(m) => other@ != 0 && m@ == self@ % other@,
                None => other@ == 0,
            },
    {
        if other.is_zero() {
            None
        } else {
            Some(Natural { limbs: natural_remainder(&self.limbs, &other.limbs) })
        }
    }

    /// The greatest number that divides both numbers, or `None` where one
    /// of them is zero.
    pub fn gcd(&self, other: &Natural) -> (r: Option<Natural>)
        ensures
            match r {
                Some(g) => self@ != 0 && other@ != 0 && g@ == gcd_of(self@, other@) && is_gcd(
                    g@,
                    self@,
                    other@,
                ),
                None => self@ == 0 || other@ == 0,
            },
    {
        if self.is_zero() || other.is_zero() {
            None
        } else {
            let g = Natural { limbs: natural_gcd(&self.limbs, &other.limbs) };
            proof {
                lemma_gcd_is_unique(g@, self@, other@);
            }
            Some(g)
        }
    }

    /// The power, by squaring and multiplying.
    pub fn power(&self, exponent: u64) -> (r: Natural)
        ensures
            r@ == pow(self@ as int, exponent as nat),
    {
        let mut result = Natural::from_u64(1);
        let mut base = self.clone();
        let mut left = exponent;
        proof {
            lemma_power_not_negative(self@ as int, exponent as nat);
        }
        while left > 0
            invariant
                result@ * pow(base@ as int, left as nat) == pow(self@ as int, exponent as nat),
            decreases left,
        {
            let ghost r0 = result@ as int;
            let ghost b0 = base@ as int;
            let ghost l0 = left as nat;
            proof {
                lemma_power_halves(b0, l0);
            }
            if left % 2 == 1 {
                result = result.product(&base);
            }
            left = left / 2;
            if left > 0 {
                base = base.product(&base);
            }
            proof {
                reveal(pow);
                let rest = pow(b0 * b0, l0 / 2);
                if left > 0 {
                    assert(base@ as int == b0 * b0) by (nonlinear_arith)
                        requires
                            base@ == (b0 as nat) * (b0 as nat),
                            b0 >= 0,
                    ;
                } else {
                    assert(rest == 1 && pow(base@ as int, 0) == 1);
                }
                assert(left as nat == l0 / 2);
                if l0 % 2 == 1 {
                    assert(result@ as int == r0 * b0) by (nonlinear_arith)
                        requires
                            result@ == (r0 as nat) * (b0 as nat),
                            r0 >= 0,
                            b0 >= 0,
                    ;
                    assert((r0 * b0) * rest == r0 * (b0 * rest)) by (nonlinear_arith);
                }
            }
        }
        proof {
            reveal(pow);
            assert(pow(base@ as int, 0) == 1);
        }
        result
    }
}

/// Calls `+` of `malachite::Natural` on the numbers that the two digit
/// sequences denote (`Natural::from_limbs_asc`), and hands back the digits
/// of the result (`into_limbs_asc`). Claimed: the result denotes the sum.
#[verifier::external_body]
fn natural_add(a: &Vec<u64>, b: &Vec<u64>) -> (r: Vec<u64>)
    ensures
        limbs_value(r@) == limbs_value(a@) + limbs_value(b@),
{
    let x = malachite::Natural::from_limbs_asc(a.as_slice());
    let y = malachite::Natural::from_limbs_asc(b.as_slice());
    (x + y).into_limbs_asc()
}

/// Calls `-` of `malachite::Natural`, which panics where the second number
/// is the greater. Claimed: the result denotes the difference.
#[verifier::external_body]
fn natural_subtract(a: &Vec<u64>, b: &Vec<u64>) -> (r: Vec<u64>)
    requires
        limbs_value(a@) >= limbs_value(b@),
    ensures
        limbs_value(r@) == limbs_value(a@) - limbs_value(b@),
{
    let x = malachite::Natural::from_limbs_asc(a.as_slice());
    let y = malachite::Natural::from_limbs_asc(b.as_slice());
    (x - y).into_limbs_asc()
}

/// Calls `*` of `malachite::Natural`. Claimed: the result denotes the
/// product.
#[verifier::external_body]
fn natural_multiply(a: &Vec<u64>, b: &Vec<u64>) -> (r: Vec<u64>)
    ensures
        limbs_value(r@) == limbs_value(a@) * limbs_value(b@),
{
    let x = malachite::Natural::from_limbs_asc(a.as_slice());
    let y = malachite::Natural::from_limbs_asc(b.as_slice());
    (x * y).into_limbs_asc()
}

/// Calls `/` of `malachite::Natural`, which panics on a zero divisor.
/// Claimed: the result denotes the quotient rounded down.
#[verifier::external_body]
fn natural_divide(a: &Vec<u64>, b: &Vec<u64>) -> (r: Vec<u64>)
    requires
        limbs_value(b@) != 0,
    ensures
        limbs_value(r@) == limbs_value(a@) / limbs_value(b@),
{
    let x = malachite::Natural::from_limbs_asc(a.as_slice());
    let y = malachite::Natural::from_limbs_asc(b.as_slice());
    (x / y).into_limbs_asc()
}

/// Calls `%` of `malachite::Natural`, which panics on a zero divisor.
/// Claimed: the result denotes the remainder of the division rounded down.
#[verifier::external_body]
fn natural_remainder(a: &Vec<u64>, b: &Vec<u64>) -> (r: Vec<u64>)
    requires
        limbs_value(b@) != 0,
    ensures
        limbs_value(r@) == limbs_value(a@) % limbs_value(b@),
{
    let x = malachite::Natural::from_limbs_asc(a.as_slice());
    let y = malachite::Natural::from_limbs_asc(b.as_slice());
    (x % y).into_limbs_asc()
}

/// Calls `Gcd::gcd` of `malachite::Natural` on two numbers other than
/// zero. Claimed: the result divides both, and no greater number does.
#[verifier::external_body]
fn natural_gcd(a: &Vec<u64>, b: &Vec<u64>) -> (r: Vec<u64>)
    requires
        limbs_value(a@) != 0,
        limbs_value(b@) != 0,
    ensures
        is_gcd(limbs_value(r@), limbs_value(a@), limbs_value(b@)),
{
    let x = malachite::Natural::from_limbs_asc(a.as_slice());
    let y = malachite::Natural::from_limbs_asc(b.as_slice());
    malachite::base::num::arithmetic::traits::Gcd::gcd(x, y).into_limbs_asc()
}

/// Calls `==` of `malachite::Natural`. Claimed: it holds exactly where the
/// two numbers are the same.
#[verifier::external_body]
fn natural_equal(a: &Vec<u64>, b: &Vec<u64>) -> (r: bool)
    ensures
        r == (limbs_value(a@) == limbs_value(b@)),
{
    malachite::Natural::from_limbs_asc(a.as_slice()) == malachite::Natural::from_limbs_asc(b.as_slice())
}

/// Calls `<` of `malachite::Natural`. Claimed: it holds exactly where the
/// first number is the smaller.
#[verifier::external_body]
fn natural_less(a: &Vec<u64>, b: &Vec<u64>) -> (r: bool)
    ensures
        r == (limbs_value(a@) < limbs_value(b@)),
{
    malachite::Natural::from_limbs_asc(a.as_slice()) < malachite::Natural::from_limbs_asc(b.as_slice())
}

} // verus!
