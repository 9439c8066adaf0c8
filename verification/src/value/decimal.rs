//! The decimal half of the numeric tower: two binary floating-point
//! variants and exact fractions.
//!
//! A floating-point number is carried as its IEEE 754 bit pattern.
//! Arithmetic on such numbers is not done here: the evaluator hands it to
//! the host. What this file reads off a pattern is its sign and whether it
//! is a zero.

use vstd::prelude::*;
use crate::machine::{Fault, FaultModel};
use crate::value::integer::{Integer, IntegerModel, Relation};
use crate::value::rational::{
    Rational, RationalModel, fraction_equal, fraction_less, fraction_negation, fraction_power,
};

verus! {

/// The variants of `Decimal`.
#[derive(Clone, Copy, Debug, PartialEq, Eq, Structural)]
pub enum DecimalType {
    F32,
    F64,
    Rational,
}

/// A decimal of the numeric tower.
#[derive(Debug)]
pub enum Decimal {
    /// The bit pattern of a binary32 number.
    F32(u32),
    /// The bit pattern of a binary64 number.
    F64(u64),
    Rational(Rational),
}

/// What a `Decimal` is.
pub enum DecimalModel {
    F32(u32),
    F64(u64),
    Rational(RationalModel),
}

/// Whether a binary32 pattern is one of the two zeros.
pub open spec fn single_is_zero(bits: u32) -> bool {
    bits == 0 || bits == 0x8000_0000
}

/// Whether a binary32 pattern is a number below zero: its sign is set and
/// it is neither the negative zero nor a NaN.
pub open spec fn single_is_negative(bits: u32) -> bool {
    0x8000_0000 < bits <= 0xff80_0000
}

/// Whether a binary64 pattern is one of the two zeros.
pub open spec fn double_is_zero(bits: u64) -> bool {
    bits == 0 || bits == 0x8000_0000_0000_0000
}

/// Whether a binary64 pattern is a number below zero.
pub open spec fn double_is_negative(bits: u64) -> bool {
    0x8000_0000_0000_0000 < bits <= 0xfff0_0000_0000_0000
}

/// The binary32 pattern with its sign turned.
pub open spec fn single_negation(bits: u32) -> u32 {
    if bits >= 0x8000_0000 {
        (bits - 0x8000_0000) as u32
    } else {
        (bits + 0x8000_0000) as u32
    }
}

/// The binary64 pattern with its sign turned.
pub open spec fn double_negation(bits: u64) -> u64 {
    if bits >= 0x8000_0000_0000_0000 {
        (bits - 0x8000_0000_0000_0000) as u64
    } else {
        (bits + 0x8000_0000_0000_0000) as u64
    }
}

/// The variant of a decimal.
pub open spec fn decimal_kind(d: DecimalModel) -> DecimalType {
    match d {
        DecimalModel::F32(_) => DecimalType::F32,
        DecimalModel::F64(_) => DecimalType::F64,
        DecimalModel::Rational(_) => DecimalType::Rational,
    }
}

/// Whether a decimal is zero: for a fraction, whether its numerator is.
pub open spec fn decimal_is_zero(d: DecimalModel) -> bool {
    match d {
        DecimalModel::F32(bits) => single_is_zero(bits),
        DecimalModel::F64(bits) => double_is_zero(bits),
        DecimalModel::Rational(q) => q.numerator == 0,
    }
}

/// For a fraction, with a positive denominator.
pub open spec fn decimal_is_negative(d: DecimalModel) -> bool {
    match d {
        DecimalModel::F32(bits) => single_is_negative(bits),
        DecimalModel::F64(bits) => double_is_negative(bits),
        DecimalModel::Rational(q) => q.numerator < 0,
    }
}

/// The negated decimal.
pub open spec fn decimal_negation(d: DecimalModel) -> DecimalModel {
    match d {
        DecimalModel::F32(bits) => DecimalModel::F32(single_negation(bits)),
        DecimalModel::F64(bits) => DecimalModel::F64(double_negation(bits)),
        DecimalModel::Rational(q) => DecimalModel::Rational(fraction_negation(q)),
    }
}

/// How two fractions with positive denominators stand to each other.
pub open spec fn fraction_relation(a: RationalModel, b: RationalModel) -> Relation {
    if fraction_less(a, b) {
        Relation::Less
    } else if fraction_equal(a, b) {
        Relation::Equal
    } else {
        Relation::Greater
    }
}

impl View for Decimal {
    type V = DecimalModel;

    open spec fn view(&self) -> DecimalModel {
        match *self {
            Decimal::F32(bits) => DecimalModel::F32(bits),
            Decimal::F64(bits) => DecimalModel::F64(bits),
            Decimal::Rational(q) => DecimalModel::Rational(q@),
        }
    }
}

impl Clone for Decimal {
    fn clone(&self) -> (r: Self)
        ensures
            r@ == self@,
    {
        match self {
            Decimal::F32(bits) => Decimal::F32(*bits),
            Decimal::F64(bits) => Decimal::F64(*bits),
            Decimal::Rational(q) => Decimal::Rational(q.clone()),
        }
    }
}

impl Decimal {
    /// The variant.
    pub fn kind(&self) -> (r: DecimalType)
        ensures
            r == decimal_kind(self@),
    {
        match self {
            Decimal::F32(_) => DecimalType::F32,
            Decimal::F64(_) => DecimalType::F64,
            Decimal::Rational(_) => DecimalType::Rational,
        }
    }

    /// Whether the decimal is a fraction.
    pub fn is_rational(&self) -> (r: bool)
        ensures
            r == (self@ is Rational),
    {
        match self {
            Decimal::Rational(_) => true,
            _ => false,
        }
    }

    /// Whether the decimal is zero; a floating-point pattern is, where it is one of the
    /// two zeros.
    pub fn is_zero(&self) -> (r: bool)
        ensures
            r == decimal_is_zero(self@),
    {
        match self {
            Decimal::F32(bits) => *bits == 0 || *bits == 0x8000_0000,
            Decimal::F64(bits) => *bits == 0 || *bits == 0x8000_0000_0000_0000,
            Decimal::Rational(q) => q.is_zero(),
        }
    }

    /// Whether the decimal is below zero; no zero and no NaN is.
    pub fn is_negative(&self) -> (r: bool)
        ensures
            r == decimal_is_negative(self@),
    {
        match self {
            Decimal::F32(bits) => 0x8000_0000 < *bits && *bits <= 0xff80_0000,
            Decimal::F64(bits) => 0x8000_0000_0000_0000 < *bits && *bits <= 0xfff0_0000_0000_0000,
            Decimal::Rational(q) => q.is_negative(),
        }
    }

    /// The negated number: for a floating-point pattern, the pattern with
    /// its sign turned.
    pub fn neg(&self) -> (r: Decimal)
        ensures
            r@ == decimal_negation(self@),
    {
        match self {
            Decimal::F32(bits) => if *bits >= 0x8000_0000 {
                Decimal::F32(*bits - 0x8000_0000)
            } else {
                Decimal::F32(*bits + 0x8000_0000)
            },
            Decimal::F64(bits) => if *bits >= 0x8000_0000_0000_0000 {
                Decimal::F64(*bits - 0x8000_0000_0000_0000)
            } else {
                Decimal::F64(*bits + 0x8000_0000_0000_0000)
            },
            Decimal::Rational(q) => Decimal::Rational(q.negated()),
        }
    }
}

/// How two fractions stand to each other.
pub fn relation_of_fractions(a: &Rational, b: &Rational) -> (r: Relation)
    ensures
        r == fraction_relation(a@, b@),
{
    if a.less_than(b) {
        Relation::Less
    } else if a.equals(b) {
        Relation::Equal
    } else {
        Relation::Greater
    }
}

/// The name under which a variant of the decimals is written.
pub open spec fn decimal_type_name(value: DecimalType) -> Seq<char> {
    match value {
        DecimalType::F32 => "f32"@,
        DecimalType::F64 => "f64"@,
        DecimalType::Rational => "rational"@,
    }
}

impl DecimalType {
    /// The name under which a variant of the decimals is written.
    pub fn name(&self) -> (r: &'static str)
        ensures
            r@ == decimal_type_name(*self),
    {
        match self {
            DecimalType::F32 => "f32",
            DecimalType::F64 => "f64",
            DecimalType::Rational => "rational",
        }
    }
}

/// What raising a decimal to a whole power comes to.
#[derive(Debug)]
pub enum Raised {
    /// The power of a fraction.
    Done(Decimal),
    /// The base is a floating-point number: the host raises it to this
    /// exponent.
    Deferred(i32),
}

/// What a `Raised` is.
pub enum RaisedModel {
    Done(DecimalModel),
    Deferred(i32),
}

impl View for Raised {
    type V = RaisedModel;

    open spec fn view(&self) -> RaisedModel {
        match *self {
            Raised::Done(d) => RaisedModel::Done(d@),
            Raised::Deferred(e) => RaisedModel::Deferred(e),
        }
    }
}

/// The fault for an exponent that the width of the power does not hold.
pub open spec fn exponent_fault(exponent: int) -> FaultModel {
    if exponent < 0 {
        FaultModel::Underflow
    } else {
        FaultModel::Overflow
    }
}

/// A whole power of a decimal. An exponent of any variant is taken as an
/// `i64` for a fraction and as an `i32` for a floating-point number; one
/// that does not fit is `Underflow` or `Overflow`. Zero to a negative
/// power is `DivisionByZero`.
pub open spec fn powi_model(base: DecimalModel, exponent: IntegerModel) -> Result<
    RaisedModel,
    FaultModel,
> {
    match base {
        DecimalModel::Rational(q) => if exponent.value < i64::MIN || exponent.value > i64::MAX {
            Err(exponent_fault(exponent.value))
        } else if exponent.value < 0 && q.numerator == 0 {
            Err(FaultModel::DivisionByZero)
        } else {
            Ok(RaisedModel::Done(DecimalModel::Rational(fraction_power(q, exponent.value))))
        },
        _ => if exponent.value < i32::MIN || exponent.value > i32::MAX {
            Err(exponent_fault(exponent.value))
        } else {
            Ok(RaisedModel::Deferred(exponent.value as i32))
        },
    }
}

impl Decimal {
    /// The decimal raised to a whole power.
    pub fn powi(&self, exponent: &Integer) -> (r: Result<Raised, Fault>)
        ensures
            match r {
                Ok(raised) => powi_model(self@, exponent@) == Ok::<RaisedModel, FaultModel>(
                    raised@,
                ),
                Err(fault) => powi_model(self@, exponent@) == Err::<RaisedModel, FaultModel>(
                    fault@,
                ),
            },
    {
        let whole = exponent.to_integral();
        let fault = if exponent.is_negative() {
            Fault::Underflow
        } else {
            Fault::Overflow
        };
        match self {
            Decimal::Rational(q) => match whole {
                Some(e) => if e < i64::MIN as i128 || e > i64::MAX as i128 {
                    Err(fault)
                } else {
                    match q.power(e as i64) {
                        Some(p) => Ok(Raised::Done(Decimal::Rational(p))),
                        None => Err(Fault::DivisionByZero),
                    }
                },
                None => Err(fault),
            },
            _ => match whole {
                Some(e) => if e < i32::MIN as i128 || e > i32::MAX as i128 {
                    Err(fault)
                } else {
                    Ok(Raised::Deferred(e as i32))
                },
                None => Err(fault),
            },
        }
    }
}

} // verus!
