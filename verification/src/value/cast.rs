//! The cast matrix: which values can be turned into which types.
//!
//! A cast from or to a floating-point variant is not computed here: it is
//! handed to the host.

use vstd::prelude::*;
use crate::machine::{Fault, FaultModel};
use crate::value::decimal::{Decimal, DecimalModel, DecimalType, decimal_is_zero};
use crate::value::integer::{Integer, IntegerModel, IntegerType, checked, holds, is_fixed};
use crate::value::rational::{Rational, RationalModel};
use crate::value::signed::truncated_quotient;
use crate::value::{Value, ValueModel, ValueType};

verus! {

/// What a cast comes to.
pub enum Conversion {
    /// The value in the target type.
    Done(ValueModel),
    /// A floating-point variant is involved: the host converts.
    Deferred,
}

/// The detail of the fault for a cast that is not defined.
pub open spec fn unsupported_cast() -> Seq<char> {
    "unsupported cast"@
}

/// The fault for a cast that is not defined.
pub open spec fn unsupported() -> Result<Conversion, FaultModel> {
    Err(FaultModel::InvalidOperation(unsupported_cast()))
}

/// The view of the result of a cast: `None` stands for a cast that is
/// left to the host.
pub open spec fn conversion_of(r: Result<Option<Value>, Fault>) -> Result<Conversion, FaultModel> {
    match r {
        Ok(Some(v)) => Ok(Conversion::Done(v@)),
        Ok(None) => Ok(Conversion::Deferred),
        Err(f) => Err(f@),
    }
}

/// An integer goes to every integer variant that holds its number, to a
/// fraction over one, and to the truth value that says whether it is
/// other than zero.
pub open spec fn integer_cast_model(value: IntegerModel, target: ValueType) -> Result<
    Conversion,
    FaultModel,
> {
    match target {
        ValueType::Integer(kind) => match checked(kind, value.value) {
            Ok(i) => Ok(Conversion::Done(ValueModel::Integer(i))),
            Err(f) => Err(f),
        },
        ValueType::Boolean => Ok(Conversion::Done(ValueModel::Boolean(value.value != 0))),
        ValueType::Decimal(DecimalType::Rational) => Ok(
            Conversion::Done(
                ValueModel::Decimal(
                    DecimalModel::Rational(
                        RationalModel { numerator: value.value, denominator: 1 },
                    ),
                ),
            ),
        ),
        ValueType::Decimal(_) => Ok(Conversion::Deferred),
        _ => unsupported(),
    }
}

/// A fraction goes to every fixed-width integer variant that holds it
/// rounded towards zero and to the truth value that says whether it is
/// other than zero; a floating-point number goes to that truth value.
pub open spec fn decimal_cast_model(value: DecimalModel, target: ValueType) -> Result<
    Conversion,
    FaultModel,
> {
    match value {
        DecimalModel::Rational(q) => match target {
            ValueType::Integer(kind) => if !is_fixed(kind) {
                unsupported()
            } else if q.denominator == 0 {
                Err(FaultModel::DivisionByZero)
            } else {
                match checked(kind, truncated_quotient(q.numerator, q.denominator)) {
                    Ok(i) => Ok(Conversion::Done(ValueModel::Integer(i))),
                    Err(f) => Err(f),
                }
            },
            ValueType::Boolean => Ok(Conversion::Done(ValueModel::Boolean(q.numerator != 0))),
            ValueType::Decimal(DecimalType::Rational) => Ok(
                Conversion::Done(ValueModel::Decimal(value)),
            ),
            ValueType::Decimal(_) => Ok(Conversion::Deferred),
            _ => unsupported(),
        },
        _ => match target {
            ValueType::Integer(kind) => if is_fixed(kind) {
                Ok(Conversion::Deferred)
            } else {
                unsupported()
            },
            ValueType::Boolean => Ok(Conversion::Done(ValueModel::Boolean(!decimal_is_zero(value)))),
            ValueType::Decimal(DecimalType::Rational) => unsupported(),
            ValueType::Decimal(_) => Ok(Conversion::Deferred),
            _ => unsupported(),
        },
    }
}

/// Integers and decimals can be cast; a cast of another value is a
/// fault.
pub open spec fn cast_model(value: ValueModel, target: ValueType) -> Result<Conversion, FaultModel> {
    match value {
        ValueModel::Integer(i) => integer_cast_model(i, target),
        ValueModel::Decimal(d) => decimal_cast_model(d, target),
        _ => unsupported(),
    }
}

/// A cast of an integer to an integer variant and back to its own is the
/// integer again.
pub proof fn law_cast_round_trip(value: IntegerModel, kind: IntegerType)
    requires
        holds(value.kind, value.value),
        cast_model(ValueModel::Integer(value), ValueType::Integer(kind)) is Ok,
    ensures
        cast_model(ValueModel::Integer(value), ValueType::Integer(kind)) matches Ok(
            Conversion::Done(there),
        ) && cast_model(there, ValueType::Integer(value.kind)) == Ok::<Conversion, FaultModel>(
            Conversion::Done(ValueModel::Integer(value)),
        ),
{
}

fn unsupported_fault() -> (f: Fault)
    ensures
        f@ == FaultModel::InvalidOperation(unsupported_cast()),
{
    Fault::InvalidOperation("unsupported cast".to_owned())
}

impl Integer {
    /// The integer in another type; `None` where the host converts.
    pub fn cast(&self, into_type: &ValueType) -> (r: Result<Option<Value>, Fault>)
        ensures
            conversion_of(r) == integer_cast_model(self@, *into_type),
    {
        match into_type {
            ValueType::Integer(kind) => match Integer::from_big(*kind, self.to_big()) {
                Ok(i) => Ok(Some(Value::Integer(i))),
                Err(f) => Err(f),
            },
            ValueType::Boolean => Ok(Some(Value::Boolean(!self.is_zero()))),
            ValueType::Decimal(DecimalType::Rational) => Ok(
                Some(Value::Decimal(Decimal::Rational(Rational::from_integer(self.to_big())))),
            ),
            ValueType::Decimal(_) => Ok(None),
            _ => Err(unsupported_fault()),
        }
    }
}

impl Decimal {
    /// The decimal in another type; `None` where the host converts.
    pub fn cast(&self, into_type: &ValueType) -> (r: Result<Option<Value>, Fault>)
        ensures
            conversion_of(r) == decimal_cast_model(self@, *into_type),
    {
        match self {
            Decimal::Rational(q) => match into_type {
                ValueType::Integer(kind) => match kind {
                    IntegerType::Natural => Err(unsupported_fault()),
                    IntegerType::Integer => Err(unsupported_fault()),
                    _ => match q.truncated() {
                        None => Err(Fault::DivisionByZero),
                        Some(whole) => match Integer::from_big(*kind, whole) {
                            Ok(i) => Ok(Some(Value::Integer(i))),
                            Err(f) => Err(f),
                        },
                    },
                },
                ValueType::Boolean => Ok(Some(Value::Boolean(!q.is_zero()))),
                ValueType::Decimal(DecimalType::Rational) => Ok(
                    Some(Value::Decimal(Decimal::Rational(q.clone()))),
                ),
                ValueType::Decimal(_) => Ok(None),
                _ => Err(unsupported_fault()),
            },
            _ => match into_type {
                ValueType::Integer(kind) => match kind {
                    IntegerType::Natural => Err(unsupported_fault()),
                    IntegerType::Integer => Err(unsupported_fault()),
                    _ => Ok(None),
                },
                ValueType::Boolean => Ok(Some(Value::Boolean(!self.is_zero()))),
                ValueType::Decimal(DecimalType::Rational) => Err(unsupported_fault()),
                ValueType::Decimal(_) => Ok(None),
                _ => Err(unsupported_fault()),
            },
        }
    }
}

impl Value {
    /// The value in another type; `None` where the host converts.
    pub fn cast(&self, into_type: &ValueType) -> (r: Result<Option<Value>, Fault>)
        ensures
            conversion_of(r) == cast_model(self@, *into_type),
    {
        match self {
            Value::Integer(integer) => integer.cast(into_type),
            Value::Decimal(decimal) => decimal.cast(into_type),
            _ => Err(unsupported_fault()),
        }
    }
}

} // verus!
