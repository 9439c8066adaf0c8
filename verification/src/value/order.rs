//! How two values stand to each other: the equality and the order of
//! values.

use vstd::prelude::*;
use crate::value::decimal::{Decimal, DecimalModel, fraction_relation, relation_of_fractions};
use crate::value::integer::{Relation, relation_model};
use crate::value::text::{
    character_relation, relation_of_characters, relation_of_texts, relation_of_truths,
    text_relation, truth_relation,
};
use crate::value::{Value, ValueModel};

verus! {

/// What is known of how two values stand to each other.
#[derive(Clone, Copy, Debug, PartialEq, Eq, Structural)]
pub enum Standing {
    /// They stand so.
    Known(Relation),
    /// They are floating-point numbers of one variant: the host says.
    Deferred,
    /// They are of a kind that has no order and no equality.
    Unsupported,
}

/// Strings, integers, fractions, characters and truth values of one
/// variant are ordered; values of two variants are unordered; vectors,
/// products, sums, functions, references and tuples cannot be compared.
pub open spec fn standing(left: ValueModel, right: ValueModel) -> Standing {
    match (left, right) {
        (ValueModel::String(a), ValueModel::String(b)) => Standing::Known(text_relation(a, b)),
        (ValueModel::Integer(a), ValueModel::Integer(b)) => Standing::Known(
            relation_model(a, b),
        ),
        (ValueModel::Decimal(a), ValueModel::Decimal(b)) => match (a, b) {
            (DecimalModel::Rational(x), DecimalModel::Rational(y)) => Standing::Known(
                fraction_relation(x, y),
            ),
            (DecimalModel::F32(_), DecimalModel::F32(_)) => Standing::Deferred,
            (DecimalModel::F64(_), DecimalModel::F64(_)) => Standing::Deferred,
            _ => Standing::Known(Relation::Unordered),
        },
        (ValueModel::Character(a), ValueModel::Character(b)) => Standing::Known(
            character_relation(a, b),
        ),
        (ValueModel::Boolean(a), ValueModel::Boolean(b)) => Standing::Known(
            truth_relation(a, b),
        ),
        (ValueModel::Vector(_), ValueModel::Vector(_)) => Standing::Unsupported,
        (ValueModel::Product(_), ValueModel::Product(_)) => Standing::Unsupported,
        (ValueModel::Sum(_), ValueModel::Sum(_)) => Standing::Unsupported,
        (ValueModel::Function(_), ValueModel::Function(_)) => Standing::Unsupported,
        (ValueModel::Reference(_), ValueModel::Reference(_)) => Standing::Unsupported,
        (ValueModel::Tuple(_), ValueModel::Tuple(_)) => Standing::Unsupported,
        _ => Standing::Known(Relation::Unordered),
    }
}

/// How two values stand to each other.
pub fn standing_of(left: &Value, right: &Value) -> (r: Standing)
    ensures
        r == standing(left@, right@),
{
    match (left, right) {
        (Value::String(a), Value::String(b)) => Standing::Known(
            relation_of_texts(a.as_str(), b.as_str()),
        ),
        (Value::Integer(a), Value::Integer(b)) => Standing::Known(a.relation(b)),
        (Value::Decimal(a), Value::Decimal(b)) => match (a, b) {
            (Decimal::Rational(x), Decimal::Rational(y)) => Standing::Known(
                relation_of_fractions(x, y),
            ),
            (Decimal::F32(_), Decimal::F32(_)) => Standing::Deferred,
            (Decimal::F64(_), Decimal::F64(_)) => Standing::Deferred,
            _ => Standing::Known(Relation::Unordered),
        },
        (Value::Character(a), Value::Character(b)) => Standing::Known(
            relation_of_characters(*a, *b),
        ),
        (Value::Boolean(a), Value::Boolean(b)) => Standing::Known(relation_of_truths(*a, *b)),
        (Value::Vector(_), Value::Vector(_)) => Standing::Unsupported,
        (Value::Product(_), Value::Product(_)) => Standing::Unsupported,
        (Value::Sum(_), Value::Sum(_)) => Standing::Unsupported,
        (Value::Function(_), Value::Function(_)) => Standing::Unsupported,
        (Value::Reference(_), Value::Reference(_)) => Standing::Unsupported,
        (Value::Tuple(_), Value::Tuple(_)) => Standing::Unsupported,
        _ => Standing::Known(Relation::Unordered),
    }
}

} // verus!
