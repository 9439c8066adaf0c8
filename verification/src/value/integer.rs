//! The integer half of the numeric tower: eight fixed-width variants and
//! the two arbitrary-precision ones.

use vstd::prelude::*;
use vstd::arithmetic::power::pow;
use crate::machine::{Fault, FaultModel};
use crate::value::natural::{Natural, lemma_power_not_negative};
use crate::value::signed::{
    BigInteger, lemma_power_of_negation, magnitude, truncated_quotient,
    truncated_remainder,
};

verus! {

/// The variants of `Integer`.
#[derive(Clone, Copy, Debug, PartialEq, Eq, Structural)]
pub enum IntegerType {
    U8,
    U16,
    U32,
    U64,
    I8,
    I16,
    I32,
    I64,
    Natural,
    Integer,
}

/// An integer of the numeric tower.
#[derive(Debug)]
pub enum Integer {
    U8(u8),
    U16(u16),
    U32(u32),
    U64(u64),
    I8(i8),
    I16(i16),
    I32(i32),
    I64(i64),
    Natural(Natural),
    Integer(BigInteger),
}

/// What an `Integer` is: a variant and a mathematical integer.
pub struct IntegerModel {
    pub kind: IntegerType,
    pub value: int,
}

/// Whether the variant has a fixed width.
pub open spec fn is_fixed(kind: IntegerType) -> bool {
    kind != IntegerType::Natural && kind != IntegerType::Integer
}

/// The number of bits of a fixed-width variant.
pub open spec fn width(kind: IntegerType) -> int {
    match kind {
        IntegerType::U8 | IntegerType::I8 => 8,
        IntegerType::U16 | IntegerType::I16 => 16,
        IntegerType::U32 | IntegerType::I32 => 32,
        _ => 64,
    }
}

/// The least number of a fixed-width variant.
pub open spec fn least(kind: IntegerType) -> int {
    match kind {
        IntegerType::I8 => -0x80,
        IntegerType::I16 => -0x8000,
        IntegerType::I32 => -0x8000_0000,
        IntegerType::I64 => -0x8000_0000_0000_0000,
        _ => 0,
    }
}

/// The greatest number of a fixed-width variant.
pub open spec fn greatest(kind: IntegerType) -> int {
    match kind {
        IntegerType::U8 => 0xff,
        IntegerType::U16 => 0xffff,
        IntegerType::U32 => 0xffff_ffff,
        IntegerType::U64 => 0xffff_ffff_ffff_ffff,
        IntegerType::I8 => 0x7f,
        IntegerType::I16 => 0x7fff,
        IntegerType::I32 => 0x7fff_ffff,
        _ => 0x7fff_ffff_ffff_ffff,
    }
}

/// Whether the variant can hold the number.
pub open spec fn holds(kind: IntegerType, value: int) -> bool {
    match kind {
        IntegerType::Integer => true,
        IntegerType::Natural => value >= 0,
        _ => least(kind) <= value <= greatest(kind),
    }
}

/// The number in the variant; `Underflow` where it lies below what the
/// variant holds, `Overflow` where it lies above.
pub open spec fn checked(kind: IntegerType, value: int) -> Result<IntegerModel, FaultModel> {
    if holds(kind, value) {
        Ok(IntegerModel { kind, value })
    } else if value < least(kind) {
        Err(FaultModel::Underflow)
    } else {
        Err(FaultModel::Overflow)
    }
}

/// The view of the result of an operation.
pub open spec fn outcome(r: Result<Integer, Fault>) -> Result<IntegerModel, FaultModel> {
    match r {
        Ok(v) => Ok(v@),
        Err(f) => Err(f@),
    }
}

/// The sum of two integers of one variant.
pub open spec fn sum_model(a: IntegerModel, b: IntegerModel) -> Result<IntegerModel, FaultModel> {
    if a.kind != b.kind {
        Err(FaultModel::NotAnInteger)
    } else {
        checked(a.kind, a.value + b.value)
    }
}

/// The difference of two integers of one variant.
pub open spec fn difference_model(a: IntegerModel, b: IntegerModel) -> Result<
    IntegerModel,
    FaultModel,
> {
    if a.kind != b.kind {
        Err(FaultModel::NotAnInteger)
    } else {
        checked(a.kind, a.value - b.value)
    }
}

/// The product of two integers of one variant.
pub open spec fn product_model(a: IntegerModel, b: IntegerModel) -> Result<
    IntegerModel,
    FaultModel,
> {
    if a.kind != b.kind {
        Err(FaultModel::NotAnInteger)
    } else {
        checked(a.kind, a.value * b.value)
    }
}

/// Division rounds towards zero; a zero divisor is `DivisionByZero`
/// whatever the variants.
pub open spec fn quotient_model(a: IntegerModel, b: IntegerModel) -> Result<
    IntegerModel,
    FaultModel,
> {
    if b.value == 0 {
        Err(FaultModel::DivisionByZero)
    } else if a.kind != b.kind {
        Err(FaultModel::NotAnInteger)
    } else {
        checked(a.kind, truncated_quotient(a.value, b.value))
    }
}

/// The remainder has the sign of the dividend.
pub open spec fn remainder_model(a: IntegerModel, b: IntegerModel) -> Result<
    IntegerModel,
    FaultModel,
> {
    if b.value == 0 {
        Err(FaultModel::DivisionByZero)
    } else if a.kind != b.kind {
        Err(FaultModel::NotAnInteger)
    } else {
        checked(a.kind, truncated_remainder(a.value, b.value))
    }
}

/// The variant that a negated number of this variant gets: the narrowest
/// signed one that holds it, and the variant itself for zero.
pub open spec fn negation_kind(kind: IntegerType, value: int) -> IntegerType {
    if value == 0 {
        kind
    } else {
        match kind {
            IntegerType::U8 => if value > 0x80 {
                IntegerType::I16
            } else {
                IntegerType::I8
            },
            IntegerType::U16 => if value > 0x8000 {
                IntegerType::I32
            } else {
                IntegerType::I16
            },
            IntegerType::U32 => if value > 0x8000_0000 {
                IntegerType::I64
            } else {
                IntegerType::I32
            },
            IntegerType::U64 => if value > 0x8000_0000_0000_0000 {
                IntegerType::Integer
            } else {
                IntegerType::I64
            },
            IntegerType::I8 => if value == -0x80 {
                IntegerType::I16
            } else {
                IntegerType::I8
            },
            IntegerType::I16 => if value == -0x8000 {
                IntegerType::I32
            } else {
                IntegerType::I16
            },
            IntegerType::I32 => if value == -0x8000_0000 {
                IntegerType::I64
            } else {
                IntegerType::I32
            },
            IntegerType::I64 => if value == -0x8000_0000_0000_0000 {
                IntegerType::Integer
            } else {
                IntegerType::I64
            },
            IntegerType::Natural => IntegerType::Integer,
            IntegerType::Integer => IntegerType::Integer,
        }
    }
}

/// The negation of an integer.
pub open spec fn negation_model(a: IntegerModel) -> IntegerModel {
    IntegerModel { kind: negation_kind(a.kind, a.value), value: -a.value }
}

/// The bitwise and of two numbers of a fixed-width variant.
pub open spec fn bits_and(kind: IntegerType, a: int, b: int) -> int {
    match kind {
        IntegerType::U8 => (((a as u8) & (b as u8)) as u8) as int,
        IntegerType::U16 => (((a as u16) & (b as u16)) as u16) as int,
        IntegerType::U32 => (((a as u32) & (b as u32)) as u32) as int,
        IntegerType::U64 => (((a as u64) & (b as u64)) as u64) as int,
        IntegerType::I8 => (((a as i8) & (b as i8)) as i8) as int,
        IntegerType::I16 => (((a as i16) & (b as i16)) as i16) as int,
        IntegerType::I32 => (((a as i32) & (b as i32)) as i32) as int,
        IntegerType::I64 => (((a as i64) & (b as i64)) as i64) as int,
        _ => 0,
    }
}

/// The bitwise or of two numbers of a fixed-width variant.
pub open spec fn bits_or(kind: IntegerType, a: int, b: int) -> int {
    match kind {
        IntegerType::U8 => (((a as u8) | (b as u8)) as u8) as int,
        IntegerType::U16 => (((a as u16) | (b as u16)) as u16) as int,
        IntegerType::U32 => (((a as u32) | (b as u32)) as u32) as int,
        IntegerType::U64 => (((a as u64) | (b as u64)) as u64) as int,
        IntegerType::I8 => (((a as i8) | (b as i8)) as i8) as int,
        IntegerType::I16 => (((a as i16) | (b as i16)) as i16) as int,
        IntegerType::I32 => (((a as i32) | (b as i32)) as i32) as int,
        IntegerType::I64 => (((a as i64) | (b as i64)) as i64) as int,
        _ => 0,
    }
}

/// The bitwise exclusive or of two numbers of a fixed-width variant.
pub open spec fn bits_xor(kind: IntegerType, a: int, b: int) -> int {
    match kind {
        IntegerType::U8 => (((a as u8) ^ (b as u8)) as u8) as int,
        IntegerType::U16 => (((a as u16) ^ (b as u16)) as u16) as int,
        IntegerType::U32 => (((a as u32) ^ (b as u32)) as u32) as int,
        IntegerType::U64 => (((a as u64) ^ (b as u64)) as u64) as int,
        IntegerType::I8 => (((a as i8) ^ (b as i8)) as i8) as int,
        IntegerType::I16 => (((a as i16) ^ (b as i16)) as i16) as int,
        IntegerType::I32 => (((a as i32) ^ (b as i32)) as i32) as int,
        IntegerType::I64 => (((a as i64) ^ (b as i64)) as i64) as int,
        _ => 0,
    }
}

/// The number shifted left, bits that leave the width being lost.
pub open spec fn bits_left(kind: IntegerType, a: int, b: int) -> int {
    match kind {
        IntegerType::U8 => (((a as u8) << (b as u8)) as u8) as int,
        IntegerType::U16 => (((a as u16) << (b as u16)) as u16) as int,
        IntegerType::U32 => (((a as u32) << (b as u32)) as u32) as int,
        IntegerType::U64 => (((a as u64) << (b as u64)) as u64) as int,
        IntegerType::I8 => (((a as i8) << (b as i8)) as i8) as int,
        IntegerType::I16 => (((a as i16) << (b as i16)) as i16) as int,
        IntegerType::I32 => (((a as i32) << (b as i32)) as i32) as int,
        IntegerType::I64 => (((a as i64) << (b as i64)) as i64) as int,
        _ => 0,
    }
}

/// The number shifted right.
pub open spec fn bits_right(kind: IntegerType, a: int, b: int) -> int {
    match kind {
        IntegerType::U8 => (((a as u8) >> (b as u8)) as u8) as int,
        IntegerType::U16 => (((a as u16) >> (b as u16)) as u16) as int,
        IntegerType::U32 => (((a as u32) >> (b as u32)) as u32) as int,
        IntegerType::U64 => (((a as u64) >> (b as u64)) as u64) as int,
        IntegerType::I8 => (((a as i8) >> (b as i8)) as i8) as int,
        IntegerType::I16 => (((a as i16) >> (b as i16)) as i16) as int,
        IntegerType::I32 => (((a as i32) >> (b as i32)) as i32) as int,
        IntegerType::I64 => (((a as i64) >> (b as i64)) as i64) as int,
        _ => 0,
    }
}

/// The bitwise complement of a number of a fixed-width variant.
pub open spec fn bits_not(kind: IntegerType, a: int) -> int {
    match kind {
        IntegerType::U8 => (!(a as u8)) as int,
        IntegerType::U16 => (!(a as u16)) as int,
        IntegerType::U32 => (!(a as u32)) as int,
        IntegerType::U64 => (!(a as u64)) as int,
        IntegerType::I8 => (!(a as i8)) as int,
        IntegerType::I16 => (!(a as i16)) as int,
        IntegerType::I32 => (!(a as i32)) as int,
        IntegerType::I64 => (!(a as i64)) as int,
        _ => 0,
    }
}

/// The bitwise operations `&`, `|` and `^` are defined on two numbers of
/// one fixed-width variant.
pub open spec fn bitwise_model(a: IntegerModel, b: IntegerModel, value: int) -> Result<
    IntegerModel,
    FaultModel,
> {
    if a.kind != b.kind {
        Err(FaultModel::NotAnInteger)
    } else if !is_fixed(a.kind) {
        Err(FaultModel::TypeMismatch)
    } else {
        Ok(IntegerModel { kind: a.kind, value })
    }
}

/// A shift is defined on two numbers of one fixed-width variant, by an
/// amount from zero up to the width; another amount is `Overflow`.
pub open spec fn shift_model(a: IntegerModel, b: IntegerModel, value: int) -> Result<
    IntegerModel,
    FaultModel,
> {
    if a.kind != b.kind {
        Err(FaultModel::NotAnInteger)
    } else if !is_fixed(a.kind) {
        Err(FaultModel::TypeMismatch)
    } else if b.value < 0 || b.value >= width(a.kind) {
        Err(FaultModel::Overflow)
    } else {
        Ok(IntegerModel { kind: a.kind, value })
    }
}

/// The complement is defined on the fixed-width variants and, as
/// `-x - 1`, on the arbitrary-precision signed one.
pub open spec fn complement_model(a: IntegerModel) -> Result<IntegerModel, FaultModel> {
    match a.kind {
        IntegerType::Natural => Err(FaultModel::TypeMismatch),
        IntegerType::Integer => Ok(IntegerModel { kind: a.kind, value: -a.value - 1 }),
        _ => Ok(IntegerModel { kind: a.kind, value: bits_not(a.kind, a.value) }),
    }
}

/// A power takes a `U32` exponent for a base of a fixed-width variant and
/// a `U64` exponent for an arbitrary-precision base; another exponent is
/// `TypeMismatch`.
pub open spec fn power_model(a: IntegerModel, b: IntegerModel) -> Result<IntegerModel, FaultModel> {
    if is_fixed(a.kind) && b.kind != IntegerType::U32 {
        Err(FaultModel::TypeMismatch)
    } else if !is_fixed(a.kind) && b.kind != IntegerType::U64 {
        Err(FaultModel::TypeMismatch)
    } else {
        checked(a.kind, pow(a.value, b.value as nat))
    }
}

/// How two values stand to each other.
#[derive(Clone, Copy, Debug, PartialEq, Eq, Structural)]
pub enum Relation {
    Less,
    Equal,
    Greater,
    Unordered,
}

/// How two numbers stand to each other.
pub open spec fn relation_of(a: int, b: int) -> Relation {
    if a < b {
        Relation::Less
    } else if a == b {
        Relation::Equal
    } else {
        Relation::Greater
    }
}

/// Integers of one variant are ordered by their numbers; integers of two
/// variants are unordered.
pub open spec fn relation_model(a: IntegerModel, b: IntegerModel) -> Relation {
    if a.kind != b.kind {
        Relation::Unordered
    } else {
        relation_of(a.value, b.value)
    }
}

impl View for Integer {
    type V = IntegerModel;

    open spec fn view(&self) -> IntegerModel {
        match *self {
            Integer::U8(v) => IntegerModel { kind: IntegerType::U8, value: v as int },
            Integer::U16(v) => IntegerModel { kind: IntegerType::U16, value: v as int },
            Integer::U32(v) => IntegerModel { kind: IntegerType::U32, value: v as int },
            Integer::U64(v) => IntegerModel { kind: IntegerType::U64, value: v as int },
            Integer::I8(v) => IntegerModel { kind: IntegerType::I8, value: v as int },
            Integer::I16(v) => IntegerModel { kind: IntegerType::I16, value: v as int },
            Integer::I32(v) => IntegerModel { kind: IntegerType::I32, value: v as int },
            Integer::I64(v) => IntegerModel { kind: IntegerType::I64, value: v as int },
            Integer::Natural(v) => IntegerModel { kind: IntegerType::Natural, value: v@ as int },
            Integer::Integer(v) => IntegerModel { kind: IntegerType::Integer, value: v@ },
        }
    }
}

impl Clone for Integer {
    fn clone(&self) -> (r: Self)
        ensures
            r@ == self@,
    {
        match self {
            Integer::U8(v) => Integer::U8(*v),
            Integer::U16(v) => Integer::U16(*v),
            Integer::U32(v) => Integer::U32(*v),
            Integer::U64(v) => Integer::U64(*v),
            Integer::I8(v) => Integer::I8(*v),
            Integer::I16(v) => Integer::I16(*v),
            Integer::I32(v) => Integer::I32(*v),
            Integer::I64(v) => Integer::I64(*v),
            Integer::Natural(v) => Integer::Natural(v.clone()),
            Integer::Integer(v) => Integer::Integer(v.clone()),
        }
    }
}

/// Every integer holds a number that its variant can hold.
pub proof fn law_integer_holds(i: Integer)
    ensures
        holds(i@.kind, i@.value),
{
}

/// The integer of a fixed-width variant with this value.
fn from_wide(kind: IntegerType, value: i128) -> (r: Result<Integer, Fault>)
    requires
        is_fixed(kind),
    ensures
        outcome(r) == checked(kind, value as int),
{
    match kind {
        IntegerType::U8 => if value < 0 {
            Err(Fault::Underflow)
        } else if value > 0xff {
            Err(Fault::Overflow)
        } else {
            Ok(Integer::U8(value as u8))
        },
        IntegerType::U16 => if value < 0 {
            Err(Fault::Underflow)
        } else if value > 0xffff {
            Err(Fault::Overflow)
        } else {
            Ok(Integer::U16(value as u16))
        },
        IntegerType::U32 => if value < 0 {
            Err(Fault::Underflow)
        } else if value > 0xffff_ffff {
            Err(Fault::Overflow)
        } else {
            Ok(Integer::U32(value as u32))
        },
        IntegerType::U64 => if value < 0 {
            Err(Fault::Underflow)
        } else if value > 0xffff_ffff_ffff_ffff {
            Err(Fault::Overflow)
        } else {
            Ok(Integer::U64(value as u64))
        },
        IntegerType::I8 => if value < -0x80 {
            Err(Fault::Underflow)
        } else if value > 0x7f {
            Err(Fault::Overflow)
        } else {
            Ok(Integer::I8(value as i8))
        },
        IntegerType::I16 => if value < -0x8000 {
            Err(Fault::Underflow)
        } else if value > 0x7fff {
            Err(Fault::Overflow)
        } else {
            Ok(Integer::I16(value as i16))
        },
        IntegerType::I32 => if value < -0x8000_0000 {
            Err(Fault::Underflow)
        } else if value > 0x7fff_ffff {
            Err(Fault::Overflow)
        } else {
            Ok(Integer::I32(value as i32))
        },
        _ => if value < -0x8000_0000_0000_0000 {
            Err(Fault::Underflow)
        } else if value > 0x7fff_ffff_ffff_ffff {
            Err(Fault::Overflow)
        } else {
            Ok(Integer::I64(value as i64))
        },
    }
}

impl Integer {
    /// The variant.
    pub fn kind(&self) -> (r: IntegerType)
        ensures
            r == self@.kind,
    {
        match self {
            Integer::U8(_) => IntegerType::U8,
            Integer::U16(_) => IntegerType::U16,
            Integer::U32(_) => IntegerType::U32,
            Integer::U64(_) => IntegerType::U64,
            Integer::I8(_) => IntegerType::I8,
            Integer::I16(_) => IntegerType::I16,
            Integer::I32(_) => IntegerType::I32,
            Integer::I64(_) => IntegerType::I64,
            Integer::Natural(_) => IntegerType::Natural,
            Integer::Integer(_) => IntegerType::Integer,
        }
    }

    /// The number of a fixed-width variant.
    fn to_wide(&self) -> (r: Option<i128>)
        ensures
            match r {
                Some(v) => is_fixed(self@.kind) && v as int == self@.value,
                None => !is_fixed(self@.kind),
            },
    {
        match self {
            Integer::U8(v) => Some(*v as i128),
            Integer::U16(v) => Some(*v as i128),
            Integer::U32(v) => Some(*v as i128),
            Integer::U64(v) => Some(*v as i128),
            Integer::I8(v) => Some(*v as i128),
            Integer::I16(v) => Some(*v as i128),
            Integer::I32(v) => Some(*v as i128),
            Integer::I64(v) => Some(*v as i128),
            Integer::Natural(_) => None,
            Integer::Integer(_) => None,
        }
    }

    /// Whether the number is zero.
    pub fn is_zero(&self) -> (r: bool)
        ensures
            r == (self@.value == 0),
    {
        match self {
            Integer::U8(value) => *value == 0,
            Integer::U16(value) => *value == 0,
            Integer::U32(value) => *value == 0,
            Integer::U64(value) => *value == 0,
            Integer::I8(value) => *value == 0,
            Integer::I16(value) => *value == 0,
            Integer::I32(value) => *value == 0,
            Integer::I64(value) => *value == 0,
            Integer::Natural(value) => value.is_zero(),
            Integer::Integer(value) => value.is_zero(),
        }
    }

    /// Whether the number is below zero.
    pub fn is_negative(&self) -> (r: bool)
        ensures
            r == (self@.value < 0),
    {
        match self {
            Integer::U8(_) => false,
            Integer::U16(_) => false,
            Integer::U32(_) => false,
            Integer::U64(_) => false,
            Integer::I8(value) => *value < 0,
            Integer::I16(value) => *value < 0,
            Integer::I32(value) => *value < 0,
            Integer::I64(value) => *value < 0,
            Integer::Natural(_) => false,
            Integer::Integer(value) => value.is_negative(),
        }
    }

    /// The number of a fixed-width variant as a `usize`, where it is one.
    /// An arbitrary-precision variant gives `None`, whatever it holds.
    pub fn to_usize(&self) -> (r: Option<usize>)
        ensures
            match r {
                Some(v) => is_fixed(self@.kind) && self@.value == v as int,
                None => !is_fixed(self@.kind) || self@.value < 0 || self@.value > usize::MAX,
            },
    {
        match self.to_wide() {
            Some(v) => if v < 0 || v > usize::MAX as i128 {
                None
            } else {
                Some(v as usize)
            },
            None => None,
        }
    }

    /// The number as a size or an index, where it is a `usize`: of any
    /// variant, the arbitrary-precision ones too.
    pub fn to_index(&self) -> (r: Option<usize>)
        ensures
            match r {
                Some(v) => self@.value == v as int,
                None => self@.value < 0 || self@.value > usize::MAX,
            },
    {
        let wide: Option<i128> = match self {
            Integer::Natural(value) => match value.to_u64() {
                Some(v) => Some(v as i128),
                None => None,
            },
            Integer::Integer(value) => value.to_wide(),
            _ => self.to_wide(),
        };
        match wide {
            Some(v) => if v < 0 || v > usize::MAX as i128 {
                None
            } else {
                Some(v as usize)
            },
            None => None,
        }
    }

    /// The sum, in the variant of the operands.
    pub fn add(&self, rhs: &Integer) -> (r: Result<Integer, Fault>)
        ensures
            outcome(r) == sum_model(self@, rhs@),
    {
        match (self, rhs) {
            (Integer::Natural(a), Integer::Natural(b)) => Ok(Integer::Natural(a.sum(b))),
            (Integer::Integer(a), Integer::Integer(b)) => Ok(Integer::Integer(a.sum(b))),
            _ => match (self.to_wide(), rhs.to_wide()) {
                (Some(a), Some(b)) => if self.kind() == rhs.kind() {
                    from_wide(self.kind(), a + b)
                } else {
                    Err(Fault::NotAnInteger)
                },
                _ => Err(Fault::NotAnInteger),
            },
        }
    }

    /// The difference, in the variant of the operands.
    pub fn sub(&self, rhs: &Integer) -> (r: Result<Integer, Fault>)
        ensures
            outcome(r) == difference_model(self@, rhs@),
    {
        match (self, rhs) {
            (Integer::Natural(a), Integer::Natural(b)) => match a.difference(b) {
                Some(d) => Ok(Integer::Natural(d)),
                None => Err(Fault::Underflow),
            },
            (Integer::Integer(a), Integer::Integer(b)) => Ok(Integer::Integer(a.difference(b))),
            _ => match (self.to_wide(), rhs.to_wide()) {
                (Some(a), Some(b)) => if self.kind() == rhs.kind() {
                    from_wide(self.kind(), a - b)
                } else {
                    Err(Fault::NotAnInteger)
                },
                _ => Err(Fault::NotAnInteger),
            },
        }
    }

    /// The product, in the variant of the operands.
    pub fn mul(&self, rhs: &Integer) -> (r: Result<Integer, Fault>)
        ensures
            outcome(r) == product_model(self@, rhs@),
    {
        match (self, rhs) {
            (Integer::Natural(a), Integer::Natural(b)) => {
                let p = a.product(b);
                assert(p@ as int == (a@ as int) * (b@ as int)) by (nonlinear_arith)
                    requires
                        p@ == a@ * b@,
                ;
                Ok(Integer::Natural(p))
            },
            (Integer::Integer(a), Integer::Integer(b)) => Ok(Integer::Integer(a.product(b))),
            _ => match (self.to_wide(), rhs.to_wide()) {
                (Some(a), Some(b)) => if self.kind() == rhs.kind() {
                    assert(-0x8000_0000_0000_0000 <= a <= 0xffff_ffff_ffff_ffff);
                    assert(-0x8000_0000_0000_0000 <= b <= 0xffff_ffff_ffff_ffff);
                    match a.checked_mul(b) {
                        Some(p) => from_wide(self.kind(), p),
                        None => {
                            assert(a * b > i128::MAX || a * b < i128::MIN);
                            assert(a * b >= 0) by (nonlinear_arith)
                                requires
                                    (a >= 0 && b >= 0) || (a * b > i128::MAX || a * b
                                        < i128::MIN),
                                    -0x8000_0000_0000_0000 <= a <= 0xffff_ffff_ffff_ffff,
                                    -0x8000_0000_0000_0000 <= b <= 0xffff_ffff_ffff_ffff,
                            ;
                            Err(Fault::Overflow)
                        },
                    }
                } else {
                    Err(Fault::NotAnInteger)
                },
                _ => Err(Fault::NotAnInteger),
            },
        }
    }

    /// The quotient rounded towards zero, in the variant of the operands.
    pub fn div(&self, rhs: &Integer) -> (r: Result<Integer, Fault>)
        ensures
            outcome(r) == quotient_model(self@, rhs@),
    {
        if rhs.is_zero() {
            return Err(Fault::DivisionByZero);
        }
        match (self, rhs) {
            (Integer::Natural(a), Integer::Natural(b)) => match a.quotient(b) {
                Some(q) => Ok(Integer::Natural(q)),
                None => Err(Fault::DivisionByZero),
            },
            (Integer::Integer(a), Integer::Integer(b)) => match a.quotient(b) {
                Some(q) => Ok(Integer::Integer(q)),
                None => Err(Fault::DivisionByZero),
            },
            _ => match (self.to_wide(), rhs.to_wide()) {
                (Some(a), Some(b)) => if self.kind() == rhs.kind() {
                    let q = wide_quotient(a, b);
                    from_wide(self.kind(), q)
                } else {
                    Err(Fault::NotAnInteger)
                },
                _ => Err(Fault::NotAnInteger),
            },
        }
    }

    /// The remainder with the sign of the dividend, in the variant of the operands.
    pub fn rem(&self, rhs: &Integer) -> (r: Result<Integer, Fault>)
        ensures
            outcome(r) == remainder_model(self@, rhs@),
    {
        if rhs.is_zero() {
            return Err(Fault::DivisionByZero);
        }
        match (self, rhs) {
            (Integer::Natural(a), Integer::Natural(b)) => match a.remainder(b) {
                Some(m) => Ok(Integer::Natural(m)),
                None => Err(Fault::DivisionByZero),
            },
            (Integer::Integer(a), Integer::Integer(b)) => match a.remainder(b) {
                Some(m) => Ok(Integer::Integer(m)),
                None => Err(Fault::DivisionByZero),
            },
            _ => match (self.to_wide(), rhs.to_wide()) {
                (Some(a), Some(b)) => if self.kind() == rhs.kind() {
                    let m = wide_remainder(a, b);
                    from_wide(self.kind(), m)
                } else {
                    Err(Fault::NotAnInteger)
                },
                _ => Err(Fault::NotAnInteger),
            },
        }
    }

    /// The bitwise and of two integers of one fixed-width variant.
    pub fn bitand(&self, rhs: &Integer) -> (r: Result<Integer, Fault>)
        ensures
            outcome(r) == bitwise_model(self@, rhs@, bits_and(self@.kind, self@.value, rhs@.value)),
    {
        match (self, rhs) {
            (Integer::U8(a), Integer::U8(b)) => Ok(Integer::U8(*a & *b)),
            (Integer::U16(a), Integer::U16(b)) => Ok(Integer::U16(*a & *b)),
            (Integer::U32(a), Integer::U32(b)) => Ok(Integer::U32(*a & *b)),
            (Integer::U64(a), Integer::U64(b)) => Ok(Integer::U64(*a & *b)),
            (Integer::I8(a), Integer::I8(b)) => Ok(Integer::I8(*a & *b)),
            (Integer::I16(a), Integer::I16(b)) => Ok(Integer::I16(*a & *b)),
            (Integer::I32(a), Integer::I32(b)) => Ok(Integer::I32(*a & *b)),
            (Integer::I64(a), Integer::I64(b)) => Ok(Integer::I64(*a & *b)),
            (Integer::Natural(_), Integer::Natural(_)) => Err(Fault::TypeMismatch),
            (Integer::Integer(_), Integer::Integer(_)) => Err(Fault::TypeMismatch),
            _ => Err(Fault::NotAnInteger),
        }
    }

    /// The bitwise or of two integers of one fixed-width variant.
    pub fn bitor(&self, rhs: &Integer) -> (r: Result<Integer, Fault>)
        ensures
            outcome(r) == bitwise_model(self@, rhs@, bits_or(self@.kind, self@.value, rhs@.value)),
    {
        match (self, rhs) {
            (Integer::U8(a), Integer::U8(b)) => Ok(Integer::U8(*a | *b)),
            (Integer::U16(a), Integer::U16(b)) => Ok(Integer::U16(*a | *b)),
            (Integer::U32(a), Integer::U32(b)) => Ok(Integer::U32(*a | *b)),
            (Integer::U64(a), Integer::U64(b)) => Ok(Integer::U64(*a | *b)),
            (Integer::I8(a), Integer::I8(b)) => Ok(Integer::I8(*a | *b)),
            (Integer::I16(a), Integer::I16(b)) => Ok(Integer::I16(*a | *b)),
            (Integer::I32(a), Integer::I32(b)) => Ok(Integer::I32(*a | *b)),
            (Integer::I64(a), Integer::I64(b)) => Ok(Integer::I64(*a | *b)),
            (Integer::Natural(_), Integer::Natural(_)) => Err(Fault::TypeMismatch),
            (Integer::Integer(_), Integer::Integer(_)) => Err(Fault::TypeMismatch),
            _ => Err(Fault::NotAnInteger),
        }
    }

    /// The bitwise exclusive or of two integers of one fixed-width variant.
    pub fn bitxor(&self, rhs: &Integer) -> (r: Result<Integer, Fault>)
        ensures
            outcome(r) == bitwise_model(self@, rhs@, bits_xor(self@.kind, self@.value, rhs@.value)),
    {
        match (self, rhs) {
            (Integer::U8(a), Integer::U8(b)) => Ok(Integer::U8(*a ^ *b)),
            (Integer::U16(a), Integer::U16(b)) => Ok(Integer::U16(*a ^ *b)),
            (Integer::U32(a), Integer::U32(b)) => Ok(Integer::U32(*a ^ *b)),
            (Integer::U64(a), Integer::U64(b)) => Ok(Integer::U64(*a ^ *b)),
            (Integer::I8(a), Integer::I8(b)) => Ok(Integer::I8(*a ^ *b)),
            (Integer::I16(a), Integer::I16(b)) => Ok(Integer::I16(*a ^ *b)),
            (Integer::I32(a), Integer::I32(b)) => Ok(Integer::I32(*a ^ *b)),
            (Integer::I64(a), Integer::I64(b)) => Ok(Integer::I64(*a ^ *b)),
            (Integer::Natural(_), Integer::Natural(_)) => Err(Fault::TypeMismatch),
            (Integer::Integer(_), Integer::Integer(_)) => Err(Fault::TypeMismatch),
            _ => Err(Fault::NotAnInteger),
        }
    }

    /// The integer shifted left by an amount below its width.
    pub fn shl(&self, rhs: &Integer) -> (r: Result<Integer, Fault>)
        ensures
            outcome(r) == shift_model(self@, rhs@, bits_left(self@.kind, self@.value, rhs@.value)),
    {
        match (self, rhs) {
            (Integer::U8(a), Integer::U8(b)) => if *b < 8 {
                Ok(Integer::U8(*a << *b))
            } else {
                Err(Fault::Overflow)
            },
            (Integer::U16(a), Integer::U16(b)) => if *b < 16 {
                Ok(Integer::U16(*a << *b))
            } else {
                Err(Fault::Overflow)
            },
            (Integer::U32(a), Integer::U32(b)) => if *b < 32 {
                Ok(Integer::U32(*a << *b))
            } else {
                Err(Fault::Overflow)
            },
            (Integer::U64(a), Integer::U64(b)) => if *b < 64 {
                Ok(Integer::U64(*a << *b))
            } else {
                Err(Fault::Overflow)
            },
            (Integer::I8(a), Integer::I8(b)) => if 0 <= *b && *b < 8 {
                Ok(Integer::I8(*a << *b))
            } else {
                Err(Fault::Overflow)
            },
            (Integer::I16(a), Integer::I16(b)) => if 0 <= *b && *b < 16 {
                Ok(Integer::I16(*a << *b))
            } else {
                Err(Fault::Overflow)
            },
            (Integer::I32(a), Integer::I32(b)) => if 0 <= *b && *b < 32 {
                Ok(Integer::I32(*a << *b))
            } else {
                Err(Fault::Overflow)
            },
            (Integer::I64(a), Integer::I64(b)) => if 0 <= *b && *b < 64 {
                Ok(Integer::I64(*a << *b))
            } else {
                Err(Fault::Overflow)
            },
            (Integer::Natural(_), Integer::Natural(_)) => Err(Fault::TypeMismatch),
            (Integer::Integer(_), Integer::Integer(_)) => Err(Fault::TypeMismatch),
            _ => Err(Fault::NotAnInteger),
        }
    }

    /// The integer shifted right by an amount below its width.
    pub fn shr(&self, rhs: &Integer) -> (r: Result<Integer, Fault>)
        ensures
            outcome(r) == shift_model(self@, rhs@, bits_right(self@.kind, self@.value, rhs@.value)),
    {
        match (self, rhs) {
            (Integer::U8(a), Integer::U8(b)) => if *b < 8 {
                Ok(Integer::U8(*a >> *b))
            } else {
                Err(Fault::Overflow)
            },
            (Integer::U16(a), Integer::U16(b)) => if *b < 16 {
                Ok(Integer::U16(*a >> *b))
            } else {
                Err(Fault::Overflow)
            },
            (Integer::U32(a), Integer::U32(b)) => if *b < 32 {
                Ok(Integer::U32(*a >> *b))
            } else {
                Err(Fault::Overflow)
            },
            (Integer::U64(a), Integer::U64(b)) => if *b < 64 {
                Ok(Integer::U64(*a >> *b))
            } else {
                Err(Fault::Overflow)
            },
            (Integer::I8(a), Integer::I8(b)) => if 0 <= *b && *b < 8 {
                Ok(Integer::I8(*a >> *b))
            } else {
                Err(Fault::Overflow)
            },
            (Integer::I16(a), Integer::I16(b)) => if 0 <= *b && *b < 16 {
                Ok(Integer::I16(*a >> *b))
            } else {
                Err(Fault::Overflow)
            },
            (Integer::I32(a), Integer::I32(b)) => if 0 <= *b && *b < 32 {
                Ok(Integer::I32(*a >> *b))
            } else {
                Err(Fault::Overflow)
            },
            (Integer::I64(a), Integer::I64(b)) => if 0 <= *b && *b < 64 {
                Ok(Integer::I64(*a >> *b))
            } else {
                Err(Fault::Overflow)
            },
            (Integer::Natural(_), Integer::Natural(_)) => Err(Fault::TypeMismatch),
            (Integer::Integer(_), Integer::Integer(_)) => Err(Fault::TypeMismatch),
            _ => Err(Fault::NotAnInteger),
        }
    }

    /// The bitwise complement.
    pub fn not(&self) -> (r: Result<Integer, Fault>)
        ensures
            outcome(r) == complement_model(self@),
    {
        match self {
            Integer::U8(a) => Ok(Integer::U8(!*a)),
            Integer::U16(a) => Ok(Integer::U16(!*a)),
            Integer::U32(a) => Ok(Integer::U32(!*a)),
            Integer::U64(a) => Ok(Integer::U64(!*a)),
            Integer::I8(a) => Ok(Integer::I8(!*a)),
            Integer::I16(a) => Ok(Integer::I16(!*a)),
            Integer::I32(a) => Ok(Integer::I32(!*a)),
            Integer::I64(a) => Ok(Integer::I64(!*a)),
            Integer::Natural(_) => Err(Fault::TypeMismatch),
            Integer::Integer(a) => Ok(Integer::Integer(a.complement())),
        }
    }

    /// How the two integers stand to each other.
    pub fn relation(&self, other: &Integer) -> (r: Relation)
        ensures
            r == relation_model(self@, other@),
    {
        match (self, other) {
            (Integer::Natural(a), Integer::Natural(b)) => if a.less_than(b) {
                Relation::Less
            } else if a.equals(b) {
                Relation::Equal
            } else {
                Relation::Greater
            },
            (Integer::Integer(a), Integer::Integer(b)) => if a.less_than(b) {
                Relation::Less
            } else if a.equals(b) {
                Relation::Equal
            } else {
                Relation::Greater
            },
            _ => match (self.to_wide(), other.to_wide()) {
                (Some(a), Some(b)) => if self.kind() == other.kind() {
                    if a < b {
                        Relation::Less
                    } else if a == b {
                        Relation::Equal
                    } else {
                        Relation::Greater
                    }
                } else {
                    Relation::Unordered
                },
                _ => Relation::Unordered,
            },
        }
    }

    /// The negated number, in the narrowest signed variant that holds it.
    pub fn neg(&self) -> (r: Integer)
        ensures
            r@ == negation_model(self@),
    {
        match self {
            Integer::U8(value) => {
                if *value == 0 {
                    Integer::U8(0)
                } else if *value > 128 {
                    Integer::I16(-(*value as i16))
                } else {
                    Integer::I8((-(*value as i16)) as i8)
                }
            },
            Integer::U16(value) => {
                if *value == 0 {
                    Integer::U16(0)
                } else if *value > 32768 {
                    Integer::I32(-(*value as i32))
                } else {
                    Integer::I16((-(*value as i32)) as i16)
                }
            },
            Integer::U32(value) => {
                if *value == 0 {
                    Integer::U32(0)
                } else if *value > 2147483648 {
                    Integer::I64(-(*value as i64))
                } else {
                    Integer::I32((-(*value as i64)) as i32)
                }
            },
            Integer::U64(value) => {
                if *value == 0 {
                    Integer::U64(0)
                } else if *value > 9223372036854775808 {
                    Integer::Integer(BigInteger::new(true, Natural::from_u64(*value)))
                } else {
                    Integer::I64((-(*value as i128)) as i64)
                }
            },
            Integer::I8(value) => {
                if *value == i8::MIN {
                    Integer::I16(128)
                } else {
                    Integer::I8(-*value)
                }
            },
            Integer::I16(value) => {
                if *value == i16::MIN {
                    Integer::I32(32768)
                } else {
                    Integer::I16(-*value)
                }
            },
            Integer::I32(value) => {
                if *value == i32::MIN {
                    Integer::I64(2147483648)
                } else {
                    Integer::I32(-*value)
                }
            },
            Integer::I64(value) => {
                if *value == i64::MIN {
                    Integer::Integer(BigInteger::from_u64(9223372036854775808))
                } else {
                    Integer::I64(-*value)
                }
            },
            Integer::Natural(value) => {
                if value.is_zero() {
                    Integer::Natural(Natural::zero())
                } else {
                    Integer::Integer(BigInteger::new(true, value.clone()))
                }
            },
            Integer::Integer(value) => Integer::Integer(value.negated()),
        }
    }
}

/// The quotient of two numbers of a fixed-width variant, rounded towards
/// zero.
fn wide_quotient(a: i128, b: i128) -> (q: i128)
    requires
        b != 0,
        -0x8000_0000_0000_0000 <= a <= 0xffff_ffff_ffff_ffff,
        -0x8000_0000_0000_0000 <= b <= 0xffff_ffff_ffff_ffff,
    ensures
        q as int == truncated_quotient(a as int, b as int),
{
    let ma: u128 = if a < 0 {
        (-a) as u128
    } else {
        a as u128
    };
    let mb: u128 = if b < 0 {
        (-b) as u128
    } else {
        b as u128
    };
    let q: u128 = ma / mb;
    assert(q <= ma) by (nonlinear_arith)
        requires
            q == ma / mb,
            mb > 0,
    ;
    if (a < 0) != (b < 0) {
        -(q as i128)
    } else {
        q as i128
    }
}

/// The remainder that goes with `wide_quotient`.
fn wide_remainder(a: i128, b: i128) -> (m: i128)
    requires
        b != 0,
        -0x8000_0000_0000_0000 <= a <= 0xffff_ffff_ffff_ffff,
        -0x8000_0000_0000_0000 <= b <= 0xffff_ffff_ffff_ffff,
    ensures
        m as int == truncated_remainder(a as int, b as int),
{
    let ma: u128 = if a < 0 {
        (-a) as u128
    } else {
        a as u128
    };
    let mb: u128 = if b < 0 {
        (-b) as u128
    } else {
        b as u128
    };
    let m: u128 = ma % mb;
    assert(m < mb) by (nonlinear_arith)
        requires
            m == ma % mb,
            mb > 0,
    ;
    if a < 0 {
        -(m as i128)
    } else {
        m as i128
    }
}

/// The bound beyond which no fixed-width variant holds a number.
pub open spec fn wide_limit() -> int {
    0x1_0000_0000_0000_0000
}

/// The magnitude of a power is the power of the magnitude.
pub proof fn lemma_power_magnitude(base: int, exponent: nat)
    ensures
        magnitude(pow(base, exponent)) == pow(magnitude(base) as int, exponent),
{
    if base < 0 {
        lemma_power_of_negation(-base, exponent);
        lemma_power_not_negative(-base, exponent);
    } else {
        lemma_power_not_negative(base, exponent);
    }
}

/// Where a power of a base other than zero has left the bound, every later
/// power has left it too, on the side that the base's sign and the
/// exponent's parity give.
proof fn lemma_power_leaves(base: int, reached: nat, exponent: nat)
    requires
        base != 0,
        reached <= exponent,
        magnitude(pow(base, reached)) > wide_limit(),
    ensures
        base < 0 && exponent % 2 == 1 ==> pow(base, exponent) < -wide_limit(),
        !(base < 0 && exponent % 2 == 1) ==> pow(base, exponent) > wide_limit(),
{
    lemma_power_magnitude(base, reached);
    lemma_power_magnitude(base, exponent);
    vstd::arithmetic::power::lemma_pow_increases(magnitude(base), reached, exponent);
    if base < 0 {
        lemma_power_of_negation(-base, exponent);
        lemma_power_not_negative(-base, exponent);
    } else {
        lemma_power_not_negative(base, exponent);
    }
}

/// The power of a number of a fixed-width variant, where it lies within
/// the bound; else the side on which it left the bound.
fn wide_power(base: i128, exponent: u32) -> (r: Result<i128, Fault>)
    requires
        -0x8000_0000_0000_0000 <= base <= 0xffff_ffff_ffff_ffff,
    ensures
        match r {
            Ok(p) => p as int == pow(base as int, exponent as nat) && -wide_limit() <= p
                <= wide_limit(),
            Err(f) => (f == Fault::Overflow && pow(base as int, exponent as nat) > wide_limit())
                || (f == Fault::Underflow && pow(base as int, exponent as nat)
                < -wide_limit()),
        },
{
    proof {
        reveal(pow);
    }
    if exponent == 0 {
        return Ok(1);
    }
    if base == 0 {
        proof {
            vstd::arithmetic::power::lemma0_pow(exponent as nat);
        }
        return Ok(0);
    }
    if base == 1 {
        proof {
            vstd::arithmetic::power::lemma1_pow(exponent as nat);
        }
        return Ok(1);
    }
    if base == -1 {
        proof {
            vstd::arithmetic::power::lemma1_pow(exponent as nat);
            lemma_power_of_negation(1, exponent as nat);
        }
        return Ok(if exponent % 2 == 1 {
            -1
        } else {
            1
        });
    }
    let down = base < 0 && exponent % 2 == 1;
    let mut acc: i128 = 1;
    let mut i: u32 = 0;
    while i < exponent
        invariant
            i <= exponent,
            base != 0,
            -0x8000_0000_0000_0000 <= base <= 0xffff_ffff_ffff_ffff,
            acc as int == pow(base as int, i as nat),
            -wide_limit() <= acc <= wide_limit(),
            down == (base < 0 && exponent % 2 == 1),
        decreases exponent - i,
    {
        proof {
            reveal(pow);
            assert(pow(base as int, (i + 1) as nat) == base * pow(base as int, i as nat));
        }
        let next = acc.checked_mul(base);
        let fits = match next {
            Some(n) => -0x1_0000_0000_0000_0000 <= n && n <= 0x1_0000_0000_0000_0000,
            None => false,
        };
        if !fits {
            proof {
                assert(acc * base == base * acc) by (nonlinear_arith);
                assert(magnitude(pow(base as int, (i + 1) as nat)) > wide_limit());
                lemma_power_leaves(base as int, (i + 1) as nat, exponent as nat);
            }
            if down {
                return Err(Fault::Underflow);
            } else {
                return Err(Fault::Overflow);
            }
        }
        proof {
            assert(acc * base == base * acc) by (nonlinear_arith);
        }
        acc = next.unwrap();
        i = i + 1;
    }
    Ok(acc)
}

impl Integer {
    /// The power, in the variant of the base.
    pub fn pow(&self, rhs: &Integer) -> (r: Result<Integer, Fault>)
        ensures
            outcome(r) == power_model(self@, rhs@),
    {
        match (self, rhs) {
            (Integer::Natural(a), Integer::U64(e)) => {
                let p = a.power(*e);
                proof {
                    lemma_power_not_negative(a@ as int, *e as nat);
                }
                Ok(Integer::Natural(p))
            },
            (Integer::Integer(a), Integer::U64(e)) => Ok(Integer::Integer(a.power(*e))),
            (_, Integer::U32(e)) => match self.to_wide() {
                Some(a) => match wide_power(a, *e) {
                    Ok(p) => from_wide(self.kind(), p),
                    Err(f) => Err(f),
                },
                None => Err(Fault::TypeMismatch),
            },
            _ => Err(Fault::TypeMismatch),
        }
    }
}

impl Integer {
    /// The number as an `i128`, where it lies between the least `i64` and
    /// the greatest `u64`.
    pub fn to_integral(&self) -> (r: Option<i128>)
        ensures
            match r {
                Some(v) => v as int == self@.value && i64::MIN <= v <= u64::MAX,
                None => self@.value < i64::MIN || self@.value > u64::MAX,
            },
    {
        match self {
            Integer::Natural(value) => match value.to_u64() {
                Some(v) => Some(v as i128),
                None => None,
            },
            Integer::Integer(value) => value.to_wide(),
            _ => self.to_wide(),
        }
    }

    /// The number as an arbitrary-precision integer.
    pub fn to_big(&self) -> (r: BigInteger)
        ensures
            r@ == self@.value,
    {
        match self {
            Integer::Natural(value) => BigInteger::from_natural(value.clone()),
            Integer::Integer(value) => value.clone(),
            _ => match self.to_wide() {
                Some(v) => if v < 0 {
                    BigInteger::from_i64(v as i64)
                } else {
                    BigInteger::from_u64(v as u64)
                },
                None => BigInteger::zero(),
            },
        }
    }

    /// The number in a variant; `Underflow` or `Overflow` where the
    /// variant does not hold it.
    pub fn from_big(kind: IntegerType, value: BigInteger) -> (r: Result<Integer, Fault>)
        ensures
            outcome(r) == checked(kind, value@),
    {
        match kind {
            IntegerType::Integer => Ok(Integer::Integer(value)),
            IntegerType::Natural => match value.to_natural() {
                Some(n) => Ok(Integer::Natural(n)),
                None => Err(Fault::Underflow),
            },
            _ => match value.to_wide() {
                Some(v) => from_wide(kind, v),
                None => if value.is_negative() {
                    Err(Fault::Underflow)
                } else {
                    Err(Fault::Overflow)
                },
            },
        }
    }
}

/// For two integers of one variant and a divisor other than zero, the
/// remainder exists, and where the quotient exists, quotient times
/// divisor plus remainder is the dividend. In the arbitrary-precision
/// variants the quotient always exists.
pub proof fn law_division_rebuilds(a: IntegerModel, b: IntegerModel)
    requires
        a.kind == b.kind,
        holds(a.kind, a.value),
        holds(b.kind, b.value),
        b.value != 0,
    ensures
        remainder_model(a, b) is Ok,
        !is_fixed(a.kind) ==> quotient_model(a, b) is Ok,
        quotient_model(a, b) is Ok ==> quotient_model(a, b)->Ok_0.value * b.value
            + remainder_model(a, b)->Ok_0.value == a.value,
{
    crate::value::signed::lemma_truncated_division(a.value, b.value);
    let q = truncated_quotient(a.value, b.value);
    let m = truncated_remainder(a.value, b.value);
    let ma = magnitude(a.value) as int;
    let mb = magnitude(b.value) as int;
    assert(0 <= ma / mb <= ma && 0 <= ma % mb < mb) by (nonlinear_arith)
        requires
            ma >= 0,
            mb > 0,
    ;
}

/// Division and remainder by zero are `DivisionByZero`, whatever the
/// variants.
pub proof fn law_division_by_zero(a: IntegerModel, b: IntegerModel)
    requires
        b.value == 0,
    ensures
        quotient_model(a, b) == Err::<IntegerModel, FaultModel>(FaultModel::DivisionByZero),
        remainder_model(a, b) == Err::<IntegerModel, FaultModel>(FaultModel::DivisionByZero),
{
}

/// Negation never fails, gives the negated number, keeps the variant of
/// zero, and sends the least number of each signed fixed-width variant
/// to the next wider one.
pub proof fn law_negation(a: IntegerModel)
    requires
        holds(a.kind, a.value),
    ensures
        negation_model(a).value == -a.value,
        holds(negation_model(a).kind, negation_model(a).value),
        a.value == 0 ==> negation_model(a).kind == a.kind,
        a.kind == IntegerType::I8 && a.value == least(a.kind) ==> negation_model(a).kind
            == IntegerType::I16,
        a.kind == IntegerType::I16 && a.value == least(a.kind) ==> negation_model(a).kind
            == IntegerType::I32,
        a.kind == IntegerType::I32 && a.value == least(a.kind) ==> negation_model(a).kind
            == IntegerType::I64,
        a.kind == IntegerType::I64 && a.value == least(a.kind) ==> negation_model(a).kind
            == IntegerType::Integer,
        a.kind == IntegerType::Natural && a.value != 0 ==> negation_model(a).kind
            == IntegerType::Integer,
{
}

/// The name under which a variant of the integers is written.
pub open spec fn integer_type_name(value: IntegerType) -> Seq<char> {
    match value {
        IntegerType::U8 => "u8"@,
        IntegerType::U16 => "u16"@,
        IntegerType::U32 => "u32"@,
        IntegerType::U64 => "u64"@,
        IntegerType::I8 => "i8"@,
        IntegerType::I16 => "i16"@,
        IntegerType::I32 => "i32"@,
        IntegerType::I64 => "i64"@,
        IntegerType::Natural => "natural"@,
        IntegerType::Integer => "integer"@,
    }
}

impl IntegerType {
    /// The name under which a variant of the integers is written.
    pub fn name(&self) -> (r: &'static str)
        ensures
            r@ == integer_type_name(*self),
    {
        match self {
            IntegerType::U8 => "u8",
            IntegerType::U16 => "u16",
            IntegerType::U32 => "u32",
            IntegerType::U64 => "u64",
            IntegerType::I8 => "i8",
            IntegerType::I16 => "i16",
            IntegerType::I32 => "i32",
            IntegerType::I64 => "i64",
            IntegerType::Natural => "natural",
            IntegerType::Integer => "integer",
        }
    }
}

} // verus!
