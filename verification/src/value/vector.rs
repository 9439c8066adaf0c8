//! Vectors: sequences whose elements are all of one declared kind.

use vstd::prelude::*;
use crate::machine::{Fault, FaultModel};
use crate::value::decimal::{Decimal, DecimalModel};
use crate::value::function::{Function, FunctionModel};
use crate::value::integer::{Integer, IntegerModel, IntegerType};
use crate::value::natural::Natural;
use crate::value::rational::{Rational, RationalModel};
use crate::value::signed::BigInteger;
use crate::value::tuple::Tuple;
use crate::value::{
    Reference, Value, ValueModel, clone_value, clone_values, lemma_values_model_update,
    values_model,
};

verus! {

/// The kind of the elements of a vector, with the length that a vector
/// nested in another is made with.
#[derive(Debug)]
pub enum VectorType {
    U8(usize),
    U16(usize),
    U32(usize),
    U64(usize),
    I8(usize),
    I16(usize),
    I32(usize),
    I64(usize),
    F32(usize),
    F64(usize),
    Natural(usize),
    Integer(usize),
    Rational(usize),
    Reference(usize),
    Vector(Box<VectorType>, usize),
    Tuple(usize),
    Function(usize),
}

impl Clone for VectorType {
    fn clone(&self) -> (r: Self)
        ensures
            r == *self,
        decreases *self,
    {
        match self {
            VectorType::U8(n) => VectorType::U8(*n),
            VectorType::U16(n) => VectorType::U16(*n),
            VectorType::U32(n) => VectorType::U32(*n),
            VectorType::U64(n) => VectorType::U64(*n),
            VectorType::I8(n) => VectorType::I8(*n),
            VectorType::I16(n) => VectorType::I16(*n),
            VectorType::I32(n) => VectorType::I32(*n),
            VectorType::I64(n) => VectorType::I64(*n),
            VectorType::F32(n) => VectorType::F32(*n),
            VectorType::F64(n) => VectorType::F64(*n),
            VectorType::Natural(n) => VectorType::Natural(*n),
            VectorType::Integer(n) => VectorType::Integer(*n),
            VectorType::Rational(n) => VectorType::Rational(*n),
            VectorType::Reference(n) => VectorType::Reference(*n),
            VectorType::Vector(inner, n) => {
                let copy = (**inner).clone();
                VectorType::Vector(Box::new(copy), *n)
            },
            VectorType::Tuple(n) => VectorType::Tuple(*n),
            VectorType::Function(n) => VectorType::Function(*n),
        }
    }
}

/// A sequence of values of one kind.
#[derive(Debug)]
pub struct Vector {
    pub kind: VectorType,
    pub items: Vec<Value>,
}

/// What a `Vector` is.
pub struct VectorModel {
    pub kind: VectorType,
    pub items: Seq<ValueModel>,
}

impl View for Vector {
    type V = VectorModel;

    open spec fn view(&self) -> VectorModel {
        VectorModel { kind: self.kind, items: values_model(self.items@) }
    }
}

impl Clone for Vector {
    fn clone(&self) -> (r: Self)
        ensures
            r@ == self@,
    {
        Vector { kind: self.kind.clone(), items: clone_values(&self.items) }
    }
}

/// The length that a vector of this kind is made with where it is an
/// element of another vector.
pub open spec fn declared_length(kind: VectorType) -> nat {
    match kind {
        VectorType::U8(n) => n as nat,
        VectorType::U16(n) => n as nat,
        VectorType::U32(n) => n as nat,
        VectorType::U64(n) => n as nat,
        VectorType::I8(n) => n as nat,
        VectorType::I16(n) => n as nat,
        VectorType::I32(n) => n as nat,
        VectorType::I64(n) => n as nat,
        VectorType::F32(n) => n as nat,
        VectorType::F64(n) => n as nat,
        VectorType::Natural(n) => n as nat,
        VectorType::Integer(n) => n as nat,
        VectorType::Rational(n) => n as nat,
        VectorType::Reference(n) => n as nat,
        VectorType::Tuple(n) => n as nat,
        VectorType::Function(n) => n as nat,
        VectorType::Vector(_, n) => n as nat,
    }
}

/// Whether a vector of this kind takes the value as an element. Of a
/// nested vector, a tuple or a function only the tag is looked at.
pub open spec fn accepts(kind: VectorType, value: ValueModel) -> bool {
    match kind {
        VectorType::U8(_) => value matches ValueModel::Integer(i) && i.kind == IntegerType::U8,
        VectorType::U16(_) => value matches ValueModel::Integer(i) && i.kind == IntegerType::U16,
        VectorType::U32(_) => value matches ValueModel::Integer(i) && i.kind == IntegerType::U32,
        VectorType::U64(_) => value matches ValueModel::Integer(i) && i.kind == IntegerType::U64,
        VectorType::I8(_) => value matches ValueModel::Integer(i) && i.kind == IntegerType::I8,
        VectorType::I16(_) => value matches ValueModel::Integer(i) && i.kind == IntegerType::I16,
        VectorType::I32(_) => value matches ValueModel::Integer(i) && i.kind == IntegerType::I32,
        VectorType::I64(_) => value matches ValueModel::Integer(i) && i.kind == IntegerType::I64,
        VectorType::Natural(_) => value matches ValueModel::Integer(i) && i.kind == IntegerType::Natural,
        VectorType::Integer(_) => value matches ValueModel::Integer(i) && i.kind == IntegerType::Integer,
        VectorType::F32(_) => value matches ValueModel::Decimal(d) && d is F32,
        VectorType::F64(_) => value matches ValueModel::Decimal(d) && d is F64,
        VectorType::Rational(_) => value matches ValueModel::Decimal(d) && d is Rational,
        VectorType::Reference(_) => value is Reference,
        VectorType::Vector(_, _) => value is Vector,
        VectorType::Tuple(_) => value is Tuple,
        VectorType::Function(_) => value is Function,
    }
}

/// The element that a new vector of this kind is filled with: zero, the
/// reference zero, the empty tuple, the function without code, or a
/// vector of zeros of the declared length.
pub open spec fn zero_model(kind: VectorType) -> ValueModel
    decreases kind,
{
    match kind {
        VectorType::U8(_) => ValueModel::Integer(
            IntegerModel { kind: IntegerType::U8, value: 0 },
        ),
        VectorType::U16(_) => ValueModel::Integer(
            IntegerModel { kind: IntegerType::U16, value: 0 },
        ),
        VectorType::U32(_) => ValueModel::Integer(
            IntegerModel { kind: IntegerType::U32, value: 0 },
        ),
        VectorType::U64(_) => ValueModel::Integer(
            IntegerModel { kind: IntegerType::U64, value: 0 },
        ),
        VectorType::I8(_) => ValueModel::Integer(
            IntegerModel { kind: IntegerType::I8, value: 0 },
        ),
        VectorType::I16(_) => ValueModel::Integer(
            IntegerModel { kind: IntegerType::I16, value: 0 },
        ),
        VectorType::I32(_) => ValueModel::Integer(
            IntegerModel { kind: IntegerType::I32, value: 0 },
        ),
        VectorType::I64(_) => ValueModel::Integer(
            IntegerModel { kind: IntegerType::I64, value: 0 },
        ),
        VectorType::Natural(_) => ValueModel::Integer(
            IntegerModel { kind: IntegerType::Natural, value: 0 },
        ),
        VectorType::Integer(_) => ValueModel::Integer(
            IntegerModel { kind: IntegerType::Integer, value: 0 },
        ),
        VectorType::F32(_) => ValueModel::Decimal(DecimalModel::F32(0)),
        VectorType::F64(_) => ValueModel::Decimal(DecimalModel::F64(0)),
        VectorType::Rational(_) => ValueModel::Decimal(
            DecimalModel::Rational(RationalModel { numerator: 0, denominator: 1 }),
        ),
        VectorType::Reference(_) => ValueModel::Reference(0),
        VectorType::Vector(inner, _) => ValueModel::Vector(
            VectorModel {
                kind: *inner,
                items: Seq::new(declared_length(*inner), |i: int| zero_model(*inner)),
            },
        ),
        VectorType::Tuple(_) => ValueModel::Tuple(Seq::empty()),
        VectorType::Function(_) => ValueModel::Function(
            FunctionModel {
                code: Seq::empty(),
                argument_names: Seq::empty(),
                environment: Map::empty(),
            },
        ),
    }
}

/// The vector of this kind and length that holds zeros.
pub open spec fn zeros(kind: VectorType, length: nat) -> VectorModel {
    VectorModel { kind, items: Seq::new(length, |i: int| zero_model(kind)) }
}

/// The zero element is an element of its kind.
pub proof fn lemma_zero_accepted(kind: VectorType)
    ensures
        accepts(kind, zero_model(kind)),
{
}

/// A new vector holds elements of its kind only.
pub proof fn law_zeros_are_homogeneous(kind: VectorType, length: nat)
    ensures
        homogeneous(zeros(kind, length)),
        zeros(kind, length).items.len() == length,
{
    lemma_zero_accepted(kind);
}

/// Whether every element is of the vector's kind.
pub open spec fn homogeneous(vector: VectorModel) -> bool {
    forall|i: int| 0 <= i < vector.items.len() ==> accepts(vector.kind, #[trigger] vector.items[i])
}

/// The element at an index; `OutOfBounds` past the end.
pub open spec fn fetched(vector: VectorModel, index: int) -> Result<ValueModel, FaultModel> {
    if 0 <= index < vector.items.len() {
        Ok(vector.items[index])
    } else {
        Err(FaultModel::OutOfBounds)
    }
}

/// The vector with the element at an index replaced; `TypeMismatch` for a
/// value of another kind, else `OutOfBounds` past the end.
pub open spec fn stored(vector: VectorModel, index: int, value: ValueModel) -> Result<
    VectorModel,
    FaultModel,
> {
    if !accepts(vector.kind, value) {
        Err(FaultModel::TypeMismatch)
    } else if 0 <= index < vector.items.len() {
        Ok(VectorModel { kind: vector.kind, items: vector.items.update(index, value) })
    } else {
        Err(FaultModel::OutOfBounds)
    }
}

/// What was stored at an index is what is fetched from it.
pub proof fn law_store_then_fetch(vector: VectorModel, index: int, value: ValueModel)
    requires
        accepts(vector.kind, value),
        0 <= index < vector.items.len(),
    ensures
        stored(vector, index, value) is Ok,
        fetched(stored(vector, index, value)->Ok_0, index) == Ok::<ValueModel, FaultModel>(value),
        forall|other: int|
            0 <= other < vector.items.len() && other != index ==> fetched(
                stored(vector, index, value)->Ok_0,
                other,
            ) == fetched(vector, other),
{
}

/// Storing keeps every element of the vector's kind.
pub proof fn law_store_keeps_kind(vector: VectorModel, index: int, value: ValueModel)
    requires
        homogeneous(vector),
        stored(vector, index, value) is Ok,
    ensures
        homogeneous(stored(vector, index, value)->Ok_0),
{
    let after = stored(vector, index, value)->Ok_0;
    assert forall|i: int| 0 <= i < after.items.len() implies accepts(
        after.kind,
        #[trigger] after.items[i],
    ) by {
        if i != index {
            assert(after.items[i] == vector.items[i]);
        }
    }
}

impl VectorType {
    /// The length that a vector of this kind is made with where it is an
    /// element of another vector.
    pub fn length(&self) -> (r: usize)
        ensures
            r as nat == declared_length(*self),
    {
        match self {
            VectorType::U8(n) => *n,
            VectorType::U16(n) => *n,
            VectorType::U32(n) => *n,
            VectorType::U64(n) => *n,
            VectorType::I8(n) => *n,
            VectorType::I16(n) => *n,
            VectorType::I32(n) => *n,
            VectorType::I64(n) => *n,
            VectorType::F32(n) => *n,
            VectorType::F64(n) => *n,
            VectorType::Natural(n) => *n,
            VectorType::Integer(n) => *n,
            VectorType::Rational(n) => *n,
            VectorType::Reference(n) => *n,
            VectorType::Tuple(n) => *n,
            VectorType::Function(n) => *n,
            VectorType::Vector(_, n) => *n,
        }
    }

    /// Whether a vector of this kind takes the value as an element.
    pub fn accepts(&self, value: &Value) -> (r: bool)
        ensures
            r == accepts(*self, value@),
    {
        match (self, value) {
            (VectorType::U8(_), Value::Integer(Integer::U8(_))) => true,
            (VectorType::U16(_), Value::Integer(Integer::U16(_))) => true,
            (VectorType::U32(_), Value::Integer(Integer::U32(_))) => true,
            (VectorType::U64(_), Value::Integer(Integer::U64(_))) => true,
            (VectorType::I8(_), Value::Integer(Integer::I8(_))) => true,
            (VectorType::I16(_), Value::Integer(Integer::I16(_))) => true,
            (VectorType::I32(_), Value::Integer(Integer::I32(_))) => true,
            (VectorType::I64(_), Value::Integer(Integer::I64(_))) => true,
            (VectorType::Natural(_), Value::Integer(Integer::Natural(_))) => true,
            (VectorType::Integer(_), Value::Integer(Integer::Integer(_))) => true,
            (VectorType::F32(_), Value::Decimal(Decimal::F32(_))) => true,
            (VectorType::F64(_), Value::Decimal(Decimal::F64(_))) => true,
            (VectorType::Rational(_), Value::Decimal(Decimal::Rational(_))) => true,
            (VectorType::Reference(_), Value::Reference(_)) => true,
            (VectorType::Vector(_, _), Value::Vector(_)) => true,
            (VectorType::Tuple(_), Value::Tuple(_)) => true,
            (VectorType::Function(_), Value::Function(_)) => true,
            _ => false,
        }
    }
}

/// The element that a new vector of this kind is filled with.
pub fn zero_value(kind: &VectorType) -> (r: Value)
    ensures
        r@ == zero_model(*kind),
    decreases *kind, 0nat,
{
    match kind {
        VectorType::U8(_) => Value::Integer(Integer::U8(0)),
        VectorType::U16(_) => Value::Integer(Integer::U16(0)),
        VectorType::U32(_) => Value::Integer(Integer::U32(0)),
        VectorType::U64(_) => Value::Integer(Integer::U64(0)),
        VectorType::I8(_) => Value::Integer(Integer::I8(0)),
        VectorType::I16(_) => Value::Integer(Integer::I16(0)),
        VectorType::I32(_) => Value::Integer(Integer::I32(0)),
        VectorType::I64(_) => Value::Integer(Integer::I64(0)),
        VectorType::F32(_) => Value::Decimal(Decimal::F32(0)),
        VectorType::F64(_) => Value::Decimal(Decimal::F64(0)),
        VectorType::Natural(_) => Value::Integer(Integer::Natural(Natural::zero())),
        VectorType::Integer(_) => Value::Integer(Integer::Integer(BigInteger::zero())),
        VectorType::Rational(_) => Value::Decimal(Decimal::Rational(Rational::zero())),
        VectorType::Reference(_) => Value::Reference(Reference(0)),
        VectorType::Vector(inner, _) => {
            let length = inner.length();
            Value::Vector(filled(&**inner, length))
        },
        VectorType::Tuple(_) => Value::Tuple(Tuple::empty()),
        VectorType::Function(_) => Value::Function(Function::empty()),
    }
}

/// The vector of this kind and length that holds zeros. Its elements are
/// allocated one by one; a length for which the machine has no memory
/// ends the process, as any allocation does.
pub fn filled(kind: &VectorType, length: usize) -> (r: Vector)
    ensures
        r@ == zeros(*kind, length as nat),
        r.well_formed(),
    decreases *kind, 1nat,
{
    let zero = zero_value(kind);
    let mut items: Vec<Value> = Vec::new();
    let mut i: usize = 0;
    while i < length
        invariant
            i <= length,
            items@.len() == i,
            zero@ == zero_model(*kind),
            forall|j: int| 0 <= j < i ==> items@[j]@ == zero_model(*kind),
        decreases length - i,
    {
        items.push(clone_value(&zero));
        i = i + 1;
    }
    let vector = Vector { kind: kind.clone(), items };
    assert(vector@.items =~= zeros(*kind, length as nat).items);
    proof {
        law_zeros_are_homogeneous(*kind, length as nat);
    }
    vector
}

impl Vector {
    /// Whether the vector is what a vector is meant to be: every element
    /// is of its kind. `new` makes such a vector and `set` keeps it one.
    pub open spec fn well_formed(&self) -> bool {
        homogeneous(self@)
    }

    /// The zero-initialised vector of a kind and a length.
    pub fn new(size: usize, kind: &VectorType) -> (r: Vector)
        ensures
            r@ == zeros(*kind, size as nat),
            r.well_formed(),
    {
        filled(kind, size)
    }

    /// The number of elements.
    pub fn length(&self) -> (r: usize)
        ensures
            r == self@.items.len(),
    {
        self.items.len()
    }

    /// A copy of the element at an index. What a well-formed vector
    /// hands out is of its kind.
    pub fn get(&self, index: usize) -> (r: Result<Value, Fault>)
        ensures
            match r {
                Ok(v) => fetched(self@, index as int) == Ok::<ValueModel, FaultModel>(v@) && (
                self.well_formed() ==> accepts(self@.kind, v@)),
                Err(f) => fetched(self@, index as int) == Err::<ValueModel, FaultModel>(f@),
            },
    {
        if index < self.items.len() {
            Ok(clone_value(&self.items[index]))
        } else {
            Err(Fault::OutOfBounds)
        }
    }

    /// Replaces the element at an index. On a fault the vector is as it
    /// was.
    pub fn set(&mut self, index: usize, value: Value) -> (r: Result<(), Fault>)
        ensures
            match r {
                Ok(_) => stored(old(self)@, index as int, value@) == Ok::<VectorModel, FaultModel>(
                    final(self)@,
                ),
                Err(f) => stored(old(self)@, index as int, value@) == Err::<
                    VectorModel,
                    FaultModel,
                >(f@) && final(self)@ == old(self)@,
            },
            old(self).well_formed() ==> final(self).well_formed(),
    {
        if !self.kind.accepts(&value) {
            Err(Fault::TypeMismatch)
        } else if index < self.items.len() {
            proof {
                lemma_values_model_update(self.items@, index as int, value);
                if self.well_formed() {
                    law_store_keeps_kind(self@, index as int, value@);
                }
            }
            self.items[index] = value;
            Ok(())
        } else {
            Err(Fault::OutOfBounds)
        }
    }
}

} // verus!
