//! The tagged value representation and its numeric tower.
//!
//! Every type of the machine has a model: what a value of it is, with
//! strings as sequences of characters and vectors as sequences. The
//! contracts of the machine speak of models, so that two values with the
//! same contents are the same to them.

use vstd::prelude::*;
use crate::instruction::{Instruction, InstructionModel, OperationModel, RealInstruction};
use crate::machine::environment::bindings;
use crate::program::{clone_names, texts};
use crate::value::decimal::{Decimal, DecimalModel, DecimalType};
use crate::value::function::{Function, FunctionModel};
use crate::value::integer::{Integer, IntegerModel, IntegerType};
use crate::value::product::{ProductModel, ProductType};
use crate::value::sum::{SumModel, SumType};
use crate::value::tuple::Tuple;
use crate::value::vector::{Vector, VectorModel, VectorType};

pub mod cast;
pub mod decimal;
pub mod function;
pub mod integer;
pub mod layout;
pub mod natural;
pub mod order;
pub mod product;
pub mod rational;
pub mod signed;
pub mod sum;
pub mod text;
pub mod tuple;
pub mod vector;

verus! {

/// The types that a value can be cast to.
#[derive(Debug)]
pub enum ValueType {
    String,
    Integer(IntegerType),
    Decimal(DecimalType),
    Vector(VectorType),
    Product,
    Sum,
    Function,
    Reference,
    Tuple,
    Character,
    Boolean,
}

impl Clone for ValueType {
    fn clone(&self) -> (r: Self)
        ensures
            r == *self,
    {
        match self {
            ValueType::String => ValueType::String,
            ValueType::Integer(kind) => ValueType::Integer(*kind),
            ValueType::Decimal(kind) => ValueType::Decimal(*kind),
            ValueType::Vector(kind) => ValueType::Vector(kind.clone()),
            ValueType::Product => ValueType::Product,
            ValueType::Sum => ValueType::Sum,
            ValueType::Function => ValueType::Function,
            ValueType::Reference => ValueType::Reference,
            ValueType::Tuple => ValueType::Tuple,
            ValueType::Character => ValueType::Character,
            ValueType::Boolean => ValueType::Boolean,
        }
    }
}

/// An opaque identifier that the host hands out and takes back.
#[derive(Clone, Copy, Debug, PartialEq, Eq, Structural)]
pub struct Reference(pub u64);

/// A value of the machine.
#[derive(Debug)]
pub enum Value {
    String(String),
    Integer(Integer),
    Decimal(Decimal),
    Vector(Vector),
    Product(ProductType),
    Sum(SumType),
    Function(Function),
    Reference(Reference),
    Tuple(Tuple),
    Character(char),
    Boolean(bool),
}

/// What a `Value` is.
pub enum ValueModel {
    String(Seq<char>),
    Integer(IntegerModel),
    Decimal(DecimalModel),
    Vector(VectorModel),
    Product(ProductModel),
    Sum(SumModel),
    Function(FunctionModel),
    Reference(u64),
    Tuple(Seq<ValueModel>),
    Character(char),
    Boolean(bool),
}

/// What a value is.
pub open spec fn value_model(value: Value) -> ValueModel
    decreases value,
{
    match value {
        Value::String(s) => ValueModel::String(s@),
        Value::Integer(i) => ValueModel::Integer(i@),
        Value::Decimal(d) => ValueModel::Decimal(d@),
        Value::Vector(v) => ValueModel::Vector(
            VectorModel { kind: v.kind, items: values_model(v.items@) },
        ),
        Value::Product(p) => ValueModel::Product(
            ProductModel { name: p.name@, fields: fields_model(p.fields@) },
        ),
        Value::Sum(s) => ValueModel::Sum(
            SumModel { name: s.name@, tag: s.tag, fields: fields_model(s.fields@) },
        ),
        Value::Function(f) => ValueModel::Function(function_model(f)),
        Value::Reference(r) => ValueModel::Reference(r.0),
        Value::Tuple(t) => ValueModel::Tuple(values_model(t.data@)),
        Value::Character(c) => ValueModel::Character(c),
        Value::Boolean(b) => ValueModel::Boolean(b),
    }
}

/// The models of a sequence of values.
pub open spec fn values_model(values: Seq<Value>) -> Seq<ValueModel>
    decreases values,
{
    Seq::new(
        values.len(),
        |i: int|
            if 0 <= i < values.len() {
                value_model(values[i])
            } else {
                arbitrary()
            },
    )
}

/// The models of a sequence of named values.
pub open spec fn fields_model(fields: Seq<(String, Value)>) -> Seq<(Seq<char>, ValueModel)>
    decreases fields,
{
    Seq::new(
        fields.len(),
        |i: int|
            if 0 <= i < fields.len() {
                (fields[i].0@, value_model(fields[i].1))
            } else {
                arbitrary()
            },
    )
}

/// What a function is.
pub open spec fn function_model(function: Function) -> FunctionModel
    decreases function,
{
    FunctionModel {
        code: code_model(function.code@),
        argument_names: texts(function.argument_names@),
        environment: bindings(function.environment.hashmap),
    }
}

/// The models of a sequence of instructions.
pub open spec fn code_model(code: Seq<Instruction>) -> Seq<InstructionModel>
    decreases code,
{
    Seq::new(
        code.len(),
        |i: int|
            if 0 <= i < code.len() {
                instruction_model(code[i])
            } else {
                arbitrary()
            },
    )
}

/// What an instruction is.
pub open spec fn instruction_model(instruction: Instruction) -> InstructionModel
    decreases instruction,
{
    InstructionModel {
        row: instruction.row,
        column: instruction.column,
        instruction: operation_model(instruction.instruction),
    }
}

/// What an operation is.
pub open spec fn operation_model(operation: RealInstruction) -> OperationModel
    decreases operation,
{
    match operation {
        RealInstruction::Halt => OperationModel::Halt,
        RealInstruction::NoOp => OperationModel::NoOp,
        RealInstruction::Push(a) => OperationModel::Push(value_model(a)),
        RealInstruction::Pop => OperationModel::Pop,
        RealInstruction::Duplicate => OperationModel::Duplicate,
        RealInstruction::TupleNew => OperationModel::TupleNew,
        RealInstruction::TupleGet => OperationModel::TupleGet,
        RealInstruction::VectorNew(a) => OperationModel::VectorNew(a),
        RealInstruction::VectorGet => OperationModel::VectorGet,
        RealInstruction::VectorSet => OperationModel::VectorSet,
        RealInstruction::VectorLength => OperationModel::VectorLength,
        RealInstruction::ProductNew(a) => OperationModel::ProductNew(a),
        RealInstruction::ProductGet(a) => OperationModel::ProductGet(a@),
        RealInstruction::ProductSet(a) => OperationModel::ProductSet(a),
        RealInstruction::SumNew(a) => OperationModel::SumNew(a@),
        RealInstruction::SumGet(a) => OperationModel::SumGet(a@),
        RealInstruction::SumSet(a) => OperationModel::SumSet(a@),
        RealInstruction::FunctionCall(a, b) => OperationModel::FunctionCall(a@, b),
        RealInstruction::Return(a) => OperationModel::Return(a),
        RealInstruction::ClosureNew(a) => OperationModel::ClosureNew(a@),
        RealInstruction::ReferenceNew => OperationModel::ReferenceNew,
        RealInstruction::ReferenceGet => OperationModel::ReferenceGet,
        RealInstruction::ReferenceSet => OperationModel::ReferenceSet,
        RealInstruction::ReferenceSetShared => OperationModel::ReferenceSetShared,
        RealInstruction::IntegerNew(a) => OperationModel::IntegerNew(a@),
        RealInstruction::IntegerAdd => OperationModel::IntegerAdd,
        RealInstruction::IntegerSubtract => OperationModel::IntegerSubtract,
        RealInstruction::IntegerMultiply => OperationModel::IntegerMultiply,
        RealInstruction::IntegerDivide => OperationModel::IntegerDivide,
        RealInstruction::IntegerModulo => OperationModel::IntegerModulo,
        RealInstruction::IntegerPower => OperationModel::IntegerPower,
        RealInstruction::IntegerNegate => OperationModel::IntegerNegate,
        RealInstruction::IntegerBitwiseAnd => OperationModel::IntegerBitwiseAnd,
        RealInstruction::IntegerBitwiseOr => OperationModel::IntegerBitwiseOr,
        RealInstruction::IntegerBitwiseXor => OperationModel::IntegerBitwiseXor,
        RealInstruction::IntegerBitwiseNot => OperationModel::IntegerBitwiseNot,
        RealInstruction::IntegerShiftLeft => OperationModel::IntegerShiftLeft,
        RealInstruction::IntegerShiftRight => OperationModel::IntegerShiftRight,
        RealInstruction::DecimalNew(a) => OperationModel::DecimalNew(a@),
        RealInstruction::DecimalAdd => OperationModel::DecimalAdd,
        RealInstruction::DecimalSubtract => OperationModel::DecimalSubtract,
        RealInstruction::DecimalMultiply => OperationModel::DecimalMultiply,
        RealInstruction::DecimalDivide => OperationModel::DecimalDivide,
        RealInstruction::DecimalModulo => OperationModel::DecimalModulo,
        RealInstruction::DecimalPower => OperationModel::DecimalPower,
        RealInstruction::DecimalNegate => OperationModel::DecimalNegate,
        RealInstruction::StringNew(a) => OperationModel::StringNew(a@),
        RealInstruction::StringConcat => OperationModel::StringConcat,
        RealInstruction::StringLength => OperationModel::StringLength,
        RealInstruction::BooleanNew(a) => OperationModel::BooleanNew(a),
        RealInstruction::BooleanAnd => OperationModel::BooleanAnd,
        RealInstruction::BooleanOr => OperationModel::BooleanOr,
        RealInstruction::BooleanNot => OperationModel::BooleanNot,
        RealInstruction::CharacterNew(a) => OperationModel::CharacterNew(a),
        RealInstruction::RequestValue(a) => OperationModel::RequestValue(a@),
        RealInstruction::SetValue(a) => OperationModel::SetValue(a@),
        RealInstruction::Compare(a) => OperationModel::Compare(a),
        RealInstruction::Goto(a, b) => OperationModel::Goto(a, b),
        RealInstruction::Store(a) => OperationModel::Store(a@),
        RealInstruction::Lookup(a) => OperationModel::Lookup(a@),
        RealInstruction::GlobalStore(a) => OperationModel::GlobalStore(a@),
        RealInstruction::GlobalLookup(a) => OperationModel::GlobalLookup(a@),
        RealInstruction::Write => OperationModel::Write,
        RealInstruction::Read => OperationModel::Read,
        RealInstruction::GetStringRef(a, b) => OperationModel::GetStringRef(a@, b),
        RealInstruction::Cast(a) => OperationModel::Cast(a),
    }
}
impl View for Value {
    type V = ValueModel;

    open spec fn view(&self) -> ValueModel {
        value_model(*self)
    }
}

/// The models of a list of values after one more was added.
pub proof fn lemma_values_model_push(values: Seq<Value>, value: Value)
    ensures
        values_model(values.push(value)) == values_model(values).push(value@),
{
    assert(values_model(values.push(value)) =~= values_model(values).push(value@));
}

/// The models of a list of values after the last one was taken.
pub proof fn lemma_values_model_drop_last(values: Seq<Value>)
    requires
        values.len() > 0,
    ensures
        values_model(values.drop_last()) == values_model(values).drop_last(),
        values_model(values).last() == values.last()@,
{
    assert(values_model(values.drop_last()) =~= values_model(values).drop_last());
}

/// The models of a list of values after one was replaced.
pub proof fn lemma_values_model_update(values: Seq<Value>, index: int, value: Value)
    requires
        0 <= index < values.len(),
    ensures
        values_model(values.update(index, value)) == values_model(values).update(index, value@),
{
    assert(values_model(values.update(index, value)) =~= values_model(values).update(
        index,
        value@,
    ));
}

/// The models of a list of fields after one was replaced.
pub proof fn lemma_fields_model_update(fields: Seq<(String, Value)>, index: int, field: (String, Value))
    requires
        0 <= index < fields.len(),
    ensures
        fields_model(fields.update(index, field)) == fields_model(fields).update(
            index,
            (field.0@, field.1@),
        ),
{
    assert(fields_model(fields.update(index, field)) =~= fields_model(fields).update(
        index,
        (field.0@, field.1@),
    ));
}

/// The models of a part of a list of values.
pub proof fn lemma_values_model_subrange(values: Seq<Value>, from: int, to: int)
    requires
        0 <= from <= to <= values.len(),
    ensures
        values_model(values.subrange(from, to)) == values_model(values).subrange(from, to),
{
    assert(values_model(values.subrange(from, to)) =~= values_model(values).subrange(from, to));
}

/// A deep copy of a value.
pub fn clone_value(value: &Value) -> (r: Value)
    ensures
        r@ == value@,
    decreases *value,
{
    match value {
        Value::String(s) => Value::String(s.clone()),
        Value::Integer(i) => Value::Integer(i.clone()),
        Value::Decimal(d) => Value::Decimal(d.clone()),
        Value::Vector(v) => Value::Vector(
            Vector { kind: v.kind.clone(), items: clone_values(&v.items) },
        ),
        Value::Product(p) => Value::Product(
            ProductType { name: p.name.clone(), fields: clone_fields(&p.fields) },
        ),
        Value::Sum(s) => Value::Sum(
            SumType { name: s.name.clone(), tag: s.tag, fields: clone_fields(&s.fields) },
        ),
        Value::Function(f) => Value::Function(clone_function(f)),
        Value::Reference(r) => Value::Reference(*r),
        Value::Tuple(t) => Value::Tuple(Tuple { data: clone_values(&t.data) }),
        Value::Character(c) => Value::Character(*c),
        Value::Boolean(b) => Value::Boolean(*b),
    }
}

/// Deep copies of the values of a list.
pub fn clone_values(values: &Vec<Value>) -> (r: Vec<Value>)
    ensures
        values_model(r@) == values_model(values@),
        r@.len() == values@.len(),
    decreases *values,
{
    let mut copy: Vec<Value> = Vec::new();
    let mut i: usize = 0;
    while i < values.len()
        invariant
            i <= values.len(),
            copy@.len() == i,
            forall|j: int| 0 <= j < i ==> copy@[j]@ == values@[j]@,
        decreases values.len() - i,
    {
        copy.push(clone_value(&values[i]));
        i = i + 1;
    }
    assert(values_model(copy@) =~= values_model(values@));
    copy
}

/// Deep copies of the named values of a list.
pub fn clone_fields(fields: &Vec<(String, Value)>) -> (r: Vec<(String, Value)>)
    ensures
        fields_model(r@) == fields_model(fields@),
        r@.len() == fields@.len(),
    decreases *fields,
{
    let mut copy: Vec<(String, Value)> = Vec::new();
    let mut i: usize = 0;
    while i < fields.len()
        invariant
            i <= fields.len(),
            copy@.len() == i,
            forall|j: int|
                0 <= j < i ==> copy@[j].0@ == fields@[j].0@ && copy@[j].1@ == fields@[j].1@,
        decreases fields.len() - i,
    {
        let name = fields[i].0.clone();
        let value = clone_value(&fields[i].1);
        copy.push((name, value));
        i = i + 1;
    }
    assert(fields_model(copy@) =~= fields_model(fields@));
    copy
}

/// A deep copy of a function, its captured environment included.
pub fn clone_function(function: &Function) -> (r: Function)
    ensures
        function_model(r) == function_model(*function),
    decreases *function,
{
    Function {
        code: clone_code(&function.code),
        argument_names: clone_names(&function.argument_names),
        environment: function.environment.duplicate(),
    }
}

/// Deep copies of the instructions of a list.
pub fn clone_code(code: &Vec<Instruction>) -> (r: Vec<Instruction>)
    ensures
        code_model(r@) == code_model(code@),
        r@.len() == code@.len(),
    decreases *code,
{
    let mut copy: Vec<Instruction> = Vec::new();
    let mut i: usize = 0;
    while i < code.len()
        invariant
            i <= code.len(),
            copy@.len() == i,
            forall|j: int| 0 <= j < i ==> instruction_model(copy@[j]) == instruction_model(code@[j]),
        decreases code.len() - i,
    {
        let instruction = Instruction {
            row: code[i].row,
            column: code[i].column,
            instruction: clone_operation(&code[i].instruction),
        };
        copy.push(instruction);
        i = i + 1;
    }
    assert(code_model(copy@) =~= code_model(code@));
    copy
}

/// A deep copy of an operation.
pub fn clone_operation(operation: &RealInstruction) -> (r: RealInstruction)
    ensures
        operation_model(r) == operation_model(*operation),
    decreases *operation,
{
    match operation {
        RealInstruction::Halt => RealInstruction::Halt,
        RealInstruction::NoOp => RealInstruction::NoOp,
        RealInstruction::Push(a) => RealInstruction::Push(clone_value(a)),
        RealInstruction::Pop => RealInstruction::Pop,
        RealInstruction::Duplicate => RealInstruction::Duplicate,
        RealInstruction::TupleNew => RealInstruction::TupleNew,
        RealInstruction::TupleGet => RealInstruction::TupleGet,
        RealInstruction::VectorNew(a) => RealInstruction::VectorNew(a.clone()),
        RealInstruction::VectorGet => RealInstruction::VectorGet,
        RealInstruction::VectorSet => RealInstruction::VectorSet,
        RealInstruction::VectorLength => RealInstruction::VectorLength,
        RealInstruction::ProductNew(a) => RealInstruction::ProductNew(*a),
        RealInstruction::ProductGet(a) => RealInstruction::ProductGet(a.clone()),
        RealInstruction::ProductSet(a) => RealInstruction::ProductSet(*a),
        RealInstruction::SumNew(a) => RealInstruction::SumNew(a.clone()),
        RealInstruction::SumGet(a) => RealInstruction::SumGet(a.clone()),
        RealInstruction::SumSet(a) => RealInstruction::SumSet(a.clone()),
        RealInstruction::FunctionCall(a, b) => RealInstruction::FunctionCall(a.clone(), *b),
        RealInstruction::Return(a) => RealInstruction::Return(*a),
        RealInstruction::ClosureNew(a) => RealInstruction::ClosureNew(a.clone()),
        RealInstruction::ReferenceNew => RealInstruction::ReferenceNew,
        RealInstruction::ReferenceGet => RealInstruction::ReferenceGet,
        RealInstruction::ReferenceSet => RealInstruction::ReferenceSet,
        RealInstruction::ReferenceSetShared => RealInstruction::ReferenceSetShared,
        RealInstruction::IntegerNew(a) => RealInstruction::IntegerNew(a.clone()),
        RealInstruction::IntegerAdd => RealInstruction::IntegerAdd,
        RealInstruction::IntegerSubtract => RealInstruction::IntegerSubtract,
        RealInstruction::IntegerMultiply => RealInstruction::IntegerMultiply,
        RealInstruction::IntegerDivide => RealInstruction::IntegerDivide,
        RealInstruction::IntegerModulo => RealInstruction::IntegerModulo,
        RealInstruction::IntegerPower => RealInstruction::IntegerPower,
        RealInstruction::IntegerNegate => RealInstruction::IntegerNegate,
        RealInstruction::IntegerBitwiseAnd => RealInstruction::IntegerBitwiseAnd,
        RealInstruction::IntegerBitwiseOr => RealInstruction::IntegerBitwiseOr,
        RealInstruction::IntegerBitwiseXor => RealInstruction::IntegerBitwiseXor,
        RealInstruction::IntegerBitwiseNot => RealInstruction::IntegerBitwiseNot,
        RealInstruction::IntegerShiftLeft => RealInstruction::IntegerShiftLeft,
        RealInstruction::IntegerShiftRight => RealInstruction::IntegerShiftRight,
        RealInstruction::DecimalNew(a) => RealInstruction::DecimalNew(a.clone()),
        RealInstruction::DecimalAdd => RealInstruction::DecimalAdd,
        RealInstruction::DecimalSubtract => RealInstruction::DecimalSubtract,
        RealInstruction::DecimalMultiply => RealInstruction::DecimalMultiply,
        RealInstruction::DecimalDivide => RealInstruction::DecimalDivide,
        RealInstruction::DecimalModulo => RealInstruction::DecimalModulo,
        RealInstruction::DecimalPower => RealInstruction::DecimalPower,
        RealInstruction::DecimalNegate => RealInstruction::DecimalNegate,
        RealInstruction::StringNew(a) => RealInstruction::StringNew(a.clone()),
        RealInstruction::StringConcat => RealInstruction::StringConcat,
        RealInstruction::StringLength => RealInstruction::StringLength,
        RealInstruction::BooleanNew(a) => RealInstruction::BooleanNew(*a),
        RealInstruction::BooleanAnd => RealInstruction::BooleanAnd,
        RealInstruction::BooleanOr => RealInstruction::BooleanOr,
        RealInstruction::BooleanNot => RealInstruction::BooleanNot,
        RealInstruction::CharacterNew(a) => RealInstruction::CharacterNew(*a),
        RealInstruction::RequestValue(a) => RealInstruction::RequestValue(a.clone()),
        RealInstruction::SetValue(a) => RealInstruction::SetValue(a.clone()),
        RealInstruction::Compare(a) => RealInstruction::Compare(*a),
        RealInstruction::Goto(a, b) => RealInstruction::Goto(*a, *b),
        RealInstruction::Store(a) => RealInstruction::Store(a.clone()),
        RealInstruction::Lookup(a) => RealInstruction::Lookup(a.clone()),
        RealInstruction::GlobalStore(a) => RealInstruction::GlobalStore(a.clone()),
        RealInstruction::GlobalLookup(a) => RealInstruction::GlobalLookup(a.clone()),
        RealInstruction::Write => RealInstruction::Write,
        RealInstruction::Read => RealInstruction::Read,
        RealInstruction::GetStringRef(a, b) => RealInstruction::GetStringRef(a.clone(), *b),
        RealInstruction::Cast(a) => RealInstruction::Cast(a.clone()),
    }
}
impl Clone for Value {
    fn clone(&self) -> (r: Self)
        ensures
            r@ == self@,
    {
        clone_value(self)
    }
}

} // verus!
