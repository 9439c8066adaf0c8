//! The instruction set: operations and where in the source they stand.

use vstd::prelude::*;
use crate::program::{FunctionPath, StringTablePath};
use crate::value::decimal::{Decimal, DecimalModel};
use crate::value::integer::{Integer, IntegerModel};
use crate::value::vector::VectorType;
use crate::value::{Value, ValueModel, ValueType, clone_operation, operation_model};

verus! {

/// An operation with its position in the source text.
#[derive(Debug)]
pub struct Instruction {
    pub row: usize,
    pub column: usize,
    pub instruction: RealInstruction,
}

/// What an `Instruction` is.
pub struct InstructionModel {
    pub row: usize,
    pub column: usize,
    pub instruction: OperationModel,
}

impl View for Instruction {
    type V = InstructionModel;

    open spec fn view(&self) -> InstructionModel {
        InstructionModel {
            row: self.row,
            column: self.column,
            instruction: operation_model(self.instruction),
        }
    }
}

impl Instruction {
    /// The operation at the start of the source text.
    pub fn new(instruction: RealInstruction) -> (r: Self)
        ensures
            r.row == 0,
            r.column == 0,
            r.instruction == instruction,
    {
        Instruction { row: 0, column: 0, instruction }
    }

    /// The operation at a position in the source text.
    pub fn at(row: usize, column: usize, instruction: RealInstruction) -> (r: Self)
        ensures
            r.row == row,
            r.column == column,
            r.instruction == instruction,
    {
        Instruction { row, column, instruction }
    }
}

impl Clone for Instruction {
    fn clone(&self) -> (r: Self)
        ensures
            r@ == self@,
    {
        Instruction {
            row: self.row,
            column: self.column,
            instruction: clone_operation(&self.instruction),
        }
    }
}

/// Where a call or a closure takes its function from.
#[derive(Debug)]
pub enum FunctionSource {
    /// A function of the module tree.
    Name(FunctionPath),
    /// A reference on the stack.
    Address,
    /// A function value on the stack.
    Stack,
}

/// What a `FunctionSource` is.
pub enum FunctionSourceModel {
    Name(Seq<Seq<char>>),
    Address,
    Stack,
}

impl View for FunctionSource {
    type V = FunctionSourceModel;

    open spec fn view(&self) -> FunctionSourceModel {
        match *self {
            FunctionSource::Name(path) => FunctionSourceModel::Name(path@),
            FunctionSource::Address => FunctionSourceModel::Address,
            FunctionSource::Stack => FunctionSourceModel::Stack,
        }
    }
}

impl Clone for FunctionSource {
    fn clone(&self) -> (r: Self)
        ensures
            r@ == self@,
    {
        match self {
            FunctionSource::Name(path) => FunctionSource::Name(path.clone()),
            FunctionSource::Address => FunctionSource::Address,
            FunctionSource::Stack => FunctionSource::Stack,
        }
    }
}

/// Where a jump goes.
#[derive(Clone, Copy, Debug, PartialEq, Eq, Structural)]
pub enum JumpTarget {
    /// An offset from the address of the jump itself; negative offsets go
    /// backward.
    Relative(isize),
    /// An index into the code of the current function.
    Absolute(usize),
}

/// When a jump, a call or a return is taken.
#[derive(Clone, Copy, Debug, PartialEq, Eq, Structural)]
pub enum Condition {
    /// In every state.
    Always,
    /// When the last comparison recorded an equal result.
    Equal,
    NotEqual,
    GreaterThan,
    GreaterThanOrEqual,
    LessThan,
    LessThanOrEqual,
    /// When the last numeric result was zero.
    Zero,
    NotZero,
    /// Reserved: no operation records a carry, so it is never met.
    Carry,
    /// Reserved, and never met either.
    NotCarry,
    /// When the last numeric result was negative.
    Negative,
    NotNegative,
}

/// The relation that a comparison asks about.
#[derive(Clone, Copy, Debug, PartialEq, Eq, Structural)]
pub enum ComparisonType {
    Equal,
    NotEqual,
    GreaterThan,
    GreaterThanOrEqual,
    LessThan,
    LessThanOrEqual,
}

/// The operations of the machine.
#[derive(Debug)]
pub enum RealInstruction {
    // Control
    Halt,
    NoOp,
    // Stack
    Push(Value),
    Pop,
    Duplicate,
    // Tuple
    TupleNew,
    TupleGet,
    // Vector
    VectorNew(VectorType),
    VectorGet,
    VectorSet,
    VectorLength,
    // Product
    ProductNew(usize),
    ProductGet(String),
    ProductSet(usize),
    // Sum
    SumNew(String),
    SumGet(String),
    SumSet(String),
    // Function
    FunctionCall(FunctionSource, Condition),
    Return(Condition),
    ClosureNew(FunctionSource),
    // Reference
    ReferenceNew,
    ReferenceGet,
    ReferenceSet,
    ReferenceSetShared,
    // Integer
    IntegerNew(Integer),
    IntegerAdd,
    IntegerSubtract,
    IntegerMultiply,
    IntegerDivide,
    IntegerModulo,
    IntegerPower,
    IntegerNegate,
    IntegerBitwiseAnd,
    IntegerBitwiseOr,
    IntegerBitwiseXor,
    IntegerBitwiseNot,
    IntegerShiftLeft,
    IntegerShiftRight,
    // Decimal
    DecimalNew(Decimal),
    DecimalAdd,
    DecimalSubtract,
    DecimalMultiply,
    DecimalDivide,
    DecimalModulo,
    DecimalPower,
    DecimalNegate,
    // String
    StringNew(String),
    StringConcat,
    StringLength,
    // Boolean
    BooleanNew(bool),
    BooleanAnd,
    BooleanOr,
    BooleanNot,
    // Character
    CharacterNew(char),
    // Host store
    RequestValue(String),
    SetValue(String),
    // Control
    Compare(ComparisonType),
    Goto(JumpTarget, Condition),
    // Store
    Store(String),
    Lookup(String),
    GlobalStore(String),
    GlobalLookup(String),
    // Host streams
    Write,
    Read,
    // String table
    GetStringRef(StringTablePath, usize),
    // Cast
    Cast(ValueType),
}

/// What a `RealInstruction` is.
pub enum OperationModel {
    // Control
    Halt,
    NoOp,
    // Stack
    Push(ValueModel),
    Pop,
    Duplicate,
    // Tuple
    TupleNew,
    TupleGet,
    // Vector
    VectorNew(VectorType),
    VectorGet,
    VectorSet,
    VectorLength,
    // Product
    ProductNew(usize),
    ProductGet(Seq<char>),
    ProductSet(usize),
    // Sum
    SumNew(Seq<char>),
    SumGet(Seq<char>),
    SumSet(Seq<char>),
    // Function
    FunctionCall(FunctionSourceModel, Condition),
    Return(Condition),
    ClosureNew(FunctionSourceModel),
    // Reference
    ReferenceNew,
    ReferenceGet,
    ReferenceSet,
    ReferenceSetShared,
    // Integer
    IntegerNew(IntegerModel),
    IntegerAdd,
    IntegerSubtract,
    IntegerMultiply,
    IntegerDivide,
    IntegerModulo,
    IntegerPower,
    IntegerNegate,
    IntegerBitwiseAnd,
    IntegerBitwiseOr,
    IntegerBitwiseXor,
    IntegerBitwiseNot,
    IntegerShiftLeft,
    IntegerShiftRight,
    // Decimal
    DecimalNew(DecimalModel),
    DecimalAdd,
    DecimalSubtract,
    DecimalMultiply,
    DecimalDivide,
    DecimalModulo,
    DecimalPower,
    DecimalNegate,
    // String
    StringNew(Seq<char>),
    StringConcat,
    StringLength,
    // Boolean
    BooleanNew(bool),
    BooleanAnd,
    BooleanOr,
    BooleanNot,
    // Character
    CharacterNew(char),
    // Host store
    RequestValue(Seq<char>),
    SetValue(Seq<char>),
    // Control
    Compare(ComparisonType),
    Goto(JumpTarget, Condition),
    // Store
    Store(Seq<char>),
    Lookup(Seq<char>),
    GlobalStore(Seq<char>),
    GlobalLookup(Seq<char>),
    // Host streams
    Write,
    Read,
    // String table
    GetStringRef(Seq<Seq<char>>, usize),
    // Cast
    Cast(ValueType),
}

impl View for RealInstruction {
    type V = OperationModel;

    open spec fn view(&self) -> OperationModel {
        operation_model(*self)
    }
}

impl Clone for RealInstruction {
    fn clone(&self) -> (r: Self)
        ensures
            r@ == self@,
    {
        clone_operation(self)
    }
}

/// The name under which a condition is written.
pub open spec fn condition_name(value: Condition) -> Seq<char> {
    match value {
        Condition::Always => "always"@,
        Condition::Equal => "equal"@,
        Condition::NotEqual => "not_equal"@,
        Condition::GreaterThan => "greater_than"@,
        Condition::GreaterThanOrEqual => "greater_than_or_equal"@,
        Condition::LessThan => "less_than"@,
        Condition::LessThanOrEqual => "less_than_or_equal"@,
        Condition::Zero => "zero"@,
        Condition::NotZero => "not_zero"@,
        Condition::Carry => "carry"@,
        Condition::NotCarry => "not_carry"@,
        Condition::Negative => "negative"@,
        Condition::NotNegative => "not_negative"@,
    }
}

impl Condition {
    /// The name under which a condition is written.
    pub fn name(&self) -> (r: &'static str)
        ensures
            r@ == condition_name(*self),
    {
        match self {
            Condition::Always => "always",
            Condition::Equal => "equal",
            Condition::NotEqual => "not_equal",
            Condition::GreaterThan => "greater_than",
            Condition::GreaterThanOrEqual => "greater_than_or_equal",
            Condition::LessThan => "less_than",
            Condition::LessThanOrEqual => "less_than_or_equal",
            Condition::Zero => "zero",
            Condition::NotZero => "not_zero",
            Condition::Carry => "carry",
            Condition::NotCarry => "not_carry",
            Condition::Negative => "negative",
            Condition::NotNegative => "not_negative",
        }
    }
}

/// The name under which a comparison is written.
pub open spec fn comparison_name(value: ComparisonType) -> Seq<char> {
    match value {
        ComparisonType::Equal => "equal"@,
        ComparisonType::NotEqual => "not_equal"@,
        ComparisonType::GreaterThan => "greater_than"@,
        ComparisonType::GreaterThanOrEqual => "greater_than_or_equal"@,
        ComparisonType::LessThan => "less_than"@,
        ComparisonType::LessThanOrEqual => "less_than_or_equal"@,
    }
}

impl ComparisonType {
    /// The name under which a comparison is written.
    pub fn name(&self) -> (r: &'static str)
        ensures
            r@ == comparison_name(*self),
    {
        match self {
            ComparisonType::Equal => "equal",
            ComparisonType::NotEqual => "not_equal",
            ComparisonType::GreaterThan => "greater_than",
            ComparisonType::GreaterThanOrEqual => "greater_than_or_equal",
            ComparisonType::LessThan => "less_than",
            ComparisonType::LessThanOrEqual => "less_than_or_equal",
        }
    }
}

} // verus!
