//! The evaluator: one step of the machine on one instruction.
//!
//! What a step does is defined once, on models, by `execute_model` and the
//! functions it is made of. `Core::execute_instruction` is proved to do
//! exactly that.

use vstd::prelude::*;
use crate::instruction::{
    ComparisonType, Condition, FunctionSource, FunctionSourceModel, Instruction, JumpTarget,
    OperationModel, RealInstruction,
};
use crate::machine::environment::Environment;
use crate::machine::{
    Arithmetic, Fault, FaultModel, HostReply, HostReplyModel, HostRequest, HostRequestModel,
    InstructionResult, VerdictModel,
};
use crate::program::module::{Module, ModuleModel, function_at, string_at};
use crate::program::{StringTablePath, texts};
use crate::stack::Stack;
use crate::value::cast::{Conversion, cast_model};
use crate::value::decimal::{
    Decimal, DecimalModel, DecimalType, Raised, RaisedModel, decimal_is_negative,
    decimal_is_zero, decimal_kind, decimal_negation, powi_model,
};
use crate::value::function::FunctionModel;
use crate::value::integer::{
    Integer, IntegerModel, IntegerType, Relation, bits_and, bits_left, bits_or, bits_right,
    bits_xor, bitwise_model, complement_model, difference_model, negation_model, outcome,
    power_model, product_model, quotient_model, remainder_model, shift_model, sum_model,
};
use crate::value::rational::{
    Rational, RationalModel, fraction_difference, fraction_product, fraction_quotient,
    fraction_sum,
};
use crate::value::text::{joined, length_of_text};
use crate::value::order::{Standing, standing, standing_of};
use crate::value::product::{ProductModel, place_of, with_field};
use crate::value::sum::SumModel;
use crate::value::tuple::Tuple;
use crate::value::vector::{Vector, VectorType, fetched, stored, zeros};
use crate::value::{Value, ValueModel, ValueType, clone_value, lemma_values_model_subrange};

verus! {

/// The relation that the last comparison recorded.
#[derive(Clone, Copy, Debug, PartialEq, Eq, Structural)]
pub enum Comparison {
    /// Nothing was compared yet in this frame.
    Unset,
    Equal,
    NotEqual,
    LessThan,
    LessThanOrEqual,
    GreaterThan,
    GreaterThanOrEqual,
}

/// The flag register of a frame.
#[derive(Clone, Copy, Debug, PartialEq, Eq, Structural)]
pub struct CoreFlags {
    pub comparison: Comparison,
    pub negative: bool,
    pub zero: bool,
}

/// The flags that a frame is entered with.
pub open spec fn initial_flags() -> CoreFlags {
    CoreFlags { comparison: Comparison::Unset, negative: false, zero: false }
}

/// The state that all frames share: the flags of the running frame, the
/// operand stack and the bindings of the module scope.
#[derive(Debug)]
pub struct Core {
    pub flags: CoreFlags,
    pub stack: Stack,
    pub globals: Environment,
}

/// What a `Core` is.
pub struct CoreModel {
    pub flags: CoreFlags,
    pub stack: Seq<ValueModel>,
    pub globals: Map<Seq<char>, ValueModel>,
}

impl View for Core {
    type V = CoreModel;

    open spec fn view(&self) -> CoreModel {
        CoreModel { flags: self.flags, stack: self.stack@, globals: self.globals@ }
    }
}

/// What an operation comes to before the program counter moves: a fault,
/// or a request to the host, or neither; and the state it leaves.
pub struct Outcome {
    pub result: Result<Option<HostRequestModel>, FaultModel>,
    pub core: CoreModel,
}

/// The view of what an operation handed back.
pub open spec fn handed(r: Result<Option<HostRequest>, Fault>) -> Result<
    Option<HostRequestModel>,
    FaultModel,
> {
    match r {
        Ok(Some(request)) => Ok(Some(request@)),
        Ok(None) => Ok(None),
        Err(f) => Err(f@),
    }
}

/// The stack without its top `count` values.
pub open spec fn below(stack: Seq<ValueModel>, count: int) -> Seq<ValueModel> {
    stack.subrange(0, stack.len() - count)
}

/// The value `depth` places under the top.
pub open spec fn under(stack: Seq<ValueModel>, depth: int) -> ValueModel {
    stack[stack.len() - 1 - depth]
}

/// The state with the stack replaced.
pub open spec fn with_stack(core: CoreModel, stack: Seq<ValueModel>) -> CoreModel {
    CoreModel { flags: core.flags, stack, globals: core.globals }
}

/// The state with the stack replaced and the flags `zero` and `negative`
/// taken from a numeric result.
pub open spec fn scored(core: CoreModel, stack: Seq<ValueModel>, zero: bool, negative: bool)
    -> CoreModel {
    CoreModel {
        flags: CoreFlags { comparison: core.flags.comparison, negative, zero },
        stack,
        globals: core.globals,
    }
}

/// The operation is carried out and asks nothing of the host.
pub open spec fn done(core: CoreModel) -> Outcome {
    Outcome { result: Ok(None), core }
}

/// The operation fails.
pub open spec fn failed(fault: FaultModel, core: CoreModel) -> Outcome {
    Outcome { result: Err(fault), core }
}

/// The operation hands a request to the host.
pub open spec fn asked(request: HostRequestModel, core: CoreModel) -> Outcome {
    Outcome { result: Ok(Some(request)), core }
}

/// The operation lacks operands: nothing changes.
pub open spec fn starved(core: CoreModel) -> Outcome {
    failed(FaultModel::InvalidInstruction, core)
}

// ---------------------------------------------------------------------
// Conditions
// ---------------------------------------------------------------------
/// Whether the flags meet a condition.
pub open spec fn can_jump_model(flags: CoreFlags, condition: Condition) -> bool {
    match condition {
        Condition::Always => true,
        Condition::Equal => flags.comparison == Comparison::Equal,
        Condition::NotEqual => flags.comparison == Comparison::NotEqual,
        Condition::LessThan => flags.comparison == Comparison::LessThan,
        Condition::LessThanOrEqual => flags.comparison == Comparison::LessThanOrEqual,
        Condition::GreaterThan => flags.comparison == Comparison::GreaterThan,
        Condition::GreaterThanOrEqual => flags.comparison == Comparison::GreaterThanOrEqual,
        Condition::Negative => flags.negative,
        Condition::NotNegative => !flags.negative,
        Condition::Zero => flags.zero,
        Condition::NotZero => !flags.zero,
        Condition::Carry => false,
        Condition::NotCarry => false,
    }
}

// ---------------------------------------------------------------------
// Comparison
// ---------------------------------------------------------------------
/// Whether the relation that a comparison asks about holds of two values
/// that stand to each other in this way.
pub open spec fn holds_of(kind: ComparisonType, relation: Relation) -> bool {
    match kind {
        ComparisonType::Equal => relation == Relation::Equal,
        ComparisonType::NotEqual => relation != Relation::Equal,
        ComparisonType::LessThan => relation == Relation::Less,
        ComparisonType::LessThanOrEqual => relation == Relation::Less || relation
            == Relation::Equal,
        ComparisonType::GreaterThan => relation == Relation::Greater,
        ComparisonType::GreaterThanOrEqual => relation == Relation::Greater || relation
            == Relation::Equal,
    }
}

/// The flag that a comparison records: the relation asked about where it
/// holds, its complement where it does not.
pub open spec fn flag_for(kind: ComparisonType, holds: bool) -> Comparison {
    match kind {
        ComparisonType::Equal => if holds {
            Comparison::Equal
        } else {
            Comparison::NotEqual
        },
        ComparisonType::NotEqual => if holds {
            Comparison::NotEqual
        } else {
            Comparison::Equal
        },
        ComparisonType::LessThan => if holds {
            Comparison::LessThan
        } else {
            Comparison::GreaterThanOrEqual
        },
        ComparisonType::LessThanOrEqual => if holds {
            Comparison::LessThanOrEqual
        } else {
            Comparison::GreaterThan
        },
        ComparisonType::GreaterThan => if holds {
            Comparison::GreaterThan
        } else {
            Comparison::LessThanOrEqual
        },
        ComparisonType::GreaterThanOrEqual => if holds {
            Comparison::GreaterThanOrEqual
        } else {
            Comparison::LessThan
        },
    }
}

/// The condition that asks for a recorded relation.
pub open spec fn condition_for(flag: Comparison) -> Condition {
    match flag {
        Comparison::Equal => Condition::Equal,
        Comparison::NotEqual => Condition::NotEqual,
        Comparison::LessThan => Condition::LessThan,
        Comparison::LessThanOrEqual => Condition::LessThanOrEqual,
        Comparison::GreaterThan => Condition::GreaterThan,
        Comparison::GreaterThanOrEqual => Condition::GreaterThanOrEqual,
        Comparison::Unset => Condition::Carry,
    }
}

/// The state with the comparison flag replaced.
pub open spec fn with_comparison(core: CoreModel, flag: Comparison) -> CoreModel {
    CoreModel {
        flags: CoreFlags { comparison: flag, negative: core.flags.negative, zero: core.flags.zero },
        stack: core.stack,
        globals: core.globals,
    }
}

/// `Compare` looks at the two values on top, the right one topmost, and
/// records the flag; the stack stays as it is.
pub open spec fn compare_model(core: CoreModel, kind: ComparisonType) -> Outcome {
    if core.stack.len() < 2 {
        starved(core)
    } else {
        let left = under(core.stack, 1);
        let right = under(core.stack, 0);
        match standing(left, right) {
            Standing::Known(relation) => done(
                with_comparison(core, flag_for(kind, holds_of(kind, relation))),
            ),
            Standing::Deferred => asked(
                HostRequestModel::Compare(kind, left->Decimal_0, right->Decimal_0),
                core,
            ),
            Standing::Unsupported => failed(FaultModel::TypeMismatch, core),
        }
    }
}

// ---------------------------------------------------------------------
// Stack, store and load
// ---------------------------------------------------------------------
/// A value is put on top of the stack.
pub open spec fn push_model(core: CoreModel, value: ValueModel) -> Outcome {
    done(with_stack(core, core.stack.push(value)))
}

/// `Pop` takes the top value off.
pub open spec fn pop_model(core: CoreModel) -> Outcome {
    if core.stack.len() < 1 {
        starved(core)
    } else {
        done(with_stack(core, below(core.stack, 1)))
    }
}

/// `Duplicate` puts a copy of the top value on top.
pub open spec fn duplicate_model(core: CoreModel) -> Outcome {
    if core.stack.len() < 1 {
        starved(core)
    } else {
        done(with_stack(core, core.stack.push(under(core.stack, 0))))
    }
}

/// `Lookup` pushes what a name is bound to; `NameNotFound` where it is
/// not bound.
pub open spec fn lookup_model(
    core: CoreModel,
    bound: Map<Seq<char>, ValueModel>,
    name: Seq<char>,
) -> Outcome {
    if bound.contains_key(name) {
        push_model(core, bound[name])
    } else {
        failed(FaultModel::NameNotFound(name), core)
    }
}

/// `GlobalStore` binds the top value in the module scope.
pub open spec fn global_store_model(core: CoreModel, name: Seq<char>) -> Outcome {
    if core.stack.len() < 1 {
        starved(core)
    } else {
        done(
            CoreModel {
                flags: core.flags,
                stack: below(core.stack, 1),
                globals: core.globals.insert(name, under(core.stack, 0)),
            },
        )
    }
}

// ---------------------------------------------------------------------
// Integers
// ---------------------------------------------------------------------
/// Whether an operation computes on two integers.
pub open spec fn is_integer_binary(operation: OperationModel) -> bool {
    operation is IntegerAdd || operation is IntegerSubtract || operation is IntegerMultiply
        || operation is IntegerDivide || operation is IntegerModulo || operation is IntegerPower
        || operation is IntegerBitwiseAnd || operation is IntegerBitwiseOr
        || operation is IntegerBitwiseXor || operation is IntegerShiftLeft
        || operation is IntegerShiftRight
}

/// What an operation on two integers computes.
pub open spec fn integer_result(operation: OperationModel, left: IntegerModel, right: IntegerModel)
    -> Result<IntegerModel, FaultModel> {
    match operation {
        OperationModel::IntegerAdd => sum_model(left, right),
        OperationModel::IntegerSubtract => difference_model(left, right),
        OperationModel::IntegerMultiply => product_model(left, right),
        OperationModel::IntegerDivide => quotient_model(left, right),
        OperationModel::IntegerModulo => remainder_model(left, right),
        OperationModel::IntegerPower => power_model(left, right),
        OperationModel::IntegerBitwiseAnd => bitwise_model(
            left,
            right,
            bits_and(left.kind, left.value, right.value),
        ),
        OperationModel::IntegerBitwiseOr => bitwise_model(
            left,
            right,
            bits_or(left.kind, left.value, right.value),
        ),
        OperationModel::IntegerBitwiseXor => bitwise_model(
            left,
            right,
            bits_xor(left.kind, left.value, right.value),
        ),
        OperationModel::IntegerShiftLeft => shift_model(
            left,
            right,
            bits_left(left.kind, left.value, right.value),
        ),
        OperationModel::IntegerShiftRight => shift_model(
            left,
            right,
            bits_right(left.kind, left.value, right.value),
        ),
        _ => Err(FaultModel::InvalidInstruction),
    }
}

/// The state after a numeric result was pushed on what is left of the
/// stack.
pub open spec fn integer_pushed(core: CoreModel, rest: Seq<ValueModel>, value: IntegerModel)
    -> CoreModel {
    scored(core, rest.push(ValueModel::Integer(value)), value.value == 0, value.value < 0)
}

/// An operation on two integers takes the right operand from the top and
/// the left one from under it, and pushes the result. On a fault the
/// operands are gone and the flags are as they were.
pub open spec fn integer_binary_model(core: CoreModel, operation: OperationModel) -> Outcome {
    if core.stack.len() < 2 {
        starved(core)
    } else {
        let rest = below(core.stack, 2);
        match (under(core.stack, 1), under(core.stack, 0)) {
            (ValueModel::Integer(left), ValueModel::Integer(right)) => match integer_result(
                operation,
                left,
                right,
            ) {
                Ok(value) => done(integer_pushed(core, rest, value)),
                Err(fault) => failed(fault, with_stack(core, rest)),
            },
            _ => failed(FaultModel::NotAnInteger, with_stack(core, rest)),
        }
    }
}

/// `IntegerNegate` replaces the top integer by its negation.
pub open spec fn integer_negate_model(core: CoreModel) -> Outcome {
    if core.stack.len() < 1 {
        starved(core)
    } else {
        let rest = below(core.stack, 1);
        match under(core.stack, 0) {
            ValueModel::Integer(value) => done(integer_pushed(core, rest, negation_model(value))),
            _ => failed(FaultModel::NotAnInteger, with_stack(core, rest)),
        }
    }
}

/// `IntegerBitwiseNot` replaces the top integer by its complement.
pub open spec fn integer_not_model(core: CoreModel) -> Outcome {
    if core.stack.len() < 1 {
        starved(core)
    } else {
        let rest = below(core.stack, 1);
        match under(core.stack, 0) {
            ValueModel::Integer(value) => match complement_model(value) {
                Ok(result) => done(integer_pushed(core, rest, result)),
                Err(fault) => failed(fault, with_stack(core, rest)),
            },
            _ => failed(FaultModel::NotAnInteger, with_stack(core, rest)),
        }
    }
}

// ---------------------------------------------------------------------
// Decimals
// ---------------------------------------------------------------------
/// The state after a decimal result was pushed on what is left of the
/// stack.
pub open spec fn decimal_pushed(core: CoreModel, rest: Seq<ValueModel>, value: DecimalModel)
    -> CoreModel {
    scored(
        core,
        rest.push(ValueModel::Decimal(value)),
        decimal_is_zero(value),
        decimal_is_negative(value),
    )
}

/// What an operation on two fractions computes. There is no remainder and
/// no fractional power of fractions.
pub open spec fn fraction_result(operation: Arithmetic, left: RationalModel, right: RationalModel)
    -> Result<RationalModel, FaultModel> {
    match operation {
        Arithmetic::Add => Ok(fraction_sum(left, right)),
        Arithmetic::Subtract => Ok(fraction_difference(left, right)),
        Arithmetic::Multiply => Ok(fraction_product(left, right)),
        Arithmetic::Divide => Ok(fraction_quotient(left, right)),
        _ => Err(FaultModel::TypeMismatch),
    }
}

/// An operation on two decimals. Two fractions are computed with; two
/// floating-point numbers are handed to the host; a fraction and a
/// floating-point number are a `TypeMismatch`. Division and remainder by
/// a zero are `DivisionByZero` before anything else is looked at.
pub open spec fn decimal_binary_model(core: CoreModel, operation: Arithmetic) -> Outcome {
    if core.stack.len() < 2 {
        starved(core)
    } else {
        let rest = below(core.stack, 2);
        match (under(core.stack, 1), under(core.stack, 0)) {
            (ValueModel::Decimal(left), ValueModel::Decimal(right)) => {
                if (operation == Arithmetic::Divide || operation == Arithmetic::Modulo)
                    && decimal_is_zero(right) {
                    failed(FaultModel::DivisionByZero, with_stack(core, rest))
                } else {
                    match (left, right) {
                        (
                            DecimalModel::Rational(a),
                            DecimalModel::Rational(b),
                        ) => match fraction_result(operation, a, b) {
                            Ok(q) => done(decimal_pushed(core, rest, DecimalModel::Rational(q))),
                            Err(fault) => failed(fault, with_stack(core, rest)),
                        },
                        (DecimalModel::Rational(_), _) => failed(
                            FaultModel::TypeMismatch,
                            with_stack(core, rest),
                        ),
                        (_, DecimalModel::Rational(_)) => failed(
                            FaultModel::TypeMismatch,
                            with_stack(core, rest),
                        ),
                        _ => asked(
                            HostRequestModel::Arithmetic(operation, left, right),
                            with_stack(core, rest),
                        ),
                    }
                }
            },
            _ => failed(FaultModel::NotAnInteger, with_stack(core, rest)),
        }
    }
}

/// `DecimalPower` takes a decimal base and, from the top, an integer or a
/// decimal exponent. A fraction is raised to a whole power here; a
/// floating-point base is handed to the host with its exponent; a
/// fraction and a decimal exponent are a `TypeMismatch`.
pub open spec fn decimal_power_model(core: CoreModel) -> Outcome {
    if core.stack.len() < 2 {
        starved(core)
    } else {
        let rest = below(core.stack, 2);
        let gone = with_stack(core, rest);
        match (under(core.stack, 1), under(core.stack, 0)) {
            (ValueModel::Decimal(base), ValueModel::Integer(exponent)) => match powi_model(
                base,
                exponent,
            ) {
                Ok(RaisedModel::Done(power)) => done(decimal_pushed(core, rest, power)),
                Ok(RaisedModel::Deferred(e)) => asked(
                    HostRequestModel::PowerInteger(base, e),
                    gone,
                ),
                Err(fault) => failed(fault, gone),
            },
            (ValueModel::Decimal(base), ValueModel::Decimal(exponent)) => if base is Rational
                || exponent is Rational {
                failed(FaultModel::TypeMismatch, gone)
            } else {
                asked(HostRequestModel::Arithmetic(Arithmetic::Power, base, exponent), gone)
            },
            _ => failed(FaultModel::NotAnInteger, gone),
        }
    }
}

/// `DecimalNegate` replaces the top decimal by its negation.
pub open spec fn decimal_negate_model(core: CoreModel) -> Outcome {
    if core.stack.len() < 1 {
        starved(core)
    } else {
        let rest = below(core.stack, 1);
        match under(core.stack, 0) {
            ValueModel::Decimal(value) => done(
                decimal_pushed(core, rest, decimal_negation(value)),
            ),
            _ => failed(FaultModel::NotAnInteger, with_stack(core, rest)),
        }
    }
}

// ---------------------------------------------------------------------
// Truth values and strings
// ---------------------------------------------------------------------
/// `BooleanAnd` and `BooleanOr` replace two truth values by one.
pub open spec fn boolean_binary_model(core: CoreModel, conjunction: bool) -> Outcome {
    if core.stack.len() < 2 {
        starved(core)
    } else {
        let rest = below(core.stack, 2);
        match (under(core.stack, 1), under(core.stack, 0)) {
            (ValueModel::Boolean(left), ValueModel::Boolean(right)) => done(
                with_stack(
                    core,
                    rest.push(
                        ValueModel::Boolean(
                            if conjunction {
                                left && right
                            } else {
                                left || right
                            },
                        ),
                    ),
                ),
            ),
            _ => failed(FaultModel::NotABoolean, with_stack(core, rest)),
        }
    }
}

/// `BooleanNot` replaces the top truth value by the other one.
pub open spec fn boolean_not_model(core: CoreModel) -> Outcome {
    if core.stack.len() < 1 {
        starved(core)
    } else {
        let rest = below(core.stack, 1);
        match under(core.stack, 0) {
            ValueModel::Boolean(value) => done(
                with_stack(core, rest.push(ValueModel::Boolean(!value))),
            ),
            _ => failed(FaultModel::NotABoolean, with_stack(core, rest)),
        }
    }
}

/// `StringConcat` replaces two strings by the left one followed by the
/// right one.
pub open spec fn string_concat_model(core: CoreModel) -> Outcome {
    if core.stack.len() < 2 {
        starved(core)
    } else {
        let rest = below(core.stack, 2);
        match (under(core.stack, 1), under(core.stack, 0)) {
            (ValueModel::String(left), ValueModel::String(right)) => done(
                with_stack(core, rest.push(ValueModel::String(left + right))),
            ),
            _ => failed(FaultModel::InvalidString, with_stack(core, rest)),
        }
    }
}

/// A length as a value: a `U64`.
pub open spec fn length_value(length: nat) -> ValueModel {
    ValueModel::Integer(IntegerModel { kind: IntegerType::U64, value: length as int })
}

/// `StringLength` replaces a string by the number of its characters.
pub open spec fn string_length_model(core: CoreModel) -> Outcome {
    if core.stack.len() < 1 {
        starved(core)
    } else {
        let rest = below(core.stack, 1);
        match under(core.stack, 0) {
            ValueModel::String(text) => done(with_stack(core, rest.push(length_value(text.len())))),
            _ => failed(FaultModel::InvalidString, with_stack(core, rest)),
        }
    }
}

// ---------------------------------------------------------------------
// Tuples and vectors
// ---------------------------------------------------------------------
/// `TupleNew` takes a count from the top and then that many values; the
/// value pushed first becomes the first element.
pub open spec fn tuple_new_model(core: CoreModel) -> Outcome {
    if core.stack.len() < 1 {
        starved(core)
    } else {
        let rest = below(core.stack, 1);
        match under(core.stack, 0) {
            ValueModel::Integer(count) => if count.value < 0 || count.value > rest.len() {
                failed(FaultModel::InvalidInstruction, with_stack(core, rest))
            } else {
                done(
                    with_stack(
                        core,
                        below(rest, count.value).push(
                            ValueModel::Tuple(
                                rest.subrange(rest.len() - count.value, rest.len() as int),
                            ),
                        ),
                    ),
                )
            },
            _ => failed(FaultModel::NotAnInteger, with_stack(core, rest)),
        }
    }
}

/// `TupleGet` takes an index from the top and a tuple from under it, and
/// puts back the tuple and, on it, the element. Past the end the tuple
/// is put back alone.
pub open spec fn tuple_get_model(core: CoreModel) -> Outcome {
    if core.stack.len() < 2 {
        starved(core)
    } else {
        let rest = below(core.stack, 2);
        match (under(core.stack, 1), under(core.stack, 0)) {
            (ValueModel::Tuple(tuple), ValueModel::Integer(index)) => {
                let kept = rest.push(ValueModel::Tuple(tuple));
                if 0 <= index.value < tuple.len() {
                    done(with_stack(core, kept.push(tuple[index.value])))
                } else {
                    failed(FaultModel::OutOfBounds, with_stack(core, kept))
                }
            },
            _ => failed(FaultModel::NotATuple, with_stack(core, rest)),
        }
    }
}

/// `ProductGet` puts the value of a field of the product on top of it;
/// `NameNotFound` where the product has no such field.
pub open spec fn product_get_model(core: CoreModel, name: Seq<char>) -> Outcome {
    if core.stack.len() < 1 {
        starved(core)
    } else {
        match under(core.stack, 0) {
            ValueModel::Product(product) => match place_of(product.fields, name) {
                Some(place) => done(with_stack(core, core.stack.push(product.fields[place].1))),
                None => failed(FaultModel::NameNotFound(name), core),
            },
            _ => failed(FaultModel::TypeMismatch, with_stack(core, below(core.stack, 1))),
        }
    }
}

/// `ProductSet` takes a value from the top and a product from under it,
/// and puts back the product with the field at a place replaced. Past
/// the last field the product is put back as it was.
pub open spec fn product_set_model(core: CoreModel, index: usize) -> Outcome {
    if core.stack.len() < 2 {
        starved(core)
    } else {
        let rest = below(core.stack, 2);
        match under(core.stack, 1) {
            ValueModel::Product(product) => if index < product.fields.len() {
                done(
                    with_stack(
                        core,
                        rest.push(
                            ValueModel::Product(
                                ProductModel {
                                    name: product.name,
                                    fields: with_field(
                                        product.fields,
                                        index as int,
                                        under(core.stack, 0),
                                    ),
                                },
                            ),
                        ),
                    ),
                )
            } else {
                failed(
                    FaultModel::OutOfBounds,
                    with_stack(core, rest.push(ValueModel::Product(product))),
                )
            },
            _ => failed(FaultModel::TypeMismatch, with_stack(core, rest)),
        }
    }
}

/// `SumGet` puts the value of a field of the sum on top of it;
/// `NameNotFound` where the sum has no such field.
pub open spec fn sum_get_model(core: CoreModel, name: Seq<char>) -> Outcome {
    if core.stack.len() < 1 {
        starved(core)
    } else {
        match under(core.stack, 0) {
            ValueModel::Sum(sum) => match place_of(sum.fields, name) {
                Some(place) => done(with_stack(core, core.stack.push(sum.fields[place].1))),
                None => failed(FaultModel::NameNotFound(name), core),
            },
            _ => failed(FaultModel::TypeMismatch, with_stack(core, below(core.stack, 1))),
        }
    }
}

/// `SumSet` takes a value from the top and a sum from under it, and puts
/// back the sum with the field of a name replaced. Where the sum has no
/// such field it is put back as it was.
pub open spec fn sum_set_model(core: CoreModel, name: Seq<char>) -> Outcome {
    if core.stack.len() < 2 {
        starved(core)
    } else {
        let rest = below(core.stack, 2);
        match under(core.stack, 1) {
            ValueModel::Sum(sum) => match place_of(sum.fields, name) {
                Some(place) => done(
                    with_stack(
                        core,
                        rest.push(
                            ValueModel::Sum(
                                SumModel {
                                    name: sum.name,
                                    tag: sum.tag,
                                    fields: with_field(sum.fields, place, under(core.stack, 0)),
                                },
                            ),
                        ),
                    ),
                ),
                None => failed(
                    FaultModel::NameNotFound(name),
                    with_stack(core, rest.push(ValueModel::Sum(sum))),
                ),
            },
            _ => failed(FaultModel::TypeMismatch, with_stack(core, rest)),
        }
    }
}

/// `VectorNew` takes a length from the top and pushes a vector of zeros;
/// a length that is no `usize` is `OutOfMemory`.
pub open spec fn vector_new_model(core: CoreModel, kind: VectorType) -> Outcome {
    if core.stack.len() < 1 {
        starved(core)
    } else {
        let rest = below(core.stack, 1);
        match under(core.stack, 0) {
            ValueModel::Integer(length) => if 0 <= length.value <= usize::MAX {
                done(
                    with_stack(
                        core,
                        rest.push(ValueModel::Vector(zeros(kind, length.value as nat))),
                    ),
                )
            } else {
                failed(FaultModel::OutOfMemory, with_stack(core, rest))
            },
            _ => failed(FaultModel::NotAnInteger, with_stack(core, rest)),
        }
    }
}

/// `VectorGet` takes an index from the top and a vector from under it,
/// and puts back the vector and, on it, the element. Past the end the
/// vector is put back alone.
pub open spec fn vector_get_model(core: CoreModel) -> Outcome {
    if core.stack.len() < 2 {
        starved(core)
    } else {
        let rest = below(core.stack, 2);
        match (under(core.stack, 1), under(core.stack, 0)) {
            (ValueModel::Vector(vector), ValueModel::Integer(index)) => {
                let kept = rest.push(ValueModel::Vector(vector));
                match fetched(vector, index.value) {
                    Ok(element) => done(with_stack(core, kept.push(element))),
                    Err(fault) => failed(fault, with_stack(core, kept)),
                }
            },
            _ => failed(FaultModel::NotAVector, with_stack(core, rest)),
        }
    }
}

/// `VectorSet` takes a value from the top, an index and a vector, and
/// puts back the vector with the element replaced. On a fault the vector
/// is put back as it was; value and index are gone.
pub open spec fn vector_set_model(core: CoreModel) -> Outcome {
    if core.stack.len() < 3 {
        starved(core)
    } else {
        let rest = below(core.stack, 3);
        match (under(core.stack, 2), under(core.stack, 1)) {
            (ValueModel::Vector(vector), ValueModel::Integer(index)) => match stored(
                vector,
                index.value,
                under(core.stack, 0),
            ) {
                Ok(changed) => done(with_stack(core, rest.push(ValueModel::Vector(changed)))),
                Err(fault) => failed(fault, with_stack(core, rest.push(ValueModel::Vector(vector)))),
            },
            _ => failed(FaultModel::NotAVector, with_stack(core, rest)),
        }
    }
}

/// `VectorLength` puts the length of the vector on top of it.
pub open spec fn vector_length_model(core: CoreModel) -> Outcome {
    if core.stack.len() < 1 {
        starved(core)
    } else {
        match under(core.stack, 0) {
            ValueModel::Vector(vector) => done(
                with_stack(core, core.stack.push(length_value(vector.items.len()))),
            ),
            _ => failed(FaultModel::NotAVector, with_stack(core, below(core.stack, 1))),
        }
    }
}

// ---------------------------------------------------------------------
// Closures, casts, the string table and the side channel
// ---------------------------------------------------------------------
/// `ClosureNew` pushes the named function with the bindings of the frame
/// as its captured environment.
pub open spec fn closure_new_model(
    core: CoreModel,
    source: FunctionSourceModel,
    bound: Map<Seq<char>, ValueModel>,
    module: ModuleModel,
) -> Outcome {
    match source {
        FunctionSourceModel::Name(path) => match function_at(module, path) {
            Some(function) => push_model(
                core,
                ValueModel::Function(
                    FunctionModel {
                        code: function.code,
                        argument_names: function.argument_names,
                        environment: bound,
                    },
                ),
            ),
            None => failed(FaultModel::FunctionNotFound(path), core),
        },
        _ => failed(FaultModel::InvalidInstruction, core),
    }
}

/// `Cast` replaces the top value by the value in the target type, or
/// hands value and type to the host.
pub open spec fn cast_step_model(core: CoreModel, target: ValueType) -> Outcome {
    if core.stack.len() < 1 {
        starved(core)
    } else {
        let rest = below(core.stack, 1);
        let value = under(core.stack, 0);
        match cast_model(value, target) {
            Ok(Conversion::Done(result)) => done(with_stack(core, rest.push(result))),
            Ok(Conversion::Deferred) => asked(
                HostRequestModel::Cast(value, target),
                with_stack(core, rest),
            ),
            Err(fault) => failed(fault, with_stack(core, rest)),
        }
    }
}

/// `GetStringRef` pushes a string of a string table; `InvalidString`
/// where the path or the index leads nowhere.
pub open spec fn string_ref_model(
    core: CoreModel,
    module: ModuleModel,
    path: Seq<Seq<char>>,
    index: usize,
) -> Outcome {
    match string_at(module, path, index as int) {
        Some(text) => push_model(core, ValueModel::String(text)),
        None => failed(FaultModel::InvalidString, core),
    }
}

/// `Write` hands the top value to the host.
pub open spec fn write_model(core: CoreModel) -> Outcome {
    if core.stack.len() < 1 {
        starved(core)
    } else {
        asked(
            HostRequestModel::Write(under(core.stack, 0)),
            with_stack(core, below(core.stack, 1)),
        )
    }
}

/// `SetValue` hands the top value and a name to the host.
pub open spec fn set_value_model(core: CoreModel, name: Seq<char>) -> Outcome {
    if core.stack.len() < 1 {
        starved(core)
    } else {
        asked(
            HostRequestModel::SetValue(name, under(core.stack, 0)),
            with_stack(core, below(core.stack, 1)),
        )
    }
}

// ---------------------------------------------------------------------
// One step
// ---------------------------------------------------------------------
/// The operations that move values between stack and bindings.
pub open spec fn stack_family_model(
    core: CoreModel,
    operation: OperationModel,
    bound: Map<Seq<char>, ValueModel>,
) -> Outcome {
    match operation {
        OperationModel::NoOp => done(core),
        OperationModel::Push(value) => push_model(core, value),
        OperationModel::Pop => pop_model(core),
        OperationModel::Duplicate => duplicate_model(core),
        OperationModel::Store(_) => pop_model(core),
        OperationModel::Lookup(name) => lookup_model(core, bound, name),
        OperationModel::GlobalStore(name) => global_store_model(core, name),
        OperationModel::GlobalLookup(name) => lookup_model(core, core.globals, name),
        _ => failed(FaultModel::InvalidInstruction, core),
    }
}

/// The operations on integers.
pub open spec fn integer_family_model(core: CoreModel, operation: OperationModel) -> Outcome {
    match operation {
        OperationModel::IntegerNew(value) => push_model(core, ValueModel::Integer(value)),
        OperationModel::IntegerNegate => integer_negate_model(core),
        OperationModel::IntegerBitwiseNot => integer_not_model(core),
        _ => if is_integer_binary(operation) {
            integer_binary_model(core, operation)
        } else {
            failed(FaultModel::InvalidInstruction, core)
        },
    }
}

/// The operations on decimals.
pub open spec fn decimal_family_model(core: CoreModel, operation: OperationModel) -> Outcome {
    match operation {
        OperationModel::DecimalNew(value) => push_model(core, ValueModel::Decimal(value)),
        OperationModel::DecimalAdd => decimal_binary_model(core, Arithmetic::Add),
        OperationModel::DecimalSubtract => decimal_binary_model(core, Arithmetic::Subtract),
        OperationModel::DecimalMultiply => decimal_binary_model(core, Arithmetic::Multiply),
        OperationModel::DecimalDivide => decimal_binary_model(core, Arithmetic::Divide),
        OperationModel::DecimalModulo => decimal_binary_model(core, Arithmetic::Modulo),
        OperationModel::DecimalPower => decimal_power_model(core),
        OperationModel::DecimalNegate => decimal_negate_model(core),
        _ => failed(FaultModel::InvalidInstruction, core),
    }
}

/// The operations on strings, truth values and characters.
pub open spec fn text_family_model(core: CoreModel, operation: OperationModel) -> Outcome {
    match operation {
        OperationModel::StringNew(text) => push_model(core, ValueModel::String(text)),
        OperationModel::StringConcat => string_concat_model(core),
        OperationModel::StringLength => string_length_model(core),
        OperationModel::BooleanNew(value) => push_model(core, ValueModel::Boolean(value)),
        OperationModel::BooleanAnd => boolean_binary_model(core, true),
        OperationModel::BooleanOr => boolean_binary_model(core, false),
        OperationModel::BooleanNot => boolean_not_model(core),
        OperationModel::CharacterNew(value) => push_model(core, ValueModel::Character(value)),
        _ => failed(FaultModel::InvalidInstruction, core),
    }
}

/// The comparison and the operations on tuples, vectors, products and
/// sums.
pub open spec fn aggregate_family_model(core: CoreModel, operation: OperationModel) -> Outcome {
    match operation {
        OperationModel::Compare(kind) => compare_model(core, kind),
        OperationModel::TupleNew => tuple_new_model(core),
        OperationModel::TupleGet => tuple_get_model(core),
        OperationModel::VectorNew(kind) => vector_new_model(core, kind),
        OperationModel::VectorGet => vector_get_model(core),
        OperationModel::VectorSet => vector_set_model(core),
        OperationModel::VectorLength => vector_length_model(core),
        OperationModel::ProductGet(name) => product_get_model(core, name),
        OperationModel::ProductSet(index) => product_set_model(core, index),
        OperationModel::SumGet(name) => sum_get_model(core, name),
        OperationModel::SumSet(name) => sum_set_model(core, name),
        _ => failed(FaultModel::InvalidInstruction, core),
    }
}

/// Closures, casts, the string table and the side channel.
pub open spec fn host_family_model(
    core: CoreModel,
    operation: OperationModel,
    bound: Map<Seq<char>, ValueModel>,
    module: ModuleModel,
) -> Outcome {
    match operation {
        OperationModel::ClosureNew(source) => closure_new_model(core, source, bound, module),
        OperationModel::Cast(target) => cast_step_model(core, target),
        OperationModel::GetStringRef(path, index) => string_ref_model(core, module, path, index),
        OperationModel::Write => write_model(core),
        OperationModel::Read => asked(HostRequestModel::Read, core),
        OperationModel::RequestValue(name) => asked(HostRequestModel::RequestValue(name), core),
        OperationModel::SetValue(name) => set_value_model(core, name),
        _ => failed(FaultModel::InvalidInstruction, core),
    }
}

/// The family of an operation.
#[derive(Debug)]
pub enum Family {
    Stack,
    Integer,
    Decimal,
    Text,
    Aggregate,
    Host,
    /// `Halt`, `Goto`, `Return` and `FunctionCall`, which move the program
    /// counter themselves.
    Control,
    /// The making of products and sums and the operations on references,
    /// which have no defined effect.
    Undefined,
}

/// The family of an operation.
pub open spec fn family_of(operation: OperationModel) -> Family {
    match operation {
        OperationModel::NoOp => Family::Stack,
        OperationModel::Push(_) => Family::Stack,
        OperationModel::Pop => Family::Stack,
        OperationModel::Duplicate => Family::Stack,
        OperationModel::Store(_) => Family::Stack,
        OperationModel::Lookup(_) => Family::Stack,
        OperationModel::GlobalStore(_) => Family::Stack,
        OperationModel::GlobalLookup(_) => Family::Stack,
        OperationModel::IntegerNew(_) => Family::Integer,
        OperationModel::IntegerNegate => Family::Integer,
        OperationModel::IntegerBitwiseNot => Family::Integer,
        OperationModel::DecimalNew(_) => Family::Decimal,
        OperationModel::DecimalAdd => Family::Decimal,
        OperationModel::DecimalSubtract => Family::Decimal,
        OperationModel::DecimalMultiply => Family::Decimal,
        OperationModel::DecimalDivide => Family::Decimal,
        OperationModel::DecimalModulo => Family::Decimal,
        OperationModel::DecimalPower => Family::Decimal,
        OperationModel::DecimalNegate => Family::Decimal,
        OperationModel::StringNew(_) => Family::Text,
        OperationModel::StringConcat => Family::Text,
        OperationModel::StringLength => Family::Text,
        OperationModel::BooleanNew(_) => Family::Text,
        OperationModel::BooleanAnd => Family::Text,
        OperationModel::BooleanOr => Family::Text,
        OperationModel::BooleanNot => Family::Text,
        OperationModel::CharacterNew(_) => Family::Text,
        OperationModel::Compare(_) => Family::Aggregate,
        OperationModel::TupleNew => Family::Aggregate,
        OperationModel::TupleGet => Family::Aggregate,
        OperationModel::VectorNew(_) => Family::Aggregate,
        OperationModel::VectorGet => Family::Aggregate,
        OperationModel::VectorSet => Family::Aggregate,
        OperationModel::VectorLength => Family::Aggregate,
        OperationModel::ProductGet(_) => Family::Aggregate,
        OperationModel::ProductSet(_) => Family::Aggregate,
        OperationModel::SumGet(_) => Family::Aggregate,
        OperationModel::SumSet(_) => Family::Aggregate,
        OperationModel::ClosureNew(_) => Family::Host,
        OperationModel::Cast(_) => Family::Host,
        OperationModel::GetStringRef(_, _) => Family::Host,
        OperationModel::Write => Family::Host,
        OperationModel::Read => Family::Host,
        OperationModel::RequestValue(_) => Family::Host,
        OperationModel::SetValue(_) => Family::Host,
        OperationModel::Halt => Family::Control,
        OperationModel::Goto(_, _) => Family::Control,
        OperationModel::Return(_) => Family::Control,
        OperationModel::FunctionCall(_, _) => Family::Control,
        _ => if is_integer_binary(operation) {
            Family::Integer
        } else {
            Family::Undefined
        },
    }
}

/// What an operation other than `Halt`, `Goto`, `Return` and
/// `FunctionCall` comes to. The making of products and sums and the
/// operations on references have no defined effect and are
/// `InvalidInstruction`.
pub open spec fn outcome_model(
    core: CoreModel,
    operation: OperationModel,
    bound: Map<Seq<char>, ValueModel>,
    module: ModuleModel,
) -> Outcome {
    match family_of(operation) {
        Family::Stack => stack_family_model(core, operation, bound),
        Family::Integer => integer_family_model(core, operation),
        Family::Decimal => decimal_family_model(core, operation),
        Family::Text => text_family_model(core, operation),
        Family::Aggregate => aggregate_family_model(core, operation),
        Family::Host => host_family_model(core, operation, bound, module),
        _ => failed(FaultModel::InvalidInstruction, core),
    }
}

/// The bindings of the frame after an operation: `Store` binds the top
/// value, every other operation leaves them.
pub open spec fn bound_after(
    core: CoreModel,
    operation: OperationModel,
    bound: Map<Seq<char>, ValueModel>,
) -> Map<Seq<char>, ValueModel> {
    if family_of(operation) is Stack {
        match operation {
            OperationModel::Store(name) => if core.stack.len() < 1 {
                bound
            } else {
                bound.insert(name, under(core.stack, 0))
            },
            _ => bound,
        }
    } else {
        bound
    }
}

/// What a step comes to: the verdict or the fault, and the state it
/// leaves.
pub struct StepModel {
    pub result: Result<VerdictModel, FaultModel>,
    pub core: CoreModel,
    pub program_counter: usize,
    pub environment: Map<Seq<char>, ValueModel>,
}

/// The step that goes on to the next instruction. The program counter is
/// the address of an instruction, so it has a next address.
pub open spec fn advanced(
    verdict: VerdictModel,
    core: CoreModel,
    program_counter: usize,
    bound: Map<Seq<char>, ValueModel>,
) -> StepModel {
    StepModel {
        result: Ok(verdict),
        core,
        program_counter: (program_counter + 1) as usize,
        environment: bound,
    }
}

/// The address that a jump at an address goes to: a relative target is an
/// offset from the address of the jump itself.
pub open spec fn jump_address(program_counter: usize, target: JumpTarget) -> Option<usize> {
    match target {
        JumpTarget::Relative(offset) => if 0 <= program_counter + offset <= usize::MAX {
            Some((program_counter + offset) as usize)
        } else {
            None
        },
        JumpTarget::Absolute(address) => Some(address),
    }
}

/// `Goto` sets the program counter where its condition is met, and goes
/// on to the next instruction where it is not. It leaves stack and flags.
pub open spec fn goto_model(
    core: CoreModel,
    target: JumpTarget,
    condition: Condition,
    program_counter: usize,
    bound: Map<Seq<char>, ValueModel>,
) -> StepModel {
    if can_jump_model(core.flags, condition) {
        match jump_address(program_counter, target) {
            Some(address) => StepModel {
                result: Ok(VerdictModel::Continue),
                core,
                program_counter: address,
                environment: bound,
            },
            None => StepModel {
                result: Err(FaultModel::InvalidJump),
                core,
                program_counter,
                environment: bound,
            },
        }
    } else {
        advanced(VerdictModel::Continue, core, program_counter, bound)
    }
}

/// `Return` leaves the frame where its condition is met.
pub open spec fn return_model(
    core: CoreModel,
    condition: Condition,
    program_counter: usize,
    bound: Map<Seq<char>, ValueModel>,
) -> StepModel {
    if can_jump_model(core.flags, condition) {
        StepModel { result: Ok(VerdictModel::Return), core, program_counter, environment: bound }
    } else {
        advanced(VerdictModel::Continue, core, program_counter, bound)
    }
}

/// The bindings of parameters to arguments. Of two parameters of one name
/// the earlier one is bound.
pub open spec fn bound_arguments(names: Seq<Seq<char>>, values: Seq<ValueModel>) -> Map<
    Seq<char>,
    ValueModel,
>
    decreases names.len(),
{
    if names.len() == 0 || values.len() == 0 {
        Map::empty()
    } else {
        bound_arguments(names.drop_first(), values.drop_first()).insert(names[0], values[0])
    }
}

/// The detail of the fault for a call through a reference.
pub open spec fn call_by_address() -> Seq<char> {
    "call by address"@
}

/// A verdict or a fault, and the state it leaves.
pub struct Entry {
    pub result: Result<VerdictModel, FaultModel>,
    pub core: CoreModel,
}

/// Entering a function: as many values as it has parameters leave the
/// stack, the topmost one for the last parameter.
pub open spec fn entered(
    core: CoreModel,
    function: FunctionModel,
    by_name: bool,
    stack: Seq<ValueModel>,
) -> Entry {
    let arity = function.argument_names.len();
    if stack.len() < arity {
        Entry { result: Err(FaultModel::InvalidInstruction), core: with_stack(core, stack) }
    } else {
        let prepared = bound_arguments(
            function.argument_names,
            stack.subrange(stack.len() - arity, stack.len() as int),
        );
        Entry {
            result: Ok(
                if by_name {
                    VerdictModel::CallRef(function, prepared)
                } else {
                    VerdictModel::Call(function, prepared)
                },
            ),
            core: with_stack(core, below(stack, arity as int)),
        }
    }
}

/// What a call whose condition is met comes to.
pub open spec fn call_model(core: CoreModel, source: FunctionSourceModel, module: ModuleModel)
    -> Entry {
    match source {
        FunctionSourceModel::Name(path) => match function_at(module, path) {
            Some(function) => entered(core, function, true, core.stack),
            None => Entry { result: Err(FaultModel::FunctionNotFound(path)), core },
        },
        FunctionSourceModel::Stack => if core.stack.len() < 1 {
            Entry { result: Err(FaultModel::InvalidInstruction), core }
        } else {
            match under(core.stack, 0) {
                ValueModel::Function(function) => entered(
                    core,
                    function,
                    false,
                    below(core.stack, 1),
                ),
                _ => Entry {
                    result: Err(FaultModel::NotAFunction),
                    core: with_stack(core, below(core.stack, 1)),
                },
            }
        },
        FunctionSourceModel::Address => if core.stack.len() < 1 {
            Entry { result: Err(FaultModel::InvalidInstruction), core }
        } else {
            match under(core.stack, 0) {
                ValueModel::Reference(_) => Entry {
                    result: Err(FaultModel::InvalidOperation(call_by_address())),
                    core,
                },
                _ => Entry { result: Err(FaultModel::NotAReference), core },
            }
        },
    }
}

/// `FunctionCall` first moves the program counter past itself. Where its
/// condition is met it then enters the function; a call through a
/// reference is a fault that leaves the stack as it is.
pub open spec fn function_call_model(
    core: CoreModel,
    source: FunctionSourceModel,
    condition: Condition,
    program_counter: usize,
    bound: Map<Seq<char>, ValueModel>,
    module: ModuleModel,
) -> StepModel {
    if !can_jump_model(core.flags, condition) {
        StepModel {
            result: Ok(VerdictModel::Continue),
            core,
            program_counter: (program_counter + 1) as usize,
            environment: bound,
        }
    } else {
        let call = call_model(core, source, module);
        StepModel {
            result: call.result,
            core: call.core,
            program_counter: (program_counter + 1) as usize,
            environment: bound,
        }
    }
}

/// A step on an operation that does not move the program counter
/// itself: on a fault the bindings and the program counter stay, else
/// the program counter goes on by one.
pub open spec fn plain_step(
    outcome: Outcome,
    program_counter: usize,
    before: Map<Seq<char>, ValueModel>,
    after: Map<Seq<char>, ValueModel>,
) -> StepModel {
    match outcome.result {
        Err(fault) => StepModel {
            result: Err(fault),
            core: outcome.core,
            program_counter,
            environment: before,
        },
        Ok(request) => advanced(
            match request {
                Some(asked) => VerdictModel::Host(asked),
                None => VerdictModel::Continue,
            },
            outcome.core,
            program_counter,
            after,
        ),
    }
}

/// One step of the machine.
pub open spec fn execute_model(
    core: CoreModel,
    operation: OperationModel,
    program_counter: usize,
    bound: Map<Seq<char>, ValueModel>,
    module: ModuleModel,
) -> StepModel {
    match operation {
        OperationModel::Halt => StepModel {
            result: Ok(VerdictModel::Stop),
            core,
            program_counter,
            environment: bound,
        },
        OperationModel::Goto(target, condition) => goto_model(
            core,
            target,
            condition,
            program_counter,
            bound,
        ),
        OperationModel::Return(condition) => return_model(core, condition, program_counter, bound),
        OperationModel::FunctionCall(source, condition) => function_call_model(
            core,
            source,
            condition,
            program_counter,
            bound,
            module,
        ),
        _ => plain_step(
            outcome_model(core, operation, bound, module),
            program_counter,
            bound,
            bound_after(core, operation, bound),
        ),
    }
}

// ---------------------------------------------------------------------
// The answer of the host
// ---------------------------------------------------------------------
/// The detail of the fault for an answer that does not fit the request.
pub open spec fn unexpected_reply() -> Seq<char> {
    "unexpected reply"@
}

/// A result or a fault, and the state it leaves.
pub struct Resumed {
    pub result: Result<(), FaultModel>,
    pub core: CoreModel,
}

/// The variant of the result of arithmetic on two floating-point
/// numbers: that of the operands where both are `F32`, else `F64`.
pub open spec fn promoted(left: DecimalType, right: DecimalType) -> DecimalType {
    if left == DecimalType::F32 && right == DecimalType::F32 {
        DecimalType::F32
    } else {
        DecimalType::F64
    }
}

/// Whether a value is of the type that a cast was to give.
pub open spec fn has_type(value: ValueModel, target: ValueType) -> bool {
    match (value, target) {
        (ValueModel::Integer(i), ValueType::Integer(kind)) => i.kind == kind,
        (ValueModel::Decimal(d), ValueType::Decimal(kind)) => decimal_kind(d) == kind,
        _ => false,
    }
}

/// Whether a value can be the answer to a request for a value: any value
/// to a read, a decimal of the promoted variant to arithmetic, a decimal
/// of the variant of the base to a power, and a value of the target type
/// to a cast.
pub open spec fn answers(request: HostRequestModel, value: ValueModel) -> bool {
    match request {
        HostRequestModel::Read => true,
        HostRequestModel::RequestValue(_) => true,
        HostRequestModel::Arithmetic(_, left, right) => value matches ValueModel::Decimal(d)
            && decimal_kind(d) == promoted(decimal_kind(left), decimal_kind(right)),
        HostRequestModel::PowerInteger(base, _) => value matches ValueModel::Decimal(d)
            && decimal_kind(d) == decimal_kind(base),
        HostRequestModel::Cast(_, target) => has_type(value, target),
        _ => false,
    }
}

/// What the answer of the host does to the state. A value that answers
/// the request is pushed; the result of arithmetic also sets the flags
/// `zero` and `negative`; a relation sets the comparison flag. A failure,
/// and an answer that does not fit the request, are `InvalidOperation`.
pub open spec fn resume_model(core: CoreModel, request: HostRequestModel, reply: HostReplyModel)
    -> Resumed {
    let misfit = Resumed {
        result: Err(FaultModel::InvalidOperation(unexpected_reply())),
        core,
    };
    match reply {
        HostReplyModel::Failure(detail) => Resumed {
            result: Err(FaultModel::InvalidOperation(detail)),
            core,
        },
        HostReplyModel::Done => match request {
            HostRequestModel::Write(_) => Resumed { result: Ok(()), core },
            HostRequestModel::SetValue(_, _) => Resumed { result: Ok(()), core },
            _ => misfit,
        },
        HostReplyModel::Value(value) => if !answers(request, value) {
            misfit
        } else {
            match (request, value) {
                (HostRequestModel::Arithmetic(_, _, _), ValueModel::Decimal(d)) => Resumed {
                    result: Ok(()),
                    core: decimal_pushed(core, core.stack, d),
                },
                (HostRequestModel::PowerInteger(_, _), ValueModel::Decimal(d)) => Resumed {
                    result: Ok(()),
                    core: decimal_pushed(core, core.stack, d),
                },
                _ => Resumed { result: Ok(()), core: with_stack(core, core.stack.push(value)) },
            }
        },
        HostReplyModel::Relation(relation) => match request {
            HostRequestModel::Compare(kind, _, _) => Resumed {
                result: Ok(()),
                core: with_comparison(core, flag_for(kind, holds_of(kind, relation))),
            },
            _ => misfit,
        },
    }
}

// ---------------------------------------------------------------------
// The evaluator
// ---------------------------------------------------------------------
/// Taking values off the top, one after the other.
pub proof fn lemma_below(stack: Seq<ValueModel>, count: int)
    requires
        0 <= count < stack.len(),
    ensures
        below(stack, count).drop_last() == below(stack, count + 1),
        below(stack, count).last() == under(stack, count),
        below(stack, 0) == stack,
        stack.drop_last() == below(stack, 1),
{
    assert(below(stack, count).drop_last() =~= below(stack, count + 1));
    assert(below(stack, 0) =~= stack);
    assert(stack.drop_last() =~= below(stack, 1));
}

impl Core {
    /// The state of a machine that has not run yet.
    pub fn new() -> (r: Core)
        ensures
            r@.flags == initial_flags(),
            r@.stack == Seq::<ValueModel>::empty(),
            r@.globals == Map::<Seq<char>, ValueModel>::empty(),
    {
        Core {
            flags: CoreFlags { comparison: Comparison::Unset, negative: false, zero: false },
            stack: Stack::new(),
            globals: Environment::new(),
        }
    }

    /// Takes the top value off.
    fn take(&mut self) -> (r: Value)
        requires
            old(self)@.stack.len() >= 1,
        ensures
            r@ == under(old(self)@.stack, 0),
            final(self)@ == with_stack(old(self)@, below(old(self)@.stack, 1)),
    {
        proof {
            lemma_below(self@.stack, 0);
        }
        self.stack.pop()
    }

    /// Takes the two top values off: the lower one comes first.
    fn take_two(&mut self) -> (r: (Value, Value))
        requires
            old(self)@.stack.len() >= 2,
        ensures
            r.0@ == under(old(self)@.stack, 1),
            r.1@ == under(old(self)@.stack, 0),
            final(self)@ == with_stack(old(self)@, below(old(self)@.stack, 2)),
    {
        proof {
            lemma_below(self@.stack, 0);
            lemma_below(self@.stack, 1);
        }
        let right = self.stack.pop();
        let left = self.stack.pop();
        (left, right)
    }

    /// Puts a value on top.
    fn put(&mut self, value: Value)
        ensures
            final(self)@ == with_stack(old(self)@, old(self)@.stack.push(value@)),
    {
        self.stack.push(value);
    }

    /// Puts a numeric result on top and sets the flags from it.
    fn put_scored(&mut self, value: Value, zero: bool, negative: bool)
        ensures
            final(self)@ == scored(old(self)@, old(self)@.stack.push(value@), zero, negative),
    {
        self.flags.zero = zero;
        self.flags.negative = negative;
        self.stack.push(value);
    }

    /// Whether the flags meet a condition.
    pub fn can_jump(&self, condition: &Condition) -> (r: bool)
        ensures
            r == can_jump_model(self@.flags, *condition),
    {
        match condition {
            Condition::Always => true,
            Condition::Equal => self.flags.comparison == Comparison::Equal,
            Condition::NotEqual => self.flags.comparison == Comparison::NotEqual,
            Condition::LessThan => self.flags.comparison == Comparison::LessThan,
            Condition::LessThanOrEqual => self.flags.comparison == Comparison::LessThanOrEqual,
            Condition::GreaterThan => self.flags.comparison == Comparison::GreaterThan,
            Condition::GreaterThanOrEqual => self.flags.comparison
                == Comparison::GreaterThanOrEqual,
            Condition::Negative => self.flags.negative,
            Condition::NotNegative => !self.flags.negative,
            Condition::Zero => self.flags.zero,
            Condition::NotZero => !self.flags.zero,
            Condition::Carry => false,
            Condition::NotCarry => false,
        }
    }

    fn integer_binary(&mut self, operation: &RealInstruction) -> (r: Result<
        Option<HostRequest>,
        Fault,
    >)
        requires
            is_integer_binary(operation@),
        ensures
            handed(r) == integer_binary_model(old(self)@, operation@).result,
            final(self)@ == integer_binary_model(old(self)@, operation@).core,
    {
        if self.stack.len() < 2 {
            return Err(Fault::InvalidInstruction);
        }
        let (left, right) = self.take_two();
        match (left, right) {
            (Value::Integer(left), Value::Integer(right)) => {
                let computed = compute_integer(operation, &left, &right);
                match computed {
                    Ok(value) => {
                        let zero = value.is_zero();
                        let negative = value.is_negative();
                        self.put_scored(Value::Integer(value), zero, negative);
                        Ok(None)
                    },
                    Err(fault) => Err(fault),
                }
            },
            _ => Err(Fault::NotAnInteger),
        }
    }

    fn integer_negate(&mut self) -> (r: Result<Option<HostRequest>, Fault>)
        ensures
            handed(r) == integer_negate_model(old(self)@).result,
            final(self)@ == integer_negate_model(old(self)@).core,
    {
        if self.stack.len() < 1 {
            return Err(Fault::InvalidInstruction);
        }
        let value = self.take();
        match value {
            Value::Integer(value) => {
                let result = value.neg();
                let zero = result.is_zero();
                let negative = result.is_negative();
                self.put_scored(Value::Integer(result), zero, negative);
                Ok(None)
            },
            _ => Err(Fault::NotAnInteger),
        }
    }

    fn integer_bitwise_not(&mut self) -> (r: Result<Option<HostRequest>, Fault>)
        ensures
            handed(r) == integer_not_model(old(self)@).result,
            final(self)@ == integer_not_model(old(self)@).core,
    {
        if self.stack.len() < 1 {
            return Err(Fault::InvalidInstruction);
        }
        let value = self.take();
        match value {
            Value::Integer(value) => match value.not() {
                Ok(result) => {
                    let zero = result.is_zero();
                    let negative = result.is_negative();
                    self.put_scored(Value::Integer(result), zero, negative);
                    Ok(None)
                },
                Err(fault) => Err(fault),
            },
            _ => Err(Fault::NotAnInteger),
        }
    }

    fn compare(&mut self, comparison_type: &ComparisonType) -> (r: Result<
        Option<HostRequest>,
        Fault,
    >)
        ensures
            handed(r) == compare_model(old(self)@, *comparison_type).result,
            final(self)@ == compare_model(old(self)@, *comparison_type).core,
    {
        let depth = self.stack.len();
        if depth < 2 {
            return Err(Fault::InvalidInstruction);
        }
        let left = &self.stack.data[depth - 2];
        let right = &self.stack.data[depth - 1];
        assert(left@ == under(self@.stack, 1));
        assert(right@ == under(self@.stack, 0));
        match standing_of(left, right) {
            Standing::Known(relation) => {
                self.flags.comparison = flag_of(*comparison_type, relation);
                Ok(None)
            },
            Standing::Deferred => match (left, right) {
                (Value::Decimal(a), Value::Decimal(b)) => Ok(
                    Some(HostRequest::Compare(*comparison_type, a.clone(), b.clone())),
                ),
                _ => Err(Fault::TypeMismatch),
            },
            Standing::Unsupported => Err(Fault::TypeMismatch),
        }
    }
}

/// What an operation on two integers computes.
fn compute_integer(operation: &RealInstruction, left: &Integer, right: &Integer) -> (r: Result<
    Integer,
    Fault,
>)
    requires
        is_integer_binary(operation@),
    ensures
        outcome(r) == integer_result(operation@, left@, right@),
{
    match operation {
        RealInstruction::IntegerAdd => left.add(right),
        RealInstruction::IntegerSubtract => left.sub(right),
        RealInstruction::IntegerMultiply => left.mul(right),
        RealInstruction::IntegerDivide => left.div(right),
        RealInstruction::IntegerModulo => left.rem(right),
        RealInstruction::IntegerPower => left.pow(right),
        RealInstruction::IntegerBitwiseAnd => left.bitand(right),
        RealInstruction::IntegerBitwiseOr => left.bitor(right),
        RealInstruction::IntegerBitwiseXor => left.bitxor(right),
        RealInstruction::IntegerShiftLeft => left.shl(right),
        RealInstruction::IntegerShiftRight => left.shr(right),
        _ => Err(Fault::InvalidInstruction),
    }
}

/// The flag that a comparison records for two values that stand to each
/// other in this way.
pub fn flag_of(kind: ComparisonType, relation: Relation) -> (r: Comparison)
    ensures
        r == flag_for(kind, holds_of(kind, relation)),
{
    match kind {
        ComparisonType::Equal => if relation == Relation::Equal {
            Comparison::Equal
        } else {
            Comparison::NotEqual
        },
        ComparisonType::NotEqual => if relation != Relation::Equal {
            Comparison::NotEqual
        } else {
            Comparison::Equal
        },
        ComparisonType::LessThan => if relation == Relation::Less {
            Comparison::LessThan
        } else {
            Comparison::GreaterThanOrEqual
        },
        ComparisonType::LessThanOrEqual => if relation == Relation::Less || relation
            == Relation::Equal {
            Comparison::LessThanOrEqual
        } else {
            Comparison::GreaterThan
        },
        ComparisonType::GreaterThan => if relation == Relation::Greater {
            Comparison::GreaterThan
        } else {
            Comparison::LessThanOrEqual
        },
        ComparisonType::GreaterThanOrEqual => if relation == Relation::Greater || relation
            == Relation::Equal {
            Comparison::GreaterThanOrEqual
        } else {
            Comparison::LessThan
        },
    }
}

/// Taking values off what is left after values were taken off.
pub proof fn lemma_below_twice(stack: Seq<ValueModel>, first: int, second: int)
    requires
        0 <= first,
        0 <= second,
        first + second <= stack.len(),
    ensures
        below(below(stack, first), second) == below(stack, first + second),
        second < stack.len() - first ==> under(below(stack, first), second) == under(
            stack,
            first + second,
        ),
{
    assert(below(below(stack, first), second) =~= below(stack, first + second));
}

/// What an operation on two fractions computes.
fn compute_fraction(operation: Arithmetic, left: &Rational, right: &Rational) -> (r: Result<
    Rational,
    Fault,
>)
    requires
        operation == Arithmetic::Divide ==> right@.numerator != 0,
    ensures
        match r {
            Ok(q) => fraction_result(operation, left@, right@) == Ok::<RationalModel, FaultModel>(
                q@,
            ),
            Err(f) => fraction_result(operation, left@, right@) == Err::<
                RationalModel,
                FaultModel,
            >(f@),
        },
{
    match operation {
        Arithmetic::Add => Ok(left.sum(right)),
        Arithmetic::Subtract => Ok(left.difference(right)),
        Arithmetic::Multiply => Ok(left.product(right)),
        Arithmetic::Divide => match left.quotient(right) {
            Some(q) => Ok(q),
            None => Err(Fault::DivisionByZero),
        },
        _ => Err(Fault::TypeMismatch),
    }
}

/// A length as a value.
fn length_as_value(length: usize) -> (r: Value)
    ensures
        r@ == length_value(length as nat),
{
    Value::Integer(Integer::U64(length as u64))
}

impl Core {
    fn decimal_binary(&mut self, operation: Arithmetic) -> (r: Result<Option<HostRequest>, Fault>)
        ensures
            handed(r) == decimal_binary_model(old(self)@, operation).result,
            final(self)@ == decimal_binary_model(old(self)@, operation).core,
    {
        if self.stack.len() < 2 {
            return Err(Fault::InvalidInstruction);
        }
        let (left, right) = self.take_two();
        match (left, right) {
            (Value::Decimal(left), Value::Decimal(right)) => {
                let dividing = match operation {
                    Arithmetic::Divide => true,
                    Arithmetic::Modulo => true,
                    _ => false,
                };
                if dividing && right.is_zero() {
                    return Err(Fault::DivisionByZero);
                }
                match (left, right) {
                    (Decimal::Rational(a), Decimal::Rational(b)) => match compute_fraction(
                        operation,
                        &a,
                        &b,
                    ) {
                        Ok(q) => {
                            let zero = q.is_zero();
                            let negative = q.is_negative();
                            self.put_scored(Value::Decimal(Decimal::Rational(q)), zero, negative);
                            Ok(None)
                        },
                        Err(fault) => Err(fault),
                    },
                    (Decimal::Rational(_), _) => Err(Fault::TypeMismatch),
                    (_, Decimal::Rational(_)) => Err(Fault::TypeMismatch),
                    (left, right) => Ok(Some(HostRequest::Arithmetic(operation, left, right))),
                }
            },
            _ => Err(Fault::NotAnInteger),
        }
    }

    fn decimal_power(&mut self) -> (r: Result<Option<HostRequest>, Fault>)
        ensures
            handed(r) == decimal_power_model(old(self)@).result,
            final(self)@ == decimal_power_model(old(self)@).core,
    {
        if self.stack.len() < 2 {
            return Err(Fault::InvalidInstruction);
        }
        let (left, right) = self.take_two();
        match (left, right) {
            (Value::Decimal(base), Value::Integer(exponent)) => match base.powi(&exponent) {
                Ok(Raised::Done(power)) => {
                    let zero = power.is_zero();
                    let negative = power.is_negative();
                    self.put_scored(Value::Decimal(power), zero, negative);
                    Ok(None)
                },
                Ok(Raised::Deferred(e)) => Ok(Some(HostRequest::PowerInteger(base, e))),
                Err(fault) => Err(fault),
            },
            (Value::Decimal(base), Value::Decimal(exponent)) => {
                if base.is_rational() || exponent.is_rational() {
                    Err(Fault::TypeMismatch)
                } else {
                    Ok(Some(HostRequest::Arithmetic(Arithmetic::Power, base, exponent)))
                }
            },
            _ => Err(Fault::NotAnInteger),
        }
    }

    fn decimal_negate(&mut self) -> (r: Result<Option<HostRequest>, Fault>)
        ensures
            handed(r) == decimal_negate_model(old(self)@).result,
            final(self)@ == decimal_negate_model(old(self)@).core,
    {
        if self.stack.len() < 1 {
            return Err(Fault::InvalidInstruction);
        }
        let value = self.take();
        match value {
            Value::Decimal(value) => {
                let result = value.neg();
                let zero = result.is_zero();
                let negative = result.is_negative();
                self.put_scored(Value::Decimal(result), zero, negative);
                Ok(None)
            },
            _ => Err(Fault::NotAnInteger),
        }
    }

    fn boolean_binary(&mut self, conjunction: bool) -> (r: Result<Option<HostRequest>, Fault>)
        ensures
            handed(r) == boolean_binary_model(old(self)@, conjunction).result,
            final(self)@ == boolean_binary_model(old(self)@, conjunction).core,
    {
        if self.stack.len() < 2 {
            return Err(Fault::InvalidInstruction);
        }
        let (left, right) = self.take_two();
        match (left, right) {
            (Value::Boolean(left), Value::Boolean(right)) => {
                let result = if conjunction {
                    left && right
                } else {
                    left || right
                };
                self.put(Value::Boolean(result));
                Ok(None)
            },
            _ => Err(Fault::NotABoolean),
        }
    }

    fn boolean_not(&mut self) -> (r: Result<Option<HostRequest>, Fault>)
        ensures
            handed(r) == boolean_not_model(old(self)@).result,
            final(self)@ == boolean_not_model(old(self)@).core,
    {
        if self.stack.len() < 1 {
            return Err(Fault::InvalidInstruction);
        }
        let value = self.take();
        match value {
            Value::Boolean(value) => {
                self.put(Value::Boolean(!value));
                Ok(None)
            },
            _ => Err(Fault::NotABoolean),
        }
    }

    fn string_concat(&mut self) -> (r: Result<Option<HostRequest>, Fault>)
        ensures
            handed(r) == string_concat_model(old(self)@).result,
            final(self)@ == string_concat_model(old(self)@).core,
    {
        if self.stack.len() < 2 {
            return Err(Fault::InvalidInstruction);
        }
        let (left, right) = self.take_two();
        match (left, right) {
            (Value::String(left), Value::String(right)) => {
                self.put(Value::String(joined(left, right.as_str())));
                Ok(None)
            },
            _ => Err(Fault::InvalidString),
        }
    }

    fn string_length(&mut self) -> (r: Result<Option<HostRequest>, Fault>)
        ensures
            handed(r) == string_length_model(old(self)@).result,
            final(self)@ == string_length_model(old(self)@).core,
    {
        if self.stack.len() < 1 {
            return Err(Fault::InvalidInstruction);
        }
        let value = self.take();
        match value {
            Value::String(text) => {
                self.put(length_as_value(length_of_text(text.as_str())));
                Ok(None)
            },
            _ => Err(Fault::InvalidString),
        }
    }

    fn tuple_new(&mut self) -> (r: Result<Option<HostRequest>, Fault>)
        ensures
            handed(r) == tuple_new_model(old(self)@).result,
            final(self)@ == tuple_new_model(old(self)@).core,
    {
        if self.stack.len() < 1 {
            return Err(Fault::InvalidInstruction);
        }
        let size = self.take();
        match size {
            Value::Integer(size) => {
                let depth = self.stack.len();
                match size.to_index() {
                    Some(count) => if count > depth {
                        Err(Fault::InvalidInstruction)
                    } else {
                        proof {
                            lemma_values_model_subrange(
                                self.stack.data@,
                                0,
                                depth - count,
                            );
                            lemma_values_model_subrange(
                                self.stack.data@,
                                depth - count,
                                depth as int,
                            );
                        }
                        let data = self.stack.data.split_off(depth - count);
                        self.put(Value::Tuple(Tuple::new(data)));
                        Ok(None)
                    },
                    None => Err(Fault::InvalidInstruction),
                }
            },
            _ => Err(Fault::NotAnInteger),
        }
    }

    fn tuple_get(&mut self) -> (r: Result<Option<HostRequest>, Fault>)
        ensures
            handed(r) == tuple_get_model(old(self)@).result,
            final(self)@ == tuple_get_model(old(self)@).core,
    {
        if self.stack.len() < 2 {
            return Err(Fault::InvalidInstruction);
        }
        let (tuple, index) = self.take_two();
        match (tuple, index) {
            (Value::Tuple(tuple), Value::Integer(index)) => {
                // An index that is no `usize` lies past the end.
                let at = match index.to_index() {
                    Some(at) => at,
                    None => tuple.len(),
                };
                let element = match tuple.get(at) {
                    Some(value) => Some(clone_value(value)),
                    None => None,
                };
                self.put(Value::Tuple(tuple));
                match element {
                    Some(value) => {
                        self.put(value);
                        Ok(None)
                    },
                    None => Err(Fault::OutOfBounds),
                }
            },
            _ => Err(Fault::NotATuple),
        }
    }

    fn vector_new(&mut self, typ: &VectorType) -> (r: Result<Option<HostRequest>, Fault>)
        ensures
            handed(r) == vector_new_model(old(self)@, *typ).result,
            final(self)@ == vector_new_model(old(self)@, *typ).core,
    {
        if self.stack.len() < 1 {
            return Err(Fault::InvalidInstruction);
        }
        let size = self.take();
        match size {
            Value::Integer(size) => match size.to_index() {
                Some(length) => {
                    self.put(Value::Vector(Vector::new(length, typ)));
                    Ok(None)
                },
                None => Err(Fault::OutOfMemory),
            },
            _ => Err(Fault::NotAnInteger),
        }
    }

    fn vector_get(&mut self) -> (r: Result<Option<HostRequest>, Fault>)
        ensures
            handed(r) == vector_get_model(old(self)@).result,
            final(self)@ == vector_get_model(old(self)@).core,
    {
        if self.stack.len() < 2 {
            return Err(Fault::InvalidInstruction);
        }
        let (vector, index) = self.take_two();
        match (vector, index) {
            (Value::Vector(vector), Value::Integer(index)) => {
                // An index that is no `usize` lies past the end.
                let at = match index.to_index() {
                    Some(at) => at,
                    None => vector.length(),
                };
                let element = vector.get(at);
                self.put(Value::Vector(vector));
                match element {
                    Ok(value) => {
                        self.put(value);
                        Ok(None)
                    },
                    Err(fault) => Err(fault),
                }
            },
            _ => Err(Fault::NotAVector),
        }
    }

    fn vector_set(&mut self) -> (r: Result<Option<HostRequest>, Fault>)
        ensures
            handed(r) == vector_set_model(old(self)@).result,
            final(self)@ == vector_set_model(old(self)@).core,
    {
        if self.stack.len() < 3 {
            return Err(Fault::InvalidInstruction);
        }
        proof {
            lemma_below_twice(self@.stack, 1, 2);
            lemma_below_twice(self@.stack, 1, 1);
            lemma_below_twice(self@.stack, 1, 0);
        }
        let value = self.take();
        let (vector, index) = self.take_two();
        match (vector, index) {
            (Value::Vector(vector), Value::Integer(index)) => {
                let mut vector = vector;
                // An index that is no `usize` lies past the end.
                let at = match index.to_index() {
                    Some(at) => at,
                    None => vector.length(),
                };
                let result = vector.set(at, value);
                self.put(Value::Vector(vector));
                match result {
                    Ok(_) => Ok(None),
                    Err(fault) => Err(fault),
                }
            },
            _ => Err(Fault::NotAVector),
        }
    }

    fn product_get(&mut self, name: &String) -> (r: Result<Option<HostRequest>, Fault>)
        ensures
            handed(r) == product_get_model(old(self)@, name@).result,
            final(self)@ == product_get_model(old(self)@, name@).core,
    {
        let depth = self.stack.len();
        if depth < 1 {
            return Err(Fault::InvalidInstruction);
        }
        let found = match &self.stack.data[depth - 1] {
            Value::Product(product) => match product.get(name.as_str()) {
                Some(value) => Ok(Some(clone_value(value))),
                None => Ok(None),
            },
            _ => Err(Fault::TypeMismatch),
        };
        match found {
            Ok(Some(value)) => {
                self.put(value);
                Ok(None)
            },
            Ok(None) => Err(Fault::NameNotFound(name.clone())),
            Err(fault) => {
                let _ = self.take();
                Err(fault)
            },
        }
    }

    fn product_set(&mut self, index: usize) -> (r: Result<Option<HostRequest>, Fault>)
        ensures
            handed(r) == product_set_model(old(self)@, index).result,
            final(self)@ == product_set_model(old(self)@, index).core,
    {
        if self.stack.len() < 2 {
            return Err(Fault::InvalidInstruction);
        }
        let (product, value) = self.take_two();
        match product {
            Value::Product(product) => {
                let mut product = product;
                let result = product.set_at(index, value);
                self.put(Value::Product(product));
                match result {
                    Ok(_) => Ok(None),
                    Err(fault) => Err(fault),
                }
            },
            _ => Err(Fault::TypeMismatch),
        }
    }

    fn sum_get(&mut self, name: &String) -> (r: Result<Option<HostRequest>, Fault>)
        ensures
            handed(r) == sum_get_model(old(self)@, name@).result,
            final(self)@ == sum_get_model(old(self)@, name@).core,
    {
        let depth = self.stack.len();
        if depth < 1 {
            return Err(Fault::InvalidInstruction);
        }
        let found = match &self.stack.data[depth - 1] {
            Value::Sum(sum) => match sum.get(name.as_str()) {
                Some(value) => Ok(Some(clone_value(value))),
                None => Ok(None),
            },
            _ => Err(Fault::TypeMismatch),
        };
        match found {
            Ok(Some(value)) => {
                self.put(value);
                Ok(None)
            },
            Ok(None) => Err(Fault::NameNotFound(name.clone())),
            Err(fault) => {
                let _ = self.take();
                Err(fault)
            },
        }
    }

    fn sum_set(&mut self, name: &String) -> (r: Result<Option<HostRequest>, Fault>)
        ensures
            handed(r) == sum_set_model(old(self)@, name@).result,
            final(self)@ == sum_set_model(old(self)@, name@).core,
    {
        if self.stack.len() < 2 {
            return Err(Fault::InvalidInstruction);
        }
        let (sum, value) = self.take_two();
        match sum {
            Value::Sum(sum) => {
                let mut sum = sum;
                let result = sum.set(name.as_str(), value);
                self.put(Value::Sum(sum));
                match result {
                    Ok(_) => Ok(None),
                    Err(fault) => Err(fault),
                }
            },
            _ => Err(Fault::TypeMismatch),
        }
    }

    fn vector_length(&mut self) -> (r: Result<Option<HostRequest>, Fault>)
        ensures
            handed(r) == vector_length_model(old(self)@).result,
            final(self)@ == vector_length_model(old(self)@).core,
    {
        let depth = self.stack.len();
        if depth < 1 {
            return Err(Fault::InvalidInstruction);
        }
        let length = match &self.stack.data[depth - 1] {
            Value::Vector(vector) => Some(vector.length()),
            _ => None,
        };
        match length {
            Some(length) => {
                self.put(length_as_value(length));
                Ok(None)
            },
            None => {
                let _ = self.take();
                Err(Fault::NotAVector)
            },
        }
    }
}

/// The view of what a step handed back.
pub open spec fn verdict_of(r: Result<InstructionResult, Fault>) -> Result<
    VerdictModel,
    FaultModel,
> {
    match r {
        Ok(verdict) => Ok(verdict@),
        Err(fault) => Err(fault@),
    }
}

/// A step as a whole: what it handed back and the state it left.
pub open spec fn step_of(
    r: Result<InstructionResult, Fault>,
    core: CoreModel,
    program_counter: usize,
    bound: Map<Seq<char>, ValueModel>,
) -> StepModel {
    StepModel { result: verdict_of(r), core, program_counter, environment: bound }
}

/// The view of what an answer of the host came to.
pub open spec fn resumed_of(r: Result<(), Fault>) -> Result<(), FaultModel> {
    match r {
        Ok(_) => Ok(()),
        Err(fault) => Err(fault@),
    }
}

/// Whether a value is of the type that a cast was to give.
pub fn is_of_type(value: &Value, target: &ValueType) -> (r: bool)
    ensures
        r == has_type(value@, *target),
{
    match (value, target) {
        (Value::Integer(i), ValueType::Integer(kind)) => i.kind() == *kind,
        (Value::Decimal(d), ValueType::Decimal(kind)) => d.kind() == *kind,
        _ => false,
    }
}

/// Whether a value can be the answer to a request for a value.
pub fn is_answer(request: &HostRequest, value: &Value) -> (r: bool)
    ensures
        r == answers(request@, value@),
{
    match request {
        HostRequest::Read => true,
        HostRequest::RequestValue(_) => true,
        HostRequest::Arithmetic(_, left, right) => match value {
            Value::Decimal(d) => {
                let narrow = left.kind() == DecimalType::F32 && right.kind() == DecimalType::F32;
                if narrow {
                    d.kind() == DecimalType::F32
                } else {
                    d.kind() == DecimalType::F64
                }
            },
            _ => false,
        },
        HostRequest::PowerInteger(base, _) => match value {
            Value::Decimal(d) => d.kind() == base.kind(),
            _ => false,
        },
        HostRequest::Cast(_, target) => is_of_type(value, target),
        _ => false,
    }
}

fn misfit() -> (f: Fault)
    ensures
        f@ == FaultModel::InvalidOperation(unexpected_reply()),
{
    Fault::InvalidOperation("unexpected reply".to_owned())
}

/// Binding one parameter more, from the last one to the first.
proof fn lemma_bound_one_more(names: Seq<Seq<char>>, values: Seq<ValueModel>, from: int)
    requires
        0 < from <= names.len(),
        names.len() == values.len(),
    ensures
        bound_arguments(
            names.subrange(from - 1, names.len() as int),
            values.subrange(from - 1, values.len() as int),
        ) == bound_arguments(
            names.subrange(from, names.len() as int),
            values.subrange(from, values.len() as int),
        ).insert(names[from - 1], values[from - 1]),
{
    let names_left = names.subrange(from - 1, names.len() as int);
    let values_left = values.subrange(from - 1, values.len() as int);
    assert(names_left.drop_first() =~= names.subrange(from, names.len() as int));
    assert(values_left.drop_first() =~= values.subrange(from, values.len() as int));
    assert(names_left[0] == names[from - 1]);
    assert(values_left[0] == values[from - 1]);
}

impl Core {
    fn closure_new(
        &mut self,
        function_source: &FunctionSource,
        module: &Module,
        env: &Environment,
    ) -> (r: Result<Option<HostRequest>, Fault>)
        ensures
            handed(r) == closure_new_model(old(self)@, function_source@, env@, module@).result,
            final(self)@ == closure_new_model(old(self)@, function_source@, env@, module@).core,
    {
        match function_source {
            FunctionSource::Name(name) => match module.get_function(name) {
                Some(function) => {
                    let mut closure = function.clone();
                    closure.add_environment(env.clone());
                    self.put(Value::Function(closure));
                    Ok(None)
                },
                None => Err(Fault::FunctionNotFound(name.clone())),
            },
            _ => Err(Fault::InvalidInstruction),
        }
    }

    fn cast(&mut self, target: &ValueType) -> (r: Result<Option<HostRequest>, Fault>)
        ensures
            handed(r) == cast_step_model(old(self)@, *target).result,
            final(self)@ == cast_step_model(old(self)@, *target).core,
    {
        if self.stack.len() < 1 {
            return Err(Fault::InvalidInstruction);
        }
        let value = self.take();
        match value.cast(target) {
            Ok(Some(result)) => {
                self.put(result);
                Ok(None)
            },
            Ok(None) => Ok(Some(HostRequest::Cast(value, target.clone()))),
            Err(fault) => Err(fault),
        }
    }

    fn get_string_ref(&mut self, module: &Module, path: &StringTablePath, index: usize) -> (r:
        Result<Option<HostRequest>, Fault>)
        ensures
            handed(r) == string_ref_model(old(self)@, module@, path@, index).result,
            final(self)@ == string_ref_model(old(self)@, module@, path@, index).core,
    {
        match module.get_string(path, index) {
            Some(text) => {
                self.put(Value::String(text.clone()));
                Ok(None)
            },
            None => Err(Fault::InvalidString),
        }
    }

    /// Takes the arguments of a call off the stack, the topmost one for
    /// the last parameter, and binds them to the parameters.
    fn bind_arguments(&mut self, names: &Vec<String>) -> (r: Environment)
        requires
            old(self)@.stack.len() >= names@.len(),
        ensures
            r@ == bound_arguments(
                texts(names@),
                old(self)@.stack.subrange(
                    old(self)@.stack.len() - names@.len(),
                    old(self)@.stack.len() as int,
                ),
            ),
            final(self)@ == with_stack(old(self)@, below(old(self)@.stack, names@.len() as int)),
    {
        let count = names.len();
        let ghost before = self@;
        let ghost depth = before.stack.len() as int;
        let ghost parameters = texts(names@);
        let ghost arguments = before.stack.subrange(depth - count, depth);
        let mut environment = Environment::new();
        let mut i: usize = count;
        proof {
            assert(below(before.stack, 0) =~= before.stack);
            assert(parameters.subrange(count as int, count as int).len() == 0);
        }
        while i > 0
            invariant
                i <= count,
                count == names@.len(),
                depth == before.stack.len(),
                depth >= count,
                parameters == texts(names@),
                arguments == before.stack.subrange(depth - count, depth),
                self@ == with_stack(before, below(before.stack, count - i)),
                environment@ == bound_arguments(
                    parameters.subrange(i as int, count as int),
                    arguments.subrange(i as int, count as int),
                ),
            decreases i,
        {
            proof {
                lemma_below(before.stack, count - i);
                lemma_bound_one_more(parameters, arguments, i as int);
                assert(arguments[i - 1] == under(before.stack, count - i));
                assert(parameters[i - 1] == names@[i - 1]@);
            }
            let value = self.take();
            environment.insert(names[i - 1].clone(), value);
            i = i - 1;
        }
        proof {
            assert(parameters.subrange(0, count as int) =~= parameters);
            assert(arguments.subrange(0, count as int) =~= arguments);
        }
        environment
    }

    fn function_call<'a>(
        &mut self,
        source: &FunctionSource,
        condition: &Condition,
        program_counter: &mut usize,
        module: &'a Module,
    ) -> (r: Result<InstructionResult<'a>, Fault>)
        requires
            *old(program_counter) < usize::MAX,
        ensures
            forall|bound: Map<Seq<char>, ValueModel>|
                step_of(r, final(self)@, *final(program_counter), bound) == function_call_model(
                    old(self)@,
                    source@,
                    *condition,
                    *old(program_counter),
                    bound,
                    module@,
                ),
    {
        *program_counter = *program_counter + 1;
        if !self.can_jump(condition) {
            return Ok(InstructionResult::Continue);
        }
        match source {
            FunctionSource::Name(name) => match module.get_function(name) {
                Some(function) => {
                    if self.stack.len() < function.argument_names.len() {
                        return Err(Fault::InvalidInstruction);
                    }
                    let environment = self.bind_arguments(&function.argument_names);
                    Ok(InstructionResult::CallRef(function, environment))
                },
                None => Err(Fault::FunctionNotFound(name.clone())),
            },
            FunctionSource::Address => {
                let depth = self.stack.len();
                if depth < 1 {
                    return Err(Fault::InvalidInstruction);
                }
                match &self.stack.data[depth - 1] {
                    Value::Reference(_) => Err(
                        Fault::InvalidOperation("call by address".to_owned()),
                    ),
                    _ => Err(Fault::NotAReference),
                }
            },
            FunctionSource::Stack => {
                if self.stack.len() < 1 {
                    return Err(Fault::InvalidInstruction);
                }
                let function = self.take();
                match function {
                    Value::Function(function) => {
                        if self.stack.len() < function.argument_names.len() {
                            return Err(Fault::InvalidInstruction);
                        }
                        let environment = self.bind_arguments(&function.argument_names);
                        Ok(InstructionResult::Call(function, environment))
                    },
                    _ => Err(Fault::NotAFunction),
                }
            },
        }
    }

    fn goto<'a>(&mut self, target: &JumpTarget, condition: &Condition, program_counter: &mut usize)
        -> (r: Result<InstructionResult<'a>, Fault>)
        requires
            *old(program_counter) < usize::MAX,
        ensures
            forall|bound: Map<Seq<char>, ValueModel>|
                step_of(r, final(self)@, *final(program_counter), bound) == goto_model(
                    old(self)@,
                    *target,
                    *condition,
                    *old(program_counter),
                    bound,
                ),
    {
        if self.can_jump(condition) {
            match target {
                JumpTarget::Relative(offset) => {
                    let address: i128 = *program_counter as i128 + *offset as i128;
                    if address < 0 || address > usize::MAX as i128 {
                        return Err(Fault::InvalidJump);
                    }
                    *program_counter = address as usize;
                },
                JumpTarget::Absolute(address) => {
                    *program_counter = *address;
                },
            }
        } else {
            *program_counter = *program_counter + 1;
        }
        Ok(InstructionResult::Continue)
    }

    fn return_instruction<'a>(&mut self, condition: &Condition, program_counter: &mut usize) -> (r:
        Result<InstructionResult<'a>, Fault>)
        requires
            *old(program_counter) < usize::MAX,
        ensures
            forall|bound: Map<Seq<char>, ValueModel>|
                step_of(r, final(self)@, *final(program_counter), bound) == return_model(
                    old(self)@,
                    *condition,
                    *old(program_counter),
                    bound,
                ),
    {
        if self.can_jump(condition) {
            return Ok(InstructionResult::Return);
        }
        *program_counter = *program_counter + 1;
        Ok(InstructionResult::Continue)
    }

    /// Takes the answer of the host to a request that a step handed out.
    pub fn resume(&mut self, request: &HostRequest, reply: HostReply) -> (r: Result<(), Fault>)
        ensures
            resumed_of(r) == resume_model(old(self)@, request@, reply@).result,
            final(self)@ == resume_model(old(self)@, request@, reply@).core,
    {
        match reply {
            HostReply::Failure(detail) => Err(Fault::InvalidOperation(detail)),
            HostReply::Done => match request {
                HostRequest::Write(_) => Ok(()),
                HostRequest::SetValue(_, _) => Ok(()),
                _ => Err(misfit()),
            },
            HostReply::Value(value) => {
                if !is_answer(request, &value) {
                    return Err(misfit());
                }
                match (request, value) {
                    (HostRequest::Arithmetic(_, _, _), Value::Decimal(number)) => {
                        self.put_decimal(number);
                        Ok(())
                    },
                    (HostRequest::PowerInteger(_, _), Value::Decimal(number)) => {
                        self.put_decimal(number);
                        Ok(())
                    },
                    (_, value) => {
                        self.put(value);
                        Ok(())
                    },
                }
            },
            HostReply::Relation(relation) => match request {
                HostRequest::Compare(kind, _, _) => {
                    self.flags.comparison = flag_of(*kind, relation);
                    Ok(())
                },
                _ => Err(misfit()),
            },
        }
    }

    /// Puts a decimal result on top and sets the flags from it.
    fn put_decimal(&mut self, number: Decimal)
        ensures
            final(self)@ == decimal_pushed(old(self)@, old(self)@.stack, number@),
    {
        let zero = number.is_zero();
        let negative = number.is_negative();
        self.put_scored(Value::Decimal(number), zero, negative);
    }
}

/// The family of an operation, read off the operation itself.
pub proof fn lemma_family(operation: RealInstruction)
    ensures
        family_of(operation@) is Stack <==> (
            operation is NoOp || operation is Push || operation is Pop
            || operation is Duplicate || operation is Store || operation is Lookup
            || operation is GlobalStore || operation is GlobalLookup
        ),
        family_of(operation@) is Integer <==> (
            operation is IntegerNew || operation is IntegerAdd || operation is IntegerSubtract
            || operation is IntegerMultiply || operation is IntegerDivide
            || operation is IntegerModulo || operation is IntegerPower
            || operation is IntegerBitwiseAnd || operation is IntegerBitwiseOr
            || operation is IntegerBitwiseXor || operation is IntegerShiftLeft
            || operation is IntegerShiftRight || operation is IntegerNegate
            || operation is IntegerBitwiseNot
        ),
        family_of(operation@) is Decimal <==> (
            operation is DecimalNew || operation is DecimalAdd || operation is DecimalSubtract
            || operation is DecimalMultiply || operation is DecimalDivide
            || operation is DecimalModulo || operation is DecimalPower
            || operation is DecimalNegate
        ),
        family_of(operation@) is Text <==> (
            operation is StringNew || operation is StringConcat || operation is StringLength
            || operation is BooleanNew || operation is BooleanAnd || operation is BooleanOr
            || operation is BooleanNot || operation is CharacterNew
        ),
        family_of(operation@) is Aggregate <==> (
            operation is Compare || operation is TupleNew || operation is TupleGet
            || operation is VectorNew || operation is VectorGet || operation is VectorSet
            || operation is VectorLength || operation is ProductGet || operation is ProductSet
            || operation is SumGet || operation is SumSet
        ),
        family_of(operation@) is Host <==> (
            operation is ClosureNew || operation is Cast || operation is GetStringRef
            || operation is Write || operation is Read || operation is RequestValue
            || operation is SetValue
        ),
        family_of(operation@) is Control <==> (
            operation is Halt || operation is Goto || operation is Return
            || operation is FunctionCall
        ),
{
    match operation {
        RealInstruction::Halt => {},
        RealInstruction::NoOp => {},
        RealInstruction::Push(_) => {},
        RealInstruction::Pop => {},
        RealInstruction::Duplicate => {},
        RealInstruction::TupleNew => {},
        RealInstruction::TupleGet => {},
        RealInstruction::VectorNew(_) => {},
        RealInstruction::VectorGet => {},
        RealInstruction::VectorSet => {},
        RealInstruction::VectorLength => {},
        RealInstruction::ProductNew(_) => {},
        RealInstruction::ProductGet(_) => {},
        RealInstruction::ProductSet(_) => {},
        RealInstruction::SumNew(_) => {},
        RealInstruction::SumGet(_) => {},
        RealInstruction::SumSet(_) => {},
        RealInstruction::FunctionCall(_, _) => {},
        RealInstruction::Return(_) => {},
        RealInstruction::ClosureNew(_) => {},
        RealInstruction::ReferenceNew => {},
        RealInstruction::ReferenceGet => {},
        RealInstruction::ReferenceSet => {},
        RealInstruction::ReferenceSetShared => {},
        RealInstruction::IntegerNew(_) => {},
        RealInstruction::IntegerAdd => {},
        RealInstruction::IntegerSubtract => {},
        RealInstruction::IntegerMultiply => {},
        RealInstruction::IntegerDivide => {},
        RealInstruction::IntegerModulo => {},
        RealInstruction::IntegerPower => {},
        RealInstruction::IntegerNegate => {},
        RealInstruction::IntegerBitwiseAnd => {},
        RealInstruction::IntegerBitwiseOr => {},
        RealInstruction::IntegerBitwiseXor => {},
        RealInstruction::IntegerBitwiseNot => {},
        RealInstruction::IntegerShiftLeft => {},
        RealInstruction::IntegerShiftRight => {},
        RealInstruction::DecimalNew(_) => {},
        RealInstruction::DecimalAdd => {},
        RealInstruction::DecimalSubtract => {},
        RealInstruction::DecimalMultiply => {},
        RealInstruction::DecimalDivide => {},
        RealInstruction::DecimalModulo => {},
        RealInstruction::DecimalPower => {},
        RealInstruction::DecimalNegate => {},
        RealInstruction::StringNew(_) => {},
        RealInstruction::StringConcat => {},
        RealInstruction::StringLength => {},
        RealInstruction::BooleanNew(_) => {},
        RealInstruction::BooleanAnd => {},
        RealInstruction::BooleanOr => {},
        RealInstruction::BooleanNot => {},
        RealInstruction::CharacterNew(_) => {},
        RealInstruction::RequestValue(_) => {},
        RealInstruction::SetValue(_) => {},
        RealInstruction::Compare(_) => {},
        RealInstruction::Goto(_, _) => {},
        RealInstruction::Store(_) => {},
        RealInstruction::Lookup(_) => {},
        RealInstruction::GlobalStore(_) => {},
        RealInstruction::GlobalLookup(_) => {},
        RealInstruction::Write => {},
        RealInstruction::Read => {},
        RealInstruction::GetStringRef(_, _) => {},
        RealInstruction::Cast(_) => {},
    }
}

/// The family of an operation.
pub fn family(operation: &RealInstruction) -> (r: Family)
    ensures
        r == family_of(operation@),
{
    match operation {
        RealInstruction::Halt => Family::Control,
        RealInstruction::NoOp => Family::Stack,
        RealInstruction::Push(_) => Family::Stack,
        RealInstruction::Pop => Family::Stack,
        RealInstruction::Duplicate => Family::Stack,
        RealInstruction::TupleNew => Family::Aggregate,
        RealInstruction::TupleGet => Family::Aggregate,
        RealInstruction::VectorNew(_) => Family::Aggregate,
        RealInstruction::VectorGet => Family::Aggregate,
        RealInstruction::VectorSet => Family::Aggregate,
        RealInstruction::VectorLength => Family::Aggregate,
        RealInstruction::ProductNew(_) => Family::Undefined,
        RealInstruction::ProductGet(_) => Family::Aggregate,
        RealInstruction::ProductSet(_) => Family::Aggregate,
        RealInstruction::SumNew(_) => Family::Undefined,
        RealInstruction::SumGet(_) => Family::Aggregate,
        RealInstruction::SumSet(_) => Family::Aggregate,
        RealInstruction::FunctionCall(_, _) => Family::Control,
        RealInstruction::Return(_) => Family::Control,
        RealInstruction::ClosureNew(_) => Family::Host,
        RealInstruction::ReferenceNew => Family::Undefined,
        RealInstruction::ReferenceGet => Family::Undefined,
        RealInstruction::ReferenceSet => Family::Undefined,
        RealInstruction::ReferenceSetShared => Family::Undefined,
        RealInstruction::IntegerNew(_) => Family::Integer,
        RealInstruction::IntegerAdd => Family::Integer,
        RealInstruction::IntegerSubtract => Family::Integer,
        RealInstruction::IntegerMultiply => Family::Integer,
        RealInstruction::IntegerDivide => Family::Integer,
        RealInstruction::IntegerModulo => Family::Integer,
        RealInstruction::IntegerPower => Family::Integer,
        RealInstruction::IntegerNegate => Family::Integer,
        RealInstruction::IntegerBitwiseAnd => Family::Integer,
        RealInstruction::IntegerBitwiseOr => Family::Integer,
        RealInstruction::IntegerBitwiseXor => Family::Integer,
        RealInstruction::IntegerBitwiseNot => Family::Integer,
        RealInstruction::IntegerShiftLeft => Family::Integer,
        RealInstruction::IntegerShiftRight => Family::Integer,
        RealInstruction::DecimalNew(_) => Family::Decimal,
        RealInstruction::DecimalAdd => Family::Decimal,
        RealInstruction::DecimalSubtract => Family::Decimal,
        RealInstruction::DecimalMultiply => Family::Decimal,
        RealInstruction::DecimalDivide => Family::Decimal,
        RealInstruction::DecimalModulo => Family::Decimal,
        RealInstruction::DecimalPower => Family::Decimal,
        RealInstruction::DecimalNegate => Family::Decimal,
        RealInstruction::StringNew(_) => Family::Text,
        RealInstruction::StringConcat => Family::Text,
        RealInstruction::StringLength => Family::Text,
        RealInstruction::BooleanNew(_) => Family::Text,
        RealInstruction::BooleanAnd => Family::Text,
        RealInstruction::BooleanOr => Family::Text,
        RealInstruction::BooleanNot => Family::Text,
        RealInstruction::CharacterNew(_) => Family::Text,
        RealInstruction::RequestValue(_) => Family::Host,
        RealInstruction::SetValue(_) => Family::Host,
        RealInstruction::Compare(_) => Family::Aggregate,
        RealInstruction::Goto(_, _) => Family::Control,
        RealInstruction::Store(_) => Family::Stack,
        RealInstruction::Lookup(_) => Family::Stack,
        RealInstruction::GlobalStore(_) => Family::Stack,
        RealInstruction::GlobalLookup(_) => Family::Stack,
        RealInstruction::Write => Family::Host,
        RealInstruction::Read => Family::Host,
        RealInstruction::GetStringRef(_, _) => Family::Host,
        RealInstruction::Cast(_) => Family::Host,
    }
}

impl Core {
    fn push_value(&mut self, value: Value) -> (r: Result<Option<HostRequest>, Fault>)
        ensures
            handed(r) == push_model(old(self)@, value@).result,
            final(self)@ == push_model(old(self)@, value@).core,
    {
        self.put(value);
        Ok(None)
    }

    fn pop(&mut self) -> (r: Result<Option<HostRequest>, Fault>)
        ensures
            handed(r) == pop_model(old(self)@).result,
            final(self)@ == pop_model(old(self)@).core,
    {
        if self.stack.len() < 1 {
            return Err(Fault::InvalidInstruction);
        }
        let _ = self.take();
        Ok(None)
    }

    fn duplicate(&mut self) -> (r: Result<Option<HostRequest>, Fault>)
        ensures
            handed(r) == duplicate_model(old(self)@).result,
            final(self)@ == duplicate_model(old(self)@).core,
    {
        let depth = self.stack.len();
        if depth < 1 {
            return Err(Fault::InvalidInstruction);
        }
        let copy = clone_value(&self.stack.data[depth - 1]);
        self.put(copy);
        Ok(None)
    }

    fn store(&mut self, name: &String, environment: &mut Environment) -> (r: Result<
        Option<HostRequest>,
        Fault,
    >)
        ensures
            handed(r) == pop_model(old(self)@).result,
            final(self)@ == pop_model(old(self)@).core,
            final(environment)@ == if old(self)@.stack.len() < 1 {
                old(environment)@
            } else {
                old(environment)@.insert(name@, under(old(self)@.stack, 0))
            },
    {
        if self.stack.len() < 1 {
            return Err(Fault::InvalidInstruction);
        }
        let value = self.take();
        environment.insert(name.clone(), value);
        Ok(None)
    }

    fn lookup(&mut self, name: &String, environment: &Environment) -> (r: Result<
        Option<HostRequest>,
        Fault,
    >)
        ensures
            handed(r) == lookup_model(old(self)@, environment@, name@).result,
            final(self)@ == lookup_model(old(self)@, environment@, name@).core,
    {
        match environment.get(name.as_str()) {
            Some(value) => {
                self.put(value.clone());
                Ok(None)
            },
            None => Err(Fault::NameNotFound(name.clone())),
        }
    }

    fn global_store(&mut self, name: &String) -> (r: Result<Option<HostRequest>, Fault>)
        ensures
            handed(r) == global_store_model(old(self)@, name@).result,
            final(self)@ == global_store_model(old(self)@, name@).core,
    {
        if self.stack.len() < 1 {
            return Err(Fault::InvalidInstruction);
        }
        let value = self.take();
        self.globals.insert(name.clone(), value);
        Ok(None)
    }

    fn global_lookup(&mut self, name: &String) -> (r: Result<Option<HostRequest>, Fault>)
        ensures
            handed(r) == lookup_model(old(self)@, old(self)@.globals, name@).result,
            final(self)@ == lookup_model(old(self)@, old(self)@.globals, name@).core,
    {
        let found = match self.globals.get(name.as_str()) {
            Some(value) => Some(value.clone()),
            None => None,
        };
        match found {
            Some(value) => {
                self.put(value);
                Ok(None)
            },
            None => Err(Fault::NameNotFound(name.clone())),
        }
    }

    fn write(&mut self) -> (r: Result<Option<HostRequest>, Fault>)
        ensures
            handed(r) == write_model(old(self)@).result,
            final(self)@ == write_model(old(self)@).core,
    {
        if self.stack.len() < 1 {
            return Err(Fault::InvalidInstruction);
        }
        let value = self.take();
        Ok(Some(HostRequest::Write(value)))
    }

    fn set_value(&mut self, name: &String) -> (r: Result<Option<HostRequest>, Fault>)
        ensures
            handed(r) == set_value_model(old(self)@, name@).result,
            final(self)@ == set_value_model(old(self)@, name@).core,
    {
        if self.stack.len() < 1 {
            return Err(Fault::InvalidInstruction);
        }
        let value = self.take();
        Ok(Some(HostRequest::SetValue(name.clone(), value)))
    }

    /// The operations that move values between stack and bindings.
    fn perform_stack(&mut self, operation: &RealInstruction, environment: &mut Environment) -> (r:
        Result<Option<HostRequest>, Fault>)
        requires
            family_of(operation@) is Stack,
        ensures
            handed(r) == stack_family_model(old(self)@, operation@, old(environment)@).result,
            final(self)@ == stack_family_model(old(self)@, operation@, old(environment)@).core,
            r is Ok ==> final(environment)@ == bound_after(
                old(self)@,
                operation@,
                old(environment)@,
            ),
            r is Err ==> final(environment)@ == old(environment)@,
    {
        proof {
            lemma_family(*operation);
        }
        match operation {
            RealInstruction::NoOp => Ok(None),
            RealInstruction::Push(value) => self.push_value(value.clone()),
            RealInstruction::Pop => self.pop(),
            RealInstruction::Duplicate => self.duplicate(),
            RealInstruction::Store(name) => self.store(name, environment),
            RealInstruction::Lookup(name) => self.lookup(name, environment),
            RealInstruction::GlobalStore(name) => self.global_store(name),
            RealInstruction::GlobalLookup(name) => self.global_lookup(name),
            _ => Err(Fault::InvalidInstruction),
        }
    }

    /// The operations on integers.
    fn perform_integer(&mut self, operation: &RealInstruction) -> (r: Result<
        Option<HostRequest>,
        Fault,
    >)
        requires
            family_of(operation@) is Integer,
        ensures
            handed(r) == integer_family_model(old(self)@, operation@).result,
            final(self)@ == integer_family_model(old(self)@, operation@).core,
    {
        proof {
            lemma_family(*operation);
        }
        match operation {
            RealInstruction::IntegerNew(integer) => self.push_value(
                Value::Integer(integer.clone()),
            ),
            RealInstruction::IntegerAdd => self.integer_binary(operation),
            RealInstruction::IntegerSubtract => self.integer_binary(operation),
            RealInstruction::IntegerMultiply => self.integer_binary(operation),
            RealInstruction::IntegerDivide => self.integer_binary(operation),
            RealInstruction::IntegerModulo => self.integer_binary(operation),
            RealInstruction::IntegerPower => self.integer_binary(operation),
            RealInstruction::IntegerBitwiseAnd => self.integer_binary(operation),
            RealInstruction::IntegerBitwiseOr => self.integer_binary(operation),
            RealInstruction::IntegerBitwiseXor => self.integer_binary(operation),
            RealInstruction::IntegerShiftLeft => self.integer_binary(operation),
            RealInstruction::IntegerShiftRight => self.integer_binary(operation),
            RealInstruction::IntegerNegate => self.integer_negate(),
            RealInstruction::IntegerBitwiseNot => self.integer_bitwise_not(),
            _ => Err(Fault::InvalidInstruction),
        }
    }

    /// The operations on decimals.
    fn perform_decimal(&mut self, operation: &RealInstruction) -> (r: Result<
        Option<HostRequest>,
        Fault,
    >)
        requires
            family_of(operation@) is Decimal,
        ensures
            handed(r) == decimal_family_model(old(self)@, operation@).result,
            final(self)@ == decimal_family_model(old(self)@, operation@).core,
    {
        proof {
            lemma_family(*operation);
        }
        match operation {
            RealInstruction::DecimalNew(decimal) => self.push_value(
                Value::Decimal(decimal.clone()),
            ),
            RealInstruction::DecimalAdd => self.decimal_binary(Arithmetic::Add),
            RealInstruction::DecimalSubtract => self.decimal_binary(Arithmetic::Subtract),
            RealInstruction::DecimalMultiply => self.decimal_binary(Arithmetic::Multiply),
            RealInstruction::DecimalDivide => self.decimal_binary(Arithmetic::Divide),
            RealInstruction::DecimalModulo => self.decimal_binary(Arithmetic::Modulo),
            RealInstruction::DecimalPower => self.decimal_power(),
            RealInstruction::DecimalNegate => self.decimal_negate(),
            _ => Err(Fault::InvalidInstruction),
        }
    }

    /// The operations on strings, truth values and characters.
    fn perform_text(&mut self, operation: &RealInstruction) -> (r: Result<
        Option<HostRequest>,
        Fault,
    >)
        requires
            family_of(operation@) is Text,
        ensures
            handed(r) == text_family_model(old(self)@, operation@).result,
            final(self)@ == text_family_model(old(self)@, operation@).core,
    {
        proof {
            lemma_family(*operation);
        }
        match operation {
            RealInstruction::StringNew(text) => self.push_value(Value::String(text.clone())),
            RealInstruction::StringConcat => self.string_concat(),
            RealInstruction::StringLength => self.string_length(),
            RealInstruction::BooleanNew(boolean) => self.push_value(Value::Boolean(*boolean)),
            RealInstruction::BooleanAnd => self.boolean_binary(true),
            RealInstruction::BooleanOr => self.boolean_binary(false),
            RealInstruction::BooleanNot => self.boolean_not(),
            RealInstruction::CharacterNew(character) => self.push_value(
                Value::Character(*character),
            ),
            _ => Err(Fault::InvalidInstruction),
        }
    }

    /// The comparison and the operations on tuples, vectors, products and
    /// sums.
    fn perform_aggregate(&mut self, operation: &RealInstruction) -> (r: Result<
        Option<HostRequest>,
        Fault,
    >)
        requires
            family_of(operation@) is Aggregate,
        ensures
            handed(r) == aggregate_family_model(old(self)@, operation@).result,
            final(self)@ == aggregate_family_model(old(self)@, operation@).core,
    {
        proof {
            lemma_family(*operation);
        }
        match operation {
            RealInstruction::Compare(comparison_type) => self.compare(comparison_type),
            RealInstruction::TupleNew => self.tuple_new(),
            RealInstruction::TupleGet => self.tuple_get(),
            RealInstruction::VectorNew(typ) => self.vector_new(typ),
            RealInstruction::VectorGet => self.vector_get(),
            RealInstruction::VectorSet => self.vector_set(),
            RealInstruction::VectorLength => self.vector_length(),
            RealInstruction::ProductGet(name) => self.product_get(name),
            RealInstruction::ProductSet(index) => self.product_set(*index),
            RealInstruction::SumGet(name) => self.sum_get(name),
            RealInstruction::SumSet(name) => self.sum_set(name),
            _ => Err(Fault::InvalidInstruction),
        }
    }

    /// Closures, casts, the string table and the side channel.
    fn perform_host(
        &mut self,
        operation: &RealInstruction,
        environment: &Environment,
        module: &Module,
    ) -> (r: Result<Option<HostRequest>, Fault>)
        requires
            family_of(operation@) is Host,
        ensures
            handed(r) == host_family_model(old(self)@, operation@, environment@, module@).result,
            final(self)@ == host_family_model(old(self)@, operation@, environment@, module@).core,
    {
        proof {
            lemma_family(*operation);
        }
        match operation {
            RealInstruction::ClosureNew(source) => self.closure_new(source, module, environment),
            RealInstruction::Cast(target) => self.cast(target),
            RealInstruction::GetStringRef(path, index) => self.get_string_ref(module, path, *index),
            RealInstruction::Write => self.write(),
            RealInstruction::Read => Ok(Some(HostRequest::Read)),
            RealInstruction::RequestValue(name) => Ok(
                Some(HostRequest::RequestValue(name.clone())),
            ),
            RealInstruction::SetValue(name) => self.set_value(name),
            _ => Err(Fault::InvalidInstruction),
        }
    }

    /// Carries out an operation other than `Halt`, `Goto`, `Return` and
    /// `FunctionCall`, without moving the program counter.
    fn perform(
        &mut self,
        operation: &RealInstruction,
        environment: &mut Environment,
        module: &Module,
    ) -> (r: Result<Option<HostRequest>, Fault>)
        ensures
            handed(r) == outcome_model(old(self)@, operation@, old(environment)@, module@).result,
            final(self)@ == outcome_model(
                old(self)@,
                operation@,
                old(environment)@,
                module@,
            ).core,
            r is Ok ==> final(environment)@ == bound_after(
                old(self)@,
                operation@,
                old(environment)@,
            ),
            r is Err ==> final(environment)@ == old(environment)@,
    {
        match family(operation) {
            Family::Stack => self.perform_stack(operation, environment),
            Family::Integer => self.perform_integer(operation),
            Family::Decimal => self.perform_decimal(operation),
            Family::Text => self.perform_text(operation),
            Family::Aggregate => self.perform_aggregate(operation),
            Family::Host => self.perform_host(operation, environment, module),
            _ => Err(Fault::InvalidInstruction),
        }
    }
}

/// A step on an operation that does not move the program counter itself
/// is the outcome of the operation and then a move to the next
/// instruction.
pub proof fn lemma_plain_step(
    core: CoreModel,
    operation: OperationModel,
    program_counter: usize,
    bound: Map<Seq<char>, ValueModel>,
    module: ModuleModel,
)
    requires
        !(family_of(operation) is Control),
    ensures
        execute_model(core, operation, program_counter, bound, module) == plain_step(
            outcome_model(core, operation, bound, module),
            program_counter,
            bound,
            bound_after(core, operation, bound),
        ),
{
}

impl Core {
    /// The operations that move the program counter themselves.
    fn perform_control<'a>(
        &mut self,
        operation: &RealInstruction,
        program_counter: &mut usize,
        module: &'a Module,
    ) -> (r: Result<InstructionResult<'a>, Fault>)
        requires
            family_of(operation@) is Control,
            *old(program_counter) < usize::MAX,
        ensures
            forall|bound: Map<Seq<char>, ValueModel>|
                step_of(r, final(self)@, *final(program_counter), bound) == #[trigger] execute_model(
                    old(self)@,
                    operation@,
                    *old(program_counter),
                    bound,
                    module@,
                ),
    {
        proof {
            lemma_family(*operation);
        }
        match operation {
            RealInstruction::Goto(target, condition) => self.goto(
                target,
                condition,
                program_counter,
            ),
            RealInstruction::Return(condition) => self.return_instruction(
                condition,
                program_counter,
            ),
            RealInstruction::FunctionCall(source, condition) => self.function_call(
                source,
                condition,
                program_counter,
                module,
            ),
            RealInstruction::Halt => Ok(InstructionResult::Stop),
            _ => Err(Fault::InvalidInstruction),
        }
    }

    /// One step of the machine: carries out the instruction on the stack,
    /// the flags, the program counter and the bindings of the frame, and
    /// reports what the driver is to do next.
    ///
    /// The step is the one that `execute_model` defines. The program
    /// counter is the address of the instruction in its code: it has a
    /// next address, as every index into a `Vec` has.
    pub fn execute_instruction<'a>(
        &mut self,
        instruction: &Instruction,
        program_counter: &mut usize,
        environment: &mut Environment,
        module: &'a Module,
    ) -> (r: Result<InstructionResult<'a>, Fault>)
        requires
            *old(program_counter) < usize::MAX,
        ensures
            step_of(r, final(self)@, *final(program_counter), final(environment)@)
                == execute_model(
                old(self)@,
                instruction@.instruction,
                *old(program_counter),
                old(environment)@,
                module@,
            ),
    {
        let operation = &instruction.instruction;
        match family(operation) {
            Family::Control => self.perform_control(operation, program_counter, module),
            _ => {
                proof {
                    lemma_plain_step(
                        self@,
                        operation@,
                        *program_counter,
                        environment@,
                        module@,
                    );
                }
                match self.perform(operation, environment, module) {
                    Err(fault) => Err(fault),
                    Ok(request) => {
                        *program_counter = *program_counter + 1;
                        match request {
                            Some(asked) => Ok(InstructionResult::Host(asked)),
                            None => Ok(InstructionResult::Continue),
                        }
                    },
                }
            },
        }
    }
}

} // verus!
