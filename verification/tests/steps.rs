use stackvm::instruction::RealInstruction::{
    BooleanAnd, BooleanNot, BooleanOr, Cast, CharacterNew, ClosureNew, Compare, DecimalAdd,
    DecimalDivide, DecimalModulo, DecimalMultiply, DecimalNegate, DecimalPower, DecimalSubtract,
    Duplicate, FunctionCall, GetStringRef, GlobalLookup, GlobalStore, Goto, Halt, IntegerAdd,
    IntegerBitwiseAnd, IntegerDivide, IntegerModulo, IntegerMultiply, IntegerNegate, Lookup, NoOp,
    Pop, ProductNew, Push, Read, ReferenceNew, RequestValue, Return, SetValue, Store,
    ProductGet, ProductSet, StringConcat, StringLength, SumGet, SumNew, SumSet, TupleGet, TupleNew, VectorGet, VectorLength, VectorNew,
    VectorSet, Write,
};
use stackvm::instruction::{
    ComparisonType, Condition, FunctionSource, Instruction, JumpTarget, RealInstruction,
};
use stackvm::machine::environment::Environment;
use stackvm::machine::evaluator::{flag_of, family, Comparison, Core, Family};
use stackvm::machine::{Arithmetic, Fault, HostReply, HostRequest, InstructionResult};
use stackvm::program::module::Module;
use stackvm::program::{FunctionPath, StringTablePath};
use stackvm::value::decimal::{Decimal, DecimalType};
use stackvm::value::function::Function;
use stackvm::value::integer::{Integer, IntegerType, Relation};
use stackvm::value::natural::Natural;
use stackvm::value::rational::Rational;
use stackvm::value::signed::BigInteger;
use stackvm::value::tuple::Tuple;
use stackvm::value::vector::VectorType;
use stackvm::value::{Reference, Value, ValueType};

struct Bench {
    core: Core,
    program_counter: usize,
    environment: Environment,
    module: Module,
}

fn bench(stack: Vec<Value>) -> Bench {
    let mut core = Core::new();
    for value in stack {
        core.stack.push(value);
    }
    Bench { core, program_counter: 10, environment: Environment::new(), module: Module::default() }
}

fn step<'a>(bench: &'a mut Bench, operation: RealInstruction) -> Result<InstructionResult<'a>, Fault> {
    let instruction = Instruction::new(operation);
    bench.core.execute_instruction(
        &instruction,
        &mut bench.program_counter,
        &mut bench.environment,
        &bench.module,
    )
}

fn u8v(value: u8) -> Value {
    Value::Integer(Integer::U8(value))
}

fn i32v(value: i32) -> Value {
    Value::Integer(Integer::I32(value))
}

fn text(value: &str) -> Value {
    Value::String(value.to_string())
}

fn fraction(numerator: i64, denominator: u64) -> Decimal {
    Decimal::Rational(
        Rational::new(BigInteger::from_i64(numerator), Natural::from_u64(denominator)).unwrap(),
    )
}

fn is_fraction(value: &Value, numerator: i64, denominator: u64) -> bool {
    match (value, fraction(numerator, denominator)) {
        (Value::Decimal(Decimal::Rational(q)), Decimal::Rational(expected)) => q.equals(&expected),
        _ => false,
    }
}

fn single(value: f32) -> Value {
    Value::Decimal(Decimal::F32(value.to_bits()))
}

fn double(value: f64) -> Value {
    Value::Decimal(Decimal::F64(value.to_bits()))
}

#[test]
fn push_pop_and_duplicate_move_the_depth_by_one() {
    let mut b = bench(vec![]);
    assert!(matches!(step(&mut b, Push(u8v(4))), Ok(InstructionResult::Continue)));
    assert_eq!(b.core.stack.len(), 1);
    assert_eq!(b.program_counter, 11);
    assert!(matches!(step(&mut b, Duplicate), Ok(InstructionResult::Continue)));
    assert_eq!(b.core.stack.len(), 2);
    assert!(matches!(b.core.stack.data[1], Value::Integer(Integer::U8(4))));
    assert!(matches!(step(&mut b, Pop), Ok(InstructionResult::Continue)));
    assert!(matches!(step(&mut b, Pop), Ok(InstructionResult::Continue)));
    assert_eq!(b.core.stack.len(), 0);
    assert_eq!(b.program_counter, 14);
    assert!(matches!(step(&mut b, NoOp), Ok(InstructionResult::Continue)));
    assert_eq!(b.program_counter, 15);
}

#[test]
fn an_operation_without_its_operands_is_an_invalid_instruction() {
    for operation in [Pop, Duplicate, IntegerAdd, IntegerNegate, TupleNew, VectorSet, Write, DecimalAdd, BooleanNot, StringLength] {
        let mut b = bench(vec![]);
        assert!(matches!(step(&mut b, operation), Err(Fault::InvalidInstruction)));
        assert_eq!(b.program_counter, 10);
        assert_eq!(b.core.stack.len(), 0);
    }
    let mut b = bench(vec![u8v(1)]);
    assert!(matches!(step(&mut b, IntegerAdd), Err(Fault::InvalidInstruction)));
    assert_eq!(b.core.stack.len(), 1);
    let mut b = bench(vec![u8v(1), u8v(2)]);
    assert!(matches!(step(&mut b, VectorSet), Err(Fault::InvalidInstruction)));
    assert_eq!(b.core.stack.len(), 2);
}

#[test]
fn operations_without_a_defined_effect_are_invalid_instructions() {
    for operation in [ProductNew(2), SumNew("a".to_string()), ReferenceNew] {
        let mut b = bench(vec![u8v(1), u8v(2)]);
        assert!(matches!(step(&mut b, operation), Err(Fault::InvalidInstruction)));
        assert_eq!(b.core.stack.len(), 2);
        assert_eq!(b.program_counter, 10);
    }
}

#[test]
fn every_operation_has_its_family() {
    assert!(matches!(family(&NoOp), Family::Stack));
    assert!(matches!(family(&IntegerAdd), Family::Integer));
    assert!(matches!(family(&DecimalPower), Family::Decimal));
    assert!(matches!(family(&StringConcat), Family::Text));
    assert!(matches!(family(&VectorGet), Family::Aggregate));
    assert!(matches!(family(&Read), Family::Host));
    assert!(matches!(family(&Halt), Family::Control));
    assert!(matches!(family(&ReferenceNew), Family::Undefined));
}

#[test]
fn store_binds_and_lookup_copies() {
    let mut b = bench(vec![u8v(3)]);
    assert!(matches!(step(&mut b, Store("x".to_string())), Ok(InstructionResult::Continue)));
    assert_eq!(b.core.stack.len(), 0);
    assert!(matches!(b.environment.get("x"), Some(Value::Integer(Integer::U8(3)))));
    assert!(matches!(step(&mut b, Lookup("x".to_string())), Ok(InstructionResult::Continue)));
    assert!(matches!(b.core.stack.peek(), Value::Integer(Integer::U8(3))));
    assert!(b.environment.contains_key("x"));
    assert!(matches!(step(&mut b, Push(u8v(9))), Ok(_)));
    assert!(matches!(step(&mut b, Store("x".to_string())), Ok(_)));
    assert!(matches!(b.environment.get("x"), Some(Value::Integer(Integer::U8(9)))));
    assert_eq!(b.environment.len(), 1);
    match step(&mut b, Lookup("y".to_string())) {
        Err(Fault::NameNotFound(name)) => assert_eq!(name, "y"),
        other => panic!("the step came to {:?}", other),
    }
    assert_eq!(b.program_counter, 14);
}

#[test]
fn the_module_scope_is_apart_from_the_frame() {
    let mut b = bench(vec![u8v(3)]);
    assert!(matches!(step(&mut b, GlobalStore("g".to_string())), Ok(InstructionResult::Continue)));
    assert!(b.environment.is_empty());
    assert!(matches!(step(&mut b, Lookup("g".to_string())), Err(Fault::NameNotFound(_))));
    assert!(matches!(step(&mut b, GlobalLookup("g".to_string())), Ok(InstructionResult::Continue)));
    assert!(matches!(b.core.stack.peek(), Value::Integer(Integer::U8(3))));
    assert!(matches!(step(&mut b, GlobalLookup("x".to_string())), Err(Fault::NameNotFound(_))));
}

#[test]
fn integer_arithmetic_sets_the_flags_from_the_result() {
    let mut b = bench(vec![i32v(2), i32v(5)]);
    assert!(matches!(step(&mut b, stackvm::instruction::RealInstruction::IntegerSubtract), Ok(InstructionResult::Continue)));
    assert_eq!(b.core.stack.len(), 1);
    assert!(matches!(b.core.stack.peek(), Value::Integer(Integer::I32(-3))));
    assert!(b.core.flags.negative);
    assert!(!b.core.flags.zero);
    let mut b = bench(vec![i32v(6), i32v(-6)]);
    assert!(matches!(step(&mut b, IntegerAdd), Ok(_)));
    assert!(matches!(b.core.stack.peek(), Value::Integer(Integer::I32(0))));
    assert!(!b.core.flags.negative);
    assert!(b.core.flags.zero);
    let mut b = bench(vec![i32v(6), i32v(7)]);
    assert!(matches!(step(&mut b, IntegerMultiply), Ok(_)));
    assert!(matches!(b.core.stack.peek(), Value::Integer(Integer::I32(42))));
    let mut b = bench(vec![i32v(-7), i32v(2)]);
    assert!(matches!(step(&mut b, IntegerModulo), Ok(_)));
    assert!(matches!(b.core.stack.peek(), Value::Integer(Integer::I32(-1))));
    assert!(b.core.flags.negative);
    let mut b = bench(vec![u8v(12), u8v(10)]);
    assert!(matches!(step(&mut b, IntegerBitwiseAnd), Ok(_)));
    assert!(matches!(b.core.stack.peek(), Value::Integer(Integer::U8(8))));
}

#[test]
fn division_by_zero_leaves_the_flags() {
    for operation in [IntegerDivide, IntegerModulo] {
        let mut b = bench(vec![i32v(-1), i32v(5), i32v(0)]);
        b.core.flags.negative = true;
        b.core.flags.zero = true;
        b.core.flags.comparison = Comparison::LessThan;
        assert!(matches!(step(&mut b, operation), Err(Fault::DivisionByZero)));
        assert!(b.core.flags.negative);
        assert!(b.core.flags.zero);
        assert_eq!(b.core.flags.comparison, Comparison::LessThan);
        assert_eq!(b.core.stack.len(), 1);
        assert_eq!(b.program_counter, 10);
    }
    for operation in [DecimalDivide, DecimalModulo] {
        let mut b = bench(vec![Value::Decimal(fraction(1, 2)), Value::Decimal(fraction(0, 3))]);
        b.core.flags.negative = true;
        assert!(matches!(step(&mut b, operation.clone()), Err(Fault::DivisionByZero)));
        assert!(b.core.flags.negative);
        let mut b = bench(vec![double(1.0), double(-0.0)]);
        assert!(matches!(step(&mut b, operation), Err(Fault::DivisionByZero)));
        assert!(!b.core.flags.zero);
    }
}

#[test]
fn operands_of_another_kind_are_type_faults() {
    let mut b = bench(vec![u8v(1), text("a")]);
    assert!(matches!(step(&mut b, IntegerAdd), Err(Fault::NotAnInteger)));
    assert_eq!(b.core.stack.len(), 0);
    let mut b = bench(vec![text("a")]);
    assert!(matches!(step(&mut b, IntegerNegate), Err(Fault::NotAnInteger)));
    let mut b = bench(vec![u8v(1), u8v(2)]);
    assert!(matches!(step(&mut b, DecimalAdd), Err(Fault::NotAnInteger)));
    let mut b = bench(vec![u8v(1), Value::Boolean(true)]);
    assert!(matches!(step(&mut b, BooleanAnd), Err(Fault::NotABoolean)));
    let mut b = bench(vec![u8v(1)]);
    assert!(matches!(step(&mut b, BooleanNot), Err(Fault::NotABoolean)));
    let mut b = bench(vec![u8v(1), text("a")]);
    assert!(matches!(step(&mut b, StringConcat), Err(Fault::InvalidString)));
    let mut b = bench(vec![u8v(1)]);
    assert!(matches!(step(&mut b, StringLength), Err(Fault::InvalidString)));
    let mut b = bench(vec![u8v(1), u8v(0)]);
    assert!(matches!(step(&mut b, VectorGet), Err(Fault::NotAVector)));
    let mut b = bench(vec![u8v(1), u8v(0), u8v(0)]);
    assert!(matches!(step(&mut b, VectorSet), Err(Fault::NotAVector)));
    assert_eq!(b.core.stack.len(), 0);
    let mut b = bench(vec![u8v(1)]);
    assert!(matches!(step(&mut b, VectorLength), Err(Fault::NotAVector)));
    let mut b = bench(vec![u8v(1), u8v(0)]);
    assert!(matches!(step(&mut b, TupleGet), Err(Fault::NotATuple)));
    let mut b = bench(vec![text("3")]);
    assert!(matches!(step(&mut b, TupleNew), Err(Fault::NotAnInteger)));
    let mut b = bench(vec![text("3")]);
    assert!(matches!(step(&mut b, VectorNew(VectorType::U8(0))), Err(Fault::NotAnInteger)));
}

#[test]
fn fractions_are_computed_with_exactly() {
    let mut b = bench(vec![Value::Decimal(fraction(1, 2)), Value::Decimal(fraction(1, 3))]);
    assert!(matches!(step(&mut b, DecimalAdd), Ok(InstructionResult::Continue)));
    assert!(is_fraction(b.core.stack.peek(), 5, 6));
    assert!(!b.core.flags.zero && !b.core.flags.negative);
    let mut b = bench(vec![Value::Decimal(fraction(1, 3)), Value::Decimal(fraction(1, 2))]);
    assert!(matches!(step(&mut b, DecimalSubtract), Ok(_)));
    assert!(is_fraction(b.core.stack.peek(), -1, 6));
    assert!(b.core.flags.negative);
    let mut b = bench(vec![Value::Decimal(fraction(2, 3)), Value::Decimal(fraction(0, 2))]);
    assert!(matches!(step(&mut b, DecimalMultiply), Ok(_)));
    assert!(is_fraction(b.core.stack.peek(), 0, 1));
    assert!(b.core.flags.zero);
    let mut b = bench(vec![Value::Decimal(fraction(2, 3)), Value::Decimal(fraction(-4, 3))]);
    assert!(matches!(step(&mut b, DecimalDivide), Ok(_)));
    assert!(is_fraction(b.core.stack.peek(), -1, 2));
    let mut b = bench(vec![Value::Decimal(fraction(2, 3)), Value::Decimal(fraction(4, 3))]);
    assert!(matches!(step(&mut b, DecimalModulo), Err(Fault::TypeMismatch)));
    let mut b = bench(vec![Value::Decimal(fraction(2, 3))]);
    assert!(matches!(step(&mut b, DecimalNegate), Ok(_)));
    assert!(is_fraction(b.core.stack.peek(), -2, 3));
    assert!(b.core.flags.negative);
    let mut b = bench(vec![Value::Decimal(fraction(2, 3)), Value::Integer(Integer::U8(2))]);
    assert!(matches!(step(&mut b, DecimalPower), Ok(_)));
    assert!(is_fraction(b.core.stack.peek(), 4, 9));
    let mut b = bench(vec![Value::Decimal(fraction(2, 3)), Value::Integer(Integer::I8(-2))]);
    assert!(matches!(step(&mut b, DecimalPower), Ok(_)));
    assert!(is_fraction(b.core.stack.peek(), 9, 4));
    let mut b = bench(vec![Value::Decimal(fraction(0, 3)), Value::Integer(Integer::I8(-2))]);
    assert!(matches!(step(&mut b, DecimalPower), Err(Fault::DivisionByZero)));
    let mut b = bench(vec![Value::Decimal(fraction(2, 3)), Value::Decimal(fraction(1, 2))]);
    assert!(matches!(step(&mut b, DecimalPower), Err(Fault::TypeMismatch)));
    let mut b = bench(vec![Value::Decimal(fraction(2, 3)), text("2")]);
    assert!(matches!(step(&mut b, DecimalPower), Err(Fault::NotAnInteger)));
    let mut b = bench(vec![Value::Decimal(fraction(2, 3)), double(1.0)]);
    assert!(matches!(step(&mut b, DecimalAdd), Err(Fault::TypeMismatch)));
}

#[test]
fn floating_point_arithmetic_is_handed_to_the_host() {
    let mut b = bench(vec![u8v(0), single(1.5), double(2.0)]);
    match step(&mut b, DecimalMultiply) {
        Ok(InstructionResult::Host(HostRequest::Arithmetic(
            Arithmetic::Multiply,
            Decimal::F32(left),
            Decimal::F64(right),
        ))) => {
            assert_eq!(f32::from_bits(left), 1.5);
            assert_eq!(f64::from_bits(right), 2.0);
        }
        other => panic!("the step came to {:?}", other),
    }
    assert_eq!(b.core.stack.len(), 1);
    assert_eq!(b.program_counter, 11);
    let request = HostRequest::Arithmetic(
        Arithmetic::Multiply,
        Decimal::F32(1.5f32.to_bits()),
        Decimal::F64(2.0f64.to_bits()),
    );
    assert!(b.core.resume(&request, HostReply::Value(double(-3.0))).is_ok());
    assert_eq!(b.core.stack.len(), 2);
    assert!(b.core.flags.negative);
    assert!(!b.core.flags.zero);
    assert!(matches!(
        b.core.resume(&request, HostReply::Value(u8v(1))),
        Err(Fault::InvalidOperation(_))
    ));
    assert!(matches!(
        b.core.resume(&request, HostReply::Done),
        Err(Fault::InvalidOperation(_))
    ));
    match b.core.resume(&request, HostReply::Failure("broken".to_string())) {
        Err(Fault::InvalidOperation(detail)) => assert_eq!(detail, "broken"),
        other => panic!("the answer came to {:?}", other),
    }
    assert_eq!(b.core.stack.len(), 2);

    let mut b = bench(vec![double(2.0), Value::Integer(Integer::U64(10))]);
    assert!(matches!(
        step(&mut b, DecimalPower),
        Ok(InstructionResult::Host(HostRequest::PowerInteger(Decimal::F64(_), 10)))
    ));
    let mut b = bench(vec![double(2.0), Value::Integer(Integer::I64(i64::MAX))]);
    assert!(matches!(step(&mut b, DecimalPower), Err(Fault::Overflow)));
    let mut b = bench(vec![double(2.0), Value::Integer(Integer::I64(i64::MIN))]);
    assert!(matches!(step(&mut b, DecimalPower), Err(Fault::Underflow)));
    let mut b = bench(vec![double(2.0), single(0.5)]);
    assert!(matches!(
        step(&mut b, DecimalPower),
        Ok(InstructionResult::Host(HostRequest::Arithmetic(Arithmetic::Power, _, _)))
    ));
    let mut b = bench(vec![double(2.0)]);
    assert!(matches!(step(&mut b, DecimalNegate), Ok(InstructionResult::Continue)));
    match b.core.stack.peek() {
        Value::Decimal(Decimal::F64(bits)) => assert_eq!(f64::from_bits(*bits), -2.0),
        other => panic!("the top is {:?}", other),
    }
    assert!(b.core.flags.negative);
}

#[test]
fn compare_records_the_relation_that_holds() {
    let table = [
        (ComparisonType::Equal, Comparison::NotEqual, Comparison::Equal, Comparison::NotEqual),
        (ComparisonType::NotEqual, Comparison::NotEqual, Comparison::Equal, Comparison::NotEqual),
        (
            ComparisonType::LessThan,
            Comparison::LessThan,
            Comparison::GreaterThanOrEqual,
            Comparison::GreaterThanOrEqual,
        ),
        (
            ComparisonType::LessThanOrEqual,
            Comparison::LessThanOrEqual,
            Comparison::LessThanOrEqual,
            Comparison::GreaterThan,
        ),
        (
            ComparisonType::GreaterThan,
            Comparison::LessThanOrEqual,
            Comparison::LessThanOrEqual,
            Comparison::GreaterThan,
        ),
        (
            ComparisonType::GreaterThanOrEqual,
            Comparison::LessThan,
            Comparison::GreaterThanOrEqual,
            Comparison::GreaterThanOrEqual,
        ),
    ];
    for (kind, less, equal, greater) in table {
        for (left, right, expected) in [(1, 2, less), (2, 2, equal), (3, 2, greater)] {
            let mut b = bench(vec![i32v(left), i32v(right)]);
            assert!(matches!(step(&mut b, Compare(kind)), Ok(InstructionResult::Continue)));
            assert_eq!(b.core.flags.comparison, expected);
            assert_eq!(b.core.stack.len(), 2);
            assert!(matches!(b.core.stack.data[0], Value::Integer(Integer::I32(v)) if v == left));
            assert!(matches!(b.core.stack.data[1], Value::Integer(Integer::I32(v)) if v == right));
        }
    }
}

#[test]
fn compare_then_goto_on_the_recorded_relation_jumps() {
    let conditions = [
        (Comparison::Equal, Condition::Equal),
        (Comparison::NotEqual, Condition::NotEqual),
        (Comparison::LessThan, Condition::LessThan),
        (Comparison::LessThanOrEqual, Condition::LessThanOrEqual),
        (Comparison::GreaterThan, Condition::GreaterThan),
        (Comparison::GreaterThanOrEqual, Condition::GreaterThanOrEqual),
    ];
    for kind in [
        ComparisonType::Equal,
        ComparisonType::NotEqual,
        ComparisonType::LessThan,
        ComparisonType::LessThanOrEqual,
        ComparisonType::GreaterThan,
        ComparisonType::GreaterThanOrEqual,
    ] {
        for (left, right) in [(1, 2), (2, 2), (3, 2)] {
            for (flag, condition) in conditions {
                let mut b = bench(vec![i32v(left), i32v(right)]);
                assert!(step(&mut b, Compare(kind)).is_ok());
                let recorded = b.core.flags.comparison;
                assert!(step(&mut b, Goto(JumpTarget::Absolute(100), condition)).is_ok());
                if flag == recorded {
                    assert_eq!(b.program_counter, 100);
                } else {
                    assert_eq!(b.program_counter, 12);
                }
            }
        }
    }
}

#[test]
fn values_of_two_variants_are_unordered() {
    let mut b = bench(vec![u8v(1), Value::Integer(Integer::U16(1))]);
    assert!(step(&mut b, Compare(ComparisonType::Equal)).is_ok());
    assert_eq!(b.core.flags.comparison, Comparison::NotEqual);
    assert!(step(&mut b, Compare(ComparisonType::LessThanOrEqual)).is_ok());
    assert_eq!(b.core.flags.comparison, Comparison::GreaterThan);
    let mut b = bench(vec![u8v(1), text("1")]);
    assert!(step(&mut b, Compare(ComparisonType::NotEqual)).is_ok());
    assert_eq!(b.core.flags.comparison, Comparison::NotEqual);
    assert!(step(&mut b, Compare(ComparisonType::GreaterThanOrEqual)).is_ok());
    assert_eq!(b.core.flags.comparison, Comparison::LessThan);
    let mut b = bench(vec![single(1.0), double(1.0)]);
    assert!(step(&mut b, Compare(ComparisonType::Equal)).is_ok());
    assert_eq!(b.core.flags.comparison, Comparison::NotEqual);
}

#[test]
fn strings_characters_and_truth_values_are_ordered() {
    for (left, right, expected) in [
        ("abc", "abd", Comparison::LessThan),
        ("abc", "abc", Comparison::GreaterThanOrEqual),
        ("abc", "ab", Comparison::GreaterThanOrEqual),
        ("", "a", Comparison::LessThan),
        ("b", "abc", Comparison::GreaterThanOrEqual),
        ("é", "z", Comparison::GreaterThanOrEqual),
    ] {
        let mut b = bench(vec![text(left), text(right)]);
        assert!(step(&mut b, Compare(ComparisonType::LessThan)).is_ok());
        assert_eq!(b.core.flags.comparison, expected, "{} and {}", left, right);
        assert_eq!(expected == Comparison::LessThan, left < right);
    }
    let mut b = bench(vec![Value::Character('a'), Value::Character('b')]);
    assert!(step(&mut b, Compare(ComparisonType::LessThan)).is_ok());
    assert_eq!(b.core.flags.comparison, Comparison::LessThan);
    let mut b = bench(vec![Value::Boolean(false), Value::Boolean(true)]);
    assert!(step(&mut b, Compare(ComparisonType::GreaterThan)).is_ok());
    assert_eq!(b.core.flags.comparison, Comparison::LessThanOrEqual);
    let mut b = bench(vec![Value::Decimal(fraction(1, 3)), Value::Decimal(fraction(2, 6))]);
    assert!(step(&mut b, Compare(ComparisonType::Equal)).is_ok());
    assert_eq!(b.core.flags.comparison, Comparison::Equal);
}

#[test]
fn aggregates_cannot_be_compared() {
    let pairs = vec![
        (Value::Tuple(Tuple::empty()), Value::Tuple(Tuple::empty())),
        (Value::Reference(Reference(1)), Value::Reference(Reference(1))),
        (Value::Function(Function::empty()), Value::Function(Function::empty())),
    ];
    for (left, right) in pairs {
        let mut b = bench(vec![left, right]);
        b.core.flags.comparison = Comparison::Equal;
        assert!(matches!(step(&mut b, Compare(ComparisonType::Equal)), Err(Fault::TypeMismatch)));
        assert_eq!(b.core.stack.len(), 2);
        assert_eq!(b.core.flags.comparison, Comparison::Equal);
    }
}

#[test]
fn floating_point_comparison_is_handed_to_the_host() {
    let mut b = bench(vec![double(1.0), double(2.0)]);
    let request = match step(&mut b, Compare(ComparisonType::LessThan)) {
        Ok(InstructionResult::Host(request)) => request,
        other => panic!("the step came to {:?}", other),
    };
    assert!(matches!(request, HostRequest::Compare(ComparisonType::LessThan, _, _)));
    assert_eq!(b.core.stack.len(), 2);
    assert_eq!(b.core.flags.comparison, Comparison::Unset);
    assert!(b.core.resume(&request, HostReply::Relation(Relation::Less)).is_ok());
    assert_eq!(b.core.flags.comparison, Comparison::LessThan);
    assert!(b.core.resume(&request, HostReply::Relation(Relation::Unordered)).is_ok());
    assert_eq!(b.core.flags.comparison, Comparison::GreaterThanOrEqual);
    assert!(matches!(
        b.core.resume(&request, HostReply::Value(u8v(1))),
        Err(Fault::InvalidOperation(_))
    ));
    assert_eq!(flag_of(ComparisonType::NotEqual, Relation::Unordered), Comparison::NotEqual);
}

#[test]
fn conditions_are_read_off_the_flags() {
    let mut core = Core::new();
    assert!(core.can_jump(&Condition::Always));
    assert!(!core.can_jump(&Condition::Equal));
    assert!(!core.can_jump(&Condition::NotEqual));
    assert!(!core.can_jump(&Condition::Zero));
    assert!(core.can_jump(&Condition::NotZero));
    assert!(!core.can_jump(&Condition::Negative));
    assert!(core.can_jump(&Condition::NotNegative));
    assert!(!core.can_jump(&Condition::Carry));
    assert!(!core.can_jump(&Condition::NotCarry));
    core.flags.zero = true;
    core.flags.negative = true;
    core.flags.comparison = Comparison::GreaterThan;
    assert!(core.can_jump(&Condition::Zero));
    assert!(!core.can_jump(&Condition::NotZero));
    assert!(core.can_jump(&Condition::Negative));
    assert!(core.can_jump(&Condition::GreaterThan));
    assert!(!core.can_jump(&Condition::GreaterThanOrEqual));
    assert!(!core.can_jump(&Condition::Carry));
}

#[test]
fn goto_sets_the_program_counter() {
    let mut b = bench(vec![u8v(1)]);
    assert!(matches!(
        step(&mut b, Goto(JumpTarget::Relative(-4), Condition::Always)),
        Ok(InstructionResult::Continue)
    ));
    assert_eq!(b.program_counter, 6);
    assert!(step(&mut b, Goto(JumpTarget::Relative(3), Condition::Always)).is_ok());
    assert_eq!(b.program_counter, 9);
    assert!(step(&mut b, Goto(JumpTarget::Relative(5), Condition::Zero)).is_ok());
    assert_eq!(b.program_counter, 10);
    assert!(step(&mut b, Goto(JumpTarget::Absolute(2), Condition::NotZero)).is_ok());
    assert_eq!(b.program_counter, 2);
    assert!(matches!(
        step(&mut b, Goto(JumpTarget::Relative(-3), Condition::Always)),
        Err(Fault::InvalidJump)
    ));
    assert_eq!(b.program_counter, 2);
    assert_eq!(b.core.stack.len(), 1);
    b.program_counter = usize::MAX - 1;
    assert!(matches!(
        step(&mut b, Goto(JumpTarget::Relative(2), Condition::Always)),
        Err(Fault::InvalidJump)
    ));
    assert_eq!(b.program_counter, usize::MAX - 1);
    assert!(matches!(
        step(&mut b, Goto(JumpTarget::Relative(2), Condition::Zero)),
        Ok(InstructionResult::Continue)
    ));
    assert_eq!(b.program_counter, usize::MAX);
}

#[test]
fn return_on_always_leaves_the_frame() {
    for (zero, negative, comparison) in [
        (false, false, Comparison::Unset),
        (true, false, Comparison::Equal),
        (false, true, Comparison::LessThan),
        (true, true, Comparison::GreaterThanOrEqual),
    ] {
        let mut b = bench(vec![u8v(1)]);
        b.core.flags.zero = zero;
        b.core.flags.negative = negative;
        b.core.flags.comparison = comparison;
        assert!(matches!(step(&mut b, Return(Condition::Always)), Ok(InstructionResult::Return)));
        assert_eq!(b.program_counter, 10);
        assert_eq!(b.core.stack.len(), 1);
    }
    let mut b = bench(vec![]);
    assert!(matches!(step(&mut b, Return(Condition::Zero)), Ok(InstructionResult::Continue)));
    assert_eq!(b.program_counter, 11);
    assert!(matches!(step(&mut b, Halt), Ok(InstructionResult::Stop)));
    assert_eq!(b.program_counter, 11);
}

#[test]
fn tuples_are_built_in_the_order_of_pushing() {
    let mut b = bench(vec![u8v(9), u8v(1), u8v(2), u8v(3), Value::Integer(Integer::U64(3))]);
    assert!(matches!(step(&mut b, TupleNew), Ok(InstructionResult::Continue)));
    assert_eq!(b.core.stack.len(), 2);
    match b.core.stack.peek() {
        Value::Tuple(tuple) => {
            assert_eq!(tuple.len(), 3);
            assert!(matches!(tuple.get(0), Some(Value::Integer(Integer::U8(1)))));
            assert!(matches!(tuple.get(2), Some(Value::Integer(Integer::U8(3)))));
            assert!(tuple.get(3).is_none());
        }
        other => panic!("the top is {:?}", other),
    }
    assert!(step(&mut b, Push(Value::Integer(Integer::I8(1)))).is_ok());
    assert!(matches!(step(&mut b, TupleGet), Ok(InstructionResult::Continue)));
    assert_eq!(b.core.stack.len(), 3);
    assert!(matches!(b.core.stack.peek(), Value::Integer(Integer::U8(2))));
    assert!(matches!(b.core.stack.data[1], Value::Tuple(_)));
    assert!(step(&mut b, Pop).is_ok());
    assert!(step(&mut b, Push(Value::Integer(Integer::I8(3)))).is_ok());
    assert!(matches!(step(&mut b, TupleGet), Err(Fault::OutOfBounds)));
    assert_eq!(b.core.stack.len(), 2);
    assert!(matches!(b.core.stack.peek(), Value::Tuple(_)));
    assert!(step(&mut b, Push(Value::Integer(Integer::I8(-1)))).is_ok());
    assert!(matches!(step(&mut b, TupleGet), Err(Fault::OutOfBounds)));

    let mut b = bench(vec![u8v(1), Value::Integer(Integer::U64(2))]);
    assert!(matches!(step(&mut b, TupleNew), Err(Fault::InvalidInstruction)));
    assert_eq!(b.core.stack.len(), 1);
    let mut b = bench(vec![u8v(1), Value::Integer(Integer::U64(0))]);
    assert!(step(&mut b, TupleNew).is_ok());
    assert_eq!(b.core.stack.len(), 2);
}

#[test]
fn what_was_set_in_a_vector_is_what_is_got() {
    let mut b = bench(vec![Value::Integer(Integer::U64(4))]);
    assert!(step(&mut b, VectorNew(VectorType::I32(0))).is_ok());
    assert!(step(&mut b, Push(Value::Integer(Integer::U8(2)))).is_ok());
    assert!(step(&mut b, Push(i32v(-77))).is_ok());
    assert!(matches!(step(&mut b, VectorSet), Ok(InstructionResult::Continue)));
    assert_eq!(b.core.stack.len(), 1);
    assert!(step(&mut b, Push(Value::Integer(Integer::U8(2)))).is_ok());
    assert!(matches!(step(&mut b, VectorGet), Ok(InstructionResult::Continue)));
    assert_eq!(b.core.stack.len(), 2);
    assert!(matches!(b.core.stack.peek(), Value::Integer(Integer::I32(-77))));
    assert!(step(&mut b, Pop).is_ok());
    assert!(step(&mut b, Push(Value::Integer(Integer::U8(1)))).is_ok());
    assert!(step(&mut b, VectorGet).is_ok());
    assert!(matches!(b.core.stack.peek(), Value::Integer(Integer::I32(0))));
}

#[test]
fn an_index_past_the_end_leaves_the_vector_on_the_stack() {
    for index in [Integer::U8(4), Integer::I8(-1), Integer::U64(u64::MAX)] {
        let mut b = bench(vec![Value::Integer(Integer::U64(4))]);
        assert!(step(&mut b, VectorNew(VectorType::U8(0))).is_ok());
        assert!(step(&mut b, Push(Value::Integer(index))).is_ok());
        assert!(matches!(step(&mut b, VectorGet), Err(Fault::OutOfBounds)));
        assert_eq!(b.core.stack.len(), 1);
        match b.core.stack.peek() {
            Value::Vector(vector) => assert_eq!(vector.length(), 4),
            other => panic!("the top is {:?}", other),
        }
    }
    let mut b = bench(vec![Value::Integer(Integer::U64(4))]);
    assert!(step(&mut b, VectorNew(VectorType::U8(0))).is_ok());
    assert!(step(&mut b, Push(Value::Integer(Integer::U8(4)))).is_ok());
    assert!(step(&mut b, Push(u8v(1))).is_ok());
    assert!(matches!(step(&mut b, VectorSet), Err(Fault::OutOfBounds)));
    assert_eq!(b.core.stack.len(), 1);
    assert!(matches!(b.core.stack.peek(), Value::Vector(_)));
}

#[test]
fn a_value_of_another_kind_leaves_the_vector_unchanged() {
    for index in [0u8, 9u8] {
        let mut b = bench(vec![Value::Integer(Integer::U64(2))]);
        assert!(step(&mut b, VectorNew(VectorType::U8(0))).is_ok());
        assert!(step(&mut b, Push(Value::Integer(Integer::U8(index)))).is_ok());
        assert!(step(&mut b, Push(Value::Integer(Integer::U16(7)))).is_ok());
        assert!(matches!(step(&mut b, VectorSet), Err(Fault::TypeMismatch)));
        assert_eq!(b.core.stack.len(), 1);
        match b.core.stack.peek() {
            Value::Vector(vector) => {
                assert_eq!(vector.length(), 2);
                for item in vector.items.iter() {
                    assert!(matches!(item, Value::Integer(Integer::U8(0))));
                }
            }
            other => panic!("the top is {:?}", other),
        }
    }
}

#[test]
fn a_size_or_an_index_may_be_of_any_variant() {
    let mut b = bench(vec![Value::Integer(Integer::Natural(Natural::from_u64(3)))]);
    assert!(step(&mut b, VectorNew(VectorType::U8(0))).is_ok());
    match b.core.stack.peek() {
        Value::Vector(vector) => assert_eq!(vector.length(), 3),
        other => panic!("the top is {:?}", other),
    }
    assert!(step(&mut b, Push(Value::Integer(Integer::Integer(BigInteger::from_i64(2))))).is_ok());
    assert!(step(&mut b, Push(u8v(7))).is_ok());
    assert!(matches!(step(&mut b, VectorSet), Ok(InstructionResult::Continue)));
    assert!(step(&mut b, Push(Value::Integer(Integer::Natural(Natural::from_u64(2))))).is_ok());
    assert!(matches!(step(&mut b, VectorGet), Ok(InstructionResult::Continue)));
    assert!(matches!(b.core.stack.peek(), Value::Integer(Integer::U8(7))));
    assert!(step(&mut b, Pop).is_ok());
    assert!(step(&mut b, Push(Value::Integer(Integer::Integer(BigInteger::from_i64(-1))))).is_ok());
    assert!(matches!(step(&mut b, VectorGet), Err(Fault::OutOfBounds)));
    assert_eq!(b.core.stack.len(), 1);
}

#[test]
fn a_vector_cannot_have_a_negative_length() {
    let mut b = bench(vec![Value::Integer(Integer::I8(-1))]);
    assert!(matches!(step(&mut b, VectorNew(VectorType::U8(0))), Err(Fault::OutOfMemory)));
    assert_eq!(b.core.stack.len(), 0);
}

#[test]
fn strings_are_joined_and_measured() {
    let mut b = bench(vec![text("grü"), text("ße")]);
    assert!(matches!(step(&mut b, StringConcat), Ok(InstructionResult::Continue)));
    assert!(matches!(b.core.stack.peek(), Value::String(s) if s == "grüße"));
    assert!(matches!(step(&mut b, StringLength), Ok(InstructionResult::Continue)));
    assert_eq!(b.core.stack.len(), 1);
    assert!(matches!(b.core.stack.peek(), Value::Integer(Integer::U64(5))));
    assert!(step(&mut b, CharacterNew('x')).is_ok());
    assert!(matches!(b.core.stack.peek(), Value::Character('x')));
}

#[test]
fn truth_values_combine() {
    for (left, right) in [(false, false), (false, true), (true, false), (true, true)] {
        let mut b = bench(vec![Value::Boolean(left), Value::Boolean(right)]);
        assert!(step(&mut b, BooleanAnd).is_ok());
        assert!(matches!(b.core.stack.peek(), Value::Boolean(v) if *v == (left && right)));
        let mut b = bench(vec![Value::Boolean(left), Value::Boolean(right)]);
        assert!(step(&mut b, BooleanOr).is_ok());
        assert!(matches!(b.core.stack.peek(), Value::Boolean(v) if *v == (left || right)));
        assert_eq!(b.core.stack.len(), 1);
    }
    let mut b = bench(vec![Value::Boolean(true)]);
    assert!(step(&mut b, BooleanNot).is_ok());
    assert!(matches!(b.core.stack.peek(), Value::Boolean(false)));
}

#[test]
fn the_side_channel_goes_through_the_host() {
    let mut b = bench(vec![u8v(1), u8v(2)]);
    let request = match step(&mut b, Write) {
        Ok(InstructionResult::Host(request)) => request,
        other => panic!("the step came to {:?}", other),
    };
    assert!(matches!(request, HostRequest::Write(Value::Integer(Integer::U8(2)))));
    assert_eq!(b.core.stack.len(), 1);
    assert_eq!(b.program_counter, 11);
    assert!(b.core.resume(&request, HostReply::Done).is_ok());
    assert_eq!(b.core.stack.len(), 1);
    assert!(matches!(
        b.core.resume(&request, HostReply::Value(u8v(1))),
        Err(Fault::InvalidOperation(_))
    ));

    let request = match step(&mut b, Read) {
        Ok(InstructionResult::Host(request)) => request,
        other => panic!("the step came to {:?}", other),
    };
    assert!(matches!(request, HostRequest::Read));
    assert!(b.core.resume(&request, HostReply::Value(text("in"))).is_ok());
    assert!(matches!(b.core.stack.peek(), Value::String(s) if s == "in"));
    assert!(matches!(
        b.core.resume(&request, HostReply::Done),
        Err(Fault::InvalidOperation(_))
    ));

    let request = match step(&mut b, RequestValue("key".to_string())) {
        Ok(InstructionResult::Host(request)) => request,
        other => panic!("the step came to {:?}", other),
    };
    assert!(matches!(&request, HostRequest::RequestValue(name) if name == "key"));
    assert!(matches!(
        b.core.resume(&request, HostReply::Failure("no such key".to_string())),
        Err(Fault::InvalidOperation(_))
    ));

    let depth = b.core.stack.len();
    let request = match step(&mut b, SetValue("key".to_string())) {
        Ok(InstructionResult::Host(request)) => request,
        other => panic!("the step came to {:?}", other),
    };
    assert!(matches!(&request, HostRequest::SetValue(name, Value::String(s)) if name == "key" && s == "in"));
    assert_eq!(b.core.stack.len(), depth - 1);
}

#[test]
fn casts_replace_the_top_value() {
    let mut b = bench(vec![Value::Integer(Integer::I16(-100))]);
    assert!(matches!(
        step(&mut b, Cast(ValueType::Integer(IntegerType::I8))),
        Ok(InstructionResult::Continue)
    ));
    assert!(matches!(b.core.stack.peek(), Value::Integer(Integer::I8(-100))));
    assert!(step(&mut b, Cast(ValueType::Integer(IntegerType::I16))).is_ok());
    assert!(matches!(b.core.stack.peek(), Value::Integer(Integer::I16(-100))));
    assert!(matches!(
        step(&mut b, Cast(ValueType::Integer(IntegerType::U8))),
        Err(Fault::Underflow)
    ));
    assert_eq!(b.core.stack.len(), 0);
    let mut b = bench(vec![u8v(3)]);
    match step(&mut b, Cast(ValueType::Decimal(DecimalType::F64))) {
        Ok(InstructionResult::Host(HostRequest::Cast(
            Value::Integer(Integer::U8(3)),
            ValueType::Decimal(DecimalType::F64),
        ))) => {}
        other => panic!("the step came to {:?}", other),
    }
    assert_eq!(b.core.stack.len(), 0);
    let request = HostRequest::Cast(u8v(3), ValueType::Decimal(DecimalType::F64));
    assert!(b.core.resume(&request, HostReply::Value(double(3.0))).is_ok());
    assert_eq!(b.core.stack.len(), 1);
    let mut b = bench(vec![text("3")]);
    assert!(matches!(
        step(&mut b, Cast(ValueType::Boolean)),
        Err(Fault::InvalidOperation(_))
    ));
}

#[test]
fn a_closure_captures_a_copy_of_the_bindings() {
    let mut b = bench(vec![]);
    b.module.add_function(
        "f",
        Function::new(vec![Instruction::new(Return(Condition::Always))], vec![]),
    );
    b.environment.insert("x".to_string(), u8v(3));
    let source = FunctionSource::Name(FunctionPath::parse("f"));
    assert!(matches!(step(&mut b, ClosureNew(source)), Ok(InstructionResult::Continue)));
    b.environment.insert("x".to_string(), u8v(99));
    b.environment.remove("x");
    match b.core.stack.peek() {
        Value::Function(function) => {
            assert!(matches!(
                function.get_environment().get("x"),
                Some(Value::Integer(Integer::U8(3)))
            ));
            assert_eq!(function.code.len(), 1);
        }
        other => panic!("the top is {:?}", other),
    }
    let missing = FunctionSource::Name(FunctionPath::parse("g"));
    match step(&mut b, ClosureNew(missing)) {
        Err(Fault::FunctionNotFound(path)) => assert_eq!(path.path, vec!["g".to_string()]),
        other => panic!("the step came to {:?}", other),
    }
    assert!(matches!(
        step(&mut b, ClosureNew(FunctionSource::Stack)),
        Err(Fault::InvalidInstruction)
    ));
}

#[test]
fn a_call_prepares_the_bindings_of_the_callee() {
    let mut b = bench(vec![u8v(0), u8v(1), u8v(2)]);
    b.module.add_function(
        "f",
        Function::new(vec![], vec!["a".to_string(), "b".to_string()]),
    );
    let source = FunctionSource::Name(FunctionPath::parse("f"));
    match step(&mut b, FunctionCall(source, Condition::Always)) {
        Ok(InstructionResult::CallRef(function, prepared)) => {
            assert_eq!(function.argument_names.len(), 2);
            assert!(matches!(prepared.get("a"), Some(Value::Integer(Integer::U8(1)))));
            assert!(matches!(prepared.get("b"), Some(Value::Integer(Integer::U8(2)))));
            assert_eq!(prepared.len(), 2);
        }
        other => panic!("the step came to {:?}", other),
    }
    assert_eq!(b.core.stack.len(), 1);
    assert_eq!(b.program_counter, 11);

    let source = FunctionSource::Name(FunctionPath::parse("f"));
    assert!(matches!(
        step(&mut b, FunctionCall(source, Condition::Always)),
        Err(Fault::InvalidInstruction)
    ));
    let source = FunctionSource::Name(FunctionPath::parse("f"));
    assert!(matches!(
        step(&mut b, FunctionCall(source, Condition::Zero)),
        Ok(InstructionResult::Continue)
    ));
    assert_eq!(b.program_counter, 13);
    let source = FunctionSource::Name(FunctionPath::parse("nowhere"));
    assert!(matches!(
        step(&mut b, FunctionCall(source, Condition::Always)),
        Err(Fault::FunctionNotFound(_))
    ));
    assert_eq!(b.program_counter, 14);
}

#[test]
fn a_call_takes_a_function_from_the_stack() {
    let callee = Function::new(vec![], vec!["a".to_string()]);
    let mut b = bench(vec![u8v(5), Value::Function(callee)]);
    match step(&mut b, FunctionCall(FunctionSource::Stack, Condition::Always)) {
        Ok(InstructionResult::Call(function, prepared)) => {
            assert_eq!(function.argument_names, vec!["a".to_string()]);
            assert!(matches!(prepared.get("a"), Some(Value::Integer(Integer::U8(5)))));
        }
        other => panic!("the step came to {:?}", other),
    }
    assert_eq!(b.core.stack.len(), 0);
    let mut b = bench(vec![u8v(5)]);
    assert!(matches!(
        step(&mut b, FunctionCall(FunctionSource::Stack, Condition::Always)),
        Err(Fault::NotAFunction)
    ));
}

#[test]
fn a_call_through_a_reference_is_a_fault_that_leaves_the_stack() {
    let mut b = bench(vec![u8v(5), Value::Reference(Reference(7))]);
    assert!(matches!(
        step(&mut b, FunctionCall(FunctionSource::Address, Condition::Always)),
        Err(Fault::InvalidOperation(_))
    ));
    assert_eq!(b.core.stack.len(), 2);
    let mut b = bench(vec![u8v(5)]);
    assert!(matches!(
        step(&mut b, FunctionCall(FunctionSource::Address, Condition::Always)),
        Err(Fault::NotAReference)
    ));
    assert_eq!(b.core.stack.len(), 1);
}

#[test]
fn strings_come_from_the_string_table() {
    let inner = Module::new("inner", vec![], vec!["zero".to_string(), "one".to_string()], vec![]);
    let module = Module::new(
        "outer",
        vec![],
        vec!["top".to_string()],
        vec![("inner".to_string(), inner)],
    );
    let mut b = bench(vec![]);
    b.module = module;
    assert!(step(&mut b, GetStringRef(StringTablePath::parse("inner"), 1)).is_ok());
    assert!(matches!(b.core.stack.peek(), Value::String(s) if s == "one"));
    assert!(step(&mut b, GetStringRef(StringTablePath::new(vec![]), 0)).is_ok());
    assert!(matches!(b.core.stack.peek(), Value::String(s) if s == "top"));
    assert!(matches!(
        step(&mut b, GetStringRef(StringTablePath::parse("inner"), 2)),
        Err(Fault::InvalidString)
    ));
    assert!(matches!(
        step(&mut b, GetStringRef(StringTablePath::parse("other"), 0)),
        Err(Fault::InvalidString)
    ));
    assert_eq!(b.core.stack.len(), 2);
}

fn point() -> Value {
    let fields = vec![("x".to_string(), u8v(1)), ("y".to_string(), u8v(2))];
    Value::Product(stackvm::value::product::ProductType::new("point".to_string(), fields).unwrap())
}

fn some() -> Value {
    let fields = vec![("value".to_string(), u8v(1))];
    Value::Sum(stackvm::value::sum::SumType::new("some".to_string(), 1, fields).unwrap())
}

#[test]
fn fields_of_products_are_read_by_name_and_written_by_place() {
    let mut b = bench(vec![point()]);
    assert!(matches!(step(&mut b, ProductGet("y".to_string())), Ok(InstructionResult::Continue)));
    assert_eq!(b.core.stack.len(), 2);
    assert!(matches!(b.core.stack.peek(), Value::Integer(Integer::U8(2))));
    assert!(matches!(b.core.stack.data[0], Value::Product(_)));
    assert!(matches!(step(&mut b, ProductGet("x".to_string())), Err(Fault::TypeMismatch)));
    assert_eq!(b.core.stack.len(), 1);
    match step(&mut b, ProductGet("z".to_string())) {
        Err(Fault::NameNotFound(name)) => assert_eq!(name, "z"),
        other => panic!("the step came to {:?}", other),
    }
    assert_eq!(b.core.stack.len(), 1);
    assert!(step(&mut b, Push(u8v(9))).is_ok());
    assert!(matches!(step(&mut b, ProductSet(0)), Ok(InstructionResult::Continue)));
    assert_eq!(b.core.stack.len(), 1);
    assert!(step(&mut b, ProductGet("x".to_string())).is_ok());
    assert!(matches!(b.core.stack.peek(), Value::Integer(Integer::U8(9))));
    assert!(matches!(step(&mut b, ProductSet(2)), Err(Fault::OutOfBounds)));
    assert_eq!(b.core.stack.len(), 1);
    match b.core.stack.peek() {
        Value::Product(product) => {
            assert!(matches!(product.get_at(0), Some(Value::Integer(Integer::U8(9)))));
            assert!(matches!(product.get_at(1), Some(Value::Integer(Integer::U8(2)))));
        }
        other => panic!("the top is {:?}", other),
    }
    let mut b = bench(vec![u8v(1), u8v(2)]);
    assert!(matches!(step(&mut b, ProductSet(0)), Err(Fault::TypeMismatch)));
    assert_eq!(b.core.stack.len(), 0);
}

#[test]
fn fields_of_sums_are_read_and_written_by_name() {
    let mut b = bench(vec![some()]);
    assert!(matches!(step(&mut b, SumGet("value".to_string())), Ok(InstructionResult::Continue)));
    assert_eq!(b.core.stack.len(), 2);
    assert!(matches!(b.core.stack.peek(), Value::Integer(Integer::U8(1))));
    assert!(step(&mut b, Pop).is_ok());
    assert!(matches!(step(&mut b, SumGet("other".to_string())), Err(Fault::NameNotFound(_))));
    assert_eq!(b.core.stack.len(), 1);
    assert!(step(&mut b, Push(u8v(5))).is_ok());
    assert!(matches!(step(&mut b, SumSet("value".to_string())), Ok(InstructionResult::Continue)));
    assert_eq!(b.core.stack.len(), 1);
    assert!(step(&mut b, SumGet("value".to_string())).is_ok());
    assert!(matches!(b.core.stack.peek(), Value::Integer(Integer::U8(5))));
    assert!(matches!(step(&mut b, SumSet("other".to_string())), Err(Fault::NameNotFound(_))));
    assert_eq!(b.core.stack.len(), 1);
    match b.core.stack.peek() {
        Value::Sum(sum) => {
            assert_eq!(sum.tag, 1);
            assert!(matches!(sum.get("value"), Some(Value::Integer(Integer::U8(5)))));
        }
        other => panic!("the top is {:?}", other),
    }
    let mut b = bench(vec![point(), u8v(1)]);
    assert!(matches!(step(&mut b, SumSet("x".to_string())), Err(Fault::TypeMismatch)));
    assert!(b.core.stack.is_empty());
    let mut b = bench(vec![point()]);
    assert!(matches!(step(&mut b, SumGet("x".to_string())), Err(Fault::TypeMismatch)));
}

#[test]
fn an_answer_must_be_of_the_variant_that_the_request_calls_for() {
    let mut b = bench(vec![]);
    let narrow = HostRequest::Arithmetic(
        Arithmetic::Add,
        Decimal::F32(1.0f32.to_bits()),
        Decimal::F32(2.0f32.to_bits()),
    );
    assert!(matches!(
        b.core.resume(&narrow, HostReply::Value(double(3.0))),
        Err(Fault::InvalidOperation(_))
    ));
    assert!(b.core.resume(&narrow, HostReply::Value(single(3.0))).is_ok());
    let mixed = HostRequest::Arithmetic(
        Arithmetic::Add,
        Decimal::F64(1.0f64.to_bits()),
        Decimal::F32(2.0f32.to_bits()),
    );
    assert!(matches!(
        b.core.resume(&mixed, HostReply::Value(single(3.0))),
        Err(Fault::InvalidOperation(_))
    ));
    assert!(b.core.resume(&mixed, HostReply::Value(double(3.0))).is_ok());
    assert!(matches!(
        b.core.resume(&mixed, HostReply::Value(Value::Decimal(fraction(3, 1)))),
        Err(Fault::InvalidOperation(_))
    ));
    let power = HostRequest::PowerInteger(Decimal::F32(2.0f32.to_bits()), 2);
    assert!(matches!(
        b.core.resume(&power, HostReply::Value(double(4.0))),
        Err(Fault::InvalidOperation(_))
    ));
    assert!(b.core.resume(&power, HostReply::Value(single(4.0))).is_ok());
    let cast = HostRequest::Cast(double(4.5), ValueType::Integer(IntegerType::I8));
    assert!(matches!(
        b.core.resume(&cast, HostReply::Value(Value::Integer(Integer::I16(4)))),
        Err(Fault::InvalidOperation(_))
    ));
    assert!(matches!(
        b.core.resume(&cast, HostReply::Value(double(4.0))),
        Err(Fault::InvalidOperation(_))
    ));
    assert!(b.core.resume(&cast, HostReply::Value(Value::Integer(Integer::I8(4)))).is_ok());
    assert_eq!(b.core.stack.len(), 4);
}
