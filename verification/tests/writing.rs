use stackvm::instruction::RealInstruction::{
    Cast, CharacterNew, Compare, DecimalNew, FunctionCall, GetStringRef, Goto, Halt, IntegerNew,
    ProductSet, Push, Return, Store, VectorNew,
};
use stackvm::instruction::{
    ComparisonType, Condition, FunctionSource, Instruction, JumpTarget, RealInstruction,
};
use stackvm::program::{FunctionPath, StringTablePath};
use stackvm::render::{
    table_path_to_text, write_operation, write_stack, write_target, write_value_type,
    write_vector_type, Piece, Writer,
};
use stackvm::stack::Stack;
use stackvm::value::decimal::{Decimal, DecimalType};
use stackvm::value::function::Function;
use stackvm::value::integer::{Integer, IntegerType};
use stackvm::value::natural::Natural;
use stackvm::value::product::ProductType;
use stackvm::value::rational::Rational;
use stackvm::value::signed::BigInteger;
use stackvm::value::sum::SumType;
use stackvm::value::text::{to_decimal, to_hexadecimal, to_signed_decimal};
use stackvm::value::tuple::Tuple;
use stackvm::value::vector::{Vector, VectorType};
use stackvm::value::{Reference, Value, ValueType};

fn printed(pieces: &[Piece]) -> String {
    let mut text = String::new();
    for piece in pieces {
        match piece {
            Piece::Text(t) => text.push_str(t),
            Piece::Character(c) => text.push(*c),
            Piece::Single(bits) => text.push_str(&format!("{}", f32::from_bits(*bits))),
            Piece::Double(bits) => text.push_str(&format!("{}", f64::from_bits(*bits))),
        }
    }
    text
}

fn shown(value: &Value) -> String {
    printed(&value.to_pieces())
}

fn operation(op: RealInstruction) -> String {
    let mut out = Writer::new();
    write_operation(&mut out, &op);
    printed(&out.pieces)
}

fn byte(value: u8) -> Value {
    Value::Integer(Integer::U8(value))
}

#[test]
fn numbers_are_written_in_digits() {
    assert_eq!(to_decimal(0), "0");
    assert_eq!(to_decimal(u64::MAX), "18446744073709551615");
    assert_eq!(to_signed_decimal(-42), "-42");
    assert_eq!(to_signed_decimal(i64::MIN), "-9223372036854775808");
    assert_eq!(to_hexadecimal(0), "0x0");
    assert_eq!(to_hexadecimal(15), "0xf");
    assert_eq!(to_hexadecimal(16), "0x10");
    assert_eq!(to_hexadecimal(0xdead_beef), "0xdeadbeef");
    assert_eq!(to_hexadecimal(u64::MAX), "0xffffffffffffffff");
    for value in [1u64, 9, 10, 255, 256, 4095, 4096, 0xabcdef, 1 << 63] {
        assert_eq!(to_hexadecimal(value), format!("{:#x}", value));
        assert_eq!(to_decimal(value), format!("{}", value));
    }
}

#[test]
fn values_are_written_out() {
    assert_eq!(shown(&Value::String("text".to_string())), "text");
    assert_eq!(shown(&Value::Integer(Integer::I16(-300))), "-300");
    assert_eq!(shown(&Value::Character('ß')), "ß");
    assert_eq!(shown(&Value::Boolean(true)), "true");
    assert_eq!(shown(&Value::Boolean(false)), "false");
    assert_eq!(shown(&Value::Reference(Reference(255))), "&0xff");
    assert_eq!(shown(&Value::Decimal(Decimal::F32(1.5f32.to_bits()))), "1.5");
    assert_eq!(shown(&Value::Decimal(Decimal::F64((-0.25f64).to_bits()))), "-0.25");
    let q = Rational::new(BigInteger::from_i64(-3), Natural::from_u64(4)).unwrap();
    assert_eq!(shown(&Value::Decimal(Decimal::Rational(q))), "-3/4");
}

#[test]
fn aggregates_are_written_out() {
    let mut vector = Vector::new(3, &VectorType::U8(0));
    assert!(vector.set(1, byte(7)).is_ok());
    assert_eq!(shown(&Value::Vector(vector)), "[0, 7, 0]");
    assert_eq!(shown(&Value::Vector(Vector::new(0, &VectorType::U8(0)))), "[]");
    assert_eq!(shown(&Value::Vector(Vector::new(1, &VectorType::F64(0)))), "[0]");
    let nested = Vector::new(2, &VectorType::Vector(Box::new(VectorType::I8(2)), 0));
    assert_eq!(shown(&Value::Vector(nested)), "[[0, 0], [0, 0]]");
    let tuple = Tuple::new(vec![byte(1), Value::Boolean(false), Value::Tuple(Tuple::empty())]);
    assert_eq!(shown(&Value::Tuple(tuple)), "(1, false, (), )");
    let fields = vec![("x".to_string(), byte(1)), ("y".to_string(), byte(2))];
    let product = ProductType::new("point".to_string(), fields).unwrap();
    assert_eq!(shown(&Value::Product(product)), "point {x: 1, \ny: 2, \n}");
    let fields = vec![("value".to_string(), Value::Character('c'))];
    let sum = SumType::new("some".to_string(), 1, fields).unwrap();
    assert_eq!(shown(&Value::Sum(sum)), "some(value: c, )");
    let function = Function::new(
        vec![Instruction::at(1, 2, IntegerNew(Integer::U8(5))), Instruction::new(Halt)],
        vec!["a".to_string(), "b".to_string()],
    );
    assert_eq!(
        shown(&Value::Function(function)),
        "fn(a, b, ) {\ninteger.new 5 @ 1:2, \nhalt @ 0:0, \n}"
    );
    assert_eq!(shown(&Value::Function(Function::empty())), "fn() {\n}");
}

#[test]
fn operations_are_written_out() {
    assert_eq!(operation(Halt), "halt");
    assert_eq!(operation(Push(byte(3))), "push 3");
    assert_eq!(operation(Store("x".to_string())), "store x");
    assert_eq!(operation(ProductSet(2)), "product.set 2");
    assert_eq!(operation(CharacterNew('q')), "character.new q");
    assert_eq!(operation(Compare(ComparisonType::GreaterThan)), "compare greater_than");
    assert_eq!(operation(Return(Condition::NotNegative)), "return when not_negative");
    assert_eq!(
        operation(Goto(JumpTarget::Relative(-16), Condition::Always)),
        "goto relative: -16 always"
    );
    assert_eq!(
        operation(Goto(JumpTarget::Absolute(26), Condition::Zero)),
        "goto absolute: 0x1a zero"
    );
    assert_eq!(
        operation(FunctionCall(
            FunctionSource::Name(FunctionPath::parse("a::b")),
            Condition::Equal
        )),
        "function.call name: a::b when equal"
    );
    assert_eq!(
        operation(FunctionCall(FunctionSource::Stack, Condition::Always)),
        "function.call stack when always"
    );
    assert_eq!(
        operation(GetStringRef(StringTablePath::parse("a::b"), 3)),
        "get_string_ref a::b:: 3"
    );
    assert_eq!(operation(DecimalNew(Decimal::F64(2.5f64.to_bits()))), "decimal.new 2.5");
    assert_eq!(operation(VectorNew(VectorType::Natural(4))), "vector.new Natural x 4");
    assert_eq!(
        operation(Cast(ValueType::Integer(IntegerType::I64))),
        "cast Integer: i64"
    );
    assert_eq!(
        operation(Cast(ValueType::Decimal(DecimalType::Rational))),
        "cast Decimal: rational"
    );
    let instruction = Instruction::at(12, 7, Halt);
    assert_eq!(printed(&instruction.to_pieces()), "halt @ 12:7");
}

#[test]
fn types_targets_and_stacks_are_written_out() {
    let mut out = Writer::new();
    write_vector_type(&mut out, &VectorType::Vector(Box::new(VectorType::F32(2)), 3));
    assert_eq!(printed(&out.pieces), "Vector of f32 x 2 x 3");
    let mut out = Writer::new();
    write_value_type(&mut out, &ValueType::Vector(VectorType::Tuple(1)));
    out.text("|");
    write_value_type(&mut out, &ValueType::Boolean);
    assert_eq!(printed(&out.pieces), "Vector: Tuple x 1|Boolean");
    let mut out = Writer::new();
    write_target(&mut out, &JumpTarget::Relative(isize::MIN));
    assert_eq!(printed(&out.pieces), format!("relative: {}", isize::MIN));
    assert_eq!(table_path_to_text(&StringTablePath::parse("a::b")), "a::b::");
    assert_eq!(table_path_to_text(&StringTablePath::new(vec![])), "");
    let mut stack = Stack::new();
    stack.push(byte(1));
    stack.push(Value::String("two".to_string()));
    let mut out = Writer::new();
    write_stack(&mut out, &stack);
    assert_eq!(printed(&out.pieces), "1, \ntwo, \n");
    assert_eq!(out.pieces.len(), 4);
}
