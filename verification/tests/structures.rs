use stackvm::instruction::RealInstruction::{Halt, NoOp, Push};
use stackvm::instruction::{Instruction, RealInstruction};
use stackvm::machine::environment::Environment;
use stackvm::machine::Fault;
use stackvm::program::module::Module;
use stackvm::program::{split_segments, FunctionPath, StringTablePath};
use stackvm::stack::Stack;
use stackvm::value::decimal::{Decimal, DecimalType};
use stackvm::value::function::Function;
use stackvm::value::integer::{Integer, IntegerType};
use stackvm::value::layout::Layout;
use stackvm::value::natural::Natural;
use stackvm::value::tuple::Tuple;
use stackvm::value::vector::{zero_value, Vector, VectorType};
use stackvm::value::{Reference, Value};

fn byte(value: u8) -> Value {
    Value::Integer(Integer::U8(value))
}

fn marked(mark: u8) -> Function {
    Function::new(vec![Instruction::new(Push(byte(mark)))], vec![])
}

fn mark_of(function: &Function) -> u8 {
    match &function.code[0].instruction {
        Push(Value::Integer(Integer::U8(mark))) => *mark,
        other => panic!("the function starts with {:?}", other),
    }
}

#[test]
fn the_stack_is_last_in_first_out() {
    let mut stack = Stack::new();
    assert!(stack.is_empty());
    stack.push(byte(1));
    stack.push(byte(2));
    assert_eq!(stack.len(), 2);
    assert!(matches!(stack.peek(), Value::Integer(Integer::U8(2))));
    assert!(matches!(stack.pop(), Value::Integer(Integer::U8(2))));
    assert!(matches!(stack.pop(), Value::Integer(Integer::U8(1))));
    assert!(stack.is_empty());
}

#[test]
fn an_environment_binds_names() {
    let mut environment = Environment::new();
    assert!(environment.is_empty());
    assert_eq!(environment.len(), 0);
    environment.insert("a".to_string(), byte(1));
    environment.insert("b".to_string(), byte(2));
    environment.insert("a".to_string(), byte(3));
    assert_eq!(environment.len(), 2);
    assert!(!environment.is_empty());
    assert!(matches!(environment.get("a"), Some(Value::Integer(Integer::U8(3)))));
    assert!(matches!(environment.get("b"), Some(Value::Integer(Integer::U8(2)))));
    assert!(environment.get("c").is_none());
    assert!(environment.contains_key("a"));
    assert!(!environment.contains_key("c"));
    assert!(matches!(environment.remove("a"), Some(Value::Integer(Integer::U8(3)))));
    assert!(environment.remove("a").is_none());
    assert!(!environment.contains_key("a"));
    assert_eq!(environment.len(), 1);
}

#[test]
fn a_bound_value_is_changed_in_place() {
    let mut environment = Environment::new();
    environment.insert("a".to_string(), byte(1));
    environment.insert("b".to_string(), byte(2));
    match environment.get_mut("a") {
        Some(slot) => {
            assert!(matches!(slot, Value::Integer(Integer::U8(1))));
            *slot = byte(9);
        }
        None => panic!("the name is bound"),
    }
    assert!(environment.get_mut("c").is_none());
    assert_eq!(environment.len(), 2);
    assert!(matches!(environment.get("a"), Some(Value::Integer(Integer::U8(9)))));
    assert!(matches!(environment.get("b"), Some(Value::Integer(Integer::U8(2)))));
}

#[test]
fn a_copy_of_an_environment_is_apart_from_it() {
    let mut environment = Environment::new();
    environment.insert("a".to_string(), byte(1));
    let copy = environment.clone();
    environment.insert("a".to_string(), byte(2));
    environment.insert("b".to_string(), byte(3));
    assert!(matches!(copy.get("a"), Some(Value::Integer(Integer::U8(1)))));
    assert_eq!(copy.len(), 1);
    assert_eq!(environment.len(), 2);
}

#[test]
fn merging_keeps_what_is_bound() {
    let mut own = Environment::new();
    own.insert("a".to_string(), byte(1));
    own.insert("b".to_string(), byte(2));
    let mut other = Environment::new();
    other.insert("b".to_string(), byte(20));
    other.insert("c".to_string(), byte(30));
    other.insert("d".to_string(), byte(40));
    own.extend(&other);
    assert_eq!(own.len(), 4);
    assert!(matches!(own.get("a"), Some(Value::Integer(Integer::U8(1)))));
    assert!(matches!(own.get("b"), Some(Value::Integer(Integer::U8(2)))));
    assert!(matches!(own.get("c"), Some(Value::Integer(Integer::U8(30)))));
    assert!(matches!(own.get("d"), Some(Value::Integer(Integer::U8(40)))));
    assert_eq!(other.len(), 3);
    own.extend(&Environment::new());
    assert_eq!(own.len(), 4);
}

#[test]
fn texts_are_split_at_double_colons() {
    assert_eq!(split_segments("a::b::c"), vec!["a", "b", "c"]);
    assert_eq!(split_segments("main"), vec!["main"]);
    assert_eq!(split_segments(""), vec![""]);
    assert_eq!(split_segments("a::"), vec!["a", ""]);
    assert_eq!(split_segments("::a"), vec!["", "a"]);
    assert_eq!(split_segments("a:::b"), vec!["a", ":b"]);
    assert_eq!(split_segments("a::::b"), vec!["a", "", "b"]);
    assert_eq!(split_segments("a:b"), vec!["a:b"]);
    assert_eq!(split_segments("ä::ö"), vec!["ä", "ö"]);
    for text in ["a::b::c", "", "::", ":::", "::::", "a:", ":a", "x::y:", "ü::::é::"] {
        let expected: Vec<String> = text.split("::").map(|s| s.to_string()).collect();
        assert_eq!(split_segments(text), expected, "segments of {:?}", text);
    }
}

#[test]
fn a_path_with_an_empty_segment_is_empty() {
    assert_eq!(FunctionPath::parse("a::b").path, vec!["a", "b"]);
    assert!(FunctionPath::parse("a::").path.is_empty());
    assert!(FunctionPath::parse("").path.is_empty());
    assert!(FunctionPath::parse("a::::b").path.is_empty());
    assert_eq!(FunctionPath::single("main").path, vec!["main"]);
    assert_eq!(FunctionPath::new(vec!["x".to_string()]).path, vec!["x"]);
    assert_eq!(StringTablePath::parse("a::b").path, vec!["a", "b"]);
    assert!(StringTablePath::parse("::b").path.is_empty());
    assert!(StringTablePath::new(vec!["a".to_string(), String::new()]).path.is_empty());
    assert_eq!(StringTablePath::new(vec!["a".to_string()]).path, vec!["a"]);
    assert_eq!(FunctionPath::parse("a::b").clone().path, vec!["a", "b"]);
}

#[test]
fn functions_are_found_along_the_path() {
    let mut deepest = Module::default();
    deepest.add_function("leaf", marked(3));
    let mut middle = Module::new("middle", vec![], vec![], vec![("deep".to_string(), deepest)]);
    middle.add_function("leaf", marked(2));
    let mut root = Module::new("root", vec![], vec![], vec![("mid".to_string(), middle)]);
    root.add_function("leaf", marked(1));
    assert_eq!(mark_of(root.get_function(&FunctionPath::parse("leaf")).unwrap()), 1);
    assert_eq!(mark_of(root.get_function(&FunctionPath::parse("mid::leaf")).unwrap()), 2);
    assert_eq!(mark_of(root.get_function(&FunctionPath::parse("mid::deep::leaf")).unwrap()), 3);
    assert!(root.get_function(&FunctionPath::parse("deep::leaf")).is_none());
    assert!(root.get_function(&FunctionPath::parse("mid::deep")).is_none());
    assert!(root.get_function(&FunctionPath::parse("mid::nowhere::leaf")).is_none());
    assert!(root.get_function(&FunctionPath::parse("")).is_none());
    assert!(root.get_function(&FunctionPath::new(vec![])).is_none());
    root.add_function("leaf", marked(9));
    assert_eq!(mark_of(root.get_function(&FunctionPath::parse("leaf")).unwrap()), 9);
}

#[test]
fn strings_are_found_along_the_path() {
    let inner = Module::new("inner", vec![], vec!["a".to_string()], vec![]);
    let root = Module::new("root", vec![], vec![], vec![("in".to_string(), inner)]);
    assert_eq!(root.get_string(&StringTablePath::parse("in"), 0).unwrap(), "a");
    assert!(root.get_string(&StringTablePath::parse("in"), 1).is_none());
    assert!(root.get_string(&StringTablePath::new(vec![]), 0).is_none());
    assert!(root.get_string(&StringTablePath::parse("out"), 0).is_none());
}

#[test]
fn functions_hold_code_parameters_and_bindings() {
    let mut function = Function::new(
        vec![Instruction::new(NoOp), Instruction::at(3, 4, Halt)],
        vec!["a".to_string()],
    );
    assert!(function.get_environment().is_empty());
    assert!(matches!(function.get_instruction(0).unwrap().instruction, NoOp));
    let second = function.get_instruction(1).unwrap();
    assert_eq!((second.row, second.column), (3, 4));
    assert!(matches!(second.instruction, RealInstruction::Halt));
    assert!(function.get_instruction(2).is_none());
    let mut environment = Environment::new();
    environment.insert("x".to_string(), byte(1));
    function.add_environment(environment);
    assert!(function.get_environment().contains_key("x"));
    let copy = function.clone();
    assert_eq!(copy.code.len(), 2);
    assert_eq!(copy.argument_names, vec!["a"]);
    assert!(copy.get_environment().contains_key("x"));
    let empty = Function::empty();
    assert!(empty.code.is_empty() && empty.argument_names.is_empty());
    let plain = Instruction::new(Halt);
    assert_eq!((plain.row, plain.column), (0, 0));
}

#[test]
fn vectors_hold_elements_of_one_kind() {
    let mut vector = Vector::new(3, &VectorType::I16(0));
    assert_eq!(vector.length(), 3);
    assert!(matches!(vector.get(0), Ok(Value::Integer(Integer::I16(0)))));
    assert!(vector.set(1, Value::Integer(Integer::I16(-5))).is_ok());
    assert!(matches!(vector.get(1), Ok(Value::Integer(Integer::I16(-5)))));
    assert!(matches!(vector.get(2), Ok(Value::Integer(Integer::I16(0)))));
    assert!(matches!(vector.get(3), Err(Fault::OutOfBounds)));
    assert!(matches!(vector.set(3, Value::Integer(Integer::I16(1))), Err(Fault::OutOfBounds)));
    assert!(matches!(vector.set(0, Value::Integer(Integer::I32(1))), Err(Fault::TypeMismatch)));
    assert!(matches!(vector.set(9, Value::Boolean(true)), Err(Fault::TypeMismatch)));
    assert!(matches!(vector.get(0), Ok(Value::Integer(Integer::I16(0)))));
    let copy = vector.clone();
    assert!(vector.set(1, Value::Integer(Integer::I16(8))).is_ok());
    assert!(matches!(copy.get(1), Ok(Value::Integer(Integer::I16(-5)))));
    assert_eq!(Vector::new(0, &VectorType::U8(0)).length(), 0);
}

#[test]
fn every_kind_of_vector_has_its_zero() {
    assert!(matches!(zero_value(&VectorType::U64(0)), Value::Integer(Integer::U64(0))));
    assert!(matches!(zero_value(&VectorType::F32(0)), Value::Decimal(Decimal::F32(0))));
    assert!(matches!(zero_value(&VectorType::F64(0)), Value::Decimal(Decimal::F64(0))));
    assert!(matches!(zero_value(&VectorType::Reference(0)), Value::Reference(Reference(0))));
    match zero_value(&VectorType::Natural(0)) {
        Value::Integer(Integer::Natural(n)) => assert!(n.is_zero()),
        other => panic!("the zero is {:?}", other),
    }
    match zero_value(&VectorType::Rational(0)) {
        Value::Decimal(Decimal::Rational(q)) => assert!(q.is_zero() && !q.denominator.is_zero()),
        other => panic!("the zero is {:?}", other),
    }
    match zero_value(&VectorType::Tuple(0)) {
        Value::Tuple(tuple) => assert_eq!(tuple.len(), 0),
        other => panic!("the zero is {:?}", other),
    }
    match zero_value(&VectorType::Vector(Box::new(VectorType::U8(2)), 0)) {
        Value::Vector(inner) => {
            assert_eq!(inner.length(), 2);
            assert!(matches!(inner.kind, VectorType::U8(2)));
        }
        other => panic!("the zero is {:?}", other),
    }
    let nested = Vector::new(2, &VectorType::Vector(Box::new(VectorType::I8(3)), 0));
    match nested.get(1) {
        Ok(Value::Vector(inner)) => assert_eq!(inner.length(), 3),
        other => panic!("the element is {:?}", other),
    }
    for kind in [VectorType::U8(0), VectorType::Tuple(0), VectorType::Rational(0), VectorType::F32(0)] {
        assert!(kind.accepts(&zero_value(&kind)));
    }
    assert!(!VectorType::U8(0).accepts(&Value::Integer(Integer::I8(0))));
    assert!(VectorType::Vector(Box::new(VectorType::U8(0)), 0)
        .accepts(&Value::Vector(Vector::new(0, &VectorType::I8(0)))));
    assert!(VectorType::Natural(0).accepts(&Value::Integer(Integer::Natural(Natural::zero()))));
    assert_eq!(VectorType::Tuple(7).length(), 7);
}

#[test]
fn tuples_hand_out_their_elements() {
    let tuple = Tuple::new(vec![byte(1), Value::Boolean(true)]);
    assert_eq!(tuple.len(), 2);
    assert!(matches!(tuple.get(1), Some(Value::Boolean(true))));
    assert!(tuple.get(2).is_none());
    assert_eq!(Tuple::empty().len(), 0);
    assert_eq!(tuple.clone().len(), 2);
}

#[test]
fn layouts_follow_the_widths() {
    assert_eq!(IntegerType::U8.get_layout(), Layout { size: 1, align: 1 });
    assert_eq!(IntegerType::I16.get_layout(), Layout { size: 2, align: 2 });
    assert_eq!(IntegerType::U32.get_layout(), Layout { size: 4, align: 4 });
    assert_eq!(IntegerType::I64.get_layout(), Layout { size: 8, align: 8 });
    assert_eq!(
        IntegerType::Natural.get_layout().size,
        std::mem::size_of::<Natural>()
    );
    assert_eq!(IntegerType::U16.get_array_layout(10), Some(Layout { size: 20, align: 2 }));
    assert_eq!(IntegerType::U16.get_array_layout(0), Some(Layout { size: 0, align: 2 }));
    assert_eq!(IntegerType::U16.get_array_layout(usize::MAX), None);
    assert_eq!(IntegerType::U8.get_array_layout(isize::MAX as usize), Some(Layout { size: isize::MAX as usize, align: 1 }));
    assert_eq!(IntegerType::U8.get_array_layout(isize::MAX as usize + 1), None);
    assert_eq!(DecimalType::F32.get_array_layout(3), Some(Layout { size: 12, align: 4 }));
    assert_eq!(DecimalType::F64.get_layout(), Layout { size: 8, align: 8 });
    assert_eq!(VectorType::I32(5).get_layout(), Some(Layout { size: 20, align: 4 }));
    assert_eq!(VectorType::I32(5).get_array_layout(2), Some(Layout { size: 8, align: 4 }));
    assert_eq!(VectorType::Reference(1).get_element_layout(), Layout { size: 8, align: 8 });
    assert_eq!(
        VectorType::Tuple(0).get_element_layout().size,
        std::mem::size_of::<Tuple>()
    );
}

#[test]
fn products_are_read_and_written_by_name_and_by_place() {
    let fields = vec![("x".to_string(), byte(1)), ("y".to_string(), byte(2))];
    let mut product = stackvm::value::product::ProductType::new("point".to_string(), fields).unwrap();
    assert!(matches!(product.get("y"), Some(Value::Integer(Integer::U8(2)))));
    assert!(matches!(product.get_at(0), Some(Value::Integer(Integer::U8(1)))));
    assert!(product.get("z").is_none());
    assert!(product.get_at(2).is_none());
    assert!(product.set_at(1, byte(20)).is_ok());
    assert!(product.set("x", byte(10)).is_ok());
    assert!(matches!(product.get_at(0), Some(Value::Integer(Integer::U8(10)))));
    assert!(matches!(product.get("y"), Some(Value::Integer(Integer::U8(20)))));
    assert!(matches!(product.set_at(2, byte(0)), Err(Fault::OutOfBounds)));
    match product.set("z", byte(0)) {
        Err(Fault::NameNotFound(name)) => assert_eq!(name, "z"),
        other => panic!("the write came to {:?}", other),
    }
    assert_eq!(product.fields.len(), 2);
    assert_eq!(product.fields[0].0, "x");
    let twice = vec![("x".to_string(), byte(1)), ("x".to_string(), byte(2))];
    assert!(stackvm::value::product::ProductType::new("p".to_string(), twice).is_none());
    assert!(stackvm::value::product::ProductType::new("unit".to_string(), vec![]).is_some());
}

#[test]
fn sums_are_read_and_written_by_name_and_by_place() {
    let fields = vec![("value".to_string(), byte(1))];
    let mut sum = stackvm::value::sum::SumType::new("some".to_string(), 1, fields).unwrap();
    assert_eq!(sum.tag, 1);
    assert!(matches!(sum.get("value"), Some(Value::Integer(Integer::U8(1)))));
    assert!(sum.set("value", byte(2)).is_ok());
    assert!(matches!(sum.get_at(0), Some(Value::Integer(Integer::U8(2)))));
    assert!(sum.set_at(0, byte(3)).is_ok());
    assert!(matches!(sum.get("value"), Some(Value::Integer(Integer::U8(3)))));
    assert!(matches!(sum.set_at(1, byte(0)), Err(Fault::OutOfBounds)));
    assert!(matches!(sum.set("other", byte(0)), Err(Fault::NameNotFound(_))));
    assert_eq!(sum.tag, 1);
    let twice = vec![("a".to_string(), byte(1)), ("b".to_string(), byte(2)), ("a".to_string(), byte(3))];
    assert!(stackvm::value::sum::SumType::new("s".to_string(), 0, twice).is_none());
}

#[test]
fn paths_and_conditions_are_written_out() {
    assert_eq!(FunctionPath::parse("a::b::c").to_text(), "a::b::c");
    assert_eq!(FunctionPath::single("main").to_text(), "main");
    assert_eq!(FunctionPath::new(vec![]).to_text(), "");
    assert_eq!(stackvm::program::join_segments(&vec!["x".to_string(), "".to_string()]), "x::");
    assert_eq!(stackvm::instruction::Condition::NotZero.name(), "not_zero");
    assert_eq!(stackvm::instruction::Condition::Always.name(), "always");
    assert_eq!(stackvm::instruction::Condition::Carry.name(), "carry");
    assert_eq!(stackvm::instruction::ComparisonType::LessThanOrEqual.name(), "less_than_or_equal");
}
