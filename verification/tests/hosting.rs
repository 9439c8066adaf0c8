use stackvm::instruction::RealInstruction::{
    Cast, Compare, DecimalAdd, DecimalNew, DecimalPower, Goto, IntegerNew, Read, RequestValue,
    Return, SetValue, StringConcat, StringNew, Write,
};
use stackvm::instruction::{ComparisonType, Condition, Instruction, JumpTarget, RealInstruction};
use stackvm::machine::evaluator::{Comparison, Core};
use stackvm::machine::{
    call_entry, call_main, Arithmetic, Fault, HostReply, HostRequest, Machine, Progress,
};
use stackvm::program::module::Module;
use stackvm::program::FunctionPath;
use stackvm::value::decimal::{Decimal, DecimalType};
use stackvm::value::function::Function;
use stackvm::value::integer::{Integer, Relation};
use stackvm::value::{Value, ValueType};

fn program(operations: Vec<RealInstruction>) -> Module {
    let mut module = Module::default();
    let code = operations
        .into_iter()
        .enumerate()
        .map(|(row, operation)| Instruction::at(row + 1, 1, operation))
        .collect();
    module.add_function("main", Function::new(code, vec![]));
    module
}

fn double(value: f64) -> Decimal {
    Decimal::F64(value.to_bits())
}

fn as_double(decimal: &Decimal) -> f64 {
    match decimal {
        Decimal::F32(bits) => f32::from_bits(*bits) as f64,
        Decimal::F64(bits) => f64::from_bits(*bits),
        Decimal::Rational(_) => panic!("a fraction is no floating-point number"),
    }
}

/// A host that computes in `f64`, answers reads from a list and keeps
/// what was written.
struct Desk {
    input: Vec<Value>,
    output: Vec<Value>,
    store: Vec<(String, Value)>,
}

fn serve(desk: &mut Desk, request: &HostRequest) -> HostReply {
    match request {
        HostRequest::Write(value) => {
            desk.output.push(value.clone());
            HostReply::Done
        }
        HostRequest::Read => match desk.input.pop() {
            Some(value) => HostReply::Value(value),
            None => HostReply::Failure("no input is left".to_string()),
        },
        HostRequest::RequestValue(name) => {
            match desk.store.iter().rev().find(|(key, _)| key == name) {
                Some((_, value)) => HostReply::Value(value.clone()),
                None => HostReply::Failure(format!("nothing is held under {}", name)),
            }
        }
        HostRequest::SetValue(name, value) => {
            desk.store.push((name.clone(), value.clone()));
            HostReply::Done
        }
        HostRequest::Arithmetic(operation, left, right) => {
            let (a, b) = (as_double(left), as_double(right));
            let result = match operation {
                Arithmetic::Add => a + b,
                Arithmetic::Subtract => a - b,
                Arithmetic::Multiply => a * b,
                Arithmetic::Divide => a / b,
                Arithmetic::Modulo => a % b,
                Arithmetic::Power => a.powf(b),
            };
            HostReply::Value(Value::Decimal(double(result)))
        }
        HostRequest::PowerInteger(base, exponent) => {
            HostReply::Value(Value::Decimal(double(as_double(base).powi(*exponent))))
        }
        HostRequest::Cast(Value::Integer(Integer::I32(value)), ValueType::Decimal(DecimalType::F64)) => {
            HostReply::Value(Value::Decimal(double(*value as f64)))
        }
        HostRequest::Cast(_, _) => HostReply::Failure("unsupported cast".to_string()),
        HostRequest::Compare(_, left, right) => {
            let (a, b) = (as_double(left), as_double(right));
            HostReply::Relation(if a < b {
                Relation::Less
            } else if a == b {
                Relation::Equal
            } else if a > b {
                Relation::Greater
            } else {
                Relation::Unordered
            })
        }
    }
}

fn run_with(desk: &mut Desk, module: &Module) -> (Result<Progress, Fault>, Machine) {
    let mut machine = Machine::new(Core::new(), 16);
    let mut progress = call_main(&mut machine, module, 1000);
    loop {
        match progress {
            Ok(Progress::Host(request)) => {
                let reply = serve(desk, &request);
                progress = match machine.resume(&request, reply) {
                    Ok(()) => machine.run(module, 1000),
                    Err(fault) => Err(fault),
                };
            }
            other => return (other, machine),
        }
    }
}

fn desk(input: Vec<Value>) -> Desk {
    Desk { input, output: vec![], store: vec![] }
}

#[test]
fn what_is_read_can_be_written() {
    let module = program(vec![
        StringNew("hello, ".to_string()),
        Read,
        StringConcat,
        Write,
        Return(Condition::Always),
    ]);
    let mut host = desk(vec![Value::String("world".to_string())]);
    let (result, machine) = run_with(&mut host, &module);
    assert!(matches!(result, Ok(Progress::Finished)));
    assert!(machine.core.stack.is_empty());
    assert_eq!(host.output.len(), 1);
    assert!(matches!(&host.output[0], Value::String(s) if s == "hello, world"));
}

#[test]
fn values_are_held_by_the_host() {
    let module = program(vec![
        IntegerNew(Integer::U8(7)),
        SetValue("seven".to_string()),
        RequestValue("seven".to_string()),
        RequestValue("eight".to_string()),
        Return(Condition::Always),
    ]);
    let mut host = desk(vec![]);
    let (result, machine) = run_with(&mut host, &module);
    assert!(matches!(result, Err(Fault::InvalidOperation(_))));
    assert_eq!(machine.core.stack.len(), 1);
    assert!(matches!(machine.core.stack.peek(), Value::Integer(Integer::U8(7))));
    assert_eq!(machine.position, Some((4, 1)));
}

#[test]
fn floating_point_is_computed_by_the_host() {
    let module = program(vec![
        DecimalNew(double(1.5)),
        DecimalNew(double(2.25)),
        DecimalAdd,
        IntegerNew(Integer::I32(2)),
        DecimalPower,
        IntegerNew(Integer::I32(-14)),
        Cast(ValueType::Decimal(DecimalType::F64)),
        DecimalAdd,
        DecimalNew(double(0.0625)),
        Compare(ComparisonType::Equal),
        Goto(JumpTarget::Relative(2), Condition::Equal),
        Write,
        Return(Condition::Always),
    ]);
    let mut host = desk(vec![]);
    let (result, machine) = run_with(&mut host, &module);
    assert!(matches!(result, Ok(Progress::Finished)));
    assert!(host.output.is_empty());
    assert_eq!(machine.core.stack.len(), 2);
    match &machine.core.stack.data[0] {
        Value::Decimal(decimal) => assert_eq!(as_double(decimal), 0.0625),
        other => panic!("the result is {:?}", other),
    }
    assert_eq!(machine.depth(), 0);
}

#[test]
fn a_fault_comes_with_the_position_of_its_instruction() {
    let module = program(vec![
        IntegerNew(Integer::U8(1)),
        IntegerNew(Integer::U8(0)),
        stackvm::instruction::RealInstruction::IntegerDivide,
        Return(Condition::Always),
    ]);
    let mut host = desk(vec![]);
    let (result, machine) = run_with(&mut host, &module);
    assert!(matches!(result, Err(Fault::DivisionByZero)));
    assert_eq!(machine.position, Some((3, 1)));
    assert_eq!(machine.depth(), 1);
    assert_eq!(machine.frames[0].program_counter, 2);
}

#[test]
fn a_run_can_start_at_any_function() {
    let mut inner = Module::default();
    inner.add_function(
        "answer",
        Function::new(
            vec![
                Instruction::new(IntegerNew(Integer::U8(42))),
                Instruction::new(Return(Condition::Always)),
            ],
            vec![],
        ),
    );
    let module = Module::new("root", vec![], vec![], vec![("lib".to_string(), inner)]);
    let mut machine = Machine::new(Core::new(), 4);
    let result = call_entry(&mut machine, &module, &FunctionPath::parse("lib::answer"), 10);
    assert!(matches!(result, Ok(Progress::Finished)));
    assert!(matches!(machine.core.stack.peek(), Value::Integer(Integer::U8(42))));
    let mut machine = Machine::new(Core::new(), 4);
    let missing = call_entry(&mut machine, &module, &FunctionPath::parse("lib::question"), 10);
    match missing {
        Err(Fault::FunctionNotFound(path)) => assert_eq!(path.to_text(), "lib::question"),
        other => panic!("the run came to {:?}", other),
    }
    assert!(machine.position.is_none());
    assert_eq!(machine.core.flags.comparison, Comparison::Unset);
}
