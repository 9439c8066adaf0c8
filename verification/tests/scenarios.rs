use stackvm::instruction::RealInstruction::{
    ClosureNew, Compare, FunctionCall, Goto, Halt, IntegerAdd, IntegerDivide, IntegerNegate,
    IntegerNew, IntegerSubtract, Lookup, NoOp, Pop, Return, Store, VectorLength, VectorNew,
};
use stackvm::instruction::{
    ComparisonType, Condition, FunctionSource, Instruction, JumpTarget, RealInstruction,
};
use stackvm::machine::environment::Environment;
use stackvm::machine::evaluator::Core;
use stackvm::machine::{call_function, call_main, Fault, Machine, Progress};
use stackvm::program::module::Module;
use stackvm::program::FunctionPath;
use stackvm::value::function::Function;
use stackvm::value::integer::Integer;
use stackvm::value::natural::Natural;
use stackvm::value::vector::VectorType;
use stackvm::value::Value;

fn natural(value: u64) -> Integer {
    Integer::Natural(Natural::from_u64(value))
}

fn code(operations: Vec<RealInstruction>) -> Vec<Instruction> {
    operations.into_iter().map(Instruction::new).collect()
}

fn name(text: &str) -> String {
    text.to_string()
}

fn call(path: &str, condition: Condition) -> RealInstruction {
    FunctionCall(FunctionSource::Name(FunctionPath::parse(path)), condition)
}

/// Counts `i` up from 2 to `bound` and leaves `a` and, on it, `b` on the
/// stack.
fn iterative_fibonacci(bound: u64) -> Function {
    Function::new(
        code(vec![
            IntegerNew(natural(0)),
            Store(name("a")),
            IntegerNew(natural(1)),
            Store(name("b")),
            IntegerNew(natural(2)),
            Store(name("i")),
            Lookup(name("i")),
            IntegerNew(natural(bound)),
            Compare(ComparisonType::Equal),
            Goto(JumpTarget::Relative(14), Condition::Equal),
            Pop,
            Pop,
            Lookup(name("b")),
            Lookup(name("a")),
            IntegerAdd,
            Lookup(name("b")),
            Store(name("a")),
            Store(name("b")),
            Lookup(name("i")),
            IntegerNew(natural(1)),
            IntegerAdd,
            Store(name("i")),
            Goto(JumpTarget::Relative(-16), Condition::Always),
            Pop,
            Pop,
            Lookup(name("a")),
            Lookup(name("b")),
            Return(Condition::Always),
        ]),
        vec![],
    )
}

fn recursive_fibonacci() -> Function {
    Function::new(
        code(vec![
            Lookup(name("n")),
            IntegerNew(natural(1)),
            Compare(ComparisonType::LessThanOrEqual),
            Goto(JumpTarget::Relative(3), Condition::GreaterThan),
            Pop,
            Return(Condition::Always),
            Pop,
            IntegerNew(natural(1)),
            IntegerSubtract,
            Store(name("n")),
            Lookup(name("n")),
            call("fib", Condition::Always),
            Lookup(name("n")),
            IntegerNew(natural(1)),
            IntegerSubtract,
            call("fib", Condition::Always),
            IntegerAdd,
            Return(Condition::Always),
        ]),
        vec![name("n")],
    )
}

fn recursive_main(input: u64) -> Function {
    Function::new(
        code(vec![
            IntegerNew(natural(input)),
            call("fib", Condition::Always),
            Return(Condition::Always),
        ]),
        vec![],
    )
}

fn run_main(module: &Module) -> (Result<Progress, Fault>, Machine) {
    let mut machine = Machine::new(Core::new(), 256);
    let result = call_main(&mut machine, module, 10_000_000);
    (result, machine)
}

fn natural_at(machine: &Machine, depth: usize) -> Vec<u64> {
    let index = machine.core.stack.len() - 1 - depth;
    match &machine.core.stack.data[index] {
        Value::Integer(Integer::Natural(n)) => n.limbs.clone(),
        other => panic!("on the stack lies {:?}", other),
    }
}

fn top_natural(machine: &Machine) -> Vec<u64> {
    natural_at(machine, 0)
}

fn fibonacci_limbs(n: u64) -> Vec<u64> {
    let mut a = malachite::Natural::from(0u32);
    let mut b = malachite::Natural::from(1u32);
    for _ in 0..n {
        let next = &a + &b;
        a = b;
        b = next;
    }
    a.into_limbs_asc()
}

#[test]
fn iterative_fibonacci_of_ten() {
    let mut module = Module::default();
    module.add_function("main", iterative_fibonacci(12));
    let (result, machine) = run_main(&module);
    assert!(matches!(result, Ok(Progress::Finished)));
    assert_eq!(natural_at(&machine, 1), vec![55]);
    assert_eq!(natural_at(&machine, 0), vec![89]);
}

#[test]
fn iterative_fibonacci_of_twenty() {
    let mut module = Module::default();
    module.add_function("main", iterative_fibonacci(22));
    let (result, machine) = run_main(&module);
    assert!(matches!(result, Ok(Progress::Finished)));
    assert_eq!(natural_at(&machine, 1), vec![6765]);
    assert_eq!(natural_at(&machine, 0), vec![10946]);
}

#[test]
fn iterative_fibonacci_up_to_fifteen_hundred() {
    let mut module = Module::default();
    module.add_function("main", iterative_fibonacci(1500));
    let (result, machine) = run_main(&module);
    assert!(matches!(result, Ok(Progress::Finished)));
    assert_eq!(machine.core.stack.len(), 2);
    assert_eq!(machine.depth(), 0);
    assert_eq!(natural_at(&machine, 1), fibonacci_limbs(1498));
    assert_eq!(natural_at(&machine, 0), fibonacci_limbs(1499));
    assert!(top_natural(&machine).len() > 10);
}

#[test]
fn recursive_fibonacci_of_ten() {
    let mut module = Module::default();
    module.add_function("fib", recursive_fibonacci());
    module.add_function("main", recursive_main(10));
    let (result, machine) = run_main(&module);
    assert!(matches!(result, Ok(Progress::Finished)));
    assert_eq!(machine.core.stack.len(), 1);
    assert_eq!(top_natural(&machine), vec![55]);
}

#[test]
fn recursive_fibonacci_of_twenty() {
    let mut module = Module::default();
    module.add_function("fib", recursive_fibonacci());
    module.add_function("main", recursive_main(20));
    let (result, machine) = run_main(&module);
    assert!(matches!(result, Ok(Progress::Finished)));
    assert_eq!(top_natural(&machine), vec![6765]);
}

#[test]
fn a_later_function_takes_the_place_of_an_earlier_one() {
    let mut module = Module::default();
    module.add_function("main", iterative_fibonacci(12));
    module.add_function("fib", recursive_fibonacci());
    module.add_function("main", recursive_main(7));
    let (result, machine) = run_main(&module);
    assert!(matches!(result, Ok(Progress::Finished)));
    assert_eq!(top_natural(&machine), vec![13]);
}

#[test]
fn vector_length_round_trip() {
    let mut module = Module::default();
    module.add_function(
        "main",
        Function::new(
            code(vec![
                IntegerNew(Integer::U64(5)),
                VectorNew(VectorType::U8(0)),
                VectorLength,
                Return(Condition::Always),
            ]),
            vec![],
        ),
    );
    let (result, machine) = run_main(&module);
    assert!(matches!(result, Ok(Progress::Finished)));
    assert_eq!(machine.core.stack.len(), 2);
    assert!(matches!(machine.core.stack.peek(), Value::Integer(Integer::U64(5))));
    match &machine.core.stack.data[0] {
        Value::Vector(vector) => {
            assert_eq!(vector.length(), 5);
            for item in vector.items.iter() {
                assert!(matches!(item, Value::Integer(Integer::U8(0))));
            }
        }
        other => panic!("under the length lies {:?}", other),
    }
}

#[test]
fn division_by_zero_is_a_fault() {
    let mut module = Module::default();
    module.add_function(
        "main",
        Function::new(
            code(vec![
                IntegerNew(Integer::I32(10)),
                IntegerNew(Integer::I32(0)),
                IntegerDivide,
                Return(Condition::Always),
            ]),
            vec![],
        ),
    );
    let (result, machine) = run_main(&module);
    assert!(matches!(result, Err(Fault::DivisionByZero)));
    assert!(!machine.core.flags.zero);
    assert!(!machine.core.flags.negative);
}

#[test]
fn negation_widens() {
    let mut module = Module::default();
    module.add_function(
        "main",
        Function::new(
            code(vec![IntegerNew(Integer::U8(200)), IntegerNegate, Halt]),
            vec![],
        ),
    );
    let (result, machine) = run_main(&module);
    assert!(matches!(result, Ok(Progress::Stopped)));
    assert!(matches!(machine.core.stack.peek(), Value::Integer(Integer::I16(-200))));
    assert!(machine.core.flags.negative);
    assert!(!machine.core.flags.zero);
}

#[test]
fn a_closure_keeps_what_it_captured() {
    let mut module = Module::default();
    module.add_function(
        "get_x",
        Function::new(code(vec![Lookup(name("x")), Return(Condition::Always)]), vec![]),
    );
    module.add_function(
        "main",
        Function::new(
            code(vec![
                IntegerNew(Integer::I64(3)),
                Store(name("x")),
                ClosureNew(FunctionSource::Name(FunctionPath::parse("get_x"))),
                IntegerNew(Integer::I64(99)),
                Store(name("x")),
                FunctionCall(FunctionSource::Stack, Condition::Always),
                Lookup(name("x")),
                Return(Condition::Always),
            ]),
            vec![],
        ),
    );
    let (result, machine) = run_main(&module);
    assert!(matches!(result, Ok(Progress::Finished)));
    assert_eq!(machine.core.stack.len(), 2);
    assert!(matches!(machine.core.stack.data[0], Value::Integer(Integer::I64(3))));
    assert!(matches!(machine.core.stack.data[1], Value::Integer(Integer::I64(99))));
}

#[test]
fn a_parameter_is_not_shadowed_by_a_captured_binding() {
    let mut module = Module::default();
    module.add_function(
        "show",
        Function::new(
            code(vec![Lookup(name("x")), Lookup(name("y")), Return(Condition::Always)]),
            vec![name("x")],
        ),
    );
    module.add_function(
        "main",
        Function::new(
            code(vec![
                IntegerNew(Integer::U8(1)),
                Store(name("x")),
                IntegerNew(Integer::U8(2)),
                Store(name("y")),
                IntegerNew(Integer::U8(7)),
                ClosureNew(FunctionSource::Name(FunctionPath::parse("show"))),
                FunctionCall(FunctionSource::Stack, Condition::Always),
                Return(Condition::Always),
            ]),
            vec![],
        ),
    );
    let (result, machine) = run_main(&module);
    assert!(matches!(result, Ok(Progress::Finished)));
    assert_eq!(machine.core.stack.len(), 2);
    assert!(matches!(machine.core.stack.data[0], Value::Integer(Integer::U8(7))));
    assert!(matches!(machine.core.stack.data[1], Value::Integer(Integer::U8(2))));
}

#[test]
fn the_top_of_the_stack_is_the_last_parameter() {
    let mut module = Module::default();
    module.add_function(
        "first",
        Function::new(
            code(vec![Lookup(name("a")), Return(Condition::Always)]),
            vec![name("a"), name("b")],
        ),
    );
    module.add_function(
        "main",
        Function::new(
            code(vec![
                IntegerNew(Integer::U8(1)),
                IntegerNew(Integer::U8(2)),
                call("first", Condition::Always),
                Return(Condition::Always),
            ]),
            vec![],
        ),
    );
    let (result, machine) = run_main(&module);
    assert!(matches!(result, Ok(Progress::Finished)));
    assert_eq!(machine.core.stack.len(), 1);
    assert!(matches!(machine.core.stack.peek(), Value::Integer(Integer::U8(1))));
}

#[test]
fn halt_drops_every_frame() {
    let mut module = Module::default();
    module.add_function("stop", Function::new(code(vec![Halt]), vec![]));
    module.add_function(
        "main",
        Function::new(
            code(vec![call("stop", Condition::Always), IntegerNew(Integer::U8(1)), Halt]),
            vec![],
        ),
    );
    let (result, machine) = run_main(&module);
    assert!(matches!(result, Ok(Progress::Stopped)));
    assert_eq!(machine.depth(), 0);
    assert!(machine.core.stack.is_empty());
}

#[test]
fn a_missing_main_is_reported() {
    let module = Module::default();
    let (result, _) = run_main(&module);
    match result {
        Err(Fault::FunctionNotFound(path)) => assert_eq!(path.path, vec![name("main")]),
        other => panic!("the run came to {:?}", other),
    }
}

#[test]
fn endless_recursion_overflows_the_frames() {
    let mut module = Module::default();
    module.add_function(
        "main",
        Function::new(code(vec![call("main", Condition::Always)]), vec![]),
    );
    let mut machine = Machine::new(Core::new(), 16);
    let result = call_main(&mut machine, &module, 1_000);
    assert!(matches!(result, Err(Fault::StackOverflow)));
    assert_eq!(machine.depth(), 16);
}

#[test]
fn a_run_stops_when_its_budget_is_spent() {
    let mut module = Module::default();
    module.add_function(
        "main",
        Function::new(
            code(vec![NoOp, Goto(JumpTarget::Absolute(0), Condition::Always)]),
            vec![],
        ),
    );
    let mut machine = Machine::new(Core::new(), 16);
    let result = call_main(&mut machine, &module, 101);
    assert!(matches!(result, Ok(Progress::Running)));
    assert_eq!(machine.frames[0].program_counter, 1);
    let again = machine.run(&module, 1);
    assert!(matches!(again, Ok(Progress::Running)));
    assert_eq!(machine.frames[0].program_counter, 0);
}

#[test]
fn running_off_the_end_of_the_code_is_an_invalid_jump() {
    let mut module = Module::default();
    module.add_function(
        "main",
        Function::new(code(vec![NoOp]), vec![]),
    );
    let (result, _) = run_main(&module);
    assert!(matches!(result, Err(Fault::InvalidJump)));
}

#[test]
fn a_function_is_entered_with_prepared_bindings() {
    let module = Module::default();
    let function = Function::new(
        code(vec![Lookup(name("seed")), Return(Condition::Always)]),
        vec![],
    );
    let mut environment = Environment::new();
    environment.insert(name("seed"), Value::Boolean(true));
    let mut machine = Machine::new(Core::new(), 4);
    let result = call_function(&mut machine, &module, &function, environment, 10);
    assert!(matches!(result, Ok(Progress::Finished)));
    assert!(matches!(machine.core.stack.peek(), Value::Boolean(true)));
}

#[test]
fn flags_belong_to_the_frame() {
    let mut module = Module::default();
    module.add_function(
        "zero",
        Function::new(
            code(vec![
                Return(Condition::Zero),
                IntegerNew(Integer::U8(0)),
                IntegerNegate,
                Pop,
                Return(Condition::Always),
            ]),
            vec![],
        ),
    );
    module.add_function(
        "main",
        Function::new(
            code(vec![
                IntegerNew(Integer::I8(5)),
                IntegerNegate,
                call("zero", Condition::Always),
                Return(Condition::Always),
            ]),
            vec![],
        ),
    );
    let mut machine = Machine::new(Core::new(), 4);
    let result = call_main(&mut machine, &module, 100);
    assert!(matches!(result, Ok(Progress::Finished)));
    // The callee set `zero`; the caller has its own flags back.
    assert!(machine.core.flags.negative);
    assert!(!machine.core.flags.zero);
    assert!(matches!(machine.core.stack.peek(), Value::Integer(Integer::I8(-5))));
}

#[test]
fn the_loop_that_returns_on_equal_ends_with_the_numbers_bound() {
    let function = Function::new(
        code(vec![
            IntegerNew(natural(0)),
            Store(name("a")),
            IntegerNew(natural(1)),
            Store(name("b")),
            IntegerNew(natural(2)),
            Store(name("i")),
            Lookup(name("i")),
            IntegerNew(natural(1500)),
            Compare(ComparisonType::Equal),
            Return(Condition::Equal),
            Pop,
            Pop,
            Lookup(name("b")),
            Lookup(name("a")),
            IntegerAdd,
            Lookup(name("b")),
            Store(name("a")),
            Store(name("b")),
            Lookup(name("i")),
            IntegerNew(natural(1)),
            IntegerAdd,
            Store(name("i")),
            Goto(JumpTarget::Relative(-16), Condition::Always),
        ]),
        vec![],
    );
    let module = Module::default();
    let mut machine = Machine::new(Core::new(), 4);
    assert!(matches!(machine.enter(function, Environment::new()), Ok(Progress::Running)));
    assert_eq!(machine.frames[0].program_counter, 0);
    let mut bound = Environment::new();
    let mut steps = 0u64;
    loop {
        if machine.frames[0].program_counter == 9 {
            bound = machine.frames[0].environment.clone();
        }
        match machine.step(&module) {
            Ok(Progress::Running) => steps += 1,
            Ok(Progress::Finished) => break,
            other => panic!("the step came to {:?}", other),
        }
    }
    assert_eq!(steps, 6 + 1498 * 17 + 3);
    assert_eq!(machine.depth(), 0);
    assert_eq!(machine.core.stack.len(), 2);
    assert_eq!(natural_at(&machine, 0), vec![1500]);
    assert_eq!(natural_at(&machine, 1), vec![1500]);
    match (bound.get("a"), bound.get("b"), bound.get("i")) {
        (
            Some(Value::Integer(Integer::Natural(a))),
            Some(Value::Integer(Integer::Natural(b))),
            Some(Value::Integer(Integer::Natural(i))),
        ) => {
            assert_eq!(a.limbs, fibonacci_limbs(1498));
            assert_eq!(b.limbs, fibonacci_limbs(1499));
            assert_eq!(i.limbs, vec![1500]);
        }
        other => panic!("the frame had bound {:?}", other),
    }
}
