//! What holds of every step: laws of the evaluator, proved from its
//! definition.

use vstd::prelude::*;
use crate::instruction::{ComparisonType, Condition, FunctionSourceModel, JumpTarget, OperationModel};
use crate::machine::evaluator::{
    CoreModel, Family, StepModel, advanced, aggregate_family_model, below, can_jump_model,
    compare_model, condition_for, decimal_binary_model, decimal_family_model, execute_model,
    family_of, flag_for, goto_model, holds_of, host_family_model, integer_binary_model,
    integer_family_model, is_integer_binary, jump_address, resume_model, stack_family_model,
    text_family_model, under, vector_get_model, vector_set_model, with_stack,
};
use crate::machine::evaluator::initial_flags;
use crate::machine::{
    Arithmetic, FaultModel, HostReplyModel, HostRequestModel, MachineModel, ProgressModel,
    MachineStep, VerdictModel, entry_frame, machine_step_model, run_model,
};
use crate::value::function::FunctionModel;
use crate::program::module::{ModuleModel, function_at};
use crate::value::decimal::{DecimalModel, decimal_is_zero};
use crate::value::integer::{IntegerModel, Relation};
use crate::value::order::{Standing, standing};
use crate::value::vector::{VectorModel, accepts, homogeneous, stored};
use crate::value::ValueModel;

verus! {

/// The number of values that the answer to a request puts on the stack.
pub open spec fn answer_effect(request: HostRequestModel) -> int {
    match request {
        HostRequestModel::Write(_) => 0,
        HostRequestModel::SetValue(_, _) => 0,
        HostRequestModel::Compare(_, _, _) => 0,
        _ => 1,
    }
}

/// The number of values that a verdict leaves to the answer of the host.
pub open spec fn pending(verdict: VerdictModel) -> int {
    match verdict {
        VerdictModel::Host(request) => answer_effect(request),
        _ => 0,
    }
}

/// The number of arguments that a call whose condition is met takes off
/// the stack, the function value included where it comes from the stack.
pub open spec fn call_effect(core: CoreModel, source: FunctionSourceModel, module: ModuleModel)
    -> int {
    match source {
        FunctionSourceModel::Name(path) => match function_at(module, path) {
            Some(function) => -(function.argument_names.len() as int),
            None => 0,
        },
        FunctionSourceModel::Stack => match under(core.stack, 0) {
            ValueModel::Function(function) => -(function.argument_names.len() as int) - 1,
            _ => 0,
        },
        FunctionSourceModel::Address => 0,
    }
}

/// By how much an operation that completes changes the depth of the
/// stack, the answer of the host counted in. A read of an element takes
/// index and aggregate and puts back aggregate and element, so it leaves
/// the depth as it was.
pub open spec fn net_effect(core: CoreModel, operation: OperationModel, module: ModuleModel)
    -> int {
    match operation {
        OperationModel::Halt => 0,
        OperationModel::NoOp => 0,
        OperationModel::Push(_) => 1,
        OperationModel::Pop => -1,
        OperationModel::Duplicate => 1,
        OperationModel::TupleNew => match under(core.stack, 0) {
            ValueModel::Integer(count) => -count.value,
            _ => 0,
        },
        OperationModel::TupleGet => 0,
        OperationModel::VectorNew(_) => 0,
        OperationModel::VectorGet => 0,
        OperationModel::VectorSet => -2,
        OperationModel::VectorLength => 1,
        OperationModel::ProductGet(_) => 1,
        OperationModel::ProductSet(_) => -1,
        OperationModel::SumGet(_) => 1,
        OperationModel::SumSet(_) => -1,
        OperationModel::FunctionCall(source, condition) => if can_jump_model(
            core.flags,
            condition,
        ) {
            call_effect(core, source, module)
        } else {
            0
        },
        OperationModel::Return(_) => 0,
        OperationModel::ClosureNew(_) => 1,
        OperationModel::IntegerNew(_) => 1,
        OperationModel::IntegerNegate => 0,
        OperationModel::IntegerBitwiseNot => 0,
        OperationModel::DecimalNew(_) => 1,
        OperationModel::DecimalAdd => -1,
        OperationModel::DecimalSubtract => -1,
        OperationModel::DecimalMultiply => -1,
        OperationModel::DecimalDivide => -1,
        OperationModel::DecimalModulo => -1,
        OperationModel::DecimalPower => -1,
        OperationModel::DecimalNegate => 0,
        OperationModel::StringNew(_) => 1,
        OperationModel::StringConcat => -1,
        OperationModel::StringLength => 0,
        OperationModel::BooleanNew(_) => 1,
        OperationModel::BooleanAnd => -1,
        OperationModel::BooleanOr => -1,
        OperationModel::BooleanNot => 0,
        OperationModel::CharacterNew(_) => 1,
        OperationModel::RequestValue(_) => 1,
        OperationModel::SetValue(_) => -1,
        OperationModel::Compare(_) => 0,
        OperationModel::Goto(_, _) => 0,
        OperationModel::Store(_) => -1,
        OperationModel::Lookup(_) => 1,
        OperationModel::GlobalStore(_) => -1,
        OperationModel::GlobalLookup(_) => 1,
        OperationModel::Write => -1,
        OperationModel::Read => 1,
        OperationModel::GetStringRef(_, _) => 1,
        OperationModel::Cast(_) => 0,
        _ => if is_integer_binary(operation) {
            -1
        } else {
            0
        },
    }
}

/// The depth of the stack after an operation of the stack family that
/// did not fail.
proof fn lemma_stack_family_effect(
    core: CoreModel,
    operation: OperationModel,
    bound: Map<Seq<char>, ValueModel>,
    module: ModuleModel,
)
    requires
        family_of(operation) is Stack,
        stack_family_model(core, operation, bound).result is Ok,
    ensures
        stack_family_model(core, operation, bound).core.stack.len() == core.stack.len()
            + net_effect(core, operation, module),
        stack_family_model(core, operation, bound).result == Ok::<
            Option<HostRequestModel>,
            FaultModel,
        >(None),
{
}

proof fn lemma_integer_family_effect(core: CoreModel, operation: OperationModel, module: ModuleModel)
    requires
        family_of(operation) is Integer,
        integer_family_model(core, operation).result is Ok,
    ensures
        integer_family_model(core, operation).core.stack.len() == core.stack.len() + net_effect(
            core,
            operation,
            module,
        ),
        integer_family_model(core, operation).result == Ok::<
            Option<HostRequestModel>,
            FaultModel,
        >(None),
{
}

proof fn lemma_decimal_family_effect(core: CoreModel, operation: OperationModel, module: ModuleModel)
    requires
        family_of(operation) is Decimal,
        decimal_family_model(core, operation).result is Ok,
    ensures
        decimal_family_model(core, operation).result matches Ok(request) && decimal_family_model(
            core,
            operation,
        ).core.stack.len() + (match request {
            Some(asked) => answer_effect(asked),
            None => 0,
        }) == core.stack.len() + net_effect(core, operation, module),
{
}

proof fn lemma_text_family_effect(core: CoreModel, operation: OperationModel, module: ModuleModel)
    requires
        family_of(operation) is Text,
        text_family_model(core, operation).result is Ok,
    ensures
        text_family_model(core, operation).core.stack.len() == core.stack.len() + net_effect(
            core,
            operation,
            module,
        ),
        text_family_model(core, operation).result == Ok::<Option<HostRequestModel>, FaultModel>(
            None,
        ),
{
}

proof fn lemma_aggregate_family_effect(
    core: CoreModel,
    operation: OperationModel,
    module: ModuleModel,
)
    requires
        family_of(operation) is Aggregate,
        aggregate_family_model(core, operation).result is Ok,
    ensures
        aggregate_family_model(core, operation).result matches Ok(request)
            && aggregate_family_model(core, operation).core.stack.len() + (match request {
            Some(asked) => answer_effect(asked),
            None => 0,
        }) == core.stack.len() + net_effect(core, operation, module),
{
}

proof fn lemma_host_family_effect(
    core: CoreModel,
    operation: OperationModel,
    bound: Map<Seq<char>, ValueModel>,
    module: ModuleModel,
)
    requires
        family_of(operation) is Host,
        host_family_model(core, operation, bound, module).result is Ok,
    ensures
        host_family_model(core, operation, bound, module).result matches Ok(request)
            && host_family_model(core, operation, bound, module).core.stack.len() + (
        match request {
            Some(asked) => answer_effect(asked),
            None => 0,
        }) == core.stack.len() + net_effect(core, operation, module),
{
}

/// After a step that did not fail, the depth of the stack has changed by
/// the net effect of the operation, less what the answer of the host
/// will put on it.
pub proof fn law_stack_depth(
    core: CoreModel,
    operation: OperationModel,
    program_counter: usize,
    bound: Map<Seq<char>, ValueModel>,
    module: ModuleModel,
)
    requires
        execute_model(core, operation, program_counter, bound, module).result is Ok,
    ensures
        execute_model(core, operation, program_counter, bound, module).core.stack.len() + pending(
            execute_model(core, operation, program_counter, bound, module).result->Ok_0,
        ) == core.stack.len() + net_effect(core, operation, module),
{
    match family_of(operation) {
        Family::Stack => lemma_stack_family_effect(core, operation, bound, module),
        Family::Integer => lemma_integer_family_effect(core, operation, module),
        Family::Decimal => lemma_decimal_family_effect(core, operation, module),
        Family::Text => lemma_text_family_effect(core, operation, module),
        Family::Aggregate => lemma_aggregate_family_effect(core, operation, module),
        Family::Host => lemma_host_family_effect(core, operation, bound, module),
        _ => {},
    }
}

/// An answer of the host that is taken puts on the stack what the
/// request left to it.
pub proof fn law_answer_depth(core: CoreModel, request: HostRequestModel, reply: HostReplyModel)
    requires
        resume_model(core, request, reply).result is Ok,
    ensures
        resume_model(core, request, reply).core.stack.len() == core.stack.len() + answer_effect(
            request,
        ),
{
}

/// `Duplicate` puts a copy of the top value on top of it and goes on to
/// the next instruction; flags and bindings stay as they were.
pub proof fn law_duplicate(
    core: CoreModel,
    program_counter: usize,
    bound: Map<Seq<char>, ValueModel>,
    module: ModuleModel,
)
    requires
        core.stack.len() >= 1,
        program_counter < usize::MAX,
    ensures
        execute_model(core, OperationModel::Duplicate, program_counter, bound, module) == (
        StepModel {
            result: Ok(VerdictModel::Continue),
            core: with_stack(core, core.stack.push(core.stack.last())),
            program_counter: (program_counter + 1) as usize,
            environment: bound,
        }),
{
}

/// Whether a condition asks for a recorded relation.
pub open spec fn asks_relation(condition: Condition) -> bool {
    condition == Condition::Equal || condition == Condition::NotEqual || condition
        == Condition::LessThan || condition == Condition::LessThanOrEqual || condition
        == Condition::GreaterThan || condition == Condition::GreaterThanOrEqual
}

/// After `Compare` on two values that can be compared here, the flags
/// meet the condition that names the relation recorded, and no other
/// condition on relations: not the one for the complement, in
/// particular. The flag recorded is the relation asked about exactly
/// where it holds. The stack is as it was.
pub proof fn law_compare_records(core: CoreModel, kind: ComparisonType, relation: Relation)
    requires
        core.stack.len() >= 2,
        standing(under(core.stack, 1), under(core.stack, 0)) == Standing::Known(relation),
    ensures
        compare_model(core, kind).result == Ok::<Option<HostRequestModel>, FaultModel>(None),
        compare_model(core, kind).core.stack == core.stack,
        compare_model(core, kind).core.flags.comparison == flag_for(kind, holds_of(kind, relation)),
        can_jump_model(
            compare_model(core, kind).core.flags,
            condition_for(flag_for(kind, holds_of(kind, relation))),
        ),
        !can_jump_model(
            compare_model(core, kind).core.flags,
            condition_for(flag_for(kind, !holds_of(kind, relation))),
        ),
        forall|condition: Condition|
            asks_relation(condition) ==> (can_jump_model(
                compare_model(core, kind).core.flags,
                condition,
            ) <==> condition == condition_for(flag_for(kind, holds_of(kind, relation)))),
{
}

/// The same holds once the host has said how two floating-point numbers
/// stand to each other.
pub proof fn law_answer_records(
    core: CoreModel,
    kind: ComparisonType,
    left: DecimalModel,
    right: DecimalModel,
    relation: Relation,
)
    ensures
        resume_model(
            core,
            HostRequestModel::Compare(kind, left, right),
            HostReplyModel::Relation(relation),
        ).result is Ok,
        can_jump_model(
            resume_model(
                core,
                HostRequestModel::Compare(kind, left, right),
                HostReplyModel::Relation(relation),
            ).core.flags,
            condition_for(flag_for(kind, holds_of(kind, relation))),
        ),
        !can_jump_model(
            resume_model(
                core,
                HostRequestModel::Compare(kind, left, right),
                HostReplyModel::Relation(relation),
            ).core.flags,
            condition_for(flag_for(kind, !holds_of(kind, relation))),
        ),
{
}

/// A `Goto` whose condition is met sets the program counter to its
/// target and one whose condition is not met goes on to the next
/// instruction; neither touches stack or flags.
pub proof fn law_goto(
    core: CoreModel,
    target: JumpTarget,
    condition: Condition,
    program_counter: usize,
    bound: Map<Seq<char>, ValueModel>,
)
    ensures
        goto_model(core, target, condition, program_counter, bound).core == core,
        goto_model(core, target, condition, program_counter, bound).environment == bound,
        can_jump_model(core.flags, condition) ==> (match jump_address(program_counter, target) {
            Some(address) => goto_model(core, target, condition, program_counter, bound).result
                == Ok::<VerdictModel, FaultModel>(VerdictModel::Continue) && goto_model(
                core,
                target,
                condition,
                program_counter,
                bound,
            ).program_counter == address,
            None => goto_model(core, target, condition, program_counter, bound).result == Err::<
                VerdictModel,
                FaultModel,
            >(FaultModel::InvalidJump),
        }),
        !can_jump_model(core.flags, condition) ==> goto_model(
            core,
            target,
            condition,
            program_counter,
            bound,
        ) == advanced(VerdictModel::Continue, core, program_counter, bound),
{
}

/// A step on `Compare` that records a relation goes on to the next
/// instruction with the flags of the comparison.
pub proof fn lemma_compare_step(
    core: CoreModel,
    kind: ComparisonType,
    program_counter: usize,
    bound: Map<Seq<char>, ValueModel>,
    module: ModuleModel,
)
    requires
        program_counter < usize::MAX,
        compare_model(core, kind).result == Ok::<Option<HostRequestModel>, FaultModel>(None),
    ensures
        execute_model(core, OperationModel::Compare(kind), program_counter, bound, module) == (
        StepModel {
            result: Ok(VerdictModel::Continue),
            core: compare_model(core, kind).core,
            program_counter: (program_counter + 1) as usize,
            environment: bound,
        }),
{
    let operation = OperationModel::Compare(kind);
    assert(family_of(operation) is Aggregate);
    assert(aggregate_family_model(core, operation) == compare_model(core, kind));
    assert(crate::machine::evaluator::outcome_model(core, operation, bound, module) == compare_model(
        core,
        kind,
    ));
}

/// `Compare` and then a `Goto` on the relation recorded transfers
/// control; a `Goto` on any other condition on relations, the complement
/// among them, goes on to the next instruction. Neither `Goto` touches
/// stack or flags.
pub proof fn law_compare_then_goto(
    core: CoreModel,
    kind: ComparisonType,
    relation: Relation,
    target: JumpTarget,
    other: Condition,
    program_counter: usize,
    bound: Map<Seq<char>, ValueModel>,
    module: ModuleModel,
)
    requires
        core.stack.len() >= 2,
        standing(under(core.stack, 1), under(core.stack, 0)) == Standing::Known(relation),
        asks_relation(other),
        other != condition_for(flag_for(kind, holds_of(kind, relation))),
        program_counter < usize::MAX - 1,
        jump_address((program_counter + 1) as usize, target) is Some,
    ensures
        ({
            let compared = execute_model(
                core,
                OperationModel::Compare(kind),
                program_counter,
                bound,
                module,
            );
            let recorded = flag_for(kind, holds_of(kind, relation));
            let complement = flag_for(kind, !holds_of(kind, relation));
            let taken = execute_model(
                compared.core,
                OperationModel::Goto(target, condition_for(recorded)),
                compared.program_counter,
                compared.environment,
                module,
            );
            let passed = execute_model(
                compared.core,
                OperationModel::Goto(target, other),
                compared.program_counter,
                compared.environment,
                module,
            );
            &&& compared.result == Ok::<VerdictModel, FaultModel>(VerdictModel::Continue)
            &&& compared.program_counter == program_counter + 1
            &&& compared.core.stack == core.stack
            &&& taken.result == Ok::<VerdictModel, FaultModel>(VerdictModel::Continue)
            &&& Some(taken.program_counter) == jump_address(
                (program_counter + 1) as usize,
                target,
            )
            &&& taken.core == compared.core
            &&& passed.result == Ok::<VerdictModel, FaultModel>(VerdictModel::Continue)
            &&& passed.program_counter == program_counter + 2
            &&& passed.core == compared.core
            &&& asks_relation(condition_for(complement))
            &&& condition_for(complement) != condition_for(recorded)
        }),
{
    law_compare_records(core, kind, relation);
    lemma_compare_step(core, kind, program_counter, bound, module);
    let after = compare_model(core, kind).core;
    let next = (program_counter + 1) as usize;
    let recorded = flag_for(kind, holds_of(kind, relation));
    law_goto(after, target, condition_for(recorded), next, bound);
    law_goto(after, target, other, next, bound);
}

/// `Return` leaves the frame exactly where its condition is met; where it
/// is not met, the step goes on to the next instruction. Either way
/// stack, flags and bindings stay as they were.
pub proof fn law_return(
    core: CoreModel,
    condition: Condition,
    program_counter: usize,
    bound: Map<Seq<char>, ValueModel>,
    module: ModuleModel,
)
    requires
        program_counter < usize::MAX,
    ensures
        execute_model(core, OperationModel::Return(condition), program_counter, bound, module) == (
        StepModel {
            result: Ok(
                if can_jump_model(core.flags, condition) {
                    VerdictModel::Return
                } else {
                    VerdictModel::Continue
                },
            ),
            core,
            program_counter: if can_jump_model(core.flags, condition) {
                program_counter
            } else {
                (program_counter + 1) as usize
            },
            environment: bound,
        }),
{
}

/// `Return` on `Always` leaves the frame, whatever the state.
pub proof fn law_return_always(
    core: CoreModel,
    program_counter: usize,
    bound: Map<Seq<char>, ValueModel>,
    module: ModuleModel,
)
    ensures
        execute_model(
            core,
            OperationModel::Return(Condition::Always),
            program_counter,
            bound,
            module,
        ) == (StepModel {
            result: Ok(VerdictModel::Return),
            core,
            program_counter,
            environment: bound,
        }),
{
}

/// A closure holds the bindings of the frame as they were when it was
/// made: binding a name in the frame afterwards changes the bindings of
/// the frame and not those of the closure.
pub proof fn law_capture_is_a_copy(
    core: CoreModel,
    path: Seq<Seq<char>>,
    bound: Map<Seq<char>, ValueModel>,
    module: ModuleModel,
    name: Seq<char>,
    value: ValueModel,
    program_counter: usize,
)
    requires
        function_at(module, path) is Some,
        program_counter < usize::MAX - 2,
    ensures
        ({
            let made = execute_model(
                core,
                OperationModel::ClosureNew(FunctionSourceModel::Name(path)),
                program_counter,
                bound,
                module,
            );
            let pushed = execute_model(
                made.core,
                OperationModel::Push(value),
                made.program_counter,
                made.environment,
                module,
            );
            let stored = execute_model(
                pushed.core,
                OperationModel::Store(name),
                pushed.program_counter,
                pushed.environment,
                module,
            );
            &&& made.result is Ok
            &&& stored.result is Ok
            &&& stored.environment == bound.insert(name, value)
            &&& stored.core.stack == core.stack.push(under(made.core.stack, 0))
            &&& under(stored.core.stack, 0) matches ValueModel::Function(closure)
                && closure.environment == bound && closure.code == function_at(
                module,
                path,
            )->Some_0.code
        }),
{
    let made = execute_model(
        core,
        OperationModel::ClosureNew(FunctionSourceModel::Name(path)),
        program_counter,
        bound,
        module,
    );
    let pushed = execute_model(
        made.core,
        OperationModel::Push(value),
        made.program_counter,
        made.environment,
        module,
    );
    assert(below(pushed.core.stack, 1) =~= made.core.stack);
    assert(made.core.stack =~= core.stack.push(under(made.core.stack, 0)));
}

/// Division and remainder of integers by zero are `DivisionByZero` and
/// leave the flags as they were.
pub proof fn law_integer_division_by_zero(core: CoreModel, operation: OperationModel)
    requires
        operation is IntegerDivide || operation is IntegerModulo,
        core.stack.len() >= 2,
        under(core.stack, 1) is Integer,
        under(core.stack, 0) matches ValueModel::Integer(divisor) && divisor.value == 0,
    ensures
        integer_binary_model(core, operation).result == Err::<
            Option<HostRequestModel>,
            FaultModel,
        >(FaultModel::DivisionByZero),
        integer_binary_model(core, operation).core.flags == core.flags,
{
}

/// Division and remainder of decimals by a zero are `DivisionByZero` and
/// leave the flags as they were.
pub proof fn law_decimal_division_by_zero(core: CoreModel, operation: Arithmetic)
    requires
        operation == Arithmetic::Divide || operation == Arithmetic::Modulo,
        core.stack.len() >= 2,
        under(core.stack, 1) is Decimal,
        under(core.stack, 0) matches ValueModel::Decimal(divisor) && decimal_is_zero(divisor),
    ensures
        decimal_binary_model(core, operation).result == Err::<
            Option<HostRequestModel>,
            FaultModel,
        >(FaultModel::DivisionByZero),
        decimal_binary_model(core, operation).core.flags == core.flags,
{
}

/// No fault of an operation on two integers changes the flags.
pub proof fn law_fault_keeps_flags(core: CoreModel, operation: OperationModel)
    requires
        integer_binary_model(core, operation).result is Err,
    ensures
        integer_binary_model(core, operation).core.flags == core.flags,
{
}

/// `VectorGet` past the end is `OutOfBounds` and leaves the vector on
/// top of the stack.
pub proof fn law_get_out_of_bounds(core: CoreModel, vector: VectorModel, index: IntegerModel)
    requires
        core.stack.len() >= 2,
        under(core.stack, 1) == ValueModel::Vector(vector),
        under(core.stack, 0) == ValueModel::Integer(index),
        !(0 <= index.value < vector.items.len()),
    ensures
        vector_get_model(core).result == Err::<Option<HostRequestModel>, FaultModel>(
            FaultModel::OutOfBounds,
        ),
        vector_get_model(core).core.stack == below(core.stack, 2).push(ValueModel::Vector(vector)),
        vector_get_model(core).core.flags == core.flags,
{
}

/// `VectorGet` within the length puts the vector back and the element
/// on top of it. Of a vector whose elements are all of its kind, the
/// element is of that kind.
pub proof fn law_get_within_bounds(core: CoreModel, vector: VectorModel, index: IntegerModel)
    requires
        core.stack.len() >= 2,
        under(core.stack, 1) == ValueModel::Vector(vector),
        under(core.stack, 0) == ValueModel::Integer(index),
        0 <= index.value < vector.items.len(),
    ensures
        vector_get_model(core).result == Ok::<Option<HostRequestModel>, FaultModel>(None),
        vector_get_model(core).core.stack == below(core.stack, 2).push(
            ValueModel::Vector(vector),
        ).push(vector.items[index.value]),
        vector_get_model(core).core.flags == core.flags,
        homogeneous(vector) ==> accepts(vector.kind, vector.items[index.value]),
{
}

/// `VectorSet` past the end with a value of the vector's kind is
/// `OutOfBounds`; with a value of another kind it is `TypeMismatch`
/// wherever the index lies. Either way the vector is put back as it was,
/// and value and index are gone.
pub proof fn law_set_fault(core: CoreModel, vector: VectorModel, index: IntegerModel)
    requires
        core.stack.len() >= 3,
        under(core.stack, 2) == ValueModel::Vector(vector),
        under(core.stack, 1) == ValueModel::Integer(index),
        !accepts(vector.kind, under(core.stack, 0)) || !(0 <= index.value < vector.items.len()),
    ensures
        vector_set_model(core).result == Err::<Option<HostRequestModel>, FaultModel>(
            if !accepts(vector.kind, under(core.stack, 0)) {
                FaultModel::TypeMismatch
            } else {
                FaultModel::OutOfBounds
            },
        ),
        vector_set_model(core).core.stack == below(core.stack, 3).push(ValueModel::Vector(vector)),
        vector_set_model(core).core.flags == core.flags,
{
}

/// `VectorSet` and then `VectorGet` at the same index on the vector that
/// was put back yields the value that was set.
pub proof fn law_set_then_get(core: CoreModel, vector: VectorModel, index: IntegerModel)
    requires
        core.stack.len() >= 3,
        under(core.stack, 2) == ValueModel::Vector(vector),
        under(core.stack, 1) == ValueModel::Integer(index),
        accepts(vector.kind, under(core.stack, 0)),
        0 <= index.value < vector.items.len(),
    ensures
        ({
            let set = vector_set_model(core);
            let again = with_stack(set.core, set.core.stack.push(ValueModel::Integer(index)));
            let got = vector_get_model(again);
            &&& set.result == Ok::<Option<HostRequestModel>, FaultModel>(None)
            &&& got.result == Ok::<Option<HostRequestModel>, FaultModel>(None)
            &&& under(got.core.stack, 0) == under(core.stack, 0)
            &&& under(got.core.stack, 1) == under(set.core.stack, 0)
            &&& got.core.stack.len() == core.stack.len() - 1
        }),
{
    let set = vector_set_model(core);
    let again = with_stack(set.core, set.core.stack.push(ValueModel::Integer(index)));
    assert(below(again.stack, 2) =~= below(core.stack, 3));
}

/// In the frame that a function is entered with, what was prepared for
/// it is bound as prepared, whatever the function captured under that
/// name; what only the function captured is bound as captured; and
/// nothing else is bound. The frame starts at the first instruction with
/// fresh flags.
pub proof fn law_parameters_are_not_shadowed(
    function: FunctionModel,
    prepared: Map<Seq<char>, ValueModel>,
    name: Seq<char>,
)
    ensures
        prepared.contains_key(name) ==> entry_frame(function, prepared).environment[name]
            == prepared[name],
        !prepared.contains_key(name) && function.environment.contains_key(name) ==> entry_frame(
            function,
            prepared,
        ).environment[name] == function.environment[name],
        entry_frame(function, prepared).environment.contains_key(name) <==> (
        prepared.contains_key(name) || function.environment.contains_key(name)),
        entry_frame(function, prepared).program_counter == 0,
        entry_frame(function, prepared).flags == initial_flags(),
{
}

/// A step of the machine on `Return` with `Always` leaves the running
/// frame: the frames under it are what is left, and the run is over
/// where there is none.
pub proof fn law_return_leaves_the_frame(machine: MachineModel, module: ModuleModel)
    requires
        machine.frames.len() > 0,
        machine.frames.last().program_counter < machine.frames.last().function.code.len(),
        machine.frames.last().function.code[machine.frames.last().program_counter as int].instruction
            == OperationModel::Return(Condition::Always),
    ensures
        machine_step_model(machine, module).machine.frames == machine.frames.drop_last(),
        machine_step_model(machine, module).machine.core.stack == machine.core.stack,
        machine_step_model(machine, module).result == Ok::<ProgressModel, FaultModel>(
            if machine.frames.len() == 1 {
                ProgressModel::Finished
            } else {
                ProgressModel::Running
            },
        ),
{
    let frame = machine.frames.last();
    law_return_always(machine.core, frame.program_counter, frame.environment, module);
    assert(machine.frames.drop_last().push(frame).drop_last() =~= machine.frames.drop_last());
}

/// A step of the machine on `Halt` ends the run and drops every frame.
pub proof fn law_halt_drops_every_frame(machine: MachineModel, module: ModuleModel)
    requires
        machine.frames.len() > 0,
        machine.frames.last().program_counter < machine.frames.last().function.code.len(),
        machine.frames.last().function.code[machine.frames.last().program_counter as int].instruction
            == OperationModel::Halt,
    ensures
        machine_step_model(machine, module).machine.frames.len() == 0,
        machine_step_model(machine, module).machine.core == machine.core,
        machine_step_model(machine, module).result == Ok::<ProgressModel, FaultModel>(
            ProgressModel::Stopped,
        ),
{
}

/// A run on a budget and then, where it is still running, a run on
/// another budget is a run on both budgets together.
pub proof fn law_runs_compose(machine: MachineModel, module: ModuleModel, first: nat, second: nat)
    ensures
        run_model(machine, module, first + second) == ({
            let part = run_model(machine, module, first);
            if part.result == Ok::<ProgressModel, FaultModel>(ProgressModel::Running) {
                run_model(part.machine, module, second)
            } else {
                part
            }
        }),
    decreases first,
{
    if first == 0 {
        assert(run_model(machine, module, 0) == (MachineStep {
            result: Ok(ProgressModel::Running),
            machine,
        }));
    } else {
        let step = machine_step_model(machine, module);
        if step.result == Ok::<ProgressModel, FaultModel>(ProgressModel::Running) {
            law_runs_compose(step.machine, module, (first - 1) as nat, second);
            assert(run_model(machine, module, first + second) == run_model(
                step.machine,
                module,
                (first + second - 1) as nat,
            ));
        }
    }
}

/// A run that has ended stays ended: on a machine without frames every
/// step is `Finished` and changes nothing.
pub proof fn law_finished_stays_finished(machine: MachineModel, module: ModuleModel, budget: nat)
    requires
        machine.frames.len() == 0,
        budget > 0,
    ensures
        run_model(machine, module, budget) == (MachineStep {
            result: Ok(ProgressModel::Finished),
            machine,
        }),
{
}

} // verus!
