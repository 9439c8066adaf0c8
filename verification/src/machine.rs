//! The evaluator, its faults and the frame driver.

use vstd::prelude::*;
use crate::instruction::ComparisonType;
use crate::machine::environment::{Environment, merged};
use crate::machine::evaluator::{
    Core, CoreFlags, CoreModel, Comparison, execute_model, initial_flags,
};
use crate::program::module::{Module, ModuleModel, function_at};
use crate::program::FunctionPath;
use crate::value::decimal::{Decimal, DecimalModel};
use crate::value::function::{Function, FunctionModel};
use crate::value::integer::Relation;
use crate::value::{Value, ValueModel, ValueType};

pub mod evaluator;
pub mod laws;
pub mod environment;

verus! {

/// A classified condition that ends the dispatch of the current frame and
/// is handed to the host.
#[derive(Debug)]
pub enum Fault {
    DivisionByZero,
    StackOverflow,
    Overflow,
    Underflow,
    InvalidInstruction,
    InvalidRegister,
    InvalidJump,
    FunctionNotFound(FunctionPath),
    NameNotFound(String),
    ContinuationNotFound(u64),
    InvalidString,
    InvalidOperation(String),
    MemoryError(String),
    NotAnInteger,
    NotAFunction,
    NotAReference,
    NotABoolean,
    OutOfMemory,
    NotAVector,
    OutOfBounds,
    TypeMismatch,
    NotATuple,
    Unwind(String),
}

/// What a `Fault` says, with its texts as sequences of characters.
pub enum FaultModel {
    DivisionByZero,
    StackOverflow,
    Overflow,
    Underflow,
    InvalidInstruction,
    InvalidRegister,
    InvalidJump,
    FunctionNotFound(Seq<Seq<char>>),
    NameNotFound(Seq<char>),
    ContinuationNotFound(u64),
    InvalidString,
    InvalidOperation(Seq<char>),
    MemoryError(Seq<char>),
    NotAnInteger,
    NotAFunction,
    NotAReference,
    NotABoolean,
    OutOfMemory,
    NotAVector,
    OutOfBounds,
    TypeMismatch,
    NotATuple,
    Unwind(Seq<char>),
}

impl View for Fault {
    type V = FaultModel;

    open spec fn view(&self) -> FaultModel {
        match *self {
            Fault::DivisionByZero => FaultModel::DivisionByZero,
            Fault::StackOverflow => FaultModel::StackOverflow,
            Fault::Overflow => FaultModel::Overflow,
            Fault::Underflow => FaultModel::Underflow,
            Fault::InvalidInstruction => FaultModel::InvalidInstruction,
            Fault::InvalidRegister => FaultModel::InvalidRegister,
            Fault::InvalidJump => FaultModel::InvalidJump,
            Fault::FunctionNotFound(path) => FaultModel::FunctionNotFound(path@),
            Fault::NameNotFound(name) => FaultModel::NameNotFound(name@),
            Fault::ContinuationNotFound(id) => FaultModel::ContinuationNotFound(id),
            Fault::InvalidString => FaultModel::InvalidString,
            Fault::InvalidOperation(detail) => FaultModel::InvalidOperation(detail@),
            Fault::MemoryError(detail) => FaultModel::MemoryError(detail@),
            Fault::NotAnInteger => FaultModel::NotAnInteger,
            Fault::NotAFunction => FaultModel::NotAFunction,
            Fault::NotAReference => FaultModel::NotAReference,
            Fault::NotABoolean => FaultModel::NotABoolean,
            Fault::OutOfMemory => FaultModel::OutOfMemory,
            Fault::NotAVector => FaultModel::NotAVector,
            Fault::OutOfBounds => FaultModel::OutOfBounds,
            Fault::TypeMismatch => FaultModel::TypeMismatch,
            Fault::NotATuple => FaultModel::NotATuple,
            Fault::Unwind(message) => FaultModel::Unwind(message@),
        }
    }
}

/// The arithmetic on two decimals that the host is asked for.
#[derive(Clone, Copy, Debug, PartialEq, Eq, Structural)]
pub enum Arithmetic {
    Add,
    Subtract,
    Multiply,
    Divide,
    Modulo,
    Power,
}

/// What the evaluator asks of the host: the four operations of the side
/// channel, and every computation on floating-point numbers.
#[derive(Debug)]
pub enum HostRequest {
    /// Deliver the value to the sink.
    Write(Value),
    /// Supply a value from the input.
    Read,
    /// Supply the value held under a name.
    RequestValue(String),
    /// Hold the value under a name.
    SetValue(String, Value),
    /// Compute on two floating-point numbers, the left one first.
    Arithmetic(Arithmetic, Decimal, Decimal),
    /// Raise a floating-point number to a whole power.
    PowerInteger(Decimal, i32),
    /// Cast a value from or to a floating-point variant.
    Cast(Value, ValueType),
    /// Say how two floating-point numbers of one variant stand to each
    /// other, the left one first.
    Compare(ComparisonType, Decimal, Decimal),
}

/// What a `HostRequest` is.
pub enum HostRequestModel {
    Write(ValueModel),
    Read,
    RequestValue(Seq<char>),
    SetValue(Seq<char>, ValueModel),
    Arithmetic(Arithmetic, DecimalModel, DecimalModel),
    PowerInteger(DecimalModel, i32),
    Cast(ValueModel, ValueType),
    Compare(ComparisonType, DecimalModel, DecimalModel),
}

impl View for HostRequest {
    type V = HostRequestModel;

    open spec fn view(&self) -> HostRequestModel {
        match *self {
            HostRequest::Write(v) => HostRequestModel::Write(v@),
            HostRequest::Read => HostRequestModel::Read,
            HostRequest::RequestValue(name) => HostRequestModel::RequestValue(name@),
            HostRequest::SetValue(name, v) => HostRequestModel::SetValue(name@, v@),
            HostRequest::Arithmetic(op, l, r) => HostRequestModel::Arithmetic(op, l@, r@),
            HostRequest::PowerInteger(base, e) => HostRequestModel::PowerInteger(base@, e),
            HostRequest::Cast(v, target) => HostRequestModel::Cast(v@, target),
            HostRequest::Compare(kind, l, r) => HostRequestModel::Compare(kind, l@, r@),
        }
    }
}

/// What the host answers.
#[derive(Debug)]
pub enum HostReply {
    /// The request was carried out and hands nothing back.
    Done,
    /// The value asked for.
    Value(Value),
    /// How the two numbers stand to each other.
    Relation(Relation),
    /// The host could not carry the request out.
    Failure(String),
}

/// What a `HostReply` is.
pub enum HostReplyModel {
    Done,
    Value(ValueModel),
    Relation(Relation),
    Failure(Seq<char>),
}

impl View for HostReply {
    type V = HostReplyModel;

    open spec fn view(&self) -> HostReplyModel {
        match *self {
            HostReply::Done => HostReplyModel::Done,
            HostReply::Value(v) => HostReplyModel::Value(v@),
            HostReply::Relation(r) => HostReplyModel::Relation(r),
            HostReply::Failure(detail) => HostReplyModel::Failure(detail@),
        }
    }
}

/// What a step of the evaluator reports to the driver.
#[derive(Debug)]
pub enum InstructionResult<'a> {
    /// The whole run ends.
    Stop,
    /// The frame goes on at the program counter.
    Continue,
    /// The frame is left.
    Return,
    /// An exception of the language, which nothing in the core catches.
    Unwind(String),
    /// A function of the module is entered with the prepared bindings.
    CallRef(&'a Function, Environment),
    /// A function value is entered with the prepared bindings.
    Call(Function, Environment),
    /// The host is asked before the frame goes on.
    Host(HostRequest),
}

/// What an `InstructionResult` is.
pub enum VerdictModel {
    Stop,
    Continue,
    Return,
    Unwind(Seq<char>),
    CallRef(FunctionModel, Map<Seq<char>, ValueModel>),
    Call(FunctionModel, Map<Seq<char>, ValueModel>),
    Host(HostRequestModel),
}

impl<'a> View for InstructionResult<'a> {
    type V = VerdictModel;

    open spec fn view(&self) -> VerdictModel {
        match *self {
            InstructionResult::Stop => VerdictModel::Stop,
            InstructionResult::Continue => VerdictModel::Continue,
            InstructionResult::Return => VerdictModel::Return,
            InstructionResult::Unwind(message) => VerdictModel::Unwind(message@),
            InstructionResult::CallRef(function, environment) => VerdictModel::CallRef(
                function@,
                environment@,
            ),
            InstructionResult::Call(function, environment) => VerdictModel::Call(
                function@,
                environment@,
            ),
            InstructionResult::Host(request) => VerdictModel::Host(request@),
        }
    }
}

/// An invocation of a function: where it stands in its code, what it has
/// bound, and the flags it had when it called another function.
#[derive(Debug)]
pub struct Frame {
    pub function: Function,
    pub program_counter: usize,
    pub environment: Environment,
    pub flags: CoreFlags,
}

/// What a `Frame` is.
pub struct FrameModel {
    pub function: FunctionModel,
    pub program_counter: usize,
    pub environment: Map<Seq<char>, ValueModel>,
    pub flags: CoreFlags,
}

impl View for Frame {
    type V = FrameModel;

    open spec fn view(&self) -> FrameModel {
        FrameModel {
            function: self.function@,
            program_counter: self.program_counter,
            environment: self.environment@,
            flags: self.flags,
        }
    }
}

/// The models of a sequence of frames.
pub open spec fn frames_model(frames: Seq<Frame>) -> Seq<FrameModel> {
    Seq::new(frames.len(), |i: int| frames[i]@)
}

/// A machine: the shared state and the frames that are entered, the
/// running one last. No more than `depth_limit` frames are entered at a
/// time. `position` is the row and the column of the instruction that was
/// carried out last: where a step fails, that of the offending one.
#[derive(Debug)]
pub struct Machine {
    pub core: Core,
    pub frames: Vec<Frame>,
    pub depth_limit: usize,
    pub position: Option<(usize, usize)>,
}

/// What a `Machine` is.
pub struct MachineModel {
    pub core: CoreModel,
    pub frames: Seq<FrameModel>,
    pub depth_limit: usize,
    pub position: Option<(usize, usize)>,
}

impl View for Machine {
    type V = MachineModel;

    open spec fn view(&self) -> MachineModel {
        MachineModel {
            core: self.core@,
            frames: frames_model(self.frames@),
            depth_limit: self.depth_limit,
            position: self.position,
        }
    }
}

/// How far a run has come.
#[derive(Debug)]
pub enum Progress {
    /// The running frame goes on.
    Running,
    /// The first frame was left: the run is over.
    Finished,
    /// `Halt` was met: the run is over and all frames are dropped.
    Stopped,
    /// The host is asked; the run goes on once it has answered.
    Host(HostRequest),
}

/// What a `Progress` is.
pub enum ProgressModel {
    Running,
    Finished,
    Stopped,
    Host(HostRequestModel),
}

impl View for Progress {
    type V = ProgressModel;

    open spec fn view(&self) -> ProgressModel {
        match *self {
            Progress::Running => ProgressModel::Running,
            Progress::Finished => ProgressModel::Finished,
            Progress::Stopped => ProgressModel::Stopped,
            Progress::Host(request) => ProgressModel::Host(request@),
        }
    }
}

/// What a step or a run of the machine comes to.
pub struct MachineStep {
    pub result: Result<ProgressModel, FaultModel>,
    pub machine: MachineModel,
}

/// The view of what a step or a run handed back.
pub open spec fn progress_of(r: Result<Progress, Fault>) -> Result<ProgressModel, FaultModel> {
    match r {
        Ok(progress) => Ok(progress@),
        Err(fault) => Err(fault@),
    }
}

/// The state with the flags replaced.
pub open spec fn with_flags(core: CoreModel, flags: CoreFlags) -> CoreModel {
    CoreModel { flags, stack: core.stack, globals: core.globals }
}

/// The frame that a function is entered with: at the start of its code,
/// with the prepared bindings and, where they leave a name free, the
/// captured ones.
pub open spec fn entry_frame(function: FunctionModel, prepared: Map<Seq<char>, ValueModel>)
    -> FrameModel {
    FrameModel {
        function,
        program_counter: 0,
        environment: merged(prepared, function.environment),
        flags: initial_flags(),
    }
}

/// Entering a function from a frame that stays behind with its flags.
/// `StackOverflow` where the limit of frames is reached.
pub open spec fn enter_model(
    machine: MachineModel,
    function: FunctionModel,
    prepared: Map<Seq<char>, ValueModel>,
) -> MachineStep {
    if machine.frames.len() >= machine.depth_limit {
        MachineStep { result: Err(FaultModel::StackOverflow), machine }
    } else {
        let behind = if machine.frames.len() == 0 {
            machine.frames
        } else {
            machine.frames.drop_last().push(
                FrameModel {
                    function: machine.frames.last().function,
                    program_counter: machine.frames.last().program_counter,
                    environment: machine.frames.last().environment,
                    flags: machine.core.flags,
                },
            )
        };
        MachineStep {
            result: Ok(ProgressModel::Running),
            machine: MachineModel {
                core: with_flags(machine.core, initial_flags()),
                frames: behind.push(entry_frame(function, prepared)),
                depth_limit: machine.depth_limit,
                position: machine.position,
            },
        }
    }
}

/// Leaving the running frame: the frame under it goes on with the flags
/// it had; where there is none, the run is over.
pub open spec fn leave_model(machine: MachineModel) -> MachineStep {
    let rest = machine.frames.drop_last();
    if rest.len() == 0 {
        MachineStep {
            result: Ok(ProgressModel::Finished),
            machine: MachineModel {
                core: machine.core,
                frames: rest,
                depth_limit: machine.depth_limit,
                position: machine.position,
            },
        }
    } else {
        MachineStep {
            result: Ok(ProgressModel::Running),
            machine: MachineModel {
                core: with_flags(machine.core, rest.last().flags),
                frames: rest,
                depth_limit: machine.depth_limit,
                position: machine.position,
            },
        }
    }
}

/// One step of the machine: the instruction at the program counter of
/// the running frame is carried out, and its verdict is acted on. A
/// program counter past the end of the code is `InvalidJump`.
pub open spec fn machine_step_model(machine: MachineModel, module: ModuleModel) -> MachineStep {
    if machine.frames.len() == 0 {
        MachineStep { result: Ok(ProgressModel::Finished), machine }
    } else {
        let frame = machine.frames.last();
        if frame.program_counter >= frame.function.code.len() {
            MachineStep { result: Err(FaultModel::InvalidJump), machine }
        } else {
            let step = execute_model(
                machine.core,
                frame.function.code[frame.program_counter as int].instruction,
                frame.program_counter,
                frame.environment,
                module,
            );
            let instruction = frame.function.code[frame.program_counter as int];
            let moved = MachineModel {
                core: step.core,
                frames: machine.frames.drop_last().push(
                    FrameModel {
                        function: frame.function,
                        program_counter: step.program_counter,
                        environment: step.environment,
                        flags: frame.flags,
                    },
                ),
                depth_limit: machine.depth_limit,
                position: Some((instruction.row, instruction.column)),
            };
            match step.result {
                Err(fault) => MachineStep { result: Err(fault), machine: moved },
                Ok(VerdictModel::Continue) => MachineStep {
                    result: Ok(ProgressModel::Running),
                    machine: moved,
                },
                Ok(VerdictModel::Host(request)) => MachineStep {
                    result: Ok(ProgressModel::Host(request)),
                    machine: moved,
                },
                Ok(VerdictModel::Unwind(message)) => MachineStep {
                    result: Err(FaultModel::Unwind(message)),
                    machine: moved,
                },
                Ok(VerdictModel::Stop) => MachineStep {
                    result: Ok(ProgressModel::Stopped),
                    machine: MachineModel {
                        core: step.core,
                        frames: Seq::empty(),
                        depth_limit: machine.depth_limit,
                        position: moved.position,
                    },
                },
                Ok(VerdictModel::Return) => leave_model(moved),
                Ok(VerdictModel::Call(function, prepared)) => enter_model(
                    moved,
                    function,
                    prepared,
                ),
                Ok(VerdictModel::CallRef(function, prepared)) => enter_model(
                    moved,
                    function,
                    prepared,
                ),
            }
        }
    }
}

/// A run of at most `budget` steps: it ends before that where a step
/// fails, asks the host, or ends the run.
pub open spec fn run_model(machine: MachineModel, module: ModuleModel, budget: nat) -> MachineStep
    decreases budget,
{
    if budget == 0 {
        MachineStep { result: Ok(ProgressModel::Running), machine }
    } else {
        let step = machine_step_model(machine, module);
        if step.result == Ok::<ProgressModel, FaultModel>(ProgressModel::Running) {
            run_model(step.machine, module, (budget - 1) as nat)
        } else {
            step
        }
    }
}

/// The models of frames after one more was entered.
pub proof fn lemma_frames_push(frames: Seq<Frame>, frame: Frame)
    ensures
        frames_model(frames.push(frame)) == frames_model(frames).push(frame@),
{
    assert(frames_model(frames.push(frame)) =~= frames_model(frames).push(frame@));
}

/// The models of frames after the last one was left.
pub proof fn lemma_frames_drop_last(frames: Seq<Frame>)
    requires
        frames.len() > 0,
    ensures
        frames_model(frames.drop_last()) == frames_model(frames).drop_last(),
        frames_model(frames).last() == frames.last()@,
{
    assert(frames_model(frames.drop_last()) =~= frames_model(frames).drop_last());
}

impl Machine {
    /// A machine without frames.
    pub fn new(core: Core, depth_limit: usize) -> (r: Machine)
        ensures
            r@.core == core@,
            r@.frames == Seq::<FrameModel>::empty(),
            r@.depth_limit == depth_limit,
            r@.position is None,
    {
        let frames: Vec<Frame> = Vec::new();
        assert(frames_model(frames@) =~= Seq::<FrameModel>::empty());
        Machine { core, frames, depth_limit, position: None }
    }

    /// The number of frames that are entered.
    pub fn depth(&self) -> (r: usize)
        ensures
            r == self@.frames.len(),
    {
        self.frames.len()
    }

    /// Enters a function with prepared bindings: its captured bindings
    /// are merged in, the running frame stays behind with its flags, and
    /// the new frame starts with fresh flags.
    pub fn enter(&mut self, function: Function, prepared: Environment) -> (r: Result<
        Progress,
        Fault,
    >)
        ensures
            progress_of(r) == enter_model(old(self)@, function@, prepared@).result,
            final(self)@ == enter_model(old(self)@, function@, prepared@).machine,
    {
        if self.frames.len() >= self.depth_limit {
            return Err(Fault::StackOverflow);
        }
        let mut environment = prepared;
        environment.extend(function.get_environment());
        match self.frames.pop() {
            Some(running) => {
                proof {
                    lemma_frames_drop_last(old(self).frames@);
                    lemma_frames_push(
                        self.frames@,
                        Frame {
                            function: running.function,
                            program_counter: running.program_counter,
                            environment: running.environment,
                            flags: self.core.flags,
                        },
                    );
                }
                self.frames.push(
                    Frame {
                        function: running.function,
                        program_counter: running.program_counter,
                        environment: running.environment,
                        flags: self.core.flags,
                    },
                );
            },
            None => {},
        }
        self.core.flags = CoreFlags { comparison: Comparison::Unset, negative: false, zero: false };
        let frame = Frame {
            function,
            program_counter: 0,
            environment,
            flags: CoreFlags { comparison: Comparison::Unset, negative: false, zero: false },
        };
        proof {
            lemma_frames_push(self.frames@, frame);
        }
        self.frames.push(frame);
        Ok(Progress::Running)
    }

    /// Leaves the running frame.
    fn leave(&mut self) -> (r: Progress)
        requires
            old(self)@.frames.len() > 0,
        ensures
            Ok::<ProgressModel, FaultModel>(r@) == leave_model(old(self)@).result,
            final(self)@ == leave_model(old(self)@).machine,
    {
        proof {
            lemma_frames_drop_last(self.frames@);
        }
        let _ = self.frames.pop();
        let depth = self.frames.len();
        if depth == 0 {
            Progress::Finished
        } else {
            proof {
                lemma_frames_drop_last(self.frames@);
            }
            self.core.flags = self.frames[depth - 1].flags;
            Progress::Running
        }
    }

    /// One step of the machine.
    pub fn step(&mut self, module: &Module) -> (r: Result<Progress, Fault>)
        ensures
            progress_of(r) == machine_step_model(old(self)@, module@).result,
            final(self)@ == machine_step_model(old(self)@, module@).machine,
    {
        let depth = self.frames.len();
        if depth == 0 {
            return Ok(Progress::Finished);
        }
        proof {
            lemma_frames_drop_last(self.frames@);
        }
        if self.frames[depth - 1].program_counter >= self.frames[depth - 1].function.code.len() {
            return Err(Fault::InvalidJump);
        }
        let frame = self.frames.pop().unwrap();
        let Frame { function, program_counter, environment, flags } = frame;
        let mut program_counter = program_counter;
        let mut environment = environment;
        let at = program_counter;
        self.position = Some((function.code[at].row, function.code[at].column));
        let result = self.core.execute_instruction(
            &function.code[at],
            &mut program_counter,
            &mut environment,
            module,
        );
        let moved = Frame { function, program_counter, environment, flags };
        proof {
            lemma_frames_push(self.frames@, moved);
        }
        self.frames.push(moved);
        match result {
            Err(fault) => Err(fault),
            Ok(InstructionResult::Continue) => Ok(Progress::Running),
            Ok(InstructionResult::Host(request)) => Ok(Progress::Host(request)),
            Ok(InstructionResult::Unwind(message)) => Err(Fault::Unwind(message)),
            Ok(InstructionResult::Stop) => {
                self.frames.clear();
                proof {
                    assert(frames_model(self.frames@) =~= Seq::<FrameModel>::empty());
                }
                Ok(Progress::Stopped)
            },
            Ok(InstructionResult::Return) => Ok(self.leave()),
            Ok(InstructionResult::Call(function, prepared)) => self.enter(function, prepared),
            Ok(InstructionResult::CallRef(function, prepared)) => self.enter(
                function.clone(),
                prepared,
            ),
        }
    }

    /// Runs at most `budget` steps. `Running` is handed back where the
    /// budget ran out before the run ended.
    pub fn run(&mut self, module: &Module, budget: u64) -> (r: Result<Progress, Fault>)
        ensures
            progress_of(r) == run_model(old(self)@, module@, budget as nat).result,
            final(self)@ == run_model(old(self)@, module@, budget as nat).machine,
    {
        let mut remaining = budget;
        while remaining > 0
            invariant
                run_model(old(self)@, module@, budget as nat) == run_model(
                    self@,
                    module@,
                    remaining as nat,
                ),
            decreases remaining,
        {
            match self.step(module) {
                Ok(Progress::Running) => {
                    remaining = remaining - 1;
                },
                other => {
                    return other;
                },
            }
        }
        Ok(Progress::Running)
    }

    /// Takes the answer of the host to the request that the last step
    /// handed out.
    pub fn resume(&mut self, request: &HostRequest, reply: HostReply) -> (r: Result<(), Fault>)
        ensures
            crate::machine::evaluator::resumed_of(r) == crate::machine::evaluator::resume_model(
                old(self)@.core,
                request@,
                reply@,
            ).result,
            final(self)@.core == crate::machine::evaluator::resume_model(
                old(self)@.core,
                request@,
                reply@,
            ).core,
            final(self)@.frames == old(self)@.frames,
            final(self)@.depth_limit == old(self)@.depth_limit,
            final(self)@.position == old(self)@.position,
    {
        self.core.resume(request, reply)
    }
}

/// The name of the function that a run starts with by default.
pub open spec fn entry_name() -> Seq<char> {
    "main"@
}

/// Entering a function with prepared bindings and running at most
/// `budget` steps.
pub open spec fn invoke_model(
    machine: MachineModel,
    module: ModuleModel,
    function: FunctionModel,
    prepared: Map<Seq<char>, ValueModel>,
    budget: nat,
) -> MachineStep {
    let entered = enter_model(machine, function, prepared);
    match entered.result {
        Err(fault) => entered,
        Ok(_) => run_model(entered.machine, module, budget),
    }
}

/// A run from the start of the function that a path names, with nothing
/// bound: `FunctionNotFound` where the module has no such function.
pub open spec fn entry_model(
    machine: MachineModel,
    module: ModuleModel,
    path: Seq<Seq<char>>,
    budget: nat,
) -> MachineStep {
    match function_at(module, path) {
        None => MachineStep { result: Err(FaultModel::FunctionNotFound(path)), machine },
        Some(function) => invoke_model(machine, module, function, Map::empty(), budget),
    }
}

/// Enters a function with prepared bindings and runs at most `budget`
/// steps.
pub fn call_function(
    machine: &mut Machine,
    module: &Module,
    function: &Function,
    environment: Environment,
    budget: u64,
) -> (r: Result<Progress, Fault>)
    ensures
        progress_of(r) == invoke_model(
            old(machine)@,
            module@,
            function@,
            environment@,
            budget as nat,
        ).result,
        final(machine)@ == invoke_model(
            old(machine)@,
            module@,
            function@,
            environment@,
            budget as nat,
        ).machine,
{
    match machine.enter(function.clone(), environment) {
        Err(fault) => Err(fault),
        Ok(_) => machine.run(module, budget),
    }
}

/// Runs the function that a path names with nothing bound, for at most
/// `budget` steps.
pub fn call_entry(machine: &mut Machine, module: &Module, path: &FunctionPath, budget: u64) -> (r:
    Result<Progress, Fault>)
    ensures
        progress_of(r) == entry_model(old(machine)@, module@, path@, budget as nat).result,
        final(machine)@ == entry_model(old(machine)@, module@, path@, budget as nat).machine,
{
    match module.get_function(path) {
        None => Err(Fault::FunctionNotFound(path.clone())),
        Some(function) => call_function(machine, module, function, Environment::new(), budget),
    }
}

/// Runs the function `main` of a module with nothing bound, for at most
/// `budget` steps.
pub fn call_main(machine: &mut Machine, module: &Module, budget: u64) -> (r: Result<
    Progress,
    Fault,
>)
    ensures
        progress_of(r) == entry_model(
            old(machine)@,
            module@,
            seq![entry_name()],
            budget as nat,
        ).result,
        final(machine)@ == entry_model(
            old(machine)@,
            module@,
            seq![entry_name()],
            budget as nat,
        ).machine,
{
    let path = FunctionPath::single("main");
    call_entry(machine, module, &path, budget)
}

} // verus!
