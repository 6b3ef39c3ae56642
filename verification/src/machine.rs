//! The stack machine that runs bytecode blocks.
//!
//! A machine is a chain of frames, one per block that is being run, each with
//! its own operand stack and captures. [`Machine::step`] runs one instruction
//! and says how to go on; [`Machine::run`] runs until something has to be
//! decided outside: the embedder serves the host objects that the program
//! asks for, and resumes the machine.

use crate::error::{result_view, Error, ErrorView, InvalidBytecode};
use crate::function::Evaluation;
use crate::instruction::{decode, Instruction};
use crate::program::Program;
use crate::semantics::{
    call_spec, constant_spec, declares, enter_spec, execute_spec, function_of, next_type,
    project_spec, return_spec, run_spec, step_spec, types_spec, underflow, FrameView, MachineView,
    StepView,
};
use crate::tuple::{entries_view, EntryView, Tuple};
use crate::value::{
    values_view, EnumType, Function, FunctionAction, Storage, StructType, Value, ValueView,
};
use std::rc::Rc;
use vstd::prelude::*;

verus! {

/// One block that is being run.
#[derive(Debug)]
struct Frame<H> {
    program: Program,
    pc: usize,
    captures: Vec<Value<H>>,
    stack: Vec<Value<H>>,
}

/// A stack machine in the middle of a run.
#[derive(Debug)]
pub struct Machine<H> {
    current: Frame<H>,
    callers: Vec<Frame<H>>,
}

/// How a machine goes on after one instruction.
#[derive(Debug)]
pub enum Step<H> {
    /// There is more to run.
    Running(Machine<H>),
    /// The outermost block has returned this value.
    Finished(Value<H>),
    /// The program indexes a host object: the embedder asks `host` for what
    /// it has at `index` and resumes `machine` with it.
    Index { machine: Machine<H>, host: H, index: Value<H> },
    /// The program calls a host object: the embedder calls `host` with
    /// `argument` and resumes `machine` with what it returns.
    Call { machine: Machine<H>, host: H, argument: Value<H> },
}

impl<H> View for Frame<H> {
    type V = FrameView<H>;

    closed spec fn view(&self) -> FrameView<H> {
        FrameView {
            program: self.program@,
            pc: self.pc as int,
            captures: values_view(self.captures@),
            stack: values_view(self.stack@),
        }
    }
}

impl<H> View for Machine<H> {
    type V = MachineView<H>;

    closed spec fn view(&self) -> MachineView<H> {
        MachineView {
            current: self.current@,
            callers: frames_view(self.callers@),
        }
    }
}

impl<H> View for Step<H> {
    type V = StepView<H>;

    open spec fn view(&self) -> StepView<H> {
        match *self {
            Step::Running(machine) => StepView::Running(machine@),
            Step::Finished(value) => StepView::Finished(value@),
            Step::Index { machine, host, index } => StepView::Index {
                machine: machine@,
                host,
                index: index@,
            },
            Step::Call { machine, host, argument } => StepView::Call {
                machine: machine@,
                host,
                argument: argument@,
            },
        }
    }
}

/// The mathematical content of a chain of frames, frame by frame.
spec fn frames_view<H>(frames: Seq<Frame<H>>) -> Seq<FrameView<H>> {
    Seq::new(frames.len(), |i: int| frames[i]@)
}

impl<H: Copy> Machine<H> {
    /// A machine about to run block `block_id` of `program` with `captures`.
    /// A block that the program does not have lies out of the program.
    pub fn new(program: Program, block_id: usize, captures: Vec<Value<H>>) -> (result: Result<
        Self,
        Error<H>,
    >)
        ensures
            result_view(result) == enter_spec(
                Seq::empty(),
                program@,
                block_id,
                values_view(captures@),
            ),
    {
        let callers: Vec<Frame<H>> = Vec::new();
        proof {
            assert(frames_view(callers@) =~= Seq::<FrameView<H>>::empty());
        }
        Self::enter(callers, program, block_id, captures)
    }

    /// The machine with `value` on its stack: how a run goes on once the
    /// embedder has served a host object.
    pub fn resume(self, value: Value<H>) -> (machine: Self)
        ensures
            machine@ == self@.pushed(value@),
    {
        let mut machine = self;
        machine.push(value);
        machine
    }

    fn enter(
        callers: Vec<Frame<H>>,
        program: Program,
        block_id: usize,
        captures: Vec<Value<H>>,
    ) -> (result: Result<Self, Error<H>>)
        ensures
            result_view(result) == enter_spec(
                frames_view(callers@),
                program@,
                block_id,
                values_view(captures@),
            ),
    {
        if block_id < program.blocks().len() {
            let pc = program.blocks()[block_id].entry;
            let stack: Vec<Value<H>> = Vec::new();
            proof {
                assert(values_view(stack@) =~= Seq::<ValueView<H>>::empty());
            }
            Ok(Machine { current: Frame { program, pc, captures, stack }, callers })
        } else {
            Err(Error::InvalidBytecode(InvalidBytecode::ProgramOutOfBounds))
        }
    }

    fn push(&mut self, value: Value<H>)
        ensures
            final(self)@ == old(self)@.pushed(value@),
    {
        let ghost before = self.current.stack@;
        self.current.stack.push(value);
        proof {
            assert(values_view(self.current.stack@) =~= values_view(before).push(value@));
        }
    }

    fn pop(&mut self) -> (result: Result<Value<H>, Error<H>>)
        ensures
            match result {
                Ok(value) => old(self)@.depth() >= 1 && value@ == old(self)@.top(0) && final(self)@
                    == old(self)@.dropped(1),
                Err(e) => old(self)@.depth() < 1 && e@ == underflow::<H>(),
            },
    {
        let ghost before = self.current.stack@;
        match self.current.stack.pop() {
            Some(value) => {
                proof {
                    assert(values_view(self.current.stack@) =~= values_view(before).subrange(
                        0,
                        before.len() - 1,
                    ));
                }
                Ok(value)
            },
            None => Err(Error::InvalidBytecode(InvalidBytecode::StackUnderflow)),
        }
    }

    /// Takes the two topmost values: the lower one first.
    fn pop_two(&mut self) -> (result: Result<(Value<H>, Value<H>), Error<H>>)
        ensures
            match result {
                Ok((lower, upper)) => old(self)@.depth() >= 2 && lower@ == old(self)@.top(1)
                    && upper@ == old(self)@.top(0) && final(self)@ == old(self)@.dropped(2),
                Err(e) => old(self)@.depth() < 2 && e@ == underflow::<H>(),
            },
    {
        let upper = match self.pop() {
            Ok(value) => value,
            Err(e) => {
                return Err(e);
            },
        };
        let lower = match self.pop() {
            Ok(value) => value,
            Err(e) => {
                return Err(e);
            },
        };
        proof {
            assert(old(self)@.dropped(1).dropped(1).current.stack =~= old(self)@.dropped(
                2,
            ).current.stack);
        }
        Ok((lower, upper))
    }

    /// The identity that follows `types`.
    fn advance(types: &mut u64)
        ensures
            *final(types) == next_type(*old(types)),
    {
        if *types < u64::MAX {
            *types = *types + 1;
        }
    }

    /// A fresh function value.
    fn function(action: FunctionAction<H>) -> (value: Value<H>)
        ensures
            value@ == function_of(action@),
    {
        let argument = Value { storage: Storage::Unit };
        assert(argument@ == ValueView::<H>::Unit);
        Value { storage: Storage::Function(Rc::new(Function { action, argument })) }
    }

    /// The shared string with the given id.
    fn string(&self, id: u32) -> (result: Result<Rc<str>, Error<H>>)
        ensures
            match result {
                Ok(s) => id < self@.current.program.strings.len() && (*s)@
                    == self@.current.program.strings[id as int],
                Err(e) => id >= self@.current.program.strings.len() && e@
                    == ErrorView::<H>::InvalidBytecode(InvalidBytecode::UnexpectedStringId),
            },
    {
        match self.current.program.string(id as usize) {
            Some(s) => Ok(s.clone()),
            None => Err(Error::InvalidBytecode(InvalidBytecode::UnexpectedStringId)),
        }
    }

    /// Calls `function`; callee and argument have been taken from the stack.
    fn call(self, function: Function<H>) -> (result: Result<Step<H>, Error<H>>)
        ensures
            result_view(result) == call_spec(self@, function@),
    {
        match &function.action {
            FunctionAction::Enum { variant, definition } => {
                if *variant >= definition.variants.len() {
                    let ty = Value { storage: Storage::EnumType(definition.clone()) };
                    return Err(Error::TypeError { value: function.argument, ty });
                }
            },
            _ => {},
        }
        match function.eval() {
            Ok(Evaluation::Value(value)) => {
                let mut machine = self;
                machine.push(value);
                Ok(Step::Running(machine))
            },
            Ok(Evaluation::Invoke { program, block_id, captures }) => {
                let Machine { current, callers } = self;
                let mut callers = callers;
                let ghost before = callers@;
                callers.push(current);
                proof {
                    assert(frames_view(callers@) =~= frames_view(before).push(current@));
                }
                match Self::enter(callers, program, block_id, captures) {
                    Ok(machine) => Ok(Step::Running(machine)),
                    Err(e) => Err(e),
                }
            },
            Err(e) => Err(e),
        }
    }

    /// What `tuple` holds at `index`.
    fn project(tuple: &Tuple<H>, index: &Value<H>) -> (found: Option<Value<H>>)
        ensures
            match found {
                Some(value) => project_spec(tuple@, index@) == Some(value@),
                None => project_spec(tuple@, index@) is None,
            },
    {
        match &index.storage {
            Storage::I64(i) => {
                if *i >= 0 && (*i as u64) < tuple.len() as u64 {
                    match tuple.value(*i as usize) {
                        Some(value) => Some(value.clone()),
                        None => None,
                    }
                } else {
                    None
                }
            },
            Storage::String(name) => {
                match tuple.find_value(&**name) {
                    Some(value) => Some(value.clone()),
                    None => None,
                }
            },
            _ => None,
        }
    }

    /// Pushes the string with the given id.
    fn run_string(self, id: u32) -> (result: Result<Step<H>, Error<H>>)
        ensures
            forall|types: u64| result_view(result) == #[trigger] execute_spec(self@, types, Instruction::String(id)),
    {
        let mut machine = self;
        match machine.string(id) {
            Ok(s) => {
                machine.push(Value { storage: Storage::String(s) });
                Ok(Step::Running(machine))
            },
            Err(e) => Err(e),
        }
    }

    /// Pushes a copy of a capture.
    fn run_capture(self, index: u32) -> (result: Result<Step<H>, Error<H>>)
        ensures
            forall|types: u64| result_view(result) == #[trigger] execute_spec(self@, types, Instruction::Capture(index)),
    {
        let mut machine = self;
        if (index as usize) < machine.current.captures.len() {
            let value = machine.current.captures[index as usize].clone();
            machine.push(value);
            Ok(Step::Running(machine))
        } else {
            Err(Error::InvalidBytecode(InvalidBytecode::StackOutOfBounds))
        }
    }

    /// Drops the top of the stack.
    fn run_pop(self) -> (result: Result<Step<H>, Error<H>>)
        ensures
            forall|types: u64| result_view(result) == #[trigger] execute_spec(self@, types, Instruction::Pop),
    {
        let mut machine = self;
        match machine.pop() {
            Ok(_) => Ok(Step::Running(machine)),
            Err(e) => Err(e),
        }
    }

    /// Compares the two topmost values.
    fn run_equal(self) -> (result: Result<Step<H>, Error<H>>)
        ensures
            forall|types: u64| result_view(result) == #[trigger] execute_spec(self@, types, Instruction::Equal),
    {
        let mut machine = self;
        match machine.pop_two() {
            Ok((l, r)) => match l.eq(r) {
                Ok(equal) => {
                    machine.push(Value { storage: Storage::Bool(equal) });
                    Ok(Step::Running(machine))
                },
                Err(e) => Err(e),
            },
            Err(e) => Err(e),
        }
    }

    /// Concatenates the two topmost values.
    fn run_concat(self) -> (result: Result<Step<H>, Error<H>>)
        ensures
            forall|types: u64| result_view(result) == #[trigger] execute_spec(self@, types, Instruction::Concat),
    {
        let mut machine = self;
        match machine.pop_two() {
            Ok((l, r)) => {
                machine.push(l.concat(r));
                Ok(Step::Running(machine))
            },
            Err(e) => Err(e),
        }
    }

    /// Wraps the top of the stack into a tuple of one named entry.
    fn run_name(self, id: u32) -> (result: Result<Step<H>, Error<H>>)
        ensures
            forall|types: u64| result_view(result) == #[trigger] execute_spec(self@, types, Instruction::Name(id)),
    {
        let mut machine = self;
        let value = match machine.pop() {
            Ok(value) => value,
            Err(e) => {
                return Err(e);
            },
        };
        match machine.string(id) {
            Ok(name) => {
                let tuple = Tuple::from((name, value));
                machine.push(Value { storage: Storage::Tuple(tuple) });
                Ok(Step::Running(machine))
            },
            Err(e) => Err(e),
        }
    }

    /// Looks an index up in a container.
    fn run_index(self) -> (result: Result<Step<H>, Error<H>>)
        ensures
            forall|types: u64| result_view(result) == #[trigger] execute_spec(self@, types, Instruction::Index),
    {
        let mut machine = self;
        match machine.pop_two() {
            Ok((container, index)) => {
                let found = match &container.storage {
                    Storage::Borrow(host) => {
                        return Ok(Step::Index { machine, host: *host, index });
                    },
                    Storage::Tuple(tuple) => Self::project(tuple, &index),
                    _ => None,
                };
                match found {
                    Some(value) => {
                        machine.push(value);
                        Ok(Step::Running(machine))
                    },
                    None => Err(Error::IndexNotFound { index, container }),
                }
            },
            Err(e) => Err(e),
        }
    }

    /// Makes a function of a block and its captures.
    fn run_closure(self, block: u32) -> (result: Result<Step<H>, Error<H>>)
        ensures
            forall|types: u64| result_view(result) == #[trigger] execute_spec(self@, types, Instruction::Closure(block)),
    {
        let mut machine = self;
        let program = machine.current.program.clone();
        if (block as usize) < program.blocks().len() {
            let count = program.blocks()[block as usize].captures;
            let depth = machine.current.stack.len();
            if depth < count {
                return Err(Error::InvalidBytecode(InvalidBytecode::StackUnderflow));
            }
            let ghost before = machine.current.stack@;
            let captures = machine.current.stack.split_off(depth - count);
            proof {
                assert(values_view(captures@) =~= values_view(before).subrange(
                    depth - count,
                    depth as int,
                ));
                assert(values_view(machine.current.stack@) =~= values_view(
                    before,
                ).subrange(0, depth - count));
            }
            machine.push(
                Self::function(
                    FunctionAction::Block { program, block_id: block as usize, captures },
                ),
            );
            Ok(Step::Running(machine))
        } else {
            Err(Error::InvalidBytecode(InvalidBytecode::ProgramOutOfBounds))
        }
    }

    /// Makes the constructor of a variant of an enum type.
    fn run_variant(self, index: u32) -> (result: Result<Step<H>, Error<H>>)
        ensures
            forall|types: u64| result_view(result) == #[trigger] execute_spec(self@, types, Instruction::Variant(index)),
    {
        let mut machine = self;
        let ty = match machine.pop() {
            Ok(value) => value,
            Err(e) => {
                return Err(e);
            },
        };
        match ty.storage {
            Storage::EnumType(definition) => {
                if (index as usize) < definition.variants.len() {
                    machine.push(
                        Self::function(
                            FunctionAction::Enum { variant: index as usize, definition },
                        ),
                    );
                    Ok(Step::Running(machine))
                } else {
                    Err(
                        Error::IndexNotFound {
                            index: Value { storage: Storage::I64(index as i64) },
                            container: Value { storage: Storage::EnumType(definition) },
                        },
                    )
                }
            },
            other => Err(Error::ExpectedEnumType(Value { storage: other })),
        }
    }

    /// Calls a function or a host object.
    fn run_call(self) -> (result: Result<Step<H>, Error<H>>)
        ensures
            forall|types: u64| result_view(result) == #[trigger] execute_spec(self@, types, Instruction::Call),
    {
        let mut machine = self;
        match machine.pop_two() {
            Ok((callee, argument)) => match callee.storage {
                Storage::Function(shared) => {
                    let function = match Rc::try_unwrap(shared) {
                        Ok(function) => function,
                        Err(shared) => (*shared).clone(),
                    };
                    machine.call(function.piped(argument))
                },
                Storage::Borrow(host) => Ok(Step::Call { machine, host, argument }),
                other => Err(Error::ExpectedFunction(Value { storage: other })),
            },
            Err(e) => Err(e),
        }
    }

    /// Pipes an argument into a function.
    fn run_pipe(self) -> (result: Result<Step<H>, Error<H>>)
        ensures
            forall|types: u64| result_view(result) == #[trigger] execute_spec(self@, types, Instruction::Pipe),
    {
        let mut machine = self;
        match machine.pop_two() {
            Ok((callee, argument)) => match callee.storage {
                Storage::Function(shared) => {
                    let function = match Rc::try_unwrap(shared) {
                        Ok(function) => function,
                        Err(shared) => (*shared).clone(),
                    };
                    let piped = function.piped(argument);
                    machine.push(Value { storage: Storage::Function(Rc::new(piped)) });
                    Ok(Step::Running(machine))
                },
                other => Err(Error::ExpectedFunction(Value { storage: other })),
            },
            Err(e) => Err(e),
        }
    }

    /// Declares an enum type.
    fn run_enum_type(self, types: &mut u64) -> (result: Result<Step<H>, Error<H>>)
        ensures
            result_view(result) == execute_spec(self@, *old(types), Instruction::EnumType),
            *final(types) == if result is Ok {
                next_type(*old(types))
            } else {
                *old(types)
            },
    {
        let mut machine = self;
        let variants = match machine.pop() {
            Ok(value) => value,
            Err(e) => {
                return Err(e);
            },
        };
        match variants.into_tuple_or_unit() {
            Ok(variants) => {
                let variants = match variants {
                    Some(tuple) => tuple,
                    None => {
                        let empty: Vec<(Option<Rc<str>>, Value<H>)> = Vec::new();
                        proof {
                            assert(entries_view(empty@) =~= Seq::<EntryView<H>>::empty());
                        }
                        Tuple::from(empty)
                    },
                };
                let id = *types;
                machine.push(
                    Value { storage: Storage::EnumType(Rc::new(EnumType { id, variants })) },
                );
                Self::advance(types);
                Ok(Step::Running(machine))
            },
            Err(e) => Err(e),
        }
    }

    /// Declares a struct type.
    fn run_struct_type(self, types: &mut u64) -> (result: Result<Step<H>, Error<H>>)
        ensures
            result_view(result) == execute_spec(self@, *old(types), Instruction::StructType),
            *final(types) == if result is Ok {
                next_type(*old(types))
            } else {
                *old(types)
            },
    {
        let mut machine = self;
        match machine.pop() {
            Ok(inner) => {
                let id = *types;
                machine.push(
                    Value { storage: Storage::StructType(Rc::new(StructType { id, inner })) },
                );
                Self::advance(types);
                Ok(Step::Running(machine))
            },
            Err(e) => Err(e),
        }
    }

    /// Replaces two integers by what an arithmetic instruction makes of them.
    fn run_arithmetic(self, instruction: Instruction) -> (result: Result<Step<H>, Error<H>>)
        requires
            instruction is Add || instruction is Subtract || instruction is Multiply,
        ensures
            forall|types: u64| result_view(result) == #[trigger] execute_spec(self@, types, instruction),
    {
        let mut machine = self;
        match machine.pop_two() {
            Ok((l, r)) => match (&l.storage, &r.storage) {
                (Storage::I64(a), Storage::I64(b)) => {
                    let outcome = match instruction {
                        Instruction::Add => a.wrapping_add(*b),
                        Instruction::Subtract => a.wrapping_sub(*b),
                        _ => a.wrapping_mul(*b),
                    };
                    machine.push(Value { storage: Storage::I64(outcome) });
                    Ok(Step::Running(machine))
                },
                _ => Err(Error::ExpectedNumbers(l, r)),
            },
            Err(e) => Err(e),
        }
    }

    /// Executes `instruction`; the machine already stands behind it.
    fn execute(self, instruction: Instruction, types: &mut u64) -> (result: Result<
        Step<H>,
        Error<H>,
    >)
        ensures
            result_view(result) == execute_spec(self@, *old(types), instruction),
            *final(types) == if result is Ok && declares(instruction) {
                next_type(*old(types))
            } else {
                *old(types)
            },
    {
        match instruction {
            Instruction::String(id) => self.run_string(id),
            Instruction::Capture(index) => self.run_capture(index),
            Instruction::Pop => self.run_pop(),
            Instruction::Equal => self.run_equal(),
            Instruction::Concat => self.run_concat(),
            Instruction::Name(id) => self.run_name(id),
            Instruction::Index => self.run_index(),
            Instruction::Closure(block) => self.run_closure(block),
            Instruction::Variant(index) => self.run_variant(index),
            Instruction::Call => self.run_call(),
            Instruction::Pipe => self.run_pipe(),
            Instruction::EnumType => self.run_enum_type(types),
            Instruction::StructType => self.run_struct_type(types),
            Instruction::Return => self.leave(),
            Instruction::Add | Instruction::Subtract | Instruction::Multiply => self.run_arithmetic(
                instruction,
            ),
            Instruction::Unit => self.constant(Storage::Unit, instruction),
            Instruction::True => self.constant(Storage::Bool(true), instruction),
            Instruction::False => self.constant(Storage::Bool(false), instruction),
            Instruction::Integer(n) => self.constant(Storage::I64(n), instruction),
            Instruction::OptionSome => self.constant(
                Self::function(FunctionAction::OptionSome).storage,
                instruction,
            ),
            Instruction::OptionNone => self.constant(
                Self::function(FunctionAction::OptionNone).storage,
                instruction,
            ),
            Instruction::Any => self.constant(Storage::Any, instruction),
            Instruction::I64Type => self.constant(Storage::I64Type, instruction),
            Instruction::BoolType => self.constant(Storage::BoolType, instruction),
            Instruction::StringType => self.constant(Storage::StringType, instruction),
            Instruction::Option => self.constant(Storage::Option, instruction),
            Instruction::Type => self.constant(Storage::Type, instruction),
        }
    }

    /// Pushes the constant that `instruction` stands for.
    fn constant(self, storage: Storage<H>, instruction: Instruction) -> (result: Result<
        Step<H>,
        Error<H>,
    >)
        requires
            constant_spec::<H>(instruction) == Some((Value { storage })@),
        ensures
            result_view(result) == Ok::<StepView<H>, ErrorView<H>>(
                StepView::Running(self@.pushed((Value { storage })@)),
            ),
    {
        let mut machine = self;
        machine.push(Value { storage });
        Ok(Step::Running(machine))
    }

    /// Runs one instruction. A type that the instruction declares gets the
    /// identity `types`, which then moves on to the next one.
    pub fn step(self, types: &mut u64) -> (result: Result<Step<H>, Error<H>>)
        ensures
            result_view(result) == step_spec(self@, *old(types)),
            *final(types) == types_spec(self@, *old(types)),
    {
        let length = self.current.program.code().len();
        let pc = self.current.pc;
        if pc > length {
            Err(Error::InvalidBytecode(InvalidBytecode::ProgramOutOfBounds))
        } else if pc == length {
            self.leave()
        } else {
            match decode(self.current.program.code().as_slice(), pc) {
                Ok((instruction, next)) => {
                    let mut machine = self;
                    machine.current.pc = next;
                    machine.execute(instruction, types)
                },
                Err(e) => Err(Error::InvalidBytecode(e)),
            }
        }
    }

    /// Runs at most `steps` instructions: until the outermost block returns,
    /// the host is asked for, an error is raised, or the steps are used up.
    pub fn run(self, steps: u64, types: &mut u64) -> (result: Result<Step<H>, Error<H>>)
        ensures
            (result_view(result), *final(types)) == run_spec(self@, *old(types), steps as nat),
    {
        let mut machine = self;
        let mut left = steps;
        while left > 0
            invariant
                run_spec(self@, *old(types), steps as nat) == run_spec(machine@, *types, left as nat),
            decreases left,
        {
            match machine.step(types) {
                Ok(Step::Running(next)) => {
                    machine = next;
                },
                outcome => {
                    return outcome;
                },
            }
            left = left - 1;
        }
        Ok(Step::Running(machine))
    }

    /// Returns from the running block.
    fn leave(self) -> (result: Result<Step<H>, Error<H>>)
        ensures
            result_view(result) == return_spec(self@),
    {
        let mut machine = self;
        let value = match machine.pop() {
            Ok(value) => value,
            Err(e) => {
                return Err(e);
            },
        };
        let Machine { current: _, callers } = machine;
        let mut callers = callers;
        let ghost before = callers@;
        match callers.pop() {
            Some(caller) => {
                let mut caller = caller;
                let ghost stack = caller.stack@;
                caller.stack.push(value);
                proof {
                    assert(values_view(caller.stack@) =~= values_view(stack).push(value@));
                    assert(frames_view(callers@) =~= frames_view(before).drop_last());
                }
                Ok(Step::Running(Machine { current: caller, callers }))
            },
            None => Ok(Step::Finished(value)),
        }
    }
}

} // verus!
