//! What the stack machine does, as mathematics: the state of a run, and the
//! effect of each instruction on it.

use crate::concat::concat_spec;
use crate::equality::eq_spec;
use crate::error::{ErrorView, InvalidBytecode};
use crate::function::{eval_spec, fresh, piped_spec, EvaluationView};
use crate::instruction::{decode_spec, Instruction};
use crate::program::ProgramView;
use crate::tuple::{has_named, is_first_named, EntryView};
use crate::value::{ActionView, EnumTypeView, FunctionView, StructTypeView, ValueView};
use vstd::prelude::*;
use vstd::wrapping::i64_specs::{wrapping_add, wrapping_mul, wrapping_sub};

verus! {

/// The mathematical content of a frame: the program it runs, where it stands
/// in the instruction stream, its captures, and its operand stack with the
/// top last.
pub struct FrameView<H> {
    pub program: ProgramView,
    pub pc: int,
    pub captures: Seq<ValueView<H>>,
    pub stack: Seq<ValueView<H>>,
}

/// The mathematical content of a machine: the frame that is running, and
/// its callers with the outermost first.
pub struct MachineView<H> {
    pub current: FrameView<H>,
    pub callers: Seq<FrameView<H>>,
}

/// The mathematical content of a [`Step`](crate::machine::Step).
pub enum StepView<H> {
    Running(MachineView<H>),
    Finished(ValueView<H>),
    Index { machine: MachineView<H>, host: H, index: ValueView<H> },
    Call { machine: MachineView<H>, host: H, argument: ValueView<H> },
}

impl<H> MachineView<H> {
    /// The number of values on the operand stack.
    pub open spec fn depth(self) -> nat {
        self.current.stack.len()
    }

    /// The value that lies `below` places under the top of the stack.
    pub open spec fn top(self, below: int) -> ValueView<H> {
        self.current.stack[self.current.stack.len() - 1 - below]
    }

    /// The machine with another operand stack.
    pub open spec fn with_stack(self, stack: Seq<ValueView<H>>) -> Self {
        MachineView {
            current: FrameView {
                program: self.current.program,
                pc: self.current.pc,
                captures: self.current.captures,
                stack,
            },
            callers: self.callers,
        }
    }

    /// The machine with `value` pushed.
    pub open spec fn pushed(self, value: ValueView<H>) -> Self {
        self.with_stack(self.current.stack.push(value))
    }

    /// The machine without its `count` topmost values.
    pub open spec fn dropped(self, count: int) -> Self {
        self.with_stack(self.current.stack.subrange(0, self.current.stack.len() - count))
    }

    /// The machine standing at `pc`.
    pub open spec fn at(self, pc: int) -> Self {
        MachineView {
            current: FrameView {
                program: self.current.program,
                pc,
                captures: self.current.captures,
                stack: self.current.stack,
            },
            callers: self.callers,
        }
    }
}

/// The identity that follows `types`. Identities stop at the largest: from
/// there on, declared types are no longer told apart.
pub open spec fn next_type(types: u64) -> u64 {
    if types < u64::MAX {
        (types + 1) as u64
    } else {
        types
    }
}

/// The error of a stack that holds too few values.
pub open spec fn underflow<H>() -> ErrorView<H> {
    ErrorView::InvalidBytecode(InvalidBytecode::StackUnderflow)
}

/// The value that is the function `action` with nothing piped in yet.
pub open spec fn function_of<H>(action: ActionView<H>) -> ValueView<H> {
    ValueView::Function(Box::new(fresh(action)))
}

/// What a tuple holds at `index`: at a position, if `index` is an integer
/// within the tuple, or under a name, if `index` is a string that names an
/// entry; the first entry of that name wins.
pub open spec fn project_spec<H>(entries: Seq<EntryView<H>>, index: ValueView<H>) -> Option<
    ValueView<H>,
> {
    match index {
        ValueView::I64(i) => if 0 <= i < entries.len() {
            Some(entries[i as int].1)
        } else {
            None
        },
        ValueView::String(name) => if has_named(entries, name) {
            Some(entries[choose|i: int| is_first_named(entries, name, i)].1)
        } else {
            None
        },
        _ => None,
    }
}

/// The machine that has just entered block `block_id` of `program` with
/// `captures`, called from the frames `callers`.
pub open spec fn enter_spec<H>(
    callers: Seq<FrameView<H>>,
    program: ProgramView,
    block_id: usize,
    captures: Seq<ValueView<H>>,
) -> Result<MachineView<H>, ErrorView<H>> {
    if block_id < program.blocks.len() {
        Ok(
            MachineView {
                current: FrameView {
                    program,
                    pc: program.blocks[block_id as int].entry as int,
                    captures,
                    stack: Seq::empty(),
                },
                callers,
            },
        )
    } else {
        Err(ErrorView::InvalidBytecode(InvalidBytecode::ProgramOutOfBounds))
    }
}

/// What calling the function `f` comes to on a machine `m` from whose stack
/// callee and argument have been taken: its value is pushed, or its block is
/// entered. A constructor of a variant that its enum type lacks takes no
/// argument at all.
pub open spec fn call_spec<H>(m: MachineView<H>, f: FunctionView<H>) -> Result<
    StepView<H>,
    ErrorView<H>,
> {
    if !f.wf() {
        Err(
            ErrorView::TypeError {
                value: f.argument,
                ty: ValueView::EnumType(f.action->Enum_definition),
            },
        )
    } else {
        match eval_spec(f) {
            Ok(EvaluationView::Value(value)) => Ok(StepView::Running(m.pushed(value))),
            Ok(EvaluationView::Invoke { program, block_id, captures }) => match enter_spec(
                m.callers.push(m.current),
                program,
                block_id,
                captures,
            ) {
                Ok(entered) => Ok(StepView::Running(entered)),
                Err(e) => Err(e),
            },
            Err(e) => Err(e),
        }
    }
}

/// What returning from the running block comes to: its result is the top of
/// its stack, which goes to the caller's stack, or ends the run when there is
/// no caller.
pub open spec fn return_spec<H>(m: MachineView<H>) -> Result<StepView<H>, ErrorView<H>> {
    if m.depth() < 1 {
        Err(underflow())
    } else if m.callers.len() == 0 {
        Ok(StepView::Finished(m.top(0)))
    } else {
        let caller = m.callers.last();
        Ok(
            StepView::Running(
                MachineView {
                    current: FrameView {
                        program: caller.program,
                        pc: caller.pc,
                        captures: caller.captures,
                        stack: caller.stack.push(m.top(0)),
                    },
                    callers: m.callers.drop_last(),
                },
            ),
        )
    }
}

/// What an arithmetic instruction makes of two integers. Arithmetic wraps
/// around at the ends of the 64-bit range.
pub open spec fn arithmetic_spec(instruction: Instruction, l: i64, r: i64) -> i64 {
    match instruction {
        Instruction::Add => wrapping_add(l, r),
        Instruction::Subtract => wrapping_sub(l, r),
        _ => wrapping_mul(l, r),
    }
}

/// The value that an instruction pushes without looking at the machine.
pub open spec fn constant_spec<H>(instruction: Instruction) -> Option<ValueView<H>> {
    match instruction {
        Instruction::Unit => Some(ValueView::Unit),
        Instruction::True => Some(ValueView::Bool(true)),
        Instruction::False => Some(ValueView::Bool(false)),
        Instruction::Integer(n) => Some(ValueView::I64(n)),
        Instruction::OptionSome => Some(function_of(ActionView::OptionSome)),
        Instruction::OptionNone => Some(function_of(ActionView::OptionNone)),
        Instruction::Any => Some(ValueView::Any),
        Instruction::I64Type => Some(ValueView::I64Type),
        Instruction::BoolType => Some(ValueView::BoolType),
        Instruction::StringType => Some(ValueView::StringType),
        Instruction::Option => Some(ValueView::Option),
        Instruction::Type => Some(ValueView::Type),
        _ => None,
    }
}

/// What `instruction` does to a machine `m` that already stands behind it.
/// A type that the instruction declares gets the identity `types`.
pub open spec fn execute_spec<H>(m: MachineView<H>, types: u64, instruction: Instruction) -> Result<
    StepView<H>,
    ErrorView<H>,
> {
    let frame = m.current;
    match instruction {
        Instruction::String(id) => if id < frame.program.strings.len() {
            Ok(StepView::Running(m.pushed(ValueView::String(frame.program.strings[id as int]))))
        } else {
            Err(ErrorView::InvalidBytecode(InvalidBytecode::UnexpectedStringId))
        },
        Instruction::Capture(index) => if index < frame.captures.len() {
            Ok(StepView::Running(m.pushed(frame.captures[index as int])))
        } else {
            Err(ErrorView::InvalidBytecode(InvalidBytecode::StackOutOfBounds))
        },
        Instruction::Pop => if m.depth() < 1 {
            Err(underflow())
        } else {
            Ok(StepView::Running(m.dropped(1)))
        },
        Instruction::Equal => if m.depth() < 2 {
            Err(underflow())
        } else {
            match eq_spec(m.top(1), m.top(0)) {
                Ok(equal) => Ok(StepView::Running(m.dropped(2).pushed(ValueView::Bool(equal)))),
                Err(e) => Err(e),
            }
        },
        Instruction::Concat => if m.depth() < 2 {
            Err(underflow())
        } else {
            Ok(StepView::Running(m.dropped(2).pushed(concat_spec(m.top(1), m.top(0)))))
        },
        Instruction::Name(id) => if m.depth() < 1 {
            Err(underflow())
        } else if id < frame.program.strings.len() {
            Ok(
                StepView::Running(
                    m.dropped(1).pushed(
                        ValueView::Tuple(seq![(Some(frame.program.strings[id as int]), m.top(0))]),
                    ),
                ),
            )
        } else {
            Err(ErrorView::InvalidBytecode(InvalidBytecode::UnexpectedStringId))
        },
        Instruction::Index => if m.depth() < 2 {
            Err(underflow())
        } else {
            match m.top(1) {
                ValueView::Borrow(host) => Ok(
                    StepView::Index { machine: m.dropped(2), host, index: m.top(0) },
                ),
                ValueView::Tuple(entries) => match project_spec(entries, m.top(0)) {
                    Some(found) => Ok(StepView::Running(m.dropped(2).pushed(found))),
                    None => Err(ErrorView::IndexNotFound { index: m.top(0), container: m.top(1) }),
                },
                _ => Err(ErrorView::IndexNotFound { index: m.top(0), container: m.top(1) }),
            }
        },
        Instruction::Closure(block) => if block < frame.program.blocks.len() {
            let count = frame.program.blocks[block as int].captures;
            if m.depth() < count {
                Err(underflow())
            } else {
                Ok(
                    StepView::Running(
                        m.dropped(count as int).pushed(
                            function_of(
                                ActionView::Block {
                                    program: frame.program,
                                    block_id: block as usize,
                                    captures: frame.stack.subrange(
                                        frame.stack.len() - count,
                                        frame.stack.len() as int,
                                    ),
                                },
                            ),
                        ),
                    ),
                )
            }
        } else {
            Err(ErrorView::InvalidBytecode(InvalidBytecode::ProgramOutOfBounds))
        },
        Instruction::Variant(index) => if m.depth() < 1 {
            Err(underflow())
        } else {
            match m.top(0) {
                ValueView::EnumType(definition) => if index < definition.variants.len() {
                    Ok(
                        StepView::Running(
                            m.dropped(1).pushed(
                                function_of(
                                    ActionView::Enum { variant: index as usize, definition },
                                ),
                            ),
                        ),
                    )
                } else {
                    Err(
                        ErrorView::IndexNotFound {
                            index: ValueView::I64(index as i64),
                            container: m.top(0),
                        },
                    )
                },
                _ => Err(ErrorView::ExpectedEnumType(m.top(0))),
            }
        },
        Instruction::Call => if m.depth() < 2 {
            Err(underflow())
        } else {
            match m.top(1) {
                ValueView::Function(f) => call_spec(m.dropped(2), piped_spec(*f, m.top(0))),
                ValueView::Borrow(host) => Ok(
                    StepView::Call { machine: m.dropped(2), host, argument: m.top(0) },
                ),
                _ => Err(ErrorView::ExpectedFunction(m.top(1))),
            }
        },
        Instruction::Pipe => if m.depth() < 2 {
            Err(underflow())
        } else {
            match m.top(1) {
                ValueView::Function(f) => Ok(
                    StepView::Running(
                        m.dropped(2).pushed(
                            ValueView::Function(Box::new(piped_spec(*f, m.top(0)))),
                        ),
                    ),
                ),
                _ => Err(ErrorView::ExpectedFunction(m.top(1))),
            }
        },
        Instruction::EnumType => if m.depth() < 1 {
            Err(underflow())
        } else {
            match m.top(0) {
                ValueView::Tuple(variants) => Ok(
                    StepView::Running(
                        m.dropped(1).pushed(ValueView::EnumType(EnumTypeView { id: types, variants })),
                    ),
                ),
                ValueView::Unit => Ok(
                    StepView::Running(
                        m.dropped(1).pushed(
                            ValueView::EnumType(EnumTypeView { id: types, variants: Seq::empty() }),
                        ),
                    ),
                ),
                _ => Err(ErrorView::ExpectedTuple(m.top(0))),
            }
        },
        Instruction::StructType => if m.depth() < 1 {
            Err(underflow())
        } else {
            Ok(
                StepView::Running(
                    m.dropped(1).pushed(
                        ValueView::StructType(Box::new(StructTypeView { id: types, inner: m.top(0) })),
                    ),
                ),
            )
        },
        Instruction::Return => return_spec(m),
        Instruction::Add | Instruction::Subtract | Instruction::Multiply => if m.depth() < 2 {
            Err(underflow())
        } else {
            match (m.top(1), m.top(0)) {
                (ValueView::I64(l), ValueView::I64(r)) => Ok(
                    StepView::Running(
                        m.dropped(2).pushed(ValueView::I64(arithmetic_spec(instruction, l, r))),
                    ),
                ),
                _ => Err(ErrorView::ExpectedNumbers(m.top(1), m.top(0))),
            }
        },
        _ => Ok(StepView::Running(m.pushed(constant_spec(instruction)->Some_0))),
    }
}

/// What one step does to the machine `m`: a block that stands right at the
/// end of the instruction stream returns, one that stands beyond it has run
/// out of the program, and otherwise the instruction at hand is read and
/// executed. A type that the step declares gets the identity `types`.
pub open spec fn step_spec<H>(m: MachineView<H>, types: u64) -> Result<StepView<H>, ErrorView<H>> {
    let code = m.current.program.code;
    let pc = m.current.pc;
    if pc > code.len() {
        Err(ErrorView::InvalidBytecode(InvalidBytecode::ProgramOutOfBounds))
    } else if pc == code.len() {
        return_spec(m)
    } else {
        match decode_spec(code, pc) {
            Ok((instruction, next)) => execute_spec(m.at(next), types, instruction),
            Err(e) => Err(ErrorView::InvalidBytecode(e)),
        }
    }
}

/// Whether `instruction` declares a type.
pub open spec fn declares(instruction: Instruction) -> bool {
    instruction is EnumType || instruction is StructType
}

/// The identity that the type declared next will get, after one step of `m`
/// during which it was `types`: the following one if the step declared a
/// type, the same one if not.
pub open spec fn types_spec<H>(m: MachineView<H>, types: u64) -> u64 {
    let code = m.current.program.code;
    let pc = m.current.pc;
    if 0 <= pc < code.len() && step_spec(m, types) is Ok && (decode_spec(code, pc) matches Ok(
        (instruction, _),
    ) && declares(instruction)) {
        next_type(types)
    } else {
        types
    }
}

/// What running `m` for at most `steps` instructions comes to, and the
/// identity that the type declared next will get: the run stops early when
/// the outermost block returns, when the host is asked for, and on an error.
pub open spec fn run_spec<H>(m: MachineView<H>, types: u64, steps: nat) -> (
    Result<StepView<H>, ErrorView<H>>,
    u64,
)
    decreases steps,
{
    if steps == 0 {
        (Ok(StepView::Running(m)), types)
    } else {
        match step_spec(m, types) {
            Ok(StepView::Running(next)) => run_spec(next, types_spec(m, types), (steps - 1) as nat),
            outcome => (outcome, types_spec(m, types)),
        }
    }
}

} // verus!
