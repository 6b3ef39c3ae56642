//! The instruction set, and how instructions are read from the instruction
//! stream.
//!
//! An instruction is one opcode byte, followed for some opcodes by one
//! operand, least significant byte first: 64 bits for `Integer`, 32 bits for
//! the others.
//!
//! | opcode | instruction | operand |
//! |-------:|-------------|---------|
//! | 0 | `Unit` | |
//! | 1 | `True` | |
//! | 2 | `False` | |
//! | 3 | `Integer` | the integer |
//! | 4 | `String` | string id |
//! | 5 | `Capture` | capture index |
//! | 6 | `Pop` | |
//! | 7 | `Equal` | |
//! | 8 | `Concat` | |
//! | 9 | `Name` | string id |
//! | 10 | `Index` | |
//! | 11 | `Closure` | block id |
//! | 12 | `Variant` | variant index |
//! | 13 | `OptionSome` | |
//! | 14 | `OptionNone` | |
//! | 15 | `Call` | |
//! | 16 | `Pipe` | |
//! | 17 | `EnumType` | |
//! | 18 | `StructType` | |
//! | 19 | `Return` | |
//! | 20 | `Any` | |
//! | 21 | `I64Type` | |
//! | 22 | `BoolType` | |
//! | 23 | `StringType` | |
//! | 24 | `Option` | |
//! | 25 | `Type` | |
//! | 26 | `Add` | |
//! | 27 | `Subtract` | |
//! | 28 | `Multiply` | |

use crate::error::InvalidBytecode;
use crate::program::{le_u32, read_u32, u32_at};
use vstd::prelude::*;

verus! {

/// One instruction of the stack machine. What each does is said by
/// [`execute_spec`](crate::semantics::execute_spec).
#[derive(Clone, Copy, Debug, PartialEq, Eq, Structural)]
pub enum Instruction {
    /// Pushes `Unit`.
    Unit,
    /// Pushes the boolean `true`.
    True,
    /// Pushes the boolean `false`.
    False,
    /// Pushes an integer.
    Integer(i64),
    /// Pushes the string with this id.
    String(u32),
    /// Pushes a copy of the capture at this index.
    Capture(u32),
    /// Drops the top of the stack.
    Pop,
    /// Replaces the two topmost values by whether they are equal.
    Equal,
    /// Replaces the two topmost values by their concatenation.
    Concat,
    /// Replaces the top of the stack by the tuple of that one value, named
    /// by the string with this id.
    Name(u32),
    /// Replaces a container and an index by the value found there.
    Index,
    /// Makes a function of the block with this id; the captures that the
    /// block declares are taken from the stack.
    Closure(u32),
    /// Replaces an enum type by the constructor of its variant at this index.
    Variant(u32),
    /// Pushes the constructor of present options.
    OptionSome,
    /// Pushes the constructor of the absent option.
    OptionNone,
    /// Replaces a callee and an argument by the result of the call.
    Call,
    /// Replaces a function and an argument by the function with the argument
    /// piped in.
    Pipe,
    /// Replaces a tuple of variants by a new enum type.
    EnumType,
    /// Replaces a value by a new struct type around it.
    StructType,
    /// Ends the block; the top of the stack is its result.
    Return,
    /// Pushes the type `Any`.
    Any,
    /// Pushes the type of integers.
    I64Type,
    /// Pushes the type of booleans.
    BoolType,
    /// Pushes the type of strings.
    StringType,
    /// Pushes the option type.
    Option,
    /// Pushes the type of types.
    Type,
    /// Replaces two integers by their sum.
    Add,
    /// Replaces two integers by their difference.
    Subtract,
    /// Replaces two integers by their product.
    Multiply,
}

/// The unsigned 64-bit integer whose bytes, least significant first, stand
/// at `at`.
pub open spec fn le_u64(bytes: Seq<u8>, at: int) -> int {
    le_u32(bytes, at) + 0x1_0000_0000 * le_u32(bytes, at + 4)
}

/// The signed 64-bit integer whose bytes, in two's complement and least
/// significant first, stand at `at`.
pub open spec fn le_i64(bytes: Seq<u8>, at: int) -> int {
    if le_u64(bytes, at) < 0x8000_0000_0000_0000 {
        le_u64(bytes, at)
    } else {
        le_u64(bytes, at) - 0x1_0000_0000_0000_0000
    }
}

/// Reads the signed 64-bit integer at `at`, if eight bytes stand there.
pub fn read_i64(bytes: &[u8], at: usize) -> (read: Option<i64>)
    ensures
        match read {
            Some(x) => at + 8 <= bytes@.len() && x == le_i64(bytes@, at as int),
            None => at + 8 > bytes@.len(),
        },
{
    if at > bytes.len() || bytes.len() - at < 8 {
        return None;
    }
    let low = u32_at(bytes, at);
    let high = u32_at(bytes, at + 4);
    let unsigned: u64 = low as u64 + 0x1_0000_0000 * (high as u64);
    if unsigned < 0x8000_0000_0000_0000 {
        Some(unsigned as i64)
    } else {
        Some((unsigned - 0x8000_0000_0000_0000) as i64 + i64::MIN)
    }
}

/// The instruction that needs no operand and has the opcode `opcode`.
pub open spec fn plain_spec(opcode: u8) -> Option<Instruction> {
    match opcode {
        0 => Some(Instruction::Unit),
        1 => Some(Instruction::True),
        2 => Some(Instruction::False),
        6 => Some(Instruction::Pop),
        7 => Some(Instruction::Equal),
        8 => Some(Instruction::Concat),
        10 => Some(Instruction::Index),
        13 => Some(Instruction::OptionSome),
        14 => Some(Instruction::OptionNone),
        15 => Some(Instruction::Call),
        16 => Some(Instruction::Pipe),
        17 => Some(Instruction::EnumType),
        18 => Some(Instruction::StructType),
        19 => Some(Instruction::Return),
        20 => Some(Instruction::Any),
        21 => Some(Instruction::I64Type),
        22 => Some(Instruction::BoolType),
        23 => Some(Instruction::StringType),
        24 => Some(Instruction::Option),
        25 => Some(Instruction::Type),
        26 => Some(Instruction::Add),
        27 => Some(Instruction::Subtract),
        28 => Some(Instruction::Multiply),
        _ => None,
    }
}

/// Whether the opcode is followed by a 32-bit operand.
pub open spec fn takes_operand_spec(opcode: u8) -> bool {
    opcode == 4 || opcode == 5 || opcode == 9 || opcode == 11 || opcode == 12
}

/// The instruction with the opcode `opcode`, which takes an operand, and the
/// operand `operand`.
pub open spec fn with_operand_spec(opcode: u8, operand: u32) -> Instruction
    recommends
        takes_operand_spec(opcode),
{
    match opcode {
        4 => Instruction::String(operand),
        5 => Instruction::Capture(operand),
        9 => Instruction::Name(operand),
        11 => Instruction::Closure(operand),
        _ => Instruction::Variant(operand),
    }
}

/// The instruction that stands at `pc` in `code`, and the offset right after
/// it. An opcode that names no instruction is an invalid instruction; an
/// operand that is cut short by the end of the stream runs out of the program.
pub open spec fn decode_spec(code: Seq<u8>, pc: int) -> Result<(Instruction, int), InvalidBytecode>
    recommends
        0 <= pc < code.len(),
{
    let opcode = code[pc];
    if opcode == 3 {
        if pc + 9 <= code.len() {
            Ok((Instruction::Integer(le_i64(code, pc + 1) as i64), pc + 9))
        } else {
            Err(InvalidBytecode::ProgramOutOfBounds)
        }
    } else if takes_operand_spec(opcode) {
        if pc + 5 <= code.len() {
            Ok((with_operand_spec(opcode, le_u32(code, pc + 1) as u32), pc + 5))
        } else {
            Err(InvalidBytecode::ProgramOutOfBounds)
        }
    } else {
        match plain_spec(opcode) {
            Some(instruction) => Ok((instruction, pc + 1)),
            None => Err(InvalidBytecode::InvalidInstruction),
        }
    }
}

/// The mathematical content of a decoding result.
pub open spec fn decoded_view(result: Result<(Instruction, usize), InvalidBytecode>) -> Result<
    (Instruction, int),
    InvalidBytecode,
> {
    match result {
        Ok((instruction, next)) => Ok((instruction, next as int)),
        Err(e) => Err(e),
    }
}

/// The instruction with the opcode `opcode` that needs no operand.
fn plain(opcode: u8) -> (instruction: Option<Instruction>)
    ensures
        instruction == plain_spec(opcode),
{
    match opcode {
        0 => Some(Instruction::Unit),
        1 => Some(Instruction::True),
        2 => Some(Instruction::False),
        6 => Some(Instruction::Pop),
        7 => Some(Instruction::Equal),
        8 => Some(Instruction::Concat),
        10 => Some(Instruction::Index),
        13 => Some(Instruction::OptionSome),
        14 => Some(Instruction::OptionNone),
        15 => Some(Instruction::Call),
        16 => Some(Instruction::Pipe),
        17 => Some(Instruction::EnumType),
        18 => Some(Instruction::StructType),
        19 => Some(Instruction::Return),
        20 => Some(Instruction::Any),
        21 => Some(Instruction::I64Type),
        22 => Some(Instruction::BoolType),
        23 => Some(Instruction::StringType),
        24 => Some(Instruction::Option),
        25 => Some(Instruction::Type),
        26 => Some(Instruction::Add),
        27 => Some(Instruction::Subtract),
        28 => Some(Instruction::Multiply),
        _ => None,
    }
}

/// Whether the opcode is followed by a 32-bit operand.
fn takes_operand(opcode: u8) -> (takes: bool)
    ensures
        takes == takes_operand_spec(opcode),
{
    opcode == 4 || opcode == 5 || opcode == 9 || opcode == 11 || opcode == 12
}

/// The instruction with the opcode `opcode` and the operand `operand`.
fn with_operand(opcode: u8, operand: u32) -> (instruction: Instruction)
    requires
        takes_operand_spec(opcode),
    ensures
        instruction == with_operand_spec(opcode, operand),
{
    match opcode {
        4 => Instruction::String(operand),
        5 => Instruction::Capture(operand),
        9 => Instruction::Name(operand),
        11 => Instruction::Closure(operand),
        _ => Instruction::Variant(operand),
    }
}

/// Reads the instruction at `pc`.
pub fn decode(code: &[u8], pc: usize) -> (result: Result<(Instruction, usize), InvalidBytecode>)
    requires
        pc < code@.len(),
    ensures
        decoded_view(result) == decode_spec(code@, pc as int),
{
    let opcode = code[pc];
    if opcode == 3 {
        match read_i64(code, pc + 1) {
            Some(n) => Ok((Instruction::Integer(n), pc + 9)),
            None => Err(InvalidBytecode::ProgramOutOfBounds),
        }
    } else if takes_operand(opcode) {
        match read_u32(code, pc + 1) {
            Some(operand) => Ok((with_operand(opcode, operand), pc + 5)),
            None => Err(InvalidBytecode::ProgramOutOfBounds),
        }
    } else {
        match plain(opcode) {
            Some(instruction) => Ok((instruction, pc + 1)),
            None => Err(InvalidBytecode::InvalidInstruction),
        }
    }
}

} // verus!
