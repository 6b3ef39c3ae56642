//! The immutable container of loaded bytecode, and the format it is loaded
//! from.
//!
//! A program is a header followed by an instruction stream. All header
//! integers are 32 bits, least significant byte first:
//!
//! ```text
//! block count | string count
//! block count  x  (entry | capture count | stack budget)
//! string count x  (length | that many bytes of UTF-8)
//! instruction stream
//! ```
//!
//! A block's entry is an offset into the instruction stream.

use crate::error::InvalidBytecode;
use std::rc::Rc;
use vstd::prelude::*;
use vstd::slice::{slice_subrange, slice_to_vec};
use vstd::std_specs::convert::TryFromSpecImpl;
use vstd::string::StringSliceAdditionalSpecFns;
use vstd::utf8::{decode_utf8, encode_utf8_decode_utf8, valid_utf8};

verus! {

/// One row of a program's block table.
#[derive(Clone, Copy, Debug, PartialEq, Eq, Structural)]
pub struct BlockInfo {
    /// Offset of the block's first instruction in the instruction stream.
    pub entry: usize,
    /// Number of captures the block declares.
    pub captures: usize,
    /// Number of operand-stack slots the block asks for.
    pub stack: usize,
}

/// What a program is loaded into.
#[derive(Debug)]
struct Bytecode {
    blocks: Vec<BlockInfo>,
    strings: Vec<Rc<str>>,
    code: Vec<u8>,
}

/// A cheaply clonable handle to loaded bytecode, which never changes.
#[derive(Debug)]
pub struct Program {
    bytecode: Rc<Bytecode>,
}

/// What a [`Program`] holds: its block table, its string pool and its
/// instruction stream.
pub struct ProgramView {
    pub blocks: Seq<BlockInfo>,
    pub strings: Seq<Seq<char>>,
    pub code: Seq<u8>,
}

impl ProgramView {
    /// Whether every block starts within the instruction stream, or right
    /// after it.
    pub open spec fn wf(self) -> bool {
        forall|i: int| 0 <= i < self.blocks.len() ==> (#[trigger] self.blocks[i]).entry <= self.code.len()
    }
}

/// The characters of each string of a pool.
pub open spec fn pool_view(strings: Seq<Rc<str>>) -> Seq<Seq<char>> {
    Seq::new(strings.len(), |i: int| (*strings[i])@)
}

impl View for Program {
    type V = ProgramView;

    closed spec fn view(&self) -> ProgramView {
        ProgramView {
            blocks: self.bytecode.blocks@,
            strings: pool_view(self.bytecode.strings@),
            code: self.bytecode.code@,
        }
    }
}

impl Clone for Program {
    fn clone(&self) -> (res: Self)
        ensures
            res == *self,
    {
        Program { bytecode: self.bytecode.clone() }
    }
}

/// The error that `std::str::from_utf8` reports for bytes that are not UTF-8.
pub uninterp spec fn utf8_error(bytes: Seq<u8>) -> std::str::Utf8Error;

/// `std::str::from_utf8` succeeds exactly on valid UTF-8 and then gives the
/// text made of those very bytes; on other bytes it reports its error.
pub assume_specification[ core::str::from_utf8 ](v: &[u8]) -> (r: Result<
    &str,
    core::str::Utf8Error,
>)
    ensures
        match r {
            Ok(s) => valid_utf8(v@) && s.spec_bytes() == v@,
            Err(e) => !valid_utf8(v@) && e == utf8_error(v@),
        },
;

/// `Rc<str>`'s `From<&str>`: a shared copy of the same text.
#[verifier::external_body]
fn shared_text(s: &str) -> (shared: Rc<str>)
    ensures
        (*shared)@ == s@,
{
    Rc::from(s)
}

/// The 32-bit integer whose bytes, least significant first, stand at `at`.
pub open spec fn le_u32(bytes: Seq<u8>, at: int) -> int {
    bytes[at] + 0x100 * bytes[at + 1] + 0x1_0000 * bytes[at + 2] + 0x100_0000 * bytes[at + 3]
}

/// The 32-bit integer at `at`, where four bytes stand.
pub fn u32_at(bytes: &[u8], at: usize) -> (x: u32)
    requires
        at + 4 <= bytes@.len(),
    ensures
        x == le_u32(bytes@, at as int),
{
    let b0: u32 = bytes[at] as u32;
    let b1: u32 = bytes[at + 1] as u32;
    let b2: u32 = bytes[at + 2] as u32;
    let b3: u32 = bytes[at + 3] as u32;
    b0 + 0x100 * b1 + 0x1_0000 * b2 + 0x100_0000 * b3
}

/// Reads the 32-bit integer at `at`, if four bytes stand there.
pub fn read_u32(bytes: &[u8], at: usize) -> (read: Option<u32>)
    ensures
        match read {
            Some(x) => at + 4 <= bytes@.len() && x == le_u32(bytes@, at as int),
            None => at + 4 > bytes@.len(),
        },
{
    if at > bytes.len() || bytes.len() - at < 4 {
        None
    } else {
        Some(u32_at(bytes, at))
    }
}

/// The block table of `count` rows that starts right after the two counts.
pub open spec fn table_spec(bytes: Seq<u8>, count: int) -> Seq<BlockInfo> {
    Seq::new(
        count as nat,
        |i: int|
            BlockInfo {
                entry: le_u32(bytes, 8 + 12 * i) as usize,
                captures: le_u32(bytes, 12 + 12 * i) as usize,
                stack: le_u32(bytes, 16 + 12 * i) as usize,
            },
    )
}

/// Reads `remaining` more length-prefixed strings from `at` on, after `read`:
/// the whole pool and the offset right after it, or the first defect.
pub open spec fn pool_spec(bytes: Seq<u8>, at: int, remaining: nat, read: Seq<Seq<char>>) -> Result<
    (Seq<Seq<char>>, int),
    InvalidBytecode,
>
    decreases remaining,
{
    if remaining == 0 {
        Ok((read, at))
    } else if at + 4 > bytes.len() || at + 4 + le_u32(bytes, at) > bytes.len() {
        Err(InvalidBytecode::MalformedHeader)
    } else {
        let end = at + 4 + le_u32(bytes, at);
        let raw = bytes.subrange(at + 4, end);
        if valid_utf8(raw) {
            pool_spec(bytes, end, (remaining - 1) as nat, read.push(decode_utf8(raw)))
        } else {
            Err(InvalidBytecode::Utf8Error(utf8_error(raw)))
        }
    }
}

/// The program that `bytes` describe, or what is wrong with them: a header
/// that is cut short or whose blocks start beyond the instruction stream is
/// malformed, and a string that is not UTF-8 is reported as such.
pub open spec fn parse_spec(bytes: Seq<u8>) -> Result<ProgramView, InvalidBytecode> {
    if bytes.len() < 8 || 8 + 12 * le_u32(bytes, 0) > bytes.len() {
        Err(InvalidBytecode::MalformedHeader)
    } else {
        let blocks = table_spec(bytes, le_u32(bytes, 0));
        match pool_spec(bytes, 8 + 12 * le_u32(bytes, 0), le_u32(bytes, 4) as nat, Seq::empty()) {
            Ok((strings, start)) => {
                let program = ProgramView {
                    blocks,
                    strings,
                    code: bytes.subrange(start, bytes.len() as int),
                };
                if program.wf() {
                    Ok(program)
                } else {
                    Err(InvalidBytecode::MalformedHeader)
                }
            },
            Err(e) => Err(e),
        }
    }
}

/// The mathematical content of the outcome of loading a program.
pub open spec fn loaded_view(result: Result<Program, InvalidBytecode>) -> Result<
    ProgramView,
    InvalidBytecode,
> {
    match result {
        Ok(program) => Ok(program@),
        Err(e) => Err(e),
    }
}

/// Reads the block table of `count` rows; the bytes are known to hold it.
fn read_table(bytes: &[u8], count: u32) -> (blocks: Vec<BlockInfo>)
    requires
        8 + 12 * count <= bytes@.len(),
    ensures
        blocks@ == table_spec(bytes@, count as int),
{
    let length = bytes.len();
    let mut blocks: Vec<BlockInfo> = Vec::new();
    let mut i: u32 = 0;
    while i < count
        invariant
            i <= count,
            8 + 12 * count <= bytes@.len(),
            bytes@.len() == length,
            blocks@ == table_spec(bytes@, i as int),
        decreases count - i,
    {
        let at: usize = 8 + 12 * (i as usize);
        blocks.push(
            BlockInfo {
                entry: u32_at(bytes, at) as usize,
                captures: u32_at(bytes, at + 4) as usize,
                stack: u32_at(bytes, at + 8) as usize,
            },
        );
        i += 1;
    }
    blocks
}

/// Whether every block of `blocks` starts within `length` bytes.
fn entries_within(blocks: &Vec<BlockInfo>, length: usize) -> (within: bool)
    ensures
        within == (forall|i: int| 0 <= i < blocks@.len() ==> (#[trigger] blocks@[i]).entry <= length),
{
    let mut i: usize = 0;
    while i < blocks.len()
        invariant
            i <= blocks@.len(),
            forall|j: int| 0 <= j < i ==> (#[trigger] blocks@[j]).entry <= length,
        decreases blocks@.len() - i,
    {
        if blocks[i].entry > length {
            return false;
        }
        i += 1;
    }
    true
}

impl<'a> TryFrom<&'a [u8]> for Program {
    type Error = InvalidBytecode;

    /// Loads a program from its bytes.
    fn try_from(bytes: &'a [u8]) -> (result: Result<Self, InvalidBytecode>)
        ensures
            loaded_view(result) == parse_spec(bytes@),
            result matches Ok(program) ==> program@.wf(),
    {
        if bytes.len() < 8 {
            return Err(InvalidBytecode::MalformedHeader);
        }
        let block_count = u32_at(bytes, 0);
        let string_count = u32_at(bytes, 4);
        if 8 + 12 * (block_count as u64) > bytes.len() as u64 {
            return Err(InvalidBytecode::MalformedHeader);
        }
        let blocks = read_table(bytes, block_count);
        let mut strings: Vec<Rc<str>> = Vec::new();
        let mut at: usize = 8 + 12 * (block_count as usize);
        let mut i: u32 = 0;
        proof {
            assert(pool_view(strings@) =~= Seq::<Seq<char>>::empty());
        }
        while i < string_count
            invariant
                i <= string_count,
                at <= bytes@.len(),
                bytes@.len() >= 8,
                block_count == le_u32(bytes@, 0),
                string_count == le_u32(bytes@, 4),
                8 + 12 * block_count <= bytes@.len(),
                blocks@ == table_spec(bytes@, block_count as int),
                pool_spec(
                    bytes@,
                    8 + 12 * block_count,
                    string_count as nat,
                    Seq::<Seq<char>>::empty(),
                ) == pool_spec(bytes@, at as int, (string_count - i) as nat, pool_view(strings@)),
            decreases string_count - i,
        {
            let length = match read_u32(bytes, at) {
                Some(n) => n,
                None => {
                    return Err(InvalidBytecode::MalformedHeader);
                },
            };
            if length as u64 > (bytes.len() - at - 4) as u64 {
                return Err(InvalidBytecode::MalformedHeader);
            }
            let end: usize = at + 4 + length as usize;
            let raw = slice_subrange(bytes, at + 4, end);
            match core::str::from_utf8(raw) {
                Ok(text) => {
                    let ghost before = strings@;
                    strings.push(shared_text(text));
                    proof {
                        encode_utf8_decode_utf8(text@);
                        assert(pool_view(strings@) =~= pool_view(before).push(decode_utf8(raw@)));
                    }
                },
                Err(e) => {
                    return Err(InvalidBytecode::Utf8Error(e));
                },
            }
            at = end;
            i += 1;
        }
        let code = slice_to_vec(slice_subrange(bytes, at, bytes.len()));
        let ghost program = ProgramView {
            blocks: blocks@,
            strings: pool_view(strings@),
            code: code@,
        };
        if !entries_within(&blocks, code.len()) {
            assert(!program.wf()) by {
                if program.wf() {
                    assert forall|i: int| 0 <= i < blocks@.len() implies (#[trigger] blocks@[i]).entry
                        <= code@.len() by {
                        assert(program.blocks[i].entry <= program.code.len());
                    }
                }
            }
            return Err(InvalidBytecode::MalformedHeader);
        }
        Ok(Program { bytecode: Rc::new(Bytecode { blocks, strings, code }) })
    }
}

impl<'a> TryFromSpecImpl<&'a [u8]> for Program {
    open spec fn obeys_try_from_spec() -> bool {
        false
    }

    closed spec fn try_from_spec(bytes: &'a [u8]) -> Result<Self, InvalidBytecode> {
        match parse_spec(bytes@) {
            Ok(program) => Ok(choose|p: Program| #[trigger] p.view() == program),
            Err(e) => Err(e),
        }
    }
}

impl Program {
    /// The block table.
    pub fn blocks(&self) -> (blocks: &Vec<BlockInfo>)
        ensures
            blocks@ == self@.blocks,
    {
        &self.bytecode.blocks
    }

    /// The string with the given id, if the pool holds one.
    pub fn string(&self, id: usize) -> (found: Option<&Rc<str>>)
        ensures
            match found {
                Some(s) => id < self@.strings.len() && (**s)@ == self@.strings[id as int],
                None => id >= self@.strings.len(),
            },
    {
        if id < self.bytecode.strings.len() {
            Some(&self.bytecode.strings[id])
        } else {
            None
        }
    }

    /// The instruction stream.
    pub fn code(&self) -> (code: &Vec<u8>)
        ensures
            code@ == self@.code,
    {
        &self.bytecode.code
    }
}

} // verus!
