//! The tracing requests that the controller hands out, the replies it takes
//! back, and the arithmetic of machine words.

use vstd::prelude::*;
use crate::debugger::Registers;
use crate::debugger::symbols::DebugInfo;
use crate::error::Error;
use crate::sys::{Fork, WaitStatus};

verus! {

/// The number of bytes in a machine word.
pub const WORD: u64 = 8;

/// The one-byte trap instruction.
pub const TRAP: u8 = 0xcc;

/// One call that the controller wants made. Where a process id is given, the
/// call is made on that process.
#[derive(Clone, Copy, Debug, PartialEq, Eq, Structural)]
pub enum Request {
    /// Create the new process.
    Fork,
    /// In the new process: let the parent trace this process.
    TraceMe,
    /// In the new process: replace the image by the command.
    Exec,
    /// Read the symbols of the executable that the command names.
    LoadSymbols,
    /// Block until a child changes state.
    Wait,
    /// Let the child run one instruction.
    SingleStep(i32),
    /// Let the child run until the next event.
    Cont(i32),
    /// Read the word at the address.
    Peek(i32, u64),
    /// Write the word, given last, at the address.
    Poke(i32, u64, u64),
    /// Read the register file.
    GetRegs(i32),
    /// Replace the register file.
    SetRegs(i32, Registers),
}

/// What came back from a call.
#[derive(Debug, PartialEq, Eq)]
pub enum Reply {
    /// The call succeeded and returns nothing.
    Done,
    /// The side of the fork on which the caller is.
    Forked(Fork),
    /// The symbols read from the executable.
    Symbols(DebugInfo),
    /// The state change that the wait observed.
    Status(WaitStatus),
    /// The word read.
    Word(u64),
    /// The register file read.
    Regs(Registers),
    /// The call failed.
    Failed(Error),
}

impl Request {
    /// Whether `reply` is of the kind that this request is answered with.
    /// Every request may fail.
    pub open spec fn accepts(self, reply: Reply) -> bool {
        reply is Failed || match self {
            Request::Fork => reply is Forked,
            Request::LoadSymbols => reply is Symbols,
            Request::Wait => reply is Status,
            Request::Peek(_, _) => reply is Word,
            Request::GetRegs(_) => reply is Regs,
            Request::TraceMe
            | Request::Exec
            | Request::SingleStep(_)
            | Request::Cont(_)
            | Request::Poke(_, _, _)
            | Request::SetRegs(_, _) => reply is Done,
        }
    }

    /// Tells whether `reply` is of the kind that this request is answered with.
    pub fn answered_by(&self, reply: &Reply) -> (r: bool)
        ensures
            r == self.accepts(*reply),
    {
        match reply {
            Reply::Failed(_) => true,
            Reply::Done => match self {
                Request::TraceMe
                | Request::Exec
                | Request::SingleStep(_)
                | Request::Cont(_)
                | Request::Poke(_, _, _)
                | Request::SetRegs(_, _) => true,
                _ => false,
            },
            Reply::Forked(_) => matches!(self, Request::Fork),
            Reply::Symbols(_) => matches!(self, Request::LoadSymbols),
            Reply::Status(_) => matches!(self, Request::Wait),
            Reply::Word(_) => matches!(self, Request::Peek(_, _)),
            Reply::Regs(_) => matches!(self, Request::GetRegs(_)),
        }
    }
}

/// The word `word` with its lowest byte replaced by the trap instruction.
pub open spec fn trap_word(word: u64) -> u64 {
    (word & 0xffff_ffff_ffff_ff00) | 0xcc
}

/// The byte of `word` that lies `index` bytes above the word's address.
pub open spec fn byte_of(word: u64, index: int) -> u8 {
    ((word >> ((8 * index) as u64)) & 0xff) as u8
}

/// The eight bytes of a word in the order in which they lie in memory.
pub open spec fn word_bytes(word: u64) -> Seq<u8> {
    Seq::new(8, |index: int| byte_of(word, index))
}

/// The word that eight bytes in memory make.
pub open spec fn word_of(bytes: Seq<u8>) -> u64 {
    (bytes[0] as u64) | (bytes[1] as u64) << 8 | (bytes[2] as u64) << 16 | (bytes[3] as u64) << 24
        | (bytes[4] as u64) << 32 | (bytes[5] as u64) << 40 | (bytes[6] as u64) << 48 | (
    bytes[7] as u64) << 56
}

/// The number of words that hold `size` bytes.
pub open spec fn words_for(size: int) -> int {
    (size + 7) / 8
}

/// A word written to memory and read back is the same word.
pub proof fn lemma_word_of_bytes(word: u64)
    ensures
        word_of(word_bytes(word)) == word,
{
    let b = word_bytes(word);
    assert(b[0] == byte_of(word, 0) && b[1] == byte_of(word, 1) && b[2] == byte_of(word, 2)
        && b[3] == byte_of(word, 3) && b[4] == byte_of(word, 4) && b[5] == byte_of(word, 5)
        && b[6] == byte_of(word, 6) && b[7] == byte_of(word, 7));
    assert(word == (((word >> 0) & 0xff) as u8 as u64) | (((word >> 8) & 0xff) as u8 as u64) << 8
        | (((word >> 16) & 0xff) as u8 as u64) << 16 | (((word >> 24) & 0xff) as u8 as u64) << 24
        | (((word >> 32) & 0xff) as u8 as u64) << 32 | (((word >> 40) & 0xff) as u8 as u64) << 40
        | (((word >> 48) & 0xff) as u8 as u64) << 48 | (((word >> 56) & 0xff) as u8 as u64)
        << 56) by (bit_vector);
}

/// Eight bytes read as a word and written back are the same bytes.
pub proof fn lemma_bytes_of_word(bytes: Seq<u8>)
    requires
        bytes.len() == 8,
    ensures
        word_bytes(word_of(bytes)) == bytes,
{
    let (b0, b1, b2, b3) = (bytes[0], bytes[1], bytes[2], bytes[3]);
    let (b4, b5, b6, b7) = (bytes[4], bytes[5], bytes[6], bytes[7]);
    let w = word_of(bytes);
    assert(w == (b0 as u64) | (b1 as u64) << 8 | (b2 as u64) << 16 | (b3 as u64) << 24 | (
    b4 as u64) << 32 | (b5 as u64) << 40 | (b6 as u64) << 48 | (b7 as u64) << 56);
    assert(((w >> 0) & 0xff) as u8 == b0 && ((w >> 8) & 0xff) as u8 == b1 && ((w >> 16) & 0xff) as u8
        == b2 && ((w >> 24) & 0xff) as u8 == b3 && ((w >> 32) & 0xff) as u8 == b4 && ((w >> 40)
        & 0xff) as u8 == b5 && ((w >> 48) & 0xff) as u8 == b6 && ((w >> 56) & 0xff) as u8 == b7)
        by (bit_vector)
        requires
            w == (b0 as u64) | (b1 as u64) << 8 | (b2 as u64) << 16 | (b3 as u64) << 24 | (
            b4 as u64) << 32 | (b5 as u64) << 40 | (b6 as u64) << 48 | (b7 as u64) << 56,
    ;
    assert(word_bytes(w) =~= bytes);
}

/// The trap word of `word` has the trap instruction as its lowest byte and
/// the bytes of `word` above it.
pub proof fn lemma_trap_word(word: u64)
    ensures
        word_bytes(trap_word(word)) == word_bytes(word).update(0, TRAP),
        trap_word(word) & 0xff == 0xcc,
{
    let t = trap_word(word);
    assert(((t >> 0) & 0xff) as u8 == 0xcc && t & 0xff == 0xcc && ((t >> 8) & 0xff) as u8 == ((word
        >> 8) & 0xff) as u8 && ((t >> 16) & 0xff) as u8 == ((word >> 16) & 0xff) as u8 && ((t
        >> 24) & 0xff) as u8 == ((word >> 24) & 0xff) as u8 && ((t >> 32) & 0xff) as u8 == ((word
        >> 32) & 0xff) as u8 && ((t >> 40) & 0xff) as u8 == ((word >> 40) & 0xff) as u8 && ((t
        >> 48) & 0xff) as u8 == ((word >> 48) & 0xff) as u8 && ((t >> 56) & 0xff) as u8 == ((word
        >> 56) & 0xff) as u8) by (bit_vector)
        requires
            t == (word & 0xffff_ffff_ffff_ff00) | 0xcc,
    ;
    assert(word_bytes(t) =~= word_bytes(word).update(0, TRAP));
}

/// Computes the trap word of `word`.
pub fn with_trap(word: u64) -> (r: u64)
    ensures
        r == trap_word(word),
{
    (word & 0xffff_ffff_ffff_ff00) | 0xcc
}

/// Appends the bytes of `word`, lowest first, until all eight are appended
/// or `bytes` holds `size` bytes.
pub fn append_word(bytes: &mut Vec<u8>, word: u64, size: usize)
    requires
        old(bytes)@.len() < size,
    ensures
        size - old(bytes)@.len() >= 8 ==> final(bytes)@ == old(bytes)@ + word_bytes(word),
        size - old(bytes)@.len() < 8 ==> final(bytes)@ == old(bytes)@ + word_bytes(word).take(
            size - old(bytes)@.len(),
        ),
{
    let ghost before = bytes@;
    let mut index: u32 = 0;
    while index < 8 && bytes.len() < size
        invariant
            index <= 8,
            bytes@.len() == before.len() + index,
            bytes@.len() <= size,
            bytes@ == before + word_bytes(word).take(index as int),
        decreases 8 - index,
    {
        let byte = ((word >> (8 * index)) & 0xff) as u8;
        proof {
            assert(((word >> (8 * index)) & 0xff) as u8 == ((word >> ((8 * index) as u64))
                & 0xff) as u8) by (bit_vector)
                requires
                    index < 8,
            ;
            assert(byte == byte_of(word, index as int));
            assert(word_bytes(word).take(index + 1) =~= word_bytes(word).take(index as int).push(
                byte,
            ));
        }
        bytes.push(byte);
        index += 1;
        assert(bytes@ =~= before + word_bytes(word).take(index as int));
    }
    proof {
        assert(word_bytes(word).take(8) =~= word_bytes(word));
    }
}

} // verus!
