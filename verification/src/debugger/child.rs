//! A model of the traced child: what the controller's calls do to it and what
//! they bring back.
//!
//! Nothing here runs. The model is what the laws of the controller are stated
//! against.

use vstd::prelude::*;
use crate::debugger::Registers;
use crate::sys::ptrace::{
    byte_of, lemma_bytes_of_word, lemma_trap_word, lemma_word_of_bytes, trap_word, word_bytes,
    word_of, Reply, Request, TRAP,
};

verus! {

/// The child at one moment: the byte at each address of its memory, and its
/// registers.
#[verifier::ext_equal]
pub struct Child {
    pub memory: spec_fn(int) -> u8,
    pub registers: Registers,
}

impl Child {
    /// The byte at `addr`.
    pub open spec fn byte_at(self, addr: int) -> u8 {
        (self.memory)(addr)
    }

    /// The `count` bytes from `addr` on.
    pub open spec fn bytes_at(self, addr: int, count: nat) -> Seq<u8> {
        Seq::new(count, |index: int| self.byte_at(addr + index))
    }

    /// The word at `addr`.
    pub open spec fn word_at(self, addr: u64) -> u64 {
        word_of(self.bytes_at(addr as int, 8))
    }

    /// The `count` words from `addr` on.
    pub open spec fn words_at(self, addr: u64, count: nat) -> Seq<u64> {
        Seq::new(count, |index: int| self.word_at((addr + 8 * index) as u64))
    }

    /// The child after `word` was written at `addr`.
    pub open spec fn poked(self, addr: u64, word: u64) -> Child {
        Child {
            memory: |at: int|
                if addr <= at < addr + 8 {
                    byte_of(word, at - addr)
                } else {
                    (self.memory)(at)
                },
            ..self
        }
    }

    /// The child after the byte at `addr` was replaced by `byte`.
    pub open spec fn with_byte(self, addr: int, byte: u8) -> Child {
        Child {
            memory: |at: int|
                if at == addr {
                    byte
                } else {
                    (self.memory)(at)
                },
            ..self
        }
    }

    /// Whether the call `request`, made on this child, can bring back `reply`
    /// and leave the child as `after`.
    ///
    /// A call that fails changes nothing. A read brings back what is there, a
    /// write that succeeds changes what it names and nothing else. While the
    /// controller waits the child runs, so a wait may leave any child behind.
    pub open spec fn serves(self, request: Request, reply: Reply, after: Child) -> bool {
        &&& request.accepts(reply)
        &&& match request {
            Request::Peek(_, addr) => {
                &&& after == self
                &&& reply matches Reply::Word(word) ==> word == self.word_at(addr)
            },
            Request::Poke(_, addr, word) => after == (if reply is Done {
                self.poked(addr, word)
            } else {
                self
            }),
            Request::GetRegs(_) => {
                &&& after == self
                &&& reply matches Reply::Regs(registers) ==> registers == self.registers
            },
            Request::SetRegs(_, registers) => after == (if reply is Done {
                Child { registers, ..self }
            } else {
                self
            }),
            Request::SingleStep(_) => after == self,
            Request::Cont(_) => after == self,
            Request::Wait => true,
            Request::Fork => after == self,
            Request::TraceMe => after == self,
            Request::Exec => after == self,
            Request::LoadSymbols => after == self,
        }
    }
}

/// A word that was written is the word that is read back at its address.
pub proof fn lemma_poked_word(child: Child, addr: u64, word: u64)
    ensures
        child.poked(addr, word).word_at(addr) == word,
        child.poked(addr, word).registers == child.registers,
        forall|at: int|
            !(addr <= at < addr + 8) ==> #[trigger] child.poked(addr, word).byte_at(at)
                == child.byte_at(at),
{
    assert(child.poked(addr, word).bytes_at(addr as int, 8) =~= word_bytes(word));
    lemma_word_of_bytes(word);
}

/// Writing the trap word of the word at `addr` changes one byte: the one at
/// `addr`, which becomes the trap instruction.
pub proof fn lemma_poked_trap(child: Child, addr: u64)
    ensures
        child.poked(addr, trap_word(child.word_at(addr))) == child.with_byte(addr as int, TRAP),
{
    let word = child.word_at(addr);
    let after = child.poked(addr, trap_word(word));
    lemma_trap_word(word);
    lemma_bytes_of_word(child.bytes_at(addr as int, 8));
    assert forall|at: int| #[trigger]
        (after.memory)(at) == (child.with_byte(addr as int, TRAP).memory)(at) by {
        if addr <= at < addr + 8 {
            let index = at - addr;
            assert(word_bytes(trap_word(word))[index] == byte_of(trap_word(word), index));
            assert(word_bytes(word)[index] == child.bytes_at(addr as int, 8)[index]);
        }
    }
    assert(after.memory =~= child.with_byte(addr as int, TRAP).memory);
}

/// The bytes of the word at an address are the bytes at that address.
pub proof fn lemma_word_at_bytes(child: Child, addr: u64)
    ensures
        word_bytes(child.word_at(addr)) == child.bytes_at(addr as int, 8),
{
    lemma_bytes_of_word(child.bytes_at(addr as int, 8));
}

} // verus!
