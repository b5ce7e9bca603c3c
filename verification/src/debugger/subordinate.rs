//! The controller of one traced child.
//!
//! An operation on the child takes several calls into the operating system.
//! The controller makes none of them. It hands out one [`Request`] at a time
//! and is resumed with the [`Reply`]; [`Progress`] says whether the operation
//! wants another call or has ended. What the controller does on each reply is
//! the function [`State::resume`], and each method states that it does
//! exactly that.

use vstd::prelude::*;
use std::collections::HashMap;
use crate::debugger::Registers;
use crate::debugger::symbols::{DebugInfo, Symbol};
use crate::error::Error;
use crate::sys::WaitStatus;
use crate::sys::ptrace::{append_word, trap_word, with_trap, word_bytes, Reply, Request};

verus! {

/// The number of words in the window that is read from the stack at a stop.
pub const STACK_WORDS: usize = 16;

/// Which call, if any, the controller is waiting for.
#[derive(Clone, Copy, Debug, PartialEq, Eq, Structural)]
pub enum Phase {
    /// No operation is under way.
    Idle,
    /// A single step was requested.
    Stepping,
    /// A continuation was requested.
    Continuing,
    /// The child runs; its next state change is awaited.
    Waiting,
    /// The child stopped; its registers are being read.
    FetchingRegs,
    /// The stack window is being read, word by word.
    ReadingStack,
    /// A breakpoint was hit; the word `data` is being written back at `addr`.
    Restoring { addr: u64, data: u64 },
    /// The rewound registers are being written back.
    PushingRegs,
    /// A breakpoint is being set; the word at `addr` is being read.
    Saving { addr: u64 },
    /// A breakpoint is being set; `data` was read at `addr` and its trap word
    /// is being written there.
    Trapping { addr: u64, data: u64 },
    /// `count` words from `from` on are being read.
    ReadingWords { from: u64, count: usize },
    /// `size` bytes from `from` on are being read.
    ReadingBytes { from: u64, size: usize },
}

/// How far an operation has come.
#[derive(Debug, PartialEq, Eq)]
pub enum Progress {
    /// The operation needs this call made; resume it with the reply.
    Ask(Request),
    /// The operation has ended well.
    Done,
    /// The read has ended well with these words.
    Words(Vec<u64>),
    /// The read has ended well with these bytes.
    Bytes(Vec<u8>),
    /// The operation has ended with this error.
    Failed(Error),
}

/// [`Progress`] as a mathematical value.
#[verifier::ext_equal]
pub enum ProgressView {
    Ask(Request),
    Done,
    Words(Seq<u64>),
    Bytes(Seq<u8>),
    Failed(Error),
}

impl View for Progress {
    type V = ProgressView;

    open spec fn view(&self) -> ProgressView {
        match *self {
            Progress::Ask(request) => ProgressView::Ask(request),
            Progress::Done => ProgressView::Done,
            Progress::Words(words) => ProgressView::Words(words@),
            Progress::Bytes(bytes) => ProgressView::Bytes(bytes@),
            Progress::Failed(error) => ProgressView::Failed(error),
        }
    }
}

/// The controller as a mathematical value.
#[verifier::ext_equal]
pub struct State {
    /// The process id of the child.
    pub pid: i32,
    /// The registers of the child at its last stop.
    pub registers: Registers,
    /// The stack window of the child at its last stop.
    pub stack: Seq<u64>,
    /// The last state change observed.
    pub wait_status: WaitStatus,
    /// For each address with a breakpoint, the word that was there before.
    pub breakpoints: Map<u64, u64>,
    /// The call that is awaited.
    pub phase: Phase,
    /// The words that the read under way has gathered.
    pub words: Seq<u64>,
    /// The bytes that the read under way has gathered.
    pub bytes: Seq<u8>,
}

/// The address `index` words above `from`.
pub open spec fn word_address(from: u64, index: int) -> u64 {
    (from + 8 * index) as u64
}

impl State {
    /// The controller of the child `pid` right after the child was made: it
    /// awaits the stop that the child's new image brings.
    pub open spec fn spawned(pid: i32) -> State {
        State {
            pid,
            registers: Registers::zeroed(),
            stack: Seq::empty(),
            wait_status: WaitStatus::Unknown(0, 0),
            breakpoints: Map::empty(),
            phase: Phase::Waiting,
            words: Seq::empty(),
            bytes: Seq::empty(),
        }
    }

    /// What holds of every controller: the stack window has no more than its
    /// sixteen words, a read under way is not complete yet, and none of its
    /// addresses lies beyond the address space.
    pub open spec fn wf(self) -> bool {
        &&& self.breakpoints.dom().finite()
        &&& self.stack.len() <= STACK_WORDS
        &&& match self.phase {
            Phase::ReadingStack => self.words.len() < STACK_WORDS && self.registers.rsp + 8 * (
            STACK_WORDS - 1) <= u64::MAX,
            Phase::ReadingWords { from, count } => self.words.len() < count && from + 8 * (count
                - 1) <= u64::MAX,
            Phase::ReadingBytes { from, size } => self.bytes.len() < size && self.bytes.len() % 8
                == 0 && from + 8 * ((size - 1) / 8) <= u64::MAX,
            _ => true,
        }
    }

    /// The call that is awaited.
    pub open spec fn request(self) -> Option<Request> {
        match self.phase {
            Phase::Idle => None,
            Phase::Stepping => Some(Request::SingleStep(self.pid)),
            Phase::Continuing => Some(Request::Cont(self.pid)),
            Phase::Waiting => Some(Request::Wait),
            Phase::FetchingRegs => Some(Request::GetRegs(self.pid)),
            Phase::ReadingStack => Some(
                Request::Peek(self.pid, word_address(self.registers.rsp, self.words.len() as int)),
            ),
            Phase::Restoring { addr, data } => Some(Request::Poke(self.pid, addr, data)),
            Phase::PushingRegs => Some(Request::SetRegs(self.pid, self.registers)),
            Phase::Saving { addr } => Some(Request::Peek(self.pid, addr)),
            Phase::Trapping { addr, data } => Some(Request::Poke(self.pid, addr, trap_word(data))),
            Phase::ReadingWords { from, count } => Some(
                Request::Peek(self.pid, word_address(from, self.words.len() as int)),
            ),
            Phase::ReadingBytes { from, size } => Some(
                Request::Peek(self.pid, word_address(from, self.bytes.len() as int / 8)),
            ),
        }
    }

    /// Whether `reply` may be handed to the controller now: it answers the
    /// call that is awaited, and where it brings the registers of a stop, the
    /// stack window at their stack pointer lies within the address space.
    pub open spec fn expects(self, reply: Reply) -> bool {
        &&& self.request() matches Some(request)
        &&& request.accepts(reply)
        &&& reply matches Reply::Regs(registers) ==> registers.rsp + 8 * (STACK_WORDS - 1)
            <= u64::MAX
    }

    /// This controller with no operation under way.
    pub open spec fn idle(self) -> State {
        State { phase: Phase::Idle, ..self }
    }

    /// Begins a single step.
    pub open spec fn step(self) -> (State, ProgressView) {
        (
            State { phase: Phase::Stepping, ..self },
            ProgressView::Ask(Request::SingleStep(self.pid)),
        )
    }

    /// Begins a continuation.
    pub open spec fn cont(self) -> (State, ProgressView) {
        (State { phase: Phase::Continuing, ..self }, ProgressView::Ask(Request::Cont(self.pid)))
    }

    /// Begins to wait for the child's next state change.
    pub open spec fn fetch_state(self) -> (State, ProgressView) {
        (State { phase: Phase::Waiting, ..self }, ProgressView::Ask(Request::Wait))
    }

    /// Takes in an observed state change. After a stop the registers are
    /// asked for; any other change ends the operation.
    pub open spec fn observe(self, status: WaitStatus) -> (State, ProgressView) {
        if status is Stopped {
            (
                State { wait_status: status, phase: Phase::FetchingRegs, ..self },
                ProgressView::Ask(Request::GetRegs(self.pid)),
            )
        } else {
            (State { wait_status: status, phase: Phase::Idle, ..self }, ProgressView::Done)
        }
    }

    /// Takes in the registers of a stop and begins to read the stack window.
    pub open spec fn refresh(self, registers: Registers) -> (State, ProgressView) {
        (
            State { registers, words: Seq::empty(), phase: Phase::ReadingStack, ..self },
            ProgressView::Ask(Request::Peek(self.pid, registers.rsp)),
        )
    }

    /// Takes in one more word of the stack window. With the last one the
    /// window is complete and the stop is looked at for a breakpoint.
    pub open spec fn stack_word(self, word: u64) -> (State, ProgressView) {
        let words = self.words.push(word);
        if words.len() < STACK_WORDS {
            (
                State { words, ..self },
                ProgressView::Ask(
                    Request::Peek(self.pid, word_address(self.registers.rsp, words.len() as int)),
                ),
            )
        } else {
            State { stack: words, words: Seq::empty(), ..self }.handle_breakpoint()
        }
    }

    /// Whether the stop is the hit of a breakpoint: the child has just run the
    /// trap instruction at an address that has one.
    pub open spec fn at_breakpoint(self) -> bool {
        self.registers.rip >= 1 && self.breakpoints.contains_key((self.registers.rip - 1) as u64)
    }

    /// Looks at a stop. At a breakpoint the entry is forgotten, the program
    /// counter goes back onto the address, and the saved word is written
    /// back. Any other stop ends the operation.
    pub open spec fn handle_breakpoint(self) -> (State, ProgressView) {
        if self.at_breakpoint() {
            let addr = (self.registers.rip - 1) as u64;
            let data = self.breakpoints[addr];
            (
                State {
                    registers: self.registers.with_rip(addr),
                    breakpoints: self.breakpoints.remove(addr),
                    phase: Phase::Restoring { addr, data },
                    ..self
                },
                ProgressView::Ask(Request::Poke(self.pid, addr, data)),
            )
        } else {
            (self.idle(), ProgressView::Done)
        }
    }

    /// Begins to set a breakpoint. Where the address has one already, nothing
    /// is done.
    pub open spec fn breakpoint(self, addr: u64) -> (State, ProgressView) {
        if self.breakpoints.contains_key(addr) {
            (self, ProgressView::Done)
        } else {
            (
                State { phase: Phase::Saving { addr }, ..self },
                ProgressView::Ask(Request::Peek(self.pid, addr)),
            )
        }
    }

    /// Begins to read `count` words from `from` on.
    pub open spec fn read_words(self, from: u64, count: usize) -> (State, ProgressView) {
        if count == 0 {
            (self, ProgressView::Words(Seq::empty()))
        } else {
            (
                State { words: Seq::empty(), phase: Phase::ReadingWords { from, count }, ..self },
                ProgressView::Ask(Request::Peek(self.pid, from)),
            )
        }
    }

    /// Takes in one more word of a read of words.
    pub open spec fn next_word(self, from: u64, count: usize, word: u64) -> (State, ProgressView) {
        let words = self.words.push(word);
        if words.len() < count {
            (
                State { words, ..self },
                ProgressView::Ask(Request::Peek(self.pid, word_address(from, words.len() as int))),
            )
        } else {
            (State { words: Seq::empty(), ..self }.idle(), ProgressView::Words(words))
        }
    }

    /// Begins to read `size` bytes from `from` on.
    pub open spec fn read_bytes(self, from: u64, size: usize) -> (State, ProgressView) {
        if size == 0 {
            (self, ProgressView::Bytes(Seq::empty()))
        } else {
            (
                State { bytes: Seq::empty(), phase: Phase::ReadingBytes { from, size }, ..self },
                ProgressView::Ask(Request::Peek(self.pid, from)),
            )
        }
    }

    /// Takes in one more word of a read of bytes: its bytes are appended, the
    /// last word's only as far as `size` asks.
    pub open spec fn next_bytes(self, from: u64, size: usize, word: u64) -> (State, ProgressView) {
        let missing = size - self.bytes.len();
        let bytes = self.bytes + (if missing < 8 {
            word_bytes(word).take(missing)
        } else {
            word_bytes(word)
        });
        if bytes.len() < size {
            (
                State { bytes, ..self },
                ProgressView::Ask(
                    Request::Peek(self.pid, word_address(from, bytes.len() as int / 8)),
                ),
            )
        } else {
            (State { bytes: Seq::empty(), ..self }.idle(), ProgressView::Bytes(bytes))
        }
    }

    /// What the controller does with the reply to the call it awaits. A
    /// failed call ends the operation with the call's error.
    pub open spec fn resume(self, reply: Reply) -> (State, ProgressView) {
        match reply {
            Reply::Failed(error) => (self.idle(), ProgressView::Failed(error)),
            Reply::Status(status) => self.observe(status),
            Reply::Regs(registers) => self.refresh(registers),
            Reply::Word(word) => match self.phase {
                Phase::ReadingStack => self.stack_word(word),
                Phase::Saving { addr } => (
                    State { phase: Phase::Trapping { addr, data: word }, ..self },
                    ProgressView::Ask(Request::Poke(self.pid, addr, trap_word(word))),
                ),
                Phase::ReadingWords { from, count } => self.next_word(from, count, word),
                Phase::ReadingBytes { from, size } => self.next_bytes(from, size, word),
                _ => (self, ProgressView::Done),
            },
            Reply::Done => match self.phase {
                Phase::Stepping => self.fetch_state(),
                Phase::Continuing => self.fetch_state(),
                Phase::Restoring { addr, data } => (
                    State { phase: Phase::PushingRegs, ..self },
                    ProgressView::Ask(Request::SetRegs(self.pid, self.registers)),
                ),
                Phase::PushingRegs => (self.idle(), ProgressView::Done),
                Phase::Trapping { addr, data } => (
                    State { breakpoints: self.breakpoints.insert(addr, data), ..self }.idle(),
                    ProgressView::Done,
                ),
                _ => (self, ProgressView::Done),
            },
            _ => (self, ProgressView::Done),
        }
    }
}

/// The controller of one traced child: the child's process id, what was seen
/// of the child at its last stop, the breakpoints set in it, and the symbols
/// of its executable.
#[derive(Debug)]
pub struct Subordinate {
    pid: i32,
    registers: Registers,
    stack: Vec<u64>,
    wait_status: WaitStatus,
    breakpoints: HashMap<u64, u64>,
    debug_info: DebugInfo,
    phase: Phase,
    words: Vec<u64>,
    bytes: Vec<u8>,
}

impl View for Subordinate {
    type V = State;

    closed spec fn view(&self) -> State {
        State {
            pid: self.pid,
            registers: self.registers,
            stack: self.stack@,
            wait_status: self.wait_status,
            breakpoints: self.breakpoints@,
            phase: self.phase,
            words: self.words@,
            bytes: self.bytes@,
        }
    }
}

impl Subordinate {
    /// The symbols of the child's executable.
    pub closed spec fn symbols(&self) -> DebugInfo {
        self.debug_info
    }

    /// The controller of the child `pid`, made right after the child. It
    /// awaits the child's first stop: the first call to make is a wait.
    pub fn new(pid: i32, debug_info: DebugInfo) -> (r: Subordinate)
        ensures
            r@ == State::spawned(pid),
            r@.wf(),
            r.symbols() == debug_info,
    {
        broadcast use vstd::std_specs::hash::group_hash_axioms;

        Subordinate {
            pid,
            registers: Registers::default(),
            stack: Vec::new(),
            wait_status: WaitStatus::Unknown(0, 0),
            breakpoints: HashMap::new(),
            debug_info,
            phase: Phase::Waiting,
            words: Vec::new(),
            bytes: Vec::new(),
        }
    }

    /// The call that the controller awaits the reply of, if an operation is
    /// under way.
    pub fn request(&self) -> (r: Option<Request>)
        requires
            self@.wf(),
        ensures
            r == self@.request(),
    {
        match self.phase {
            Phase::Idle => None,
            Phase::Stepping => Some(Request::SingleStep(self.pid)),
            Phase::Continuing => Some(Request::Cont(self.pid)),
            Phase::Waiting => Some(Request::Wait),
            Phase::FetchingRegs => Some(Request::GetRegs(self.pid)),
            Phase::ReadingStack => Some(
                Request::Peek(self.pid, self.registers.rsp + 8 * (self.words.len() as u64)),
            ),
            Phase::Restoring { addr, data } => Some(Request::Poke(self.pid, addr, data)),
            Phase::PushingRegs => Some(Request::SetRegs(self.pid, self.registers)),
            Phase::Saving { addr } => Some(Request::Peek(self.pid, addr)),
            Phase::Trapping { addr, data } => Some(Request::Poke(self.pid, addr, with_trap(data))),
            Phase::ReadingWords { from, count } => Some(
                Request::Peek(self.pid, from + 8 * (self.words.len() as u64)),
            ),
            Phase::ReadingBytes { from, size } => Some(
                Request::Peek(self.pid, from + 8 * (self.bytes.len() as u64 / 8)),
            ),
        }
    }

    /// Tells whether `reply` may be handed to [`Subordinate::resume`] now.
    pub fn expects(&self, reply: &Reply) -> (r: bool)
        requires
            self@.wf(),
        ensures
            r == self@.expects(*reply),
    {
        match self.request() {
            None => false,
            Some(request) => {
                let fits = match reply {
                    Reply::Regs(registers) => registers.rsp <= u64::MAX - 8 * (STACK_WORDS as u64
                        - 1),
                    _ => true,
                };
                request.answered_by(reply) && fits
            },
        }
    }

    /// Begins a single step of the child.
    pub fn step(&mut self) -> (r: Progress)
        requires
            old(self)@.wf(),
            old(self)@.phase is Idle,
        ensures
            final(self)@ == old(self)@.step().0,
            r@ == old(self)@.step().1,
            final(self)@.wf(),
            final(self).symbols() == old(self).symbols(),
    {
        self.phase = Phase::Stepping;
        Progress::Ask(Request::SingleStep(self.pid))
    }

    /// Begins a continuation of the child.
    pub fn cont(&mut self) -> (r: Progress)
        requires
            old(self)@.wf(),
            old(self)@.phase is Idle,
        ensures
            final(self)@ == old(self)@.cont().0,
            r@ == old(self)@.cont().1,
            final(self)@.wf(),
            final(self).symbols() == old(self).symbols(),
    {
        self.phase = Phase::Continuing;
        Progress::Ask(Request::Cont(self.pid))
    }

    /// The call that reads the word at `addr` in the child.
    pub fn peek(&self, addr: u64) -> (r: Request)
        ensures
            r == Request::Peek(self@.pid, addr),
    {
        Request::Peek(self.pid, addr)
    }

    /// The call that writes the word `data` at `addr` in the child.
    pub fn poke(&self, addr: u64, data: u64) -> (r: Request)
        ensures
            r == Request::Poke(self@.pid, addr, data),
    {
        Request::Poke(self.pid, addr, data)
    }

    /// Begins to read `size` bytes of the child's memory from `from` on. The
    /// read asks for one word after the other and ends with
    /// [`Progress::Bytes`].
    pub fn read_bytes(&mut self, from: u64, size: usize) -> (r: Progress)
        requires
            old(self)@.wf(),
            old(self)@.phase is Idle,
            size > 0 ==> from + 8 * ((size - 1) / 8) <= u64::MAX,
        ensures
            final(self)@ == old(self)@.read_bytes(from, size).0,
            r@ == old(self)@.read_bytes(from, size).1,
            final(self)@.wf(),
            final(self).symbols() == old(self).symbols(),
    {
        if size == 0 {
            return Progress::Bytes(Vec::new());
        }
        self.bytes = Vec::new();
        self.phase = Phase::ReadingBytes { from, size };
        Progress::Ask(Request::Peek(self.pid, from))
    }

    /// Begins to read `count` words of the child's memory from `from` on. The
    /// read ends with [`Progress::Words`].
    pub fn read_words(&mut self, from: u64, count: usize) -> (r: Progress)
        requires
            old(self)@.wf(),
            old(self)@.phase is Idle,
            count > 0 ==> from + 8 * (count - 1) <= u64::MAX,
        ensures
            final(self)@ == old(self)@.read_words(from, count).0,
            r@ == old(self)@.read_words(from, count).1,
            final(self)@.wf(),
            final(self).symbols() == old(self).symbols(),
    {
        if count == 0 {
            return Progress::Words(Vec::new());
        }
        self.words = Vec::new();
        self.phase = Phase::ReadingWords { from, count };
        Progress::Ask(Request::Peek(self.pid, from))
    }

    /// The exit code of the child, if the last state change seen was its
    /// exit.
    pub fn exit_status(&self) -> (r: Option<i32>)
        ensures
            r is Some <==> self@.wait_status is Exited,
            r matches Some(code) ==> self@.wait_status == WaitStatus::Exited(
                self@.wait_status->Exited_0,
                code,
            ),
    {
        if let WaitStatus::Exited(_, status) = self.wait_status {
            return Some(status);
        }
        None
    }

    /// Begins to set a breakpoint at `addr`. Where one is set there already,
    /// the operation is done at once and nothing is asked of the child.
    pub fn breakpoint(&mut self, addr: u64) -> (r: Progress)
        requires
            old(self)@.wf(),
            old(self)@.phase is Idle,
        ensures
            final(self)@ == old(self)@.breakpoint(addr).0,
            r@ == old(self)@.breakpoint(addr).1,
            final(self)@.wf(),
            final(self).symbols() == old(self).symbols(),
    {
        broadcast use vstd::std_specs::hash::group_hash_axioms;

        if self.breakpoints.contains_key(&addr) {
            return Progress::Done;
        }
        self.phase = Phase::Saving { addr };
        Progress::Ask(Request::Peek(self.pid, addr))
    }

    /// The registers of the child at its last stop.
    pub fn registers(&self) -> (r: &Registers)
        ensures
            *r == self@.registers,
    {
        &self.registers
    }

    /// Begins to read the instructions of `symbol`: `symbol.high_pc` bytes
    /// from `symbol.low_pc` on.
    pub fn instructions(&mut self, symbol: &Symbol) -> (r: Progress)
        requires
            old(self)@.wf(),
            old(self)@.phase is Idle,
            symbol.high_pc <= usize::MAX,
            symbol.high_pc > 0 ==> symbol.low_pc + 8 * ((symbol.high_pc - 1) / 8) <= u64::MAX,
        ensures
            final(self)@ == old(self)@.read_bytes(symbol.low_pc, symbol.high_pc as usize).0,
            r@ == old(self)@.read_bytes(symbol.low_pc, symbol.high_pc as usize).1,
            final(self)@.wf(),
            final(self).symbols() == old(self).symbols(),
    {
        self.read_bytes(symbol.low_pc, symbol.high_pc as usize)
    }

    /// The stack window of the child at its last stop.
    pub fn stack(&self) -> (r: &[u64])
        ensures
            r@ == self@.stack,
    {
        self.stack.as_slice()
    }

    /// The symbols of the child's executable.
    pub fn debug_info(&self) -> (r: &DebugInfo)
        ensures
            *r == self.symbols(),
    {
        &self.debug_info
    }

    /// The last state change of the child that was seen.
    pub fn wait_status(&self) -> (r: WaitStatus)
        ensures
            r == self@.wait_status,
    {
        self.wait_status
    }

    /// The word that the breakpoint at `addr` has replaced, if a breakpoint
    /// is set there.
    pub fn saved_word(&self, addr: u64) -> (r: Option<u64>)
        ensures
            r == (if self@.breakpoints.contains_key(addr) {
                Some(self@.breakpoints[addr])
            } else {
                None
            }),
    {
        broadcast use vstd::std_specs::hash::group_hash_axioms;

        match self.breakpoints.get(&addr) {
            Some(data) => Some(*data),
            None => None,
        }
    }

    /// Begins to wait for the child's next state change.
    fn fetch_state(&mut self) -> (r: Progress)
        requires
            old(self)@.wf(),
        ensures
            final(self)@ == old(self)@.fetch_state().0,
            r@ == old(self)@.fetch_state().1,
            final(self)@.wf(),
            final(self).symbols() == old(self).symbols(),
    {
        self.phase = Phase::Waiting;
        Progress::Ask(Request::Wait)
    }

    /// Looks at a stop whose registers and stack window are in: at a
    /// breakpoint, begins to put the child back as it was without it.
    fn handle_breakpoint(&mut self) -> (r: Progress)
        requires
            old(self)@.wf(),
        ensures
            final(self)@ == old(self)@.handle_breakpoint().0,
            r@ == old(self)@.handle_breakpoint().1,
            final(self)@.wf(),
            final(self).symbols() == old(self).symbols(),
    {
        broadcast use vstd::std_specs::hash::group_hash_axioms;

        if self.registers.rip >= 1 {
            let addr: u64 = self.registers.rip - 1;
            if let Some(data) = self.breakpoints.remove(&addr) {
                self.registers.rip = addr;
                self.phase = Phase::Restoring { addr, data };
                return Progress::Ask(Request::Poke(self.pid, addr, data));
            }
        }
        self.phase = Phase::Idle;
        Progress::Done
    }

    /// Takes in one more word of the stack window.
    fn stack_word(&mut self, word: u64) -> (r: Progress)
        requires
            old(self)@.wf(),
            old(self)@.phase is ReadingStack,
        ensures
            final(self)@ == old(self)@.stack_word(word).0,
            r@ == old(self)@.stack_word(word).1,
            final(self)@.wf(),
            final(self).symbols() == old(self).symbols(),
    {
        self.words.push(word);
        if self.words.len() < STACK_WORDS {
            return Progress::Ask(
                Request::Peek(self.pid, self.registers.rsp + 8 * (self.words.len() as u64)),
            );
        }
        let mut words: Vec<u64> = Vec::new();
        core::mem::swap(&mut self.words, &mut words);
        self.stack = words;
        self.handle_breakpoint()
    }

    /// Takes in one more word of a read of words.
    fn next_word(&mut self, from: u64, count: usize, word: u64) -> (r: Progress)
        requires
            old(self)@.wf(),
            old(self)@.phase == (Phase::ReadingWords { from, count }),
        ensures
            final(self)@ == old(self)@.next_word(from, count, word).0,
            r@ == old(self)@.next_word(from, count, word).1,
            final(self)@.wf(),
            final(self).symbols() == old(self).symbols(),
    {
        self.words.push(word);
        if self.words.len() < count {
            return Progress::Ask(Request::Peek(self.pid, from + 8 * (self.words.len() as u64)));
        }
        let mut words: Vec<u64> = Vec::new();
        core::mem::swap(&mut self.words, &mut words);
        self.phase = Phase::Idle;
        Progress::Words(words)
    }

    /// Takes in one more word of a read of bytes.
    fn next_bytes(&mut self, from: u64, size: usize, word: u64) -> (r: Progress)
        requires
            old(self)@.wf(),
            old(self)@.phase == (Phase::ReadingBytes { from, size }),
        ensures
            final(self)@ == old(self)@.next_bytes(from, size, word).0,
            r@ == old(self)@.next_bytes(from, size, word).1,
            final(self)@.wf(),
            final(self).symbols() == old(self).symbols(),
    {
        append_word(&mut self.bytes, word, size);
        if self.bytes.len() < size {
            return Progress::Ask(Request::Peek(self.pid, from + 8 * (self.bytes.len() as u64 / 8)));
        }
        let mut bytes: Vec<u8> = Vec::new();
        core::mem::swap(&mut self.bytes, &mut bytes);
        self.phase = Phase::Idle;
        Progress::Bytes(bytes)
    }

    /// Hands the reply to the awaited call to the controller, which goes on
    /// with the operation under way.
    pub fn resume(&mut self, reply: Reply) -> (r: Progress)
        requires
            old(self)@.wf(),
            old(self)@.expects(reply),
        ensures
            final(self)@ == old(self)@.resume(reply).0,
            r@ == old(self)@.resume(reply).1,
            final(self)@.wf(),
            final(self).symbols() == old(self).symbols(),
    {
        broadcast use vstd::std_specs::hash::group_hash_axioms;

        match reply {
            Reply::Failed(error) => {
                self.phase = Phase::Idle;
                Progress::Failed(error)
            },
            Reply::Status(status) => {
                self.wait_status = status;
                match status {
                    WaitStatus::Stopped(_, _) => {
                        self.phase = Phase::FetchingRegs;
                        Progress::Ask(Request::GetRegs(self.pid))
                    },
                    _ => {
                        self.phase = Phase::Idle;
                        Progress::Done
                    },
                }
            },
            Reply::Regs(registers) => {
                self.registers = registers;
                self.words = Vec::new();
                self.phase = Phase::ReadingStack;
                Progress::Ask(Request::Peek(self.pid, registers.rsp))
            },
            Reply::Word(word) => match self.phase {
                Phase::ReadingStack => self.stack_word(word),
                Phase::Saving { addr } => {
                    self.phase = Phase::Trapping { addr, data: word };
                    Progress::Ask(Request::Poke(self.pid, addr, with_trap(word)))
                },
                Phase::ReadingWords { from, count } => self.next_word(from, count, word),
                Phase::ReadingBytes { from, size } => self.next_bytes(from, size, word),
                _ => Progress::Done,
            },
            Reply::Done => match self.phase {
                Phase::Stepping => self.fetch_state(),
                Phase::Continuing => self.fetch_state(),
                Phase::Restoring { addr, data } => {
                    self.phase = Phase::PushingRegs;
                    Progress::Ask(Request::SetRegs(self.pid, self.registers))
                },
                Phase::PushingRegs => {
                    self.phase = Phase::Idle;
                    Progress::Done
                },
                Phase::Trapping { addr, data } => {
                    self.breakpoints.insert(addr, data);
                    self.phase = Phase::Idle;
                    Progress::Done
                },
                _ => Progress::Done,
            },
            _ => Progress::Done,
        }
    }
}

} // verus!
