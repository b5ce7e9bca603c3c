//! The laws of the controller, stated of the controller together with a model
//! of its child and proved for every course that the two can take.

use vstd::prelude::*;
use crate::debugger::child::{lemma_poked_trap, lemma_poked_word, lemma_word_at_bytes, Child};
use crate::debugger::subordinate::{Phase, ProgressView, State, STACK_WORDS};
use crate::error::Error;
use crate::sys::ptrace::{lemma_trap_word, Reply, Request, TRAP};

verus! {

/// The controller, its child, and a record of what has happened between
/// them.
#[verifier::ext_equal]
pub struct System {
    /// The controller.
    pub controller: State,
    /// The child as it is now.
    pub child: Child,
    /// The addresses at which a word was written whose lowest byte is the
    /// trap instruction.
    pub trapped: Set<u64>,
    /// The child as it was when its last state change was observed.
    pub stopped: Child,
    /// For each address, the word that was read there when a breakpoint was
    /// last being set at it.
    pub seen: Map<u64, u64>,
}

/// One thing that happens to a system.
pub enum Action {
    /// A single step is begun.
    Step,
    /// A continuation is begun.
    Cont,
    /// A breakpoint at the address is begun.
    Breakpoint(u64),
    /// A read of so many words from the address on is begun.
    ReadWords(u64, usize),
    /// A read of so many bytes from the address on is begun.
    ReadBytes(u64, usize),
    /// While no operation is under way, a read or a write of one word is
    /// made on the child; it brings the reply and leaves the child as given.
    Direct(Request, Reply, Child),
    /// The awaited call is made; it brings the reply and leaves the child as
    /// given, and the controller is resumed.
    Answer(Reply, Child),
}

/// Whether the call writes a word whose lowest byte is the trap instruction
/// at `addr`, and succeeds.
pub open spec fn writes_trap(request: Request, reply: Reply, addr: u64) -> bool {
    &&& request matches Request::Poke(_, at, word)
    &&& at == addr
    &&& word & 0xff == 0xcc
    &&& reply is Done
}

impl System {
    /// The system right after the child `pid` was made.
    pub open spec fn initial(pid: i32, child: Child) -> System {
        System {
            controller: State::spawned(pid),
            child,
            trapped: Set::empty(),
            stopped: child,
            seen: Map::empty(),
        }
    }

    /// Whether `action` can happen now.
    pub open spec fn admits(self, action: Action) -> bool {
        match action {
            Action::Step => self.controller.phase is Idle,
            Action::Cont => self.controller.phase is Idle,
            Action::Breakpoint(_) => self.controller.phase is Idle,
            Action::ReadWords(from, count) => {
                &&& self.controller.phase is Idle
                &&& count > 0 ==> from + 8 * (count - 1) <= u64::MAX
            },
            Action::ReadBytes(from, size) => {
                &&& self.controller.phase is Idle
                &&& size > 0 ==> from + 8 * ((size - 1) / 8) <= u64::MAX
            },
            Action::Direct(request, reply, after) => {
                &&& self.controller.phase is Idle
                &&& request is Peek || request is Poke
                &&& self.child.serves(request, reply, after)
            },
            Action::Answer(reply, after) => {
                &&& self.controller.expects(reply)
                &&& self.child.serves(self.controller.request()->0, reply, after)
            },
        }
    }

    /// The record after the call `request` was answered by `reply` and left
    /// the child as `after`.
    pub open spec fn recorded(self, request: Request, reply: Reply, after: Child) -> System {
        System {
            child: after,
            trapped: match request {
                Request::Poke(_, addr, _) => if writes_trap(request, reply, addr) {
                    self.trapped.insert(addr)
                } else {
                    self.trapped
                },
                _ => self.trapped,
            },
            stopped: if request is Wait && reply is Status {
                after
            } else {
                self.stopped
            },
            seen: match (self.controller.phase, reply) {
                (Phase::Saving { addr }, Reply::Word(word)) => self.seen.insert(addr, word),
                _ => self.seen,
            },
            ..self
        }
    }

    /// The system after `action`.
    pub open spec fn after(self, action: Action) -> System {
        match action {
            Action::Step => System { controller: self.controller.step().0, ..self },
            Action::Cont => System { controller: self.controller.cont().0, ..self },
            Action::Breakpoint(addr) => System {
                controller: self.controller.breakpoint(addr).0,
                ..self
            },
            Action::ReadWords(from, count) => System {
                controller: self.controller.read_words(from, count).0,
                ..self
            },
            Action::ReadBytes(from, size) => System {
                controller: self.controller.read_bytes(from, size).0,
                ..self
            },
            Action::Direct(request, reply, after) => self.recorded(request, reply, after),
            Action::Answer(reply, after) => System {
                controller: self.controller.resume(reply).0,
                ..self.recorded(self.controller.request()->0, reply, after)
            },
        }
    }

    /// Whether the actions can happen one after the other, from now on.
    pub open spec fn admits_all(self, actions: Seq<Action>) -> bool
        decreases actions.len(),
    {
        actions.len() > 0 ==> {
            &&& self.admits_all(actions.drop_last())
            &&& self.run(actions.drop_last()).admits(actions.last())
        }
    }

    /// The system after the actions.
    pub open spec fn run(self, actions: Seq<Action>) -> System
        decreases actions.len(),
    {
        if actions.len() == 0 {
            self
        } else {
            self.run(actions.drop_last()).after(actions.last())
        }
    }

    /// Every breakpoint stands at an address at which a trap was written.
    pub open spec fn breakpoints_trapped(self) -> bool {
        forall|addr: u64| #[trigger]
            self.controller.breakpoints.contains_key(addr) ==> self.trapped.contains(addr)
    }

    /// The controller holds the child's registers and the stack window of
    /// the child's last stop.
    pub open spec fn reflects_stop(self) -> bool {
        &&& self.controller.registers == self.child.registers
        &&& self.controller.stack == self.stopped.words_at(
            self.controller.registers.rsp,
            STACK_WORDS as nat,
        )
    }

    /// While a stop is being taken in, what was taken in so far is what the
    /// stopped child held.
    pub open spec fn tracks_stop(self) -> bool {
        match self.controller.phase {
            Phase::FetchingRegs => self.child == self.stopped,
            Phase::ReadingStack => {
                &&& self.child == self.stopped
                &&& self.controller.registers == self.stopped.registers
                &&& self.controller.words == self.stopped.words_at(
                    self.stopped.registers.rsp,
                    self.controller.words.len(),
                )
            },
            Phase::Restoring { addr, data } => {
                &&& self.child.registers == self.stopped.registers
                &&& self.controller.registers == self.stopped.registers.with_rip(addr)
                &&& self.controller.stack == self.stopped.words_at(
                    self.stopped.registers.rsp,
                    STACK_WORDS as nat,
                )
            },
            Phase::PushingRegs => {
                &&& self.child.registers == self.stopped.registers
                &&& self.controller.registers == self.stopped.registers.with_rip(
                    self.controller.registers.rip,
                )
                &&& self.controller.stack == self.stopped.words_at(
                    self.stopped.registers.rsp,
                    STACK_WORDS as nat,
                )
            },
            _ => true,
        }
    }

    /// The word kept for a breakpoint is the word that was read at its
    /// address when the breakpoint was set; and once that word is written
    /// back, the child holds it there.
    pub open spec fn keeps_seen_words(self) -> bool {
        &&& forall|addr: u64| #[trigger]
            self.controller.breakpoints.contains_key(addr) ==> self.seen.contains_key(addr)
                && self.controller.breakpoints[addr] == self.seen[addr]
        &&& match self.controller.phase {
            Phase::Saving { addr } => !self.controller.breakpoints.contains_key(addr),
            Phase::Trapping { addr, data } => {
                &&& !self.controller.breakpoints.contains_key(addr)
                &&& self.seen.contains_key(addr)
                &&& data == self.seen[addr]
                &&& data == self.child.word_at(addr)
            },
            Phase::Restoring { addr, data } => {
                &&& !self.controller.breakpoints.contains_key(addr)
                &&& self.controller.registers.rip == addr
                &&& self.seen.contains_key(addr)
                &&& data == self.seen[addr]
            },
            Phase::PushingRegs => {
                &&& !self.controller.breakpoints.contains_key(self.controller.registers.rip)
                &&& self.seen.contains_key(self.controller.registers.rip)
                &&& self.child.word_at(self.controller.registers.rip)
                    == self.seen[self.controller.registers.rip]
            },
            _ => true,
        }
    }

    /// What a read under way has gathered is what the child holds there.
    pub open spec fn reads_child(self) -> bool {
        match self.controller.phase {
            Phase::ReadingWords { from, count } => self.controller.words == self.child.words_at(
                from,
                self.controller.words.len(),
            ),
            Phase::ReadingBytes { from, size } => self.controller.bytes == self.child.bytes_at(
                from as int,
                self.controller.bytes.len(),
            ),
            _ => true,
        }
    }

    /// What holds of the system at every moment.
    pub open spec fn inv(self) -> bool {
        &&& self.controller.wf()
        &&& self.breakpoints_trapped()
        &&& self.tracks_stop()
        &&& self.keeps_seen_words()
        &&& self.reads_child()
    }
}

/// The controller stays well formed when it is resumed.
pub proof fn lemma_resume_wf(state: State, reply: Reply)
    requires
        state.wf(),
        state.expects(reply),
    ensures
        state.resume(reply).0.wf(),
{
    match state.phase {
        Phase::ReadingBytes { from, size } => {
            if let Reply::Word(word) = reply {
                let next = state.next_bytes(from, size, word).0;
                if next.phase is ReadingBytes {
                    assert(next.bytes.len() == state.bytes.len() + 8);
                }
            }
        },
        _ => {},
    }
}

/// The system right after the child was made is as it has to be.
pub proof fn lemma_initial_inv(pid: i32, child: Child)
    ensures
        System::initial(pid, child).inv(),
{
}

/// One action keeps the system as it has to be.
pub proof fn lemma_action_keeps_inv(system: System, action: Action)
    requires
        system.inv(),
        system.admits(action),
    ensures
        system.after(action).inv(),
{
    let next = system.after(action);
    match action {
        Action::Answer(reply, after) => {
            lemma_resume_wf(system.controller, reply);
            lemma_answer_keeps_trapped(system, reply, after);
            lemma_answer_keeps_stop(system, reply, after);
            lemma_answer_keeps_seen(system, reply, after);
            lemma_answer_keeps_reads(system, reply, after);
        },
        Action::ReadWords(from, count) => {
            if count > 0 {
                assert(next.controller.words =~= next.child.words_at(from, 0));
            }
        },
        Action::ReadBytes(from, size) => {
            if size > 0 {
                assert(next.controller.bytes =~= next.child.bytes_at(from as int, 0));
            }
        },
        _ => {},
    }
}

proof fn lemma_answer_keeps_trapped(system: System, reply: Reply, after: Child)
    requires
        system.inv(),
        system.admits(Action::Answer(reply, after)),
    ensures
        system.after(Action::Answer(reply, after)).breakpoints_trapped(),
{
    let next = system.after(Action::Answer(reply, after));
    if let Phase::Trapping { addr, data } = system.controller.phase {
        lemma_trap_word(data);
    }
    assert forall|addr: u64| #[trigger]
        next.controller.breakpoints.contains_key(addr) implies next.trapped.contains(addr) by {
        if !system.controller.breakpoints.contains_key(addr) {
            assert(system.controller.phase is Trapping);
        }
    }
}

proof fn lemma_answer_keeps_stop(system: System, reply: Reply, after: Child)
    requires
        system.inv(),
        system.admits(Action::Answer(reply, after)),
    ensures
        system.after(Action::Answer(reply, after)).tracks_stop(),
{
    let next = system.after(Action::Answer(reply, after));
    match system.controller.phase {
        Phase::FetchingRegs => {
            if reply is Regs {
                assert(next.controller.words =~= next.stopped.words_at(
                    next.stopped.registers.rsp,
                    0,
                ));
            }
        },
        Phase::ReadingStack => {
            if let Reply::Word(word) = reply {
                let words = system.controller.words.push(word);
                assert(words =~= system.stopped.words_at(
                    system.stopped.registers.rsp,
                    words.len(),
                ));
            }
        },
        _ => {},
    }
}

proof fn lemma_answer_keeps_seen(system: System, reply: Reply, after: Child)
    requires
        system.inv(),
        system.admits(Action::Answer(reply, after)),
    ensures
        system.after(Action::Answer(reply, after)).keeps_seen_words(),
{
    let next = system.after(Action::Answer(reply, after));
    if let Phase::Restoring { addr, data } = system.controller.phase {
        lemma_poked_word(system.child, addr, data);
    }
    assert forall|addr: u64| #[trigger]
        next.controller.breakpoints.contains_key(addr) implies next.seen.contains_key(addr)
        && next.controller.breakpoints[addr] == next.seen[addr] by {
        if !system.controller.breakpoints.contains_key(addr) {
            assert(system.controller.phase is Trapping);
        }
    }
}

proof fn lemma_answer_keeps_reads(system: System, reply: Reply, after: Child)
    requires
        system.inv(),
        system.admits(Action::Answer(reply, after)),
    ensures
        system.after(Action::Answer(reply, after)).reads_child(),
{
    let next = system.after(Action::Answer(reply, after));
    match system.controller.phase {
        Phase::ReadingWords { from, count } => {
            if let Reply::Word(word) = reply {
                let words = system.controller.words.push(word);
                assert(words =~= system.child.words_at(from, words.len()));
            }
        },
        Phase::ReadingBytes { from, size } => {
            if let Reply::Word(word) = reply {
                let held = system.controller.bytes.len();
                let addr = (from + held) as u64;
                lemma_word_at_bytes(system.child, addr);
                let bytes = system.controller.next_bytes(from, size, word).0.bytes;
                if next.controller.phase is ReadingBytes {
                    assert(bytes =~= system.child.bytes_at(from as int, bytes.len()));
                }
            }
        },
        _ => {},
    }
}

impl State {
    /// Whether the controller is taking in a state change of the child: the
    /// last part of a step, of a continuation, and of the child's making.
    pub open spec fn fetching(self) -> bool {
        ||| self.phase is Waiting
        ||| self.phase is FetchingRegs
        ||| self.phase is ReadingStack
        ||| self.phase is Restoring
        ||| self.phase is PushingRegs
    }
}

/// Whatever happens from the child's making on, the system is as it has to
/// be.
pub proof fn law_invariant(pid: i32, child: Child, actions: Seq<Action>)
    requires
        System::initial(pid, child).admits_all(actions),
    ensures
        System::initial(pid, child).run(actions).inv(),
    decreases actions.len(),
{
    if actions.len() == 0 {
        lemma_initial_inv(pid, child);
    } else {
        law_invariant(pid, child, actions.drop_last());
        lemma_action_keeps_inv(System::initial(pid, child).run(actions.drop_last()), actions.last());
    }
}

/// Whatever happens from the child's making on, each address that has a
/// breakpoint is one at which a word was written whose lowest byte is the
/// trap instruction.
pub proof fn law_breakpoints_are_trapped(pid: i32, child: Child, actions: Seq<Action>, addr: u64)
    requires
        System::initial(pid, child).admits_all(actions),
        System::initial(pid, child).run(actions).controller.breakpoints.contains_key(addr),
    ensures
        System::initial(pid, child).run(actions).trapped.contains(addr),
{
    law_invariant(pid, child, actions);
}

/// When a step, a continuation or the child's making ends well and the child
/// is stopped, the controller holds the registers that the child has now and
/// the sixteen words that the child held from its stack pointer on when it
/// stopped.
pub proof fn law_stop_is_reflected(
    pid: i32,
    child: Child,
    actions: Seq<Action>,
    reply: Reply,
    after: Child,
)
    requires
        System::initial(pid, child).admits_all(actions.push(Action::Answer(reply, after))),
        System::initial(pid, child).run(actions).controller.fetching(),
        System::initial(pid, child).run(actions).controller.resume(reply).1 is Done,
        System::initial(pid, child).run(actions).controller.resume(reply).0.wait_status is Stopped,
    ensures
        System::initial(pid, child).run(actions.push(Action::Answer(reply, after))).reflects_stop(),
        System::initial(pid, child).run(
            actions.push(Action::Answer(reply, after)),
        ).controller.stack.len() == STACK_WORDS,
{
    let all = actions.push(Action::Answer(reply, after));
    assert(all.drop_last() =~= actions);
    law_invariant(pid, child, actions);
    let before = System::initial(pid, child).run(actions);
    lemma_action_keeps_inv(before, Action::Answer(reply, after));
    if before.controller.phase is ReadingStack {
        let words = before.controller.words.push(reply->Word_0);
        assert(words =~= before.stopped.words_at(before.stopped.registers.rsp, words.len()));
    }
}

/// Setting a breakpoint where one is set does nothing: the controller stays
/// as it is and nothing is asked of the child.
pub proof fn law_breakpoint_is_idempotent(state: State, addr: u64)
    requires
        state.breakpoints.contains_key(addr),
    ensures
        state.breakpoint(addr) == (state, ProgressView::Done),
{
}

/// When a breakpoint has been set, a second call for the same address leaves
/// the whole system as the first call left it: the same breakpoints and the
/// same child, byte for byte.
pub proof fn law_second_breakpoint_changes_nothing(
    pid: i32,
    child: Child,
    actions: Seq<Action>,
    reply: Reply,
    after: Child,
    addr: u64,
)
    requires
        System::initial(pid, child).admits_all(actions.push(Action::Answer(reply, after))),
        System::initial(pid, child).run(actions).controller.phase matches Phase::Trapping {
            addr: at,
            ..
        } && at == addr,
        reply is Done,
    ensures
        ({
            let first = System::initial(pid, child).run(actions.push(Action::Answer(reply, after)));
            &&& first.controller.breakpoints.contains_key(addr)
            &&& first.admits(Action::Breakpoint(addr))
            &&& first.after(Action::Breakpoint(addr)) == first
        }),
{
    let all = actions.push(Action::Answer(reply, after));
    assert(all.drop_last() =~= actions);
}

/// Setting a breakpoint changes one byte of the child, the one at the
/// address, which becomes the trap instruction; and the word kept for the
/// breakpoint is the word that the child held there before.
pub proof fn law_breakpoint_writes_trap(
    pid: i32,
    child: Child,
    actions: Seq<Action>,
    reply: Reply,
    after: Child,
)
    requires
        System::initial(pid, child).admits_all(actions.push(Action::Answer(reply, after))),
        System::initial(pid, child).run(actions).controller.phase is Trapping,
        reply is Done,
    ensures
        ({
            let before = System::initial(pid, child).run(actions);
            let now = System::initial(pid, child).run(actions.push(Action::Answer(reply, after)));
            let addr = before.controller.phase->Trapping_addr;
            &&& now.child == before.child.with_byte(addr as int, TRAP)
            &&& now.controller.breakpoints == before.controller.breakpoints.insert(
                addr,
                before.child.word_at(addr),
            )
        }),
{
    let all = actions.push(Action::Answer(reply, after));
    assert(all.drop_last() =~= actions);
    law_invariant(pid, child, actions);
    let before = System::initial(pid, child).run(actions);
    lemma_poked_trap(before.child, before.controller.phase->Trapping_addr);
}

/// The word that is recorded as seen when a breakpoint is being set is the
/// word that the child holds at the address at that moment.
pub proof fn law_seen_word_is_the_childs(
    pid: i32,
    child: Child,
    actions: Seq<Action>,
    word: u64,
    after: Child,
)
    requires
        System::initial(pid, child).admits_all(
            actions.push(Action::Answer(Reply::Word(word), after)),
        ),
        System::initial(pid, child).run(actions).controller.phase is Saving,
    ensures
        ({
            let before = System::initial(pid, child).run(actions);
            let now = System::initial(pid, child).run(
                actions.push(Action::Answer(Reply::Word(word), after)),
            );
            let addr = before.controller.phase->Saving_addr;
            &&& now.seen[addr] == word
            &&& word == before.child.word_at(addr)
            &&& now.child == before.child
        }),
{
    let all = actions.push(Action::Answer(Reply::Word(word), after));
    assert(all.drop_last() =~= actions);
}

/// When a stop at a breakpoint has been taken in, the breakpoint is gone,
/// the child's program counter stands on its address, and the child holds
/// there the word that was seen when the breakpoint was set.
pub proof fn law_hit_restores_seen_word(
    pid: i32,
    child: Child,
    actions: Seq<Action>,
    reply: Reply,
    after: Child,
)
    requires
        System::initial(pid, child).admits_all(actions.push(Action::Answer(reply, after))),
        System::initial(pid, child).run(actions).controller.phase is PushingRegs,
        reply is Done,
    ensures
        ({
            let now = System::initial(pid, child).run(actions.push(Action::Answer(reply, after)));
            let addr = now.controller.registers.rip;
            &&& now.controller.phase is Idle
            &&& now.child.registers.rip == addr
            &&& !now.controller.breakpoints.contains_key(addr)
            &&& now.seen.contains_key(addr)
            &&& now.child.word_at(addr) == now.seen[addr]
        }),
{
    let all = actions.push(Action::Answer(reply, after));
    assert(all.drop_last() =~= actions);
    law_invariant(pid, child, actions);
}

/// A read of bytes that ends well brings exactly the bytes asked for, as the
/// child holds them: the last word read gives only as many as were missing.
pub proof fn law_read_bytes_is_the_childs(
    pid: i32,
    child: Child,
    actions: Seq<Action>,
    reply: Reply,
    after: Child,
)
    requires
        System::initial(pid, child).admits_all(actions.push(Action::Answer(reply, after))),
        System::initial(pid, child).run(actions).controller.phase is ReadingBytes,
        System::initial(pid, child).run(actions).controller.resume(reply).1 is Bytes,
    ensures
        ({
            let before = System::initial(pid, child).run(actions);
            let from = before.controller.phase->ReadingBytes_from;
            let size = before.controller.phase->ReadingBytes_size;
            let bytes = before.controller.resume(reply).1->Bytes_0;
            &&& bytes.len() == size
            &&& bytes == after.bytes_at(from as int, size as nat)
        }),
{
    let all = actions.push(Action::Answer(reply, after));
    assert(all.drop_last() =~= actions);
    law_invariant(pid, child, actions);
    let before = System::initial(pid, child).run(actions);
    let from = before.controller.phase->ReadingBytes_from;
    let size = before.controller.phase->ReadingBytes_size;
    let held = before.controller.bytes.len();
    lemma_word_at_bytes(before.child, (from + held) as u64);
    let bytes = before.controller.resume(reply).1->Bytes_0;
    assert(bytes =~= after.bytes_at(from as int, size as nat));
}

/// A read of words that ends well brings the words asked for, as the child
/// holds them.
pub proof fn law_read_words_is_the_childs(
    pid: i32,
    child: Child,
    actions: Seq<Action>,
    reply: Reply,
    after: Child,
)
    requires
        System::initial(pid, child).admits_all(actions.push(Action::Answer(reply, after))),
        System::initial(pid, child).run(actions).controller.phase is ReadingWords,
        System::initial(pid, child).run(actions).controller.resume(reply).1 is Words,
    ensures
        ({
            let before = System::initial(pid, child).run(actions);
            let from = before.controller.phase->ReadingWords_from;
            let count = before.controller.phase->ReadingWords_count;
            let words = before.controller.resume(reply).1->Words_0;
            words == after.words_at(from, count as nat)
        }),
{
    let all = actions.push(Action::Answer(reply, after));
    assert(all.drop_last() =~= actions);
    law_invariant(pid, child, actions);
    let before = System::initial(pid, child).run(actions);
    let from = before.controller.phase->ReadingWords_from;
    let count = before.controller.phase->ReadingWords_count;
    let words = before.controller.resume(reply).1->Words_0;
    assert(words =~= after.words_at(from, count as nat));
}

/// An operation that asks for no further call has ended: the controller
/// awaits nothing, and the next operation can begin.
pub proof fn law_ended_operation_is_idle(state: State, reply: Reply)
    requires
        state.wf(),
        state.expects(reply),
        !(state.resume(reply).1 is Ask),
    ensures
        state.resume(reply).0.phase is Idle,
        state.resume(reply).0.request() is None,
{
}

/// As long as an operation asks for a call, that call is the one that the
/// controller awaits.
pub proof fn law_asked_call_is_awaited(state: State, reply: Reply)
    requires
        state.wf(),
        state.expects(reply),
        state.resume(reply).1 is Ask,
    ensures
        state.resume(reply).0.request() == Some(state.resume(reply).1->Ask_0),
{
}

/// A call that fails ends the operation under way with its error, and the
/// controller keeps what it held: nothing but the awaited call changes.
pub proof fn law_failed_call_commits_nothing(state: State, error: Error)
    ensures
        state.resume(Reply::Failed(error)) == (state.idle(), ProgressView::Failed(error)),
        state.idle().breakpoints == state.breakpoints,
        state.idle().registers == state.registers,
        state.idle().stack == state.stack,
        state.idle().wait_status == state.wait_status,
{
}

/// A read of no bytes, and one of no words, is done at once with nothing,
/// and nothing is asked of the child.
pub proof fn law_empty_read(state: State, from: u64)
    ensures
        state.read_bytes(from, 0) == (state, ProgressView::Bytes(Seq::empty())),
        state.read_words(from, 0) == (state, ProgressView::Words(Seq::empty())),
{
}

} // verus!
