//! The making of a traced child, step by step.
//!
//! The process forks. The new process lets itself be traced and replaces its
//! image by the command; the stop that the new image brings is the first
//! thing its controller sees. The old process reads the symbols of the
//! command's executable and gets the controller.

use vstd::prelude::*;
use crate::debugger::subordinate::{State, Subordinate};
use crate::debugger::symbols::DebugInfo;
use crate::error::Error;
use crate::sys::ptrace::{Reply, Request};
use crate::sys::{execvp, Fork};

verus! {

/// Which call, if any, the making of a child is waiting for.
#[derive(Clone, Copy, Debug, PartialEq, Eq, Structural)]
pub enum SpawnPhase {
    /// The fork.
    Forking,
    /// In the new process: the mark that lets the parent trace it.
    Marking,
    /// In the new process: the replacement of the image.
    Executing,
    /// The reading of the symbols.
    Loading,
    /// None: the making has ended.
    Over,
}

/// The making of a traced child, under way.
#[derive(Debug)]
pub struct Spawn {
    cmd: Vec<String>,
    pid: i32,
    phase: SpawnPhase,
}

/// How far the making of a child has come.
#[derive(Debug)]
pub enum Spawned {
    /// This call has to be made; resume with the reply.
    Ask(Request),
    /// The child is made, and this is its controller. It awaits the child's
    /// first stop.
    Ready(Subordinate),
    /// The making has failed.
    Failed(Error),
}

/// [`Spawn`] as a mathematical value.
pub struct SpawnState {
    /// The command, argument by argument.
    pub command: Seq<String>,
    /// The process id of the child; zero as long as it is not known.
    pub pid: i32,
    /// The call that is awaited.
    pub phase: SpawnPhase,
}

/// [`Spawned`] as a mathematical value.
pub enum SpawnedView {
    Ask(Request),
    Ready(State, DebugInfo),
    Failed(Error),
}

impl View for Spawn {
    type V = SpawnState;

    closed spec fn view(&self) -> SpawnState {
        SpawnState { command: self.cmd@, pid: self.pid, phase: self.phase }
    }
}

impl View for Spawned {
    type V = SpawnedView;

    open spec fn view(&self) -> SpawnedView {
        match *self {
            Spawned::Ask(request) => SpawnedView::Ask(request),
            Spawned::Ready(subordinate) => SpawnedView::Ready(subordinate@, subordinate.symbols()),
            Spawned::Failed(error) => SpawnedView::Failed(error),
        }
    }
}

impl SpawnState {
    /// The making of a child by `command`, before anything was done.
    pub open spec fn begun(command: Seq<String>) -> SpawnState {
        SpawnState { command, pid: 0, phase: SpawnPhase::Forking }
    }

    /// The call that is awaited.
    pub open spec fn request(self) -> Option<Request> {
        match self.phase {
            SpawnPhase::Forking => Some(Request::Fork),
            SpawnPhase::Marking => Some(Request::TraceMe),
            SpawnPhase::Executing => Some(Request::Exec),
            SpawnPhase::Loading => Some(Request::LoadSymbols),
            SpawnPhase::Over => None,
        }
    }

    /// Whether `reply` may be handed over now: it answers the call that is
    /// awaited.
    pub open spec fn expects(self, reply: Reply) -> bool {
        self.request() matches Some(request) && request.accepts(reply)
    }

    /// This making with `phase` as its phase.
    pub open spec fn at(self, phase: SpawnPhase) -> SpawnState {
        SpawnState { phase, ..self }
    }

    /// What the making does with the reply to the call it awaits. A failed
    /// call ends it with the call's error.
    pub open spec fn resume(self, reply: Reply) -> (SpawnState, SpawnedView) {
        match reply {
            Reply::Failed(error) => (self.at(SpawnPhase::Over), SpawnedView::Failed(error)),
            Reply::Forked(Fork::Parent(pid)) => (
                SpawnState { pid, ..self }.at(SpawnPhase::Loading),
                SpawnedView::Ask(Request::LoadSymbols),
            ),
            Reply::Forked(Fork::Child) => (
                self.at(SpawnPhase::Marking),
                SpawnedView::Ask(Request::TraceMe),
            ),
            Reply::Symbols(debug_info) => (
                self.at(SpawnPhase::Over),
                SpawnedView::Ready(State::spawned(self.pid), debug_info),
            ),
            Reply::Done => match self.phase {
                SpawnPhase::Marking => (
                    self.at(SpawnPhase::Executing),
                    SpawnedView::Ask(Request::Exec),
                ),
                _ => (self.at(SpawnPhase::Loading), SpawnedView::Ask(Request::LoadSymbols)),
            },
            _ => (self, SpawnedView::Ask(Request::Fork)),
        }
    }
}

impl Spawn {
    /// The command has at least its first argument, the program.
    pub closed spec fn wf(&self) -> bool {
        self.cmd@.len() > 0
    }

    /// The call that is awaited, if the making has not ended.
    pub fn request(&self) -> (r: Option<Request>)
        ensures
            r == self@.request(),
    {
        match self.phase {
            SpawnPhase::Forking => Some(Request::Fork),
            SpawnPhase::Marking => Some(Request::TraceMe),
            SpawnPhase::Executing => Some(Request::Exec),
            SpawnPhase::Loading => Some(Request::LoadSymbols),
            SpawnPhase::Over => None,
        }
    }

    /// Tells whether `reply` may be handed to [`Spawn::resume`] now.
    pub fn expects(&self, reply: &Reply) -> (r: bool)
        ensures
            r == self@.expects(*reply),
    {
        match self.request() {
            Some(request) => request.answered_by(reply),
            None => false,
        }
    }

    /// The command: the program to run and its arguments. The new process
    /// replaces its image by it, and the symbols are read from the file that
    /// its first argument names.
    pub fn command(&self) -> (r: &Vec<String>)
        requires
            self.wf(),
        ensures
            r@ == self@.command,
            r@.len() > 0,
    {
        &self.cmd
    }

    /// Hands the reply to the awaited call to the making, which goes on.
    pub fn resume(&mut self, reply: Reply) -> (r: Spawned)
        requires
            old(self).wf(),
            old(self)@.expects(reply),
        ensures
            final(self).wf(),
            final(self)@ == old(self)@.resume(reply).0,
            r@ == old(self)@.resume(reply).1,
            r matches Spawned::Ready(subordinate) ==> subordinate@.wf(),
    {
        match reply {
            Reply::Failed(error) => {
                self.phase = SpawnPhase::Over;
                Spawned::Failed(error)
            },
            Reply::Forked(Fork::Parent(pid)) => {
                self.pid = pid;
                self.phase = SpawnPhase::Loading;
                Spawned::Ask(Request::LoadSymbols)
            },
            Reply::Forked(Fork::Child) => {
                self.phase = SpawnPhase::Marking;
                Spawned::Ask(Request::TraceMe)
            },
            Reply::Symbols(debug_info) => {
                self.phase = SpawnPhase::Over;
                Spawned::Ready(Subordinate::new(self.pid, debug_info))
            },
            Reply::Done => match self.phase {
                SpawnPhase::Marking => match execvp(&self.cmd) {
                    Ok(request) => {
                        self.phase = SpawnPhase::Executing;
                        Spawned::Ask(request)
                    },
                    Err(error) => {
                        self.phase = SpawnPhase::Over;
                        Spawned::Failed(error)
                    },
                },
                _ => {
                    self.phase = SpawnPhase::Loading;
                    Spawned::Ask(Request::LoadSymbols)
                },
            },
            _ => Spawned::Ask(Request::Fork),
        }
    }
}

impl Subordinate {
    /// Begins to make a traced child that runs `cmd`. An empty command is
    /// refused at once, before anything is asked for.
    pub fn spawn(cmd: Vec<String>) -> (r: Result<Spawn, Error>)
        ensures
            cmd@.len() == 0 <==> r is Err,
            r matches Err(error) ==> error matches Error::Domain(text) && text@
                == "command cannot be empty"@,
            r matches Ok(spawn) ==> spawn.wf() && spawn@ == SpawnState::begun(cmd@),
    {
        match execvp(&cmd) {
            Ok(_) => Ok(Spawn { cmd, pid: 0, phase: SpawnPhase::Forking }),
            Err(error) => Err(error),
        }
    }
}

} // verus!
