//! The controller of a traced child process, written so that every decision
//! it takes is verified.
//!
//! The library performs no system call itself. A control operation hands out a
//! [`sys::ptrace::Request`]; the caller carries it out and gives the
//! [`sys::ptrace::Reply`] back, until the operation is done.
//!
//! The target is x86-64: a machine word has eight bytes, the lowest byte of a
//! word is the one at the word's address, and the trap instruction is one byte
//! long.

pub mod debugger;
pub mod error;
pub mod sys;
pub mod tui;

