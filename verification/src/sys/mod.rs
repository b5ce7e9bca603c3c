//! What the operating system hands back, turned into typed values.
//!
//! The calls themselves are made by the caller. The functions here take the
//! raw numbers that came back and decide what they mean.

use vstd::prelude::*;
use crate::error::Error;
use crate::sys::ptrace::Request;
use vstd::string::StringExecFns;

pub mod ptrace;

verus! {

/// On which side of a fork the caller finds itself.
#[derive(Clone, Copy, Debug, PartialEq, Eq, Structural)]
pub enum Fork {
    /// In the process that forked; the value is the child's process id.
    Parent(i32),
    /// In the new process.
    Child,
}

/// The state change of a child that a wait observed.
#[derive(Clone, Copy, Debug, PartialEq, Eq, Structural)]
pub enum WaitStatus {
    /// Stopped by the signal given second.
    Stopped(i32, i32),
    /// Resumed by a continue signal.
    Continued(i32),
    /// Exited normally with the code given second.
    Exited(i32, i32),
    /// Killed by the signal given second.
    Signaled(i32, i32),
    /// None of the above; the raw status word is kept.
    Unknown(i32, i32),
}

/// The low seven bits of a status word: the signal that ended the child.
pub open spec fn termination_field(status: i32) -> i32 {
    status & 0x7f
}

/// The second byte of a status word: an exit code or a stop signal.
pub open spec fn detail_field(status: i32) -> i32 {
    (status >> 8) & 0xff
}

/// The meaning of a raw status word for the child `pid`.
pub open spec fn decoded_status(pid: i32, status: i32) -> WaitStatus {
    if status & 0xff == 0x7f {
        WaitStatus::Stopped(pid, detail_field(status))
    } else if termination_field(status) == 0 {
        WaitStatus::Exited(pid, detail_field(status))
    } else if status == 0xffff {
        WaitStatus::Continued(pid)
    } else if termination_field(status) != 0x7f {
        WaitStatus::Signaled(pid, termination_field(status))
    } else {
        WaitStatus::Unknown(pid, status)
    }
}

/// `libc::WIFSTOPPED`: the low byte of the status word is `0x7f`.
pub assume_specification[ libc::WIFSTOPPED ](status: libc::c_int) -> (r: bool)
    ensures
        r == (status & 0xff == 0x7f),
;

/// `libc::WSTOPSIG`: the second byte of the status word.
pub assume_specification[ libc::WSTOPSIG ](status: libc::c_int) -> (r: libc::c_int)
    ensures
        r == (status >> 8) & 0xff,
;

/// `libc::WIFEXITED`: the low seven bits of the status word are zero.
pub assume_specification[ libc::WIFEXITED ](status: libc::c_int) -> (r: bool)
    ensures
        r == (status & 0x7f == 0),
;

/// `libc::WEXITSTATUS`: the second byte of the status word.
pub assume_specification[ libc::WEXITSTATUS ](status: libc::c_int) -> (r: libc::c_int)
    ensures
        r == (status >> 8) & 0xff,
;

/// `libc::WIFCONTINUED`: the status word is `0xffff`.
pub assume_specification[ libc::WIFCONTINUED ](status: libc::c_int) -> (r: bool)
    ensures
        r == (status == 0xffff),
;

/// `libc::WIFSIGNALED`: the low seven bits, plus one and cut to a signed byte,
/// are at least two.
pub assume_specification[ libc::WIFSIGNALED ](status: libc::c_int) -> (r: bool)
    ensures
        r == ((((status & 0x7f) + 1) as i8) >= 2),
;

/// `libc::WTERMSIG`: the low seven bits of the status word.
pub assume_specification[ libc::WTERMSIG ](status: libc::c_int) -> (r: libc::c_int)
    ensures
        r == status & 0x7f,
;

/// Turns the result of a call and the error number it left behind into a
/// `Result`: the call failed exactly when the error number is not zero.
pub fn errwrap<T>(result: T, errno: i32) -> (r: Result<T, Error>)
    ensures
        errno == 0 ==> r == Ok::<T, Error>(result),
        errno != 0 ==> r == Err::<T, Error>(Error::Errno(errno)),
{
    if errno == 0 {
        Ok(result)
    } else {
        Err(Error::Errno(errno))
    }
}

/// Reads the value that a fork returned: a negative one is the negated error
/// number, zero means the child, anything else is the child's process id.
pub fn fork(ret: i32) -> (r: Result<Fork, Error>)
    requires
        ret > i32::MIN,
    ensures
        ret < 0 ==> r == Err::<Fork, Error>(Error::Errno((-ret) as i32)),
        ret == 0 ==> r == Ok::<Fork, Error>(Fork::Child),
        ret > 0 ==> r == Ok::<Fork, Error>(Fork::Parent(ret)),
{
    if ret < 0 {
        Err(Error::Errno(-ret))
    } else if ret == 0 {
        Ok(Fork::Child)
    } else {
        Ok(Fork::Parent(ret))
    }
}

/// Looks at a command before the image of the process is replaced by it. The
/// command must name a program: an empty one is refused. Otherwise the call
/// to make is [`Request::Exec`].
pub fn execvp(cmd: &Vec<String>) -> (r: Result<Request, Error>)
    ensures
        cmd@.len() == 0 <==> r is Err,
        r matches Err(error) ==> error matches Error::Domain(text) && text@
            == "command cannot be empty"@,
        r matches Ok(request) ==> request == Request::Exec,
{
    if cmd.len() == 0 {
        return Err(Error::Domain(String::from_str("command cannot be empty")));
    }
    Ok(Request::Exec)
}

/// Reads what a wait returned: the process id, the raw status word, and the
/// error number left behind.
pub fn wait(pid: i32, status: i32, errno: i32) -> (r: Result<WaitStatus, Error>)
    ensures
        errno == 0 ==> r == Ok::<WaitStatus, Error>(decoded_status(pid, status)),
        errno != 0 ==> r == Err::<WaitStatus, Error>(Error::Errno(errno)),
{
    if errno != 0 {
        return Err(Error::Errno(errno));
    }
    let decoded = if libc::WIFSTOPPED(status) {
        WaitStatus::Stopped(pid, libc::WSTOPSIG(status))
    } else if libc::WIFEXITED(status) {
        WaitStatus::Exited(pid, libc::WEXITSTATUS(status))
    } else if libc::WIFCONTINUED(status) {
        WaitStatus::Continued(pid)
    } else if libc::WIFSIGNALED(status) {
        WaitStatus::Signaled(pid, libc::WTERMSIG(status))
    } else {
        WaitStatus::Unknown(pid, status)
    };
    proof {
        assert(((((status & 0x7f) + 1) as i8) >= 2) == (status & 0x7f != 0 && status & 0x7f
            != 0x7f)) by (bit_vector);
    }
    Ok(decoded)
}

} // verus!
