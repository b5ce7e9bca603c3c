use debugger::error::Error;
use debugger::sys::{errwrap, fork, wait, Fork, WaitStatus};

#[test]
fn wait_decodes_a_stop() {
    assert_eq!(wait(7, 0x057f, 0), Ok(WaitStatus::Stopped(7, 5)));
}

#[test]
fn wait_decodes_an_exit() {
    assert_eq!(wait(7, 0x0300, 0), Ok(WaitStatus::Exited(7, 3)));
    assert_eq!(wait(7, 0, 0), Ok(WaitStatus::Exited(7, 0)));
}

#[test]
fn wait_decodes_a_continuation() {
    assert_eq!(wait(7, 0xffff, 0), Ok(WaitStatus::Continued(7)));
}

#[test]
fn wait_decodes_a_kill() {
    assert_eq!(wait(7, 9, 0), Ok(WaitStatus::Signaled(7, 9)));
    assert_eq!(wait(7, 0x8b, 0), Ok(WaitStatus::Signaled(7, 11)));
}

#[test]
fn wait_keeps_what_it_cannot_decode() {
    assert_eq!(wait(7, 0xff, 0), Ok(WaitStatus::Unknown(7, 0xff)));
    assert_eq!(wait(7, 0x1ffff, 0), Ok(WaitStatus::Unknown(7, 0x1ffff)));
}

#[test]
fn wait_reports_the_error_number() {
    assert_eq!(wait(-1, 0, 10), Err(Error::Errno(10)));
}

#[test]
fn fork_reads_the_return_value() {
    assert_eq!(fork(0), Ok(Fork::Child));
    assert_eq!(fork(4242), Ok(Fork::Parent(4242)));
    assert_eq!(fork(-11), Err(Error::Errno(11)));
}

#[test]
fn errwrap_goes_by_the_error_number() {
    assert_eq!(errwrap(-1i64, 0), Ok(-1));
    assert_eq!(errwrap(5i64, 3), Err(Error::Errno(3)));
}

#[test]
fn execvp_refuses_an_empty_command() {
    let empty: Vec<String> = Vec::new();
    assert_eq!(
        debugger::sys::execvp(&empty),
        Err(Error::Domain("command cannot be empty".to_string()))
    );
}

#[test]
fn execvp_asks_for_the_image_to_be_replaced() {
    let cmd = vec!["/toy".to_string(), "-v".to_string()];
    assert_eq!(debugger::sys::execvp(&cmd), Ok(debugger::sys::ptrace::Request::Exec));
}
