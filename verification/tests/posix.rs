use rustix::io::Errno;
use waitpid_any::error::WaitError;
use waitpid_any::posix::{check_pid, interpret, os_error, Step, EINTR};

#[test]
fn positive_identifiers_are_valid() {
    assert_eq!(check_pid(1).unwrap().as_raw_pid(), 1);
    assert_eq!(check_pid(0xDEAD).unwrap().as_raw_pid(), 0xDEAD);
    assert_eq!(check_pid(i32::MAX).unwrap().as_raw_pid(), i32::MAX);
}

#[test]
fn zero_and_negative_identifiers_are_refused() {
    assert_eq!(check_pid(0), Err(WaitError::InvalidPid(0)));
    assert_eq!(check_pid(-1), Err(WaitError::InvalidPid(-1)));
    assert_eq!(check_pid(i32::MIN), Err(WaitError::InvalidPid(i32::MIN)));
}

#[test]
fn interruption_code_is_the_systems() {
    assert_eq!(EINTR, Errno::INTR.raw_os_error());
}

#[test]
fn os_error_keeps_the_code() {
    assert_eq!(os_error(Errno::SRCH), WaitError::Os(3));
    assert_eq!(os_error(Errno::INVAL), WaitError::Os(22));
    assert_eq!(os_error(Errno::PERM), WaitError::Os(1));
    assert_eq!(os_error(Errno::from_raw_os_error(4095)), WaitError::Os(4095));
}

#[test]
fn no_notification_is_a_timeout() {
    assert_eq!(interpret(Ok(0)), Step::Done(Ok(None)));
}

#[test]
fn any_notification_is_an_exit() {
    assert_eq!(interpret(Ok(1)), Step::Done(Ok(Some(()))));
    assert_eq!(interpret(Ok(2)), Step::Done(Ok(Some(()))));
    assert_eq!(interpret(Ok(usize::MAX)), Step::Done(Ok(Some(()))));
}

#[test]
fn interruption_asks_again() {
    assert_eq!(interpret(Err(Errno::INTR)), Step::Again);
}

#[test]
fn other_errors_end_the_wait() {
    assert_eq!(
        interpret(Err(Errno::BADF)),
        Step::Done(Err(WaitError::Os(Errno::BADF.raw_os_error())))
    );
    assert_eq!(interpret(Err(Errno::INVAL)), Step::Done(Err(WaitError::Os(22))));
    assert_eq!(interpret(Err(Errno::AGAIN)), Step::Done(Err(WaitError::Os(11))));
}
