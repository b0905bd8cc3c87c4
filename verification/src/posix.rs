//! What the POSIX backends share: process identifiers, the kernel's error
//! codes, and the reading of what one blocking call reported.
//!
//! Both POSIX notification primitives answer a wait in the same way: with the
//! number of notifications that fired, or with an error code. This module
//! turns such an answer into the next thing a wait does.

use vstd::prelude::*;
use rustix::io::Errno;
use rustix::process::Pid;
use crate::error::WaitError;
use crate::sys::{errno_code, pid_from_raw};

verus! {

/// The error code with which a blocking call reports that a signal cut it
/// short. It says nothing about the process waited for.
pub const EINTR: i32 = 4;

/// Whether `pid` can name a process: it has to be positive.
pub open spec fn is_valid_pid(pid: i32) -> bool {
    pid > 0
}

/// Validates a process identifier, before anything is asked of the kernel.
///
/// A positive number is handed back as the identifier it denotes; zero and
/// negative numbers are refused with [`WaitError::InvalidPid`].
pub fn check_pid(pid: i32) -> (checked: Result<Pid, WaitError>)
    ensures
        is_valid_pid(pid) ==> checked is Ok && Some(checked->Ok_0) == pid_from_raw(pid),
        !is_valid_pid(pid) ==> checked == Err::<Pid, WaitError>(WaitError::InvalidPid(pid)),
{
    if pid <= 0 {
        return Err(WaitError::InvalidPid(pid));
    }
    match Pid::from_raw(pid) {
        Some(valid) => Ok(valid),
        None => Err(WaitError::InvalidPid(pid)),
    }
}

/// The library's error for a call that the kernel rejected: the kernel's own
/// code, neither wrapped nor reinterpreted.
pub fn os_error(e: Errno) -> (error: WaitError)
    ensures
        error == WaitError::Os(errno_code(e)),
{
    WaitError::Os(e.raw_os_error())
}

/// What a wait does after the kernel has answered one blocking call.
#[derive(Debug, Clone, Copy, PartialEq, Eq)]
pub enum Step {
    /// The answer says nothing about the process: ask the kernel again.
    Again,
    /// The wait is over, with this result: `Ok(Some(()))` for a process that
    /// has exited, `Ok(None)` for a timeout that ran out, or the error.
    Done(Result<Option<()>, WaitError>),
}

/// The step that an answer of the kernel leads to.
///
/// The answer is the number of notifications that fired, or an error. No
/// notification means that the timeout ran out. Any notification means that
/// the process has exited. An interruption by a signal is no answer at all,
/// and every other error ends the wait.
pub open spec fn step_of(answer: Result<usize, Errno>) -> Step {
    match answer {
        Ok(fired) => if fired == 0 {
            Step::Done(Ok(None))
        } else {
            Step::Done(Ok(Some(())))
        },
        Err(e) => if errno_code(e) == EINTR {
            Step::Again
        } else {
            Step::Done(Err(WaitError::Os(errno_code(e))))
        },
    }
}

/// Reads the kernel's answer to one blocking call: see [`step_of`].
pub fn interpret(answer: Result<usize, Errno>) -> (step: Step)
    ensures
        step == step_of(answer),
{
    match answer {
        Ok(fired) => {
            if fired == 0 {
                Step::Done(Ok(None))
            } else {
                Step::Done(Ok(Some(())))
            }
        },
        Err(e) => {
            if e.raw_os_error() == EINTR {
                Step::Again
            } else {
                Step::Done(Err(os_error(e)))
            }
        },
    }
}

} // verus!
