//! The Linux backend: a process file descriptor, polled for readability.
//!
//! The descriptor is opened once and names the same process for as long as it
//! lives, whatever becomes of the identifier. The kernel reports it readable
//! from the moment the process exits and for ever after, so a wait that has
//! seen the exit finds it again on every later poll, and the handle needs to
//! remember nothing.

use vstd::prelude::*;
use std::time::Duration;
use rustix::fd::OwnedFd;
use rustix::io::Errno;
use rustix::process::PidfdFlags;
use crate::error::WaitError;
use crate::posix::{check_pid, interpret, is_valid_pid, os_error, Step, EINTR};
use crate::sys::{errno_code, poll_readable};
use crate::timeout::expiry;

verus! {

/// A handle on Linux is the process file descriptor itself.
pub type WaitHandle = OwnedFd;

/// How often one wait asks the kernel again after interruptions by signals,
/// before it reports the interruption.
pub const REISSUE_LIMIT: u64 = u64::MAX;

/// The handle, or the error, that the kernel's answer to opening a process
/// file descriptor amounts to: the descriptor is the handle, and the
/// kernel's error code is passed on as it is.
pub open spec fn adopted(opened: Result<OwnedFd, Errno>) -> Result<WaitHandle, WaitError> {
    match opened {
        Ok(pidfd) => Ok(pidfd),
        Err(e) => Err(WaitError::Os(errno_code(e))),
    }
}

/// Turns the kernel's answer to opening a process file descriptor into the
/// result of [`open`]: see [`adopted`].
pub fn adopt(opened: Result<OwnedFd, Errno>) -> (handle: Result<WaitHandle, WaitError>)
    ensures
        handle == adopted(opened),
{
    match opened {
        Ok(pidfd) => Ok(pidfd),
        Err(e) => Err(os_error(e)),
    }
}

/// Opens a handle to the process with the identifier `pid`.
///
/// An identifier that is not positive is refused with
/// [`WaitError::InvalidPid`], and the kernel is not asked. For a positive
/// one the kernel is asked for a process file descriptor with no flags set,
/// and its answer is the result: the handle, or [`WaitError::Os`] with the
/// kernel's code (no such process, permission denied, a kernel too old to
/// know the call).
pub fn open(pid: i32) -> (handle: Result<WaitHandle, WaitError>)
    ensures
        !is_valid_pid(pid) ==> handle == Err::<WaitHandle, WaitError>(WaitError::InvalidPid(pid)),
        is_valid_pid(pid) ==> handle is Ok || (handle is Err && handle->Err_0 is Os),
{
    match check_pid(pid) {
        Ok(pid) => adopt(rustix::process::pidfd_open(pid, PidfdFlags::empty())),
        Err(invalid) => Err(invalid),
    }
}

/// Blocks until the process exits or the timeout runs out, whichever comes
/// first; `None` is a wait without end.
///
/// The descriptor is polled for readability with the timeout that
/// [`expiry`] makes of `timeout`. `Ok(Some(()))` says that the process has
/// exited, `Ok(None)` that the timeout ran out first, which a wait without
/// end never reports. A poll that a signal interrupted is issued again, up
/// to [`REISSUE_LIMIT`] times. Any other error of the kernel ends the wait
/// and is returned with its code. The handle is the same after the call as
/// before it, whatever the result.
pub fn wait(pidfd: &mut WaitHandle, timeout: Option<Duration>) -> (outcome: Result<
    Option<()>,
    WaitError,
>)
    ensures
        *final(pidfd) == *old(pidfd),
        timeout is None ==> outcome != Ok::<Option<()>, WaitError>(None),
        outcome matches Err(e) ==> e is Os,
{
    let kernel_timeout = expiry(timeout);
    let mut reissued: u64 = 0;
    loop
        invariant
            *pidfd == *old(pidfd),
            kernel_timeout is None <==> timeout is None,
        decreases REISSUE_LIMIT - reissued,
    {
        match interpret(poll_readable(pidfd, kernel_timeout)) {
            Step::Done(outcome) => {
                return outcome;
            },
            Step::Again => {
                if reissued == REISSUE_LIMIT {
                    return Err(WaitError::Os(EINTR));
                }
                reissued = reissued + 1;
            },
        }
    }
}

} // verus!
