//! Waiting for the exit of any process, not only of a child.
//!
//! The wait that POSIX offers for child processes fails at once for any
//! other process. This library opens a handle to a process by its
//! identifier and waits on the handle, with or without a timeout, until the
//! process exits. Why and with what status the process exited, no platform
//! tells for a process that is not a child, and the library does not either.
//!
//! The handle refers to the process that had the identifier when the handle
//! was opened, and goes on referring to it when the identifier is given to
//! another process later. Before the handle is open nothing holds the
//! identifier: a process can exit, be reaped and have its identifier given
//! away between any two looks at it, so open the handle as early as
//! possible. An identifier that names no process any more is refused by the
//! operating system; whether that counts as "already exited" is for the
//! caller to decide.
//!
//! Each platform has its own means:
//!
//! - [`linux`]: a process file descriptor, polled for readability. This
//!   backend stands whole in the library, and [`WaitHandle`] is built on it.
//! - [`bsd`]: a kernel event queue with a one-shot filter for the exit.
//! - [`windows`]: a process handle, waited on as a single object.
//!
//! The last two need calls that only code outside this library can make. The
//! library holds what is decided around those calls; the caller makes them
//! and hands over what the system answered.
//!
//! Beside the backends stand what they share: [`error`] for what can go
//! wrong, [`posix`] for process identifiers and for the reading of a POSIX
//! kernel's answers, [`timeout`] for the timeouts that a kernel is handed,
//! and [`sys`] for the calls into `rustix` and `std` whose behaviour the
//! library takes on trust.

use vstd::prelude::*;
use std::time::Duration;
use crate::posix::is_valid_pid;

pub use crate::error::WaitError;

pub mod bsd;
pub mod error;
pub mod linux;
pub mod posix;
pub mod sys;
pub mod timeout;
pub mod windows;

verus! {

/// A handle to one process, to wait for its exit, which it remembers.
///
/// See [`WaitHandle::open`]. Waiting takes the handle by exclusive
/// reference, so no two waits run on one handle at a time.
#[derive(Debug)]
#[must_use]
pub struct WaitHandle(State);

impl WaitHandle {
    /// Opens a handle, which has not seen the exit, to the process `pid`.
    ///
    /// # Errors
    ///
    /// [`WaitError::InvalidPid`] for an identifier that is not positive; the
    /// operating system is not asked. [`WaitError::Os`] with the system's
    /// code where the system refuses the identifier, most often because no
    /// process has it: it never existed, or was reaped before the call.
    pub fn open(pid: i32) -> (handle: Result<Self, WaitError>)
        ensures
            !is_valid_pid(pid) ==> handle == Err::<Self, WaitError>(WaitError::InvalidPid(pid)),
            is_valid_pid(pid) ==> handle is Ok || (handle is Err && handle->Err_0 is Os),
            handle matches Ok(h) ==> !h.has_exited(),
    {
        match linux::open(pid) {
            Ok(imp) => Ok(WaitHandle(State::Pending(imp))),
            Err(e) => Err(e),
        }
    }

    /// Blocks until the process exits.
    ///
    /// `Ok(())` says that the process has exited. The handle remembers it:
    /// every later call returns `Ok(())` at once and asks the system nothing.
    ///
    /// # Errors
    ///
    /// [`WaitError::Os`] with the system's code where the wait itself fails.
    /// The handle is the same after an error as before it.
    pub fn wait(&mut self) -> (outcome: Result<(), WaitError>)
        ensures
            old(self).has_exited() ==> outcome is Ok,
            final(self).has_exited() <==> outcome is Ok,
            outcome matches Err(e) ==> e is Os && *final(self) == *old(self),
    {
        match self.wait_for(None) {
            Ok(Some(_)) => Ok(()),
            Ok(None) => unreached(),
            Err(e) => Err(e),
        }
    }

    /// Blocks until the process exits or `timeout` has passed, whichever
    /// comes first. With a timeout of zero the call does not block.
    ///
    /// `Ok(Some(()))` says that the process has exited. The handle remembers
    /// it: every later call returns `Ok(Some(()))` at once, whatever the
    /// timeout, asking nothing. `Ok(None)` says that the timeout passed first.
    ///
    /// # Errors
    ///
    /// [`WaitError::Os`] with the system's code where the wait itself fails.
    /// The handle is the same after a timeout or an error as before it.
    pub fn wait_timeout(&mut self, timeout: Duration) -> (outcome: Result<Option<()>, WaitError>)
        ensures
            old(self).has_exited() ==> outcome matches Ok(Some(_)),
            final(self).has_exited() <==> outcome matches Ok(Some(_)),
            !(outcome matches Ok(Some(_))) ==> *final(self) == *old(self),
            outcome matches Err(e) ==> e is Os,
    {
        self.wait_for(Some(timeout))
    }

    /// Whether a wait on this handle has seen the process exit.
    pub closed spec fn has_exited(&self) -> bool {
        self.0 is Exited
    }

    /// One wait, with a timeout or, for `None`, without end.
    ///
    /// A handle that has seen the exit answers for itself. Any other asks
    /// the backend, and turns into one that has seen the exit when the
    /// backend reports it; a timeout and an error leave it as it was.
    fn wait_for(&mut self, timeout: Option<Duration>) -> (outcome: Result<Option<()>, WaitError>)
        ensures
            old(self).has_exited() ==> outcome matches Ok(Some(_)),
            final(self).has_exited() <==> outcome matches Ok(Some(_)),
            !(outcome matches Ok(Some(_))) ==> *final(self) == *old(self),
            timeout is None ==> outcome != Ok::<Option<()>, WaitError>(None),
            outcome matches Err(e) ==> e is Os,
    {
        let outcome = match &mut self.0 {
            State::Exited => {
                return Ok(Some(()));
            },
            State::Pending(imp) => linux::wait(imp, timeout),
        };
        if let Ok(Some(_)) = outcome {
            self.0 = State::Exited;
        }
        outcome
    }
}

/// What a handle holds: the backend's handle until a wait has seen the
/// process exit, and nothing but the memory of it afterwards.
#[derive(Debug)]
enum State {
    /// No wait has seen the exit yet.
    Pending(linux::WaitHandle),
    /// A wait has seen the exit. The backend's handle is released, and no
    /// wait asks the system again.
    Exited,
}

} // verus!
