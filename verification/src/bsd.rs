//! The BSD backend: a kernel event queue with a one-shot filter for the exit
//! of one process.
//!
//! The kernel delivers the exit event once. A wait that has retrieved it
//! must remember that it did, or every later wait would block for ever on a
//! queue that has nothing more to say. So the handle is one of two things:
//! a queue that is still to deliver the event, or the mark that the event was
//! seen. The second needs no kernel any more.
//!
//! Creating the queue, registering the filter and retrieving the event are
//! calls that this module does not make. It holds the decisions around them.
//! The caller validates the identifier with [`check_pid`] before it asks the
//! kernel for anything; [`open`] says what handle the answer to the
//! registration makes; and [`wait`] says, from the handle and from what the
//! kernel answered last, what a wait does next and what becomes of the
//! handle.
//!
//! [`check_pid`]: crate::posix::check_pid

use vstd::prelude::*;
use std::time::Duration;
use rustix::fd::OwnedFd;
use rustix::io::Errno;
use crate::error::WaitError;
use crate::posix::{interpret, os_error, step_of, Step};
use crate::sys::errno_code;
use crate::timeout::{expiry, expiry_of, Timespec};

verus! {

/// A handle to one process: the queue that will report its exit, or the
/// memory that it did.
#[derive(Debug)]
pub enum WaitHandle {
    /// The event queue on which the exit filter is registered. The exit has
    /// not been seen yet.
    KQueue(OwnedFd),
    /// The exit was seen. The queue is closed, and no wait touches the
    /// kernel again.
    Exited,
}

impl WaitHandle {
    /// Whether a wait on this handle has seen the process exit.
    pub open spec fn has_exited(self) -> bool {
        self is Exited
    }

    /// The queue to retrieve the exit event from, or `None` once the exit
    /// was seen.
    pub fn queue(&self) -> (queue: Option<&OwnedFd>)
        ensures
            queue is None <==> self.has_exited(),
            queue matches Some(kqueue) ==> *self == WaitHandle::KQueue(*kqueue),
    {
        match self {
            WaitHandle::KQueue(kqueue) => Some(kqueue),
            WaitHandle::Exited => None,
        }
    }
}

/// What the caller of [`wait`] does next.
#[derive(Debug, Clone, Copy, PartialEq, Eq)]
pub enum Action {
    /// Retrieve at most one event from the handle's queue, blocking for as
    /// long as the timeout says, or without end for `None`; then call
    /// [`wait`] again with the kernel's answer.
    Retrieve(Option<Timespec>),
    /// The wait is over, with this result.
    Done(Result<Option<()>, WaitError>),
}

/// The handle, or the error, that the kernel's answer to creating a queue
/// and registering the exit filter amounts to.
pub open spec fn opened(registered: Result<OwnedFd, Errno>) -> Result<WaitHandle, WaitError> {
    match registered {
        Ok(kqueue) => Ok(WaitHandle::KQueue(kqueue)),
        Err(e) => Err(WaitError::Os(errno_code(e))),
    }
}

/// Makes the handle of a queue on which the exit filter was registered.
///
/// `registered` is the kernel's answer to creating the queue and registering
/// the filter on it: the queue, or the error of whichever of the two failed.
/// A queue becomes a handle that has not seen the exit; an error is passed
/// on with the kernel's code.
pub fn open(registered: Result<OwnedFd, Errno>) -> (handle: Result<WaitHandle, WaitError>)
    ensures
        handle == opened(registered),
        handle matches Ok(h) ==> !h.has_exited(),
{
    match registered {
        Ok(kqueue) => Ok(WaitHandle::KQueue(kqueue)),
        Err(e) => Err(os_error(e)),
    }
}

/// The handle after one step of a wait, and what the caller does next.
///
/// `retrieved` is the kernel's answer to the last retrieval of at most one
/// event: how many events it retrieved, or its error. It is `None` where
/// this wait has not asked yet.
///
/// A handle that has seen the exit stays as it is and ends the wait with
/// success, whatever the timeout and whatever `retrieved` holds. Otherwise:
///
/// - before anything was retrieved, and after a retrieval that a signal
///   interrupted, the kernel is asked, with the timeout that [`expiry_of`]
///   makes of `timeout`, and the handle stays as it is;
/// - a retrieval of no event says that the timeout ran out: the wait is
///   over without success, and the handle stays as it is;
/// - a retrieval of an event says that the process has exited: the wait is
///   over with success, and the handle becomes [`WaitHandle::Exited`];
/// - any other error ends the wait and is passed on with the kernel's code,
///   and the handle stays as it is.
pub open spec fn wait_step(
    handle: WaitHandle,
    timeout: Option<Duration>,
    retrieved: Option<Result<usize, Errno>>,
) -> (WaitHandle, Action) {
    if handle.has_exited() {
        (WaitHandle::Exited, Action::Done(Ok(Some(()))))
    } else {
        match retrieved {
            None => (handle, Action::Retrieve(expiry_of(timeout))),
            Some(answer) => match step_of(answer) {
                Step::Again => (handle, Action::Retrieve(expiry_of(timeout))),
                Step::Done(Ok(Some(_))) => (WaitHandle::Exited, Action::Done(Ok(Some(())))),
                Step::Done(outcome) => (handle, Action::Done(outcome)),
            },
        }
    }
}

/// One step of a wait for the exit, with a timeout or, for `None`, without
/// end: see [`wait_step`].
///
/// The caller starts a wait with `None` for `retrieved`. Each time the
/// action is [`Action::Retrieve`], it retrieves at most one event from
/// [`WaitHandle::queue`] with the timeout that the action names, and hands
/// the kernel's answer to the next call, until the action is
/// [`Action::Done`].
pub fn wait(
    handle: &mut WaitHandle,
    timeout: Option<Duration>,
    retrieved: Option<Result<usize, Errno>>,
) -> (action: Action)
    ensures
        (*final(handle), action) == wait_step(*old(handle), timeout, retrieved),
{
    if let WaitHandle::Exited = handle {
        return Action::Done(Ok(Some(())));
    }
    let step = match retrieved {
        None => Step::Again,
        Some(answer) => interpret(answer),
    };
    match step {
        Step::Again => Action::Retrieve(expiry(timeout)),
        Step::Done(outcome) => {
            if let Ok(Some(_)) = outcome {
                *handle = WaitHandle::Exited;
            }
            Action::Done(outcome)
        },
    }
}

/// One call of [`wait`] as its caller sees it: the timeout, and what the
/// kernel answered last.
pub type Call = (Option<Duration>, Option<Result<usize, Errno>>);

/// The handle after a run of steps.
pub open spec fn after(handle: WaitHandle, calls: Seq<Call>) -> WaitHandle
    decreases calls.len(),
{
    if calls.len() == 0 {
        handle
    } else {
        after(wait_step(handle, calls.first().0, calls.first().1).0, calls.drop_first())
    }
}

/// Only the exit fuses a handle.
///
/// A step that ends the wait with success leaves the handle fused. Every
/// other step leaves the handle as it was: one that asks the kernel, one
/// that ends the wait because the timeout ran out, and one that ends it with
/// an error.
pub proof fn lemma_only_exit_fuses(
    handle: WaitHandle,
    timeout: Option<Duration>,
    retrieved: Option<Result<usize, Errno>>,
)
    ensures
        wait_step(handle, timeout, retrieved).1 == Action::Done(Ok(Some(()))) ==> wait_step(
            handle,
            timeout,
            retrieved,
        ).0.has_exited(),
        wait_step(handle, timeout, retrieved).1 != Action::Done(Ok(Some(()))) ==> wait_step(
            handle,
            timeout,
            retrieved,
        ).0 == handle,
{
}

/// A handle that has seen the exit keeps saying so: after any number of
/// steps, one more step ends the wait with success and leaves the handle
/// fused.
proof fn lemma_fused_stays_fused(handle: WaitHandle, calls: Seq<Call>, next: Call)
    requires
        handle.has_exited(),
    ensures
        after(handle, calls).has_exited(),
        wait_step(after(handle, calls), next.0, next.1) == (
            WaitHandle::Exited,
            Action::Done(Ok(Some(()))),
        ),
    decreases calls.len(),
{
    if calls.len() > 0 {
        lemma_fused_stays_fused(
            wait_step(handle, calls.first().0, calls.first().1).0,
            calls.drop_first(),
            next,
        );
    }
}

/// Once a wait has seen the process exit, every later wait succeeds at once.
///
/// Let a step on any handle end the wait with success: that step saw the
/// exit, or the handle had seen it before. Let any number of steps follow,
/// with any timeouts and with whatever the kernel is taken to have
/// answered, and then one more, `next`. That step ends the wait with
/// success, whatever its timeout; it does not ask the kernel; and the handle
/// is fused after it as it was before.
pub proof fn lemma_exit_is_remembered(
    handle: WaitHandle,
    observed: Call,
    calls: Seq<Call>,
    next: Call,
)
    requires
        wait_step(handle, observed.0, observed.1).1 == Action::Done(Ok(Some(()))),
    ensures
        after(wait_step(handle, observed.0, observed.1).0, calls).has_exited(),
        wait_step(after(wait_step(handle, observed.0, observed.1).0, calls), next.0, next.1) == (
            WaitHandle::Exited,
            Action::Done(Ok(Some(()))),
        ),
{
    lemma_fused_stays_fused(wait_step(handle, observed.0, observed.1).0, calls, next);
}

} // verus!
