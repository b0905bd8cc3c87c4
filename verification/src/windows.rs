//! The Windows backend: a process handle with the right to synchronize,
//! waited on with the single-object wait.
//!
//! A process handle is signaled from the moment the process exits and stays
//! so, which makes every wait after the exit return at once; the handle
//! remembers nothing itself.
//!
//! Opening, waiting on and closing the handle are calls that this module
//! does not make. It holds the decisions around them: which process
//! identifier ([`process_id`]) and which timeout ([`timeout_millis`]) the
//! system is handed, and what its answers mean ([`open`], [`wait`]).

use vstd::prelude::*;
use std::time::Duration;
use crate::error::WaitError;
use crate::timeout::{duration_millis, duration_nanos};

verus! {

/// The timeout that stands for a wait without end.
pub const INFINITE: u32 = 0xFFFF_FFFF;

/// The wait's answer for a handle that is signaled: the process has exited.
pub const WAIT_OBJECT_0: u32 = 0;

/// The wait's answer for a timeout that ran out.
pub const WAIT_TIMEOUT: u32 = 258;

/// A handle to one process: the system's handle value, which is never null.
///
/// The value is held as a number. Whoever owns the handle closes it when the
/// owner goes away, whether or not a wait was ever completed.
#[derive(Debug)]
pub struct WaitHandle {
    raw: usize,
}

impl WaitHandle {
    #[verifier::type_invariant]
    spec fn is_not_null(self) -> bool {
        self.raw != 0
    }

    /// The system's handle value.
    pub closed spec fn view(self) -> usize {
        self.raw
    }

    /// The system's handle value, to wait on and to close. It is not null.
    pub fn as_raw(&self) -> (raw: usize)
        ensures
            raw == self@,
            raw != 0,
    {
        proof {
            use_type_invariant(self);
        }
        self.raw
    }
}

/// The process identifier that the system is asked to open for `pid`: the
/// same 32 bits, read as unsigned.
pub open spec fn process_id_of(pid: i32) -> u32 {
    if pid >= 0 {
        pid as u32
    } else {
        (pid + 0x1_0000_0000) as u32
    }
}

/// The process identifier to open for `pid`: see [`process_id_of`].
pub fn process_id(pid: i32) -> (id: u32)
    ensures
        id == process_id_of(pid),
{
    let id: u32 = pid as u32;
    assert(id == process_id_of(pid)) by (bit_vector)
        requires
            id == pid as u32,
    ;
    id
}

/// Makes the handle of what the system answered to opening the process.
///
/// `raw` is the handle value that the system returned, null where it
/// refused; `last_error` is the system's last error code, which counts only
/// in that case. A value that is not null becomes the handle; null is the
/// error with the system's code.
pub fn open(raw: usize, last_error: i32) -> (handle: Result<WaitHandle, WaitError>)
    ensures
        raw != 0 ==> handle is Ok && handle->Ok_0@ == raw,
        raw == 0 ==> handle == Err::<WaitHandle, WaitError>(WaitError::Os(last_error)),
{
    if raw == 0 {
        Err(WaitError::Os(last_error))
    } else {
        Ok(WaitHandle { raw })
    }
}

/// The milliseconds that the system is handed for a timeout.
///
/// No timeout is the system's [`INFINITE`]. A timeout is its whole
/// milliseconds or `INFINITE - 1`, whichever is less: a timeout too long to
/// be told from a wait without end is shortened to the longest that the
/// system still takes for a timeout.
pub open spec fn millis_of(timeout: Option<Duration>) -> u32 {
    match timeout {
        None => INFINITE,
        Some(d) => vstd::math::min(duration_millis(d) as int, INFINITE - 1) as u32,
    }
}

/// The milliseconds to hand to the system for `timeout`: see [`millis_of`].
/// The result is [`INFINITE`] for no timeout, and for no timeout only.
pub fn timeout_millis(timeout: Option<Duration>) -> (millis: u32)
    ensures
        millis == millis_of(timeout),
        millis == INFINITE <==> timeout is None,
{
    match timeout {
        None => INFINITE,
        Some(d) => {
            let whole: u128 = d.as_millis();
            if whole < (INFINITE - 1) as u128 {
                whole as u32
            } else {
                INFINITE - 1
            }
        },
    }
}

/// A timeout of zero reaches the system as zero milliseconds, and not as a
/// wait without end: the system is asked once, and answers without blocking.
pub proof fn lemma_zero_timeout_polls(d: Duration)
    requires
        duration_nanos(d) == 0,
    ensures
        millis_of(Some(d)) == 0,
{
}

/// What the system's answer to a wait means.
///
/// [`WAIT_OBJECT_0`] says that the process has exited, [`WAIT_TIMEOUT`]
/// that the timeout ran out. Every other answer is a failure, reported with
/// the system's last error code.
pub open spec fn outcome_of(waited: u32, last_error: i32) -> Result<Option<()>, WaitError> {
    if waited == WAIT_OBJECT_0 {
        Ok(Some(()))
    } else if waited == WAIT_TIMEOUT {
        Ok(None)
    } else {
        Err(WaitError::Os(last_error))
    }
}

/// Reads the system's answer to a wait on a process handle: see
/// [`outcome_of`].
///
/// `waited` is what the single-object wait returned, and `last_error` is
/// the system's last error code after it, which counts only where the wait
/// failed.
pub fn wait(waited: u32, last_error: i32) -> (outcome: Result<Option<()>, WaitError>)
    ensures
        outcome == outcome_of(waited, last_error),
{
    if waited == WAIT_OBJECT_0 {
        Ok(Some(()))
    } else if waited == WAIT_TIMEOUT {
        Ok(None)
    } else {
        Err(WaitError::Os(last_error))
    }
}

} // verus!
