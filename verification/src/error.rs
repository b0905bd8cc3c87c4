//! What opening a handle, or waiting on one, can fail with.

use vstd::prelude::*;

verus! {

/// Why a handle could not be opened or a wait could not be completed.
///
/// There are two kinds and no more: the caller handed in something that can
/// name no process, or the operating system said no. The second carries the
/// system's own error code, untouched, so that a caller can tell "no such
/// process" from "permission denied" exactly as the platform does.
#[derive(Debug, Clone, Copy, PartialEq, Eq)]
pub enum WaitError {
    /// The process identifier can name no process on this platform. It is
    /// found before the operating system is asked anything, and carries the
    /// identifier that was refused.
    InvalidPid(i32),
    /// The operating system rejected the call, with its native error code.
    Os(i32),
}

impl WaitError {
    /// The operating system's error code, where the system is what refused.
    pub open spec fn os_code(self) -> Option<i32> {
        match self {
            WaitError::InvalidPid(_) => None,
            WaitError::Os(code) => Some(code),
        }
    }

    /// The operating system's error code, or `None` for an identifier that
    /// never reached the system.
    pub fn raw_os_error(&self) -> (code: Option<i32>)
        ensures
            code == self.os_code(),
    {
        match self {
            WaitError::InvalidPid(_) => None,
            WaitError::Os(code) => Some(*code),
        }
    }
}

} // verus!
