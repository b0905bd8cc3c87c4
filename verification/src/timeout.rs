//! Timeouts: what a `Duration` holds, and the timeout that a POSIX kernel is
//! handed for it.
//!
//! A `Duration` can be longer than any timeout a kernel accepts. Such a
//! timeout is shortened to the longest one that the kernel does accept, and
//! never turned into "no timeout": a wait with a timeout always comes back.

use vstd::prelude::*;
use std::time::Duration;
use crate::sys::{duration_secs, duration_subsec_nanos};

verus! {

/// Nanoseconds in one second.
pub const NANOS_PER_SEC: i64 = 1_000_000_000;

/// The length of a `Duration` in nanoseconds.
pub open spec fn duration_nanos(d: Duration) -> nat {
    (duration_secs(d) * NANOS_PER_SEC + duration_subsec_nanos(d)) as nat
}

/// The whole milliseconds of a `Duration`.
pub open spec fn duration_millis(d: Duration) -> nat {
    (duration_secs(d) * 1000 + duration_subsec_nanos(d) / 1_000_000) as nat
}

/// A timeout in the form that a POSIX kernel takes: seconds, and nanoseconds
/// below one second, both signed.
#[derive(Debug, Clone, Copy, PartialEq, Eq)]
pub struct Timespec {
    /// Whole seconds.
    pub secs: i64,
    /// Nanoseconds on top of the seconds.
    pub nanos: i64,
}

impl Timespec {
    /// The longest timeout that a `Timespec` can hold.
    pub open spec fn longest() -> Timespec {
        Timespec { secs: i64::MAX, nanos: (NANOS_PER_SEC - 1) as i64 }
    }

    /// What a kernel accepts as a timeout: neither part is negative, and the
    /// nanoseconds stay below one second.
    pub open spec fn is_valid(self) -> bool {
        0 <= self.secs && 0 <= self.nanos < NANOS_PER_SEC
    }

    /// The length of the timeout in nanoseconds.
    pub open spec fn total_nanos(self) -> int {
        self.secs * NANOS_PER_SEC + self.nanos
    }
}

/// The kernel timeout for a `Duration`: the same length where a `Timespec`
/// can hold it, and the longest `Timespec` where it cannot.
pub open spec fn timespec_of(d: Duration) -> Timespec {
    if duration_secs(d) <= i64::MAX {
        Timespec { secs: duration_secs(d) as i64, nanos: duration_subsec_nanos(d) as i64 }
    } else {
        Timespec::longest()
    }
}

/// The kernel timeout for an optional `Duration`, `None` standing for a wait
/// without end.
pub open spec fn expiry_of(timeout: Option<Duration>) -> Option<Timespec> {
    match timeout {
        Some(d) => Some(timespec_of(d)),
        None => None,
    }
}

/// Converts a `Duration` into a kernel timeout, shortening one that is too
/// long to the longest that the kernel takes: the timeout is as long as the
/// duration or as the longest `Timespec`, whichever is shorter.
pub fn timespec(d: Duration) -> (t: Timespec)
    ensures
        t == timespec_of(d),
        t.is_valid(),
        t.total_nanos() == vstd::math::min(
            duration_nanos(d) as int,
            Timespec::longest().total_nanos(),
        ),
{
    let secs: u64 = d.as_secs();
    let nanos: u32 = d.subsec_nanos();
    if secs <= i64::MAX as u64 {
        Timespec { secs: secs as i64, nanos: nanos as i64 }
    } else {
        Timespec { secs: i64::MAX, nanos: NANOS_PER_SEC - 1 }
    }
}

/// Converts an optional `Duration` into what the kernel is handed: a timeout
/// for `Some`, and no timeout, a wait without end, for `None` only.
pub fn expiry(timeout: Option<Duration>) -> (t: Option<Timespec>)
    ensures
        t == expiry_of(timeout),
        t is Some <==> timeout is Some,
        t matches Some(spec) ==> spec.is_valid(),
{
    match timeout {
        Some(d) => Some(timespec(d)),
        None => None,
    }
}

/// A timeout of zero reaches the kernel as a timeout of zero, and not as a
/// wait without end: the kernel is asked once, and answers without blocking.
pub proof fn lemma_zero_timeout_polls(d: Duration)
    requires
        duration_nanos(d) == 0,
    ensures
        expiry_of(Some(d)) == Some(Timespec { secs: 0, nanos: 0 }),
{
}

} // verus!
