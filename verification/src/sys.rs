//! What the library takes on trust: the types and functions of `rustix` and
//! of `std` that it calls, each with the contract that the library believes
//! of it. Nothing here is proved. Everything else in the library is proved
//! from these contracts.

use vstd::prelude::*;
use std::time::Duration;
use rustix::fd::OwnedFd;
use rustix::io::Errno;
use rustix::process::{Pid, PidfdFlags};
use crate::timeout::Timespec;

verus! {

/// `rustix::fd::OwnedFd`: a file descriptor that is closed when the value is
/// dropped. The library holds it and hands it to the kernel, and never looks
/// inside.
#[verifier::external_type_specification]
#[verifier::external_body]
pub struct ExOwnedFd(rustix::fd::OwnedFd);

/// `rustix::io::Errno`: an error code of the operating system. The library
/// reads nothing of it but its raw number.
#[verifier::external_type_specification]
#[verifier::external_body]
pub struct ExErrno(rustix::io::Errno);

/// `rustix::process::Pid`: a process identifier that is known not to be zero.
#[verifier::external_type_specification]
#[verifier::external_body]
pub struct ExPid(rustix::process::Pid);

/// `rustix::process::PidfdFlags`: the flags of `pidfd_open`.
#[verifier::external_type_specification]
#[verifier::external_body]
pub struct ExPidfdFlags(rustix::process::PidfdFlags);

/// The raw error number that an `Errno` stands for: what
/// `Errno::raw_os_error` returns for it.
pub uninterp spec fn errno_code(e: Errno) -> i32;

/// The identifier that `Pid::from_raw` makes of a raw number.
pub uninterp spec fn pid_from_raw(raw: i32) -> Option<Pid>;

/// The whole seconds of a `Duration`: what `Duration::as_secs` returns.
pub uninterp spec fn duration_secs(d: Duration) -> u64;

/// The part of a `Duration` below one second, in nanoseconds: what
/// `Duration::subsec_nanos` returns.
pub uninterp spec fn duration_subsec_nanos(d: Duration) -> u32;

/// `rustix::io::Errno::raw_os_error` extracts the raw error number. It is a
/// function of the error value alone; the contract gives the number its name
/// and claims nothing of its size.
pub assume_specification[ rustix::io::Errno::raw_os_error ](e: Errno) -> (code: i32)
    ensures
        code == errno_code(e),
;

/// `rustix::process::Pid::from_raw` turns a raw number into an identifier:
/// `None` for zero, `Some` for every other number. It checks in debug builds
/// that the number is not negative, so negative numbers are kept away from
/// it.
pub assume_specification[ rustix::process::Pid::from_raw ](raw: i32) -> (pid: Option<Pid>)
    requires
        raw >= 0,
    ensures
        pid == pid_from_raw(raw),
        pid is Some <==> raw != 0,
;

/// `rustix::process::PidfdFlags::empty` returns the value with no flag set.
/// Nothing in the library reads a flag, so the contract states nothing.
pub assume_specification[ rustix::process::PidfdFlags::empty ]() -> (flags: PidfdFlags);

/// `rustix::process::pidfd_open` asks the kernel for a file descriptor that
/// refers to a process. Whether there is such a process, and whether the
/// caller may refer to it, is for the kernel to say: the contract promises
/// neither outcome.
pub assume_specification[ rustix::process::pidfd_open ](pid: Pid, flags: PidfdFlags) -> (opened:
    Result<OwnedFd, Errno>)
;

/// `rustix::event::poll`, on the one descriptor and for readability, with
/// the timeout written as the kernel's `timespec`, or without one.
///
/// The result is the number of descriptors that are ready, or the kernel's
/// error. The kernel reports zero only for a timeout that ran out, so the
/// contract claims that a poll without a timeout does not report zero. The
/// call blocks until the kernel answers.
#[verifier::external_body]
pub(crate) fn poll_readable(pidfd: &OwnedFd, timeout: Option<Timespec>) -> (ready: Result<
    usize,
    Errno,
>)
    ensures
        ready matches Ok(count) ==> (timeout is None ==> count > 0),
{
    let timespec = match timeout {
        Some(t) => Some(rustix::event::Timespec { tv_sec: t.secs, tv_nsec: t.nanos }),
        None => None,
    };
    let mut fds = [rustix::event::PollFd::new(pidfd, rustix::event::PollFlags::IN)];
    rustix::event::poll(&mut fds, timespec.as_ref())
}

/// `Duration::as_secs` returns the number of whole seconds that the duration
/// holds.
pub assume_specification[ core::time::Duration::as_secs ](d: &Duration) -> (secs: u64)
    ensures
        secs == duration_secs(*d),
;

/// `Duration::subsec_nanos` returns the fractional part of the duration in
/// nanoseconds, which is always less than one second.
pub assume_specification[ core::time::Duration::subsec_nanos ](d: &Duration) -> (nanos: u32)
    ensures
        nanos == duration_subsec_nanos(*d),
        nanos < 1_000_000_000,
;

/// `Duration::as_millis` returns the number of whole milliseconds that the
/// duration holds: a thousand for each second, and one for each million
/// nanoseconds of the rest.
pub assume_specification[ core::time::Duration::as_millis ](d: &Duration) -> (millis: u128)
    ensures
        millis == duration_secs(*d) * 1000 + duration_subsec_nanos(*d) / 1_000_000,
;

} // verus!
