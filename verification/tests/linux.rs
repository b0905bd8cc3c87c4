use std::time::{Duration, Instant};

use rustix::io::Errno;
use rustix::process::{getpid, pidfd_open, PidfdFlags};
use waitpid_any::error::WaitError;
use waitpid_any::linux::{adopt, open, wait, REISSUE_LIMIT};

#[test]
fn open_refuses_before_asking() {
    assert_eq!(open(0).unwrap_err(), WaitError::InvalidPid(0));
    assert_eq!(open(-1).unwrap_err(), WaitError::InvalidPid(-1));
    assert_eq!(open(-0xDEAD).unwrap_err(), WaitError::InvalidPid(-0xDEAD));
}

#[test]
fn open_passes_the_kernels_error_on() {
    assert_eq!(open(0xDEAD).unwrap_err(), WaitError::Os(3));
}

#[test]
fn open_gives_a_descriptor_of_its_own() {
    let pid = getpid().as_raw_pid();
    let first = open(pid).unwrap();
    let second = open(pid).unwrap();
    assert_ne!(format!("{first:?}"), format!("{second:?}"));
}

#[test]
fn adopt_keeps_the_descriptor() {
    let pidfd = pidfd_open(getpid(), PidfdFlags::empty()).unwrap();
    let shown = format!("{pidfd:?}");
    let handle = adopt(Ok(pidfd)).unwrap();
    assert_eq!(format!("{handle:?}"), shown);
}

#[test]
fn adopt_keeps_the_error_code() {
    assert_eq!(adopt(Err(Errno::SRCH)).unwrap_err(), WaitError::Os(3));
    assert_eq!(adopt(Err(Errno::PERM)).unwrap_err(), WaitError::Os(1));
    assert_eq!(adopt(Err(Errno::NOSYS)).unwrap_err(), WaitError::Os(38));
}

#[test]
fn wait_with_zero_timeout_reports_a_living_process() {
    let mut handle = open(getpid().as_raw_pid()).unwrap();
    assert_eq!(wait(&mut handle, Some(Duration::ZERO)), Ok(None));
    assert_eq!(wait(&mut handle, Some(Duration::ZERO)), Ok(None));
}

#[test]
fn wait_honours_the_nanoseconds() {
    let mut handle = open(getpid().as_raw_pid()).unwrap();
    let timeout = Duration::new(0, 200_000_000);
    let inst = Instant::now();
    assert_eq!(wait(&mut handle, Some(timeout)), Ok(None));
    let elapsed = inst.elapsed();
    assert!(elapsed >= timeout, "returned early: {elapsed:?}");
    assert!(elapsed < Duration::from_secs(2), "returned late: {elapsed:?}");
}

#[test]
fn wait_on_a_descriptor_of_another_kind_follows_the_kernel() {
    // An event counter that holds nothing is not readable.
    let counter = rustix::event::eventfd(0, rustix::event::EventfdFlags::empty()).unwrap();
    let mut handle = adopt(Ok(counter)).unwrap();
    assert_eq!(wait(&mut handle, Some(Duration::ZERO)), Ok(None));
    // One that holds something is, with and without a timeout.
    let counter = rustix::event::eventfd(1, rustix::event::EventfdFlags::empty()).unwrap();
    let mut handle = adopt(Ok(counter)).unwrap();
    assert_eq!(wait(&mut handle, Some(Duration::ZERO)), Ok(Some(())));
    assert_eq!(wait(&mut handle, Some(Duration::MAX)), Ok(Some(())));
    assert_eq!(wait(&mut handle, None), Ok(Some(())));
    assert_eq!(wait(&mut handle, None), Ok(Some(())));
}

#[test]
fn reissues_are_as_good_as_unbounded() {
    assert_eq!(REISSUE_LIMIT, u64::MAX);
}
