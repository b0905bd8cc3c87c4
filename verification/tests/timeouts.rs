use std::time::Duration;

use waitpid_any::timeout::{expiry, timespec, Timespec, NANOS_PER_SEC};

const LONGEST: Timespec = Timespec { secs: i64::MAX, nanos: 999_999_999 };

#[test]
fn zero_duration_is_zero_timeout() {
    assert_eq!(timespec(Duration::ZERO), Timespec { secs: 0, nanos: 0 });
}

#[test]
fn seconds_and_nanoseconds_are_kept() {
    assert_eq!(timespec(Duration::new(1, 0)), Timespec { secs: 1, nanos: 0 });
    assert_eq!(timespec(Duration::new(0, 1)), Timespec { secs: 0, nanos: 1 });
    assert_eq!(
        timespec(Duration::new(7, 999_999_999)),
        Timespec { secs: 7, nanos: 999_999_999 }
    );
    assert_eq!(
        timespec(Duration::from_millis(1_500)),
        Timespec { secs: 1, nanos: 500_000_000 }
    );
    // Nanoseconds beyond one second carry over into the seconds.
    assert_eq!(
        timespec(Duration::new(1, 1_000_000_001)),
        Timespec { secs: 2, nanos: 1 }
    );
}

#[test]
fn longest_timeout_that_fits_is_kept() {
    assert_eq!(timespec(Duration::new(i64::MAX as u64, 999_999_999)), LONGEST);
    assert_eq!(
        timespec(Duration::new(i64::MAX as u64, 5)),
        Timespec { secs: i64::MAX, nanos: 5 }
    );
}

#[test]
fn timeout_too_long_is_shortened_to_the_longest() {
    assert_eq!(timespec(Duration::new(i64::MAX as u64 + 1, 0)), LONGEST);
    assert_eq!(timespec(Duration::new(u64::MAX, 0)), LONGEST);
    assert_eq!(timespec(Duration::MAX), LONGEST);
}

#[test]
fn only_no_timeout_is_without_end() {
    assert_eq!(expiry(None), None);
    assert_eq!(expiry(Some(Duration::ZERO)), Some(Timespec { secs: 0, nanos: 0 }));
    assert_eq!(expiry(Some(Duration::MAX)), Some(LONGEST));
    assert_eq!(
        expiry(Some(Duration::new(3, 4))),
        Some(Timespec { secs: 3, nanos: 4 })
    );
}

#[test]
fn one_second_in_nanoseconds() {
    assert_eq!(NANOS_PER_SEC, 1_000_000_000);
    assert_eq!(Duration::from_secs(1).as_nanos(), NANOS_PER_SEC as u128);
}
