use zoneclock::failure::Failure;

#[test]
fn every_failure_has_its_message() {
    assert_eq!(Failure::NotFound.message(), "Err: No such name found!");
    assert_eq!(Failure::BadArguments.message(), "Err: Wrong arguments passed!");
    assert_eq!(Failure::InvalidTimezone.message(), "Err: Invalid timezone!");
    assert_eq!(Failure::StorageUnavailable.message(), "Err: Storage unavailable!");
    assert_eq!(Failure::TimeOutOfRange.message(), "Err: Time out of range!");
}

#[test]
fn not_found_exits_with_one() {
    assert_eq!(Failure::NotFound.exit_code(), 1);
}

#[test]
fn no_failure_exits_with_zero() {
    for failure in [
        Failure::StorageUnavailable,
        Failure::NotFound,
        Failure::InvalidTimezone,
        Failure::TimeOutOfRange,
        Failure::BadArguments,
    ] {
        assert_ne!(failure.exit_code(), 0);
    }
}

#[test]
fn fatal_failures_exit_as_an_abort_does() {
    assert_eq!(Failure::StorageUnavailable.exit_code(), 101);
    assert_eq!(Failure::InvalidTimezone.exit_code(), 101);
    assert_eq!(Failure::TimeOutOfRange.exit_code(), 101);
}
