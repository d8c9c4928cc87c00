use named_lock::unix::{
    after_create, after_flock, create_outcome, flock_outcome, CreateStep, Failure, Operation, Step,
};
use named_lock::windows::{after_release, after_wait, WAIT_ABANDONED, WAIT_OBJECT_0, WAIT_TIMEOUT};
use named_lock::Error;
use std::io::ErrorKind;

const OPERATIONS: [Operation; 3] = [Operation::TryAcquire, Operation::Acquire, Operation::Release];
const FAILURES: [Failure; 4] =
    [Failure::Interrupted, Failure::WouldBlock, Failure::AlreadyExists, Failure::Other];

#[test]
fn a_call_that_succeeded_ends_the_operation() {
    for operation in OPERATIONS {
        for failure in FAILURES {
            for rc in [0, 1, i32::MAX] {
                assert!(matches!(flock_outcome(operation, rc, failure), Step::Done(Ok(()))));
            }
        }
        assert!(matches!(after_flock(operation, 0), Step::Done(Ok(()))));
    }
}

#[test]
fn an_interrupted_call_is_made_again() {
    for operation in OPERATIONS {
        for rc in [-1, i32::MIN] {
            assert!(matches!(flock_outcome(operation, rc, Failure::Interrupted), Step::Retry));
        }
    }
}

#[test]
fn contention_is_reported_to_the_one_who_does_not_wait() {
    assert!(matches!(
        flock_outcome(Operation::TryAcquire, -1, Failure::WouldBlock),
        Step::Done(Err(Error::WouldBlock))
    ));
}

#[test]
fn contention_is_a_failure_for_the_operations_that_cannot_meet_it() {
    assert!(matches!(
        flock_outcome(Operation::Acquire, -1, Failure::WouldBlock),
        Step::Done(Err(Error::LockFailed))
    ));
    assert!(matches!(
        flock_outcome(Operation::Release, -1, Failure::WouldBlock),
        Step::Done(Err(Error::UnlockFailed))
    ));
}

#[test]
fn any_other_error_is_the_failure_of_the_operation() {
    for failure in [Failure::AlreadyExists, Failure::Other] {
        assert!(matches!(
            flock_outcome(Operation::TryAcquire, -1, failure),
            Step::Done(Err(Error::LockFailed))
        ));
        assert!(matches!(
            flock_outcome(Operation::Acquire, -1, failure),
            Step::Done(Err(Error::LockFailed))
        ));
        assert!(matches!(
            flock_outcome(Operation::Release, -1, failure),
            Step::Done(Err(Error::UnlockFailed))
        ));
    }
}

#[test]
fn a_failed_call_never_ends_in_success() {
    for operation in OPERATIONS {
        assert!(!matches!(after_flock(operation, -1), Step::Done(Ok(()))));
    }
}

#[test]
fn a_created_file_ends_the_creation() {
    for failure in FAILURES {
        assert!(matches!(create_outcome(Ok(()), failure), CreateStep::Done(Ok(()))));
    }
    assert!(matches!(after_create(Ok(())), CreateStep::Done(Ok(()))));
}

#[test]
fn a_file_that_exists_is_opened_instead() {
    let error = std::io::Error::from(ErrorKind::PermissionDenied);
    assert!(matches!(
        create_outcome(Err(error), Failure::AlreadyExists),
        CreateStep::OpenExisting
    ));
    let error = std::io::Error::from(ErrorKind::AlreadyExists);
    assert!(matches!(after_create(Err(error)), CreateStep::OpenExisting));
}

#[test]
fn any_other_failure_ends_the_creation_with_its_cause() {
    for kind in [
        ErrorKind::PermissionDenied,
        ErrorKind::NotFound,
        ErrorKind::Interrupted,
        ErrorKind::WouldBlock,
        ErrorKind::Other,
    ] {
        match after_create(Err(std::io::Error::from(kind))) {
            CreateStep::Done(Err(cause)) => assert_eq!(cause.kind(), kind),
            other => panic!("unexpected {:?}", other),
        }
    }
    for failure in [Failure::Interrupted, Failure::WouldBlock, Failure::Other] {
        match create_outcome(Err(std::io::Error::from(ErrorKind::NotFound)), failure) {
            CreateStep::Done(Err(cause)) => assert_eq!(cause.kind(), ErrorKind::NotFound),
            other => panic!("unexpected {:?}", other),
        }
    }
}

#[test]
fn a_free_or_abandoned_mutex_is_acquired() {
    for blocking in [false, true] {
        assert!(after_wait(blocking, WAIT_OBJECT_0).is_ok());
        assert!(after_wait(blocking, WAIT_ABANDONED).is_ok());
        assert!(after_wait(blocking, 0).is_ok());
        assert!(after_wait(blocking, 0x80).is_ok());
    }
}

#[test]
fn a_timeout_is_contention_for_the_wait_that_had_one() {
    assert!(matches!(after_wait(false, WAIT_TIMEOUT), Err(Error::WouldBlock)));
    assert!(matches!(after_wait(false, 0x102), Err(Error::WouldBlock)));
    assert!(matches!(after_wait(true, WAIT_TIMEOUT), Err(Error::LockFailed)));
}

#[test]
fn every_other_wait_result_is_a_failure() {
    for blocking in [false, true] {
        for code in [1, 0x7f, 0x81, 0x101, 0x103, 0xffff_ffff] {
            assert!(matches!(after_wait(blocking, code), Err(Error::LockFailed)));
        }
    }
}

#[test]
fn a_release_that_failed_is_an_unlock_failure() {
    assert!(after_release(true).is_ok());
    assert!(matches!(after_release(false), Err(Error::UnlockFailed)));
}

#[test]
fn the_wait_codes_are_those_of_the_system() {
    assert_eq!(WAIT_OBJECT_0, windows::Win32::Foundation::WAIT_OBJECT_0.0);
    assert_eq!(WAIT_ABANDONED, windows::Win32::Foundation::WAIT_ABANDONED.0);
    assert_eq!(WAIT_TIMEOUT, windows::Win32::Foundation::WAIT_TIMEOUT.0);
}
