//! What the answers of the Unix lock file mean.
//!
//! The primitive is an open lock file. It is created if it is absent, and
//! every operation on it is one advisory whole-file lock call on its
//! descriptor. The host makes the calls; the functions here say what follows
//! from their answers.

use crate::error::Error;
use vstd::prelude::*;

verus! {

/// The three operations of a lock primitive.
#[derive(Clone, Copy, Debug, PartialEq, Eq, Structural)]
pub enum Operation {
    /// Take the exclusive lock, or fail at once where it is held.
    TryAcquire,
    /// Take the exclusive lock, waiting as long as it is held.
    Acquire,
    /// Give the lock back.
    Release,
}

/// Why a call of the operating system failed, as far as the decisions need it.
#[derive(Clone, Copy, Debug, PartialEq, Eq, Structural)]
pub enum Failure {
    /// A signal interrupted the call before it did anything.
    Interrupted,
    /// The call would have had to wait.
    WouldBlock,
    /// The file to create is there already.
    AlreadyExists,
    /// Any other error of the operating system.
    Other,
}

/// What the host does after a lock call.
#[derive(Debug)]
pub enum Step {
    /// Make the same call again.
    Retry,
    /// Stop, with this outcome of the operation.
    Done(Result<(), Error>),
}

/// What the host does after it has tried to create the lock file.
#[derive(Debug)]
pub enum CreateStep {
    /// Open the file that is there, for writing.
    OpenExisting,
    /// Stop, with this outcome of the creation.
    Done(Result<(), std::io::Error>),
}

/// The error of an operation that failed for good.
pub open spec fn failure_of(operation: Operation) -> Error {
    match operation {
        Operation::TryAcquire => Error::LockFailed,
        Operation::Acquire => Error::LockFailed,
        Operation::Release => Error::UnlockFailed,
    }
}

/// What follows from a lock call that returned `rc`, and failed with
/// `failure` where `rc` is negative.
///
/// An interrupted call is made again. Contention is an outcome of its own only
/// for the operation that does not wait; every other failure is the
/// operation's own error.
pub open spec fn flock_step(operation: Operation, rc: i32, failure: Failure) -> Step {
    if rc >= 0 {
        Step::Done(Ok(()))
    } else if failure == Failure::Interrupted {
        Step::Retry
    } else if failure == Failure::WouldBlock && operation == Operation::TryAcquire {
        Step::Done(Err(Error::WouldBlock))
    } else {
        Step::Done(Err(failure_of(operation)))
    }
}

/// What follows from the attempt to create the lock file: a file that is
/// there already is opened instead, every other failure ends the creation.
pub open spec fn create_step(created: Result<(), std::io::Error>, failure: Failure) -> CreateStep {
    match created {
        Ok(()) => CreateStep::Done(Ok(())),
        Err(error) => if failure == Failure::AlreadyExists {
            CreateStep::OpenExisting
        } else {
            CreateStep::Done(Err(error))
        },
    }
}

/// `std::io::Error::last_os_error`: the error that the calling thread's last
/// failed system call left behind. Nothing is claimed of it.
#[verifier::external_body]
fn last_os_error() -> (error: std::io::Error) {
    std::io::Error::last_os_error()
}

/// `std::io::Error::kind`, reduced to the kinds that the decisions tell
/// apart. Nothing is claimed of which one an error has.
#[verifier::external_body]
fn kind_of(error: &std::io::Error) -> (failure: Failure) {
    match error.kind() {
        std::io::ErrorKind::Interrupted => Failure::Interrupted,
        std::io::ErrorKind::WouldBlock => Failure::WouldBlock,
        std::io::ErrorKind::AlreadyExists => Failure::AlreadyExists,
        _ => Failure::Other,
    }
}

/// Decides what follows from one lock call that returned `rc`, and failed
/// with `failure` where `rc` is negative.
pub fn flock_outcome(operation: Operation, rc: i32, failure: Failure) -> (step: Step)
    ensures
        step == flock_step(operation, rc, failure),
{
    if rc >= 0 {
        return Step::Done(Ok(()));
    }
    match failure {
        Failure::Interrupted => Step::Retry,
        Failure::WouldBlock => match operation {
            Operation::TryAcquire => Step::Done(Err(Error::WouldBlock)),
            Operation::Acquire => Step::Done(Err(Error::LockFailed)),
            Operation::Release => Step::Done(Err(Error::UnlockFailed)),
        },
        _ => match operation {
            Operation::TryAcquire => Step::Done(Err(Error::LockFailed)),
            Operation::Acquire => Step::Done(Err(Error::LockFailed)),
            Operation::Release => Step::Done(Err(Error::UnlockFailed)),
        },
    }
}

/// Decides what follows from the lock call that the calling thread has just
/// made and that returned `rc`. Where `rc` is negative, the reason is read
/// from the thread's last system error, so nothing may come between the call
/// and this function.
pub fn after_flock(operation: Operation, rc: i32) -> (step: Step)
    ensures
        rc >= 0 ==> step == Step::Done(Ok(())),
        rc < 0 ==> exists|failure: Failure| step == flock_step(operation, rc, failure),
{
    if rc >= 0 {
        return flock_outcome(operation, rc, Failure::Other);
    }
    let error = last_os_error();
    let failure = kind_of(&error);
    flock_outcome(operation, rc, failure)
}

/// Decides what follows from the attempt to create the lock file, which
/// failed with `failure` where `created` is an error.
pub fn create_outcome(created: Result<(), std::io::Error>, failure: Failure) -> (step: CreateStep)
    ensures
        step == create_step(created, failure),
{
    match created {
        Ok(()) => CreateStep::Done(Ok(())),
        Err(error) => match failure {
            Failure::AlreadyExists => CreateStep::OpenExisting,
            _ => CreateStep::Done(Err(error)),
        },
    }
}

/// Decides what follows from the attempt to create the lock file.
pub fn after_create(created: Result<(), std::io::Error>) -> (step: CreateStep)
    ensures
        exists|failure: Failure| step == create_step(created, failure),
        created is Ok ==> step == CreateStep::Done(Ok(())),
{
    let failure = match &created {
        Ok(()) => Failure::Other,
        Err(error) => kind_of(error),
    };
    create_outcome(created, failure)
}

} // verus!
