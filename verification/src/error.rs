//! The ways in which a named lock can fail.

use vstd::prelude::*;

verus! {

/// The operating system's own error value, carried through unread.
#[verifier::external_type_specification]
#[verifier::external_body]
pub struct ExIoError(std::io::Error);

/// Error type of this crate.
#[derive(Debug)]
pub enum Error {
    /// The name is the empty string.
    EmptyName,
    /// The name holds a NUL, a `/` or a `\`.
    InvalidCharacter,
    /// The operating system could not create or open the lock primitive.
    CreateFailed(std::io::Error),
    /// The operating system failed to take the lock, for a reason other than
    /// contention.
    LockFailed,
    /// The operating system failed to give the lock back.
    UnlockFailed,
    /// The lock is held by someone else.
    WouldBlock,
}

/// `Result` with this crate's [`Error`].
pub type Result<T, E = Error> = std::result::Result<T, E>;

} // verus!
