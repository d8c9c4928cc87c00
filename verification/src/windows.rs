//! What the answers of the Windows mutex object mean.
//!
//! The primitive is a handle to a named mutex object. Acquiring it is a wait
//! on the handle, with a timeout of zero or without one; releasing it is one
//! call that succeeds or fails. The host makes the calls; the functions here
//! say what their answers mean.

use crate::error::Error;
use vstd::prelude::*;

verus! {

/// The wait ended because the mutex was free.
pub const WAIT_OBJECT_0: u32 = 0x0000_0000;

/// The wait ended because the previous owner went away without releasing the
/// mutex; the caller owns it now.
pub const WAIT_ABANDONED: u32 = 0x0000_0080;

/// The timeout ran out while the mutex was held.
pub const WAIT_TIMEOUT: u32 = 0x0000_0102;

/// The wait made the caller the owner of the mutex.
pub open spec fn is_acquired(code: u32) -> bool {
    code == WAIT_OBJECT_0 || code == WAIT_ABANDONED
}

/// What a wait that returned `code` means. A timeout is contention only for a
/// wait that had one.
pub open spec fn wait_verdict(blocking: bool, code: u32) -> Result<(), Error> {
    if is_acquired(code) {
        Ok(())
    } else if code == WAIT_TIMEOUT && !blocking {
        Err(Error::WouldBlock)
    } else {
        Err(Error::LockFailed)
    }
}

/// What a release that succeeded, or did not, means.
pub open spec fn release_verdict(released: bool) -> Result<(), Error> {
    if released {
        Ok(())
    } else {
        Err(Error::UnlockFailed)
    }
}

/// Decides what a wait on the mutex means: `blocking` says whether it was made
/// without a timeout, `code` is what it returned.
pub fn after_wait(blocking: bool, code: u32) -> (outcome: Result<(), Error>)
    ensures
        outcome == wait_verdict(blocking, code),
{
    if code == WAIT_OBJECT_0 || code == WAIT_ABANDONED {
        Ok(())
    } else if code == WAIT_TIMEOUT && !blocking {
        Err(Error::WouldBlock)
    } else {
        Err(Error::LockFailed)
    }
}

/// Decides what a release of the mutex means.
pub fn after_release(released: bool) -> (outcome: Result<(), Error>)
    ensures
        outcome == release_verdict(released),
{
    if released {
        Ok(())
    } else {
        Err(Error::UnlockFailed)
    }
}

} // verus!
