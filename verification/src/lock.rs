//! Handles, pending acquisitions and guards of named locks.
//!
//! Every operation that needs the operating system comes in two halves. The
//! first half decides from the registry alone what is to be done and hands out
//! a token; the host does it; the second half takes the token and what the
//! operating system answered.

use crate::error::Error;
use crate::name::{is_valid_name, name_verdict, resource_id, resource_id_of, validate_name, Platform};
use crate::registry::{
    attached, attached_slot, can_attach, can_begin, detached, expired, is_in, knows,
    moved, shared_slot, LockState, Registry, Slot,
};
use vstd::prelude::*;
use vstd::slice::slice_to_vec;

verus! {

/// Cross-process lock that is identified by name.
///
/// A value of this type is one handle of the lock: one of the owners of the
/// primitive at a slot of the registry. Handles of one name share the slot.
#[derive(Debug)]
pub struct NamedLock {
    slot: usize,
}

/// Guard of a [`NamedLock`]: the token that the lock is held.
///
/// A guard is made where an acquisition ends in success, owns the primitive
/// whether or not a handle is left, and gives the lock back in
/// [`NamedLockGuard::release`].
#[derive(Debug)]
pub struct NamedLockGuard {
    slot: usize,
}

/// The request to create the primitive of an identifier that has none open.
#[derive(Debug)]
pub struct Creation {
    id: Vec<u8>,
}

/// What the lookup for a new handle found.
#[derive(Debug)]
pub enum Opening {
    /// The identifier has a live primitive, and the handle shares it.
    Shared(NamedLock),
    /// The identifier has no live primitive: the host has to create one.
    Create(Creation),
}

/// An acquisition that has passed the in-process check and waits for the
/// operating system.
#[derive(Debug)]
pub struct Acquisition {
    slot: usize,
    blocking: bool,
}

/// How an acquisition ended.
#[derive(Debug)]
#[must_use]
pub struct Settlement {
    /// The guard, or the error that the operating system reported.
    pub result: Result<NamedLockGuard, Error>,
    /// The primitive has lost its last owner and is to be closed.
    pub close: bool,
}

impl View for NamedLock {
    type V = int;

    /// The slot of the primitive that the handle refers to.
    closed spec fn view(&self) -> int {
        self.slot as int
    }
}

impl View for NamedLockGuard {
    type V = int;

    /// The slot of the primitive that the guard holds.
    closed spec fn view(&self) -> int {
        self.slot as int
    }
}

impl View for Creation {
    type V = Seq<u8>;

    /// The identifier of the primitive to create.
    closed spec fn view(&self) -> Seq<u8> {
        self.id@
    }
}

impl View for Acquisition {
    type V = (int, bool);

    /// The slot of the primitive to acquire, and whether to wait for it.
    closed spec fn view(&self) -> (int, bool) {
        (self.slot as int, self.blocking)
    }
}

/// The error for an acquisition that cannot start through a handle of `slot`:
/// contention where the handle is known, a failure where it is not.
pub open spec fn refusal(table: Seq<Slot>, slot: int) -> Error {
    if knows(table, slot) {
        Error::WouldBlock
    } else {
        Error::LockFailed
    }
}

/// The error that ends an acquisition which the operating system refused with
/// `error`: the error itself, but that contention is no outcome of an
/// acquisition that waits, and counts as a failure there.
pub open spec fn settled_error(blocking: bool, error: Error) -> Error {
    if blocking && error is WouldBlock {
        Error::LockFailed
    } else {
        error
    }
}

/// `opening` is the answer to a request for a handle for `id`, which took the
/// table from `before` to `after`: a handle that shares the live primitive of
/// `id`, or else the request to create one, with the table untouched.
pub open spec fn opens(before: Seq<Slot>, after: Seq<Slot>, id: Seq<u8>, opening: Opening) -> bool {
    match shared_slot(before, id) {
        Some(slot) => {
            &&& opening matches Opening::Shared(lock)
            &&& lock@ == slot
            &&& after == attached(before, id)
        },
        None => {
            &&& opening matches Opening::Create(creation)
            &&& creation@ == id
            &&& after == before
        },
    }
}

/// Looks `id` up for a new handle.
fn lookup(registry: &mut Registry, id: Vec<u8>) -> (opening: Opening)
    requires
        can_attach(old(registry)@, id@),
    ensures
        opens(old(registry)@, final(registry)@, id@, opening),
{
    proof {
        use_type_invariant(&*registry);
    }
    match registry.position(id.as_slice()) {
        Some(slot) => {
            let (handles, state) = registry.entry(slot);
            if handles > 0 || state != LockState::Unlocked {
                registry.rewrite(slot, handles + 1, state);
                Opening::Shared(NamedLock { slot })
            } else {
                Opening::Create(Creation { id })
            }
        },
        None => Opening::Create(Creation { id }),
    }
}

impl NamedLock {
    /// Asks for a handle of the lock called `name`.
    ///
    /// The name must not be empty and must not hold NUL, `/` or `\`. On Unix
    /// the lock is the file `<temp_dir>/<name>.lock`, on Windows the mutex
    /// object `Global\<name>`.
    pub fn create(registry: &mut Registry, platform: &Platform, name: &str) -> (opening: Result<
        Opening,
        Error,
    >)
        requires
            is_valid_name(name@) ==> can_attach(old(registry)@, resource_id_of(*platform, name@)),
        ensures
            match name_verdict(name@) {
                Err(error) => {
                    &&& opening == Err::<Opening, Error>(error)
                    &&& final(registry)@ == old(registry)@
                },
                Ok(()) => {
                    &&& opening matches Ok(found)
                    &&& opens(
                        old(registry)@,
                        final(registry)@,
                        resource_id_of(*platform, name@),
                        found,
                    )
                },
            },
    {
        match validate_name(name) {
            Err(error) => Err(error),
            Ok(()) => Ok(lookup(registry, resource_id(platform, name))),
        }
    }

    /// Asks for a handle of the lock whose identifier is `path`, taken as it
    /// is: nothing is validated and nothing is appended.
    pub fn with_path(registry: &mut Registry, path: &[u8]) -> (opening: Opening)
        requires
            can_attach(old(registry)@, path@),
        ensures
            opens(old(registry)@, final(registry)@, path@, opening),
    {
        lookup(registry, slice_to_vec(path))
    }

    /// The slot of the primitive that the handle refers to.
    pub fn slot(&self) -> (slot: usize)
        ensures
            slot == self@,
    {
        self.slot
    }

    /// Starts an acquisition that does not wait.
    ///
    /// While the primitive is being acquired or held in this process, the
    /// answer is `WouldBlock` and the operating system is not to be asked.
    /// Otherwise the host tries to take the primitive without blocking and
    /// completes the acquisition with the outcome.
    pub fn try_lock(&self, registry: &mut Registry) -> (attempt: Result<Acquisition, Error>)
        ensures
            if can_begin(old(registry)@, self@) {
                &&& attempt matches Ok(acquisition)
                &&& acquisition@ == (self@, false)
                &&& final(registry)@ == moved(old(registry)@, self@, LockState::Acquiring)
            } else {
                &&& attempt == Err::<Acquisition, Error>(refusal(old(registry)@, self@))
                &&& final(registry)@ == old(registry)@
            },
    {
        if self.slot >= registry.len() {
            return Err(Error::LockFailed);
        }
        let (handles, state) = registry.entry(self.slot);
        if handles == 0 {
            return Err(Error::LockFailed);
        }
        match state {
            LockState::Unlocked => {
                registry.rewrite(self.slot, handles, LockState::Acquiring);
                Ok(Acquisition { slot: self.slot, blocking: false })
            },
            _ => Err(Error::WouldBlock),
        }
    }

    /// Starts an acquisition that waits.
    ///
    /// While the primitive is being acquired or held in this process, the
    /// answer is `None`: the host waits until a guard of this process is
    /// released and asks again. Otherwise the host takes the primitive,
    /// blocking as long as it must, and completes the acquisition with the
    /// outcome.
    pub fn lock(&self, registry: &mut Registry) -> (attempt: Result<Option<Acquisition>, Error>)
        ensures
            if can_begin(old(registry)@, self@) {
                &&& attempt matches Ok(Some(acquisition))
                &&& acquisition@ == (self@, true)
                &&& final(registry)@ == moved(old(registry)@, self@, LockState::Acquiring)
            } else if knows(old(registry)@, self@) {
                &&& attempt == Ok::<Option<Acquisition>, Error>(None)
                &&& final(registry)@ == old(registry)@
            } else {
                &&& attempt == Err::<Option<Acquisition>, Error>(Error::LockFailed)
                &&& final(registry)@ == old(registry)@
            },
    {
        if self.slot >= registry.len() {
            return Err(Error::LockFailed);
        }
        let (handles, state) = registry.entry(self.slot);
        if handles == 0 {
            return Err(Error::LockFailed);
        }
        match state {
            LockState::Unlocked => {
                registry.rewrite(self.slot, handles, LockState::Acquiring);
                Ok(Some(Acquisition { slot: self.slot, blocking: true }))
            },
            _ => Ok(None),
        }
    }

    /// Gives the handle up. A pending acquisition or a guard keeps the
    /// primitive open; the answer is `true` where the handle was its last
    /// owner and the host has to close it.
    #[must_use]
    pub fn release(self, registry: &mut Registry) -> (close: bool)
        ensures
            final(registry)@ == detached(old(registry)@, self@),
            close == expired(old(registry)@, final(registry)@, self@),
    {
        if self.slot >= registry.len() {
            return false;
        }
        let (handles, state) = registry.entry(self.slot);
        if handles == 0 {
            return false;
        }
        registry.rewrite(self.slot, handles - 1, state);
        handles == 1 && state == LockState::Unlocked
    }
}

impl Creation {
    /// The identifier of the primitive to create.
    pub fn id(&self) -> (id: &[u8])
        ensures
            id@ == self@,
    {
        self.id.as_slice()
    }

    /// Ends the creation with what the operating system answered.
    ///
    /// A failure is wrapped in `CreateFailed` and leaves the table as it was.
    /// A success counts a handle for the identifier, in the entry that it has
    /// or in a new one: the first handle of the new primitive, as long as the
    /// host lets nothing else happen to the registry between the lookup and
    /// this call.
    pub fn complete(self, registry: &mut Registry, created: Result<(), std::io::Error>) -> (lock:
        Result<NamedLock, Error>)
        requires
            created is Ok ==> can_attach(old(registry)@, self@),
        ensures
            match created {
                Ok(()) => {
                    &&& lock matches Ok(handle)
                    &&& handle@ == attached_slot(old(registry)@, self@)
                    &&& final(registry)@ == attached(old(registry)@, self@)
                },
                Err(cause) => {
                    &&& lock == Err::<NamedLock, Error>(Error::CreateFailed(cause))
                    &&& final(registry)@ == old(registry)@
                },
            },
    {
        match created {
            Ok(()) => {
                let slot = registry.attach(self.id.as_slice());
                Ok(NamedLock { slot })
            },
            Err(cause) => Err(Error::CreateFailed(cause)),
        }
    }
}

impl Acquisition {
    /// The slot of the primitive to acquire.
    pub fn slot(&self) -> (slot: usize)
        ensures
            slot == self@.0,
    {
        self.slot
    }

    /// Whether the host is to wait for the primitive.
    pub fn is_blocking(&self) -> (blocking: bool)
        ensures
            blocking == self@.1,
    {
        self.blocking
    }

    /// Ends the acquisition with what the operating system answered.
    ///
    /// A success turns it into a guard. A failure is handed on and frees the
    /// primitive for the next acquirer of this process; only an acquisition
    /// that does not wait can end in `WouldBlock`.
    pub fn complete(self, registry: &mut Registry, outcome: Result<(), Error>) -> (settlement:
        Settlement)
        ensures
            if is_in(old(registry)@, self@.0, LockState::Acquiring) {
                match outcome {
                    Ok(()) => {
                        &&& settlement.result matches Ok(guard)
                        &&& guard@ == self@.0
                        &&& !settlement.close
                        &&& final(registry)@ == moved(old(registry)@, self@.0, LockState::Locked)
                    },
                    Err(error) => {
                        &&& settlement.result == Err::<NamedLockGuard, Error>(
                            settled_error(self@.1, error),
                        )
                        &&& settlement.close == expired(
                            old(registry)@,
                            final(registry)@,
                            self@.0,
                        )
                        &&& final(registry)@ == moved(old(registry)@, self@.0, LockState::Unlocked)
                    },
                }
            } else {
                &&& settlement.result == Err::<NamedLockGuard, Error>(Error::LockFailed)
                &&& !settlement.close
                &&& final(registry)@ == old(registry)@
            },
    {
        if self.slot >= registry.len() {
            return Settlement { result: Err(Error::LockFailed), close: false };
        }
        let (handles, state) = registry.entry(self.slot);
        match state {
            LockState::Acquiring => match outcome {
                Ok(()) => {
                    registry.rewrite(self.slot, handles, LockState::Locked);
                    Settlement { result: Ok(NamedLockGuard { slot: self.slot }), close: false }
                },
                Err(error) => {
                    registry.rewrite(self.slot, handles, LockState::Unlocked);
                    let error = match error {
                        Error::WouldBlock => if self.blocking {
                            Error::LockFailed
                        } else {
                            Error::WouldBlock
                        },
                        other => other,
                    };
                    Settlement { result: Err(error), close: handles == 0 }
                },
            },
            _ => Settlement { result: Err(Error::LockFailed), close: false },
        }
    }
}

impl NamedLockGuard {
    /// The slot of the primitive that the guard holds.
    pub fn slot(&self) -> (slot: usize)
        ensures
            slot == self@,
    {
        self.slot
    }

    /// Gives the lock back, after the host has released the primitive.
    ///
    /// What the operating system answered to the release is taken and
    /// dropped: the primitive is free for this process whatever it was. The
    /// answer is `true` where the guard was the last owner of the primitive
    /// and the host has to close it.
    #[must_use]
    pub fn release(self, registry: &mut Registry, unlocked: Result<(), Error>) -> (close: bool)
        ensures
            final(registry)@ == if is_in(old(registry)@, self@, LockState::Locked) {
                moved(old(registry)@, self@, LockState::Unlocked)
            } else {
                old(registry)@
            },
            close == expired(old(registry)@, final(registry)@, self@),
    {
        if self.slot >= registry.len() {
            return false;
        }
        let (handles, state) = registry.entry(self.slot);
        match state {
            LockState::Locked => {
                registry.rewrite(self.slot, handles, LockState::Unlocked);
                handles == 0
            },
            _ => false,
        }
    }
}

} // verus!
