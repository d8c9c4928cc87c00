//! The rules of a cross-process named lock.
//!
//! A named lock serialises unrelated processes of one machine that agree on a
//! name. Underneath lies one exclusive lock of the operating system per name:
//! a lock file on Unix, a mutex object on Windows. Neither is enough within a
//! process. A file lock can be taken again through the descriptor that holds
//! it, and a mutex object can be taken again through a second handle, so a
//! process keeps one primitive per name in a [`Registry`] and lets one
//! acquirer at a time reach the operating system.
//!
//! This crate decides and the host acts. The host owns the registry, which it
//! hands to every operation by exclusive reference, opens and closes the
//! primitives, makes the calls that may block, and waits. An operation that
//! needs the operating system comes in two halves, with a token between them:
//!
//! * [`NamedLock::create`] validates the name, builds the identifier of the
//!   lock object and looks it up. It answers with a handle that shares the
//!   primitive which is open, or with a [`Creation`]; the host then creates
//!   the primitive and calls [`Creation::complete`].
//! * [`NamedLock::try_lock`] and [`NamedLock::lock`] check the registry and
//!   answer with an [`Acquisition`]; the host then asks the operating system
//!   and calls [`Acquisition::complete`], which makes the [`NamedLockGuard`].
//! * [`NamedLockGuard::release`] and [`NamedLock::release`] say when the
//!   primitive has lost its last owner and has to be closed.
//!
//! What the answers of the operating system mean is decided in [`unix`] and
//! [`windows`], and what holds of every run of these operations is proved in
//! [`guarantees`].

pub mod error;
pub mod guarantees;
pub mod lock;
pub mod name;
pub mod registry;
pub mod unix;
pub mod windows;

pub use crate::error::{Error, Result};
pub use crate::lock::{Acquisition, Creation, NamedLock, NamedLockGuard, Opening, Settlement};
pub use crate::name::Platform;
pub use crate::registry::{LockState, Registry};
