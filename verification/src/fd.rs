//! The lock handle: a scoped resource object over one file descriptor, with
//! automatic release of the lock when the handle goes out of scope.

use vstd::prelude::*;

pub use crate::util::{Kind, Mode, ParseError};
pub use crate::functions::Error;
use crate::functions;

verus! {

/// Represents a write lock on a file.
///
/// The `lock(kind, mode)` method tries to obtain a lock on the file
/// identified by a file descriptor. One can obtain different kinds of
/// locks:
///
/// * `Kind::NonBlocking` - on contention, return at once with
///   `Error::WouldBlock`.
/// * `Kind::Blocking` - waits (i.e. blocks the running thread) for the
///   current owner of the lock to relinquish it.
///
/// The handle never owns or closes the descriptor; it only ever asserts or
/// releases an advisory lock on it.
#[derive(Debug, PartialEq, Eq)]
pub struct Lock {
    fd: i32,
}

impl Lock {
    /// The descriptor this handle governs.
    pub closed spec fn spec_fd(self) -> i32 {
        self.fd
    }

    /// Create a new lock instance from the given file descriptor `fd`.
    ///
    /// Performs no system call; you will have to call `lock(...)` on it to
    /// acquire any lock.
    pub fn new(fd: i32) -> (l: Lock)
        ensures
            l.spec_fd() == fd,
    {
        Lock { fd }
    }

    /// Obtain a write- or read-lock on the file behind the handle's
    /// descriptor.
    ///
    /// An `Errno` error always carries the non-zero code the primitive
    /// returned, and a blocking request is never answered with `WouldBlock`.
    pub fn lock(&self, kind: Kind, mode: Mode) -> (r: Result<(), Error>)
        ensures
            r matches Err(Error::Errno(code)) ==> code != 0,
            kind is Blocking ==> !(r matches Err(Error::WouldBlock)),
    {
        functions::lock(self.fd, kind, mode)
    }

    /// Unlocks the file held by `Lock`.
    ///
    /// In reality, you shouldn't need to call `unlock()`. As `Lock`
    /// implements the `Drop` trait, once the `Lock` reference goes out of
    /// scope, `unlock()` will be called automatically. It is safe to call
    /// any number of times: the primitive succeeds on a descriptor that
    /// holds no lock.
    pub fn unlock(&self) -> (r: Result<(), i32>)
        ensures
            r matches Err(code) ==> code != 0,
        no_unwind
    {
        functions::unlock(self.fd)
    }
}

impl Drop for Lock {
    /// The automatic release: once the handle goes out of scope, the lock is
    /// released without the caller having to remember it. Relies on
    /// `nix::fcntl::flock` with `FlockArg::Unlock`, the same call `unlock()`
    /// makes; the outcome of this call is discarded, as the teardown path has
    /// no caller to report an error to.
    #[verifier::external_body]
    fn drop(&mut self)
        opens_invariants none
        no_unwind
    {
        let _discarded = nix::fcntl::flock(self.fd, nix::fcntl::FlockArg::Unlock);
    }
}

} // verus!
