//! The locking primitive adapter: the two calls into the operating system's
//! advisory-lock facility, and the translation of their raw outcome codes
//! into the typed result.

use vstd::prelude::*;

pub use crate::util::{Kind, Mode, ParseError};

verus! {

/// Represents the error that occurred while trying to lock or unlock a file.
#[derive(Clone, Copy, Debug, PartialEq, Eq, Structural)]
pub enum Error {
    /// Non-blocking acquisition found the file already locked by another
    /// holder. This variant is used only if non-blocking lock acquisition
    /// failed.
    WouldBlock,
    /// Any other failure at the operating-system layer, carrying the raw
    /// error code.
    Errno(i32),
}

impl Error {
    /// A fixed, one-line description of the error.
    pub fn description(&self) -> (r: &'static str)
        ensures
            self is WouldBlock ==> r@ == "Lock is already taken by another process"@,
            self is Errno ==> r@ == "Failed to acquire file lock"@,
    {
        match self {
            Error::WouldBlock => "Lock is already taken by another process",
            Error::Errno(_) => "Failed to acquire file lock",
        }
    }
}

/// Relies on `nix::fcntl::flock`: asks the operating system for the advisory
/// lock on `fd` (shared or exclusive, waiting or not) and hands back the raw
/// outcome code, 0 on success, paired with the platform's code for a busy
/// lock (`EWOULDBLOCK`). That code is a non-zero errno value, and flock
/// documents it as arising only when a non-blocking request found the file
/// locked, so a blocking request never comes back with it.
#[verifier::external_body]
fn sys_acquire(fd: i32, should_block: bool, exclusive: bool) -> (r: (i32, i32))
    ensures
        r.1 != 0,
        should_block ==> r.0 != r.1,
    no_unwind
{
    let arg = match (should_block, exclusive) {
        (true, true) => nix::fcntl::FlockArg::LockExclusive,
        (true, false) => nix::fcntl::FlockArg::LockShared,
        (false, true) => nix::fcntl::FlockArg::LockExclusiveNonblock,
        (false, false) => nix::fcntl::FlockArg::LockSharedNonblock,
    };
    let code = match nix::fcntl::flock(fd, arg) {
        Ok(()) => 0,
        Err(e) => e as i32,
    };
    (code, nix::errno::Errno::EWOULDBLOCK as i32)
}

/// Relies on `nix::fcntl::flock` with `FlockArg::Unlock`: releases the
/// advisory lock held on `fd` and hands back the raw outcome code, 0 on
/// success. flock specifies release as succeeding on a descriptor that holds
/// no lock.
#[verifier::external_body]
fn sys_release(fd: i32) -> (r: i32)
    no_unwind
{
    match nix::fcntl::flock(fd, nix::fcntl::FlockArg::Unlock) {
        Ok(()) => 0,
        Err(e) => e as i32,
    }
}

/// The typed result that a raw acquisition code maps to: 0 is success, the
/// platform's busy code is contention, and any other code is an
/// operating-system error carried verbatim.
pub open spec fn spec_acquire_outcome(code: i32, busy_code: i32) -> Result<(), Error> {
    if code == 0 {
        Result::Ok(())
    } else if code == busy_code {
        Result::Err(Error::WouldBlock)
    } else {
        Result::Err(Error::Errno(code))
    }
}

/// Map a raw code returned by the locking primitive, together with the
/// platform's code for a busy lock, to the typed acquisition result.
pub fn acquire_outcome(code: i32, busy_code: i32) -> (r: Result<(), Error>)
    ensures
        r == spec_acquire_outcome(code, busy_code),
{
    if code == 0 {
        Ok(())
    } else if code == busy_code {
        Err(Error::WouldBlock)
    } else {
        Err(Error::Errno(code))
    }
}

/// Law: classification preserves the primitive's verdict. A non-zero code is
/// never read as success; the busy code alone is read as contention; and any
/// other non-zero code is surfaced as `Errno` carrying that code verbatim.
pub proof fn lemma_acquire_classification(code: i32, busy_code: i32)
    requires
        code != 0,
    ensures
        code == busy_code ==> spec_acquire_outcome(code, busy_code)
            == Result::<(), Error>::Err(Error::WouldBlock),
        code != busy_code ==> spec_acquire_outcome(code, busy_code)
            == Result::<(), Error>::Err(Error::Errno(code)),
{
}

/// The typed result that a raw release code maps to: 0 is success, anything
/// else is the raw error code, uninterpreted.
pub open spec fn spec_release_outcome(code: i32) -> Result<(), i32> {
    if code == 0 {
        Result::Ok(())
    } else {
        Result::Err(code)
    }
}

/// Map a raw code returned by the unlocking primitive to the typed release
/// result.
pub fn release_outcome(code: i32) -> (r: Result<(), i32>)
    ensures
        r == spec_release_outcome(code),
    no_unwind
{
    if code == 0 {
        Ok(())
    } else {
        Err(code)
    }
}

/// Obtain a write- or read-lock on the file behind `fd`.
///
/// An `Errno` error always carries the non-zero code the primitive returned,
/// and a blocking request is never answered with `WouldBlock`.
pub fn lock(fd: i32, kind: Kind, mode: Mode) -> (r: Result<(), Error>)
    ensures
        r matches Err(Error::Errno(code)) ==> code != 0,
        kind is Blocking ==> !(r matches Err(Error::WouldBlock)),
{
    let outcome = sys_acquire(fd, kind.should_block(), mode.is_write());
    acquire_outcome(outcome.0, outcome.1)
}

/// Release the advisory lock held on the file behind `fd`.
///
/// A failure carries the non-zero raw code the primitive returned. Releasing
/// a descriptor that holds no lock succeeds, the primitive being idempotent
/// there.
pub fn unlock(fd: i32) -> (r: Result<(), i32>)
    ensures
        r matches Err(code) ==> code != 0,
    no_unwind
{
    let code = sys_release(fd);
    release_outcome(code)
}

} // verus!
