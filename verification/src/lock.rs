//! The session lock: an advisory lock on a well-known file, owned by the
//! operating system on behalf of the process that took it.

use vstd::prelude::*;

verus! {

/// What came back from one non-blocking attempt to take the lock.
#[derive(Clone, Copy, Debug, PartialEq, Eq, Structural)]
pub enum LockAttempt {
    /// The lock is now held by the caller.
    Acquired,
    /// Another live process holds the lock.
    WouldBlock,
    /// The lock file could not be opened or locked; the number is the
    /// error that the operating system reported.
    Failed(i32),
}

/// Why the lock was not taken.
#[derive(Clone, Copy, Debug, PartialEq, Eq, Structural)]
pub enum LockError {
    /// Another session is in progress. Not worth retrying blindly.
    Busy,
    /// The operating system refused for another reason.
    Unavailable(i32),
}

/// What a look at the lock file showed.
#[derive(Clone, Copy, Debug, PartialEq, Eq, Structural)]
pub enum LockProbe {
    /// There is no lock file.
    Missing,
    /// There is a lock file, but it could not be opened.
    Unreadable,
    /// There is a lock file and nobody holds the lock on it.
    Free,
    /// There is a lock file and a live process holds the lock on it.
    Held,
}

/// The result of an attempt, as the caller of `acquire` sees it.
pub open spec fn attempt_result(attempt: LockAttempt) -> Result<(), LockError> {
    match attempt {
        LockAttempt::Acquired => Ok(()),
        LockAttempt::WouldBlock => Err(LockError::Busy),
        LockAttempt::Failed(errno) => Err(LockError::Unavailable(errno)),
    }
}

/// The caller's hold on the session lock. The lock itself is the operating
/// system's: it ends with the process that took it, whatever becomes of the
/// handle.
#[derive(Debug, PartialEq, Eq)]
pub struct LockHandle {
    held: bool,
}

impl LockHandle {
    /// Whether the lock is still to be given back through this handle.
    pub closed spec fn holds(self) -> bool {
        self.held
    }

    /// Whether the lock is still to be given back through this handle.
    pub fn held(&self) -> (held: bool)
        ensures
            held == self.holds(),
    {
        self.held
    }
}

/// Interprets one attempt to take the session lock: a handle on the lock
/// that the caller now holds, busy because a live process holds it, or
/// unavailable.
pub fn acquire_lock(attempt: LockAttempt) -> (result: Result<LockHandle, LockError>)
    ensures
        match result {
            Ok(handle) => attempt_result(attempt) is Ok && handle.holds(),
            Err(error) => attempt_result(attempt) == Err::<(), LockError>(error),
        },
{
    match attempt {
        LockAttempt::Acquired => Ok(LockHandle { held: true }),
        LockAttempt::WouldBlock => Err(LockError::Busy),
        LockAttempt::Failed(errno) => Err(LockError::Unavailable(errno)),
    }
}

/// Gives the lock back through its handle, and tells whether there was
/// anything to give back. Releasing is idempotent: after the first release
/// the handle holds nothing, and a further release asks for nothing.
pub fn release_lock(handle: &mut LockHandle) -> (due: bool)
    ensures
        due == old(handle).holds(),
        !final(handle).holds(),
{
    let due = handle.held;
    handle.held = false;
    due
}

/// Whether a live process holds the lock.
pub fn is_held(probe: LockProbe) -> (held: bool)
    ensures
        held == (probe is Held),
{
    match probe {
        LockProbe::Held => true,
        _ => false,
    }
}

/// Whether the lock file is a leftover: it exists, and no live process
/// holds the lock on it. A fresh attempt to take the lock succeeds on such a
/// file without any cleanup.
pub fn is_stale(probe: LockProbe) -> (stale: bool)
    ensures
        stale == (probe is Free),
{
    match probe {
        LockProbe::Free => true,
        _ => false,
    }
}

} // verus!
