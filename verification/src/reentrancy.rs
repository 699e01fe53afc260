//! Reentrancy protection around value-moving operations: a non-reentrant
//! lock scoped to a single sequential state transition. The guard defends
//! against the guarded code re-entering the protocol through a callback
//! during an external call, not against parallel threads — execution is
//! strictly sequential.
//!
//! Discipline: acquire before any external value-transfer call, release on
//! every exit path — the error path included — before propagating the
//! transfer's own result, so a failed transfer never bricks the vault.

use vstd::prelude::*;

use crate::errors::ICBError;

verus! {

/// Takes the lock: fails with `ReentrancyDetected` when it is already held,
/// otherwise sets it.
pub fn acquire_lock(locked: &mut bool) -> (r: Result<(), ICBError>)
    ensures
        *old(locked) ==> r == Err::<(), ICBError>(ICBError::ReentrancyDetected) && *final(locked),
        !*old(locked) ==> r is Ok && *final(locked),
{
    if *locked {
        return Err(ICBError::ReentrancyDetected);
    }
    *locked = true;
    Ok(())
}

/// Clears the lock unconditionally; always succeeds, so recovery from a
/// failed guarded operation is never blocked.
pub fn release_lock(locked: &mut bool) -> (r: Result<(), ICBError>)
    ensures
        r is Ok,
        !*final(locked),
{
    *locked = false;
    Ok(())
}

/// A witness that the lock was taken by the current scope. The holder must
/// hand it back through [`ReentrancyGuard::release`] on every exit path;
/// consuming the witness is what clears the lock.
pub struct ReentrancyGuard {}

impl ReentrancyGuard {
    /// Takes the lock and returns the scope's witness, or fails with
    /// `ReentrancyDetected` when the lock is already held.
    pub fn new(locked: &mut bool) -> (r: Result<ReentrancyGuard, ICBError>)
        ensures
            *old(locked) ==> r == Err::<ReentrancyGuard, ICBError>(ICBError::ReentrancyDetected)
                && *final(locked),
            !*old(locked) ==> r is Ok && *final(locked),
    {
        acquire_lock(locked)?;
        Ok(ReentrancyGuard {  })
    }

    /// Consumes the witness and clears the lock.
    pub fn release(self, locked: &mut bool)
        ensures
            !*final(locked),
    {
        *locked = false;
    }
}

} // verus!
