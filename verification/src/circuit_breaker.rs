//! Two-phase, timelocked circuit breaker: request arms a timer, activation
//! is only possible after the mandatory delay, deactivation is immediate so
//! that recovery is never itself delayed. All three are authority-only.

use vstd::prelude::*;

use crate::constants::CIRCUIT_BREAKER_DELAY;
use crate::errors::ICBError;
use crate::identity::Address;
use crate::state::{valid_time, GlobalState};

verus! {

/// Arms (or re-arms) the circuit-breaker timer at the current time. Rejected
/// while the breaker is already active; a repeated request simply resets the
/// timer.
pub fn request_circuit_breaker(global: &mut GlobalState, caller: &Address, now: i64) -> (r: Result<
    (),
    ICBError,
>)
    requires
        valid_time(now),
        old(global).wf(),
    ensures
        final(global).wf(),
        caller@ != old(global).authority@ ==> r == Err::<(), ICBError>(ICBError::Unauthorized)
            && *final(global) == *old(global),
        caller@ == old(global).authority@ && old(global).circuit_breaker_active ==> r == Err::<
            (),
            ICBError,
        >(ICBError::CircuitBreakerActive) && *final(global) == *old(global),
        caller@ == old(global).authority@ && !old(global).circuit_breaker_active ==> r is Ok
            && *final(global) == (GlobalState {
            circuit_breaker_requested_at: now,
            ..*old(global)
        }),
{
    if !caller.equals(&global.authority) {
        return Err(ICBError::Unauthorized);
    }
    if global.circuit_breaker_active {
        return Err(ICBError::CircuitBreakerActive);
    }
    global.circuit_breaker_requested_at = now;
    Ok(())
}

/// Flips the breaker on, but only once the mandatory delay since the request
/// has elapsed; before that instant the call fails and changes nothing.
pub fn activate_circuit_breaker(global: &mut GlobalState, caller: &Address, now: i64) -> (r: Result<
    (),
    ICBError,
>)
    requires
        valid_time(now),
        old(global).wf(),
    ensures
        final(global).wf(),
        caller@ != old(global).authority@ ==> r == Err::<(), ICBError>(ICBError::Unauthorized)
            && *final(global) == *old(global),
        caller@ == old(global).authority@ && now < old(global).circuit_breaker_requested_at
            + CIRCUIT_BREAKER_DELAY ==> r == Err::<(), ICBError>(
            ICBError::CircuitBreakerTimelockNotMet,
        ) && *final(global) == *old(global),
        caller@ == old(global).authority@ && now >= old(global).circuit_breaker_requested_at
            + CIRCUIT_BREAKER_DELAY ==> r is Ok && *final(global) == (GlobalState {
            circuit_breaker_active: true,
            ..*old(global)
        }),
{
    if !caller.equals(&global.authority) {
        return Err(ICBError::Unauthorized);
    }
    if now < global.circuit_breaker_requested_at + CIRCUIT_BREAKER_DELAY {
        return Err(ICBError::CircuitBreakerTimelockNotMet);
    }
    global.circuit_breaker_active = true;
    Ok(())
}

/// Turns the breaker off immediately and clears the pending request; for the
/// authority this always succeeds, whatever the timelock state.
pub fn deactivate_circuit_breaker(global: &mut GlobalState, caller: &Address) -> (r: Result<
    (),
    ICBError,
>)
    requires
        old(global).wf(),
    ensures
        final(global).wf(),
        caller@ != old(global).authority@ ==> r == Err::<(), ICBError>(ICBError::Unauthorized)
            && *final(global) == *old(global),
        caller@ == old(global).authority@ ==> r is Ok && *final(global) == (GlobalState {
            circuit_breaker_active: false,
            circuit_breaker_requested_at: 0,
            ..*old(global)
        }),
{
    if !caller.equals(&global.authority) {
        return Err(ICBError::Unauthorized);
    }
    global.circuit_breaker_active = false;
    global.circuit_breaker_requested_at = 0;
    Ok(())
}

} // verus!
