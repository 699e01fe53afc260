//! Oracle state transitions: freshness- and bounds-checked updates of the
//! risk index, and a pure read.
//!
//! An update must clear two independent freshness anchors — elapsed wall
//! time and elapsed ledger slots — so that manipulating the clock alone can
//! never force an early update through.

use vstd::prelude::*;

use crate::constants::{MAX_ILI_VALUE, MAX_VOLATILITY_BPS, MAX_YIELD_BPS, MIN_SLOT_BUFFER};
use crate::errors::ICBError;
use crate::identity::Address;
use crate::state::{valid_time, ILIOracle};

verus! {

/// Both freshness anchors cleared: enough wall time and enough slots since
/// the previous accepted update.
pub open spec fn update_is_fresh(oracle: ILIOracle, now: i64, current_slot: u64) -> bool {
    &&& now - oracle.last_update >= oracle.update_interval
    &&& current_slot - oracle.last_update_slot >= MIN_SLOT_BUFFER
}

/// Exact outcome of an oracle update: the first failed check names the
/// error — each input is rejected when it is zero or above its sanity
/// ceiling — and a successful update replaces the value and both freshness
/// anchors atomically and bumps the snapshot counter (saturating).
pub open spec fn spec_update_ili(
    oracle: ILIOracle,
    caller: Address,
    ili_value: u64,
    avg_yield: u32,
    volatility: u32,
    tvl: u64,
    now: i64,
    current_slot: u64,
) -> Result<ILIOracle, ICBError> {
    if caller@ != oracle.authority@ {
        Err(ICBError::Unauthorized)
    } else if !update_is_fresh(oracle, now, current_slot) {
        Err(ICBError::ILIUpdateTooSoon)
    } else if !(ili_value > 0 && ili_value <= MAX_ILI_VALUE) {
        Err(ICBError::InvalidILIValue)
    } else if !(avg_yield > 0 && avg_yield <= MAX_YIELD_BPS) {
        Err(ICBError::InvalidYield)
    } else if !(volatility > 0 && volatility <= MAX_VOLATILITY_BPS) {
        Err(ICBError::InvalidVolatility)
    } else if tvl == 0 {
        Err(ICBError::InvalidTVL)
    } else {
        Ok(
            ILIOracle {
                current_ili: ili_value,
                last_update: now,
                last_update_slot: current_slot,
                snapshot_count: if oracle.snapshot_count == u16::MAX {
                    u16::MAX
                } else {
                    (oracle.snapshot_count + 1) as u16
                },
                ..oracle
            },
        )
    }
}

/// Applies a validated oracle update, or fails leaving the record untouched.
pub fn update_ili(
    oracle: &mut ILIOracle,
    caller: &Address,
    ili_value: u64,
    avg_yield: u32,
    volatility: u32,
    tvl: u64,
    now: i64,
    current_slot: u64,
) -> (r: Result<(), ICBError>)
    requires
        old(oracle).wf(),
        valid_time(now),
        current_slot >= old(oracle).last_update_slot,
    ensures
        match spec_update_ili(
            *old(oracle),
            *caller,
            ili_value,
            avg_yield,
            volatility,
            tvl,
            now,
            current_slot,
        ) {
            Ok(updated) => r is Ok && *final(oracle) == updated,
            Err(e) => r == Err::<(), ICBError>(e) && *final(oracle) == *old(oracle),
        },
        r is Ok ==> final(oracle).wf(),
{
    if !caller.equals(&oracle.authority) {
        return Err(ICBError::Unauthorized);
    }
    let time_delta = now - oracle.last_update;
    let slot_delta = current_slot - oracle.last_update_slot;
    if !(time_delta >= oracle.update_interval && slot_delta >= MIN_SLOT_BUFFER) {
        return Err(ICBError::ILIUpdateTooSoon);
    }
    if !(ili_value > 0 && ili_value <= MAX_ILI_VALUE) {
        return Err(ICBError::InvalidILIValue);
    }
    if !(avg_yield > 0 && avg_yield <= MAX_YIELD_BPS) {
        return Err(ICBError::InvalidYield);
    }
    if !(volatility > 0 && volatility <= MAX_VOLATILITY_BPS) {
        return Err(ICBError::InvalidVolatility);
    }
    if tvl == 0 {
        return Err(ICBError::InvalidTVL);
    }
    oracle.current_ili = ili_value;
    oracle.last_update = now;
    oracle.last_update_slot = current_slot;
    oracle.snapshot_count = oracle.snapshot_count.saturating_add(1);
    Ok(())
}

/// Pure read of the current index value; no side effect.
pub fn query_ili(oracle: &ILIOracle) -> (r: u64)
    ensures
        r == oracle.current_ili,
{
    oracle.current_ili
}

} // verus!
