//! Protocol lifecycle: one-time initialization of the global record and the
//! oracle, and the one-time wiring of the reserve vault reference.

use vstd::prelude::*;

use crate::constants::{BPS_DENOMINATOR, DEFAULT_ILI_UPDATE_INTERVAL};
use crate::errors::ICBError;
use crate::identity::Address;
use crate::state::{GlobalState, ILIOracle};

verus! {

/// Creates the global record and the oracle record. Rejects a non-positive
/// epoch duration, a mint/burn cap above 100%, and a health-ratio threshold
/// below 100%; on success both records start with the circuit breaker idle,
/// the proposal counter at zero and the oracle empty.
pub fn initialize(
    authority: &Address,
    oracle_ref: &Address,
    epoch_duration: i64,
    mint_burn_cap_bps: u16,
    stability_fee_bps: u16,
    vhr_threshold: u16,
    current_slot: u64,
) -> (r: Result<(GlobalState, ILIOracle), ICBError>)
    ensures
        r is Ok <==> epoch_duration > 0 && mint_burn_cap_bps <= BPS_DENOMINATOR
            && vhr_threshold >= 10000,
        epoch_duration <= 0 ==> r == Err::<(GlobalState, ILIOracle), ICBError>(
            ICBError::InvalidEpochDuration,
        ),
        epoch_duration > 0 && mint_burn_cap_bps > BPS_DENOMINATOR ==> r == Err::<
            (GlobalState, ILIOracle),
            ICBError,
        >(ICBError::InvalidMintBurnCap),
        epoch_duration > 0 && mint_burn_cap_bps <= BPS_DENOMINATOR && vhr_threshold < 10000
            ==> r == Err::<(GlobalState, ILIOracle), ICBError>(ICBError::InvalidVHRThreshold),
        r is Ok ==> ({
            let g = r->Ok_0.0;
            let o = r->Ok_0.1;
            &&& g.authority@ == authority@
            &&& g.ili_oracle@ == oracle_ref@
            &&& g.reserve_vault.is_zero()
            &&& g.icu_mint.is_zero()
            &&& g.epoch_duration == epoch_duration
            &&& g.mint_burn_cap_bps == mint_burn_cap_bps
            &&& g.stability_fee_bps == stability_fee_bps
            &&& g.vhr_threshold == vhr_threshold
            &&& !g.circuit_breaker_active
            &&& g.proposal_counter == 0
            &&& g.circuit_breaker_requested_at == 0
            &&& g.last_update_slot == current_slot
            &&& g.wf()
            &&& o.authority@ == authority@
            &&& o.current_ili == 0
            &&& o.last_update == 0
            &&& o.update_interval == DEFAULT_ILI_UPDATE_INTERVAL
            &&& o.snapshot_count == 0
            &&& o.last_update_slot == current_slot
            &&& o.wf()
        }),
{
    if epoch_duration <= 0 {
        return Err(ICBError::InvalidEpochDuration);
    }
    if mint_burn_cap_bps > BPS_DENOMINATOR {
        return Err(ICBError::InvalidMintBurnCap);
    }
    if vhr_threshold < 10000 {
        return Err(ICBError::InvalidVHRThreshold);
    }
    let global_state = GlobalState {
        authority: *authority,
        ili_oracle: *oracle_ref,
        reserve_vault: Address::zero(),
        icu_mint: Address::zero(),
        epoch_duration,
        mint_burn_cap_bps,
        stability_fee_bps,
        vhr_threshold,
        circuit_breaker_active: false,
        proposal_counter: 0,
        circuit_breaker_requested_at: 0,
        last_update_slot: current_slot,
    };
    let ili_oracle = ILIOracle {
        authority: *authority,
        current_ili: 0,
        last_update: 0,
        update_interval: DEFAULT_ILI_UPDATE_INTERVAL,
        snapshot_count: 0,
        last_update_slot: current_slot,
    };
    Ok((global_state, ili_oracle))
}

/// Wires the reserve vault and mint references into the global record, once:
/// only the protocol authority may call, and only while the reference is
/// still unset.
pub fn set_reserve_vault(
    global: &mut GlobalState,
    caller: &Address,
    vault_ref: &Address,
    mint_ref: &Address,
) -> (r: Result<(), ICBError>)
    ensures
        caller@ != old(global).authority@ ==> r == Err::<(), ICBError>(ICBError::Unauthorized)
            && *final(global) == *old(global),
        caller@ == old(global).authority@ && !old(global).reserve_vault.is_zero() ==> r == Err::<
            (),
            ICBError,
        >(ICBError::InvalidReserveVault) && *final(global) == *old(global),
        caller@ == old(global).authority@ && old(global).reserve_vault.is_zero() ==> r is Ok
            && *final(global) == (GlobalState {
            reserve_vault: *vault_ref,
            icu_mint: *mint_ref,
            ..*old(global)
        }),
{
    if !caller.equals(&global.authority) {
        return Err(ICBError::Unauthorized);
    }
    if !global.reserve_vault.is_unset() {
        return Err(ICBError::InvalidReserveVault);
    }
    global.reserve_vault = *vault_ref;
    global.icu_mint = *mint_ref;
    Ok(())
}

} // verus!
