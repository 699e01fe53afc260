//! Reserve vault custody transitions, each wrapped in the reentrancy-guard
//! discipline. The external value transfer happens between the `begin` and
//! `settle` halves of a deposit or withdrawal: `begin` validates and takes
//! the lock, the ledger moves the value, and `settle` releases the lock
//! whatever the transfer's outcome, so the transfer's own failure can be
//! propagated without ever leaving the vault locked.

use vstd::prelude::*;

use crate::errors::ReserveError;
use crate::identity::Address;
use crate::state::valid_time;

verus! {

/// Custody record of the protocol's reserves.
#[derive(Clone, Debug)]
pub struct ReserveVault {
    pub authority: Address,
    pub usdc_vault: Address,
    pub sol_vault: Address,
    pub msol_vault: Address,
    /// Total custodied value in USD, 1e6 scale.
    pub total_value_usd: u64,
    /// Outstanding liabilities in USD, 1e6 scale.
    pub liabilities_usd: u64,
    /// Value-to-liability health ratio, basis points.
    pub vhr: u16,
    pub last_rebalance: i64,
    pub rebalance_threshold_bps: u16,
    /// Reentrancy flag guarding value-moving operations.
    pub locked: bool,
}

/// Per-asset allocation bounds for the vault.
#[derive(Clone, Debug)]
pub struct AssetConfig {
    pub mint: Address,
    pub target_weight_bps: u16,
    pub min_weight_bps: u16,
    pub max_weight_bps: u16,
    pub volatility_threshold_bps: u16,
    pub current_weight_bps: u16,
}

/// Validates a deposit and takes the reentrancy lock: any party may deposit
/// a positive amount. On success the vault is locked and the external
/// transfer into it may proceed.
pub fn deposit_begin(vault: &mut ReserveVault, amount: u64) -> (r: Result<(), ReserveError>)
    ensures
        amount == 0 ==> r == Err::<(), ReserveError>(ReserveError::InvalidAmount) && *final(vault)
            == *old(vault),
        amount > 0 && old(vault).locked ==> r == Err::<(), ReserveError>(
            ReserveError::ReentrancyDetected,
        ) && *final(vault) == *old(vault),
        amount > 0 && !old(vault).locked ==> r is Ok && *final(vault) == (ReserveVault {
            locked: true,
            ..*old(vault)
        }),
{
    if amount == 0 {
        return Err(ReserveError::InvalidAmount);
    }
    if vault.locked {
        return Err(ReserveError::ReentrancyDetected);
    }
    vault.locked = true;
    Ok(())
}

/// Validates a withdrawal and takes the reentrancy lock: authority-only,
/// positive amount, and the vault's token balance must cover it. On success
/// the vault is locked and the external transfer out may proceed.
pub fn withdraw_begin(
    vault: &mut ReserveVault,
    caller: &Address,
    amount: u64,
    vault_balance: u64,
) -> (r: Result<(), ReserveError>)
    ensures
        caller@ != old(vault).authority@ ==> r == Err::<(), ReserveError>(
            ReserveError::Unauthorized,
        ) && *final(vault) == *old(vault),
        caller@ == old(vault).authority@ && amount == 0 ==> r == Err::<(), ReserveError>(
            ReserveError::InvalidAmount,
        ) && *final(vault) == *old(vault),
        caller@ == old(vault).authority@ && amount > 0 && vault_balance < amount ==> r == Err::<
            (),
            ReserveError,
        >(ReserveError::InsufficientVaultBalance) && *final(vault) == *old(vault),
        caller@ == old(vault).authority@ && amount > 0 && vault_balance >= amount && old(
            vault,
        ).locked ==> r == Err::<(), ReserveError>(ReserveError::ReentrancyDetected) && *final(vault)
            == *old(vault),
        caller@ == old(vault).authority@ && amount > 0 && vault_balance >= amount && !old(
            vault,
        ).locked ==> r is Ok && *final(vault) == (ReserveVault { locked: true, ..*old(vault) }),
{
    if !caller.equals(&vault.authority) {
        return Err(ReserveError::Unauthorized);
    }
    if amount == 0 {
        return Err(ReserveError::InvalidAmount);
    }
    if vault_balance < amount {
        return Err(ReserveError::InsufficientVaultBalance);
    }
    if vault.locked {
        return Err(ReserveError::ReentrancyDetected);
    }
    vault.locked = true;
    Ok(())
}

/// Releases the reentrancy lock after the external transfer, whatever its
/// outcome; the caller then propagates the transfer's own result. Always
/// succeeds, so a failed transfer never leaves the vault locked.
pub fn settle_transfer(vault: &mut ReserveVault)
    ensures
        *final(vault) == (ReserveVault { locked: false, ..*old(vault) }),
{
    vault.locked = false;
}

/// Rebalances the vault under the reentrancy guard: authority-only. Records
/// the rebalance time and releases the lock before returning; the actual
/// reallocation strategy is an external collaborator.
pub fn rebalance(vault: &mut ReserveVault, caller: &Address, now: i64) -> (r: Result<
    (),
    ReserveError,
>)
    requires
        valid_time(now),
    ensures
        caller@ != old(vault).authority@ ==> r == Err::<(), ReserveError>(
            ReserveError::Unauthorized,
        ) && *final(vault) == *old(vault),
        caller@ == old(vault).authority@ && old(vault).locked ==> r == Err::<(), ReserveError>(
            ReserveError::ReentrancyDetected,
        ) && *final(vault) == *old(vault),
        caller@ == old(vault).authority@ && !old(vault).locked ==> r is Ok && *final(vault) == (
        ReserveVault { last_rebalance: now, locked: false, ..*old(vault) }),
{
    if !caller.equals(&vault.authority) {
        return Err(ReserveError::Unauthorized);
    }
    if vault.locked {
        return Err(ReserveError::ReentrancyDetected);
    }
    vault.locked = true;
    vault.last_rebalance = now;
    vault.locked = false;
    Ok(())
}

} // verus!
