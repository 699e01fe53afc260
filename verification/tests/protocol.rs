use ars_core::constants::DEFAULT_ILI_UPDATE_INTERVAL;
use ars_core::errors::ICBError;
use ars_core::identity::Address;
use ars_core::protocol::{initialize, set_reserve_vault};
use ars_core::state::{AgentRegistry, AgentType, ILISnapshot};
use ars_core::vault::AssetConfig;

fn addr(tag: u8) -> Address {
    Address::new([tag; 32])
}

#[test]
fn test_initialize_validates_parameters() {
    assert_eq!(
        initialize(&addr(1), &addr(2), 0, 200, 10, 15000, 0).unwrap_err(),
        ICBError::InvalidEpochDuration
    );
    assert_eq!(
        initialize(&addr(1), &addr(2), 86400, 10_001, 10, 15000, 0).unwrap_err(),
        ICBError::InvalidMintBurnCap
    );
    assert_eq!(
        initialize(&addr(1), &addr(2), 86400, 200, 10, 9_999, 0).unwrap_err(),
        ICBError::InvalidVHRThreshold
    );
}

#[test]
fn test_initialize_starts_idle_and_empty() {
    let (global, oracle) = initialize(&addr(1), &addr(2), 86400, 200, 10, 15000, 42).unwrap();
    assert_eq!(global.epoch_duration, 86400);
    assert_eq!(global.mint_burn_cap_bps, 200);
    assert_eq!(global.vhr_threshold, 15000);
    assert!(!global.circuit_breaker_active);
    assert_eq!(global.proposal_counter, 0);
    assert_eq!(global.circuit_breaker_requested_at, 0);
    assert_eq!(global.last_update_slot, 42);
    assert_eq!(global.reserve_vault.bytes, [0u8; 32]);
    assert_eq!(oracle.current_ili, 0);
    assert_eq!(oracle.last_update, 0);
    assert_eq!(oracle.update_interval, DEFAULT_ILI_UPDATE_INTERVAL);
    assert_eq!(oracle.snapshot_count, 0);
    assert_eq!(oracle.last_update_slot, 42);
}

#[test]
fn test_directory_records_hold_their_fields() {
    let registry = AgentRegistry {
        agent_pubkey: addr(5),
        agent_type: AgentType::PredictionAgent,
        total_transactions: 12,
        total_volume: 900,
        reputation_score: 77,
        registered_at: 1000,
        last_active: 2000,
    };
    assert_eq!(registry.agent_type, AgentType::PredictionAgent);
    assert_eq!(registry.total_volume, 900);
    let snapshot = ILISnapshot {
        timestamp: 3000,
        ili_value: 1_250_000,
        avg_yield: 420,
        volatility: 800,
        tvl: 5_000_000,
    };
    assert_eq!(snapshot.ili_value, 1_250_000);
    let config = AssetConfig {
        mint: addr(6),
        target_weight_bps: 3333,
        min_weight_bps: 2000,
        max_weight_bps: 5000,
        volatility_threshold_bps: 1500,
        current_weight_bps: 3300,
    };
    assert_eq!(config.target_weight_bps, 3333);
}

#[test]
fn test_set_reserve_vault_is_one_time_and_authority_only() {
    let (mut global, _oracle) = initialize(&addr(1), &addr(2), 86400, 200, 10, 15000, 0).unwrap();
    let authority = addr(1);
    assert_eq!(
        set_reserve_vault(&mut global, &addr(9), &addr(30), &addr(31)).unwrap_err(),
        ICBError::Unauthorized
    );
    assert!(set_reserve_vault(&mut global, &authority, &addr(30), &addr(31)).is_ok());
    assert_eq!(global.reserve_vault.bytes, addr(30).bytes);
    assert_eq!(global.icu_mint.bytes, addr(31).bytes);
    assert_eq!(
        set_reserve_vault(&mut global, &authority, &addr(32), &addr(33)).unwrap_err(),
        ICBError::InvalidReserveVault
    );
    assert_eq!(global.reserve_vault.bytes, addr(30).bytes);
}
