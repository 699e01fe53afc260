use ars_core::errors::ICBError;
use ars_core::identity::Address;
use ars_core::oracle::{query_ili, update_ili};
use ars_core::protocol::initialize;
use ars_core::state::ILIOracle;

fn addr(tag: u8) -> Address {
    Address::new([tag; 32])
}

fn fresh_oracle() -> ILIOracle {
    let (_global, oracle) = initialize(&addr(1), &addr(2), 86400, 200, 10, 15000, 0).unwrap();
    oracle
}

#[test]
fn test_update_replaces_value_and_anchors() {
    let mut oracle = fresh_oracle();
    let authority = addr(1);
    assert!(update_ili(&mut oracle, &authority, 5_000_000, 450, 1200, 9_000_000, 1000, 100).is_ok());
    assert_eq!(oracle.current_ili, 5_000_000);
    assert_eq!(oracle.last_update, 1000);
    assert_eq!(oracle.last_update_slot, 100);
    assert_eq!(oracle.snapshot_count, 1);
    assert_eq!(query_ili(&oracle), 5_000_000);
}

#[test]
fn test_update_too_soon_in_time_fails_despite_many_slots() {
    let mut oracle = fresh_oracle();
    let authority = addr(1);
    assert!(update_ili(&mut oracle, &authority, 5_000_000, 450, 1200, 9_000_000, 1000, 100).is_ok());
    // Only 100 seconds elapsed, far more than enough slots.
    let r = update_ili(&mut oracle, &authority, 6_000_000, 450, 1200, 9_000_000, 1100, 1_000_000);
    assert_eq!(r.unwrap_err(), ICBError::ILIUpdateTooSoon);
    assert_eq!(oracle.current_ili, 5_000_000);
}

#[test]
fn test_update_too_soon_in_slots_fails_despite_long_time() {
    let mut oracle = fresh_oracle();
    let authority = addr(1);
    assert!(update_ili(&mut oracle, &authority, 5_000_000, 450, 1200, 9_000_000, 1000, 100).is_ok());
    // A day of wall time, but only 10 slots of ledger progress.
    let r = update_ili(&mut oracle, &authority, 6_000_000, 450, 1200, 9_000_000, 87_400, 110);
    assert_eq!(r.unwrap_err(), ICBError::ILIUpdateTooSoon);
    assert_eq!(oracle.current_ili, 5_000_000);
}

#[test]
fn test_update_rejects_out_of_range_inputs() {
    let authority = addr(1);

    let mut oracle = fresh_oracle();
    let r = update_ili(&mut oracle, &authority, 0, 450, 1200, 9_000_000, 1000, 100);
    assert_eq!(r.unwrap_err(), ICBError::InvalidILIValue);

    let mut oracle = fresh_oracle();
    let r = update_ili(&mut oracle, &authority, 2_000_000_000_000, 450, 1200, 9_000_000, 1000, 100);
    assert_eq!(r.unwrap_err(), ICBError::InvalidILIValue);

    let mut oracle = fresh_oracle();
    let r = update_ili(&mut oracle, &authority, 5_000_000, 10_001, 1200, 9_000_000, 1000, 100);
    assert_eq!(r.unwrap_err(), ICBError::InvalidYield);

    let mut oracle = fresh_oracle();
    let r = update_ili(&mut oracle, &authority, 5_000_000, 0, 1200, 9_000_000, 1000, 100);
    assert_eq!(r.unwrap_err(), ICBError::InvalidYield);

    let mut oracle = fresh_oracle();
    let r = update_ili(&mut oracle, &authority, 5_000_000, 450, 10_001, 9_000_000, 1000, 100);
    assert_eq!(r.unwrap_err(), ICBError::InvalidVolatility);

    let mut oracle = fresh_oracle();
    let r = update_ili(&mut oracle, &authority, 5_000_000, 450, 0, 9_000_000, 1000, 100);
    assert_eq!(r.unwrap_err(), ICBError::InvalidVolatility);

    let mut oracle = fresh_oracle();
    let r = update_ili(&mut oracle, &authority, 5_000_000, 450, 1200, 0, 1000, 100);
    assert_eq!(r.unwrap_err(), ICBError::InvalidTVL);
}

#[test]
fn test_update_requires_oracle_authority() {
    let mut oracle = fresh_oracle();
    let outsider = addr(77);
    let r = update_ili(&mut oracle, &outsider, 5_000_000, 450, 1200, 9_000_000, 1000, 100);
    assert_eq!(r.unwrap_err(), ICBError::Unauthorized);
    assert_eq!(oracle.current_ili, 0);
}

#[test]
fn test_snapshot_count_saturates() {
    let mut oracle = fresh_oracle();
    oracle.snapshot_count = u16::MAX;
    let authority = addr(1);
    assert!(update_ili(&mut oracle, &authority, 5_000_000, 450, 1200, 9_000_000, 1000, 100).is_ok());
    assert_eq!(oracle.snapshot_count, u16::MAX);
}
