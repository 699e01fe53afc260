use ars_core::constants::{EXECUTION_DELAY, MAX_VOTING_PERIOD, MIN_VOTING_PERIOD};
use ars_core::errors::ICBError;
use ars_core::identity::Address;
use ars_core::proposal::{
    create_proposal, execute_passed, execute_proposal, finalize_proposal, vote_on_proposal,
};
use ars_core::protocol::initialize;
use ars_core::state::{GlobalState, PolicyProposal, PolicyType, ProposalStatus, VoteRecord};

fn addr(tag: u8) -> Address {
    Address::new([tag; 32])
}

fn fresh_global() -> GlobalState {
    let (global, _oracle) =
        initialize(&addr(1), &addr(2), 86400, 200, 10, 15000, 55).unwrap();
    global
}

fn active_proposal(global: &mut GlobalState, now: i64) -> PolicyProposal {
    create_proposal(global, &addr(9), PolicyType::MintICU, vec![1, 2], 600, now).unwrap()
}

#[test]
fn test_create_assigns_increasing_ids() {
    let mut global = fresh_global();
    let p1 = active_proposal(&mut global, 1000);
    let p2 = active_proposal(&mut global, 1100);
    let p3 = active_proposal(&mut global, 1200);
    assert_eq!(p1.id, 0);
    assert_eq!(p2.id, 1);
    assert_eq!(p3.id, 2);
    assert_eq!(global.proposal_counter, 3);
}

#[test]
fn test_create_failure_leaves_counter_unchanged() {
    let mut global = fresh_global();
    let _p1 = active_proposal(&mut global, 1000);
    let before = global.proposal_counter;
    let r = create_proposal(
        &mut global,
        &addr(9),
        PolicyType::MintICU,
        vec![],
        MIN_VOTING_PERIOD - 1,
        1000,
    );
    assert_eq!(r.unwrap_err(), ICBError::InvalidVotingPeriod);
    assert_eq!(global.proposal_counter, before);
    let p2 = active_proposal(&mut global, 1000);
    assert_eq!(p2.id, before);
}

#[test]
fn test_create_validates_duration_and_params() {
    let mut global = fresh_global();
    let too_long = create_proposal(
        &mut global,
        &addr(9),
        PolicyType::BurnICU,
        vec![],
        MAX_VOTING_PERIOD + 1,
        1000,
    );
    assert_eq!(too_long.unwrap_err(), ICBError::InvalidVotingPeriod);
    let big_params = vec![0u8; 257];
    let too_big = create_proposal(
        &mut global,
        &addr(9),
        PolicyType::BurnICU,
        big_params,
        600,
        1000,
    );
    assert_eq!(too_big.unwrap_err(), ICBError::InvalidStakeAmount);
    let fits = create_proposal(
        &mut global,
        &addr(9),
        PolicyType::BurnICU,
        vec![0u8; 256],
        600,
        1000,
    );
    assert!(fits.is_ok());
}

#[test]
fn test_create_rejected_while_breaker_active() {
    let mut global = fresh_global();
    global.circuit_breaker_active = true;
    let r = create_proposal(&mut global, &addr(9), PolicyType::MintICU, vec![], 600, 1000);
    assert_eq!(r.unwrap_err(), ICBError::CircuitBreakerActive);
}

#[test]
fn test_vote_updates_tally_with_quadratic_power() {
    let mut global = fresh_global();
    let mut proposal = active_proposal(&mut global, 1000);
    let record = vote_on_proposal(
        &global,
        &mut proposal,
        &addr(40),
        &addr(50),
        true,
        10000,
        [7u8; 64],
        None,
        1100,
    )
    .unwrap();
    assert_eq!(proposal.yes_stake, 100);
    assert_eq!(proposal.no_stake, 0);
    assert_eq!(record.stake_amount, 10000);
    assert!(record.prediction);
    assert!(!record.claimed);
    let no_record = vote_on_proposal(
        &global,
        &mut proposal,
        &addr(40),
        &addr(51),
        false,
        2500,
        [8u8; 64],
        None,
        1200,
    )
    .unwrap();
    assert_eq!(proposal.no_stake, 50);
    assert!(!no_record.prediction);
}

#[test]
fn test_second_vote_by_same_agent_rejected() {
    let mut global = fresh_global();
    let mut proposal = active_proposal(&mut global, 1000);
    let first = vote_on_proposal(
        &global,
        &mut proposal,
        &addr(40),
        &addr(50),
        true,
        400,
        [7u8; 64],
        None,
        1100,
    )
    .unwrap();
    let yes_before = proposal.yes_stake;
    let second = vote_on_proposal(
        &global,
        &mut proposal,
        &addr(40),
        &addr(50),
        true,
        400,
        [7u8; 64],
        Some(&first),
        1150,
    );
    assert_eq!(second.unwrap_err(), ICBError::AlreadyVoted);
    assert_eq!(proposal.yes_stake, yes_before);
}

#[test]
fn test_vote_after_claim_is_allowed_again() {
    let mut global = fresh_global();
    let mut proposal = active_proposal(&mut global, 1000);
    let mut first = vote_on_proposal(
        &global,
        &mut proposal,
        &addr(40),
        &addr(50),
        true,
        400,
        [7u8; 64],
        None,
        1100,
    )
    .unwrap();
    first.claimed = true;
    let second = vote_on_proposal(
        &global,
        &mut proposal,
        &addr(40),
        &addr(50),
        false,
        400,
        [7u8; 64],
        Some(&first),
        1150,
    );
    assert!(second.is_ok());
}

#[test]
fn test_vote_rejections() {
    let mut global = fresh_global();
    let mut proposal = active_proposal(&mut global, 1000);
    let zero_stake = vote_on_proposal(
        &global,
        &mut proposal,
        &addr(40),
        &addr(50),
        true,
        0,
        [7u8; 64],
        None,
        1100,
    );
    assert_eq!(zero_stake.unwrap_err(), ICBError::InvalidStakeAmount);
    let window_closed = vote_on_proposal(
        &global,
        &mut proposal,
        &addr(40),
        &addr(50),
        true,
        100,
        [7u8; 64],
        None,
        1600,
    );
    assert_eq!(window_closed.unwrap_err(), ICBError::ProposalNotActive);
    let mut gated = global.clone();
    gated.circuit_breaker_active = true;
    let breaker = vote_on_proposal(
        &gated,
        &mut proposal,
        &addr(40),
        &addr(50),
        true,
        100,
        [7u8; 64],
        None,
        1100,
    );
    assert_eq!(breaker.unwrap_err(), ICBError::CircuitBreakerActive);
}

#[test]
fn test_finalize_exact_tie_fails() {
    let mut global = fresh_global();
    let mut proposal = active_proposal(&mut global, 1000);
    proposal.yes_stake = 5000;
    proposal.no_stake = 5000;
    assert!(finalize_proposal(&mut proposal, 1600).is_ok());
    assert_eq!(proposal.status, ProposalStatus::Failed);
}

#[test]
fn test_finalize_before_end_time_fails() {
    let mut global = fresh_global();
    let mut proposal = active_proposal(&mut global, 1000);
    proposal.yes_stake = 10;
    let r = finalize_proposal(&mut proposal, 1599);
    assert_eq!(r.unwrap_err(), ICBError::ProposalStillActive);
    assert_eq!(proposal.status, ProposalStatus::Active);
    assert_eq!(proposal.yes_stake, 10);
}

#[test]
fn test_finalize_with_no_stake_fails() {
    let mut global = fresh_global();
    let mut proposal = active_proposal(&mut global, 1000);
    let r = finalize_proposal(&mut proposal, 1600);
    assert_eq!(r.unwrap_err(), ICBError::InsufficientStake);
    assert_eq!(proposal.status, ProposalStatus::Active);
}

#[test]
fn test_finalize_strict_majority_passes() {
    let mut global = fresh_global();
    let mut proposal = active_proposal(&mut global, 1000);
    proposal.yes_stake = 5001;
    proposal.no_stake = 4999;
    assert!(finalize_proposal(&mut proposal, 1700).is_ok());
    assert_eq!(proposal.status, ProposalStatus::Passed);
    assert_eq!(proposal.passed_at, 1700);
}

#[test]
fn test_execute_respects_delay() {
    let mut global = fresh_global();
    let mut proposal = active_proposal(&mut global, 1000);
    proposal.yes_stake = 60;
    proposal.no_stake = 40;
    assert!(finalize_proposal(&mut proposal, 1600).is_ok());
    assert_eq!(proposal.status, ProposalStatus::Passed);

    let authority = addr(1);
    let too_early = execute_passed(&global, &mut proposal, &authority, 1600 + EXECUTION_DELAY - 1);
    assert_eq!(too_early.unwrap_err(), ICBError::ExecutionDelayNotMet);
    assert_eq!(proposal.status, ProposalStatus::Passed);

    let on_time = execute_passed(&global, &mut proposal, &authority, 1600 + EXECUTION_DELAY);
    assert!(on_time.is_ok());
    assert_eq!(proposal.status, ProposalStatus::Executed);
}

#[test]
fn test_execute_requires_authority_and_passed_status() {
    let mut global = fresh_global();
    let mut proposal = active_proposal(&mut global, 1000);
    let outsider = addr(99);
    let r = execute_passed(&global, &mut proposal, &outsider, 999999);
    assert_eq!(r.unwrap_err(), ICBError::Unauthorized);
    let mut failed = proposal.clone();
    failed.status = ProposalStatus::Failed;
    let r2 = execute_passed(&global, &mut failed, &addr(1), 999999);
    assert_eq!(r2.unwrap_err(), ICBError::ProposalNotReadyForExecution);
}

#[test]
fn test_combined_entry_point_finalizes_then_executes() {
    let mut global = fresh_global();
    let mut proposal = active_proposal(&mut global, 1000);
    proposal.yes_stake = 3;
    proposal.no_stake = 1;
    let authority = addr(1);
    assert!(execute_proposal(&global, &mut proposal, &authority, 1600).is_ok());
    assert_eq!(proposal.status, ProposalStatus::Passed);
    assert!(execute_proposal(&global, &mut proposal, &authority, 1600 + EXECUTION_DELAY).is_ok());
    assert_eq!(proposal.status, ProposalStatus::Executed);
    let done = execute_proposal(&global, &mut proposal, &authority, 2 * EXECUTION_DELAY + 2000);
    assert_eq!(done.unwrap_err(), ICBError::ProposalNotReadyForExecution);
}

#[test]
fn test_finalize_rejects_non_active_status() {
    let mut global = fresh_global();
    let mut proposal = active_proposal(&mut global, 1000);
    proposal.status = ProposalStatus::Cancelled;
    let r = finalize_proposal(&mut proposal, 99_999);
    assert_eq!(r.unwrap_err(), ICBError::ProposalNotActive);
    assert_eq!(proposal.status, ProposalStatus::Cancelled);
}

#[test]
fn test_vote_record_keys_match_lookup() {
    let mut global = fresh_global();
    let mut proposal = active_proposal(&mut global, 1000);
    let record: VoteRecord = vote_on_proposal(
        &global,
        &mut proposal,
        &addr(40),
        &addr(50),
        true,
        9,
        [3u8; 64],
        None,
        1050,
    )
    .unwrap();
    assert_eq!(record.proposal.bytes, addr(40).bytes);
    assert_eq!(record.agent.bytes, addr(50).bytes);
    assert_eq!(record.timestamp, 1050);
}
