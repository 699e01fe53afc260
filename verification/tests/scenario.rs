//! End-to-end governance walk-through: initialize, propose, vote on both
//! sides with quadratic power, finalize after the window, and execute only
//! once the mandatory delay has elapsed.

use ars_core::constants::EXECUTION_DELAY;
use ars_core::errors::ICBError;
use ars_core::identity::Address;
use ars_core::proposal::{create_proposal, execute_passed, finalize_proposal, vote_on_proposal};
use ars_core::protocol::initialize;
use ars_core::state::{PolicyType, ProposalStatus};

fn addr(tag: u8) -> Address {
    Address::new([tag; 32])
}

#[test]
fn test_full_governance_round() {
    let authority = addr(1);
    let (mut global, _oracle) =
        initialize(&authority, &addr(2), 86400, 200, 10, 15000, 7).unwrap();

    // Create a proposal with a 600 second voting window.
    let start: i64 = 10_000;
    let mut proposal = create_proposal(
        &mut global,
        &addr(10),
        PolicyType::UpdateICR,
        vec![1, 2, 3, 4],
        600,
        start,
    )
    .unwrap();
    assert_eq!(proposal.id, 0);
    assert_eq!(proposal.end_time, start + 600);
    assert_eq!(proposal.status, ProposalStatus::Active);

    // One agent stakes 10000 predicting yes: power 100.
    let yes_voter = addr(20);
    vote_on_proposal(
        &global,
        &mut proposal,
        &addr(40),
        &yes_voter,
        true,
        10_000,
        [1u8; 64],
        None,
        start + 100,
    )
    .unwrap();
    assert_eq!(proposal.yes_stake, 100);

    // Another agent stakes 2500 predicting no: power 50.
    let no_voter = addr(21);
    vote_on_proposal(
        &global,
        &mut proposal,
        &addr(40),
        &no_voter,
        false,
        2_500,
        [2u8; 64],
        None,
        start + 200,
    )
    .unwrap();
    assert_eq!(proposal.no_stake, 50);

    // After the window closes, the yes side holds 6666 basis points of the
    // tally: a strict majority, so the proposal passes.
    let finalize_at = start + 600;
    assert_eq!(100u128 * 10_000 / 150, 6_666);
    assert!(finalize_proposal(&mut proposal, finalize_at).is_ok());
    assert_eq!(proposal.status, ProposalStatus::Passed);
    assert_eq!(proposal.passed_at, finalize_at);

    // Execution before the delay fails and changes nothing.
    let early = execute_passed(
        &global,
        &mut proposal,
        &authority,
        finalize_at + EXECUTION_DELAY - 1,
    );
    assert_eq!(early.unwrap_err(), ICBError::ExecutionDelayNotMet);
    assert_eq!(proposal.status, ProposalStatus::Passed);

    // At the instant the delay elapses, execution succeeds.
    assert!(execute_passed(&global, &mut proposal, &authority, finalize_at + EXECUTION_DELAY)
        .is_ok());
    assert_eq!(proposal.status, ProposalStatus::Executed);
}
