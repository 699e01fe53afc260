use ars_core::auth::InstructionRecord;
use ars_core::errors::ICBError;
use ars_core::identity::Address;
use ars_core::instructions::{create_proposal_authenticated, vote_on_proposal_authenticated};
use ars_core::protocol::initialize;
use ars_core::state::{AgentState, GlobalState, PolicyType, ProposalStatus};

fn addr(tag: u8) -> Address {
    Address::new([tag; 32])
}

fn program() -> Address {
    addr(250)
}

fn record_for(agent: &Address) -> InstructionRecord {
    let mut data = vec![0u8; 120];
    data[16..48].copy_from_slice(&agent.bytes);
    InstructionRecord { program_id: program(), data }
}

fn fresh_global() -> GlobalState {
    let (global, _oracle) = initialize(&addr(1), &addr(2), 86400, 200, 10, 15000, 0).unwrap();
    global
}

fn agent_record(agent: &Address) -> AgentState {
    AgentState { agent_pubkey: *agent, nonce: 0, last_action_timestamp: 0 }
}

#[test]
fn test_authenticated_create_burns_nonce_with_creation() {
    let proposer = addr(60);
    let mut state = agent_record(&proposer);
    let mut global = fresh_global();
    let record = record_for(&proposer);
    let proposal = create_proposal_authenticated(
        Some(&record),
        &program(),
        &mut state,
        &mut global,
        &proposer,
        PolicyType::MintICU,
        vec![1],
        600,
        950,
        1000,
    )
    .unwrap();
    assert_eq!(proposal.id, 0);
    assert_eq!(proposal.status, ProposalStatus::Active);
    assert_eq!(state.nonce, 1);
    assert_eq!(global.proposal_counter, 1);
}

#[test]
fn test_authenticated_create_aborts_atomically() {
    let proposer = addr(60);
    let mut state = agent_record(&proposer);
    let mut global = fresh_global();

    // Authentication failure: nothing moves.
    let no_verification = create_proposal_authenticated(
        None,
        &program(),
        &mut state,
        &mut global,
        &proposer,
        PolicyType::MintICU,
        vec![1],
        600,
        950,
        1000,
    );
    assert_eq!(no_verification.unwrap_err(), ICBError::MissingSignatureVerification);
    assert_eq!(state.nonce, 0);
    assert_eq!(global.proposal_counter, 0);

    // Transition failure after successful authentication: the nonce burn is
    // rolled back with everything else.
    global.circuit_breaker_active = true;
    let record = record_for(&proposer);
    let gated = create_proposal_authenticated(
        Some(&record),
        &program(),
        &mut state,
        &mut global,
        &proposer,
        PolicyType::MintICU,
        vec![1],
        600,
        950,
        1000,
    );
    assert_eq!(gated.unwrap_err(), ICBError::CircuitBreakerActive);
    assert_eq!(state.nonce, 0);
    assert_eq!(global.proposal_counter, 0);
}

#[test]
fn test_authenticated_vote_full_flow() {
    let proposer = addr(60);
    let voter = addr(61);
    let mut proposer_state = agent_record(&proposer);
    let mut voter_state = agent_record(&voter);
    let mut global = fresh_global();
    let record = record_for(&proposer);
    let mut proposal = create_proposal_authenticated(
        Some(&record),
        &program(),
        &mut proposer_state,
        &mut global,
        &proposer,
        PolicyType::UpdateICR,
        vec![],
        600,
        950,
        1000,
    )
    .unwrap();

    let voter_record = record_for(&voter);
    let vote = vote_on_proposal_authenticated(
        Some(&voter_record),
        &program(),
        &mut voter_state,
        &global,
        &mut proposal,
        &addr(90),
        &voter,
        true,
        900,
        [4u8; 64],
        None,
        1040,
        1050,
    )
    .unwrap();
    assert_eq!(proposal.yes_stake, 30);
    assert_eq!(voter_state.nonce, 1);
    assert!(!vote.claimed);

    // A second authenticated vote by the same agent fails on the duplicate
    // guard and burns no nonce.
    let second = vote_on_proposal_authenticated(
        Some(&record_for(&voter)),
        &program(),
        &mut voter_state,
        &global,
        &mut proposal,
        &addr(90),
        &voter,
        false,
        900,
        [4u8; 64],
        Some(&vote),
        1060,
        1070,
    );
    assert_eq!(second.unwrap_err(), ICBError::AlreadyVoted);
    assert_eq!(voter_state.nonce, 1);
    assert_eq!(proposal.yes_stake, 30);
    assert_eq!(proposal.no_stake, 0);
}
