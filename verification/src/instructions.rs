//! Authenticated entry points: each composes the authentication guard with
//! one state-machine transition in the order the protocol demands —
//! authentication first, then circuit-breaker gating, then the transition —
//! and commits all of its effects or none of them, the nonce burn included,
//! mirroring the ledger's atomic abort of a failed action.

use vstd::prelude::*;

use crate::auth::{
    spec_authenticate, spec_prev_instruction, validate_agent_auth, InstructionRecord,
};
use crate::errors::ICBError;
use crate::identity::Address;
use crate::proposal::{
    create_proposal, spec_create_proposal, spec_prior_record, spec_vote_on_proposal,
    vote_on_proposal,
};
use crate::signature::validate_timestamp;
use crate::state::{valid_time, AgentState, GlobalState, PolicyProposal, PolicyType, VoteRecord};

verus! {

/// Exact outcome of an authenticated proposal creation: the authentication
/// errors come first, then the creation errors; on success the agent's
/// nonce moves with the counter in one atomic step.
pub open spec fn spec_create_proposal_authenticated(
    prev_instruction: Option<InstructionRecord>,
    trusted_verifier: Address,
    agent_state: AgentState,
    global: GlobalState,
    proposer: Address,
    policy_type: PolicyType,
    policy_params: Vec<u8>,
    duration: i64,
    signed_timestamp: i64,
    now: i64,
) -> Result<(AgentState, GlobalState, PolicyProposal), ICBError> {
    match spec_authenticate(
        prev_instruction,
        trusted_verifier,
        agent_state,
        proposer,
        signed_timestamp,
        now,
    ) {
        Err(e) => Err(e),
        Ok(agent_updated) => match spec_create_proposal(
            global,
            proposer,
            policy_type,
            policy_params,
            duration,
            now,
        ) {
            Err(e) => Err(e),
            Ok(created) => Ok((agent_updated, created.0, created.1)),
        },
    }
}

/// Creates a proposal as one authenticated action: the preceding signature
/// verification is checked, the signed timestamp's freshness enforced, and
/// the agent's nonce burned — but only together with a successful creation;
/// any failure leaves both the agent record and the global record untouched.
pub fn create_proposal_authenticated(
    prev_instruction: Option<&InstructionRecord>,
    trusted_verifier: &Address,
    agent_state: &mut AgentState,
    global: &mut GlobalState,
    proposer: &Address,
    policy_type: PolicyType,
    policy_params: Vec<u8>,
    duration: i64,
    signed_timestamp: i64,
    now: i64,
) -> (r: Result<PolicyProposal, ICBError>)
    requires
        valid_time(now),
        old(agent_state).agent_pubkey@ == proposer@,
        old(global).wf(),
    ensures
        match spec_create_proposal_authenticated(
            spec_prev_instruction(prev_instruction),
            *trusted_verifier,
            *old(agent_state),
            *old(global),
            *proposer,
            policy_type,
            policy_params,
            duration,
            signed_timestamp,
            now,
        ) {
            Ok(updated) => r is Ok && *final(agent_state) == updated.0 && *final(global)
                == updated.1 && r->Ok_0 == updated.2,
            Err(e) => r == Err::<PolicyProposal, ICBError>(e) && *final(agent_state) == *old(
                agent_state,
            ) && *final(global) == *old(global),
        },
        final(global).wf(),
{
    validate_agent_auth(prev_instruction, trusted_verifier, proposer)?;
    validate_timestamp(signed_timestamp, now)?;
    let next_nonce = match agent_state.nonce.checked_add(1) {
        Some(n) => n,
        None => {
            return Err(ICBError::CounterOverflow);
        },
    };
    let proposal = create_proposal(global, proposer, policy_type, policy_params, duration, now)?;
    agent_state.nonce = next_nonce;
    agent_state.last_action_timestamp = now;
    Ok(proposal)
}

/// Exact outcome of an authenticated vote, in the same authentication-first
/// order with atomic commitment.
pub open spec fn spec_vote_on_proposal_authenticated(
    prev_instruction: Option<InstructionRecord>,
    trusted_verifier: Address,
    agent_state: AgentState,
    global: GlobalState,
    proposal: PolicyProposal,
    proposal_key: Address,
    agent: Address,
    prediction: bool,
    stake_amount: u64,
    agent_signature: [u8; 64],
    prior_record: Option<VoteRecord>,
    signed_timestamp: i64,
    now: i64,
) -> Result<(AgentState, PolicyProposal, VoteRecord), ICBError> {
    match spec_authenticate(
        prev_instruction,
        trusted_verifier,
        agent_state,
        agent,
        signed_timestamp,
        now,
    ) {
        Err(e) => Err(e),
        Ok(agent_updated) => match spec_vote_on_proposal(
            global,
            proposal,
            proposal_key,
            agent,
            prediction,
            stake_amount,
            agent_signature,
            prior_record,
            now,
        ) {
            Err(e) => Err(e),
            Ok(voted) => Ok((agent_updated, voted.0, voted.1)),
        },
    }
}

/// Casts a vote as one authenticated action: verification, freshness and
/// nonce burn commit only together with the tally update and the new vote
/// record; any failure leaves every record untouched.
pub fn vote_on_proposal_authenticated(
    prev_instruction: Option<&InstructionRecord>,
    trusted_verifier: &Address,
    agent_state: &mut AgentState,
    global: &GlobalState,
    proposal: &mut PolicyProposal,
    proposal_key: &Address,
    agent: &Address,
    prediction: bool,
    stake_amount: u64,
    agent_signature: [u8; 64],
    prior_record: Option<&VoteRecord>,
    signed_timestamp: i64,
    now: i64,
) -> (r: Result<VoteRecord, ICBError>)
    requires
        valid_time(now),
        old(agent_state).agent_pubkey@ == agent@,
        old(proposal).wf(),
        match prior_record {
            Some(prev) => prev.proposal@ == proposal_key@ && prev.agent@ == agent@,
            None => true,
        },
    ensures
        match spec_vote_on_proposal_authenticated(
            spec_prev_instruction(prev_instruction),
            *trusted_verifier,
            *old(agent_state),
            *global,
            *old(proposal),
            *proposal_key,
            *agent,
            prediction,
            stake_amount,
            agent_signature,
            spec_prior_record(prior_record),
            signed_timestamp,
            now,
        ) {
            Ok(updated) => r is Ok && *final(agent_state) == updated.0 && *final(proposal)
                == updated.1 && r->Ok_0 == updated.2,
            Err(e) => r == Err::<VoteRecord, ICBError>(e) && *final(agent_state) == *old(
                agent_state,
            ) && *final(proposal) == *old(proposal),
        },
        final(proposal).wf(),
{
    validate_agent_auth(prev_instruction, trusted_verifier, agent)?;
    validate_timestamp(signed_timestamp, now)?;
    let next_nonce = match agent_state.nonce.checked_add(1) {
        Some(n) => n,
        None => {
            return Err(ICBError::CounterOverflow);
        },
    };
    let record = vote_on_proposal(
        global,
        proposal,
        proposal_key,
        agent,
        prediction,
        stake_amount,
        agent_signature,
        prior_record,
        now,
    )?;
    agent_state.nonce = next_nonce;
    agent_state.last_action_timestamp = now;
    Ok(record)
}

} // verus!
