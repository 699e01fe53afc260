//! The proposal state machine: creation under circuit-breaker gating,
//! quadratic-stake voting with duplicate-vote protection, stake-weighted
//! finalization with a strict majority rule, and delayed execution.
//!
//! Lifecycle: `Active` moves to `Passed` or `Failed` at finalization;
//! `Passed` moves to `Executed` once the mandatory delay has elapsed;
//! `Failed`, `Executed` and `Cancelled` are terminal.

use vstd::prelude::*;

use crate::constants::{EXECUTION_DELAY, MAX_PARAMS_LEN, MAX_VOTING_PERIOD, MIN_VOTING_PERIOD};
use crate::errors::ICBError;
use crate::identity::Address;
use crate::math::{calculate_voting_power, spec_voting_power};
use crate::state::{
    valid_time, GlobalState, PolicyProposal, PolicyType, ProposalStatus, VoteRecord,
};

verus! {

/// Exact outcome of creating a proposal: gated by the circuit breaker,
/// bounded voting window and parameter blob, and an overflow-checked
/// monotonic id assignment.
pub open spec fn spec_create_proposal(
    global: GlobalState,
    proposer: Address,
    policy_type: PolicyType,
    policy_params: Vec<u8>,
    duration: i64,
    now: i64,
) -> Result<(GlobalState, PolicyProposal), ICBError> {
    if global.circuit_breaker_active {
        Err(ICBError::CircuitBreakerActive)
    } else if !(MIN_VOTING_PERIOD <= duration && duration <= MAX_VOTING_PERIOD) {
        Err(ICBError::InvalidVotingPeriod)
    } else if policy_params@.len() > MAX_PARAMS_LEN {
        Err(ICBError::InvalidStakeAmount)
    } else if global.proposal_counter == u64::MAX {
        Err(ICBError::CounterOverflow)
    } else {
        Ok(
            (
                GlobalState { proposal_counter: (global.proposal_counter + 1) as u64, ..global },
                PolicyProposal {
                    id: global.proposal_counter,
                    proposer,
                    policy_type,
                    policy_params,
                    start_time: now,
                    end_time: (now + duration) as i64,
                    yes_stake: 0,
                    no_stake: 0,
                    status: ProposalStatus::Active,
                    execution_tx: None,
                    passed_at: 0,
                },
            ),
        )
    }
}

/// Creates a proposal, assigning it the next id from the global counter.
/// Fails without touching the global record while the circuit breaker is
/// active, on an out-of-range duration or parameter blob, or when the
/// counter would overflow.
pub fn create_proposal(
    global: &mut GlobalState,
    proposer: &Address,
    policy_type: PolicyType,
    policy_params: Vec<u8>,
    duration: i64,
    now: i64,
) -> (r: Result<PolicyProposal, ICBError>)
    requires
        valid_time(now),
        old(global).wf(),
    ensures
        match spec_create_proposal(
            *old(global),
            *proposer,
            policy_type,
            policy_params,
            duration,
            now,
        ) {
            Ok(updated) => r is Ok && *final(global) == updated.0 && r->Ok_0 == updated.1,
            Err(e) => r == Err::<PolicyProposal, ICBError>(e) && *final(global) == *old(global),
        },
        final(global).wf(),
        r is Ok ==> r->Ok_0.wf(),
        final(global).proposal_counter >= old(global).proposal_counter,
{
    if global.circuit_breaker_active {
        return Err(ICBError::CircuitBreakerActive);
    }
    if !(duration >= MIN_VOTING_PERIOD && duration <= MAX_VOTING_PERIOD) {
        return Err(ICBError::InvalidVotingPeriod);
    }
    if policy_params.len() > MAX_PARAMS_LEN {
        return Err(ICBError::InvalidStakeAmount);
    }
    let proposal_id = global.proposal_counter;
    global.proposal_counter = proposal_id.checked_add(1).ok_or(ICBError::CounterOverflow)?;
    let proposal = PolicyProposal {
        id: proposal_id,
        proposer: *proposer,
        policy_type,
        policy_params,
        start_time: now,
        end_time: now + duration,
        yes_stake: 0,
        no_stake: 0,
        status: ProposalStatus::Active,
        execution_tx: None,
        passed_at: 0,
    };
    Ok(proposal)
}

/// Ids are unique and strictly increasing across successive creations in
/// one protocol instance: the second proposal's id is exactly one above the
/// first, and the counter itself strictly increases with every creation.
pub proof fn lemma_proposal_ids_strictly_increase(
    g0: GlobalState,
    proposer1: Address,
    type1: PolicyType,
    params1: Vec<u8>,
    duration1: i64,
    now1: i64,
    g1: GlobalState,
    p1: PolicyProposal,
    proposer2: Address,
    type2: PolicyType,
    params2: Vec<u8>,
    duration2: i64,
    now2: i64,
    g2: GlobalState,
    p2: PolicyProposal,
)
    requires
        spec_create_proposal(g0, proposer1, type1, params1, duration1, now1) == Ok::<
            (GlobalState, PolicyProposal),
            ICBError,
        >((g1, p1)),
        spec_create_proposal(g1, proposer2, type2, params2, duration2, now2) == Ok::<
            (GlobalState, PolicyProposal),
            ICBError,
        >((g2, p2)),
    ensures
        p1.id < p2.id,
        p2.id == p1.id + 1,
        g0.proposal_counter < g1.proposal_counter < g2.proposal_counter,
{
}

/// The prior record handed in by the persistence layer, as a plain value.
pub open spec fn spec_prior_record(prior: Option<&VoteRecord>) -> Option<VoteRecord> {
    match prior {
        Some(record) => Some(*record),
        None => None,
    }
}

/// Exact outcome of a vote: gated by the circuit breaker and the proposal's
/// status and window, rejected while a non-claimed record by the same agent
/// exists, and the chosen side's tally grows by the quadratic voting power
/// with an overflow check.
pub open spec fn spec_vote_on_proposal(
    global: GlobalState,
    proposal: PolicyProposal,
    proposal_key: Address,
    agent: Address,
    prediction: bool,
    stake_amount: u64,
    agent_signature: [u8; 64],
    prior_record: Option<VoteRecord>,
    now: i64,
) -> Result<(PolicyProposal, VoteRecord), ICBError> {
    if global.circuit_breaker_active {
        Err(ICBError::CircuitBreakerActive)
    } else if proposal.status != ProposalStatus::Active {
        Err(ICBError::ProposalNotActive)
    } else if prior_record matches Some(prev) && !prev.claimed {
        Err(ICBError::AlreadyVoted)
    } else if stake_amount == 0 {
        Err(ICBError::InvalidStakeAmount)
    } else if now >= proposal.end_time {
        Err(ICBError::ProposalNotActive)
    } else {
        let power = spec_voting_power(stake_amount);
        let record = VoteRecord {
            proposal: proposal_key,
            agent,
            stake_amount,
            prediction,
            timestamp: now,
            claimed: false,
            agent_signature,
        };
        if prediction {
            if proposal.yes_stake + power > u64::MAX {
                Err(ICBError::ArithmeticOverflow)
            } else {
                Ok(
                    (
                        PolicyProposal {
                            yes_stake: (proposal.yes_stake + power) as u64,
                            ..proposal
                        },
                        record,
                    ),
                )
            }
        } else {
            if proposal.no_stake + power > u64::MAX {
                Err(ICBError::ArithmeticOverflow)
            } else {
                Ok(
                    (
                        PolicyProposal { no_stake: (proposal.no_stake + power) as u64, ..proposal },
                        record,
                    ),
                )
            }
        }
    }
}

/// Casts a vote: converts the stake to voting power via the integer square
/// root (never less than one) and adds it to the chosen tally, creating the
/// vote record that itself serves as the duplicate-vote guard. A second vote
/// by the same agent before any claim fails with `AlreadyVoted` and leaves
/// the proposal untouched.
pub fn vote_on_proposal(
    global: &GlobalState,
    proposal: &mut PolicyProposal,
    proposal_key: &Address,
    agent: &Address,
    prediction: bool,
    stake_amount: u64,
    agent_signature: [u8; 64],
    prior_record: Option<&VoteRecord>,
    now: i64,
) -> (r: Result<VoteRecord, ICBError>)
    requires
        valid_time(now),
        old(proposal).wf(),
        match prior_record {
            Some(prev) => prev.proposal@ == proposal_key@ && prev.agent@ == agent@,
            None => true,
        },
    ensures
        match spec_vote_on_proposal(
            *global,
            *old(proposal),
            *proposal_key,
            *agent,
            prediction,
            stake_amount,
            agent_signature,
            spec_prior_record(prior_record),
            now,
        ) {
            Ok(updated) => r is Ok && *final(proposal) == updated.0 && r->Ok_0 == updated.1,
            Err(e) => r == Err::<VoteRecord, ICBError>(e) && *final(proposal) == *old(proposal),
        },
        final(proposal).wf(),
        !global.circuit_breaker_active && old(proposal).status == ProposalStatus::Active && (
        prior_record matches Some(prev) && !prev.claimed) ==> r == Err::<VoteRecord, ICBError>(
            ICBError::AlreadyVoted,
        ),
        r is Ok ==> !r->Ok_0.claimed && r->Ok_0.agent@ == agent@ && r->Ok_0.proposal@
            == proposal_key@,
{
    if global.circuit_breaker_active {
        return Err(ICBError::CircuitBreakerActive);
    }
    if proposal.status != ProposalStatus::Active {
        return Err(ICBError::ProposalNotActive);
    }
    match prior_record {
        Some(prev) => {
            if !prev.claimed {
                return Err(ICBError::AlreadyVoted);
            }
        },
        None => {},
    }
    if stake_amount == 0 {
        return Err(ICBError::InvalidStakeAmount);
    }
    if now >= proposal.end_time {
        return Err(ICBError::ProposalNotActive);
    }
    let voting_power = calculate_voting_power(stake_amount)?;
    if prediction {
        proposal.yes_stake = proposal.yes_stake.checked_add(voting_power).ok_or(
            ICBError::ArithmeticOverflow,
        )?;
    } else {
        proposal.no_stake = proposal.no_stake.checked_add(voting_power).ok_or(
            ICBError::ArithmeticOverflow,
        )?;
    }
    let record = VoteRecord {
        proposal: *proposal_key,
        agent: *agent,
        stake_amount,
        prediction,
        timestamp: now,
        claimed: false,
        agent_signature,
    };
    Ok(record)
}

/// Exact outcome of finalization: only an `Active` proposal whose window
/// has closed can be finalized; the tally must be non-empty; and a strict
/// majority in basis points is required to pass, so an exact tie fails.
pub open spec fn spec_finalize_proposal(proposal: PolicyProposal, now: i64) -> Result<
    PolicyProposal,
    ICBError,
> {
    if proposal.status != ProposalStatus::Active {
        Err(ICBError::ProposalNotActive)
    } else if now < proposal.end_time {
        Err(ICBError::ProposalStillActive)
    } else if proposal.yes_stake + proposal.no_stake > u64::MAX {
        Err(ICBError::ArithmeticOverflow)
    } else if proposal.yes_stake + proposal.no_stake == 0 {
        Err(ICBError::InsufficientStake)
    } else if proposal.yes_stake > u128::MAX / 10000 {
        Err(ICBError::ArithmeticOverflow)
    } else {
        let yes_bps = proposal.yes_stake * 10000 / (proposal.yes_stake + proposal.no_stake);
        if yes_bps > 5000 {
            Ok(PolicyProposal { status: ProposalStatus::Passed, passed_at: now, ..proposal })
        } else {
            Ok(PolicyProposal { status: ProposalStatus::Failed, ..proposal })
        }
    }
}

/// Finalizes an `Active` proposal once its voting window has closed: a
/// strict majority of the yes tally (more than 5000 basis points of the
/// total) passes and records `passed_at`; anything up to and including an
/// exact tie fails, biasing toward protocol conservatism. Called early it
/// fails with `ProposalStillActive` and changes nothing.
pub fn finalize_proposal(proposal: &mut PolicyProposal, now: i64) -> (r: Result<(), ICBError>)
    requires
        valid_time(now),
        old(proposal).wf(),
    ensures
        match spec_finalize_proposal(*old(proposal), now) {
            Ok(updated) => r is Ok && *final(proposal) == updated,
            Err(e) => r == Err::<(), ICBError>(e) && *final(proposal) == *old(proposal),
        },
        final(proposal).wf(),
        r is Ok ==> final(proposal).status == ProposalStatus::Passed || final(proposal).status
            == ProposalStatus::Failed,
{
    if proposal.status != ProposalStatus::Active {
        return Err(ICBError::ProposalNotActive);
    }
    if now < proposal.end_time {
        return Err(ICBError::ProposalStillActive);
    }
    let total_stake = proposal.yes_stake.checked_add(proposal.no_stake).ok_or(
        ICBError::ArithmeticOverflow,
    )?;
    if total_stake == 0 {
        return Err(ICBError::InsufficientStake);
    }
    if proposal.yes_stake as u128 > u128::MAX / 10000 {
        return Err(ICBError::ArithmeticOverflow);
    }
    let yes_percentage = (proposal.yes_stake as u128).checked_mul(10000).ok_or(
        ICBError::ArithmeticOverflow,
    )?.checked_div(total_stake as u128).ok_or(ICBError::ArithmeticOverflow)?;
    if yes_percentage > 5000 {
        proposal.status = ProposalStatus::Passed;
        proposal.passed_at = now;
    } else {
        proposal.status = ProposalStatus::Failed;
    }
    Ok(())
}

/// Exact outcome of executing a `Passed` proposal: authority-only, and only
/// at or after `passed_at` plus the mandatory execution delay.
pub open spec fn spec_execute_passed(
    global: GlobalState,
    proposal: PolicyProposal,
    executor: Address,
    now: i64,
) -> Result<PolicyProposal, ICBError> {
    if executor@ != global.authority@ {
        Err(ICBError::Unauthorized)
    } else if proposal.status != ProposalStatus::Passed {
        Err(ICBError::ProposalNotReadyForExecution)
    } else if now < proposal.passed_at + EXECUTION_DELAY {
        Err(ICBError::ExecutionDelayNotMet)
    } else {
        Ok(PolicyProposal { status: ProposalStatus::Executed, ..proposal })
    }
}

/// Executes a `Passed` proposal, transitioning it to the terminal
/// `Executed` status. Before `passed_at` plus the execution delay the call
/// fails with `ExecutionDelayNotMet` and changes nothing; at or after that
/// instant it succeeds. The policy effect itself is delegated to the
/// external executor once this transition has committed.
pub fn execute_passed(
    global: &GlobalState,
    proposal: &mut PolicyProposal,
    executor: &Address,
    now: i64,
) -> (r: Result<(), ICBError>)
    requires
        valid_time(now),
        old(proposal).wf(),
    ensures
        match spec_execute_passed(*global, *old(proposal), *executor, now) {
            Ok(updated) => r is Ok && *final(proposal) == updated,
            Err(e) => r == Err::<(), ICBError>(e) && *final(proposal) == *old(proposal),
        },
        final(proposal).wf(),
{
    if !executor.equals(&global.authority) {
        return Err(ICBError::Unauthorized);
    }
    if proposal.status != ProposalStatus::Passed {
        return Err(ICBError::ProposalNotReadyForExecution);
    }
    if now < proposal.passed_at + EXECUTION_DELAY {
        return Err(ICBError::ExecutionDelayNotMet);
    }
    proposal.status = ProposalStatus::Executed;
    Ok(())
}

/// A finalization only ever starts from `Active` and ends in `Passed` or
/// `Failed`; it records `passed_at` exactly when it passes, and it never
/// changes the proposal's id, proposer, kind or tallies.
pub proof fn lemma_finalize_transitions(p: PolicyProposal, now: i64, q: PolicyProposal)
    requires
        spec_finalize_proposal(p, now) == Ok::<PolicyProposal, ICBError>(q),
    ensures
        p.status == ProposalStatus::Active,
        now >= p.end_time,
        q.status == ProposalStatus::Passed || q.status == ProposalStatus::Failed,
        q.status == ProposalStatus::Passed ==> q.passed_at == now,
        q.id == p.id && q.proposer == p.proposer && q.policy_type == p.policy_type,
        q.yes_stake == p.yes_stake && q.no_stake == p.no_stake,
{
}

/// An execution only ever starts from `Passed`, only at or after the
/// mandatory delay, and ends in the terminal `Executed` status without
/// changing anything else of the proposal.
pub proof fn lemma_execute_transitions(
    g: GlobalState,
    p: PolicyProposal,
    e: Address,
    now: i64,
    q: PolicyProposal,
)
    requires
        spec_execute_passed(g, p, e, now) == Ok::<PolicyProposal, ICBError>(q),
    ensures
        p.status == ProposalStatus::Passed,
        now >= p.passed_at + EXECUTION_DELAY,
        q.status == ProposalStatus::Executed,
        q.id == p.id && q.proposer == p.proposer && q.policy_type == p.policy_type,
{
}

/// Exact outcome of the combined finalize-or-execute entry point.
pub open spec fn spec_execute_proposal(
    global: GlobalState,
    proposal: PolicyProposal,
    executor: Address,
    now: i64,
) -> Result<PolicyProposal, ICBError> {
    if executor@ != global.authority@ {
        Err(ICBError::Unauthorized)
    } else if proposal.status == ProposalStatus::Active {
        spec_finalize_proposal(proposal, now)
    } else {
        spec_execute_passed(global, proposal, executor, now)
    }
}

/// Combined entry point: an `Active` proposal past its window is finalized;
/// a `Passed` proposal past its delay is executed; any other status fails
/// with `ProposalNotReadyForExecution`. Authority-only. Execution of a
/// `Passed` proposal is deliberately unaffected by the circuit breaker, so
/// governance already in flight is not silently stalled by a freeze.
pub fn execute_proposal(
    global: &GlobalState,
    proposal: &mut PolicyProposal,
    executor: &Address,
    now: i64,
) -> (r: Result<(), ICBError>)
    requires
        valid_time(now),
        old(proposal).wf(),
    ensures
        match spec_execute_proposal(*global, *old(proposal), *executor, now) {
            Ok(updated) => r is Ok && *final(proposal) == updated,
            Err(e) => r == Err::<(), ICBError>(e) && *final(proposal) == *old(proposal),
        },
        final(proposal).wf(),
{
    if !executor.equals(&global.authority) {
        return Err(ICBError::Unauthorized);
    }
    if matches!(proposal.status, ProposalStatus::Active) {
        return finalize_proposal(proposal, now);
    }
    execute_passed(global, proposal, executor, now)
}

} // verus!
