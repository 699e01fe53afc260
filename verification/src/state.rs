//! Protocol state records. Each record is an explicitly owned value; every
//! transition takes the records it needs and either returns the updated
//! values or mutates them through an explicit handle, so a transition is a
//! pure function of (state, action, now, slot).

use vstd::prelude::*;

use crate::constants::{MAX_PARAMS_LEN, MAX_TIMESTAMP, MAX_VOTING_PERIOD};
use crate::identity::Address;

verus! {

/// A timestamp the protocol is willing to store: nonnegative and small
/// enough that adding any configured delay stays within `i64`.
pub open spec fn valid_time(t: i64) -> bool {
    0 <= t <= MAX_TIMESTAMP
}

/// Singleton root record of the protocol.
#[derive(Clone, Debug)]
pub struct GlobalState {
    pub authority: Address,
    pub ili_oracle: Address,
    pub reserve_vault: Address,
    pub icu_mint: Address,
    pub epoch_duration: i64,
    pub mint_burn_cap_bps: u16,
    pub stability_fee_bps: u16,
    pub vhr_threshold: u16,
    pub circuit_breaker_active: bool,
    /// Monotonic counter assigning proposal ids.
    pub proposal_counter: u64,
    /// Timelock anchor of the pending circuit-breaker request; zero when no
    /// request is pending.
    pub circuit_breaker_requested_at: i64,
    pub last_update_slot: u64,
}

impl GlobalState {
    /// Well-formedness: parameters in range and the timelock anchor a
    /// storable timestamp.
    pub open spec fn wf(&self) -> bool {
        &&& self.epoch_duration > 0
        &&& valid_time(self.circuit_breaker_requested_at)
    }
}

/// Singleton oracle record holding the latest risk index.
#[derive(Clone, Debug)]
pub struct ILIOracle {
    pub authority: Address,
    /// Current index value, fixed-point at 1e6 scale.
    pub current_ili: u64,
    pub last_update: i64,
    /// Minimum seconds between accepted updates.
    pub update_interval: i64,
    pub snapshot_count: u16,
    pub last_update_slot: u64,
}

impl ILIOracle {
    /// Well-formedness: a storable freshness anchor and a positive interval.
    pub open spec fn wf(&self) -> bool {
        &&& valid_time(self.last_update)
        &&& 0 < self.update_interval
    }
}

/// A point-in-time reading of the oracle, kept for historical analysis.
#[derive(Clone, Copy, Debug)]
pub struct ILISnapshot {
    pub timestamp: i64,
    pub ili_value: u64,
    pub avg_yield: u32,
    pub volatility: u32,
    pub tvl: u64,
}

/// The policy effect a proposal asks for.
#[derive(Clone, Copy, Debug, PartialEq, Eq, Structural)]
pub enum PolicyType {
    MintICU,
    BurnICU,
    UpdateICR,
    RebalanceVault,
}

/// Lifecycle of a proposal. `Executed`, `Failed` and `Cancelled` are
/// terminal.
#[derive(Clone, Copy, Debug, PartialEq, Eq, Structural)]
pub enum ProposalStatus {
    Active,
    Passed,
    Failed,
    Executed,
    Cancelled,
}

/// One governance proposal. Id, proposer and kind are immutable after
/// creation; the record is never deleted and remains as an audit trail.
#[derive(Clone, Debug)]
pub struct PolicyProposal {
    pub id: u64,
    pub proposer: Address,
    pub policy_type: PolicyType,
    pub policy_params: Vec<u8>,
    pub start_time: i64,
    pub end_time: i64,
    pub yes_stake: u64,
    pub no_stake: u64,
    pub status: ProposalStatus,
    pub execution_tx: Option<[u8; 64]>,
    /// When the proposal passed; anchors the execution delay.
    pub passed_at: i64,
}

impl PolicyProposal {
    /// Well-formedness: timestamps storable, the voting window ordered, and
    /// the parameter blob within its bound.
    pub open spec fn wf(&self) -> bool {
        &&& valid_time(self.start_time)
        &&& self.start_time <= self.end_time <= MAX_TIMESTAMP + MAX_VOTING_PERIOD
        &&& valid_time(self.passed_at)
        &&& self.policy_params@.len() <= MAX_PARAMS_LEN
    }
}

/// One vote by one agent on one proposal. At most one non-claimed record
/// exists per (proposal, agent) pair; that is enforced when the record is
/// created, never by later mutation.
#[derive(Clone, Debug)]
pub struct VoteRecord {
    pub proposal: Address,
    pub agent: Address,
    pub stake_amount: u64,
    pub prediction: bool,
    pub timestamp: i64,
    pub claimed: bool,
    pub agent_signature: [u8; 64],
}

/// Directory entry describing a registered agent.
#[derive(Clone, Debug)]
pub struct AgentRegistry {
    pub agent_pubkey: Address,
    pub agent_type: AgentType,
    pub total_transactions: u64,
    pub total_volume: u64,
    pub reputation_score: u32,
    pub registered_at: i64,
    pub last_active: i64,
}

/// The role a registered agent plays.
#[derive(Clone, Copy, Debug, PartialEq, Eq, Structural)]
pub enum AgentType {
    LendingAgent,
    YieldAgent,
    LiquidityAgent,
    PredictionAgent,
    ArbitrageAgent,
    TreasuryAgent,
}

/// Per-agent replay-protection record: the nonce strictly increases across
/// the agent's authenticated actions, so an old signed message can never
/// authenticate twice.
#[derive(Clone, Debug)]
pub struct AgentState {
    pub agent_pubkey: Address,
    pub nonce: u64,
    pub last_action_timestamp: i64,
}

} // verus!
