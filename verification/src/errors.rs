//! Error kinds of the protocol core.
//!
//! Every error aborts the whole transition; callers surface the kind to the
//! user. The kinds distinguish validation, authorization, temporal ordering,
//! arithmetic, replay protection and reentrancy, so that no security-relevant
//! failure is mistaken for an ordinary bad parameter.

use vstd::prelude::*;

verus! {

/// Error kinds of the governance core (proposals, voting, oracle, circuit
/// breaker, authentication, arithmetic).
#[derive(Clone, Copy, Debug, PartialEq, Eq, Structural)]
pub enum ICBError {
    CircuitBreakerActive,
    InvalidEpochDuration,
    InvalidMintBurnCap,
    InvalidVHRThreshold,
    ILIUpdateTooSoon,
    InvalidILIValue,
    ProposalAlreadyExists,
    InvalidVotingPeriod,
    ProposalNotActive,
    ProposalStillActive,
    ProposalNotPassed,
    AlreadyVoted,
    InvalidStakeAmount,
    InsufficientStake,
    Unauthorized,
    InvalidAgentSignature,
    ArithmeticOverflow,
    ArithmeticUnderflow,
    CounterOverflow,
    InvalidSignatureProgram,
    SignatureVerificationFailed,
    ExecutionDelayNotMet,
    ProposalNotReadyForExecution,
    InvalidYield,
    InvalidVolatility,
    InvalidTVL,
    CircuitBreakerTimelockNotMet,
    SlotBufferNotMet,
    InvalidReserveVault,
    InvalidICUMint,
    MissingSignatureVerification,
    AgentMismatch,
    InvalidNonce,
    MathOverflow,
    MathUnderflow,
    ReentrancyDetected,
    SignatureExpired,
}

impl ICBError {
    /// Human-readable description of the error kind.
    pub fn message(&self) -> &'static str {
        match *self {
            ICBError::CircuitBreakerActive => "Circuit breaker is active",
            ICBError::InvalidEpochDuration => "Invalid epoch duration",
            ICBError::InvalidMintBurnCap => "Invalid mint/burn cap",
            ICBError::InvalidVHRThreshold => "Invalid VHR threshold",
            ICBError::ILIUpdateTooSoon => "ILI update too soon",
            ICBError::InvalidILIValue => "Invalid ILI value",
            ICBError::ProposalAlreadyExists => "Proposal already exists",
            ICBError::InvalidVotingPeriod => "Invalid voting period",
            ICBError::ProposalNotActive => "Proposal not active",
            ICBError::ProposalStillActive => "Proposal still active",
            ICBError::ProposalNotPassed => "Proposal not passed",
            ICBError::AlreadyVoted => "Already voted",
            ICBError::InvalidStakeAmount => "Invalid stake amount",
            ICBError::InsufficientStake => "Insufficient stake",
            ICBError::Unauthorized => "Unauthorized",
            ICBError::InvalidAgentSignature => "Invalid agent signature",
            ICBError::ArithmeticOverflow => "Arithmetic overflow",
            ICBError::ArithmeticUnderflow => "Arithmetic underflow",
            ICBError::CounterOverflow => "Proposal counter overflow",
            ICBError::InvalidSignatureProgram => "Invalid signature program",
            ICBError::SignatureVerificationFailed => "Signature verification failed",
            ICBError::ExecutionDelayNotMet => "Execution delay not met",
            ICBError::ProposalNotReadyForExecution => "Proposal not ready for execution",
            ICBError::InvalidYield => "Invalid yield value",
            ICBError::InvalidVolatility => "Invalid volatility value",
            ICBError::InvalidTVL => "Invalid TVL value",
            ICBError::CircuitBreakerTimelockNotMet => "Circuit breaker timelock not met",
            ICBError::SlotBufferNotMet => "Slot buffer not met",
            ICBError::InvalidReserveVault => "Invalid reserve vault",
            ICBError::InvalidICUMint => "Invalid ARU mint",
            ICBError::MissingSignatureVerification => "Missing Ed25519 signature verification instruction",
            ICBError::AgentMismatch => "Agent public key mismatch",
            ICBError::InvalidNonce => "Invalid nonce",
            ICBError::MathOverflow => "Math overflow",
            ICBError::MathUnderflow => "Math underflow",
            ICBError::ReentrancyDetected => "Reentrancy detected",
            ICBError::SignatureExpired => "Signature expired",
        }
    }
}

/// Error kinds of the reserve vault (custody, reentrancy, balance checks).
#[derive(Clone, Copy, Debug, PartialEq, Eq, Structural)]
pub enum ReserveError {
    VHRBelowThreshold,
    InvalidRebalanceThreshold,
    InsufficientVaultBalance,
    InvalidAmount,
    Unauthorized,
    ArithmeticOverflow,
    ArithmeticUnderflow,
    ReentrancyDetected,
}

impl ReserveError {
    /// Human-readable description of the error kind.
    pub fn message(&self) -> &'static str {
        match *self {
            ReserveError::VHRBelowThreshold => "VHR below threshold",
            ReserveError::InvalidRebalanceThreshold => "Invalid rebalance threshold",
            ReserveError::InsufficientVaultBalance => "Insufficient vault balance",
            ReserveError::InvalidAmount => "Invalid amount",
            ReserveError::Unauthorized => "Unauthorized",
            ReserveError::ArithmeticOverflow => "Arithmetic overflow",
            ReserveError::ArithmeticUnderflow => "Arithmetic underflow",
            ReserveError::ReentrancyDetected => "Reentrancy detected",
        }
    }
}

} // verus!
