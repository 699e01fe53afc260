//! Agent authentication and replay protection.
//!
//! The ledger runs an action batch in which a signature-verification
//! operation precedes the protocol action; the persistence layer hands that
//! preceding operation in as a plain record. The core checks that it exists,
//! that it belongs to the trusted verifier, that its payload is well formed
//! and that the verified identity matches the claimed agent; it then
//! enforces freshness of the signed timestamp and burns the agent's nonce,
//! so an identical signed message can never authenticate twice.

use vstd::prelude::*;

use crate::constants::SIGNATURE_VALIDITY_WINDOW;
use crate::errors::ICBError;
use crate::identity::Address;
use crate::signature::validate_timestamp;
use crate::state::{valid_time, AgentState};

verus! {

/// The operation that immediately preceded the current action in the batch,
/// as exposed by the ledger: the program that produced it and its raw data.
#[derive(Clone, Debug)]
pub struct InstructionRecord {
    pub program_id: Address,
    pub data: Vec<u8>,
}

/// Byte offset of the verified 32-byte identity inside the verification
/// operation's data.
pub const AGENT_KEY_OFFSET: usize = 16;

/// Minimum length of a well-formed verification payload: signature count
/// header, 64-byte signature, 32-byte identity.
pub const MIN_VERIFICATION_DATA_LEN: usize = 100;

/// The preceding operation handed in by the persistence layer, as a value.
pub open spec fn spec_prev_instruction(prev: Option<&InstructionRecord>) -> Option<
    InstructionRecord,
> {
    match prev {
        Some(ix) => Some(*ix),
        None => None,
    }
}

/// Exact outcome of the preceding-operation inspection: each malformed or
/// mismatched aspect is rejected with its own security-relevant error kind.
pub open spec fn spec_validate_agent_auth(
    prev_instruction: Option<InstructionRecord>,
    trusted_verifier: Address,
    expected_agent: Address,
) -> Result<(), ICBError> {
    match prev_instruction {
        None => Err(ICBError::MissingSignatureVerification),
        Some(ix) => if ix.program_id@ != trusted_verifier@ {
            Err(ICBError::InvalidSignatureProgram)
        } else if ix.data@.len() < MIN_VERIFICATION_DATA_LEN {
            Err(ICBError::SignatureVerificationFailed)
        } else if ix.data@.subrange(
            AGENT_KEY_OFFSET as int,
            AGENT_KEY_OFFSET + 32,
        ) != expected_agent@ {
            Err(ICBError::AgentMismatch)
        } else {
            Ok(())
        },
    }
}

/// Checks that the immediately preceding operation is a signature
/// verification produced by the trusted verifier and that the identity it
/// verified is the claimed agent. Rejects a missing predecessor, a
/// predecessor from any other program, a short payload, and an identity
/// mismatch, each with its own error kind.
pub fn validate_agent_auth(
    prev_instruction: Option<&InstructionRecord>,
    trusted_verifier: &Address,
    expected_agent: &Address,
) -> (r: Result<(), ICBError>)
    ensures
        r == spec_validate_agent_auth(
            spec_prev_instruction(prev_instruction),
            *trusted_verifier,
            *expected_agent,
        ),
{
    let ix = match prev_instruction {
        None => {
            return Err(ICBError::MissingSignatureVerification);
        },
        Some(ix) => ix,
    };
    if !ix.program_id.equals(trusted_verifier) {
        return Err(ICBError::InvalidSignatureProgram);
    }
    if ix.data.len() < MIN_VERIFICATION_DATA_LEN {
        return Err(ICBError::SignatureVerificationFailed);
    }
    let mut j: usize = 0;
    while j < 32
        invariant
            0 <= j <= 32,
            spec_prev_instruction(prev_instruction) == Some(*ix),
            ix.program_id@ == trusted_verifier@,
            ix.data@.len() >= MIN_VERIFICATION_DATA_LEN,
            forall|k: int|
                0 <= k < j ==> ix.data@[AGENT_KEY_OFFSET + k] == expected_agent@[k],
        decreases 32 - j,
    {
        if ix.data[AGENT_KEY_OFFSET + j] != expected_agent.bytes[j] {
            proof {
                let verified = ix.data@.subrange(AGENT_KEY_OFFSET as int, AGENT_KEY_OFFSET + 32);
                assert(verified[j as int] == ix.data@[AGENT_KEY_OFFSET + j]);
                assert(verified[j as int] != expected_agent@[j as int]);
                assert(verified != expected_agent@);
            }
            return Err(ICBError::AgentMismatch);
        }
        j = j + 1;
    }
    proof {
        assert(ix.data@.subrange(AGENT_KEY_OFFSET as int, AGENT_KEY_OFFSET + 32)
            =~= expected_agent@);
    }
    Ok(())
}

/// Exact outcome of a full authentication: the preceding-operation checks,
/// then freshness of the signed timestamp, then the unconditional nonce
/// burn. On success the stored nonce is exactly one higher.
pub open spec fn spec_authenticate(
    prev_instruction: Option<InstructionRecord>,
    trusted_verifier: Address,
    agent_state: AgentState,
    expected_agent: Address,
    timestamp: i64,
    now: i64,
) -> Result<AgentState, ICBError> {
    match spec_validate_agent_auth(prev_instruction, trusted_verifier, expected_agent) {
        Err(e) => Err(e),
        Ok(_) => if !(-SIGNATURE_VALIDITY_WINDOW <= now - timestamp
            <= SIGNATURE_VALIDITY_WINDOW) {
            Err(ICBError::SignatureExpired)
        } else if agent_state.nonce == u64::MAX {
            Err(ICBError::CounterOverflow)
        } else {
            Ok(
                AgentState {
                    nonce: (agent_state.nonce + 1) as u64,
                    last_action_timestamp: now,
                    ..agent_state
                },
            )
        },
    }
}

/// Authenticates one agent action: verifies the preceding signature
/// operation, rejects a stale or future-dated signed timestamp, and — on
/// success only, but then unconditionally — increments the agent's nonce,
/// which is the replay-protection boundary.
pub fn authenticate(
    prev_instruction: Option<&InstructionRecord>,
    trusted_verifier: &Address,
    agent_state: &mut AgentState,
    expected_agent: &Address,
    timestamp: i64,
    now: i64,
) -> (r: Result<(), ICBError>)
    requires
        valid_time(now),
        old(agent_state).agent_pubkey@ == expected_agent@,
    ensures
        match spec_authenticate(
            spec_prev_instruction(prev_instruction),
            *trusted_verifier,
            *old(agent_state),
            *expected_agent,
            timestamp,
            now,
        ) {
            Ok(updated) => r is Ok && *final(agent_state) == updated,
            Err(e) => r == Err::<(), ICBError>(e) && *final(agent_state) == *old(agent_state),
        },
        r is Ok ==> final(agent_state).nonce == old(agent_state).nonce + 1,
        r is Err ==> final(agent_state).nonce == old(agent_state).nonce,
{
    validate_agent_auth(prev_instruction, trusted_verifier, expected_agent)?;
    validate_timestamp(timestamp, now)?;
    let next_nonce = match agent_state.nonce.checked_add(1) {
        Some(n) => n,
        None => {
            return Err(ICBError::CounterOverflow);
        },
    };
    agent_state.nonce = next_nonce;
    agent_state.last_action_timestamp = now;
    Ok(())
}

} // verus!
