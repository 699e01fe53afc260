//! Construction and shape validation of the byte messages an agent signs.
//!
//! A signed message binds the action type, all action parameters, a
//! timestamp and the agent's current nonce, so that one signature authorizes
//! exactly one action once. The cryptographic verification of the signature
//! itself is the ledger's verification facility; the core only builds the
//! exact bytes and enforces freshness.

use vstd::prelude::*;
use vstd::bytes::{spec_u64_to_le_bytes, u64_to_le_bytes};

use crate::constants::SIGNATURE_VALIDITY_WINDOW;
use crate::errors::ICBError;
use crate::identity::Address;
use crate::state::valid_time;

verus! {

/// Appends a byte slice to a message buffer.
fn push_byte_slice(dest: &mut Vec<u8>, src: &[u8])
    ensures
        final(dest)@ == old(dest)@ + src@,
{
    let mut i: usize = 0;
    while i < src.len()
        invariant
            0 <= i <= src@.len(),
            dest@ == old(dest)@ + src@.subrange(0, i as int),
        decreases src@.len() - i,
    {
        dest.push(src[i]);
        proof {
            assert(old(dest)@ + src@.subrange(0, i + 1) =~= (old(dest)@ + src@.subrange(
                0,
                i as int,
            )).push(src@[i as int]));
        }
        i = i + 1;
    }
    proof {
        assert(src@.subrange(0, src@.len() as int) =~= src@);
    }
}

/// Domain-separation prefix of a proposal-creation message.
pub open spec fn proposal_message_prefix() -> Seq<u8> {
    seq![
        65u8,
        82u8,
        83u8,
        95u8,
        67u8,
        82u8,
        69u8,
        65u8,
        84u8,
        69u8,
        95u8,
        80u8,
        82u8,
        79u8,
        80u8,
        79u8,
        83u8,
        65u8,
        76u8,
    ]
}

/// Domain-separation prefix of a vote message.
pub open spec fn vote_message_prefix() -> Seq<u8> {
    seq![65u8, 82u8, 83u8, 95u8, 86u8, 79u8, 84u8, 69u8]
}

/// The exact bytes of a proposal-creation message.
pub open spec fn spec_proposal_message(
    agent: Seq<u8>,
    policy_type: u8,
    policy_params: Seq<u8>,
    timestamp: i64,
    nonce: u64,
) -> Seq<u8> {
    proposal_message_prefix() + agent + seq![policy_type] + policy_params + spec_u64_to_le_bytes(
        timestamp as u64,
    ) + spec_u64_to_le_bytes(nonce)
}

/// The exact bytes of a vote message.
pub open spec fn spec_vote_message(
    agent: Seq<u8>,
    proposal_id: u64,
    prediction: bool,
    stake_amount: u64,
    timestamp: i64,
    nonce: u64,
) -> Seq<u8> {
    vote_message_prefix() + agent + spec_u64_to_le_bytes(proposal_id) + seq![
        if prediction {
            1u8
        } else {
            0u8
        },
    ] + spec_u64_to_le_bytes(stake_amount) + spec_u64_to_le_bytes(timestamp as u64)
        + spec_u64_to_le_bytes(nonce)
}

/// Builds the message an agent signs to create a proposal: the domain
/// prefix, the agent identity, the policy kind and parameters, and the
/// little-endian timestamp and nonce.
pub fn construct_proposal_message(
    agent_pubkey: &Address,
    policy_type: u8,
    policy_params: &[u8],
    timestamp: i64,
    nonce: u64,
) -> (r: Vec<u8>)
    ensures
        r@ == spec_proposal_message(agent_pubkey@, policy_type, policy_params@, timestamp, nonce),
{
    let mut message: Vec<u8> = Vec::new();
    let prefix: [u8; 19] = [
        65,
        82,
        83,
        95,
        67,
        82,
        69,
        65,
        84,
        69,
        95,
        80,
        82,
        79,
        80,
        79,
        83,
        65,
        76,
    ];
    proof {
        assert(prefix@ =~= proposal_message_prefix());
    }
    push_byte_slice(&mut message, &prefix);
    push_byte_slice(&mut message, &agent_pubkey.bytes);
    message.push(policy_type);
    push_byte_slice(&mut message, policy_params);
    let mut timestamp_bytes = u64_to_le_bytes(timestamp as u64);
    message.append(&mut timestamp_bytes);
    let mut nonce_bytes = u64_to_le_bytes(nonce);
    message.append(&mut nonce_bytes);
    proof {
        assert(message@ =~= spec_proposal_message(
            agent_pubkey@,
            policy_type,
            policy_params@,
            timestamp,
            nonce,
        ));
    }
    message
}

/// Builds the message an agent signs to vote: the domain prefix, the agent
/// identity, the proposal id, the prediction byte, and the little-endian
/// stake, timestamp and nonce.
pub fn construct_vote_message(
    agent_pubkey: &Address,
    proposal_id: u64,
    prediction: bool,
    stake_amount: u64,
    timestamp: i64,
    nonce: u64,
) -> (r: Vec<u8>)
    ensures
        r@ == spec_vote_message(
            agent_pubkey@,
            proposal_id,
            prediction,
            stake_amount,
            timestamp,
            nonce,
        ),
{
    let mut message: Vec<u8> = Vec::new();
    let prefix: [u8; 8] = [65, 82, 83, 95, 86, 79, 84, 69];
    proof {
        assert(prefix@ =~= vote_message_prefix());
    }
    push_byte_slice(&mut message, &prefix);
    push_byte_slice(&mut message, &agent_pubkey.bytes);
    let mut id_bytes = u64_to_le_bytes(proposal_id);
    message.append(&mut id_bytes);
    if prediction {
        message.push(1);
    } else {
        message.push(0);
    }
    let mut stake_bytes = u64_to_le_bytes(stake_amount);
    message.append(&mut stake_bytes);
    let mut timestamp_bytes = u64_to_le_bytes(timestamp as u64);
    message.append(&mut timestamp_bytes);
    let mut nonce_bytes = u64_to_le_bytes(nonce);
    message.append(&mut nonce_bytes);
    proof {
        assert(message@ =~= spec_vote_message(
            agent_pubkey@,
            proposal_id,
            prediction,
            stake_amount,
            timestamp,
            nonce,
        ));
    }
    message
}

/// Shape validation of a signed payload: the message must be non-empty.
/// The cryptographic check itself is performed by the ledger's verification
/// facility and audited through the preceding-instruction inspection.
pub fn verify_agent_signature(
    agent_pubkey: &Address,
    message: &[u8],
    signature: &[u8; 64],
) -> (r: Result<(), ICBError>)
    ensures
        r is Ok <==> message@.len() > 0,
        r is Err ==> r == Err::<(), ICBError>(ICBError::SignatureVerificationFailed),
{
    if message.len() == 0 {
        return Err(ICBError::SignatureVerificationFailed);
    }
    Ok(())
}

/// Freshness of a signed timestamp: expired only when it lies more than the
/// validity window from the current time, in either direction, so a
/// timestamp at exactly the window's edge still authenticates.
pub fn validate_timestamp(timestamp: i64, now: i64) -> (r: Result<(), ICBError>)
    requires
        valid_time(now),
    ensures
        r is Ok <==> -SIGNATURE_VALIDITY_WINDOW <= now - timestamp <= SIGNATURE_VALIDITY_WINDOW,
        r is Err ==> r == Err::<(), ICBError>(ICBError::SignatureExpired),
{
    let time_diff: i128 = now as i128 - timestamp as i128;
    if -(SIGNATURE_VALIDITY_WINDOW as i128) <= time_diff && time_diff <= (
    SIGNATURE_VALIDITY_WINDOW as i128) {
        Ok(())
    } else {
        Err(ICBError::SignatureExpired)
    }
}

} // verus!
