//! Protocol-wide constants: voting-window bounds, timelock delays, oracle
//! sanity ceilings and the fixed-point scale.

use vstd::prelude::*;

verus! {

/// Fixed-point precision (9 decimals).
pub const PRECISION: u64 = 1_000_000_000;

/// Denominator for basis-point quantities (10000 = 100%).
pub const BPS_DENOMINATOR: u16 = 10_000;

/// Shortest voting window a proposal may be created with, in seconds.
pub const MIN_VOTING_PERIOD: i64 = 300;

/// Longest voting window a proposal may be created with, in seconds (7 days).
pub const MAX_VOTING_PERIOD: i64 = 604_800;

/// Upper bound on serialized policy parameters carried by a proposal.
pub const MAX_PARAMS_LEN: usize = 256;

/// Mandatory wait between a circuit-breaker request and its activation.
pub const CIRCUIT_BREAKER_DELAY: i64 = 3_600;

/// Mandatory wait between a proposal passing and its execution.
pub const EXECUTION_DELAY: i64 = 86_400;

/// Minimum seconds between oracle updates, used at initialization.
pub const DEFAULT_ILI_UPDATE_INTERVAL: i64 = 300;

/// Minimum ledger slots between oracle updates; together with the timestamp
/// interval this defends against clock-only manipulation.
pub const MIN_SLOT_BUFFER: u64 = 25;

/// Sanity ceiling on the oracle index value (1e6 scale).
pub const MAX_ILI_VALUE: u64 = 1_000_000_000_000;

/// Sanity ceiling on the reported average yield, in basis points.
pub const MAX_YIELD_BPS: u32 = 10_000;

/// Sanity ceiling on the reported volatility, in basis points.
pub const MAX_VOLATILITY_BPS: u32 = 10_000;

/// A signed action older (or newer) than this many seconds relative to the
/// current time is rejected as expired.
pub const SIGNATURE_VALIDITY_WINDOW: i64 = 300;

/// Latest timestamp the protocol reasons about: enough headroom below
/// `i64::MAX` that adding any configured delay or voting period to a stored
/// timestamp can never overflow.
pub const MAX_TIMESTAMP: i64 = i64::MAX - 1_000_000;

} // verus!
