//! Core decision and safety state machine of an autonomous reserve protocol:
//! proposal lifecycle with quadratic-stake voting, timelocked circuit breaker,
//! oracle freshness validation, agent authentication with replay protection,
//! and the reentrancy-guard discipline around value-moving operations.
//!
//! Every state transition is a pure function of (state, action, now, slot):
//! the surrounding ledger supplies the clock, persistence and signature
//! verification, and hands the results in as plain values.

pub mod auth;
pub mod circuit_breaker;
pub mod constants;
pub mod errors;
pub mod identity;
pub mod instructions;
pub mod math;
pub mod oracle;
pub mod proposal;
pub mod protocol;
pub mod reentrancy;
pub mod signature;
pub mod state;
pub mod vault;
