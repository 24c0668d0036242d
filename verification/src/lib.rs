//! Governance engine for a deposit-gated proposal process.
//!
//! Token holders submit proposals, vote on them with snapshot-based voting
//! power, and execute the approved action lists either locally or through a
//! cross-chain controller that reports completion asynchronously.  The
//! modules below hold the proposal lifecycle state machine, the
//! vote-tallying and quorum/threshold decision logic, the message ordering
//! engine, and the self-governed configuration surface.

pub mod config;
pub mod error;
pub mod laws;
pub mod messages;
pub mod power;
pub mod proposal;
pub mod ratio;
pub mod seq_util;
pub mod state;
pub mod vesting;
