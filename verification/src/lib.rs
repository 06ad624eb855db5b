//! Stake registry core: per-member ledgers that roll up into per-entity
//! aggregates, an entity-activation state machine driven by a live basket
//! price, and a two-phase (timelocked) withdrawal protocol.
//!
//! Everything here is pure state-transition logic over plain values. The
//! host layer performs account loading, authorization of signers, token
//! transfers and pool calls, and hands this crate the resulting values.

pub mod address;
pub mod basket;
pub mod create_member;
pub mod deposit;
pub mod end_stake_withdrawal;
pub mod entity;
pub mod error;
pub mod laws;
pub mod member;
pub mod pending_withdrawal;
pub mod registrar;
pub mod stake;
pub mod stake_intent_withdrawal;
pub mod start_stake_withdrawal;
pub mod switch_entity;
