//! Pari-mutuel escrow and settlement engine.
//!
//! Participants stake tokens on one of two sides ("for"/"against") of a
//! binary outcome tied to a price observation at or after an expiry time.
//! After expiry, the observed price is compared against a threshold to pick
//! the winning side; winners withdraw a pro-rata share of the combined pot.
//!
//! This crate verifies the escrow/settlement state machine: game lifecycle,
//! bet accounting, outcome resolution, and proportional payout. The
//! custodial value-transfer mechanism, the price oracle, and account
//! persistence are external collaborators: callers perform those effects and
//! hand the engine plain values.

pub mod errors;
pub mod game;
pub mod registry;
pub mod engine;
pub mod laws;
