//! A two-tier staking lottery: creators lock an award into a time-limited
//! prize box, stakers join it through miner positions, and one-shot
//! settlements redistribute the escrowed funds at expiry.
//!
//! This library holds the verified core: custodial subaccount derivation,
//! the escrow registry, creation-time validation, winner selection, and
//! the settlement payout split. The asynchronous plumbing around it
//! (ledger calls, worker provisioning, timers) lives outside.

pub mod account;
pub mod config;
pub mod creation;
pub mod errors;
pub mod listing;
pub mod scheduler;
pub mod registry;
pub mod settlement;
pub mod types;
