//! The error taxonomy of the escrow core.
//!
//! Creation-path errors are returned to the caller synchronously, before
//! any funds move. Settlement-path failures are never surfaced to a
//! caller: a timer fired them, nobody is waiting, they are only reported.

use vstd::prelude::*;

verus! {

/// Why a request was rejected before any external call was issued.
#[derive(Debug, PartialEq, Eq)]
pub enum ValidationReason {
    /// The award offered is below the configured minimum; the payload is
    /// that minimum.
    BelowMinimum(u64),
    /// The caller has never registered.
    UnknownUser,
    /// The caller is already registered; registration happens once.
    AlreadyRegistered,
}

/// An error of the escrow core.
#[derive(Debug, PartialEq, Eq)]
pub enum Error {
    /// Rejected synchronously, before any funds move.
    Validation(ValidationReason),
    /// The granted allowance does not cover the award plus one ledger fee;
    /// rejected before any custodial transfer is attempted.
    Allowance,
    /// The external ledger call itself failed to complete; the payload is
    /// its stringified report, never branched on.
    LedgerCall(String),
    /// Standing up or initialising the per-entity worker failed.
    Provisioning(String),
    /// The randomness source was unavailable; the draw must not proceed
    /// with a deterministic fallback.
    RandomnessUnavailable,
}

} // verus!
