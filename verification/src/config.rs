//! The configured rules of the lottery: minimum awards, the per-transfer
//! ledger fee, and the fixed lifetimes of boxes and miners.

use vstd::prelude::*;

verus! {

/// Minimum award to open a box, in e8s units.
pub const MIN_BOX_COST: u64 = 500_000_000;

/// Minimum award to stake a miner position, in e8s units.
pub const MIN_MINER_COST: u64 = 500_000;

/// The ledger fee charged on every transfer leg, in e8s units.
pub const FEE: u64 = 10_000;

/// Lifetime of a box, in seconds: how long the lottery runs.
pub const LOTTERY_TIME: u64 = 60;

/// Lifetime of a miner position, in seconds.
pub const MINER_TIME: u64 = 20;

/// Nanoseconds per second; registry timestamps are in nanoseconds.
pub const NANOS_PER_SEC: u64 = 1_000_000_000;

} // verus!
