use vstd::prelude::*;

verus! {

/// Price of one cipher, in lamports.
pub const CIPHER_COST: u64 = 1_000;

/// Prize pool every new game state starts with.
pub const INITIAL_PRIZE_POOL: u64 = 0;

/// Number of steps a runner must take to complete the path.
pub const INITIAL_PATH_LENGTH: u8 = 20;

/// Capacity of every bounded event log; the oldest entry is dropped beyond it.
pub const MAX_FEED_EVENTS: usize = 20;

/// Capacity of the revealed randomness queue.
pub const MAX_RANDOMNESS_VALUES: usize = 32;

/// Chance that a move succeeds, as a percentage.
pub const MOVE_SUCCESS_PROBABILITY: u8 = 75;

/// Share of each purchase that goes into the prize pool, as a percentage.
pub const PRIZE_POOL_PERCENTAGE: u64 = 88;

} // verus!
