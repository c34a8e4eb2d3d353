//! Core of a gambling-themed incremental game: a player spends an abstract
//! "entropy" resource to manipulate chance-based minigames, while a hidden
//! suspicion meter degrades payouts and can lock the player out ("kickout")
//! until a timer elapses or a buyout is paid.
//!
//! All quantities are fixed-point integers: money in thousandths of the
//! currency unit, entropy in millibits, probabilities and suspicion in
//! permille, timestamps and durations in milliseconds.

pub mod codec;
pub mod coin_toss;
pub mod commands;
pub mod common_state;
pub mod errors;
pub mod game;
pub mod machine;
pub mod money;
mod rng_draw;

use vstd::prelude::*;

verus! {

/// Largest machine level the ledger accepts; keeps the entropy cap, and every
/// sum involving it, far below `u64::MAX`.
pub const LEVEL_MAX: u64 = 1_000_000_000_000;

/// Largest timestamp (milliseconds) the core accepts; keeps every
/// `start + duration` sum far below `u64::MAX`.
pub const TIME_MAX: u64 = 1_000_000_000_000_000;

/// Largest duration (milliseconds) the core accepts.
pub const DURATION_MAX: u64 = 1_000_000_000_000;

} // verus!
