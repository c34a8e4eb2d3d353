//! Error types of the core: validation failures are rejected before any
//! mutation, and malformed persisted records are propagated, never
//! silently zero-filled.

use vstd::prelude::*;

verus! {

/// A player command rejected before any state change.
#[derive(Clone, Copy, Debug, PartialEq, Eq, Structural)]
pub enum ValidationError {
    /// The requested bet lies outside the game's `[bet_min, bet_max]` bounds.
    BetOutOfBounds,
    /// The player's money cannot cover the requested bet or investment.
    InsufficientFunds,
    /// The player's entropy cannot cover the requested manipulation.
    InsufficientEntropy,
    /// The player is currently kicked out of the game; no new bet may start.
    LockedOut,
    /// The command does not apply in the game's current state.
    WrongState,
}

/// A malformed persisted record; the record is rejected as a whole.
#[derive(Clone, Copy, Debug, PartialEq, Eq, Structural)]
pub enum ParseError {
    /// The record does not hold the expected number of fields.
    MissingField,
    /// A numeric field holds a non-digit byte, is empty, or overflows.
    InvalidNumber,
    /// A numeric field lies outside the domain the session can hold, such
    /// as an entropy balance above the machine's cap.
    OutOfRange,
}

} // verus!
