//! Error codes of the two components.
//!
//! Each component reports its failures through one tagged error type with a
//! distinct code per failure mode; nothing is coerced into a generic failure.

use vstd::prelude::*;

verus! {

/// Every way an operation of the wagering protocol can fail.
///
/// Each operation aborts on its first failing check with the corresponding
/// code and leaves no observable state change behind.
#[derive(Clone, Copy, Debug, PartialEq, Eq, Structural)]
pub enum WagerError {
    /// `initialize_game`: the fixed stake must be greater than zero.
    InvalidWagerAmount,
    /// `initialize_game`: a round needs room for at least 2 players.
    TooFewPlayers,
    /// `initialize_game`: the round duration must be positive.
    InvalidRoundDuration,
    /// `initialize_game`: the fee cannot exceed 10000 basis points.
    FeeTooHigh,
    /// `place_wager`: the round is not open for wagers.
    RoundNotOpen,
    /// `place_wager`: the round already holds `max_players_per_round` players.
    RoundFull,
    /// `place_wager`: the caller already placed a wager in this round.
    AlreadyInRound,
    /// `place_wager`: the round record has no storage left for another player.
    RecordSpaceExceeded,
    /// `place_wager`: adding the stake would overflow the pot.
    PotOverflow,
    /// A value transfer was asked for more than the source holds.
    InsufficientFunds,
    /// A value transfer would overflow the destination balance.
    BalanceOverflow,
    /// `close_round`: the round is already closed.
    RoundAlreadyClosed,
    /// `close_round`: a round needs at least 2 players to be settled.
    NotEnoughPlayers,
    /// `close_round`: the round is neither full nor past its expiry.
    RoundNotCloseable,
    /// `close_round`: the claimed winner is not the derived winner.
    WinnerMismatch,
    /// `close_round`: the fee recipient must be the game admin.
    InvalidFeeRecipient,
    /// `close_round`: fee or round-number arithmetic overflowed.
    MathOverflow,
}

/// Every way an operation of the auxiliary counter can fail.
#[derive(Clone, Copy, Debug, PartialEq, Eq, Structural)]
pub enum CounterError {
    /// `increment`: the count is already at its maximum.
    Overflow,
    /// `decrement`: the count is already zero.
    Underflow,
}

} // verus!
