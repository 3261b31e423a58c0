//! The two persistent record kinds and their invariants.
//!
//! A `Game` holds the immutable configuration of one game and the number of
//! its currently active round; a `Round` holds the participants, the pot,
//! the timing, and the terminal outcome of one round. The host stores one
//! record per derived identity and serializes all mutations per record.

use vstd::prelude::*;

use crate::identity::Identity;

verus! {

/// The hard structural cap on stored players per round: a round record is
/// allocated with room for this many entries, whatever the configured
/// `max_players_per_round` says.
pub const MAX_STORED_PLAYERS: usize = 10;

/// Whether a round still accepts wagers or has been settled.
///
/// The only transition is `Open` to `Closed`, made once by `close_round`;
/// nothing ever leaves `Closed`.
#[derive(Clone, Copy, Debug, PartialEq, Eq, Structural)]
pub enum RoundStatus {
    Open,
    Closed,
}

/// One game's persistent record: its configuration and the number of its
/// active round.
///
/// All fields but `current_round_number` are set once by `initialize_game`
/// and never change; `current_round_number` advances by exactly 1 per
/// `close_round` and never otherwise.
pub struct Game {
    /// The immutable authority; also the only valid fee recipient.
    pub admin: Identity,
    /// The fixed stake per player per round, in native units; always > 0.
    pub wager_amount: u64,
    /// How many players fill a round; always >= 2.
    pub max_players_per_round: u8,
    /// How many seconds a round stays open before it may be closed below
    /// capacity; always > 0.
    pub round_duration: i64,
    /// The number of the one round that currently accepts wagers; starts
    /// at 1 and increments by 1 per closed round.
    pub current_round_number: u64,
    /// The fee taken from the pot at closure, in basis points; at most 10000.
    pub fee_basis_points: u16,
    /// The bump byte of the record's derived identity.
    pub bump: u8,
}

impl Game {
    /// A validly configured game, as `initialize_game` creates it.
    pub open spec fn wf(&self) -> bool {
        &&& self.wager_amount > 0
        &&& self.max_players_per_round >= 2
        &&& self.round_duration > 0
        &&& self.fee_basis_points <= 10000
        &&& self.current_round_number >= 1
    }
}

/// One round's persistent record.
///
/// While `Open` it is mutated only by `place_wager`; `close_round` mutates
/// it exactly once more and freezes it.
pub struct Round {
    /// The identity of the owning game record; immutable.
    pub game: Identity,
    /// This round's number within its game; immutable.
    pub round_number: u64,
    /// The participants, in order of entry, without repetition.
    pub players: Vec<Identity>,
    /// The native value staked into this round so far.
    pub total_pot: u64,
    /// The timestamp at which the round was created.
    pub start_time: i64,
    /// `Open` until settled, `Closed` forever after.
    pub status: RoundStatus,
    /// The selected winner; the all-zero identity until closure.
    pub winner: Identity,
    /// The bump byte of the record's derived identity.
    pub bump: u8,
}

impl Round {
    /// No identity appears twice in the player list.
    pub open spec fn players_unique(&self) -> bool {
        forall|i: int, j: int|
            0 <= i < j < self.players@.len() ==> self.players@[i]@ != self.players@[j]@
    }

    /// Whether the identity `p` already placed a wager in this round.
    pub open spec fn has_player(&self, p: Seq<u8>) -> bool {
        exists|i: int| 0 <= i < self.players@.len() && self.players@[i]@ == p
    }

    /// The record invariant against the owning game's configuration: the
    /// player list respects both the configured and the structural bound,
    /// holds no identity twice, and the pot is exactly the stake times the
    /// player count.
    pub open spec fn wf(&self, game: &Game) -> bool {
        &&& self.players@.len() <= game.max_players_per_round
        &&& self.players@.len() <= MAX_STORED_PLAYERS
        &&& self.players_unique()
        &&& self.total_pot == game.wager_amount * self.players@.len()
    }
}

} // verus!
