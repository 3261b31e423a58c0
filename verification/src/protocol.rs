//! The wagering state machine: `initialize_game`, `place_wager`,
//! `close_round`.
//!
//! Each operation validates its preconditions against the current record
//! state, moves value, and mutates records, atomically: on any failure it
//! returns the distinct error code of the first failing check and leaves
//! every record and balance it was handed unchanged.
//!
//! The host hands each operation plain values: the records it addressed
//! (the active round is the one whose number equals the game's
//! `current_round_number`), the balances those records' accounts hold, and
//! a clock reading taken inside the operation. After a successful
//! `close_round` the host pays the returned [`Settlement`] out of the
//! round's custody balance, which this operation has already debited by the
//! whole pot.

use vstd::prelude::*;

use crate::custody;
use crate::errors::WagerError;
use crate::identity::{unset_identity, Identity};
use crate::records::{Game, Round, RoundStatus, MAX_STORED_PLAYERS};

verus! {

/// The first round of every game is numbered 1.
pub const FIRST_ROUND_NUMBER: u64 = 1;

/// The denominator of fee basis points: 10000 basis points are the whole pot.
pub const BASIS_POINTS_DENOMINATOR: u64 = 10000;

/// The fewest players a round can be settled with.
pub const MINIMUM_PLAYERS_TO_CLOSE: usize = 2;

/// What `close_round` pays out: the derived winner receives
/// `winner_payout` and the game admin receives `fee_amount`, together
/// exactly the closed round's pot.
pub struct Settlement {
    pub winner: Identity,
    pub winner_payout: u64,
    pub fee_amount: u64,
}

/// The fee kept from a pot, rounded down: `total_pot * fee_basis_points /
/// 10000`.
pub open spec fn fee_of(total_pot: u64, fee_basis_points: u16) -> int {
    (total_pot * fee_basis_points) / (BASIS_POINTS_DENOMINATOR as int)
}

/// What the winner receives from a pot: the pot minus the fee.
pub open spec fn payout_of(total_pot: u64, fee_basis_points: u16) -> int {
    total_pot - fee_of(total_pot, fee_basis_points)
}

/// The fee and the payout split the pot exactly, and the fee never exceeds
/// the pot.
pub proof fn lemma_fee_split(total_pot: u64, fee_basis_points: u16)
    requires
        fee_basis_points <= 10000,
    ensures
        0 <= fee_of(total_pot, fee_basis_points) <= total_pot,
        fee_of(total_pot, fee_basis_points) + payout_of(total_pot, fee_basis_points) == total_pot,
{
    assert(total_pot * fee_basis_points <= total_pot * 10000) by (nonlinear_arith)
        requires
            fee_basis_points <= 10000,
    ;
    vstd::arithmetic::div_mod::lemma_div_is_ordered(
        total_pot * fee_basis_points,
        total_pot * 10000,
        10000,
    );
    assert(total_pot * 10000 / 10000 == total_pot) by (nonlinear_arith);
}

/// A timestamp reinterpreted as an unsigned 64-bit word, as the selection
/// seed consumes it.
pub open spec fn timestamp_word(timestamp: i64) -> u64 {
    if timestamp >= 0 {
        timestamp as u64
    } else {
        (timestamp + 0x1_0000_0000_0000_0000) as u64
    }
}

/// The winner-selection seed: the monotonic slot counter wrapping-multiplied
/// by the timestamp, wrapping-added to the pot.
///
/// A documented placeholder, not a secure randomness source: every input
/// is either public or chooseable by a block producer. A production
/// deployment would put a verifiable randomness source behind
/// [`derived_winner`] without touching the surrounding state machine.
pub open spec fn selection_seed(slot: u64, timestamp: i64, total_pot: u64) -> u64 {
    vstd::wrapping::u64_specs::wrapping_add(
        vstd::wrapping::u64_specs::wrapping_mul(slot, timestamp_word(timestamp)),
        total_pot,
    )
}

/// Which player the seed selects out of `player_count` many.
pub open spec fn winner_index(slot: u64, timestamp: i64, total_pot: u64, player_count: int) -> int {
    (selection_seed(slot, timestamp, total_pot) as int) % player_count
}

/// The winner the protocol derives for a round at the given clock reading.
pub open spec fn derived_winner(round: Round, slot: u64, timestamp: i64) -> Seq<u8> {
    round.players@[winner_index(slot, timestamp, round.total_pot, round.players@.len() as int)]@
}

/// Whether the round holds as many players as its game allows.
pub open spec fn round_full(round: Round, game: Game) -> bool {
    round.players@.len() >= game.max_players_per_round
}

/// Whether the round's duration has elapsed at `now`.
pub open spec fn round_expired(round: Round, game: Game, now: i64) -> bool {
    now >= round.start_time + game.round_duration
}

/// A round may be settled once it is full or expired.
pub open spec fn round_closeable(round: Round, game: Game, now: i64) -> bool {
    round_full(round, game) || round_expired(round, game, now)
}

/// The first failing configuration check of `initialize_game`, or `None`
/// when every check passes.
pub open spec fn initialize_game_failure(
    wager_amount: u64,
    max_players_per_round: u8,
    round_duration: i64,
    fee_basis_points: u16,
) -> Option<WagerError> {
    if wager_amount == 0 {
        Some(WagerError::InvalidWagerAmount)
    } else if max_players_per_round < 2 {
        Some(WagerError::TooFewPlayers)
    } else if round_duration <= 0 {
        Some(WagerError::InvalidRoundDuration)
    } else if fee_basis_points > 10000 {
        Some(WagerError::FeeTooHigh)
    } else {
        None
    }
}

/// The first failing check of `place_wager`, or `None` when the wager goes
/// through.
pub open spec fn place_wager_failure(
    game: Game,
    round: Round,
    player: Seq<u8>,
    player_balance: u64,
    round_balance: u64,
) -> Option<WagerError> {
    if !(round.status is Open) {
        Some(WagerError::RoundNotOpen)
    } else if round.players@.len() >= game.max_players_per_round {
        Some(WagerError::RoundFull)
    } else if round.has_player(player) {
        Some(WagerError::AlreadyInRound)
    } else if player_balance < game.wager_amount {
        Some(WagerError::InsufficientFunds)
    } else if round_balance + game.wager_amount > u64::MAX {
        Some(WagerError::BalanceOverflow)
    } else if round.total_pot + game.wager_amount > u64::MAX {
        Some(WagerError::PotOverflow)
    } else if round.players@.len() >= MAX_STORED_PLAYERS {
        Some(WagerError::RecordSpaceExceeded)
    } else {
        None
    }
}

/// The first failing check of `close_round`, or `None` when the round
/// settles.
pub open spec fn close_round_failure(
    game: Game,
    round: Round,
    claimed_winner: Seq<u8>,
    fee_recipient: Seq<u8>,
    now: i64,
    slot: u64,
) -> Option<WagerError> {
    if game.current_round_number == u64::MAX {
        Some(WagerError::MathOverflow)
    } else if fee_recipient != game.admin@ {
        Some(WagerError::InvalidFeeRecipient)
    } else if !(round.status is Open) {
        Some(WagerError::RoundAlreadyClosed)
    } else if round.players@.len() < MINIMUM_PLAYERS_TO_CLOSE {
        Some(WagerError::NotEnoughPlayers)
    } else if !round_closeable(round, game, now) {
        Some(WagerError::RoundNotCloseable)
    } else if claimed_winner != derived_winner(round, slot, now) {
        Some(WagerError::WinnerMismatch)
    } else if round.total_pot * game.fee_basis_points > u64::MAX {
        Some(WagerError::MathOverflow)
    } else {
        None
    }
}

/// Whether `p` stands in the player list.
fn contains_identity(players: &Vec<Identity>, p: &Identity) -> (r: bool)
    ensures
        r == exists|i: int| 0 <= i < players@.len() && players@[i]@ == p@,
{
    let mut i: usize = 0;
    while i < players.len()
        invariant
            0 <= i <= players@.len(),
            forall|j: int| 0 <= j < i ==> players@[j]@ != p@,
        decreases players@.len() - i,
    {
        if players[i].equals(p) {
            return true;
        }
        i += 1;
    }
    false
}

/// Creates a game and its first round.
///
/// Checks the four configuration parameters in order and aborts with the
/// first failing check's code, creating nothing; on success both records
/// come back with the fields the configuration dictates, the first round
/// open and empty, started at `now`.
pub fn initialize_game(
    admin: Identity,
    wager_amount: u64,
    max_players_per_round: u8,
    round_duration: i64,
    fee_basis_points: u16,
    now: i64,
    game_identity: Identity,
    game_bump: u8,
    round_bump: u8,
) -> (r: Result<(Game, Round), WagerError>)
    ensures
        r is Ok <==> initialize_game_failure(
            wager_amount,
            max_players_per_round,
            round_duration,
            fee_basis_points,
        ) is None,
        r matches Err(e) ==> initialize_game_failure(
            wager_amount,
            max_players_per_round,
            round_duration,
            fee_basis_points,
        ) == Some(e),
        r matches Ok(p) ==> ({
            &&& p.0.admin@ == admin@
            &&& p.0.wager_amount == wager_amount
            &&& p.0.max_players_per_round == max_players_per_round
            &&& p.0.round_duration == round_duration
            &&& p.0.current_round_number == FIRST_ROUND_NUMBER
            &&& p.0.fee_basis_points == fee_basis_points
            &&& p.0.bump == game_bump
            &&& p.0.wf()
            &&& p.1.game@ == game_identity@
            &&& p.1.round_number == FIRST_ROUND_NUMBER
            &&& p.1.players@.len() == 0
            &&& p.1.total_pot == 0
            &&& p.1.start_time == now
            &&& p.1.status is Open
            &&& p.1.winner@ == unset_identity()
            &&& p.1.bump == round_bump
            &&& p.1.wf(&p.0)
        }),
{
    if wager_amount == 0 {
        return Err(WagerError::InvalidWagerAmount);
    }
    if max_players_per_round < 2 {
        return Err(WagerError::TooFewPlayers);
    }
    if round_duration <= 0 {
        return Err(WagerError::InvalidRoundDuration);
    }
    if fee_basis_points > 10000 {
        return Err(WagerError::FeeTooHigh);
    }
    let game = Game {
        admin,
        wager_amount,
        max_players_per_round,
        round_duration,
        current_round_number: FIRST_ROUND_NUMBER,
        fee_basis_points,
        bump: game_bump,
    };
    let round = Round {
        game: game_identity,
        round_number: FIRST_ROUND_NUMBER,
        players: Vec::new(),
        total_pot: 0,
        start_time: now,
        status: RoundStatus::Open,
        winner: Identity::default(),
        bump: round_bump,
    };
    Ok((game, round))
}

/// Stakes the game's fixed wager into the active round for `player`.
///
/// Checks, in order: the round is open, below capacity, and does not hold
/// the player yet. Then it transfers the stake from the player's balance
/// into the round's custody balance, and only if that transfer went through
/// does the record update apply: the player is appended and the pot grows by
/// exactly the stake. A pot overflow or exhausted record storage rolls the
/// transfer back, so either all of the effect is observed or none of it.
///
/// Appending a fresh player keeps the round's invariant: the pot stays
/// `wager_amount * players.len()` after every successful call, no identity
/// enters twice, and the player count respects both bounds.
pub fn place_wager(
    game: &Game,
    round: &mut Round,
    player: Identity,
    player_balance: &mut u64,
    round_balance: &mut u64,
) -> (r: Result<(), WagerError>)
    requires
        old(round).round_number == game.current_round_number,
    ensures
        r is Ok <==> place_wager_failure(
            *game,
            *old(round),
            player@,
            *old(player_balance),
            *old(round_balance),
        ) is None,
        r matches Err(e) ==> place_wager_failure(
            *game,
            *old(round),
            player@,
            *old(player_balance),
            *old(round_balance),
        ) == Some(e),
        r is Ok ==> ({
            &&& final(round).players@ == old(round).players@.push(player)
            &&& final(round).total_pot == old(round).total_pot + game.wager_amount
            &&& *final(player_balance) == *old(player_balance) - game.wager_amount
            &&& *final(round_balance) == *old(round_balance) + game.wager_amount
        }),
        r is Err ==> ({
            &&& *final(round) == *old(round)
            &&& *final(player_balance) == *old(player_balance)
            &&& *final(round_balance) == *old(round_balance)
        }),
        final(round).game@ == old(round).game@,
        final(round).round_number == old(round).round_number,
        final(round).start_time == old(round).start_time,
        final(round).status == old(round).status,
        final(round).winner@ == old(round).winner@,
        final(round).bump == old(round).bump,
        old(round).wf(game) ==> final(round).wf(game),
{
    if !(round.status == RoundStatus::Open) {
        return Err(WagerError::RoundNotOpen);
    }
    if round.players.len() >= game.max_players_per_round as usize {
        return Err(WagerError::RoundFull);
    }
    if contains_identity(&round.players, &player) {
        return Err(WagerError::AlreadyInRound);
    }
    match custody::transfer(player_balance, round_balance, game.wager_amount) {
        Err(e) => {
            return Err(e);
        },
        Ok(()) => {},
    }
    let new_pot = match round.total_pot.checked_add(game.wager_amount) {
        None => {
            *round_balance = *round_balance - game.wager_amount;
            *player_balance = *player_balance + game.wager_amount;
            return Err(WagerError::PotOverflow);
        },
        Some(p) => p,
    };
    if round.players.len() >= MAX_STORED_PLAYERS {
        *round_balance = *round_balance - game.wager_amount;
        *player_balance = *player_balance + game.wager_amount;
        return Err(WagerError::RecordSpaceExceeded);
    }
    let ghost old_len = round.players@.len();
    round.players.push(player);
    round.total_pot = new_pot;
    proof {
        if old(round).wf(game) {
            assert(game.wager_amount * (old_len + 1) == game.wager_amount * old_len
                + game.wager_amount) by (nonlinear_arith);
        }
    }
    Ok(())
}

/// The timestamp as the unsigned word the selection seed consumes.
fn timestamp_to_word(timestamp: i64) -> (r: u64)
    ensures
        r == timestamp_word(timestamp),
{
    if timestamp >= 0 {
        timestamp as u64
    } else {
        ((timestamp as i128) + 0x1_0000_0000_0000_0000i128) as u64
    }
}

/// The winner the protocol derives for this round at the given clock
/// reading; a caller computes it with this before claiming it to
/// `close_round`. `None` only for a round with no players.
pub fn select_winner(round: &Round, slot: u64, now: i64) -> (r: Option<Identity>)
    ensures
        r is None <==> round.players@.len() == 0,
        r matches Some(w) ==> w@ == derived_winner(*round, slot, now),
{
    if round.players.len() == 0 {
        return None;
    }
    let slot_word = slot.wrapping_mul(timestamp_to_word(now));
    let seed = slot_word.wrapping_add(round.total_pot);
    let player_count = round.players.len() as u64;
    let index = (seed % player_count) as usize;
    Some(round.players[index])
}

/// Settles the active round and opens its successor.
///
/// Checks, in order: the successor's round number exists, the fee recipient
/// is the game admin, the round is open, holds at least 2 players, and is
/// full or expired; then it derives the winner from the clock reading and
/// requires the claimed winner to equal it — the caller never chooses the
/// winner. The fee is `total_pot * fee_basis_points / 10000` rounded down
/// and the winner receives the rest, exactly splitting the pot. On success
/// the round is frozen closed with its winner recorded, the custody balance
/// has been debited by the whole pot for the host to pay the returned
/// settlement, and the successor round comes back open, empty, and started
/// at `now`, with the game advanced to its number.
pub fn close_round(
    game: &mut Game,
    round: &mut Round,
    claimed_winner: &Identity,
    fee_recipient: &Identity,
    now: i64,
    slot: u64,
    next_round_bump: u8,
    round_balance: &mut u64,
) -> (r: Result<(Round, Settlement), WagerError>)
    requires
        old(game).wf(),
        old(round).round_number == old(game).current_round_number,
        *old(round_balance) >= old(round).total_pot,
    ensures
        r is Ok <==> close_round_failure(
            *old(game),
            *old(round),
            claimed_winner@,
            fee_recipient@,
            now,
            slot,
        ) is None,
        r matches Err(e) ==> close_round_failure(
            *old(game),
            *old(round),
            claimed_winner@,
            fee_recipient@,
            now,
            slot,
        ) == Some(e),
        r matches Ok(p) ==> ({
            let pot = old(round).total_pot;
            let bps = old(game).fee_basis_points;
            &&& final(round).status is Closed
            &&& final(round).winner@ == derived_winner(*old(round), slot, now)
            &&& final(round).players@ == old(round).players@
            &&& final(round).total_pot == pot
            &&& final(game).current_round_number == old(game).current_round_number + 1
            &&& *final(round_balance) == *old(round_balance) - pot
            &&& p.0.game@ == old(round).game@
            &&& p.0.round_number == old(game).current_round_number + 1
            &&& p.0.players@.len() == 0
            &&& p.0.total_pot == 0
            &&& p.0.start_time == now
            &&& p.0.status is Open
            &&& p.0.winner@ == unset_identity()
            &&& p.0.bump == next_round_bump
            &&& p.0.wf(final(game))
            &&& p.1.winner@ == derived_winner(*old(round), slot, now)
            &&& p.1.fee_amount == fee_of(pot, bps)
            &&& p.1.winner_payout == payout_of(pot, bps)
            &&& p.1.fee_amount + p.1.winner_payout == pot
        }),
        r is Err ==> ({
            &&& *final(round) == *old(round)
            &&& *final(game) == *old(game)
            &&& *final(round_balance) == *old(round_balance)
        }),
        final(game).admin@ == old(game).admin@,
        final(game).wager_amount == old(game).wager_amount,
        final(game).max_players_per_round == old(game).max_players_per_round,
        final(game).round_duration == old(game).round_duration,
        final(game).fee_basis_points == old(game).fee_basis_points,
        final(game).bump == old(game).bump,
        final(round).game@ == old(round).game@,
        final(round).round_number == old(round).round_number,
        final(round).start_time == old(round).start_time,
        final(round).bump == old(round).bump,
        old(round).wf(old(game)) ==> final(round).wf(final(game)),
{
    let next_round_number = match game.current_round_number.checked_add(1) {
        None => {
            return Err(WagerError::MathOverflow);
        },
        Some(n) => n,
    };
    if !fee_recipient.equals(&game.admin) {
        return Err(WagerError::InvalidFeeRecipient);
    }
    if !(round.status == RoundStatus::Open) {
        return Err(WagerError::RoundAlreadyClosed);
    }
    if round.players.len() < MINIMUM_PLAYERS_TO_CLOSE {
        return Err(WagerError::NotEnoughPlayers);
    }
    let is_full = round.players.len() >= game.max_players_per_round as usize;
    let is_expired = (now as i128) >= (round.start_time as i128) + (game.round_duration as i128);
    if !(is_full || is_expired) {
        return Err(WagerError::RoundNotCloseable);
    }
    let winner = match select_winner(&*round, slot, now) {
        None => {
            // Infeasible past the player-count check; any arm verifies here.
            return Err(WagerError::WinnerMismatch);
        },
        Some(w) => w,
    };
    if !claimed_winner.equals(&winner) {
        return Err(WagerError::WinnerMismatch);
    }
    let scaled = match round.total_pot.checked_mul(game.fee_basis_points as u64) {
        None => {
            return Err(WagerError::MathOverflow);
        },
        Some(s) => s,
    };
    let fee_amount = scaled / BASIS_POINTS_DENOMINATOR;
    proof {
        lemma_fee_split(round.total_pot, game.fee_basis_points);
    }
    let winner_payout = round.total_pot - fee_amount;
    *round_balance = *round_balance - winner_payout;
    if fee_amount > 0 {
        *round_balance = *round_balance - fee_amount;
    }
    round.status = RoundStatus::Closed;
    round.winner = winner;
    game.current_round_number = next_round_number;
    let next_round = Round {
        game: round.game,
        round_number: next_round_number,
        players: Vec::new(),
        total_pot: 0,
        start_time: now,
        status: RoundStatus::Open,
        winner: Identity::default(),
        bump: next_round_bump,
    };
    let settlement = Settlement { winner, winner_payout, fee_amount };
    Ok((next_round, settlement))
}

} // verus!
