//! Wagering engine: resolves a binary bet against a pseudo-random
//! draw, orders the issuance service to mint the payout or burn the
//! stake, and records the outcome in the player's statistics.
//!
//! Two quirks of the economy's rules are documented here rather than
//! repaired. The draw mixes the wall-clock second count with one byte
//! of the player's identity, so it is low-entropy and predictable by
//! whoever controls transaction timing; moving to a verifiable
//! randomness source is an open question. And unlike the purchase
//! engine, the winning mint is neither checked against the supply cap
//! nor counted into the running supply, so winnings can carry the
//! circulating supply past the nominal cap.

use vstd::prelude::*;

use crate::state::AccountId;
use crate::state::GameError;
use crate::state::GamePlayed;
use crate::state::PlayerStats;

verus! {

/// The outcome draw: parity of the wall-clock seconds plus the first
/// byte of the player's identity.
pub open spec fn coin_result(unix_time: u64, id_byte: u8) -> bool {
    (unix_time + id_byte) % 2 == 1
}

/// A wager is won exactly when the player's guess matches the draw.
pub open spec fn wager_won(player_choice: bool, unix_time: u64, id_byte: u8) -> bool {
    player_choice == coin_result(unix_time, id_byte)
}

/// The single issuance call a resolved wager requires.
#[derive(Clone, Copy, PartialEq, Eq, Structural, Debug)]
pub enum Settlement {
    /// Mint the doubled stake to the player.
    Mint { amount: u64 },
    /// Burn the stake from the player's spendable balance.
    Burn { amount: u64 },
}

/// A resolved wager: whether the player won, and the issuance call
/// that settles it.
#[derive(Clone, Copy, PartialEq, Eq, Structural, Debug)]
pub struct WagerDecision {
    pub won: bool,
    pub settlement: Settlement,
}

/// Reply of the external issuance service to the settlement call.
#[derive(Clone, Copy, PartialEq, Eq, Structural, Debug)]
pub enum IssuanceOutcome {
    /// The mint or burn was applied.
    Done,
    /// A burn was refused: the holder's spendable balance is smaller
    /// than the requested amount.
    InsufficientBalance,
    /// The service failed for another reason; propagated opaquely.
    Failed,
}

/// The decision a wager of `bet_amount` resolves to at `unix_time`:
/// a win mints twice the stake, a loss burns the stake.
pub open spec fn wager_decision(
    bet_amount: u64,
    player_choice: bool,
    unix_time: u64,
    id_byte: u8,
) -> WagerDecision {
    let won = wager_won(player_choice, unix_time, id_byte);
    WagerDecision {
        won,
        settlement: if won {
            Settlement::Mint { amount: (bet_amount * 2) as u64 }
        } else {
            Settlement::Burn { amount: bet_amount }
        },
    }
}

/// Resolves a wager: draws the coin from the clock and the player's
/// identity and returns the settlement order for the issuance service.
///
/// `unix_time` is the wall-clock second count as the execution
/// environment reports it at processing time. The parity of the seed
/// is taken on the mathematical sum of clock and identity byte; the
/// wrapping addition below agrees with it because the machine modulus
/// is even.
pub fn play_game(bet_amount: u64, player_choice: bool, unix_time: u64, player: &AccountId) -> (d:
    WagerDecision)
    requires
        bet_amount * 2 <= u64::MAX,
    ensures
        d == wager_decision(bet_amount, player_choice, unix_time, player.bytes@[0]),
        d.won == wager_won(player_choice, unix_time, player.bytes@[0]),
{
    let id_byte: u8 = player.low_byte();
    let seed: u64 = unix_time.wrapping_add(id_byte as u64);
    proof {
        if unix_time + id_byte > u64::MAX {
            vstd::arithmetic::div_mod::lemma_mod_multiples_vanish(
                -0x8000_0000_0000_0000,
                unix_time + id_byte,
                2,
            );
        }
    }
    let coin: bool = seed % 2 == 1;
    let won: bool = player_choice == coin;
    if won {
        WagerDecision { won, settlement: Settlement::Mint { amount: bet_amount * 2 } }
    } else {
        WagerDecision { won, settlement: Settlement::Burn { amount: bet_amount } }
    }
}

/// Statistics after one settled wager: the game is counted, and the
/// win as well when there was one. The reserved balance field and the
/// owning identity are untouched.
pub open spec fn settled_stats(s: PlayerStats, won: bool) -> PlayerStats {
    PlayerStats {
        total_games: (s.total_games + 1) as u64,
        total_wins: if won {
            (s.total_wins + 1) as u64
        } else {
            s.total_wins
        },
        ..s
    }
}

/// Payout a settled wager mints: twice the stake on a win, nothing on
/// a loss.
pub open spec fn payout_amount(won: bool, bet_amount: u64) -> int {
    if won {
        2 * bet_amount
    } else {
        0
    }
}

/// Notification a settled wager emits.
pub open spec fn game_event(player: AccountId, won: bool, bet_amount: u64) -> GamePlayed {
    GamePlayed { player, won, bet_amount, win_amount: payout_amount(won, bet_amount) as u64 }
}

/// Ensures the player's statistics record exists, creating it with
/// every counter at zero on the first wager of a previously unseen
/// player. `slot` is the ledger's cell for the record, filled at most
/// once and part of the same atomic transaction as the settlement.
pub fn get_or_create_stats(slot: &mut Option<PlayerStats>, player: AccountId)
    ensures
        (*old(slot)) is Some ==> *final(slot) == *old(slot),
        (*old(slot)) is None ==> *final(slot) == Some(
            PlayerStats { player, total_wins: 0, total_games: 0, balance: 0 },
        ),
        (*final(slot)) is Some,
{
    if slot.is_none() {
        *slot = Some(PlayerStats::new(player));
    }
}

/// Commits a resolved wager to the player's statistics, given the
/// issuance service's reply to the settlement call.
///
/// Only a completed settlement touches the record: the game is
/// counted, the win as well when there was one, and the emitted
/// notification reports the stake and the payout. A refused burn
/// surfaces as `InsufficientBalance`, any other service failure as
/// `IssuanceFailed`; either way the statistics are exactly as before,
/// so an aborted transaction has no observable effect here.
pub fn settle_game(
    stats: &mut PlayerStats,
    won: bool,
    bet_amount: u64,
    outcome: IssuanceOutcome,
) -> (r: Result<GamePlayed, GameError>)
    requires
        old(stats).wf(),
        old(stats).total_games < u64::MAX,
        bet_amount * 2 <= u64::MAX,
    ensures
        final(stats).wf(),
        r is Ok <==> outcome == IssuanceOutcome::Done,
        outcome == IssuanceOutcome::Done ==> *final(stats) == settled_stats(*old(stats), won)
            && r->Ok_0 == game_event(old(stats).player, won, bet_amount),
        outcome != IssuanceOutcome::Done ==> *final(stats) == *old(stats),
        outcome == IssuanceOutcome::InsufficientBalance ==> r->Err_0
            == GameError::InsufficientBalance,
        outcome == IssuanceOutcome::Failed ==> r->Err_0 == GameError::IssuanceFailed,
{
    match outcome {
        IssuanceOutcome::Done => {
            stats.total_games = stats.total_games + 1;
            if won {
                stats.total_wins = stats.total_wins + 1;
            }
            Ok(
                GamePlayed {
                    player: stats.player,
                    won,
                    bet_amount,
                    win_amount: if won {
                        bet_amount * 2
                    } else {
                        0
                    },
                },
            )
        },
        IssuanceOutcome::InsufficientBalance => Err(GameError::InsufficientBalance),
        IssuanceOutcome::Failed => Err(GameError::IssuanceFailed),
    }
}

/// A won wager settles by minting exactly twice the stake, and its
/// commit advances both counters by one.
pub proof fn lemma_won_wager(
    bet_amount: u64,
    player_choice: bool,
    unix_time: u64,
    id_byte: u8,
    s: PlayerStats,
)
    requires
        s.wf(),
        s.total_games < u64::MAX,
        bet_amount * 2 <= u64::MAX,
        wager_won(player_choice, unix_time, id_byte),
    ensures
        wager_decision(bet_amount, player_choice, unix_time, id_byte).settlement == (
        Settlement::Mint { amount: (2 * bet_amount) as u64 }),
        payout_amount(true, bet_amount) == 2 * bet_amount,
        settled_stats(s, true).total_games == s.total_games + 1,
        settled_stats(s, true).total_wins == s.total_wins + 1,
        settled_stats(s, true).wf(),
{
}

/// A lost wager settles by burning exactly the stake, and its commit
/// counts the game but no win.
pub proof fn lemma_lost_wager(
    bet_amount: u64,
    player_choice: bool,
    unix_time: u64,
    id_byte: u8,
    s: PlayerStats,
)
    requires
        s.wf(),
        s.total_games < u64::MAX,
        !wager_won(player_choice, unix_time, id_byte),
    ensures
        wager_decision(bet_amount, player_choice, unix_time, id_byte).settlement == (
        Settlement::Burn { amount: bet_amount }),
        payout_amount(false, bet_amount) == 0,
        settled_stats(s, false).total_games == s.total_games + 1,
        settled_stats(s, false).total_wins == s.total_wins,
        settled_stats(s, false).wf(),
{
}

} // verus!
