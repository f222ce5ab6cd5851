//! Data model of the economy: account identities, the singleton
//! configuration, per-player statistics, the notification records
//! emitted after successful transitions, and the error taxonomy.

use vstd::prelude::*;

verus! {

/// Price of one whole token, in external-currency minor units.
pub const UNIT_PRICE: u64 = 1_000_000;

/// Number of token subunits per whole token. All internal amounts are
/// integer token subunits at this scale.
pub const TOKEN_SCALE: u64 = 1_000_000_000;

/// Hard cap on the total token supply, in subunits:
/// one million whole tokens at `TOKEN_SCALE` subunits each.
pub const MAX_SUPPLY: u64 = 1_000_000_000_000_000;

/// A 32-byte account identity, in the form the hosting ledger names
/// signers and records. The core only references identities: it stores
/// them and, for the outcome draw, reads the first byte.
#[derive(Clone, Copy, PartialEq, Eq, Debug)]
pub struct AccountId {
    pub bytes: [u8; 32],
}

impl AccountId {
    /// First byte of the identity, the only part the outcome draw reads.
    pub fn low_byte(&self) -> (b: u8)
        ensures
            b == self.bytes@[0],
    {
        self.bytes[0]
    }
}

/// Singleton configuration of one deployed economy: the issuance
/// authority, the fixed price of a token, and the supply cap with its
/// running counter.
#[derive(Clone, Copy, PartialEq, Eq, Debug)]
pub struct GameState {
    /// Identity permitted to mint and burn on behalf of the economy.
    pub authority: AccountId,
    /// Price of one whole token in external-currency minor units;
    /// fixed at creation.
    pub token_price: u64,
    /// Immutable upper bound on the total minted supply, in subunits.
    pub max_supply: u64,
    /// Tokens currently in circulation through this core, in subunits.
    pub total_supply: u64,
}

impl GameState {
    /// The configuration is well formed: the price is positive (the
    /// purchase computation divides by it) and the running supply sits
    /// within the cap.
    pub open spec fn wf(self) -> bool {
        &&& self.token_price > 0
        &&& self.total_supply <= self.max_supply
    }
}

/// Per-player statistics, one record per distinct player, created
/// lazily on the first wager and never deleted.
#[derive(Clone, Copy, PartialEq, Eq, Debug)]
pub struct PlayerStats {
    /// Owning identity.
    pub player: AccountId,
    /// Wagers won, counted by the settlement step.
    pub total_wins: u64,
    /// Wagers settled, won or lost.
    pub total_games: u64,
    /// Reserved field. Not authoritative and never updated by the
    /// engines: the spendable balance lives entirely in the external
    /// issuance service.
    pub balance: u64,
}

impl PlayerStats {
    /// A statistics record is well formed when it has not won more
    /// games than it has played.
    pub open spec fn wf(self) -> bool {
        self.total_wins <= self.total_games
    }

    /// Fresh record for a player seen for the first time: every
    /// counter at zero.
    pub fn new(player: AccountId) -> (s: PlayerStats)
        ensures
            s == (PlayerStats { player, total_wins: 0, total_games: 0, balance: 0 }),
            s.wf(),
    {
        PlayerStats { player, total_wins: 0, total_games: 0, balance: 0 }
    }
}

/// Configuration a freshly created economy holds: the given authority,
/// the fixed unit price, the fixed cap, and an empty supply.
pub open spec fn initial_state(authority: AccountId) -> GameState {
    GameState {
        authority,
        token_price: UNIT_PRICE,
        max_supply: MAX_SUPPLY,
        total_supply: 0,
    }
}

/// Creates the singleton configuration of an economy.
///
/// `slot` is the ledger's create-once cell for the configuration:
/// creation succeeds exactly once. A second call fails with
/// `AlreadyInitialized` and neither resets the supply counter nor
/// replaces the authority.
pub fn initialize(slot: &mut Option<GameState>, authority: AccountId) -> (r: Result<(), GameError>)
    ensures
        r is Ok <==> (*old(slot)) is None,
        (*old(slot)) is Some ==> *final(slot) == *old(slot)
            && r == Err::<(), GameError>(GameError::AlreadyInitialized),
        (*old(slot)) is None ==> *final(slot) == Some(initial_state(authority))
            && ((*final(slot))->Some_0).wf(),
        (*final(slot)) is Some,
{
    if slot.is_some() {
        return Err(GameError::AlreadyInitialized);
    }
    *slot = Some(GameState {
        authority,
        token_price: UNIT_PRICE,
        max_supply: MAX_SUPPLY,
        total_supply: 0,
    });
    Ok(())
}

/// Notification emitted after a successful purchase: `amount` is the
/// minted token subunits, `cost` the external-currency minor units paid.
#[derive(Clone, Copy, PartialEq, Eq, Debug)]
pub struct TokensPurchased {
    pub buyer: AccountId,
    pub amount: u64,
    pub cost: u64,
}

/// Notification emitted after a settled wager: `win_amount` is the
/// minted payout on a win and zero on a loss.
#[derive(Clone, Copy, PartialEq, Eq, Debug)]
pub struct GamePlayed {
    pub player: AccountId,
    pub won: bool,
    pub bet_amount: u64,
    pub win_amount: u64,
}

/// Why a transition was refused. Every error aborts the enclosing
/// transaction with no partial mutation.
#[derive(Clone, Copy, PartialEq, Eq, Structural, Debug)]
pub enum GameError {
    /// The purchase would push the total supply past the cap.
    ExceedsMaxSupply,
    /// The economy configuration already exists; creation is once-only.
    AlreadyInitialized,
    /// The issuance service refused to burn the stake: the player's
    /// spendable balance is smaller than the bet.
    InsufficientBalance,
    /// The issuance service failed for another reason; propagated
    /// opaquely.
    IssuanceFailed,
}

} // verus!
