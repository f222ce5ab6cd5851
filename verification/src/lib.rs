//! Accounting core of a supply-capped wagering token economy.
//!
//! The library owns the state transitions of the economy: creating the
//! singleton configuration, converting payments into minted tokens at a
//! fixed unit price under a hard supply cap, and settling coin-flip
//! wagers that mint a payout or burn the stake while tracking per-player
//! statistics. Custody of spendable balances belongs to an external
//! issuance service, and persistence of the records to an external
//! ledger; the hosting program performs those calls and drives the
//! functions here, which carry the arithmetic and its proofs.

pub mod purchase;
pub mod state;
pub mod wager;

pub use purchase::purchase_tokens;
pub use state::initialize;
pub use state::AccountId;
pub use state::GameError;
pub use state::GamePlayed;
pub use state::GameState;
pub use state::PlayerStats;
pub use state::TokensPurchased;
pub use wager::get_or_create_stats;
pub use wager::play_game;
pub use wager::settle_game;
pub use wager::IssuanceOutcome;
pub use wager::Settlement;
pub use wager::WagerDecision;
