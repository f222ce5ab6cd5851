use gynger_game::get_or_create_stats;
use gynger_game::initialize;
use gynger_game::play_game;
use gynger_game::purchase_tokens;
use gynger_game::settle_game;
use gynger_game::AccountId;
use gynger_game::GameError;
use gynger_game::GameState;
use gynger_game::IssuanceOutcome;
use gynger_game::PlayerStats;
use gynger_game::Settlement;

fn acct(first_byte: u8) -> AccountId {
    let mut bytes = [0u8; 32];
    bytes[0] = first_byte;
    AccountId { bytes }
}

#[test]
fn initialize_sets_fixed_configuration() {
    let mut slot: Option<GameState> = None;
    let authority = acct(7);
    let r = initialize(&mut slot, authority);
    assert!(r.is_ok());
    let state = slot.unwrap();
    assert_eq!(state.authority, authority);
    assert_eq!(state.token_price, 1_000_000);
    assert_eq!(state.max_supply, 1_000_000_000_000_000);
    assert_eq!(state.total_supply, 0);
}

#[test]
fn second_initialize_fails_and_keeps_state() {
    let mut slot: Option<GameState> = None;
    let authority = acct(7);
    assert!(initialize(&mut slot, authority).is_ok());
    let buyer = acct(9);
    let before = {
        let state = slot.as_mut().unwrap();
        purchase_tokens(state, buyer, 5_000_000).unwrap();
        *state
    };
    let r = initialize(&mut slot, acct(8));
    assert_eq!(r, Err(GameError::AlreadyInitialized));
    let state = slot.unwrap();
    assert_eq!(state, before);
    assert_eq!(state.authority, acct(7));
    assert_eq!(state.total_supply, 5_000_000_000);
}

#[test]
fn purchase_adds_computed_mint_to_supply() {
    let mut state = GameState {
        authority: acct(1),
        token_price: 1_000_000,
        max_supply: 1_000_000_000_000_000,
        total_supply: 42,
    };
    let event = purchase_tokens(&mut state, acct(2), 3_000_000).unwrap();
    assert_eq!(event.amount, 3_000_000_000);
    assert_eq!(state.total_supply, 42 + 3_000_000_000);
    assert!(state.total_supply <= state.max_supply);
}

#[test]
fn purchase_of_one_whole_token() {
    let mut state = GameState {
        authority: acct(1),
        token_price: 1_000_000,
        max_supply: 1_000_000_000_000_000,
        total_supply: 0,
    };
    let buyer = acct(2);
    let event = purchase_tokens(&mut state, buyer, 1_000_000).unwrap();
    assert_eq!(event.amount, 1_000_000_000);
    assert_eq!(event.cost, 1_000_000);
    assert_eq!(event.buyer, buyer);
    assert_eq!(state.total_supply, 1_000_000_000);
}

#[test]
fn purchase_over_cap_fails_and_leaves_supply() {
    let mut state = GameState {
        authority: acct(1),
        token_price: 1_000_000_000,
        max_supply: 1000,
        total_supply: 900,
    };
    // At this price the payment computes to a 200-subunit mint.
    let r = purchase_tokens(&mut state, acct(2), 200);
    assert_eq!(r, Err(GameError::ExceedsMaxSupply));
    assert_eq!(state.total_supply, 900);
    assert_eq!(state.max_supply, 1000);
}

#[test]
fn purchase_division_truncates() {
    let mut state = GameState {
        authority: acct(1),
        token_price: 3,
        max_supply: u64::MAX,
        total_supply: 0,
    };
    let event = purchase_tokens(&mut state, acct(2), 1).unwrap();
    assert_eq!(event.amount, 333_333_333);
    assert_eq!(state.total_supply, 333_333_333);
}

#[test]
fn zero_payment_mints_zero() {
    let mut state = GameState {
        authority: acct(1),
        token_price: 1_000_000,
        max_supply: 1_000_000_000_000_000,
        total_supply: 5,
    };
    let event = purchase_tokens(&mut state, acct(2), 0).unwrap();
    assert_eq!(event.amount, 0);
    assert_eq!(event.cost, 0);
    assert_eq!(state.total_supply, 5);
}

#[test]
fn exact_fill_to_cap_succeeds() {
    let mut state = GameState {
        authority: acct(1),
        token_price: 1_000_000_000,
        max_supply: 1000,
        total_supply: 900,
    };
    let event = purchase_tokens(&mut state, acct(2), 100).unwrap();
    assert_eq!(event.amount, 100);
    assert_eq!(state.total_supply, 1000);
}

#[test]
fn won_wager_mints_double_stake() {
    // Seed 8 + identity byte 3 is odd, so the coin shows true and a
    // guess of true wins.
    let player = acct(3);
    let d = play_game(100, true, 8, &player);
    assert!(d.won);
    assert_eq!(d.settlement, Settlement::Mint { amount: 200 });
}

#[test]
fn lost_wager_burns_exact_stake() {
    // Seed 8 + identity byte 3 is odd, so a guess of false loses.
    let player = acct(3);
    let d = play_game(100, false, 8, &player);
    assert!(!d.won);
    assert_eq!(d.settlement, Settlement::Burn { amount: 100 });
}

#[test]
fn draw_depends_on_identity_byte() {
    // At the same clock reading, players whose identities start with
    // bytes of different parity see opposite coins.
    let d_odd = play_game(10, true, 8, &acct(3));
    let d_even = play_game(10, true, 8, &acct(4));
    assert!(d_odd.won);
    assert!(!d_even.won);
}

#[test]
fn coin_parity_survives_clock_wraparound() {
    // u64::MAX plus one identity byte wraps; the parity of the
    // mathematical sum (even) still decides the coin.
    let player = acct(1);
    let d = play_game(10, false, u64::MAX, &player);
    assert!(d.won);
    assert_eq!(d.settlement, Settlement::Mint { amount: 20 });
}

#[test]
fn first_play_of_unseen_player_succeeds() {
    let player = acct(3);
    let mut slot: Option<PlayerStats> = None;
    get_or_create_stats(&mut slot, player);
    let stats = slot.as_mut().unwrap();
    assert_eq!(stats.total_games, 0);
    assert_eq!(stats.total_wins, 0);
    let d = play_game(100, true, 8, &player);
    let event = settle_game(stats, d.won, 100, IssuanceOutcome::Done).unwrap();
    assert_eq!(stats.total_games, 1);
    assert_eq!(stats.total_wins, 1);
    assert_eq!(event.win_amount, 200);
    assert_eq!(event.bet_amount, 100);
    assert_eq!(event.player, player);
    assert!(event.won);
}

#[test]
fn existing_record_is_kept() {
    let player = acct(5);
    let existing = PlayerStats { player, total_wins: 2, total_games: 6, balance: 0 };
    let mut slot = Some(existing);
    get_or_create_stats(&mut slot, player);
    assert_eq!(slot.unwrap(), existing);
}

#[test]
fn lost_settlement_counts_game_but_no_win() {
    let player = acct(3);
    let mut stats = PlayerStats { player, total_wins: 2, total_games: 6, balance: 0 };
    let event = settle_game(&mut stats, false, 70, IssuanceOutcome::Done).unwrap();
    assert_eq!(stats.total_games, 7);
    assert_eq!(stats.total_wins, 2);
    assert!(!event.won);
    assert_eq!(event.bet_amount, 70);
    assert_eq!(event.win_amount, 0);
}

#[test]
fn refused_burn_leaves_statistics_unchanged() {
    let player = acct(3);
    let mut stats = PlayerStats { player, total_wins: 2, total_games: 6, balance: 0 };
    let r = settle_game(&mut stats, false, 70, IssuanceOutcome::InsufficientBalance);
    assert_eq!(r, Err(GameError::InsufficientBalance));
    assert_eq!(stats.total_games, 6);
    assert_eq!(stats.total_wins, 2);
}

#[test]
fn failed_issuance_leaves_statistics_unchanged() {
    let player = acct(3);
    let mut stats = PlayerStats { player, total_wins: 2, total_games: 6, balance: 0 };
    let r = settle_game(&mut stats, true, 70, IssuanceOutcome::Failed);
    assert_eq!(r, Err(GameError::IssuanceFailed));
    assert_eq!(stats.total_games, 6);
    assert_eq!(stats.total_wins, 2);
}
