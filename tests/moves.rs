use blockrunners::cards::{CardCounts, CardUsage, PathDirection};
use blockrunners::errors::BlockrunnersError;
use blockrunners::feed::SocialFeedEventType;
use blockrunners::moves::{move_commit, move_reveal, RevealOutcome};
use blockrunners::state::{initialize_game, initialize_player, join_game, GameState, LedgerTime, PlayerState};

const ORACLE: [u8; 32] = [7u8; 32];
const DISCRIMINATOR: [u8; 8] = [10, 66, 229, 135, 220, 239, 217, 114];

fn oracle_data(seed_slot: u64, reveal_slot: u64, value: [u8; 32]) -> Vec<u8> {
    let mut data = vec![0u8; 408];
    data[..8].copy_from_slice(&DISCRIMINATOR);
    data[104..112].copy_from_slice(&seed_slot.to_le_bytes());
    data[144..152].copy_from_slice(&reveal_slot.to_le_bytes());
    data[152..184].copy_from_slice(&value);
    data
}

fn bytes(first: &[u8]) -> [u8; 32] {
    let mut v = [0u8; 32];
    v[..first.len()].copy_from_slice(first);
    v
}

fn setup(position: u8, ciphers: u64) -> (PlayerState, GameState) {
    let mut game = initialize_game([1u8; 32], 1_000);
    let mut player = initialize_player(254, 900);
    join_game(&mut player, &mut game, 1_000).unwrap();
    player.position = position;
    player.ciphers = ciphers;
    (player, game)
}

fn at(slot: u64, unix_timestamp: i64) -> LedgerTime {
    LedgerTime { slot, unix_timestamp }
}

fn usage(shield: bool, doubler: bool, swift: bool) -> CardUsage {
    CardUsage { shield, doubler, swift }
}

fn commit(player: &mut PlayerState, game: &GameState, u: CardUsage) -> Result<(), BlockrunnersError> {
    let data = oracle_data(100, 0, [0u8; 32]);
    move_commit(player, game, PathDirection::Left, u, &ORACLE, &data, at(101, 1_100))
}

fn resolve(
    player: &mut PlayerState,
    game: &mut GameState,
    value: [u8; 32],
) -> Result<RevealOutcome, BlockrunnersError> {
    let data = oracle_data(100, 105, value);
    move_reveal(player, game, &ORACLE, &data, at(105, 2_000), 1_000_000, 50)
}

#[test]
fn swift_step_to_the_end_wins_the_pool() {
    let (mut player, mut game) = setup(19, 0);
    game.prize_pool = 5_000;
    assert_eq!(game.path_length, 20);
    commit(&mut player, &game, usage(false, false, true)).unwrap();
    assert_eq!(player.ciphers, 0);
    let outcome = resolve(&mut player, &mut game, bytes(&[10, 0])).unwrap();
    assert_eq!(outcome, RevealOutcome { success: true, won: true, prize: 5_000 });
    assert_eq!(player.position, 20);
    assert_eq!(player.games_won, 1);
    assert_eq!(player.consecutive_wins, 1);
    assert_eq!(game.prize_pool, 0);
    assert_ne!(game.start, 1_000);
    assert_eq!(game.start, 2_000);
    assert_eq!(player.cards.swift, 0);
    assert!(player.move_direction.is_none());
    assert!(player.move_cards.is_none());
    assert!(player.randomness_account.is_none());
    assert!(player.randomness_slot.is_none());
    assert!(player.randomness_value.is_none());
    let won_events = game
        .game_events
        .iter()
        .filter(|e| e.event_type == SocialFeedEventType::GameWon)
        .count();
    assert_eq!(won_events, 2);
}

#[test]
fn failed_step_without_shield_resets_the_run() {
    let (mut player, mut game) = setup(5, 10);
    player.cards = CardCounts { shield: 3, doubler: 2, swift: 4 };
    player.consecutive_wins = 2;
    commit(&mut player, &game, usage(false, false, false)).unwrap();
    let outcome = resolve(&mut player, &mut game, bytes(&[80])).unwrap();
    assert_eq!(outcome, RevealOutcome { success: false, won: false, prize: 0 });
    assert_eq!(player.position, 0);
    assert_eq!(player.cards, CardCounts { shield: 1, doubler: 1, swift: 1 });
    assert_eq!(player.consecutive_wins, 0);
    assert_eq!(player.total_resets, 1);
    assert_eq!(player.ciphers, 9);
    let last = player.player_events.last().unwrap();
    assert_eq!(last.event_type, SocialFeedEventType::ResetAlert);
    assert_eq!(last.value, 5);
}

#[test]
fn shield_commit_without_shields_is_refused() {
    let (mut player, game) = setup(3, 10);
    player.cards = CardCounts { shield: 0, doubler: 1, swift: 1 };
    let before = player.clone();
    let r = commit(&mut player, &game, usage(true, false, false));
    assert_eq!(r, Err(BlockrunnersError::InsufficientCards));
    assert_eq!(player, before);
}

#[test]
fn reveal_without_commit_is_refused() {
    let (mut player, mut game) = setup(3, 10);
    let before = player.clone();
    let r = resolve(&mut player, &mut game, bytes(&[10]));
    assert_eq!(r, Err(BlockrunnersError::MoveNotCommitted));
    assert_eq!(player, before);
}

#[test]
fn another_players_win_shuts_out_the_old_round() {
    let (mut winner, mut game) = setup(19, 0);
    let mut other = initialize_player(1, 900);
    join_game(&mut other, &mut game, 1_000).unwrap();
    other.ciphers = 10;
    commit(&mut other, &game, usage(false, false, false)).unwrap();
    commit(&mut winner, &game, usage(false, false, true)).unwrap();
    let outcome = resolve(&mut winner, &mut game, bytes(&[0])).unwrap();
    assert!(outcome.won);
    let before = other.clone();
    let r = resolve(&mut other, &mut game, bytes(&[0]));
    assert_eq!(r, Err(BlockrunnersError::PlayingInDifferentGame));
    assert_eq!(other, before);
    let r = commit(&mut other, &game, usage(false, false, false));
    assert_eq!(r, Err(BlockrunnersError::PlayingInDifferentGame));
    join_game(&mut other, &mut game, 2_100).unwrap();
    assert_eq!(other.game_start, Some(game.start));
}

#[test]
fn step_short_of_the_end_does_not_win() {
    let (mut player, mut game) = setup(18, 5);
    game.prize_pool = 700;
    commit(&mut player, &game, usage(false, false, false)).unwrap();
    let outcome = resolve(&mut player, &mut game, bytes(&[74, 1])).unwrap();
    assert_eq!(outcome, RevealOutcome { success: true, won: false, prize: 0 });
    assert_eq!(player.position, 19);
    assert_eq!(game.prize_pool, 700);
    assert_eq!(game.start, 1_000);
    assert_eq!(player.ciphers, 4);
}

#[test]
fn successful_step_draws_a_card_chosen_by_the_next_byte() {
    let (mut player, mut game) = setup(2, 5);
    commit(&mut player, &game, usage(false, false, false)).unwrap();
    resolve(&mut player, &mut game, bytes(&[3, 4])).unwrap();
    assert_eq!(player.position, 3);
    assert_eq!(player.best_position, 3);
    assert_eq!(player.total_steps, 1);
    assert_eq!(player.cards, CardCounts { shield: 1, doubler: 2, swift: 1 });
    assert_eq!(player.cards_collected, 1);
}

#[test]
fn doubler_draws_two_cards() {
    let (mut player, mut game) = setup(2, 5);
    commit(&mut player, &game, usage(false, true, false)).unwrap();
    resolve(&mut player, &mut game, bytes(&[3, 2, 5])).unwrap();
    assert_eq!(player.cards, CardCounts { shield: 1, doubler: 0, swift: 3 });
    assert_eq!(player.cards_collected, 2);
    assert_eq!(player.ciphers, 3);
}

#[test]
fn failed_step_with_shield_holds_position() {
    let (mut player, mut game) = setup(6, 5);
    player.consecutive_wins = 3;
    commit(&mut player, &game, usage(true, false, false)).unwrap();
    let outcome = resolve(&mut player, &mut game, bytes(&[99])).unwrap();
    assert!(!outcome.success);
    assert_eq!(player.position, 6);
    assert_eq!(player.shields_used, 1);
    assert_eq!(player.cards.shield, 0);
    assert_eq!(player.consecutive_wins, 3);
    assert_eq!(player.total_resets, 0);
    assert_eq!(player.ciphers, 3);
}

#[test]
fn commit_checks_round_path_and_balance() {
    let (mut player, game) = setup(20, 5);
    assert_eq!(
        commit(&mut player, &game, usage(false, false, false)),
        Err(BlockrunnersError::PathAlreadyCompleted)
    );
    let (mut player, game) = setup(0, 0);
    assert_eq!(
        commit(&mut player, &game, usage(false, false, false)),
        Err(BlockrunnersError::InsufficientBalance)
    );
    let mut fresh = initialize_player(0, 0);
    fresh.ciphers = 5;
    assert_eq!(
        commit(&mut fresh, &game, usage(false, false, false)),
        Err(BlockrunnersError::PlayingInDifferentGame)
    );
}

#[test]
fn commit_needs_a_fresh_parsable_oracle_account() {
    let (mut player, game) = setup(0, 5);
    let stale = oracle_data(99, 0, [0u8; 32]);
    let before = player.clone();
    let r = move_commit(&mut player, &game, PathDirection::Right, usage(false, false, false), &ORACLE, &stale, at(101, 0));
    assert_eq!(r, Err(BlockrunnersError::RandomnessStale));
    let short = vec![0u8; 40];
    let r = move_commit(&mut player, &game, PathDirection::Right, usage(false, false, false), &ORACLE, &short, at(101, 0));
    assert_eq!(r, Err(BlockrunnersError::RandomnessAccountParsing));
    assert_eq!(player, before);
    let fresh = oracle_data(100, 0, [0u8; 32]);
    move_commit(&mut player, &game, PathDirection::Right, usage(false, false, false), &ORACLE, &fresh, at(101, 1_234)).unwrap();
    assert_eq!(player.randomness_slot, Some(100));
    assert_eq!(player.randomness_account, Some(ORACLE));
    assert_eq!(player.move_direction, Some(PathDirection::Right));
    assert_eq!(player.last_login, 1_234);
    assert_eq!(player.ciphers, 5);
}

#[test]
fn reveal_checks_the_oracle_account() {
    let (mut player, mut game) = setup(0, 5);
    commit(&mut player, &game, usage(false, false, false)).unwrap();
    let before = player.clone();
    let data = oracle_data(100, 105, [0u8; 32]);
    let r = move_reveal(&mut player, &mut game, &[9u8; 32], &data, at(105, 0), 0, 0);
    assert_eq!(r, Err(BlockrunnersError::Unauthorized));
    let r = move_reveal(&mut player, &mut game, &ORACLE, &[0u8; 10], at(105, 0), 0, 0);
    assert_eq!(r, Err(BlockrunnersError::RandomnessAccountParsingReveal));
    let moved = oracle_data(101, 105, [0u8; 32]);
    let r = move_reveal(&mut player, &mut game, &ORACLE, &moved, at(105, 0), 0, 0);
    assert_eq!(r, Err(BlockrunnersError::RandomnessExpired));
    let r = move_reveal(&mut player, &mut game, &ORACLE, &data, at(106, 0), 0, 0);
    assert_eq!(r, Err(BlockrunnersError::RandomnessNotResolved));
    assert_eq!(player, before);
}

#[test]
fn win_needs_the_pool_to_be_backed() {
    let (mut player, mut game) = setup(19, 0);
    game.prize_pool = 5_000;
    commit(&mut player, &game, usage(false, false, true)).unwrap();
    let before = (player.clone(), game.clone());
    let data = oracle_data(100, 105, bytes(&[10]));
    let r = move_reveal(&mut player, &mut game, &ORACLE, &data, at(105, 2_000), 4_999, 0);
    assert_eq!(r, Err(BlockrunnersError::InsufficientBalance));
    let r = move_reveal(&mut player, &mut game, &ORACLE, &data, at(105, 2_000), 5_000, u64::MAX - 10);
    assert_eq!(r, Err(BlockrunnersError::ArithmeticOverflow));
    assert_eq!((player, game), before);
}

#[test]
fn win_in_the_same_second_still_starts_a_new_round() {
    let (mut player, mut game) = setup(19, 0);
    commit(&mut player, &game, usage(false, false, true)).unwrap();
    let data = oracle_data(100, 105, bytes(&[10]));
    let outcome = move_reveal(&mut player, &mut game, &ORACLE, &data, at(105, 1_000), 0, 0).unwrap();
    assert_eq!(outcome, RevealOutcome { success: true, won: true, prize: 0 });
    assert_eq!(game.start, 1_001);
}
