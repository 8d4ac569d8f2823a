use blockrunners::cards::{move_cost_for, Card, CardCounts, CardUsage};
use blockrunners::constants::MAX_FEED_EVENTS;
use blockrunners::errors::BlockrunnersError;
use blockrunners::feed::{save_and_emit_event, SocialFeedEvent, SocialFeedEventType};
use blockrunners::progress::{
    check_and_award_achievements, check_milestones, give_random_cards, ACHIEVEMENT_CIPHER_LORD,
    ACHIEVEMENT_CONSENSUS_BREAKER, ACHIEVEMENT_DATA_HOARDER, ACHIEVEMENT_GHOST_PROTOCOL,
};
use blockrunners::purchase::{debug_give_card, purchase_ciphers, PurchaseSplit};
use blockrunners::randomness::{randomness_request, randomness_reveal, randomness_use, same_key};
use blockrunners::state::{get_move_cost, initialize_game, initialize_player, join_game, update_last_login};

fn usage(shield: bool, doubler: bool, swift: bool) -> CardUsage {
    CardUsage { shield, doubler, swift }
}

#[test]
fn move_cost_follows_the_formula() {
    let all = CardCounts { shield: 1, doubler: 1, swift: 1 };
    assert_eq!(move_cost_for(&all, &usage(false, false, false)), Ok(1));
    assert_eq!(move_cost_for(&all, &usage(false, false, true)), Ok(0));
    assert_eq!(move_cost_for(&all, &usage(true, true, true)), Ok(2));
    assert_eq!(move_cost_for(&all, &usage(true, false, false)), Ok(2));
    assert_eq!(move_cost_for(&all, &usage(true, true, false)), Ok(3));
    assert_eq!(move_cost_for(&all, &usage(false, true, true)), Ok(1));
    let none = CardCounts { shield: 0, doubler: 0, swift: 0 };
    assert_eq!(move_cost_for(&none, &usage(false, false, false)), Ok(1));
    assert_eq!(
        move_cost_for(&none, &usage(false, false, true)),
        Err(BlockrunnersError::InsufficientCards)
    );
    let player = initialize_player(0, 0);
    assert_eq!(get_move_cost(&player, &usage(true, true, true)), Ok(2));
}

#[test]
fn card_counts_saturate_at_both_ends() {
    let mut c = CardCounts { shield: 254, doubler: 0, swift: 1 };
    assert!(c.add_card(Card::Shield));
    assert_eq!(c.shield, 255);
    assert!(!c.add_card(Card::Shield));
    assert_eq!(c.shield, 255);
    assert!(!c.remove_card(Card::Doubler));
    assert_eq!(c.doubler, 0);
    assert!(c.remove_card(Card::Swift));
    assert_eq!(c.swift, 0);
    assert!(!c.has_card(Card::Swift));
    assert!(c.has_card(Card::Shield));
    assert_eq!(c.get_count(Card::Shield), 255);
    assert_eq!(c.total_cards(), 255);
    assert_eq!(CardCounts::default(), CardCounts { shield: 1, doubler: 1, swift: 1 });
}

#[test]
fn debug_card_grant_stops_at_the_cap() {
    let mut player = initialize_player(0, 0);
    assert_eq!(debug_give_card(&mut player, Card::Doubler), Ok(()));
    assert_eq!(player.cards.doubler, 2);
    player.cards.swift = 255;
    assert_eq!(debug_give_card(&mut player, Card::Swift), Err(BlockrunnersError::ExceedsMaxCards));
    assert_eq!(player.cards.swift, 255);
}

#[test]
fn event_log_drops_the_oldest_when_full() {
    let mut log: Vec<SocialFeedEvent> = Vec::new();
    for i in 0..(MAX_FEED_EVENTS as u64 + 1) {
        save_and_emit_event(&mut log, SocialFeedEventType::PlayerMoved, i, 10);
    }
    assert_eq!(log.len(), MAX_FEED_EVENTS);
    assert_eq!(log[0].value, 1);
    assert_eq!(log[MAX_FEED_EVENTS - 1].value, MAX_FEED_EVENTS as u64);
    assert_eq!(log[0].timestamp, 10);
}

#[test]
fn randomness_is_consumed_first_in_first_out() {
    let mut player = initialize_player(0, 0);
    assert_eq!(randomness_use(&mut player), Err(BlockrunnersError::RandomnessUnavailable));
    player.randomness_value = Some(vec![5, 6, 7]);
    assert_eq!(randomness_use(&mut player), Ok(5));
    assert_eq!(randomness_use(&mut player), Ok(6));
    assert_eq!(player.randomness_value, Some(vec![7]));
    assert_eq!(randomness_use(&mut player), Ok(7));
    assert_eq!(randomness_use(&mut player), Err(BlockrunnersError::RandomnessFinished));
    assert_eq!(player.randomness_value, Some(vec![]));
}

fn oracle_data(seed_slot: u64, reveal_slot: u64, value: [u8; 32]) -> Vec<u8> {
    let mut data = vec![0u8; 408];
    data[..8].copy_from_slice(&[10, 66, 229, 135, 220, 239, 217, 114]);
    data[104..112].copy_from_slice(&seed_slot.to_le_bytes());
    data[144..152].copy_from_slice(&reveal_slot.to_le_bytes());
    data[152..184].copy_from_slice(&value);
    data
}

#[test]
fn request_and_reveal_read_the_oracle_account() {
    let mut player = initialize_player(0, 0);
    player.randomness_value = Some(vec![1]);
    let key = [3u8; 32];
    let mut value = [0u8; 32];
    for (i, b) in value.iter_mut().enumerate() {
        *b = i as u8 + 40;
    }
    let data = oracle_data(77_777, 77_780, value);
    assert_eq!(randomness_request(&mut player, &key, &data, 77_778), Ok(()));
    assert_eq!(player.randomness_slot, Some(77_777));
    assert_eq!(player.randomness_account, Some(key));
    assert_eq!(player.randomness_value, None);
    assert_eq!(randomness_request(&mut player, &key, &data, 77_779), Err(BlockrunnersError::RandomnessStale));
    let mut wrong = data.clone();
    wrong[0] = 11;
    assert_eq!(
        randomness_request(&mut player, &key, &wrong, 77_778),
        Err(BlockrunnersError::RandomnessAccountParsing)
    );
    assert_eq!(randomness_reveal(&mut player, &key, &data, 77_779), Err(BlockrunnersError::RandomnessNotResolved));
    assert_eq!(randomness_reveal(&mut player, &key, &data, 77_780), Ok(()));
    assert_eq!(player.randomness_value, Some(value.to_vec()));
    assert_eq!(randomness_use(&mut player), Ok(40));
    assert_eq!(randomness_use(&mut player), Ok(41));
    assert_eq!(player.randomness_value.as_ref().map(|v| v.len()), Some(30));
}

#[test]
fn keys_compare_bytewise() {
    assert!(same_key(&[4u8; 32], &[4u8; 32]));
    let mut other = [4u8; 32];
    other[31] = 5;
    assert!(!same_key(&[4u8; 32], &other));
}

#[test]
fn random_cards_report_rejections_at_the_cap() {
    let mut player = initialize_player(0, 0);
    player.cards.swift = 255;
    player.randomness_value = Some(vec![2, 0, 9]);
    assert_eq!(give_random_cards(&mut player, 2, 5), Ok(()));
    assert_eq!(player.cards, CardCounts { shield: 2, doubler: 1, swift: 255 });
    assert_eq!(player.randomness_value, Some(vec![9]));
    let n = player.player_events.len();
    assert_eq!(player.player_events[n - 2].event_type, SocialFeedEventType::PlayerCardCollected);
    assert_eq!(player.player_events[n - 2].value, 1);
    assert_eq!(player.player_events[n - 1].event_type, SocialFeedEventType::PlayerCardsMaxRange);
    assert_eq!(player.player_events[n - 1].value, 1);
    let before = player.clone();
    assert_eq!(give_random_cards(&mut player, 2, 5), Err(BlockrunnersError::RandomnessFinished));
    assert_eq!(player, before);
    assert_eq!(give_random_cards(&mut player, 0, 5), Ok(()));
    assert_eq!(player, before);
}

#[test]
fn milestones_fire_inside_their_bands() {
    let mut game = initialize_game([0u8; 32], 0);
    let mut player = initialize_player(0, 0);
    player.position = 5;
    check_milestones(&player, &mut game, 3);
    assert_eq!(game.game_events.len(), 1);
    assert_eq!(game.game_events[0].event_type, SocialFeedEventType::MilestoneReached);
    assert_eq!(game.game_events[0].value, 25);
    player.position = 18;
    check_milestones(&player, &mut game, 3);
    assert_eq!(game.game_events[1].value, 90);
    player.position = 6;
    check_milestones(&player, &mut game, 3);
    player.position = 12;
    check_milestones(&player, &mut game, 3);
    assert_eq!(game.game_events.len(), 2);
    player.position = 5;
    game.path_length = 0;
    check_milestones(&player, &mut game, 3);
    assert_eq!(game.game_events.len(), 2);
}

#[test]
fn achievements_are_awarded_once() {
    let game = initialize_game([0u8; 32], 0);
    let mut player = initialize_player(0, 0);
    player.games_won = 1;
    player.cards_collected = 100;
    player.best_position = 18;
    player.total_ciphers_bought = 1_000;
    player.position = 10;
    check_and_award_achievements(&mut player, &game, 8);
    assert!(player.ghost_protocol && player.data_hoarder && player.consensus_breaker && player.cipher_lord);
    assert_eq!(player.system_breaches, 1);
    let values: Vec<(SocialFeedEventType, u64)> =
        player.player_events.iter().map(|e| (e.event_type, e.value)).collect();
    assert_eq!(
        values,
        vec![
            (SocialFeedEventType::SystemIntrusion, 50),
            (SocialFeedEventType::ProtocolFragment, ACHIEVEMENT_GHOST_PROTOCOL),
            (SocialFeedEventType::ProtocolFragment, ACHIEVEMENT_DATA_HOARDER),
            (SocialFeedEventType::ProtocolFragment, ACHIEVEMENT_CONSENSUS_BREAKER),
            (SocialFeedEventType::ProtocolFragment, ACHIEVEMENT_CIPHER_LORD),
        ]
    );
    player.position = 9;
    check_and_award_achievements(&mut player, &game, 8);
    assert_eq!(player.player_events.len(), 5);
    assert_eq!(player.system_breaches, 1);
}

#[test]
fn consensus_breaker_needs_ninety_percent() {
    let mut game = initialize_game([0u8; 32], 0);
    game.path_length = 25;
    let mut player = initialize_player(0, 0);
    player.best_position = 22;
    check_and_award_achievements(&mut player, &game, 0);
    assert!(!player.consensus_breaker);
    player.best_position = 23;
    check_and_award_achievements(&mut player, &game, 0);
    assert!(player.consensus_breaker);
}

#[test]
fn purchase_splits_cost_between_pool_and_admin() {
    let mut game = initialize_game([0u8; 32], 0);
    let mut player = initialize_player(0, 0);
    join_game(&mut player, &mut game, 0).unwrap();
    let split = purchase_ciphers(&mut player, &mut game, 3, 10_000, 50).unwrap();
    assert_eq!(split, PurchaseSplit { prize_pool_amount: 2_640, admin_amount: 360 });
    assert_eq!(player.ciphers, 3);
    assert_eq!(player.total_ciphers_bought, 3);
    assert_eq!(player.last_login, 50);
    assert_eq!(game.prize_pool, 2_640);
    assert_eq!(game.game_events.len(), 1);
    purchase_ciphers(&mut player, &mut game, 1, 10_000, 51).unwrap();
    assert_eq!(game.prize_pool, 3_520);
    let surge = game.game_events.last().unwrap();
    assert_eq!(surge.event_type, SocialFeedEventType::PrizePoolChange);
    assert_eq!(surge.value, 33);
    let last = player.player_events.last().unwrap();
    assert_eq!(last.event_type, SocialFeedEventType::CiphersPurchased);
    assert_eq!(last.value, 1);
}

#[test]
fn purchase_errors() {
    let mut game = initialize_game([0u8; 32], 0);
    let mut player = initialize_player(0, 0);
    let before = (player.clone(), game.clone());
    assert_eq!(
        purchase_ciphers(&mut player, &mut game, 0, 10_000, 1),
        Err(BlockrunnersError::NegativeCiphersAmount)
    );
    assert_eq!(
        purchase_ciphers(&mut player, &mut game, 11, 10_999, 1),
        Err(BlockrunnersError::InsufficientBalance)
    );
    assert_eq!(
        purchase_ciphers(&mut player, &mut game, u64::MAX / 100, u64::MAX, 1),
        Err(BlockrunnersError::ArithmeticOverflow)
    );
    assert_eq!((player.clone(), game.clone()), before);
    player.ciphers = u64::MAX;
    assert_eq!(
        purchase_ciphers(&mut player, &mut game, 1, 10_000, 1),
        Err(BlockrunnersError::ArithmeticOverflow)
    );
}

#[test]
fn cipher_lord_after_a_thousand_ciphers() {
    let mut game = initialize_game([0u8; 32], 0);
    let mut player = initialize_player(0, 0);
    purchase_ciphers(&mut player, &mut game, 1_000, 1_000_000, 1).unwrap();
    assert!(player.cipher_lord);
    let last = player.player_events.last().unwrap();
    assert_eq!(last.event_type, SocialFeedEventType::ProtocolFragment);
    assert_eq!(last.value, ACHIEVEMENT_CIPHER_LORD);
}

#[test]
fn joining_twice_is_refused() {
    let mut game = initialize_game([0u8; 32], 42);
    let mut player = initialize_player(0, 0);
    player.ciphers = 9;
    player.position = 4;
    assert_eq!(join_game(&mut player, &mut game, 43), Ok(()));
    assert_eq!(player.game_start, Some(42));
    assert_eq!(player.ciphers, 0);
    assert_eq!(player.position, 0);
    assert_eq!(game.game_events[0].event_type, SocialFeedEventType::PlayerJoined);
    let before = (player.clone(), game.clone());
    assert_eq!(join_game(&mut player, &mut game, 44), Err(BlockrunnersError::PlayerAlreadyJoinedGame));
    assert_eq!((player, game), before);
}

#[test]
fn fresh_records_start_empty() {
    let game = initialize_game([5u8; 32], 77);
    assert_eq!(game.prize_pool, 0);
    assert_eq!(game.path_length, 20);
    assert_eq!(game.start, 77);
    let mut player = initialize_player(9, 66);
    assert_eq!(player.bump, 9);
    assert_eq!(player.first_login, 66);
    assert_eq!(player.cards, CardCounts { shield: 1, doubler: 1, swift: 1 });
    update_last_login(&mut player, 70);
    assert_eq!(player.last_login, 70);
    assert_eq!(player.first_login, 66);
    assert_eq!(BlockrunnersError::Unauthorized.message(), "Unauthorized");
}

#[test]
fn well_formed_account_parses_from_any_offset() {
    let data = oracle_data(500, 503, [9u8; 32]);
    for shift in 0..8usize {
        let mut shifted = vec![0u8; shift];
        shifted.extend_from_slice(&data);
        let mut player = initialize_player(0, 0);
        let key = [1u8; 32];
        assert_eq!(randomness_request(&mut player, &key, &shifted[shift..], 501), Ok(()));
        assert_eq!(player.randomness_slot, Some(500));
        assert_eq!(randomness_reveal(&mut player, &key, &shifted[shift..], 503), Ok(()));
        assert_eq!(player.randomness_value, Some(vec![9u8; 32]));
    }
}
