use vstd::prelude::*;

use crate::cards::{move_cost, move_cost_for, CardCounts, CardUsage, PathDirection};
use crate::constants::{INITIAL_PATH_LENGTH, INITIAL_PRIZE_POOL, MAX_FEED_EVENTS, MAX_RANDOMNESS_VALUES};
use crate::errors::BlockrunnersError;
use crate::feed::{log_event, log_wf, save_and_emit_event, SocialFeedEvent, SocialFeedEventType};

verus! {

/// The ledger's clock as an action sees it.
#[derive(Clone, Copy, Debug, PartialEq, Eq, Structural)]
pub struct LedgerTime {
    /// The current slot.
    pub slot: u64,
    /// The current Unix time, in seconds.
    pub unix_timestamp: i64,
}

/// The shared game: one per deployment.
#[derive(Clone, Debug, PartialEq, Eq)]
pub struct GameState {
    /// Authority
    pub authority: [u8; 32],
    /// The current prize pool amount in lamports
    pub prize_pool: u64,
    /// The length of the path players need to navigate
    pub path_length: u8,
    /// Marker of the current round; it changes on every win
    pub start: i64,
    /// Global social feed, oldest first
    pub game_events: Vec<SocialFeedEvent>,
}

impl GameState {
    pub open spec fn wf(&self) -> bool {
        log_wf(self.game_events@)
    }

    /// Whether the game's feed is within its capacity.
    pub fn is_well_formed(&self) -> (r: bool)
        ensures
            r == self.wf(),
    {
        self.game_events.len() <= MAX_FEED_EVENTS
    }
}

/// One runner's state, kept across rounds.
#[derive(Clone, Debug, PartialEq, Eq)]
pub struct PlayerState {
    /// Number of ciphers owned
    pub ciphers: u64,
    /// Cards owned
    pub cards: CardCounts,
    /// Current position
    pub position: u8,
    /// Address bump of the account
    pub bump: u8,
    /// Social feed events history, oldest first
    pub player_events: Vec<SocialFeedEvent>,
    pub first_login: i64,
    pub last_login: i64,
    pub games_won: u64,
    pub total_ciphers_bought: u64,
    pub total_steps: u64,
    pub cards_collected: u64,
    pub shields_used: u64,
    pub best_position: u8,
    pub best_win_streak: u64,
    pub consecutive_wins: u64,
    pub total_resets: u64,
    pub system_breaches: u64,
    pub ghost_protocol: bool,
    pub data_hoarder: bool,
    pub consensus_breaker: bool,
    pub cipher_lord: bool,
    /// The round this player last joined
    pub game_start: Option<i64>,
    /// Oracle account the pending randomness comes from
    pub randomness_account: Option<[u8; 32]>,
    /// The slot at which the randomness was committed
    pub randomness_slot: Option<u64>,
    /// Revealed random bytes still to be consumed, head first
    pub randomness_value: Option<Vec<u8>>,
    /// Commitment to the move direction
    pub move_direction: Option<PathDirection>,
    /// Commitment to use cards
    pub move_cards: Option<CardUsage>,
}

impl PlayerState {
    /// The revealed random bytes still to be consumed, if any were revealed.
    pub open spec fn queue(&self) -> Option<Seq<u8>> {
        match self.randomness_value {
            Some(v) => Some(v@),
            None => None,
        }
    }

    /// Logs stay bounded, the queue stays within capacity, and direction and
    /// cards are committed together.
    pub open spec fn wf(&self) -> bool {
        &&& log_wf(self.player_events@)
        &&& (self.randomness_value matches Some(v) ==> v@.len() <= MAX_RANDOMNESS_VALUES)
        &&& self.move_direction.is_some() == self.move_cards.is_some()
    }

    /// Whether the feed and the queue are within capacity and the commitment whole.
    pub fn is_well_formed(&self) -> (r: bool)
        ensures
            r == self.wf(),
    {
        let queue_ok = match &self.randomness_value {
            Some(v) => v.len() <= MAX_RANDOMNESS_VALUES,
            None => true,
        };
        self.player_events.len() <= MAX_FEED_EVENTS && queue_ok && self.move_direction.is_some()
            == self.move_cards.is_some()
    }

    /// Whether this player is in the round that `game` is playing.
    pub open spec fn in_round(&self, game: &GameState) -> bool {
        self.game_start == Some(game.start)
    }

    /// This player with every commitment and randomness field cleared.
    pub open spec fn cleared(self) -> PlayerState {
        PlayerState {
            move_direction: None,
            move_cards: None,
            randomness_account: None,
            randomness_slot: None,
            randomness_value: None,
            ..self
        }
    }
}

/// The abstract contents of a `GameState`.
pub struct GameView {
    pub authority: [u8; 32],
    pub prize_pool: u64,
    pub path_length: u8,
    pub start: i64,
    pub game_events: Seq<SocialFeedEvent>,
}

impl View for GameState {
    type V = GameView;

    open spec fn view(&self) -> GameView {
        GameView {
            authority: self.authority,
            prize_pool: self.prize_pool,
            path_length: self.path_length,
            start: self.start,
            game_events: self.game_events@,
        }
    }
}

/// The abstract contents of a `PlayerState`.
pub struct PlayerView {
    pub ciphers: u64,
    pub cards: CardCounts,
    pub position: u8,
    pub bump: u8,
    pub player_events: Seq<SocialFeedEvent>,
    pub first_login: i64,
    pub last_login: i64,
    pub games_won: u64,
    pub total_ciphers_bought: u64,
    pub total_steps: u64,
    pub cards_collected: u64,
    pub shields_used: u64,
    pub best_position: u8,
    pub best_win_streak: u64,
    pub consecutive_wins: u64,
    pub total_resets: u64,
    pub system_breaches: u64,
    pub ghost_protocol: bool,
    pub data_hoarder: bool,
    pub consensus_breaker: bool,
    pub cipher_lord: bool,
    pub game_start: Option<i64>,
    pub randomness_account: Option<[u8; 32]>,
    pub randomness_slot: Option<u64>,
    pub randomness_value: Option<Seq<u8>>,
    pub move_direction: Option<PathDirection>,
    pub move_cards: Option<CardUsage>,
}

impl View for PlayerState {
    type V = PlayerView;

    open spec fn view(&self) -> PlayerView {
        PlayerView {
            ciphers: self.ciphers,
            cards: self.cards,
            position: self.position,
            bump: self.bump,
            player_events: self.player_events@,
            first_login: self.first_login,
            last_login: self.last_login,
            games_won: self.games_won,
            total_ciphers_bought: self.total_ciphers_bought,
            total_steps: self.total_steps,
            cards_collected: self.cards_collected,
            shields_used: self.shields_used,
            best_position: self.best_position,
            best_win_streak: self.best_win_streak,
            consecutive_wins: self.consecutive_wins,
            total_resets: self.total_resets,
            system_breaches: self.system_breaches,
            ghost_protocol: self.ghost_protocol,
            data_hoarder: self.data_hoarder,
            consensus_breaker: self.consensus_breaker,
            cipher_lord: self.cipher_lord,
            game_start: self.game_start,
            randomness_account: self.randomness_account,
            randomness_slot: self.randomness_slot,
            randomness_value: self.queue(),
            move_direction: self.move_direction,
            move_cards: self.move_cards,
        }
    }
}

impl PlayerView {
    /// This player with every commitment and randomness field cleared.
    pub open spec fn cleared(self) -> PlayerView {
        PlayerView {
            move_direction: None,
            move_cards: None,
            randomness_account: None,
            randomness_slot: None,
            randomness_value: None,
            ..self
        }
    }
}

/// A fresh game, started at `now`.
pub fn initialize_game(authority: [u8; 32], now: i64) -> (r: GameState)
    ensures
        r.authority == authority,
        r.prize_pool == INITIAL_PRIZE_POOL,
        r.path_length == INITIAL_PATH_LENGTH,
        r.start == now,
        r.game_events@ == Seq::<SocialFeedEvent>::empty(),
        r.wf(),
{
    GameState {
        authority,
        prize_pool: INITIAL_PRIZE_POOL,
        path_length: INITIAL_PATH_LENGTH,
        start: now,
        game_events: Vec::new(),
    }
}

/// A fresh player, created at `now`, in no round yet.
pub fn initialize_player(bump: u8, now: i64) -> (r: PlayerState)
    ensures
        r.ciphers == 0,
        r.cards == CardCounts::seed(),
        r.position == 0,
        r.bump == bump,
        r.player_events@ == Seq::<SocialFeedEvent>::empty(),
        r.first_login == now,
        r.last_login == now,
        r.games_won == 0,
        r.total_ciphers_bought == 0,
        r.total_steps == 0,
        r.cards_collected == 0,
        r.shields_used == 0,
        r.best_position == 0,
        r.best_win_streak == 0,
        r.consecutive_wins == 0,
        r.total_resets == 0,
        r.system_breaches == 0,
        !r.ghost_protocol && !r.data_hoarder && !r.consensus_breaker && !r.cipher_lord,
        r.game_start is None,
        r == r.cleared(),
        r.wf(),
{
    PlayerState {
        ciphers: 0,
        cards: CardCounts::new_seed(),
        position: 0,
        bump,
        player_events: Vec::new(),
        first_login: now,
        last_login: now,
        games_won: 0,
        total_ciphers_bought: 0,
        total_steps: 0,
        cards_collected: 0,
        shields_used: 0,
        best_position: 0,
        best_win_streak: 0,
        consecutive_wins: 0,
        total_resets: 0,
        system_breaches: 0,
        ghost_protocol: false,
        data_hoarder: false,
        consensus_breaker: false,
        cipher_lord: false,
        game_start: None,
        randomness_account: None,
        randomness_slot: None,
        randomness_value: None,
        move_direction: None,
        move_cards: None,
    }
}

/// Records `now` as the player's last activity.
pub fn update_last_login(player_state: &mut PlayerState, now: i64)
    ensures
        *final(player_state) == (PlayerState { last_login: now, ..*old(player_state) }),
{
    player_state.last_login = now;
}

/// Cipher cost of a move using `used_cards`, checked against the player's cards.
pub fn get_move_cost(player_state: &PlayerState, used_cards: &CardUsage) -> (r: Result<
    u64,
    BlockrunnersError,
>)
    ensures
        player_state.cards.covers(*used_cards) ==> r == Ok::<u64, BlockrunnersError>(
            move_cost(*used_cards) as u64,
        ),
        !player_state.cards.covers(*used_cards) ==> r == Err::<u64, BlockrunnersError>(
            BlockrunnersError::InsufficientCards,
        ),
{
    move_cost_for(&player_state.cards, used_cards)
}

/// Joins the player to the current round: position, ciphers and cards start over.
/// Fails with `PlayerAlreadyJoinedGame` when the player is already in it.
pub fn join_game(player_state: &mut PlayerState, game_state: &mut GameState, now: i64) -> (r: Result<
    (),
    BlockrunnersError,
>)
    requires
        old(game_state).wf(),
    ensures
        old(player_state).in_round(old(game_state)) <==> r is Err,
        r is Err ==> r == Err::<(), BlockrunnersError>(BlockrunnersError::PlayerAlreadyJoinedGame)
            && *final(player_state) == *old(player_state) && *final(game_state)
            == *old(game_state),
        r is Ok ==> *final(player_state) == (PlayerState {
            game_start: Some(old(game_state).start),
            cards: CardCounts::seed(),
            ciphers: 0,
            position: 0,
            ..*old(player_state)
        }),
        r is Ok ==> final(game_state).game_events@ == log_event(
            old(game_state).game_events@,
            SocialFeedEventType::PlayerJoined,
            0,
            now,
        ),
        r is Ok ==> (GameState { game_events: old(game_state).game_events, ..*final(game_state) })
            == *old(game_state),
        final(game_state).wf(),
{
    if player_state.game_start == Some(game_state.start) {
        return Err(BlockrunnersError::PlayerAlreadyJoinedGame);
    }
    save_and_emit_event(&mut game_state.game_events, SocialFeedEventType::PlayerJoined, 0, now);
    player_state.game_start = Some(game_state.start);
    player_state.cards = CardCounts::new_seed();
    player_state.ciphers = 0;
    player_state.position = 0;
    Ok(())
}

} // verus!
