use vstd::prelude::*;

use crate::cards::{card_for_byte, Card, CardCounts, CardUsage};
use crate::errors::BlockrunnersError;
use crate::feed::{log_event, save_and_emit_event, SocialFeedEventType};
use crate::randomness::randomness_use;
use crate::state::{GameState, GameView, PlayerState, PlayerView};

verus! {

/// Event value of the Ghost Protocol achievement: a win with no shield ever used.
pub const ACHIEVEMENT_GHOST_PROTOCOL: u64 = 1;

/// Event value of the Data Hoarder achievement: a hundred cards collected.
pub const ACHIEVEMENT_DATA_HOARDER: u64 = 2;

/// Event value of the Consensus Breaker achievement: ninety percent of the path reached.
pub const ACHIEVEMENT_CONSENSUS_BREAKER: u64 = 3;

/// Event value of the Cipher Lord achievement: a thousand ciphers bought.
pub const ACHIEVEMENT_CIPHER_LORD: u64 = 4;

/// `x + 1`, saturating at `u64::MAX`.
pub open spec fn sat_inc(x: u64) -> u64 {
    if x < u64::MAX {
        (x + 1) as u64
    } else {
        x
    }
}

/// `x + y`, saturating at `u64::MAX`.
pub open spec fn sat_add(x: u64, y: u64) -> u64 {
    if x + y <= u64::MAX {
        (x + y) as u64
    } else {
        u64::MAX
    }
}

/// Counts after one card per byte of `bytes` is drawn, in order.
pub open spec fn cards_after_draws(c: CardCounts, bytes: Seq<u8>) -> CardCounts
    decreases bytes.len(),
{
    if bytes.len() == 0 {
        c
    } else {
        cards_after_draws(c, bytes.drop_last()).added(card_for_byte(bytes.last()))
    }
}

/// How many of the draws for `bytes` found their card kind already at the cap.
pub open spec fn rejected_draws(c: CardCounts, bytes: Seq<u8>) -> nat
    decreases bytes.len(),
{
    if bytes.len() == 0 {
        0
    } else {
        let before = cards_after_draws(c, bytes.drop_last());
        rejected_draws(c, bytes.drop_last()) + if before.count(card_for_byte(bytes.last()))
            < u8::MAX {
            0nat
        } else {
            1nat
        }
    }
}

/// Why drawing `count` cards fails.
pub open spec fn draws_error(v: PlayerView, count: nat) -> Option<BlockrunnersError> {
    if count == 0 {
        None
    } else {
        match v.randomness_value {
            None => Some(BlockrunnersError::RandomnessUnavailable),
            Some(q) => if q.len() < count {
                Some(BlockrunnersError::RandomnessFinished)
            } else {
                None
            },
        }
    }
}

/// The player after `count` cards are drawn from the head of the randomness
/// queue; a draw whose kind is at the cap is rejected, and both outcomes are
/// reported in the player's feed.
pub open spec fn after_draws(v: PlayerView, count: nat, now: i64) -> PlayerView {
    if count == 0 {
        v
    } else {
        let q = v.randomness_value->0;
        let bytes = q.subrange(0, count as int);
        let rejected = rejected_draws(v.cards, bytes);
        let given = count - rejected;
        let e1 = if given > 0 {
            log_event(v.player_events, SocialFeedEventType::PlayerCardCollected, given as u64, now)
        } else {
            v.player_events
        };
        let e2 = if rejected > 0 {
            log_event(e1, SocialFeedEventType::PlayerCardsMaxRange, rejected as u64, now)
        } else {
            e1
        };
        PlayerView {
            cards: cards_after_draws(v.cards, bytes),
            randomness_value: Some(q.subrange(count as int, q.len() as int)),
            player_events: e2,
            ..v
        }
    }
}

/// Draws `card_count` cards, one random byte each, the byte modulo the number
/// of kinds choosing the kind. On failure nothing changes.
pub fn give_random_cards(player_state: &mut PlayerState, card_count: u8, now: i64) -> (r: Result<
    (),
    BlockrunnersError,
>)
    requires
        old(player_state).wf(),
    ensures
        draws_error(old(player_state)@, card_count as nat) matches Some(e) ==> r == Err::<
            (),
            BlockrunnersError,
        >(e) && *final(player_state) == *old(player_state),
        draws_error(old(player_state)@, card_count as nat) is None ==> r is Ok
            && final(player_state)@ == after_draws(old(player_state)@, card_count as nat, now),
        final(player_state).wf(),
{
    if card_count == 0 {
        return Ok(());
    }
    let available: usize = match &player_state.randomness_value {
        None => {
            return Err(BlockrunnersError::RandomnessUnavailable);
        },
        Some(values) => values.len(),
    };
    if available < card_count as usize {
        return Err(BlockrunnersError::RandomnessFinished);
    }
    let ghost v0 = player_state@;
    let ghost q = v0.randomness_value->0;
    let mut given: u8 = 0;
    let mut rejected: u8 = 0;
    let mut i: u8 = 0;
    proof {
        assert(q.subrange(0, 0).len() == 0);
        assert(q.subrange(0, q.len() as int) =~= q);
    }
    while i < card_count
        invariant
            0 <= i <= card_count,
            q.len() >= card_count,
            v0.randomness_value == Some(q),
            player_state.wf(),
            rejected as nat == rejected_draws(v0.cards, q.subrange(0, i as int)),
            given as nat + rejected as nat == i as nat,
            player_state@ == (PlayerView {
                cards: cards_after_draws(v0.cards, q.subrange(0, i as int)),
                randomness_value: Some(q.subrange(i as int, q.len() as int)),
                ..v0
            }),
        decreases card_count - i,
    {
        proof {
            let next = q.subrange(0, i + 1);
            assert(next.drop_last() =~= q.subrange(0, i as int));
            assert(next.last() == q[i as int]);
            assert(q.subrange(i as int, q.len() as int)[0] == q[i as int]);
            assert(q.subrange(i as int, q.len() as int).drop_first() =~= q.subrange(
                i + 1,
                q.len() as int,
            ));
        }
        let byte = match randomness_use(player_state) {
            Ok(b) => b,
            Err(_) => {
                return Err(BlockrunnersError::RandomnessFinished);
            },
        };
        let card = Card::from_random_byte(byte);
        if player_state.cards.add_card(card) {
            given = given + 1;
        } else {
            rejected = rejected + 1;
        }
        i = i + 1;
    }
    assert(q.subrange(0, card_count as int) =~= q.subrange(0, i as int));
    if given > 0 {
        save_and_emit_event(
            &mut player_state.player_events,
            SocialFeedEventType::PlayerCardCollected,
            given as u64,
            now,
        );
    }
    if rejected > 0 {
        save_and_emit_event(
            &mut player_state.player_events,
            SocialFeedEventType::PlayerCardsMaxRange,
            rejected as u64,
            now,
        );
    }
    Ok(())
}

/// Progress along the path in whole percent, rounded down; zero on an empty path.
pub open spec fn progress_percent(position: u8, path_length: u8) -> int {
    if path_length == 0 {
        0
    } else {
        (100 * position as int) / path_length as int
    }
}

/// The milestone band (25, 50, 75 or 90 percent, each five points wide) that
/// `position` falls in, if any.
pub open spec fn milestone_reached(position: u8, path_length: u8) -> Option<u64> {
    let pct = progress_percent(position, path_length);
    if 25 <= pct < 30 {
        Some(25)
    } else if 50 <= pct < 55 {
        Some(50)
    } else if 75 <= pct < 80 {
        Some(75)
    } else if 90 <= pct < 95 {
        Some(90)
    } else {
        None
    }
}

/// The game after a runner at `position` is checked for milestones.
pub open spec fn after_milestones(g: GameView, position: u8, now: i64) -> GameView {
    match milestone_reached(position, g.path_length) {
        Some(m) => GameView {
            game_events: log_event(g.game_events, SocialFeedEventType::MilestoneReached, m, now),
            ..g
        },
        None => g,
    }
}

/// Progress in whole percent, computed without overflow.
fn percent_of(position: u8, path_length: u8) -> (r: u64)
    ensures
        r == progress_percent(position, path_length),
{
    if path_length == 0 {
        0
    } else {
        (100 * position as u64) / path_length as u64
    }
}

/// Announces in the global feed a milestone band the player's position falls in.
pub fn check_milestones(player_state: &PlayerState, game_state: &mut GameState, now: i64)
    requires
        old(game_state).wf(),
    ensures
        final(game_state)@ == after_milestones(old(game_state)@, player_state.position, now),
        final(game_state).wf(),
{
    let pct = percent_of(player_state.position, game_state.path_length);
    let milestone: u64 = if 25 <= pct && pct < 30 {
        25
    } else if 50 <= pct && pct < 55 {
        50
    } else if 75 <= pct && pct < 80 {
        75
    } else if 90 <= pct && pct < 95 {
        90
    } else {
        0
    };
    if milestone > 0 {
        save_and_emit_event(
            &mut game_state.game_events,
            SocialFeedEventType::MilestoneReached,
            milestone,
            now,
        );
    }
    assert(final(game_state)@ =~= after_milestones(old(game_state)@, player_state.position, now));
}

/// The player after achievements are checked on a path of `path_length`: each
/// achievement is flagged once, and a position at or beyond half the path counts
/// one more system breach. The breach is reported first, then the achievements.
pub open spec fn after_achievements(v: PlayerView, path_length: u8, now: i64) -> PlayerView {
    let ghost_new = !v.ghost_protocol && v.games_won > 0 && v.shields_used == 0;
    let hoarder_new = !v.data_hoarder && v.cards_collected >= 100;
    let breaker_new = !v.consensus_breaker && 10 * v.best_position >= 9 * path_length;
    let lord_new = !v.cipher_lord && v.total_ciphers_bought >= 1000;
    let breach = 2 * v.position >= path_length;
    let e1 = if breach {
        log_event(
            v.player_events,
            SocialFeedEventType::SystemIntrusion,
            progress_percent(v.position, path_length) as u64,
            now,
        )
    } else {
        v.player_events
    };
    let e2 = if ghost_new {
        log_event(e1, SocialFeedEventType::ProtocolFragment, ACHIEVEMENT_GHOST_PROTOCOL, now)
    } else {
        e1
    };
    let e3 = if hoarder_new {
        log_event(e2, SocialFeedEventType::ProtocolFragment, ACHIEVEMENT_DATA_HOARDER, now)
    } else {
        e2
    };
    let e4 = if breaker_new {
        log_event(e3, SocialFeedEventType::ProtocolFragment, ACHIEVEMENT_CONSENSUS_BREAKER, now)
    } else {
        e3
    };
    let e5 = if lord_new {
        log_event(e4, SocialFeedEventType::ProtocolFragment, ACHIEVEMENT_CIPHER_LORD, now)
    } else {
        e4
    };
    PlayerView {
        ghost_protocol: v.ghost_protocol || ghost_new,
        data_hoarder: v.data_hoarder || hoarder_new,
        consensus_breaker: v.consensus_breaker || breaker_new,
        cipher_lord: v.cipher_lord || lord_new,
        system_breaches: if breach {
            sat_inc(v.system_breaches)
        } else {
            v.system_breaches
        },
        player_events: e5,
        ..v
    }
}

/// Flags newly earned achievements and counts a system breach, reporting each
/// in the player's feed.
pub fn check_and_award_achievements(player_state: &mut PlayerState, game_state: &GameState, now: i64)
    requires
        old(player_state).wf(),
    ensures
        final(player_state)@ == after_achievements(old(player_state)@, game_state.path_length, now),
        final(player_state).wf(),
{
    let path_length = game_state.path_length;
    let ghost_new = !player_state.ghost_protocol && player_state.games_won > 0
        && player_state.shields_used == 0;
    let hoarder_new = !player_state.data_hoarder && player_state.cards_collected >= 100;
    let breaker_new = !player_state.consensus_breaker && 10 * (player_state.best_position as u16)
        >= 9 * (path_length as u16);
    let lord_new = !player_state.cipher_lord && player_state.total_ciphers_bought >= 1000;
    if ghost_new {
        player_state.ghost_protocol = true;
    }
    if hoarder_new {
        player_state.data_hoarder = true;
    }
    if breaker_new {
        player_state.consensus_breaker = true;
    }
    if lord_new {
        player_state.cipher_lord = true;
    }
    if 2 * (player_state.position as u16) >= path_length as u16 {
        player_state.system_breaches = player_state.system_breaches.saturating_add(1);
        let pct = percent_of(player_state.position, path_length);
        save_and_emit_event(
            &mut player_state.player_events,
            SocialFeedEventType::SystemIntrusion,
            pct,
            now,
        );
    }
    if ghost_new {
        save_and_emit_event(
            &mut player_state.player_events,
            SocialFeedEventType::ProtocolFragment,
            ACHIEVEMENT_GHOST_PROTOCOL,
            now,
        );
    }
    if hoarder_new {
        save_and_emit_event(
            &mut player_state.player_events,
            SocialFeedEventType::ProtocolFragment,
            ACHIEVEMENT_DATA_HOARDER,
            now,
        );
    }
    if breaker_new {
        save_and_emit_event(
            &mut player_state.player_events,
            SocialFeedEventType::ProtocolFragment,
            ACHIEVEMENT_CONSENSUS_BREAKER,
            now,
        );
    }
    if lord_new {
        save_and_emit_event(
            &mut player_state.player_events,
            SocialFeedEventType::ProtocolFragment,
            ACHIEVEMENT_CIPHER_LORD,
            now,
        );
    }
}

/// The player and game after a successful step: one step further, a new best
/// reported, milestones announced, one card drawn (two with a Doubler), the
/// shield counted as used when it was requested, and the step reported.
#[verifier::opaque]
pub open spec fn after_advance(v: PlayerView, g: GameView, usage: CardUsage, now: i64) -> (
    PlayerView,
    GameView,
) {
    let pos = (v.position + 1) as u8;
    let v1 = PlayerView { position: pos, total_steps: sat_inc(v.total_steps), ..v };
    let v2 = if pos > v.best_position {
        PlayerView {
            best_position: pos,
            player_events: log_event(
                v1.player_events,
                SocialFeedEventType::PersonalBest,
                pos as u64,
                now,
            ),
            ..v1
        }
    } else {
        v1
    };
    let count: nat = if usage.doubler {
        2
    } else {
        1
    };
    let v3 = after_draws(v2, count, now);
    let v4 = PlayerView {
        cards_collected: sat_add(v3.cards_collected, count as u64),
        shields_used: if usage.shield {
            sat_inc(v3.shields_used)
        } else {
            v3.shields_used
        },
        ..v3
    };
    let v5 = PlayerView {
        player_events: log_event(v4.player_events, SocialFeedEventType::PlayerMoved, pos as u64, now),
        ..v4
    };
    (v5, after_milestones(g, pos, now))
}

/// Applies a successful step. The randomness queue must hold the bytes for the
/// card draws.
pub(crate) fn handle_correct_move(
    player_state: &mut PlayerState,
    game_state: &mut GameState,
    card_usage: CardUsage,
    now: i64,
)
    requires
        old(player_state).wf(),
        old(game_state).wf(),
        old(player_state).position < old(game_state).path_length,
        old(player_state)@.randomness_value matches Some(q) && q.len() >= (if card_usage.doubler {
            2int
        } else {
            1int
        }),
    ensures
        (final(player_state)@, final(game_state)@) == after_advance(
            old(player_state)@,
            old(game_state)@,
            card_usage,
            now,
        ),
        final(player_state).wf(),
        final(game_state).wf(),
{
    proof {
        reveal(after_advance);
    }
    player_state.position = player_state.position + 1;
    let new_position = player_state.position;
    player_state.total_steps = player_state.total_steps.saturating_add(1);
    if new_position > player_state.best_position {
        player_state.best_position = new_position;
        save_and_emit_event(
            &mut player_state.player_events,
            SocialFeedEventType::PersonalBest,
            new_position as u64,
            now,
        );
    }
    check_milestones(player_state, game_state, now);
    let collect_cards_count: u8 = if card_usage.doubler {
        2
    } else {
        1
    };
    let drawn = give_random_cards(player_state, collect_cards_count, now);
    assert(drawn is Ok);
    player_state.cards_collected = player_state.cards_collected.saturating_add(
        collect_cards_count as u64,
    );
    if card_usage.shield {
        player_state.shields_used = player_state.shields_used.saturating_add(1);
    }
    save_and_emit_event(
        &mut player_state.player_events,
        SocialFeedEventType::PlayerMoved,
        new_position as u64,
        now,
    );
}

/// The player after a failed step: a requested Shield holds the position (and
/// grants no card), and otherwise the runner goes back to the start with the seed cards and loses
/// the win streak. Either way the outcome is reported.
#[verifier::opaque]
pub open spec fn after_failure(v: PlayerView, usage: CardUsage, now: i64) -> PlayerView {
    if usage.shield {
        PlayerView {
            shields_used: sat_inc(v.shields_used),
            player_events: log_event(
                v.player_events,
                SocialFeedEventType::PlayerMoved,
                v.position as u64,
                now,
            ),
            ..v
        }
    } else {
        PlayerView {
            position: 0,
            cards: CardCounts::seed(),
            total_resets: sat_inc(v.total_resets),
            consecutive_wins: 0,
            player_events: log_event(
                v.player_events,
                SocialFeedEventType::ResetAlert,
                v.position as u64,
                now,
            ),
            ..v
        }
    }
}

/// Applies a failed step.
pub(crate) fn handle_incorrect_move(player_state: &mut PlayerState, card_usage: CardUsage, now: i64)
    requires
        old(player_state).wf(),
    ensures
        final(player_state)@ == after_failure(old(player_state)@, card_usage, now),
        final(player_state).wf(),
{
    proof {
        reveal(after_failure);
    }
    if card_usage.shield {
        player_state.shields_used = player_state.shields_used.saturating_add(1);
        let position = player_state.position;
        save_and_emit_event(
            &mut player_state.player_events,
            SocialFeedEventType::PlayerMoved,
            position as u64,
            now,
        );
    } else {
        let reset_position = player_state.position;
        player_state.position = 0;
        player_state.cards = CardCounts::new_seed();
        player_state.total_resets = player_state.total_resets.saturating_add(1);
        player_state.consecutive_wins = 0;
        save_and_emit_event(
            &mut player_state.player_events,
            SocialFeedEventType::ResetAlert,
            reset_position as u64,
            now,
        );
    }
}

/// Why a win cannot be paid out: the win counter is full, the pool's account
/// holds less than the prize, or the prize would overflow the winner's balance.
pub open spec fn win_error(v: PlayerView, g: GameView, vault_lamports: u64, player_lamports: u64) -> Option<
    BlockrunnersError,
> {
    if v.games_won == u64::MAX {
        Some(BlockrunnersError::UnknownError)
    } else if vault_lamports < g.prize_pool {
        Some(BlockrunnersError::InsufficientBalance)
    } else if g.prize_pool > 0 && player_lamports + g.prize_pool > u64::MAX {
        Some(BlockrunnersError::ArithmeticOverflow)
    } else {
        None
    }
}

/// The round marker after a win at time `now`: the time itself, or, when the
/// clock has not moved since the round began, the next value.
pub open spec fn next_start(start: i64, now: i64) -> i64 {
    if now != start {
        now
    } else if start < i64::MAX {
        (start + 1) as i64
    } else {
        i64::MIN
    }
}

/// The player and game after a win: the win and streak are counted (a new best
/// streak reported), the whole pool goes to the winner and is emptied, the win
/// is announced globally and to the winner, achievements are checked, and a new
/// round begins.
#[verifier::opaque]
pub open spec fn after_win(v: PlayerView, g: GameView, now: i64) -> (PlayerView, GameView) {
    let streak = sat_inc(v.consecutive_wins);
    let v1 = PlayerView { games_won: (v.games_won + 1) as u64, consecutive_wins: streak, ..v };
    let v2 = if streak > v.best_win_streak {
        PlayerView {
            best_win_streak: streak,
            player_events: log_event(
                v1.player_events,
                SocialFeedEventType::PersonalBest,
                streak,
                now,
            ),
            ..v1
        }
    } else {
        v1
    };
    let prize = g.prize_pool;
    let ge1 = if prize > 0 {
        log_event(g.game_events, SocialFeedEventType::GameWon, prize, now)
    } else {
        g.game_events
    };
    let ge2 = log_event(ge1, SocialFeedEventType::GameWon, prize, now);
    let v3 = PlayerView {
        player_events: log_event(v2.player_events, SocialFeedEventType::GameWon, prize, now),
        ..v2
    };
    (
        after_achievements(v3, g.path_length, now),
        GameView { prize_pool: 0, game_events: ge2, start: next_start(g.start, now), ..g },
    )
}

/// The round marker for a new round begun at `now`.
fn advance_start(start: i64, now: i64) -> (r: i64)
    ensures
        r == next_start(start, now),
{
    if now != start {
        now
    } else {
        start.wrapping_add(1)
    }
}

/// Settles a win and returns the prize the winner is owed, which the caller
/// moves from the pool's account (holding `vault_lamports`) to the winner's
/// (holding `player_lamports`). On failure nothing changes.
pub(crate) fn handle_win(
    player_state: &mut PlayerState,
    game_state: &mut GameState,
    now: i64,
    vault_lamports: u64,
    player_lamports: u64,
) -> (r: Result<u64, BlockrunnersError>)
    requires
        old(player_state).wf(),
        old(game_state).wf(),
    ensures
        win_error(old(player_state)@, old(game_state)@, vault_lamports, player_lamports) matches Some(
            e,
        ) ==> r == Err::<u64, BlockrunnersError>(e) && *final(player_state) == *old(player_state)
            && *final(game_state) == *old(game_state),
        win_error(old(player_state)@, old(game_state)@, vault_lamports, player_lamports) is None
            ==> r == Ok::<u64, BlockrunnersError>(old(game_state).prize_pool) && (
        final(player_state)@,
        final(game_state)@,
        ) == after_win(old(player_state)@, old(game_state)@, now),
        final(player_state).wf(),
        final(game_state).wf(),
{
    proof {
        reveal(after_win);
    }
    if player_state.games_won == u64::MAX {
        return Err(BlockrunnersError::UnknownError);
    }
    if vault_lamports < game_state.prize_pool {
        return Err(BlockrunnersError::InsufficientBalance);
    }
    let prize_amount = game_state.prize_pool;
    if prize_amount > 0 && player_lamports.checked_add(prize_amount).is_none() {
        return Err(BlockrunnersError::ArithmeticOverflow);
    }
    player_state.games_won = player_state.games_won + 1;
    player_state.consecutive_wins = player_state.consecutive_wins.saturating_add(1);
    if player_state.consecutive_wins > player_state.best_win_streak {
        player_state.best_win_streak = player_state.consecutive_wins;
        let streak = player_state.consecutive_wins;
        save_and_emit_event(
            &mut player_state.player_events,
            SocialFeedEventType::PersonalBest,
            streak,
            now,
        );
    }
    if prize_amount > 0 {
        save_and_emit_event(
            &mut game_state.game_events,
            SocialFeedEventType::GameWon,
            prize_amount,
            now,
        );
        game_state.prize_pool = 0;
    }
    save_and_emit_event(
        &mut game_state.game_events,
        SocialFeedEventType::GameWon,
        prize_amount,
        now,
    );
    save_and_emit_event(
        &mut player_state.player_events,
        SocialFeedEventType::GameWon,
        prize_amount,
        now,
    );
    check_and_award_achievements(player_state, game_state, now);
    game_state.start = advance_start(game_state.start, now);
    Ok(prize_amount)
}

/// A successful step moves the runner exactly one step and leaves the win count,
/// the pool and the round as they were.
pub proof fn lemma_advance_frame(v: PlayerView, g: GameView, usage: CardUsage, now: i64)
    requires
        v.position < g.path_length,
    ensures
        after_advance(v, g, usage, now).0.position == v.position + 1,
        after_advance(v, g, usage, now).0.games_won == v.games_won,
        after_advance(v, g, usage, now).0.game_start == v.game_start,
        after_advance(v, g, usage, now).1.prize_pool == g.prize_pool,
        after_advance(v, g, usage, now).1.path_length == g.path_length,
        after_advance(v, g, usage, now).1.start == g.start,
{
    reveal(after_advance);
}

} // verus!
