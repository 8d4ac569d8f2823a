use vstd::prelude::*;

use crate::cards::{move_cost, Card, CardCounts, CardUsage, PathDirection};
use crate::constants::MOVE_SUCCESS_PROBABILITY;
use crate::errors::BlockrunnersError;
use crate::progress::{
    after_advance, after_failure, after_win, handle_correct_move, handle_incorrect_move,
    handle_win, lemma_advance_frame, win_error,
};
use crate::randomness::{
    bound_to, check_randomness_reveal, le_value, malformed_account, parse_randomness_account,
    randomness_use, record_randomness_request, record_randomness_reveal, request_error,
    reveal_error, RandomnessReading,
};
use crate::state::{get_move_cost, update_last_login, GameState, GameView, LedgerTime, PlayerState, PlayerView};

verus! {

/// Why a commit is refused before the oracle is consulted: the player is in
/// another round, has completed the path, lacks a requested card, or cannot pay.
pub open spec fn commit_precheck(v: PlayerView, g: GameView, usage: CardUsage) -> Option<
    BlockrunnersError,
> {
    if v.game_start != Some(g.start) {
        Some(BlockrunnersError::PlayingInDifferentGame)
    } else if v.position >= g.path_length {
        Some(BlockrunnersError::PathAlreadyCompleted)
    } else if !v.cards.covers(usage) {
        Some(BlockrunnersError::InsufficientCards)
    } else if v.ciphers < move_cost(usage) {
        Some(BlockrunnersError::InsufficientBalance)
    } else {
        None
    }
}

/// Why a commit is refused, given the oracle's seed slot as read and the current slot.
pub open spec fn commit_error(
    v: PlayerView,
    g: GameView,
    usage: CardUsage,
    seed_slot: Option<u64>,
    current_slot: u64,
) -> Option<BlockrunnersError> {
    match commit_precheck(v, g, usage) {
        Some(e) => Some(e),
        None => request_error(seed_slot, current_slot),
    }
}

/// The player after committing to `direction` and `usage`, with randomness
/// bound to oracle account `key` at `seed_slot`. No cipher is debited yet.
pub open spec fn committed(
    v: PlayerView,
    direction: PathDirection,
    usage: CardUsage,
    key: [u8; 32],
    seed_slot: u64,
    now: i64,
) -> PlayerView {
    PlayerView {
        last_login: now,
        move_direction: Some(direction),
        move_cards: Some(usage),
        randomness_account: Some(key),
        randomness_slot: Some(seed_slot),
        randomness_value: None,
        ..v
    }
}

/// Commits a move whose oracle account read as `seed_slot` (`None`: it could
/// not be parsed). A new commit replaces any earlier one. On failure nothing
/// changes.
pub fn commit_move(
    player_state: &mut PlayerState,
    game_state: &GameState,
    direction: PathDirection,
    card_usage: CardUsage,
    oracle_key: &[u8; 32],
    seed_slot: Option<u64>,
    time: LedgerTime,
) -> (r: Result<(), BlockrunnersError>)
    requires
        old(player_state).wf(),
    ensures
        commit_error(old(player_state)@, game_state@, card_usage, seed_slot, time.slot) matches Some(
            e,
        ) ==> r == Err::<(), BlockrunnersError>(e) && *final(player_state) == *old(player_state),
        commit_error(old(player_state)@, game_state@, card_usage, seed_slot, time.slot) is None
            ==> r is Ok && final(player_state)@ == committed(
            old(player_state)@,
            direction,
            card_usage,
            *oracle_key,
            seed_slot->0,
            time.unix_timestamp,
        ),
        final(player_state).wf(),
{
    if player_state.game_start != Some(game_state.start) {
        return Err(BlockrunnersError::PlayingInDifferentGame);
    }
    if player_state.position >= game_state.path_length {
        return Err(BlockrunnersError::PathAlreadyCompleted);
    }
    let total_cost = match get_move_cost(player_state, &card_usage) {
        Ok(c) => c,
        Err(e) => {
            return Err(e);
        },
    };
    if player_state.ciphers < total_cost {
        return Err(BlockrunnersError::InsufficientBalance);
    }
    match record_randomness_request(player_state, oracle_key, seed_slot, time.slot) {
        Ok(()) => {},
        Err(e) => {
            return Err(e);
        },
    }
    update_last_login(player_state, time.unix_timestamp);
    player_state.move_direction = Some(direction);
    player_state.move_cards = Some(card_usage);
    Ok(())
}

/// Commits a move: the player must be in the current round, short of the end
/// of the path, hold every requested card and afford the move; then randomness
/// is requested from the oracle account `oracle_key` with data `oracle_data`,
/// whose seed must be from the slot before `time.slot`. Ciphers are debited at
/// reveal. On failure nothing changes.
pub fn move_commit(
    player_state: &mut PlayerState,
    game_state: &GameState,
    direction: PathDirection,
    card_usage: CardUsage,
    oracle_key: &[u8; 32],
    oracle_data: &[u8],
    time: LedgerTime,
) -> (r: Result<(), BlockrunnersError>)
    requires
        old(player_state).wf(),
    ensures
        commit_precheck(old(player_state)@, game_state@, card_usage) matches Some(e) ==> r
            == Err::<(), BlockrunnersError>(e),
        commit_precheck(old(player_state)@, game_state@, card_usage) is None && malformed_account(
            oracle_data@,
        ) ==> r == Err::<(), BlockrunnersError>(BlockrunnersError::RandomnessAccountParsing),
        r is Err ==> *final(player_state) == *old(player_state),
        r is Ok ==> commit_precheck(old(player_state)@, game_state@, card_usage) is None
            && time.slot >= 1 && (time.slot - 1) as u64 == le_value(oracle_data@.subrange(104, 112))
            && final(player_state)@ == committed(
            old(player_state)@,
            direction,
            card_usage,
            *oracle_key,
            (time.slot - 1) as u64,
            time.unix_timestamp,
        ),
        r is Err && commit_precheck(old(player_state)@, game_state@, card_usage) is None ==> r
            == Err::<(), BlockrunnersError>(BlockrunnersError::RandomnessAccountParsing) || r
            == Err::<(), BlockrunnersError>(BlockrunnersError::RandomnessStale),
        r == Err::<(), BlockrunnersError>(BlockrunnersError::RandomnessStale) ==> le_value(
            oracle_data@.subrange(104, 112),
        ) + 1 != time.slot,
        commit_precheck(old(player_state)@, game_state@, card_usage) is None && !malformed_account(
            oracle_data@,
        ) && le_value(oracle_data@.subrange(104, 112)) + 1 == time.slot ==> r is Ok,
        final(player_state).wf(),
{
    let reading = parse_randomness_account(oracle_data);
    let seed_slot = match reading {
        Some(rd) => Some(rd.seed_slot),
        None => None,
    };
    commit_move(player_state, game_state, direction, card_usage, oracle_key, seed_slot, time)
}

/// What a reveal did: whether the step succeeded, whether it completed the path,
/// and the prize the winner is owed from the pool's account.
#[derive(Clone, Copy, Debug, PartialEq, Eq, Structural)]
pub struct RevealOutcome {
    pub success: bool,
    pub won: bool,
    pub prize: u64,
}

/// Why a reveal is refused before the oracle is consulted: the player is in
/// another round, has completed the path, has no commitment, lacks a committed
/// card, or cannot pay.
pub open spec fn reveal_precheck(v: PlayerView, g: GameView) -> Option<BlockrunnersError> {
    if v.game_start != Some(g.start) {
        Some(BlockrunnersError::PlayingInDifferentGame)
    } else if v.position >= g.path_length {
        Some(BlockrunnersError::PathAlreadyCompleted)
    } else {
        match v.move_cards {
            None => Some(BlockrunnersError::MoveNotCommitted),
            Some(u) => if !v.cards.covers(u) {
                Some(BlockrunnersError::InsufficientCards)
            } else if v.ciphers < move_cost(u) {
                Some(BlockrunnersError::InsufficientBalance)
            } else {
                None
            },
        }
    }
}

/// Whether a step whose roll is `b` succeeds.
pub open spec fn roll_succeeds(b: u8) -> bool {
    b % 100 < MOVE_SUCCESS_PROBABILITY
}

/// Whether a step from the player's position with roll `b` completes the path.
pub open spec fn roll_wins(v: PlayerView, g: GameView, b: u8) -> bool {
    roll_succeeds(b) && v.position + 1 == g.path_length
}

/// Why a reveal is refused, given the oracle account as read, the clock, and
/// the balances of the pool's and the player's accounts.
pub open spec fn reveal_move_error(
    p: PlayerState,
    g: GameView,
    key: Seq<u8>,
    reading: Option<RandomnessReading>,
    clock_slot: u64,
    vault_lamports: u64,
    player_lamports: u64,
) -> Option<BlockrunnersError> {
    match reveal_precheck(p@, g) {
        Some(e) => Some(e),
        None => match reveal_error(p, key, reading, clock_slot) {
            Some(e) => Some(e),
            None => if roll_wins(p@, g, reading->0.value[0]) {
                win_error(p@, g, vault_lamports, player_lamports)
            } else {
                None
            },
        },
    }
}

/// Counts after the cards that `u` asks for are spent.
pub open spec fn spent(c: CardCounts, u: CardUsage) -> CardCounts {
    let c1 = if u.shield {
        c.removed(Card::Shield)
    } else {
        c
    };
    let c2 = if u.doubler {
        c1.removed(Card::Doubler)
    } else {
        c1
    };
    if u.swift {
        c2.removed(Card::Swift)
    } else {
        c2
    }
}

/// The player once the committed move is paid for and the revealed bytes
/// `value` are stored, with the first of them taken as the roll.
pub open spec fn paid(v: PlayerView, value: Seq<u8>, now: i64) -> PlayerView {
    let u = v.move_cards->0;
    PlayerView {
        last_login: now,
        ciphers: (v.ciphers - move_cost(u)) as u64,
        cards: spent(v.cards, u),
        randomness_value: Some(value.drop_first()),
        ..v
    }
}

/// The player and game after the committed move is resolved with the revealed
/// bytes `value`: a success advances (and may win), a failure falls back, and
/// the commitment is cleared either way.
pub open spec fn revealed(v: PlayerView, g: GameView, value: Seq<u8>, now: i64) -> (
    PlayerView,
    GameView,
) {
    let u = v.move_cards->0;
    let v1 = paid(v, value, now);
    if roll_succeeds(value[0]) {
        let adv = after_advance(v1, g, u, now);
        if adv.0.position == g.path_length {
            let won = after_win(adv.0, adv.1, now);
            (won.0.cleared(), won.1)
        } else {
            (adv.0.cleared(), adv.1)
        }
    } else {
        (after_failure(v1, u, now).cleared(), g)
    }
}

/// What a reveal with roll `b` reports.
pub open spec fn outcome_of(v: PlayerView, g: GameView, b: u8) -> RevealOutcome {
    RevealOutcome {
        success: roll_succeeds(b),
        won: roll_wins(v, g, b),
        prize: if roll_wins(v, g, b) {
            g.prize_pool
        } else {
            0
        },
    }
}

/// Pays for the committed move and stores the revealed bytes, taking the first
/// as the roll. The checks of `reveal_move` must have passed.
fn pay_for_move(
    player_state: &mut PlayerState,
    used_cards: CardUsage,
    total_cost: u64,
    oracle_key: &[u8; 32],
    reading: Option<RandomnessReading>,
    time: LedgerTime,
)
    requires
        old(player_state).wf(),
        old(player_state).move_cards == Some(used_cards),
        total_cost == move_cost(used_cards),
        old(player_state).ciphers >= total_cost,
        reveal_error(*old(player_state), oracle_key@, reading, time.slot) is None,
    ensures
        final(player_state)@ == paid(old(player_state)@, reading->0.value@, time.unix_timestamp),
        final(player_state).wf(),
{
    update_last_login(player_state, time.unix_timestamp);
    player_state.ciphers = player_state.ciphers - total_cost;
    if used_cards.shield {
        player_state.cards.remove_card(Card::Shield);
    }
    if used_cards.doubler {
        player_state.cards.remove_card(Card::Doubler);
    }
    if used_cards.swift {
        player_state.cards.remove_card(Card::Swift);
    }
    let stored = record_randomness_reveal(player_state, oracle_key, reading, time.slot);
    assert(stored is Ok);
    let first = randomness_use(player_state);
    assert(first is Ok);
    assert(final(player_state)@ =~= paid(old(player_state)@, reading->0.value@, time.unix_timestamp));
}

/// Resolves the committed move with the oracle account as read (`None`: it
/// could not be parsed): pays for the move, stores the revealed bytes, rolls on
/// the first, and advances, wins or falls back. A win is paid from the pool's
/// account (holding `vault_lamports`) to the player's (holding
/// `player_lamports`); the caller moves the returned prize. The commitment is
/// cleared. On failure nothing changes.
pub fn reveal_move(
    player_state: &mut PlayerState,
    game_state: &mut GameState,
    oracle_key: &[u8; 32],
    reading: Option<RandomnessReading>,
    time: LedgerTime,
    vault_lamports: u64,
    player_lamports: u64,
) -> (r: Result<RevealOutcome, BlockrunnersError>)
    requires
        old(player_state).wf(),
        old(game_state).wf(),
    ensures
        reveal_move_error(
            *old(player_state),
            old(game_state)@,
            oracle_key@,
            reading,
            time.slot,
            vault_lamports,
            player_lamports,
        ) matches Some(e) ==> r == Err::<RevealOutcome, BlockrunnersError>(e) && *final(
        player_state) == *old(player_state) && *final(game_state) == *old(game_state),
        reveal_move_error(
            *old(player_state),
            old(game_state)@,
            oracle_key@,
            reading,
            time.slot,
            vault_lamports,
            player_lamports,
        ) is None ==> r == Ok::<RevealOutcome, BlockrunnersError>(
            outcome_of(old(player_state)@, old(game_state)@, reading->0.value[0]),
        ) && (final(player_state)@, final(game_state)@) == revealed(
            old(player_state)@,
            old(game_state)@,
            reading->0.value@,
            time.unix_timestamp,
        ),
        final(player_state).wf(),
        final(game_state).wf(),
{
    let now = time.unix_timestamp;
    if player_state.game_start != Some(game_state.start) {
        return Err(BlockrunnersError::PlayingInDifferentGame);
    }
    if player_state.position >= game_state.path_length {
        return Err(BlockrunnersError::PathAlreadyCompleted);
    }
    let used_cards = match player_state.move_cards {
        Some(u) => u,
        None => {
            return Err(BlockrunnersError::MoveNotCommitted);
        },
    };
    let total_cost = match get_move_cost(player_state, &used_cards) {
        Ok(c) => c,
        Err(e) => {
            return Err(e);
        },
    };
    if player_state.ciphers < total_cost {
        return Err(BlockrunnersError::InsufficientBalance);
    }
    let value = match check_randomness_reveal(player_state, oracle_key, &reading, time.slot) {
        Ok(v) => v,
        Err(e) => {
            return Err(e);
        },
    };
    let roll = value[0];
    let is_move_successful = roll % 100 < MOVE_SUCCESS_PROBABILITY;
    let completes = is_move_successful && player_state.position + 1 == game_state.path_length;
    if completes {
        if player_state.games_won == u64::MAX {
            return Err(BlockrunnersError::UnknownError);
        }
        if vault_lamports < game_state.prize_pool {
            return Err(BlockrunnersError::InsufficientBalance);
        }
        if game_state.prize_pool > 0 && player_lamports.checked_add(game_state.prize_pool).is_none() {
            return Err(BlockrunnersError::ArithmeticOverflow);
        }
    }
    let ghost v0 = player_state@;
    let ghost g0 = game_state@;
    pay_for_move(player_state, used_cards, total_cost, oracle_key, reading, time);
    assert(player_state@ == paid(v0, value@, now));
    proof {
        if is_move_successful {
            lemma_advance_frame(player_state@, g0, used_cards, now);
        }
    }
    let mut outcome = RevealOutcome { success: is_move_successful, won: false, prize: 0 };
    if is_move_successful {
        handle_correct_move(player_state, game_state, used_cards, now);
        if player_state.position == game_state.path_length {
            match handle_win(player_state, game_state, now, vault_lamports, player_lamports) {
                Ok(prize) => {
                    outcome = RevealOutcome { success: true, won: true, prize };
                },
                Err(e) => {
                    return Err(e);
                },
            }
        }
    } else {
        handle_incorrect_move(player_state, used_cards, now);
    }
    player_state.move_direction = None;
    player_state.move_cards = None;
    player_state.randomness_account = None;
    player_state.randomness_slot = None;
    player_state.randomness_value = None;
    Ok(outcome)
}

/// Reveals the committed move with the oracle account `oracle_key`, whose data
/// is `oracle_data`, at `time`: the player must be in the current round, short
/// of the end of the path and committed; the account must be the one bound at
/// commit, parse, keep its seed slot and hold a value current at `time.slot`.
/// Then the move is paid and resolved as `reveal_move` says. On failure nothing
/// changes.
pub fn move_reveal(
    player_state: &mut PlayerState,
    game_state: &mut GameState,
    oracle_key: &[u8; 32],
    oracle_data: &[u8],
    time: LedgerTime,
    vault_lamports: u64,
    player_lamports: u64,
) -> (r: Result<RevealOutcome, BlockrunnersError>)
    requires
        old(player_state).wf(),
        old(game_state).wf(),
    ensures
        reveal_precheck(old(player_state)@, old(game_state)@) matches Some(e) ==> r == Err::<
            RevealOutcome,
            BlockrunnersError,
        >(e),
        reveal_precheck(old(player_state)@, old(game_state)@) is None && !bound_to(
            *old(player_state),
            oracle_key@,
        ) ==> r == Err::<RevealOutcome, BlockrunnersError>(BlockrunnersError::Unauthorized),
        reveal_precheck(old(player_state)@, old(game_state)@) is None && bound_to(
            *old(player_state),
            oracle_key@,
        ) && malformed_account(oracle_data@) ==> r == Err::<RevealOutcome, BlockrunnersError>(
            BlockrunnersError::RandomnessAccountParsingReveal,
        ),
        r is Err ==> *final(player_state) == *old(player_state) && *final(game_state) == *old(
        game_state),
        r is Ok ==> reveal_precheck(old(player_state)@, old(game_state)@) is None && bound_to(
            *old(player_state),
            oracle_key@,
        ) && old(player_state).randomness_slot == Some(
            le_value(oracle_data@.subrange(104, 112)) as u64,
        ) && time.slot == le_value(oracle_data@.subrange(144, 152)),
        r matches Ok(o) ==> o == outcome_of(
            old(player_state)@,
            old(game_state)@,
            oracle_data@[152],
        ) && (final(player_state)@, final(game_state)@) == revealed(
            old(player_state)@,
            old(game_state)@,
            oracle_data@.subrange(152, 184),
            time.unix_timestamp,
        ),
        r == Err::<RevealOutcome, BlockrunnersError>(BlockrunnersError::RandomnessExpired)
            ==> old(player_state).randomness_slot != Some(
            le_value(oracle_data@.subrange(104, 112)) as u64,
        ),
        r == Err::<RevealOutcome, BlockrunnersError>(BlockrunnersError::RandomnessNotResolved)
            ==> time.slot != le_value(oracle_data@.subrange(144, 152)),
        r is Err && reveal_precheck(old(player_state)@, old(game_state)@) is None && bound_to(
            *old(player_state),
            oracle_key@,
        ) && old(player_state).randomness_slot == Some(
            le_value(oracle_data@.subrange(104, 112)) as u64,
        ) && time.slot == le_value(oracle_data@.subrange(144, 152)) ==> r == Err::<
            RevealOutcome,
            BlockrunnersError,
        >(BlockrunnersError::RandomnessAccountParsingReveal) || (roll_wins(
            old(player_state)@,
            old(game_state)@,
            oracle_data@[152],
        ) && r == Err::<RevealOutcome, BlockrunnersError>(
            win_error(
                old(player_state)@,
                old(game_state)@,
                vault_lamports,
                player_lamports,
            )->0,
        )),
        reveal_precheck(old(player_state)@, old(game_state)@) is None && bound_to(
            *old(player_state),
            oracle_key@,
        ) && !malformed_account(oracle_data@) && old(player_state).randomness_slot == Some(
            le_value(oracle_data@.subrange(104, 112)) as u64,
        ) && time.slot == le_value(oracle_data@.subrange(144, 152)) && !(roll_wins(
            old(player_state)@,
            old(game_state)@,
            oracle_data@[152],
        ) && win_error(old(player_state)@, old(game_state)@, vault_lamports, player_lamports)
            is Some) ==> r is Ok,
        final(player_state).wf(),
        final(game_state).wf(),
{
    let reading = parse_randomness_account(oracle_data);
    reveal_move(
        player_state,
        game_state,
        oracle_key,
        reading,
        time,
        vault_lamports,
        player_lamports,
    )
}

} // verus!
