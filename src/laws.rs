use vstd::prelude::*;

use crate::cards::{move_cost, Card, CardCounts, CardUsage, PathDirection};
use crate::errors::BlockrunnersError;
use crate::moves::{
    commit_error, committed, outcome_of, paid, reveal_move_error, reveal_precheck, revealed,
    roll_succeeds,
};
use crate::progress::{
    after_advance, after_failure, after_win, cards_after_draws, lemma_advance_frame, sat_inc,
};
use crate::randomness::RandomnessReading;
use crate::state::{GameView, PlayerState, PlayerView};

verus! {

/// The cost formula never needs its clamp: a request that takes the Swift
/// discount always includes Swift itself, so one plus the number of kinds
/// requested, less two, is never negative; a Swift-only move is free.
pub proof fn lemma_move_cost_unclamped(u: CardUsage)
    ensures
        move_cost(u) == 1 + u.card_count() - (if u.swift {
            2int
        } else {
            0int
        }),
        move_cost(u) >= 0,
        u.swift && !u.shield && !u.doubler ==> move_cost(u) == 0,
{
}

/// A reveal succeeds only after a commit: with no committed move, a player in
/// the round and short of the end is refused with `MoveNotCommitted`.
pub proof fn lemma_reveal_needs_commit(
    p: PlayerState,
    g: GameView,
    key: Seq<u8>,
    reading: Option<RandomnessReading>,
    clock_slot: u64,
    vault_lamports: u64,
    player_lamports: u64,
)
    ensures
        reveal_move_error(p, g, key, reading, clock_slot, vault_lamports, player_lamports) is None
            ==> p.move_cards is Some,
        p.move_cards is None && p.game_start == Some(g.start) && p.position < g.path_length
            ==> reveal_move_error(p, g, key, reading, clock_slot, vault_lamports, player_lamports)
            == Some(BlockrunnersError::MoveNotCommitted),
{
}

/// A successful commit leaves the player able to reveal: the move is on record
/// and still affordable with the cards held.
pub proof fn lemma_commit_enables_reveal(
    v: PlayerView,
    g: GameView,
    direction: PathDirection,
    usage: CardUsage,
    key: [u8; 32],
    seed_slot: u64,
    current_slot: u64,
    now: i64,
)
    requires
        commit_error(v, g, usage, Some(seed_slot), current_slot) is None,
    ensures
        committed(v, direction, usage, key, seed_slot, now).move_cards == Some(usage),
        reveal_precheck(committed(v, direction, usage, key, seed_slot, now), g) is None,
{
}

/// The queue left after `n` bytes are taken one at a time from the head.
pub open spec fn consumed_after(q: Seq<u8>, n: nat) -> Seq<u8>
    decreases n,
{
    if n == 0 || q.len() == 0 {
        q
    } else {
        consumed_after(q.drop_first(), (n - 1) as nat)
    }
}

/// Consumption is first in, first out: after `n` bytes are taken, what is left
/// is the tail of the queue as revealed, in order, one byte shorter per step,
/// and the next byte taken is the revealed queue's `n`-th.
pub proof fn lemma_consume_fifo(q: Seq<u8>, n: nat)
    requires
        n <= q.len(),
    ensures
        consumed_after(q, n) == q.subrange(n as int, q.len() as int),
        consumed_after(q, n).len() == q.len() - n,
        n < q.len() ==> consumed_after(q, n)[0] == q[n as int],
    decreases n,
{
    if n == 0 {
        assert(q.subrange(0, q.len() as int) =~= q);
    } else {
        lemma_consume_fifo(q.drop_first(), (n - 1) as nat);
        assert(q.drop_first().subrange((n - 1) as int, q.drop_first().len() as int) =~= q.subrange(
            n as int,
            q.len() as int,
        ));
    }
}

/// A player whose round marker is not the game's cannot commit or reveal: both
/// are refused with `PlayingInDifferentGame`.
pub proof fn lemma_other_round_blocked(
    p: PlayerState,
    g: GameView,
    usage: CardUsage,
    seed_slot: Option<u64>,
    current_slot: u64,
    key: Seq<u8>,
    reading: Option<RandomnessReading>,
    clock_slot: u64,
    vault_lamports: u64,
    player_lamports: u64,
)
    requires
        p.game_start != Some(g.start),
    ensures
        commit_error(p@, g, usage, seed_slot, current_slot) == Some(
            BlockrunnersError::PlayingInDifferentGame,
        ),
        reveal_move_error(p, g, key, reading, clock_slot, vault_lamports, player_lamports) == Some(
            BlockrunnersError::PlayingInDifferentGame,
        ),
{
}

/// A winning reveal starts a new round: the game's marker changes, so every
/// player who joined the old round is shut out until rejoining.
pub proof fn lemma_win_starts_new_round(v: PlayerView, g: GameView, value: Seq<u8>, now: i64)
    requires
        reveal_precheck(v, g) is None,
        value.len() >= 1,
        outcome_of(v, g, value[0]).won,
    ensures
        revealed(v, g, value, now).1.start != g.start,
{
    let u = v.move_cards->0;
    lemma_advance_frame(paid(v, value, now), g, u, now);
    reveal(after_win);
}

/// A reveal wins exactly when a successful step reaches the end of the path,
/// never a step short of it. A win pays out the whole pool and empties it;
/// any other outcome pays nothing and leaves the pool as it was.
pub proof fn lemma_win_pays_whole_pool(v: PlayerView, g: GameView, value: Seq<u8>, now: i64)
    requires
        reveal_precheck(v, g) is None,
        value.len() >= 1,
    ensures
        outcome_of(v, g, value[0]).won <==> roll_succeeds(value[0]) && v.position + 1
            == g.path_length,
        outcome_of(v, g, value[0]).won ==> outcome_of(v, g, value[0]).prize == g.prize_pool
            && revealed(v, g, value, now).1.prize_pool == 0,
        !outcome_of(v, g, value[0]).won ==> outcome_of(v, g, value[0]).prize == 0 && revealed(
            v,
            g,
            value,
            now,
        ).1.prize_pool == g.prize_pool,
{
    let u = v.move_cards->0;
    lemma_advance_frame(paid(v, value, now), g, u, now);
    reveal(after_win);
}

/// Resolving a move keeps the runner on the path: the position never passes
/// the path's length, which itself does not change, and only reaching that
/// length wins.
pub proof fn lemma_position_stays_on_path(v: PlayerView, g: GameView, value: Seq<u8>, now: i64)
    requires
        reveal_precheck(v, g) is None,
        value.len() >= 1,
    ensures
        revealed(v, g, value, now).0.position <= g.path_length,
        revealed(v, g, value, now).1.path_length == g.path_length,
        revealed(v, g, value, now).0.position == g.path_length ==> outcome_of(v, g, value[0]).won,
{
    let u = v.move_cards->0;
    lemma_advance_frame(paid(v, value, now), g, u, now);
    reveal(after_win);
    reveal(after_failure);
}

/// A successful Swift-only step from one short of the end is free and wins:
/// the runner reaches the end, the win is counted, the whole pool is owed to
/// the runner and emptied, a new round begins, and the commitment and
/// randomness are cleared.
pub proof fn lemma_free_final_step_wins(v: PlayerView, g: GameView, value: Seq<u8>, now: i64)
    requires
        reveal_precheck(v, g) is None,
        v.move_cards == Some(CardUsage { shield: false, doubler: false, swift: true }),
        v.position + 1 == g.path_length,
        value.len() >= 2,
        roll_succeeds(value[0]),
        v.games_won < u64::MAX,
    ensures
        move_cost(v.move_cards->0) == 0,
        outcome_of(v, g, value[0]).won,
        outcome_of(v, g, value[0]).prize == g.prize_pool,
        revealed(v, g, value, now).0.position == g.path_length,
        revealed(v, g, value, now).0.ciphers == v.ciphers,
        revealed(v, g, value, now).0.games_won == v.games_won + 1,
        revealed(v, g, value, now).1.prize_pool == 0,
        revealed(v, g, value, now).1.start != g.start,
        revealed(v, g, value, now).0 == revealed(v, g, value, now).0.cleared(),
{
    let u = v.move_cards->0;
    lemma_advance_frame(paid(v, value, now), g, u, now);
    reveal(after_advance);
    reveal(after_win);
}

/// A failed step without a Shield sends the runner back to the start with the
/// seed cards, ends the win streak and counts one more reset (saturating).
pub proof fn lemma_unshielded_failure_resets(v: PlayerView, g: GameView, value: Seq<u8>, now: i64)
    requires
        reveal_precheck(v, g) is None,
        value.len() >= 1,
        !roll_succeeds(value[0]),
        !v.move_cards->0.shield,
    ensures
        !outcome_of(v, g, value[0]).success,
        revealed(v, g, value, now).0.position == 0,
        revealed(v, g, value, now).0.cards == CardCounts::seed(),
        revealed(v, g, value, now).0.consecutive_wins == 0,
        revealed(v, g, value, now).0.total_resets == sat_inc(v.total_resets),
        v.total_resets < u64::MAX ==> revealed(v, g, value, now).0.total_resets == v.total_resets
            + 1,
        revealed(v, g, value, now).1 == g,
        revealed(v, g, value, now).0 == revealed(v, g, value, now).0.cleared(),
{
    reveal(after_failure);
}

/// A change to a runner's cards: one drawn or one spent.
#[derive(Clone, Copy, Debug, PartialEq, Eq, Structural)]
pub enum CardOp {
    Draw(Card),
    Spend(Card),
}

/// Counts after the changes `ops`, in order.
pub open spec fn apply_card_ops(c: CardCounts, ops: Seq<CardOp>) -> CardCounts
    decreases ops.len(),
{
    if ops.len() == 0 {
        c
    } else {
        let before = apply_card_ops(c, ops.drop_last());
        match ops.last() {
            CardOp::Draw(k) => before.added(k),
            CardOp::Spend(k) => before.removed(k),
        }
    }
}

/// Every change moves only its own kind, by one, and saturates: a draw at the
/// cap and a spend at zero leave the count where it is. So under any sequence
/// of draws and spends no count rises above the cap or falls below zero.
pub proof fn lemma_card_counts_saturate(c: CardCounts, ops: Seq<CardOp>, k: Card)
    ensures
        0 <= apply_card_ops(c, ops).count(k) <= u8::MAX,
        ops.len() > 0 ==> (ops.last() matches CardOp::Draw(d) && d == k ==> apply_card_ops(
            c,
            ops,
        ).count(k) == if apply_card_ops(c, ops.drop_last()).count(k) < u8::MAX {
            apply_card_ops(c, ops.drop_last()).count(k) + 1
        } else {
            u8::MAX as int
        }),
        ops.len() > 0 ==> (ops.last() matches CardOp::Spend(d) && d == k ==> apply_card_ops(
            c,
            ops,
        ).count(k) == if apply_card_ops(c, ops.drop_last()).count(k) > 0 {
            apply_card_ops(c, ops.drop_last()).count(k) - 1
        } else {
            0
        }),
        ops.len() > 0 ==> (ops.last() matches CardOp::Draw(d) && d != k ==> apply_card_ops(
            c,
            ops,
        ).count(k) == apply_card_ops(c, ops.drop_last()).count(k)),
        ops.len() > 0 ==> (ops.last() matches CardOp::Spend(d) && d != k ==> apply_card_ops(
            c,
            ops,
        ).count(k) == apply_card_ops(c, ops.drop_last()).count(k)),
{
}

/// Drawing cards never lowers any count.
pub proof fn lemma_draws_never_lower(c: CardCounts, bytes: Seq<u8>, k: Card)
    ensures
        cards_after_draws(c, bytes).count(k) >= c.count(k),
    decreases bytes.len(),
{
    if bytes.len() > 0 {
        lemma_draws_never_lower(c, bytes.drop_last(), k);
    }
}

} // verus!
