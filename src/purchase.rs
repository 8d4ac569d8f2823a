use vstd::prelude::*;

use crate::cards::Card;
use crate::constants::{CIPHER_COST, PRIZE_POOL_PERCENTAGE};
use crate::errors::BlockrunnersError;
use crate::feed::{log_event, save_and_emit_event, SocialFeedEventType};
use crate::progress::ACHIEVEMENT_CIPHER_LORD;
use crate::state::{GameState, GameView, PlayerState, PlayerView};

verus! {

/// Lamports a purchase of `amount` ciphers costs.
pub open spec fn purchase_cost(amount: u64) -> int {
    amount * CIPHER_COST
}

/// The part of `cost` that goes into the prize pool, rounded down.
pub open spec fn pool_share(cost: int) -> int {
    cost * PRIZE_POOL_PERCENTAGE / 100
}

/// Why a purchase of `amount` ciphers by a player holding `player_lamports` is refused.
pub open spec fn purchase_error(v: PlayerView, g: GameView, amount: u64, player_lamports: u64) -> Option<
    BlockrunnersError,
> {
    let cost = purchase_cost(amount);
    if amount == 0 {
        Some(BlockrunnersError::NegativeCiphersAmount)
    } else if cost > u64::MAX {
        Some(BlockrunnersError::ArithmeticOverflow)
    } else if player_lamports < cost {
        Some(BlockrunnersError::InsufficientBalance)
    } else if cost * PRIZE_POOL_PERCENTAGE > u64::MAX {
        Some(BlockrunnersError::ArithmeticOverflow)
    } else if v.ciphers + amount > u64::MAX || v.total_ciphers_bought + amount > u64::MAX
        || g.prize_pool + pool_share(cost) > u64::MAX {
        Some(BlockrunnersError::ArithmeticOverflow)
    } else {
        None
    }
}

/// How much the pool grows, in whole percent of what it held, rounded down.
pub open spec fn growth_percent(old_pool: u64, added: int) -> int {
    added * 100 / old_pool as int
}

/// The player and game after `amount` ciphers are bought: the player's
/// ciphers and total grow by `amount`, the pool by its share (a growth of ten
/// percent or more announced globally), the purchase is reported to the player,
/// and Cipher Lord is flagged once a thousand ciphers are bought.
pub open spec fn after_purchase(v: PlayerView, g: GameView, amount: u64, now: i64) -> (
    PlayerView,
    GameView,
) {
    let share = pool_share(purchase_cost(amount));
    let bought = (v.total_ciphers_bought + amount) as u64;
    let surge = g.prize_pool > 0 && growth_percent(g.prize_pool, share) >= 10;
    let lord_new = bought >= 1000 && !v.cipher_lord;
    let e1 = log_event(v.player_events, SocialFeedEventType::CiphersPurchased, amount, now);
    let e2 = if lord_new {
        log_event(e1, SocialFeedEventType::ProtocolFragment, ACHIEVEMENT_CIPHER_LORD, now)
    } else {
        e1
    };
    (
        PlayerView {
            last_login: now,
            ciphers: (v.ciphers + amount) as u64,
            total_ciphers_bought: bought,
            cipher_lord: v.cipher_lord || lord_new,
            player_events: e2,
            ..v
        },
        GameView {
            prize_pool: (g.prize_pool + share) as u64,
            game_events: if surge {
                log_event(
                    g.game_events,
                    SocialFeedEventType::PrizePoolChange,
                    growth_percent(g.prize_pool, share) as u64,
                    now,
                )
            } else {
                g.game_events
            },
            ..g
        },
    )
}

/// How a purchase's lamports are split; the caller moves them from the player.
#[derive(Clone, Copy, Debug, PartialEq, Eq, Structural)]
pub struct PurchaseSplit {
    /// Lamports that go to the game's account, backing the prize pool
    pub prize_pool_amount: u64,
    /// Lamports that go to the admin wallet
    pub admin_amount: u64,
}

/// Buys `amount` ciphers for a player whose account holds `player_lamports`.
/// Returns how the cost is split between the prize pool and the admin. On
/// failure nothing changes.
pub fn purchase_ciphers(
    player_state: &mut PlayerState,
    game_state: &mut GameState,
    amount: u64,
    player_lamports: u64,
    now: i64,
) -> (r: Result<PurchaseSplit, BlockrunnersError>)
    requires
        old(player_state).wf(),
        old(game_state).wf(),
    ensures
        purchase_error(old(player_state)@, old(game_state)@, amount, player_lamports) matches Some(
            e,
        ) ==> r == Err::<PurchaseSplit, BlockrunnersError>(e) && *final(player_state) == *old(
        player_state) && *final(game_state) == *old(game_state),
        purchase_error(old(player_state)@, old(game_state)@, amount, player_lamports) is None
            ==> r == Ok::<PurchaseSplit, BlockrunnersError>(
            PurchaseSplit {
                prize_pool_amount: pool_share(purchase_cost(amount)) as u64,
                admin_amount: (purchase_cost(amount) - pool_share(purchase_cost(amount))) as u64,
            },
        ) && (final(player_state)@, final(game_state)@) == after_purchase(
            old(player_state)@,
            old(game_state)@,
            amount,
            now,
        ),
        final(player_state).wf(),
        final(game_state).wf(),
{
    if amount == 0 {
        return Err(BlockrunnersError::NegativeCiphersAmount);
    }
    let cost = match amount.checked_mul(CIPHER_COST) {
        Some(c) => c,
        None => {
            return Err(BlockrunnersError::ArithmeticOverflow);
        },
    };
    if player_lamports < cost {
        return Err(BlockrunnersError::InsufficientBalance);
    }
    let prize_pool_amount = match cost.checked_mul(PRIZE_POOL_PERCENTAGE) {
        Some(x) => x / 100,
        None => {
            return Err(BlockrunnersError::ArithmeticOverflow);
        },
    };
    let admin_amount = cost - prize_pool_amount;
    let ciphers = match player_state.ciphers.checked_add(amount) {
        Some(x) => x,
        None => {
            return Err(BlockrunnersError::ArithmeticOverflow);
        },
    };
    let total_ciphers_bought = match player_state.total_ciphers_bought.checked_add(amount) {
        Some(x) => x,
        None => {
            return Err(BlockrunnersError::ArithmeticOverflow);
        },
    };
    let old_prize_pool = game_state.prize_pool;
    let prize_pool = match old_prize_pool.checked_add(prize_pool_amount) {
        Some(x) => x,
        None => {
            return Err(BlockrunnersError::ArithmeticOverflow);
        },
    };
    player_state.last_login = now;
    player_state.ciphers = ciphers;
    player_state.total_ciphers_bought = total_ciphers_bought;
    game_state.prize_pool = prize_pool;
    if old_prize_pool > 0 {
        assert(prize_pool_amount * 100 <= cost * PRIZE_POOL_PERCENTAGE) by (nonlinear_arith)
            requires
                prize_pool_amount == (cost * PRIZE_POOL_PERCENTAGE) / 100,
        ;
        let increase_percentage = prize_pool_amount * 100 / old_prize_pool;
        if increase_percentage >= 10 {
            save_and_emit_event(
                &mut game_state.game_events,
                SocialFeedEventType::PrizePoolChange,
                increase_percentage,
                now,
            );
        }
    }
    save_and_emit_event(
        &mut player_state.player_events,
        SocialFeedEventType::CiphersPurchased,
        amount,
        now,
    );
    if player_state.total_ciphers_bought >= 1000 && !player_state.cipher_lord {
        player_state.cipher_lord = true;
        save_and_emit_event(
            &mut player_state.player_events,
            SocialFeedEventType::ProtocolFragment,
            ACHIEVEMENT_CIPHER_LORD,
            now,
        );
    }
    Ok(PurchaseSplit { prize_pool_amount, admin_amount })
}

/// Gives the player one card of kind `card`; fails with `ExceedsMaxCards` when
/// that kind is already at the cap, changing nothing.
pub fn debug_give_card(player_state: &mut PlayerState, card: Card) -> (r: Result<(), BlockrunnersError>)
    ensures
        old(player_state).cards.count(card) < u8::MAX <==> r is Ok,
        r is Err ==> r == Err::<(), BlockrunnersError>(BlockrunnersError::ExceedsMaxCards),
        *final(player_state) == (PlayerState {
            cards: old(player_state).cards.added(card),
            ..*old(player_state)
        }),
{
    if player_state.cards.add_card(card) {
        Ok(())
    } else {
        Err(BlockrunnersError::ExceedsMaxCards)
    }
}

} // verus!
