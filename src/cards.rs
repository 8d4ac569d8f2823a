use vstd::prelude::*;

use crate::errors::BlockrunnersError;

verus! {

/// The three kinds of single-use card.
#[derive(Clone, Copy, Debug, PartialEq, Eq, Structural)]
pub enum Card {
    Shield,
    Doubler,
    Swift,
}

/// Number of card kinds.
pub const CARD_KIND_COUNT: u8 = 3;

/// The card kind a random byte selects: the byte modulo the number of kinds.
pub open spec fn card_for_byte(b: u8) -> Card {
    if b % 3 == 0 {
        Card::Shield
    } else if b % 3 == 1 {
        Card::Doubler
    } else {
        Card::Swift
    }
}

impl Card {
    /// Selects a card kind from a random byte.
    pub fn from_random_byte(b: u8) -> (r: Card)
        ensures
            r == card_for_byte(b),
    {
        let index: u8 = b % CARD_KIND_COUNT;
        if index == 0 {
            Card::Shield
        } else if index == 1 {
            Card::Doubler
        } else {
            Card::Swift
        }
    }
}

/// The direction a runner commits to for a step.
#[derive(Clone, Copy, Debug, PartialEq, Eq, Structural)]
pub enum PathDirection {
    Left,
    Right,
}

/// Which cards a move asks to use.
#[derive(Clone, Copy, Debug, PartialEq, Eq, Structural)]
pub struct CardUsage {
    pub shield: bool,
    pub doubler: bool,
    pub swift: bool,
}

impl CardUsage {
    /// Whether this usage asks for the given card kind.
    pub open spec fn requests(self, card: Card) -> bool {
        match card {
            Card::Shield => self.shield,
            Card::Doubler => self.doubler,
            Card::Swift => self.swift,
        }
    }

    /// The number of distinct card kinds asked for.
    pub open spec fn card_count(self) -> int {
        (if self.shield { 1int } else { 0int }) + (if self.doubler { 1int } else { 0int }) + (
        if self.swift {
            1int
        } else {
            0int
        })
    }
}

/// Cipher cost of a move: one, plus one per card kind used, less two for Swift,
/// never below zero.
pub open spec fn move_cost(u: CardUsage) -> int {
    let raw = 1 + u.card_count() - (if u.swift { 2int } else { 0int });
    if raw < 0 {
        0
    } else {
        raw
    }
}

/// How many cards of each kind a runner holds; each count saturates at `u8::MAX`.
#[derive(Clone, Copy, Debug, PartialEq, Eq, Structural)]
pub struct CardCounts {
    pub shield: u8,
    pub doubler: u8,
    pub swift: u8,
}

impl CardCounts {
    pub open spec fn count(self, card: Card) -> u8 {
        match card {
            Card::Shield => self.shield,
            Card::Doubler => self.doubler,
            Card::Swift => self.swift,
        }
    }

    /// These counts with the count of `card` replaced by `n`.
    pub open spec fn with_count(self, card: Card, n: u8) -> CardCounts {
        match card {
            Card::Shield => CardCounts { shield: n, ..self },
            Card::Doubler => CardCounts { doubler: n, ..self },
            Card::Swift => CardCounts { swift: n, ..self },
        }
    }

    /// These counts after one card of `card` is added, saturating at the cap.
    pub open spec fn added(self, card: Card) -> CardCounts {
        if self.count(card) < u8::MAX {
            self.with_count(card, (self.count(card) + 1) as u8)
        } else {
            self
        }
    }

    /// These counts after one card of `card` is spent, never below zero.
    pub open spec fn removed(self, card: Card) -> CardCounts {
        if self.count(card) > 0 {
            self.with_count(card, (self.count(card) - 1) as u8)
        } else {
            self
        }
    }

    /// The seed every runner starts with: one card of each kind.
    pub open spec fn seed() -> CardCounts {
        CardCounts { shield: 1, doubler: 1, swift: 1 }
    }

    /// Whether every card kind that `u` asks for is held at least once.
    pub open spec fn covers(self, u: CardUsage) -> bool {
        forall|c: Card| #[trigger] u.requests(c) ==> self.count(c) > 0
    }

    /// Get the count for a specific card type
    pub fn get_count(&self, card: Card) -> (r: u8)
        ensures
            r == self.count(card),
    {
        match card {
            Card::Shield => self.shield,
            Card::Doubler => self.doubler,
            Card::Swift => self.swift,
        }
    }

    /// Add a card to the collection, returns true if successful (not at max)
    pub fn add_card(&mut self, card: Card) -> (r: bool)
        ensures
            r == (old(self).count(card) < u8::MAX),
            *final(self) == old(self).added(card),
    {
        match card {
            Card::Shield => {
                let old_count = self.shield;
                self.shield = self.shield.saturating_add(1);
                old_count < u8::MAX
            },
            Card::Doubler => {
                let old_count = self.doubler;
                self.doubler = self.doubler.saturating_add(1);
                old_count < u8::MAX
            },
            Card::Swift => {
                let old_count = self.swift;
                self.swift = self.swift.saturating_add(1);
                old_count < u8::MAX
            },
        }
    }

    /// Remove a card from the collection, returns true if successful
    pub fn remove_card(&mut self, card: Card) -> (r: bool)
        ensures
            r == (old(self).count(card) > 0),
            *final(self) == old(self).removed(card),
    {
        match card {
            Card::Shield => {
                let old_count = self.shield;
                self.shield = self.shield.saturating_sub(1);
                old_count > 0
            },
            Card::Doubler => {
                let old_count = self.doubler;
                self.doubler = self.doubler.saturating_sub(1);
                old_count > 0
            },
            Card::Swift => {
                let old_count = self.swift;
                self.swift = self.swift.saturating_sub(1);
                old_count > 0
            },
        }
    }

    /// Get the total number of cards
    pub fn total_cards(&self) -> (r: u16)
        ensures
            r == self.shield + self.doubler + self.swift,
    {
        self.shield as u16 + self.doubler as u16 + self.swift as u16
    }

    /// Check if the player has a specific card
    pub fn has_card(&self, card: Card) -> (r: bool)
        ensures
            r == (self.count(card) > 0),
    {
        self.get_count(card) > 0
    }

    /// The seed every runner starts with: one card of each kind.
    pub fn new_seed() -> (r: CardCounts)
        ensures
            r == CardCounts::seed(),
    {
        CardCounts { shield: 1, doubler: 1, swift: 1 }
    }
}

impl Default for CardCounts {
    fn default() -> (r: CardCounts)
        ensures
            r == CardCounts::seed(),
    {
        CardCounts::new_seed()
    }
}

/// Cipher cost of a move using the cards in `used_cards`, checked against the
/// counts held. Fails with `InsufficientCards` when a requested kind is not held.
pub fn move_cost_for(cards: &CardCounts, used_cards: &CardUsage) -> (r: Result<u64, BlockrunnersError>)
    ensures
        cards.covers(*used_cards) ==> r == Ok::<u64, BlockrunnersError>(move_cost(*used_cards) as u64),
        !cards.covers(*used_cards) ==> r == Err::<u64, BlockrunnersError>(
            BlockrunnersError::InsufficientCards,
        ),
{
    let mut total_cost: u64 = 1;
    if !used_cards.shield && !used_cards.doubler && !used_cards.swift {
        return Ok(total_cost);
    }
    if used_cards.shield {
        if !cards.has_card(Card::Shield) {
            assert(used_cards.requests(Card::Shield));
            return Err(BlockrunnersError::InsufficientCards);
        }
        total_cost = total_cost + 1;
    }
    if used_cards.doubler {
        if !cards.has_card(Card::Doubler) {
            assert(used_cards.requests(Card::Doubler));
            return Err(BlockrunnersError::InsufficientCards);
        }
        total_cost = total_cost + 1;
    }
    if used_cards.swift {
        if !cards.has_card(Card::Swift) {
            assert(used_cards.requests(Card::Swift));
            return Err(BlockrunnersError::InsufficientCards);
        }
        total_cost = total_cost + 1;
    }
    if used_cards.swift {
        total_cost = total_cost.saturating_sub(2);
    }
    assert(cards.covers(*used_cards)) by {
        assert forall|c: Card| #[trigger] used_cards.requests(c) implies cards.count(c) > 0 by {
            match c {
                Card::Shield => {},
                Card::Doubler => {},
                Card::Swift => {},
            }
        }
    }
    Ok(total_cost)
}

} // verus!
