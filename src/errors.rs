use vstd::prelude::*;

verus! {

/// Every way an action of the game can be refused.
#[derive(Clone, Copy, Debug, PartialEq, Eq, Structural)]
pub enum BlockrunnersError {
    ExceedsMaxCards,
    DuplicateCard,
    InsufficientBalance,
    InsufficientCards,
    InvalidCardIndex,
    NegativeCiphersAmount,
    PathAlreadyCompleted,
    ArithmeticOverflow,
    UnknownError,
    NoCardsLeft,
    InvalidMove,
    InvalidCardSelection,
    NotEnoughCiphers,
    NotAtEndOfPath,
    RandomnessAccountParsing,
    RandomnessAccountParsingReveal,
    RandomnessUnavailable,
    RandomnessFinished,
    RandomnessNotResolved,
    RandomnessStale,
    RandomnessExpired,
    Unauthorized,
    PlayingInDifferentGame,
    PlayerAlreadyJoinedGame,
    MoveNotCommitted,
}

impl BlockrunnersError {
    /// The human-readable text that goes with each error.
    pub fn message(&self) -> (r: &'static str) {
        match self {
            BlockrunnersError::ExceedsMaxCards => "Player used too many cards",
            BlockrunnersError::DuplicateCard => "Player used duplicate card",
            BlockrunnersError::InsufficientBalance => "Player has insufficient balance to pay",
            BlockrunnersError::InsufficientCards => "Player tried to use a card they don't have",
            BlockrunnersError::InvalidCardIndex => "Invalid card index generated",
            BlockrunnersError::NegativeCiphersAmount => "Player tries to purchase ciphers with a negative amount",
            BlockrunnersError::PathAlreadyCompleted => "Player has already completed the path",
            BlockrunnersError::ArithmeticOverflow => "Arithmetic overflow occurred during calculation",
            BlockrunnersError::UnknownError => "Unknown Error",
            BlockrunnersError::NoCardsLeft => "No cards left to use",
            BlockrunnersError::InvalidMove => "Invalid move",
            BlockrunnersError::InvalidCardSelection => "Invalid card selection",
            BlockrunnersError::NotEnoughCiphers => "Not enough ciphers to make this move",
            BlockrunnersError::NotAtEndOfPath => "Player not at end of path yet",
            BlockrunnersError::RandomnessAccountParsing => "Failed to parse randomness account",
            BlockrunnersError::RandomnessAccountParsingReveal => "Failed to parse randomness account for reveal",
            BlockrunnersError::RandomnessUnavailable => "Randomness data is unavailable",
            BlockrunnersError::RandomnessFinished => "Randomness finished",
            BlockrunnersError::RandomnessNotResolved => "Randomness not resolved",
            BlockrunnersError::RandomnessStale => "Randomness is stale",
            BlockrunnersError::RandomnessExpired => "Randomness is expired",
            BlockrunnersError::Unauthorized => "Unauthorized",
            BlockrunnersError::PlayingInDifferentGame => "Player is playing in a different game",
            BlockrunnersError::PlayerAlreadyJoinedGame => "Player has already joined the current game",
            BlockrunnersError::MoveNotCommitted => "No move has been committed",
        }
    }
}

} // verus!
