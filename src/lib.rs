//! Commit-reveal move resolution for a path-running game: card economy,
//! randomness lifecycle, move state machine, progression and statistics.
pub mod cards;
pub mod constants;
pub mod errors;
pub mod feed;
pub mod state;
pub mod randomness;
pub mod progress;
pub mod moves;
pub mod purchase;
pub mod laws;
