//! A turn-based dice-guessing game: the rules that decide a round, the codec
//! for the tokens a player's buttons carry, and the script of replies that a
//! round sends, all stated and proved over plain values.

pub mod state;
pub mod random;
pub mod game;
pub mod text;
pub mod codec;
pub mod prompts;
pub mod round;
pub mod router;
pub mod config;
