//! The vocabulary of the game: dialogue states, game variants and the choices
//! a player can make in each of them.

use vstd::prelude::*;

verus! {

/// Where a conversation stands between two inbound events.
#[derive(Clone, Copy, Debug, PartialEq, Eq, Structural)]
pub enum DialogueState {
    /// Nothing has happened yet.
    Start,
    /// The player is looking at the menu of variants.
    SelectingGameType,
    /// The player is asked for even or odd.
    EvenOddGame,
    /// The player is asked for high or low.
    HighLowGame,
    /// The player has picked the exact-number variant.
    ExactNumberGame,
    /// The player is asked for a number from one to six.
    WaitingForNumber,
}

impl Default for DialogueState {
    fn default() -> (state: Self)
        ensures
            state == DialogueState::Start,
    {
        DialogueState::Start
    }
}

/// The three variants of the game.
#[derive(Clone, Copy, Debug, PartialEq, Eq, Structural)]
pub enum GameType {
    /// Guess the parity of the roll.
    EvenOdd,
    /// Guess whether the roll is above or below three and a half.
    HighLow,
    /// Guess the roll itself.
    ExactNumber,
}

/// A guess at the parity of the roll.
#[derive(Clone, Copy, Debug, PartialEq, Eq, Structural)]
pub enum EvenOddChoice {
    Even,
    Odd,
}

/// A guess at the half of the die the roll falls in.
#[derive(Clone, Copy, Debug, PartialEq, Eq, Structural)]
pub enum HighLowChoice {
    /// Four, five or six.
    High,
    /// One, two or three.
    Low,
}

/// A guess at whether the roll is a one.
#[derive(Clone, Copy, Debug, PartialEq, Eq, Structural)]
pub enum GuessOneChoice {
    Yes,
    No,
}

/// What a player bets on in one round: the variant together with the guess
/// made in it.
#[derive(Clone, Copy, Debug, PartialEq, Eq, Structural)]
pub enum Choice {
    /// A guess at the parity of the roll.
    EvenOdd(EvenOddChoice),
    /// A guess at the half of the die.
    HighLow(HighLowChoice),
    /// A guess at the roll itself, a face of the die.
    ExactNumber(u8),
}

impl Choice {
    /// A choice is well formed when an exact guess names a face of the die.
    pub open spec fn valid(self) -> bool {
        match self {
            Choice::ExactNumber(guess) => 1 <= guess <= 6,
            _ => true,
        }
    }

    /// The variant that the choice belongs to.
    pub open spec fn game_spec(self) -> GameType {
        match self {
            Choice::EvenOdd(_) => GameType::EvenOdd,
            Choice::HighLow(_) => GameType::HighLow,
            Choice::ExactNumber(_) => GameType::ExactNumber,
        }
    }

    /// Whether the choice is well formed.
    pub fn is_valid(&self) -> (ok: bool)
        ensures
            ok == self.valid(),
    {
        match self {
            Choice::ExactNumber(guess) => 1 <= *guess && *guess <= 6,
            _ => true,
        }
    }

    /// The variant that the choice belongs to.
    pub fn game(&self) -> (game: GameType)
        ensures
            game == self.game_spec(),
    {
        match self {
            Choice::EvenOdd(_) => GameType::EvenOdd,
            Choice::HighLow(_) => GameType::HighLow,
            Choice::ExactNumber(_) => GameType::ExactNumber,
        }
    }
}

} // verus!
