//! The die and the rules that decide a round.

use vstd::prelude::*;
use crate::random::{RandomSource, ThreadSource};
use crate::state::{EvenOddChoice, GuessOneChoice, HighLowChoice};

verus! {

/// The lowest face of the die.
pub const DIE_MIN: u8 = 1;

/// The highest face of the die.
pub const DIE_MAX: u8 = 6;

/// A value that a die can show.
pub open spec fn is_die_face(value: int) -> bool {
    DIE_MIN <= value <= DIE_MAX
}

/// An even-or-odd guess wins exactly when the roll has the parity guessed.
pub open spec fn even_odd_wins(roll: int, choice: EvenOddChoice) -> bool {
    (roll % 2 == 0) == (choice == EvenOddChoice::Even)
}

/// A high guess wins on four and above, a low guess on three and below.
pub open spec fn high_low_wins(roll: int, choice: HighLowChoice) -> bool {
    match choice {
        HighLowChoice::High => roll >= 4,
        HighLowChoice::Low => roll <= 3,
    }
}

/// An exact guess wins exactly when it is the roll.
pub open spec fn exact_number_wins(roll: int, guess: int) -> bool {
    roll == guess
}

/// A guess at a one wins exactly when it says whether the roll is a one.
pub open spec fn guess_one_wins(roll: int, choice: GuessOneChoice) -> bool {
    (roll == 1) == (choice == GuessOneChoice::Yes)
}

/// How many messages there are to greet a win with.
pub const WIN_MESSAGES: usize = 5;

/// How many messages there are to soften a loss with.
pub const LOSE_MESSAGES: usize = 5;

/// The picture of a face of the die; of any other number, a die as such.
pub open spec fn dice_emoji_spec(number: int) -> Seq<char> {
    if number == 1 {
        "⚀"@
    } else if number == 2 {
        "⚁"@
    } else if number == 3 {
        "⚂"@
    } else if number == 4 {
        "⚃"@
    } else if number == 5 {
        "⚄"@
    } else if number == 6 {
        "⚅"@
    } else {
        "🎲"@
    }
}

/// The messages that greet a win, by their place in the pool.
pub open spec fn win_message_spec(index: int) -> Seq<char>
    recommends
        0 <= index < WIN_MESSAGES,
{
    if index == 0 {
        "🎉 Поздравляю! Вы угадали!"@
    } else if index == 1 {
        "🎊 Отлично! Правильный ответ!"@
    } else if index == 2 {
        "✨ Великолепно! Вы победили!"@
    } else if index == 3 {
        "🏆 Браво! Точное попадание!"@
    } else {
        "🎯 Превосходно! Вы угадали!"@
    }
}

/// The messages that soften a loss, by their place in the pool.
pub open spec fn lose_message_spec(index: int) -> Seq<char>
    recommends
        0 <= index < LOSE_MESSAGES,
{
    if index == 0 {
        "😔 Не угадали, но не расстраивайтесь!"@
    } else if index == 1 {
        "🎲 В этот раз не повезло, попробуйте еще!"@
    } else if index == 2 {
        "💪 Ничего страшного, удача улыбнется в следующий раз!"@
    } else if index == 3 {
        "🌟 Не переживайте, у вас все получится!"@
    } else {
        "🎮 Попытка не пытка, играем еще!"@
    }
}

/// One of the messages that greet a win.
pub open spec fn is_win_message(text: Seq<char>) -> bool {
    exists|index: int| 0 <= index < WIN_MESSAGES && text == win_message_spec(index)
}

/// One of the messages that soften a loss.
pub open spec fn is_lose_message(text: Seq<char>) -> bool {
    exists|index: int| 0 <= index < LOSE_MESSAGES && text == lose_message_spec(index)
}

/// Whether `message` is the message for wins at the place that one draw on a
/// source picked, the draw leaving the source as `after`.
pub open spec fn drew_win_message<R: RandomSource>(before: R, after: R, message: Seq<char>)
    -> bool {
    exists|index: usize|
        index < WIN_MESSAGES && #[trigger] before.draws(
            after,
            0,
            (WIN_MESSAGES - 1) as usize,
            index,
        ) && message == win_message_spec(index as int)
}

/// Whether `message` is the message for losses at the place that one draw on
/// a source picked, the draw leaving the source as `after`.
pub open spec fn drew_lose_message<R: RandomSource>(before: R, after: R, message: Seq<char>)
    -> bool {
    exists|index: usize|
        index < LOSE_MESSAGES && #[trigger] before.draws(
            after,
            0,
            (LOSE_MESSAGES - 1) as usize,
            index,
        ) && message == lose_message_spec(index as int)
}

/// The rules of the game, as functions without state.
pub struct DiceGame;

impl DiceGame {
    /// Rolls the die on the generator of the thread: any face may come, and
    /// nothing but a face.
    pub fn roll_dice() -> (roll: u8)
        ensures
            is_die_face(roll as int),
    {
        let mut source = ThreadSource;
        Self::roll_with(&mut source)
    }

    /// Rolls the die on the source given: the roll is what the source gives
    /// in one draw between the lowest face and the highest.
    pub fn roll_with<R: RandomSource>(source: &mut R) -> (roll: u8)
        ensures
            is_die_face(roll as int),
            old(source).draws(*final(source), DIE_MIN as usize, DIE_MAX as usize, roll as usize),
    {
        let value = source.next_in_range(DIE_MIN as usize, DIE_MAX as usize);
        value as u8
    }

    /// Decides an even-or-odd round.
    pub fn check_even_odd(dice_result: u8, user_choice: EvenOddChoice) -> (win: bool)
        ensures
            win == even_odd_wins(dice_result as int, user_choice),
    {
        let is_even = dice_result % 2 == 0;
        match user_choice {
            EvenOddChoice::Even => is_even,
            EvenOddChoice::Odd => !is_even,
        }
    }

    /// Decides a high-or-low round.
    pub fn check_high_low(dice_result: u8, user_choice: HighLowChoice) -> (win: bool)
        ensures
            win == high_low_wins(dice_result as int, user_choice),
    {
        match user_choice {
            HighLowChoice::High => dice_result >= 4,
            HighLowChoice::Low => dice_result <= 3,
        }
    }

    /// Decides an exact-number round.
    pub fn check_exact_number(dice_result: u8, user_guess: u8) -> (win: bool)
        ensures
            win == exact_number_wins(dice_result as int, user_guess as int),
    {
        dice_result == user_guess
    }

    /// Decides a round of guessing whether the roll is a one.
    pub fn check_guess_one(dice_result: u8, user_choice: GuessOneChoice) -> (win: bool)
        ensures
            win == guess_one_wins(dice_result as int, user_choice),
    {
        let is_one = dice_result == 1;
        match user_choice {
            GuessOneChoice::Yes => is_one,
            GuessOneChoice::No => !is_one,
        }
    }

    /// The picture of a face of the die; of any other number, a die as such.
    pub fn dice_emoji(number: u8) -> (emoji: &'static str)
        ensures
            emoji@ == dice_emoji_spec(number as int),
    {
        match number {
            1 => "⚀",
            2 => "⚁",
            3 => "⚂",
            4 => "⚃",
            5 => "⚄",
            6 => "⚅",
            _ => "🎲",
        }
    }

    /// The message at place `index` of those that greet a win.
    pub fn win_message_at(index: usize) -> (message: &'static str)
        requires
            index < WIN_MESSAGES,
        ensures
            message@ == win_message_spec(index as int),
    {
        match index {
            0 => "🎉 Поздравляю! Вы угадали!",
            1 => "🎊 Отлично! Правильный ответ!",
            2 => "✨ Великолепно! Вы победили!",
            3 => "🏆 Браво! Точное попадание!",
            _ => "🎯 Превосходно! Вы угадали!",
        }
    }

    /// The message at place `index` of those that soften a loss.
    pub fn lose_message_at(index: usize) -> (message: &'static str)
        requires
            index < LOSE_MESSAGES,
        ensures
            message@ == lose_message_spec(index as int),
    {
        match index {
            0 => "😔 Не угадали, но не расстраивайтесь!",
            1 => "🎲 В этот раз не повезло, попробуйте еще!",
            2 => "💪 Ничего страшного, удача улыбнется в следующий раз!",
            3 => "🌟 Не переживайте, у вас все получится!",
            _ => "🎮 Попытка не пытка, играем еще!",
        }
    }

    /// A message to greet a win with, drawn on the generator of the thread.
    pub fn win_message() -> (message: &'static str)
        ensures
            is_win_message(message@),
    {
        let mut source = ThreadSource;
        Self::win_message_with(&mut source)
    }

    /// A message to soften a loss with, drawn on the generator of the thread.
    pub fn lose_message() -> (message: &'static str)
        ensures
            is_lose_message(message@),
    {
        let mut source = ThreadSource;
        Self::lose_message_with(&mut source)
    }

    /// A message to greet a win with: the one at the place that the source
    /// gives in one draw over the places of the pool.
    pub fn win_message_with<R: RandomSource>(source: &mut R) -> (message: &'static str)
        ensures
            is_win_message(message@),
            drew_win_message(*old(source), *final(source), message@),
    {
        let index = source.next_in_range(0, WIN_MESSAGES - 1);
        Self::win_message_at(index)
    }

    /// A message to soften a loss with: the one at the place that the source
    /// gives in one draw over the places of the pool.
    pub fn lose_message_with<R: RandomSource>(source: &mut R) -> (message: &'static str)
        ensures
            is_lose_message(message@),
            drew_lose_message(*old(source), *final(source), message@),
    {
        let index = source.next_in_range(0, LOSE_MESSAGES - 1);
        Self::lose_message_at(index)
    }
}

/// An even-or-odd guess wins on even exactly when the roll is even, and on
/// odd exactly when it is not.
pub proof fn lemma_even_odd(roll: int)
    ensures
        even_odd_wins(roll, EvenOddChoice::Even) == (roll % 2 == 0),
        even_odd_wins(roll, EvenOddChoice::Odd) == !(roll % 2 == 0),
{
}

/// High wins from four up, low up to three, and of the two exactly one wins
/// on any roll.
pub proof fn lemma_high_low(roll: int)
    ensures
        high_low_wins(roll, HighLowChoice::High) == (roll >= 4),
        high_low_wins(roll, HighLowChoice::Low) == (roll <= 3),
        high_low_wins(roll, HighLowChoice::High) != high_low_wins(roll, HighLowChoice::Low),
{
}

/// An exact guess wins exactly when it is the roll: any other guess loses.
pub proof fn lemma_exact_number(roll: int, guess: int)
    ensures
        exact_number_wins(roll, guess) == (roll == guess),
        guess != roll ==> !exact_number_wins(roll, guess),
{
}

} // verus!
