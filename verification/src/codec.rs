//! The tokens that buttons carry: which token stands for which selection, and
//! how a token that comes back is read.

use vstd::prelude::*;
use vstd::string::*;
use crate::state::{Choice, EvenOddChoice, GameType, HighLowChoice};
use crate::text::{
    chars_of, decimal_digits, decimal_text, is_text, lemma_decimal_digits, numeral_digits,
    parse_unsigned, parse_unsigned_spec, starts_with,
};

verus! {

/// What a token asks for.
#[derive(Clone, Copy, Debug, PartialEq, Eq, Structural)]
pub enum Interaction {
    /// A variant picked from the menu.
    Menu(GameType),
    /// A guess made in a variant.
    Play(Choice),
    /// Nothing that this game knows.
    Unrecognized,
}

/// The greatest number that the suffix of a number token may denote before the
/// token is refused unread.
pub const SUFFIX_LIMIT: u32 = 255;

/// The token of a variant's menu button.
pub open spec fn menu_token(game: GameType) -> Seq<char> {
    match game {
        GameType::EvenOdd => "game_even_odd"@,
        GameType::HighLow => "game_high_low"@,
        GameType::ExactNumber => "game_exact"@,
    }
}

/// What every token of an exact guess begins with.
pub open spec fn number_prefix() -> Seq<char> {
    "number_"@
}

/// The token of a well-formed guess's button.
pub open spec fn choice_token(choice: Choice) -> Seq<char>
    recommends
        choice.valid(),
{
    match choice {
        Choice::EvenOdd(EvenOddChoice::Even) => "choice_even"@,
        Choice::EvenOdd(EvenOddChoice::Odd) => "choice_odd"@,
        Choice::HighLow(HighLowChoice::High) => "choice_high"@,
        Choice::HighLow(HighLowChoice::Low) => "choice_low"@,
        Choice::ExactNumber(guess) => number_prefix() + decimal_digits(guess as nat),
    }
}

/// An interaction that has a token: a menu selection, or a well-formed guess.
pub open spec fn encodable(interaction: Interaction) -> bool {
    match interaction {
        Interaction::Menu(_) => true,
        Interaction::Play(choice) => choice.valid(),
        Interaction::Unrecognized => false,
    }
}

/// The token of an interaction that has one.
pub open spec fn token_of(interaction: Interaction) -> Seq<char>
    recommends
        encodable(interaction),
{
    match interaction {
        Interaction::Menu(game) => menu_token(game),
        Interaction::Play(choice) => choice_token(choice),
        Interaction::Unrecognized => Seq::<char>::empty(),
    }
}

/// Whether `token` begins with the prefix of the exact guesses.
pub open spec fn has_number_prefix(token: Seq<char>) -> bool {
    number_prefix().len() <= token.len() && token.take(number_prefix().len() as int)
        == number_prefix()
}

/// What follows the prefix in a token of an exact guess.
pub open spec fn number_suffix(token: Seq<char>) -> Seq<char>
    recommends
        has_number_prefix(token),
{
    token.subrange(number_prefix().len() as int, token.len() as int)
}

/// What the suffix of a number token asks for: the guess it denotes, where it
/// is a numeral for a face of the die.
pub open spec fn number_interaction(suffix: Seq<char>) -> Interaction {
    match parse_unsigned_spec(suffix, SUFFIX_LIMIT as nat) {
        Some(guess) => if 1 <= guess <= 6 {
            Interaction::Play(Choice::ExactNumber(guess as u8))
        } else {
            Interaction::Unrecognized
        },
        None => Interaction::Unrecognized,
    }
}

/// What a token asks for. The seven fixed tokens stand for the three menu
/// selections and the four two-way guesses; a token made of the number prefix
/// and a numeral for a face of the die stands for that exact guess; every
/// other text is unrecognized.
pub open spec fn interaction_of(token: Seq<char>) -> Interaction {
    if token == menu_token(GameType::EvenOdd) {
        Interaction::Menu(GameType::EvenOdd)
    } else if token == menu_token(GameType::HighLow) {
        Interaction::Menu(GameType::HighLow)
    } else if token == menu_token(GameType::ExactNumber) {
        Interaction::Menu(GameType::ExactNumber)
    } else if token == choice_token(Choice::EvenOdd(EvenOddChoice::Even)) {
        Interaction::Play(Choice::EvenOdd(EvenOddChoice::Even))
    } else if token == choice_token(Choice::EvenOdd(EvenOddChoice::Odd)) {
        Interaction::Play(Choice::EvenOdd(EvenOddChoice::Odd))
    } else if token == choice_token(Choice::HighLow(HighLowChoice::High)) {
        Interaction::Play(Choice::HighLow(HighLowChoice::High))
    } else if token == choice_token(Choice::HighLow(HighLowChoice::Low)) {
        Interaction::Play(Choice::HighLow(HighLowChoice::Low))
    } else if has_number_prefix(token) {
        number_interaction(number_suffix(token))
    } else {
        Interaction::Unrecognized
    }
}

/// The token of a variant's menu button.
pub fn menu_token_text(game: GameType) -> (token: &'static str)
    ensures
        token@ == menu_token(game),
{
    match game {
        GameType::EvenOdd => "game_even_odd",
        GameType::HighLow => "game_high_low",
        GameType::ExactNumber => "game_exact",
    }
}

/// The token of a well-formed guess's button.
pub fn choice_token_text(choice: Choice) -> (token: String)
    requires
        choice.valid(),
    ensures
        token@ == choice_token(choice),
{
    match choice {
        Choice::EvenOdd(EvenOddChoice::Even) => String::from_str("choice_even"),
        Choice::EvenOdd(EvenOddChoice::Odd) => String::from_str("choice_odd"),
        Choice::HighLow(HighLowChoice::High) => String::from_str("choice_high"),
        Choice::HighLow(HighLowChoice::Low) => String::from_str("choice_low"),
        Choice::ExactNumber(guess) => {
            let mut token = String::from_str("number_");
            let digits = decimal_text(guess);
            token.append(digits.as_str());
            token
        },
    }
}

/// Writes an interaction as the token that stands for it. Only a menu
/// selection and a well-formed guess have one.
pub fn encode(interaction: Interaction) -> (token: Option<String>)
    ensures
        encodable(interaction) ==> token is Some && token->0@ == token_of(interaction),
        !encodable(interaction) ==> token is None,
{
    match interaction {
        Interaction::Menu(game) => Some(String::from_str(menu_token_text(game))),
        Interaction::Play(choice) => {
            if choice.is_valid() {
                Some(choice_token_text(choice))
            } else {
                None
            }
        },
        Interaction::Unrecognized => None,
    }
}

/// Reads a token. A guess that comes out of it is well formed.
pub fn decode(token: &str) -> (interaction: Interaction)
    ensures
        interaction == interaction_of(token@),
        interaction matches Interaction::Play(choice) ==> choice.valid(),
{
    let chars = chars_of(token);
    let chars = chars.as_slice();
    if is_text("game_even_odd", chars) {
        Interaction::Menu(GameType::EvenOdd)
    } else if is_text("game_high_low", chars) {
        Interaction::Menu(GameType::HighLow)
    } else if is_text("game_exact", chars) {
        Interaction::Menu(GameType::ExactNumber)
    } else if is_text("choice_even", chars) {
        Interaction::Play(Choice::EvenOdd(EvenOddChoice::Even))
    } else if is_text("choice_odd", chars) {
        Interaction::Play(Choice::EvenOdd(EvenOddChoice::Odd))
    } else if is_text("choice_high", chars) {
        Interaction::Play(Choice::HighLow(HighLowChoice::High))
    } else if is_text("choice_low", chars) {
        Interaction::Play(Choice::HighLow(HighLowChoice::Low))
    } else {
        let prefix = chars_of("number_");
        if starts_with(chars, prefix.as_slice()) {
            match parse_unsigned(chars, prefix.len(), SUFFIX_LIMIT) {
                Some(guess) => {
                    if 1 <= guess && guess <= 6 {
                        Interaction::Play(Choice::ExactNumber(guess as u8))
                    } else {
                        Interaction::Unrecognized
                    }
                },
                None => Interaction::Unrecognized,
            }
        } else {
            Interaction::Unrecognized
        }
    }
}

/// Reading the token of an interaction gives the interaction back.
pub proof fn lemma_decode_encode(interaction: Interaction)
    requires
        encodable(interaction),
    ensures
        interaction_of(token_of(interaction)) == interaction,
{
    reveal_strlit("game_even_odd");
    reveal_strlit("game_high_low");
    reveal_strlit("game_exact");
    reveal_strlit("choice_even");
    reveal_strlit("choice_odd");
    reveal_strlit("choice_high");
    reveal_strlit("choice_low");
    reveal_strlit("number_");
    let token = token_of(interaction);
    match interaction {
        Interaction::Menu(game) => {
            lemma_differ_at("game_even_odd"@, "game_high_low"@, 5);
            lemma_differ_at("game_even_odd"@, "game_exact"@, 6);
            lemma_differ_at("game_high_low"@, "game_exact"@, 5);
        },
        Interaction::Play(Choice::ExactNumber(guess)) => {
            let digits = decimal_digits(guess as nat);
            lemma_decimal_digits(guess as nat);
            assert(digits.len() == 1);
            assert(token.len() == 8);
            assert(token[0] == 'n');
            lemma_differ_at(token, "game_even_odd"@, 0);
            lemma_differ_at(token, "game_high_low"@, 0);
            lemma_differ_at(token, "game_exact"@, 0);
            lemma_differ_at(token, "choice_even"@, 0);
            lemma_differ_at(token, "choice_odd"@, 0);
            lemma_differ_at(token, "choice_high"@, 0);
            lemma_differ_at(token, "choice_low"@, 0);
            assert(token.take(7) =~= number_prefix());
            assert(number_suffix(token) =~= digits);
        },
        Interaction::Play(choice) => {
            lemma_differ_at(token, "game_even_odd"@, 0);
            lemma_differ_at(token, "game_high_low"@, 0);
            lemma_differ_at(token, "game_exact"@, 0);
            lemma_differ_at("choice_even"@, "choice_odd"@, 7);
            lemma_differ_at("choice_even"@, "choice_high"@, 7);
            lemma_differ_at("choice_even"@, "choice_low"@, 7);
            lemma_differ_at("choice_odd"@, "choice_high"@, 7);
            lemma_differ_at("choice_odd"@, "choice_low"@, 7);
            lemma_differ_at("choice_high"@, "choice_low"@, 7);
        },
        Interaction::Unrecognized => {},
    }
}

/// Whatever the token, a guess read from it is well formed: an exact guess
/// outside the faces of the die never leaves the codec.
pub proof fn lemma_decoded_choice_valid(token: Seq<char>)
    ensures
        interaction_of(token) matches Interaction::Play(choice) ==> choice.valid(),
{
}

/// Two texts that differ in one place are not the same text.
proof fn lemma_differ_at(a: Seq<char>, b: Seq<char>, i: int)
    requires
        0 <= i < a.len(),
        0 <= i < b.len(),
        a[i] != b[i],
    ensures
        a != b,
{
}

} // verus!
