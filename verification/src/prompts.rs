//! What the player is shown between rounds: the fixed texts, and the keyboards
//! whose buttons carry the tokens of the codec.

use vstd::prelude::*;
use vstd::string::*;
use crate::codec::{
    choice_token, choice_token_text, interaction_of, lemma_decode_encode, menu_token,
    menu_token_text, Interaction,
};
use crate::state::{Choice, EvenOddChoice, GameType, HighLowChoice};

verus! {

/// The welcome that answers the start command.
pub const START_TEXT: &'static str =
    "🎲 Привет! Добро пожаловать в игру с кубиками!\n\nЯ предлагаю вам угадать результат броска кубика.\nДоступны три варианта игры:\n\n🔵 Четное/Нечетное - угадайте четность числа\n🔴 Больше/Меньше 3.5 - угадайте диапазон\n🎯 Точное число - угадайте конкретное число\n\nИспользуйте /play чтобы начать игру!";

/// The instructions that answer the help command.
pub const HELP_TEXT: &'static str =
    "🎮 <b>Помощь по игре в кубики</b>\n\n<b>Доступные команды:</b>\n/start - начать работу с ботом\n/play - начать новую игру\n/help - показать эту справку\n\n<b>Варианты игры:</b>\n\n🔵 <b>Четное/Нечетное</b>\nУгадайте, будет ли результат четным или нечетным числом\n\n🔴 <b>Больше/Меньше 3.5</b>\nУгадайте, будет ли результат больше 3.5 (4-6) или меньше 3.5 (1-3)\n\n🎯 <b>Точное число</b>\nУгадайте конкретное число от 1 до 6";

/// The line above the menu of variants.
pub const MENU_TEXT: &'static str = "🎲 Выберите вариант игры:";

/// The question of the even-or-odd variant.
pub const EVEN_ODD_TEXT: &'static str =
    "🔵 <b>Игра: Четное/Нечетное</b>\n\nВыберите, будет ли результат броска четным или нечетным числом:";

/// The question of the high-or-low variant.
pub const HIGH_LOW_TEXT: &'static str =
    "🔴 <b>Игра: Больше/Меньше 3.5</b>\n\nВыберите, будет ли результат больше или меньше 3.5:";

/// The question of the exact-number variant.
pub const EXACT_NUMBER_TEXT: &'static str =
    "🎯 <b>Игра: Точное число</b>\n\nВыберите число от 1 до 6, которое выпадет на кубике:";

/// The answer to a greeting.
pub const GREETING_TEXT: &'static str = "🎲 Привет! Хотите сыграть в кубики? Используйте /play";

/// The answer to a message that is neither a greeting nor a wish to play.
pub const UNKNOWN_TEXT: &'static str =
    "🤔 Не понимаю команду. Используйте /help для получения справки или /play для игры.";

/// One button of a keyboard: what it shows, and the token it sends back.
#[derive(Clone, Debug, PartialEq, Eq)]
pub struct Button {
    pub label: String,
    pub token: String,
}

/// A button as plain text.
pub struct ButtonView {
    pub label: Seq<char>,
    pub token: Seq<char>,
}

impl View for Button {
    type V = ButtonView;

    open spec fn view(&self) -> ButtonView {
        ButtonView { label: self.label@, token: self.token@ }
    }
}

/// The rows of a keyboard as plain text, row by row and button by button.
pub open spec fn keyboard_view(rows: Seq<Vec<Button>>) -> Seq<Seq<ButtonView>> {
    Seq::new(rows.len(), |i: int| Seq::new(rows[i]@.len(), |j: int| rows[i]@[j]@))
}

/// A reply that may bring a keyboard along.
#[derive(Clone, Debug, PartialEq, Eq)]
pub struct Prompt {
    /// The text of the reply.
    pub text: String,
    /// Whether the text carries markup that the transport is to render.
    pub markup: bool,
    /// The rows of buttons under the text; none where the reply is text only.
    pub keyboard: Vec<Vec<Button>>,
}

/// A prompt as plain text.
pub struct PromptView {
    pub text: Seq<char>,
    pub markup: bool,
    pub keyboard: Seq<Seq<ButtonView>>,
}

impl View for Prompt {
    type V = PromptView;

    open spec fn view(&self) -> PromptView {
        PromptView {
            text: self.text@,
            markup: self.markup,
            keyboard: keyboard_view(self.keyboard@),
        }
    }
}

/// What the menu button of a variant shows.
pub open spec fn menu_label(game: GameType) -> Seq<char> {
    match game {
        GameType::EvenOdd => "🔵 Четное/Нечетное"@,
        GameType::HighLow => "🔴 Больше/Меньше 3.5"@,
        GameType::ExactNumber => "🎯 Точное число"@,
    }
}

/// What the button of an exact guess shows. Only the faces of the die have a
/// label.
pub open spec fn number_label(guess: int) -> Seq<char>
    recommends
        1 <= guess <= 6,
{
    if guess == 1 {
        "1️⃣"@
    } else if guess == 2 {
        "2️⃣"@
    } else if guess == 3 {
        "3️⃣"@
    } else if guess == 4 {
        "4️⃣"@
    } else if guess == 5 {
        "5️⃣"@
    } else if guess == 6 {
        "6️⃣"@
    } else {
        Seq::<char>::empty()
    }
}

/// What the button of a well-formed guess shows.
pub open spec fn choice_label(choice: Choice) -> Seq<char>
    recommends
        choice.valid(),
{
    match choice {
        Choice::EvenOdd(EvenOddChoice::Even) => "🔵 Четное"@,
        Choice::EvenOdd(EvenOddChoice::Odd) => "🔴 Нечетное"@,
        Choice::HighLow(HighLowChoice::High) => "⬆️ Больше 3.5 (4-6)"@,
        Choice::HighLow(HighLowChoice::Low) => "⬇️ Меньше 3.5 (1-3)"@,
        Choice::ExactNumber(guess) => number_label(guess as int),
    }
}

/// The menu button of a variant.
pub open spec fn menu_button(game: GameType) -> ButtonView {
    ButtonView { label: menu_label(game), token: menu_token(game) }
}

/// The button of a well-formed guess.
pub open spec fn choice_button(choice: Choice) -> ButtonView
    recommends
        choice.valid(),
{
    ButtonView { label: choice_label(choice), token: choice_token(choice) }
}

/// The menu of variants: one row for each.
pub open spec fn menu_keyboard() -> Seq<Seq<ButtonView>> {
    seq![
        seq![menu_button(GameType::EvenOdd)],
        seq![menu_button(GameType::HighLow)],
        seq![menu_button(GameType::ExactNumber)],
    ]
}

/// The guesses of a variant: the two of a two-way variant side by side, the
/// six faces of the die in two rows of three.
pub open spec fn choice_keyboard(game: GameType) -> Seq<Seq<ButtonView>> {
    match game {
        GameType::EvenOdd => seq![
            seq![
                choice_button(Choice::EvenOdd(EvenOddChoice::Even)),
                choice_button(Choice::EvenOdd(EvenOddChoice::Odd)),
            ],
        ],
        GameType::HighLow => seq![
            seq![
                choice_button(Choice::HighLow(HighLowChoice::High)),
                choice_button(Choice::HighLow(HighLowChoice::Low)),
            ],
        ],
        GameType::ExactNumber => seq![
            seq![
                choice_button(Choice::ExactNumber(1)),
                choice_button(Choice::ExactNumber(2)),
                choice_button(Choice::ExactNumber(3)),
            ],
            seq![
                choice_button(Choice::ExactNumber(4)),
                choice_button(Choice::ExactNumber(5)),
                choice_button(Choice::ExactNumber(6)),
            ],
        ],
    }
}

/// The question of a variant.
pub open spec fn choice_question(game: GameType) -> Seq<char> {
    match game {
        GameType::EvenOdd => EVEN_ODD_TEXT@,
        GameType::HighLow => HIGH_LOW_TEXT@,
        GameType::ExactNumber => EXACT_NUMBER_TEXT@,
    }
}

/// The prompt that offers the variants: plain text above the menu.
pub open spec fn menu_prompt() -> PromptView {
    PromptView { text: MENU_TEXT@, markup: false, keyboard: menu_keyboard() }
}

/// The prompt that asks for a guess in a variant: its question, with markup,
/// above its guesses.
pub open spec fn choice_prompt_spec(game: GameType) -> PromptView {
    PromptView { text: choice_question(game), markup: true, keyboard: choice_keyboard(game) }
}

/// A reply of text alone.
pub open spec fn plain_prompt(text: Seq<char>, markup: bool) -> PromptView {
    PromptView { text, markup, keyboard: Seq::<Seq<ButtonView>>::empty() }
}

/// A reply of text alone.
pub fn text_prompt(text: &str, markup: bool) -> (prompt: Prompt)
    ensures
        prompt@ == plain_prompt(text@, markup),
{
    let prompt = Prompt { text: String::from_str(text), markup, keyboard: Vec::new() };
    assert(prompt@.keyboard =~= Seq::<Seq<ButtonView>>::empty());
    prompt
}

/// The menu button of a variant.
pub fn make_menu_button(game: GameType) -> (button: Button)
    ensures
        button@ == menu_button(game),
{
    let label = match game {
        GameType::EvenOdd => "🔵 Четное/Нечетное",
        GameType::HighLow => "🔴 Больше/Меньше 3.5",
        GameType::ExactNumber => "🎯 Точное число",
    };
    Button { label: String::from_str(label), token: String::from_str(menu_token_text(game)) }
}

/// The button of a well-formed guess.
pub fn make_choice_button(choice: Choice) -> (button: Button)
    requires
        choice.valid(),
    ensures
        button@ == choice_button(choice),
{
    let label = match choice {
        Choice::EvenOdd(EvenOddChoice::Even) => "🔵 Четное",
        Choice::EvenOdd(EvenOddChoice::Odd) => "🔴 Нечетное",
        Choice::HighLow(HighLowChoice::High) => "⬆️ Больше 3.5 (4-6)",
        Choice::HighLow(HighLowChoice::Low) => "⬇️ Меньше 3.5 (1-3)",
        Choice::ExactNumber(guess) => match guess {
            1 => "1️⃣",
            2 => "2️⃣",
            3 => "3️⃣",
            4 => "4️⃣",
            5 => "5️⃣",
            _ => "6️⃣",
        },
    };
    Button { label: String::from_str(label), token: choice_token_text(choice) }
}

/// A row of one button.
fn row_of_one(first: Button) -> (row: Vec<Button>)
    ensures
        row@ == seq![first],
{
    let mut row: Vec<Button> = Vec::new();
    row.push(first);
    assert(row@ =~= seq![first]);
    row
}

/// A row of two buttons.
fn row_of_two(first: Button, second: Button) -> (row: Vec<Button>)
    ensures
        row@ == seq![first, second],
{
    let mut row: Vec<Button> = Vec::new();
    row.push(first);
    row.push(second);
    assert(row@ =~= seq![first, second]);
    row
}

/// A row of three buttons.
fn row_of_three(first: Button, second: Button, third: Button) -> (row: Vec<Button>)
    ensures
        row@ == seq![first, second, third],
{
    let mut row: Vec<Button> = Vec::new();
    row.push(first);
    row.push(second);
    row.push(third);
    assert(row@ =~= seq![first, second, third]);
    row
}

/// The prompt that offers the three variants.
pub fn game_menu() -> (prompt: Prompt)
    ensures
        prompt@ == menu_prompt(),
{
    let mut keyboard: Vec<Vec<Button>> = Vec::new();
    keyboard.push(row_of_one(make_menu_button(GameType::EvenOdd)));
    keyboard.push(row_of_one(make_menu_button(GameType::HighLow)));
    keyboard.push(row_of_one(make_menu_button(GameType::ExactNumber)));
    let prompt = Prompt { text: String::from_str(MENU_TEXT), markup: false, keyboard };
    assert(prompt@.keyboard =~~= menu_keyboard());
    prompt
}

/// The prompt that asks for a guess in a variant.
pub fn choice_prompt(game: GameType) -> (prompt: Prompt)
    ensures
        prompt@ == choice_prompt_spec(game),
{
    let mut keyboard: Vec<Vec<Button>> = Vec::new();
    let question = match game {
        GameType::EvenOdd => {
            keyboard.push(
                row_of_two(
                    make_choice_button(Choice::EvenOdd(EvenOddChoice::Even)),
                    make_choice_button(Choice::EvenOdd(EvenOddChoice::Odd)),
                ),
            );
            EVEN_ODD_TEXT
        },
        GameType::HighLow => {
            keyboard.push(
                row_of_two(
                    make_choice_button(Choice::HighLow(HighLowChoice::High)),
                    make_choice_button(Choice::HighLow(HighLowChoice::Low)),
                ),
            );
            HIGH_LOW_TEXT
        },
        GameType::ExactNumber => {
            keyboard.push(
                row_of_three(
                    make_choice_button(Choice::ExactNumber(1)),
                    make_choice_button(Choice::ExactNumber(2)),
                    make_choice_button(Choice::ExactNumber(3)),
                ),
            );
            keyboard.push(
                row_of_three(
                    make_choice_button(Choice::ExactNumber(4)),
                    make_choice_button(Choice::ExactNumber(5)),
                    make_choice_button(Choice::ExactNumber(6)),
                ),
            );
            EXACT_NUMBER_TEXT
        },
    };
    let prompt = Prompt { text: String::from_str(question), markup: true, keyboard };
    assert(prompt@.keyboard =~~= choice_keyboard(game));
    prompt
}

/// Every button of the menu sends the token of a variant: read back, it
/// selects the variant of its row.
pub proof fn lemma_menu_buttons_decode(row: int)
    requires
        0 <= row < menu_keyboard().len(),
    ensures
        menu_keyboard()[row].len() == 1,
        interaction_of(menu_keyboard()[row][0].token) is Menu,
        row == 0 ==> interaction_of(menu_keyboard()[row][0].token) == Interaction::Menu(
            GameType::EvenOdd,
        ),
        row == 1 ==> interaction_of(menu_keyboard()[row][0].token) == Interaction::Menu(
            GameType::HighLow,
        ),
        row == 2 ==> interaction_of(menu_keyboard()[row][0].token) == Interaction::Menu(
            GameType::ExactNumber,
        ),
{
    lemma_decode_encode(Interaction::Menu(GameType::EvenOdd));
    lemma_decode_encode(Interaction::Menu(GameType::HighLow));
    lemma_decode_encode(Interaction::Menu(GameType::ExactNumber));
}

/// Every button under a variant's question sends the token of a well-formed
/// guess in that variant, and shows the label of that guess.
pub proof fn lemma_choice_buttons_decode(game: GameType, row: int, column: int)
    requires
        0 <= row < choice_keyboard(game).len(),
        0 <= column < choice_keyboard(game)[row].len(),
    ensures
        match interaction_of(choice_keyboard(game)[row][column].token) {
            Interaction::Play(choice) => choice.valid() && choice.game_spec() == game
                && choice_keyboard(game)[row][column] == choice_button(choice),
            _ => false,
        },
{
    lemma_decode_encode(Interaction::Play(Choice::EvenOdd(EvenOddChoice::Even)));
    lemma_decode_encode(Interaction::Play(Choice::EvenOdd(EvenOddChoice::Odd)));
    lemma_decode_encode(Interaction::Play(Choice::HighLow(HighLowChoice::High)));
    lemma_decode_encode(Interaction::Play(Choice::HighLow(HighLowChoice::Low)));
    lemma_decode_encode(Interaction::Play(Choice::ExactNumber(1)));
    lemma_decode_encode(Interaction::Play(Choice::ExactNumber(2)));
    lemma_decode_encode(Interaction::Play(Choice::ExactNumber(3)));
    lemma_decode_encode(Interaction::Play(Choice::ExactNumber(4)));
    lemma_decode_encode(Interaction::Play(Choice::ExactNumber(5)));
    lemma_decode_encode(Interaction::Play(Choice::ExactNumber(6)));
}

} // verus!
