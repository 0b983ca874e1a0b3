use dice_bot::prompts::{
    choice_prompt, game_menu, make_choice_button, make_menu_button, text_prompt, Button, Prompt,
    EVEN_ODD_TEXT, EXACT_NUMBER_TEXT, GREETING_TEXT, HELP_TEXT, HIGH_LOW_TEXT, MENU_TEXT,
    START_TEXT, UNKNOWN_TEXT,
};
use dice_bot::codec::{decode, Interaction};
use dice_bot::router::{
    classify_lowered, classify_text, BotHandler, CallbackAction, Command, TextIntent,
};
use dice_bot::state::{Choice, EvenOddChoice, GameType, HighLowChoice};

fn button(label: &str, token: &str) -> Button {
    Button { label: label.to_string(), token: token.to_string() }
}

#[test]
fn fixed_texts_read_as_written() {
    assert_eq!(
        START_TEXT,
        "🎲 Привет! Добро пожаловать в игру с кубиками!\n\n\
         Я предлагаю вам угадать результат броска кубика.\n\
         Доступны три варианта игры:\n\n\
         🔵 Четное/Нечетное - угадайте четность числа\n\
         🔴 Больше/Меньше 3.5 - угадайте диапазон\n\
         🎯 Точное число - угадайте конкретное число\n\n\
         Используйте /play чтобы начать игру!"
    );
    assert_eq!(
        HELP_TEXT,
        "🎮 <b>Помощь по игре в кубики</b>\n\n\
         <b>Доступные команды:</b>\n\
         /start - начать работу с ботом\n\
         /play - начать новую игру\n\
         /help - показать эту справку\n\n\
         <b>Варианты игры:</b>\n\n\
         🔵 <b>Четное/Нечетное</b>\n\
         Угадайте, будет ли результат четным или нечетным числом\n\n\
         🔴 <b>Больше/Меньше 3.5</b>\n\
         Угадайте, будет ли результат больше 3.5 (4-6) или меньше 3.5 (1-3)\n\n\
         🎯 <b>Точное число</b>\n\
         Угадайте конкретное число от 1 до 6"
    );
    assert_eq!(MENU_TEXT, "🎲 Выберите вариант игры:");
    assert_eq!(
        EVEN_ODD_TEXT,
        "🔵 <b>Игра: Четное/Нечетное</b>\n\n\
         Выберите, будет ли результат броска четным или нечетным числом:"
    );
    assert_eq!(
        HIGH_LOW_TEXT,
        "🔴 <b>Игра: Больше/Меньше 3.5</b>\n\n\
         Выберите, будет ли результат больше или меньше 3.5:"
    );
    assert_eq!(
        EXACT_NUMBER_TEXT,
        "🎯 <b>Игра: Точное число</b>\n\n\
         Выберите число от 1 до 6, которое выпадет на кубике:"
    );
    assert_eq!(GREETING_TEXT, "🎲 Привет! Хотите сыграть в кубики? Используйте /play");
    assert_eq!(
        UNKNOWN_TEXT,
        "🤔 Не понимаю команду. Используйте /help для получения справки или /play для игры."
    );
}

#[test]
fn menu_has_a_row_for_each_variant() {
    let menu = game_menu();
    assert_eq!(menu.text, "🎲 Выберите вариант игры:");
    assert!(!menu.markup);
    assert_eq!(
        menu.keyboard,
        vec![
            vec![button("🔵 Четное/Нечетное", "game_even_odd")],
            vec![button("🔴 Больше/Меньше 3.5", "game_high_low")],
            vec![button("🎯 Точное число", "game_exact")],
        ]
    );
}

#[test]
fn two_way_variants_show_two_buttons() {
    let prompt = choice_prompt(GameType::EvenOdd);
    assert_eq!(prompt.text, EVEN_ODD_TEXT);
    assert!(prompt.markup);
    assert_eq!(
        prompt.keyboard,
        vec![vec![button("🔵 Четное", "choice_even"), button("🔴 Нечетное", "choice_odd")]]
    );
    let prompt = choice_prompt(GameType::HighLow);
    assert_eq!(prompt.text, HIGH_LOW_TEXT);
    assert!(prompt.markup);
    assert_eq!(
        prompt.keyboard,
        vec![vec![
            button("⬆️ Больше 3.5 (4-6)", "choice_high"),
            button("⬇️ Меньше 3.5 (1-3)", "choice_low"),
        ]]
    );
}

#[test]
fn exact_variant_shows_the_six_faces() {
    let prompt = choice_prompt(GameType::ExactNumber);
    assert_eq!(prompt.text, EXACT_NUMBER_TEXT);
    assert!(prompt.markup);
    assert_eq!(
        prompt.keyboard,
        vec![
            vec![button("1️⃣", "number_1"), button("2️⃣", "number_2"), button("3️⃣", "number_3")],
            vec![button("4️⃣", "number_4"), button("5️⃣", "number_5"), button("6️⃣", "number_6")],
        ]
    );
}

#[test]
fn every_button_decodes_to_its_own_selection() {
    for game in [GameType::EvenOdd, GameType::HighLow, GameType::ExactNumber] {
        assert_eq!(decode(&make_menu_button(game).token), Interaction::Menu(game));
        for row in choice_prompt(game).keyboard {
            for shown in row {
                match decode(&shown.token) {
                    Interaction::Play(choice) => {
                        assert!(choice.is_valid());
                        assert_eq!(choice.game(), game);
                        assert_eq!(make_choice_button(choice), shown);
                    }
                    other => panic!("{:?}", other),
                }
            }
        }
    }
}

#[test]
fn text_prompt_brings_no_keyboard() {
    assert_eq!(
        text_prompt("привет", true),
        Prompt { text: "привет".to_string(), markup: true, keyboard: vec![] }
    );
}

#[test]
fn commands_get_their_replies() {
    assert_eq!(BotHandler::command_reply(Command::Start), text_prompt(START_TEXT, true));
    assert_eq!(BotHandler::command_reply(Command::Help), text_prompt(HELP_TEXT, true));
    assert_eq!(BotHandler::command_reply(Command::Play), game_menu());
}

#[test]
fn lowered_words_are_classified() {
    for word in ["играть", "игра", "кубик", "кубики"] {
        assert_eq!(classify_lowered(word), TextIntent::Play);
    }
    for word in ["привет", "hello", "hi"] {
        assert_eq!(classify_lowered(word), TextIntent::Greeting);
    }
    for word in ["", "Играть", "HELLO", "hi!", " hi", "кубик ", "play", "dice"] {
        assert_eq!(classify_lowered(word), TextIntent::Unknown);
    }
}

#[test]
fn case_does_not_matter_in_free_text() {
    assert_eq!(classify_text("ИГРАТЬ"), TextIntent::Play);
    assert_eq!(classify_text("Кубики"), TextIntent::Play);
    assert_eq!(classify_text("Hello"), TextIntent::Greeting);
    assert_eq!(classify_text("HI"), TextIntent::Greeting);
    assert_eq!(classify_text("Привет"), TextIntent::Greeting);
    assert_eq!(classify_text("привет!"), TextIntent::Unknown);
    assert_eq!(classify_text(""), TextIntent::Unknown);
}

#[test]
fn messages_get_their_replies() {
    assert_eq!(BotHandler::handle_message(None), None);
    assert_eq!(BotHandler::handle_message(Some("Игра")), Some(game_menu()));
    assert_eq!(BotHandler::handle_message(Some("hello")), Some(text_prompt(GREETING_TEXT, false)));
    assert_eq!(BotHandler::handle_message(Some("what?")), Some(text_prompt(UNKNOWN_TEXT, false)));
    assert_eq!(BotHandler::intent_reply(TextIntent::Play), game_menu());
    assert_eq!(BotHandler::intent_reply(TextIntent::Greeting), text_prompt(GREETING_TEXT, false));
    assert_eq!(BotHandler::intent_reply(TextIntent::Unknown), text_prompt(UNKNOWN_TEXT, false));
}

#[test]
fn buttons_lead_to_prompts_and_rounds() {
    assert_eq!(BotHandler::handle_callback(Some("game_even_odd"), true), CallbackAction::Ask(GameType::EvenOdd));
    assert_eq!(BotHandler::handle_callback(Some("game_high_low"), true), CallbackAction::Ask(GameType::HighLow));
    assert_eq!(BotHandler::handle_callback(Some("game_exact"), true), CallbackAction::Ask(GameType::ExactNumber));
    assert_eq!(
        BotHandler::handle_callback(Some("choice_even"), true),
        CallbackAction::Play(Choice::EvenOdd(EvenOddChoice::Even))
    );
    assert_eq!(
        BotHandler::handle_callback(Some("choice_low"), true),
        CallbackAction::Play(Choice::HighLow(HighLowChoice::Low))
    );
    assert_eq!(BotHandler::handle_callback(Some("number_4"), true), CallbackAction::Play(Choice::ExactNumber(4)));
}

#[test]
fn unknown_token_sends_nothing_and_is_put_on_record() {
    let action = BotHandler::handle_callback(Some("choice_purple"), true);
    assert_eq!(action, CallbackAction::Report);
    assert_eq!(BotHandler::callback_prompt(action), None);
    assert_eq!(BotHandler::unknown_callback_text("choice_purple"), "Неизвестный callback: choice_purple");
    assert_eq!(BotHandler::handle_callback(Some("number_7"), true), CallbackAction::Report);
    assert_eq!(BotHandler::handle_callback(Some("number_x"), true), CallbackAction::Report);
}

#[test]
fn a_press_without_token_or_conversation_is_ignored() {
    assert_eq!(BotHandler::handle_callback(None, true), CallbackAction::Ignore);
    assert_eq!(BotHandler::handle_callback(None, false), CallbackAction::Ignore);
    assert_eq!(BotHandler::handle_callback(Some("choice_even"), false), CallbackAction::Ignore);
    assert_eq!(BotHandler::handle_callback(Some("choice_purple"), false), CallbackAction::Ignore);
    assert_eq!(BotHandler::callback_prompt(CallbackAction::Ignore), None);
}

#[test]
fn a_menu_selection_brings_the_question_of_its_variant() {
    for game in [GameType::EvenOdd, GameType::HighLow, GameType::ExactNumber] {
        assert_eq!(BotHandler::callback_prompt(CallbackAction::Ask(game)), Some(choice_prompt(game)));
    }
    assert_eq!(BotHandler::callback_prompt(CallbackAction::Play(Choice::ExactNumber(1))), None);
}
