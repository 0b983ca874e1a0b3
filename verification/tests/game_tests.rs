use dice_bot::game::{DiceGame, LOSE_MESSAGES, WIN_MESSAGES};
use dice_bot::state::{DialogueState, EvenOddChoice, GuessOneChoice, HighLowChoice};

#[test]
fn test_check_even_odd_basic() {
    assert!(DiceGame::check_even_odd(2, EvenOddChoice::Even));
    assert!(!DiceGame::check_even_odd(2, EvenOddChoice::Odd));
    assert!(DiceGame::check_even_odd(5, EvenOddChoice::Odd));
    assert!(!DiceGame::check_even_odd(5, EvenOddChoice::Even));
}

#[test]
fn test_check_high_low_basic() {
    assert!(DiceGame::check_high_low(1, HighLowChoice::Low));
    assert!(DiceGame::check_high_low(3, HighLowChoice::Low));
    assert!(!DiceGame::check_high_low(3, HighLowChoice::High));
    assert!(DiceGame::check_high_low(4, HighLowChoice::High));
    assert!(DiceGame::check_high_low(6, HighLowChoice::High));
    assert!(!DiceGame::check_high_low(4, HighLowChoice::Low));
}

#[test]
fn test_check_exact_number_basic() {
    assert!(DiceGame::check_exact_number(4, 4));
    assert!(!DiceGame::check_exact_number(1, 6));
}

#[test]
fn test_check_guess_one_basic() {
    assert!(DiceGame::check_guess_one(1, GuessOneChoice::Yes));
    assert!(!DiceGame::check_guess_one(1, GuessOneChoice::No));
    assert!(DiceGame::check_guess_one(3, GuessOneChoice::No));
    assert!(!DiceGame::check_guess_one(3, GuessOneChoice::Yes));
}

#[test]
fn test_dice_emoji_mapping() {
    assert_eq!(DiceGame::dice_emoji(1), "⚀");
    assert_eq!(DiceGame::dice_emoji(2), "⚁");
    assert_eq!(DiceGame::dice_emoji(3), "⚂");
    assert_eq!(DiceGame::dice_emoji(4), "⚃");
    assert_eq!(DiceGame::dice_emoji(5), "⚄");
    assert_eq!(DiceGame::dice_emoji(6), "⚅");
    assert_eq!(DiceGame::dice_emoji(0), "🎲");
    assert_eq!(DiceGame::dice_emoji(7), "🎲");
}

#[test]
fn test_roll_dice_range() {
    for _ in 0..1000 {
        let value = DiceGame::roll_dice();
        assert!((1..=6).contains(&value), "roll_dice produced {}", value);
    }
}

#[test]
fn even_odd_follows_parity_on_every_face() {
    for roll in 1u8..=6 {
        let is_even = roll % 2 == 0;
        assert_eq!(DiceGame::check_even_odd(roll, EvenOddChoice::Even), is_even);
        assert_eq!(DiceGame::check_even_odd(roll, EvenOddChoice::Odd), !is_even);
    }
}

#[test]
fn high_and_low_split_the_faces() {
    for roll in 1u8..=6 {
        let high = DiceGame::check_high_low(roll, HighLowChoice::High);
        let low = DiceGame::check_high_low(roll, HighLowChoice::Low);
        assert_eq!(high, roll >= 4);
        assert_eq!(low, roll <= 3);
        assert_ne!(high, low);
    }
}

#[test]
fn exact_number_wins_only_on_the_roll() {
    for roll in 1u8..=6 {
        for guess in 1u8..=6 {
            assert_eq!(DiceGame::check_exact_number(roll, guess), roll == guess);
        }
    }
}

#[test]
fn guess_one_on_every_face() {
    for roll in 1u8..=6 {
        assert_eq!(DiceGame::check_guess_one(roll, GuessOneChoice::Yes), roll == 1);
        assert_eq!(DiceGame::check_guess_one(roll, GuessOneChoice::No), roll != 1);
    }
}

#[test]
fn roll_dice_shows_more_than_one_face() {
    let mut seen = [false; 7];
    for _ in 0..1000 {
        seen[DiceGame::roll_dice() as usize] = true;
    }
    assert!(!seen[0]);
    assert!(seen[1..].iter().filter(|&&face| face).count() > 1);
}

#[test]
fn win_messages_are_the_pool() {
    let pool = [
        "🎉 Поздравляю! Вы угадали!",
        "🎊 Отлично! Правильный ответ!",
        "✨ Великолепно! Вы победили!",
        "🏆 Браво! Точное попадание!",
        "🎯 Превосходно! Вы угадали!",
    ];
    assert_eq!(WIN_MESSAGES, pool.len());
    for (index, message) in pool.iter().enumerate() {
        assert_eq!(DiceGame::win_message_at(index), *message);
    }
    for _ in 0..200 {
        assert!(pool.contains(&DiceGame::win_message()));
    }
}

#[test]
fn lose_messages_are_the_pool() {
    let pool = [
        "😔 Не угадали, но не расстраивайтесь!",
        "🎲 В этот раз не повезло, попробуйте еще!",
        "💪 Ничего страшного, удача улыбнется в следующий раз!",
        "🌟 Не переживайте, у вас все получится!",
        "🎮 Попытка не пытка, играем еще!",
    ];
    assert_eq!(LOSE_MESSAGES, pool.len());
    for (index, message) in pool.iter().enumerate() {
        assert_eq!(DiceGame::lose_message_at(index), *message);
    }
    for _ in 0..200 {
        assert!(pool.contains(&DiceGame::lose_message()));
    }
}

#[test]
fn drawn_messages_vary() {
    let first = DiceGame::win_message();
    let mut varied = false;
    for _ in 0..500 {
        if DiceGame::win_message() != first {
            varied = true;
        }
    }
    assert!(varied);
}

#[test]
fn dialogue_starts_at_start() {
    assert_eq!(DialogueState::default(), DialogueState::Start);
}
