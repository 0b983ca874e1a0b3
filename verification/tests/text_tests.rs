use dice_bot::config::{port_from, DEFAULT_PORT};
use dice_bot::text::{chars_of, decimal_text, digit_text, is_text, parse_unsigned, same_chars, starts_with};

fn chars(text: &str) -> Vec<char> {
    text.chars().collect()
}

#[test]
fn chars_of_keeps_every_character() {
    assert_eq!(chars_of(""), Vec::<char>::new());
    assert_eq!(chars_of("hi"), vec!['h', 'i']);
    assert_eq!(chars_of("игра 🎲"), chars("игра 🎲"));
}

#[test]
fn same_chars_compares_whole_texts() {
    assert!(same_chars(&chars("кубик"), &chars("кубик")));
    assert!(!same_chars(&chars("кубик"), &chars("кубики")));
    assert!(!same_chars(&chars("кубик"), &chars("кубиК")));
    assert!(same_chars(&[], &[]));
    assert!(is_text("hello", &chars("hello")));
    assert!(!is_text("hello", &chars("hell")));
}

#[test]
fn starts_with_looks_at_the_beginning_only() {
    assert!(starts_with(&chars("number_3"), &chars("number_")));
    assert!(starts_with(&chars("number_"), &chars("number_")));
    assert!(!starts_with(&chars("number"), &chars("number_")));
    assert!(!starts_with(&chars("a_number_3"), &chars("number_")));
    assert!(starts_with(&chars("anything"), &[]));
}

#[test]
fn decimal_text_is_the_usual_notation() {
    for n in 0u8..=255 {
        assert_eq!(decimal_text(n), n.to_string());
    }
    assert_eq!(decimal_text(0), "0");
    assert_eq!(decimal_text(7), "7");
    assert_eq!(decimal_text(10), "10");
    assert_eq!(decimal_text(105), "105");
    assert_eq!(decimal_text(255), "255");
}

#[test]
fn digit_text_names_each_digit() {
    for d in 0u8..10 {
        assert_eq!(digit_text(d), d.to_string());
    }
}

#[test]
fn parse_unsigned_reads_numerals() {
    assert_eq!(parse_unsigned(&chars("0"), 0, 255), Some(0));
    assert_eq!(parse_unsigned(&chars("6"), 0, 255), Some(6));
    assert_eq!(parse_unsigned(&chars("255"), 0, 255), Some(255));
    assert_eq!(parse_unsigned(&chars("256"), 0, 255), None);
    assert_eq!(parse_unsigned(&chars("+42"), 0, 255), Some(42));
    assert_eq!(parse_unsigned(&chars("007"), 0, 255), Some(7));
    assert_eq!(parse_unsigned(&chars("+007"), 0, 255), Some(7));
    assert_eq!(parse_unsigned(&chars(""), 0, 255), None);
    assert_eq!(parse_unsigned(&chars("+"), 0, 255), None);
    assert_eq!(parse_unsigned(&chars("-1"), 0, 255), None);
    assert_eq!(parse_unsigned(&chars("++1"), 0, 255), None);
    assert_eq!(parse_unsigned(&chars("1+"), 0, 255), None);
    assert_eq!(parse_unsigned(&chars(" 1"), 0, 255), None);
    assert_eq!(parse_unsigned(&chars("1 "), 0, 255), None);
    assert_eq!(parse_unsigned(&chars("x"), 0, 255), None);
    assert_eq!(parse_unsigned(&chars("٣"), 0, 255), None);
    assert_eq!(parse_unsigned(&chars("99999999999999999999999999"), 0, 255), None);
    assert_eq!(parse_unsigned(&chars("4294967295"), 0, u32::MAX), Some(u32::MAX));
    assert_eq!(parse_unsigned(&chars("4294967296"), 0, u32::MAX), None);
}

#[test]
fn parse_unsigned_starts_where_it_is_told() {
    assert_eq!(parse_unsigned(&chars("number_5"), 7, 255), Some(5));
    assert_eq!(parse_unsigned(&chars("number_"), 7, 255), None);
    assert_eq!(parse_unsigned(&chars("ab12"), 2, 255), Some(12));
    assert_eq!(parse_unsigned(&chars("ab12"), 1, 255), None);
}

#[test]
fn parse_unsigned_agrees_with_the_standard_reading() {
    let pieces = ["", "+", "-", "0", "1", "6", "7", "9", "00", "25", "55", "x", " "];
    for a in pieces {
        for b in pieces {
            for c in pieces {
                let text = format!("{}{}{}", a, b, c);
                let small = text.parse::<u8>().ok().map(u32::from);
                let wide = text.parse::<u16>().ok().map(u32::from);
                assert_eq!(parse_unsigned(&chars(&text), 0, 255), small, "{:?}", text);
                assert_eq!(parse_unsigned(&chars(&text), 0, 65535), wide, "{:?}", text);
            }
        }
    }
}

#[test]
fn port_defaults_and_parses() {
    assert_eq!(DEFAULT_PORT, 5000);
    assert_eq!(port_from(None), Some(5000));
    assert_eq!(port_from(Some("8080")), Some(8080));
    assert_eq!(port_from(Some("0")), Some(0));
    assert_eq!(port_from(Some("65535")), Some(65535));
    assert_eq!(port_from(Some("65536")), None);
    assert_eq!(port_from(Some("")), None);
    assert_eq!(port_from(Some("http")), None);
    assert_eq!(port_from(Some("-1")), None);
    assert_eq!(port_from(Some("+80")), Some(80));
}
