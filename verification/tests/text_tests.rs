use auctioneer::text::{
    ascii_char, chars_of, decimal_string, find, has_at, hex_digit, join_texts, push_decimal,
    same_text, trimmed_len,
};

#[test]
fn characters_of_a_text() {
    assert_eq!(chars_of("a\u{e9}z"), vec!['a', '\u{e9}', 'z']);
    assert_eq!(chars_of(""), Vec::<char>::new());
}

#[test]
fn pattern_at_a_position() {
    let text = chars_of("SOLD Clock for 1 ETH!");
    assert!(has_at(&text, &chars_of("SOLD"), 0));
    assert!(!has_at(&text, &chars_of("SOLD"), 1));
    assert!(has_at(&text, &chars_of(" ETH!"), 16));
    assert!(!has_at(&text, &chars_of(" ETH!"), 17));
    assert!(!has_at(&text, &chars_of(" ETH!"), 1000));
    assert!(has_at(&text, &chars_of(""), 21));
    assert!(!has_at(&text, &chars_of(""), 22));
}

#[test]
fn first_position_of_a_pattern() {
    let text = chars_of("a for b for c");
    let delimiter = chars_of(" for ");
    assert_eq!(find(&text, &delimiter, 0), Some(1));
    assert_eq!(find(&text, &delimiter, 1), Some(1));
    assert_eq!(find(&text, &delimiter, 2), Some(7));
    assert_eq!(find(&text, &delimiter, 8), None);
    assert_eq!(find(&text, &delimiter, 500), None);
    assert_eq!(find(&chars_of("for"), &delimiter, 0), None);
}

#[test]
fn repeated_suffix_is_trimmed() {
    let suffix = chars_of(" ETH!");
    assert_eq!(trimmed_len(&chars_of("0.6 ETH!"), &suffix), 3);
    assert_eq!(trimmed_len(&chars_of("0.6 ETH! ETH!"), &suffix), 3);
    assert_eq!(trimmed_len(&chars_of("0.6"), &suffix), 3);
    assert_eq!(trimmed_len(&chars_of(" ETH!"), &suffix), 0);
    assert_eq!(trimmed_len(&chars_of("0.6 ETH! "), &suffix), 9);
    assert_eq!(trimmed_len(&chars_of("0.6"), &chars_of("")), 3);
}

#[test]
fn numbers_in_decimal() {
    assert_eq!(decimal_string(0), "0");
    assert_eq!(decimal_string(7), "7");
    assert_eq!(decimal_string(10), "10");
    assert_eq!(decimal_string(11155111), "11155111");
    assert_eq!(decimal_string(u64::MAX), "18446744073709551615");
    let mut text = String::from("id ");
    push_decimal(&mut text, 42);
    assert_eq!(text, "id 42");
}

#[test]
fn texts_joined_with_a_separator() {
    assert_eq!(join_texts(&vec![], ", "), "");
    assert_eq!(join_texts(&vec!["Clock".to_string()], ", "), "Clock");
    assert_eq!(
        join_texts(&vec!["Clock".to_string(), "Vase".to_string(), "Map".to_string()], ", "),
        "Clock, Vase, Map"
    );
}

#[test]
fn same_characters_same_text() {
    assert!(same_text("/reset", "/reset"));
    assert!(!same_text("/reset", "/reset "));
    assert!(!same_text("/Reset", "/reset"));
    assert!(same_text("", ""));
}

#[test]
fn kinds_of_characters() {
    assert!(hex_digit('0') && hex_digit('9') && hex_digit('a') && hex_digit('f'));
    assert!(hex_digit('A') && hex_digit('F'));
    assert!(!hex_digit('g') && !hex_digit('G') && !hex_digit('x') && !hex_digit(' '));
    assert!(ascii_char(' ') && ascii_char('\u{7f}'));
    assert!(!ascii_char('\u{80}') && !ascii_char('\u{e9}'));
}
