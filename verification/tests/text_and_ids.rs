use manim_studio::ids::{id_from_clock, new_id};
use manim_studio::text::{
    escape_str, is_alphanumeric, is_numeric, to_variable_name, join, push_char, push_decimal, push_hex, to_ascii_lowercase, to_identifier,
};

#[test]
fn escape_quotes_and_newlines() {
    assert_eq!(escape_str("say \"hi\"\nbye"), "say \\\"hi\\\"\\nbye");
    assert_eq!(escape_str("plain"), "plain");
    assert_eq!(escape_str(""), "");
    assert_eq!(escape_str("back\\slash"), "back\\slash");
}

#[test]
fn identifiers_keep_letters_digits_underscores() {
    assert_eq!(to_identifier("Circle 1"), "circle_1");
    assert_eq!(to_identifier("a-b.c"), "a_b_c");
    assert_eq!(to_identifier("__X9"), "__x9");
    assert_eq!(to_identifier("ÄÖ"), "ÄÖ");
}

#[test]
fn char_helpers() {
    assert!(is_alphanumeric('a'));
    assert!(is_alphanumeric('7'));
    assert!(is_alphanumeric('ß'));
    assert!(!is_alphanumeric('-'));
    assert!(!is_alphanumeric(' '));
    assert_eq!(to_ascii_lowercase('Q'), 'q');
    assert_eq!(to_ascii_lowercase('q'), 'q');
    assert_eq!(to_ascii_lowercase('É'), 'É');
    let mut s = String::from("ab");
    push_char(&mut s, 'c');
    assert_eq!(s, "abc");
}

#[test]
fn numbers_in_hex_and_decimal() {
    let mut s = String::new();
    push_hex(&mut s, 0);
    assert_eq!(s, "0");
    let mut s = String::from("x");
    push_hex(&mut s, 0xbeef);
    assert_eq!(s, "xbeef");
    let mut s = String::new();
    push_hex(&mut s, u64::MAX);
    assert_eq!(s, format!("{:x}", u64::MAX));
    let mut s = String::new();
    push_decimal(&mut s, 0);
    assert_eq!(s, "0");
    let mut s = String::from("n=");
    push_decimal(&mut s, 1234567);
    assert_eq!(s, "n=1234567");
    let mut s = String::new();
    push_decimal(&mut s, u128::MAX);
    assert_eq!(s, u128::MAX.to_string());
}

#[test]
fn join_puts_separator_between_neighbours() {
    let v = vec!["a".to_string(), "b".to_string(), "c".to_string()];
    assert_eq!(join(&v, ", "), "a, b, c");
    assert_eq!(join(&vec!["only".to_string()], "--"), "only");
    assert_eq!(join(&vec![], ","), "");
}

#[test]
fn clock_ids_are_seconds_then_nanos_in_hex() {
    assert_eq!(id_from_clock(255, 16), "ff10");
    assert_eq!(id_from_clock(0, 0), "00");
    assert_eq!(id_from_clock(1_700_000_000, 999_999_999), format!("{:x}{:x}", 1_700_000_000u64, 999_999_999u32));
}

#[test]
fn new_ids_are_lower_hex() {
    let id = new_id();
    assert!(id.len() >= 2);
    assert!(id.chars().all(|c| c.is_ascii_digit() || ('a'..='f').contains(&c)));
}

#[test]
fn identifiers_keep_length_and_drop_capitals() {
    let name = "Mixed CASE-Name é";
    let id = to_identifier(name);
    assert_eq!(id.chars().count(), name.chars().count());
    assert!(!id.chars().any(|c| c.is_ascii_uppercase()));
    assert_eq!(id, "mixed_case_name_é");
}

#[test]
fn escaped_text_has_no_line_break_and_escaped_quotes() {
    let e = escape_str("a\"b\n\"c\"");
    assert!(!e.contains('\n'));
    let chars: Vec<char> = e.chars().collect();
    for (i, c) in chars.iter().enumerate() {
        if *c == '"' {
            assert!(i > 0 && chars[i - 1] == '\\');
        }
    }
}

#[test]
fn variable_names_never_start_with_a_number() {
    assert_eq!(to_variable_name("1st"), "_1st");
    assert_eq!(to_variable_name(""), "_");
    assert_eq!(to_variable_name("٣x"), "_٣x");
    assert_eq!(to_variable_name("in"), "_in");
    assert_eq!(to_variable_name("Lambda"), "_lambda");
    assert_eq!(to_variable_name("inner"), "inner");
    assert_eq!(to_variable_name("My Circle"), "my_circle");
    assert!(is_numeric('7'));
    assert!(!is_numeric('x'));
}
