use partialdebug::record::{debug_struct, debug_tuple};
use partialdebug::text::{
    char_is_ascii_punctuation, char_is_whitespace, chars_of, push_decimal, trim_bounds,
};

#[allow(dead_code)]
#[derive(Debug)]
struct Pair {
    left: u8,
    right: Option<&'static str>,
}

#[allow(dead_code)]
#[derive(Debug)]
struct Wrapper(u8, bool);

#[derive(Debug)]
struct Unit;

fn entries(entries: &[(&str, &str)]) -> Vec<(String, String)> {
    entries.iter().map(|(name, value)| (name.to_string(), value.to_string())).collect()
}

fn values(values: &[&str]) -> Vec<String> {
    values.iter().map(|value| value.to_string()).collect()
}

#[test]
fn struct_text_is_what_a_derive_writes() {
    let pair = Pair { left: 1, right: Some("r") };
    assert_eq!(
        debug_struct("Pair", &entries(&[("left", "1"), ("right", "Some(\"r\")")]), true),
        format!("{:?}", pair)
    );
    assert_eq!(debug_struct("Unit", &entries(&[]), true), format!("{:?}", Unit));
}

#[test]
fn struct_text_exact() {
    assert_eq!(debug_struct("A", &entries(&[]), true), "A");
    assert_eq!(debug_struct("A", &entries(&[]), false), "A { .. }");
    assert_eq!(debug_struct("A", &entries(&[("x", "1")]), true), "A { x: 1 }");
    assert_eq!(debug_struct("A", &entries(&[("x", "1")]), false), "A { x: 1, .. }");
    assert_eq!(debug_struct("A", &entries(&[("x", "1"), ("y", "2")]), true), "A { x: 1, y: 2 }");
    assert_eq!(
        debug_struct("A", &entries(&[("x", "1"), ("y", "2"), ("z", "3")]), false),
        "A { x: 1, y: 2, z: 3, .. }"
    );
}

#[test]
fn tuple_text_is_what_a_derive_writes() {
    assert_eq!(debug_tuple("Wrapper", &values(&["7", "true"])), format!("{:?}", Wrapper(7, true)));
    assert_eq!(debug_tuple("Unit", &values(&[])), format!("{:?}", Unit));
}

#[test]
fn tuple_text_exact() {
    assert_eq!(debug_tuple("A", &values(&[])), "A");
    assert_eq!(debug_tuple("A", &values(&["1"])), "A(1)");
    assert_eq!(debug_tuple("A", &values(&["1", "2", "3"])), "A(1, 2, 3)");
}

#[test]
fn whitespace_is_what_std_calls_whitespace() {
    for code in 0..=0x3100u32 {
        if let Some(c) = char::from_u32(code) {
            assert_eq!(char_is_whitespace(c), c.is_whitespace(), "U+{:04X}", code);
        }
    }
    assert!(!char_is_whitespace('\u{10ffff}'));
    assert!(!char_is_whitespace('\u{feff}'));
}

#[test]
fn punctuation_is_what_std_calls_ascii_punctuation() {
    for code in 0..=0x2ffu32 {
        if let Some(c) = char::from_u32(code) {
            assert_eq!(char_is_ascii_punctuation(c), c.is_ascii_punctuation(), "U+{:04X}", code);
        }
    }
}

#[test]
fn trimming_is_what_std_trims() {
    for text in ["", " ", "a", " a", "a ", "  a b  ", "\t\n x \u{a0}\u{3000}", "\u{2003}-\u{2003}"] {
        let chars = chars_of(text);
        assert_eq!(chars, text.chars().collect::<Vec<char>>());
        let (start, end) = trim_bounds(&chars);
        let trimmed: String = chars[start..end].iter().collect();
        assert_eq!(trimmed, text.trim());
    }
}

#[test]
fn decimal_digits() {
    for (number, digits) in [(0usize, "0"), (9, "9"), (10, "10"), (99, "99"), (100, "100"), (4205, "4205")] {
        let mut out = String::from("#");
        push_decimal(&mut out, number);
        assert_eq!(out, format!("#{}", digits));
        assert_eq!(out, format!("#{}", number));
    }
    let mut out = String::new();
    push_decimal(&mut out, usize::MAX);
    assert_eq!(out, usize::MAX.to_string());
}
