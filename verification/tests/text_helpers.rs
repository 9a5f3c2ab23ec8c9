use vizier_lib::text::{decimal, join_strings, split_lines, split_once_chars, trim_chars};

fn chars(s: &str) -> Vec<char> {
    s.chars().collect()
}

fn text(v: &[char]) -> String {
    v.iter().collect()
}

#[test]
fn decimal_digits() {
    assert_eq!(decimal(0), "0");
    assert_eq!(decimal(7), "7");
    assert_eq!(decimal(1234567890), "1234567890");
    assert_eq!(decimal(u64::MAX), u64::MAX.to_string());
}

#[test]
fn join_and_split() {
    let parts = vec!["a".to_string(), "b".to_string(), "c".to_string()];
    assert_eq!(join_strings(&parts, ", "), "a, b, c");
    assert_eq!(join_strings(&[], ", "), "");
    let lines: Vec<String> = split_lines(&chars("one\r\ntwo\n\nthree\n")).iter().map(|l| text(l)).collect();
    assert_eq!(lines, vec!["one", "two", "", "three"]);
    assert_eq!(text(&trim_chars(&chars("  x y \t"))), "x y");
}

#[test]
fn split_at_the_first_separator() {
    let (a, b) = split_once_chars(&chars("serde::de::Deserialize"), &chars("::")).unwrap();
    assert_eq!(text(&a), "serde");
    assert_eq!(text(&b), "de::Deserialize");
    assert!(split_once_chars(&chars("serde"), &chars("::")).is_none());
}
