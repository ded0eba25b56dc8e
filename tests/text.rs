use kana_table::text::{chars_of, contains, starts_with, str_equals};

#[test]
fn contains_finds_runs_anywhere() {
    assert!(contains("あさひ", "さ"));
    assert!(contains("あさひ", "さひ"));
    assert!(contains("abc", ""));
    assert!(!contains("あさひ", "ひさ"));
    assert!(!contains("さ", "さひ"));
    assert!(!contains("", "a"));
}

#[test]
fn starts_with_only_at_the_front() {
    assert!(starts_with("さくら", "さ"));
    assert!(!starts_with("あさ", "さ"));
    assert!(starts_with("sya", "s"));
    assert!(starts_with("x", ""));
    assert!(!starts_with("", "x"));
}

#[test]
fn equality_and_characters() {
    assert!(str_equals("しゃ", "しゃ"));
    assert!(!str_equals("しゃ", "しや"));
    assert!(!str_equals("a", "ab"));
    assert_eq!(chars_of("かな"), vec!['か', 'な']);
}
