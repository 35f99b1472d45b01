use media_catalog::domain::text::{chars_of, contains_chars, same};

fn contains(text: &str, pattern: &str) -> bool {
    contains_chars(&chars_of(text), &chars_of(pattern))
}

#[test]
fn chars_of_gives_every_character_in_order() {
    assert_eq!(chars_of("ab\u{e4}"), vec!['a', 'b', '\u{e4}']);
    assert_eq!(chars_of(""), Vec::<char>::new());
}

#[test]
fn contains_finds_a_pattern_anywhere() {
    assert!(contains("hello world", "hello"));
    assert!(contains("hello world", "o w"));
    assert!(contains("hello world", "world"));
    assert!(contains("hello world", "hello world"));
    assert!(!contains("hello world", "worlds"));
    assert!(!contains("hello world", "hello world!"));
    assert!(!contains("abc", "ac"));
}

#[test]
fn empty_pattern_stands_in_every_text() {
    assert!(contains("abc", ""));
    assert!(contains("", ""));
    assert!(!contains("", "a"));
}

#[test]
fn contains_handles_repeats_and_late_matches() {
    assert!(contains("aaab", "aab"));
    assert!(contains("abababc", "abc"));
    assert!(!contains("ababab", "abc"));
    let text: Vec<char> = "xyz".chars().collect();
    let pattern: Vec<char> = "z".chars().collect();
    assert!(contains_chars(&text, &pattern));
}

#[test]
fn same_compares_whole_texts() {
    assert!(same("foo", "foo"));
    assert!(same("", ""));
    assert!(!same("foo", "fo"));
    assert!(!same("foo", "fop"));
    assert!(!same("foo", "Foo"));
}
