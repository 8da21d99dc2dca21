use textfmt::text::{chars_of, join_with, push_str, split_whitespace, str_eq};

#[test]
fn chars_of_lists_unicode_scalars() {
    assert_eq!(chars_of("aб€😀"), vec!['a', 'б', '€', '😀']);
    assert_eq!(chars_of(""), Vec::<char>::new());
}

#[test]
fn str_eq_compares_characters() {
    assert!(str_eq("привет", "привет"));
    assert!(!str_eq("привет", "привет!"));
    assert!(!str_eq("abc", "abd"));
    assert!(str_eq("", ""));
}

#[test]
fn split_whitespace_finds_the_words() {
    assert_eq!(split_whitespace("  one two\t\tthree\n"), vec!["one", "two", "three"]);
    assert_eq!(split_whitespace(" \u{3000} "), Vec::<String>::new());
}

#[test]
fn join_with_puts_the_separator_between_parts() {
    let parts = vec!["a".to_string(), "bc".to_string(), "".to_string(), "d".to_string()];
    assert_eq!(join_with(&parts, '+'), "a+bc++d");
    assert_eq!(join_with(&Vec::new(), '+'), "");
    assert_eq!(join_with(&vec!["x".to_string()], '+'), "x");
}

#[test]
fn push_str_appends() {
    let mut s = "ab".to_string();
    push_str(&mut s, "вг");
    assert_eq!(s, "abвг");
}
