use textfmt::transform::{parse_transform, reverse_clusters, Transform};

const ALL: [Transform; 11] = [
    Transform::ToRussian,
    Transform::ToEnglish,
    Transform::ToggleLayout,
    Transform::ToggleCase,
    Transform::ToUpper,
    Transform::ToLower,
    Transform::TitleCase,
    Transform::CleanWhitespace,
    Transform::Reverse,
    Transform::ToCamelCase,
    Transform::ToSnakeCase,
];

const IDENTIFIERS: [&str; 11] = [
    "ToRussian",
    "ToEnglish",
    "ToggleLayout",
    "ToggleCase",
    "ToUpper",
    "ToLower",
    "TitleCase",
    "CleanWhitespace",
    "Reverse",
    "ToCamelCase",
    "ToSnakeCase",
];

#[test]
fn apply_to_russian() {
    assert_eq!(Transform::ToRussian.apply("ghbdtn"), "привет");
}

#[test]
fn apply_to_english() {
    assert_eq!(Transform::ToEnglish.apply("руддщ"), "hello");
}

#[test]
fn apply_toggle_layout() {
    assert_eq!(Transform::ToggleLayout.apply("ghbdtn"), "привет");
    assert_eq!(Transform::ToggleLayout.apply("руддщ"), "hello");
}

#[test]
fn toggle_case_lowers_mostly_uppercase_text() {
    assert_eq!(Transform::ToggleCase.apply("HELLo"), "hello");
}

#[test]
fn toggle_case_uppers_mostly_lowercase_text() {
    assert_eq!(Transform::ToggleCase.apply("Hello"), "HELLO");
}

#[test]
fn toggle_case_uppers_on_a_tie() {
    assert_eq!(Transform::ToggleCase.apply("ABcd"), "ABCD");
    assert_eq!(Transform::ToggleCase.apply("123"), "123");
}

#[test]
fn toggle_case_counts_cyrillic_letters() {
    assert_eq!(Transform::ToggleCase.apply("ПРИВЕт"), "привет");
}

#[test]
fn to_upper_and_to_lower() {
    assert_eq!(Transform::ToUpper.apply("Hello, мир"), "HELLO, МИР");
    assert_eq!(Transform::ToLower.apply("Hello, МИР"), "hello, мир");
}

#[test]
fn title_case_capitalises_each_word() {
    assert_eq!(Transform::TitleCase.apply("hello   wORLD\tfoo"), "Hello World Foo");
    assert_eq!(Transform::TitleCase.apply("привет мир"), "Привет Мир");
}

#[test]
fn title_case_of_blank_text_is_empty() {
    assert_eq!(Transform::TitleCase.apply("   \n "), "");
}

#[test]
fn clean_whitespace_trims_and_collapses() {
    assert_eq!(Transform::CleanWhitespace.apply("  a  b\t\nc  "), "a b c");
    assert_eq!(Transform::CleanWhitespace.apply("   "), "");
    assert_eq!(Transform::CleanWhitespace.apply("word"), "word");
}

#[test]
fn clean_whitespace_is_idempotent() {
    let once = Transform::CleanWhitespace.apply("\u{a0} x   y\u{2003}z ");
    assert_eq!(once, "x y z");
    assert_eq!(Transform::CleanWhitespace.apply(&once), once);
}

#[test]
fn reverse_reverses_characters() {
    assert_eq!(Transform::Reverse.apply("abc"), "cba");
    assert_eq!(Transform::Reverse.apply(""), "");
}

#[test]
fn reverse_keeps_grapheme_clusters_together() {
    assert_eq!(
        Transform::Reverse.apply("a\u{310}e\u{301}o\u{308}\u{332}"),
        "o\u{308}\u{332}e\u{301}a\u{310}"
    );
    assert_eq!(Transform::Reverse.apply("a\r\nb"), "b\r\na");
}

#[test]
fn reverse_clusters_concatenates_from_the_last() {
    let clusters = vec!["ab".to_string(), "c".to_string(), "de".to_string()];
    assert_eq!(reverse_clusters(&clusters), "decab");
    assert_eq!(reverse_clusters(&Vec::new()), "");
}

#[test]
fn camel_case_from_snake_kebab_and_spaces() {
    assert_eq!(Transform::ToCamelCase.apply("hello_world"), "helloWorld");
    assert_eq!(Transform::ToCamelCase.apply("hello-big world"), "helloBigWorld");
    assert_eq!(Transform::ToCamelCase.apply("a__b"), "aB");
    assert_eq!(Transform::ToCamelCase.apply("trailing_"), "trailing");
}

#[test]
fn camel_case_uses_the_full_uppercase_mapping() {
    assert_eq!(Transform::ToCamelCase.apply("stra_ße"), "straSSe");
}

#[test]
fn snake_case_from_camel_case() {
    assert_eq!(Transform::ToSnakeCase.apply("helloWorldFoo"), "hello_world_foo");
    assert_eq!(Transform::ToSnakeCase.apply("HelloWorld"), "hello_world");
    assert_eq!(Transform::ToSnakeCase.apply("already_snake"), "already_snake");
    assert_eq!(Transform::ToSnakeCase.apply("ABC"), "a_b_c");
}

#[test]
fn snake_case_keeps_the_first_character_of_the_lowercase_mapping() {
    // 'İ' lowers to "i\u{307}"; only the first character is kept.
    assert_eq!(Transform::ToSnakeCase.apply("aİ"), "a_i");
}

#[test]
fn names_shown_in_the_settings_screen() {
    let names: Vec<&str> = ALL.iter().map(|t| t.name()).collect();
    assert_eq!(
        names,
        vec![
            "Russian layout",
            "English layout",
            "Toggle layout",
            "Toggle case",
            "UPPERCASE",
            "lowercase",
            "Title Case",
            "Clean spaces",
            "Reverse",
            "camelCase",
            "snake_case",
        ]
    );
}

#[test]
fn parse_transform_finds_each_identifier() {
    for (t, id) in ALL.iter().zip(IDENTIFIERS.iter()) {
        assert_eq!(parse_transform(id), Some(*t));
    }
}

#[test]
fn parse_transform_rejects_other_text() {
    assert_eq!(parse_transform("toRussian"), None);
    assert_eq!(parse_transform(""), None);
    assert_eq!(parse_transform("ToRussian "), None);
    assert_eq!(parse_transform("Russian layout"), None);
}

#[test]
fn clean_whitespace_uses_the_unicode_white_space_set() {
    assert_eq!(
        Transform::CleanWhitespace.apply("a\u{85}b\u{1680}c\u{205F}d\u{3000}e\u{200A}f\u{2029}g\u{b}h"),
        "a b c d e f g h"
    );
    // U+200B (zero width space) and U+180E are not White_Space
    assert_eq!(Transform::CleanWhitespace.apply("a\u{200B}b\u{180E}c"), "a\u{200B}b\u{180E}c");
}
