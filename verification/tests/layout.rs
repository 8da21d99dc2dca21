use textfmt::layout::{to_english, to_russian, toggle_layout};

#[test]
fn english_keys_become_russian_letters() {
    assert_eq!(to_russian("ghbdtn"), "привет");
}

#[test]
fn russian_letters_become_english_keys() {
    assert_eq!(to_english("руддщ"), "hello");
}

#[test]
fn shifted_keys_follow_the_upper_table() {
    assert_eq!(to_russian("Ghbdtn"), "Привет");
    assert_eq!(to_english("Руддщ"), "Hello");
    assert_eq!(to_russian("{}:\"<>?~"), "ХЪЖЭБЮ,Ё");
}

#[test]
fn punctuation_keys_are_converted() {
    assert_eq!(to_russian("[];',./`"), "хъжэбю.ё");
    assert_eq!(to_english("хъжэбю.ё"), "[];',./`");
}

#[test]
fn characters_outside_the_layout_stay() {
    assert_eq!(to_russian("123 !@#"), "123 !@#");
    assert_eq!(to_english("123 !@#"), "123 !@#");
    assert_eq!(to_russian(""), "");
}

#[test]
fn english_undoes_russian_on_english_text() {
    let text = "Hello, world! [test] {42}";
    assert_eq!(to_english(&to_russian(text)), text);
}

#[test]
fn russian_undoes_english_on_russian_text() {
    let text = "Привет, мир! ёлка";
    assert_eq!(to_russian(&to_english(text)), text);
}

#[test]
fn round_trip_fails_on_russian_only_characters() {
    // 'й' is only on the Russian side: to_russian leaves it, to_english converts it.
    assert_eq!(to_english(&to_russian("й")), "q");
}

#[test]
fn toggle_layout_goes_to_russian_for_english_text() {
    assert_eq!(toggle_layout("ghbdtn"), "привет");
}

#[test]
fn toggle_layout_goes_to_english_for_russian_text() {
    assert_eq!(toggle_layout("руддщ"), "hello");
}

#[test]
fn toggle_layout_on_a_tie_goes_to_russian() {
    // one Russian and one English character
    assert_eq!(toggle_layout("йq"), "йй");
    assert_eq!(toggle_layout(""), "");
    assert_eq!(toggle_layout("123"), "123");
}

#[test]
fn toggle_layout_counts_the_majority() {
    // two Russian letters against one English letter
    assert_eq!(toggle_layout("руq"), "heq");
}
