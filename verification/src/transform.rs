//! The text transformations that hotkeys trigger.

use unicode_segmentation::UnicodeSegmentation;
use vstd::prelude::*;
use vstd::seq_lib::lemma_flatten_concat;
use vstd::string::StrSliceExecFns;

use crate::layout::{spec_to_english, spec_to_russian, spec_toggle_layout, to_english, to_russian, toggle_layout};
use crate::text::{
    char_is_lowercase, char_is_uppercase, char_lower, char_to_lower, char_to_upper, char_upper,
    chars_of, is_lowercase, is_uppercase, join, join_with, push_char, push_str, split_whitespace,
    str_eq, str_lower, str_to_lower, str_to_upper, str_upper, words, lemma_words_of_join,
    lemma_words_well_formed, has_no_whitespace, well_formed_words,
    non_whitespace, single_spaced, lemma_join_single_spaced, lemma_words_flatten,
};

verus! {

/// A text transformation that a hotkey can trigger.
#[derive(Clone, Copy, Debug, PartialEq, Eq, Structural)]
pub enum Transform {
    ToRussian,
    ToEnglish,
    ToggleLayout,
    ToggleCase,
    ToUpper,
    ToLower,
    TitleCase,
    CleanWhitespace,
    Reverse,
    ToCamelCase,
    ToSnakeCase,
}

/// The grapheme clusters of a text, in order, as `UnicodeSegmentation::graphemes`
/// yields the extended clusters.
pub uninterp spec fn grapheme_clusters(s: Seq<char>) -> Seq<Seq<char>>;

/// `UnicodeSegmentation::graphemes(text, true)`, each cluster copied into a `String`.
/// The contract names the segmentation (Unicode UAX #29, which it does not spell out)
/// and states what the crate's source shows of every outcome: the clusters are
/// consecutive non-empty slices of `text` that together make up all of it.
#[verifier::external_body]
fn graphemes(text: &str) -> (r: Vec<String>)
    ensures
        r.deep_view() == grapheme_clusters(text@),
        r.deep_view().flatten() == text@,
        forall|i: int| 0 <= i < r.deep_view().len() ==> r.deep_view()[i].len() > 0,
{
    text.graphemes(true).map(|g| g.to_string()).collect()
}

/// The number of characters of `s` with the Unicode `Uppercase` property.
pub open spec fn count_uppercase(s: Seq<char>) -> nat
    decreases s.len(),
{
    if s.len() == 0 {
        0
    } else {
        count_uppercase(s.drop_last()) + if char_is_uppercase(s.last()) {
            1nat
        } else {
            0nat
        }
    }
}

/// The number of characters of `s` with the Unicode `Lowercase` property.
pub open spec fn count_lowercase(s: Seq<char>) -> nat
    decreases s.len(),
{
    if s.len() == 0 {
        0
    } else {
        count_lowercase(s.drop_last()) + if char_is_lowercase(s.last()) {
            1nat
        } else {
            0nat
        }
    }
}

/// Lower case when the text has more uppercase than lowercase characters, upper case otherwise.
pub open spec fn spec_toggle_case(s: Seq<char>) -> Seq<char> {
    if count_uppercase(s) > count_lowercase(s) {
        str_to_lower(s)
    } else {
        str_to_upper(s)
    }
}

/// A word with its first character in upper case and the rest in lower case.
pub open spec fn title_word(w: Seq<char>) -> Seq<char> {
    if w.len() == 0 {
        Seq::empty()
    } else {
        char_to_upper(w[0]) + str_to_lower(w.drop_first())
    }
}

/// Each word capitalised, the words joined by single spaces.
pub open spec fn spec_title_case(s: Seq<char>) -> Seq<char> {
    join(words(s).map_values(|w: Seq<char>| title_word(w)), seq![' '])
}

/// The words of the text joined by single spaces.
pub open spec fn spec_clean_whitespace(s: Seq<char>) -> Seq<char> {
    join(words(s), seq![' '])
}

/// The grapheme clusters of the text in reverse order.
pub open spec fn spec_reverse(s: Seq<char>) -> Seq<char> {
    grapheme_clusters(s).reverse().flatten()
}

/// The characters that separate the words of a `snake_case`, `kebab-case` or spaced name.
pub open spec fn is_name_separator(c: char) -> bool {
    c == '_' || c == '-' || c == ' '
}

/// After reading `s`: the camel-case text so far, and whether the next
/// character starts a new word.
pub open spec fn camel_state(s: Seq<char>) -> (Seq<char>, bool)
    decreases s.len(),
{
    if s.len() == 0 {
        (Seq::empty(), false)
    } else {
        let (out, cap) = camel_state(s.drop_last());
        let c = s.last();
        if is_name_separator(c) {
            (out, true)
        } else if cap {
            (out + char_to_upper(c), false)
        } else {
            (out.push(c), false)
        }
    }
}

/// Separators dropped, and each character that follows one put in upper case.
pub open spec fn spec_camel_case(s: Seq<char>) -> Seq<char> {
    camel_state(s).0
}

/// The first character of the lowercase mapping of `c` (`c` itself if that were empty).
pub open spec fn first_lower(c: char) -> char {
    if char_to_lower(c).len() > 0 {
        char_to_lower(c)[0]
    } else {
        c
    }
}

/// What `to_snake_case` makes of the character `c` at position `i`.
pub open spec fn snake_piece(c: char, i: int) -> Seq<char> {
    if char_is_uppercase(c) && i > 0 {
        seq!['_', first_lower(c)]
    } else {
        seq![first_lower(c)]
    }
}

/// Each character lowered, with an underscore before each uppercase character
/// but the first one.
pub open spec fn spec_snake_case(s: Seq<char>) -> Seq<char>
    decreases s.len(),
{
    if s.len() == 0 {
        Seq::empty()
    } else {
        spec_snake_case(s.drop_last()) + snake_piece(s.last(), s.len() - 1)
    }
}

/// What `Transform::apply` makes of a text.
pub open spec fn spec_apply(t: Transform, s: Seq<char>) -> Seq<char> {
    match t {
        Transform::ToRussian => spec_to_russian(s),
        Transform::ToEnglish => spec_to_english(s),
        Transform::ToggleLayout => spec_toggle_layout(s),
        Transform::ToggleCase => spec_toggle_case(s),
        Transform::ToUpper => str_to_upper(s),
        Transform::ToLower => str_to_lower(s),
        Transform::TitleCase => spec_title_case(s),
        Transform::CleanWhitespace => spec_clean_whitespace(s),
        Transform::Reverse => spec_reverse(s),
        Transform::ToCamelCase => spec_camel_case(s),
        Transform::ToSnakeCase => spec_snake_case(s),
    }
}

/// The name shown for each transformation in the settings screen.
pub open spec fn spec_name(t: Transform) -> Seq<char> {
    match t {
        Transform::ToRussian => "Russian layout"@,
        Transform::ToEnglish => "English layout"@,
        Transform::ToggleLayout => "Toggle layout"@,
        Transform::ToggleCase => "Toggle case"@,
        Transform::ToUpper => "UPPERCASE"@,
        Transform::ToLower => "lowercase"@,
        Transform::TitleCase => "Title Case"@,
        Transform::CleanWhitespace => "Clean spaces"@,
        Transform::Reverse => "Reverse"@,
        Transform::ToCamelCase => "camelCase"@,
        Transform::ToSnakeCase => "snake_case"@,
    }
}

/// The identifier of each transformation, as the command line and the
/// configuration file spell it.
pub open spec fn variant_name(t: Transform) -> Seq<char> {
    match t {
        Transform::ToRussian => "ToRussian"@,
        Transform::ToEnglish => "ToEnglish"@,
        Transform::ToggleLayout => "ToggleLayout"@,
        Transform::ToggleCase => "ToggleCase"@,
        Transform::ToUpper => "ToUpper"@,
        Transform::ToLower => "ToLower"@,
        Transform::TitleCase => "TitleCase"@,
        Transform::CleanWhitespace => "CleanWhitespace"@,
        Transform::Reverse => "Reverse"@,
        Transform::ToCamelCase => "ToCamelCase"@,
        Transform::ToSnakeCase => "ToSnakeCase"@,
    }
}

/// The transformation whose identifier is `s`, if any.
pub open spec fn spec_parse_transform(s: Seq<char>) -> Option<Transform> {
    if s == "ToRussian"@ {
        Some(Transform::ToRussian)
    } else if s == "ToEnglish"@ {
        Some(Transform::ToEnglish)
    } else if s == "ToggleLayout"@ {
        Some(Transform::ToggleLayout)
    } else if s == "ToggleCase"@ {
        Some(Transform::ToggleCase)
    } else if s == "ToUpper"@ {
        Some(Transform::ToUpper)
    } else if s == "ToLower"@ {
        Some(Transform::ToLower)
    } else if s == "TitleCase"@ {
        Some(Transform::TitleCase)
    } else if s == "CleanWhitespace"@ {
        Some(Transform::CleanWhitespace)
    } else if s == "Reverse"@ {
        Some(Transform::Reverse)
    } else if s == "ToCamelCase"@ {
        Some(Transform::ToCamelCase)
    } else if s == "ToSnakeCase"@ {
        Some(Transform::ToSnakeCase)
    } else {
        None
    }
}

impl Transform {
    /// Applies the transformation to `text`.
    pub fn apply(&self, text: &str) -> (r: String)
        ensures
            r@ == spec_apply(*self, text@),
    {
        match self {
            Transform::ToRussian => to_russian(text),
            Transform::ToEnglish => to_english(text),
            Transform::ToggleLayout => toggle_layout(text),
            Transform::ToggleCase => toggle_case(text),
            Transform::ToUpper => str_upper(text),
            Transform::ToLower => str_lower(text),
            Transform::TitleCase => to_title_case(text),
            Transform::CleanWhitespace => clean_whitespace(text),
            Transform::Reverse => reverse(text),
            Transform::ToCamelCase => to_camel_case(text),
            Transform::ToSnakeCase => to_snake_case(text),
        }
    }

    /// The name shown for the transformation in the settings screen.
    pub fn name(&self) -> (r: &'static str)
        ensures
            r@ == spec_name(*self),
    {
        match self {
            Transform::ToRussian => "Russian layout",
            Transform::ToEnglish => "English layout",
            Transform::ToggleLayout => "Toggle layout",
            Transform::ToggleCase => "Toggle case",
            Transform::ToUpper => "UPPERCASE",
            Transform::ToLower => "lowercase",
            Transform::TitleCase => "Title Case",
            Transform::CleanWhitespace => "Clean spaces",
            Transform::Reverse => "Reverse",
            Transform::ToCamelCase => "camelCase",
            Transform::ToSnakeCase => "snake_case",
        }
    }
}

/// Lower-cases a text with more uppercase than lowercase characters, and
/// upper-cases any other.
pub fn toggle_case(text: &str) -> (r: String)
    ensures
        r@ == spec_toggle_case(text@),
        count_uppercase(text@) > count_lowercase(text@) ==> r@ == str_to_lower(text@),
        count_uppercase(text@) <= count_lowercase(text@) ==> r@ == str_to_upper(text@),
        text@.filter(|c: char| char_is_uppercase(c)).len() > text@.filter(|c: char| char_is_lowercase(c)).len()
            ==> r@ == str_to_lower(text@),
        text@.filter(|c: char| char_is_uppercase(c)).len() <= text@.filter(|c: char| char_is_lowercase(c)).len()
            ==> r@ == str_to_upper(text@),
{
    proof {
        lemma_toggle_case_by_counts(text@);
    }
    let n = text.unicode_len();
    let mut upper: usize = 0;
    let mut lower: usize = 0;
    for c in it: text.chars()
        invariant
            it.seq() == text@,
            n == text@.len(),
            upper <= it.index(),
            lower <= it.index(),
            upper == count_uppercase(text@.take(it.index() as int)),
            lower == count_lowercase(text@.take(it.index() as int)),
    {
        assert(text@.take(it.index() + 1).drop_last() =~= text@.take(it.index() as int));
        if is_uppercase(c) {
            upper += 1;
        }
        if is_lowercase(c) {
            lower += 1;
        }
    }
    assert(text@.take(text@.len() as int) =~= text@);
    if upper > lower {
        str_lower(text)
    } else {
        str_upper(text)
    }
}

/// A word with its first character in upper case and the rest in lower case.
fn title_word_of(word: &str) -> (r: String)
    ensures
        r@ == title_word(word@),
        word@.len() > 0 ==> r@ == char_to_upper(word@[0]) + str_to_lower(word@.drop_first()),
        word@.len() == 0 ==> r@.len() == 0,
{
    let chars = chars_of(word);
    if chars.len() == 0 {
        return String::new();
    }
    let mut rest = String::new();
    let n = chars.len();
    for i in 1..n
        invariant
            n == chars@.len(),
            chars@ == word@,
            rest@ == chars@.subrange(1, i as int),
    {
        push_char(&mut rest, chars[i]);
        assert(chars@.subrange(1, i + 1) =~= chars@.subrange(1, i as int).push(chars@[i as int]));
    }
    assert(chars@.subrange(1, n as int) =~= word@.drop_first());
    let mut out = char_upper(chars[0]);
    let low = str_lower(rest.as_str());
    push_str(&mut out, low.as_str());
    out
}

/// Capitalises each word and joins the words with single spaces.
pub fn to_title_case(text: &str) -> (r: String)
    ensures
        r@ == spec_title_case(text@),
        r@ == join(
            words(text@).map_values(|w: Seq<char>| char_to_upper(w[0]) + str_to_lower(w.drop_first())),
            seq![' '],
        ),
{
    proof {
        lemma_title_case_capitalises_each_word(text@);
    }
    let ws = split_whitespace(text);
    let mut titled: Vec<String> = Vec::new();
    let n = ws.len();
    for i in 0..n
        invariant
            n == ws.deep_view().len(),
            ws.deep_view() == words(text@),
            titled.deep_view() == ws.deep_view().take(i as int).map_values(|w: Seq<char>| title_word(w)),
    {
        let t = title_word_of(ws[i].as_str());
        let ghost before = titled.deep_view();
        assert(ws[i as int]@ == ws.deep_view()[i as int]);
        titled.push(t);
        assert(titled.deep_view() =~= before.push(title_word(ws.deep_view()[i as int])));
        assert(titled.deep_view() =~= ws.deep_view().take(i + 1).map_values(|w: Seq<char>| title_word(w)));
    }
    assert(ws.deep_view().take(n as int) =~= ws.deep_view());
    join_with(&titled, ' ')
}

/// Trims the text and collapses each run of whitespace into one space.
pub fn clean_whitespace(text: &str) -> (r: String)
    ensures
        r@ == spec_clean_whitespace(text@),
        words(r@) == words(text@),
        spec_clean_whitespace(r@) == r@,
        single_spaced(r@),
        non_whitespace(r@) == non_whitespace(text@),
        (r@.len() == 0) == (non_whitespace(text@).len() == 0),
{
    let ws = split_whitespace(text);
    let r = join_with(&ws, ' ');
    proof {
        lemma_clean_whitespace_shape(text@);
        lemma_clean_whitespace_keeps_words(text@);
        lemma_clean_whitespace_idempotent(text@);
    }
    r
}

/// Concatenates `clusters` from the last to the first.
pub fn reverse_clusters(clusters: &Vec<String>) -> (r: String)
    ensures
        r@ == clusters.deep_view().reverse().flatten(),
        clusters.deep_view().len() > 0 ==> r@ == clusters.deep_view().drop_first().reverse().flatten()
            + clusters.deep_view()[0],
        (forall|i: int| 0 <= i < clusters.deep_view().len() ==> (#[trigger] clusters.deep_view()[i]).len() == 1)
            ==> r@ == clusters.deep_view().flatten().reverse(),
{
    proof {
        if clusters.deep_view().len() > 0 {
            lemma_reverse_flatten_first_last(clusters.deep_view());
        }
        if forall|i: int| 0 <= i < clusters.deep_view().len() ==> (#[trigger] clusters.deep_view()[i]).len() == 1 {
            lemma_reverse_of_single_character_clusters(clusters.deep_view());
        }
    }
    let ghost rev = clusters.deep_view().reverse();
    let n = clusters.len();
    let mut out = String::new();
    for i in 0..n
        invariant
            n == clusters.deep_view().len(),
            rev == clusters.deep_view().reverse(),
            out@ == rev.take(i as int).flatten(),
    {
        proof {
            rev.take(i as int).lemma_flatten_push(rev[i as int]);
            assert(rev.take(i + 1) =~= rev.take(i as int).push(rev[i as int]));
        }
        push_str(&mut out, clusters[n - 1 - i].as_str());
    }
    assert(rev.take(n as int) =~= rev);
    out
}

/// Reverses the order of the grapheme clusters of the text.
pub fn reverse(text: &str) -> (r: String)
    ensures
        r@ == spec_reverse(text@),
        r@.len() == text@.len(),
        (forall|i: int| 0 <= i < grapheme_clusters(text@).len() ==> (#[trigger] grapheme_clusters(text@)[i]).len()
            == 1) ==> r@ == text@.reverse(),
{
    let clusters = graphemes(text);
    proof {
        lemma_reverse_flatten_len(clusters.deep_view());
        if forall|i: int| 0 <= i < grapheme_clusters(text@).len() ==> (#[trigger] grapheme_clusters(text@)[i]).len() == 1 {
            lemma_reverse_of_single_character_clusters(clusters.deep_view());
        }
    }
    reverse_clusters(&clusters)
}

/// Putting pieces in reverse order keeps the total length.
pub proof fn lemma_reverse_flatten_len(x: Seq<Seq<char>>)
    ensures
        x.reverse().flatten().len() == x.flatten().len(),
    decreases x.len(),
{
    if x.len() > 0 {
        let init = x.drop_last();
        lemma_reverse_flatten_len(init);
        assert(x.reverse() =~= seq![x.last()] + init.reverse());
        lemma_flatten_concat(seq![x.last()], init.reverse());
        seq![x.last()].lemma_flatten_one_element();
        init.lemma_flatten_push(x.last());
        assert(init.push(x.last()) =~= x);
    }
}

/// Turns `snake_case`, `kebab-case` or spaced words into camelCase: separators
/// are dropped and the character after each is put in upper case.
pub fn to_camel_case(text: &str) -> (r: String)
    ensures
        r@ == spec_camel_case(text@),
{
    let mut result = String::new();
    let mut cap = false;
    for c in it: text.chars()
        invariant
            it.seq() == text@,
            (result@, cap) == camel_state(text@.take(it.index() as int)),
    {
        assert(text@.take(it.index() + 1).drop_last() =~= text@.take(it.index() as int));
        if c == '_' || c == '-' || c == ' ' {
            cap = true;
        } else if cap {
            let up = char_upper(c);
            push_str(&mut result, up.as_str());
            cap = false;
        } else {
            push_char(&mut result, c);
        }
    }
    assert(text@.take(text@.len() as int) =~= text@);
    result
}

/// Turns camelCase into `snake_case`: each character is lowered, and an
/// underscore goes before each uppercase character but the first one.
pub fn to_snake_case(text: &str) -> (r: String)
    ensures
        r@ == spec_snake_case(text@),
{
    let mut result = String::new();
    let n = text.unicode_len();
    let mut i: usize = 0;
    for c in it: text.chars()
        invariant
            it.seq() == text@,
            n == text@.len(),
            i == it.index(),
            result@ == spec_snake_case(text@.take(i as int)),
    {
        let ghost prefix = text@.take(i + 1);
        assert(prefix.drop_last() =~= text@.take(i as int));
        if is_uppercase(c) && i > 0 {
            push_char(&mut result, '_');
        }
        let low = char_lower(c);
        let first = if low.as_str().is_empty() {
            c
        } else {
            low.as_str().get_char(0)
        };
        push_char(&mut result, first);
        assert(result@ =~= spec_snake_case(prefix));
        i += 1;
    }
    assert(text@.take(text@.len() as int) =~= text@);
    result
}

/// The transformation named by its identifier (`"ToRussian"`, `"ToggleCase"`, ...),
/// or `None` for any other text.
pub fn parse_transform(s: &str) -> (r: Option<Transform>)
    ensures
        r == spec_parse_transform(s@),
{
    if str_eq(s, "ToRussian") {
        Some(Transform::ToRussian)
    } else if str_eq(s, "ToEnglish") {
        Some(Transform::ToEnglish)
    } else if str_eq(s, "ToggleLayout") {
        Some(Transform::ToggleLayout)
    } else if str_eq(s, "ToggleCase") {
        Some(Transform::ToggleCase)
    } else if str_eq(s, "ToUpper") {
        Some(Transform::ToUpper)
    } else if str_eq(s, "ToLower") {
        Some(Transform::ToLower)
    } else if str_eq(s, "TitleCase") {
        Some(Transform::TitleCase)
    } else if str_eq(s, "CleanWhitespace") {
        Some(Transform::CleanWhitespace)
    } else if str_eq(s, "Reverse") {
        Some(Transform::Reverse)
    } else if str_eq(s, "ToCamelCase") {
        Some(Transform::ToCamelCase)
    } else if str_eq(s, "ToSnakeCase") {
        Some(Transform::ToSnakeCase)
    } else {
        None
    }
}

/// Each transformation is found again from its identifier.
pub proof fn lemma_parse_variant_name(t: Transform)
    ensures
        spec_parse_transform(variant_name(t)) == Some(t),
{
    reveal_strlit("ToRussian");
    reveal_strlit("ToEnglish");
    reveal_strlit("ToggleLayout");
    reveal_strlit("ToggleCase");
    reveal_strlit("ToUpper");
    reveal_strlit("ToLower");
    reveal_strlit("TitleCase");
    reveal_strlit("CleanWhitespace");
    reveal_strlit("Reverse");
    reveal_strlit("ToCamelCase");
    reveal_strlit("ToSnakeCase");
    match t {
        Transform::ToRussian => {
        },
        Transform::ToEnglish => {
            assert("ToEnglish"@[2] != "ToRussian"@[2]);
        },
        Transform::ToggleLayout => {
            assert("ToggleLayout"@.len() != "ToRussian"@.len());
            assert("ToggleLayout"@.len() != "ToEnglish"@.len());
        },
        Transform::ToggleCase => {
            assert("ToggleCase"@.len() != "ToRussian"@.len());
            assert("ToggleCase"@.len() != "ToEnglish"@.len());
            assert("ToggleCase"@.len() != "ToggleLayout"@.len());
        },
        Transform::ToUpper => {
            assert("ToUpper"@.len() != "ToRussian"@.len());
            assert("ToUpper"@.len() != "ToEnglish"@.len());
            assert("ToUpper"@.len() != "ToggleLayout"@.len());
            assert("ToUpper"@.len() != "ToggleCase"@.len());
        },
        Transform::ToLower => {
            assert("ToLower"@.len() != "ToRussian"@.len());
            assert("ToLower"@.len() != "ToEnglish"@.len());
            assert("ToLower"@.len() != "ToggleLayout"@.len());
            assert("ToLower"@.len() != "ToggleCase"@.len());
            assert("ToLower"@[2] != "ToUpper"@[2]);
        },
        Transform::TitleCase => {
            assert("TitleCase"@[1] != "ToRussian"@[1]);
            assert("TitleCase"@[1] != "ToEnglish"@[1]);
            assert("TitleCase"@.len() != "ToggleLayout"@.len());
            assert("TitleCase"@.len() != "ToggleCase"@.len());
            assert("TitleCase"@.len() != "ToUpper"@.len());
            assert("TitleCase"@.len() != "ToLower"@.len());
        },
        Transform::CleanWhitespace => {
            assert("CleanWhitespace"@.len() != "ToRussian"@.len());
            assert("CleanWhitespace"@.len() != "ToEnglish"@.len());
            assert("CleanWhitespace"@.len() != "ToggleLayout"@.len());
            assert("CleanWhitespace"@.len() != "ToggleCase"@.len());
            assert("CleanWhitespace"@.len() != "ToUpper"@.len());
            assert("CleanWhitespace"@.len() != "ToLower"@.len());
            assert("CleanWhitespace"@.len() != "TitleCase"@.len());
        },
        Transform::Reverse => {
            assert("Reverse"@.len() != "ToRussian"@.len());
            assert("Reverse"@.len() != "ToEnglish"@.len());
            assert("Reverse"@.len() != "ToggleLayout"@.len());
            assert("Reverse"@.len() != "ToggleCase"@.len());
            assert("Reverse"@[0] != "ToUpper"@[0]);
            assert("Reverse"@[0] != "ToLower"@[0]);
            assert("Reverse"@.len() != "TitleCase"@.len());
            assert("Reverse"@.len() != "CleanWhitespace"@.len());
        },
        Transform::ToCamelCase => {
            assert("ToCamelCase"@.len() != "ToRussian"@.len());
            assert("ToCamelCase"@.len() != "ToEnglish"@.len());
            assert("ToCamelCase"@.len() != "ToggleLayout"@.len());
            assert("ToCamelCase"@.len() != "ToggleCase"@.len());
            assert("ToCamelCase"@.len() != "ToUpper"@.len());
            assert("ToCamelCase"@.len() != "ToLower"@.len());
            assert("ToCamelCase"@.len() != "TitleCase"@.len());
            assert("ToCamelCase"@.len() != "CleanWhitespace"@.len());
            assert("ToCamelCase"@.len() != "Reverse"@.len());
        },
        Transform::ToSnakeCase => {
            assert("ToSnakeCase"@.len() != "ToRussian"@.len());
            assert("ToSnakeCase"@.len() != "ToEnglish"@.len());
            assert("ToSnakeCase"@.len() != "ToggleLayout"@.len());
            assert("ToSnakeCase"@.len() != "ToggleCase"@.len());
            assert("ToSnakeCase"@.len() != "ToUpper"@.len());
            assert("ToSnakeCase"@.len() != "ToLower"@.len());
            assert("ToSnakeCase"@.len() != "TitleCase"@.len());
            assert("ToSnakeCase"@.len() != "CleanWhitespace"@.len());
            assert("ToSnakeCase"@.len() != "Reverse"@.len());
            assert("ToSnakeCase"@[2] != "ToCamelCase"@[2]);
        },
    }
}

/// Cleaning whitespace keeps the words of the text, in order.
pub proof fn lemma_clean_whitespace_keeps_words(s: Seq<char>)
    ensures
        words(spec_clean_whitespace(s)) == words(s),
{
    lemma_words_well_formed(s);
    lemma_words_of_join(words(s));
}

/// Cleaning whitespace twice gives what cleaning it once gives.
pub proof fn lemma_clean_whitespace_idempotent(s: Seq<char>)
    ensures
        spec_clean_whitespace(spec_clean_whitespace(s)) == spec_clean_whitespace(s),
{
    lemma_clean_whitespace_keeps_words(s);
}

/// The uppercase count is the number of characters of the whole text with the
/// Unicode `Uppercase` property.
pub proof fn lemma_count_uppercase_is_filter(s: Seq<char>)
    ensures
        count_uppercase(s) == s.filter(|c: char| char_is_uppercase(c)).len(),
    decreases s.len(),
{
    reveal_with_fuel(Seq::filter, 1);
    if s.len() > 0 {
        lemma_count_uppercase_is_filter(s.drop_last());
    }
}

/// The lowercase count is the number of characters of the whole text with the
/// Unicode `Lowercase` property.
pub proof fn lemma_count_lowercase_is_filter(s: Seq<char>)
    ensures
        count_lowercase(s) == s.filter(|c: char| char_is_lowercase(c)).len(),
    decreases s.len(),
{
    reveal_with_fuel(Seq::filter, 1);
    if s.len() > 0 {
        lemma_count_lowercase_is_filter(s.drop_last());
    }
}

/// The counts of a text add up over its parts.
pub proof fn lemma_case_counts_add(a: Seq<char>, b: Seq<char>)
    ensures
        count_uppercase(a + b) == count_uppercase(a) + count_uppercase(b),
        count_lowercase(a + b) == count_lowercase(a) + count_lowercase(b),
    decreases b.len(),
{
    if b.len() == 0 {
        assert(a + b =~= a);
    } else {
        lemma_case_counts_add(a, b.drop_last());
        assert((a + b).drop_last() =~= a + b.drop_last());
        assert((a + b).last() == b.last());
    }
}

/// Toggling the case counts the uppercase and lowercase characters of the whole
/// text: with more uppercase ones the text is lowered, otherwise it is uppered.
pub proof fn lemma_toggle_case_by_counts(s: Seq<char>)
    ensures
        s.filter(|c: char| char_is_uppercase(c)).len() > s.filter(|c: char| char_is_lowercase(c)).len()
            ==> spec_toggle_case(s) == str_to_lower(s),
        s.filter(|c: char| char_is_uppercase(c)).len() <= s.filter(|c: char| char_is_lowercase(c)).len()
            ==> spec_toggle_case(s) == str_to_upper(s),
{
    lemma_count_uppercase_is_filter(s);
    lemma_count_lowercase_is_filter(s);
}

/// Title case capitalises every word, whatever its length: each word's first
/// character is upper-cased and the rest lower-cased, and the words are joined by
/// single spaces.
pub proof fn lemma_title_case_capitalises_each_word(s: Seq<char>)
    ensures
        spec_title_case(s) == join(
            words(s).map_values(|w: Seq<char>| char_to_upper(w[0]) + str_to_lower(w.drop_first())),
            seq![' '],
        ),
{
    lemma_words_well_formed(s);
    let ws = words(s);
    assert forall|i: int| 0 <= i < ws.len() implies ws[i].len() > 0 by {
        assert(well_formed_words(ws));
        assert(ws[i].len() > 0 && has_no_whitespace(ws[i]));
    }
    assert(ws.map_values(|w: Seq<char>| title_word(w)) =~= ws.map_values(
        |w: Seq<char>| char_to_upper(w[0]) + str_to_lower(w.drop_first()),
    ));
}

/// After reading a text, the next character starts a new word exactly when the
/// text ends with a separator.
proof fn lemma_camel_state_cap(s: Seq<char>)
    ensures
        camel_state(s).1 == (s.len() > 0 && is_name_separator(s.last())),
    decreases s.len(),
{
    if s.len() > 0 {
        lemma_camel_state_cap(s.drop_last());
    }
}

/// camelCase appends character by character: a separator (`_`, `-` or a space)
/// adds nothing; a character right after a separator adds its uppercase mapping;
/// any other character is kept as it is. So a text without separators is unchanged.
pub proof fn lemma_camel_case_steps(s: Seq<char>, c: char)
    ensures
        is_name_separator(c) ==> spec_camel_case(s.push(c)) == spec_camel_case(s),
        !is_name_separator(c) && s.len() > 0 && is_name_separator(s.last()) ==> spec_camel_case(s.push(c))
            == spec_camel_case(s) + char_to_upper(c),
        !is_name_separator(c) && !(s.len() > 0 && is_name_separator(s.last())) ==> spec_camel_case(
            s.push(c),
        ) == spec_camel_case(s).push(c),
{
    lemma_camel_state_cap(s);
    assert(s.push(c).drop_last() =~= s);
}

/// A text without separators is already in camelCase.
pub proof fn lemma_camel_case_without_separators(s: Seq<char>)
    requires
        forall|i: int| 0 <= i < s.len() ==> !is_name_separator(#[trigger] s[i]),
    ensures
        spec_camel_case(s) == s,
    decreases s.len(),
{
    if s.len() > 0 {
        let init = s.drop_last();
        assert forall|i: int| 0 <= i < init.len() implies !is_name_separator(#[trigger] init[i]) by {
            assert(init[i] == s[i]);
        }
        lemma_camel_case_without_separators(init);
        lemma_camel_case_steps(init, s.last());
        assert(init.push(s.last()) =~= s);
        if init.len() > 0 {
            assert(init.last() == s[s.len() - 2]);
        }
    }
}

/// snake_case appends character by character: each character adds the first
/// character of its lowercase mapping, preceded by an underscore when it is
/// uppercase and not the first character.
pub proof fn lemma_snake_case_steps(s: Seq<char>, c: char)
    ensures
        char_is_uppercase(c) && s.len() > 0 ==> spec_snake_case(s.push(c)) == spec_snake_case(s) + seq![
            '_',
            first_lower(c),
        ],
        !(char_is_uppercase(c) && s.len() > 0) ==> spec_snake_case(s.push(c)) == spec_snake_case(
            s,
        ).push(first_lower(c)),
        char_to_lower(c).len() > 0 ==> first_lower(c) == char_to_lower(c)[0],
{
    assert(s.push(c).drop_last() =~= s);
}

/// A text without uppercase characters keeps its length in snake_case, each
/// character replaced by the first character of its lowercase mapping.
pub proof fn lemma_snake_case_without_uppercase(s: Seq<char>)
    requires
        forall|i: int| 0 <= i < s.len() ==> !char_is_uppercase(#[trigger] s[i]),
    ensures
        spec_snake_case(s) == s.map_values(|c: char| first_lower(c)),
    decreases s.len(),
{
    if s.len() > 0 {
        let init = s.drop_last();
        assert forall|i: int| 0 <= i < init.len() implies !char_is_uppercase(#[trigger] init[i]) by {
            assert(init[i] == s[i]);
        }
        lemma_snake_case_without_uppercase(init);
        lemma_snake_case_steps(init, s.last());
        assert(init.push(s.last()) =~= s);
        assert(s.map_values(|c: char| first_lower(c)) =~= init.map_values(|c: char| first_lower(c)).push(
            first_lower(s.last()),
        ));
    }
}

/// Reversing pieces puts the first piece last.
pub proof fn lemma_reverse_flatten_first_last(x: Seq<Seq<char>>)
    requires
        x.len() > 0,
    ensures
        x.reverse().flatten() == x.drop_first().reverse().flatten() + x[0],
{
    assert(x.reverse() =~= x.drop_first().reverse().push(x[0]));
    x.drop_first().reverse().lemma_flatten_push(x[0]);
}

/// Where every grapheme cluster of the text is one character, reversing the
/// clusters reverses the characters of the text.
pub proof fn lemma_reverse_of_single_character_clusters(x: Seq<Seq<char>>)
    requires
        forall|i: int| 0 <= i < x.len() ==> (#[trigger] x[i]).len() == 1,
    ensures
        x.reverse().flatten() == x.flatten().reverse(),
    decreases x.len(),
{
    if x.len() > 0 {
        let rest = x.drop_first();
        assert forall|i: int| 0 <= i < rest.len() implies (#[trigger] rest[i]).len() == 1 by {
            assert(rest[i] == x[i + 1]);
        }
        lemma_reverse_of_single_character_clusters(rest);
        lemma_reverse_flatten_first_last(x);
        assert(x.flatten() == x[0] + rest.flatten());
        assert(x[0].len() == 1);
        assert((x[0] + rest.flatten()).reverse() =~= rest.flatten().reverse() + x[0]);
    }
}

/// Cleaning whitespace keeps every non-whitespace character, in order, and leaves
/// whitespace only as single spaces between them (none at either end, none
/// doubled); a text of whitespace alone becomes empty.
pub proof fn lemma_clean_whitespace_shape(s: Seq<char>)
    ensures
        single_spaced(spec_clean_whitespace(s)),
        non_whitespace(spec_clean_whitespace(s)) == non_whitespace(s),
        (spec_clean_whitespace(s).len() == 0) == (non_whitespace(s).len() == 0),
{
    lemma_words_well_formed(s);
    lemma_join_single_spaced(words(s));
    lemma_clean_whitespace_keeps_words(s);
    lemma_words_flatten(s);
    lemma_words_flatten(spec_clean_whitespace(s));
    let ws = words(s);
    if ws.len() > 0 {
        assert(well_formed_words(ws));
        assert(ws[0].len() > 0 && has_no_whitespace(ws[0]));
        assert(ws.flatten() == ws[0] + ws.drop_first().flatten());
    }
}

} // verus!
