//! Converting text between the Russian and US keyboard layouts.

use vstd::prelude::*;

use vstd::string::StrSliceExecFns;

use crate::text::push_char;

verus! {

/// Lower-case half of the Russian ЙЦУКЕН layout: each pair holds the
/// Russian character and the character on the same key of the US layout.
pub open spec fn lower_pairs() -> Seq<(char, char)> {
    seq![
        ('й', 'q'), ('ц', 'w'), ('у', 'e'), ('к', 'r'), ('е', 't'),
        ('н', 'y'), ('г', 'u'), ('ш', 'i'), ('щ', 'o'), ('з', 'p'),
        ('х', '['), ('ъ', ']'), ('ф', 'a'), ('ы', 's'), ('в', 'd'),
        ('а', 'f'), ('п', 'g'), ('р', 'h'), ('о', 'j'), ('л', 'k'),
        ('д', 'l'), ('ж', ';'), ('э', '\''), ('я', 'z'), ('ч', 'x'),
        ('с', 'c'), ('м', 'v'), ('и', 'b'), ('т', 'n'), ('ь', 'm'),
        ('б', ','), ('ю', '.'), ('.', '/'), ('ё', '`'),
    ]
}

/// Shifted half of the same layout.
pub open spec fn upper_pairs() -> Seq<(char, char)> {
    seq![
        ('Й', 'Q'), ('Ц', 'W'), ('У', 'E'), ('К', 'R'), ('Е', 'T'),
        ('Н', 'Y'), ('Г', 'U'), ('Ш', 'I'), ('Щ', 'O'), ('З', 'P'),
        ('Х', '{'), ('Ъ', '}'), ('Ф', 'A'), ('Ы', 'S'), ('В', 'D'),
        ('А', 'F'), ('П', 'G'), ('Р', 'H'), ('О', 'J'), ('Л', 'K'),
        ('Д', 'L'), ('Ж', ':'), ('Э', '"'), ('Я', 'Z'), ('Ч', 'X'),
        ('С', 'C'), ('М', 'V'), ('И', 'B'), ('Т', 'N'), ('Ь', 'M'),
        ('Б', '<'), ('Ю', '>'), (',', '?'), ('Ё', '~'),
    ]
}

/// The English side of the first pair of `t` whose Russian side is `c`.
pub open spec fn lookup_by_ru(t: Seq<(char, char)>, c: char) -> Option<char>
    decreases t.len(),
{
    if t.len() == 0 {
        None
    } else if t[0].0 == c {
        Some(t[0].1)
    } else {
        lookup_by_ru(t.drop_first(), c)
    }
}

/// The Russian side of the first pair of `t` whose English side is `c`.
pub open spec fn lookup_by_en(t: Seq<(char, char)>, c: char) -> Option<char>
    decreases t.len(),
{
    if t.len() == 0 {
        None
    } else if t[0].1 == c {
        Some(t[0].0)
    } else {
        lookup_by_en(t.drop_first(), c)
    }
}

/// No Russian character occurs twice in `t`.
pub open spec fn ru_injective(t: Seq<(char, char)>) -> bool {
    forall|i: int, j: int| 0 <= i < j < t.len() ==> t[i].0 != t[j].0
}

/// No US character occurs twice in `t`.
pub open spec fn en_injective(t: Seq<(char, char)>) -> bool {
    forall|i: int, j: int| 0 <= i < j < t.len() ==> t[i].1 != t[j].1
}

/// `a` and `b` share no Russian character and no US character.
pub open spec fn sides_disjoint(a: Seq<(char, char)>, b: Seq<(char, char)>) -> bool {
    &&& forall|i: int, j: int| 0 <= i < a.len() && 0 <= j < b.len() ==> a[i].0 != b[j].0
    &&& forall|i: int, j: int| 0 <= i < a.len() && 0 <= j < b.len() ==> a[i].1 != b[j].1
}

/// The character on the same key of the US layout as the Russian character `c`;
/// `c` itself where the layout has no Russian key for it.
pub open spec fn english_of(c: char) -> char {
    match lookup_by_ru(lower_pairs(), c) {
        Some(e) => e,
        None => match lookup_by_ru(upper_pairs(), c) {
            Some(e) => e,
            None => c,
        },
    }
}

/// The character on the same key of the Russian layout as the US character `c`;
/// `c` itself where the layout has no US key for it.
pub open spec fn russian_of(c: char) -> char {
    match lookup_by_en(lower_pairs(), c) {
        Some(r) => r,
        None => match lookup_by_en(upper_pairs(), c) {
            Some(r) => r,
            None => c,
        },
    }
}

/// `c` is a character of the Russian side of the layout.
pub open spec fn is_russian_key(c: char) -> bool {
    lookup_by_ru(lower_pairs(), c) is Some || lookup_by_ru(upper_pairs(), c) is Some
}

/// `c` is a character of the US side of the layout.
pub open spec fn is_english_key(c: char) -> bool {
    lookup_by_en(lower_pairs(), c) is Some || lookup_by_en(upper_pairs(), c) is Some
}

/// The number of characters of `s` on the Russian side of the layout.
pub open spec fn count_russian_keys(s: Seq<char>) -> nat
    decreases s.len(),
{
    if s.len() == 0 {
        0
    } else {
        count_russian_keys(s.drop_last()) + if is_russian_key(s.last()) {
            1nat
        } else {
            0nat
        }
    }
}

/// The number of characters of `s` on the US side of the layout.
pub open spec fn count_english_keys(s: Seq<char>) -> nat
    decreases s.len(),
{
    if s.len() == 0 {
        0
    } else {
        count_english_keys(s.drop_last()) + if is_english_key(s.last()) {
            1nat
        } else {
            0nat
        }
    }
}

/// What `to_russian` makes of `s`.
pub open spec fn spec_to_russian(s: Seq<char>) -> Seq<char> {
    s.map_values(|c: char| russian_of(c))
}

/// What `to_english` makes of `s`.
pub open spec fn spec_to_english(s: Seq<char>) -> Seq<char> {
    s.map_values(|c: char| english_of(c))
}

/// What `toggle_layout` makes of `s`: the text is converted towards the other
/// layout of the one that more of its characters belong to, towards Russian on a tie.
pub open spec fn spec_toggle_layout(s: Seq<char>) -> Seq<char> {
    if count_russian_keys(s) > count_english_keys(s) {
        spec_to_english(s)
    } else {
        spec_to_russian(s)
    }
}

proof fn lemma_lookup_by_ru_none(t: Seq<(char, char)>, c: char)
    ensures
        lookup_by_ru(t, c) is None <==> (forall|k: int| 0 <= k < t.len() ==> t[k].0 != c),
    decreases t.len(),
{
    if t.len() > 0 {
        lemma_lookup_by_ru_none(t.drop_first(), c);
        if lookup_by_ru(t, c) is None {
            assert forall|k: int| 0 <= k < t.len() implies t[k].0 != c by {
                if k > 0 {
                    assert(t[k] == t.drop_first()[k - 1]);
                }
            }
        }
    }
}

proof fn lemma_lookup_by_en_none(t: Seq<(char, char)>, c: char)
    ensures
        lookup_by_en(t, c) is None <==> (forall|k: int| 0 <= k < t.len() ==> t[k].1 != c),
    decreases t.len(),
{
    if t.len() > 0 {
        lemma_lookup_by_en_none(t.drop_first(), c);
        if lookup_by_en(t, c) is None {
            assert forall|k: int| 0 <= k < t.len() implies t[k].1 != c by {
                if k > 0 {
                    assert(t[k] == t.drop_first()[k - 1]);
                }
            }
        }
    }
}

/// The pair that a lookup by a US character finds.
proof fn lemma_lookup_by_en_found(t: Seq<(char, char)>, e: char) -> (k: int)
    requires
        lookup_by_en(t, e) is Some,
    ensures
        0 <= k < t.len(),
        t[k].1 == e,
        lookup_by_en(t, e) == Some(t[k].0),
    decreases t.len(),
{
    if t[0].1 == e {
        0
    } else {
        let k = lemma_lookup_by_en_found(t.drop_first(), e);
        k + 1
    }
}

/// The pair that a lookup by a Russian character finds.
proof fn lemma_lookup_by_ru_found(t: Seq<(char, char)>, r: char) -> (k: int)
    requires
        lookup_by_ru(t, r) is Some,
    ensures
        0 <= k < t.len(),
        t[k].0 == r,
        lookup_by_ru(t, r) == Some(t[k].1),
    decreases t.len(),
{
    if t[0].0 == r {
        0
    } else {
        let k = lemma_lookup_by_ru_found(t.drop_first(), r);
        k + 1
    }
}

/// In a table whose Russian characters are all different, the lookup by
/// the Russian character of a pair finds that pair.
proof fn lemma_lookup_by_ru_at(t: Seq<(char, char)>, k: int)
    requires
        ru_injective(t),
        0 <= k < t.len(),
    ensures
        lookup_by_ru(t, t[k].0) == Some(t[k].1),
    decreases t.len(),
{
    if k > 0 {
        let rest = t.drop_first();
        assert(rest[k - 1] == t[k]);
        lemma_lookup_by_ru_at(rest, k - 1);
    }
}

/// In a table whose US characters are all different, the lookup by
/// the US character of a pair finds that pair.
proof fn lemma_lookup_by_en_at(t: Seq<(char, char)>, k: int)
    requires
        en_injective(t),
        0 <= k < t.len(),
    ensures
        lookup_by_en(t, t[k].1) == Some(t[k].0),
    decreases t.len(),
{
    if k > 0 {
        let rest = t.drop_first();
        assert(rest[k - 1] == t[k]);
        lemma_lookup_by_en_at(rest, k - 1);
    }
}

/// The two halves of the layout give each key one character on each side,
/// and share none.
proof fn lemma_layout_tables_are_one_to_one()
    ensures
        ru_injective(lower_pairs()),
        ru_injective(upper_pairs()),
        en_injective(lower_pairs()),
        en_injective(upper_pairs()),
        sides_disjoint(lower_pairs(), upper_pairs()),
{
}

/// Converting a character to the Russian layout and back gives it back, unless
/// it is a character of the Russian side only (which the first step leaves as it is
/// and the second converts).
pub proof fn lemma_english_of_russian_of(c: char)
    requires
        is_english_key(c) || !is_russian_key(c),
    ensures
        english_of(russian_of(c)) == c,
{
    lemma_layout_tables_are_one_to_one();
    let lo = lower_pairs();
    let up = upper_pairs();
    if lookup_by_en(lo, c) is Some {
        let k = lemma_lookup_by_en_found(lo, c);
        lemma_lookup_by_ru_at(lo, k);
    } else if lookup_by_en(up, c) is Some {
        let k = lemma_lookup_by_en_found(up, c);
        lemma_lookup_by_ru_none(lo, up[k].0);
        lemma_lookup_by_ru_at(up, k);
    } else {
        assert(russian_of(c) == c);
    }
}

/// Converting a character to the US layout and back gives it back, unless
/// it is a character of the US side only.
pub proof fn lemma_russian_of_english_of(c: char)
    requires
        is_russian_key(c) || !is_english_key(c),
    ensures
        russian_of(english_of(c)) == c,
{
    lemma_layout_tables_are_one_to_one();
    let lo = lower_pairs();
    let up = upper_pairs();
    if lookup_by_ru(lo, c) is Some {
        let k = lemma_lookup_by_ru_found(lo, c);
        lemma_lookup_by_en_at(lo, k);
    } else if lookup_by_ru(up, c) is Some {
        let k = lemma_lookup_by_ru_found(up, c);
        lemma_lookup_by_en_none(lo, up[k].1);
        lemma_lookup_by_en_at(up, k);
    } else {
        assert(english_of(c) == c);
    }
}

/// Converting a text to the Russian layout and back gives it back, where it holds
/// no character of the Russian side only.
pub proof fn lemma_to_english_undoes_to_russian(s: Seq<char>)
    requires
        forall|i: int| 0 <= i < s.len() ==> is_english_key(s[i]) || !is_russian_key(s[i]),
    ensures
        spec_to_english(spec_to_russian(s)) == s,
{
    assert forall|i: int| 0 <= i < s.len() implies spec_to_english(spec_to_russian(s))[i] == s[i] by {
        lemma_english_of_russian_of(s[i]);
    }
    assert(spec_to_english(spec_to_russian(s)) =~= s);
}

/// Converting a text to the US layout and back gives it back, where it holds
/// no character of the US side only.
pub proof fn lemma_to_russian_undoes_to_english(s: Seq<char>)
    requires
        forall|i: int| 0 <= i < s.len() ==> is_russian_key(s[i]) || !is_english_key(s[i]),
    ensures
        spec_to_russian(spec_to_english(s)) == s,
{
    assert forall|i: int| 0 <= i < s.len() implies spec_to_russian(spec_to_english(s))[i] == s[i] by {
        lemma_russian_of_english_of(s[i]);
    }
    assert(spec_to_russian(spec_to_english(s)) =~= s);
}

proof fn lemma_counts_of_russian_text(s: Seq<char>)
    requires
        forall|i: int| 0 <= i < s.len() ==> is_russian_key(s[i]) && !is_english_key(s[i]),
    ensures
        count_russian_keys(s) == s.len(),
        count_english_keys(s) == 0,
    decreases s.len(),
{
    if s.len() > 0 {
        lemma_counts_of_russian_text(s.drop_last());
    }
}

proof fn lemma_counts_of_english_text(s: Seq<char>)
    requires
        forall|i: int| 0 <= i < s.len() ==> is_english_key(s[i]) && !is_russian_key(s[i]),
    ensures
        count_russian_keys(s) == 0,
        count_english_keys(s) == s.len(),
    decreases s.len(),
{
    if s.len() > 0 {
        lemma_counts_of_english_text(s.drop_last());
    }
}

/// Toggling a non-empty text typed on Russian-only keys converts it to the US layout.
pub proof fn lemma_toggle_layout_of_russian_text(s: Seq<char>)
    requires
        s.len() > 0,
        forall|i: int| 0 <= i < s.len() ==> is_russian_key(s[i]) && !is_english_key(s[i]),
    ensures
        spec_toggle_layout(s) == spec_to_english(s),
{
    lemma_counts_of_russian_text(s);
}

/// Toggling a text typed on US-only keys converts it to the Russian layout.
pub proof fn lemma_toggle_layout_of_english_text(s: Seq<char>)
    requires
        forall|i: int| 0 <= i < s.len() ==> is_english_key(s[i]) && !is_russian_key(s[i]),
    ensures
        spec_toggle_layout(s) == spec_to_russian(s),
{
    lemma_counts_of_english_text(s);
}

/// Converting to the US layout works character by character: the result has the
/// text's length and holds at each position the US character of the key there.
pub proof fn lemma_to_english_per_character(s: Seq<char>)
    ensures
        spec_to_english(s).len() == s.len(),
        forall|i: int| 0 <= i < s.len() ==> spec_to_english(s)[i] == english_of(#[trigger] s[i]),
{
}

/// Converting to the Russian layout works character by character: the result has
/// the text's length and holds at each position the Russian character of the key there.
pub proof fn lemma_to_russian_per_character(s: Seq<char>)
    ensures
        spec_to_russian(s).len() == s.len(),
        forall|i: int| 0 <= i < s.len() ==> spec_to_russian(s)[i] == russian_of(#[trigger] s[i]),
{
}

/// The Russian-key count is the number of characters of the whole text that are
/// on the Russian side of the layout.
pub proof fn lemma_count_russian_keys_is_filter(s: Seq<char>)
    ensures
        count_russian_keys(s) == s.filter(|c: char| is_russian_key(c)).len(),
    decreases s.len(),
{
    reveal_with_fuel(Seq::filter, 1);
    if s.len() > 0 {
        lemma_count_russian_keys_is_filter(s.drop_last());
    }
}

/// The US-key count is the number of characters of the whole text that are on
/// the US side of the layout.
pub proof fn lemma_count_english_keys_is_filter(s: Seq<char>)
    ensures
        count_english_keys(s) == s.filter(|c: char| is_english_key(c)).len(),
    decreases s.len(),
{
    reveal_with_fuel(Seq::filter, 1);
    if s.len() > 0 {
        lemma_count_english_keys_is_filter(s.drop_last());
    }
}

/// Toggling converts the whole text to the US layout when more of its characters
/// are on the Russian side than on the US side, and the whole text to the Russian
/// layout otherwise: every character goes through the same conversion.
pub proof fn lemma_toggle_layout_by_counts(s: Seq<char>)
    ensures
        s.filter(|c: char| is_russian_key(c)).len() > s.filter(|c: char| is_english_key(c)).len() ==> {
            &&& spec_toggle_layout(s).len() == s.len()
            &&& forall|i: int| 0 <= i < s.len() ==> spec_toggle_layout(s)[i] == english_of(#[trigger] s[i])
        },
        s.filter(|c: char| is_russian_key(c)).len() <= s.filter(|c: char| is_english_key(c)).len() ==> {
            &&& spec_toggle_layout(s).len() == s.len()
            &&& forall|i: int| 0 <= i < s.len() ==> spec_toggle_layout(s)[i] == russian_of(#[trigger] s[i])
        },
{
    lemma_count_russian_keys_is_filter(s);
    lemma_count_english_keys_is_filter(s);
    lemma_to_english_per_character(s);
    lemma_to_russian_per_character(s);
}

/// The 34 keys that the layout covers, in keyboard order (the key left of `1`, then
/// the top, middle and bottom letter rows), as the US layout prints them unshifted.
pub open spec fn us_keys() -> Seq<char> {
    seq!['`', 'q', 'w', 'e', 'r', 't', 'y', 'u', 'i', 'o', 'p', '[', ']', 'a', 's', 'd', 'f', 'g', 'h', 'j', 'k', 'l', ';', '\'', 'z', 'x', 'c', 'v', 'b', 'n', 'm', ',', '.', '/']
}

/// The same 34 keys as the Russian ЙЦУКЕН layout prints them unshifted.
pub open spec fn ru_keys() -> Seq<char> {
    seq!['ё', 'й', 'ц', 'у', 'к', 'е', 'н', 'г', 'ш', 'щ', 'з', 'х', 'ъ', 'ф', 'ы', 'в', 'а', 'п', 'р', 'о', 'л', 'д', 'ж', 'э', 'я', 'ч', 'с', 'м', 'и', 'т', 'ь', 'б', 'ю', '.']
}

/// The same 34 keys as the US layout prints them with Shift.
pub open spec fn us_shifted_keys() -> Seq<char> {
    seq!['~', 'Q', 'W', 'E', 'R', 'T', 'Y', 'U', 'I', 'O', 'P', '{', '}', 'A', 'S', 'D', 'F', 'G', 'H', 'J', 'K', 'L', ':', '"', 'Z', 'X', 'C', 'V', 'B', 'N', 'M', '<', '>', '?']
}

/// The same 34 keys as the Russian layout prints them with Shift.
pub open spec fn ru_shifted_keys() -> Seq<char> {
    seq!['Ё', 'Й', 'Ц', 'У', 'К', 'Е', 'Н', 'Г', 'Ш', 'Щ', 'З', 'Х', 'Ъ', 'Ф', 'Ы', 'В', 'А', 'П', 'Р', 'О', 'Л', 'Д', 'Ж', 'Э', 'Я', 'Ч', 'С', 'М', 'И', 'Т', 'Ь', 'Б', 'Ю', ',']
}

proof fn lemma_lower_entry(k: int)
    requires
        0 <= k < 34,
    ensures
        russian_of(lower_pairs()[k].1) == lower_pairs()[k].0,
        english_of(lower_pairs()[k].0) == lower_pairs()[k].1,
{
    lemma_layout_tables_are_one_to_one();
    lemma_lookup_by_en_at(lower_pairs(), k);
    lemma_lookup_by_ru_at(lower_pairs(), k);
}

proof fn lemma_upper_entry(k: int)
    requires
        0 <= k < 34,
    ensures
        russian_of(upper_pairs()[k].1) == upper_pairs()[k].0,
        english_of(upper_pairs()[k].0) == upper_pairs()[k].1,
{
    lemma_layout_tables_are_one_to_one();
    lemma_lookup_by_en_none(lower_pairs(), upper_pairs()[k].1);
    lemma_lookup_by_ru_none(lower_pairs(), upper_pairs()[k].0);
    lemma_lookup_by_en_at(upper_pairs(), k);
    lemma_lookup_by_ru_at(upper_pairs(), k);
}

/// The position in the tables of the key at position `i` of keyboard order.
spec fn table_index(i: int) -> int {
    if i == 0 {
        33
    } else {
        i - 1
    }
}

proof fn lemma_tables_in_keyboard_order()
    ensures
        forall|i: int|
            0 <= i < 34 ==> {
                &&& #[trigger] us_keys()[i] == lower_pairs()[table_index(i)].1
                &&& ru_keys()[i] == lower_pairs()[table_index(i)].0
                &&& us_shifted_keys()[i] == upper_pairs()[table_index(i)].1
                &&& ru_shifted_keys()[i] == upper_pairs()[table_index(i)].0
            },
{
}

/// Each key of the keyboard converts between what the US layout and what the
/// Russian ЙЦУКЕН layout print on it, unshifted and with Shift, in both directions;
/// a character printed on none of these keys is left as it is.
pub proof fn lemma_layout_follows_keyboard()
    ensures
        forall|i: int| 0 <= i < 34 ==> russian_of(#[trigger] us_keys()[i]) == ru_keys()[i],
        forall|i: int| 0 <= i < 34 ==> english_of(#[trigger] ru_keys()[i]) == us_keys()[i],
        forall|i: int| 0 <= i < 34 ==> russian_of(#[trigger] us_shifted_keys()[i]) == ru_shifted_keys()[i],
        forall|i: int| 0 <= i < 34 ==> english_of(#[trigger] ru_shifted_keys()[i]) == us_shifted_keys()[i],
        forall|c: char|
            (forall|i: int| 0 <= i < 34 ==> c != us_keys()[i] && c != us_shifted_keys()[i])
                ==> #[trigger] russian_of(c) == c,
        forall|c: char|
            (forall|i: int| 0 <= i < 34 ==> c != ru_keys()[i] && c != ru_shifted_keys()[i])
                ==> #[trigger] english_of(c) == c,
{
    lemma_tables_in_keyboard_order();
    assert forall|i: int| 0 <= i < 34 implies russian_of(#[trigger] us_keys()[i]) == ru_keys()[i] by {
        lemma_lower_entry(table_index(i));
        lemma_upper_entry(table_index(i));
    }
    assert forall|i: int| 0 <= i < 34 implies english_of(#[trigger] ru_keys()[i]) == us_keys()[i] by {
        lemma_lower_entry(table_index(i));
        lemma_upper_entry(table_index(i));
    }
    assert forall|i: int| 0 <= i < 34 implies russian_of(#[trigger] us_shifted_keys()[i]) == ru_shifted_keys()[i] by {
        lemma_lower_entry(table_index(i));
        lemma_upper_entry(table_index(i));
    }
    assert forall|i: int| 0 <= i < 34 implies english_of(#[trigger] ru_shifted_keys()[i]) == us_shifted_keys()[i] by {
        lemma_lower_entry(table_index(i));
        lemma_upper_entry(table_index(i));
    }
    assert forall|c: char|
        (forall|i: int| 0 <= i < 34 ==> c != us_keys()[i] && c != us_shifted_keys()[i])
            implies #[trigger] russian_of(c) == c by {
        assert forall|k: int| 0 <= k < 34 implies lower_pairs()[k].1 != c && upper_pairs()[k].1 != c by {
            let i = if k == 33 { 0 } else { k + 1 };
            assert(table_index(i) == k);
            assert(us_keys()[i] != c && us_shifted_keys()[i] != c);
        }
        lemma_lookup_by_en_none(lower_pairs(), c);
        lemma_lookup_by_en_none(upper_pairs(), c);
    }
    assert forall|c: char|
        (forall|i: int| 0 <= i < 34 ==> c != ru_keys()[i] && c != ru_shifted_keys()[i])
            implies #[trigger] english_of(c) == c by {
        assert forall|k: int| 0 <= k < 34 implies lower_pairs()[k].0 != c && upper_pairs()[k].0 != c by {
            let i = if k == 33 { 0 } else { k + 1 };
            assert(table_index(i) == k);
            assert(ru_keys()[i] != c && ru_shifted_keys()[i] != c);
        }
        lemma_lookup_by_ru_none(lower_pairs(), c);
        lemma_lookup_by_ru_none(upper_pairs(), c);
    }
}

fn ru_to_en_lower() -> (t: Vec<(char, char)>)
    ensures
        t@ == lower_pairs(),
{
    let t = vec![
        ('й', 'q'), ('ц', 'w'), ('у', 'e'), ('к', 'r'), ('е', 't'),
        ('н', 'y'), ('г', 'u'), ('ш', 'i'), ('щ', 'o'), ('з', 'p'),
        ('х', '['), ('ъ', ']'), ('ф', 'a'), ('ы', 's'), ('в', 'd'),
        ('а', 'f'), ('п', 'g'), ('р', 'h'), ('о', 'j'), ('л', 'k'),
        ('д', 'l'), ('ж', ';'), ('э', '\''), ('я', 'z'), ('ч', 'x'),
        ('с', 'c'), ('м', 'v'), ('и', 'b'), ('т', 'n'), ('ь', 'm'),
        ('б', ','), ('ю', '.'), ('.', '/'), ('ё', '`'),
    ];
    assert(t@ =~= lower_pairs());
    t
}

fn ru_to_en_upper() -> (t: Vec<(char, char)>)
    ensures
        t@ == upper_pairs(),
{
    let t = vec![
        ('Й', 'Q'), ('Ц', 'W'), ('У', 'E'), ('К', 'R'), ('Е', 'T'),
        ('Н', 'Y'), ('Г', 'U'), ('Ш', 'I'), ('Щ', 'O'), ('З', 'P'),
        ('Х', '{'), ('Ъ', '}'), ('Ф', 'A'), ('Ы', 'S'), ('В', 'D'),
        ('А', 'F'), ('П', 'G'), ('Р', 'H'), ('О', 'J'), ('Л', 'K'),
        ('Д', 'L'), ('Ж', ':'), ('Э', '"'), ('Я', 'Z'), ('Ч', 'X'),
        ('С', 'C'), ('М', 'V'), ('И', 'B'), ('Т', 'N'), ('Ь', 'M'),
        ('Б', '<'), ('Ю', '>'), (',', '?'), ('Ё', '~'),
    ];
    assert(t@ =~= upper_pairs());
    t
}

fn map_char(c: char, table: &[(char, char)]) -> (r: Option<char>)
    ensures
        r == lookup_by_ru(table@, c),
{
    let n = table.len();
    let mut i: usize = 0;
    assert(table@.skip(0) =~= table@);
    while i < n
        invariant
            n == table@.len(),
            0 <= i <= n,
            lookup_by_ru(table@, c) == lookup_by_ru(table@.skip(i as int), c),
        decreases n - i,
    {
        let (ru, en) = table[i];
        if ru == c {
            return Some(en);
        }
        assert(table@.skip(i as int).drop_first() =~= table@.skip(i + 1));
        i += 1;
    }
    None
}

fn map_char_rev(c: char, table: &[(char, char)]) -> (r: Option<char>)
    ensures
        r == lookup_by_en(table@, c),
{
    let n = table.len();
    let mut i: usize = 0;
    assert(table@.skip(0) =~= table@);
    while i < n
        invariant
            n == table@.len(),
            0 <= i <= n,
            lookup_by_en(table@, c) == lookup_by_en(table@.skip(i as int), c),
        decreases n - i,
    {
        let (ru, en) = table[i];
        if en == c {
            return Some(ru);
        }
        assert(table@.skip(i as int).drop_first() =~= table@.skip(i + 1));
        i += 1;
    }
    None
}

fn is_in_table(c: char, table: &[(char, char)]) -> (r: bool)
    ensures
        r == lookup_by_ru(table@, c) is Some,
{
    map_char(c, table).is_some()
}

fn is_in_table_rev(c: char, table: &[(char, char)]) -> (r: bool)
    ensures
        r == lookup_by_en(table@, c) is Some,
{
    map_char_rev(c, table).is_some()
}

/// Rewrites `text` as if it had been typed with the Russian layout active:
/// each character of the US layout becomes the character on the same key of
/// the Russian layout (`ghbdtn` becomes `привет`); other characters stay.
pub fn to_russian(text: &str) -> (r: String)
    ensures
        r@ == spec_to_russian(text@),
        r@.len() == text@.len(),
        forall|i: int| 0 <= i < text@.len() ==> r@[i] == russian_of(#[trigger] text@[i]),
{
    let lower = ru_to_en_lower();
    let upper = ru_to_en_upper();
    let mut out = String::new();
    for c in it: text.chars()
        invariant
            it.seq() == text@,
            lower@ == lower_pairs(),
            upper@ == upper_pairs(),
            out@ == spec_to_russian(text@.take(it.index() as int)),
    {
        let m = match map_char_rev(c, lower.as_slice()) {
            Some(r) => r,
            None => match map_char_rev(c, upper.as_slice()) {
                Some(r) => r,
                None => c,
            },
        };
        assert(text@.take(it.index() + 1) =~= text@.take(it.index() as int).push(c));
        push_char(&mut out, m);
        assert(out@ =~= spec_to_russian(text@.take(it.index() + 1)));
    }
    assert(text@.take(text@.len() as int) =~= text@);
    out
}

/// Rewrites `text` as if it had been typed with the US layout active:
/// each character of the Russian layout becomes the character on the same key
/// of the US layout (`руддщ` becomes `hello`); other characters stay.
pub fn to_english(text: &str) -> (r: String)
    ensures
        r@ == spec_to_english(text@),
        r@.len() == text@.len(),
        forall|i: int| 0 <= i < text@.len() ==> r@[i] == english_of(#[trigger] text@[i]),
{
    let lower = ru_to_en_lower();
    let upper = ru_to_en_upper();
    let mut out = String::new();
    for c in it: text.chars()
        invariant
            it.seq() == text@,
            lower@ == lower_pairs(),
            upper@ == upper_pairs(),
            out@ == spec_to_english(text@.take(it.index() as int)),
    {
        let m = match map_char(c, lower.as_slice()) {
            Some(e) => e,
            None => match map_char(c, upper.as_slice()) {
                Some(e) => e,
                None => c,
            },
        };
        assert(text@.take(it.index() + 1) =~= text@.take(it.index() as int).push(c));
        push_char(&mut out, m);
        assert(out@ =~= spec_to_english(text@.take(it.index() + 1)));
    }
    assert(text@.take(text@.len() as int) =~= text@);
    out
}

/// Detects which layout most of the characters of `text` belong to and
/// converts the text to the other one (to Russian when there are no more
/// Russian characters than US ones).
pub fn toggle_layout(text: &str) -> (r: String)
    ensures
        r@ == spec_toggle_layout(text@),
        r@.len() == text@.len(),
        count_russian_keys(text@) > count_english_keys(text@) ==> forall|i: int|
            0 <= i < text@.len() ==> r@[i] == english_of(#[trigger] text@[i]),
        count_russian_keys(text@) <= count_english_keys(text@) ==> forall|i: int|
            0 <= i < text@.len() ==> r@[i] == russian_of(#[trigger] text@[i]),
{
    proof {
        lemma_toggle_layout_by_counts(text@);
        lemma_count_russian_keys_is_filter(text@);
        lemma_count_english_keys_is_filter(text@);
    }
    let lower = ru_to_en_lower();
    let upper = ru_to_en_upper();
    let n = text.unicode_len();
    let mut ru_count: usize = 0;
    let mut en_count: usize = 0;
    for c in it: text.chars()
        invariant
            it.seq() == text@,
            n == text@.len(),
            lower@ == lower_pairs(),
            upper@ == upper_pairs(),
            ru_count <= it.index(),
            en_count <= it.index(),
            ru_count == count_russian_keys(text@.take(it.index() as int)),
            en_count == count_english_keys(text@.take(it.index() as int)),
    {
        assert(text@.take(it.index() + 1).drop_last() =~= text@.take(it.index() as int));
        if is_in_table(c, lower.as_slice()) || is_in_table(c, upper.as_slice()) {
            ru_count += 1;
        }
        if is_in_table_rev(c, lower.as_slice()) || is_in_table_rev(c, upper.as_slice()) {
            en_count += 1;
        }
    }
    assert(text@.take(text@.len() as int) =~= text@);
    if ru_count > en_count {
        to_english(text)
    } else {
        to_russian(text)
    }
}

} // verus!
