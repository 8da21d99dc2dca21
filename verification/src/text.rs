//! Text primitives: Unicode case and whitespace classes, splitting into words, joining.

use vstd::prelude::*;

verus! {

/// Whether `c` has the Unicode `Uppercase` property, as `char::is_uppercase` decides it.
pub uninterp spec fn char_is_uppercase(c: char) -> bool;

/// Whether `c` has the Unicode `Lowercase` property, as `char::is_lowercase` decides it.
pub uninterp spec fn char_is_lowercase(c: char) -> bool;

/// Whether `c` has the Unicode `White_Space` property (PropList.txt), as
/// `char::is_whitespace` decides it: the controls U+0009..U+000D, the space,
/// U+0085, U+00A0, U+1680, U+2000..U+200A, U+2028, U+2029, U+202F, U+205F and U+3000.
pub open spec fn char_is_whitespace(c: char) -> bool {
    let u = c as u32;
    ||| 0x09 <= u <= 0x0D
    ||| u == 0x20
    ||| u == 0x85
    ||| u == 0xA0
    ||| u == 0x1680
    ||| 0x2000 <= u <= 0x200A
    ||| u == 0x2028
    ||| u == 0x2029
    ||| u == 0x202F
    ||| u == 0x205F
    ||| u == 0x3000
}

/// The characters that `char::to_uppercase` yields for `c`.
pub uninterp spec fn char_to_upper(c: char) -> Seq<char>;

/// The characters that `char::to_lowercase` yields for `c`.
pub uninterp spec fn char_to_lower(c: char) -> Seq<char>;

/// What `str::to_uppercase` makes of a text.
pub uninterp spec fn str_to_upper(s: Seq<char>) -> Seq<char>;

/// What `str::to_lowercase` makes of a text.
pub uninterp spec fn str_to_lower(s: Seq<char>) -> Seq<char>;

/// `char::is_uppercase`: the Unicode `Uppercase` property of `c`, which this
/// contract names and does not spell out.
#[verifier::external_body]
pub(crate) fn is_uppercase(c: char) -> (r: bool)
    ensures
        r == char_is_uppercase(c),
{
    c.is_uppercase()
}

/// `char::is_lowercase`: the Unicode `Lowercase` property of `c`, which this
/// contract names and does not spell out.
#[verifier::external_body]
pub(crate) fn is_lowercase(c: char) -> (r: bool)
    ensures
        r == char_is_lowercase(c),
{
    c.is_lowercase()
}

/// `char::is_whitespace`: whether `c` has the Unicode `White_Space` property,
/// the fixed set of code points that PropList.txt lists and `char_is_whitespace` spells out.
#[verifier::external_body]
pub(crate) fn is_whitespace(c: char) -> (r: bool)
    ensures
        r == char_is_whitespace(c),
{
    c.is_whitespace()
}

/// `char::to_uppercase`, collected into a `String`: the uppercase mapping of `c`,
/// one or more characters as the documentation states. Which characters, the
/// Unicode tables decide; the contract names them and does not spell them out.
#[verifier::external_body]
pub(crate) fn char_upper(c: char) -> (r: String)
    ensures
        r@ == char_to_upper(c),
        r@.len() >= 1,
{
    c.to_uppercase().collect()
}

/// `char::to_lowercase`, collected into a `String`: the lowercase mapping of `c`,
/// one or more characters as the documentation states. Which characters, the
/// Unicode tables decide; the contract names them and does not spell them out.
#[verifier::external_body]
pub(crate) fn char_lower(c: char) -> (r: String)
    ensures
        r@ == char_to_lower(c),
        r@.len() >= 1,
{
    c.to_lowercase().collect()
}

/// `str::to_uppercase`: the uppercase equivalent of `s` under the Unicode tables,
/// which the contract names and does not spell out.
#[verifier::external_body]
pub(crate) fn str_upper(s: &str) -> (r: String)
    ensures
        r@ == str_to_upper(s@),
{
    s.to_uppercase()
}

/// `str::to_lowercase`: the lowercase equivalent of `s` under the Unicode tables
/// (context-dependent for final sigma), which the contract names and does not spell out.
#[verifier::external_body]
pub(crate) fn str_lower(s: &str) -> (r: String)
    ensures
        r@ == str_to_lower(s@),
{
    s.to_lowercase()
}

/// `String::push`: appends `c` to the end of `s`.
#[verifier::external_body]
pub(crate) fn push_char(s: &mut String, c: char)
    ensures
        final(s)@ == old(s)@.push(c),
{
    s.push(c)
}

/// Appends every character of `t` to `s`.
pub fn push_str(s: &mut String, t: &str)
    ensures
        final(s)@ == old(s)@ + t@,
{
    let ghost start = s@;
    for c in it: t.chars()
        invariant
            it.seq() == t@,
            s@ == start + t@.take(it.index() as int),
    {
        assert(t@.take(it.index() + 1) =~= t@.take(it.index() as int).push(c));
        push_char(s, c);
    }
    assert(t@.take(t@.len() as int) =~= t@);
}

/// The words of `s` that are complete, and the word still being read, after
/// reading `s` from the left: a word is a maximal run of characters without
/// the Unicode `White_Space` property.
pub open spec fn split_state(s: Seq<char>) -> (Seq<Seq<char>>, Seq<char>)
    decreases s.len(),
{
    if s.len() == 0 {
        (Seq::empty(), Seq::empty())
    } else {
        let (done, cur) = split_state(s.drop_last());
        if char_is_whitespace(s.last()) {
            if cur.len() > 0 {
                (done.push(cur), Seq::empty())
            } else {
                (done, cur)
            }
        } else {
            (done, cur.push(s.last()))
        }
    }
}

/// The words of `s` in order (what `str::split_whitespace` yields): the maximal
/// runs of characters without the Unicode `White_Space` property.
pub open spec fn words(s: Seq<char>) -> Seq<Seq<char>> {
    let (done, cur) = split_state(s);
    if cur.len() > 0 {
        done.push(cur)
    } else {
        done
    }
}

/// The pieces of `ws` in order, with `sep` between each two.
pub open spec fn join(ws: Seq<Seq<char>>, sep: Seq<char>) -> Seq<char>
    decreases ws.len(),
{
    if ws.len() == 0 {
        Seq::empty()
    } else if ws.len() == 1 {
        ws[0]
    } else {
        join(ws.drop_last(), sep) + sep + ws.last()
    }
}

/// Splits `text` into its words (as `str::split_whitespace` does).
pub fn split_whitespace(text: &str) -> (r: Vec<String>)
    ensures
        r.deep_view() == words(text@),
{
    let mut done: Vec<String> = Vec::new();
    let mut cur = String::new();
    for c in it: text.chars()
        invariant
            it.seq() == text@,
            (done.deep_view(), cur@) == split_state(text@.take(it.index() as int)),
    {
        let ghost prefix = text@.take(it.index() + 1);
        assert(prefix.drop_last() =~= text@.take(it.index() as int));
        assert(prefix.last() == c);
        if is_whitespace(c) {
            if !cur.as_str().is_empty() {
                let word = cur;
                cur = String::new();
                done.push(word);
                assert(done.deep_view() =~= split_state(prefix).0);
            }
        } else {
            push_char(&mut cur, c);
        }
    }
    assert(text@.take(text@.len() as int) =~= text@);
    if !cur.as_str().is_empty() {
        done.push(cur);
    }
    proof {
        assert(done.deep_view() =~= words(text@));
    }
    done
}

/// Joins `parts` in order, with `sep` between each two.
pub fn join_with(parts: &Vec<String>, sep: char) -> (r: String)
    ensures
        r@ == join(parts.deep_view(), seq![sep]),
{
    let mut out = String::new();
    let n = parts.len();
    for i in 0..n
        invariant
            n == parts.len(),
            out@ == join(parts.deep_view().take(i as int), seq![sep]),
    {
        let ghost before = out@;
        let ghost dv = parts.deep_view();
        assert(dv.take(i + 1).drop_last() =~= dv.take(i as int));
        if i > 0 {
            push_char(&mut out, sep);
        }
        push_str(&mut out, parts[i].as_str());
        proof {
            if i == 0 {
                assert(dv.take(1) =~= seq![dv[0]]);
            }
            assert(out@ =~= join(dv.take(i + 1), seq![sep]));
        }
    }
    assert(parts.deep_view().take(n as int) =~= parts.deep_view());
    out
}

/// The characters of `text`, in order.
pub fn chars_of(text: &str) -> (v: Vec<char>)
    ensures
        v@ == text@,
{
    let mut v: Vec<char> = Vec::new();
    for c in it: text.chars()
        invariant
            it.seq() == text@,
            v@ == it.seq().take(it.index() as int),
    {
        v.push(c);
    }
    v
}

/// Whether `a` and `b` hold the same characters.
pub fn str_eq(a: &str, b: &str) -> (r: bool)
    ensures
        r == (a@ == b@),
{
    let x = chars_of(a);
    let y = chars_of(b);
    if x.len() != y.len() {
        return false;
    }
    let n = x.len();
    for i in 0..n
        invariant
            n == x@.len(),
            n == y@.len(),
            x@ == a@,
            y@ == b@,
            forall|j: int| 0 <= j < i ==> x@[j] == y@[j],
    {
        if x[i] != y[i] {
            return false;
        }
    }
    assert(x@ =~= y@);
    true
}

/// No character of `x` has the Unicode `White_Space` property.
pub open spec fn has_no_whitespace(x: Seq<char>) -> bool {
    forall|i: int| 0 <= i < x.len() ==> !char_is_whitespace(x[i])
}

/// Every piece of `ws` is non-empty and free of whitespace: what a list of words is.
pub open spec fn well_formed_words(ws: Seq<Seq<char>>) -> bool {
    forall|i: int| 0 <= i < ws.len() ==> ws[i].len() > 0 && has_no_whitespace(#[trigger] ws[i])
}

proof fn lemma_split_state_well_formed(s: Seq<char>)
    ensures
        well_formed_words(split_state(s).0),
        has_no_whitespace(split_state(s).1),
    decreases s.len(),
{
    if s.len() > 0 {
        lemma_split_state_well_formed(s.drop_last());
        let (done, cur) = split_state(s.drop_last());
        if char_is_whitespace(s.last()) {
            if cur.len() > 0 {
                assert(forall|i: int| 0 <= i < done.len() ==> done.push(cur)[i] == done[i]);
            }
        } else {
            assert(forall|i: int| 0 <= i < cur.len() ==> cur.push(s.last())[i] == cur[i]);
        }
    }
}

/// The words of a text are non-empty and free of whitespace.
pub proof fn lemma_words_well_formed(s: Seq<char>)
    ensures
        well_formed_words(words(s)),
{
    lemma_split_state_well_formed(s);
    let (done, cur) = split_state(s);
    if cur.len() > 0 {
        assert(forall|i: int| 0 <= i < done.len() ==> done.push(cur)[i] == done[i]);
    }
}

/// Reading characters without whitespace extends the word being read.
proof fn lemma_split_state_extend(p: Seq<char>, x: Seq<char>)
    requires
        has_no_whitespace(x),
    ensures
        split_state(p + x) == (split_state(p).0, split_state(p).1 + x),
    decreases x.len(),
{
    if x.len() == 0 {
        assert(p + x =~= p);
        assert(split_state(p).1 + x =~= split_state(p).1);
    } else {
        lemma_split_state_extend(p, x.drop_last());
        assert((p + x).drop_last() =~= p + x.drop_last());
        assert((p + x).last() == x.last());
        assert(split_state(p).1 + x.drop_last() + seq![x.last()] =~= split_state(p).1 + x);
    }
}

/// Joining well-formed words with single spaces and splitting the result gives
/// the words back, all but the last complete and the last being read.
proof fn lemma_split_state_join(ws: Seq<Seq<char>>)
    requires
        well_formed_words(ws),
        ws.len() > 0,
    ensures
        split_state(join(ws, seq![' '])) == (ws.drop_last(), ws.last()),
    decreases ws.len(),
{
    let e = Seq::<char>::empty();
    if ws.len() == 1 {
        assert(ws[0] == ws.last());
        lemma_split_state_extend(e, ws[0]);
        assert(e + ws[0] =~= ws[0]);
        assert(ws.drop_last() =~= Seq::<Seq<char>>::empty());
        assert(e + ws[0] =~= ws.last());
    } else {
        let rest = ws.drop_last();
        assert(forall|i: int| 0 <= i < rest.len() ==> rest[i] == ws[i]);
        lemma_split_state_join(rest);
        let jr = join(rest, seq![' ']);
        let with_space = jr + seq![' '];
        assert(with_space.drop_last() =~= jr);
        assert(with_space.last() == ' ');
        assert(rest.last() == ws[ws.len() - 2]);
        assert(rest.drop_last().push(rest.last()) =~= rest);
        assert(split_state(with_space) == (rest, e));
        assert(ws.last() == ws[ws.len() - 1]);
        lemma_split_state_extend(with_space, ws.last());
        assert(e + ws.last() =~= ws.last());
    }
}

/// Splitting well-formed words joined by single spaces gives the words back.
pub proof fn lemma_words_of_join(ws: Seq<Seq<char>>)
    requires
        well_formed_words(ws),
    ensures
        words(join(ws, seq![' '])) == ws,
{
    if ws.len() == 0 {
        assert(split_state(Seq::<char>::empty()) == (Seq::<Seq<char>>::empty(), Seq::<char>::empty()));
    } else {
        lemma_split_state_join(ws);
        assert(ws.last().len() > 0);
        assert(ws.drop_last().push(ws.last()) =~= ws);
    }
}

/// The characters of `s` without the whitespace ones, in order.
pub open spec fn non_whitespace(s: Seq<char>) -> Seq<char> {
    s.filter(|c: char| !char_is_whitespace(c))
}

proof fn lemma_split_state_flatten(s: Seq<char>)
    ensures
        split_state(s).0.flatten() + split_state(s).1 == non_whitespace(s),
    decreases s.len(),
{
    reveal_with_fuel(Seq::filter, 1);
    if s.len() == 0 {
        assert(Seq::<Seq<char>>::empty().flatten() + Seq::<char>::empty() =~= Seq::<char>::empty());
    } else {
        let init = s.drop_last();
        lemma_split_state_flatten(init);
        let (done, cur) = split_state(init);
        if char_is_whitespace(s.last()) {
            if cur.len() > 0 {
                done.lemma_flatten_push(cur);
                assert(done.push(cur).flatten() + Seq::<char>::empty() =~= done.flatten() + cur);
            }
        } else {
            assert(done.flatten() + cur.push(s.last()) =~= (done.flatten() + cur).push(s.last()));
        }
    }
}

/// The words of a text, put together, are its non-whitespace characters in order.
pub proof fn lemma_words_flatten(s: Seq<char>)
    ensures
        words(s).flatten() == non_whitespace(s),
{
    lemma_split_state_flatten(s);
    let (done, cur) = split_state(s);
    if cur.len() > 0 {
        done.lemma_flatten_push(cur);
    } else {
        assert(done.flatten() + cur =~= done.flatten());
    }
}

/// Whitespace in `x` stands only as single spaces between non-whitespace
/// characters: none at either end, none doubled, none other than the space.
pub open spec fn single_spaced(x: Seq<char>) -> bool {
    forall|i: int|
        0 <= i < x.len() && char_is_whitespace(#[trigger] x[i]) ==> x[i] == ' ' && 0 < i < x.len() - 1
            && !char_is_whitespace(x[i - 1]) && !char_is_whitespace(x[i + 1])
}

/// Well-formed words joined by single spaces are single-spaced, and the result is
/// empty only when there are no words.
pub proof fn lemma_join_single_spaced(ws: Seq<Seq<char>>)
    requires
        well_formed_words(ws),
    ensures
        single_spaced(join(ws, seq![' '])),
        (join(ws, seq![' ']).len() == 0) == (ws.len() == 0),
        ws.len() > 0 ==> !char_is_whitespace(join(ws, seq![' '])[0]) && !char_is_whitespace(
            join(ws, seq![' ']).last(),
        ),
    decreases ws.len(),
{
    if ws.len() == 1 {
        assert(well_formed_words(ws));
        assert(ws[0].len() > 0 && has_no_whitespace(ws[0]));
    } else if ws.len() > 1 {
        let init = ws.drop_last();
        assert forall|i: int| 0 <= i < init.len() implies init[i].len() > 0 && has_no_whitespace(
            #[trigger] init[i],
        ) by {
            assert(init[i] == ws[i]);
            assert(well_formed_words(ws));
            assert(ws[i].len() > 0 && has_no_whitespace(ws[i]));
        }
        lemma_join_single_spaced(init);
        let a = join(init, seq![' ']);
        let w = ws.last();
        assert(well_formed_words(ws));
        assert(ws[ws.len() - 1].len() > 0 && has_no_whitespace(ws[ws.len() - 1]));
        let x = a + seq![' '] + w;
        assert(x == join(ws, seq![' ']));
        assert forall|i: int| 0 <= i < x.len() && char_is_whitespace(#[trigger] x[i]) implies x[i] == ' ' && 0 < i
            < x.len() - 1 && !char_is_whitespace(x[i - 1]) && !char_is_whitespace(x[i + 1]) by {
            if i < a.len() {
                assert(x[i] == a[i]);
                if i + 1 < a.len() {
                    assert(x[i + 1] == a[i + 1]);
                }
                assert(x[i - 1] == a[i - 1]);
            } else if i == a.len() {
                assert(x[i - 1] == a.last());
                assert(x[i + 1] == w[0]);
            } else {
                assert(x[i] == w[i - a.len() - 1]);
            }
        }
        assert(x[0] == a[0]);
        assert(x.last() == w.last());
    }
}

} // verus!
