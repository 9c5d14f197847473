//! Character-level helpers shared by the tokenizer and the path model.
use vstd::prelude::*;

verus! {

/// The characters that `char::is_whitespace` accepts: Unicode `White_Space`.
pub open spec fn is_space(c: char) -> bool {
    ('\u{9}' <= c && c <= '\u{d}') || c == ' ' || c == '\u{85}' || c == '\u{a0}' || c
        == '\u{1680}' || ('\u{2000}' <= c && c <= '\u{200a}') || c == '\u{2028}' || c
        == '\u{2029}' || c == '\u{202f}' || c == '\u{205f}' || c == '\u{3000}'
}

/// Whether `c` is a whitespace character.
pub fn is_whitespace(c: char) -> (r: bool)
    ensures
        r == is_space(c),
{
    ('\u{9}' <= c && c <= '\u{d}') || c == ' ' || c == '\u{85}' || c == '\u{a0}' || c
        == '\u{1680}' || ('\u{2000}' <= c && c <= '\u{200a}') || c == '\u{2028}' || c
        == '\u{2029}' || c == '\u{202f}' || c == '\u{205f}' || c == '\u{3000}'
}

/// Appends the pending piece to `done` when `keep` accepts it.
pub open spec fn flush(
    done: Seq<Seq<char>>,
    pending: Seq<char>,
    keep: spec_fn(Seq<char>) -> bool,
) -> Seq<Seq<char>> {
    if keep(pending) {
        done.push(pending)
    } else {
        done
    }
}

/// Reading `s` from the left: the pieces closed so far (each ended by a
/// character that `sep` accepts, and kept only when `keep` accepts it) and the
/// piece still open at the end of `s`.
pub open spec fn scan(
    s: Seq<char>,
    sep: spec_fn(char) -> bool,
    keep: spec_fn(Seq<char>) -> bool,
) -> (Seq<Seq<char>>, Seq<char>)
    decreases s.len(),
{
    if s.len() == 0 {
        (Seq::empty(), Seq::empty())
    } else {
        let (done, pending) = scan(s.drop_last(), sep, keep);
        if sep(s.last()) {
            (flush(done, pending, keep), Seq::empty())
        } else {
            (done, pending.push(s.last()))
        }
    }
}

/// The maximal runs of `s` free of separator characters that `keep` accepts,
/// left to right.
pub open spec fn pieces(
    s: Seq<char>,
    sep: spec_fn(char) -> bool,
    keep: spec_fn(Seq<char>) -> bool,
) -> Seq<Seq<char>> {
    flush(scan(s, sep, keep).0, scan(s, sep, keep).1, keep)
}

/// The views of a sequence of strings.
pub open spec fn views(v: Seq<String>) -> Seq<Seq<char>> {
    v.map_values(|t: String| t@)
}

pub proof fn lemma_views_push(v: Seq<String>, t: String)
    ensures
        views(v.push(t)) == views(v).push(t@),
{
    assert(views(v.push(t)) =~= views(v).push(t@));
}

/// Whitespace as a separator.
pub open spec fn space_sep() -> spec_fn(char) -> bool {
    |c: char| is_space(c)
}

/// Keeps the non-empty pieces.
pub open spec fn non_empty() -> spec_fn(Seq<char>) -> bool {
    |p: Seq<char>| p.len() > 0
}

/// The whitespace-delimited words of `s`.
pub open spec fn words(s: Seq<char>) -> Seq<Seq<char>> {
    pieces(s, space_sep(), non_empty())
}

/// Relies on `String`'s `FromIterator<&char>`: the string holds the given
/// characters in order.
#[verifier::external_body]
pub(crate) fn string_of(v: &[char]) -> (r: String)
    ensures
        r@ == v@,
{
    v.iter().collect()
}

/// Relies on `String::push`: the character is appended.
#[verifier::external_body]
pub(crate) fn push_char(s: &mut String, c: char)
    ensures
        final(s)@ == old(s)@.push(c),
{
    s.push(c)
}

/// Relies on `String::pop`: the last character, if any, is removed and
/// returned.
#[verifier::external_body]
pub(crate) fn pop_char(s: &mut String) -> (r: Option<char>)
    ensures
        old(s)@.len() == 0 ==> r is None && final(s)@ == old(s)@,
        old(s)@.len() > 0 ==> r == Some(old(s)@.last()) && final(s)@ == old(s)@.drop_last(),
{
    s.pop()
}

/// The characters of `s`, in order.
pub fn chars_of(s: &str) -> (r: Vec<char>)
    ensures
        r@ == s@,
{
    let mut r: Vec<char> = Vec::new();
    for c in it: s.chars()
        invariant
            r@ == it.seq().take(it.index() as int),
            it.seq() == s@,
    {
        r.push(c);
    }
    r
}

/// The characters of `v` from index `from` on.
pub fn suffix(v: &[char], from: usize) -> (r: Vec<char>)
    requires
        from <= v@.len(),
    ensures
        r@ == v@.skip(from as int),
{
    let mut r: Vec<char> = Vec::new();
    let mut j: usize = from;
    while j < v.len()
        invariant
            from <= j <= v@.len(),
            r@ == v@.subrange(from as int, j as int),
        decreases v@.len() - j,
    {
        r.push(v[j]);
        assert(v@.subrange(from as int, j + 1) =~= v@.subrange(from as int, j as int).push(
            v@[j as int],
        ));
        j = j + 1;
    }
    assert(r@ =~= v@.skip(from as int));
    r
}

/// Whether two character sequences are equal.
pub fn same_chars(a: &[char], b: &[char]) -> (r: bool)
    ensures
        r == (a@ == b@),
{
    if a.len() != b.len() {
        return false;
    }
    let mut i: usize = 0;
    while i < a.len()
        invariant
            a@.len() == b@.len(),
            i <= a@.len(),
            a@.take(i as int) == b@.take(i as int),
        decreases a@.len() - i,
    {
        if a[i] != b[i] {
            return false;
        }
        assert(a@.take(i + 1) =~= a@.take(i as int).push(a@[i as int]));
        assert(b@.take(i + 1) =~= b@.take(i as int).push(b@[i as int]));
        i = i + 1;
    }
    assert(a@.take(a@.len() as int) =~= a@);
    assert(b@.take(b@.len() as int) =~= b@);
    true
}

/// Whether `t` reads exactly `word`.
pub fn text_is(t: &str, word: &str) -> (r: bool)
    ensures
        r == (t@ == word@),
{
    let a = chars_of(t);
    let b = chars_of(word);
    same_chars(a.as_slice(), b.as_slice())
}

/// Splits `s` into its whitespace-delimited words.
pub fn split_words(s: &[char]) -> (r: Vec<String>)
    ensures
        views(r@) == words(s@),
{
    let mut done: Vec<String> = Vec::new();
    let mut pending: Vec<char> = Vec::new();
    let mut i: usize = 0;
    while i < s.len()
        invariant
            i <= s@.len(),
            (views(done@), pending@) == scan(s@.take(i as int), space_sep(), non_empty()),
        decreases s@.len() - i,
    {
        let c = s[i];
        assert(s@.take(i + 1).drop_last() =~= s@.take(i as int));
        assert(s@.take(i + 1).last() == c);
        let ghost before = scan(s@.take(i as int), space_sep(), non_empty());
        assert(views(done@) == before.0 && pending@ == before.1);
        assert(non_empty()(pending@) == (pending@.len() > 0));
        if is_whitespace(c) {
            if pending.len() > 0 {
                let t = string_of(pending.as_slice());
                assert(t@ == pending@);
                proof {
                    lemma_views_push(done@, t);
                }
                done.push(t);
            }
            assert(views(done@) == flush(before.0, before.1, non_empty()));
            pending = Vec::new();
        } else {
            pending.push(c);
        }
        i = i + 1;
    }
    assert(s@.take(s@.len() as int) =~= s@);
    if pending.len() > 0 {
        let t = string_of(pending.as_slice());
        proof {
            lemma_views_push(done@, t);
        }
        done.push(t);
    }
    done
}

} // verus!
