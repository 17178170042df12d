//! Text operations of the standard library that the parsers rely on.

use vstd::prelude::*;

verus! {

/// Whether a character has the Unicode property White_Space, as
/// `char::is_whitespace` tells it.
pub uninterp spec fn is_white_space(c: char) -> bool;

/// The number of whitespace characters with which a text begins.
pub open spec fn leading_white_space(s: Seq<char>) -> nat
    decreases s.len(),
{
    if s.len() > 0 && is_white_space(s[0]) {
        1 + leading_white_space(s.skip(1))
    } else {
        0
    }
}

/// What remains of a text once its leading whitespace is removed.
pub open spec fn trimmed_start(s: Seq<char>) -> Seq<char> {
    s.skip(leading_white_space(s) as int)
}

/// An optional owned text as a specification text.
pub open spec fn optional_text(t: Option<String>) -> Option<Seq<char>> {
    match t {
        Some(s) => Some(s@),
        None => None,
    }
}

/// Whether `pat` stands in `s` at position `i`.
pub open spec fn occurs_at(s: Seq<char>, pat: Seq<char>, i: int) -> bool {
    0 <= i && i + pat.len() <= s.len() && s.subrange(i, i + pat.len()) == pat
}

/// Whether `i` is the first position at which `pat` stands in `s`.
pub open spec fn first_occurrence(s: Seq<char>, pat: Seq<char>, i: int) -> bool {
    occurs_at(s, pat, i) && forall|j: int| 0 <= j < i ==> !occurs_at(s, pat, j)
}

/// Calls `str::trim_start`. The result is the input without the
/// whitespace characters with which it begins, White_Space being the
/// property that `char::is_whitespace` tells: every character that is left
/// out is whitespace, and the first that is kept is not.
#[verifier::external_body]
pub(crate) fn trim_start(s: &str) -> (r: &str)
    ensures
        r@ == trimmed_start(s@),
        r@.len() <= s@.len(),
        r@ == s@.skip(s@.len() - r@.len()),
        forall|i: int| 0 <= i < s@.len() - r@.len() ==> is_white_space(#[trigger] s@[i]),
        r@.len() > 0 ==> !is_white_space(r@[0]),
{
    s.trim_start()
}

/// Whether two texts hold the same characters.
pub fn same_text(a: &str, b: &str) -> (r: bool)
    ensures
        r == (a@ == b@),
{
    let x = a.as_bytes();
    let y = b.as_bytes();
    proof {
        vstd::utf8::encode_utf8_decode_utf8(a@);
        vstd::utf8::encode_utf8_decode_utf8(b@);
    }
    if x.len() != y.len() {
        return false;
    }
    let mut i: usize = 0;
    while i < x.len()
        invariant
            i <= x@.len(),
            x@.len() == y@.len(),
            x@ == vstd::utf8::encode_utf8(a@),
            y@ == vstd::utf8::encode_utf8(b@),
            forall|j: int| 0 <= j < i ==> x@[j] == y@[j],
        decreases x@.len() - i,
    {
        if x[i] != y[i] {
            return false;
        }
        i = i + 1;
    }
    assert(x@ =~= y@);
    true
}

/// Calls `str::split_once`. Where the separator occurs, the result is the
/// text before its first occurrence and the text after it; where it does
/// not occur, there is no result.
#[verifier::external_body]
pub(crate) fn split_once<'a>(s: &'a str, sep: &str) -> (r: Option<(&'a str, &'a str)>)
    ensures
        match r {
            Some((before, after)) => {
                &&& first_occurrence(s@, sep@, before@.len() as int)
                &&& before@ == s@.subrange(0, before@.len() as int)
                &&& after@ == s@.subrange((before@.len() + sep@.len()) as int, s@.len() as int)
            },
            None => forall|i: int| !occurs_at(s@, sep@, i),
        },
{
    s.split_once(sep)
}

/// The texts of a sequence as specification texts.
pub open spec fn texts_of(texts: Seq<String>) -> Seq<Seq<char>> {
    texts.map_values(|t: String| t@)
}

/// The text before the first occurrence of `sep` in `s` and the text after
/// it, or nothing where `sep` does not occur.
pub open spec fn split_first_of(s: Seq<char>, sep: Seq<char>) -> Option<(Seq<char>, Seq<char>)> {
    if exists|i: int| occurs_at(s, sep, i) {
        let at = choose|i: int| first_occurrence(s, sep, i);
        Some((s.subrange(0, at), s.subrange(at + sep.len(), s.len() as int)))
    } else {
        None
    }
}

/// There is one first occurrence at most.
pub proof fn lemma_first_occurrence_unique(s: Seq<char>, sep: Seq<char>, a: int, b: int)
    requires
        first_occurrence(s, sep, a),
        first_occurrence(s, sep, b),
    ensures
        a == b,
{
    if a < b {
        assert(occurs_at(s, sep, a));
    } else if b < a {
        assert(occurs_at(s, sep, b));
    }
}

/// Splits a text at the first occurrence of a separator.
pub fn split_first(s: &str, sep: &str) -> (r: Option<(String, String)>)
    ensures
        match r {
            Some((before, after)) => split_first_of(s@, sep@) == Some((before@, after@)),
            None => split_first_of(s@, sep@).is_none(),
        },
{
    match split_once(s, sep) {
        Some((before, after)) => {
            proof {
                let found = before@.len() as int;
                assert(occurs_at(s@, sep@, found));
                let at = choose|i: int| first_occurrence(s@, sep@, i);
                lemma_first_occurrence_unique(s@, sep@, found, at);
            }
            Some((before.to_owned(), after.to_owned()))
        },
        None => None,
    }
}

} // verus!
