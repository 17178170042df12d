//! Compiled regular expressions and what a search with one of them yields.

use vstd::prelude::*;
use regex::Regex;
use regex::RegexSet;

verus! {

/// A compiled regular expression, as `regex` holds it.
#[verifier::external_type_specification]
#[verifier::external_body]
pub struct ExRegex(Regex);

/// A compiled set of regular expressions, as `regex` holds it.
#[verifier::external_type_specification]
#[verifier::external_body]
pub struct ExRegexSet(RegexSet);

/// The reason why a pattern is no regular expression.
#[verifier::external_type_specification]
#[verifier::external_body]
pub struct ExRegexError(regex::Error);

/// The pattern that a compiled expression was built from. Every compiled
/// expression of this library is built by `Regex::new`, with its defaults.
pub uninterp spec fn regex_source(re: &Regex) -> Seq<char>;

/// The patterns that a compiled set was built from, in their order. Every
/// compiled set of this library is built by `RegexSet::new`, with its
/// defaults.
pub uninterp spec fn regex_set_sources(set: &RegexSet) -> Seq<Seq<char>>;

/// Why `regex`, with its defaults, refuses a pattern, or nothing where it
/// compiles the pattern.
pub uninterp spec fn pattern_error(pattern: Seq<char>) -> Option<regex::Error>;

/// Why `regex`, with its defaults, refuses a list of patterns as a set, or
/// nothing where it compiles the set.
pub uninterp spec fn pattern_set_error(patterns: Seq<Seq<char>>) -> Option<regex::Error>;

/// Whether `pattern`, compiled with the defaults of `regex`, matches
/// somewhere in `text`.
pub uninterp spec fn pattern_matches(pattern: Seq<char>, text: Seq<char>) -> bool;

/// What follows the leftmost match of `pattern` in `text`, or nothing where
/// the pattern does not match.
pub uninterp spec fn pattern_remainder(pattern: Seq<char>, text: Seq<char>) -> Option<Seq<char>>;

/// The texts that the named groups of `pattern` capture at its leftmost
/// match in `text`, one entry for each of `names`; nothing where the pattern
/// does not match.
pub uninterp spec fn pattern_captures(pattern: Seq<char>, text: Seq<char>, names: Seq<Seq<char>>) -> Option<Seq<Option<Seq<char>>>>;

/// The patterns of a table as specification texts.
pub open spec fn sources_of(patterns: Seq<&'static str>) -> Seq<Seq<char>> {
    patterns.map_values(|p: &'static str| p@)
}

/// Captured groups as specification texts.
pub open spec fn groups_of(groups: Seq<Option<String>>) -> Seq<Option<Seq<char>>> {
    groups.map_values(|g: Option<String>| match g {
        Some(s) => Some(s@),
        None => None,
    })
}

/// The first of two failures: the second counts only where the first is
/// none.
pub open spec fn first_error(first: Option<regex::Error>, second: Option<regex::Error>) -> Option<
    regex::Error,
> {
    match first {
        Some(e) => Some(e),
        None => second,
    }
}

/// Whether some pattern of `sources` matches somewhere in `text`.
pub open spec fn any_matches(sources: Seq<Seq<char>>, text: Seq<char>) -> bool {
    exists|i: int| 0 <= i < sources.len() && pattern_matches(#[trigger] sources[i], text)
}

/// Calls `Regex::new`. Whether the pattern compiles, and the failure
/// where it does not, depend on the pattern alone; a compiled expression
/// remembers its pattern.
#[verifier::external_body]
pub(crate) fn compile(pattern: &str) -> (r: Result<Regex, regex::Error>)
    ensures
        match r {
            Ok(re) => pattern_error(pattern@).is_none() && regex_source(&re) == pattern@,
            Err(e) => pattern_error(pattern@) == Some(e),
        },
{
    Regex::new(pattern)
}

/// Calls `RegexSet::new`. Whether the set compiles, and the failure where
/// it does not, depend on the patterns alone; a compiled set remembers its
/// patterns in order.
#[verifier::external_body]
pub(crate) fn compile_set(patterns: &Vec<&'static str>) -> (r: Result<RegexSet, regex::Error>)
    ensures
        match r {
            Ok(set) => pattern_set_error(sources_of(patterns@)).is_none() && regex_set_sources(
                &set,
            ) == sources_of(patterns@),
            Err(e) => pattern_set_error(sources_of(patterns@)) == Some(e),
        },
{
    RegexSet::new(patterns.iter())
}

/// Calls `Regex::is_match`.
#[verifier::external_body]
pub(crate) fn is_match(re: &Regex, text: &str) -> (r: bool)
    ensures
        r == pattern_matches(regex_source(re), text@),
{
    re.is_match(text)
}

/// Calls `Regex::find` and hands out the text behind the match.
#[verifier::external_body]
pub(crate) fn remainder<'a>(re: &Regex, text: &'a str) -> (r: Option<&'a str>)
    ensures
        option_text(r) == pattern_remainder(regex_source(re), text@),
{
    re.find(text).map(|m| &text[m.end()..])
}

/// An optional text as a specification text.
pub open spec fn option_text(t: Option<&str>) -> Option<Seq<char>> {
    match t {
        Some(s) => Some(s@),
        None => None,
    }
}

/// Calls `Regex::captures` and hands out, for each of `names`, the text
/// that the group of that name captured, if it took part in the match.
#[verifier::external_body]
pub(crate) fn captures(re: &Regex, text: &str, names: &Vec<&'static str>) -> (r: Option<Vec<Option<String>>>)
    ensures
        match r {
            Some(groups) => pattern_captures(regex_source(re), text@, sources_of(names@)) == Some(groups_of(groups@))
                && groups@.len() == names@.len(),
            None => pattern_captures(regex_source(re), text@, sources_of(names@)).is_none(),
        },
{
    re.captures(text).map(|c| names.iter().map(|n| c.name(n).map(|m| m.as_str().to_owned())).collect())
}

/// Calls `RegexSet::is_match`: whether one of the set's patterns matches.
#[verifier::external_body]
pub(crate) fn set_is_match(set: &RegexSet, text: &str) -> (r: bool)
    ensures
        r == any_matches(regex_set_sources(set), text@),
{
    set.is_match(text)
}

/// Calls `RegexSet::matches` and hands out, for each pattern of the set in
/// order, whether it matches.
#[verifier::external_body]
pub(crate) fn set_matches(set: &RegexSet, text: &str) -> (r: Vec<bool>)
    ensures
        r@.len() == regex_set_sources(set).len(),
        forall|i: int| 0 <= i < r@.len() ==> r@[i] == pattern_matches(#[trigger] regex_set_sources(set)[i], text@),
{
    let found = set.matches(text);
    (0..found.len()).map(|i| found.matched(i)).collect()
}

} // verus!
