//! The multi-pattern matcher, as far as this crate relies on it.
//!
//! Matching is done by the `aho-corasick` crate. Nothing in this file is
//! proved: it states what the rest of the crate takes for granted about
//! that crate, and every proof about scoring rests on these statements.

use vstd::prelude::*;
use aho_corasick::{AhoCorasick, BuildError};

verus! {

/// A matcher for a fixed list of patterns that pays no heed to the case of
/// ASCII letters.
///
/// It holds an `aho_corasick::AhoCorasick`. The only way to one is
/// [`build_matcher`], so every matcher was built with ASCII
/// case-insensitivity on and all other options at their defaults. Proofs see
/// nothing of the automaton: all that is known of a matcher is what the
/// functions of this module state.
#[verifier::external_body]
pub struct Matcher {
    automaton: AhoCorasick,
}

#[verifier::external_type_specification]
#[verifier::external_body]
pub struct ExBuildError(aho_corasick::BuildError);

/// The lower-case form of an ASCII capital; every other character is itself.
pub open spec fn ascii_lower(c: char) -> char {
    if 'A' <= c && c <= 'Z' {
        ((c as u32) + 32) as char
    } else {
        c
    }
}

/// `s` with every ASCII capital in lower case.
pub open spec fn fold_case(s: Seq<char>) -> Seq<char> {
    s.map_values(|c: char| ascii_lower(c))
}

/// Every pattern of `patterns` with its ASCII capitals in lower case.
pub open spec fn fold_all(patterns: Seq<Seq<char>>) -> Seq<Seq<char>> {
    patterns.map_values(|p: Seq<char>| fold_case(p))
}

/// The characters of each string of `strings`.
pub open spec fn texts(strings: Seq<String>) -> Seq<Seq<char>> {
    strings.map_values(|s: String| s@)
}

/// The patterns a matcher searches for, in the order in which they were
/// handed to its builder.
pub uninterp spec fn matcher_patterns(matcher: Matcher) -> Seq<Seq<char>>;

/// Whether a matcher for `patterns` can be built: whether the patterns stay
/// within the size limits of the automaton.
pub uninterp spec fn matcher_builds(patterns: Seq<Seq<char>>) -> bool;

/// What the search of a [`Matcher`] for `patterns` reports on `haystack`:
/// for each match of `AhoCorasick::find_iter`, from left to right, the
/// position in `patterns` of the pattern that matched. The matcher is one
/// with ASCII case-insensitivity on and every other option at its default;
/// both arguments are in lower case as far as ASCII goes.
pub uninterp spec fn match_ids(patterns: Seq<Seq<char>>, haystack: Seq<char>) -> Seq<int>;

/// The position of the matching keyword for each successive match of
/// `patterns` in `text`, whatever the case of the ASCII letters on
/// either side.
pub open spec fn keyword_hits(patterns: Seq<Seq<char>>, text: Seq<char>) -> Seq<int> {
    match_ids(fold_all(patterns), fold_case(text))
}

/// The numbers of `ids` as mathematical integers.
pub open spec fn ids_of(ids: Seq<usize>) -> Seq<int> {
    ids.map_values(|i: usize| i as int)
}

/// Calls `AhoCorasickBuilder::build` with ASCII case-insensitivity switched
/// on and every other option at its default (standard match semantics,
/// unanchored search).
///
/// Taken for granted: a matcher that was built searches for exactly the
/// patterns given, in the order given; and whether building succeeds
/// depends on the patterns alone. It fails when a size limit of the
/// automaton is exceeded, and nothing is claimed about where those limits
/// lie.
#[verifier::external_body]
pub(crate) fn build_matcher(patterns: &[String]) -> (res: Result<Matcher, BuildError>)
    ensures
        res is Ok <==> matcher_builds(texts(patterns@)),
        res matches Ok(matcher) ==> matcher_patterns(matcher) == texts(patterns@),
{
    match AhoCorasick::builder().ascii_case_insensitive(true).build(patterns) {
        Ok(automaton) => Ok(Matcher { automaton }),
        Err(e) => Err(e),
    }
}

/// Runs `AhoCorasick::find_iter` over `text` and maps each `Match` to
/// `pattern().as_usize()`.
///
/// Taken for granted, of a matcher as [`build_matcher`] makes it: the
/// search is unanchored, which such a matcher supports, so the call
/// returns; the outcome is determined by the matcher's patterns and the
/// text; and it does not change when ASCII letters of either change case.
/// That is why the named result is applied to both in lower case.
#[verifier::external_body]
pub(crate) fn find_pattern_ids(matcher: &Matcher, text: &str) -> (ids: Vec<usize>)
    ensures
        ids_of(ids@) == match_ids(fold_all(matcher_patterns(*matcher)), fold_case(text@)),
{
    matcher.automaton.find_iter(text).map(|m| m.pattern().as_usize()).collect()
}

/// Renders a `BuildError` through its `Display` impl.
#[verifier::external_body]
pub(crate) fn build_error_text(e: &BuildError) -> (res: String)
{
    e.to_string()
}

} // verus!
