//! Regular-expression searches, made by the `regex` crate.
use vstd::prelude::*;
use crate::platform::ios::IPHONE_PATTERN;
use crate::text::contains;

verus! {

/// Whether `regex::Regex::new` accepts a pattern.
pub uninterp spec fn regex_compiles(pattern: Seq<char>) -> bool;

/// The text of the first (leftmost) match of a pattern in a haystack, as
/// `regex::Regex::find_iter` yields it, or `None` when nothing matches.
pub uninterp spec fn regex_first_match(pattern: Seq<char>, haystack: Seq<char>) -> Option<
    Seq<char>,
>;

/// An ASCII letter, digit or space: a character that matches itself alone.
pub open spec fn plain_char(c: char) -> bool {
    ('a' <= c && c <= 'z') || ('A' <= c && c <= 'Z') || ('0' <= c && c <= '9') || c == ' '
}

/// A short pattern made only of ASCII letters, digits and spaces: none of
/// these is a meta character, so the pattern matches exactly its own text.
pub open spec fn plain_literal(pattern: Seq<char>) -> bool {
    &&& 0 < pattern.len() <= 256
    &&& forall|k: int| 0 <= k < pattern.len() ==> plain_char(#[trigger] pattern[k])
}

/// The view of an optional match.
pub open spec fn match_view(m: &Option<String>) -> Option<Seq<char>> {
    match m {
        Some(s) => Some(s@),
        None => None,
    }
}

/// Compiles `pattern` with `regex::Regex::new` and asks `Regex::is_match`
/// whether it matches anywhere in `haystack`. `None` when the pattern does
/// not compile. The crate documents that `is_match` is true exactly when a
/// match exists, and that letters, digits and spaces match themselves, so a
/// plain literal compiles and matches exactly where its text occurs.
#[verifier::external_body]
pub(crate) fn regex_is_match(pattern: &str, haystack: &str) -> (res: Option<bool>)
    ensures
        res is Some <==> regex_compiles(pattern@),
        res matches Some(b) ==> b == (regex_first_match(pattern@, haystack@) is Some),
        plain_literal(pattern@) ==> res == Some(contains(haystack@, pattern@)),
{
    match regex::Regex::new(pattern) {
        Ok(re) => Some(re.is_match(haystack)),
        Err(_) => None,
    }
}

/// Compiles `pattern` with `regex::Regex::new` and takes the first match
/// that `Regex::find_iter` yields in `haystack`. `None` when the pattern does
/// not compile. What the match is, is named by `regex_first_match`. The
/// iPhone pattern compiles: its groups, alternation, `\d` class and `{1,2}`
/// repetitions are all regex syntax the crate documents, and it is far
/// below the crate's default size limit.
#[verifier::external_body]
pub(crate) fn regex_first_match_in(pattern: &str, haystack: &str) -> (res: Option<Option<String>>)
    ensures
        res is Some <==> regex_compiles(pattern@),
        res matches Some(m) ==> match_view(&m) == regex_first_match(pattern@, haystack@),
        pattern@ == IPHONE_PATTERN@ ==> res is Some,
{
    match regex::Regex::new(pattern) {
        Ok(re) => match re.find_iter(haystack).next() {
            Some(m) => Some(Some(m.as_str().to_string())),
            None => Some(None),
        },
        Err(_) => None,
    }
}

} // verus!
