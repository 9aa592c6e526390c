//! Pattern matching with regular expressions.
use vstd::prelude::*;

use super::{sentence, write_sentence, Matcher};
use crate::show::{quote, quoted};

verus! {

/// Whether `regex::Regex::new` accepts the pattern (it parses, and the
/// compiled form stays under the default size limit).
pub uninterp spec fn regex_compiles(pattern: Seq<char>) -> bool;

/// Whether the regex compiled from `pattern` matches somewhere in `haystack`.
pub uninterp spec fn regex_finds(pattern: Seq<char>, haystack: Seq<char>) -> bool;

/// Relies on `regex::Regex::new`, which fails exactly on the patterns that it
/// does not accept, and on `regex::Regex::is_match`, which tells whether the
/// compiled regex matches anywhere in the haystack. `None` when the pattern
/// does not compile.
#[verifier::external_body]
fn regex_search(pattern: &str, haystack: &str) -> (r: Option<bool>)
    ensures
        r is Some <==> regex_compiles(pattern@),
        r matches Some(found) ==> found == regex_finds(pattern@, haystack@),
{
    match ::regex::Regex::new(pattern) {
        Ok(re) => Some(re.is_match(haystack)),
        Err(_) => None,
    }
}

/// Whether `pattern` compiles and then matches somewhere in `haystack`. A
/// pattern that does not compile matches nothing.
pub open spec fn pattern_matches(pattern: Seq<char>, haystack: Seq<char>) -> bool {
    regex_compiles(pattern) && regex_finds(pattern, haystack)
}

/// Tells whether `pattern` compiles and matches somewhere in `haystack`; an
/// invalid pattern counts as no match, not as an error.
pub fn matches_pattern(pattern: &str, haystack: &str) -> (r: bool)
    ensures
        r == pattern_matches(pattern@, haystack@),
{
    match regex_search(pattern, haystack) {
        Some(found) => found,
        None => false,
    }
}

fn mismatch_msg(text: &str, pattern: &str, link: &str) -> (r: String)
    ensures
        r@ == sentence(quoted(text@), link@, quoted(pattern@)),
{
    let value = quote(text);
    let shown_pattern = quote(pattern);
    write_sentence(value.as_str(), link, shown_pattern.as_str())
}

/// Matches a text in which the pattern finds a match.
pub struct MatchesRegex<'a>(pub &'a str);

impl<'a, 'b> Matcher<&'b str> for MatchesRegex<'a> {
    open spec fn obeys_matcher_spec(&self) -> bool {
        true
    }

    open spec fn spec_matches(&self, lhs: &'b str) -> bool {
        pattern_matches(self.0@, lhs@)
    }

    open spec fn spec_fail_msg(&self, lhs: &'b str) -> Seq<char> {
        sentence(quoted(lhs@), " to match "@, quoted(self.0@))
    }

    open spec fn spec_negated_fail_msg(&self, lhs: &'b str) -> Seq<char> {
        sentence(quoted(lhs@), " not to match "@, quoted(self.0@))
    }

    fn matches(&self, lhs: &&'b str) -> (r: bool) {
        matches_pattern(self.0, *lhs)
    }

    fn fail_msg(&self, lhs: &&'b str) -> (r: String) {
        mismatch_msg(*lhs, self.0, " to match ")
    }

    fn negated_fail_msg(&self, lhs: &&'b str) -> (r: String) {
        mismatch_msg(*lhs, self.0, " not to match ")
    }
}

impl<'a> Matcher<String> for MatchesRegex<'a> {
    open spec fn obeys_matcher_spec(&self) -> bool {
        true
    }

    open spec fn spec_matches(&self, lhs: String) -> bool {
        pattern_matches(self.0@, lhs@)
    }

    open spec fn spec_fail_msg(&self, lhs: String) -> Seq<char> {
        sentence(quoted(lhs@), " to match "@, quoted(self.0@))
    }

    open spec fn spec_negated_fail_msg(&self, lhs: String) -> Seq<char> {
        sentence(quoted(lhs@), " not to match "@, quoted(self.0@))
    }

    fn matches(&self, lhs: &String) -> (r: bool) {
        matches_pattern(self.0, lhs.as_str())
    }

    fn fail_msg(&self, lhs: &String) -> (r: String) {
        mismatch_msg(lhs.as_str(), self.0, " to match ")
    }

    fn negated_fail_msg(&self, lhs: &String) -> (r: String) {
        mismatch_msg(lhs.as_str(), self.0, " not to match ")
    }
}

} // verus!
