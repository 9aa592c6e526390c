//! The matchers: what a captured value is checked against.
use vstd::prelude::*;

pub mod combined;
pub mod contains;
pub mod equality;
pub mod length;
pub mod not;
pub mod option;
pub mod regex;
pub mod truthiness;

pub use self::combined::{AllOf, AnyOf};
pub use self::contains::{Contains, Membership};
pub use self::equality::{Equal, Equality, GreaterThan, LessThan, Ordered};
pub use self::length::{Collection, Empty};
pub use self::not::Not;
pub use self::option::{Nothing, Something};
pub use self::regex::MatchesRegex;
pub use self::truthiness::{BeFalse, BeTrue};

verus! {

/// One expected property of a value of type `Lhs`: a test, and the two
/// messages that describe a failed check.
///
/// The test and the messages are pure functions of the matcher and the value;
/// either message can be asked for without running the test first. An impl
/// that does not override `obeys_matcher_spec` (as an impl written outside
/// verified code cannot) promises nothing about what its methods return.
pub trait Matcher<Lhs> {
    /// Whether the methods are known to follow the spec functions below.
    open spec fn obeys_matcher_spec(&self) -> bool {
        false
    }

    /// Whether the value has the property.
    open spec fn spec_matches(&self, lhs: Lhs) -> bool {
        false
    }

    /// Why a check that the value has the property failed.
    open spec fn spec_fail_msg(&self, lhs: Lhs) -> Seq<char> {
        Seq::empty()
    }

    /// Why a check that the value lacks the property failed.
    open spec fn spec_negated_fail_msg(&self, lhs: Lhs) -> Seq<char> {
        Seq::empty()
    }

    fn matches(&self, lhs: &Lhs) -> (r: bool)
        ensures
            self.obeys_matcher_spec() ==> r == self.spec_matches(*lhs),
    ;

    fn fail_msg(&self, lhs: &Lhs) -> (r: String)
        ensures
            self.obeys_matcher_spec() ==> r@ == self.spec_fail_msg(*lhs),
    ;

    fn negated_fail_msg(&self, lhs: &Lhs) -> (r: String)
        ensures
            self.obeys_matcher_spec() ==> r@ == self.spec_negated_fail_msg(*lhs),
    ;
}

/// The usual shape of a message: `expected <subject><link><object>`.
pub open spec fn sentence(subject: Seq<char>, link: Seq<char>, object: Seq<char>) -> Seq<char> {
    "expected "@ + subject + link + object
}

/// Writes `expected <subject><link><object>`.
pub fn write_sentence(subject: &str, link: &str, object: &str) -> (r: String)
    ensures
        r@ == sentence(subject@, link@, object@),
{
    let mut s = String::from_str("expected ");
    s.append(subject);
    s.append(link);
    s.append(object);
    s
}

/// The two-line shape of a message: what was expected, then what was got.
pub open spec fn block(expected: Seq<char>, got: Seq<char>) -> Seq<char> {
    "\nexpected: "@ + expected + "\n     got: "@ + got + "\n"@
}

/// Writes what was expected, then what was got, each on a line of its own.
pub fn write_block(expected: &str, got: &str) -> (r: String)
    ensures
        r@ == block(expected@, got@),
{
    let mut s = String::from_str("\nexpected: ");
    s.append(expected);
    s.append("\n     got: ");
    s.append(got);
    s.append("\n");
    s
}

} // verus!
