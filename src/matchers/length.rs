//! Emptiness, by the length capability.
use vstd::prelude::*;

use super::{sentence, write_sentence, Matcher};
use crate::show::Show;

verus! {

/// Values with a length: the number of items of a sequence, or the number of
/// characters (not bytes) of a text.
///
/// An impl that does not override `obeys_size_spec` (as an impl written
/// outside verified code cannot) promises nothing about what `match_len`
/// returns.
pub trait Collection {
    /// Whether `match_len` is known to return `size`.
    open spec fn obeys_size_spec() -> bool {
        false
    }

    /// The length.
    open spec fn size(&self) -> nat {
        0
    }

    fn match_len(&self) -> (r: usize)
        ensures
            Self::obeys_size_spec() ==> r == self.size(),
    ;
}

impl<T> Collection for Vec<T> {
    open spec fn obeys_size_spec() -> bool {
        true
    }

    open spec fn size(&self) -> nat {
        self@.len()
    }

    fn match_len(&self) -> (r: usize) {
        self.len()
    }
}

impl Collection for String {
    open spec fn obeys_size_spec() -> bool {
        true
    }

    open spec fn size(&self) -> nat {
        self@.len()
    }

    fn match_len(&self) -> (r: usize) {
        self.as_str().unicode_len()
    }
}

impl<'a> Collection for &'a str {
    open spec fn obeys_size_spec() -> bool {
        true
    }

    open spec fn size(&self) -> nat {
        self@.len()
    }

    fn match_len(&self) -> (r: usize) {
        self.unicode_len()
    }
}

/// Matches a value of length 0.
pub struct Empty;

impl<L: Collection + Show> Matcher<L> for Empty {
    open spec fn obeys_matcher_spec(&self) -> bool {
        L::obeys_size_spec() && L::obeys_show_spec()
    }

    open spec fn spec_matches(&self, lhs: L) -> bool {
        lhs.size() == 0
    }

    open spec fn spec_fail_msg(&self, lhs: L) -> Seq<char> {
        sentence(lhs.shown(), " to be empty"@, Seq::empty())
    }

    open spec fn spec_negated_fail_msg(&self, lhs: L) -> Seq<char> {
        sentence(lhs.shown(), " not to be empty"@, Seq::empty())
    }

    fn matches(&self, lhs: &L) -> (r: bool) {
        lhs.match_len() == 0
    }

    fn fail_msg(&self, lhs: &L) -> (r: String) {
        let value = lhs.show();
        let r = write_sentence(value.as_str(), " to be empty", "");
        proof {
            reveal_strlit("");
        }
        r
    }

    fn negated_fail_msg(&self, lhs: &L) -> (r: String) {
        let value = lhs.show();
        let r = write_sentence(value.as_str(), " not to be empty", "");
        proof {
            reveal_strlit("");
        }
        r
    }
}

} // verus!
