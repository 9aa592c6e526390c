//! Negation of any matcher.
use vstd::prelude::*;

use super::Matcher;

verus! {

/// Matches exactly the values that the inner matcher does not match.
///
/// Its failure message is the inner failure message behind `not `. A failed
/// negative check of `Not` means that the inner matcher failed, so it reads
/// as the inner failure message.
pub struct Not<M: ?Sized>(pub Box<M>);

impl<L, M: Matcher<L> + ?Sized> Matcher<L> for Not<M> {
    open spec fn obeys_matcher_spec(&self) -> bool {
        self.0.obeys_matcher_spec()
    }

    open spec fn spec_matches(&self, lhs: L) -> bool {
        !self.0.spec_matches(lhs)
    }

    open spec fn spec_fail_msg(&self, lhs: L) -> Seq<char> {
        "not "@ + self.0.spec_fail_msg(lhs)
    }

    open spec fn spec_negated_fail_msg(&self, lhs: L) -> Seq<char> {
        self.0.spec_fail_msg(lhs)
    }

    fn matches(&self, lhs: &L) -> (r: bool) {
        !self.0.matches(lhs)
    }

    fn fail_msg(&self, lhs: &L) -> (r: String) {
        let inner = self.0.fail_msg(lhs);
        let mut s = String::from_str("not ");
        s.append(inner.as_str());
        s
    }

    fn negated_fail_msg(&self, lhs: &L) -> (r: String) {
        self.0.fail_msg(lhs)
    }
}

} // verus!
