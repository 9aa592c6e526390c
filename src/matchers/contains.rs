//! Containment, by the membership capability.
use vstd::prelude::*;

use super::equality::Equality;
use super::{sentence, write_sentence, Matcher};
use crate::show::Show;
use crate::text::{has_infix, text_has_char, text_has_infix};

verus! {

/// Containers that can be scanned for a needle of type `N`: a sequence for an
/// equal item, a text for a character or for a substring.
///
/// An impl that does not override `obeys_membership_spec` (as an impl
/// written outside verified code cannot) promises nothing about what `has`
/// returns.
pub trait Membership<N> {
    /// Whether `has` is known to return `holds`.
    open spec fn obeys_membership_spec() -> bool {
        false
    }

    /// Whether the needle is in the container.
    open spec fn holds(&self, needle: N) -> bool {
        false
    }

    fn has(&self, needle: &N) -> (r: bool)
        ensures
            Self::obeys_membership_spec() ==> r == self.holds(*needle),
    ;
}

impl<T: Equality> Membership<T> for Vec<T> {
    open spec fn obeys_membership_spec() -> bool {
        T::obeys_equality_spec()
    }

    open spec fn holds(&self, needle: T) -> bool {
        exists|i: int| 0 <= i < self@.len() && #[trigger] self@[i].same(&needle)
    }

    fn has(&self, needle: &T) -> (r: bool) {
        let mut k: usize = 0;
        while k < self.len()
            invariant
                k <= self@.len(),
                T::obeys_equality_spec() ==> forall|j: int| 0 <= j < k ==> !(#[trigger] self@[j].same(needle)),
            decreases self@.len() - k,
        {
            if self[k].equals(needle) {
                return true;
            }
            k = k + 1;
        }
        false
    }
}

impl Membership<char> for String {
    open spec fn obeys_membership_spec() -> bool {
        true
    }

    open spec fn holds(&self, needle: char) -> bool {
        self@.contains(needle)
    }

    fn has(&self, needle: &char) -> (r: bool) {
        text_has_char(self.as_str(), *needle)
    }
}

impl<'a> Membership<char> for &'a str {
    open spec fn obeys_membership_spec() -> bool {
        true
    }

    open spec fn holds(&self, needle: char) -> bool {
        self@.contains(needle)
    }

    fn has(&self, needle: &char) -> (r: bool) {
        text_has_char(*self, *needle)
    }
}

impl Membership<String> for String {
    open spec fn obeys_membership_spec() -> bool {
        true
    }

    open spec fn holds(&self, needle: String) -> bool {
        has_infix(self@, needle@)
    }

    fn has(&self, needle: &String) -> (r: bool) {
        text_has_infix(self.as_str(), needle.as_str())
    }
}

impl<'b> Membership<&'b str> for String {
    open spec fn obeys_membership_spec() -> bool {
        true
    }

    open spec fn holds(&self, needle: &'b str) -> bool {
        has_infix(self@, needle@)
    }

    fn has(&self, needle: &&'b str) -> (r: bool) {
        text_has_infix(self.as_str(), *needle)
    }
}

impl<'a> Membership<String> for &'a str {
    open spec fn obeys_membership_spec() -> bool {
        true
    }

    open spec fn holds(&self, needle: String) -> bool {
        has_infix(self@, needle@)
    }

    fn has(&self, needle: &String) -> (r: bool) {
        text_has_infix(*self, needle.as_str())
    }
}

impl<'a, 'b> Membership<&'b str> for &'a str {
    open spec fn obeys_membership_spec() -> bool {
        true
    }

    open spec fn holds(&self, needle: &'b str) -> bool {
        has_infix(self@, needle@)
    }

    fn has(&self, needle: &&'b str) -> (r: bool) {
        text_has_infix(*self, *needle)
    }
}

/// Matches a container that holds the operand.
pub struct Contains<T>(pub T);

impl<C: Membership<N> + Show, N: Show> Matcher<C> for Contains<N> {
    open spec fn obeys_matcher_spec(&self) -> bool {
        C::obeys_membership_spec() && C::obeys_show_spec() && N::obeys_show_spec()
    }

    open spec fn spec_matches(&self, lhs: C) -> bool {
        lhs.holds(self.0)
    }

    open spec fn spec_fail_msg(&self, lhs: C) -> Seq<char> {
        sentence(lhs.shown(), " to contain "@, self.0.shown())
    }

    open spec fn spec_negated_fail_msg(&self, lhs: C) -> Seq<char> {
        sentence(lhs.shown(), " not to contain "@, self.0.shown())
    }

    fn matches(&self, lhs: &C) -> (r: bool) {
        lhs.has(&self.0)
    }

    fn fail_msg(&self, lhs: &C) -> (r: String) {
        let container = lhs.show();
        let needle = self.0.show();
        write_sentence(container.as_str(), " to contain ", needle.as_str())
    }

    fn negated_fail_msg(&self, lhs: &C) -> (r: String) {
        let container = lhs.show();
        let needle = self.0.show();
        write_sentence(container.as_str(), " not to contain ", needle.as_str())
    }
}

} // verus!
