//! Presence and absence of an optional value.
use vstd::prelude::*;

use super::{sentence, write_sentence, Matcher};
use crate::show::Show;

verus! {

/// Matches an absent value (`None`).
pub struct Nothing;

/// Matches a present value (`Some`).
pub struct Something;

/// `Some<T>`, naming the type of the value that was looked for.
pub open spec fn some_of<T: Show>() -> Seq<char> {
    "Some<"@ + T::type_label() + ">"@
}

fn write_some_of<T: Show>() -> (r: String)
    ensures
        T::obeys_show_spec() ==> r@ == some_of::<T>(),
{
    let mut s = String::from_str("Some<");
    let inner = T::label_text();
    s.append(inner.as_str());
    s.append(">");
    s
}

fn absent_msg<T: Show>(lhs: &Option<T>) -> (r: String)
    ensures
        T::obeys_show_spec() ==> r@ == sentence(lhs.shown(), " to be None"@, Seq::empty()),
{
    let value = lhs.show();
    let r = write_sentence(value.as_str(), " to be None", "");
    proof {
        reveal_strlit("");
    }
    r
}

fn present_msg<T: Show>(lhs: &Option<T>) -> (r: String)
    ensures
        T::obeys_show_spec() ==> r@ == sentence(lhs.shown(), " to be "@, some_of::<T>()),
{
    let value = lhs.show();
    let expected = write_some_of::<T>();
    write_sentence(value.as_str(), " to be ", expected.as_str())
}

impl<T: Show> Matcher<Option<T>> for Nothing {
    open spec fn obeys_matcher_spec(&self) -> bool {
        T::obeys_show_spec()
    }

    open spec fn spec_matches(&self, lhs: Option<T>) -> bool {
        lhs is None
    }

    open spec fn spec_fail_msg(&self, lhs: Option<T>) -> Seq<char> {
        sentence(lhs.shown(), " to be None"@, Seq::empty())
    }

    open spec fn spec_negated_fail_msg(&self, lhs: Option<T>) -> Seq<char> {
        sentence(lhs.shown(), " to be "@, some_of::<T>())
    }

    fn matches(&self, lhs: &Option<T>) -> (r: bool) {
        lhs.is_none()
    }

    fn fail_msg(&self, lhs: &Option<T>) -> (r: String) {
        absent_msg(lhs)
    }

    fn negated_fail_msg(&self, lhs: &Option<T>) -> (r: String) {
        present_msg(lhs)
    }
}

impl<T: Show> Matcher<Option<T>> for Something {
    open spec fn obeys_matcher_spec(&self) -> bool {
        T::obeys_show_spec()
    }

    open spec fn spec_matches(&self, lhs: Option<T>) -> bool {
        lhs is Some
    }

    open spec fn spec_fail_msg(&self, lhs: Option<T>) -> Seq<char> {
        sentence(lhs.shown(), " to be "@, some_of::<T>())
    }

    open spec fn spec_negated_fail_msg(&self, lhs: Option<T>) -> Seq<char> {
        sentence(lhs.shown(), " to be None"@, Seq::empty())
    }

    fn matches(&self, lhs: &Option<T>) -> (r: bool) {
        lhs.is_some()
    }

    fn fail_msg(&self, lhs: &Option<T>) -> (r: String) {
        present_msg(lhs)
    }

    fn negated_fail_msg(&self, lhs: &Option<T>) -> (r: String) {
        absent_msg(lhs)
    }
}

} // verus!
