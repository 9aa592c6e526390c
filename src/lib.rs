//! Expectations on values: capture a value, then check it against a matcher
//! that says what the value should be. A check that fails hands back the
//! matcher's description of the failure; a check that succeeds hands back
//! nothing.
//!
//! ```text
//! expect(vec![1, 2, 3]).to(contain(2))            // Ok(())
//! expect("megatron").to_not(contain("prime"))     // Ok(())
//! expect(1).to(equal(2))                          // Err("\nexpected: 1\n     got: 2\n")
//! ```
use vstd::prelude::*;

pub mod dsl;
pub mod laws;
pub mod matchers;
pub mod show;
pub mod text;

use crate::matchers::Matcher;

verus! {

/// What a check hands back, with the message as its text.
pub open spec fn outcome(r: Result<(), String>) -> Result<(), Seq<char>> {
    match r {
        Ok(_) => Ok(()),
        Err(msg) => Err(msg@),
    }
}

/// The outcome of checking that `lhs` matches `m`: it fails exactly when the
/// test is false, with the matcher's failure message.
pub open spec fn verdict<Lhs, M: Matcher<Lhs> + ?Sized>(m: &M, lhs: Lhs) -> Result<(), Seq<char>> {
    if m.spec_matches(lhs) {
        Ok(())
    } else {
        Err(m.spec_fail_msg(lhs))
    }
}

/// The outcome of checking that `lhs` does not match `m`: it fails exactly
/// when the test is true, with the matcher's negated failure message.
pub open spec fn negated_verdict<Lhs, M: Matcher<Lhs> + ?Sized>(m: &M, lhs: Lhs) -> Result<(), Seq<char>> {
    if m.spec_matches(lhs) {
        Err(m.spec_negated_fail_msg(lhs))
    } else {
        Ok(())
    }
}

/// Holds the captured value (the left-hand side of an expectation), which
/// any `Matcher` of its type can then check.
pub struct Expectation<Lhs>(Lhs);

impl<Lhs> View for Expectation<Lhs> {
    type V = Lhs;

    closed spec fn view(&self) -> Lhs {
        self.0
    }
}

impl<Lhs> Expectation<Lhs> {
    /// Captures a value, by value.
    pub fn new(lhs: Lhs) -> (r: Self)
        ensures
            r@ == lhs,
    {
        Expectation(lhs)
    }

    /// Same as `to`.
    pub fn is<T: Matcher<Lhs> + ?Sized>(&self, matcher: Box<T>) -> (r: Result<(), String>)
        ensures
            matcher.obeys_matcher_spec() ==> outcome(r) == verdict(&*matcher, self@),
    {
        self.to(matcher)
    }

    /// Same as `to_not`.
    pub fn is_not<T: Matcher<Lhs> + ?Sized>(&self, matcher: Box<T>) -> (r: Result<(), String>)
        ensures
            matcher.obeys_matcher_spec() ==> outcome(r) == negated_verdict(&*matcher, self@),
    {
        self.to_not(matcher)
    }

    /// Checks that the captured value matches; otherwise fails with the
    /// matcher's failure message.
    pub fn to<T: Matcher<Lhs> + ?Sized>(&self, matcher: Box<T>) -> (r: Result<(), String>)
        ensures
            matcher.obeys_matcher_spec() ==> outcome(r) == verdict(&*matcher, self@),
    {
        if !matcher.matches(&self.0) {
            return Err(matcher.fail_msg(&self.0));
        }
        Ok(())
    }

    /// Checks that the captured value does not match; otherwise fails with
    /// the matcher's negated failure message.
    pub fn to_not<T: Matcher<Lhs> + ?Sized>(&self, matcher: Box<T>) -> (r: Result<(), String>)
        ensures
            matcher.obeys_matcher_spec() ==> outcome(r) == negated_verdict(&*matcher, self@),
    {
        if matcher.matches(&self.0) {
            return Err(matcher.negated_fail_msg(&self.0));
        }
        Ok(())
    }
}

} // verus!
