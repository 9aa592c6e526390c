//! Short constructors for expectations and matchers.
use vstd::prelude::*;

use crate::matchers::{
    AllOf, AnyOf, BeFalse, BeTrue, Contains, Empty, Equal, GreaterThan, LessThan, Matcher,
    MatchesRegex, Not, Nothing, Something,
};
use crate::Expectation;

verus! {

/// Captures a value to be checked.
pub fn expect<T>(lhs: T) -> (r: Expectation<T>)
    ensures
        r@ == lhs,
{
    Expectation::new(lhs)
}

/// A matcher for values equal to `rhs`.
pub fn equal<T>(rhs: T) -> (r: Box<Equal<T>>)
    ensures
        r.0 == rhs,
{
    Box::new(Equal(rhs))
}

/// A matcher for values strictly above `rhs`.
pub fn greater_than<T>(rhs: T) -> (r: Box<GreaterThan<T>>)
    ensures
        r.0 == rhs,
{
    Box::new(GreaterThan(rhs))
}

/// A matcher for values strictly below `rhs`.
pub fn less_than<T>(rhs: T) -> (r: Box<LessThan<T>>)
    ensures
        r.0 == rhs,
{
    Box::new(LessThan(rhs))
}

/// A matcher for values of length 0.
pub fn empty() -> (r: Box<Empty>) {
    Box::new(Empty)
}

/// A matcher for containers that hold `rhs`.
pub fn contain<T>(rhs: T) -> (r: Box<Contains<T>>)
    ensures
        r.0 == rhs,
{
    Box::new(Contains(rhs))
}

/// A matcher for absent optional values.
pub fn none() -> (r: Box<Nothing>) {
    Box::new(Nothing)
}

/// A matcher for present optional values.
pub fn some() -> (r: Box<Something>) {
    Box::new(Something)
}

/// A matcher for `true`.
pub fn be_true() -> (r: Box<BeTrue>) {
    Box::new(BeTrue)
}

/// A matcher for `false`.
pub fn be_false() -> (r: Box<BeFalse>) {
    Box::new(BeFalse)
}

/// A matcher for texts in which `pattern` finds a match.
pub fn match_regex<'a>(pattern: &'a str) -> (r: Box<MatchesRegex<'a>>)
    ensures
        r.0 == pattern,
{
    Box::new(MatchesRegex(pattern))
}

/// A matcher for the values that `m` does not match.
pub fn not<M: ?Sized>(m: Box<M>) -> (r: Box<Not<M>>)
    ensures
        r.0 == m,
{
    Box::new(Not(m))
}

/// A matcher for values that every one of `ms` matches.
pub fn all_of<A>(ms: Vec<Box<dyn Matcher<A>>>) -> (r: Box<AllOf<A>>)
    ensures
        r.0@ == ms@,
{
    Box::new(AllOf(ms))
}

/// A matcher for values that at least one of `ms` matches.
pub fn any_of<A>(ms: Vec<Box<dyn Matcher<A>>>) -> (r: Box<AnyOf<A>>)
    ensures
        r.0@ == ms@,
{
    Box::new(AnyOf(ms))
}

} // verus!
