//! Equality and strict ordering against an operand.
use vstd::prelude::*;

use super::{block, sentence, write_block, write_sentence, Matcher};
use crate::show::Show;
use crate::text::same_text;

verus! {

/// Values that can be compared for exact, structural equality.
///
/// An impl that does not override `obeys_equality_spec` (as an impl written
/// outside verified code cannot) promises nothing about what `equals`
/// returns.
pub trait Equality: Sized {
    /// Whether `equals` is known to return `same`.
    open spec fn obeys_equality_spec() -> bool {
        false
    }

    /// Whether the two values are equal.
    open spec fn same(&self, other: &Self) -> bool {
        false
    }

    fn equals(&self, other: &Self) -> (r: bool)
        ensures
            Self::obeys_equality_spec() ==> r == self.same(other),
    ;
}

/// `equals` follows `same`, and `same` is reflexive and symmetric.
pub open spec fn lawful_equality<T: Equality>() -> bool {
    &&& T::obeys_equality_spec()
    &&& forall|x: T| #[trigger] x.same(&x)
    &&& forall|x: T, y: T| #[trigger] x.same(&y) ==> y.same(&x)
}

/// Values with a strict order.
///
/// An impl that does not override `obeys_order_spec` (as an impl written
/// outside verified code cannot) promises nothing about what `is_below`
/// returns.
pub trait Ordered: Sized {
    /// Whether `is_below` is known to return `below`.
    open spec fn obeys_order_spec() -> bool {
        false
    }

    /// Whether `self` comes strictly before `other`.
    open spec fn below(&self, other: &Self) -> bool {
        false
    }

    fn is_below(&self, other: &Self) -> (r: bool)
        ensures
            Self::obeys_order_spec() ==> r == self.below(other),
    ;
}

/// `is_below` follows `below`, and no value is below itself.
pub open spec fn lawful_order<T: Ordered>() -> bool {
    &&& T::obeys_order_spec()
    &&& forall|x: T| !(#[trigger] x.below(&x))
}

impl Equality for i8 {
    open spec fn obeys_equality_spec() -> bool {
        true
    }

    open spec fn same(&self, other: &Self) -> bool {
        *self == *other
    }

    fn equals(&self, other: &Self) -> (r: bool) {
        *self == *other
    }
}

impl Equality for i16 {
    open spec fn obeys_equality_spec() -> bool {
        true
    }

    open spec fn same(&self, other: &Self) -> bool {
        *self == *other
    }

    fn equals(&self, other: &Self) -> (r: bool) {
        *self == *other
    }
}

impl Equality for i32 {
    open spec fn obeys_equality_spec() -> bool {
        true
    }

    open spec fn same(&self, other: &Self) -> bool {
        *self == *other
    }

    fn equals(&self, other: &Self) -> (r: bool) {
        *self == *other
    }
}

impl Equality for i64 {
    open spec fn obeys_equality_spec() -> bool {
        true
    }

    open spec fn same(&self, other: &Self) -> bool {
        *self == *other
    }

    fn equals(&self, other: &Self) -> (r: bool) {
        *self == *other
    }
}

impl Equality for isize {
    open spec fn obeys_equality_spec() -> bool {
        true
    }

    open spec fn same(&self, other: &Self) -> bool {
        *self == *other
    }

    fn equals(&self, other: &Self) -> (r: bool) {
        *self == *other
    }
}

impl Equality for u8 {
    open spec fn obeys_equality_spec() -> bool {
        true
    }

    open spec fn same(&self, other: &Self) -> bool {
        *self == *other
    }

    fn equals(&self, other: &Self) -> (r: bool) {
        *self == *other
    }
}

impl Equality for u16 {
    open spec fn obeys_equality_spec() -> bool {
        true
    }

    open spec fn same(&self, other: &Self) -> bool {
        *self == *other
    }

    fn equals(&self, other: &Self) -> (r: bool) {
        *self == *other
    }
}

impl Equality for u32 {
    open spec fn obeys_equality_spec() -> bool {
        true
    }

    open spec fn same(&self, other: &Self) -> bool {
        *self == *other
    }

    fn equals(&self, other: &Self) -> (r: bool) {
        *self == *other
    }
}

impl Equality for u64 {
    open spec fn obeys_equality_spec() -> bool {
        true
    }

    open spec fn same(&self, other: &Self) -> bool {
        *self == *other
    }

    fn equals(&self, other: &Self) -> (r: bool) {
        *self == *other
    }
}

impl Equality for usize {
    open spec fn obeys_equality_spec() -> bool {
        true
    }

    open spec fn same(&self, other: &Self) -> bool {
        *self == *other
    }

    fn equals(&self, other: &Self) -> (r: bool) {
        *self == *other
    }
}

impl Equality for char {
    open spec fn obeys_equality_spec() -> bool {
        true
    }

    open spec fn same(&self, other: &Self) -> bool {
        *self == *other
    }

    fn equals(&self, other: &Self) -> (r: bool) {
        *self == *other
    }
}

impl Equality for bool {
    open spec fn obeys_equality_spec() -> bool {
        true
    }

    open spec fn same(&self, other: &Self) -> bool {
        *self == *other
    }

    fn equals(&self, other: &Self) -> (r: bool) {
        *self == *other
    }
}

impl Ordered for i8 {
    open spec fn obeys_order_spec() -> bool {
        true
    }

    open spec fn below(&self, other: &Self) -> bool {
        *self < *other
    }

    fn is_below(&self, other: &Self) -> (r: bool) {
        *self < *other
    }
}

impl Ordered for i16 {
    open spec fn obeys_order_spec() -> bool {
        true
    }

    open spec fn below(&self, other: &Self) -> bool {
        *self < *other
    }

    fn is_below(&self, other: &Self) -> (r: bool) {
        *self < *other
    }
}

impl Ordered for i32 {
    open spec fn obeys_order_spec() -> bool {
        true
    }

    open spec fn below(&self, other: &Self) -> bool {
        *self < *other
    }

    fn is_below(&self, other: &Self) -> (r: bool) {
        *self < *other
    }
}

impl Ordered for i64 {
    open spec fn obeys_order_spec() -> bool {
        true
    }

    open spec fn below(&self, other: &Self) -> bool {
        *self < *other
    }

    fn is_below(&self, other: &Self) -> (r: bool) {
        *self < *other
    }
}

impl Ordered for isize {
    open spec fn obeys_order_spec() -> bool {
        true
    }

    open spec fn below(&self, other: &Self) -> bool {
        *self < *other
    }

    fn is_below(&self, other: &Self) -> (r: bool) {
        *self < *other
    }
}

impl Ordered for u8 {
    open spec fn obeys_order_spec() -> bool {
        true
    }

    open spec fn below(&self, other: &Self) -> bool {
        *self < *other
    }

    fn is_below(&self, other: &Self) -> (r: bool) {
        *self < *other
    }
}

impl Ordered for u16 {
    open spec fn obeys_order_spec() -> bool {
        true
    }

    open spec fn below(&self, other: &Self) -> bool {
        *self < *other
    }

    fn is_below(&self, other: &Self) -> (r: bool) {
        *self < *other
    }
}

impl Ordered for u32 {
    open spec fn obeys_order_spec() -> bool {
        true
    }

    open spec fn below(&self, other: &Self) -> bool {
        *self < *other
    }

    fn is_below(&self, other: &Self) -> (r: bool) {
        *self < *other
    }
}

impl Ordered for u64 {
    open spec fn obeys_order_spec() -> bool {
        true
    }

    open spec fn below(&self, other: &Self) -> bool {
        *self < *other
    }

    fn is_below(&self, other: &Self) -> (r: bool) {
        *self < *other
    }
}

impl Ordered for usize {
    open spec fn obeys_order_spec() -> bool {
        true
    }

    open spec fn below(&self, other: &Self) -> bool {
        *self < *other
    }

    fn is_below(&self, other: &Self) -> (r: bool) {
        *self < *other
    }
}

impl Ordered for char {
    open spec fn obeys_order_spec() -> bool {
        true
    }

    open spec fn below(&self, other: &Self) -> bool {
        *self < *other
    }

    fn is_below(&self, other: &Self) -> (r: bool) {
        *self < *other
    }
}

impl Equality for String {
    open spec fn obeys_equality_spec() -> bool {
        true
    }

    open spec fn same(&self, other: &Self) -> bool {
        self@ == other@
    }

    fn equals(&self, other: &Self) -> (r: bool) {
        same_text(self.as_str(), other.as_str())
    }
}

impl<'a> Equality for &'a str {
    open spec fn obeys_equality_spec() -> bool {
        true
    }

    open spec fn same(&self, other: &Self) -> bool {
        self@ == other@
    }

    fn equals(&self, other: &Self) -> (r: bool) {
        same_text(*self, *other)
    }
}

impl<T: Equality> Equality for Vec<T> {
    open spec fn obeys_equality_spec() -> bool {
        T::obeys_equality_spec()
    }

    /// Same length, and equal items at every position.
    open spec fn same(&self, other: &Self) -> bool {
        &&& self@.len() == other@.len()
        &&& forall|i: int| 0 <= i < self@.len() ==> #[trigger] self@[i].same(&other@[i])
    }

    fn equals(&self, other: &Self) -> (r: bool) {
        if self.len() != other.len() {
            return false;
        }
        let mut k: usize = 0;
        while k < self.len()
            invariant
                k <= self@.len(),
                self@.len() == other@.len(),
                T::obeys_equality_spec() ==> forall|i: int| 0 <= i < k ==> #[trigger] self@[i].same(&other@[i]),
            decreases self@.len() - k,
        {
            if !self[k].equals(&other[k]) {
                return false;
            }
            k = k + 1;
        }
        true
    }
}

impl<T: Equality> Equality for Option<T> {
    open spec fn obeys_equality_spec() -> bool {
        T::obeys_equality_spec()
    }

    /// Both absent, or both present with equal values.
    open spec fn same(&self, other: &Self) -> bool {
        match (self, other) {
            (Some(x), Some(y)) => x.same(y),
            (None, None) => true,
            _ => false,
        }
    }

    fn equals(&self, other: &Self) -> (r: bool) {
        match (self, other) {
            (Some(x), Some(y)) => x.equals(y),
            (None, None) => true,
            _ => false,
        }
    }
}

/// Matches a value equal to the operand.
pub struct Equal<T>(pub T);

impl<T: Equality + Show> Matcher<T> for Equal<T> {
    open spec fn obeys_matcher_spec(&self) -> bool {
        T::obeys_equality_spec() && T::obeys_show_spec()
    }

    open spec fn spec_matches(&self, lhs: T) -> bool {
        self.0.same(&lhs)
    }

    /// The captured value first, then the operand.
    open spec fn spec_fail_msg(&self, lhs: T) -> Seq<char> {
        block(lhs.shown(), self.0.shown())
    }

    open spec fn spec_negated_fail_msg(&self, lhs: T) -> Seq<char> {
        sentence(lhs.shown(), " not to equal "@, self.0.shown())
    }

    fn matches(&self, lhs: &T) -> (r: bool) {
        self.0.equals(lhs)
    }

    fn fail_msg(&self, lhs: &T) -> (r: String) {
        let value = lhs.show();
        let operand = self.0.show();
        write_block(value.as_str(), operand.as_str())
    }

    fn negated_fail_msg(&self, lhs: &T) -> (r: String) {
        let value = lhs.show();
        let operand = self.0.show();
        write_sentence(value.as_str(), " not to equal ", operand.as_str())
    }
}

/// Matches a value strictly below the operand.
pub struct LessThan<T>(pub T);

impl<T: Ordered + Show> Matcher<T> for LessThan<T> {
    open spec fn obeys_matcher_spec(&self) -> bool {
        T::obeys_order_spec() && T::obeys_show_spec()
    }

    open spec fn spec_matches(&self, lhs: T) -> bool {
        lhs.below(&self.0)
    }

    open spec fn spec_fail_msg(&self, lhs: T) -> Seq<char> {
        sentence(lhs.shown(), " to be less than "@, self.0.shown())
    }

    open spec fn spec_negated_fail_msg(&self, lhs: T) -> Seq<char> {
        sentence(lhs.shown(), " to be greater than or equal to "@, self.0.shown())
    }

    fn matches(&self, lhs: &T) -> (r: bool) {
        lhs.is_below(&self.0)
    }

    fn fail_msg(&self, lhs: &T) -> (r: String) {
        let value = lhs.show();
        let bound = self.0.show();
        write_sentence(value.as_str(), " to be less than ", bound.as_str())
    }

    fn negated_fail_msg(&self, lhs: &T) -> (r: String) {
        let value = lhs.show();
        let bound = self.0.show();
        write_sentence(value.as_str(), " to be greater than or equal to ", bound.as_str())
    }
}

/// Matches a value strictly above the operand.
pub struct GreaterThan<T>(pub T);

impl<T: Ordered + Show> Matcher<T> for GreaterThan<T> {
    open spec fn obeys_matcher_spec(&self) -> bool {
        T::obeys_order_spec() && T::obeys_show_spec()
    }

    open spec fn spec_matches(&self, lhs: T) -> bool {
        self.0.below(&lhs)
    }

    open spec fn spec_fail_msg(&self, lhs: T) -> Seq<char> {
        sentence(lhs.shown(), " to be greater than "@, self.0.shown())
    }

    open spec fn spec_negated_fail_msg(&self, lhs: T) -> Seq<char> {
        sentence(lhs.shown(), " to be less than or equal to "@, self.0.shown())
    }

    fn matches(&self, lhs: &T) -> (r: bool) {
        self.0.is_below(lhs)
    }

    fn fail_msg(&self, lhs: &T) -> (r: String) {
        let value = lhs.show();
        let bound = self.0.show();
        write_sentence(value.as_str(), " to be greater than ", bound.as_str())
    }

    fn negated_fail_msg(&self, lhs: &T) -> (r: String) {
        let value = lhs.show();
        let bound = self.0.show();
        write_sentence(value.as_str(), " to be less than or equal to ", bound.as_str())
    }
}

} // verus!
