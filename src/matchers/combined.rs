//! Conjunction and disjunction of matchers.
use vstd::prelude::*;

use super::Matcher;
use crate::show::{bracketed, listed, quote, quoted, texts};

verus! {

/// The failure messages of the matchers, each quoted, in order.
pub open spec fn quoted_fail_msgs<A>(ms: Seq<Box<dyn Matcher<A>>>, lhs: A) -> Seq<Seq<char>> {
    ms.map_values(|m: Box<dyn Matcher<A>>| quoted(m.spec_fail_msg(lhs)))
}

/// The negated failure messages of the matchers, each quoted, in order.
pub open spec fn quoted_negated_fail_msgs<A>(ms: Seq<Box<dyn Matcher<A>>>, lhs: A) -> Seq<Seq<char>> {
    ms.map_values(|m: Box<dyn Matcher<A>>| quoted(m.spec_negated_fail_msg(lhs)))
}

/// Every matcher is known to follow its spec functions.
pub open spec fn all_obey<A>(ms: Seq<Box<dyn Matcher<A>>>) -> bool {
    forall|i: int| 0 <= i < ms.len() ==> #[trigger] ms[i].obeys_matcher_spec()
}

/// Every matcher matches the value.
pub open spec fn all_match<A>(ms: Seq<Box<dyn Matcher<A>>>, lhs: A) -> bool {
    forall|i: int| 0 <= i < ms.len() ==> #[trigger] ms[i].spec_matches(lhs)
}

/// Some matcher matches the value.
pub open spec fn any_matches<A>(ms: Seq<Box<dyn Matcher<A>>>, lhs: A) -> bool {
    exists|i: int| 0 <= i < ms.len() && #[trigger] ms[i].spec_matches(lhs)
}

/// Writes the failure messages (or, when `negated`, the negated ones) of all
/// the matchers as a list of quoted texts.
fn message_list<A>(ms: &Vec<Box<dyn Matcher<A>>>, lhs: &A, negated: bool) -> (r: String)
    ensures
        all_obey(ms@) ==> r@ == listed(
            if negated {
                quoted_negated_fail_msgs(ms@, *lhs)
            } else {
                quoted_fail_msgs(ms@, *lhs)
            },
        ),
{
    let ghost goal = if negated {
        quoted_negated_fail_msgs(ms@, *lhs)
    } else {
        quoted_fail_msgs(ms@, *lhs)
    };
    let mut parts: Vec<String> = Vec::new();
    let mut k: usize = 0;
    while k < ms.len()
        invariant
            k <= ms@.len(),
            goal == (if negated {
                quoted_negated_fail_msgs(ms@, *lhs)
            } else {
                quoted_fail_msgs(ms@, *lhs)
            }),
            all_obey(ms@) ==> texts(parts@) =~= goal.take(k as int),
        decreases ms@.len() - k,
    {
        let msg = if negated {
            ms[k].negated_fail_msg(lhs)
        } else {
            ms[k].fail_msg(lhs)
        };
        let part = quote(msg.as_str());
        let ghost before = parts@;
        parts.push(part);
        assert(texts(parts@) =~= texts(before).push(part@));
        assert(goal.take(k + 1) =~= goal.take(k as int).push(goal[k as int]));
        k = k + 1;
    }
    assert(goal.take(ms@.len() as int) =~= goal);
    bracketed(&parts)
}

fn labelled(label: &str, list: String) -> (r: String)
    ensures
        r@ == label@ + list@,
{
    let mut s = String::from_str(label);
    s.append(list.as_str());
    s
}

/// Matches a value that every one of the matchers matches.
///
/// Its failure message lists the failure message of every matcher, in order,
/// whether or not that matcher failed.
#[verifier::reject_recursive_types(A)]
pub struct AllOf<A>(pub Vec<Box<dyn Matcher<A>>>);

impl<A> Matcher<A> for AllOf<A> {
    open spec fn obeys_matcher_spec(&self) -> bool {
        all_obey(self.0@)
    }

    open spec fn spec_matches(&self, lhs: A) -> bool {
        all_match(self.0@, lhs)
    }

    open spec fn spec_fail_msg(&self, lhs: A) -> Seq<char> {
        "expected all of "@ + listed(quoted_fail_msgs(self.0@, lhs))
    }

    open spec fn spec_negated_fail_msg(&self, lhs: A) -> Seq<char> {
        "expected not all of "@ + listed(quoted_negated_fail_msgs(self.0@, lhs))
    }

    fn matches(&self, lhs: &A) -> (r: bool) {
        let mut k: usize = 0;
        while k < self.0.len()
            invariant
                k <= self.0@.len(),
                all_obey(self.0@) ==> forall|i: int| 0 <= i < k ==> #[trigger] self.0@[i].spec_matches(*lhs),
            decreases self.0@.len() - k,
        {
            if !self.0[k].matches(lhs) {
                return false;
            }
            k = k + 1;
        }
        true
    }

    fn fail_msg(&self, lhs: &A) -> (r: String) {
        let list = message_list(&self.0, lhs, false);
        labelled("expected all of ", list)
    }

    fn negated_fail_msg(&self, lhs: &A) -> (r: String) {
        let list = message_list(&self.0, lhs, true);
        labelled("expected not all of ", list)
    }
}

/// Matches a value that at least one of the matchers matches.
///
/// Its failure message lists the failure message of every matcher, in order.
#[verifier::reject_recursive_types(A)]
pub struct AnyOf<A>(pub Vec<Box<dyn Matcher<A>>>);

impl<A> Matcher<A> for AnyOf<A> {
    open spec fn obeys_matcher_spec(&self) -> bool {
        all_obey(self.0@)
    }

    open spec fn spec_matches(&self, lhs: A) -> bool {
        any_matches(self.0@, lhs)
    }

    open spec fn spec_fail_msg(&self, lhs: A) -> Seq<char> {
        "expected one of "@ + listed(quoted_fail_msgs(self.0@, lhs))
    }

    open spec fn spec_negated_fail_msg(&self, lhs: A) -> Seq<char> {
        "expected none of "@ + listed(quoted_negated_fail_msgs(self.0@, lhs))
    }

    fn matches(&self, lhs: &A) -> (r: bool) {
        let mut k: usize = 0;
        while k < self.0.len()
            invariant
                k <= self.0@.len(),
                all_obey(self.0@) ==> forall|i: int| 0 <= i < k ==> !(#[trigger] self.0@[i].spec_matches(*lhs)),
            decreases self.0@.len() - k,
        {
            if self.0[k].matches(lhs) {
                return true;
            }
            k = k + 1;
        }
        false
    }

    fn fail_msg(&self, lhs: &A) -> (r: String) {
        let list = message_list(&self.0, lhs, false);
        labelled("expected one of ", list)
    }

    fn negated_fail_msg(&self, lhs: &A) -> (r: String) {
        let list = message_list(&self.0, lhs, true);
        labelled("expected none of ", list)
    }
}

} // verus!
