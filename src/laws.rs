//! Laws that relate the matchers, the combinators and the checks.
use vstd::prelude::*;

use crate::matchers::combined::quoted_fail_msgs;
use crate::matchers::equality::{lawful_equality, lawful_order};
use crate::matchers::{
    block, sentence, AllOf, AnyOf, Contains, Empty, Equal, Equality, GreaterThan, LessThan,
    Matcher, Not, Ordered,
};
use crate::show::{joined, listed, quoted, Show};
use crate::text::has_infix;
use crate::{negated_verdict, verdict};

verus! {

/// A part of `y` is a part of `x + y + z`.
pub proof fn lemma_infix_widen(x: Seq<char>, y: Seq<char>, z: Seq<char>, part: Seq<char>)
    requires
        has_infix(y, part),
    ensures
        has_infix(x + y + z, part),
{
    let i = choose|i: int| 0 <= i <= y.len() - part.len() && #[trigger] y.subrange(i, i + part.len()) == part;
    let j = x.len() + i;
    assert((x + y + z).subrange(j, j + part.len()) =~= part);
}

/// Every text is a part of itself.
pub proof fn lemma_infix_self(x: Seq<char>)
    ensures
        has_infix(x, x),
{
    assert(x.subrange(0int, 0int + x.len()) =~= x);
}

/// Every item of a list is a part of the joined list.
pub proof fn lemma_joined_has_item(items: Seq<Seq<char>>, i: int)
    requires
        0 <= i < items.len(),
    ensures
        has_infix(joined(items), items[i]),
    decreases items.len(),
{
    lemma_infix_self(items[i]);
    if items.len() == 1 {
    } else if i == items.len() - 1 {
        lemma_infix_widen(joined(items.drop_last()) + seq![',', ' '], items[i], Seq::empty(), items[i]);
        assert(joined(items.drop_last()) + seq![',', ' '] + items[i] + Seq::empty() =~= joined(items));
    } else {
        lemma_joined_has_item(items.drop_last(), i);
        lemma_infix_widen(Seq::empty(), joined(items.drop_last()), seq![',', ' '] + items.last(), items[i]);
        assert(Seq::empty() + joined(items.drop_last()) + (seq![',', ' '] + items.last()) =~= joined(items));
    }
}

/// Every item of a list is a part of the list as `{:?}` prints it.
pub proof fn lemma_listed_has_item(items: Seq<Seq<char>>, i: int)
    requires
        0 <= i < items.len(),
    ensures
        has_infix(listed(items), items[i]),
{
    lemma_joined_has_item(items, i);
    lemma_infix_widen(seq!['['], joined(items), seq![']'], items[i]);
}

/// Exactly one of the two checks of a value against a matcher fails: the
/// positive one when the test is false, the negative one when it is true.
pub proof fn checks_are_complementary<L, M: Matcher<L>>(m: M, v: L)
    ensures
        verdict(&m, v) is Err <==> !m.spec_matches(v),
        negated_verdict(&m, v) is Err <==> m.spec_matches(v),
        verdict(&m, v) is Ok <==> negated_verdict(&m, v) is Err,
{
}

/// A value matches `Equal` of any value equal to it, and a negative check
/// of it then fails with `expected <value> not to equal <operand>`.
pub proof fn equal_values_match<T: Equality + Show>(a: T, b: T)
    requires
        lawful_equality::<T>(),
        T::obeys_show_spec(),
        a.same(&b),
    ensures
        Equal(b).spec_matches(a),
        negated_verdict(&Equal(b), a) == Err::<(), Seq<char>>(
            sentence(a.shown(), " not to equal "@, b.shown()),
        ),
{
    assert(b.same(&a));
}

/// A value does not match `Equal` of a value unequal to it, and the failure
/// message holds the text of both.
pub proof fn unequal_values_fail<T: Equality + Show>(a: T, b: T)
    requires
        lawful_equality::<T>(),
        T::obeys_show_spec(),
        !a.same(&b),
    ensures
        !Equal(b).spec_matches(a),
        verdict(&Equal(b), a) == Err::<(), Seq<char>>(block(a.shown(), b.shown())),
        has_infix(Equal(b).spec_fail_msg(a), a.shown()),
        has_infix(Equal(b).spec_fail_msg(a), b.shown()),
{
    if b.same(&a) {
        assert(a.same(&b));
    }
    let head: Seq<char> = "\nexpected: "@;
    let mid: Seq<char> = "\n     got: "@;
    let tail: Seq<char> = "\n"@;
    lemma_infix_self(a.shown());
    lemma_infix_self(b.shown());
    lemma_infix_widen(head, a.shown(), mid + b.shown() + tail, a.shown());
    assert(head + a.shown() + (mid + b.shown() + tail) =~= block(a.shown(), b.shown()));
    lemma_infix_widen(head + a.shown() + mid, b.shown(), tail, b.shown());
    assert(head + a.shown() + mid + b.shown() + tail =~= block(a.shown(), b.shown()));
}

/// `Empty` matches a sequence exactly when it has no items.
pub proof fn empty_sequence<T: Show>(v: Vec<T>)
    ensures
        Empty.spec_matches(v) <==> v@.len() == 0,
{
}

/// `Empty` matches an owned text exactly when it has no characters; a text
/// of one character is not empty, however many bytes that character takes.
pub proof fn empty_string(s: String)
    ensures
        Empty.spec_matches(s) <==> s@.len() == 0,
{
}

/// `Empty` matches a text view exactly when it has no characters.
pub proof fn empty_str(s: &str)
    ensures
        Empty.spec_matches(s) <==> s@.len() == 0,
{
}

/// `Contains` matches a sequence exactly when some item equals the operand.
pub proof fn contains_item<T: Equality + Show>(v: Vec<T>, x: T)
    ensures
        Contains(x).spec_matches(v) <==> exists|i: int| 0 <= i < v@.len() && #[trigger] v@[i].same(&x),
{
}

/// `Contains` matches a text exactly when the operand occurs in it.
pub proof fn contains_substring(t: &str, part: &str)
    ensures
        Contains(part).spec_matches(t) <==> has_infix(t@, part@),
{
}

/// `Contains` matches an owned text exactly when the operand occurs in it.
pub proof fn contains_substring_of_string(t: String, part: &str)
    ensures
        Contains(part).spec_matches(t) <==> has_infix(t@, part@),
{
}

/// The bounds are strict: no value is below or above itself.
pub proof fn bounds_are_strict<T: Ordered + Show>(x: T)
    requires
        lawful_order::<T>(),
    ensures
        !LessThan(x).spec_matches(x),
        !GreaterThan(x).spec_matches(x),
{
}

/// `Not` inverts the test, and inverting twice gives the test back.
pub proof fn double_negation<L, M: Matcher<L>>(m: M, v: L)
    ensures
        Not(Box::new(m)).spec_matches(v) == !m.spec_matches(v),
        Not(Box::new(Not(Box::new(m)))).spec_matches(v) == m.spec_matches(v),
{
}

/// The failure message of `AllOf` holds the quoted failure message of every
/// one of its matchers, whether or not that matcher failed.
pub proof fn all_of_lists_every_failure<A>(m: AllOf<A>, v: A, i: int)
    requires
        0 <= i < m.0@.len(),
    ensures
        has_infix(m.spec_fail_msg(v), quoted(m.0@[i].spec_fail_msg(v))),
{
    let items = quoted_fail_msgs(m.0@, v);
    lemma_listed_has_item(items, i);
    lemma_infix_widen("expected all of "@, listed(items), Seq::empty(), items[i]);
    assert("expected all of "@ + listed(items) + Seq::empty() =~= m.spec_fail_msg(v));
}

/// The failure message of `AnyOf` holds the quoted failure message of every
/// one of its matchers.
pub proof fn any_of_lists_every_failure<A>(m: AnyOf<A>, v: A, i: int)
    requires
        0 <= i < m.0@.len(),
    ensures
        has_infix(m.spec_fail_msg(v), quoted(m.0@[i].spec_fail_msg(v))),
{
    let items = quoted_fail_msgs(m.0@, v);
    lemma_listed_has_item(items, i);
    lemma_infix_widen("expected one of "@, listed(items), Seq::empty(), items[i]);
    assert("expected one of "@ + listed(items) + Seq::empty() =~= m.spec_fail_msg(v));
}

/// `AllOf` fails exactly when some matcher fails, which is the test of `AnyOf`
/// over the negated matchers; `AnyOf` fails exactly when every matcher fails.
pub proof fn combinators_negate_by_duality<A>(m: AllOf<A>, n: AnyOf<A>, v: A)
    ensures
        !m.spec_matches(v) <==> exists|i: int| 0 <= i < m.0@.len() && !(#[trigger] m.0@[i].spec_matches(v)),
        !n.spec_matches(v) <==> forall|i: int| 0 <= i < n.0@.len() ==> !(#[trigger] n.0@[i].spec_matches(v)),
{
}

/// Every matcher of `ms` stands somewhere in `ns`.
pub open spec fn members_in<A>(ms: Seq<Box<dyn Matcher<A>>>, ns: Seq<Box<dyn Matcher<A>>>) -> bool {
    forall|i: int| 0 <= i < ms.len() ==> exists|k: int| 0 <= k < ns.len() && ns[k] == #[trigger] ms[i]
}

/// Two lists that hold the same matchers, in any order.
pub open spec fn same_members<A>(ms: Seq<Box<dyn Matcher<A>>>, ns: Seq<Box<dyn Matcher<A>>>) -> bool {
    members_in(ms, ns) && members_in(ns, ms)
}

/// The order of the matchers of `AllOf` changes only its messages, never
/// its test.
pub proof fn all_of_ignores_order<A>(m: AllOf<A>, n: AllOf<A>, v: A)
    requires
        same_members(m.0@, n.0@),
    ensures
        m.spec_matches(v) == n.spec_matches(v),
{
    let (ms, ns) = (m.0@, n.0@);
    if m.spec_matches(v) {
        assert forall|j: int| 0 <= j < ns.len() implies #[trigger] ns[j].spec_matches(v) by {
            let k = choose|k: int| 0 <= k < ms.len() && ms[k] == ns[j];
            assert(ms[k].spec_matches(v));
        }
    }
    if n.spec_matches(v) {
        assert forall|i: int| 0 <= i < ms.len() implies #[trigger] ms[i].spec_matches(v) by {
            let k = choose|k: int| 0 <= k < ns.len() && ns[k] == ms[i];
            assert(ns[k].spec_matches(v));
        }
    }
}

/// The order of the matchers of `AnyOf` changes only its messages, never
/// its test.
pub proof fn any_of_ignores_order<A>(m: AnyOf<A>, n: AnyOf<A>, v: A)
    requires
        same_members(m.0@, n.0@),
    ensures
        m.spec_matches(v) == n.spec_matches(v),
{
    let (ms, ns) = (m.0@, n.0@);
    if m.spec_matches(v) {
        let i = choose|i: int| 0 <= i < ms.len() && #[trigger] ms[i].spec_matches(v);
        let k = choose|k: int| 0 <= k < ns.len() && ns[k] == ms[i];
        assert(ns[k].spec_matches(v));
    }
    if n.spec_matches(v) {
        let j = choose|j: int| 0 <= j < ns.len() && #[trigger] ns[j].spec_matches(v);
        let k = choose|k: int| 0 <= k < ms.len() && ms[k] == ns[j];
        assert(ms[k].spec_matches(v));
    }
}

} // verus!
