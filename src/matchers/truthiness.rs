//! Boolean identity.
use vstd::prelude::*;

use super::{block, write_block, Matcher};
use crate::show::Show;

verus! {

/// Matches `true`.
pub struct BeTrue;

/// Matches `false`.
pub struct BeFalse;

impl Matcher<bool> for BeTrue {
    open spec fn obeys_matcher_spec(&self) -> bool {
        true
    }

    open spec fn spec_matches(&self, lhs: bool) -> bool {
        lhs
    }

    open spec fn spec_fail_msg(&self, lhs: bool) -> Seq<char> {
        block("true"@, lhs.shown())
    }

    open spec fn spec_negated_fail_msg(&self, lhs: bool) -> Seq<char> {
        block("false"@, lhs.shown())
    }

    fn matches(&self, lhs: &bool) -> (r: bool) {
        *lhs
    }

    fn fail_msg(&self, lhs: &bool) -> (r: String) {
        let got = lhs.show();
        write_block("true", got.as_str())
    }

    fn negated_fail_msg(&self, lhs: &bool) -> (r: String) {
        let got = lhs.show();
        write_block("false", got.as_str())
    }
}

impl Matcher<bool> for BeFalse {
    open spec fn obeys_matcher_spec(&self) -> bool {
        true
    }

    open spec fn spec_matches(&self, lhs: bool) -> bool {
        !lhs
    }

    open spec fn spec_fail_msg(&self, lhs: bool) -> Seq<char> {
        block("false"@, lhs.shown())
    }

    open spec fn spec_negated_fail_msg(&self, lhs: bool) -> Seq<char> {
        block("true"@, lhs.shown())
    }

    fn matches(&self, lhs: &bool) -> (r: bool) {
        !*lhs
    }

    fn fail_msg(&self, lhs: &bool) -> (r: String) {
        let got = lhs.show();
        write_block("false", got.as_str())
    }

    fn negated_fail_msg(&self, lhs: &bool) -> (r: String) {
        let got = lhs.show();
        write_block("true", got.as_str())
    }
}

} // verus!
