use vstd::prelude::*;

use crate::sorting::{sort_by_key, sorted_by_key, SortKey};

verus! {

/// A checklist rule; `sort_order` gives the display order and need not be
/// unique.
#[derive(Debug, Clone, PartialEq, Eq)]
pub struct Rule {
    pub id: String,
    pub label: String,
    pub sort_order: i64,
}

impl SortKey for Rule {
    open spec fn spec_key(&self) -> int {
        self.sort_order as int
    }

    fn sort_key(&self) -> (r: i64) {
        self.sort_order
    }
}

pub open spec fn sorted_by_order(s: Seq<Rule>) -> bool {
    forall|i: int, j: int| 0 <= i < j < s.len() ==> s[i].sort_order <= s[j].sort_order
}

/// Puts rules in display order: ascending `sort_order`, keeping every rule.
pub fn sort_rules(rules: Vec<Rule>) -> (r: Vec<Rule>)
    ensures
        sorted_by_order(r@),
        r@.to_multiset() == rules@.to_multiset(),
{
    let r = sort_by_key(rules);
    assert(sorted_by_key(r@));
    r
}

} // verus!
