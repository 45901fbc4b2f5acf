//! The run-wide set of claimed event identifiers.
use vstd::prelude::*;
use std::collections::HashSet;

verus! {

broadcast use vstd::std_specs::hash::group_hash_axioms;

/// The identifiers claimed so far in one run. It only grows.
pub struct DedupSet {
    ids: HashSet<i32>,
}

impl View for DedupSet {
    type V = Set<i32>;

    closed spec fn view(&self) -> Set<i32> {
        self.ids@
    }
}

/// The answers of successive claims of `ids`, in order, starting from the set `s`.
pub open spec fn claim_results(s: Set<i32>, ids: Seq<i32>) -> Seq<bool>
    decreases ids.len(),
{
    if ids.len() == 0 {
        Seq::empty()
    } else {
        let before = ids.drop_last();
        claim_results(s, before).push(!(s + before.to_set()).contains(ids.last()))
    }
}

impl DedupSet {
    /// An empty set, for the start of a run.
    pub fn new() -> (r: DedupSet)
        ensures
            r@ == Set::<i32>::empty(),
    {
        DedupSet { ids: HashSet::new() }
    }

    /// Whether `event_id` has been claimed.
    pub fn contains(&self, event_id: i32) -> (r: bool)
        ensures
            r == self@.contains(event_id),
    {
        self.ids.contains(&event_id)
    }

    /// Checks and inserts in one step: `true` exactly when `event_id` was not
    /// claimed before; afterwards it is.
    pub fn try_claim(&mut self, event_id: i32) -> (r: bool)
        ensures
            r == !old(self)@.contains(event_id),
            final(self)@ == old(self)@.insert(event_id),
    {
        self.ids.insert(event_id)
    }
}

/// However `k` claims of one identifier are ordered, exactly the first
/// succeeds when the identifier was not yet claimed, and none when it was.
pub proof fn lemma_claim_exactly_once(s: Set<i32>, event_id: i32, ids: Seq<i32>)
    requires
        ids.len() >= 1,
        forall|i: int| 0 <= i < ids.len() ==> ids[i] == event_id,
    ensures
        claim_results(s, ids).len() == ids.len(),
        claim_results(s, ids)[0] == !s.contains(event_id),
        forall|i: int| 1 <= i < ids.len() ==> !#[trigger] claim_results(s, ids)[i],
    decreases ids.len(),
{
    let before = ids.drop_last();
    if before.len() == 0 {
        assert(claim_results(s, before) == Seq::<bool>::empty());
        assert(before.to_set() =~= Set::empty());
        assert((s + before.to_set()) =~= s);
    } else {
        lemma_claim_exactly_once(s, event_id, before);
        assert(before.to_set().contains(before[0]));
        assert((s + before.to_set()).contains(event_id));
    }
    assert(claim_results(s, ids) == claim_results(s, before).push(
        !(s + before.to_set()).contains(event_id),
    ));
}

} // verus!
