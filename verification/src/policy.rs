//! Pruning policy: given the prunable snapshot, selects an eviction
//! victim. Deliberately a pure function of the candidate set, so that
//! alternative orderings can replace it without touching the admission
//! controller. It is never offered forced or busy entries; the
//! registry's snapshot excludes them by construction.

use vstd::prelude::*;

verus! {

/// The victim the default policy picks: the first candidate, which in
/// a registry snapshot is the oldest by creation sequence.
pub open spec fn spec_victim(candidates: Seq<int>) -> Option<int> {
    if candidates.len() == 0 {
        Option::None
    } else {
        Option::Some(candidates[0])
    }
}

/// Picks an eviction victim among the given candidates, oldest first;
/// reports `None` where no candidate exists.
pub fn select_victim(candidates: &Vec<u64>) -> (r: Option<u64>)
    ensures
        r is Some <==> candidates@.len() > 0,
        r is Some ==> r == Option::Some::<u64>(candidates@[0]),
    {
    if candidates.len() == 0 {
        Option::None
    } else {
        Option::Some(candidates[0])
    }
}

} // verus!
