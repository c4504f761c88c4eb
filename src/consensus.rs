//! The consensus gate: every key of a proposal's required-signer snapshot
//! has signed. This is unanimity over the snapshot, with no weights; an
//! empty snapshot is satisfied at once.
use vstd::prelude::*;
use crate::keys::{IdentityKey, contains_key};

verus! {

/// `required ⊆ collected`, as sets of keys.
pub open spec fn quorum(required: Seq<IdentityKey>, collected: Seq<IdentityKey>) -> bool {
    required.to_set().subset_of(collected.to_set())
}

/// Evaluates the consensus gate on a snapshot and the signatures collected.
pub fn satisfied(required: &Vec<IdentityKey>, collected: &Vec<IdentityKey>) -> (r: bool)
    ensures
        r == quorum(required@, collected@),
{
    let mut i: usize = 0;
    while i < required.len()
        invariant
            0 <= i <= required@.len(),
            forall|j: int| 0 <= j < i ==> collected@.contains(#[trigger] required@[j]),
        decreases required@.len() - i,
    {
        if !contains_key(collected, &required[i]) {
            assert(required@.to_set().contains(required@[i as int]));
            return false;
        }
        i = i + 1;
    }
    assert forall|k: IdentityKey| required@.to_set().contains(k) implies collected@.to_set().contains(
        k,
    ) by {
        assert(required@.contains(k));
    }
    true
}

} // verus!
