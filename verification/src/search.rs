//! The first item of a sequence that meets a condition.

use vstd::prelude::*;

verus! {

/// Whether `i` is the place of the first item of `s` that meets `wanted`.
pub open spec fn is_first_match<T>(s: Seq<T>, wanted: spec_fn(T) -> bool, i: int) -> bool {
    &&& 0 <= i < s.len()
    &&& wanted(s[i])
    &&& forall|j: int| 0 <= j < i ==> !wanted(#[trigger] s[j])
}

/// The place of the first item of `s` that meets `wanted`, if there is one.
pub open spec fn first_match<T>(s: Seq<T>, wanted: spec_fn(T) -> bool) -> Option<int> {
    if exists|i: int| is_first_match(s, wanted, i) {
        Some(choose|i: int| is_first_match(s, wanted, i))
    } else {
        None
    }
}

/// The first match is the only place that qualifies as one.
pub proof fn lemma_first_match_found<T>(s: Seq<T>, wanted: spec_fn(T) -> bool, i: int)
    requires
        is_first_match(s, wanted, i),
    ensures
        first_match(s, wanted) == Some(i),
{
}

/// Where an item meets `wanted`, there is a first one that does, at or
/// before that item.
pub proof fn lemma_first_match_exists<T>(s: Seq<T>, wanted: spec_fn(T) -> bool, k: int)
    requires
        0 <= k < s.len(),
        wanted(s[k]),
    ensures
        first_match(s, wanted) is Some,
        0 <= first_match(s, wanted)->0 <= k,
        is_first_match(s, wanted, first_match(s, wanted)->0),
    decreases k,
{
    if exists|j: int| 0 <= j < k && wanted(s[j]) {
        let j = choose|j: int| 0 <= j < k && wanted(s[j]);
        lemma_first_match_exists(s, wanted, j);
    } else {
        lemma_first_match_found(s, wanted, k);
    }
}

} // verus!
