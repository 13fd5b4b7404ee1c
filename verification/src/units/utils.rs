//! The draw of the kinds that a level is filled with.

use crate::random::pick_random;
use crate::units::data::get_npc_types;
use crate::units::data::get_unit_rank;
use crate::units::data::npc_types;
use crate::units::data::spec_unit_rank;
use crate::units::UnitKind;
use vstd::prelude::*;

verus! {

/// The ranks of the kinds, summed up.
pub open spec fn total_rank(kinds: Seq<UnitKind>) -> nat
    decreases kinds.len(),
{
    if kinds.len() == 0 {
        0
    } else {
        total_rank(kinds.drop_last()) + spec_unit_rank(kinds.last())
    }
}

/// The kinds whose rank is at most `limit`, in their order.
pub open spec fn spec_kinds_within(kinds: Seq<UnitKind>, limit: u32) -> Seq<UnitKind> {
    kinds.filter(|kind: UnitKind| spec_unit_rank(kind) <= limit)
}

/// The kinds whose rank is at most `limit`.
pub fn kinds_within(kinds: &Vec<UnitKind>, limit: u32) -> (fitting: Vec<UnitKind>)
    ensures
        fitting@ == spec_kinds_within(kinds@, limit),
{
    let mut fitting: Vec<UnitKind> = Vec::new();
    let ghost fits = |kind: UnitKind| spec_unit_rank(kind) <= limit;
    let mut i: usize = 0;
    while i < kinds.len()
        invariant
            0 <= i <= kinds@.len(),
            fits == |kind: UnitKind| spec_unit_rank(kind) <= limit,
            fitting@ == kinds@.take(i as int).filter(fits),
        decreases kinds@.len() - i,
    {
        proof {
            assert(kinds@.take(i + 1) =~= kinds@.take(i as int).push(kinds@[i as int]));
            kinds@.take(i as int).lemma_filter_push(kinds@[i as int], fits);
        }
        if get_unit_rank(&kinds[i]) <= limit {
            fitting.push(kinds[i]);
        }
        i = i + 1;
    }
    assert(kinds@.take(i as int) =~= kinds@);
    fitting
}

/// Draws kinds at random until their ranks sum up to `target_sum`: each draw
/// is made among the kinds whose rank still fits.
pub fn get_npc_set(target_sum: u32) -> (kinds: Vec<UnitKind>)
    ensures
        total_rank(kinds@) == target_sum,
        forall|k: int| 0 <= k < kinds@.len() ==> npc_types().contains(#[trigger] kinds@[k]),
{
    let npc_kinds = get_npc_types();
    let mut output: Vec<UnitKind> = Vec::new();
    let mut sum: u32 = 0;
    while sum < target_sum
        invariant
            0 <= sum <= target_sum,
            npc_kinds@ == npc_types(),
            total_rank(output@) == sum,
            forall|k: int| 0 <= k < output@.len() ==> npc_types().contains(#[trigger] output@[k]),
        decreases target_sum - sum,
    {
        let fitting = kinds_within(&npc_kinds, target_sum - sum);
        let ghost fits = |kind: UnitKind| spec_unit_rank(kind) <= target_sum - sum;
        proof {
            npc_kinds@.lemma_filter_contains(fits, 2);
        }
        // the rat always fits, so there is a kind to pick
        let kind = pick_random(&fitting).unwrap();
        proof {
            npc_kinds@.lemma_filter_contains_rev(fits, kind);
            assert(output@.push(kind).drop_last() =~= output@);
        }
        let rank = get_unit_rank(&kind);
        sum = sum + rank;
        output.push(kind);
    }
    output
}

} // verus!
