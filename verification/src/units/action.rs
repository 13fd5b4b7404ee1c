//! The two ways in which a move is checked against what stands in the way.

use crate::board::Blocker;
use crate::board::Position;
use crate::vectors::line_point;
use crate::vectors::line_steps;
use crate::vectors::spec_vector_line;
use crate::vectors::Vector2Int;
use crate::vectors::vector_line;
use vstd::prelude::*;

verus! {

/// How a behaviour checks a move: a walk is stopped by what stands between
/// its two ends, a jump by nothing.
#[derive(Debug, Clone, Copy, PartialEq, Eq, Hash, Structural)]
pub enum Validator {
    Walk,
    Jump,
}

/// Whether a blocker stands on `v`.
pub open spec fn blocked_at(blockers: Seq<(Position, Blocker)>, v: Vector2Int) -> bool {
    exists|i: int| 0 <= i < blockers.len() && (#[trigger] blockers[i]).0.v == v
}

/// Whether a blocker that is no target stands on `v`.
pub open spec fn untargetable_at(blockers: Seq<(Position, Blocker)>, v: Vector2Int) -> bool {
    exists|i: int|
        0 <= i < blockers.len() && (#[trigger] blockers[i]).0.v == v
            && !blockers[i].1.is_targetable
}

/// Whether a blocker stands on a cell of the line traced from `a` to `b`
/// that is neither of its two ends.
pub open spec fn line_blocked(a: Vector2Int, b: Vector2Int, blockers: Seq<(Position, Blocker)>)
    -> bool {
    exists|step: int|
        0 < step < line_steps(a, b) && blocked_at(blockers, #[trigger] line_point(a, b, step))
}

impl Validator {
    /// Whether the move from `source` to `target` passes this check.
    pub open spec fn allows(
        self,
        source: Vector2Int,
        target: Vector2Int,
        blockers: Seq<(Position, Blocker)>,
    ) -> bool {
        match self {
            Validator::Walk => !line_blocked(source, target, blockers),
            Validator::Jump => true,
        }
    }

    /// Whether the move from `source` to `target` passes this check.
    pub fn is_valid(
        &self,
        source: Vector2Int,
        target: Vector2Int,
        blockers: &Vec<(Position, Blocker)>,
    ) -> (valid: bool)
        ensures
            valid == self.allows(source, target, blockers@),
    {
        match self {
            Validator::Walk => walk_validator(source, target, blockers),
            Validator::Jump => jump_validator(source, target, blockers),
        }
    }
}

/// Whether a blocker stands on `v`.
pub fn is_blocked(blockers: &Vec<(Position, Blocker)>, v: Vector2Int) -> (blocked: bool)
    ensures
        blocked == blocked_at(blockers@, v),
{
    let mut i: usize = 0;
    while i < blockers.len()
        invariant
            0 <= i <= blockers@.len(),
            forall|j: int| 0 <= j < i ==> (#[trigger] blockers@[j]).0.v != v,
        decreases blockers@.len() - i,
    {
        if blockers[i].0.v == v {
            return true;
        }
        i = i + 1;
    }
    false
}

/// Whether a blocker that is no target stands on `v`.
pub fn is_untargetable(blockers: &Vec<(Position, Blocker)>, v: Vector2Int) -> (barred: bool)
    ensures
        barred == untargetable_at(blockers@, v),
{
    let mut i: usize = 0;
    while i < blockers.len()
        invariant
            0 <= i <= blockers@.len(),
            forall|j: int|
                0 <= j < i ==> !((#[trigger] blockers@[j]).0.v == v
                    && !blockers@[j].1.is_targetable),
        decreases blockers@.len() - i,
    {
        if blockers[i].0.v == v && !blockers[i].1.is_targetable {
            return true;
        }
        i = i + 1;
    }
    false
}

/// A walk: valid unless a blocker stands strictly between source and target
/// on the traced line.
pub fn walk_validator(
    source: Vector2Int,
    target: Vector2Int,
    blockers: &Vec<(Position, Blocker)>,
) -> (valid: bool)
    ensures
        valid == !line_blocked(source, target, blockers@),
        valid == Validator::Walk.allows(source, target, blockers@),
{
    !has_line_blockers(source, target, blockers)
}

/// A jump: always valid.
pub fn jump_validator(
    source: Vector2Int,
    target: Vector2Int,
    blockers: &Vec<(Position, Blocker)>,
) -> (valid: bool)
    ensures
        valid,
        valid == Validator::Jump.allows(source, target, blockers@),
{
    true
}

fn has_line_blockers(a: Vector2Int, b: Vector2Int, blockers: &Vec<(Position, Blocker)>) -> (blocked:
    bool)
    ensures
        blocked == line_blocked(a, b, blockers@),
{
    let line = vector_line(a, b);
    if line.len() < 2 {
        return false;
    }
    let mut idx: usize = 1;
    while idx < line.len() - 1
        invariant
            1 <= idx <= line@.len() - 1,
            line@ == spec_vector_line(a, b),
            line@.len() == line_steps(a, b) + 1,
            forall|step: int|
                0 < step < idx ==> !blocked_at(blockers@, #[trigger] line_point(a, b, step)),
        decreases line@.len() - idx,
    {
        if is_blocked(blockers, line[idx]) {
            return true;
        }
        idx = idx + 1;
    }
    false
}

/// A blocker on a cell of the traced line strictly between source and
/// target stops every walk between the two.
pub proof fn lemma_walk_stopped_by_blocker_between(
    source: Vector2Int,
    target: Vector2Int,
    blockers: Seq<(Position, Blocker)>,
    step: int,
)
    requires
        0 < step < line_steps(source, target),
        blocked_at(blockers, line_point(source, target, step)),
    ensures
        !Validator::Walk.allows(source, target, blockers),
{
}

/// A walk to a cell at most one step away in each direction is never
/// stopped, whatever the blockers.
pub proof fn lemma_walk_to_adjacent_never_stopped(
    source: Vector2Int,
    target: Vector2Int,
    blockers: Seq<(Position, Blocker)>,
)
    requires
        line_steps(source, target) <= 1,
    ensures
        Validator::Walk.allows(source, target, blockers),
{
}

/// A jump is never stopped, whatever the blockers.
pub proof fn lemma_jump_never_stopped(
    source: Vector2Int,
    target: Vector2Int,
    blockers: Seq<(Position, Blocker)>,
)
    ensures
        Validator::Jump.allows(source, target, blockers),
{
}

} // verus!
