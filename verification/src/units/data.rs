//! The table of the kinds: the behaviour and the rank of each.

use crate::units::action::Validator;
use crate::units::behaviour::Behaviour;
use crate::units::behaviour::BehaviourModel;
use crate::units::behaviour::get_frog_pattern;
use crate::units::behaviour::get_knight_pattern;
use crate::units::behaviour::get_ortho_pattern;
use crate::units::behaviour::get_player_pattern;
use crate::units::behaviour::get_turtle_pattern;
use crate::units::behaviour::knight_offsets;
use crate::units::behaviour::spec_ranged_positions;
use crate::units::behaviour::turtle_offsets;
use crate::units::UnitKind;
use crate::vectors::diagonal_directions;
use crate::vectors::ortho_directions;
use vstd::prelude::*;

verus! {

/// The behaviour that a unit of each kind is born with.
pub open spec fn spec_unit_behaviour(kind: UnitKind) -> BehaviourModel {
    match kind {
        UnitKind::Player => BehaviourModel {
            pattern: spec_ranged_positions(diagonal_directions() + ortho_directions(), 1),
            validator: Validator::Walk,
        },
        UnitKind::Turtle => BehaviourModel {
            pattern: turtle_offsets(),
            validator: Validator::Walk,
        },
        UnitKind::Frog => BehaviourModel {
            pattern: spec_ranged_positions(diagonal_directions(), 1),
            validator: Validator::Jump,
        },
        UnitKind::Goblin => BehaviourModel {
            pattern: spec_ranged_positions(ortho_directions(), 2),
            validator: Validator::Walk,
        },
        UnitKind::Rat => BehaviourModel {
            pattern: spec_ranged_positions(ortho_directions(), 1),
            validator: Validator::Walk,
        },
        UnitKind::Knight => BehaviourModel {
            pattern: knight_offsets(),
            validator: Validator::Jump,
        },
    }
}

/// What a unit of each kind costs when a level is filled.
pub open spec fn spec_unit_rank(kind: UnitKind) -> nat {
    match kind {
        UnitKind::Turtle => 2,
        UnitKind::Frog => 2,
        UnitKind::Goblin => 3,
        UnitKind::Rat => 1,
        UnitKind::Knight => 3,
        UnitKind::Player => 0,
    }
}

/// The kinds that a level is filled with.
pub open spec fn npc_types() -> Seq<UnitKind> {
    seq![UnitKind::Turtle, UnitKind::Goblin, UnitKind::Rat, UnitKind::Knight]
}

/// The behaviour that a unit of this kind is born with.
pub fn get_unit_behaviour(kind: &UnitKind) -> (behaviour: Behaviour)
    ensures
        behaviour@ == spec_unit_behaviour(*kind),
{
    match kind {
        UnitKind::Player => Behaviour {
            pattern: get_player_pattern(),
            validator: Validator::Walk,
        },
        UnitKind::Turtle => Behaviour {
            pattern: get_turtle_pattern(),
            validator: Validator::Walk,
        },
        UnitKind::Frog => Behaviour { pattern: get_frog_pattern(), validator: Validator::Jump },
        UnitKind::Goblin => Behaviour {
            pattern: get_ortho_pattern(2),
            validator: Validator::Walk,
        },
        UnitKind::Rat => Behaviour { pattern: get_ortho_pattern(1), validator: Validator::Walk },
        UnitKind::Knight => Behaviour {
            pattern: get_knight_pattern(),
            validator: Validator::Jump,
        },
    }
}

/// What a unit of this kind costs when a level is filled.
pub fn get_unit_rank(kind: &UnitKind) -> (rank: u32)
    ensures
        rank == spec_unit_rank(*kind),
{
    match kind {
        UnitKind::Turtle => 2,
        UnitKind::Frog => 2,
        UnitKind::Goblin => 3,
        UnitKind::Rat => 1,
        UnitKind::Knight => 3,
        UnitKind::Player => 0,
    }
}

/// The kinds that a level is filled with.
pub fn get_npc_types() -> (kinds: Vec<UnitKind>)
    ensures
        kinds@ == npc_types(),
{
    let mut kinds: Vec<UnitKind> = Vec::new();
    kinds.push(UnitKind::Turtle);
    kinds.push(UnitKind::Goblin);
    kinds.push(UnitKind::Rat);
    kinds.push(UnitKind::Knight);
    kinds
}

} // verus!
