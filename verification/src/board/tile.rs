//! The kinds of tile a board is made of.

use crate::board::Board;
use crate::command::pause_unit;
use crate::command::unit_paused;
use crate::search::first_match;
use crate::units::Entity;
use crate::units::table::named;
use crate::units::table::UnitEntryModel;
use crate::units::table::Units;
use vstd::prelude::*;

verus! {

/// What a tile is: floor to walk on, a wall that blocks, the stair on which
/// the player starts, or a bush that pauses whoever steps on it.
#[derive(Debug, Clone, Copy, PartialEq, Eq, Hash, Structural)]
pub enum TileKind {
    Floor,
    Wall,
    Stair,
    Bush,
}

/// A tile of the board.
#[derive(Debug, Clone, Copy, PartialEq, Eq, Hash, Structural)]
pub struct Tile {
    pub kind: TileKind,
}

/// Tells that the unit has come to rest on a tile.
#[derive(Debug, Clone, Copy, PartialEq, Eq, Hash, Structural)]
pub struct TileInteractionEvent(pub Entity);

/// Whether the unit called `entity` stands on a bush.
pub open spec fn stands_on_bush(units: Seq<UnitEntryModel>, entity: Entity, board: &Board)
    -> bool {
    first_match(units, named(entity)) matches Some(i) && board.has_tile(units[i].position.v)
        && board.kind_at(units[i].position.v) == TileKind::Bush
}

/// The units after the one called `entity` has come to rest: a bush pauses
/// it.
pub open spec fn units_after_tile(units: Seq<UnitEntryModel>, entity: Entity, board: &Board)
    -> Seq<UnitEntryModel> {
    if stands_on_bush(units, entity, board) {
        unit_paused(units, entity)
    } else {
        units
    }
}

/// Lets the tile under a unit that has come to rest work on it.
pub fn tile_interaction(event: TileInteractionEvent, units: &mut Units, board: &Board)
    ensures
        final(units)@ == units_after_tile(old(units)@, event.0, board),
        final(units).next_id == old(units).next_id,
        old(units).wf() ==> final(units).wf(),
{
    if let Some(i) = units.find(event.0) {
        let kind = board.tile_kind(units.entries[i].position.v);
        match kind {
            Some(TileKind::Bush) => {
                pause_unit(event.0, units);
            },
            _ => {},
        }
    }
}

} // verus!
