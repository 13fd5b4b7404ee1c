//! What the player is shown and may point at: the cells open to a unit, and
//! the unit picked for a closer look.

use crate::board::Blocker;
use crate::board::Board;
use crate::board::Position;
use crate::search::first_match;
use crate::search::lemma_first_match_found;
use crate::units::Entity;
use crate::units::player::has_player;
use crate::units::player::player_of;
use crate::units::player::PlayerData;
use crate::units::player::PlayerDataModel;
use crate::units::table::named;
use crate::units::table::unit_blockers;
use crate::units::table::UnitEntryModel;
use crate::units::table::Units;
use crate::units::UnitKind;
use crate::vectors::Vector2Int;
use vstd::prelude::*;

verus! {

/// What stands in the way of a move that is only shown: the walls and every
/// unit.
pub open spec fn cursor_blockers(units: Seq<UnitEntryModel>, board: &Board) -> Seq<
    (Position, Blocker),
> {
    board.spec_wall_blockers() + unit_blockers(units)
}

/// The cells to highlight: none while there is no player or the player has
/// no action points; otherwise the cells open to the selected unit, or, with
/// no unit selected, those open to the player.
pub open spec fn spec_cursor_range(
    units: Seq<UnitEntryModel>,
    board: &Board,
    data: PlayerDataModel,
    selected_npc: Option<Entity>,
) -> Option<Seq<Vector2Int>> {
    if !has_player(units) || player_of(units).unit.ap == 0 {
        None
    } else {
        match selected_npc {
            Some(entity) => match first_match(units, named(entity)) {
                Some(i) => Some(
                    units[i].unit.behaviour.possible_positions(
                        units[i].position.v,
                        board,
                        cursor_blockers(units, board),
                    ),
                ),
                None => None,
            },
            None => Some(
                data.current_behaviour.possible_positions(
                    player_of(units).position.v,
                    board,
                    cursor_blockers(units, board),
                ),
            ),
        }
    }
}

/// The cells to highlight under the cursor.
pub fn cursor_range(
    units: &Units,
    board: &Board,
    player_data: &PlayerData,
    selected_npc: Option<Entity>,
) -> (range: Option<Vec<Vector2Int>>)
    ensures
        range is Some == spec_cursor_range(units@, board, player_data@, selected_npc) is Some,
        range matches Some(cells) ==> Some(cells@) == spec_cursor_range(
            units@,
            board,
            player_data@,
            selected_npc,
        ),
{
    let player = match units.find_player() {
        Some(player) => player,
        None => {
            return None;
        },
    };
    if units.entries[player].unit.ap == 0 {
        return None;
    }
    let mut blockers = board.wall_blockers();
    let mut unit_blockers = units.blockers();
    blockers.append(&mut unit_blockers);
    match selected_npc {
        Some(entity) => match units.find(entity) {
            Some(i) => Some(
                units.entries[i].unit.behaviour.possible_positions(
                    units.entries[i].position.v,
                    board,
                    &blockers,
                ),
            ),
            None => None,
        },
        None => Some(
            player_data.current_behaviour.possible_positions(
                units.entries[player].position.v,
                board,
                &blockers,
            ),
        ),
    }
}

/// The units other than the player that stand on `v`.
pub open spec fn npc_on(v: Vector2Int) -> spec_fn(UnitEntryModel) -> bool {
    |entry: UnitEntryModel| entry.unit.kind != UnitKind::Player && entry.position.v == v
}

/// Selects the first unit other than the player that stands on `v`, if
/// there is one. Says whether the selection has changed.
pub fn select_npc_at(units: &Units, v: Vector2Int, selected_npc: &mut Option<Entity>) -> (changed:
    bool)
    ensures
        *final(selected_npc) == match first_match(units@, npc_on(v)) {
            Some(i) => Some(units@[i].entity),
            None => *old(selected_npc),
        },
        changed == (*final(selected_npc) != *old(selected_npc)),
{
    let mut i: usize = 0;
    while i < units.entries.len()
        invariant
            0 <= i <= units.entries@.len(),
            *selected_npc == *old(selected_npc),
            forall|j: int| 0 <= j < i ==> !npc_on(v)(#[trigger] units@[j]),
        decreases units.entries@.len() - i,
    {
        if units.entries[i].unit.kind != UnitKind::Player && units.entries[i].position.v == v {
            proof {
                lemma_first_match_found(units@, npc_on(v), i as int);
            }
            let entity = units.entries[i].entity;
            let changed = match *selected_npc {
                Some(selected) => selected != entity,
                None => true,
            };
            *selected_npc = Some(entity);
            return changed;
        }
        i = i + 1;
    }
    false
}

} // verus!
