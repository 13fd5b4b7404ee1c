//! Items: what lies on the board to be picked up, and what using one does.

pub mod data;

use crate::board::Board;
use crate::board::Position;
use crate::board::utils::get_spawn_position;
use crate::board::utils::spec_possible_spawn_positions;
use crate::command::ap_added;
use crate::command::ap_removed;
use crate::command::CommandEvent;
use crate::command::CommandType;
use crate::command::execute;
use crate::command::has_room;
use crate::command::has_room_for_ap;
use crate::items::data::get_random_kind;
use crate::random::random_below;
use crate::search::first_match;
use crate::units::player::PlayerData;
use crate::units::player::PlayerDataModel;
use crate::units::table::is_player;
use crate::units::table::player_entity;
use crate::units::table::UnitEntryModel;
use crate::units::table::Units;
use crate::vectors::Vector2Int;
use vstd::prelude::*;

verus! {

/// Out of a thousand levels, how many start with an item on the board.
pub const ITEM_CHANCE_PERMILLE: u32 = 500;

/// What an item does: a speed mushroom gives an action point, a stop mushroom
/// takes all of them, an armor takes a blow for the player.
#[derive(Debug, Clone, Copy, PartialEq, Eq, Hash, Structural)]
pub enum ItemKind {
    SpeedMushroom,
    StopMushroom,
    Armor,
}

/// An item, on the board or in the inventory.
#[derive(Debug, Clone, Copy, PartialEq, Eq, Hash, Structural)]
pub struct Item {
    pub kind: ItemKind,
}

/// An item that lies on the board.
#[derive(Debug, Clone, Copy, PartialEq, Eq, Hash, Structural)]
pub struct BoardItem {
    pub item: Item,
    pub position: Position,
}

/// Asks that the inventory item at the given place be used.
#[derive(Debug, Clone, Copy, PartialEq, Eq, Hash, Structural)]
pub struct UseItemEvent(pub usize);

/// Whether a level gets an item, by a draw out of a thousand.
pub open spec fn spec_item_appears(roll: u32) -> bool {
    roll < ITEM_CHANCE_PERMILLE
}

/// Whether a level gets an item, for a draw below a thousand.
pub fn item_appears(roll: u32) -> (appears: bool)
    ensures
        appears == spec_item_appears(roll),
{
    roll < ITEM_CHANCE_PERMILLE
}

/// Whether `after` is `before` with one item more, on a cell of the board
/// that none of the positions takes.
pub open spec fn one_item_added(
    before: Seq<BoardItem>,
    after: Seq<BoardItem>,
    board: &Board,
    blocker_positions: Seq<Vector2Int>,
) -> bool {
    &&& after.len() == before.len() + 1
    &&& after.drop_last() == before
    &&& spec_possible_spawn_positions(blocker_positions, board).contains(after.last().position.v)
}

/// Puts the item of a new level on the board: by chance none, otherwise one
/// of a random kind on a random cell that none of the given positions takes,
/// if there is such a cell.
pub fn spawn_items(items: &mut Vec<BoardItem>, board: &Board, blocker_positions: &Vec<Vector2Int>)
    ensures
        final(items)@ == old(items)@ || one_item_added(
            old(items)@,
            final(items)@,
            board,
            blocker_positions@,
        ),
{
    let roll: u32 = random_below(1000);
    if !item_appears(roll) {
        return ;
    }
    let kind = get_random_kind();
    let position = get_spawn_position(blocker_positions, board);
    place_item(items, kind, position);
    proof {
        if position is Some {
            assert(items@.drop_last() =~= old(items)@);
        }
    }
}

/// The items with one of the kind lying on the position, where there is a
/// position; without one they are the same items.
pub open spec fn items_with_placed(
    items: Seq<BoardItem>,
    kind: ItemKind,
    position: Option<Vector2Int>,
) -> Seq<BoardItem> {
    match position {
        Some(v) => items.push(BoardItem { item: Item { kind }, position: Position { v } }),
        None => items,
    }
}

/// Puts an item of the kind on the board, on the cell that was found for it.
/// Where no cell was found, the board gets no item.
pub fn place_item(items: &mut Vec<BoardItem>, kind: ItemKind, position: Option<Vector2Int>)
    ensures
        final(items)@ == items_with_placed(old(items)@, kind, position),
{
    if let Some(v) = position {
        items.push(BoardItem { item: Item { kind }, position: Position { v } });
    }
}

/// Takes every item off the board.
pub fn clear_items(items: &mut Vec<BoardItem>)
    ensures
        final(items)@ == Seq::<BoardItem>::empty(),
{
    items.clear();
}

/// Whether the inventory item at `index` can be used: there is a player, and
/// there is such an item.
pub open spec fn can_use_item(units: Seq<UnitEntryModel>, data: PlayerDataModel, index: int)
    -> bool {
    first_match(units, is_player()) is Some && 0 <= index < data.items.len()
}

/// Whether using the inventory item at `index` gives the player an action
/// point.
pub open spec fn uses_speed_mushroom(
    units: Seq<UnitEntryModel>,
    data: PlayerDataModel,
    index: int,
) -> bool {
    can_use_item(units, data, index) && data.items[index].kind == ItemKind::SpeedMushroom
}

/// The units after the inventory item at `index` was used.
pub open spec fn units_after_use(units: Seq<UnitEntryModel>, data: PlayerDataModel, index: int)
    -> Seq<UnitEntryModel> {
    if can_use_item(units, data, index) {
        let player = player_entity(units);
        match data.items[index].kind {
            ItemKind::SpeedMushroom => ap_added(units, player, 1),
            ItemKind::StopMushroom => ap_removed(units, player),
            ItemKind::Armor => units,
        }
    } else {
        units
    }
}

/// Whether `use_item` may be called: the player has room for the action point
/// of a speed mushroom, where it is about to use one.
pub fn use_item_fits(event: UseItemEvent, player_data: &PlayerData, units: &Units) -> (fits: bool)
    ensures
        fits == (uses_speed_mushroom(units@, player_data@, event.0 as int) ==> has_room_for_ap(
            units@,
            player_entity(units@),
            1,
        )),
{
    match units.find_player() {
        Some(i) => {
            if event.0 < player_data.items.len() {
                match player_data.items[event.0].kind {
                    ItemKind::SpeedMushroom => has_room(units.entries[i].entity, 1, units),
                    _ => true,
                }
            } else {
                true
            }
        },
        None => true,
    }
}

/// Uses the inventory item at `index`: a speed mushroom gives the player one
/// action point, a stop mushroom takes them all. The item is gone
/// afterwards. Says whether an item was used.
pub fn use_item(event: UseItemEvent, player_data: &mut PlayerData, units: &mut Units) -> (used:
    bool)
    requires
        uses_speed_mushroom(old(units)@, old(player_data)@, event.0 as int) ==> has_room_for_ap(
            old(units)@,
            player_entity(old(units)@),
            1,
        ),
    ensures
        used == can_use_item(old(units)@, old(player_data)@, event.0 as int),
        final(units)@ == units_after_use(old(units)@, old(player_data)@, event.0 as int),
        final(units).next_id == old(units).next_id,
        old(units).wf() ==> final(units).wf(),
        old(player_data).wf() ==> final(player_data).wf(),
        final(player_data)@ == (PlayerDataModel {
            items: if used {
                old(player_data)@.items.remove(event.0 as int)
            } else {
                old(player_data)@.items
            },
            ..old(player_data)@
        }),
{
    let index = event.0;
    let found = units.find_player();
    if found.is_none() || index >= player_data.items.len() {
        return false;
    }
    let player = units.entries[found.unwrap()].entity;
    let kind = player_data.items[index].kind;
    let command = match kind {
        ItemKind::SpeedMushroom => Some(CommandType::AddAP(player, 1)),
        ItemKind::StopMushroom => Some(CommandType::RemoveAP(player)),
        ItemKind::Armor => None,
    };
    if let Some(command) = command {
        execute(CommandEvent(command), units, player_data);
    }
    player_data.items.remove(index);
    true
}

} // verus!
