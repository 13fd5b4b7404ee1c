//! What a capture and an attack leave behind, stated over whole moves.

use crate::board::Board;
use crate::items::BoardItem;
use crate::search::first_match;
use crate::search::lemma_first_match_found;
use crate::units::Entity;
use crate::units::npc::armor_after_npc_tick;
use crate::units::npc::units_after_npc_tick;
use crate::units::player::data_after_capture;
use crate::units::player::data_after_pickup;
use crate::units::player::has_player;
use crate::units::player::lemma_pickup_keeps;
use crate::units::player::player_of;
use crate::units::player::PlayerDataModel;
use crate::units::player::units_after_player_tick;
use crate::units::player::with_player;
use crate::units::table::is_player;
use crate::units::table::meets;
use crate::units::table::named;
use crate::units::table::names_in_order;
use crate::units::table::UnitEntryModel;
use crate::units::UnitKind;
use vstd::prelude::*;

verus! {

/// Where the names are in order, the unit at place `i` is the first and only
/// one of its name.
pub proof fn lemma_name_found(units: Seq<UnitEntryModel>, next_id: u32, i: int)
    requires
        names_in_order(units, next_id),
        0 <= i < units.len(),
    ensures
        first_match(units, named(units[i].entity)) == Some(i),
{
    lemma_first_match_found(units, named(units[i].entity), i);
}

/// The capture: when the player has moved onto a unit that plays by itself,
/// then after the move has been resolved the player moves by the behaviour
/// that this unit had, and no unit of that name is left.
pub proof fn lemma_capture_takes_over(
    units: Seq<UnitEntryModel>,
    next_id: u32,
    items: Seq<BoardItem>,
    data: PlayerDataModel,
    board: &Board,
    j: int,
)
    requires
        names_in_order(units, next_id),
        0 <= data.armor <= u8::MAX,
        has_player(units),
        first_match(units, meets(player_of(units).entity, player_of(units).position.v)) == Some(j),
        units[j].unit.kind != UnitKind::Player,
    ensures
        data_after_pickup(
            items,
            player_of(units).position.v,
            data_after_capture(units, data),
        ).current_behaviour == units[j].unit.behaviour,
        first_match(
            units_after_player_tick(units, data.armor as u8, board),
            named(units[j].entity),
        ) is None,
{
    let p = first_match(units, is_player())->0;
    let player = units[p];
    lemma_pickup_keeps(items, player.position.v, data_after_capture(units, data));
    let raised = with_player(units, player.unit.with_more_ap(1));
    lemma_name_found(raised, next_id, j);
}

/// The attack: when a unit that plays by itself has moved onto the player,
/// then after the move has been resolved either the player had armor, has
/// one armor less, and no unit of the attacker's name is left; or the player
/// had none, and no unit of the player's name is left.
pub proof fn lemma_attack_spends_armor(
    units: Seq<UnitEntryModel>,
    next_id: u32,
    armor: u8,
    entity: Entity,
    board: &Board,
    j: int,
)
    requires
        names_in_order(units, next_id),
        first_match(units, named(entity)) is Some,
        first_match(
            units,
            meets(entity, units[first_match(units, named(entity))->0].position.v),
        ) == Some(j),
        units[j].unit.kind == UnitKind::Player,
    ensures
        armor > 0 ==> armor_after_npc_tick(units, armor, entity) == armor - 1 && first_match(
            units_after_npc_tick(units, armor, entity, board),
            named(entity),
        ) is None,
        armor == 0 ==> armor_after_npc_tick(units, armor, entity) == 0 && first_match(
            units_after_npc_tick(units, armor, entity, board),
            named(units[j].entity),
        ) is None,
{
    lemma_name_found(units, next_id, j);
}

} // verus!
