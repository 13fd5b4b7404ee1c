//! Commands: the changes that one thing in the game asks of another.

use crate::search::first_match;
use crate::units::Entity;
use crate::units::player::PlayerData;
use crate::units::player::PlayerDataModel;
use crate::units::table::named;
use crate::units::table::UnitEntryModel;
use crate::units::table::Units;
use crate::units::table::without;
use crate::units::UnitKind;
use crate::units::UnitModel;
use crate::units::UnitState;
use vstd::prelude::*;

verus! {

/// A change asked of the units.
#[derive(Debug, Clone, Copy, PartialEq, Eq, Hash, Structural)]
pub enum CommandType {
    /// Gives the unit that many action points more.
    AddAP(Entity, u8),
    /// Takes all the action points of the unit.
    RemoveAP(Entity),
    /// Pauses the unit.
    PauseUnit(Entity),
    /// The first unit has moved onto the second.
    AttackUnit(Entity, Entity),
}

/// A command on its way to being carried out.
#[derive(Debug, Clone, Copy, PartialEq, Eq, Hash, Structural)]
pub struct CommandEvent(pub CommandType);

/// The units with `unit` in the place of the unit called `entity`, if one is
/// called so.
pub open spec fn with_unit(units: Seq<UnitEntryModel>, entity: Entity, unit: UnitModel) -> Seq<
    UnitEntryModel,
> {
    match first_match(units, named(entity)) {
        Some(i) => units.update(i, UnitEntryModel { unit, ..units[i] }),
        None => units,
    }
}

/// The unit called `entity`, where there is one.
pub open spec fn unit_named(units: Seq<UnitEntryModel>, entity: Entity) -> UnitModel {
    units[first_match(units, named(entity))->0].unit
}

/// The units after the one called `entity` got `ap` action points more.
pub open spec fn ap_added(units: Seq<UnitEntryModel>, entity: Entity, ap: int) -> Seq<
    UnitEntryModel,
> {
    with_unit(units, entity, unit_named(units, entity).with_more_ap(ap))
}

/// The units after the one called `entity` lost its action points.
pub open spec fn ap_removed(units: Seq<UnitEntryModel>, entity: Entity) -> Seq<UnitEntryModel> {
    with_unit(units, entity, unit_named(units, entity).without_ap())
}

/// The units after the one called `entity` was paused.
pub open spec fn unit_paused(units: Seq<UnitEntryModel>, entity: Entity) -> Seq<UnitEntryModel> {
    with_unit(units, entity, unit_named(units, entity).paused())
}

/// The units that are left after `attacker` has moved onto `defender`. The
/// player, when it has armor, loses none but the attacker dies; anyone else,
/// and the player without armor, dies. Nothing happens where no unit is
/// called `defender`.
pub open spec fn units_after_attack(
    units: Seq<UnitEntryModel>,
    armor: u8,
    attacker: Entity,
    defender: Entity,
) -> Seq<UnitEntryModel> {
    match first_match(units, named(defender)) {
        Some(i) => if units[i].unit.kind == UnitKind::Player && armor > 0 {
            without(units, attacker)
        } else {
            without(units, defender)
        },
        None => units,
    }
}

/// The armor that the player has left after `attacker` has moved onto
/// `defender`: one less where it took a blow for the player.
pub open spec fn armor_after_attack(
    units: Seq<UnitEntryModel>,
    armor: u8,
    attacker: Entity,
    defender: Entity,
) -> int {
    match first_match(units, named(defender)) {
        Some(i) => if units[i].unit.kind == UnitKind::Player && armor > 0 {
            armor - 1
        } else {
            armor as int
        },
        None => armor as int,
    }
}

/// Whether there is room for `ap` more action points on the unit called
/// `entity`, if there is such a unit.
pub open spec fn has_room_for_ap(units: Seq<UnitEntryModel>, entity: Entity, ap: int) -> bool {
    first_match(units, named(entity)) is Some ==> unit_named(units, entity).ap + ap <= u8::MAX
}

/// Whether there is room for `ap` more action points on the unit called
/// `entity`.
pub fn has_room(entity: Entity, ap: u8, units: &Units) -> (fits: bool)
    ensures
        fits == has_room_for_ap(units@, entity, ap as int),
{
    match units.find(entity) {
        Some(i) => ap <= u8::MAX - units.entries[i].unit.ap,
        None => true,
    }
}

/// Gives the unit called `entity` that many action points more.
pub fn add_ap(entity: Entity, ap: u8, units: &mut Units)
    requires
        has_room_for_ap(old(units)@, entity, ap as int),
    ensures
        final(units)@ == ap_added(old(units)@, entity, ap as int),
        final(units).next_id == old(units).next_id,
        old(units).wf() ==> final(units).wf(),
{
    if let Some(i) = units.find(entity) {
        units.entries[i].unit.ap = units.entries[i].unit.ap + ap;
    }
}

/// Takes all the action points of the unit called `entity`.
pub fn remove_ap(entity: Entity, units: &mut Units)
    ensures
        final(units)@ == ap_removed(old(units)@, entity),
        final(units).next_id == old(units).next_id,
        old(units).wf() ==> final(units).wf(),
{
    if let Some(i) = units.find(entity) {
        units.entries[i].unit.ap = 0;
    }
}

/// Pauses the unit called `entity`: it loses its action points at once and
/// sits out its next turn.
pub fn pause_unit(entity: Entity, units: &mut Units)
    ensures
        final(units)@ == unit_paused(old(units)@, entity),
        final(units).next_id == old(units).next_id,
        old(units).wf() ==> final(units).wf(),
{
    if let Some(i) = units.find(entity) {
        units.entries[i].unit.state = UnitState::Paused;
        units.entries[i].unit.ap = 0;
    }
}

/// Settles what happens when `attacker` has moved onto `defender`.
pub fn attack_unit(
    attacker: Entity,
    defender: Entity,
    units: &mut Units,
    player_data: &mut PlayerData,
)
    ensures
        final(units)@ == units_after_attack(
            old(units)@,
            old(player_data).armor,
            attacker,
            defender,
        ),
        final(units).next_id == old(units).next_id,
        old(units).wf() ==> final(units).wf(),
        old(player_data).wf() ==> final(player_data).wf(),
        final(player_data)@ == (PlayerDataModel {
            armor: armor_after_attack(old(units)@, old(player_data).armor, attacker, defender),
            ..old(player_data)@
        }),
{
    let found = units.find(defender);
    match found {
        None => {},
        Some(i) => {
            if units.entries[i].unit.kind == UnitKind::Player {
                if player_data.armor > 0 {
                    player_data.armor = player_data.armor - 1;
                    units.despawn(attacker);
                } else {
                    units.despawn(defender);
                }
            } else {
                units.despawn(defender);
            }
        },
    }
}

/// The units after `command` was carried out.
pub open spec fn units_after(units: Seq<UnitEntryModel>, armor: u8, command: CommandType) -> Seq<
    UnitEntryModel,
> {
    match command {
        CommandType::AddAP(entity, ap) => ap_added(units, entity, ap as int),
        CommandType::RemoveAP(entity) => ap_removed(units, entity),
        CommandType::PauseUnit(entity) => unit_paused(units, entity),
        CommandType::AttackUnit(attacker, defender) => units_after_attack(
            units,
            armor,
            attacker,
            defender,
        ),
    }
}

/// The player's armor after `command` was carried out.
pub open spec fn armor_after(units: Seq<UnitEntryModel>, armor: u8, command: CommandType) -> int {
    match command {
        CommandType::AttackUnit(attacker, defender) => armor_after_attack(
            units,
            armor,
            attacker,
            defender,
        ),
        _ => armor as int,
    }
}

/// Carries out the command of the event.
pub fn execute(event: CommandEvent, units: &mut Units, player_data: &mut PlayerData)
    requires
        event.0 matches CommandType::AddAP(entity, ap) ==> has_room_for_ap(
            old(units)@,
            entity,
            ap as int,
        ),
    ensures
        final(units)@ == units_after(old(units)@, old(player_data).armor, event.0),
        final(units).next_id == old(units).next_id,
        old(units).wf() ==> final(units).wf(),
        old(player_data).wf() ==> final(player_data).wf(),
        final(player_data)@ == (PlayerDataModel {
            armor: armor_after(old(units)@, old(player_data).armor, event.0),
            ..old(player_data)@
        }),
{
    match event.0 {
        CommandType::AddAP(entity, ap) => add_ap(entity, ap, units),
        CommandType::RemoveAP(entity) => remove_ap(entity, units),
        CommandType::PauseUnit(entity) => pause_unit(entity, units),
        CommandType::AttackUnit(attacker, defender) => attack_unit(
            attacker,
            defender,
            units,
            player_data,
        ),
    }
}

/// No unit of `without(units, entity)` is called `entity`.
pub proof fn lemma_without_removes(units: Seq<UnitEntryModel>, entity: Entity)
    ensures
        first_match(without(units, entity), named(entity)) is None,
{
}

/// When a unit moves onto the player and the player has armor, the armor
/// goes down by exactly one and the attacker is no more; when the player has
/// none, the player is no more and the armor stays at zero.
pub proof fn lemma_attack_on_player(
    units: Seq<UnitEntryModel>,
    armor: u8,
    attacker: Entity,
    defender: Entity,
)
    requires
        first_match(units, named(defender)) is Some,
        unit_named(units, defender).kind == UnitKind::Player,
    ensures
        armor > 0 ==> armor_after_attack(units, armor, attacker, defender) == armor - 1
            && first_match(units_after_attack(units, armor, attacker, defender), named(attacker))
            is None,
        armor == 0 ==> armor_after_attack(units, armor, attacker, defender) == 0 && first_match(
            units_after_attack(units, armor, attacker, defender),
            named(defender),
        ) is None,
{
}

} // verus!
