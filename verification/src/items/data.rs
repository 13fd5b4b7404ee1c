//! What each kind of item is, and how often it turns up.

use crate::items::ItemKind;
use crate::random::random_below;
use vstd::prelude::*;

verus! {

/// Out of a thousand items, how many are an armor.
pub const ARMOR_PERMILLE: u32 = 100;

/// Out of a thousand items, how many are an armor or a stop mushroom.
pub const STOP_MUSHROOM_PERMILLE: u32 = 450;

/// A passive item works when it is picked up and never lies in the
/// inventory.
pub open spec fn spec_is_passive(kind: ItemKind) -> bool {
    kind == ItemKind::Armor
}

/// The kind of item that a draw out of a thousand gives.
pub open spec fn spec_kind_from_roll(roll: u32) -> ItemKind {
    if roll < ARMOR_PERMILLE {
        ItemKind::Armor
    } else if roll < STOP_MUSHROOM_PERMILLE {
        ItemKind::StopMushroom
    } else {
        ItemKind::SpeedMushroom
    }
}

/// Whether an item of this kind works on pickup rather than on use.
pub fn is_passive(kind: ItemKind) -> (passive: bool)
    ensures
        passive == spec_is_passive(kind),
{
    match kind {
        ItemKind::Armor => true,
        ItemKind::SpeedMushroom => false,
        ItemKind::StopMushroom => false,
    }
}

/// The kind of item for a draw below a thousand.
pub fn item_kind_from_roll(roll: u32) -> (kind: ItemKind)
    ensures
        kind == spec_kind_from_roll(roll),
{
    if roll < ARMOR_PERMILLE {
        ItemKind::Armor
    } else if roll < STOP_MUSHROOM_PERMILLE {
        ItemKind::StopMushroom
    } else {
        ItemKind::SpeedMushroom
    }
}

/// A kind of item drawn at random: see `item_kind_from_roll`.
pub fn get_random_kind() -> (kind: ItemKind)
    ensures
        exists|roll: u32| roll < 1000 && kind == spec_kind_from_roll(roll),
{
    let roll: u32 = random_below(1000);
    item_kind_from_roll(roll)
}

} // verus!
