//! The table of the living units, in the order in which they were created.

use crate::board::Blocker;
use crate::board::Position;
use crate::search::first_match;
use crate::search::lemma_first_match_found;
use crate::units::Entity;
use crate::units::Unit;
use crate::units::UnitKind;
use crate::units::UnitModel;
use crate::vectors::Vector2Int;
use vstd::prelude::*;

verus! {

/// A living unit: its name, where it stands, how it blocks, and what it is.
#[derive(Debug)]
pub struct UnitEntry {
    pub entity: Entity,
    pub position: Position,
    pub blocker: Blocker,
    pub unit: Unit,
}

/// What a living unit is, whatever holds it.
pub struct UnitEntryModel {
    pub entity: Entity,
    pub position: Position,
    pub blocker: Blocker,
    pub unit: UnitModel,
}

impl View for UnitEntry {
    type V = UnitEntryModel;

    open spec fn view(&self) -> UnitEntryModel {
        UnitEntryModel {
            entity: self.entity,
            position: self.position,
            blocker: self.blocker,
            unit: self.unit@,
        }
    }
}

/// The living units in the order in which they were created, and the id that
/// the next one gets.
pub struct Units {
    pub entries: Vec<UnitEntry>,
    pub next_id: u32,
}

impl View for Units {
    type V = Seq<UnitEntryModel>;

    open spec fn view(&self) -> Seq<UnitEntryModel> {
        self.entries@.map_values(|entry: UnitEntry| entry@)
    }
}

/// The units called `entity`.
pub open spec fn named(entity: Entity) -> spec_fn(UnitEntryModel) -> bool {
    |entry: UnitEntryModel| entry.entity == entity
}

/// The units that are the player.
pub open spec fn is_player() -> spec_fn(UnitEntryModel) -> bool {
    |entry: UnitEntryModel| entry.unit.kind == UnitKind::Player
}

/// The name of the player, where there is one.
pub open spec fn player_entity(units: Seq<UnitEntryModel>) -> Entity {
    units[first_match(units, is_player())->0].entity
}

/// The units that play by themselves.
pub open spec fn is_npc() -> spec_fn(UnitEntryModel) -> bool {
    |entry: UnitEntryModel| entry.unit.kind != UnitKind::Player
}

/// The units other than `entity` that stand on `v`.
pub open spec fn meets(entity: Entity, v: Vector2Int) -> spec_fn(UnitEntryModel) -> bool {
    |entry: UnitEntryModel| entry.entity != entity && entry.position.v == v
}

/// The place of the unit called `entity`, if it is not the player.
pub open spec fn acting_npc(units: Seq<UnitEntryModel>, entity: Entity) -> Option<int> {
    match first_match(units, named(entity)) {
        Some(i) => if units[i].unit.kind != UnitKind::Player {
            Some(i)
        } else {
            None
        },
        None => None,
    }
}

/// The units without the one called `entity`.
pub open spec fn without(units: Seq<UnitEntryModel>, entity: Entity) -> Seq<UnitEntryModel> {
    units.filter(|entry: UnitEntryModel| entry.entity != entity)
}

/// The units as blockers, in their order.
pub open spec fn unit_blockers(units: Seq<UnitEntryModel>) -> Seq<(Position, Blocker)> {
    units.map_values(|entry: UnitEntryModel| (entry.position, entry.blocker))
}

/// The positions of the units, in their order.
pub open spec fn unit_positions(units: Seq<UnitEntryModel>) -> Seq<Vector2Int> {
    units.map_values(|entry: UnitEntryModel| entry.position.v)
}

/// The names of the units, in their order.
pub open spec fn unit_names(units: Seq<UnitEntryModel>) -> Seq<Entity> {
    units.map_values(|entry: UnitEntryModel| entry.entity)
}

/// No two units share a name: ids grow along the table and stay below
/// `next_id`.
pub open spec fn names_in_order(units: Seq<UnitEntryModel>, next_id: u32) -> bool {
    &&& forall|i: int| 0 <= i < units.len() ==> (#[trigger] units[i]).entity.id < next_id
    &&& forall|i: int, j: int|
        0 <= i < j < units.len() ==> (#[trigger] units[i]).entity.id < (
        #[trigger] units[j]).entity.id
}

impl Units {
    /// The table's own rule: see `names_in_order`.
    pub open spec fn wf(&self) -> bool {
        names_in_order(self@, self.next_id)
    }

    /// An empty table, whose first unit gets the name 0.
    pub fn new() -> (units: Units)
        ensures
            units@ == Seq::<UnitEntryModel>::empty(),
            units.next_id == 0,
            units.wf(),
    {
        let units = Units { entries: Vec::new(), next_id: 0 };
        units
    }

    /// Adds a unit under a fresh name and gives the name back. When all the
    /// names are used up, nothing is added.
    pub fn spawn(&mut self, position: Position, blocker: Blocker, unit: Unit) -> (entity: Option<
        Entity,
    >)
        ensures
            old(self).next_id < u32::MAX ==> entity == Some(Entity { id: old(self).next_id })
                && final(self).next_id == old(self).next_id + 1 && final(self)@ == old(self)@.push(
                UnitEntryModel {
                    entity: Entity { id: old(self).next_id },
                    position,
                    blocker,
                    unit: unit@,
                },
            ),
            old(self).next_id == u32::MAX ==> entity is None && final(self)@ == old(self)@
                && final(self).next_id == old(self).next_id,
            old(self).wf() ==> final(self).wf(),
    {
        if self.next_id == u32::MAX {
            return None;
        }
        let entity = Entity { id: self.next_id };
        self.entries.push(UnitEntry { entity, position, blocker, unit });
        self.next_id = self.next_id + 1;
        assert(self@ =~= old(self)@.push(
            UnitEntryModel { entity, position, blocker, unit: unit@ },
        ));
        Some(entity)
    }

    /// The place of the unit called `entity`.
    pub fn find(&self, entity: Entity) -> (found: Option<usize>)
        ensures
            found matches Some(i) ==> first_match(self@, named(entity)) == Some(i as int),
            found is None ==> first_match(self@, named(entity)) is None,
    {
        let mut i: usize = 0;
        while i < self.entries.len()
            invariant
                0 <= i <= self.entries@.len(),
                forall|j: int| 0 <= j < i ==> !named(entity)(#[trigger] self@[j]),
            decreases self.entries@.len() - i,
        {
            if self.entries[i].entity == entity {
                proof {
                    lemma_first_match_found(self@, named(entity), i as int);
                }
                return Some(i);
            }
            i = i + 1;
        }
        None
    }

    /// The place of the player.
    pub fn find_player(&self) -> (found: Option<usize>)
        ensures
            found matches Some(i) ==> first_match(self@, is_player()) == Some(i as int),
            found is None ==> first_match(self@, is_player()) is None,
    {
        let mut i: usize = 0;
        while i < self.entries.len()
            invariant
                0 <= i <= self.entries@.len(),
                forall|j: int| 0 <= j < i ==> !is_player()(#[trigger] self@[j]),
            decreases self.entries@.len() - i,
        {
            if self.entries[i].unit.kind == UnitKind::Player {
                proof {
                    lemma_first_match_found(self@, is_player(), i as int);
                }
                return Some(i);
            }
            i = i + 1;
        }
        None
    }

    /// Removes the unit called `entity`.
    pub fn despawn(&mut self, entity: Entity)
        ensures
            final(self)@ == without(old(self)@, entity),
            final(self).next_id == old(self).next_id,
            old(self).wf() ==> final(self).wf(),
    {
        let ghost keep = |entry: UnitEntryModel| entry.entity != entity;
        let ghost before = self@;
        let mut i: usize = 0;
        let ghost mut seen: int = 0;
        while i < self.entries.len()
            invariant
                0 <= i <= self.entries@.len(),
                0 <= seen <= before.len(),
                keep == |entry: UnitEntryModel| entry.entity != entity,
                before == old(self)@,
                self.next_id == old(self).next_id,
                i == before.take(seen).filter(keep).len(),
                self@ == before.take(seen).filter(keep) + before.skip(seen),
            decreases before.len() - seen,
        {
            proof {
                assert(self@[i as int] == before.skip(seen)[0]);
                assert(before.take(seen + 1) =~= before.take(seen).push(before[seen]));
                before.take(seen).lemma_filter_push(before[seen], keep);
            }
            if self.entries[i].entity == entity {
                let ghost shown = self@;
                self.entries.remove(i);
                assert(self@ =~= shown.remove(i as int));
            } else {
                i = i + 1;
            }
            proof {
                seen = seen + 1;
            }
        }
        proof {
            if old(self).wf() {
                lemma_without_keeps_order(before, entity, self.next_id);
            }
        }
    }

    /// Removes every unit.
    pub fn clear_units(&mut self)
        ensures
            final(self)@ == Seq::<UnitEntryModel>::empty(),
            final(self).next_id == old(self).next_id,
            final(self).wf(),
    {
        self.entries.clear();
    }

    /// The units other than the player as blockers.
    pub fn npc_blockers(&self) -> (blockers: Vec<(Position, Blocker)>)
        ensures
            blockers@ == unit_blockers(self@.filter(is_npc())),
    {
        let mut blockers: Vec<(Position, Blocker)> = Vec::new();
        let mut i: usize = 0;
        while i < self.entries.len()
            invariant
                0 <= i <= self.entries@.len(),
                blockers@ == unit_blockers(self@.take(i as int).filter(is_npc())),
            decreases self.entries@.len() - i,
        {
            proof {
                assert(self@.take(i + 1) =~= self@.take(i as int).push(self@[i as int]));
                self@.take(i as int).lemma_filter_push(self@[i as int], is_npc());
            }
            if self.entries[i].unit.kind != UnitKind::Player {
                blockers.push((self.entries[i].position, self.entries[i].blocker));
            }
            i = i + 1;
        }
        assert(self@.take(i as int) =~= self@);
        blockers
    }

    /// Where the units other than the player stand.
    pub fn npc_positions(&self) -> (positions: Vec<Vector2Int>)
        ensures
            positions@ == unit_positions(self@.filter(is_npc())),
    {
        let mut positions: Vec<Vector2Int> = Vec::new();
        let mut i: usize = 0;
        while i < self.entries.len()
            invariant
                0 <= i <= self.entries@.len(),
                positions@ == unit_positions(self@.take(i as int).filter(is_npc())),
            decreases self.entries@.len() - i,
        {
            proof {
                assert(self@.take(i + 1) =~= self@.take(i as int).push(self@[i as int]));
                self@.take(i as int).lemma_filter_push(self@[i as int], is_npc());
            }
            if self.entries[i].unit.kind != UnitKind::Player {
                positions.push(self.entries[i].position.v);
            }
            i = i + 1;
        }
        assert(self@.take(i as int) =~= self@);
        positions
    }

    /// The names of the units other than the player.
    pub fn npc_names(&self) -> (names: Vec<Entity>)
        ensures
            names@ == unit_names(self@.filter(is_npc())),
    {
        let mut names: Vec<Entity> = Vec::new();
        let mut i: usize = 0;
        while i < self.entries.len()
            invariant
                0 <= i <= self.entries@.len(),
                names@ == unit_names(self@.take(i as int).filter(is_npc())),
            decreases self.entries@.len() - i,
        {
            proof {
                assert(self@.take(i + 1) =~= self@.take(i as int).push(self@[i as int]));
                self@.take(i as int).lemma_filter_push(self@[i as int], is_npc());
            }
            if self.entries[i].unit.kind != UnitKind::Player {
                names.push(self.entries[i].entity);
            }
            i = i + 1;
        }
        assert(self@.take(i as int) =~= self@);
        names
    }

    /// The place of the unit called `entity`, if it is not the player.
    pub fn find_npc(&self, entity: Entity) -> (found: Option<usize>)
        ensures
            found matches Some(i) ==> acting_npc(self@, entity) == Some(i as int) && i
                < self@.len(),
            found is None ==> acting_npc(self@, entity) is None,
    {
        match self.find(entity) {
            Some(i) => {
                if self.entries[i].unit.kind != UnitKind::Player {
                    Some(i)
                } else {
                    None
                }
            },
            None => None,
        }
    }

    /// The units as blockers.
    pub fn blockers(&self) -> (blockers: Vec<(Position, Blocker)>)
        ensures
            blockers@ == unit_blockers(self@),
    {
        let mut blockers: Vec<(Position, Blocker)> = Vec::new();
        let mut i: usize = 0;
        while i < self.entries.len()
            invariant
                0 <= i <= self.entries@.len(),
                blockers@ == unit_blockers(self@).take(i as int),
            decreases self.entries@.len() - i,
        {
            blockers.push((self.entries[i].position, self.entries[i].blocker));
            i = i + 1;
        }
        blockers
    }
}

/// Taking a unit out of a table keeps the names of the others in order.
pub proof fn lemma_without_keeps_order(units: Seq<UnitEntryModel>, entity: Entity, next_id: u32)
    requires
        names_in_order(units, next_id),
    ensures
        names_in_order(without(units, entity), next_id),
    decreases units.len(),
{
    let keep = |entry: UnitEntryModel| entry.entity != entity;
    reveal(Seq::filter);
    if units.len() > 0 {
        let rest = units.drop_last();
        lemma_without_keeps_order(rest, entity, next_id);
        let kept = rest.filter(keep);
        assert forall|i: int| 0 <= i < kept.len() implies (#[trigger] kept[i]).entity.id
            < units.last().entity.id by {
            rest.lemma_filter_contains_rev(keep, kept[i]);
        }
    }
}

/// The place of the first unit other than `entity` that stands on `v`.
pub fn find_met(entity: Entity, v: Vector2Int, units: &Units) -> (found: Option<usize>)
    ensures
        found matches Some(i) ==> first_match(units@, meets(entity, v)) == Some(i as int),
        found is None ==> first_match(units@, meets(entity, v)) is None,
{
    let mut i: usize = 0;
    while i < units.entries.len()
        invariant
            0 <= i <= units.entries@.len(),
            forall|j: int| 0 <= j < i ==> !meets(entity, v)(#[trigger] units@[j]),
        decreases units.entries@.len() - i,
    {
        if units.entries[i].entity != entity && units.entries[i].position.v == v {
            proof {
                lemma_first_match_found(units@, meets(entity, v), i as int);
            }
            return Some(i);
        }
        i = i + 1;
    }
    None
}

} // verus!
