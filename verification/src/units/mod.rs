//! Units: their kinds, their action points, and what a turn does to them.

pub mod action;
pub mod behaviour;
pub mod data;
pub mod laws;
pub mod npc;
pub mod player;
pub mod table;
pub mod utils;

use crate::board::Blocker;
use crate::board::Board;
use crate::board::Position;
use crate::board::utils::spec_possible_spawn_positions;
use crate::search::first_match;
use crate::states::GameState;
use crate::units::action::blocked_at;
use crate::units::behaviour::Behaviour;
use crate::units::behaviour::BehaviourModel;
use crate::units::npc::newly_spawned;
use crate::units::npc::ranks_of;
use crate::units::npc::spawn_npcs;
use crate::units::player::PlayerData;
use crate::units::player::PlayerDataModel;
use crate::units::player::spawn_player;
use crate::units::table::find_met;
use crate::units::table::meets;
use crate::units::table::unit_positions;
use crate::units::table::UnitEntryModel;
use crate::units::table::Units;
use crate::vectors::floor_sqrt;
use crate::vectors::integer_sqrt;
use crate::vectors::Vector2Int;
use vstd::prelude::*;

verus! {


/// The action points that a unit other than the player starts a turn with.
pub const BASE_AP: u8 = 1;

/// The action points that the player starts a turn with.
pub const PLAYER_BASE_AP: u8 = 2;

/// The name under which a unit is known for as long as it lives.
#[derive(Debug, Clone, Copy, PartialEq, Eq, Hash, Structural)]
pub struct Entity {
    pub id: u32,
}

/// What a unit is: the player, or one of the kinds that play by themselves.
#[derive(Debug, Clone, Copy, PartialEq, Eq, Hash, Structural)]
pub enum UnitKind {
    Player,
    Turtle,
    Rat,
    Frog,
    Goblin,
    Knight,
}

/// A paused unit sits out its next turn.
#[derive(Debug, Clone, Copy, PartialEq, Eq, Hash, Structural)]
pub enum UnitState {
    Active,
    Paused,
}

/// A unit: its action points, the behaviour it moves by, its kind, and
/// whether it is paused.
#[derive(Debug)]
pub struct Unit {
    pub ap: u8,
    pub behaviour: Behaviour,
    pub kind: UnitKind,
    pub state: UnitState,
}

/// What a unit is, whatever holds it. The action points are a plain integer
/// here, so that what keeps them from falling below zero is the rules and
/// not the type.
pub struct UnitModel {
    pub ap: int,
    pub behaviour: BehaviourModel,
    pub kind: UnitKind,
    pub state: UnitState,
}

/// One of the two things a turn does to a unit's action points.
pub enum TurnEvent {
    TurnStart,
    MoveEnd,
}

/// The action points that a unit of this kind starts a turn with.
pub open spec fn base_ap(kind: UnitKind) -> int {
    if kind == UnitKind::Player {
        PLAYER_BASE_AP as int
    } else {
        BASE_AP as int
    }
}

impl UnitModel {
    /// The unit as its turn starts: an active unit gets its allowance, a
    /// paused one wakes up with nothing to spend.
    pub open spec fn turn_started(self) -> UnitModel {
        UnitModel {
            ap: if self.state == UnitState::Active {
                base_ap(self.kind)
            } else {
                0
            },
            state: UnitState::Active,
            ..self
        }
    }

    /// The unit after a move: one action point less, but never below zero.
    pub open spec fn move_ended(self) -> UnitModel {
        UnitModel {
            ap: if self.ap > 0 {
                self.ap - 1
            } else {
                0
            },
            ..self
        }
    }

    /// The unit with `ap` more action points.
    pub open spec fn with_more_ap(self, ap: int) -> UnitModel {
        UnitModel { ap: self.ap + ap, ..self }
    }

    /// The unit with no action point left.
    pub open spec fn without_ap(self) -> UnitModel {
        UnitModel { ap: 0, ..self }
    }

    /// The unit paused: it loses its action points at once.
    pub open spec fn paused(self) -> UnitModel {
        UnitModel { ap: 0, state: UnitState::Paused, ..self }
    }

    /// The unit after one event of a turn.
    pub open spec fn after_event(self, event: TurnEvent) -> UnitModel {
        match event {
            TurnEvent::TurnStart => self.turn_started(),
            TurnEvent::MoveEnd => self.move_ended(),
        }
    }

    /// The unit after the events of `events`, the first of them first.
    pub open spec fn after_events(self, events: Seq<TurnEvent>) -> UnitModel
        decreases events.len(),
    {
        if events.len() == 0 {
            self
        } else {
            self.after_events(events.drop_last()).after_event(events.last())
        }
    }
}

/// Turn starts and move ends, in any number and any order, never bring the
/// action points of a unit below zero.
pub proof fn lemma_ap_never_negative(unit: UnitModel, events: Seq<TurnEvent>)
    requires
        unit.ap >= 0,
    ensures
        unit.after_events(events).ap >= 0,
    decreases events.len(),
{
}

/// A pause costs exactly one turn: the turn that follows starts without
/// action points, and the one after that with the full allowance.
pub proof fn lemma_pause_costs_one_turn(unit: UnitModel)
    ensures
        unit.paused().turn_started().ap == 0,
        unit.paused().turn_started().state == UnitState::Active,
        unit.paused().turn_started().turn_started().ap == base_ap(unit.kind),
{
}

/// The action point that a capture gives pays for the move that made it.
pub proof fn lemma_capture_pays_for_move(unit: UnitModel)
    requires
        unit.ap >= 0,
    ensures
        unit.with_more_ap(1).move_ended() == unit,
{
}

impl View for Unit {
    type V = UnitModel;

    open spec fn view(&self) -> UnitModel {
        UnitModel {
            ap: self.ap as int,
            behaviour: self.behaviour@,
            kind: self.kind,
            state: self.state,
        }
    }
}

impl Unit {
    /// Starts the unit's turn.
    pub fn handle_turn_start(&mut self)
        ensures
            final(self)@ == old(self)@.turn_started(),
    {
        match self.state {
            UnitState::Active => {
                self.ap = match self.kind {
                    UnitKind::Player => PLAYER_BASE_AP,
                    _ => BASE_AP,
                };
            },
            UnitState::Paused => {
                self.state = UnitState::Active;
                self.ap = 0;
            },
        }
    }

    /// Ends a move of the unit. Says whether the unit has no action point
    /// left.
    pub fn handle_move_end(&mut self) -> (spent: bool)
        ensures
            final(self)@ == old(self)@.move_ended(),
            spent == (final(self).ap == 0),
    {
        self.ap = self.ap.saturating_sub(1);
        self.ap == 0
    }

    /// Ends the unit's turn after a move: the same step as `handle_move_end`.
    pub fn handle_turn_end(&mut self) -> (spent: bool)
        ensures
            final(self)@ == old(self)@.move_ended(),
            spent == (final(self).ap == 0),
    {
        self.handle_move_end()
    }
}

/// The first unit other than `entity` that stands on `position`.
pub fn check_unit_interaction(entity: Entity, position: &Position, units: &Units) -> (other:
    Option<Entity>)
    ensures
        other == match first_match(units@, meets(entity, position.v)) {
            Some(i) => Some(units@[i].entity),
            None => None,
        },
{
    match find_met(entity, position.v, units) {
        Some(i) => Some(units.entries[i].entity),
        None => None,
    }
}

/// The ranks that the units of a level sum up to: the level to the power of
/// one and a half, rounded down, and no more than a `u32` holds.
pub open spec fn spec_level_strength(level: int) -> int {
    if floor_sqrt(level * level * level) <= u32::MAX {
        floor_sqrt(level * level * level)
    } else {
        u32::MAX as int
    }
}

/// The ranks that the units of this level sum up to.
pub fn level_strength(level: u32) -> (strength: u32)
    ensures
        strength == spec_level_strength(level as int),
{
    let wide: u128 = level as u128;
    assert(wide * wide <= 0xFFFF_FFFF * 0xFFFF_FFFF) by (nonlinear_arith)
        requires
            0 <= wide <= 0xFFFF_FFFF,
    ;
    assert(wide * wide * wide <= 0xFFFF_FFFF * 0xFFFF_FFFF * 0xFFFF_FFFF) by (nonlinear_arith)
        requires
            0 <= wide <= 0xFFFF_FFFF,
            0 <= wide * wide <= 0xFFFF_FFFF * 0xFFFF_FFFF,
    ;
    let root: u64 = integer_sqrt(wide * wide * wide);
    proof {
        crate::vectors::lemma_floor_sqrt_unique(level * level * level, root as int);
    }
    if root <= u32::MAX as u64 {
        root as u32
    } else {
        u32::MAX
    }
}

/// The player as it is put on the stair of a new level under the name `id`.
pub open spec fn spawned_player(id: u32, v: Vector2Int) -> UnitEntryModel {
    UnitEntryModel {
        entity: Entity { id },
        position: Position { v },
        blocker: Blocker { is_targetable: true },
        unit: UnitModel {
            ap: BASE_AP as int,
            behaviour: crate::units::data::spec_unit_behaviour(UnitKind::Player),
            kind: UnitKind::Player,
            state: UnitState::Active,
        },
    }
}

/// Whether `after` is `before` with the units of a new level added: the
/// player on the stair, then units of the kinds that levels are filled with,
/// each on a tile of its own on which no wall, no unit of `before` and not
/// the player stands. Where no name is left, nothing is added.
pub open spec fn level_spawned(
    before: Seq<UnitEntryModel>,
    next_id: u32,
    after: Seq<UnitEntryModel>,
    board: &Board,
) -> bool {
    &&& before.len() <= after.len()
    &&& after.take(before.len() as int) == before
    &&& next_id == u32::MAX ==> after == before
    &&& next_id < u32::MAX ==> {
        &&& before.len() < after.len()
        &&& after[before.len() as int] == spawned_player(next_id, board.stair_v)
        &&& newly_spawned(after.skip(before.len() as int + 1), (next_id + 1) as u32)
        &&& forall|k: int|
            before.len() < k < after.len() ==> {
                &&& board.has_tile((#[trigger] after[k]).position.v)
                &&& after[k].position.v != board.stair_v
                &&& !blocked_at(board.spec_wall_blockers(), after[k].position.v)
                &&& !unit_positions(before).contains(after[k].position.v)
            }
        &&& forall|k: int, l: int|
            before.len() < k < l < after.len() ==> (#[trigger] after[k]).position.v != (
            #[trigger] after[l]).position.v
    }
}

/// The cells that the walls of the board and the units take.
pub open spec fn taken_cells(units: Seq<UnitEntryModel>, board: &Board) -> Seq<Vector2Int> {
    board.spec_wall_blockers().map_values(|blocker: (Position, Blocker)| blocker.0.v)
        + unit_positions(units)
}

/// Whether the level is as full as it can get: the ranks of the units added
/// after the player sum up to the strength of the level, or no name or no
/// free cell is left for another unit.
pub open spec fn level_filled(
    before: Seq<UnitEntryModel>,
    after: Seq<UnitEntryModel>,
    next_id: u32,
    level: int,
    board: &Board,
) -> bool {
    &&& before.len() < after.len() ==> ranks_of(after.skip(before.len() as int + 1))
        <= spec_level_strength(level)
    &&& {
        ||| before.len() < after.len() && ranks_of(after.skip(before.len() as int + 1))
            == spec_level_strength(level)
        ||| next_id == u32::MAX
        ||| spec_possible_spawn_positions(taken_cells(after, board), board).len() == 0
    }
}

/// Begins a level: the level counter goes up by one, and where there is a
/// board, the player and the other units of the level are put on it and the
/// player's turn begins.
pub fn spawn_units(
    units: &mut Units,
    board: &Option<Board>,
    player_data: &mut PlayerData,
    game_state: &mut GameState,
)
    requires
        old(player_data).level < u32::MAX,
    ensures
        old(player_data).wf() ==> final(player_data).wf(),
        final(player_data)@ == (PlayerDataModel {
            level: old(player_data).level + 1,
            ..old(player_data)@
        }),
        board is None ==> final(units)@ == old(units)@ && *final(game_state) == *old(game_state),
        board matches Some(level) ==> level_spawned(
            old(units)@,
            old(units).next_id,
            final(units)@,
            &level,
        ) && level_filled(
            old(units)@,
            final(units)@,
            final(units).next_id,
            old(player_data).level + 1,
            &level,
        ) && *final(game_state) == GameState::PlayerTurn,
        final(units).next_id == old(units).next_id + (final(units)@.len() - old(units)@.len()),
        old(units).wf() ==> final(units).wf(),
{
    player_data.level = player_data.level + 1;
    let board = match board {
        Some(board) => board,
        None => {
            return ;
        },
    };
    let walls = board.wall_blockers();
    let mut blocker_positions: Vec<Vector2Int> = Vec::new();
    let mut i: usize = 0;
    while i < walls.len()
        invariant
            0 <= i <= walls@.len(),
            blocker_positions@.len() == i,
            forall|k: int| 0 <= k < i ==> blocker_positions@[k] == (#[trigger] walls@[k]).0.v,
        decreases walls@.len() - i,
    {
        blocker_positions.push(walls[i].0.v);
        i = i + 1;
    }
    let mut j: usize = 0;
    while j < units.entries.len()
        invariant
            0 <= j <= units.entries@.len(),
            blocker_positions@.len() == walls@.len() + j,
            forall|k: int|
                0 <= k < walls@.len() ==> blocker_positions@[k] == (#[trigger] walls@[k]).0.v,
            forall|k: int|
                0 <= k < j ==> blocker_positions@[walls@.len() + k] == (
                #[trigger] units@[k]).position.v,
        decreases units.entries@.len() - j,
    {
        blocker_positions.push(units.entries[j].position.v);
        j = j + 1;
    }
    let ghost before = units@;
    match spawn_player(units, board) {
        Some(v) => {
            blocker_positions.push(v);
        },
        None => {},
    }
    let ghost with_player = units@;
    let ghost taken = blocker_positions@;
    spawn_npcs(units, &mut blocker_positions, board, level_strength(player_data.level));
    *game_state = GameState::PlayerTurn;
    proof {
        if old(units).next_id < u32::MAX {
            assert(units@ =~= with_player + units@.skip(with_player.len() as int));
            assert(blocker_positions@ =~= taken_cells(units@, board));
            assert(units@.take(before.len() as int) =~= with_player.take(before.len() as int));
            assert(with_player.take(before.len() as int) =~= before);
            assert forall|k: int| before.len() < k < units@.len() implies {
                &&& board.has_tile((#[trigger] units@[k]).position.v)
                &&& units@[k].position.v != board.stair_v
                &&& !blocked_at(board.spec_wall_blockers(), units@[k].position.v)
                &&& !unit_positions(before).contains(units@[k].position.v)
            } by {
                let p = units@[k].position.v;
                assert(taken[walls@.len() as int + before.len()] == board.stair_v);
                if blocked_at(board.spec_wall_blockers(), p) {
                    let w = choose|w: int| 0 <= w < walls@.len() && (#[trigger] walls@[w]).0.v == p;
                    assert(taken[w] == p);
                }
                if unit_positions(before).contains(p) {
                    let u = choose|u: int|
                        0 <= u < before.len() && unit_positions(before)[u] == p;
                    assert(taken[walls@.len() as int + u] == p);
                }
            }
        } else {
            assert(units@ =~= before);
        }
    }
}

/// Removes every unit.
pub fn clear_units(units: &mut Units)
    ensures
        final(units)@ == Seq::<UnitEntryModel>::empty(),
        final(units).next_id == old(units).next_id,
        final(units).wf(),
{
    units.clear_units();
}

} // verus!
