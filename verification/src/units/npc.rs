//! The units that play by themselves: the order in which they move, how each
//! picks its move, and what follows from it.

use crate::board::Blocker;
use crate::board::Board;
use crate::board::Position;
use crate::board::tile::tile_interaction;
use crate::board::tile::TileInteractionEvent;
use crate::board::tile::units_after_tile;
use crate::board::utils::get_spawn_position;
use crate::board::utils::is_taken;
use crate::board::utils::spec_possible_spawn_positions;
use crate::command::armor_after_attack;
use crate::command::attack_unit;
use crate::command::unit_named;
use crate::command::units_after_attack;
use crate::command::with_unit;
use crate::search::first_match;
use crate::states::AnimationState;
use crate::states::GameState;
use crate::units::BASE_AP;
use crate::units::data::get_unit_behaviour;
use crate::units::data::npc_types;
use crate::units::data::spec_unit_behaviour;
use crate::units::Entity;
use crate::units::player::has_player;
use crate::units::player::player_of;
use crate::units::player::PlayerData;
use crate::units::player::PlayerDataModel;
use crate::units::table::acting_npc;
use crate::units::table::find_met;
use crate::units::table::is_npc;
use crate::units::table::meets;
use crate::units::table::named;
use crate::units::table::unit_blockers;
use crate::units::table::unit_names;
use crate::units::table::unit_positions;
use crate::units::table::UnitEntryModel;
use crate::units::table::Units;
use crate::units::Unit;
use crate::units::UnitKind;
use crate::units::UnitModel;
use crate::units::UnitState;
use crate::units::utils::get_npc_set;
use crate::units::utils::total_rank;
use crate::vectors::Vector2Int;
use std::collections::VecDeque;
use vstd::prelude::*;

verus! {

/// What a move onto a cell that another of these units holds is rated worse
/// by, in hundredths of a cell.
pub const OCCUPIED_PENALTY: u64 = 5000;

/// The units that have yet to move in this turn, and the one whose move is
/// being shown.
pub struct NPCQueue {
    pub npcs: VecDeque<Entity>,
    pub current: Option<Entity>,
}

/// What the queue holds, whatever holds it.
pub struct QueueModel {
    pub npcs: Seq<Entity>,
    pub current: Option<Entity>,
}

impl View for NPCQueue {
    type V = QueueModel;

    open spec fn view(&self) -> QueueModel {
        QueueModel { npcs: self.npcs@, current: self.current }
    }
}

impl NPCQueue {
    /// An empty queue, with no unit moving.
    pub fn new() -> (queue: NPCQueue)
        ensures
            queue@ == (QueueModel { npcs: Seq::empty(), current: None }),
    {
        NPCQueue { npcs: VecDeque::new(), current: None }
    }
}

/// How a move to `v` is rated: by the distance to the player, and worse by
/// `OCCUPIED_PENALTY` where another of these units stands on `v`. Less is
/// better.
pub open spec fn move_score(v: Vector2Int, player: Vector2Int, npc_positions: Seq<Vector2Int>)
    -> int {
    v.spec_dist_hundredths(player) + if npc_positions.contains(v) {
        OCCUPIED_PENALTY as int
    } else {
        0
    }
}

/// Whether the move at place `i` is the best of `positions`: none is rated
/// better, and all before it are rated worse.
pub open spec fn is_best_move(
    positions: Seq<Vector2Int>,
    player: Vector2Int,
    npc_positions: Seq<Vector2Int>,
    i: int,
) -> bool {
    &&& 0 <= i < positions.len()
    &&& forall|j: int|
        0 <= j < positions.len() ==> move_score(positions[i], player, npc_positions)
            <= move_score(#[trigger] positions[j], player, npc_positions)
    &&& forall|j: int|
        0 <= j < i ==> move_score(positions[i], player, npc_positions) < move_score(
            #[trigger] positions[j],
            player,
            npc_positions,
        )
}

/// The best of `positions`: the first of those with the lowest score.
pub open spec fn best_move(
    positions: Seq<Vector2Int>,
    player: Vector2Int,
    npc_positions: Seq<Vector2Int>,
) -> Option<Vector2Int> {
    if positions.len() == 0 {
        None
    } else {
        Some(positions[choose|i: int| is_best_move(positions, player, npc_positions, i)])
    }
}

/// Only one place holds the best move.
pub proof fn lemma_best_move_found(
    positions: Seq<Vector2Int>,
    player: Vector2Int,
    npc_positions: Seq<Vector2Int>,
    i: int,
)
    requires
        is_best_move(positions, player, npc_positions, i),
    ensures
        best_move(positions, player, npc_positions) == Some(positions[i]),
{
}

/// Rates a move to `v`.
pub fn rate_move(
    v: Vector2Int,
    player_position: &Position,
    npc_positions: &Vec<Vector2Int>,
) -> (score: u64)
    ensures
        score == move_score(v, player_position.v, npc_positions@),
{
    let distance: u64 = v.dist_hundredths(player_position.v);
    if is_taken(npc_positions, v) {
        distance + OCCUPIED_PENALTY
    } else {
        distance
    }
}

/// The move that the unit on `source` picks: of the cells open to it, the
/// one rated best. It has none where no cell is open to it.
pub fn get_best_move(
    unit: &Unit,
    source: Vector2Int,
    board: &Board,
    blockers: &Vec<(Position, Blocker)>,
    player_position: &Position,
    npc_positions: &Vec<Vector2Int>,
) -> (best: Option<Vector2Int>)
    ensures
        best == best_move(
            unit@.behaviour.possible_positions(source, board, blockers@),
            player_position.v,
            npc_positions@,
        ),
{
    let positions = unit.behaviour.possible_positions(source, board, blockers);
    if positions.len() == 0 {
        return None;
    }
    let mut best: usize = 0;
    let mut best_score: u64 = rate_move(positions[0], player_position, npc_positions);
    let mut i: usize = 1;
    while i < positions.len()
        invariant
            1 <= i <= positions@.len(),
            0 <= best < i,
            best_score == move_score(positions@[best as int], player_position.v, npc_positions@),
            forall|j: int|
                0 <= j < i ==> best_score <= move_score(
                    #[trigger] positions@[j],
                    player_position.v,
                    npc_positions@,
                ),
            forall|j: int|
                0 <= j < best ==> best_score < move_score(
                    #[trigger] positions@[j],
                    player_position.v,
                    npc_positions@,
                ),
        decreases positions@.len() - i,
    {
        let score: u64 = rate_move(positions[i], player_position, npc_positions);
        if score < best_score {
            best = i;
            best_score = score;
        }
        i = i + 1;
    }
    proof {
        lemma_best_move_found(positions@, player_position.v, npc_positions@, best as int);
    }
    Some(positions[best])
}

/// Starts the turn of the units that play by themselves: all of them queue
/// up in their order, and none is moving yet.
pub fn start_npc_turn(units: &Units, queue: &mut NPCQueue)
    ensures
        final(queue)@ == (QueueModel {
            npcs: unit_names(units@.filter(is_npc())),
            current: None,
        }),
{
    let names = units.npc_names();
    let mut npcs: VecDeque<Entity> = VecDeque::new();
    let mut i: usize = 0;
    while i < names.len()
        invariant
            0 <= i <= names@.len(),
            npcs@ == names@.take(i as int),
        decreases names@.len() - i,
    {
        npcs.push_back(names[i]);
        i = i + 1;
    }
    assert(names@.take(i as int) =~= names@);
    queue.npcs = npcs;
    queue.current = None;
}

/// What stands in the way of a unit that plays by itself: the walls, the
/// player and all the units like itself.
pub open spec fn npc_turn_blockers(units: Seq<UnitEntryModel>, board: &Board) -> Seq<
    (Position, Blocker),
> {
    board.spec_wall_blockers() + seq![(player_of(units).position, player_of(units).blocker)]
        + unit_blockers(units.filter(is_npc()))
}

/// The move that the unit at place `i` picks, with a player on the board.
pub open spec fn npc_destination(units: Seq<UnitEntryModel>, board: &Board, i: int) -> Option<
    Vector2Int,
> {
    best_move(
        units[i].unit.behaviour.possible_positions(
            units[i].position.v,
            board,
            npc_turn_blockers(units, board),
        ),
        player_of(units).position.v,
        unit_positions(units.filter(is_npc())),
    )
}

/// The units with the turn of the one at place `i` started.
pub open spec fn with_turn_started(units: Seq<UnitEntryModel>, i: int) -> Seq<UnitEntryModel> {
    units.update(i, UnitEntryModel { unit: units[i].unit.turn_started(), ..units[i] })
}

/// Whether the unit called `entity` takes its move: there is such a unit, it
/// is not the player, its turn starts with action points to spend, and there
/// is a player to move toward.
pub open spec fn npc_takes_move(units: Seq<UnitEntryModel>, entity: Entity) -> bool {
    acting_npc(units, entity) matches Some(i) && with_turn_started(units, i)[i].unit.ap > 0
        && has_player(with_turn_started(units, i))
}

/// Whether a move is shown after the unit called `entity` had its go: also
/// where no such unit is left, as long as there is a player; but not where
/// the unit has no action points to spend.
pub open spec fn npc_move_shown(units: Seq<UnitEntryModel>, entity: Entity) -> bool {
    match acting_npc(units, entity) {
        Some(i) => npc_takes_move(units, entity),
        None => has_player(units),
    }
}

/// The units after the one called `entity` had its go: its turn has started,
/// and where it takes its move and has one to pick, it stands on the cell it
/// picked.
pub open spec fn units_after_npc_move(units: Seq<UnitEntryModel>, board: &Board, entity: Entity)
    -> Seq<UnitEntryModel> {
    match acting_npc(units, entity) {
        Some(i) => {
            let ready = with_turn_started(units, i);
            if !npc_takes_move(units, entity) {
                ready
            } else {
                match npc_destination(ready, board, i) {
                    Some(v) => ready.update(
                        i,
                        UnitEntryModel { position: Position { v }, ..ready[i] },
                    ),
                    None => ready,
                }
            }
        },
        None => units,
    }
}

/// Whether a unit leaves the queue: none is moving, and the queue is not
/// empty.
pub open spec fn npc_is_due(queue: QueueModel) -> bool {
    queue.current is None && queue.npcs.len() > 0
}

/// The queue after the next unit had its go: the unit has left the queue,
/// and it is the one moving now if it takes its move.
pub open spec fn queue_after_npc_move(queue: QueueModel, units: Seq<UnitEntryModel>)
    -> QueueModel {
    if npc_is_due(queue) {
        QueueModel {
            npcs: queue.npcs.skip(1),
            current: if npc_takes_move(units, queue.npcs[0]) {
                Some(queue.npcs[0])
            } else {
                None
            },
        }
    } else {
        queue
    }
}

/// The phase after that: the player's turn once no unit is moving and none
/// is left in the queue.
pub open spec fn phase_after_npc_move(queue: QueueModel, game_state: GameState) -> GameState {
    if queue.current is None && queue.npcs.len() == 0 {
        GameState::PlayerTurn
    } else {
        game_state
    }
}

/// Whether a move is being shown after that.
pub open spec fn animation_after_npc_move(
    queue: QueueModel,
    units: Seq<UnitEntryModel>,
    animation_state: AnimationState,
) -> AnimationState {
    if npc_is_due(queue) && npc_move_shown(units, queue.npcs[0]) {
        AnimationState::Animating
    } else {
        animation_state
    }
}

/// Lets the next unit in the queue have its go. While a unit's move is being
/// shown, nothing happens. With the queue empty, the player's turn begins.
/// Otherwise exactly one unit leaves the queue; if it takes its move, it
/// becomes the unit whose move is being shown.
pub fn move_npc(
    queue: &mut NPCQueue,
    units: &mut Units,
    board: &Board,
    game_state: &mut GameState,
    animation_state: &mut AnimationState,
)
    ensures
        final(queue)@ == queue_after_npc_move(old(queue)@, old(units)@),
        final(units)@ == if npc_is_due(old(queue)@) {
            units_after_npc_move(old(units)@, board, old(queue).npcs@[0])
        } else {
            old(units)@
        },
        final(units).next_id == old(units).next_id,
        old(units).wf() ==> final(units).wf(),
        *final(game_state) == phase_after_npc_move(old(queue)@, *old(game_state)),
        *final(animation_state) == animation_after_npc_move(
            old(queue)@,
            old(units)@,
            *old(animation_state),
        ),
{
    if queue.current.is_some() {
        return ;
    }
    let entity = match queue.npcs.pop_front() {
        Some(entity) => entity,
        None => {
            *game_state = GameState::PlayerTurn;
            return ;
        },
    };
    let found = units.find_npc(entity);
    if let Some(i) = found {
        units.entries[i].unit.handle_turn_start();
        assert(units@ =~= with_turn_started(old(units)@, i as int));
        if units.entries[i].unit.ap == 0 {
            return ;
        }
    }
    let player = match units.find_player() {
        Some(player) => player,
        None => {
            return ;
        },
    };
    if let Some(i) = found {
        let mut blockers = board.wall_blockers();
        blockers.push((units.entries[player].position, units.entries[player].blocker));
        let mut others = units.npc_blockers();
        blockers.append(&mut others);
        let npc_positions = units.npc_positions();
        assert(blockers@ =~= npc_turn_blockers(units@, board));
        let new_position = get_best_move(
            &units.entries[i].unit,
            units.entries[i].position.v,
            board,
            &blockers,
            &units.entries[player].position,
            &npc_positions,
        );
        let ghost ready = units@;
        if let Some(v) = new_position {
            units.entries[i].position.v = v;
            assert(units@ =~= ready.update(
                i as int,
                UnitEntryModel { position: Position { v }, ..ready[i as int] },
            ));
        }
        queue.current = Some(entity);
    }
    *animation_state = AnimationState::Animating;
}

/// The units with the move of the one called `entity` ended.
pub open spec fn with_move_ended(units: Seq<UnitEntryModel>, entity: Entity) -> Seq<
    UnitEntryModel,
> {
    with_unit(units, entity, unit_named(units, entity).move_ended())
}

/// The name of the unit that the one called `entity` has moved onto, if it
/// has moved onto one.
pub open spec fn met_by(units: Seq<UnitEntryModel>, entity: Entity) -> Option<Entity> {
    match first_match(units, named(entity)) {
        Some(i) => match first_match(units, meets(entity, units[i].position.v)) {
            Some(j) => Some(units[j].entity),
            None => None,
        },
        None => None,
    }
}

/// The units after the move of the one called `entity` has been resolved:
/// the unit it has moved onto is attacked, its move ends, and the tile it
/// stands on works on it.
pub open spec fn units_after_npc_tick(
    units: Seq<UnitEntryModel>,
    armor: u8,
    entity: Entity,
    board: &Board,
) -> Seq<UnitEntryModel> {
    let attacked = match met_by(units, entity) {
        Some(other) => units_after_attack(units, armor, entity, other),
        None => units,
    };
    units_after_tile(with_move_ended(attacked, entity), entity, board)
}

/// The player's armor after that.
pub open spec fn armor_after_npc_tick(units: Seq<UnitEntryModel>, armor: u8, entity: Entity)
    -> int {
    match met_by(units, entity) {
        Some(other) => armor_after_attack(units, armor, entity, other),
        None => armor as int,
    }
}

/// Whether a move is resolved: it is the turn of these units, and one of
/// them is moving.
pub open spec fn npc_move_is_due(game_state: GameState, queue: QueueModel) -> bool {
    game_state == GameState::NPCTurn && queue.current is Some
}

/// Resolves the move of the unit whose move was being shown: the attack on
/// the unit that it has moved onto, the end of its move, and the effect of
/// the tile. After that no unit's move is being shown. Outside the turn of
/// these units, and while none of them is moving, nothing happens.
pub fn tick(
    game_state: &GameState,
    queue: &mut NPCQueue,
    units: &mut Units,
    player_data: &mut PlayerData,
    board: &Board,
)
    ensures
        final(queue)@ == if npc_move_is_due(*game_state, old(queue)@) {
            QueueModel { current: None, ..old(queue)@ }
        } else {
            old(queue)@
        },
        final(units)@ == if npc_move_is_due(*game_state, old(queue)@) {
            units_after_npc_tick(old(units)@, old(player_data).armor, old(queue).current->0, board)
        } else {
            old(units)@
        },
        final(units).next_id == old(units).next_id,
        old(units).wf() ==> final(units).wf(),
        old(player_data).wf() ==> final(player_data).wf(),
        final(player_data)@ == if npc_move_is_due(*game_state, old(queue)@) {
            PlayerDataModel {
                armor: armor_after_npc_tick(
                    old(units)@,
                    old(player_data).armor,
                    old(queue).current->0,
                ),
                ..old(player_data)@
            }
        } else {
            old(player_data)@
        },
{
    if *game_state != GameState::NPCTurn {
        return ;
    }
    if let Some(entity) = queue.current {
        if let Some(i) = units.find(entity) {
            let v = units.entries[i].position.v;
            if let Some(j) = find_met(entity, v, units) {
                let killed = units.entries[j].entity;
                attack_unit(entity, killed, units, player_data);
            }
        }
        let ghost attacked = units@;
        if let Some(k) = units.find(entity) {
            units.entries[k].unit.handle_move_end();
            assert(units@ =~= with_move_ended(attacked, entity));
        }
        queue.current = None;
        tile_interaction(TileInteractionEvent(entity), units, board);
    }
}

/// Adds a unit of the kind on the cell, with the behaviour of its kind, the
/// action points of a turn, and open to attack. Gives back its name, or
/// nothing where no unit could be added.
pub fn spawn_npc(units: &mut Units, kind: UnitKind, v: Vector2Int) -> (entity: Option<Entity>)
    ensures
        old(units).next_id < u32::MAX ==> entity == Some(Entity { id: old(units).next_id })
            && final(units)@ == old(units)@.push(spawned_npc(old(units).next_id, kind, v))
            && final(units).next_id == old(units).next_id + 1,
        old(units).next_id == u32::MAX ==> entity is None && final(units)@ == old(units)@
            && final(units).next_id == old(units).next_id,
        old(units).wf() ==> final(units).wf(),
{
    units.spawn(
        Position { v },
        Blocker { is_targetable: true },
        Unit {
            ap: BASE_AP,
            behaviour: get_unit_behaviour(&kind),
            kind,
            state: UnitState::Active,
        },
    )
}

/// A unit of the kind, newly put on the cell `v` under the name `id`.
pub open spec fn spawned_npc(id: u32, kind: UnitKind, v: Vector2Int) -> UnitEntryModel {
    UnitEntryModel {
        entity: Entity { id },
        position: Position { v },
        blocker: Blocker { is_targetable: true },
        unit: UnitModel {
            ap: BASE_AP as int,
            behaviour: spec_unit_behaviour(kind),
            kind,
            state: UnitState::Active,
        },
    }
}

/// Whether `added` are units newly put on the board: each of a kind that
/// levels are filled with, as `spawned_npc` describes it, named in order
/// from `next_id` on.
pub open spec fn newly_spawned(added: Seq<UnitEntryModel>, next_id: u32) -> bool {
    forall|k: int|
        0 <= k < added.len() ==> npc_types().contains((#[trigger] added[k]).unit.kind) && added[k]
            == spawned_npc((next_id + k) as u32, added[k].unit.kind, added[k].position.v)
}

/// Whether each of the units stands on a tile of the board that none of the
/// positions takes, and no two of them on the same.
pub open spec fn on_free_cells(
    added: Seq<UnitEntryModel>,
    board: &Board,
    taken: Seq<Vector2Int>,
) -> bool {
    &&& forall|k: int|
        0 <= k < added.len() ==> board.has_tile((#[trigger] added[k]).position.v)
            && !taken.contains(added[k].position.v)
    &&& forall|k: int, l: int|
        0 <= k < l < added.len() ==> (#[trigger] added[k]).position.v != (
        #[trigger] added[l]).position.v
}

/// The ranks of the units, summed up.
pub open spec fn ranks_of(units: Seq<UnitEntryModel>) -> nat {
    total_rank(units.map_values(|entry: UnitEntryModel| entry.unit.kind))
}

/// Fills the level: draws kinds whose ranks sum up to `rank_sum`, and puts a
/// unit of each on a random free cell of its own, for as long as there are
/// free cells and names. The cells taken are added to `blocker_positions`.
pub fn spawn_npcs(
    units: &mut Units,
    blocker_positions: &mut Vec<Vector2Int>,
    board: &Board,
    rank_sum: u32,
)
    ensures
        old(units)@.len() <= final(units)@.len(),
        final(units)@.take(old(units)@.len() as int) == old(units)@,
        newly_spawned(final(units)@.skip(old(units)@.len() as int), old(units).next_id),
        final(units).next_id == old(units).next_id + (final(units)@.len() - old(units)@.len()),
        final(blocker_positions)@ == old(blocker_positions)@ + unit_positions(
            final(units)@.skip(old(units)@.len() as int),
        ),
        on_free_cells(
            final(units)@.skip(old(units)@.len() as int),
            board,
            old(blocker_positions)@,
        ),
        ranks_of(final(units)@.skip(old(units)@.len() as int)) <= rank_sum,
        ranks_of(final(units)@.skip(old(units)@.len() as int)) == rank_sum || final(units).next_id
            == u32::MAX || spec_possible_spawn_positions(final(blocker_positions)@, board).len()
            == 0,
        old(units).wf() ==> final(units).wf(),
{
    let kinds = get_npc_set(rank_sum);
    let ghost mut skipped = false;
    let ghost before = units@;
    let ghost taken = blocker_positions@;
    let mut i: usize = 0;
    while i < kinds.len()
        invariant
            0 <= i <= kinds@.len(),
            before == old(units)@,
            taken == old(blocker_positions)@,
            forall|k: int| 0 <= k < kinds@.len() ==> npc_types().contains(#[trigger] kinds@[k]),
            before.len() <= units@.len(),
            units@.take(before.len() as int) == before,
            newly_spawned(units@.skip(before.len() as int), old(units).next_id),
            units.next_id == old(units).next_id + (units@.len() - before.len()),
            blocker_positions@ == taken + unit_positions(units@.skip(before.len() as int)),
            forall|k: int|
                before.len() <= k < units@.len() ==> board.has_tile(
                    (#[trigger] units@[k]).position.v,
                ) && !taken.contains(units@[k].position.v),
            forall|k: int, l: int|
                before.len() <= k < l < units@.len() ==> (#[trigger] units@[k]).position.v != (
                #[trigger] units@[l]).position.v,
            old(units).wf() ==> units.wf(),
            total_rank(kinds@) == rank_sum,
            ranks_of(units@.skip(before.len() as int)) <= total_rank(kinds@.take(i as int)),
            !skipped ==> ranks_of(units@.skip(before.len() as int)) == total_rank(
                kinds@.take(i as int),
            ),
            skipped ==> units.next_id == u32::MAX || spec_possible_spawn_positions(
                blocker_positions@,
                board,
            ).len() == 0,
        decreases kinds@.len() - i,
    {
        let kind = kinds[i];
        proof {
            assert(kinds@.take(i + 1).drop_last() =~= kinds@.take(i as int));
        }
        i = i + 1;
        let position = get_spawn_position(blocker_positions, board);
        proof {
            if position is None || units.next_id == u32::MAX {
                skipped = true;
            }
        }
        if let Some(v) = position {
            let ghost shown = units@;
            let ghost held = blocker_positions@;
            let spawned = spawn_npc(units, kind, v);
            if spawned.is_some() {
                blocker_positions.push(v);
                proof {
                    let free = |p: Vector2Int| !held.contains(p);
                    let cells = Seq::new(board.tile_count(), |c: int| crate::board::cell_at(c));
                    cells.lemma_filter_contains_rev(free, v);
                    assert(units@.skip(before.len() as int) =~= shown.skip(
                        before.len() as int,
                    ).push(units@.last()));
                    let kind_of = |entry: UnitEntryModel| entry.unit.kind;
                    assert(units@.skip(before.len() as int).map_values(kind_of).drop_last()
                        =~= shown.skip(before.len() as int).map_values(kind_of));
                    assert forall|k: int| before.len() <= k < shown.len() implies (
                    #[trigger] units@[k]).position.v != v by {
                        assert(held[taken.len() + (k - before.len())] == shown[k].position.v);
                    }
                    assert forall|k: int| before.len() <= k < units@.len() implies !taken.contains(
                        (#[trigger] units@[k]).position.v,
                    ) by {
                        if k == shown.len() {
                            if taken.contains(v) {
                                let t = choose|t: int| 0 <= t < taken.len() && taken[t] == v;
                                assert(held[t] == v);
                            }
                        }
                    }
                }
            }
        }
    }
    assert(kinds@.take(i as int) =~= kinds@);
}

} // verus!
