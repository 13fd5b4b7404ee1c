//! The player: what it carries from turn to turn, and its part of a turn.

use crate::board::Blocker;
use crate::board::Board;
use crate::board::Position;
use crate::board::tile::tile_interaction;
use crate::board::tile::TileInteractionEvent;
use crate::board::tile::units_after_tile;
use crate::board::utils::is_taken;
use crate::command::armor_after_attack;
use crate::command::attack_unit;
use crate::command::units_after_attack;
use crate::items::BoardItem;
use crate::items::data::is_passive;
use crate::items::data::spec_is_passive;
use crate::items::Item;
use crate::search::first_match;
use crate::search::lemma_first_match_exists;
use crate::search::lemma_first_match_found;
use crate::states::AnimationState;
use crate::states::GameState;
use crate::units::BASE_AP;
use crate::units::behaviour::Behaviour;
use crate::units::behaviour::BehaviourModel;
use crate::units::data::get_unit_behaviour;
use crate::units::data::spec_unit_behaviour;
use crate::units::spawned_player;
use crate::units::table::find_met;
use crate::units::table::is_npc;
use crate::units::table::is_player;
use crate::units::table::meets;
use crate::units::table::named;
use crate::units::table::unit_blockers;
use crate::units::table::UnitEntryModel;
use crate::units::table::Units;
use crate::units::Entity;
use crate::units::Unit;
use crate::units::UnitKind;
use crate::units::UnitModel;
use crate::units::UnitState;
use crate::vectors::Vector2Int;
use vstd::prelude::*;

verus! {

/// The number of items that the inventory holds at most.
pub const MAX_ITEMS: usize = 3;

/// What the player keeps over the levels of a game.
#[derive(Debug)]
pub struct PlayerData {
    pub current_behaviour: Behaviour,
    pub level: u32,
    pub items: Vec<Item>,
    pub armor: u8,
}

/// What the player keeps, whatever holds it. The counters are plain
/// integers here.
pub struct PlayerDataModel {
    pub current_behaviour: BehaviourModel,
    pub level: int,
    pub items: Seq<Item>,
    pub armor: int,
}

impl PlayerDataModel {
    /// The inventory holds no more items than it may.
    pub open spec fn wf(self) -> bool {
        self.items.len() <= MAX_ITEMS
    }
}

impl PlayerData {
    /// The inventory holds no more items than it may.
    pub open spec fn wf(&self) -> bool {
        self@.wf()
    }
}

impl View for PlayerData {
    type V = PlayerDataModel;

    open spec fn view(&self) -> PlayerDataModel {
        PlayerDataModel {
            current_behaviour: self.current_behaviour@,
            level: self.level as int,
            items: self.items@,
            armor: self.armor as int,
        }
    }
}

/// The player's data at the start of a game: its own behaviour, no level
/// yet, no items, one armor.
pub fn reset_player_data() -> (data: PlayerData)
    ensures
        data@ == (PlayerDataModel {
            current_behaviour: spec_unit_behaviour(UnitKind::Player),
            level: 0,
            items: Seq::empty(),
            armor: 1,
        }),
        data.wf(),
{
    PlayerData {
        current_behaviour: get_unit_behaviour(&UnitKind::Player),
        level: 0,
        items: Vec::new(),
        armor: 1,
    }
}


/// Asks that the player move to the cell.
#[derive(Debug, Clone, Copy, PartialEq, Eq, Hash, Structural)]
pub struct MovePlayerEvent(pub Vector2Int);

/// What stands in the player's way: the walls and every unit but the player.
pub open spec fn player_blockers(units: Seq<UnitEntryModel>, board: &Board) -> Seq<
    (Position, Blocker),
> {
    board.spec_wall_blockers() + unit_blockers(units.filter(is_npc()))
}

/// The units with the player, if there is one, changed to `unit`.
pub open spec fn with_player(units: Seq<UnitEntryModel>, unit: UnitModel) -> Seq<UnitEntryModel> {
    match first_match(units, is_player()) {
        Some(i) => units.update(i, UnitEntryModel { unit, ..units[i] }),
        None => units,
    }
}

/// The player, where there is one.
pub open spec fn player_of(units: Seq<UnitEntryModel>) -> UnitEntryModel {
    units[first_match(units, is_player())->0]
}

/// Whether there is a player.
pub open spec fn has_player(units: Seq<UnitEntryModel>) -> bool {
    first_match(units, is_player()) is Some
}

/// Starts the player's turn: the player gets the action points of a new turn
/// and moves by its own pattern again. Says whether the player can act.
pub fn start_player_turn(units: &mut Units, player_data: &mut PlayerData) -> (can_act: bool)
    ensures
        final(units)@ == with_player(old(units)@, player_of(old(units)@).unit.turn_started()),
        final(units).next_id == old(units).next_id,
        old(units).wf() ==> final(units).wf(),
        old(player_data).wf() ==> final(player_data).wf(),
        final(player_data)@ == if has_player(old(units)@) {
            PlayerDataModel {
                current_behaviour: spec_unit_behaviour(UnitKind::Player),
                ..old(player_data)@
            }
        } else {
            old(player_data)@
        },
        can_act == (has_player(old(units)@) && player_of(final(units)@).unit.ap > 0),
{
    match units.find_player() {
        Some(i) => {
            units.entries[i].unit.handle_turn_start();
            player_data.current_behaviour = get_unit_behaviour(&UnitKind::Player);
            assert(units@ =~= with_player(old(units)@, player_of(old(units)@).unit.turn_started()));
            proof {
                lemma_first_match_found(units@, is_player(), i as int);
            }
            units.entries[i].unit.ap > 0
        },
        None => false,
    }
}

/// The phase that follows from the player's state: the other units' turn
/// when the player has spent its action points, the end of the game when
/// there is no player.
pub open spec fn spec_player_status(units: Seq<UnitEntryModel>, game_state: GameState)
    -> GameState {
    match first_match(units, is_player()) {
        Some(i) => if units[i].unit.ap == 0 {
            GameState::NPCTurn
        } else {
            game_state
        },
        None => GameState::GameOver,
    }
}

/// Passes the turn on once the player has spent its action points, and ends
/// the game when there is no player.
pub fn player_status(units: &Units, game_state: &mut GameState)
    ensures
        *final(game_state) == spec_player_status(units@, *old(game_state)),
{
    match units.find_player() {
        Some(i) => {
            if units.entries[i].unit.ap == 0 {
                *game_state = GameState::NPCTurn;
            }
        },
        None => {
            *game_state = GameState::GameOver;
        },
    }
}

/// Whether the player may move to `target`: no move is being shown, there is
/// a player, and `target` is one of the cells open to it.
pub open spec fn player_may_move(
    units: Seq<UnitEntryModel>,
    board: &Board,
    data: PlayerDataModel,
    animation_state: AnimationState,
    target: Vector2Int,
) -> bool {
    &&& animation_state == AnimationState::Idle
    &&& has_player(units)
    &&& data.current_behaviour.possible_positions(
        player_of(units).position.v,
        board,
        player_blockers(units, board),
    ).contains(target)
}

/// The units with the player, if there is one, moved to `v`.
pub open spec fn with_player_at(units: Seq<UnitEntryModel>, v: Vector2Int) -> Seq<UnitEntryModel> {
    match first_match(units, is_player()) {
        Some(i) => units.update(i, UnitEntryModel { position: Position { v }, ..units[i] }),
        None => units,
    }
}

/// Moves the player to the cell asked for if that is a legal move, and has
/// the move shown. A cell that is not open to the player is passed over.
pub fn move_player(
    event: MovePlayerEvent,
    units: &mut Units,
    board: &Board,
    player_data: &PlayerData,
    animation_state: &mut AnimationState,
) -> (moved: bool)
    ensures
        moved == player_may_move(
            old(units)@,
            board,
            player_data@,
            *old(animation_state),
            event.0,
        ),
        final(units)@ == if moved {
            with_player_at(old(units)@, event.0)
        } else {
            old(units)@
        },
        final(units).next_id == old(units).next_id,
        old(units).wf() ==> final(units).wf(),
        *final(animation_state) == if moved {
            AnimationState::Animating
        } else {
            *old(animation_state)
        },
{
    if *animation_state == AnimationState::Animating {
        return false;
    }
    match units.find_player() {
        Some(i) => {
            let mut blockers = board.wall_blockers();
            let mut others = units.npc_blockers();
            blockers.append(&mut others);
            let range = player_data.current_behaviour.possible_positions(
                units.entries[i].position.v,
                board,
                &blockers,
            );
            if !is_taken(&range, event.0) {
                return false;
            }
            units.entries[i].position.v = event.0;
            *animation_state = AnimationState::Animating;
            assert(units@ =~= with_player_at(old(units)@, event.0));
            true
        },
        None => false,
    }
}

/// Puts the player on the stair of the board, with its own behaviour. Gives
/// back where it stands, or nothing where no unit could be added.
pub fn spawn_player(units: &mut Units, board: &Board) -> (position: Option<Vector2Int>)
    ensures
        position == if old(units).next_id < u32::MAX {
            Some(board.stair_v)
        } else {
            None
        },
        final(units)@ == if old(units).next_id < u32::MAX {
            old(units)@.push(spawned_player(old(units).next_id, board.stair_v))
        } else {
            old(units)@
        },
        final(units).next_id == if old(units).next_id < u32::MAX {
            old(units).next_id + 1
        } else {
            old(units).next_id as int
        },
        old(units).wf() ==> final(units).wf(),
{
    let behaviour = get_unit_behaviour(&UnitKind::Player);
    let position = board.stair_v;
    let spawned = units.spawn(
        Position { v: position },
        Blocker { is_targetable: true },
        Unit { ap: BASE_AP, behaviour, kind: UnitKind::Player, state: UnitState::Active },
    );
    match spawned {
        Some(_) => Some(position),
        None => None,
    }
}

/// Whether the inventory has no room for the item.
pub open spec fn inventory_full_for(data: PlayerDataModel, item: Item) -> bool {
    !spec_is_passive(item.kind) && data.items.len() >= MAX_ITEMS
}

/// What the player keeps after it picked up the item: a passive item adds to
/// the armor, any other goes into the inventory.
pub open spec fn data_with_item(data: PlayerDataModel, item: Item) -> PlayerDataModel {
    if spec_is_passive(item.kind) {
        PlayerDataModel { armor: data.armor + 1, ..data }
    } else {
        PlayerDataModel { items: data.items.push(item), ..data }
    }
}

/// The items that are left on the board after the player, standing on `v`,
/// picked up what lies there. The items are taken in their order; the first
/// one for which the inventory has no room stays, and so does every item
/// after it.
pub open spec fn items_after_pickup(items: Seq<BoardItem>, v: Vector2Int, data: PlayerDataModel)
    -> Seq<BoardItem>
    decreases items.len(),
{
    if items.len() == 0 {
        items
    } else if items[0].position.v != v {
        seq![items[0]] + items_after_pickup(items.skip(1), v, data)
    } else if inventory_full_for(data, items[0].item) {
        items
    } else {
        items_after_pickup(items.skip(1), v, data_with_item(data, items[0].item))
    }
}

/// What the player keeps after the pickup that `items_after_pickup`
/// describes.
pub open spec fn data_after_pickup(items: Seq<BoardItem>, v: Vector2Int, data: PlayerDataModel)
    -> PlayerDataModel
    decreases items.len(),
{
    if items.len() == 0 {
        data
    } else if items[0].position.v != v {
        data_after_pickup(items.skip(1), v, data)
    } else if inventory_full_for(data, items[0].item) {
        data
    } else {
        data_after_pickup(items.skip(1), v, data_with_item(data, items[0].item))
    }
}

/// A pickup changes neither the behaviour nor the level, takes no armor
/// away, and never fills the inventory beyond what it may hold.
pub proof fn lemma_pickup_keeps(items: Seq<BoardItem>, v: Vector2Int, data: PlayerDataModel)
    ensures
        data_after_pickup(items, v, data).current_behaviour == data.current_behaviour,
        data_after_pickup(items, v, data).level == data.level,
        data_after_pickup(items, v, data).armor >= data.armor,
        data.wf() ==> data_after_pickup(items, v, data).wf(),
    decreases items.len(),
{
    if items.len() == 0 {
    } else if items[0].position.v != v {
        lemma_pickup_keeps(items.skip(1), v, data);
    } else if inventory_full_for(data, items[0].item) {
    } else {
        lemma_pickup_keeps(items.skip(1), v, data_with_item(data, items[0].item));
    }
}

/// An item that the inventory has no room for stays on the board, and the
/// inventory stays as it is, when that item is the only one on the player's
/// cell.
pub proof fn lemma_full_inventory_leaves_item(item: BoardItem, data: PlayerDataModel)
    requires
        inventory_full_for(data, item.item),
    ensures
        items_after_pickup(seq![item], item.position.v, data) == seq![item],
        data_after_pickup(seq![item], item.position.v, data) == data,
{
}

/// Picks up what lies on the player's cell.
pub fn try_pick_item(
    player_position: &Position,
    items: &mut Vec<BoardItem>,
    player_data: &mut PlayerData,
)
    requires
        data_after_pickup(old(items)@, player_position.v, old(player_data)@).armor <= u8::MAX,
    ensures
        final(items)@ == items_after_pickup(old(items)@, player_position.v, old(player_data)@),
        old(player_data).wf() ==> final(player_data).wf(),
        final(player_data)@ == data_after_pickup(
            old(items)@,
            player_position.v,
            old(player_data)@,
        ),
{
    let ghost v = player_position.v;
    let ghost left = items_after_pickup(old(items)@, v, old(player_data)@);
    let ghost kept = data_after_pickup(old(items)@, v, old(player_data)@);
    proof {
        lemma_pickup_keeps(items@, v, player_data@);
    }
    let mut i: usize = 0;
    assert(items@.skip(0) =~= items@);
    while i < items.len()
        invariant
            0 <= i <= items@.len(),
            v == player_position.v,
            left == items_after_pickup(old(items)@, v, old(player_data)@),
            kept == data_after_pickup(old(items)@, v, old(player_data)@),
            old(player_data).wf() ==> kept.wf(),
            left == items@.take(i as int) + items_after_pickup(
                items@.skip(i as int),
                v,
                player_data@,
            ),
            kept == data_after_pickup(items@.skip(i as int), v, player_data@),
            kept.armor <= u8::MAX,
        decreases items@.len() - i,
    {
        let ghost rest = items@.skip(i as int);
        assert(rest.skip(1) =~= items@.skip(i + 1));
        if items[i].position.v != player_position.v {
            i = i + 1;
        } else if !is_passive(items[i].item.kind) && player_data.items.len() >= MAX_ITEMS {
            return ;
        } else {
            let ghost shown = items@;
            let picked = items.remove(i).item;
            proof {
                assert(items@.skip(i as int) =~= shown.skip(i + 1));
                lemma_pickup_keeps(items@.skip(i as int), v, data_with_item(player_data@, picked));
            }
            if is_passive(picked.kind) {
                player_data.armor = player_data.armor + 1;
            } else {
                player_data.items.push(picked);
            }
        }
    }
}

/// The units after the player's move has been resolved against the unit, if
/// any, that it has moved onto: the player gets an action point back and the
/// other unit is attacked.
pub open spec fn units_after_capture(units: Seq<UnitEntryModel>, armor: u8) -> Seq<
    UnitEntryModel,
> {
    let player = player_of(units);
    match first_match(units, meets(player.entity, player.position.v)) {
        Some(j) => units_after_attack(
            with_player(units, player.unit.with_more_ap(1)),
            armor,
            player.entity,
            units[j].entity,
        ),
        None => units,
    }
}

/// What the player keeps after that: the behaviour of the unit it has moved
/// onto.
pub open spec fn data_after_capture(units: Seq<UnitEntryModel>, data: PlayerDataModel)
    -> PlayerDataModel {
    let player = player_of(units);
    match first_match(units, meets(player.entity, player.position.v)) {
        Some(j) => PlayerDataModel {
            current_behaviour: units[j].unit.behaviour,
            armor: armor_after_attack(
                with_player(units, player.unit.with_more_ap(1)),
                data.armor as u8,
                player.entity,
                units[j].entity,
            ),
            ..data
        },
        None => data,
    }
}

/// The units at the end of the player's move: after the capture, the
/// player's move ends, and the tile it stands on works on it.
pub open spec fn units_after_player_tick(units: Seq<UnitEntryModel>, armor: u8, board: &Board)
    -> Seq<UnitEntryModel> {
    let captured = units_after_capture(units, armor);
    let ended = with_player(captured, player_of(captured).unit.move_ended());
    units_after_tile(ended, player_of(units).entity, board)
}

/// Whether the counters have room for what the end of the player's move adds
/// to them: an action point where the player has moved onto a unit, and the
/// armor that lies on its cell.
pub open spec fn player_tick_fits(
    units: Seq<UnitEntryModel>,
    items: Seq<BoardItem>,
    data: PlayerDataModel,
) -> bool {
    let player = player_of(units);
    has_player(units) ==> {
        &&& first_match(units, meets(player.entity, player.position.v)) is Some ==> player.unit.ap
            < u8::MAX
        &&& data_after_pickup(items, player.position.v, data_after_capture(units, data)).armor
            <= u8::MAX
    }
}

/// The armor that the player has after picking up what lies on `v`, counted
/// without a limit.
fn count_armor_after_pickup(
    items: &Vec<BoardItem>,
    v: Vector2Int,
    armor: u8,
    held: usize,
    Ghost(data): Ghost<PlayerDataModel>,
) -> (total: u128)
    requires
        data.armor == armor,
        data.items.len() == held,
    ensures
        total == data_after_pickup(items@, v, data).armor,
{
    let mut total: u128 = armor as u128;
    let mut count: usize = held;
    let ghost mut now = data;
    let mut i: usize = 0;
    assert(items@.skip(0) =~= items@);
    while i < items.len()
        invariant
            0 <= i <= items@.len(),
            now.armor == total,
            now.items.len() == count,
            total <= armor + i,
            data_after_pickup(items@.skip(i as int), v, now).armor == data_after_pickup(
                items@,
                v,
                data,
            ).armor,
        decreases items@.len() - i,
    {
        let ghost rest = items@.skip(i as int);
        assert(rest.skip(1) =~= items@.skip(i + 1));
        if items[i].position.v == v {
            if is_passive(items[i].item.kind) {
                total = total + 1;
            } else if count >= MAX_ITEMS {
                return total;
            } else {
                count = count + 1;
            }
            proof {
                now = data_with_item(now, items@[i as int].item);
            }
        }
        i = i + 1;
    }
    total
}

/// Whether `tick` may be called: see `player_tick_fits`.
pub fn tick_fits(
    game_state: &GameState,
    player_data: &PlayerData,
    units: &Units,
    items: &Vec<BoardItem>,
) -> (fits: bool)
    ensures
        fits == (*game_state == GameState::PlayerTurn ==> player_tick_fits(
            units@,
            items@,
            player_data@,
        )),
{
    if *game_state != GameState::PlayerTurn {
        return true;
    }
    match units.find_player() {
        Some(i) => {
            let entity = units.entries[i].entity;
            let v = units.entries[i].position.v;
            let mut armor = player_data.armor;
            let mut has_room = true;
            match find_met(entity, v, units) {
                Some(j) => {
                    has_room = units.entries[i].unit.ap < u8::MAX;
                    proof {
                        lemma_with_player_keeps_names(
                            units@,
                            player_of(units@).unit.with_more_ap(1),
                            units@[j as int].entity,
                        );
                    }
                    match units.find(units.entries[j].entity) {
                        Some(k) => {
                            if units.entries[k].unit.kind == UnitKind::Player && armor > 0 {
                                armor = armor - 1;
                            }
                        },
                        None => {},
                    }
                },
                None => {},
            }
            let total = count_armor_after_pickup(
                items,
                v,
                armor,
                player_data.items.len(),
                Ghost(data_after_capture(units@, player_data@)),
            );
            has_room && total <= u8::MAX as u128
        },
        None => true,
    }
}

/// A change to the player leaves every unit under its name and of its kind:
/// the first unit called `entity` stands at the same place as before, and
/// is of the same kind.
pub proof fn lemma_with_player_keeps_names(
    units: Seq<UnitEntryModel>,
    unit: UnitModel,
    entity: Entity,
)
    requires
        unit.kind == UnitKind::Player || first_match(units, is_player()) is None,
    ensures
        first_match(with_player(units, unit), named(entity)) == first_match(units, named(entity)),
        first_match(units, named(entity)) matches Some(k) ==> with_player(
            units,
            unit,
        )[k].unit.kind == units[k].unit.kind,
{
    let changed = with_player(units, unit);
    match first_match(units, named(entity)) {
        Some(k) => {
            lemma_first_match_found(changed, named(entity), k);
        },
        None => {
            if first_match(changed, named(entity)) is Some {
                let k = first_match(changed, named(entity))->0;
                lemma_first_match_exists(units, named(entity), k);
            }
        },
    }
}

/// Resolves the player's move once it has been shown: the capture of the
/// unit that the player has moved onto, the pickup of what lies on its cell,
/// the end of the move, and the effect of the tile. Without a player the game
/// is over. Outside the player's turn nothing happens. Says whether anything
/// was resolved.
pub fn tick(
    game_state: &mut GameState,
    player_data: &mut PlayerData,
    units: &mut Units,
    items: &mut Vec<BoardItem>,
    board: &Board,
) -> (resolved: bool)
    requires
        *old(game_state) == GameState::PlayerTurn ==> player_tick_fits(
            old(units)@,
            old(items)@,
            old(player_data)@,
        ),
    ensures
        resolved == (*old(game_state) == GameState::PlayerTurn && has_player(old(units)@)),
        *final(game_state) == if *old(game_state) == GameState::PlayerTurn && !has_player(
            old(units)@,
        ) {
            GameState::GameOver
        } else {
            *old(game_state)
        },
        final(units)@ == if resolved {
            units_after_player_tick(old(units)@, old(player_data).armor, board)
        } else {
            old(units)@
        },
        final(units).next_id == old(units).next_id,
        old(units).wf() ==> final(units).wf(),
        final(items)@ == if resolved {
            items_after_pickup(
                old(items)@,
                player_of(old(units)@).position.v,
                data_after_capture(old(units)@, old(player_data)@),
            )
        } else {
            old(items)@
        },
        old(player_data).wf() ==> final(player_data).wf(),
        final(player_data)@ == if resolved {
            data_after_pickup(
                old(items)@,
                player_of(old(units)@).position.v,
                data_after_capture(old(units)@, old(player_data)@),
            )
        } else {
            old(player_data)@
        },
{
    if *game_state != GameState::PlayerTurn {
        return false;
    }
    let found = units.find_player();
    if found.is_none() {
        *game_state = GameState::GameOver;
        return false;
    }
    let i = found.unwrap();
    let entity = units.entries[i].entity;
    let position = units.entries[i].position;
    match find_met(entity, position.v, units) {
        Some(j) => {
            let attacked = units.entries[j].entity;
            player_data.current_behaviour = units.entries[j].unit.behaviour.clone();
            units.entries[i].unit.ap = units.entries[i].unit.ap + 1;
            assert(units@ =~= with_player(
                old(units)@,
                player_of(old(units)@).unit.with_more_ap(1),
            ));
            attack_unit(entity, attacked, units, player_data);
        },
        None => {},
    }
    try_pick_item(&position, items, player_data);
    let ghost captured = units@;
    match units.find_player() {
        Some(p) => {
            units.entries[p].unit.handle_move_end();
            assert(units@ =~= with_player(captured, player_of(captured).unit.move_ended()));
        },
        None => {},
    }
    tile_interaction(TileInteractionEvent(entity), units, board);
    true
}

} // verus!
