use rogue_tactics::board::Blocker;
use rogue_tactics::board::Board;
use rogue_tactics::board::Position;
use rogue_tactics::board::tile::Tile;
use rogue_tactics::board::tile::TileKind;
use rogue_tactics::items::BoardItem;
use rogue_tactics::items::clear_items;
use rogue_tactics::items::data::get_random_kind;
use rogue_tactics::items::data::is_passive;
use rogue_tactics::items::data::item_kind_from_roll;
use rogue_tactics::items::Item;
use rogue_tactics::items::item_appears;
use rogue_tactics::items::place_item;
use rogue_tactics::items::ItemKind;
use rogue_tactics::items::spawn_items;
use rogue_tactics::items::use_item;
use rogue_tactics::items::use_item_fits;
use rogue_tactics::items::UseItemEvent;
use rogue_tactics::states::GameState;
use rogue_tactics::units::action::Validator;
use rogue_tactics::units::behaviour::get_knight_pattern;
use rogue_tactics::units::behaviour::get_omni_pattern;
use rogue_tactics::units::data::get_unit_behaviour;
use rogue_tactics::units::Entity;
use rogue_tactics::units::player::MAX_ITEMS;
use rogue_tactics::units::player::reset_player_data;
use rogue_tactics::units::player::tick;
use rogue_tactics::units::player::tick_fits;
use rogue_tactics::units::player::try_pick_item;
use rogue_tactics::units::table::Units;
use rogue_tactics::units::Unit;
use rogue_tactics::units::UnitKind;
use rogue_tactics::units::UnitState;
use rogue_tactics::vectors::Vector2Int;

fn v(x: i32, y: i32) -> Vector2Int {
    Vector2Int::new(x, y)
}

fn unit(kind: UnitKind, ap: u8) -> Unit {
    Unit { ap, behaviour: get_unit_behaviour(&kind), kind, state: UnitState::Active }
}

fn put(units: &mut Units, kind: UnitKind, x: i32, y: i32, ap: u8) -> Entity {
    units
        .spawn(Position { v: v(x, y) }, Blocker { is_targetable: true }, unit(kind, ap))
        .unwrap()
}

fn board_with(kinds: Vec<(i32, i32, TileKind)>) -> Board {
    let mut tiles = vec![Tile { kind: TileKind::Floor }; 36];
    tiles[0] = Tile { kind: TileKind::Stair };
    for (x, y, kind) in kinds {
        tiles[(y * 6 + x) as usize] = Tile { kind };
    }
    Board { tiles, stair_v: v(0, 0) }
}

fn lying(kind: ItemKind, x: i32, y: i32) -> BoardItem {
    BoardItem { item: Item { kind }, position: Position { v: v(x, y) } }
}

#[test]
fn only_armor_is_passive() {
    assert!(is_passive(ItemKind::Armor));
    assert!(!is_passive(ItemKind::SpeedMushroom));
    assert!(!is_passive(ItemKind::StopMushroom));
}

#[test]
fn item_kind_follows_the_roll() {
    assert_eq!(item_kind_from_roll(0), ItemKind::Armor);
    assert_eq!(item_kind_from_roll(99), ItemKind::Armor);
    assert_eq!(item_kind_from_roll(100), ItemKind::StopMushroom);
    assert_eq!(item_kind_from_roll(449), ItemKind::StopMushroom);
    assert_eq!(item_kind_from_roll(450), ItemKind::SpeedMushroom);
    assert_eq!(item_kind_from_roll(999), ItemKind::SpeedMushroom);
}

#[test]
fn random_kind_draws_every_kind() {
    let mut seen = Vec::new();
    for _ in 0..2000 {
        let kind = get_random_kind();
        if !seen.contains(&kind) {
            seen.push(kind);
        }
    }
    assert_eq!(seen.len(), 3);
}

#[test]
fn item_appears_for_the_lower_half_of_the_rolls() {
    assert!(item_appears(0));
    assert!(item_appears(499));
    assert!(!item_appears(500));
    assert!(!item_appears(999));
}

#[test]
fn spawn_items_adds_at_most_one_item_on_a_free_cell() {
    let board = board_with(Vec::new());
    let taken = vec![v(0, 0), v(1, 0), v(2, 0)];
    let mut with_item = 0;
    let mut without_item = 0;
    for _ in 0..200 {
        let mut items = vec![lying(ItemKind::Armor, 1, 0)];
        spawn_items(&mut items, &board, &taken);
        assert_eq!(items[0], lying(ItemKind::Armor, 1, 0));
        if items.len() == 2 {
            with_item += 1;
            assert!(board.contains(items[1].position.v));
            assert!(!taken.contains(&items[1].position.v));
        } else {
            assert_eq!(items.len(), 1);
            without_item += 1;
        }
    }
    assert!(with_item > 0);
    assert!(without_item > 0);
}

#[test]
fn spawn_items_adds_nothing_on_a_full_board() {
    let board = Board { tiles: Vec::new(), stair_v: v(0, 0) };
    for _ in 0..50 {
        let mut items = Vec::new();
        spawn_items(&mut items, &board, &Vec::new());
        assert_eq!(items, Vec::<BoardItem>::new());
    }
}

#[test]
fn clear_items_empties_the_board() {
    let mut items = vec![lying(ItemKind::Armor, 1, 0), lying(ItemKind::SpeedMushroom, 2, 0)];
    clear_items(&mut items);
    assert_eq!(items, Vec::<BoardItem>::new());
}

#[test]
fn inventory_holds_three_items() {
    assert_eq!(MAX_ITEMS, 3);
}

#[test]
fn pickup_puts_an_item_into_the_inventory() {
    let mut items = vec![lying(ItemKind::SpeedMushroom, 2, 2), lying(ItemKind::StopMushroom, 3, 3)];
    let mut data = reset_player_data();
    try_pick_item(&Position { v: v(2, 2) }, &mut items, &mut data);
    assert_eq!(items, vec![lying(ItemKind::StopMushroom, 3, 3)]);
    assert_eq!(data.items, vec![Item { kind: ItemKind::SpeedMushroom }]);
    assert_eq!(data.armor, 1);
}

#[test]
fn pickup_of_armor_adds_to_the_armor_and_not_to_the_inventory() {
    let mut items = vec![lying(ItemKind::Armor, 2, 2)];
    let mut data = reset_player_data();
    try_pick_item(&Position { v: v(2, 2) }, &mut items, &mut data);
    assert_eq!(items, Vec::<BoardItem>::new());
    assert_eq!(data.items, Vec::<Item>::new());
    assert_eq!(data.armor, 2);
}

#[test]
fn pickup_of_a_fourth_item_is_skipped() {
    let mut items = vec![lying(ItemKind::SpeedMushroom, 2, 2)];
    let mut data = reset_player_data();
    data.items = vec![
        Item { kind: ItemKind::StopMushroom },
        Item { kind: ItemKind::SpeedMushroom },
        Item { kind: ItemKind::StopMushroom },
    ];
    try_pick_item(&Position { v: v(2, 2) }, &mut items, &mut data);
    assert_eq!(data.items.len(), 3);
    assert_eq!(
        data.items,
        vec![
            Item { kind: ItemKind::StopMushroom },
            Item { kind: ItemKind::SpeedMushroom },
            Item { kind: ItemKind::StopMushroom },
        ]
    );
    assert_eq!(items, vec![lying(ItemKind::SpeedMushroom, 2, 2)]);
}

#[test]
fn pickup_of_armor_works_with_a_full_inventory() {
    let mut items = vec![lying(ItemKind::Armor, 2, 2)];
    let mut data = reset_player_data();
    data.items = vec![Item { kind: ItemKind::StopMushroom }; 3];
    try_pick_item(&Position { v: v(2, 2) }, &mut items, &mut data);
    assert_eq!(data.items.len(), 3);
    assert_eq!(data.armor, 2);
    assert_eq!(items, Vec::<BoardItem>::new());
}

#[test]
fn pickup_stops_at_the_first_item_without_room() {
    let mut items = vec![
        lying(ItemKind::Armor, 2, 2),
        lying(ItemKind::SpeedMushroom, 1, 1),
        lying(ItemKind::SpeedMushroom, 2, 2),
        lying(ItemKind::StopMushroom, 2, 2),
        lying(ItemKind::Armor, 2, 2),
    ];
    let mut data = reset_player_data();
    data.items = vec![Item { kind: ItemKind::StopMushroom }; 2];
    try_pick_item(&Position { v: v(2, 2) }, &mut items, &mut data);
    assert_eq!(data.armor, 2);
    assert_eq!(
        data.items,
        vec![
            Item { kind: ItemKind::StopMushroom },
            Item { kind: ItemKind::StopMushroom },
            Item { kind: ItemKind::SpeedMushroom },
        ]
    );
    assert_eq!(
        items,
        vec![
            lying(ItemKind::SpeedMushroom, 1, 1),
            lying(ItemKind::StopMushroom, 2, 2),
            lying(ItemKind::Armor, 2, 2),
        ]
    );
}

#[test]
fn speed_mushroom_gives_the_player_an_action_point() {
    let mut units = Units::new();
    put(&mut units, UnitKind::Rat, 1, 1, 1);
    put(&mut units, UnitKind::Player, 0, 0, 2);
    let mut data = reset_player_data();
    data.items = vec![Item { kind: ItemKind::StopMushroom }, Item { kind: ItemKind::SpeedMushroom }];
    assert!(use_item(UseItemEvent(1), &mut data, &mut units));
    assert_eq!(units.entries[1].unit.ap, 3);
    assert_eq!(units.entries[0].unit.ap, 1);
    assert_eq!(data.items, vec![Item { kind: ItemKind::StopMushroom }]);
}

#[test]
fn stop_mushroom_takes_the_players_action_points() {
    let mut units = Units::new();
    put(&mut units, UnitKind::Rat, 1, 1, 1);
    put(&mut units, UnitKind::Player, 0, 0, 2);
    let mut data = reset_player_data();
    data.items = vec![Item { kind: ItemKind::StopMushroom }, Item { kind: ItemKind::SpeedMushroom }];
    assert!(use_item(UseItemEvent(0), &mut data, &mut units));
    assert_eq!(units.entries[1].unit.ap, 0);
    assert_eq!(units.entries[0].unit.ap, 1);
    assert_eq!(data.items, vec![Item { kind: ItemKind::SpeedMushroom }]);
}

#[test]
fn use_item_needs_an_item_and_a_player() {
    let mut units = Units::new();
    put(&mut units, UnitKind::Player, 0, 0, 2);
    let mut data = reset_player_data();
    data.items = vec![Item { kind: ItemKind::SpeedMushroom }];
    assert!(!use_item(UseItemEvent(1), &mut data, &mut units));
    assert_eq!(data.items.len(), 1);
    assert_eq!(units.entries[0].unit.ap, 2);
    let mut lonely = Units::new();
    put(&mut lonely, UnitKind::Rat, 0, 0, 1);
    assert!(!use_item(UseItemEvent(0), &mut data, &mut lonely));
    assert_eq!(data.items.len(), 1);
    assert_eq!(lonely.entries[0].unit.ap, 1);
}

#[test]
fn player_tick_ends_the_move() {
    let board = board_with(Vec::new());
    let mut units = Units::new();
    put(&mut units, UnitKind::Player, 2, 2, 2);
    put(&mut units, UnitKind::Rat, 4, 4, 1);
    let mut data = reset_player_data();
    let mut items = Vec::new();
    let mut state = GameState::PlayerTurn;
    assert!(tick(&mut state, &mut data, &mut units, &mut items, &board));
    assert_eq!(units.entries[0].unit.ap, 1);
    assert_eq!(units.entries.len(), 2);
    assert_eq!(state, GameState::PlayerTurn);
    assert_eq!(data.current_behaviour.pattern, get_omni_pattern(1));
}

#[test]
fn player_tick_captures_the_unit_and_takes_its_behaviour() {
    let board = board_with(Vec::new());
    let mut units = Units::new();
    put(&mut units, UnitKind::Rat, 4, 4, 1);
    let player = put(&mut units, UnitKind::Player, 2, 2, 2);
    let knight = put(&mut units, UnitKind::Knight, 2, 2, 1);
    let mut data = reset_player_data();
    let mut items = Vec::new();
    let mut state = GameState::PlayerTurn;
    assert!(tick(&mut state, &mut data, &mut units, &mut items, &board));
    assert_eq!(data.current_behaviour.pattern, get_knight_pattern());
    assert_eq!(data.current_behaviour.validator, Validator::Jump);
    assert_eq!(units.find(knight), None);
    assert_eq!(units.entries.len(), 2);
    assert_eq!(units.find(player), Some(1));
    // the action point of the capture pays for the move
    assert_eq!(units.entries[1].unit.ap, 2);
    assert_eq!(data.armor, 1);
}

#[test]
fn player_tick_picks_up_what_lies_on_the_cell() {
    let board = board_with(Vec::new());
    let mut units = Units::new();
    put(&mut units, UnitKind::Player, 2, 2, 2);
    let mut data = reset_player_data();
    let mut items = vec![lying(ItemKind::Armor, 2, 2), lying(ItemKind::SpeedMushroom, 3, 3)];
    let mut state = GameState::PlayerTurn;
    assert!(tick(&mut state, &mut data, &mut units, &mut items, &board));
    assert_eq!(data.armor, 2);
    assert_eq!(items, vec![lying(ItemKind::SpeedMushroom, 3, 3)]);
    assert_eq!(units.entries[0].unit.ap, 1);
}

#[test]
fn player_tick_on_a_bush_pauses_the_player_after_a_capture() {
    let board = board_with(vec![(2, 2, TileKind::Bush)]);
    let mut units = Units::new();
    put(&mut units, UnitKind::Player, 2, 2, 2);
    let rat = put(&mut units, UnitKind::Rat, 2, 2, 1);
    let mut data = reset_player_data();
    let mut items = Vec::new();
    let mut state = GameState::PlayerTurn;
    assert!(tick(&mut state, &mut data, &mut units, &mut items, &board));
    assert_eq!(units.find(rat), None);
    assert_eq!(units.entries[0].unit.ap, 0);
    assert_eq!(units.entries[0].unit.state, UnitState::Paused);
}

#[test]
fn player_tick_without_a_player_ends_the_game() {
    let board = board_with(Vec::new());
    let mut units = Units::new();
    put(&mut units, UnitKind::Rat, 2, 2, 1);
    let mut data = reset_player_data();
    let mut items = vec![lying(ItemKind::Armor, 2, 2)];
    let mut state = GameState::PlayerTurn;
    assert!(!tick(&mut state, &mut data, &mut units, &mut items, &board));
    assert_eq!(state, GameState::GameOver);
    assert_eq!(items.len(), 1);
    assert_eq!(units.entries[0].unit.ap, 1);
}

#[test]
fn player_tick_does_nothing_outside_the_players_turn() {
    let board = board_with(Vec::new());
    let mut units = Units::new();
    put(&mut units, UnitKind::Player, 2, 2, 2);
    put(&mut units, UnitKind::Rat, 2, 2, 1);
    let mut data = reset_player_data();
    let mut items = vec![lying(ItemKind::Armor, 2, 2)];
    let mut state = GameState::NPCTurn;
    assert!(!tick(&mut state, &mut data, &mut units, &mut items, &board));
    assert_eq!(state, GameState::NPCTurn);
    assert_eq!(units.entries.len(), 2);
    assert_eq!(units.entries[0].unit.ap, 2);
    assert_eq!(items.len(), 1);
    assert_eq!(data.armor, 1);
}

#[test]
fn use_item_fits_unless_a_speed_mushroom_meets_full_action_points() {
    let mut units = Units::new();
    put(&mut units, UnitKind::Player, 0, 0, 255);
    let mut data = reset_player_data();
    data.items = vec![Item { kind: ItemKind::SpeedMushroom }, Item { kind: ItemKind::StopMushroom }];
    assert!(!use_item_fits(UseItemEvent(0), &data, &units));
    assert!(use_item_fits(UseItemEvent(1), &data, &units));
    assert!(use_item_fits(UseItemEvent(2), &data, &units));
    units.entries[0].unit.ap = 254;
    assert!(use_item_fits(UseItemEvent(0), &data, &units));
    assert!(use_item(UseItemEvent(0), &mut data, &mut units));
    assert_eq!(units.entries[0].unit.ap, 255);
}

#[test]
fn tick_fits_unless_a_counter_is_full() {
    let mut units = Units::new();
    put(&mut units, UnitKind::Player, 2, 2, 255);
    let mut data = reset_player_data();
    let mut items = Vec::new();
    let state = GameState::PlayerTurn;
    assert!(tick_fits(&state, &data, &units, &items));
    put(&mut units, UnitKind::Rat, 2, 2, 1);
    assert!(!tick_fits(&state, &data, &units, &items));
    assert!(tick_fits(&GameState::NPCTurn, &data, &units, &items));
    units.entries[0].unit.ap = 254;
    assert!(tick_fits(&state, &data, &units, &items));
    data.armor = 255;
    items.push(lying(ItemKind::Armor, 3, 3));
    assert!(tick_fits(&state, &data, &units, &items));
    items.push(lying(ItemKind::Armor, 2, 2));
    assert!(!tick_fits(&state, &data, &units, &items));
    data.armor = 254;
    assert!(tick_fits(&state, &data, &units, &items));
}

#[test]
fn tick_fits_counts_only_the_armor_that_is_picked_up() {
    let mut units = Units::new();
    put(&mut units, UnitKind::Player, 2, 2, 2);
    let mut data = reset_player_data();
    data.armor = 255;
    data.items = vec![Item { kind: ItemKind::StopMushroom }; 3];
    let items = vec![lying(ItemKind::SpeedMushroom, 2, 2), lying(ItemKind::Armor, 2, 2)];
    let state = GameState::PlayerTurn;
    assert!(tick_fits(&state, &data, &units, &items));
    let mut items = items;
    let mut state = state;
    let board = board_with(Vec::new());
    assert!(tick(&mut state, &mut data, &mut units, &mut items, &board));
    assert_eq!(data.armor, 255);
    assert_eq!(items.len(), 2);
}

#[test]
fn place_item_puts_the_item_last_on_the_cell_found() {
    let mut items = vec![lying(ItemKind::Armor, 1, 0)];
    place_item(&mut items, ItemKind::StopMushroom, Some(v(4, 2)));
    assert_eq!(items, vec![lying(ItemKind::Armor, 1, 0), lying(ItemKind::StopMushroom, 4, 2)]);
}

#[test]
fn place_item_without_a_cell_places_nothing() {
    let mut items = vec![lying(ItemKind::Armor, 1, 0)];
    place_item(&mut items, ItemKind::SpeedMushroom, None);
    assert_eq!(items, vec![lying(ItemKind::Armor, 1, 0)]);
}
