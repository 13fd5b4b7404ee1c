use rogue_tactics::board::Blocker;
use rogue_tactics::board::Board;
use rogue_tactics::board::Position;
use rogue_tactics::board::tile::Tile;
use rogue_tactics::board::tile::TileKind;
use rogue_tactics::command::add_ap;
use rogue_tactics::command::attack_unit;
use rogue_tactics::command::CommandEvent;
use rogue_tactics::command::CommandType;
use rogue_tactics::command::execute;
use rogue_tactics::command::has_room;
use rogue_tactics::command::pause_unit;
use rogue_tactics::command::remove_ap;
use rogue_tactics::manager::confirm;
use rogue_tactics::manager::finish_fade_in;
use rogue_tactics::manager::finish_fade_out;
use rogue_tactics::manager::finish_loading;
use rogue_tactics::manager::next_level;
use rogue_tactics::states::FadeState;
use rogue_tactics::states::GameState;
use rogue_tactics::units::BASE_AP;
use rogue_tactics::units::check_unit_interaction;
use rogue_tactics::units::clear_units;
use rogue_tactics::units::data::get_unit_behaviour;
use rogue_tactics::units::data::get_unit_rank;
use rogue_tactics::units::Entity;
use rogue_tactics::units::level_strength;
use rogue_tactics::units::player::reset_player_data;
use rogue_tactics::units::PLAYER_BASE_AP;
use rogue_tactics::units::spawn_units;
use rogue_tactics::units::table::find_met;
use rogue_tactics::units::table::Units;
use rogue_tactics::units::Unit;
use rogue_tactics::units::UnitKind;
use rogue_tactics::units::UnitState;
use rogue_tactics::units::utils::get_npc_set;
use rogue_tactics::units::utils::kinds_within;
use rogue_tactics::vectors::Vector2Int;

fn v(x: i32, y: i32) -> Vector2Int {
    Vector2Int::new(x, y)
}

fn unit(kind: UnitKind, ap: u8) -> Unit {
    Unit { ap, behaviour: get_unit_behaviour(&kind), kind, state: UnitState::Active }
}

fn put(units: &mut Units, kind: UnitKind, x: i32, y: i32, ap: u8) -> Entity {
    units
        .spawn(Position { v: v(x, y) }, Blocker { is_targetable: true }, unit(kind, ap))
        .unwrap()
}

fn board_with(kinds: Vec<(i32, i32, TileKind)>, stair_v: Vector2Int) -> Board {
    let mut tiles = vec![Tile { kind: TileKind::Floor }; 36];
    tiles[(stair_v.y * 6 + stair_v.x) as usize] = Tile { kind: TileKind::Stair };
    for (x, y, kind) in kinds {
        tiles[(y * 6 + x) as usize] = Tile { kind };
    }
    Board { tiles, stair_v }
}

#[test]
fn allowances_are_one_and_two() {
    assert_eq!(BASE_AP, 1);
    assert_eq!(PLAYER_BASE_AP, 2);
}

#[test]
fn turn_start_gives_an_active_unit_its_allowance() {
    let mut rat = unit(UnitKind::Rat, 0);
    rat.handle_turn_start();
    assert_eq!(rat.ap, 1);
    assert_eq!(rat.state, UnitState::Active);
    let mut player = unit(UnitKind::Player, 7);
    player.handle_turn_start();
    assert_eq!(player.ap, 2);
    assert_eq!(player.state, UnitState::Active);
}

#[test]
fn turn_start_wakes_a_paused_unit_without_action_points() {
    let mut knight = unit(UnitKind::Knight, 1);
    knight.state = UnitState::Paused;
    knight.handle_turn_start();
    assert_eq!(knight.ap, 0);
    assert_eq!(knight.state, UnitState::Active);
    knight.handle_turn_start();
    assert_eq!(knight.ap, 1);
    assert_eq!(knight.state, UnitState::Active);
}

#[test]
fn move_end_takes_one_action_point() {
    let mut player = unit(UnitKind::Player, 2);
    assert!(!player.handle_move_end());
    assert_eq!(player.ap, 1);
    assert!(player.handle_move_end());
    assert_eq!(player.ap, 0);
}

#[test]
fn move_end_never_goes_below_zero() {
    let mut rat = unit(UnitKind::Rat, 0);
    assert!(rat.handle_move_end());
    assert_eq!(rat.ap, 0);
    assert!(rat.handle_turn_end());
    assert_eq!(rat.ap, 0);
}

#[test]
fn turn_end_is_the_end_of_a_move() {
    let mut player = unit(UnitKind::Player, 255);
    assert!(!player.handle_turn_end());
    assert_eq!(player.ap, 254);
    assert_eq!(player.kind, UnitKind::Player);
    assert_eq!(player.state, UnitState::Active);
}

#[test]
fn action_points_survive_any_run_of_turn_events() {
    let mut rat = unit(UnitKind::Rat, 0);
    let events = vec![1, 1, 0, 1, 1, 1, 0, 0, 1, 1, 0, 1];
    for event in events {
        if event == 0 {
            rat.handle_turn_start();
            assert_eq!(rat.ap, 1);
        } else {
            let before = rat.ap;
            rat.handle_move_end();
            assert_eq!(rat.ap, if before > 0 { before - 1 } else { 0 });
        }
    }
}

#[test]
fn spawn_names_units_in_order() {
    let mut units = Units::new();
    assert_eq!(units.entries.len(), 0);
    assert_eq!(units.next_id, 0);
    let first = put(&mut units, UnitKind::Player, 0, 0, 2);
    let second = put(&mut units, UnitKind::Rat, 1, 1, 1);
    assert_eq!(first, Entity { id: 0 });
    assert_eq!(second, Entity { id: 1 });
    assert_eq!(units.next_id, 2);
    assert_eq!(units.entries[1].entity, second);
    assert_eq!(units.entries[1].position.v, v(1, 1));
    assert_eq!(units.entries[1].unit.kind, UnitKind::Rat);
    assert!(units.entries[1].blocker.is_targetable);
}

#[test]
fn spawn_gives_up_when_names_run_out() {
    let mut units = Units::new();
    units.next_id = u32::MAX;
    let spawned =
        units.spawn(Position { v: v(0, 0) }, Blocker { is_targetable: true }, unit(UnitKind::Rat, 1));
    assert_eq!(spawned, None);
    assert_eq!(units.entries.len(), 0);
    assert_eq!(units.next_id, u32::MAX);
}

#[test]
fn find_gives_the_place_of_a_unit() {
    let mut units = Units::new();
    let player = put(&mut units, UnitKind::Player, 0, 0, 2);
    let rat = put(&mut units, UnitKind::Rat, 1, 1, 1);
    assert_eq!(units.find(player), Some(0));
    assert_eq!(units.find(rat), Some(1));
    assert_eq!(units.find(Entity { id: 9 }), None);
    assert_eq!(units.find_npc(rat), Some(1));
    assert_eq!(units.find_npc(player), None);
    assert_eq!(units.find_player(), Some(0));
}

#[test]
fn find_player_is_none_without_a_player() {
    let mut units = Units::new();
    put(&mut units, UnitKind::Rat, 1, 1, 1);
    assert_eq!(units.find_player(), None);
}

#[test]
fn despawn_removes_the_unit_and_keeps_the_order() {
    let mut units = Units::new();
    let player = put(&mut units, UnitKind::Player, 0, 0, 2);
    let rat = put(&mut units, UnitKind::Rat, 1, 1, 1);
    let knight = put(&mut units, UnitKind::Knight, 2, 2, 1);
    units.despawn(rat);
    assert_eq!(units.entries.len(), 2);
    assert_eq!(units.entries[0].entity, player);
    assert_eq!(units.entries[1].entity, knight);
    assert_eq!(units.find(rat), None);
    assert_eq!(units.next_id, 3);
    units.despawn(rat);
    assert_eq!(units.entries.len(), 2);
    let goblin = put(&mut units, UnitKind::Goblin, 3, 3, 1);
    assert_eq!(goblin, Entity { id: 3 });
}

#[test]
fn despawn_removes_every_unit_of_the_name() {
    let mut units = Units::new();
    put(&mut units, UnitKind::Rat, 1, 1, 1);
    put(&mut units, UnitKind::Rat, 2, 2, 1);
    put(&mut units, UnitKind::Rat, 3, 3, 1);
    units.entries[2].entity = Entity { id: 0 };
    units.despawn(Entity { id: 0 });
    assert_eq!(units.entries.len(), 1);
    assert_eq!(units.entries[0].entity, Entity { id: 1 });
}

#[test]
fn clear_units_keeps_the_next_name() {
    let mut units = Units::new();
    put(&mut units, UnitKind::Player, 0, 0, 2);
    put(&mut units, UnitKind::Rat, 1, 1, 1);
    clear_units(&mut units);
    assert_eq!(units.entries.len(), 0);
    assert_eq!(units.next_id, 2);
}

#[test]
fn blockers_follow_the_units() {
    let mut units = Units::new();
    put(&mut units, UnitKind::Rat, 1, 1, 1);
    put(&mut units, UnitKind::Player, 0, 0, 2);
    put(&mut units, UnitKind::Knight, 2, 3, 1);
    let target = Blocker { is_targetable: true };
    assert_eq!(
        units.blockers(),
        vec![
            (Position { v: v(1, 1) }, target),
            (Position { v: v(0, 0) }, target),
            (Position { v: v(2, 3) }, target),
        ]
    );
    assert_eq!(
        units.npc_blockers(),
        vec![(Position { v: v(1, 1) }, target), (Position { v: v(2, 3) }, target)]
    );
    assert_eq!(units.npc_positions(), vec![v(1, 1), v(2, 3)]);
    assert_eq!(units.npc_names(), vec![Entity { id: 0 }, Entity { id: 2 }]);
}

#[test]
fn interaction_finds_the_first_other_unit_on_the_cell() {
    let mut units = Units::new();
    let player = put(&mut units, UnitKind::Player, 2, 2, 2);
    let rat = put(&mut units, UnitKind::Rat, 2, 2, 1);
    let knight = put(&mut units, UnitKind::Knight, 2, 2, 1);
    let lone = put(&mut units, UnitKind::Goblin, 4, 4, 1);
    assert_eq!(check_unit_interaction(player, &Position { v: v(2, 2) }, &units), Some(rat));
    assert_eq!(check_unit_interaction(rat, &Position { v: v(2, 2) }, &units), Some(player));
    assert_eq!(check_unit_interaction(knight, &Position { v: v(2, 2) }, &units), Some(player));
    assert_eq!(check_unit_interaction(lone, &Position { v: v(4, 4) }, &units), None);
    assert_eq!(find_met(player, v(2, 2), &units), Some(1));
    assert_eq!(find_met(player, v(4, 4), &units), Some(3));
    assert_eq!(find_met(lone, v(4, 4), &units), None);
}

#[test]
fn add_ap_adds_to_the_named_unit_only() {
    let mut units = Units::new();
    let player = put(&mut units, UnitKind::Player, 0, 0, 2);
    let rat = put(&mut units, UnitKind::Rat, 1, 1, 1);
    add_ap(player, 3, &mut units);
    assert_eq!(units.entries[0].unit.ap, 5);
    assert_eq!(units.entries[1].unit.ap, 1);
    add_ap(rat, 254, &mut units);
    assert_eq!(units.entries[1].unit.ap, 255);
    add_ap(Entity { id: 9 }, 200, &mut units);
    assert_eq!(units.entries[0].unit.ap, 5);
    assert_eq!(units.entries[1].unit.ap, 255);
}

#[test]
fn remove_ap_takes_all_action_points() {
    let mut units = Units::new();
    let player = put(&mut units, UnitKind::Player, 0, 0, 2);
    put(&mut units, UnitKind::Rat, 1, 1, 1);
    remove_ap(player, &mut units);
    assert_eq!(units.entries[0].unit.ap, 0);
    assert_eq!(units.entries[0].unit.state, UnitState::Active);
    assert_eq!(units.entries[1].unit.ap, 1);
}

#[test]
fn pause_unit_pauses_and_takes_all_action_points() {
    let mut units = Units::new();
    put(&mut units, UnitKind::Player, 0, 0, 2);
    let rat = put(&mut units, UnitKind::Rat, 1, 1, 1);
    pause_unit(rat, &mut units);
    assert_eq!(units.entries[1].unit.ap, 0);
    assert_eq!(units.entries[1].unit.state, UnitState::Paused);
    assert_eq!(units.entries[0].unit.ap, 2);
    assert_eq!(units.entries[0].unit.state, UnitState::Active);
}

#[test]
fn attack_on_the_player_with_armor_costs_the_attacker() {
    let mut units = Units::new();
    let player = put(&mut units, UnitKind::Player, 1, 1, 2);
    let rat = put(&mut units, UnitKind::Rat, 1, 1, 1);
    let mut data = reset_player_data();
    data.armor = 2;
    attack_unit(rat, player, &mut units, &mut data);
    assert_eq!(data.armor, 1);
    assert_eq!(units.entries.len(), 1);
    assert_eq!(units.entries[0].entity, player);
    assert_eq!(units.find(rat), None);
}

#[test]
fn attack_on_the_player_without_armor_costs_the_player() {
    let mut units = Units::new();
    let player = put(&mut units, UnitKind::Player, 1, 1, 2);
    let rat = put(&mut units, UnitKind::Rat, 1, 1, 1);
    let mut data = reset_player_data();
    data.armor = 0;
    attack_unit(rat, player, &mut units, &mut data);
    assert_eq!(data.armor, 0);
    assert_eq!(units.entries.len(), 1);
    assert_eq!(units.entries[0].entity, rat);
    assert_eq!(units.find_player(), None);
}

#[test]
fn attack_on_another_unit_costs_that_unit() {
    let mut units = Units::new();
    let player = put(&mut units, UnitKind::Player, 1, 1, 2);
    let rat = put(&mut units, UnitKind::Rat, 1, 1, 1);
    let knight = put(&mut units, UnitKind::Knight, 1, 1, 1);
    let mut data = reset_player_data();
    attack_unit(player, rat, &mut units, &mut data);
    assert_eq!(data.armor, 1);
    assert_eq!(units.find(rat), None);
    attack_unit(knight, Entity { id: 9 }, &mut units, &mut data);
    assert_eq!(units.entries.len(), 2);
    assert_eq!(units.entries[0].entity, player);
    assert_eq!(units.entries[1].entity, knight);
}

#[test]
fn execute_carries_out_each_command() {
    let mut units = Units::new();
    let player = put(&mut units, UnitKind::Player, 1, 1, 2);
    let rat = put(&mut units, UnitKind::Rat, 1, 1, 1);
    let knight = put(&mut units, UnitKind::Knight, 3, 3, 1);
    let mut data = reset_player_data();
    execute(CommandEvent(CommandType::AddAP(player, 1)), &mut units, &mut data);
    assert_eq!(units.entries[0].unit.ap, 3);
    execute(CommandEvent(CommandType::RemoveAP(player)), &mut units, &mut data);
    assert_eq!(units.entries[0].unit.ap, 0);
    execute(CommandEvent(CommandType::PauseUnit(knight)), &mut units, &mut data);
    assert_eq!(units.entries[2].unit.state, UnitState::Paused);
    execute(CommandEvent(CommandType::AttackUnit(rat, player)), &mut units, &mut data);
    assert_eq!(data.armor, 0);
    assert_eq!(units.find(rat), None);
    assert_eq!(units.entries.len(), 2);
}

#[test]
fn kinds_within_keeps_the_kinds_that_fit() {
    let kinds = vec![UnitKind::Turtle, UnitKind::Goblin, UnitKind::Rat, UnitKind::Knight];
    assert_eq!(kinds_within(&kinds, 0), Vec::<UnitKind>::new());
    assert_eq!(kinds_within(&kinds, 1), vec![UnitKind::Rat]);
    assert_eq!(kinds_within(&kinds, 2), vec![UnitKind::Turtle, UnitKind::Rat]);
    assert_eq!(kinds_within(&kinds, 3), kinds);
}

#[test]
fn npc_set_sums_up_to_the_target() {
    let targets: Vec<u32> = vec![0, 1, 2, 3, 5, 8, 13, 40];
    for target in targets {
        for _ in 0..50 {
            let kinds = get_npc_set(target);
            let mut sum: u32 = 0;
            for kind in &kinds {
                assert_ne!(*kind, UnitKind::Player);
                assert_ne!(*kind, UnitKind::Frog);
                sum += get_unit_rank(kind);
            }
            assert_eq!(sum, target);
        }
    }
}

#[test]
fn npc_set_for_one_is_a_rat() {
    assert_eq!(get_npc_set(1), vec![UnitKind::Rat]);
    assert_eq!(get_npc_set(0), Vec::<UnitKind>::new());
}

#[test]
fn npc_set_draws_every_kind() {
    let mut seen = Vec::new();
    for _ in 0..200 {
        for kind in get_npc_set(3) {
            if !seen.contains(&kind) {
                seen.push(kind);
            }
        }
    }
    assert_eq!(seen.len(), 4);
}

#[test]
fn level_strength_is_the_level_to_one_and_a_half() {
    assert_eq!(level_strength(0), 0);
    assert_eq!(level_strength(1), 1);
    assert_eq!(level_strength(2), 2);
    assert_eq!(level_strength(3), 5);
    assert_eq!(level_strength(4), 8);
    assert_eq!(level_strength(9), 27);
    assert_eq!(level_strength(10), 31);
    assert_eq!(level_strength(u32::MAX), u32::MAX);
}

#[test]
fn spawn_units_puts_the_player_on_the_stair_and_fills_the_level() {
    for _ in 0..50 {
        let board = Some(board_with(vec![(1, 1, TileKind::Wall), (4, 4, TileKind::Wall)], v(3, 1)));
        let mut units = Units::new();
        let mut data = reset_player_data();
        data.level = 3;
        let mut state = GameState::Spawning;
        spawn_units(&mut units, &board, &mut data, &mut state);
        assert_eq!(data.level, 4);
        assert_eq!(state, GameState::PlayerTurn);
        assert_eq!(units.entries[0].unit.kind, UnitKind::Player);
        assert_eq!(units.entries[0].position.v, v(3, 1));
        assert_eq!(units.entries[0].unit.ap, BASE_AP);
        assert_eq!(units.entries[0].entity, Entity { id: 0 });
        let mut ranks: u32 = 0;
        for i in 1..units.entries.len() {
            let entry = &units.entries[i];
            assert_ne!(entry.unit.kind, UnitKind::Player);
            assert_eq!(entry.unit.ap, BASE_AP);
            assert_eq!(entry.unit.state, UnitState::Active);
            assert_eq!(entry.unit.behaviour.pattern, get_unit_behaviour(&entry.unit.kind).pattern);
            assert!(entry.blocker.is_targetable);
            assert_eq!(entry.entity, Entity { id: i as u32 });
            assert_ne!(entry.position.v, v(1, 1));
            assert_ne!(entry.position.v, v(4, 4));
            assert_ne!(entry.position.v, v(3, 1));
            for j in 0..i {
                assert_ne!(entry.position.v, units.entries[j].position.v);
            }
            ranks += get_unit_rank(&entry.unit.kind);
        }
        assert_eq!(ranks, 8);
        assert_eq!(units.next_id as usize, units.entries.len());
    }
}

#[test]
fn spawn_units_without_a_board_only_counts_the_level() {
    let mut units = Units::new();
    let mut data = reset_player_data();
    let mut state = GameState::Spawning;
    spawn_units(&mut units, &None, &mut data, &mut state);
    assert_eq!(data.level, 1);
    assert_eq!(state, GameState::Spawning);
    assert_eq!(units.entries.len(), 0);
}

#[test]
fn spawn_units_stops_when_the_board_is_full() {
    let board = Some(board_with(Vec::new(), v(0, 0)));
    let mut units = Units::new();
    let mut data = reset_player_data();
    data.level = 99;
    let mut state = GameState::Spawning;
    spawn_units(&mut units, &board, &mut data, &mut state);
    assert_eq!(units.entries.len(), 36);
    assert_eq!(state, GameState::PlayerTurn);
}

#[test]
fn next_level_fades_once_no_other_unit_is_left() {
    let mut units = Units::new();
    put(&mut units, UnitKind::Player, 0, 0, 2);
    let rat = put(&mut units, UnitKind::Rat, 1, 1, 1);
    let mut fade = FadeState::Hidden;
    next_level(&units, &mut fade);
    assert_eq!(fade, FadeState::Hidden);
    units.despawn(rat);
    next_level(&units, &mut fade);
    assert_eq!(fade, FadeState::In);
}

#[test]
fn fade_leads_to_a_new_level_from_the_menu_and_the_players_turn() {
    let mut fade = FadeState::In;
    let mut state = GameState::PlayerTurn;
    finish_fade_in(&mut fade, &mut state);
    assert_eq!(fade, FadeState::Out);
    assert_eq!(state, GameState::MapGenerate);
    let mut state = GameState::MainMenu;
    finish_fade_in(&mut fade, &mut state);
    assert_eq!(state, GameState::MapGenerate);
    let mut state = GameState::GameOver;
    finish_fade_in(&mut fade, &mut state);
    assert_eq!(state, GameState::GameOver);
    finish_fade_out(&mut fade);
    assert_eq!(fade, FadeState::Hidden);
}

#[test]
fn loading_ends_in_the_menu() {
    let mut state = GameState::LoadAssets;
    finish_loading(&mut state);
    assert_eq!(state, GameState::MainMenu);
    let mut state = GameState::PlayerTurn;
    finish_loading(&mut state);
    assert_eq!(state, GameState::PlayerTurn);
}

#[test]
fn confirming_starts_a_game_and_leaves_its_end() {
    let mut state = GameState::MainMenu;
    confirm(&mut state);
    assert_eq!(state, GameState::MapGenerate);
    let mut state = GameState::GameOver;
    confirm(&mut state);
    assert_eq!(state, GameState::MainMenu);
    let mut state = GameState::NPCTurn;
    confirm(&mut state);
    assert_eq!(state, GameState::NPCTurn);
}

#[test]
fn has_room_tells_whether_action_points_fit() {
    let mut units = Units::new();
    let player = put(&mut units, UnitKind::Player, 0, 0, 250);
    assert!(has_room(player, 5, &units));
    assert!(!has_room(player, 6, &units));
    assert!(has_room(player, 0, &units));
    assert!(has_room(Entity { id: 9 }, 255, &units));
}
