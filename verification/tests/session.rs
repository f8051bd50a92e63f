use d2rmh::d2::level_id::LevelId;
use d2rmh::d2::unit::{PlayerPath, Unit, UnitType};
use d2rmh::d2::world::{Act, ActMisc, HostCall, Level, Room, RoomEx, World};
use d2rmh::{on_loop, reset_revealed_areas};

fn level(id: u32, first: Option<usize>) -> Level {
    Level {
        room_ex_first: first,
        room_ex_pending: first,
        pos_x: 0,
        pos_y: 0,
        size_x: 80,
        size_y: 80,
        level_next: None,
        act_misc: Some(0),
        level_no: LevelId::from_id(id).unwrap(),
    }
}

fn record(index: usize, level: usize, near: Vec<Option<usize>>) -> RoomEx {
    RoomEx {
        room_ex_near: near,
        room_ex_next: None,
        room: Some(index),
        room_pending: Some(index),
        pos_x: index as u32,
        pos_y: 100 + index as u32,
        size_x: 8,
        size_y: 8,
        level: Some(level),
    }
}

/// One act with four levels of one record each, with the ids 3, 4, 5 and 9
/// in this order; level `i` holds record `i`, whose room is room `i`. The
/// records of the levels 5 and 9 are neighbours. The local player stands in
/// the level with id 5.
fn world() -> World {
    let mut world = World::new();
    world.acts.push(Act { room: None, act_no: 0, act_misc: Some(0) });
    world.act_miscs.push(ActMisc { act: Some(0), level_first: Some(0), act_no: 0 });
    for (index, id) in [3, 4, 5, 9].into_iter().enumerate() {
        world.levels.push(level(id, Some(index)));
        world.rooms.push(Room { room_ex: Some(index) });
    }
    world.room_exs.push(record(0, 0, vec![]));
    world.room_exs.push(record(1, 1, vec![]));
    world.room_exs.push(record(2, 2, vec![Some(3)]));
    world.room_exs.push(record(3, 3, vec![Some(2)]));
    world.paths.push(PlayerPath {
        offset_x: 0,
        x: 1,
        offset_y: 0,
        y: 2,
        target_x: 0,
        target_y: 0,
        room: None,
    });
    world.units.push(Unit {
        unit_type: UnitType::Player,
        class_id: 3,
        unit_id: 1,
        act: Some(0),
        path: Some(0),
    });
    world.local_player = Some(0);
    stand_in(&mut world, 2);
    world
}

fn stand_in(world: &mut World, room: usize) {
    world.paths[0].room = Some(room);
}

fn ids(ids: &[u32]) -> Vec<LevelId> {
    ids.iter().map(|id| LevelId::from_id(*id).unwrap()).collect()
}

fn show(room: usize) -> HostCall {
    HostCall::RevealRoom { room }
}

#[test]
fn reset_forgets_every_level() {
    let mut revealed = ids(&[3, 4]);
    reset_revealed_areas(&mut revealed);
    assert!(revealed.is_empty());
    reset_revealed_areas(&mut revealed);
    assert!(revealed.is_empty());
}

#[test]
fn a_tick_reveals_the_level_of_the_player_and_remembers_it() {
    let mut world = world();
    let mut revealed = Vec::new();
    on_loop(&mut world, &mut revealed);
    assert_eq!(world.calls, vec![show(2), show(3)]);
    assert_eq!(revealed, ids(&[5]));
}

#[test]
fn a_second_tick_in_the_same_level_asks_nothing_of_the_host() {
    let mut world = world();
    let mut revealed = Vec::new();
    on_loop(&mut world, &mut revealed);
    let after_first = world.clone();
    on_loop(&mut world, &mut revealed);
    assert_eq!(world, after_first);
    assert_eq!(revealed, ids(&[5]));
    for _ in 0..10 {
        on_loop(&mut world, &mut revealed);
    }
    assert_eq!(world, after_first);
    assert_eq!(revealed, ids(&[5]));
}

#[test]
fn a_level_that_was_revealed_before_is_left_alone() {
    let mut world = world();
    let before = world.clone();
    let mut revealed = ids(&[9, 5, 3]);
    on_loop(&mut world, &mut revealed);
    assert_eq!(world, before);
    assert_eq!(revealed, ids(&[9, 5, 3]));
}

#[test]
fn moving_to_another_level_reveals_it_and_keeps_the_first() {
    let mut world = world();
    let mut revealed = Vec::new();
    on_loop(&mut world, &mut revealed);
    assert_eq!(revealed, ids(&[5]));

    stand_in(&mut world, 3);
    world.calls.clear();
    on_loop(&mut world, &mut revealed);
    assert_eq!(revealed, ids(&[5, 9]));
    assert_eq!(world.calls, vec![show(3), show(2)]);

    stand_in(&mut world, 2);
    world.calls.clear();
    on_loop(&mut world, &mut revealed);
    assert_eq!(revealed, ids(&[5, 9]));
    assert!(world.calls.is_empty());
}

#[test]
fn losing_the_player_forgets_the_levels_and_asks_nothing_of_the_host() {
    let mut world = world();
    let mut revealed = Vec::new();
    stand_in(&mut world, 0);
    on_loop(&mut world, &mut revealed);
    stand_in(&mut world, 1);
    on_loop(&mut world, &mut revealed);
    assert_eq!(revealed, ids(&[3, 4]));

    world.local_player = None;
    let before = world.clone();
    on_loop(&mut world, &mut revealed);
    assert!(revealed.is_empty());
    assert_eq!(world, before);
}

#[test]
fn a_local_player_that_leads_nowhere_counts_as_lost() {
    let mut world = world();
    world.local_player = Some(1);
    let before = world.clone();
    let mut revealed = ids(&[3, 4]);
    on_loop(&mut world, &mut revealed);
    assert!(revealed.is_empty());
    assert_eq!(world, before);
}

#[test]
fn without_a_player_and_without_levels_a_tick_does_nothing() {
    let mut world = world();
    world.local_player = None;
    let before = world.clone();
    let mut revealed = Vec::new();
    on_loop(&mut world, &mut revealed);
    assert!(revealed.is_empty());
    assert_eq!(world, before);
}

#[test]
fn a_new_game_starts_with_nothing_revealed() {
    let mut world = world();
    let mut revealed = Vec::new();
    on_loop(&mut world, &mut revealed);
    world.local_player = None;
    on_loop(&mut world, &mut revealed);
    world.local_player = Some(0);
    world.calls.clear();
    on_loop(&mut world, &mut revealed);
    assert_eq!(world.calls, vec![show(2), show(3)]);
    assert_eq!(revealed, ids(&[5]));
}

#[test]
fn a_placeholder_player_forgets_the_levels_and_asks_nothing_of_the_host() {
    let mut world = world();
    world.units[0].unit_id = u32::MAX;
    let before = world.clone();
    let mut revealed = ids(&[3, 4]);
    on_loop(&mut world, &mut revealed);
    assert_eq!(world, before);
    assert!(revealed.is_empty());
    on_loop(&mut world, &mut revealed);
    assert_eq!(world, before);
    assert!(revealed.is_empty());
}

#[test]
fn a_local_unit_that_is_no_player_forgets_the_levels() {
    let mut world = world();
    world.units[0].unit_type = UnitType::Monster;
    let before = world.clone();
    let mut revealed = ids(&[3]);
    on_loop(&mut world, &mut revealed);
    assert_eq!(world, before);
    assert!(revealed.is_empty());
}

#[test]
fn a_level_is_revealed_again_after_a_placeholder_took_the_players_place() {
    let mut world = world();
    let mut revealed = Vec::new();
    on_loop(&mut world, &mut revealed);
    assert_eq!(revealed, ids(&[5]));

    world.units[0].unit_id = u32::MAX;
    on_loop(&mut world, &mut revealed);
    assert!(revealed.is_empty());

    world.units[0].unit_id = 1;
    world.calls.clear();
    on_loop(&mut world, &mut revealed);
    assert_eq!(world.calls, vec![show(2), show(3)]);
    assert_eq!(revealed, ids(&[5]));
}

#[test]
fn a_tick_walks_the_list_of_the_players_level_only() {
    // The list of the level with id 3 leads back to itself; the player
    // stands in the level with id 5.
    let mut world = world();
    world.room_exs[0].room_ex_next = Some(0);
    assert!(!world.room_lists_end());
    assert!(world.rooms_end(2));
    let mut revealed = Vec::new();
    on_loop(&mut world, &mut revealed);
    assert_eq!(world.calls, vec![show(2), show(3)]);
    assert_eq!(revealed, ids(&[5]));
}

#[test]
fn a_player_whose_level_cannot_be_found_changes_nothing() {
    let mut revealed = ids(&[3]);

    let mut world = world();
    world.units[0].path = None;
    let before = world.clone();
    on_loop(&mut world, &mut revealed);
    assert_eq!(world, before);

    let mut world = self::world();
    world.paths[0].room = None;
    let before = world.clone();
    on_loop(&mut world, &mut revealed);
    assert_eq!(world, before);

    let mut world = self::world();
    world.rooms[2].room_ex = None;
    let before = world.clone();
    on_loop(&mut world, &mut revealed);
    assert_eq!(world, before);

    let mut world = self::world();
    world.room_exs[2].level = None;
    let before = world.clone();
    on_loop(&mut world, &mut revealed);
    assert_eq!(world, before);

    assert_eq!(revealed, ids(&[3]));
}

#[test]
fn a_level_is_remembered_though_the_host_fails_to_build_it() {
    let mut world = world();
    world.levels[2].room_ex_first = None;
    world.levels[2].room_ex_pending = None;
    let mut revealed = Vec::new();
    on_loop(&mut world, &mut revealed);
    assert_eq!(world.calls, vec![HostCall::InitLevel { level: 2 }]);
    assert_eq!(revealed, ids(&[5]));
    on_loop(&mut world, &mut revealed);
    assert_eq!(world.calls, vec![HostCall::InitLevel { level: 2 }]);
}

#[test]
fn a_tick_initializes_the_level_of_the_player() {
    let mut world = world();
    world.levels[2].room_ex_first = None;
    let mut revealed = Vec::new();
    on_loop(&mut world, &mut revealed);
    assert_eq!(world.calls, vec![HostCall::InitLevel { level: 2 }, show(2), show(3)]);
    assert_eq!(world.levels[2].room_ex_first, Some(2));
    assert_eq!(revealed, ids(&[5]));
}

#[test]
fn no_level_is_remembered_twice() {
    let mut world = world();
    let mut revealed = Vec::new();
    for room in [2, 3, 2, 0, 3, 1, 0, 2] {
        stand_in(&mut world, room);
        on_loop(&mut world, &mut revealed);
    }
    assert_eq!(revealed, ids(&[5, 9, 3, 4]));
}
