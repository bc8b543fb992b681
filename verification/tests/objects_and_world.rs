//! Procedural objects, window toggling, and whole ticks over the world.

use runner_core::camera::Coords2d;
use runner_core::constants::{GAME_VICTORY_SCORE, PLAYER_X_OFFSET};
use runner_core::game_manager::{GameManagerSystemsGenerator, GameState};
use runner_core::objects::{
    GameObjectsSystemsGenerator, Obstacle, ObstacleType, DISTANCE_MARKER_SPACING,
    GENERATE_OBSTACLE_WAIT_TIME_MILLIS_MAX, GENERATE_OBSTACLE_WAIT_TIME_MILLIS_MIN,
    OBSTACLE_MOVE_INTERVAL_MILLIS_MAX, OBSTACLE_MOVE_INTERVAL_MILLIS_MIN,
};
use runner_core::player::{PlayerSystemsGenerator, MAX_LIVES};
use runner_core::timer::Timer;
use runner_core::world::{CollisionReport, InputState, World};
use runner_core::world_setup::{BuildingPiece, WorldSetupSystemsGenerator};
use runner_core::world_update::{pick_window_index, WorldUpdateSystemsGenerator};

fn obstacle_at(x: i64) -> Obstacle {
    Obstacle {
        position: Coords2d { x, y: 10 },
        obstacle_type: ObstacleType::Ground,
        moveable: None,
    }
}

fn no_input() -> InputState {
    InputState {
        any_key_down: false,
        jump_down: false,
        escape_down: false,
    }
}

fn no_collisions() -> CollisionReport {
    CollisionReport {
        ground: false,
        obstacle_hit: None,
        extra_life_hit: None,
    }
}

#[test]
fn obstacle_wait_always_redrawn_inside_its_range() {
    for _ in 0..50 {
        let m = GameObjectsSystemsGenerator::make_obstacle_manager();
        assert!(m.next_obstacle_wait_time >= GENERATE_OBSTACLE_WAIT_TIME_MILLIS_MIN);
        assert!(m.next_obstacle_wait_time <= GENERATE_OBSTACLE_WAIT_TIME_MILLIS_MAX);
    }
}

#[test]
fn air_obstacles_drift_on_a_jittered_interval() {
    for _ in 0..50 {
        let ob = GameObjectsSystemsGenerator::make_obstacle(40, ObstacleType::Air);
        assert_eq!(ob.position.x, 40 + 80 + 1);
        assert_eq!(ob.position.y, 8);
        let m = ob.moveable.expect("an elevated obstacle paces its own drift");
        assert!(m.move_interval >= OBSTACLE_MOVE_INTERVAL_MILLIS_MIN);
        assert!(m.move_interval <= OBSTACLE_MOVE_INTERVAL_MILLIS_MAX);
    }
    let ground = GameObjectsSystemsGenerator::make_obstacle(40, ObstacleType::Ground);
    assert_eq!(ground.position.y, 10);
    assert!(ground.moveable.is_none());
}

#[test]
fn cleanup_boundary_is_exactly_the_margin() {
    let camera_x = 100i64;
    let mut obstacles = vec![
        obstacle_at(camera_x - 11),
        obstacle_at(camera_x - 10),
        obstacle_at(camera_x - 9),
        obstacle_at(camera_x + 50),
    ];
    let mut extra_lives = Vec::new();
    let mut marker_pieces = Vec::new();
    GameObjectsSystemsGenerator::cleanup_entities(
        &mut obstacles,
        &mut extra_lives,
        &mut marker_pieces,
        camera_x,
    );
    let xs: Vec<i64> = obstacles.iter().map(|o| o.position.x).collect();
    assert_eq!(xs, vec![camera_x - 10, camera_x - 9, camera_x + 50]);
}

#[test]
fn distance_markers_generate_once_until_all_pieces_are_gone() {
    let mut player = PlayerSystemsGenerator::make_player();
    PlayerSystemsGenerator::update_distance_traveled(&mut player, 240);
    let mut pieces = Vec::new();
    GameObjectsSystemsGenerator::generate_distance_markers(&player, &mut pieces);
    assert_eq!(pieces.len(), 8);
    assert!(pieces.iter().all(|p| p.distance == 500));
    assert_eq!(pieces[0].position, Coords2d { x: 500, y: 9 });
    assert_eq!(pieces[4].position, Coords2d { x: 504, y: 9 });
    assert_eq!(pieces[5].position, Coords2d { x: 500, y: 10 });

    // while any piece remains, no second marker appears
    let before = pieces.clone();
    GameObjectsSystemsGenerator::generate_distance_markers(&player, &mut pieces);
    assert_eq!(pieces, before);

    // once every piece scrolled out and the distance crossed on, the next
    // multiple is used
    pieces.clear();
    PlayerSystemsGenerator::update_distance_traveled(&mut player, 700);
    GameObjectsSystemsGenerator::generate_distance_markers(&player, &mut pieces);
    assert_eq!(pieces.len(), 8);
    assert!(pieces.iter().all(|p| p.distance == 1000));
}

#[test]
fn marker_lands_on_next_multiple_even_from_a_multiple() {
    let mut player = PlayerSystemsGenerator::make_player();
    player.distance_traveled = DISTANCE_MARKER_SPACING;
    let mut pieces = Vec::new();
    GameObjectsSystemsGenerator::generate_distance_markers(&player, &mut pieces);
    assert!(pieces.iter().all(|p| p.distance == 2 * DISTANCE_MARKER_SPACING));
}

#[test]
fn obstacle_spawn_gated_by_timer_and_play_state() {
    let mut manager = GameObjectsSystemsGenerator::make_obstacle_manager();
    let mut gm = GameManagerSystemsGenerator::make_game_manager();
    let mut obstacles = Vec::new();

    // timer not elapsed: nothing at all happens
    let wait = manager.next_obstacle_wait_time;
    GameObjectsSystemsGenerator::generate_obstacles(&mut manager, &gm, 0, &mut obstacles);
    assert!(obstacles.is_empty());
    assert_eq!(manager.next_obstacle_wait_time, wait);

    // elapsed but not playing: no spawn, yet the cadence restarts
    manager.obstacle_generation_timer.advance(wait);
    GameObjectsSystemsGenerator::generate_obstacles(&mut manager, &gm, 0, &mut obstacles);
    assert!(obstacles.is_empty());
    assert_eq!(manager.obstacle_generation_timer.elapsed_ms, 0);

    // elapsed and playing: exactly one obstacle at the right edge
    gm.game_state = GameState::Playing;
    manager.obstacle_generation_timer.advance(manager.next_obstacle_wait_time);
    GameObjectsSystemsGenerator::generate_obstacles(&mut manager, &gm, 7, &mut obstacles);
    assert_eq!(obstacles.len(), 1);
    assert_eq!(obstacles[0].position.x, 7 + 80 + 1);
}

#[test]
fn moveable_obstacles_step_left_on_their_own_cadence() {
    let mut gm = GameManagerSystemsGenerator::make_game_manager();
    gm.game_state = GameState::Playing;
    let mut obstacles = vec![
        Obstacle {
            position: Coords2d { x: 50, y: 8 },
            obstacle_type: ObstacleType::Air,
            moveable: Some(runner_core::camera::Moveable {
                move_timer: Timer {
                    elapsed_ms: 400,
                    running: true,
                },
                move_interval: 400,
            }),
        },
        obstacle_at(60),
    ];
    GameObjectsSystemsGenerator::move_moveable_obstacles(&gm, &mut obstacles);
    assert_eq!(obstacles[0].position.x, 49);
    assert_eq!(obstacles[0].moveable.unwrap().move_timer.elapsed_ms, 0);
    assert_eq!(obstacles[1].position.x, 60, "a ground obstacle only scrolls with the world");
}

#[test]
fn pick_window_index_finds_the_single_free_slot() {
    for _ in 0..20 {
        let unavailable = vec![true, true, false, true, true];
        let picked = pick_window_index(5, &unavailable);
        assert_eq!(picked, Some(2));
    }
    let all_taken = vec![true, true, true];
    assert_eq!(pick_window_index(3, &all_taken), None);
    assert_eq!(pick_window_index(0, &Vec::new()), None);
}

#[test]
fn dusk_lights_a_fifth_of_the_dark_windows() {
    let mut buildings: Vec<BuildingPiece> = Vec::new();
    WorldSetupSystemsGenerator::make_skyline(&mut buildings);
    assert!(buildings.iter().all(|b| !b.lit));
    let total = buildings.len();

    let mut world_time = WorldSetupSystemsGenerator::make_world_time();
    world_time.current_time = 17;
    WorldUpdateSystemsGenerator::turn_on_windows(&world_time, &mut buildings);
    let lit_after_dusk = buildings.iter().filter(|b| b.lit).count();
    assert_eq!(lit_after_dusk, total / 5);

    world_time.current_time = 19;
    let dark = total - lit_after_dusk;
    WorldUpdateSystemsGenerator::turn_on_windows(&world_time, &mut buildings);
    let lit_after_night = buildings.iter().filter(|b| b.lit).count();
    assert_eq!(lit_after_night, lit_after_dusk + dark / 2);

    world_time.current_time = 12;
    WorldUpdateSystemsGenerator::turn_on_windows(&world_time, &mut buildings);
    let lit_at_noon = buildings.iter().filter(|b| b.lit).count();
    assert_eq!(lit_at_noon, lit_after_night, "no windows light up by day");
}

#[test]
fn daylight_turns_off_a_third_of_lit_windows_or_all_of_few() {
    let mut buildings: Vec<BuildingPiece> = Vec::new();
    WorldSetupSystemsGenerator::make_skyline(&mut buildings);
    let mut world_time = WorldSetupSystemsGenerator::make_world_time();
    world_time.current_time = 19;
    WorldUpdateSystemsGenerator::turn_on_windows(&world_time, &mut buildings);
    let lit = buildings.iter().filter(|b| b.lit).count();
    assert!(lit >= 2, "half the skyline's windows light up at night");

    // by day, with the cadence elapsed, a third go dark
    world_time.current_time = 10;
    world_time.color_transition_timers.window = Timer {
        elapsed_ms: 300,
        running: true,
    };
    WorldUpdateSystemsGenerator::turn_off_windows(&mut world_time, &mut buildings);
    let lit_now = buildings.iter().filter(|b| b.lit).count();
    assert_eq!(lit_now, lit - lit / 3);
    assert_eq!(world_time.color_transition_timers.window.elapsed_ms, 0);

    // with one or two lit, the rounded-to-zero third means all of them
    for piece in buildings.iter_mut() {
        piece.lit = false;
    }
    buildings[0].lit = true;
    buildings[1].lit = true;
    world_time.color_transition_timers.window = Timer {
        elapsed_ms: 301,
        running: true,
    };
    WorldUpdateSystemsGenerator::turn_off_windows(&mut world_time, &mut buildings);
    assert_eq!(buildings.iter().filter(|b| b.lit).count(), 0);
}

#[test]
fn tick_keeps_score_equal_to_distance_less_offset() {
    let mut world = World::new();
    let start = InputState {
        any_key_down: true,
        jump_down: false,
        escape_down: false,
    };
    world.tick(&start, &no_collisions(), 16);
    assert_eq!(world.game_manager.game_state, GameState::Playing);
    for _ in 0..25 {
        world.tick(&no_input(), &no_collisions(), 40);
        assert_eq!(
            world.game_manager.score,
            world.player.distance_traveled - PLAYER_X_OFFSET as u64
        );
    }
    assert!(world.camera_position.x > 0, "a playing world scrolls");
}

#[test]
fn tick_defeat_freezes_physics_until_restart() {
    let mut world = World::new();
    let start = InputState {
        any_key_down: true,
        jump_down: false,
        escape_down: false,
    };
    world.tick(&start, &no_collisions(), 16);

    // lose all lives through reported obstacle collisions
    for _ in 0..3 {
        world.obstacles.push(obstacle_at(world.camera_position.x + 20));
        let hit = CollisionReport {
            ground: false,
            obstacle_hit: Some(world.obstacles.len() - 1),
            extra_life_hit: None,
        };
        world.tick(&no_input(), &hit, 16);
    }
    assert_eq!(world.player.lives, 0);
    assert_eq!(world.game_manager.game_state, GameState::Defeat);

    // after defeat, gravity and jumps leave the velocity alone
    let velocity = world.player.vertical_velocity;
    let jump = InputState {
        any_key_down: false,
        jump_down: true,
        escape_down: false,
    };
    world.tick(&jump, &no_collisions(), 200);
    assert_eq!(world.player.vertical_velocity, velocity);
    assert_eq!(world.game_manager.game_state, GameState::Defeat);

    // any key restarts: lives and score reset, the world is cleared
    let events = world.tick(&start, &no_collisions(), 16);
    assert!(events.restart);
    assert_eq!(world.game_manager.game_state, GameState::Playing);
    assert_eq!(world.player.lives, MAX_LIVES);
    assert_eq!(world.game_manager.score, 0);
    assert_eq!(world.camera_position.x, 0);
    assert!(world.obstacles.is_empty());
    assert!(world.marker_pieces.is_empty());
}


#[test]
fn tick_pause_stops_the_world() {
    let mut world = World::new();
    let start = InputState {
        any_key_down: true,
        jump_down: false,
        escape_down: false,
    };
    world.tick(&start, &no_collisions(), 16);
    let escape = InputState {
        any_key_down: true,
        jump_down: false,
        escape_down: true,
    };
    let events = world.tick(&escape, &no_collisions(), 16);
    assert!(events.pause_state_change);
    assert_eq!(world.game_manager.game_state, GameState::Paused);

    let camera = world.camera_position.x;
    world.tick(&no_input(), &no_collisions(), 500);
    assert_eq!(world.camera_position.x, camera, "no scroll while paused");

    let events = world.tick(&escape, &no_collisions(), 16);
    assert!(events.pause_state_change);
    assert_eq!(world.game_manager.game_state, GameState::Playing);
}

#[test]
fn tick_victory_at_the_threshold() {
    let mut world = World::new();
    let start = InputState {
        any_key_down: true,
        jump_down: false,
        escape_down: false,
    };
    world.tick(&start, &no_collisions(), 16);
    // walk the camera to the brink of victory, then let the score catch up
    world.camera_position.x = GAME_VICTORY_SCORE as i64;
    let events = world.tick(&no_input(), &no_collisions(), 1);
    assert!(events.victory);
    assert_eq!(world.game_manager.game_state, GameState::Victory);
    assert_eq!(world.game_manager.score, GAME_VICTORY_SCORE);
}
