//! Player physics, lives, and the game lifecycle state machine.

use runner_core::camera::{Coords2d, FollowCamera};
use runner_core::constants::{GAME_VICTORY_SCORE, PLAYER_X_OFFSET};
use runner_core::game_manager::{GameManagerSystemsGenerator, GameState};
use runner_core::player::{PlayerSystemsGenerator, JUMP_FORCE, MAX_AIR_JUMPS, MAX_LIVES};
use runner_core::timer::Timer;

#[test]
fn grounded_jump_sets_jump_force_without_spending_air_jumps() {
    let mut player = PlayerSystemsGenerator::make_player();
    player.is_on_ground = true;
    PlayerSystemsGenerator::handle_input(&mut player, true, true);
    assert_eq!(player.vertical_velocity, JUMP_FORCE);
    assert_eq!(player.num_times_jumped_since_landing, 0);
}

#[test]
fn air_jump_within_budget_spends_one() {
    let mut player = PlayerSystemsGenerator::make_player();
    player.is_on_ground = false;
    assert!(player.num_times_jumped_since_landing < MAX_AIR_JUMPS);
    PlayerSystemsGenerator::handle_input(&mut player, true, true);
    assert_eq!(player.vertical_velocity, JUMP_FORCE);
    assert_eq!(player.num_times_jumped_since_landing, 1);
}

#[test]
fn air_jump_beyond_budget_changes_nothing() {
    let mut player = PlayerSystemsGenerator::make_player();
    player.is_on_ground = false;
    player.num_times_jumped_since_landing = MAX_AIR_JUMPS;
    player.vertical_velocity = 7;
    PlayerSystemsGenerator::handle_input(&mut player, true, true);
    assert_eq!(player.vertical_velocity, 7);
    assert_eq!(player.num_times_jumped_since_landing, MAX_AIR_JUMPS);
}

#[test]
fn jump_ignored_while_not_playing() {
    let mut player = PlayerSystemsGenerator::make_player();
    player.is_on_ground = true;
    PlayerSystemsGenerator::handle_input(&mut player, false, true);
    assert_eq!(player.vertical_velocity, 0);
}

#[test]
fn obstacle_collision_costs_one_life_never_below_zero() {
    let mut player = PlayerSystemsGenerator::make_player();
    assert_eq!(player.lives, MAX_LIVES);
    PlayerSystemsGenerator::handle_obstacle_collision(&mut player, true);
    assert_eq!(player.lives, MAX_LIVES - 1);
    player.lives = 0;
    PlayerSystemsGenerator::handle_obstacle_collision(&mut player, true);
    assert_eq!(player.lives, 0, "lives saturate at zero");
    PlayerSystemsGenerator::handle_obstacle_collision(&mut player, false);
    assert_eq!(player.lives, 0);
}

#[test]
fn extra_life_grants_one_capped_at_max() {
    let mut player = PlayerSystemsGenerator::make_player();
    player.lives = 2;
    PlayerSystemsGenerator::handle_extra_life_collision(&mut player, true);
    assert_eq!(player.lives, 3);
    PlayerSystemsGenerator::handle_extra_life_collision(&mut player, true);
    assert_eq!(player.lives, MAX_LIVES, "lives cap at the maximum");
}

#[test]
fn gravity_accumulates_on_its_interval() {
    let mut player = PlayerSystemsGenerator::make_player();
    player.is_on_ground = false;
    player.vertical_velocity = JUMP_FORCE;
    player.gravity_timer = Timer {
        elapsed_ms: 66,
        running: true,
    };
    PlayerSystemsGenerator::update_velocity(&mut player, true);
    assert_eq!(player.vertical_velocity, JUMP_FORCE + 15);
    assert_eq!(player.gravity_timer.elapsed_ms, 0);
}

#[test]
fn landing_resets_velocity_and_air_jumps() {
    let mut player = PlayerSystemsGenerator::make_player();
    player.vertical_velocity = 30;
    player.num_times_jumped_since_landing = 1;
    PlayerSystemsGenerator::detect_ground(&mut player, true);
    PlayerSystemsGenerator::update_velocity(&mut player, true);
    assert_eq!(player.vertical_velocity, 0);
    assert_eq!(player.num_times_jumped_since_landing, 0);
}

#[test]
fn velocity_step_cadence_is_speed_proportional() {
    let mut player = PlayerSystemsGenerator::make_player();
    player.vertical_velocity = -50;
    player.velocity_timer = Timer {
        elapsed_ms: 19,
        running: true,
    };
    let mut cam = FollowCamera {
        base_position: Coords2d { x: 10, y: 10 },
        offset: Coords2d { x: 0, y: 0 },
    };
    PlayerSystemsGenerator::apply_velocity(&mut player, &mut cam, true);
    assert_eq!(cam.offset.y, 0, "1000/50 = 20 ms have not elapsed yet");
    player.velocity_timer.advance(1);
    PlayerSystemsGenerator::apply_velocity(&mut player, &mut cam, true);
    assert_eq!(cam.offset.y, -1, "an upward velocity moves the offset up one row");
    assert_eq!(player.velocity_timer.elapsed_ms, 0);
}

#[test]
fn distance_is_derived_from_the_camera() {
    let mut player = PlayerSystemsGenerator::make_player();
    PlayerSystemsGenerator::update_distance_traveled(&mut player, 123);
    assert_eq!(player.distance_traveled, 123 + PLAYER_X_OFFSET as u64);
}

#[test]
fn any_key_starts_a_waiting_game() {
    let mut gm = GameManagerSystemsGenerator::make_game_manager();
    assert!(gm.is_waiting_to_start());
    GameManagerSystemsGenerator::handle_press_key_to_start(&mut gm, false);
    assert!(gm.is_waiting_to_start());
    GameManagerSystemsGenerator::handle_press_key_to_start(&mut gm, true);
    assert!(gm.is_playing());
}

#[test]
fn zero_lives_defeat_a_playing_game_only() {
    let mut gm = GameManagerSystemsGenerator::make_game_manager();
    assert!(!GameManagerSystemsGenerator::trigger_defeat(&mut gm, 0));
    assert!(gm.is_waiting_to_start(), "defeat fires only while playing");
    gm.game_state = GameState::Playing;
    assert!(!GameManagerSystemsGenerator::trigger_defeat(&mut gm, 1));
    assert!(gm.is_playing());
    assert!(GameManagerSystemsGenerator::trigger_defeat(&mut gm, 0));
    assert!(gm.did_lose());
}

#[test]
fn victory_threshold_ends_a_playing_game() {
    let mut gm = GameManagerSystemsGenerator::make_game_manager();
    gm.game_state = GameState::Playing;
    gm.score = GAME_VICTORY_SCORE - 1;
    assert!(!GameManagerSystemsGenerator::trigger_victory(&mut gm));
    gm.score = GAME_VICTORY_SCORE;
    assert!(GameManagerSystemsGenerator::trigger_victory(&mut gm));
    assert!(gm.did_win());
    assert!(gm.is_game_over());
}

#[test]
fn escape_toggles_pause_both_ways() {
    let mut gm = GameManagerSystemsGenerator::make_game_manager();
    gm.game_state = GameState::Playing;
    assert!(GameManagerSystemsGenerator::handle_toggle_pause(&mut gm, true));
    assert!(gm.is_paused());
    assert!(GameManagerSystemsGenerator::handle_toggle_pause(&mut gm, true));
    assert!(gm.is_playing());
    assert!(!GameManagerSystemsGenerator::handle_toggle_pause(&mut gm, false));
    assert!(gm.is_playing());
}

#[test]
fn any_key_restarts_a_finished_game() {
    let mut gm = GameManagerSystemsGenerator::make_game_manager();
    gm.game_state = GameState::Defeat;
    assert!(!GameManagerSystemsGenerator::handle_press_key_to_restart(&mut gm, false));
    assert!(gm.did_lose());
    assert!(GameManagerSystemsGenerator::handle_press_key_to_restart(&mut gm, true));
    assert!(gm.is_playing());
}

#[test]
fn restart_resets_score_and_camera() {
    let mut gm = GameManagerSystemsGenerator::make_game_manager();
    gm.game_state = GameState::Victory;
    gm.score = 4321;
    let mut camera = Coords2d { x: 4321, y: 5 };
    GameManagerSystemsGenerator::handle_restart_game(&mut gm, &mut camera);
    assert!(gm.is_playing());
    assert_eq!(gm.score, 0);
    assert_eq!(camera.x, 0);
    assert_eq!(camera.y, 5, "the camera's height is kept");
}

#[test]
fn scroll_moves_one_column_on_its_interval_while_playing() {
    let mut gm = GameManagerSystemsGenerator::make_game_manager();
    let mut camera = Coords2d { x: 0, y: 0 };
    let mut moveable = GameManagerSystemsGenerator::augment_main_cam();
    moveable.move_timer.advance(100);
    GameManagerSystemsGenerator::scroll_camera(&gm, &mut camera, &mut moveable);
    assert_eq!(camera.x, 0, "no scroll while waiting to start");
    gm.game_state = GameState::Playing;
    GameManagerSystemsGenerator::scroll_camera(&gm, &mut camera, &mut moveable);
    assert_eq!(camera.x, 1);
    assert_eq!(moveable.move_timer.elapsed_ms, 0);
    GameManagerSystemsGenerator::scroll_camera(&gm, &mut camera, &mut moveable);
    assert_eq!(camera.x, 1, "the interval has not elapsed again");
}

#[test]
fn score_is_distance_less_offset() {
    let mut gm = GameManagerSystemsGenerator::make_game_manager();
    let mut player = PlayerSystemsGenerator::make_player();
    PlayerSystemsGenerator::update_distance_traveled(&mut player, 250);
    GameManagerSystemsGenerator::update_score(&mut gm, &player);
    assert_eq!(gm.score, 250);
}
