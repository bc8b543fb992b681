//! The whole simulation: one context object holding every session record,
//! and the tick that runs all systems over it in their fixed order.
//!
//! A tick takes the polled input, the collision reports of the frame, and
//! the real milliseconds that passed, and runs: ground detection and
//! gravity first, then the rest of the player's systems, the day-night
//! engine, the lifecycle state machine with the camera scroll and score,
//! the procedural object systems, and finally — in the same tick, so no
//! stale state survives into the next one — the restart broadcast.

use vstd::prelude::*;

use crate::camera::{Coords2d, FixedToCamera, FollowCamera, Moveable};
use crate::constants::{GAME_VICTORY_SCORE, PLAYER_X_OFFSET, PLAYER_Y_OFFSET, SCREEN_HEIGHT,
    SCREEN_WIDTH};
use crate::game_manager::{GameManager, GameManagerSystemsGenerator, GameState};
use crate::objects::{DistanceMarkerPiece, ExtraLife, GameObjectManager,
    GameObjectsSystemsGenerator, Obstacle, VIEWPORT_CLEANUP_MARGIN,
    GENERATE_OBSTACLE_WAIT_TIME_MILLIS_MIN, GENERATE_OBSTACLE_WAIT_TIME_MILLIS_MAX};
use crate::player::{Player, PlayerSystemsGenerator, JUMP_FORCE, MAX_LIVES};
use crate::timer::{spec_saturating_add_u64, Timer};
use crate::world_setup::{BuildingPiece, WorldSetupSystemsGenerator};
use crate::world_time::{WorldTime, ADVANCE_TIME_WAIT_TIME_MILLIS};
use crate::world_update::{WorldColors, WorldUpdateSystemsGenerator};

verus! {

/// The keys the simulation reads, polled once per tick.
#[derive(Clone, Copy, Debug, PartialEq, Eq, Structural)]
pub struct InputState {
    pub any_key_down: bool,
    pub jump_down: bool,
    pub escape_down: bool,
}

/// The collisions the collision system reported for this tick: whether
/// the player touches the ground, and which obstacle or life pickup (by
/// index) the player overlaps, if any.
#[derive(Clone, Copy, Debug, PartialEq, Eq, Structural)]
pub struct CollisionReport {
    pub ground: bool,
    pub obstacle_hit: Option<usize>,
    pub extra_life_hit: Option<usize>,
}

/// The events one tick emitted, for presentation-level consumers.
#[derive(Clone, Copy, Debug, PartialEq, Eq, Structural)]
pub struct TickEvents {
    pub time_of_day_change: bool,
    pub pause_state_change: bool,
    pub victory: bool,
    pub defeat: bool,
    pub restart: bool,
}

/// A timer after `dt` milliseconds of real time passed.
pub open spec fn spec_advanced_timer(t: Timer, dt: u64) -> Timer {
    Timer {
        elapsed_ms: if t.running {
            spec_saturating_add_u64(t.elapsed_ms, dt)
        } else {
            t.elapsed_ms
        },
        running: t.running,
    }
}

/// An obstacle after `dt` milliseconds of real time passed: only its own
/// drift pacing advances.
pub open spec fn spec_advanced_obstacle(ob: Obstacle, dt: u64) -> Obstacle {
    match ob.moveable {
        None => ob,
        Some(m) => Obstacle {
            moveable: Some(Moveable { move_timer: spec_advanced_timer(m.move_timer, dt), ..m }),
            ..ob
        },
    }
}

/// The player's lives after this tick's collision handling: an obstacle
/// hit costs one (never below zero), then a pickup grants one (capped).
pub open spec fn spec_lives_after(lives: u8, collisions: CollisionReport) -> u8 {
    let l1 = if collisions.obstacle_hit is Some {
        if lives > 0 {
            (lives - 1) as u8
        } else {
            0u8
        }
    } else {
        lives
    };
    if collisions.extra_life_hit is Some {
        if l1 < MAX_LIVES {
            (l1 + 1) as u8
        } else {
            l1
        }
    } else {
        l1
    }
}

/// One pass of the lifecycle transitions, in their in-tick order: start on
/// any key from waiting; back to playing on any key after a game over;
/// the escape toggle; victory on reaching the score threshold; defeat on
/// losing the last life. The result is the state after the pass and the
/// pause, victory and defeat events it fired.
pub open spec fn spec_lifecycle_step(
    state: GameState,
    input: InputState,
    new_score: u64,
    new_lives: u8,
) -> (GameState, bool, bool, bool) {
    let s1 = if state == GameState::WaitingToStart && input.any_key_down {
        GameState::Playing
    } else {
        state
    };
    let s2 = if (s1 == GameState::Victory || s1 == GameState::Defeat) && input.any_key_down {
        GameState::Playing
    } else {
        s1
    };
    let pause_changed = (s2 == GameState::Playing || s2 == GameState::Paused)
        && input.escape_down;
    let s3 = if pause_changed {
        if s2 == GameState::Paused {
            GameState::Playing
        } else {
            GameState::Paused
        }
    } else {
        s2
    };
    let victory = s3 == GameState::Playing && new_score >= GAME_VICTORY_SCORE;
    let s4 = if victory {
        GameState::Victory
    } else {
        s3
    };
    let defeat = s4 == GameState::Playing && new_lives == 0;
    let s5 = if defeat {
        GameState::Defeat
    } else {
        s4
    };
    (s5, pause_changed, victory, defeat)
}

/// The lifecycle transition law, over one tick's transition pass: any key
/// starts a waiting game; while playing, reaching the victory score ends
/// in victory and losing the last life (with no victory due) ends in
/// defeat; escape pauses a playing game and resumes a paused one; a
/// finished game stands still until a key press returns it to playing.
pub proof fn lemma_lifecycle_transitions(
    state: GameState,
    input: InputState,
    new_score: u64,
    new_lives: u8,
)
    ensures
        state == GameState::WaitingToStart && input.any_key_down && !input.escape_down
            && new_score < GAME_VICTORY_SCORE && new_lives > 0 ==> spec_lifecycle_step(
            state,
            input,
            new_score,
            new_lives,
        ).0 == GameState::Playing,
        state == GameState::WaitingToStart && !input.any_key_down ==> spec_lifecycle_step(
            state,
            input,
            new_score,
            new_lives,
        ).0 == GameState::WaitingToStart,
        state == GameState::Playing && !input.escape_down && new_score >= GAME_VICTORY_SCORE
            ==> spec_lifecycle_step(state, input, new_score, new_lives).0 == GameState::Victory,
        state == GameState::Playing && !input.escape_down && new_score < GAME_VICTORY_SCORE
            && new_lives == 0 ==> spec_lifecycle_step(state, input, new_score, new_lives).0
            == GameState::Defeat,
        state == GameState::Playing && input.escape_down ==> spec_lifecycle_step(
            state,
            input,
            new_score,
            new_lives,
        ).0 == GameState::Paused,
        state == GameState::Paused && input.escape_down && new_score < GAME_VICTORY_SCORE
            && new_lives > 0 ==> spec_lifecycle_step(state, input, new_score, new_lives).0
            == GameState::Playing,
        (state == GameState::Victory || state == GameState::Defeat) && !input.any_key_down
            ==> spec_lifecycle_step(state, input, new_score, new_lives).0 == state,
{
}

/// The whole mutable state of one game session.
pub struct World {
    pub game_manager: GameManager,
    pub player: Player,
    pub player_camera: FollowCamera,
    pub camera_position: Coords2d,
    pub camera_moveable: Moveable,
    pub world_time: WorldTime,
    pub world_colors: WorldColors,
    pub sun: FixedToCamera,
    pub sun_pieces: Vec<FixedToCamera>,
    pub game_object_manager: GameObjectManager,
    pub obstacles: Vec<Obstacle>,
    pub extra_lives: Vec<ExtraLife>,
    pub marker_pieces: Vec<DistanceMarkerPiece>,
    pub buildings: Vec<BuildingPiece>,
}

impl World {
    /// Well-formedness of a session, preserved by every tick: lives within
    /// their cap, the hour on the clock, the camera inside the bounds the
    /// lifecycle forces on it, every obstacle inside the spawn-to-cleanup
    /// window, the jump velocity as the lower velocity bound, and the
    /// drawn obstacle wait inside its range.
    pub open spec fn wf(self) -> bool {
        &&& self.player.lives <= MAX_LIVES
        &&& self.player.vertical_velocity >= JUMP_FORCE
        &&& self.world_time.current_time < 24
        &&& 0 <= self.camera_position.x <= GAME_VICTORY_SCORE + 1
        &&& (self.game_manager.game_state == GameState::WaitingToStart ==> self.camera_position.x
            == 0)
        &&& (self.game_manager.game_state == GameState::Playing ==> self.camera_position.x
            <= GAME_VICTORY_SCORE)
        &&& ((self.game_manager.game_state == GameState::Playing
            || self.game_manager.game_state == GameState::Paused)
            ==> self.game_manager.score <= self.camera_position.x)
        &&& forall|i: int|
            0 <= i < self.obstacles@.len() ==> self.camera_position.x - VIEWPORT_CLEANUP_MARGIN
                <= (#[trigger] self.obstacles@[i]).position.x <= self.camera_position.x
                + SCREEN_WIDTH + 1
        &&& GENERATE_OBSTACLE_WAIT_TIME_MILLIS_MIN
            <= self.game_object_manager.next_obstacle_wait_time
            <= GENERATE_OBSTACLE_WAIT_TIME_MILLIS_MAX
        &&& self.sun_pieces@.len() <= 100
    }

    /// A fresh session: everything as it stands before the first tick, the
    /// game waiting for its first key press.
    pub fn new() -> (w: World)
        ensures
            w.wf(),
            w.game_manager.game_state == GameState::WaitingToStart,
            w.game_manager.score == 0,
            w.player.lives == MAX_LIVES,
            w.player.vertical_velocity == 0,
            w.camera_position == (Coords2d { x: 0, y: 0 }),
            w.world_time.current_time == 9,
            w.obstacles@.len() == 0,
            w.extra_lives@.len() == 0,
            w.marker_pieces@.len() == 0,
    {
        let mut buildings: Vec<BuildingPiece> = Vec::new();
        WorldSetupSystemsGenerator::make_skyline(&mut buildings);
        let (sun, sun_pieces) = WorldSetupSystemsGenerator::make_sun();
        let player = PlayerSystemsGenerator::make_player();
        let player_base = Coords2d {
            x: PLAYER_X_OFFSET,
            y: (SCREEN_HEIGHT as i64) - PLAYER_Y_OFFSET,
        };
        World {
            game_manager: GameManagerSystemsGenerator::make_game_manager(),
            player,
            player_camera: FollowCamera {
                base_position: player_base,
                offset: Coords2d { x: 0, y: 0 },
            },
            camera_position: Coords2d { x: 0, y: 0 },
            camera_moveable: GameManagerSystemsGenerator::augment_main_cam(),
            world_time: WorldSetupSystemsGenerator::make_world_time(),
            world_colors: WorldColors::new(),
            sun,
            sun_pieces,
            game_object_manager: GameObjectsSystemsGenerator::make_obstacle_manager(),
            obstacles: Vec::new(),
            extra_lives: Vec::new(),
            marker_pieces: Vec::new(),
            buildings,
        }
    }

    /// Accounts `dt` milliseconds of real time on every running timer of
    /// the session; nothing else changes.
    fn advance_timers(&mut self, dt: u64)
        ensures
            final(self).player == (Player {
                jump_timer: spec_advanced_timer(old(self).player.jump_timer, dt),
                gravity_timer: spec_advanced_timer(old(self).player.gravity_timer, dt),
                velocity_timer: spec_advanced_timer(old(self).player.velocity_timer, dt),
                ..old(self).player
            }),
            final(self).camera_moveable == (Moveable {
                move_timer: spec_advanced_timer(old(self).camera_moveable.move_timer, dt),
                ..old(self).camera_moveable
            }),
            final(self).world_time.current_time == old(self).world_time.current_time,
            final(self).world_time.advance_time_timer == spec_advanced_timer(
                old(self).world_time.advance_time_timer,
                dt,
            ),
            final(self).world_time.color_transition_timers.sky == spec_advanced_timer(
                old(self).world_time.color_transition_timers.sky,
                dt,
            ),
            final(self).world_time.color_transition_timers.star == spec_advanced_timer(
                old(self).world_time.color_transition_timers.star,
                dt,
            ),
            final(self).world_time.color_transition_timers.sun == spec_advanced_timer(
                old(self).world_time.color_transition_timers.sun,
                dt,
            ),
            final(self).world_time.color_transition_timers.window == spec_advanced_timer(
                old(self).world_time.color_transition_timers.window,
                dt,
            ),
            final(self).game_object_manager == (GameObjectManager {
                obstacle_generation_timer: spec_advanced_timer(
                    old(self).game_object_manager.obstacle_generation_timer,
                    dt,
                ),
                extra_life_generation_timer: spec_advanced_timer(
                    old(self).game_object_manager.extra_life_generation_timer,
                    dt,
                ),
                scroll_timer: spec_advanced_timer(
                    old(self).game_object_manager.scroll_timer,
                    dt,
                ),
                ..old(self).game_object_manager
            }),
            final(self).obstacles@.len() == old(self).obstacles@.len(),
            forall|i: int|
                0 <= i < old(self).obstacles@.len() ==> #[trigger] final(self).obstacles@[i]
                    == spec_advanced_obstacle(old(self).obstacles@[i], dt),
            final(self).game_manager == old(self).game_manager,
            final(self).player_camera == old(self).player_camera,
            final(self).camera_position == old(self).camera_position,
            final(self).world_colors == old(self).world_colors,
            final(self).sun == old(self).sun,
            final(self).sun_pieces@ == old(self).sun_pieces@,
            final(self).extra_lives@ == old(self).extra_lives@,
            final(self).marker_pieces@ == old(self).marker_pieces@,
            final(self).buildings@ == old(self).buildings@,
    {
        self.player.jump_timer.advance(dt);
        self.player.gravity_timer.advance(dt);
        self.player.velocity_timer.advance(dt);
        self.camera_moveable.move_timer.advance(dt);
        self.world_time.advance_time_timer.advance(dt);
        self.world_time.color_transition_timers.sky.advance(dt);
        self.world_time.color_transition_timers.star.advance(dt);
        self.world_time.color_transition_timers.sun.advance(dt);
        self.world_time.color_transition_timers.window.advance(dt);
        self.game_object_manager.obstacle_generation_timer.advance(dt);
        self.game_object_manager.extra_life_generation_timer.advance(dt);
        self.game_object_manager.scroll_timer.advance(dt);
        let ghost mid = *self;
        let n = self.obstacles.len();
        let mut i: usize = 0;
        while i < n
            invariant
                0 <= i <= n,
                n == self.obstacles@.len(),
                self.obstacles@.len() == old(self).obstacles@.len(),
                forall|j: int|
                    0 <= j < i ==> #[trigger] self.obstacles@[j] == spec_advanced_obstacle(
                        old(self).obstacles@[j],
                        dt,
                    ),
                forall|j: int|
                    i <= j < n ==> #[trigger] self.obstacles@[j] == old(self).obstacles@[j],
                self.player == mid.player,
                self.camera_moveable == mid.camera_moveable,
                self.world_time == mid.world_time,
                self.game_object_manager == mid.game_object_manager,
                self.game_manager == mid.game_manager,
                self.player_camera == mid.player_camera,
                self.camera_position == mid.camera_position,
                self.world_colors == mid.world_colors,
                self.sun == mid.sun,
                self.sun_pieces@ == mid.sun_pieces@,
                self.extra_lives@ == mid.extra_lives@,
                self.marker_pieces@ == mid.marker_pieces@,
                self.buildings@ == mid.buildings@,
            decreases n - i,
        {
            let ob = self.obstacles[i];
            if let Some(m) = ob.moveable {
                let mut advanced = m.move_timer;
                advanced.advance(dt);
                self.obstacles[i] = Obstacle {
                    position: ob.position,
                    obstacle_type: ob.obstacle_type,
                    moveable: Some(Moveable { move_timer: advanced, move_interval: m.move_interval }),
                };
            }
            i = i + 1;
        }
    }

    /// One simulation tick over `dt` milliseconds of real time, given the
    /// polled input and the frame's collision reports. The systems run in
    /// their fixed priority order: ground detection and gravity before the
    /// rest of the player's systems, then the day-night engine, then the
    /// lifecycle machine with camera scroll and score, then the procedural
    /// object systems, and last the restart broadcast where one fired.
    #[verifier::rlimit(100)]
    pub fn tick(&mut self, input: &InputState, collisions: &CollisionReport, dt: u64) -> (events:
        TickEvents)
        requires
            old(self).wf(),
            collisions.obstacle_hit matches Some(i) ==> i < old(self).obstacles@.len(),
            collisions.extra_life_hit matches Some(i) ==> i < old(self).extra_lives@.len(),
        ensures
            final(self).wf(),
            final(self).game_manager.score == final(self).player.distance_traveled
                - PLAYER_X_OFFSET,
            final(self).player.distance_traveled >= PLAYER_X_OFFSET,
            events.restart == ((old(self).game_manager.game_state == GameState::Victory
                || old(self).game_manager.game_state == GameState::Defeat)
                && input.any_key_down),
            ({
                let new_score = old(self).camera_position.x as u64;
                let new_lives = spec_lives_after(old(self).player.lives, *collisions);
                let step = spec_lifecycle_step(
                    old(self).game_manager.game_state,
                    *input,
                    new_score,
                    new_lives,
                );
                &&& final(self).game_manager.game_state == (if events.restart {
                    GameState::Playing
                } else {
                    step.0
                })
                &&& events.pause_state_change == step.1
                &&& events.victory == step.2
                &&& events.defeat == step.3
                &&& final(self).player.lives == (if events.restart {
                    MAX_LIVES
                } else {
                    new_lives
                })
                &&& final(self).game_manager.score == (if events.restart {
                    0u64
                } else {
                    new_score
                })
            }),
            events.restart ==> final(self).camera_position.x == 0 && final(self).obstacles@.len()
                == 0 && final(self).marker_pieces@.len() == 0 && (forall|i: int|
                0 <= i < final(self).buildings@.len()
                    ==> (#[trigger] final(self).buildings@[i]).follow.offset == (Coords2d {
                    x: 0,
                    y: 0,
                })),
            ({
                let adv = spec_advanced_timer(old(self).camera_moveable.move_timer, dt);
                let scrolled = old(self).game_manager.game_state == GameState::Playing
                    && adv.elapsed_ms >= old(self).camera_moveable.move_interval;
                &&& !events.restart ==> final(self).camera_position.x
                    == old(self).camera_position.x + (if scrolled {
                    1int
                } else {
                    0int
                })
                &&& final(self).camera_position.y == old(self).camera_position.y
            }),
            ({
                let adv = spec_advanced_timer(old(self).world_time.advance_time_timer, dt);
                let fires = adv.elapsed_ms >= ADVANCE_TIME_WAIT_TIME_MILLIS;
                let new_hour = if !fires {
                    old(self).world_time.current_time
                } else if old(self).world_time.current_time == 23 {
                    0u8
                } else {
                    (old(self).world_time.current_time + 1) as u8
                };
                &&& final(self).world_time.current_time == new_hour
                &&& events.time_of_day_change == (fires && WorldTime::spec_time_of_day(new_hour)
                    != WorldTime::spec_time_of_day(old(self).world_time.current_time))
            }),
            old(self).game_manager.game_state == GameState::Playing
                ==> final(self).game_manager.score >= old(self).game_manager.score,
            old(self).game_manager.game_state != GameState::Playing
                ==> final(self).player.vertical_velocity == old(self).player.vertical_velocity
                && final(self).player_camera == old(self).player_camera
                && final(self).player.num_times_jumped_since_landing
                == old(self).player.num_times_jumped_since_landing,
    {
        let ghost w0 = *self;

        // Real time passes on every running timer first.
        self.advance_timers(dt);
        proof {
            assert forall|i: int|
                0 <= i < self.obstacles@.len() implies w0.camera_position.x
                - VIEWPORT_CLEANUP_MARGIN <= (#[trigger] self.obstacles@[i]).position.x
                <= w0.camera_position.x + SCREEN_WIDTH + 1 by {
                assert(self.obstacles@[i] == spec_advanced_obstacle(w0.obstacles@[i], dt));
                assert(w0.camera_position.x - VIEWPORT_CLEANUP_MARGIN
                    <= w0.obstacles@[i].position.x <= w0.camera_position.x + SCREEN_WIDTH + 1);
            }
        }

        // High priority: ground detection, then gravity and landing.
        let playing_at_entry = self.game_manager.is_playing();
        PlayerSystemsGenerator::detect_ground(&mut self.player, collisions.ground);
        PlayerSystemsGenerator::update_velocity(&mut self.player, playing_at_entry);

        // Player systems: input, collisions, velocity step, distance.
        PlayerSystemsGenerator::handle_input(&mut self.player, playing_at_entry, input.jump_down);
        PlayerSystemsGenerator::handle_obstacle_collision(
            &mut self.player,
            collisions.obstacle_hit.is_some(),
        );
        if let Some(hit) = collisions.obstacle_hit {
            let ghost pre_remove = self.obstacles@;
            self.obstacles.remove(hit);
            proof {
                pre_remove.remove_ensures(hit as int);
                assert forall|i: int|
                    0 <= i < self.obstacles@.len() implies w0.camera_position.x
                    - VIEWPORT_CLEANUP_MARGIN <= (#[trigger] self.obstacles@[i]).position.x
                    <= w0.camera_position.x + SCREEN_WIDTH + 1 by {
                    if i < hit {
                        assert(self.obstacles@[i] == pre_remove[i]);
                    } else {
                        assert(self.obstacles@[i] == pre_remove[i + 1]);
                    }
                }
            }
        }
        PlayerSystemsGenerator::handle_extra_life_collision(
            &mut self.player,
            collisions.extra_life_hit.is_some(),
        );
        if let Some(hit) = collisions.extra_life_hit {
            self.extra_lives.remove(hit);
        }
        PlayerSystemsGenerator::apply_velocity(
            &mut self.player,
            &mut self.player_camera,
            playing_at_entry,
        );
        PlayerSystemsGenerator::update_distance_traveled(&mut self.player, self.camera_position.x);

        // The day-night engine.
        let time_of_day_change = WorldUpdateSystemsGenerator::update_world_time(
            &mut self.world_time,
        );
        WorldUpdateSystemsGenerator::update_world_colors_from_time(
            &mut self.world_time,
            &mut self.world_colors,
        );
        if time_of_day_change {
            WorldUpdateSystemsGenerator::turn_on_windows(&self.world_time, &mut self.buildings);
        }
        WorldUpdateSystemsGenerator::turn_off_windows(&mut self.world_time, &mut self.buildings);
        WorldUpdateSystemsGenerator::update_sun_position(
            &self.world_time,
            &mut self.sun,
            &mut self.sun_pieces,
        );

        // The lifecycle machine: scroll, score, transitions.
        GameManagerSystemsGenerator::scroll_camera(
            &self.game_manager,
            &mut self.camera_position,
            &mut self.camera_moveable,
        );
        GameManagerSystemsGenerator::update_score(&mut self.game_manager, &self.player);
        GameManagerSystemsGenerator::handle_press_key_to_start(
            &mut self.game_manager,
            input.any_key_down,
        );
        let restart = GameManagerSystemsGenerator::handle_press_key_to_restart(
            &mut self.game_manager,
            input.any_key_down,
        );
        let pause_state_change = GameManagerSystemsGenerator::handle_toggle_pause(
            &mut self.game_manager,
            input.escape_down,
        );
        let victory = GameManagerSystemsGenerator::trigger_victory(&mut self.game_manager);
        let defeat = GameManagerSystemsGenerator::trigger_defeat(
            &mut self.game_manager,
            self.player.lives,
        );

        // The procedural object systems.
        let ghost pre_spawn = self.obstacles@;
        GameObjectsSystemsGenerator::generate_obstacles(
            &mut self.game_object_manager,
            &self.game_manager,
            self.camera_position.x,
            &mut self.obstacles,
        );
        proof {
            assert forall|i: int|
                0 <= i < self.obstacles@.len() implies w0.camera_position.x
                - VIEWPORT_CLEANUP_MARGIN <= (#[trigger] self.obstacles@[i]).position.x
                <= self.camera_position.x + SCREEN_WIDTH + 1 by {
                if i < pre_spawn.len() {
                    assert(self.obstacles@[i] == pre_spawn[i]);
                } else {
                    assert(self.obstacles@[i] == self.obstacles@.last());
                }
            }
        }
        GameObjectsSystemsGenerator::generate_player_lives(
            &mut self.game_object_manager,
            &self.game_manager,
            self.camera_position.x,
            &mut self.extra_lives,
        );
        let ghost pre_move = self.obstacles@;
        GameObjectsSystemsGenerator::move_moveable_obstacles(
            &self.game_manager,
            &mut self.obstacles,
        );
        proof {
            assert forall|i: int|
                0 <= i < self.obstacles@.len() implies w0.camera_position.x
                - VIEWPORT_CLEANUP_MARGIN - 1 <= (#[trigger] self.obstacles@[i]).position.x
                <= self.camera_position.x + SCREEN_WIDTH + 1 by {
                if self.game_manager.game_state == GameState::Playing {
                    assert(self.obstacles@[i] == crate::objects::spec_moved_obstacle(pre_move[i]));
                }
            }
        }
        let ghost pre_cleanup = self.obstacles@;
        GameObjectsSystemsGenerator::cleanup_entities(
            &mut self.obstacles,
            &mut self.extra_lives,
            &mut self.marker_pieces,
            self.camera_position.x,
        );
        proof {
            let cam = self.camera_position.x;
            let pred = |o: Obstacle| o.position.x >= cam - VIEWPORT_CLEANUP_MARGIN;
            lemma_filter_obstacle_x_at_most(pre_cleanup, pred, cam + SCREEN_WIDTH + 1);
            assert forall|i: int|
                0 <= i < self.obstacles@.len() implies cam - VIEWPORT_CLEANUP_MARGIN
                <= (#[trigger] self.obstacles@[i]).position.x <= cam + SCREEN_WIDTH + 1 by {
                pre_cleanup.lemma_filter_pred(pred, i);
                assert(pred(self.obstacles@[i]));
            }
        }
        GameObjectsSystemsGenerator::generate_distance_markers(
            &self.player,
            &mut self.marker_pieces,
        );

        // The restart broadcast, settled inside the same tick so no stale
        // state survives into the next one; the distance is re-derived
        // from the reset camera at once for the same reason.
        if restart {
            GameManagerSystemsGenerator::handle_restart_game(
                &mut self.game_manager,
                &mut self.camera_position,
            );
            PlayerSystemsGenerator::handle_restart_game(&mut self.player);
            GameObjectsSystemsGenerator::handle_restart_game(
                &mut self.obstacles,
                &mut self.marker_pieces,
                &mut self.buildings,
            );
            self.player.distance_traveled = PLAYER_X_OFFSET as u64;
        }

        TickEvents {
            time_of_day_change,
            pause_state_change,
            victory,
            defeat,
            restart,
        }
    }
}

/// Every obstacle of a filtered sequence keeps a bound that every obstacle
/// of the unfiltered one had.
proof fn lemma_filter_obstacle_x_at_most(
    s: Seq<Obstacle>,
    pred: spec_fn(Obstacle) -> bool,
    hi: int,
)
    requires
        forall|i: int| 0 <= i < s.len() ==> (#[trigger] s[i]).position.x <= hi,
    ensures
        forall|i: int|
            0 <= i < s.filter(pred).len() ==> (#[trigger] s.filter(pred)[i]).position.x <= hi,
    decreases s.len(),
{
    reveal_with_fuel(Seq::filter, 2);
    if s.len() > 0 {
        assert(forall|i: int|
            0 <= i < s.drop_last().len() ==> (#[trigger] s.drop_last()[i]).position.x <= hi);
        lemma_filter_obstacle_x_at_most(s.drop_last(), pred, hi);
        assert(s.last().position.x <= hi);
    }
}

} // verus!

