//! The player: jump input, gravity, discretized vertical motion, ground
//! detection, lives, and the distance counter derived from the camera.

use vstd::prelude::*;

use crate::camera::{Coords2d, FollowCamera};
use crate::constants::PLAYER_X_OFFSET;
use crate::timer::Timer;

verus! {

/// Jumps allowed while airborne before the player must land again.
pub const MAX_AIR_JUMPS: u8 = 1;

/// Vertical velocity set by a jump; negative is upward.
pub const JUMP_FORCE: i64 = -50;

/// Velocity added per gravity step; positive is downward.
pub const GRAVITY: i64 = 15;

/// The number of lives a fresh or restarted player has, and the cap a
/// pickup can raise them to.
pub const MAX_LIVES: u8 = 3;

/// The magnitude of a velocity.
pub open spec fn spec_abs_i64(v: i64) -> int {
    if v >= 0 {
        v as int
    } else {
        -(v as int)
    }
}

/// Saturating addition of a non-negative increment to an `i64`.
pub open spec fn spec_saturating_add_i64(a: i64, b: i64) -> i64
    recommends
        b >= 0,
{
    if a + b <= i64::MAX {
        (a + b) as i64
    } else {
        i64::MAX
    }
}

/// The player's simulation state.
#[derive(Clone, Copy, Debug)]
pub struct Player {
    pub jump_timer: Timer,
    pub num_times_jumped_since_landing: u8,
    pub gravity_timer: Timer,
    pub velocity_timer: Timer,
    pub vertical_velocity: i64,
    pub is_on_ground: bool,
    pub distance_traveled: u64,
    pub lives: u8,
}

/// The player's systems: input, physics, collisions, distance, restart.
pub struct PlayerSystemsGenerator {}

impl PlayerSystemsGenerator {
    /// A fresh player: grounded state unknown yet, no velocity, full lives,
    /// all physics timers running from zero.
    pub fn make_player() -> (p: Player)
        ensures
            p.jump_timer == (Timer { elapsed_ms: 0, running: true }),
            p.gravity_timer == (Timer { elapsed_ms: 0, running: true }),
            p.velocity_timer == (Timer { elapsed_ms: 0, running: true }),
            p.num_times_jumped_since_landing == 0,
            p.vertical_velocity == 0,
            !p.is_on_ground,
            p.distance_traveled == 0,
            p.lives == MAX_LIVES,
    {
        Player {
            jump_timer: Timer::start_new(),
            gravity_timer: Timer::start_new(),
            velocity_timer: Timer::start_new(),
            num_times_jumped_since_landing: 0,
            vertical_velocity: 0,
            is_on_ground: false,
            distance_traveled: 0,
            lives: MAX_LIVES,
        }
    }

    /// Handles a jump press while the game is playing. A grounded player
    /// jumps without spending the air-jump budget; an airborne player
    /// within the budget jumps and spends one; beyond the budget nothing
    /// changes.
    pub fn handle_input(player: &mut Player, is_playing: bool, jump_pressed: bool)
        ensures
            is_playing && jump_pressed && old(player).is_on_ground ==> *final(player) == (Player {
                vertical_velocity: JUMP_FORCE,
                ..*old(player)
            }),
            is_playing && jump_pressed && !old(player).is_on_ground && old(
                player,
            ).num_times_jumped_since_landing < MAX_AIR_JUMPS ==> *final(player) == (Player {
                vertical_velocity: JUMP_FORCE,
                num_times_jumped_since_landing: (old(player).num_times_jumped_since_landing
                    + 1) as u8,
                ..*old(player)
            }),
            !(is_playing && jump_pressed && (old(player).is_on_ground || old(
                player,
            ).num_times_jumped_since_landing < MAX_AIR_JUMPS)) ==> *final(player) == *old(player),
    {
        if is_playing && jump_pressed && (player.is_on_ground
            || player.num_times_jumped_since_landing < MAX_AIR_JUMPS) {
            if !player.is_on_ground {
                player.num_times_jumped_since_landing = player.num_times_jumped_since_landing + 1;
            }
            player.vertical_velocity = JUMP_FORCE;
        }
    }

    /// One step of the speed-proportional discrete motion: while playing
    /// with a nonzero velocity, once the velocity timer has waited
    /// `1000 / |velocity|` milliseconds the camera-relative offset moves
    /// one row (down for positive velocity, up for negative, saturating at
    /// the ends of `i64`) and the timer restarts.
    pub fn apply_velocity(player: &mut Player, follow_camera: &mut FollowCamera, is_playing: bool)
        requires
            old(player).vertical_velocity > i64::MIN,
        ensures
            ({
                let v = old(player).vertical_velocity;
                let moved = is_playing && v != 0 && old(player).velocity_timer.elapsed_ms >= 1000int
                    / spec_abs_i64(v);
                &&& moved ==> *final(player) == (Player {
                    velocity_timer: Timer { elapsed_ms: 0, running: true },
                    ..*old(player)
                }) && *final(follow_camera) == (FollowCamera {
                    offset: Coords2d {
                        x: old(follow_camera).offset.x,
                        y: if v > 0 {
                            if old(follow_camera).offset.y < i64::MAX {
                                (old(follow_camera).offset.y + 1) as i64
                            } else {
                                old(follow_camera).offset.y
                            }
                        } else {
                            if old(follow_camera).offset.y > i64::MIN {
                                (old(follow_camera).offset.y - 1) as i64
                            } else {
                                old(follow_camera).offset.y
                            }
                        },
                    },
                    ..*old(follow_camera)
                })
                &&& !moved ==> *final(player) == *old(player) && *final(follow_camera) == *old(
                    follow_camera,
                )
            }),
    {
        if is_playing && player.vertical_velocity != 0 {
            let abs_v: u64 = if player.vertical_velocity > 0 {
                player.vertical_velocity as u64
            } else {
                (-player.vertical_velocity) as u64
            };
            if player.velocity_timer.elapsed_millis() >= 1000 / abs_v {
                if player.vertical_velocity > 0 {
                    if follow_camera.offset.y < i64::MAX {
                        follow_camera.offset.y = follow_camera.offset.y + 1;
                    }
                } else {
                    if follow_camera.offset.y > i64::MIN {
                        follow_camera.offset.y = follow_camera.offset.y - 1;
                    }
                }
                player.velocity_timer.restart();
            }
        }
    }

    /// Gravity and landing, run each tick before the velocity step while
    /// playing: a grounded player's velocity and air-jump count reset to
    /// zero; an airborne player gains [`GRAVITY`] velocity (saturating)
    /// each time the gravity timer has waited `1000 / GRAVITY`
    /// milliseconds, restarting the timer.
    pub fn update_velocity(player: &mut Player, is_playing: bool)
        ensures
            !is_playing ==> *final(player) == *old(player),
            is_playing && old(player).is_on_ground ==> *final(player) == (Player {
                vertical_velocity: 0,
                num_times_jumped_since_landing: 0,
                ..*old(player)
            }),
            is_playing && !old(player).is_on_ground && old(player).gravity_timer.elapsed_ms >= 1000int
                / (GRAVITY as int) ==> *final(player) == (Player {
                vertical_velocity: spec_saturating_add_i64(old(player).vertical_velocity, GRAVITY),
                gravity_timer: Timer { elapsed_ms: 0, running: true },
                ..*old(player)
            }),
            is_playing && !old(player).is_on_ground && old(player).gravity_timer.elapsed_ms < 1000int
                / (GRAVITY as int) ==> *final(player) == *old(player),
    {
        if is_playing {
            if player.is_on_ground {
                player.vertical_velocity = 0;
                player.num_times_jumped_since_landing = 0;
            } else if GRAVITY != 0 && player.gravity_timer.elapsed_millis() >= 1000 / (
            GRAVITY as u64) {
                if player.vertical_velocity <= i64::MAX - GRAVITY {
                    player.vertical_velocity = player.vertical_velocity + GRAVITY;
                } else {
                    player.vertical_velocity = i64::MAX;
                }
                player.gravity_timer.restart();
            }
        }
    }

    /// Records whether a collision between the player and the ground layer
    /// is currently reported; runs before gravity in the same tick.
    pub fn detect_ground(player: &mut Player, ground_collision_reported: bool)
        ensures
            *final(player) == (Player { is_on_ground: ground_collision_reported, ..*old(player) }),
    {
        player.is_on_ground = ground_collision_reported;
    }

    /// An obstacle hit costs one life, never going below zero.
    pub fn handle_obstacle_collision(player: &mut Player, collision_reported: bool)
        ensures
            collision_reported ==> *final(player) == (Player {
                lives: if old(player).lives > 0 {
                    (old(player).lives - 1) as u8
                } else {
                    0
                },
                ..*old(player)
            }),
            !collision_reported ==> *final(player) == *old(player),
    {
        if collision_reported {
            if player.lives > 0 {
                player.lives = player.lives - 1;
            }
        }
    }

    /// A life pickup grants one life, capped at [`MAX_LIVES`].
    pub fn handle_extra_life_collision(player: &mut Player, collision_reported: bool)
        ensures
            collision_reported ==> *final(player) == (Player {
                lives: if old(player).lives < MAX_LIVES {
                    (old(player).lives + 1) as u8
                } else {
                    old(player).lives
                },
                ..*old(player)
            }),
            !collision_reported ==> *final(player) == *old(player),
    {
        if collision_reported {
            if player.lives < MAX_LIVES {
                player.lives = player.lives + 1;
            }
        }
    }

    /// The distance traveled is derived fresh from the camera each tick
    /// rather than integrated, so it cannot drift.
    pub fn update_distance_traveled(player: &mut Player, camera_x: i64)
        requires
            camera_x >= 0,
        ensures
            *final(player) == (Player {
                distance_traveled: (camera_x + PLAYER_X_OFFSET) as u64,
                ..*old(player)
            }),
    {
        player.distance_traveled = (camera_x as u64) + (PLAYER_X_OFFSET as u64);
    }

    /// A restart hands the player back full lives; position and velocity
    /// are reset through the camera.
    pub fn handle_restart_game(player: &mut Player)
        ensures
            *final(player) == (Player { lives: MAX_LIVES, ..*old(player) }),
    {
        player.lives = MAX_LIVES;
    }
}

} // verus!
