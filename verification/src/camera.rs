//! Camera-relative positioning.
//!
//! The main camera's world position is the single source of truth for world
//! scroll. Entities tied to it carry a base position and an offset; their
//! on-screen position is resolved from those plus the camera position, and
//! the offset is the only field other systems may move.

use vstd::prelude::*;

use crate::timer::Timer;

verus! {

/// An integer position or displacement on the character grid.
#[derive(Clone, Copy, Debug, PartialEq, Eq, Structural)]
pub struct Coords2d {
    pub x: i64,
    pub y: i64,
}

impl Coords2d {
    /// The position with the given components.
    pub fn new(x: i64, y: i64) -> (c: Coords2d)
        ensures
            c.x == x,
            c.y == y,
    {
        Coords2d { x, y }
    }

    /// The origin.
    pub fn zero() -> (c: Coords2d)
        ensures
            c.x == 0,
            c.y == 0,
    {
        Coords2d { x: 0, y: 0 }
    }
}

/// Ties an entity rigidly to the camera: it keeps its place on screen as
/// the world scrolls.
#[derive(Clone, Copy, Debug, PartialEq, Eq, Structural)]
pub struct FixedToCamera {
    pub base_position: Coords2d,
    pub offset: Coords2d,
}

/// Ties an entity to the scrolling world relative to the camera; its offset
/// accumulates its own movement.
#[derive(Clone, Copy, Debug, PartialEq, Eq, Structural)]
pub struct FollowCamera {
    pub base_position: Coords2d,
    pub offset: Coords2d,
}

/// Paces the independent movement of an entity: each time the timer reaches
/// the interval the entity takes one step and the timer restarts.
#[derive(Clone, Copy, Debug)]
pub struct Moveable {
    pub move_timer: Timer,
    pub move_interval: u64,
}

/// Resolves positions of entities fixed to the camera.
pub struct FixedToCameraSystemsGenerator {}

impl FixedToCameraSystemsGenerator {
    /// The on-screen position of a camera-fixed entity: its base position
    /// plus the camera position plus its own offset.
    pub fn update_positions(fixed: &FixedToCamera, camera_position: &Coords2d) -> (coords: Coords2d)
        requires
            i64::MIN <= fixed.base_position.x + camera_position.x + fixed.offset.x <= i64::MAX,
            i64::MIN <= fixed.base_position.y + camera_position.y + fixed.offset.y <= i64::MAX,
        ensures
            coords.x == fixed.base_position.x + camera_position.x + fixed.offset.x,
            coords.y == fixed.base_position.y + camera_position.y + fixed.offset.y,
    {
        Coords2d {
            x: ((fixed.base_position.x as i128) + (camera_position.x as i128) + (fixed.offset.x
                as i128)) as i64,
            y: ((fixed.base_position.y as i128) + (camera_position.y as i128) + (fixed.offset.y
                as i128)) as i64,
        }
    }
}

/// Resolves positions of entities following the camera.
pub struct FollowCameraSystemsGenerator {}

impl FollowCameraSystemsGenerator {
    /// The on-screen position of a camera-following entity: its base
    /// position plus the camera position plus its own offset.
    pub fn update_positions(follow: &FollowCamera, camera_position: &Coords2d) -> (coords:
        Coords2d)
        requires
            i64::MIN <= follow.base_position.x + camera_position.x + follow.offset.x <= i64::MAX,
            i64::MIN <= follow.base_position.y + camera_position.y + follow.offset.y <= i64::MAX,
        ensures
            coords.x == follow.base_position.x + camera_position.x + follow.offset.x,
            coords.y == follow.base_position.y + camera_position.y + follow.offset.y,
    {
        Coords2d {
            x: ((follow.base_position.x as i128) + (camera_position.x as i128) + (follow.offset.x
                as i128)) as i64,
            y: ((follow.base_position.y as i128) + (camera_position.y as i128) + (follow.offset.y
                as i128)) as i64,
        }
    }
}

} // verus!
