//! Initial world population: the world clock, the ground, the randomly
//! sized skyline, the star field, and the sun.

use vstd::prelude::*;

use crate::camera::{Coords2d, FixedToCamera, FollowCamera};
use crate::constants::{PLAYER_X_OFFSET, PLAYER_Y_OFFSET, SCREEN_HEIGHT, SCREEN_WIDTH};
use crate::rng::random_in_range;
use crate::timer::Timer;
use crate::world_time::{ColorTransitionTimers, WorldTime};

verus! {

/// Rows of sky above the ground strip.
pub const AVAILABLE_BACKGROUND_HEIGHT: u64 = SCREEN_HEIGHT as u64 - PLAYER_Y_OFFSET as u64;

/// Stars scattered over the sky at startup.
pub const NUM_STARS: u8 = 26;

/// Buildings the skyline starts with.
pub const NUM_START_BUILDINGS: u8 = 15;

/// Narrowest building, in columns.
pub const BUILDING_MIN_WIDTH: u64 = 3;

/// Widest building, in columns.
pub const BUILDING_MAX_WIDTH: u64 = 6;

/// Shortest building: the background height less four fifths of it.
pub const BUILDING_MIN_HEIGHT: u64 = AVAILABLE_BACKGROUND_HEIGHT - AVAILABLE_BACKGROUND_HEIGHT * 4
    / 5;

/// Tallest building: one row below the top of the background.
pub const BUILDING_MAX_HEIGHT: u64 = AVAILABLE_BACKGROUND_HEIGHT - 1;

/// One cell of a skyline building. `lit` is whether its window glyph
/// currently shows; `alternate_color` picks between the two building grays.
#[derive(Clone, Copy, Debug, PartialEq, Eq, Structural)]
pub struct BuildingPiece {
    pub follow: FollowCamera,
    pub lit: bool,
    pub alternate_color: bool,
}

/// Adds one building of the given size to the skyline: an unlit grid of
/// pieces whose top-left column is `x_coord`, standing on the ground strip,
/// all in one randomly chosen gray.
pub fn add_building(buildings: &mut Vec<BuildingPiece>, x_coord: i64, height: u64, width: u64)
    requires
        0 < height <= SCREEN_HEIGHT,
        0 < width <= SCREEN_WIDTH,
        -1000000 < x_coord < 1000000,
    ensures
        final(buildings)@.len() == old(buildings)@.len() + height * width,
        final(buildings)@.subrange(0, old(buildings)@.len() as int) == old(buildings)@,
        forall|k: int|
            old(buildings)@.len() <= k < final(buildings)@.len() ==> {
                let piece = #[trigger] final(buildings)@[k];
                &&& !piece.lit
                &&& piece.follow.offset == (Coords2d { x: 0, y: 0 })
                &&& x_coord <= piece.follow.base_position.x < x_coord + width
                &&& SCREEN_HEIGHT - PLAYER_Y_OFFSET - height + 1 <= piece.follow.base_position.y
                    <= SCREEN_HEIGHT - PLAYER_Y_OFFSET
            },
{
    let ghost old_len = buildings@.len();
    let start_y: i64 = (SCREEN_HEIGHT as i64) - PLAYER_Y_OFFSET - (height as i64) + 1;
    let alternate_color = random_in_range(0, 1) == 1;
    let mut row: u64 = 0;
    while row < height
        invariant
            0 <= row <= height,
            0 < height <= SCREEN_HEIGHT,
            0 < width <= SCREEN_WIDTH,
            -1000000 < x_coord < 1000000,
            start_y == SCREEN_HEIGHT - PLAYER_Y_OFFSET - height + 1,
            buildings@.len() == old_len + row * width,
            buildings@.subrange(0, old_len as int) == old(buildings)@,
            forall|k: int|
                old_len <= k < buildings@.len() ==> {
                    let piece = #[trigger] buildings@[k];
                    &&& !piece.lit
                    &&& piece.follow.offset == (Coords2d { x: 0, y: 0 })
                    &&& x_coord <= piece.follow.base_position.x < x_coord + width
                    &&& SCREEN_HEIGHT - PLAYER_Y_OFFSET - height + 1
                        <= piece.follow.base_position.y <= SCREEN_HEIGHT - PLAYER_Y_OFFSET
                },
        decreases height - row,
    {
        let mut col: u64 = 0;
        while col < width
            invariant
                0 <= row < height,
                0 <= col <= width,
                0 < height <= SCREEN_HEIGHT,
                0 < width <= SCREEN_WIDTH,
                -1000000 < x_coord < 1000000,
                start_y == SCREEN_HEIGHT - PLAYER_Y_OFFSET - height + 1,
                buildings@.len() == old_len + row * width + col,
                buildings@.subrange(0, old_len as int) == old(buildings)@,
                forall|k: int|
                    old_len <= k < buildings@.len() ==> {
                        let piece = #[trigger] buildings@[k];
                        &&& !piece.lit
                        &&& piece.follow.offset == (Coords2d { x: 0, y: 0 })
                        &&& x_coord <= piece.follow.base_position.x < x_coord + width
                        &&& SCREEN_HEIGHT - PLAYER_Y_OFFSET - height + 1
                            <= piece.follow.base_position.y <= SCREEN_HEIGHT - PLAYER_Y_OFFSET
                    },
            decreases width - col,
        {
            let base = Coords2d { x: x_coord + (col as i64), y: start_y + (row as i64) };
            buildings.push(
                BuildingPiece {
                    follow: FollowCamera { base_position: base, offset: Coords2d { x: 0, y: 0 } },
                    lit: false,
                    alternate_color,
                },
            );
            col = col + 1;
        }
        proof {
            assert((row + 1) * width == row * width + width) by (nonlinear_arith);
        }
        row = row + 1;
    }
}

/// Creates the world population that exists before the first tick.
pub struct WorldSetupSystemsGenerator {}

impl WorldSetupSystemsGenerator {
    /// The world clock at nine in the morning, its advance timer running
    /// and every color transition idle.
    pub fn make_world_time() -> (w: WorldTime)
        ensures
            w.current_time == 9,
            w.advance_time_timer == (Timer { elapsed_ms: 0, running: true }),
            w.color_transition_timers.sky == (Timer { elapsed_ms: 0, running: false }),
            w.color_transition_timers.star == (Timer { elapsed_ms: 0, running: false }),
            w.color_transition_timers.sun == (Timer { elapsed_ms: 0, running: false }),
            w.color_transition_timers.window == (Timer { elapsed_ms: 0, running: false }),
    {
        WorldTime {
            current_time: 9,
            advance_time_timer: Timer::start_new(),
            color_transition_timers: ColorTransitionTimers {
                sky: Timer::new(),
                star: Timer::new(),
                sun: Timer::new(),
                window: Timer::new(),
            },
        }
    }

    /// The solid ground the player stands on: a camera-fixed collider at
    /// the player's column on the ground row.
    pub fn make_real_ground() -> (ground: FixedToCamera)
        ensures
            ground.base_position.x == PLAYER_X_OFFSET,
            ground.base_position.y == SCREEN_HEIGHT - PLAYER_Y_OFFSET,
            ground.offset == (Coords2d { x: 0, y: 0 }),
    {
        FixedToCamera {
            base_position: Coords2d {
                x: PLAYER_X_OFFSET,
                y: (SCREEN_HEIGHT as i64) - PLAYER_Y_OFFSET,
            },
            offset: Coords2d { x: 0, y: 0 },
        }
    }

    /// The decorative ground strip: camera-fixed cells filling the rows
    /// below the playfield across the screen.
    pub fn make_decorative_ground() -> (cells: Vec<FixedToCamera>)
        ensures
            cells@.len() == PLAYER_Y_OFFSET * SCREEN_WIDTH,
            forall|k: int|
                0 <= k < cells@.len() ==> {
                    let cell = #[trigger] cells@[k];
                    &&& cell.offset == (Coords2d { x: 0, y: 0 })
                    &&& 0 <= cell.base_position.x < SCREEN_WIDTH
                    &&& SCREEN_HEIGHT - PLAYER_Y_OFFSET + 1 <= cell.base_position.y <= SCREEN_HEIGHT
                },
    {
        let mut cells: Vec<FixedToCamera> = Vec::new();
        let start_y: i64 = (SCREEN_HEIGHT as i64) - PLAYER_Y_OFFSET + 1;
        let mut row: i64 = 0;
        while row < PLAYER_Y_OFFSET
            invariant
                0 <= row <= PLAYER_Y_OFFSET,
                start_y == SCREEN_HEIGHT - PLAYER_Y_OFFSET + 1,
                cells@.len() == row * SCREEN_WIDTH,
                forall|k: int|
                    0 <= k < cells@.len() ==> {
                        let cell = #[trigger] cells@[k];
                        &&& cell.offset == (Coords2d { x: 0, y: 0 })
                        &&& 0 <= cell.base_position.x < SCREEN_WIDTH
                        &&& SCREEN_HEIGHT - PLAYER_Y_OFFSET + 1 <= cell.base_position.y
                            <= SCREEN_HEIGHT
                    },
            decreases PLAYER_Y_OFFSET - row,
        {
            let mut col: i64 = 0;
            while col < SCREEN_WIDTH as i64
                invariant
                    0 <= row < PLAYER_Y_OFFSET,
                    0 <= col <= SCREEN_WIDTH,
                    start_y == SCREEN_HEIGHT - PLAYER_Y_OFFSET + 1,
                    cells@.len() == row * SCREEN_WIDTH + col,
                    forall|k: int|
                        0 <= k < cells@.len() ==> {
                            let cell = #[trigger] cells@[k];
                            &&& cell.offset == (Coords2d { x: 0, y: 0 })
                            &&& 0 <= cell.base_position.x < SCREEN_WIDTH
                            &&& SCREEN_HEIGHT - PLAYER_Y_OFFSET + 1 <= cell.base_position.y
                                <= SCREEN_HEIGHT
                        },
                decreases SCREEN_WIDTH - col,
            {
                cells.push(
                    FixedToCamera {
                        base_position: Coords2d { x: col, y: start_y + row },
                        offset: Coords2d { x: 0, y: 0 },
                    },
                );
                col = col + 1;
            }
            proof {
                assert((row + 1) * SCREEN_WIDTH == row * SCREEN_WIDTH + SCREEN_WIDTH)
                    by (nonlinear_arith);
            }
            row = row + 1;
        }
        cells
    }

    /// The starting skyline: [`NUM_START_BUILDINGS`] buildings of random
    /// size packed side by side from a random small offset.
    pub fn make_skyline(buildings: &mut Vec<BuildingPiece>)
        requires
            old(buildings)@.len() == 0,
        ensures
            forall|k: int|
                0 <= k < final(buildings)@.len() ==> {
                    let piece = #[trigger] final(buildings)@[k];
                    &&& !piece.lit
                    &&& piece.follow.offset == (Coords2d { x: 0, y: 0 })
                },
    {
        let mut x_coord: i64 = random_in_range(1, 4) as i64;
        let mut n: u8 = 0;
        while n < NUM_START_BUILDINGS
            invariant
                0 <= n <= NUM_START_BUILDINGS,
                1 <= x_coord <= 4 + n * BUILDING_MAX_WIDTH,
                forall|k: int|
                    0 <= k < buildings@.len() ==> {
                        let piece = #[trigger] buildings@[k];
                        &&& !piece.lit
                        &&& piece.follow.offset == (Coords2d { x: 0, y: 0 })
                    },
            decreases NUM_START_BUILDINGS - n,
        {
            let height = random_in_range(BUILDING_MIN_HEIGHT, BUILDING_MAX_HEIGHT);
            let width = random_in_range(BUILDING_MIN_WIDTH, BUILDING_MAX_WIDTH);
            let ghost prev = buildings@;
            add_building(buildings, x_coord, height, width);
            proof {
                assert forall|k: int| 0 <= k < prev.len() implies buildings@[k] == prev[k] by {
                    assert(buildings@.subrange(0, prev.len() as int)[k] == prev[k]);
                }
                assert forall|k: int|
                    0 <= k < buildings@.len() implies !(#[trigger] buildings@[k]).lit
                    && buildings@[k].follow.offset == (Coords2d { x: 0, y: 0 }) by {
                    if k < prev.len() {
                        assert(buildings@[k] == prev[k]);
                        assert(!prev[k].lit);
                        assert(prev[k].follow.offset == (Coords2d { x: 0, y: 0 }));
                    } else {
                        assert(!buildings@[k].lit);
                        assert(buildings@[k].follow.offset == (Coords2d { x: 0, y: 0 }));
                    }
                }
            }
            proof {
                assert((n + 1) * BUILDING_MAX_WIDTH == n * BUILDING_MAX_WIDTH + BUILDING_MAX_WIDTH)
                    by (nonlinear_arith);
            }
            x_coord = x_coord + (width as i64);
            n = n + 1;
        }
    }

    /// The star field: [`NUM_STARS`] stars at random spots over the sky.
    pub fn make_stars() -> (stars: Vec<Coords2d>)
        ensures
            stars@.len() == NUM_STARS,
            forall|k: int|
                0 <= k < stars@.len() ==> 0 <= #[trigger] stars@[k].x < SCREEN_WIDTH && 0
                    <= stars@[k].y < AVAILABLE_BACKGROUND_HEIGHT,
    {
        let mut stars: Vec<Coords2d> = Vec::new();
        let mut n: u8 = 0;
        while n < NUM_STARS
            invariant
                0 <= n <= NUM_STARS,
                stars@.len() == n,
                forall|k: int|
                    0 <= k < stars@.len() ==> 0 <= #[trigger] stars@[k].x < SCREEN_WIDTH && 0
                        <= stars@[k].y < AVAILABLE_BACKGROUND_HEIGHT,
            decreases NUM_STARS - n,
        {
            let x = random_in_range(0, (SCREEN_WIDTH as u64) - 1);
            let y = random_in_range(0, AVAILABLE_BACKGROUND_HEIGHT - 1);
            stars.push(Coords2d { x: x as i64, y: y as i64 });
            n = n + 1;
        }
        stars
    }

    /// The sun: a camera-fixed anchor and its trailing pieces, all starting
    /// at the origin until the first position update.
    pub fn make_sun() -> (sun: (FixedToCamera, Vec<FixedToCamera>))
        ensures
            sun.0.base_position == (Coords2d { x: 0, y: 0 }),
            sun.0.offset == (Coords2d { x: 0, y: 0 }),
            sun.1@.len() == 2,
            forall|k: int|
                0 <= k < sun.1@.len() ==> #[trigger] sun.1@[k] == (FixedToCamera {
                    base_position: Coords2d { x: 0, y: 0 },
                    offset: Coords2d { x: 0, y: 0 },
                }),
    {
        let anchor = FixedToCamera {
            base_position: Coords2d { x: 0, y: 0 },
            offset: Coords2d { x: 0, y: 0 },
        };
        let mut pieces: Vec<FixedToCamera> = Vec::new();
        pieces.push(anchor);
        pieces.push(anchor);
        (anchor, pieces)
    }
}

} // verus!
