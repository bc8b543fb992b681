//! Procedural objects: jittered obstacle spawning, occasional life pickups,
//! independently drifting obstacles, viewport-based cleanup, and the
//! distance markers placed at fixed spacing.

use vstd::prelude::*;

use crate::camera::{Coords2d, Moveable};
use crate::constants::{PLAYER_Y_OFFSET, SCREEN_HEIGHT, SCREEN_WIDTH};
use crate::game_manager::{GameManager, GameState};
use crate::player::Player;
use crate::rng::random_in_range;
use crate::timer::Timer;
use crate::world_setup::BuildingPiece;

verus! {

/// Shortest wait between two obstacle spawn decisions, in milliseconds.
pub const GENERATE_OBSTACLE_WAIT_TIME_MILLIS_MIN: u64 = 250;

/// Longest wait between two obstacle spawn decisions, in milliseconds.
pub const GENERATE_OBSTACLE_WAIT_TIME_MILLIS_MAX: u64 = 3000;

/// Shortest interval of an elevated obstacle's own drift, in milliseconds.
pub const OBSTACLE_MOVE_INTERVAL_MILLIS_MIN: u64 = 300;

/// Longest interval of an elevated obstacle's own drift, in milliseconds.
pub const OBSTACLE_MOVE_INTERVAL_MILLIS_MAX: u64 = 800;

/// Distance between two distance markers.
pub const DISTANCE_MARKER_SPACING: u64 = 500;

/// Milliseconds between two life-pickup spawn rolls.
pub const GENERATE_PLAYER_LIFE_WAIT_TIME_MILLIS: u64 = 5000;

/// Percent chance that a life-pickup spawn roll succeeds.
pub const GENERATE_PLAYER_LIFE_CHANCE: u8 = 10;

/// How far behind the camera an entity may fall before it is destroyed.
pub const VIEWPORT_CLEANUP_MARGIN: i64 = 10;

/// Whether an obstacle sits on the ground or hovers above it.
#[derive(Clone, Copy, Debug, PartialEq, Eq, Structural)]
pub enum ObstacleType {
    Ground,
    Air,
}

/// One obstacle in the world; elevated ones carry their own drift pacing.
#[derive(Clone, Copy, Debug)]
pub struct Obstacle {
    pub position: Coords2d,
    pub obstacle_type: ObstacleType,
    pub moveable: Option<Moveable>,
}

/// A life pickup floating ahead of the player.
#[derive(Clone, Copy, Debug, PartialEq, Eq, Structural)]
pub struct ExtraLife {
    pub position: Coords2d,
}

/// One cell of a distance marker, remembering the distance it marks.
#[derive(Clone, Copy, Debug, PartialEq, Eq, Structural)]
pub struct DistanceMarkerPiece {
    pub position: Coords2d,
    pub distance: u64,
}

/// The spawn bookkeeping: the jittered obstacle timer and its freshly
/// drawn wait, and the fixed-interval life-pickup timer.
#[derive(Clone, Copy, Debug)]
pub struct GameObjectManager {
    pub obstacle_generation_timer: Timer,
    pub extra_life_generation_timer: Timer,
    pub next_obstacle_wait_time: u64,
    pub scroll_timer: Timer,
}

/// The row an obstacle of the given kind occupies.
pub open spec fn spec_obstacle_y(t: ObstacleType) -> int {
    match t {
        ObstacleType::Ground => SCREEN_HEIGHT - PLAYER_Y_OFFSET,
        ObstacleType::Air => SCREEN_HEIGHT - PLAYER_Y_OFFSET - 2,
    }
}

/// What holds of any obstacle freshly spawned with the camera at
/// `camera_x`: it stands one column beyond the right screen edge, at the
/// row of its kind, and an elevated one drifts on its own jittered pacing.
pub open spec fn spec_is_valid_spawned_obstacle(ob: Obstacle, camera_x: i64) -> bool {
    &&& ob.position.x == camera_x + SCREEN_WIDTH + 1
    &&& ob.position.y == spec_obstacle_y(ob.obstacle_type)
    &&& (ob.obstacle_type == ObstacleType::Ground ==> ob.moveable is None)
    &&& (ob.obstacle_type == ObstacleType::Air ==> ob.moveable is Some
        && ob.moveable->0.move_timer == (Timer { elapsed_ms: 0, running: true })
        && OBSTACLE_MOVE_INTERVAL_MILLIS_MIN <= ob.moveable->0.move_interval
            <= OBSTACLE_MOVE_INTERVAL_MILLIS_MAX)
}

/// What holds of a freshly spawned life pickup: one column beyond the
/// right screen edge, one row above the ground.
pub open spec fn spec_is_valid_spawned_extra_life(e: ExtraLife, camera_x: i64) -> bool {
    &&& e.position.x == camera_x + SCREEN_WIDTH + 1
    &&& e.position.y == SCREEN_HEIGHT - PLAYER_Y_OFFSET - 1
}

/// An obstacle after one drift pass: one whose own pacing has waited out
/// its interval steps one column left and restarts the pacing; any other
/// is unchanged.
pub open spec fn spec_moved_obstacle(ob: Obstacle) -> Obstacle {
    if ob.moveable is Some && ob.moveable->0.move_timer.elapsed_ms >= ob.moveable->0.move_interval {
        Obstacle {
            position: Coords2d { x: (ob.position.x - 1) as i64, y: ob.position.y },
            obstacle_type: ob.obstacle_type,
            moveable: Some(
                Moveable {
                    move_timer: Timer { elapsed_ms: 0, running: true },
                    move_interval: ob.moveable->0.move_interval,
                },
            ),
        }
    } else {
        ob
    }
}

/// The smallest multiple of [`DISTANCE_MARKER_SPACING`] strictly greater
/// than the given distance.
pub open spec fn spec_next_marker_distance(distance: u64) -> u64 {
    ((distance / DISTANCE_MARKER_SPACING + 1) * DISTANCE_MARKER_SPACING) as u64
}

/// The next marker distance is indeed the smallest multiple of the spacing
/// strictly greater than the distance, and lies at most one spacing ahead.
pub proof fn lemma_next_marker_distance(distance: u64)
    requires
        distance + DISTANCE_MARKER_SPACING <= u64::MAX,
    ensures
        spec_next_marker_distance(distance) > distance,
        spec_next_marker_distance(distance) <= distance + DISTANCE_MARKER_SPACING,
        spec_next_marker_distance(distance) % DISTANCE_MARKER_SPACING == 0,
        forall|m: u64|
            #[trigger] (m % DISTANCE_MARKER_SPACING) == 0 && m > distance ==> m
                >= spec_next_marker_distance(distance),
{
    let d = distance as int;
    let s = DISTANCE_MARKER_SPACING as int;
    let q = d / s;
    vstd::arithmetic::div_mod::lemma_fundamental_div_mod(d, s);
    assert(d == s * q + d % s);
    assert((q + 1) * s == q * s + s) by (nonlinear_arith);
    assert forall|m: u64| #[trigger] (m % DISTANCE_MARKER_SPACING) == 0 && m > distance implies m
        >= spec_next_marker_distance(distance) by {
        let mi = m as int;
        let mq = mi / s;
        vstd::arithmetic::div_mod::lemma_fundamental_div_mod(mi, s);
        assert(mi == s * mq);
        if mq <= q {
            assert(s * mq <= s * q) by (nonlinear_arith)
                requires
                    mq <= q,
                    s > 0,
            ;
            assert(mi <= s * q);
            assert(s * q <= d);
            assert(false);
        }
        assert(mq >= q + 1);
        assert(s * mq >= s * (q + 1)) by (nonlinear_arith)
            requires
                mq >= q + 1,
                s > 0,
        ;
        assert(s * (q + 1) == (q + 1) * s) by (nonlinear_arith);
    }
}

/// The pieces of one distance marker: a five-cell board one row above the
/// ground starting at the marked distance, a support under each end of the
/// board, and the label cell at the board's left end.
pub open spec fn spec_distance_marker_pieces(distance: u64) -> Seq<DistanceMarkerPiece> {
    let board_y = SCREEN_HEIGHT - PLAYER_Y_OFFSET - 1;
    let support_y = SCREEN_HEIGHT - PLAYER_Y_OFFSET;
    seq![
        DistanceMarkerPiece {
            position: Coords2d { x: distance as i64, y: board_y as i64 },
            distance,
        },
        DistanceMarkerPiece {
            position: Coords2d { x: (distance + 1) as i64, y: board_y as i64 },
            distance,
        },
        DistanceMarkerPiece {
            position: Coords2d { x: (distance + 2) as i64, y: board_y as i64 },
            distance,
        },
        DistanceMarkerPiece {
            position: Coords2d { x: (distance + 3) as i64, y: board_y as i64 },
            distance,
        },
        DistanceMarkerPiece {
            position: Coords2d { x: (distance + 4) as i64, y: board_y as i64 },
            distance,
        },
        DistanceMarkerPiece {
            position: Coords2d { x: distance as i64, y: support_y as i64 },
            distance,
        },
        DistanceMarkerPiece {
            position: Coords2d { x: (distance + 4) as i64, y: support_y as i64 },
            distance,
        },
        DistanceMarkerPiece {
            position: Coords2d { x: distance as i64, y: board_y as i64 },
            distance,
        },
    ]
}

/// Appends the pieces of a marker for the given distance; see
/// [`spec_distance_marker_pieces`].
pub fn add_distance_marker(marker_pieces: &mut Vec<DistanceMarkerPiece>, distance: u64)
    requires
        distance + 4 <= i64::MAX,
    ensures
        final(marker_pieces)@ == old(marker_pieces)@ + spec_distance_marker_pieces(distance),
{
    let board_y: i64 = (SCREEN_HEIGHT as i64) - PLAYER_Y_OFFSET - 1;
    let support_y: i64 = (SCREEN_HEIGHT as i64) - PLAYER_Y_OFFSET;
    let x: i64 = distance as i64;
    marker_pieces.push(
        DistanceMarkerPiece { position: Coords2d { x, y: board_y }, distance },
    );
    marker_pieces.push(
        DistanceMarkerPiece { position: Coords2d { x: x + 1, y: board_y }, distance },
    );
    marker_pieces.push(
        DistanceMarkerPiece { position: Coords2d { x: x + 2, y: board_y }, distance },
    );
    marker_pieces.push(
        DistanceMarkerPiece { position: Coords2d { x: x + 3, y: board_y }, distance },
    );
    marker_pieces.push(
        DistanceMarkerPiece { position: Coords2d { x: x + 4, y: board_y }, distance },
    );
    marker_pieces.push(
        DistanceMarkerPiece { position: Coords2d { x, y: support_y }, distance },
    );
    marker_pieces.push(
        DistanceMarkerPiece { position: Coords2d { x: x + 4, y: support_y }, distance },
    );
    marker_pieces.push(
        DistanceMarkerPiece { position: Coords2d { x, y: board_y }, distance },
    );
    proof {
        assert(marker_pieces@ =~= old(marker_pieces)@ + spec_distance_marker_pieces(distance));
    }
}

/// One step of rebuilding a filtered sequence: filtering one element more
/// keeps the filtered prefix and appends the element iff it passes.
proof fn lemma_filter_push<A>(s: Seq<A>, pred: spec_fn(A) -> bool, i: int)
    requires
        0 <= i < s.len(),
    ensures
        s.subrange(0, i + 1).filter(pred) == if pred(s[i]) {
            s.subrange(0, i).filter(pred).push(s[i])
        } else {
            s.subrange(0, i).filter(pred)
        },
{
    let s1 = s.subrange(0, i + 1);
    assert(s1.drop_last() =~= s.subrange(0, i));
    assert(s1.last() == s[i]);
    reveal_with_fuel(Seq::filter, 2);
}

/// The spawn systems and the cleanup of what scrolled away.
pub struct GameObjectsSystemsGenerator {}

impl GameObjectsSystemsGenerator {
    /// Fresh spawn bookkeeping: both spawn timers running and the first
    /// obstacle wait drawn from its range.
    pub fn make_obstacle_manager() -> (m: GameObjectManager)
        ensures
            m.obstacle_generation_timer == (Timer { elapsed_ms: 0, running: true }),
            m.extra_life_generation_timer == (Timer { elapsed_ms: 0, running: true }),
            m.scroll_timer == (Timer { elapsed_ms: 0, running: true }),
            GENERATE_OBSTACLE_WAIT_TIME_MILLIS_MIN <= m.next_obstacle_wait_time
                <= GENERATE_OBSTACLE_WAIT_TIME_MILLIS_MAX,
    {
        GameObjectManager {
            obstacle_generation_timer: Timer::start_new(),
            extra_life_generation_timer: Timer::start_new(),
            scroll_timer: Timer::start_new(),
            next_obstacle_wait_time: random_in_range(
                GENERATE_OBSTACLE_WAIT_TIME_MILLIS_MIN,
                GENERATE_OBSTACLE_WAIT_TIME_MILLIS_MAX,
            ),
        }
    }

    /// An obstacle of the given kind spawned with the camera at
    /// `camera_x`; an elevated one draws its own drift interval.
    pub fn make_obstacle(camera_x: i64, obstacle_type: ObstacleType) -> (ob: Obstacle)
        requires
            camera_x + SCREEN_WIDTH + 1 <= i64::MAX,
        ensures
            ob.obstacle_type == obstacle_type,
            spec_is_valid_spawned_obstacle(ob, camera_x),
    {
        let x: i64 = camera_x + (SCREEN_WIDTH as i64) + 1;
        match obstacle_type {
            ObstacleType::Ground => Obstacle {
                position: Coords2d { x, y: (SCREEN_HEIGHT as i64) - PLAYER_Y_OFFSET },
                obstacle_type,
                moveable: None,
            },
            ObstacleType::Air => Obstacle {
                position: Coords2d { x, y: (SCREEN_HEIGHT as i64) - PLAYER_Y_OFFSET - 2 },
                obstacle_type,
                moveable: Some(
                    Moveable {
                        move_timer: Timer::start_new(),
                        move_interval: random_in_range(
                            OBSTACLE_MOVE_INTERVAL_MILLIS_MIN,
                            OBSTACLE_MOVE_INTERVAL_MILLIS_MAX,
                        ),
                    },
                ),
            },
        }
    }

    /// The obstacle spawn decision. Once the obstacle timer has waited out
    /// the drawn wait: while playing one obstacle of a random kind spawns
    /// at the right edge; in every case the timer restarts and a new wait
    /// is drawn from the range, so the cadence stays tied to the clock.
    pub fn generate_obstacles(
        manager: &mut GameObjectManager,
        game_manager: &GameManager,
        camera_x: i64,
        obstacles: &mut Vec<Obstacle>,
    )
        requires
            camera_x + SCREEN_WIDTH + 1 <= i64::MAX,
        ensures
            ({
                let fires = old(manager).obstacle_generation_timer.elapsed_ms >= old(
                    manager,
                ).next_obstacle_wait_time;
                let playing = game_manager.game_state == GameState::Playing;
                &&& !fires ==> *final(manager) == *old(manager)
                    && final(obstacles)@ == old(obstacles)@
                &&& fires ==> final(manager).obstacle_generation_timer == (Timer {
                    elapsed_ms: 0,
                    running: true,
                }) && GENERATE_OBSTACLE_WAIT_TIME_MILLIS_MIN <= final(manager).next_obstacle_wait_time
                    && final(manager).next_obstacle_wait_time
                    <= GENERATE_OBSTACLE_WAIT_TIME_MILLIS_MAX
                    && final(manager).extra_life_generation_timer
                    == old(manager).extra_life_generation_timer
                    && final(manager).scroll_timer == old(manager).scroll_timer
                &&& (fires && playing) ==> final(obstacles)@.len() == old(obstacles)@.len() + 1
                    && final(obstacles)@.drop_last() == old(obstacles)@
                    && spec_is_valid_spawned_obstacle(final(obstacles)@.last(), camera_x)
                &&& (fires && !playing) ==> final(obstacles)@ == old(obstacles)@
            }),
    {
        if manager.obstacle_generation_timer.elapsed_millis() >= manager.next_obstacle_wait_time {
            if game_manager.is_playing() {
                let coin = random_in_range(0, 1);
                let obstacle_type = if coin == 0 {
                    ObstacleType::Ground
                } else {
                    ObstacleType::Air
                };
                let ob = Self::make_obstacle(camera_x, obstacle_type);
                obstacles.push(ob);
                proof {
                    assert(obstacles@.drop_last() =~= old(obstacles)@);
                }
            }
            manager.obstacle_generation_timer.restart();
            manager.next_obstacle_wait_time = random_in_range(
                GENERATE_OBSTACLE_WAIT_TIME_MILLIS_MIN,
                GENERATE_OBSTACLE_WAIT_TIME_MILLIS_MAX,
            );
        }
    }

    /// The life-pickup spawn decision. Once its fixed-interval timer has
    /// elapsed, a percent roll decides whether a pickup spawns ahead of
    /// the camera (only while playing); the timer restarts either way.
    pub fn generate_player_lives(
        manager: &mut GameObjectManager,
        game_manager: &GameManager,
        camera_x: i64,
        extra_lives: &mut Vec<ExtraLife>,
    )
        requires
            camera_x + SCREEN_WIDTH + 1 <= i64::MAX,
        ensures
            ({
                let fires = old(manager).extra_life_generation_timer.elapsed_ms
                    >= GENERATE_PLAYER_LIFE_WAIT_TIME_MILLIS;
                let playing = game_manager.game_state == GameState::Playing;
                &&& !fires ==> *final(manager) == *old(manager)
                    && final(extra_lives)@ == old(extra_lives)@
                &&& fires ==> *final(manager) == (GameObjectManager {
                    extra_life_generation_timer: Timer { elapsed_ms: 0, running: true },
                    ..*old(manager)
                })
                &&& (fires && playing) ==> final(extra_lives)@ == old(extra_lives)@
                    || (final(extra_lives)@.len() == old(extra_lives)@.len() + 1
                    && final(extra_lives)@.drop_last() == old(extra_lives)@
                    && spec_is_valid_spawned_extra_life(final(extra_lives)@.last(), camera_x))
                &&& (fires && !playing) ==> final(extra_lives)@ == old(extra_lives)@
            }),
    {
        if manager.extra_life_generation_timer.elapsed_millis()
            >= GENERATE_PLAYER_LIFE_WAIT_TIME_MILLIS {
            let roll = random_in_range(0, 99);
            if roll < GENERATE_PLAYER_LIFE_CHANCE as u64 && game_manager.is_playing() {
                extra_lives.push(
                    ExtraLife {
                        position: Coords2d {
                            x: camera_x + (SCREEN_WIDTH as i64) + 1,
                            y: (SCREEN_HEIGHT as i64) - PLAYER_Y_OFFSET - 1,
                        },
                    },
                );
                proof {
                    assert(extra_lives@.drop_last() =~= old(extra_lives)@);
                }
            }
            manager.extra_life_generation_timer.restart();
        }
    }

    /// The drift pass: while playing, every elevated obstacle whose own
    /// pacing has waited out its interval steps one column further left
    /// than the world scroll and restarts its pacing.
    pub fn move_moveable_obstacles(game_manager: &GameManager, obstacles: &mut Vec<Obstacle>)
        requires
            forall|i: int|
                0 <= i < old(obstacles)@.len() ==> #[trigger] old(obstacles)@[i].position.x
                    > i64::MIN,
        ensures
            game_manager.game_state != GameState::Playing ==> final(obstacles)@ == old(obstacles)@,
            game_manager.game_state == GameState::Playing ==> final(obstacles)@.len()
                == old(obstacles)@.len() && (forall|i: int|
                0 <= i < old(obstacles)@.len() ==> #[trigger] final(obstacles)@[i]
                    == spec_moved_obstacle(old(obstacles)@[i])),
    {
        if !game_manager.is_playing() {
            return ;
        }
        let n = obstacles.len();
        let mut i: usize = 0;
        while i < n
            invariant
                0 <= i <= n,
                n == obstacles@.len(),
                obstacles@.len() == old(obstacles)@.len(),
                forall|j: int|
                    0 <= j < i ==> #[trigger] obstacles@[j] == spec_moved_obstacle(
                        old(obstacles)@[j],
                    ),
                forall|j: int| i <= j < n ==> #[trigger] obstacles@[j] == old(obstacles)@[j],
                forall|j: int|
                    0 <= j < n ==> #[trigger] old(obstacles)@[j].position.x > i64::MIN,
            decreases n - i,
        {
            let ob = obstacles[i];
            if let Some(m) = ob.moveable {
                if m.move_timer.elapsed_millis() >= m.move_interval {
                    obstacles[i] = Obstacle {
                        position: Coords2d { x: ob.position.x - 1, y: ob.position.y },
                        obstacle_type: ob.obstacle_type,
                        moveable: Some(
                            Moveable {
                                move_timer: Timer::start_new(),
                                move_interval: m.move_interval,
                            },
                        ),
                    };
                }
            }
            i = i + 1;
        }
    }

    /// The viewport garbage collection: an entity more than
    /// [`VIEWPORT_CLEANUP_MARGIN`] columns behind the camera is destroyed,
    /// regardless of its type; everything else is retained in order.
    pub fn cleanup_entities(
        obstacles: &mut Vec<Obstacle>,
        extra_lives: &mut Vec<ExtraLife>,
        marker_pieces: &mut Vec<DistanceMarkerPiece>,
        camera_x: i64,
    )
        requires
            camera_x > i64::MIN + VIEWPORT_CLEANUP_MARGIN,
        ensures
            final(obstacles)@ == old(obstacles)@.filter(
                |o: Obstacle| o.position.x >= camera_x - VIEWPORT_CLEANUP_MARGIN,
            ),
            final(extra_lives)@ == old(extra_lives)@.filter(
                |e: ExtraLife| e.position.x >= camera_x - VIEWPORT_CLEANUP_MARGIN,
            ),
            final(marker_pieces)@ == old(marker_pieces)@.filter(
                |p: DistanceMarkerPiece| p.position.x >= camera_x - VIEWPORT_CLEANUP_MARGIN,
            ),
    {
        retain_obstacles(obstacles, camera_x);
        retain_extra_lives(extra_lives, camera_x);
        retain_marker_pieces(marker_pieces, camera_x);
    }

    /// The marker generator: when no marker piece exists at all, the next
    /// marker is placed at the smallest spacing multiple strictly beyond
    /// the player's distance; while any piece remains, nothing happens.
    pub fn generate_distance_markers(
        player: &Player,
        marker_pieces: &mut Vec<DistanceMarkerPiece>,
    )
        requires
            player.distance_traveled + DISTANCE_MARKER_SPACING + 4 <= i64::MAX,
        ensures
            old(marker_pieces)@.len() > 0 ==> final(marker_pieces)@ == old(marker_pieces)@,
            old(marker_pieces)@.len() == 0 ==> final(marker_pieces)@
                == spec_distance_marker_pieces(
                spec_next_marker_distance(player.distance_traveled),
            ),
    {
        if marker_pieces.len() == 0 {
            proof {
                lemma_next_marker_distance(player.distance_traveled);
            }
            let q = player.distance_traveled / DISTANCE_MARKER_SPACING;
            let next = (q + 1) * DISTANCE_MARKER_SPACING;
            add_distance_marker(marker_pieces, next);
            proof {
                assert(marker_pieces@ =~= spec_distance_marker_pieces(next));
            }
        }
    }

    /// The restart event: all obstacles and marker pieces are destroyed,
    /// and every skyline piece's camera offset returns to zero.
    pub fn handle_restart_game(
        obstacles: &mut Vec<Obstacle>,
        marker_pieces: &mut Vec<DistanceMarkerPiece>,
        buildings: &mut Vec<BuildingPiece>,
    )
        ensures
            final(obstacles)@.len() == 0,
            final(marker_pieces)@.len() == 0,
            final(buildings)@.len() == old(buildings)@.len(),
            forall|i: int|
                0 <= i < old(buildings)@.len() ==> #[trigger] final(buildings)@[i]
                    == (BuildingPiece {
                    follow: crate::camera::FollowCamera {
                        base_position: old(buildings)@[i].follow.base_position,
                        offset: Coords2d { x: 0, y: 0 },
                    },
                    ..old(buildings)@[i]
                }),
    {
        obstacles.clear();
        marker_pieces.clear();
        let n = buildings.len();
        let mut i: usize = 0;
        while i < n
            invariant
                0 <= i <= n,
                n == buildings@.len(),
                buildings@.len() == old(buildings)@.len(),
                forall|j: int|
                    0 <= j < i ==> #[trigger] buildings@[j] == (BuildingPiece {
                        follow: crate::camera::FollowCamera {
                            base_position: old(buildings)@[j].follow.base_position,
                            offset: Coords2d { x: 0, y: 0 },
                        },
                        ..old(buildings)@[j]
                    }),
                forall|j: int| i <= j < n ==> #[trigger] buildings@[j] == old(buildings)@[j],
            decreases n - i,
        {
            let piece = buildings[i];
            buildings[i] = BuildingPiece {
                follow: crate::camera::FollowCamera {
                    base_position: piece.follow.base_position,
                    offset: Coords2d { x: 0, y: 0 },
                },
                lit: piece.lit,
                alternate_color: piece.alternate_color,
            };
            i = i + 1;
        }
    }
}

/// Keeps the obstacles inside the cleanup window, in order.
fn retain_obstacles(obstacles: &mut Vec<Obstacle>, camera_x: i64)
    requires
        camera_x > i64::MIN + VIEWPORT_CLEANUP_MARGIN,
    ensures
        final(obstacles)@ == old(obstacles)@.filter(
            |o: Obstacle| o.position.x >= camera_x - VIEWPORT_CLEANUP_MARGIN,
        ),
{
    let threshold = camera_x - VIEWPORT_CLEANUP_MARGIN;
    let n = obstacles.len();
    let mut kept: Vec<Obstacle> = Vec::new();
    let mut i: usize = 0;
    while i < n
        invariant
            0 <= i <= n,
            n == obstacles@.len(),
            obstacles@ == old(obstacles)@,
            threshold == camera_x - VIEWPORT_CLEANUP_MARGIN,
            kept@ == obstacles@.subrange(0, i as int).filter(
                |o: Obstacle| o.position.x >= camera_x - VIEWPORT_CLEANUP_MARGIN,
            ),
        decreases n - i,
    {
        proof {
            lemma_filter_push(
                obstacles@,
                |o: Obstacle| o.position.x >= camera_x - VIEWPORT_CLEANUP_MARGIN,
                i as int,
            );
        }
        if obstacles[i].position.x >= threshold {
            kept.push(obstacles[i]);
        }
        i = i + 1;
    }
    proof {
        assert(obstacles@.subrange(0, n as int) =~= obstacles@);
    }
    *obstacles = kept;
}

/// Keeps the life pickups inside the cleanup window, in order.
fn retain_extra_lives(extra_lives: &mut Vec<ExtraLife>, camera_x: i64)
    requires
        camera_x > i64::MIN + VIEWPORT_CLEANUP_MARGIN,
    ensures
        final(extra_lives)@ == old(extra_lives)@.filter(
            |e: ExtraLife| e.position.x >= camera_x - VIEWPORT_CLEANUP_MARGIN,
        ),
{
    let threshold = camera_x - VIEWPORT_CLEANUP_MARGIN;
    let n = extra_lives.len();
    let mut kept: Vec<ExtraLife> = Vec::new();
    let mut i: usize = 0;
    while i < n
        invariant
            0 <= i <= n,
            n == extra_lives@.len(),
            extra_lives@ == old(extra_lives)@,
            threshold == camera_x - VIEWPORT_CLEANUP_MARGIN,
            kept@ == extra_lives@.subrange(0, i as int).filter(
                |e: ExtraLife| e.position.x >= camera_x - VIEWPORT_CLEANUP_MARGIN,
            ),
        decreases n - i,
    {
        proof {
            lemma_filter_push(
                extra_lives@,
                |e: ExtraLife| e.position.x >= camera_x - VIEWPORT_CLEANUP_MARGIN,
                i as int,
            );
        }
        if extra_lives[i].position.x >= threshold {
            kept.push(extra_lives[i]);
        }
        i = i + 1;
    }
    proof {
        assert(extra_lives@.subrange(0, n as int) =~= extra_lives@);
    }
    *extra_lives = kept;
}

/// Keeps the marker pieces inside the cleanup window, in order.
fn retain_marker_pieces(marker_pieces: &mut Vec<DistanceMarkerPiece>, camera_x: i64)
    requires
        camera_x > i64::MIN + VIEWPORT_CLEANUP_MARGIN,
    ensures
        final(marker_pieces)@ == old(marker_pieces)@.filter(
            |p: DistanceMarkerPiece| p.position.x >= camera_x - VIEWPORT_CLEANUP_MARGIN,
        ),
{
    let threshold = camera_x - VIEWPORT_CLEANUP_MARGIN;
    let n = marker_pieces.len();
    let mut kept: Vec<DistanceMarkerPiece> = Vec::new();
    let mut i: usize = 0;
    while i < n
        invariant
            0 <= i <= n,
            n == marker_pieces@.len(),
            marker_pieces@ == old(marker_pieces)@,
            threshold == camera_x - VIEWPORT_CLEANUP_MARGIN,
            kept@ == marker_pieces@.subrange(0, i as int).filter(
                |p: DistanceMarkerPiece| p.position.x >= camera_x - VIEWPORT_CLEANUP_MARGIN,
            ),
        decreases n - i,
    {
        proof {
            lemma_filter_push(
                marker_pieces@,
                |p: DistanceMarkerPiece| p.position.x >= camera_x - VIEWPORT_CLEANUP_MARGIN,
                i as int,
            );
        }
        if marker_pieces[i].position.x >= threshold {
            kept.push(marker_pieces[i]);
        }
        i = i + 1;
    }
    proof {
        assert(marker_pieces@.subrange(0, n as int) =~= marker_pieces@);
    }
    *marker_pieces = kept;
}

} // verus!
