//! The per-tick world systems: advancing the hour clock, blending the
//! world's colors toward the current bucket's targets, moving the sun, and
//! toggling building windows.

use vstd::prelude::*;

use crate::camera::FixedToCamera;
use crate::color::{
    blend_color_to_target, get_color, sky_colors, spec_blend, spec_sky_color, spec_star_color,
    spec_sun_color, star_colors, sun_colors, Rgb,
};
use crate::constants::{SCREEN_HEIGHT, SCREEN_WIDTH};
use crate::rng::random_in_range;
use crate::timer::Timer;
use crate::world_setup::BuildingPiece;
use crate::world_time::{
    TimeOfDay, WorldTime, ADVANCE_TIME_WAIT_TIME_MILLIS, NOON_TIME, SUNRISE_TIME, SUNSET_TIME,
};

verus! {

/// Milliseconds between two chances to switch lit windows off by day.
pub const WINDOW_TURN_OFF_TIME_MILLIS: u64 = 300;

/// The sun's column when it is up: `SCREEN_WIDTH` scaled by how far the
/// hour has come from sunrise to sunset, rounded half-up to the nearest
/// column (the literal 160 is twice the screen width, 14 the span of hours
/// from sunrise to sunset, 28 twice that span); off-screen (`-100`)
/// otherwise.
pub open spec fn spec_sun_x(current_time: u8) -> i64 {
    if current_time <= SUNRISE_TIME || current_time > SUNSET_TIME {
        -100i64
    } else {
        let u = (current_time - SUNRISE_TIME) as int;
        ((160 * u + 14) / 28) as i64
    }
}

/// The sun's row when it is up: an inverted parabola peaking one row from
/// the top at noon and near the ground at sunrise and sunset, rounded
/// half-up to the nearest row (the literal 20 is twice the rows the sun
/// traverses, 49 the squared span of hours from sunrise to noon, 98 twice
/// that); off-screen (`-100`) otherwise.
pub open spec fn spec_sun_y(current_time: u8) -> i64 {
    if current_time <= SUNRISE_TIME || current_time > SUNSET_TIME {
        -100i64
    } else {
        let d = (current_time - NOON_TIME) as int;
        (1 + (20 * (d * d) + 49) / 98) as i64
    }
}

/// The sun's position stays near the screen: its column within the screen
/// width and its row within the screen height, or the off-screen sentinel.
pub proof fn lemma_sun_position_bounds(t: u8)
    ensures
        spec_sun_x(t) == -100 || 0 <= spec_sun_x(t) <= SCREEN_WIDTH,
        spec_sun_y(t) == -100 || 1 <= spec_sun_y(t) <= SCREEN_HEIGHT,
{
    if !(t <= SUNRISE_TIME || t > SUNSET_TIME) {
        let d = (t - NOON_TIME) as int;
        assert(0 <= d * d <= 49) by (nonlinear_arith)
            requires
                -6 <= d <= 7,
        ;
    }
}

/// The sun's column for an hour; see [`spec_sun_x`].
pub fn get_sun_x(current_time: u8) -> (x: i64)
    ensures
        x == spec_sun_x(current_time),
{
    if current_time <= SUNRISE_TIME || current_time > SUNSET_TIME {
        -100
    } else {
        let u: u64 = (current_time - SUNRISE_TIME) as u64;
        ((160 * u + 14) / 28) as i64
    }
}

/// The sun's row for an hour; see [`spec_sun_y`].
pub fn get_sun_y(current_time: u8) -> (y: i64)
    ensures
        y == spec_sun_y(current_time),
{
    if current_time <= SUNRISE_TIME || current_time > SUNSET_TIME {
        -100
    } else {
        let d: u64 = if current_time >= NOON_TIME {
            (current_time - NOON_TIME) as u64
        } else {
            (NOON_TIME - current_time) as u64
        };
        proof {
            let dd = (current_time - NOON_TIME) as int;
            assert(d * d == dd * dd && d * d <= 49) by (nonlinear_arith)
                requires
                    (d == dd || d == -dd) && -7 <= dd <= 7,
            ;
        }
        (1 + (20 * (d * d) + 49) / 98) as i64
    }
}

/// The shared colors of the blended visual targets: the sky (the default
/// background), the stars' color and whether they show, and the sun.
#[derive(Clone, Copy, Debug, PartialEq, Eq, Structural)]
pub struct WorldColors {
    pub sky: Option<Rgb>,
    pub star: Option<Rgb>,
    pub star_visible: bool,
    pub sun: Option<Rgb>,
}

impl WorldColors {
    /// The colors before the first tick: no sky or star color assigned
    /// yet, stars drawn, the sun plain yellow.
    pub fn new() -> (c: WorldColors)
        ensures
            c.sky is None,
            c.star is None,
            c.star_visible,
            c.sun == Some(Rgb(255, 255, 0)),
    {
        WorldColors { sky: None, star: None, star_visible: true, sun: Some(Rgb(255, 255, 0)) }
    }
}

/// How many flags in a sequence of booleans are set.
pub open spec fn spec_count_true(s: Seq<bool>) -> int
    decreases s.len(),
{
    if s.len() == 0 {
        0
    } else {
        spec_count_true(s.drop_last()) + if s.last() {
            1int
        } else {
            0int
        }
    }
}

/// How many pieces of a skyline have their window lit.
pub open spec fn spec_count_lit(s: Seq<BuildingPiece>) -> int
    decreases s.len(),
{
    if s.len() == 0 {
        0
    } else {
        spec_count_lit(s.drop_last()) + if s.last().lit {
            1int
        } else {
            0int
        }
    }
}

/// The count of lit pieces lies between zero and the length.
proof fn lemma_count_lit_bounds(s: Seq<BuildingPiece>)
    ensures
        0 <= spec_count_lit(s) <= s.len(),
    decreases s.len(),
{
    if s.len() > 0 {
        lemma_count_lit_bounds(s.drop_last());
    }
}

/// Extending a prefix by one element adds that element's flag to the count.
proof fn lemma_count_lit_step(s: Seq<BuildingPiece>, i: int)
    requires
        0 <= i < s.len(),
    ensures
        spec_count_lit(s.subrange(0, i + 1)) == spec_count_lit(s.subrange(0, i)) + if s[i].lit {
            1int
        } else {
            0int
        },
{
    let s1 = s.subrange(0, i + 1);
    assert(s1.drop_last() =~= s.subrange(0, i));
    assert(s1.last() == s[i]);
}

/// Overwriting one flag changes the count by the difference of the flags.
proof fn lemma_count_true_update(s: Seq<bool>, i: int, v: bool)
    requires
        0 <= i < s.len(),
    ensures
        spec_count_true(s.update(i, v)) == spec_count_true(s) - (if s[i] {
            1int
        } else {
            0int
        }) + (if v {
            1int
        } else {
            0int
        }),
    decreases s.len(),
{
    let s2 = s.update(i, v);
    if i == s.len() - 1 {
        assert(s2.drop_last() =~= s.drop_last());
        assert(s2.last() == v);
    } else {
        assert(s2.drop_last() =~= s.drop_last().update(i, v));
        lemma_count_true_update(s.drop_last(), i, v);
        assert(s2.last() == s.last());
    }
}

/// Overwriting one piece changes the lit count by the difference of the
/// two pieces' flags.
proof fn lemma_count_lit_update(s: Seq<BuildingPiece>, i: int, p: BuildingPiece)
    requires
        0 <= i < s.len(),
    ensures
        spec_count_lit(s.update(i, p)) == spec_count_lit(s) - (if s[i].lit {
            1int
        } else {
            0int
        }) + (if p.lit {
            1int
        } else {
            0int
        }),
    decreases s.len(),
{
    let s2 = s.update(i, p);
    if i == s.len() - 1 {
        assert(s2.drop_last() =~= s.drop_last());
        assert(s2.last() == p);
    } else {
        assert(s2.drop_last() =~= s.drop_last().update(i, p));
        lemma_count_lit_update(s.drop_last(), i, p);
        assert(s2.last() == s.last());
    }
}

/// A sequence with fewer set flags than elements has an unset flag.
proof fn lemma_count_true_exists_false(s: Seq<bool>)
    requires
        spec_count_true(s) < s.len(),
    ensures
        exists|i: int| 0 <= i < s.len() && !s[i],
    decreases s.len(),
{
    if s.len() > 0 {
        if !s.last() {
            assert(!s[s.len() - 1]);
        } else {
            lemma_count_true_exists_false(s.drop_last());
            let i = choose|i: int| 0 <= i < s.drop_last().len() && !s.drop_last()[i];
            assert(!s[i]);
        }
    }
}

/// A sequence of unset flags counts zero.
proof fn lemma_count_true_zero(s: Seq<bool>)
    requires
        forall|i: int| 0 <= i < s.len() ==> !s[i],
    ensures
        spec_count_true(s) == 0,
    decreases s.len(),
{
    if s.len() > 0 {
        assert(forall|i: int| 0 <= i < s.drop_last().len() ==> !s.drop_last()[i]);
        lemma_count_true_zero(s.drop_last());
    }
}

/// The index the wrap-around probe visits at step `k` from `start`.
pub open spec fn spec_probe_index(start: int, k: int, len: int) -> int {
    if start + k < len {
        start + k
    } else {
        start + k - len
    }
}

/// Picks an index that is not yet marked unavailable: a random start, then
/// a wrap-around linear probe to the first free index at or after it. With
/// every index unavailable (or none at all) there is nothing to pick.
pub fn pick_window_index(window_collection_len: usize, unavailable_indices: &Vec<bool>) -> (picked:
    Option<usize>)
    requires
        unavailable_indices@.len() == window_collection_len,
    ensures
        picked matches Some(j) ==> j < window_collection_len && !unavailable_indices@[j as int],
        picked is None ==> forall|i: int|
            0 <= i < window_collection_len ==> unavailable_indices@[i],
        (exists|i: int| 0 <= i < window_collection_len && !unavailable_indices@[i]) ==> picked
            is Some,
{
    if window_collection_len == 0 {
        return None;
    }
    let start = random_in_range(0, (window_collection_len - 1) as u64) as usize;
    let len = window_collection_len;
    let mut index = start;
    let mut j: usize = 0;
    while j < len
        invariant
            0 <= start < len,
            len == window_collection_len,
            len == unavailable_indices@.len(),
            0 <= j <= len,
            index == spec_probe_index(start as int, j as int, len as int),
            forall|k: int|
                0 <= k < j ==> unavailable_indices@[
                    #[trigger] spec_probe_index(start as int, k, len as int)
                ],
        decreases len - j,
    {
        if !unavailable_indices[index] {
            return Some(index);
        }
        index = if index + 1 >= len {
            0
        } else {
            index + 1
        };
        j = j + 1;
    }
    proof {
        assert forall|i: int| 0 <= i < len implies unavailable_indices@[i] by {
            if i >= start {
                let k = i - start;
                assert(unavailable_indices@[spec_probe_index(start as int, k, len as int)]);
                assert(spec_probe_index(start as int, k, len as int) == i);
            } else {
                let k = i + len - start;
                assert(unavailable_indices@[spec_probe_index(start as int, k, len as int)]);
                assert(spec_probe_index(start as int, k, len as int) == i);
            }
        }
    }
    None
}

/// The world systems run each tick.
pub struct WorldUpdateSystemsGenerator {}

impl WorldUpdateSystemsGenerator {
    /// Advances the hour clock: once its timer has waited
    /// [`ADVANCE_TIME_WAIT_TIME_MILLIS`] the hour steps forward, wrapping
    /// from 23 to 0, and the timer restarts. The result reports whether
    /// the time-of-day bucket changed with this step.
    pub fn update_world_time(world_time: &mut WorldTime) -> (changed: bool)
        requires
            old(world_time).current_time < 24,
        ensures
            ({
                let fires = old(world_time).advance_time_timer.elapsed_ms
                    >= ADVANCE_TIME_WAIT_TIME_MILLIS;
                &&& !fires ==> *final(world_time) == *old(world_time) && !changed
                &&& fires ==> final(world_time).current_time == (if old(world_time).current_time
                    == 23 {
                    0
                } else {
                    (old(world_time).current_time + 1) as u8
                }) && final(world_time).advance_time_timer == (Timer {
                    elapsed_ms: 0,
                    running: true,
                }) && final(world_time).color_transition_timers == old(
                    world_time,
                ).color_transition_timers && changed == (WorldTime::spec_time_of_day(
                    final(world_time).current_time,
                ) != WorldTime::spec_time_of_day(old(world_time).current_time))
            }),
            final(world_time).current_time < 24,
    {
        if world_time.advance_time_timer.elapsed_millis() >= ADVANCE_TIME_WAIT_TIME_MILLIS {
            let prev_time_of_day = world_time.time_of_day();
            if world_time.current_time == 23 {
                world_time.current_time = 0;
            } else {
                world_time.current_time = world_time.current_time + 1;
            }
            world_time.advance_time_timer.restart();
            world_time.time_of_day() != prev_time_of_day
        } else {
            false
        }
    }

    /// Blends the world's colors toward the current bucket's targets, each
    /// on its own transition timer: the sky toward its table color; the
    /// stars toward their table color where one exists, else toward the
    /// sky's target so they vanish against it (and they are drawn only
    /// where their own color exists); the sun toward its table color.
    pub fn update_world_colors_from_time(world_time: &mut WorldTime, colors: &mut WorldColors)
        ensures
            ({
                let tod = WorldTime::spec_time_of_day(old(world_time).current_time);
                let sky_target = spec_sky_color(tod);
                let star_table = spec_star_color(tod);
                let star_target = if star_table is Some {
                    star_table
                } else {
                    sky_target
                };
                let sky_blend = spec_blend(
                    old(colors).sky,
                    sky_target,
                    old(world_time).color_transition_timers.sky,
                );
                let star_blend = spec_blend(
                    old(colors).star,
                    star_target,
                    old(world_time).color_transition_timers.star,
                );
                let sun_blend = spec_blend(
                    old(colors).sun,
                    spec_sun_color(tod),
                    old(world_time).color_transition_timers.sun,
                );
                &&& final(colors).sky == sky_blend.0
                &&& final(world_time).color_transition_timers.sky == sky_blend.1
                &&& final(colors).star == star_blend.0
                &&& final(world_time).color_transition_timers.star == star_blend.1
                &&& final(colors).star_visible == (star_table is Some)
                &&& final(colors).sun == sun_blend.0
                &&& final(world_time).color_transition_timers.sun == sun_blend.1
                &&& final(world_time).color_transition_timers.window == old(
                    world_time,
                ).color_transition_timers.window
                &&& final(world_time).current_time == old(world_time).current_time
                &&& final(world_time).advance_time_timer == old(world_time).advance_time_timer
            }),
    {
        let time_of_day = world_time.time_of_day();

        let sky_table = sky_colors();
        proof {
            crate::color::lemma_table_covers(sky_table, time_of_day);
        }
        let target_sky_color = *get_color(&sky_table, &time_of_day);
        let blended_sky = blend_color_to_target(
            &colors.sky,
            &target_sky_color,
            &mut world_time.color_transition_timers.sky,
        );
        colors.sky = blended_sky;

        let star_table = star_colors();
        proof {
            crate::color::lemma_table_covers(star_table, time_of_day);
        }
        let target_star_color = *get_color(&star_table, &time_of_day);
        let star_target = if target_star_color.is_some() {
            target_star_color
        } else {
            target_sky_color
        };
        colors.star_visible = target_star_color.is_some();
        let blended_star = blend_color_to_target(
            &colors.star,
            &star_target,
            &mut world_time.color_transition_timers.star,
        );
        colors.star = blended_star;

        let sun_table = sun_colors();
        proof {
            crate::color::lemma_table_covers(sun_table, time_of_day);
        }
        let target_sun_color = *get_color(&sun_table, &time_of_day);
        let blended_sun = blend_color_to_target(
            &colors.sun,
            &target_sun_color,
            &mut world_time.color_transition_timers.sun,
        );
        colors.sun = blended_sun;
    }

    /// On a time-of-day change, turns on a share of the currently-off
    /// windows — a fifth of them entering dusk, half entering night,
    /// none otherwise — choosing which without replacement by random
    /// wrap-around probes. Lit windows stay lit; nothing else changes.
    pub fn turn_on_windows(world_time: &WorldTime, buildings: &mut Vec<BuildingPiece>)
        ensures
            ({
                let tod = WorldTime::spec_time_of_day(world_time.current_time);
                let off_count = old(buildings)@.len() - spec_count_lit(old(buildings)@);
                let num = if tod == TimeOfDay::Dusk {
                    off_count / 5
                } else if tod == TimeOfDay::Night {
                    off_count / 2
                } else {
                    0int
                };
                &&& final(buildings)@.len() == old(buildings)@.len()
                &&& forall|i: int|
                    0 <= i < old(buildings)@.len() ==> (#[trigger] final(buildings)@[i]).follow
                        == old(buildings)@[i].follow && final(buildings)@[i].alternate_color == old(
                        buildings,
                    )@[i].alternate_color
                &&& forall|i: int|
                    0 <= i < old(buildings)@.len() && old(buildings)@[i].lit
                        ==> (#[trigger] final(buildings)@[i]).lit
                &&& spec_count_lit(final(buildings)@) == spec_count_lit(old(buildings)@) + num
            }),
    {
        let time_of_day = world_time.time_of_day();
        let n = buildings.len();
        proof {
            lemma_count_lit_bounds(buildings@);
        }
        let mut offs: Vec<usize> = Vec::new();
        let mut i: usize = 0;
        while i < n
            invariant
                0 <= i <= n,
                n == buildings@.len(),
                buildings@ == old(buildings)@,
                offs@.len() == i - spec_count_lit(buildings@.subrange(0, i as int)),
                forall|k: int| 0 <= k < offs@.len() ==> #[trigger] offs@[k] < i,
                forall|k1: int, k2: int|
                    0 <= k1 < k2 < offs@.len() ==> #[trigger] offs@[k1] < #[trigger] offs@[k2],
                forall|k: int|
                    0 <= k < offs@.len() ==> !buildings@[#[trigger] offs@[k] as int].lit,
            decreases n - i,
        {
            proof {
                lemma_count_lit_step(buildings@, i as int);
                lemma_count_lit_bounds(buildings@.subrange(0, i as int));
            }
            if !buildings[i].lit {
                offs.push(i);
            }
            i = i + 1;
        }
        proof {
            assert(buildings@.subrange(0, n as int) =~= buildings@);
        }
        let num: usize = if time_of_day == TimeOfDay::Dusk {
            offs.len() / 5
        } else if time_of_day == TimeOfDay::Night {
            offs.len() / 2
        } else {
            0
        };
        let mut picked: Vec<bool> = Vec::new();
        let mut p: usize = 0;
        while p < offs.len()
            invariant
                0 <= p <= offs@.len(),
                picked@.len() == p,
                forall|k: int| 0 <= k < picked@.len() ==> !(#[trigger] picked@[k]),
            decreases offs@.len() - p,
        {
            picked.push(false);
            p = p + 1;
        }
        proof {
            lemma_count_true_zero(picked@);
        }
        let mut k: usize = 0;
        while k < num
            invariant
                0 <= k <= num,
                num <= offs@.len(),
                picked@.len() == offs@.len(),
                spec_count_true(picked@) == k,
                n == old(buildings)@.len(),
                buildings@.len() == n,
                forall|j: int| 0 <= j < offs@.len() ==> #[trigger] offs@[j] < n,
                forall|j1: int, j2: int|
                    0 <= j1 < j2 < offs@.len() ==> #[trigger] offs@[j1] < #[trigger] offs@[j2],
                forall|i2: int|
                    0 <= i2 < n ==> (#[trigger] buildings@[i2]).follow == old(
                        buildings,
                    )@[i2].follow && buildings@[i2].alternate_color == old(
                        buildings,
                    )@[i2].alternate_color,
                forall|i2: int|
                    0 <= i2 < n && old(buildings)@[i2].lit ==> (#[trigger] buildings@[i2]).lit,
                forall|j: int|
                    0 <= j < offs@.len() && !(#[trigger] picked@[j]) ==> !buildings@[
                        offs@[j] as int
                    ].lit,
                spec_count_lit(buildings@) == spec_count_lit(old(buildings)@) + k,
            decreases num - k,
        {
            proof {
                lemma_count_true_exists_false(picked@);
            }
            let j = pick_window_index(offs.len(), &picked).unwrap();
            let ghost p0 = picked@;
            picked[j] = true;
            proof {
                lemma_count_true_update(p0, j as int, true);
            }
            let idx = offs[j];
            let piece = buildings[idx];
            let lit_piece = BuildingPiece {
                follow: piece.follow,
                lit: true,
                alternate_color: piece.alternate_color,
            };
            let ghost b0 = buildings@;
            buildings[idx] = lit_piece;
            proof {
                lemma_count_lit_update(b0, idx as int, lit_piece);
                assert forall|j2: int|
                    0 <= j2 < offs@.len() && !(#[trigger] picked@[j2]) implies !buildings@[
                    offs@[j2] as int
                ].lit by {
                    assert(j2 != j);
                    if j2 < j as int {
                        assert(offs@[j2] < offs@[j as int]);
                    } else {
                        assert(offs@[j as int] < offs@[j2]);
                    }
                }
            }
            k = k + 1;
        }
    }

    /// The daytime window decay: on a short fixed cadence while daylight
    /// holds, a third of the currently-lit windows switch off — or all of
    /// them when that third rounds to zero while some are lit — chosen
    /// without replacement by random wrap-around probes. The cadence timer
    /// is started when idle and restarts whenever it has waited out
    /// [`WINDOW_TURN_OFF_TIME_MILLIS`], whether or not it is daylight.
    pub fn turn_off_windows(world_time: &mut WorldTime, buildings: &mut Vec<BuildingPiece>)
        ensures
            final(world_time).current_time == old(world_time).current_time,
            final(world_time).advance_time_timer == old(world_time).advance_time_timer,
            final(world_time).color_transition_timers.sky == old(
                world_time,
            ).color_transition_timers.sky,
            final(world_time).color_transition_timers.star == old(
                world_time,
            ).color_transition_timers.star,
            final(world_time).color_transition_timers.sun == old(
                world_time,
            ).color_transition_timers.sun,
            ({
                let wt = old(world_time).color_transition_timers.window;
                let tod = WorldTime::spec_time_of_day(old(world_time).current_time);
                let lit_count = spec_count_lit(old(buildings)@);
                let num = if lit_count / 3 == 0 && lit_count > 0 {
                    lit_count
                } else {
                    lit_count / 3
                };
                &&& !wt.running ==> final(world_time).color_transition_timers.window == (Timer {
                    elapsed_ms: 0,
                    running: true,
                }) && final(buildings)@ == old(buildings)@
                &&& wt.running && wt.elapsed_ms < WINDOW_TURN_OFF_TIME_MILLIS
                    ==> final(world_time).color_transition_timers.window == wt
                    && final(buildings)@ == old(buildings)@
                &&& wt.running && wt.elapsed_ms >= WINDOW_TURN_OFF_TIME_MILLIS
                    ==> final(world_time).color_transition_timers.window == (Timer {
                    elapsed_ms: 0,
                    running: true,
                }) && (
                !WorldTime::spec_is_light(tod) ==> final(buildings)@ == old(buildings)@) && (
                WorldTime::spec_is_light(tod) ==> final(buildings)@.len() == old(
                    buildings,
                )@.len() && (forall|i: int|
                    0 <= i < old(buildings)@.len() ==> (#[trigger] final(buildings)@[i]).follow
                        == old(buildings)@[i].follow && final(buildings)@[i].alternate_color == old(
                        buildings,
                    )@[i].alternate_color) && (forall|i: int|
                    0 <= i < old(buildings)@.len() && (#[trigger] final(buildings)@[i]).lit ==> old(
                        buildings,
                    )@[i].lit) && spec_count_lit(final(buildings)@) == lit_count - num)
            }),
    {
        let is_light_now = world_time.is_light();
        if !world_time.color_transition_timers.window.is_running() {
            world_time.color_transition_timers.window.restart();
        }
        if world_time.color_transition_timers.window.elapsed_millis()
            >= WINDOW_TURN_OFF_TIME_MILLIS {
            world_time.color_transition_timers.window.restart();
            let n = buildings.len();
            proof {
                lemma_count_lit_bounds(buildings@);
            }
            let mut lits: Vec<usize> = Vec::new();
            let mut i: usize = 0;
            while i < n
                invariant
                    0 <= i <= n,
                    n == buildings@.len(),
                    buildings@ == old(buildings)@,
                    lits@.len() == spec_count_lit(buildings@.subrange(0, i as int)),
                    forall|k: int| 0 <= k < lits@.len() ==> #[trigger] lits@[k] < i,
                    forall|k1: int, k2: int|
                        0 <= k1 < k2 < lits@.len() ==> #[trigger] lits@[k1] < #[trigger] lits@[k2],
                    forall|k: int|
                        0 <= k < lits@.len() ==> buildings@[#[trigger] lits@[k] as int].lit,
                decreases n - i,
            {
                proof {
                    lemma_count_lit_step(buildings@, i as int);
                    lemma_count_lit_bounds(buildings@.subrange(0, i as int));
                }
                if buildings[i].lit {
                    lits.push(i);
                }
                i = i + 1;
            }
            proof {
                assert(buildings@.subrange(0, n as int) =~= buildings@);
            }
            let mut num: usize = lits.len() / 3;
            if num == 0 && lits.len() > 0 {
                num = lits.len();
            }
            let mut picked: Vec<bool> = Vec::new();
            let mut p: usize = 0;
            while p < lits.len()
                invariant
                    0 <= p <= lits@.len(),
                    picked@.len() == p,
                    forall|k: int| 0 <= k < picked@.len() ==> !(#[trigger] picked@[k]),
                decreases lits@.len() - p,
            {
                picked.push(false);
                p = p + 1;
            }
            proof {
                lemma_count_true_zero(picked@);
            }
            if is_light_now {
                let mut k: usize = 0;
                while k < num
                    invariant
                        0 <= k <= num,
                        num <= lits@.len(),
                        picked@.len() == lits@.len(),
                        spec_count_true(picked@) == k,
                        n == old(buildings)@.len(),
                        buildings@.len() == n,
                        forall|j: int| 0 <= j < lits@.len() ==> #[trigger] lits@[j] < n,
                        forall|j1: int, j2: int|
                            0 <= j1 < j2 < lits@.len() ==> #[trigger] lits@[j1] < #[trigger] lits@[
                                j2
                            ],
                        forall|i2: int|
                            0 <= i2 < n ==> (#[trigger] buildings@[i2]).follow == old(
                                buildings,
                            )@[i2].follow && buildings@[i2].alternate_color == old(
                                buildings,
                            )@[i2].alternate_color,
                        forall|i2: int|
                            0 <= i2 < n && (#[trigger] buildings@[i2]).lit ==> old(
                                buildings,
                            )@[i2].lit,
                        forall|j: int|
                            0 <= j < lits@.len() && !(#[trigger] picked@[j]) ==> buildings@[
                                lits@[j] as int
                            ].lit,
                        spec_count_lit(buildings@) == spec_count_lit(old(buildings)@) - k,
                    decreases num - k,
                {
                    proof {
                        lemma_count_true_exists_false(picked@);
                    }
                    let j = pick_window_index(lits.len(), &picked).unwrap();
                    let ghost p0 = picked@;
                    picked[j] = true;
                    proof {
                        lemma_count_true_update(p0, j as int, true);
                    }
                    let idx = lits[j];
                    let piece = buildings[idx];
                    let dark_piece = BuildingPiece {
                        follow: piece.follow,
                        lit: false,
                        alternate_color: piece.alternate_color,
                    };
                    let ghost b0 = buildings@;
                    buildings[idx] = dark_piece;
                    proof {
                        lemma_count_lit_update(b0, idx as int, dark_piece);
                        assert forall|j2: int|
                            0 <= j2 < lits@.len() && !(#[trigger] picked@[j2]) implies buildings@[
                            lits@[j2] as int
                        ].lit by {
                            assert(j2 != j);
                            if j2 < j as int {
                                assert(lits@[j2] < lits@[j as int]);
                            } else {
                                assert(lits@[j as int] < lits@[j2]);
                            }
                        }
                    }
                    k = k + 1;
                }
            }
        }
    }

    /// Moves the sun and its trailing pieces: the anchor's camera offset
    /// becomes the sun position for the current hour, and each trailing
    /// piece follows one further column to the right.
    pub fn update_sun_position(
        world_time: &WorldTime,
        sun: &mut FixedToCamera,
        sun_pieces: &mut Vec<FixedToCamera>,
    )
        requires
            old(sun_pieces)@.len() <= 100,
        ensures
            final(sun).base_position == old(sun).base_position,
            final(sun).offset.x == spec_sun_x(world_time.current_time),
            final(sun).offset.y == spec_sun_y(world_time.current_time),
            final(sun_pieces)@.len() == old(sun_pieces)@.len(),
            forall|i: int|
                0 <= i < old(sun_pieces)@.len() ==> {
                    let piece = #[trigger] final(sun_pieces)@[i];
                    &&& piece.base_position == old(sun_pieces)@[i].base_position
                    &&& piece.offset.x == spec_sun_x(world_time.current_time) + i
                    &&& piece.offset.y == spec_sun_y(world_time.current_time)
                },
    {
        let x = get_sun_x(world_time.current_time);
        let y = get_sun_y(world_time.current_time);
        proof {
            lemma_sun_position_bounds(world_time.current_time);
        }
        sun.offset.x = x;
        sun.offset.y = y;
        let n = sun_pieces.len();
        let mut i: usize = 0;
        while i < n
            invariant
                0 <= i <= n,
                n == sun_pieces@.len(),
                n <= 100,
                sun_pieces@.len() == old(sun_pieces)@.len(),
                x == spec_sun_x(world_time.current_time),
                y == spec_sun_y(world_time.current_time),
                -100 <= x <= 200,
                forall|j: int|
                    0 <= j < i ==> {
                        let piece = #[trigger] sun_pieces@[j];
                        &&& piece.base_position == old(sun_pieces)@[j].base_position
                        &&& piece.offset.x == x + j
                        &&& piece.offset.y == y
                    },
                forall|j: int|
                    i <= j < n ==> #[trigger] sun_pieces@[j] == old(sun_pieces)@[j],
            decreases n - i,
        {
            let piece = sun_pieces[i];
            sun_pieces[i] = FixedToCamera {
                base_position: piece.base_position,
                offset: crate::camera::Coords2d { x: x + (i as i64), y },
            };
            i = i + 1;
        }
    }
}

} // verus!
