//! Colors and the blend engine of the day-night cycle.
//!
//! Blending is a clamped, half-up-rounded linear interpolation over the
//! integer channels, driven by a per-target transition timer: it starts when
//! the target first differs from the current color, and once the transition
//! duration has elapsed it stops and snaps exactly to the target.

use vstd::prelude::*;

use crate::timer::Timer;
use crate::world_time::TimeOfDay;

verus! {

/// Milliseconds a color transition takes from start to snap.
pub const COLOR_TRANSITION_TIME_MILLIS: u64 = 800;

/// An RGB color with 8-bit channels.
#[derive(Clone, Copy, Debug, PartialEq, Eq, Structural)]
pub struct Rgb(pub u8, pub u8, pub u8);

impl Rgb {
    /// The red channel.
    pub fn r(&self) -> (v: u8)
        ensures
            v == self.0,
    {
        self.0
    }

    /// The green channel.
    pub fn g(&self) -> (v: u8)
        ensures
            v == self.1,
    {
        self.1
    }

    /// The blue channel.
    pub fn b(&self) -> (v: u8)
        ensures
            v == self.2,
    {
        self.2
    }
}

/// Interpolation of one channel from `a` toward `b` by the ratio
/// `num / den`, with the ratio clamped to one, rounded half-up to the
/// nearest integer: round((a * (den - n) + b * n) / den) for the clamped n.
pub open spec fn spec_lerp_channel(a: u8, b: u8, num: u64, den: u64) -> u8
    recommends
        den > 0,
{
    let n = if num <= den {
        num as int
    } else {
        den as int
    };
    let q = (2 * (a * (den - n) + b * n) + den) / (2 * den);
    if q <= 255 {
        q as u8
    } else {
        255u8
    }
}

/// One channel of the interpolation; see [`spec_lerp_channel`].
pub fn lerp_channel(a: u8, b: u8, num: u64, den: u64) -> (r: u8)
    requires
        0 < den <= 0x1_0000_0000,
    ensures
        r == spec_lerp_channel(a, b, num, den),
{
    let n: u64 = if num <= den {
        num
    } else {
        den
    };
    proof {
        assert((a as int) * ((den - n) as int) <= 255 * (den as int) && (b as int) * (n as int)
            <= 255 * (den as int)) by (nonlinear_arith)
            requires
                a <= 255,
                b <= 255,
                n <= den,
        ;
    }
    let q: u64 = (2 * ((a as u64) * (den - n) + (b as u64) * n) + den) / (2 * den);
    if q <= 255 {
        q as u8
    } else {
        255u8
    }
}

/// Channel-wise interpolation from `a` toward `b`; see [`spec_lerp_channel`].
pub open spec fn spec_lerp_rgb(a: Rgb, b: Rgb, num: u64, den: u64) -> Rgb {
    Rgb(
        spec_lerp_channel(a.0, b.0, num, den),
        spec_lerp_channel(a.1, b.1, num, den),
        spec_lerp_channel(a.2, b.2, num, den),
    )
}

/// Channel-wise interpolation from `a` toward `b` by `num / den`.
pub fn lerp_rgb(a: Rgb, b: Rgb, num: u64, den: u64) -> (r: Rgb)
    requires
        0 < den <= 0x1_0000_0000,
    ensures
        r == spec_lerp_rgb(a, b, num, den),
{
    Rgb(
        lerp_channel(a.0, b.0, num, den),
        lerp_channel(a.1, b.1, num, den),
        lerp_channel(a.2, b.2, num, den),
    )
}

/// At ratio zero one channel's interpolation gives back the start value, at
/// the full ratio exactly the target value, and at the half-way ratio the
/// linear midpoint, rounded half-up.
pub proof fn lemma_lerp_channel_endpoints_and_midpoint(a: u8, b: u8)
    ensures
        spec_lerp_channel(a, b, 0, COLOR_TRANSITION_TIME_MILLIS) == a,
        spec_lerp_channel(a, b, COLOR_TRANSITION_TIME_MILLIS, COLOR_TRANSITION_TIME_MILLIS) == b,
        spec_lerp_channel(
            a,
            b,
            (COLOR_TRANSITION_TIME_MILLIS / 2) as u64,
            COLOR_TRANSITION_TIME_MILLIS,
        ) == ((a + b + 1) / 2) as u8,
{
    let ai = a as int;
    let bi = b as int;
    vstd::arithmetic::div_mod::lemma_fundamental_div_mod_converse(1600 * ai + 800, 1600, ai, 800);
    assert(((2int * ((a as int) * (800int - 0int) + (b as int) * 0int) + 800int) / (2int * 800int))
        == ai);
    vstd::arithmetic::div_mod::lemma_fundamental_div_mod_converse(1600 * bi + 800, 1600, bi, 800);
    let s = ai + bi + 1;
    vstd::arithmetic::div_mod::lemma_fundamental_div_mod(s, 2);
    vstd::arithmetic::div_mod::lemma_fundamental_div_mod_converse(
        800 * s,
        1600,
        s / 2,
        800 * (s % 2),
    );
    assert(((2int * ((a as int) * (800int - 400int) + (b as int) * 400int) + 800int) / (2int
        * 800int)) == s / 2);
}

/// At ratio zero the interpolation gives back the start color, at full
/// ratio (or beyond) exactly the target, and at the half-way ratio the
/// linear midpoint of the channels, rounded half-up.
pub proof fn lemma_lerp_endpoints_and_midpoint(a: Rgb, b: Rgb)
    ensures
        spec_lerp_rgb(a, b, 0, COLOR_TRANSITION_TIME_MILLIS) == a,
        spec_lerp_rgb(
            a,
            b,
            COLOR_TRANSITION_TIME_MILLIS,
            COLOR_TRANSITION_TIME_MILLIS,
        ) == b,
        spec_lerp_rgb(
            a,
            b,
            (COLOR_TRANSITION_TIME_MILLIS / 2) as u64,
            COLOR_TRANSITION_TIME_MILLIS,
        ) == (Rgb(
            ((a.0 + b.0 + 1) / 2) as u8,
            ((a.1 + b.1 + 1) / 2) as u8,
            ((a.2 + b.2 + 1) / 2) as u8,
        )),
{
    lemma_lerp_channel_endpoints_and_midpoint(a.0, b.0);
    lemma_lerp_channel_endpoints_and_midpoint(a.1, b.1);
    lemma_lerp_channel_endpoints_and_midpoint(a.2, b.2);
}

/// The endpoints of one full transition from `a` toward a differing `b`:
/// with the timer freshly started the blend is exactly `a`; half-way
/// through it is the linear midpoint of the channels, rounded half-up; and
/// once the transition duration has elapsed it is exactly `b` with the
/// timer stopped.
pub proof fn lemma_blend_transition_endpoints(a: Rgb, b: Rgb)
    requires
        a != b,
    ensures
        spec_blend(Some(a), Some(b), Timer { elapsed_ms: 0, running: true }).0 == Some(a),
        spec_blend(
            Some(a),
            Some(b),
            Timer { elapsed_ms: (COLOR_TRANSITION_TIME_MILLIS / 2) as u64, running: true },
        ).0 == Some(
            Rgb(
                ((a.0 + b.0 + 1) / 2) as u8,
                ((a.1 + b.1 + 1) / 2) as u8,
                ((a.2 + b.2 + 1) / 2) as u8,
            ),
        ),
        spec_blend(
            Some(a),
            Some(b),
            Timer { elapsed_ms: COLOR_TRANSITION_TIME_MILLIS, running: true },
        ).0 == Some(b),
        !spec_blend(
            Some(a),
            Some(b),
            Timer { elapsed_ms: COLOR_TRANSITION_TIME_MILLIS, running: true },
        ).1.running,
{
    lemma_lerp_endpoints_and_midpoint(a, b);
}

/// The blend of a current color toward a target color under a transition
/// timer, as a value: the resulting color and the timer's new state. This
/// is the functional mirror of [`blend_color_to_target`].
pub open spec fn spec_blend(current: Option<Rgb>, target: Option<Rgb>, timer: Timer) -> (
    Option<Rgb>,
    Timer,
) {
    if current is None && target is Some {
        (target, timer)
    } else if target is None {
        (current, timer)
    } else {
        let c = current->0;
        let t = target->0;
        if c == t {
            (
                Some(c),
                Timer {
                    elapsed_ms: timer.elapsed_ms,
                    running: timer.running && timer.elapsed_ms < COLOR_TRANSITION_TIME_MILLIS,
                },
            )
        } else {
            let e = if timer.running {
                timer.elapsed_ms
            } else {
                0
            };
            if e >= COLOR_TRANSITION_TIME_MILLIS {
                (Some(t), Timer { elapsed_ms: e, running: false })
            } else {
                (
                    Some(spec_lerp_rgb(c, t, e, COLOR_TRANSITION_TIME_MILLIS)),
                    Timer { elapsed_ms: e, running: true },
                )
            }
        }
    }
}

/// The result of blending the current color of a target toward the color
/// the current time-of-day bucket asks for:
/// - no current color and a target: snap immediately to the target;
/// - equal colors: no change, the timer stays as it is (apart from being
///   stopped once a finished transition's duration has elapsed);
/// - differing colors: the transition timer is started if idle, and the
///   result interpolates from current to target by elapsed time over
///   [`COLOR_TRANSITION_TIME_MILLIS`]; once that duration has elapsed the
///   timer stops and the result is exactly the target;
/// - no target: the current color is retained.
pub fn blend_color_to_target(
    current_color_option: &Option<Rgb>,
    target_color_option: &Option<Rgb>,
    transition_timer: &mut Timer,
) -> (blended: Option<Rgb>)
    ensures
        blended == spec_blend(
            *current_color_option,
            *target_color_option,
            *old(transition_timer),
        ).0,
        *final(transition_timer) == spec_blend(
            *current_color_option,
            *target_color_option,
            *old(transition_timer),
        ).1,
        (current_color_option is None && target_color_option is Some) ==> blended
            == *target_color_option && *final(transition_timer) == *old(transition_timer),
        (target_color_option is None) ==> blended == *current_color_option
            && *final(transition_timer) == *old(transition_timer),
        ({
            let cur = *current_color_option;
            let tgt = *target_color_option;
            cur is Some && tgt is Some && cur->0 == tgt->0 ==> blended == cur
                && final(transition_timer).elapsed_ms == old(transition_timer).elapsed_ms
                && final(transition_timer).running == (old(transition_timer).running
                && old(transition_timer).elapsed_ms < COLOR_TRANSITION_TIME_MILLIS)
        }),
        ({
            let cur = *current_color_option;
            let tgt = *target_color_option;
            let e = if old(transition_timer).running {
                old(transition_timer).elapsed_ms
            } else {
                0
            };
            cur is Some && tgt is Some && cur->0 != tgt->0 ==> {
                &&& (e >= COLOR_TRANSITION_TIME_MILLIS ==> blended == tgt
                    && !final(transition_timer).running && final(transition_timer).elapsed_ms == e)
                &&& (e < COLOR_TRANSITION_TIME_MILLIS ==> blended
                    == Some(spec_lerp_rgb(cur->0, tgt->0, e, COLOR_TRANSITION_TIME_MILLIS))
                    && final(transition_timer).running && final(transition_timer).elapsed_ms == e)
            }
        }),
{
    if current_color_option.is_none() && target_color_option.is_some() {
        return *target_color_option;
    }
    if let Some(current_color) = current_color_option {
        if let Some(target_color) = target_color_option {
            let mut interpolated_color: Option<Rgb> = *current_color_option;
            if *target_color != *current_color {
                if !transition_timer.is_running() {
                    transition_timer.restart();
                }
                interpolated_color = Some(
                    lerp_rgb(
                        *current_color,
                        *target_color,
                        transition_timer.elapsed_millis(),
                        COLOR_TRANSITION_TIME_MILLIS,
                    ),
                );
            }
            if transition_timer.elapsed_millis() >= COLOR_TRANSITION_TIME_MILLIS {
                transition_timer.stop();
                interpolated_color = Some(*target_color);
            }
            return interpolated_color;
        }
    }
    *current_color_option
}

/// A color table: the color each time-of-day bucket asks of one visual
/// target, absent where the target is invisible in that bucket.
pub type TimeOfDayColors = [(TimeOfDay, Option<Rgb>); 6];

/// The star color per bucket: stars show at night and twilight only.
pub open spec fn spec_star_color(t: TimeOfDay) -> Option<Rgb> {
    match t {
        TimeOfDay::Night => Some(Rgb(219, 219, 219)),
        TimeOfDay::Dawn => Some(Rgb(54, 68, 112)),
        TimeOfDay::Morning => None,
        TimeOfDay::Noon => None,
        TimeOfDay::Afternoon => None,
        TimeOfDay::Dusk => Some(Rgb(10, 68, 122)),
    }
}

/// The sky color per bucket.
pub open spec fn spec_sky_color(t: TimeOfDay) -> Option<Rgb> {
    match t {
        TimeOfDay::Night => Some(Rgb(23, 32, 59)),
        TimeOfDay::Dawn => Some(Rgb(46, 58, 97)),
        TimeOfDay::Morning => Some(Rgb(11, 128, 179)),
        TimeOfDay::Noon => Some(Rgb(12, 140, 196)),
        TimeOfDay::Afternoon => Some(Rgb(12, 140, 196)),
        TimeOfDay::Dusk => Some(Rgb(7, 51, 92)),
    }
}

/// The sun color per bucket.
pub open spec fn spec_sun_color(t: TimeOfDay) -> Option<Rgb> {
    match t {
        TimeOfDay::Night => Some(Rgb(23, 32, 59)),
        TimeOfDay::Dawn => Some(Rgb(166, 39, 0)),
        TimeOfDay::Morning => Some(Rgb(224, 166, 4)),
        TimeOfDay::Noon => Some(Rgb(252, 186, 3)),
        TimeOfDay::Afternoon => Some(Rgb(252, 186, 3)),
        TimeOfDay::Dusk => Some(Rgb(166, 39, 0)),
    }
}

/// The star color table, one entry per bucket.
pub fn star_colors() -> (colors: TimeOfDayColors)
    ensures
        colors@[0] == (TimeOfDay::Night, spec_star_color(TimeOfDay::Night)),
        colors@[1] == (TimeOfDay::Dawn, spec_star_color(TimeOfDay::Dawn)),
        colors@[2] == (TimeOfDay::Morning, spec_star_color(TimeOfDay::Morning)),
        colors@[3] == (TimeOfDay::Noon, spec_star_color(TimeOfDay::Noon)),
        colors@[4] == (TimeOfDay::Afternoon, spec_star_color(TimeOfDay::Afternoon)),
        colors@[5] == (TimeOfDay::Dusk, spec_star_color(TimeOfDay::Dusk)),
{
    let colors: TimeOfDayColors = [
        (TimeOfDay::Night, Some(Rgb(219, 219, 219))),
        (TimeOfDay::Dawn, Some(Rgb(54, 68, 112))),
        (TimeOfDay::Morning, None),
        (TimeOfDay::Noon, None),
        (TimeOfDay::Afternoon, None),
        (TimeOfDay::Dusk, Some(Rgb(10, 68, 122))),
    ];
    colors
}

/// The sky color table, one entry per bucket.
pub fn sky_colors() -> (colors: TimeOfDayColors)
    ensures
        colors@[0] == (TimeOfDay::Night, spec_sky_color(TimeOfDay::Night)),
        colors@[1] == (TimeOfDay::Dawn, spec_sky_color(TimeOfDay::Dawn)),
        colors@[2] == (TimeOfDay::Morning, spec_sky_color(TimeOfDay::Morning)),
        colors@[3] == (TimeOfDay::Noon, spec_sky_color(TimeOfDay::Noon)),
        colors@[4] == (TimeOfDay::Afternoon, spec_sky_color(TimeOfDay::Afternoon)),
        colors@[5] == (TimeOfDay::Dusk, spec_sky_color(TimeOfDay::Dusk)),
{
    let colors: TimeOfDayColors = [
        (TimeOfDay::Night, Some(Rgb(23, 32, 59))),
        (TimeOfDay::Dawn, Some(Rgb(46, 58, 97))),
        (TimeOfDay::Morning, Some(Rgb(11, 128, 179))),
        (TimeOfDay::Noon, Some(Rgb(12, 140, 196))),
        (TimeOfDay::Afternoon, Some(Rgb(12, 140, 196))),
        (TimeOfDay::Dusk, Some(Rgb(7, 51, 92))),
    ];
    colors
}

/// The sun color table, one entry per bucket.
pub fn sun_colors() -> (colors: TimeOfDayColors)
    ensures
        colors@[0] == (TimeOfDay::Night, spec_sun_color(TimeOfDay::Night)),
        colors@[1] == (TimeOfDay::Dawn, spec_sun_color(TimeOfDay::Dawn)),
        colors@[2] == (TimeOfDay::Morning, spec_sun_color(TimeOfDay::Morning)),
        colors@[3] == (TimeOfDay::Noon, spec_sun_color(TimeOfDay::Noon)),
        colors@[4] == (TimeOfDay::Afternoon, spec_sun_color(TimeOfDay::Afternoon)),
        colors@[5] == (TimeOfDay::Dusk, spec_sun_color(TimeOfDay::Dusk)),
{
    let colors: TimeOfDayColors = [
        (TimeOfDay::Night, Some(Rgb(23, 32, 59))),
        (TimeOfDay::Dawn, Some(Rgb(166, 39, 0))),
        (TimeOfDay::Morning, Some(Rgb(224, 166, 4))),
        (TimeOfDay::Noon, Some(Rgb(252, 186, 3))),
        (TimeOfDay::Afternoon, Some(Rgb(252, 186, 3))),
        (TimeOfDay::Dusk, Some(Rgb(166, 39, 0))),
    ];
    colors
}

/// A table whose six entries carry the six buckets in their fixed order
/// has an entry for every bucket.
pub proof fn lemma_table_covers(colors: TimeOfDayColors, t: TimeOfDay)
    requires
        colors@[0].0 == TimeOfDay::Night,
        colors@[1].0 == TimeOfDay::Dawn,
        colors@[2].0 == TimeOfDay::Morning,
        colors@[3].0 == TimeOfDay::Noon,
        colors@[4].0 == TimeOfDay::Afternoon,
        colors@[5].0 == TimeOfDay::Dusk,
    ensures
        exists|i: int| 0 <= i < 6 && #[trigger] colors@[i].0 == t,
{
    match t {
        TimeOfDay::Night => assert(colors@[0].0 == t),
        TimeOfDay::Dawn => assert(colors@[1].0 == t),
        TimeOfDay::Morning => assert(colors@[2].0 == t),
        TimeOfDay::Noon => assert(colors@[3].0 == t),
        TimeOfDay::Afternoon => assert(colors@[4].0 == t),
        TimeOfDay::Dusk => assert(colors@[5].0 == t),
    }
}

/// Looks up the color a table holds for a bucket. The table must have an
/// entry for the bucket; the result is the first matching entry's color.
pub fn get_color<'a>(colors: &'a TimeOfDayColors, time_of_day: &TimeOfDay) -> (color: &'a Option<
    Rgb,
>)
    requires
        exists|i: int| 0 <= i < 6 && #[trigger] colors@[i].0 == *time_of_day,
    ensures
        exists|i: int|
            0 <= i < 6 && #[trigger] colors@[i].0 == *time_of_day && *color == colors@[i].1,
{
    let mut idx: usize = 0;
    while idx < 6
        invariant
            0 <= idx <= 6,
            forall|j: int| 0 <= j < idx ==> #[trigger] colors@[j].0 != *time_of_day,
            exists|i: int| 0 <= i < 6 && #[trigger] colors@[i].0 == *time_of_day,
        decreases 6 - idx,
    {
        if colors[idx].0 == *time_of_day {
            return &colors[idx].1;
        }
        idx = idx + 1;
    }
    proof {
        assert(false);
    }
    vstd::pervasive::unreached()
}

} // verus!
