//! The day-night clock: a discrete hour in `[0, 23]` advanced on a fixed
//! cadence, and the time-of-day bucket that is a pure step function of it.

use vstd::prelude::*;

use crate::timer::Timer;

verus! {

/// The hour at which the bucket `Noon` holds.
pub const NOON_TIME: u8 = 12;

/// Last hour of the morning night span; dawn begins right after it.
pub const SUNRISE_TIME: u8 = 5;

/// First evening hour that is night again.
pub const SUNSET_TIME: u8 = 19;

/// Milliseconds between two advances of the hour clock.
pub const ADVANCE_TIME_WAIT_TIME_MILLIS: u64 = 1000;

/// The named segments of the 24-hour cycle.
#[derive(Clone, Copy, Debug, PartialEq, Eq, Hash, Structural)]
pub enum TimeOfDay {
    Night,
    Dawn,
    Morning,
    Noon,
    Afternoon,
    Dusk,
}

/// One transition timer per blended visual target.
#[derive(Clone, Copy, Debug)]
pub struct ColorTransitionTimers {
    pub sky: Timer,
    pub star: Timer,
    pub sun: Timer,
    pub window: Timer,
}

/// The world clock: the current hour, the timer that paces its advance,
/// and the per-target color transition timers.
#[derive(Clone, Copy, Debug)]
pub struct WorldTime {
    pub current_time: u8,
    pub advance_time_timer: Timer,
    pub color_transition_timers: ColorTransitionTimers,
}

impl WorldTime {
    /// The bucket an hour falls in. Hours outside `[0, 23]` are treated as
    /// night, matching the wrap-around fallback of the hour clock.
    pub open spec fn spec_time_of_day(hour: u8) -> TimeOfDay {
        if hour >= SUNSET_TIME || hour <= SUNRISE_TIME {
            TimeOfDay::Night
        } else if hour <= 8 {
            TimeOfDay::Dawn
        } else if hour <= 11 {
            TimeOfDay::Morning
        } else if hour == NOON_TIME {
            TimeOfDay::Noon
        } else if hour <= 16 {
            TimeOfDay::Afternoon
        } else {
            TimeOfDay::Dusk
        }
    }

    /// The bucket the world clock is currently in.
    pub fn time_of_day(&self) -> (t: TimeOfDay)
        ensures
            t == Self::spec_time_of_day(self.current_time),
    {
        if self.current_time >= SUNSET_TIME || self.current_time <= SUNRISE_TIME {
            TimeOfDay::Night
        } else if self.current_time <= 8 {
            TimeOfDay::Dawn
        } else if self.current_time <= 11 {
            TimeOfDay::Morning
        } else if self.current_time == NOON_TIME {
            TimeOfDay::Noon
        } else if self.current_time <= 16 {
            TimeOfDay::Afternoon
        } else {
            TimeOfDay::Dusk
        }
    }

    /// Whether a bucket counts as daylight.
    pub open spec fn spec_is_light(t: TimeOfDay) -> bool {
        t == TimeOfDay::Morning || t == TimeOfDay::Noon || t == TimeOfDay::Afternoon
    }

    /// Whether the current bucket counts as daylight.
    pub fn is_light(&self) -> (r: bool)
        ensures
            r == Self::spec_is_light(Self::spec_time_of_day(self.current_time)),
    {
        match self.time_of_day() {
            TimeOfDay::Morning | TimeOfDay::Noon | TimeOfDay::Afternoon => true,
            _ => false,
        }
    }
}

/// Every hour of the day falls in exactly one bucket, with the boundaries
/// fixed by the sunrise, noon and sunset constants: night spans
/// `[SUNSET_TIME, 23]` and `[0, SUNRISE_TIME]`, dawn `(SUNRISE_TIME, 9)`,
/// morning `[9, 11]`, noon `{12}`, afternoon `[13, 16]`, and dusk
/// `[17, SUNSET_TIME)`.
pub proof fn lemma_time_of_day_buckets(hour: u8)
    requires
        hour < 24,
    ensures
        (WorldTime::spec_time_of_day(hour) == TimeOfDay::Night) <==> (hour >= SUNSET_TIME
            || hour <= SUNRISE_TIME),
        (WorldTime::spec_time_of_day(hour) == TimeOfDay::Dawn) <==> (SUNRISE_TIME < hour && hour
            < 9),
        (WorldTime::spec_time_of_day(hour) == TimeOfDay::Morning) <==> (9 <= hour && hour <= 11),
        (WorldTime::spec_time_of_day(hour) == TimeOfDay::Noon) <==> (hour == NOON_TIME),
        (WorldTime::spec_time_of_day(hour) == TimeOfDay::Afternoon) <==> (13 <= hour && hour
            <= 16),
        (WorldTime::spec_time_of_day(hour) == TimeOfDay::Dusk) <==> (17 <= hour && hour
            < SUNSET_TIME),
{
}

} // verus!
