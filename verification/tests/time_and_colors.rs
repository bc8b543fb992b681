//! The day-night clock, the color blend engine, and the sun's path.

use runner_core::color::{
    blend_color_to_target, get_color, lerp_rgb, sky_colors, star_colors, sun_colors, Rgb,
    COLOR_TRANSITION_TIME_MILLIS,
};
use runner_core::timer::Timer;
use runner_core::world_setup::WorldSetupSystemsGenerator;
use runner_core::world_time::{TimeOfDay, WorldTime};
use runner_core::world_update::{get_sun_x, get_sun_y, WorldUpdateSystemsGenerator};

fn world_time_at(hour: u8) -> WorldTime {
    let mut w = WorldSetupSystemsGenerator::make_world_time();
    w.current_time = hour;
    w
}

#[test]
fn time_of_day_boundary_examples() {
    assert_eq!(world_time_at(5).time_of_day(), TimeOfDay::Night);
    assert_eq!(world_time_at(6).time_of_day(), TimeOfDay::Dawn);
    assert_eq!(world_time_at(12).time_of_day(), TimeOfDay::Noon);
    assert_eq!(world_time_at(19).time_of_day(), TimeOfDay::Night);
}

#[test]
fn time_of_day_full_table() {
    for hour in 0u8..24 {
        let expected = match hour {
            0..=5 | 19..=23 => TimeOfDay::Night,
            6..=8 => TimeOfDay::Dawn,
            9..=11 => TimeOfDay::Morning,
            12 => TimeOfDay::Noon,
            13..=16 => TimeOfDay::Afternoon,
            17..=18 => TimeOfDay::Dusk,
            _ => unreachable!(),
        };
        assert_eq!(world_time_at(hour).time_of_day(), expected, "hour {}", hour);
    }
}

#[test]
fn is_light_only_by_day() {
    for hour in 0u8..24 {
        let expected = (9..=16).contains(&hour);
        assert_eq!(world_time_at(hour).is_light(), expected, "hour {}", hour);
    }
}

#[test]
fn hour_advances_and_wraps() {
    let mut w = world_time_at(9);
    w.advance_time_timer.advance(1000);
    let changed = WorldUpdateSystemsGenerator::update_world_time(&mut w);
    assert_eq!(w.current_time, 10);
    assert!(!changed);
    assert_eq!(w.advance_time_timer.elapsed_millis(), 0);

    let mut w = world_time_at(23);
    w.advance_time_timer.advance(1500);
    let changed = WorldUpdateSystemsGenerator::update_world_time(&mut w);
    assert_eq!(w.current_time, 0);
    assert!(!changed, "23 and 0 are both night");

    let mut w = world_time_at(8);
    w.advance_time_timer.advance(999);
    let changed = WorldUpdateSystemsGenerator::update_world_time(&mut w);
    assert_eq!(w.current_time, 8);
    assert!(!changed);
    w.advance_time_timer.advance(1);
    let changed = WorldUpdateSystemsGenerator::update_world_time(&mut w);
    assert_eq!(w.current_time, 9, "dawn turns to morning");
    assert!(changed);
}

#[test]
fn blend_starts_at_current_color() {
    let a = Rgb(10, 20, 30);
    let b = Rgb(110, 220, 130);
    let mut timer = Timer::new();
    let blended = blend_color_to_target(&Some(a), &Some(b), &mut timer);
    assert_eq!(blended, Some(a), "at zero elapsed the blend is the start color");
    assert!(timer.is_running(), "a differing target starts the transition");
}

#[test]
fn blend_midpoint_is_linear_midpoint() {
    let a = Rgb(10, 20, 30);
    let b = Rgb(110, 221, 130);
    let mut timer = Timer::start_new();
    timer.advance(COLOR_TRANSITION_TIME_MILLIS / 2);
    let blended = blend_color_to_target(&Some(a), &Some(b), &mut timer);
    // each channel is the half-up-rounded midpoint
    assert_eq!(blended, Some(Rgb(60, 121, 80)));
}

#[test]
fn blend_snaps_exactly_to_target_after_duration() {
    let a = Rgb(10, 20, 30);
    let b = Rgb(110, 220, 130);
    let mut timer = Timer::start_new();
    timer.advance(COLOR_TRANSITION_TIME_MILLIS);
    let blended = blend_color_to_target(&Some(a), &Some(b), &mut timer);
    assert_eq!(blended, Some(b), "after the duration the result is exactly the target");
    assert!(!timer.is_running(), "the finished transition stops its timer");
}

#[test]
fn blend_snaps_immediately_from_absent() {
    let b = Rgb(1, 2, 3);
    let mut timer = Timer::new();
    let blended = blend_color_to_target(&None, &Some(b), &mut timer);
    assert_eq!(blended, Some(b));
    assert!(!timer.is_running());
}

#[test]
fn blend_retains_current_without_target() {
    let a = Rgb(9, 9, 9);
    let mut timer = Timer::new();
    let blended = blend_color_to_target(&Some(a), &None, &mut timer);
    assert_eq!(blended, Some(a));
}

#[test]
fn lerp_quarter_way() {
    let r = lerp_rgb(Rgb(0, 200, 255), Rgb(100, 100, 255), 200, 800);
    assert_eq!(r, Rgb(25, 175, 255));
}

#[test]
fn color_tables_per_bucket() {
    let sky = sky_colors();
    assert_eq!(*get_color(&sky, &TimeOfDay::Night), Some(Rgb(23, 32, 59)));
    assert_eq!(*get_color(&sky, &TimeOfDay::Noon), Some(Rgb(12, 140, 196)));
    let stars = star_colors();
    assert_eq!(*get_color(&stars, &TimeOfDay::Morning), None);
    assert_eq!(*get_color(&stars, &TimeOfDay::Night), Some(Rgb(219, 219, 219)));
    let sun = sun_colors();
    assert_eq!(*get_color(&sun, &TimeOfDay::Dusk), Some(Rgb(166, 39, 0)));
}

#[test]
fn sun_path_exact_positions() {
    // off-screen through the night, including both boundary hours
    assert_eq!(get_sun_x(5), -100);
    assert_eq!(get_sun_y(5), -100);
    assert_eq!(get_sun_x(20), -100);
    assert_eq!(get_sun_y(20), -100);
    // rises on the left, peaks at noon, sets on the right
    assert_eq!(get_sun_x(6), 6);
    assert_eq!(get_sun_y(6), 8);
    assert_eq!(get_sun_x(12), 40);
    assert_eq!(get_sun_y(12), 1);
    assert_eq!(get_sun_x(19), 80);
    assert_eq!(get_sun_y(19), 11);
}

#[test]
fn timer_semantics() {
    let mut t = Timer::new();
    assert!(!t.is_running());
    assert_eq!(t.elapsed_millis(), 0);
    t.advance(50);
    assert_eq!(t.elapsed_millis(), 0, "a stopped timer does not accumulate");
    t.start();
    t.advance(70);
    assert_eq!(t.elapsed_millis(), 70);
    t.stop();
    assert_eq!(t.elapsed_millis(), 70, "stop freezes the reading");
    t.advance(30);
    assert_eq!(t.elapsed_millis(), 70);
    t.restart();
    assert!(t.is_running());
    assert_eq!(t.elapsed_millis(), 0);
}
