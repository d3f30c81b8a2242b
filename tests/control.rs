use bevy_orbit_camera::control::{plan_tick, select_motion, Motion, TickPlan};
use bevy_orbit_camera::scroll::{motion_counts, pixels_per_unit, ScrollUnit};

#[test]
fn pan_trigger_wins_over_orbit_trigger() {
    assert_eq!(select_motion(true, true), Motion::Pan);
    assert_eq!(select_motion(true, false), Motion::Pan);
    assert_eq!(select_motion(false, true), Motion::Orbit);
    assert_eq!(select_motion(false, false), Motion::Still);
}

#[test]
fn no_input_leaves_camera_alone() {
    for pan in [false, true] {
        for orbit in [false, true] {
            let p = plan_tick(pan, orbit, false, false);
            assert_eq!(
                p,
                TickPlan { motion: Motion::Still, zoom: false, look_at_pivot: false }
            );
        }
    }
}

#[test]
fn orbit_with_delta_re_aims() {
    let p = plan_tick(false, true, true, false);
    assert_eq!(p, TickPlan { motion: Motion::Orbit, zoom: false, look_at_pivot: true });
}

#[test]
fn pan_with_delta_moves_and_re_aims() {
    let p = plan_tick(true, true, true, false);
    assert_eq!(p, TickPlan { motion: Motion::Pan, zoom: false, look_at_pivot: true });
}

#[test]
fn zoom_alone_re_aims() {
    let p = plan_tick(false, false, false, true);
    assert_eq!(p, TickPlan { motion: Motion::Still, zoom: true, look_at_pivot: true });
}

#[test]
fn zoom_composes_with_orbit() {
    let p = plan_tick(false, true, true, true);
    assert_eq!(p, TickPlan { motion: Motion::Orbit, zoom: true, look_at_pivot: true });
}

#[test]
fn delta_without_trigger_does_not_move() {
    let p = plan_tick(false, false, true, false);
    assert_eq!(p, TickPlan { motion: Motion::Still, zoom: false, look_at_pivot: false });
}

#[test]
fn one_line_is_sixteen_pixels() {
    assert_eq!(pixels_per_unit(ScrollUnit::Line), 16);
    assert_eq!(pixels_per_unit(ScrollUnit::Pixel), 1);
    // one line of scroll gives a zoom of sixteen
    let zoom = 1.0f32 * pixels_per_unit(ScrollUnit::Line) as f32;
    assert_eq!(zoom, 16.0);
}

#[test]
fn motion_counts_only_while_orbit_held() {
    assert!(motion_counts(true));
    assert!(!motion_counts(false));
}
