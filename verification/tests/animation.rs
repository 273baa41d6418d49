//! The animation clock, the mouse override, the pause control and resizing.

use trigviz::consts::MAX_RADIUS;
use trigviz::consts::TWO_PI;
use trigviz::entity::MouseState;
use trigviz::entity::Paused;
use trigviz::entity::PauseButtonHovered;
use trigviz::entity::Point;
use trigviz::entity::Radius;
use trigviz::entity::Theta;
use trigviz::pause_button::pause_button_system;
use trigviz::pause_button::ButtonFill;
use trigviz::pause_button::ButtonInteraction;
use trigviz::systems::animate_system;
use trigviz::systems::frame_update;
use trigviz::systems::initial_state;
use trigviz::systems::mouse_click_system;
use trigviz::systems::mouse_update_cursor;
use trigviz::systems::resize_circle_system;
use trigviz::systems::theta_label;
use trigviz::systems::web_resize_system;

#[test]
fn initial_state_values() {
    let (theta, radius, paused, hovered) = initial_state();
    assert_eq!(theta.0, 0);
    assert_eq!(radius.0, MAX_RADIUS);
    assert!(!paused.0);
    assert!(!hovered.0);
}

#[test]
fn two_seconds_at_half_radian_per_second() {
    let mut theta = Theta(0);
    let label = animate_system(&mut theta, &Paused(false), 200_000);
    // 2 s * 0.5 rad/s == 1.0 rad, already within [0, 2*pi)
    assert_eq!(theta.0, 100_000);
    assert_eq!(label.unwrap().value, "θ = 0.000 = 0.0°");
}

#[test]
fn advance_wraps_at_a_full_turn() {
    let mut theta = Theta(TWO_PI - 1);
    animate_system(&mut theta, &Paused(false), 200_000);
    assert_eq!(theta.0, 100_000 - 1);
}

#[test]
fn label_shows_the_angle_before_the_advance() {
    let mut theta = Theta(100_000);
    let label = animate_system(&mut theta, &Paused(false), 200_000);
    // 1 radian is 57.29578 degrees
    assert_eq!(label.unwrap().value, "θ = 1.000 = 57.3°");
    assert_eq!(theta.0, 200_000);
}

#[test]
fn paused_clock_leaves_the_angle_untouched() {
    let mut theta = Theta(123_456);
    for elapsed in [0_i64, 1, 200_000, 8_640_000_000] {
        let label = animate_system(&mut theta, &Paused(true), elapsed);
        assert_eq!(theta.0, 123_456);
        assert!(label.is_none());
    }
}

#[test]
fn held_button_overrides_the_angle() {
    let mut theta = Theta(42);
    mouse_click_system(&mut theta, &PauseButtonHovered(false), true, -314_159);
    assert_eq!(theta.0, -314_159);
}

#[test]
fn hovering_the_pause_control_suppresses_the_override() {
    let mut theta = Theta(42);
    mouse_click_system(&mut theta, &PauseButtonHovered(true), true, -314_159);
    assert_eq!(theta.0, 42);
}

#[test]
fn released_button_leaves_the_angle_alone() {
    let mut theta = Theta(42);
    mouse_click_system(&mut theta, &PauseButtonHovered(false), false, -314_159);
    assert_eq!(theta.0, 42);
}

#[test]
fn override_wins_over_the_clock_within_a_frame() {
    let mut theta = Theta(0);
    let label = frame_update(&mut theta, &Paused(false), &PauseButtonHovered(false), 200_000, true, 271_828);
    // the clock wrote 1.0 rad first; the held button then overwrote it
    assert_eq!(theta.0, 271_828);
    assert!(label.is_some());
}

#[test]
fn cursor_is_translated_to_window_centered_coordinates() {
    let mut state = MouseState::default();
    assert_eq!(state.cursor_pos, Point { x: 0, y: 0 });
    // window 720 x 720, cursor at (500, 100) in window coordinates
    mouse_update_cursor(&mut state, 50_000_000, 10_000_000, 72_000_000, 72_000_000);
    assert_eq!(state.cursor_pos.x, 14_000_000);
    assert_eq!(state.cursor_pos.y, -26_000_000);
}

#[test]
fn theta_label_of_negative_angle() {
    // -pi/2 is -1.571 rad, -90.0 degrees
    assert_eq!(theta_label(-157_080), "θ = -1.571 = -90.0°");
}

#[test]
fn click_toggles_the_clock_and_presses_the_button() {
    let mut paused = Paused(false);
    let mut hovered = PauseButtonHovered(false);
    let (fill, caption) = pause_button_system(&mut paused, &mut hovered, ButtonInteraction::Clicked);
    assert!(paused.0);
    assert!(!hovered.0);
    assert_eq!(fill, ButtonFill::Pressed);
    assert_eq!(caption, "Resume");
    let (_, caption) = pause_button_system(&mut paused, &mut hovered, ButtonInteraction::Clicked);
    assert!(!paused.0);
    assert_eq!(caption, "Pause");
}

#[test]
fn hover_sets_and_leave_clears_the_hover_flag() {
    let mut paused = Paused(false);
    let mut hovered = PauseButtonHovered(false);
    let (fill, caption) = pause_button_system(&mut paused, &mut hovered, ButtonInteraction::Hovered);
    assert!(hovered.0);
    assert!(!paused.0);
    assert_eq!(fill, ButtonFill::Hovered);
    assert_eq!(caption, "Pause");
    let (fill, _) = pause_button_system(&mut paused, &mut hovered, ButtonInteraction::Idle);
    assert!(!hovered.0);
    assert_eq!(fill, ButtonFill::Normal);
}

#[test]
fn wide_window_caps_the_radius() {
    let mut radius = Radius(0);
    // width 500: min(500/2 - 20, 200) == 200
    resize_circle_system(&mut radius, 50_000_000);
    assert_eq!(radius.0, 20_000_000);
}

#[test]
fn narrow_window_shrinks_the_radius() {
    let mut radius = Radius(MAX_RADIUS);
    // width 300: min(300/2 - 20, 200) == 130
    resize_circle_system(&mut radius, 30_000_000);
    assert_eq!(radius.0, 13_000_000);
}

#[test]
fn pathologically_narrow_window_leaves_the_radius_unfloored() {
    let mut radius = Radius(MAX_RADIUS);
    // width 20: min(20/2 - 20, 200) == -10; no floor is applied
    resize_circle_system(&mut radius, 2_000_000);
    assert_eq!(radius.0, -1_000_000);
}

#[test]
fn resize_queue_drains_to_the_most_recent_size() {
    let sizes: Vec<(i64, i64)> = vec![(10, 20), (30, 40), (50, 60)];
    assert_eq!(web_resize_system(&sizes), Some((50, 60)));
    let empty: Vec<(i64, i64)> = vec![];
    assert_eq!(web_resize_system(&empty), None);
}
