use reader_camera::camera::{AwakeState, IdleTimer, NOMINAL_DELTA_SECONDS, SCROLL_IDLE_SECONDS};
use reader_camera::geometry::{Quat, Vec3};
use reader_camera::{CameraMode, ReaderCamera, TextDescriptor};

fn text() -> TextDescriptor {
    TextDescriptor { glyph_width: 500_000, glyph_height: 1_000_000, rows: 1000, columns: 80 }
}

#[test]
fn a_new_camera_has_the_documented_defaults() {
    let camera = ReaderCamera::default();
    assert_eq!(camera.speed, 10_000_000);
    assert_eq!(camera.sensitivity, 3_000_000);
    assert_eq!(camera.swipe_sensitivity, 0);
    assert_eq!(camera.mouse_scroll_sensitivity, 1_000_000);
    assert_eq!(camera.wheel_scroll_sensitivity, 300_000);
    assert_eq!(camera.zoom_sensitivity, 1_000_000);
    assert_eq!(camera.pitch_max, 1_000_000);
    assert_eq!(camera.mouse_scroll_easing_seconds, 5_000_000);
    assert_eq!(camera.swipe_easing_seconds, 6_000_000);
    assert_eq!(camera.translation_easing_seconds, 50_000);
    assert_eq!(camera.translation_easing_scroll_seconds, 150_000);
    assert_eq!(camera.rotation_easing_seconds, 100_000);
    assert_eq!(camera.zoom_easing_seconds, 10_000);
    assert_eq!(camera.lean_easing_seconds, 100_000);
    assert_eq!(camera.lean_reset_easing_seconds, 50_000);
    assert_eq!(camera.pitch, 0);
    assert_eq!(camera.yaw, 0);
    assert_eq!(camera.zoom, 7_000_000);
    assert_eq!(camera.target_zoom, 7_000_000);
    assert_eq!(camera.scroll, 0);
    assert_eq!(camera.swipe, 0);
    assert_eq!(camera.column, 51);
    assert_eq!(camera.target_row_prev, 0);
    assert_eq!(camera.row_constant_offset, 0);
    assert_eq!(camera.row_offset_in(), 0);
    assert_eq!(camera.row_offset_out(), 0);
    assert_eq!(camera.row_offset_delta(), 0);
    assert_eq!(camera.visible_rows, 40_000_000);
    assert_eq!(camera.visible_rows_target, None);
    assert_eq!(camera.visible_columns, 80_000_000);
    assert_eq!(camera.visible_columns_target, None);
    assert_eq!((camera.y_top, camera.y_bottom, camera.x_left, camera.x_right), (0, 0, 0, 0));
    assert_eq!(camera.translation_easing_current, 50_000);
    assert_eq!(camera.swipe_accum, 0);
    assert_eq!(camera.scroll_accum, 0);
    assert_eq!(camera.target_translation, Vec3 { x: 0, y: 0, z: 0 });
    assert_eq!(camera.target_rotation, Quat { x: 0, y: 0, z: 0, w: 1_000_000 });
    assert!(camera.perspective);
    assert!(!camera.invert_y);
    assert!(!camera.pitch_changed);
    assert_eq!(camera.awake, AwakeState::Awake);
    assert_eq!(camera.scroll_idle_timer, IdleTimer { elapsed: 0, duration: 250_000 });
    assert_eq!(SCROLL_IDLE_SECONDS, 250_000);
    assert!(camera.mode == CameraMode::Fly);
    assert!(camera.enabled_scroll);
    assert!(!camera.enabled_translation);
    assert!(!camera.enabled_rotation);
    assert!(!camera.enabled_zoom);
    assert!(camera.default_enabled_scroll);
    assert!(!camera.default_enabled_translation);
    assert!(!camera.default_enabled_rotation);
    assert!(!camera.default_enabled_zoom);
    assert_eq!(camera.target_entity, None);
}

#[test]
fn set_mode_changes_the_mode_only() {
    let mut camera = ReaderCamera::default();
    camera.set_mode(CameraMode::Reader);
    assert!(camera.mode == CameraMode::Reader);
    camera.mode = CameraMode::Fly;
    assert_eq!(camera, ReaderCamera::default());
}

#[test]
fn restrictions_are_set_and_returned_to_their_defaults() {
    let mut camera = ReaderCamera::default();
    assert!(camera.restrictions_are_default());
    camera.set_restrictions(true, false, true, false);
    assert!(camera.enabled_translation);
    assert!(!camera.enabled_rotation);
    assert!(camera.enabled_zoom);
    assert!(!camera.enabled_scroll);
    assert!(!camera.restrictions_are_default());
    camera.apply_default_restrictions();
    assert!(!camera.enabled_translation);
    assert!(!camera.enabled_rotation);
    assert!(!camera.enabled_zoom);
    assert!(camera.enabled_scroll);
    assert!(camera.restrictions_are_default());
}

#[test]
fn set_mode_wrestrictions_sets_mode_and_capabilities() {
    let mut camera = ReaderCamera::default();
    camera.set_mode_wrestrictions(CameraMode::Follow, false, true, false, true);
    assert!(camera.mode == CameraMode::Follow);
    assert!(!camera.enabled_translation);
    assert!(camera.enabled_rotation);
    assert!(!camera.enabled_zoom);
    assert!(camera.enabled_scroll);
}

#[test]
fn all_defaults_can_be_switched_off() {
    let mut camera = ReaderCamera::default();
    camera.default_enabled_translation = true;
    camera.default_enabled_rotation = true;
    camera.default_enabled_zoom = true;
    camera.set_all_default_restrictions_false();
    assert!(!camera.default_enabled_translation);
    assert!(!camera.default_enabled_rotation);
    assert!(!camera.default_enabled_zoom);
    assert!(!camera.default_enabled_scroll);
    assert!(camera.enabled_scroll);
    assert!(!camera.restrictions_are_default());
}

#[test]
fn the_requested_row_is_stored_and_read_back() {
    let mut camera = ReaderCamera::default();
    camera.set_row_offset_in(17);
    assert_eq!(camera.row_offset_in(), 17);
    assert_eq!(camera.row_offset_out(), 0);
}

#[test]
fn the_pending_delta_is_handed_out_once() {
    let mut camera = ReaderCamera::default();
    camera.row_offset_delta = -4;
    assert_eq!(camera.row_offset_delta(), -4);
    assert_eq!(camera.row_offset_delta(), -4);
    assert_eq!(camera.row_offset_delta_apply(), -4);
    assert_eq!(camera, ReaderCamera::default());
    assert_eq!(camera.row_offset_delta_apply(), 0);
    assert_eq!(camera.row_offset_delta(), 0);
    assert_eq!(camera, ReaderCamera::default());
}

#[test]
fn sleep_and_wake_switch_the_state() {
    let mut camera = ReaderCamera::default();
    assert!(camera.is_awake());
    assert!(!camera.is_dormant());
    camera.put_to_sleep();
    assert!(camera.is_dormant());
    assert!(!camera.is_awake());
    camera.wake_up();
    assert!(camera.is_awake());
    assert!(!camera.is_dormant());
}

#[test]
fn a_dormant_camera_runs_on_the_nominal_frame_time() {
    let mut camera = ReaderCamera::default();
    assert_eq!(camera.frame_seconds(123_456), 123_456);
    camera.put_to_sleep();
    assert_eq!(camera.frame_seconds(123_456), 16_667);
    assert_eq!(NOMINAL_DELTA_SECONDS, 16_667);
    camera.wake_up();
    assert_eq!(camera.frame_seconds(0), 0);
}

#[test]
fn a_move_is_requested_only_while_translation_is_enabled() {
    let mut camera = ReaderCamera::default();
    camera.row_offset_delta = 1;
    assert!(!camera.move_requested());
    camera.enabled_translation = true;
    assert!(camera.move_requested());
    camera.row_offset_delta = 0;
    assert!(!camera.move_requested());
    camera.set_row_offset_in(3);
    assert!(camera.move_requested());
    camera.row_offset_camera = 3;
    assert!(!camera.move_requested());
}

#[test]
fn zooming_ends_within_a_thousandth() {
    let mut camera = ReaderCamera::default();
    assert!(!camera.is_zooming());
    camera.target_zoom = 7_000_999;
    assert!(!camera.is_zooming());
    camera.target_zoom = 7_001_000;
    assert!(camera.is_zooming());
    camera.target_zoom = 6_999_000;
    assert!(camera.is_zooming());
}

#[test]
fn moving_ends_when_every_component_is_within_a_thousandth() {
    let mut camera = ReaderCamera::default();
    camera.target_translation = Vec3 { x: 1_000_000, y: 2_000_000, z: 3_000_000 };
    assert!(!camera.is_moving(&Vec3 { x: 1_001_000, y: 1_999_000, z: 3_000_000 }));
    assert!(camera.is_moving(&Vec3 { x: 1_001_001, y: 2_000_000, z: 3_000_000 }));
    assert!(camera.is_moving(&Vec3 { x: 1_000_000, y: 2_000_000, z: 2_998_999 }));
}

#[test]
fn the_reading_frame_needs_reader_mode_and_a_target() {
    let mut camera = ReaderCamera::default();
    assert!(!camera.reads());
    camera.set_mode(CameraMode::Reader);
    assert!(!camera.reads());
    camera.target_entity = Some(42);
    assert!(camera.reads());
    camera.set_mode(CameraMode::Follow);
    assert!(!camera.reads());
}

#[test]
fn the_reported_row_follows_the_height_of_the_camera() {
    let mut camera = ReaderCamera::default();
    camera.report_row_offset(-25_000_000, &text());
    assert_eq!(camera.row_offset_out(), 5);
    camera.report_row_offset(25_500_000, &text());
    assert_eq!(camera.row_offset_out(), 6);
    camera.report_row_offset(25_499_999, &text());
    assert_eq!(camera.row_offset_out(), 5);
    camera.report_row_offset(-3_000_000, &text());
    assert_eq!(camera.row_offset_out(), 0);
    camera.row_constant_offset = 2_000_000;
    camera.visible_rows = 10_000_000;
    camera.report_row_offset(-25_000_000, &text());
    assert_eq!(camera.row_offset_out(), 18);
    camera.report_row_offset(i64::MIN, &text());
    assert_eq!(camera.row_offset_out(), u32::MAX);
}

#[test]
fn leaving_the_perspective_projection_resets_the_angles() {
    let mut camera = ReaderCamera::default();
    camera.yaw = 5_000_000;
    camera.pitch = -3_000_000;
    assert!(!camera.toggle_perspective());
    assert!(!camera.perspective);
    assert_eq!((camera.yaw, camera.pitch), (0, 0));
    camera.yaw = 5_000_000;
    assert!(camera.toggle_perspective());
    assert!(camera.perspective);
    assert_eq!(camera.yaw, 5_000_000);
}

#[test]
fn the_target_depth_is_the_target_zoom_before_the_surface() {
    let mut camera = ReaderCamera::default();
    camera.target_zoom = 12_500_000;
    assert_eq!(camera.target_depth(-2_000_000), 10_500_000);
}

#[test]
fn the_idle_timer_counts_up_to_its_duration() {
    let mut timer = IdleTimer::new(250_000);
    assert!(!timer.finished());
    timer.tick(100_000);
    assert_eq!(timer.elapsed, 100_000);
    assert!(!timer.finished());
    timer.tick(149_999);
    assert!(!timer.finished());
    timer.tick(1);
    assert!(timer.finished());
    timer.tick(u64::MAX);
    assert_eq!(timer.elapsed, 250_000);
    assert!(timer.finished());
    timer.reset();
    assert_eq!(timer.elapsed, 0);
    assert!(!timer.finished());
    assert!(IdleTimer::new(0).finished());
}

#[test]
fn a_descriptor_is_valid_with_positive_glyph_cells() {
    assert!(text().is_valid());
    assert!(!TextDescriptor { glyph_width: 0, glyph_height: 1, rows: 1, columns: 1 }.is_valid());
    assert!(!TextDescriptor { glyph_width: 1, glyph_height: -1, rows: 1, columns: 1 }.is_valid());
    assert!(!TextDescriptor::default().is_valid());
}
