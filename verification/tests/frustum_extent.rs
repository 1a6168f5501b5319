use reader_camera::frustum::{
    calc_frustum_data, calc_visible_columns, calc_visible_rows, Frustum, Plane, DEPTH_EPSILON,
};
use reader_camera::geometry::Vec3;
use reader_camera::reader_mode::zoom_adjustment;
use reader_camera::{CameraMode, ReaderCamera, TextDescriptor};

fn plane(x: i64, y: i64, z: i64, d: i64) -> Plane {
    Plane { normal: Vec3 { x, y, z }, d }
}

/// Borders at a distance of `half_extent` from the axis at depth -10.
fn frustum(half_extent: i64) -> Frustum {
    let slope = 10_000_000 * 1_000_000 / half_extent;
    Frustum {
        left: plane(slope, 0, -1_000_000, 0),
        right: plane(-slope, 0, -1_000_000, 0),
        bottom: plane(0, slope, -1_000_000, 0),
        top: plane(0, -slope, -1_000_000, 0),
    }
}

const TARGET_Z: i64 = -10_050_000;

fn text() -> TextDescriptor {
    TextDescriptor { glyph_width: 250_000, glyph_height: 500_000, rows: 1000, columns: 80 }
}

#[test]
fn a_plane_is_solved_for_its_border() {
    let top = plane(0, -2_000_000, -1_000_000, 0);
    assert_eq!(top.border_y(-10_000_000), 5_000_000);
    let bottom = plane(0, 2_000_000, -1_000_000, 0);
    assert_eq!(bottom.border_y(-10_000_000), -5_000_000);
    let shifted = plane(0, 2_000_000, -1_000_000, 3_000_000);
    assert_eq!(shifted.border_y(-10_000_000), -6_500_000);
    let left = plane(4_000_000, 0, -1_000_000, 0);
    assert_eq!(left.border_x(-10_000_000), -2_500_000);
    let right = plane(-4_000_000, 7_000_000, -1_000_000, 1_000_000);
    assert_eq!(right.border_x(-10_000_000), 2_750_000);
}

#[test]
fn a_plane_along_the_axis_has_its_border_at_the_end_of_the_range() {
    let flat = plane(0, 0, -1_000_000, 0);
    assert_eq!(flat.border_y(-10_000_000), i64::MIN);
    assert_eq!(flat.border_x(10_000_000), i64::MAX);
    assert_eq!(flat.border_x(0), 0);
}

#[test]
fn rows_and_columns_in_view_are_the_extent_in_glyph_cells() {
    assert_eq!(DEPTH_EPSILON, 50_000);
    let view = frustum(5_000_000);
    assert_eq!(calc_visible_rows(&view, TARGET_Z, 500_000), 20_000_000);
    assert_eq!(calc_visible_columns(&view, TARGET_Z, 250_000), 40_000_000);
    assert_eq!(calc_visible_rows(&view, TARGET_Z, 3_000_000), 3_333_333);
}

fn reader() -> ReaderCamera {
    let mut camera = ReaderCamera::default();
    camera.set_mode(CameraMode::Reader);
    camera.target_entity = Some(1);
    camera
}

#[test]
fn the_frustum_sets_borders_and_counts() {
    let mut camera = reader();
    calc_frustum_data(&mut camera, &frustum(5_000_000), &text(), TARGET_Z);
    assert_eq!(camera.y_top, 5_000_000);
    assert_eq!(camera.y_bottom, -5_000_000);
    assert_eq!(camera.x_left, -5_000_000);
    assert_eq!(camera.x_right, 5_000_000);
    assert_eq!(camera.visible_rows, 20_000_000);
    assert_eq!(camera.visible_columns, 40_000_000);
    assert_eq!(camera.visible_rows_target, Some(20_000_000));
    assert_eq!(camera.visible_columns_target, Some(40_000_000));
    camera.y_top = 0;
    camera.y_bottom = 0;
    camera.x_left = 0;
    camera.x_right = 0;
    camera.visible_rows = 40_000_000;
    camera.visible_columns = 80_000_000;
    camera.visible_rows_target = None;
    camera.visible_columns_target = None;
    assert_eq!(camera, reader());
}

#[test]
fn a_camera_that_does_not_read_keeps_its_extent() {
    let mut flying = ReaderCamera::default();
    flying.target_entity = Some(1);
    calc_frustum_data(&mut flying, &frustum(5_000_000), &text(), TARGET_Z);
    flying.target_entity = None;
    assert_eq!(flying, ReaderCamera::default());

    let mut following = ReaderCamera::default();
    following.set_mode(CameraMode::Follow);
    following.target_entity = Some(1);
    calc_frustum_data(&mut following, &frustum(5_000_000), &text(), TARGET_Z);
    assert_eq!(following.y_top, 0);
    assert_eq!(following.visible_rows, 40_000_000);
    assert_eq!(following.visible_rows_target, None);

    let mut unbound = ReaderCamera::default();
    unbound.set_mode(CameraMode::Reader);
    calc_frustum_data(&mut unbound, &frustum(5_000_000), &text(), TARGET_Z);
    unbound.set_mode(CameraMode::Fly);
    assert_eq!(unbound, ReaderCamera::default());
}

#[test]
fn the_eased_counts_are_set_while_unset() {
    let mut camera = reader();
    calc_frustum_data(&mut camera, &frustum(5_000_000), &text(), TARGET_Z);
    assert_eq!(camera.visible_rows_target, Some(20_000_000));
    assert_eq!(camera.visible_columns_target, Some(40_000_000));
}

#[test]
fn the_eased_counts_do_not_follow_a_count_that_changes() {
    let mut camera = reader();
    camera.visible_rows_target = Some(40_000_000);
    camera.visible_columns_target = Some(80_000_000);
    calc_frustum_data(&mut camera, &frustum(5_000_000), &text(), TARGET_Z);
    assert_eq!(camera.visible_rows, 20_000_000);
    assert_eq!(camera.visible_columns, 40_000_000);
    assert_eq!(camera.visible_rows_target, Some(40_000_000));
    assert_eq!(camera.visible_columns_target, Some(80_000_000));

    calc_frustum_data(&mut camera, &frustum(4_000_000), &text(), TARGET_Z);
    assert_eq!(camera.visible_rows, 16_000_000);
    assert_eq!(camera.visible_rows_target, Some(40_000_000));
    assert_eq!(camera.visible_columns_target, Some(80_000_000));
}

#[test]
fn the_eased_counts_follow_a_count_that_has_settled() {
    let mut camera = reader();
    camera.visible_rows_target = Some(40_000_000);
    camera.visible_columns_target = Some(80_000_000);
    calc_frustum_data(&mut camera, &frustum(4_000_000), &text(), TARGET_Z);
    calc_frustum_data(&mut camera, &frustum(4_000_000), &text(), TARGET_Z);
    assert_eq!(camera.visible_rows, 16_000_000);
    assert_eq!(camera.visible_rows_target, Some(16_000_000));
    assert_eq!(camera.visible_columns_target, Some(32_000_000));
}

#[test]
fn the_eased_counts_of_a_zoom_stay_while_the_camera_moves() {
    let mut camera = reader();
    calc_frustum_data(&mut camera, &frustum(4_000_000), &text(), TARGET_Z);
    zoom_adjustment(&text(), TARGET_Z, &frustum(2_000_000), &mut camera);
    assert_eq!(camera.visible_rows_target, Some(8_000_000));
    assert_eq!(camera.visible_columns_target, Some(16_000_000));
    assert_eq!(camera.visible_rows, 16_000_000);

    calc_frustum_data(&mut camera, &frustum(3_000_000), &text(), TARGET_Z);
    assert_eq!(camera.visible_rows, 12_000_000);
    assert_eq!(camera.visible_columns, 24_000_000);
    assert_eq!(camera.visible_rows_target, Some(8_000_000));
    assert_eq!(camera.visible_columns_target, Some(16_000_000));

    calc_frustum_data(&mut camera, &frustum(2_000_000), &text(), TARGET_Z);
    assert_eq!(camera.visible_rows, 8_000_000);
    assert_eq!(camera.visible_rows_target, Some(8_000_000));
    calc_frustum_data(&mut camera, &frustum(2_500_000), &text(), TARGET_Z);
    assert_eq!(camera.visible_rows, 10_000_000);
    assert_eq!(camera.visible_rows_target, Some(8_000_000));
    assert_eq!(camera.visible_columns_target, Some(16_000_000));
    calc_frustum_data(&mut camera, &frustum(2_500_000), &text(), TARGET_Z);
    assert_eq!(camera.visible_rows_target, Some(10_000_000));
    assert_eq!(camera.visible_columns_target, Some(20_000_000));
}

#[test]
fn a_zoom_is_answered_with_half_the_change_of_rows_rounded_down() {
    let mut camera = ReaderCamera::default();
    camera.row_offset_delta = 7;
    zoom_adjustment(&text(), TARGET_Z, &frustum(5_000_000), &mut camera);
    assert_eq!(camera.row_offset_delta(), 10);
    assert_eq!(camera.visible_rows_target, Some(20_000_000));
    assert_eq!(camera.visible_columns_target, Some(40_000_000));
    assert_eq!(camera.visible_rows, 40_000_000);
    assert_eq!(camera.visible_columns, 80_000_000);

    zoom_adjustment(&text(), TARGET_Z, &frustum(6_250_000), &mut camera);
    assert_eq!(camera.visible_rows_target, Some(25_000_000));
    assert_eq!(camera.row_offset_delta(), -3);

    camera.visible_rows_target = None;
    camera.visible_rows = 26_000_000;
    zoom_adjustment(&text(), TARGET_Z, &frustum(6_250_000), &mut camera);
    assert_eq!(camera.row_offset_delta(), 0);
    camera.visible_rows_target = Some(27_000_000);
    zoom_adjustment(&text(), TARGET_Z, &frustum(6_250_000), &mut camera);
    assert_eq!(camera.row_offset_delta(), 1);
}

#[test]
fn a_huge_change_of_rows_saturates_the_delta() {
    let mut camera = ReaderCamera::default();
    camera.visible_rows_target = Some(i64::MAX);
    zoom_adjustment(&text(), TARGET_Z, &frustum(5_000_000), &mut camera);
    assert_eq!(camera.row_offset_delta(), i32::MAX);
    camera.visible_rows_target = Some(i64::MIN);
    zoom_adjustment(&text(), TARGET_Z, &frustum(5_000_000), &mut camera);
    assert_eq!(camera.row_offset_delta(), i32::MIN);
}
