use reader_camera::fixed::ONE;
use reader_camera::geometry::{Vec2, Vec3};
use reader_camera::reader_mode::{apply_translation, translation, zoom, RowsMetaData};
use reader_camera::{ReaderCamera, TextDescriptor};

fn fixed(value: f64) -> i64 {
    (value * ONE as f64).round() as i64
}

fn text() -> TextDescriptor {
    TextDescriptor { glyph_width: fixed(1.0), glyph_height: fixed(1.0), rows: 1000, columns: 80 }
}

fn inside_text() -> RowsMetaData {
    RowsMetaData {
        row_changed: false,
        row_delta: 0,
        row_max: fixed(1000.0),
        target_row: 0,
        visible_rows: fixed(40.0),
        visible_rows_half: fixed(20.0),
        text_start_reached: false,
        text_end_reached: false,
    }
}

#[test]
fn wheel_of_two_and_a_half_glyphs_gives_two_rows_and_half_a_glyph() {
    let mut camera = ReaderCamera::default();
    camera.wheel_scroll_sensitivity = fixed(1.0);
    assert_eq!(camera.scroll_accum, 0);
    assert_eq!(camera.row_offset_delta(), 0);
    translation(
        None,
        Some(fixed(2.5)),
        Vec2 { x: 0, y: 0 },
        16_667,
        0,
        &inside_text(),
        &text(),
        &Vec3 { x: 0, y: 0, z: 0 },
        &Vec3 { x: 0, y: 0, z: ONE },
        &mut camera,
    );
    assert_eq!(camera.row_offset_delta(), 2);
    assert_eq!(camera.scroll_accum, fixed(0.5));
}

#[test]
fn zoom_request_beyond_the_range_stops_at_its_upper_end() {
    let mut camera = ReaderCamera::default();
    camera.enabled_zoom = true;
    assert_eq!(camera.zoom, fixed(7.0));
    let asked = zoom(fixed(143.0), &mut camera);
    assert_eq!(asked, fixed(143.0));
    assert_eq!(camera.target_zoom, fixed(100.0));
}

#[test]
fn jump_of_more_than_one_and_a_half_views_arrives_at_once() {
    let mut camera = ReaderCamera::default();
    camera.target_translation = Vec3 { x: fixed(3.0), y: fixed(-250.0), z: fixed(7.0) };
    let mut rows_meta = inside_text();
    rows_meta.row_delta = fixed(60.5);
    let mut position = Vec3 { x: 0, y: 0, z: fixed(7.0) };
    apply_translation(1, &rows_meta, &camera, &mut position);
    assert_eq!(position, camera.target_translation);
}
