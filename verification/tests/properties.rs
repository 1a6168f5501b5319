use reader_camera::fixed::ONE;
use reader_camera::geometry::{Vec2, Vec3};
use reader_camera::reader_mode::{apply_zoom, column_limit, translation, zoom, RowsMetaData};
use reader_camera::{ReaderCamera, TextDescriptor};

fn text() -> TextDescriptor {
    TextDescriptor { glyph_width: 600_000, glyph_height: 1_200_000, rows: 1000, columns: 80 }
}

fn rows(start: bool, end: bool) -> RowsMetaData {
    RowsMetaData {
        row_changed: false,
        row_delta: 0,
        row_max: 1000 * ONE,
        target_row: 20 * ONE,
        visible_rows: 40 * ONE,
        visible_rows_half: 20 * ONE,
        text_start_reached: start,
        text_end_reached: end,
    }
}

fn frame(
    camera: &mut ReaderCamera,
    wheel: Option<i64>,
    mouse: Vec2,
    seconds: u64,
    meta: &RowsMetaData,
) {
    translation(
        None,
        wheel,
        mouse,
        seconds,
        0,
        meta,
        &text(),
        &Vec3 { x: 0, y: 0, z: 0 },
        &Vec3 { x: 0, y: 0, z: ONE },
        camera,
    );
}

#[test]
fn the_residuals_stay_below_one_glyph_after_every_frame() {
    let mut camera = ReaderCamera::default();
    camera.enabled_translation = true;
    camera.swipe_sensitivity = 7 * ONE;
    camera.mouse_scroll_sensitivity = 5 * ONE;
    camera.wheel_scroll_sensitivity = 3 * ONE;
    let wheels = [
        Some(2_500_000),
        None,
        Some(-9_999_999),
        Some(400_000),
        Some(i64::MAX / 1_000_000_000),
        None,
        Some(-1_200_000),
        Some(i64::MIN / 1_000_000_000),
        None,
    ];
    let mut mouse = Vec2 { x: 123_456_789, y: -987_654_321 };
    for wheel in wheels {
        frame(&mut camera, wheel, mouse, 1_000_000, &rows(false, false));
        assert!(camera.scroll_accum.abs() < text().glyph_height);
        assert!(camera.swipe_accum.abs() < text().glyph_width);
        assert!(camera.column <= column_limit(text().columns));
        mouse = Vec2 { x: -mouse.x * 3, y: -mouse.y * 2 };
    }
}

#[test]
fn zoom_and_target_stay_in_range_after_every_update() {
    let mut camera = ReaderCamera::default();
    camera.enabled_zoom = true;
    let requests = [143 * ONE, -500 * ONE, 1, i64::MAX, i64::MIN, 20 * ONE, -3 * ONE];
    let seconds = [0, 1, 5_000, 9_999, 10_000, 16_667, u64::MAX];
    for (request, elapsed) in requests.iter().zip(seconds.iter()) {
        zoom(*request, &mut camera);
        assert!(3 * ONE <= camera.target_zoom && camera.target_zoom <= 100 * ONE);
        apply_zoom(*elapsed, &mut camera);
        assert!(3 * ONE <= camera.zoom && camera.zoom <= 100 * ONE);
    }
}

#[test]
fn a_taken_delta_is_zero_on_the_second_take() {
    let mut camera = ReaderCamera::default();
    camera.wheel_scroll_sensitivity = ONE;
    frame(&mut camera, Some(3 * 1_200_000 + 5), Vec2 { x: 0, y: 0 }, 16_667, &rows(false, false));
    assert_eq!(camera.row_offset_delta_apply(), 3);
    assert_eq!(camera.row_offset_delta_apply(), 0);
    assert_eq!(camera.row_offset_delta_apply(), 0);
}

#[test]
fn a_burst_of_exactly_three_glyphs_comes_to_rest_three_rows_on() {
    let mut camera = ReaderCamera::default();
    camera.wheel_scroll_sensitivity = ONE;
    let mut taken = 0;
    for wheel in [500_000, 1_900_000, -700_000, 1_900_000] {
        frame(&mut camera, Some(wheel), Vec2 { x: 0, y: 0 }, 16_667, &rows(false, false));
        taken += camera.row_offset_delta_apply();
    }
    assert_eq!(camera.scroll_accum, 0);
    assert_eq!(taken, 3);
    for _ in 0..30 {
        frame(&mut camera, None, Vec2 { x: 0, y: 0 }, 16_667, &rows(false, false));
        taken += camera.row_offset_delta_apply();
    }
    assert!(camera.scroll_idle_timer.finished());
    assert_eq!(camera.scroll_accum, 0);
    assert_eq!(taken, 3);
}

#[test]
fn a_burst_left_pending_adds_up_in_the_delta() {
    let mut camera = ReaderCamera::default();
    camera.wheel_scroll_sensitivity = ONE;
    for wheel in [-500_000, -1_900_000, 700_000, -1_900_000] {
        frame(&mut camera, Some(wheel), Vec2 { x: 0, y: 0 }, 16_667, &rows(false, false));
    }
    assert_eq!(camera.scroll_accum, 0);
    assert_eq!(camera.row_offset_delta(), -3);
}

#[test]
fn sustained_idle_frames_bring_a_residual_to_the_nearest_row() {
    for (start, row) in [(500_000, 0), (700_000, 1), (-599_999, 0), (-600_000, -1)] {
        let mut camera = ReaderCamera::default();
        camera.scroll_accum = start;
        let mut frames = 0;
        while camera.scroll_accum != 0 {
            frame(&mut camera, None, Vec2 { x: 0, y: 0 }, 16_667, &rows(false, false));
            frames += 1;
            assert!(frames <= 12_000 + 15);
        }
        assert_eq!(camera.row_offset_delta(), row);
        assert!(frames > 15);
    }
}

#[test]
fn the_delta_does_not_fall_at_the_start_of_the_text() {
    let mut camera = ReaderCamera::default();
    camera.wheel_scroll_sensitivity = ONE;
    camera.row_offset_delta = 2;
    frame(&mut camera, Some(-5 * ONE), Vec2 { x: 0, y: 0 }, 16_667, &rows(true, false));
    assert_eq!(camera.row_offset_delta(), 2);
    assert!(camera.scroll_accum.abs() < text().glyph_height);
    frame(&mut camera, Some(5 * ONE), Vec2 { x: 0, y: 0 }, 16_667, &rows(true, false));
    assert_eq!(camera.row_offset_delta(), 6);
    assert_eq!(camera.scroll_accum, 0);
}

#[test]
fn the_delta_does_not_rise_at_the_end_of_the_text() {
    let mut camera = ReaderCamera::default();
    camera.wheel_scroll_sensitivity = ONE;
    camera.row_offset_delta = -2;
    frame(&mut camera, Some(5 * ONE), Vec2 { x: 0, y: 0 }, 16_667, &rows(false, true));
    assert_eq!(camera.row_offset_delta(), -2);
    frame(&mut camera, Some(-5 * ONE), Vec2 { x: 0, y: 0 }, 16_667, &rows(false, true));
    assert_eq!(camera.row_offset_delta(), -6);
}

#[test]
fn pointer_and_wheel_together_adding_up_to_whole_rows_come_to_rest() {
    let mut camera = ReaderCamera::default();
    camera.enabled_translation = true;
    camera.wheel_scroll_sensitivity = ONE;
    camera.mouse_scroll_sensitivity = ONE;
    camera.mouse_scroll_easing_seconds = 20_000;
    let mut taken = 0;
    for (wheel, pointer) in [(200_000, ONE), (-3_000_000, 600_000), (1_400_000, ONE)] {
        frame(&mut camera, Some(wheel), Vec2 { x: 0, y: pointer }, 20_000, &rows(false, false));
        if pointer == ONE {
            taken += camera.row_offset_delta_apply();
        }
    }
    assert_eq!(camera.scroll_accum, 0);
    assert_eq!(taken + camera.row_offset_delta(), 1);
    for _ in 0..20 {
        frame(&mut camera, None, Vec2 { x: 5 * ONE, y: 0 }, 20_000, &rows(false, false));
    }
    assert_eq!(camera.scroll_accum, 0);
    assert_eq!(taken + camera.row_offset_delta(), 1);
}

#[test]
fn sustained_idle_frames_settle_whatever_came_before() {
    let tall = TextDescriptor {
        glyph_width: ONE,
        glyph_height: i64::MAX / 4,
        rows: 1000,
        columns: 80,
    };
    let still = Vec3 { x: 0, y: 0, z: 0 };
    let ahead = Vec3 { x: 0, y: 0, z: ONE };
    let mut camera = ReaderCamera::default();
    camera.enabled_translation = true;
    camera.wheel_scroll_sensitivity = 7 * ONE;
    camera.mouse_scroll_sensitivity = 3 * ONE;
    let burst = [
        (i64::MAX, i64::MAX, rows(true, false)),
        (-55_555_555, -9_999, rows(false, true)),
        (i64::MIN, 123_456_789, rows(false, false)),
        (i64::MAX / 9, 1, rows(false, false)),
    ];
    for (wheel, pointer, meta) in burst {
        translation(
            None,
            Some(wheel),
            Vec2 { x: 0, y: pointer },
            40_000,
            0,
            &meta,
            &tall,
            &still,
            &ahead,
            &mut camera,
        );
        assert!(camera.scroll_accum.abs() < tall.glyph_height);
    }
    assert!(camera.scroll_accum != 0);
    let mut frames = 0;
    while camera.scroll_accum != 0 {
        translation(
            None,
            None,
            Vec2 { x: 0, y: 0 },
            250_000,
            0,
            &rows(false, false),
            &tall,
            &still,
            &ahead,
            &mut camera,
        );
        camera.row_offset_delta_apply();
        frames += 1;
        assert!(frames <= 1000);
    }
    assert!(camera.scroll_idle_timer.finished());
}
