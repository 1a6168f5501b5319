//! The stages of one reading frame: zoom, lean, accumulation of scroll and
//! swipe, and the composition of the position the camera eases toward.
//!
//! [`crate::systems`] runs them in their order: `zoom`, `apply_zoom` and
//! `rotation`, then `zoom_adjustment` in a frame that zooms, `translation`
//! and `apply_translation`.

use vstd::prelude::*;
use crate::TextDescriptor;
use crate::camera::{zoom_in_range, ReaderCamera, REST_TOLERANCE, ZOOM_MAX, ZOOM_MIN};
use crate::fixed::{
    abs, easing_rate, floor_half, from_whole, lemma_lerp_between, lerp, lerp_span, magnitude,
    minus, negate, plus, ratio, saturate_i32, times, ONE, TWO,
};
use crate::frustum::{calc_visible_columns, calc_visible_rows, Frustum};
use crate::geometry::{Vec2, Vec3};
use crate::residual::{lemma_residual_bounded, lemma_split_unique, residual, whole_steps};

verus! {

/// A scroll by key repeat and its direction.
#[derive(Clone, Copy, Debug, PartialEq, Eq, Structural)]
pub enum KeyScroll {
    /// Toward the start of the text.
    Up,
    /// Toward the end of the text.
    Down,
}

/// Where the view stands in the text during one frame.
#[derive(Clone, Copy, Debug)]
pub struct RowsMetaData {
    /// Whether the row at the centre of the view changed since the last frame.
    pub row_changed: bool,
    /// Rows the centre of the view moved by since the last frame.
    pub row_delta: i64,
    /// Number of rows of the text.
    pub row_max: i64,
    /// Row at the centre of the view.
    pub target_row: i64,
    /// Rows in view.
    pub visible_rows: i64,
    /// Whole rows in half the view.
    pub visible_rows_half: i64,
    /// Whether the view shows the first row of the text.
    pub text_start_reached: bool,
    /// Whether the view reaches the last row of the text.
    pub text_end_reached: bool,
}

impl RowsMetaData {
    /// The place of the view in the text, from the displayed row offset and
    /// the rows in view.
    pub open spec fn of(text_descriptor: &TextDescriptor, camera: ReaderCamera) -> RowsMetaData {
        let half = from_whole(floor_half(camera.visible_rows));
        let target_row = plus(from_whole(camera.row_offset_app as i64), half);
        let row_max = from_whole(text_descriptor.rows as i64);
        let row_delta = minus(target_row, camera.target_row_prev);
        RowsMetaData {
            row_changed: row_delta != 0,
            row_delta,
            row_max,
            target_row,
            visible_rows: camera.visible_rows,
            visible_rows_half: half,
            text_start_reached: camera.row_offset_app == 0,
            text_end_reached: plus(target_row, half) >= row_max,
        }
    }

    /// Works out the place of the view for this frame and remembers its
    /// centre row for the next one.
    pub fn refresh(text_descriptor: &TextDescriptor, camera: &mut ReaderCamera) -> (r: RowsMetaData)
        ensures
            r == RowsMetaData::of(text_descriptor, *old(camera)),
            *final(camera) == (ReaderCamera { target_row_prev: r.target_row, ..*old(camera) }),
    {
        let half: i64 = from_whole(floor_half(camera.visible_rows));
        let target_row: i64 = plus(from_whole(camera.row_offset_app as i64), half);
        let row_max: i64 = from_whole(text_descriptor.rows as i64);
        let row_delta: i64 = minus(target_row, camera.target_row_prev);
        camera.target_row_prev = target_row;
        RowsMetaData {
            row_changed: row_delta != 0,
            row_delta,
            row_max,
            target_row,
            visible_rows: camera.visible_rows,
            visible_rows_half: half,
            text_start_reached: camera.row_offset_app == 0,
            text_end_reached: plus(target_row, half) >= row_max,
        }
    }
}

/// `value` held between `low` and `high`; `low` wins where they cross.
pub open spec fn clamped(value: i64, low: i64, high: i64) -> i64 {
    if value > high {
        if high < low {
            low
        } else {
            high
        }
    } else if value < low {
        low
    } else {
        value
    }
}

/// The change of zoom that a request asks for: the raw amount scaled by the
/// sensitivity, or nothing while zoom is disabled.
pub open spec fn zoom_scalar(zoom_scalar_raw: i64, camera: ReaderCamera) -> i64 {
    if camera.enabled_zoom {
        times(zoom_scalar_raw, camera.zoom_sensitivity)
    } else {
        0
    }
}

/// The state after a zoom request: the zoom target moved by the change asked
/// for and held in the allowed range.
pub open spec fn zoom_requested(camera: ReaderCamera, zoom_scalar_raw: i64) -> ReaderCamera {
    ReaderCamera {
        target_zoom: clamped(
            plus(zoom_scalar(zoom_scalar_raw, camera), camera.target_zoom),
            ZOOM_MIN,
            ZOOM_MAX,
        ),
        ..camera
    }
}

/// Moves the zoom target by a request and keeps it in the allowed range.
/// Returns the change that was asked for.
pub fn zoom(zoom_scalar_raw: i64, camera: &mut ReaderCamera) -> (r: i64)
    ensures
        r == zoom_scalar(zoom_scalar_raw, *old(camera)),
        *final(camera) == zoom_requested(*old(camera), zoom_scalar_raw),
        zoom_in_range(final(camera).target_zoom),
{
    let mut scalar: i64 = 0;
    if camera.enabled_zoom {
        scalar = times(zoom_scalar_raw, camera.zoom_sensitivity);
    }
    let mut target: i64 = plus(scalar, camera.target_zoom);
    if target > ZOOM_MAX {
        target = ZOOM_MAX;
    }
    if target < ZOOM_MIN {
        target = ZOOM_MIN;
    }
    camera.target_zoom = target;
    scalar
}

/// The state after the zoom has eased toward its target for one frame.
pub open spec fn zoom_applied(camera: ReaderCamera, delta_seconds: u64) -> ReaderCamera {
    ReaderCamera {
        zoom: lerp(
            camera.zoom,
            camera.target_zoom,
            easing_rate(delta_seconds, camera.zoom_easing_seconds),
        ),
        ..camera
    }
}

/// Eases the zoom toward its target by the fraction of the easing time that
/// the frame took, at most the whole way. The zoom ends between where it was
/// and its target, so a zoom and a target within the allowed range leave the
/// zoom within it.
pub fn apply_zoom(delta_seconds: u64, camera: &mut ReaderCamera)
    ensures
        *final(camera) == zoom_applied(*old(camera), delta_seconds),
        old(camera).zoom <= old(camera).target_zoom ==> old(camera).zoom <= final(camera).zoom
            <= old(camera).target_zoom,
        old(camera).target_zoom <= old(camera).zoom ==> old(camera).target_zoom
            <= final(camera).zoom <= old(camera).zoom,
        zoom_in_range(old(camera).zoom) && zoom_in_range(old(camera).target_zoom)
            ==> zoom_in_range(final(camera).zoom),
{
    let inertia: i64 = easing_rate(delta_seconds, camera.zoom_easing_seconds);
    proof {
        lemma_lerp_between(camera.zoom, camera.target_zoom, inertia);
    }
    camera.zoom = lerp(camera.zoom, camera.target_zoom, inertia);
}

/// The rows by which the text must move so that what was at the centre of
/// the view stays there when the rows in view change from `old_rows` to
/// `new_rows`: half the difference, rounded down.
pub open spec fn centering_correction(old_rows: i64, new_rows: i64) -> i32 {
    saturate_i32((old_rows - new_rows) / (2 * ONE))
}

/// Computes the correction that keeps the view centred.
fn centering(old_rows: i64, new_rows: i64) -> (r: i32)
    ensures
        r == centering_correction(old_rows, new_rows),
{
    let difference: i128 = (old_rows as i128) - (new_rows as i128);
    let rows: i128 = if difference >= 0 {
        difference / 2_000_000i128
    } else {
        -((-difference + 1_999_999i128) / 2_000_000i128)
    };
    if rows > i32::MAX as i128 {
        i32::MAX
    } else if rows < i32::MIN as i128 {
        i32::MIN
    } else {
        rows as i32
    }
}

/// The rows in view that the zoom has been eased toward so far.
pub open spec fn settled_rows(camera: ReaderCamera) -> i64 {
    match camera.visible_rows_target {
        Some(rows) => rows,
        None => camera.visible_rows,
    }
}

/// The state after a zoom request has been answered with the correction
/// that keeps the view centred.
pub open spec fn zoom_adjusted(
    camera: ReaderCamera,
    text_descriptor: &TextDescriptor,
    target_z: i64,
    frustum: &Frustum,
) -> ReaderCamera {
    let rows = calc_visible_rows(frustum, target_z, text_descriptor.glyph_height);
    let columns = calc_visible_columns(frustum, target_z, text_descriptor.glyph_width);
    ReaderCamera {
        row_offset_delta: centering_correction(settled_rows(camera), rows),
        visible_rows_target: Some(rows),
        visible_columns_target: Some(columns),
        ..camera
    }
}

/// Answers a zoom request. `frustum` is the frustum that the camera will
/// have once it stands at the target zoom, straight before the surface. The
/// rows that will then be in view become the eased row count, and the row
/// delta becomes the correction that keeps the view centred. The columns are
/// counted anew as well, but ask for no correction.
pub fn zoom_adjustment(
    text_descriptor: &TextDescriptor,
    target_z: i64,
    frustum: &Frustum,
    camera: &mut ReaderCamera,
)
    requires
        text_descriptor.valid(),
    ensures
        *final(camera) == zoom_adjusted(*old(camera), text_descriptor, target_z, frustum),
{
    let visible_rows_new: i64 = calc_visible_rows(frustum, target_z, text_descriptor.glyph_height);
    let visible_rows_old: i64 = match camera.visible_rows_target {
        Some(rows) => rows,
        None => camera.visible_rows,
    };
    camera.row_offset_delta = centering(visible_rows_old, visible_rows_new);
    camera.visible_rows_target = Some(visible_rows_new);
    let visible_columns_new: i64 = calc_visible_columns(
        frustum,
        target_z,
        text_descriptor.glyph_width,
    );
    camera.visible_columns_target = Some(visible_columns_new);
}

/// Whether the lean follows the scroll: rotation is enabled and the view is
/// strictly inside the text.
pub open spec fn leans(rows_meta: &RowsMetaData, camera: ReaderCamera) -> bool {
    camera.enabled_rotation && !rows_meta.text_start_reached && !rows_meta.text_end_reached
}

/// The scroll as the lean sees it: turned round where the vertical axis is
/// inverted.
pub open spec fn lean_scroll(delta_scroll_in: i64, camera: ReaderCamera) -> i64 {
    if camera.invert_y {
        negate(delta_scroll_in)
    } else {
        delta_scroll_in
    }
}

/// The angle the lean eases toward: the largest lean against the direction
/// of the scroll, the present angle while an earlier lean is still being
/// resolved, and zero otherwise.
pub open spec fn lean_target(
    delta_scroll_in: i64,
    rows_meta: &RowsMetaData,
    camera: ReaderCamera,
) -> i64 {
    let delta_scroll = lean_scroll(delta_scroll_in, camera);
    if !leans(rows_meta, camera) {
        0
    } else if delta_scroll < 0 {
        camera.pitch_max
    } else if delta_scroll > 0 {
        negate(camera.pitch_max)
    } else if camera.pitch_changed {
        camera.pitch
    } else {
        0
    }
}

/// The easing time of the lean: the leaning one while the lean follows a
/// scroll or holds, the resetting one while it returns to zero.
pub open spec fn lean_easing(
    delta_scroll_in: i64,
    rows_meta: &RowsMetaData,
    camera: ReaderCamera,
) -> u64 {
    if leans(rows_meta, camera) && (lean_scroll(delta_scroll_in, camera) != 0
        || camera.pitch_changed) {
        camera.lean_easing_seconds
    } else {
        camera.lean_reset_easing_seconds
    }
}

/// The state after the lean has been eased for one frame.
pub open spec fn rotated(
    camera: ReaderCamera,
    delta_seconds: u64,
    delta_scroll_in: i64,
    rows_meta: &RowsMetaData,
) -> ReaderCamera {
    let inertia = ratio(delta_seconds, lean_easing(delta_scroll_in, rows_meta, camera));
    ReaderCamera {
        pitch: lerp(camera.pitch, lean_target(delta_scroll_in, rows_meta, camera), inertia),
        yaw: lerp(camera.yaw, 0, inertia),
        ..camera
    }
}

/// Eases the lean toward its target and the turn toward zero. The fraction
/// is the frame time over the easing time and is not capped, so a frame
/// longer than the easing time carries the angles past their targets.
pub fn rotation(
    delta_seconds: u64,
    delta_scroll_in: i64,
    rows_meta: &RowsMetaData,
    camera: &mut ReaderCamera,
)
    ensures
        *final(camera) == rotated(*old(camera), delta_seconds, delta_scroll_in, rows_meta),
{
    let mut target_pitch: i64 = 0;
    let mut easing: u64 = camera.lean_reset_easing_seconds;
    if camera.enabled_rotation && !rows_meta.text_start_reached && !rows_meta.text_end_reached {
        let delta_scroll: i64 = if camera.invert_y {
            negate(delta_scroll_in)
        } else {
            delta_scroll_in
        };
        if delta_scroll < 0 {
            target_pitch = camera.pitch_max;
            easing = camera.lean_easing_seconds;
        } else if delta_scroll > 0 {
            target_pitch = negate(camera.pitch_max);
            easing = camera.lean_easing_seconds;
        } else if camera.pitch_changed {
            target_pitch = camera.pitch;
            easing = camera.lean_easing_seconds;
        }
    }
    let inertia: i64 = ratio(delta_seconds, easing);
    camera.pitch = lerp(camera.pitch, target_pitch, inertia);
    camera.yaw = lerp(camera.yaw, 0, inertia);
}

/// The height that makes up for the lean, so that a leaning camera keeps
/// facing the same row: the sine of the lean times twice the zoom.
pub open spec fn spec_pitch_compensation(pitch_sin: i64, camera: &ReaderCamera) -> i64 {
    times(times(pitch_sin, camera.zoom), TWO)
}

/// Computes the height that makes up for the lean from the sine of the lean
/// angle.
#[verifier::when_used_as_spec(spec_pitch_compensation)]
pub fn pitch_compensation(pitch_sin: i64, camera: &ReaderCamera) -> (r: i64)
    ensures
        r == spec_pitch_compensation(pitch_sin, camera),
{
    times(times(pitch_sin, camera.zoom), TWO)
}

/// The lean the orientation eases toward, in degrees about the sideways
/// axis, and the fraction of the way it moves in a frame of `delta_seconds`.
pub fn apply_rotation(delta_seconds: u64, camera: &ReaderCamera) -> (r: (i64, i64))
    ensures
        r.0 == camera.pitch,
        r.1 == easing_rate(delta_seconds, camera.rotation_easing_seconds),
        0 <= r.1 <= ONE,
{
    (camera.pitch, easing_rate(delta_seconds, camera.rotation_easing_seconds))
}

/// The highest column the view may be swiped to: twice the columns of the
/// text, as far as the machine can count.
pub open spec fn spec_column_limit(columns: u32) -> usize {
    if 2 * columns > usize::MAX {
        usize::MAX
    } else {
        (2 * columns) as usize
    }
}

/// Computes the highest column the view may be swiped to.
#[verifier::when_used_as_spec(spec_column_limit)]
pub fn column_limit(columns: u32) -> (r: usize)
    ensures
        r == spec_column_limit(columns),
{
    let count: usize = columns as usize;
    if count > usize::MAX / 2 {
        usize::MAX
    } else {
        count * 2
    }
}

/// The column reached from `column` after `steps` whole steps, held between
/// the first column and `limit`.
pub open spec fn column_after(column: usize, steps: int, limit: usize) -> usize {
    if column + steps > limit {
        limit
    } else if column + steps < 0 {
        0
    } else {
        (column + steps) as usize
    }
}

/// The horizontal position of a view swiped to `column` with `swipe_accum`
/// left over.
pub open spec fn swipe_position(column: usize, glyph_width: i64, swipe_accum: i64) -> i64 {
    plus(times(from_whole(column as i64), glyph_width), swipe_accum)
}

/// The state after the accumulated swipe has been turned into columns.
pub open spec fn swipe_applied(
    camera: ReaderCamera,
    text_descriptor: &TextDescriptor,
) -> ReaderCamera {
    let width = text_descriptor.glyph_width;
    let column = column_after(
        camera.column,
        whole_steps(camera.swipe_accum, width),
        column_limit(text_descriptor.columns),
    );
    let rest = residual(camera.swipe_accum, width);
    ReaderCamera {
        column,
        swipe_accum: rest,
        swipe: swipe_position(column, width, rest),
        ..camera
    }
}

/// Takes the whole glyph widths out of `accum` one by one and moves `column`
/// with each.
fn fold_columns(accum: i64, column: usize, width: i64, limit: usize) -> (r: (i64, usize))
    requires
        width > 0,
    ensures
        r.0 == residual(accum, width),
        r.1 == column_after(column, whole_steps(accum, width), limit),
{
    let mut rest: i64 = accum;
    let mut place: usize = column;
    let ghost mut taken: int = 0;
    let ghost mut moved: int = 0;
    while rest >= width || rest <= -width
        invariant
            width > 0,
            taken >= 0,
            moved == taken * width,
            accum >= 0 ==> rest >= 0 && accum == moved + rest,
            accum < 0 ==> rest <= 0 && accum == rest - moved,
            accum >= 0 ==> place == (if taken == 0 {
                column as int
            } else if column + taken > limit {
                limit as int
            } else {
                column + taken
            }),
            accum < 0 ==> place == (if column - taken < 0 {
                0
            } else {
                column - taken
            }),
        decreases magnitude(rest as int),
    {
        if rest > 0 {
            if place < limit {
                place = place + 1;
            } else {
                place = limit;
            }
            rest = rest - width;
        } else {
            if place > 0 {
                place = place - 1;
            }
            rest = rest + width;
        }
        proof {
            assert((taken + 1) * width == taken * width + width) by (nonlinear_arith);
            taken = taken + 1;
            moved = moved + width;
        }
    }
    if place > limit {
        place = limit;
    }
    proof {
        if accum >= 0 {
            lemma_split_unique(accum, width, taken, rest as int);
        } else {
            assert((-taken) * width == -(taken * width)) by (nonlinear_arith);
            lemma_split_unique(accum, width, -taken, rest as int);
        }
    }
    (rest, place)
}

/// Turns the accumulated swipe into columns. While the accumulated swipe
/// holds a whole glyph width, the view moves one column the way the swipe
/// points, unless it stands at the first column and would move before it or
/// stands at the limit and would move past it, and one glyph width leaves
/// the accumulated swipe. What is left is smaller than one glyph width. A
/// column beyond the limit is brought back to it.
pub fn translation_swipe(text_descriptor: &TextDescriptor, camera: &mut ReaderCamera)
    requires
        text_descriptor.valid(),
    ensures
        *final(camera) == swipe_applied(*old(camera), text_descriptor),
        magnitude(final(camera).swipe_accum as int) < text_descriptor.glyph_width,
        final(camera).column <= column_limit(text_descriptor.columns),
{
    let width: i64 = text_descriptor.glyph_width;
    let limit: usize = column_limit(text_descriptor.columns);
    proof {
        lemma_residual_bounded(camera.swipe_accum, width);
    }
    let (rest, column) = fold_columns(camera.swipe_accum, camera.column, width, limit);
    camera.column = column;
    camera.swipe_accum = rest;
    camera.swipe = plus(times(from_whole(column as i64), width), rest);
}

/// The fraction of the way an eased quantity moves toward its rest in one
/// frame: a tenth.
pub const REST_EASING: i64 = 100_000;

/// Where an idle residual comes to rest: at zero when it is less than half
/// a glyph height away from it, else at one whole glyph height on its side.
pub open spec fn rest_target(accum: i64, glyph_height: i64) -> i64 {
    if 2 * magnitude(accum as int) < glyph_height {
        0
    } else if accum < 0 {
        (-glyph_height) as i64
    } else {
        glyph_height
    }
}

/// The residual after one idle frame: a tenth of the way nearer to its rest,
/// and on it once it is within the tolerance.
pub open spec fn eased_to_rest(accum: i64, glyph_height: i64) -> i64 {
    let target = rest_target(accum, glyph_height);
    let eased = lerp(accum, target, REST_EASING);
    if abs(minus(target, eased)) < REST_TOLERANCE {
        target
    } else {
        eased
    }
}

/// Eases an idle residual toward its rest for one frame.
fn ease_to_rest(accum: i64, glyph_height: i64) -> (r: i64)
    requires
        glyph_height > 0,
    ensures
        r == eased_to_rest(accum, glyph_height),
{
    let size: i128 = if accum < 0 {
        -(accum as i128)
    } else {
        accum as i128
    };
    let target: i64 = if 2 * size < glyph_height as i128 {
        0
    } else if accum < 0 {
        -glyph_height
    } else {
        glyph_height
    };
    let eased: i64 = lerp(accum, target, REST_EASING);
    if abs(minus(target, eased)) < REST_TOLERANCE {
        target
    } else {
        eased
    }
}

/// Whether whole steps in the direction of `steps` are held back: steps up
/// at the start of the text, steps down at its end.
pub open spec fn step_blocked(steps: int, rows_meta: &RowsMetaData) -> bool {
    (rows_meta.text_start_reached && steps < 0) || (rows_meta.text_end_reached && steps > 0)
}

/// The pending row delta after `steps` whole steps came in.
pub open spec fn row_delta_after(delta: i32, steps: int, rows_meta: &RowsMetaData) -> i32 {
    if step_blocked(steps, rows_meta) {
        delta
    } else {
        saturate_i32(delta + steps)
    }
}

/// The vertical position over the text: the centre row moved by the pending
/// delta, in glyph heights, raised by the compensation for the lean, and,
/// strictly inside the text, by the residual.
pub open spec fn scroll_position(
    rows_meta: &RowsMetaData,
    delta: i32,
    glyph_height: i64,
    pitch_compensation: i64,
    scroll_accum: i64,
) -> i64 {
    let base = plus(
        times(plus(rows_meta.target_row, from_whole(delta as i64)), glyph_height),
        pitch_compensation,
    );
    if !rows_meta.text_start_reached && !rows_meta.text_end_reached {
        plus(base, scroll_accum)
    } else {
        base
    }
}

/// Whether the residual eases toward its rest in this frame: no scroll event
/// came in and the idle timer has finished.
pub open spec fn rests(camera: ReaderCamera, scroll_event_occurred: bool) -> bool {
    !scroll_event_occurred && camera.scroll_idle_timer.finished()
}

/// The accumulated scroll before its whole glyph heights are taken out.
pub open spec fn scroll_settled(
    camera: ReaderCamera,
    scroll_event_occurred: bool,
    glyph_height: i64,
) -> i64 {
    if rests(camera, scroll_event_occurred) {
        eased_to_rest(camera.scroll_accum, glyph_height)
    } else {
        camera.scroll_accum
    }
}

/// The state after the accumulated scroll has been turned into rows.
pub open spec fn scroll_applied(
    camera: ReaderCamera,
    scroll_event_occurred: bool,
    pitch_compensation: i64,
    rows_meta: &RowsMetaData,
    text_descriptor: &TextDescriptor,
) -> ReaderCamera {
    let height = text_descriptor.glyph_height;
    let settled = scroll_settled(camera, scroll_event_occurred, height);
    let rest = residual(settled, height);
    let delta = row_delta_after(camera.row_offset_delta, whole_steps(settled, height), rows_meta);
    ReaderCamera {
        scroll_accum: rest,
        row_offset_delta: delta,
        scroll: scroll_position(rows_meta, delta, height, pitch_compensation, rest),
        ..camera
    }
}

/// Takes the whole glyph heights out of `accum` one by one and counts each
/// into `delta` unless the text ends that way.
fn fold_rows(accum: i64, delta: i32, height: i64, rows_meta: &RowsMetaData) -> (r: (i64, i32))
    requires
        height > 0,
    ensures
        r.0 == residual(accum, height),
        r.1 == row_delta_after(delta, whole_steps(accum, height), rows_meta),
{
    let mut rest: i64 = accum;
    let mut pending: i32 = delta;
    let ghost mut taken: int = 0;
    let ghost mut moved: int = 0;
    while rest >= height || rest <= -height
        invariant
            height > 0,
            taken >= 0,
            moved == taken * height,
            accum >= 0 ==> rest >= 0 && accum == moved + rest,
            accum < 0 ==> rest <= 0 && accum == rest - moved,
            accum >= 0 ==> pending == (if rows_meta.text_end_reached {
                delta
            } else {
                saturate_i32(delta + taken)
            }),
            accum < 0 ==> pending == (if rows_meta.text_start_reached {
                delta
            } else {
                saturate_i32(delta - taken)
            }),
        decreases magnitude(rest as int),
    {
        if rest > 0 {
            if !rows_meta.text_end_reached && pending < i32::MAX {
                pending = pending + 1;
            }
            rest = rest - height;
        } else {
            if !rows_meta.text_start_reached && pending > i32::MIN {
                pending = pending - 1;
            }
            rest = rest + height;
        }
        proof {
            assert((taken + 1) * height == taken * height + height) by (nonlinear_arith);
            taken = taken + 1;
            moved = moved + height;
        }
    }
    proof {
        if accum >= 0 {
            lemma_split_unique(accum, height, taken, rest as int);
        } else {
            assert((-taken) * height == -(taken * height)) by (nonlinear_arith);
            lemma_split_unique(accum, height, -taken, rest as int);
        }
    }
    (rest, pending)
}

/// Turns the accumulated scroll into rows. In a frame without a scroll
/// event, once the idle timer has finished, the accumulated scroll first
/// eases toward its rest. Then, while it holds a whole glyph height, one row
/// the way it points joins the pending row delta, unless the text ends that
/// way, and one glyph height leaves the accumulated scroll. What is left is
/// smaller than one glyph height. At the start of the text the pending
/// delta never falls, at its end it never rises.
pub fn translation_scroll(
    scroll_event_occurred: bool,
    pitch_compensation: i64,
    rows_meta: &RowsMetaData,
    text_descriptor: &TextDescriptor,
    camera: &mut ReaderCamera,
)
    requires
        text_descriptor.valid(),
    ensures
        *final(camera) == scroll_applied(
            *old(camera),
            scroll_event_occurred,
            pitch_compensation,
            rows_meta,
            text_descriptor,
        ),
        magnitude(final(camera).scroll_accum as int) < text_descriptor.glyph_height,
        rows_meta.text_start_reached ==> final(camera).row_offset_delta
            >= old(camera).row_offset_delta,
        rows_meta.text_end_reached ==> final(camera).row_offset_delta
            <= old(camera).row_offset_delta,
{
    let height: i64 = text_descriptor.glyph_height;
    let mut settled: i64 = camera.scroll_accum;
    if !scroll_event_occurred && camera.scroll_idle_timer.finished() {
        settled = ease_to_rest(settled, height);
    }
    proof {
        lemma_residual_bounded(settled, height);
    }
    let (rest, delta) = fold_rows(settled, camera.row_offset_delta, height, rows_meta);
    camera.scroll_accum = rest;
    camera.row_offset_delta = delta;
    let mut position: i64 = plus(
        times(plus(rows_meta.target_row, from_whole(delta as i64)), height),
        pitch_compensation,
    );
    if !rows_meta.text_start_reached && !rows_meta.text_end_reached {
        position = plus(position, rest);
    }
    camera.scroll = position;
}

/// What a pointer motion of `delta` adds to an accumulator: the motion
/// scaled by the sensitivity and by the frame time over the easing time.
pub open spec fn drag(
    delta: i64,
    sensitivity: i64,
    delta_seconds: u64,
    easing_seconds: u64,
) -> i64 {
    times(times(delta, sensitivity), ratio(delta_seconds, easing_seconds))
}

/// The state after the input of one frame has been added to the
/// accumulators. Pointer motion counts while translation is enabled, the
/// wheel while scrolling is enabled. A wheel event starts the idle timer
/// over; a frame without one advances it.
pub open spec fn input_fed(
    camera: ReaderCamera,
    delta_wheel: Option<i64>,
    delta_mouse: Vec2,
    delta_seconds: u64,
) -> ReaderCamera {
    let dragged_scroll = if camera.enabled_translation {
        plus(
            camera.scroll_accum,
            drag(
                delta_mouse.y,
                camera.mouse_scroll_sensitivity,
                delta_seconds,
                camera.mouse_scroll_easing_seconds,
            ),
        )
    } else {
        camera.scroll_accum
    };
    let dragged_swipe = if camera.enabled_translation {
        plus(
            camera.swipe_accum,
            drag(
                delta_mouse.x,
                camera.swipe_sensitivity,
                delta_seconds,
                camera.swipe_easing_seconds,
            ),
        )
    } else {
        camera.swipe_accum
    };
    ReaderCamera {
        scroll_accum: match delta_wheel {
            Some(wheel) => if camera.enabled_scroll {
                plus(dragged_scroll, times(wheel, camera.wheel_scroll_sensitivity))
            } else {
                dragged_scroll
            },
            None => dragged_scroll,
        },
        swipe_accum: dragged_swipe,
        scroll_idle_timer: if delta_wheel.is_some() {
            camera.scroll_idle_timer.restarted()
        } else {
            camera.scroll_idle_timer.ticked(delta_seconds)
        },
        ..camera
    }
}

/// The vertical position as it enters the target position: as it is where
/// the vertical axis is inverted, negated otherwise.
pub open spec fn signed_scroll(camera: ReaderCamera) -> i64 {
    if camera.invert_y {
        camera.scroll
    } else {
        negate(camera.scroll)
    }
}

/// The easing time that the position eases toward: the one for key repeat
/// while a key scrolls, the plain one otherwise.
pub open spec fn easing_goal(key_scroll_state: Option<KeyScroll>, camera: ReaderCamera) -> u64 {
    if key_scroll_state.is_some() {
        camera.translation_easing_scroll_seconds
    } else {
        camera.translation_easing_seconds
    }
}

/// The state after the target position has been put together: the position
/// of the target, the viewing direction scaled by the zoom, the swipe along
/// the sideways axis and the signed scroll along the upward axis.
pub open spec fn composed(
    camera: ReaderCamera,
    key_scroll_state: Option<KeyScroll>,
    target_position: &Vec3,
    direction: &Vec3,
) -> ReaderCamera {
    ReaderCamera {
        target_translation: target_position.plus(direction.scaled(camera.zoom)).plus(
            Vec3 { x: camera.swipe, y: signed_scroll(camera), z: 0 },
        ),
        translation_easing_current: lerp_span(
            camera.translation_easing_current,
            easing_goal(key_scroll_state, camera),
            REST_EASING,
        ),
        ..camera
    }
}

/// The state after the whole translation stage.
pub open spec fn translated(
    camera: ReaderCamera,
    key_scroll_state: Option<KeyScroll>,
    delta_wheel: Option<i64>,
    delta_mouse: Vec2,
    delta_seconds: u64,
    pitch_compensation: i64,
    rows_meta: &RowsMetaData,
    text_descriptor: &TextDescriptor,
    target_position: &Vec3,
    direction: &Vec3,
) -> ReaderCamera {
    composed(
        scroll_applied(
            swipe_applied(
                input_fed(camera, delta_wheel, delta_mouse, delta_seconds),
                text_descriptor,
            ),
            delta_wheel.is_some(),
            pitch_compensation,
            rows_meta,
            text_descriptor,
        ),
        key_scroll_state,
        target_position,
        direction,
    )
}

/// Adds the input of one frame to the accumulators and runs the idle timer.
fn feed_input(
    delta_wheel: Option<i64>,
    delta_mouse: Vec2,
    delta_seconds: u64,
    camera: &mut ReaderCamera,
)
    ensures
        *final(camera) == input_fed(*old(camera), delta_wheel, delta_mouse, delta_seconds),
{
    if camera.enabled_translation {
        let delta_x: i64 = times(delta_mouse.x, camera.swipe_sensitivity);
        let delta_y: i64 = times(delta_mouse.y, camera.mouse_scroll_sensitivity);
        camera.scroll_accum = plus(
            camera.scroll_accum,
            times(delta_y, ratio(delta_seconds, camera.mouse_scroll_easing_seconds)),
        );
        camera.swipe_accum = plus(
            camera.swipe_accum,
            times(delta_x, ratio(delta_seconds, camera.swipe_easing_seconds)),
        );
    }
    match delta_wheel {
        Some(wheel) => {
            if camera.enabled_scroll {
                camera.scroll_accum = plus(
                    camera.scroll_accum,
                    times(wheel, camera.wheel_scroll_sensitivity),
                );
            }
            camera.scroll_idle_timer.reset();
        },
        None => {
            camera.scroll_idle_timer.tick(delta_seconds);
        },
    }
}

/// Puts the target position together and eases the easing time.
fn compose(
    key_scroll_state: Option<KeyScroll>,
    target_position: &Vec3,
    direction: &Vec3,
    camera: &mut ReaderCamera,
)
    ensures
        *final(camera) == composed(*old(camera), key_scroll_state, target_position, direction),
{
    let scroll: i64 = if camera.invert_y {
        camera.scroll
    } else {
        negate(camera.scroll)
    };
    camera.target_translation = target_position.plus(direction.scaled(camera.zoom)).plus(
        Vec3 { x: camera.swipe, y: scroll, z: 0 },
    );
    let easing_target: u64 = if key_scroll_state.is_some() {
        camera.translation_easing_scroll_seconds
    } else {
        camera.translation_easing_seconds
    };
    camera.translation_easing_current = lerp_span(
        camera.translation_easing_current,
        easing_target,
        REST_EASING,
    );
}

/// Runs the translation stage of a frame: adds the input to the
/// accumulators, turns what overflows into columns and rows, and puts the
/// target position together. `direction` is the unit vector of the turn and
/// lean angles, `target_position` the place of the object the camera reads.
///
/// Afterwards the accumulated swipe is smaller than a glyph width, the
/// accumulated scroll smaller than a glyph height, the column is within its
/// limit, and the pending row delta has not fallen at the start of the text
/// nor risen at its end.
pub fn translation(
    key_scroll_state: Option<KeyScroll>,
    delta_wheel: Option<i64>,
    delta_mouse: Vec2,
    delta_seconds: u64,
    pitch_compensation: i64,
    rows_meta: &RowsMetaData,
    text_descriptor: &TextDescriptor,
    target_position: &Vec3,
    direction: &Vec3,
    camera: &mut ReaderCamera,
)
    requires
        text_descriptor.valid(),
    ensures
        *final(camera) == translated(
            *old(camera),
            key_scroll_state,
            delta_wheel,
            delta_mouse,
            delta_seconds,
            pitch_compensation,
            rows_meta,
            text_descriptor,
            target_position,
            direction,
        ),
        magnitude(final(camera).scroll_accum as int) < text_descriptor.glyph_height,
        magnitude(final(camera).swipe_accum as int) < text_descriptor.glyph_width,
        final(camera).column <= column_limit(text_descriptor.columns),
        rows_meta.text_start_reached ==> final(camera).row_offset_delta
            >= old(camera).row_offset_delta,
        rows_meta.text_end_reached ==> final(camera).row_offset_delta
            <= old(camera).row_offset_delta,
{
    feed_input(delta_wheel, delta_mouse, delta_seconds, camera);
    translation_swipe(text_descriptor, camera);
    translation_scroll(
        delta_wheel.is_some(),
        pitch_compensation,
        rows_meta,
        text_descriptor,
        camera,
    );
    compose(key_scroll_state, target_position, direction, camera);
}

/// Whether the centre row moved so far in one frame that the camera jumps
/// instead of easing: by more than one and a half views.
pub open spec fn jumps(rows_meta: &RowsMetaData) -> bool {
    abs(rows_meta.row_delta) > plus(rows_meta.visible_rows, rows_meta.visible_rows_half)
}

/// The fraction of the way to its target that the camera moves in a frame:
/// all of it on a jump, else the frame time over the current easing time, at
/// most all of it.
pub open spec fn translation_inertia(
    delta_seconds: u64,
    rows_meta: &RowsMetaData,
    camera: &ReaderCamera,
) -> i64 {
    if jumps(rows_meta) {
        ONE
    } else {
        easing_rate(delta_seconds, camera.translation_easing_current)
    }
}

/// Moves the camera toward its target position. On a jump the camera
/// arrives at once.
pub fn apply_translation(
    delta_seconds: u64,
    rows_meta: &RowsMetaData,
    camera: &ReaderCamera,
    camera_translation: &mut Vec3,
)
    ensures
        *final(camera_translation) == old(camera_translation).lerp(
            camera.target_translation,
            translation_inertia(delta_seconds, rows_meta, camera),
        ),
        jumps(rows_meta) ==> *final(camera_translation) == camera.target_translation,
{
    let instant_translate: bool = abs(rows_meta.row_delta) > plus(
        rows_meta.visible_rows,
        rows_meta.visible_rows_half,
    );
    let inertia: i64 = if !instant_translate {
        easing_rate(delta_seconds, camera.translation_easing_current)
    } else {
        ONE
    };
    proof {
        lemma_lerp_between(camera_translation.x, camera.target_translation.x, inertia);
        lemma_lerp_between(camera_translation.y, camera.target_translation.y, inertia);
        lemma_lerp_between(camera_translation.z, camera.target_translation.z, inertia);
    }
    *camera_translation = camera_translation.lerp(camera.target_translation, inertia);
}

} // verus!
