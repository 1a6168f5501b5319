//! One frame of each mode.
//!
//! What a frame needs from the renderer (the frustum of a projection, the
//! sine of an angle, the direction of two angles) is handed in as plain
//! values. Where such a value depends on what the frame itself decides, the
//! frame comes in two parts, and the caller works the value out in between.
//!
//! A reading frame runs in this order: [`crate::frustum::calc_frustum_data`],
//! [`mouse_reader`], [`mouse_reader_finish`].

use vstd::prelude::*;
use crate::{CameraMode, TextDescriptor};
use crate::camera::{zoom_in_range, ReaderCamera};
use crate::fixed::{easing_rate, magnitude, plus};
use crate::frustum::Frustum;
use crate::geometry::{Vec2, Vec3};
use crate::input::{
    movement_axis, spec_wheel_scroll, spec_wheel_zoom_request, wheel_scroll, wheel_zoom_request,
    MouseWheel,
};
use crate::modes::{follow_zoom, follow_zoomed, look, looked};
use crate::reader_mode::{
    apply_rotation, apply_translation, apply_zoom, column_limit, pitch_compensation, rotated,
    rotation, translated, translation, translation_inertia, zoom, zoom_adjusted, zoom_adjustment,
    zoom_applied, zoom_requested, zoom_scalar, KeyScroll, RowsMetaData,
};

verus! {

/// What the pointer, the wheel and the keys did during one frame.
pub struct FrameInput {
    /// Motion of the pointer.
    pub delta_mouse: Vec2,
    /// Events of the wheel, oldest first.
    pub wheel: Vec<MouseWheel>,
    /// Scroll by key repeat, if any.
    pub key_scroll_state: Option<KeyScroll>,
    /// Measured time since the last frame.
    pub delta_seconds: u64,
    /// Pixels of wheel travel that count as one line.
    pub pixels_per_line: i64,
}

/// What the first part of a reading frame hands to the second.
#[derive(Clone, Copy, Debug)]
pub struct ReaderPlan {
    /// Where the view stands in the text.
    pub rows_meta: RowsMetaData,
    /// The frame time that easing runs on.
    pub delta_seconds: u64,
    /// The scroll that the wheel asked for.
    pub delta_wheel: Option<i64>,
    /// Whether a zoom was asked for, so that the rows in view at the target
    /// zoom have to be counted anew.
    pub zooms: bool,
}

/// What the renderer knows and the second part of a reading frame needs.
#[derive(Clone, Copy, Debug)]
pub struct ReaderView {
    /// Place of the object the camera reads.
    pub target_position: Vec3,
    /// Unit vector of the turn and lean angles of the camera.
    pub direction: Vec3,
    /// Sine of the lean angle of the camera.
    pub pitch_sin: i64,
    /// Frustum of a camera that stands at the target zoom, straight before
    /// the surface; needed in a frame that zooms.
    pub zoom_frustum: Option<Frustum>,
}

/// The total scroll of a frame as the lean sees it: pointer and wheel
/// together.
pub open spec fn frame_scroll(input: &FrameInput) -> i64 {
    match spec_wheel_scroll(input.wheel@, input.pixels_per_line) {
        Some(wheel) => plus(input.delta_mouse.y, wheel),
        None => input.delta_mouse.y,
    }
}

/// What the first part of a reading frame finds out.
pub open spec fn reader_plan(
    camera: ReaderCamera,
    input: &FrameInput,
    text_descriptor: &TextDescriptor,
) -> ReaderPlan {
    ReaderPlan {
        rows_meta: RowsMetaData::of(text_descriptor, camera),
        delta_seconds: camera.frame_seconds(input.delta_seconds),
        delta_wheel: spec_wheel_scroll(input.wheel@, input.pixels_per_line),
        zooms: zoom_scalar(
            spec_wheel_zoom_request(input.wheel@, input.pixels_per_line),
            camera,
        ) != 0,
    }
}

/// The state after the first part of a reading frame: the centre row is
/// remembered, the zoom target has moved and the zoom eased, and the lean
/// has followed the scroll.
pub open spec fn reader_begun(
    camera: ReaderCamera,
    input: &FrameInput,
    text_descriptor: &TextDescriptor,
) -> ReaderCamera {
    let plan = reader_plan(camera, input, text_descriptor);
    let refreshed = ReaderCamera { target_row_prev: plan.rows_meta.target_row, ..camera };
    let zoomed = zoom_applied(
        zoom_requested(
            refreshed,
            spec_wheel_zoom_request(input.wheel@, input.pixels_per_line),
        ),
        plan.delta_seconds,
    );
    rotated(zoomed, plan.delta_seconds, frame_scroll(input), &plan.rows_meta)
}

/// The first part of a reading frame. A camera that is not in reader mode
/// or has no target is left alone, and nothing is planned. Otherwise the
/// place of the view in the text is worked out, the wheel moves the zoom
/// target, the zoom eases toward it, and the lean follows the scroll.
/// Before the second part the caller takes the sine and the direction of
/// the angles the camera now has, and, if the plan says that the frame
/// zooms, the frustum at the depth [`ReaderCamera::target_depth`].
pub fn mouse_reader(
    input: &FrameInput,
    text_descriptor: &TextDescriptor,
    camera: &mut ReaderCamera,
) -> (r: Option<ReaderPlan>)
    ensures
        !old(camera).reads() ==> r.is_none() && *final(camera) == *old(camera),
        old(camera).reads() ==> r == Some(reader_plan(*old(camera), input, text_descriptor))
            && *final(camera) == reader_begun(*old(camera), input, text_descriptor),
        old(camera).reads() ==> zoom_in_range(final(camera).target_zoom),
        old(camera).reads() && zoom_in_range(old(camera).zoom)
            ==> zoom_in_range(final(camera).zoom),
{
    if !camera.reads() {
        return None;
    }
    let delta_seconds: u64 = camera.frame_seconds(input.delta_seconds);
    let delta_wheel: Option<i64> = wheel_scroll(&input.wheel, input.pixels_per_line);
    let delta_scroll: i64 = match delta_wheel {
        Some(wheel) => plus(input.delta_mouse.y, wheel),
        None => input.delta_mouse.y,
    };
    let rows_meta: RowsMetaData = RowsMetaData::refresh(text_descriptor, camera);
    let ghost refreshed = *camera;
    let request: i64 = wheel_zoom_request(&input.wheel, input.pixels_per_line);
    let asked: i64 = zoom(request, camera);
    let ghost requested = *camera;
    apply_zoom(delta_seconds, camera);
    let ghost eased = *camera;
    rotation(delta_seconds, delta_scroll, &rows_meta, camera);
    proof {
        assert(asked == zoom_scalar(request, *old(camera)));
        assert(requested == zoom_requested(refreshed, request));
        assert(eased == zoom_applied(requested, delta_seconds));
        assert(*camera == rotated(eased, delta_seconds, delta_scroll, &rows_meta));
        assert(camera.zoom == eased.zoom);
        assert(camera.target_zoom == requested.target_zoom);
    }
    Some(ReaderPlan { rows_meta, delta_seconds, delta_wheel, zooms: asked != 0 })
}

/// The state before the translation stage of a reading frame: in a frame
/// that zooms, and for which the frustum at the target zoom is at hand, the
/// rows in view are counted anew.
pub open spec fn reader_adjusted(
    camera: ReaderCamera,
    plan: &ReaderPlan,
    view: &ReaderView,
    text_descriptor: &TextDescriptor,
) -> ReaderCamera {
    match view.zoom_frustum {
        Some(frustum) => if plan.zooms {
            zoom_adjusted(camera, text_descriptor, view.target_position.z, &frustum)
        } else {
            camera
        },
        None => camera,
    }
}

/// The state after the translation stage of a reading frame.
pub open spec fn reader_moved(
    camera: ReaderCamera,
    plan: &ReaderPlan,
    view: &ReaderView,
    input: &FrameInput,
    text_descriptor: &TextDescriptor,
) -> ReaderCamera {
    let adjusted = reader_adjusted(camera, plan, view, text_descriptor);
    translated(
        adjusted,
        input.key_scroll_state,
        plan.delta_wheel,
        input.delta_mouse,
        plan.delta_seconds,
        pitch_compensation(view.pitch_sin, &adjusted),
        &plan.rows_meta,
        text_descriptor,
        &view.target_position,
        &view.direction,
    )
}

/// Where the camera stands after a reading frame.
pub open spec fn reader_position(
    camera: ReaderCamera,
    plan: &ReaderPlan,
    view: &ReaderView,
    input: &FrameInput,
    text_descriptor: &TextDescriptor,
    camera_translation: Vec3,
) -> Vec3 {
    let moved = reader_moved(camera, plan, view, input, text_descriptor);
    camera_translation.lerp(
        moved.target_translation,
        translation_inertia(plan.delta_seconds, &plan.rows_meta, &moved),
    )
}

/// The state after a reading frame: the translation stage has run, and the
/// reported row is the one that the camera actually shows.
pub open spec fn reader_finished(
    camera: ReaderCamera,
    plan: &ReaderPlan,
    view: &ReaderView,
    input: &FrameInput,
    text_descriptor: &TextDescriptor,
    camera_translation: Vec3,
) -> ReaderCamera {
    reader_moved(camera, plan, view, input, text_descriptor).row_reported(
        reader_position(camera, plan, view, input, text_descriptor, camera_translation).y,
        text_descriptor,
    )
}

/// The second part of a reading frame. A camera that is not in reader mode
/// or has no target is left alone, and so is its position. Otherwise, in a
/// frame that zooms the rows in view at the target zoom are counted and the
/// row delta is set to keep the view centred. Then the input joins the
/// accumulators, what overflows becomes columns and rows, the target
/// position is put together, the camera moves toward it, and the row it
/// then shows is reported. Returns the lean the orientation eases toward
/// and the fraction of the way it goes in this frame.
///
/// Afterwards the accumulated scroll is smaller than a glyph height and the
/// accumulated swipe smaller than a glyph width, the column is within its
/// limit, and in a frame that does not zoom the pending row delta has not
/// fallen at the start of the text nor risen at its end.
pub fn mouse_reader_finish(
    plan: &ReaderPlan,
    view: &ReaderView,
    input: &FrameInput,
    text_descriptor: &TextDescriptor,
    camera: &mut ReaderCamera,
    camera_translation: &mut Vec3,
) -> (r: Option<(i64, i64)>)
    requires
        text_descriptor.valid(),
    ensures
        !old(camera).reads() ==> r.is_none() && *final(camera) == *old(camera)
            && *final(camera_translation) == *old(camera_translation),
        old(camera).reads() ==> *final(camera) == reader_finished(
            *old(camera),
            plan,
            view,
            input,
            text_descriptor,
            *old(camera_translation),
        ),
        old(camera).reads() ==> *final(camera_translation) == reader_position(
            *old(camera),
            plan,
            view,
            input,
            text_descriptor,
            *old(camera_translation),
        ),
        old(camera).reads() ==> r == Some(
            (
                old(camera).pitch,
                easing_rate(plan.delta_seconds, old(camera).rotation_easing_seconds),
            ),
        ),
        old(camera).reads() ==> magnitude(final(camera).scroll_accum as int)
            < text_descriptor.glyph_height,
        old(camera).reads() ==> magnitude(final(camera).swipe_accum as int)
            < text_descriptor.glyph_width,
        old(camera).reads() ==> final(camera).column <= column_limit(text_descriptor.columns),
        !plan.zooms && plan.rows_meta.text_start_reached ==> final(camera).row_offset_delta
            >= old(camera).row_offset_delta,
        !plan.zooms && plan.rows_meta.text_end_reached ==> final(camera).row_offset_delta
            <= old(camera).row_offset_delta,
{
    if !camera.reads() {
        return None;
    }
    match view.zoom_frustum {
        Some(frustum) => {
            if plan.zooms {
                zoom_adjustment(text_descriptor, view.target_position.z, &frustum, camera);
            }
        },
        None => {},
    }
    let compensation: i64 = pitch_compensation(view.pitch_sin, camera);
    translation(
        input.key_scroll_state,
        plan.delta_wheel,
        input.delta_mouse,
        plan.delta_seconds,
        compensation,
        &plan.rows_meta,
        text_descriptor,
        &view.target_position,
        &view.direction,
        camera,
    );
    apply_translation(plan.delta_seconds, &plan.rows_meta, camera, camera_translation);
    camera.report_row_offset(camera_translation.y, text_descriptor);
    Some(apply_rotation(plan.delta_seconds, camera))
}

/// Which keys of the flight controls are held.
#[derive(Clone, Copy, Debug)]
pub struct FlyKeys {
    /// Walk forward.
    pub forward: bool,
    /// Walk backward.
    pub backward: bool,
    /// Step to the left.
    pub left: bool,
    /// Step to the right.
    pub right: bool,
    /// Float upward.
    pub up: bool,
    /// Float downward.
    pub down: bool,
    /// Whether the key that switches the projection has just gone down,
    /// together with its modifier where one is set.
    pub perspective: bool,
}

/// What a flying frame asks of the caller.
#[derive(Clone, Copy, Debug, PartialEq, Eq, Structural)]
pub struct FlyStep {
    /// Sideways axis: right is positive.
    pub axis_h: i64,
    /// Walking axis: backward is positive.
    pub axis_v: i64,
    /// Floating axis: up is positive.
    pub axis_float: i64,
    /// Whether the projection has to be replaced by the one the camera is
    /// now set to.
    pub projection_changed: bool,
}

/// Whether the keys fly this camera.
pub open spec fn flies(camera: ReaderCamera) -> bool {
    camera.mode == CameraMode::Fly && camera.enabled_translation
}

/// What the keys ask for.
pub open spec fn fly_step(keys: &FlyKeys) -> FlyStep {
    FlyStep {
        axis_h: movement_axis(keys.right, keys.left),
        axis_v: movement_axis(keys.backward, keys.forward),
        axis_float: movement_axis(keys.up, keys.down),
        projection_changed: keys.perspective,
    }
}

/// One frame of the flight keys. A camera that is not flying, or whose
/// translation is disabled, is left alone and nothing is asked. Otherwise
/// the three axes are read, and the projection is switched where its key
/// has gone down. The caller moves the camera along the axes.
pub fn keyboard_fly(keys: &FlyKeys, camera: &mut ReaderCamera) -> (r: Option<FlyStep>)
    ensures
        !flies(*old(camera)) ==> r.is_none() && *final(camera) == *old(camera),
        flies(*old(camera)) ==> r == Some(fly_step(keys)),
        flies(*old(camera)) && keys.perspective
            ==> *final(camera) == old(camera).perspective_toggled(),
        flies(*old(camera)) && !keys.perspective ==> *final(camera) == *old(camera),
{
    if camera.mode != CameraMode::Fly || !camera.enabled_translation {
        return None;
    }
    let axis_h: i64 = movement_axis(keys.right, keys.left);
    let axis_v: i64 = movement_axis(keys.backward, keys.forward);
    let axis_float: i64 = movement_axis(keys.up, keys.down);
    if keys.perspective {
        camera.toggle_perspective();
    }
    Some(FlyStep { axis_h, axis_v, axis_float, projection_changed: keys.perspective })
}

/// Whether the pointer turns this camera in flight.
pub open spec fn fly_looks(camera: ReaderCamera) -> bool {
    camera.mode == CameraMode::Fly && camera.enabled_rotation
}

/// One frame of the pointer in flight: the pointer turns a flying camera
/// whose rotation is enabled. Tells whether it did, so that the caller sets
/// the orientation of the camera from its angles.
pub fn mouse_fly(delta: Vec2, delta_seconds: u64, camera: &mut ReaderCamera) -> (r: bool)
    ensures
        r == fly_looks(*old(camera)),
        r ==> *final(camera) == looked(*old(camera), delta, delta_seconds),
        !r ==> *final(camera) == *old(camera),
{
    if camera.mode != CameraMode::Fly || !camera.enabled_rotation {
        return false;
    }
    look(delta, delta_seconds, camera);
    true
}

/// One frame of a following camera: the pointer turns it and the wheel
/// zooms it, each while enabled. A camera in another mode is left alone.
/// Tells whether the camera follows, so that the caller places it at its
/// zoom distance from the target. A following camera must have a target.
pub fn mouse_follow(
    delta: Vec2,
    wheel: &Vec<MouseWheel>,
    pixels_per_line: i64,
    delta_seconds: u64,
    camera: &mut ReaderCamera,
) -> (r: bool)
    requires
        old(camera).mode == CameraMode::Follow ==> old(camera).target_entity.is_some(),
    ensures
        r == (old(camera).mode == CameraMode::Follow),
        r ==> *final(camera) == follow_zoomed(
            looked(*old(camera), delta, delta_seconds),
            wheel@,
            pixels_per_line,
        ),
        !r ==> *final(camera) == *old(camera),
{
    if camera.mode != CameraMode::Follow {
        return false;
    }
    look(delta, delta_seconds, camera);
    follow_zoom(wheel, pixels_per_line, camera);
    true
}

} // verus!
