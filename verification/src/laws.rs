//! What holds of the camera over many frames.

use vstd::prelude::*;
use crate::TextDescriptor;
use crate::camera::{zoom_in_range, ReaderCamera, REST_TOLERANCE};
use crate::fixed::{
    easing_rate, lemma_lerp_between, lerp, magnitude, quotient, saturate, times, ONE,
};
use crate::geometry::{Vec2, Vec3};
use crate::reader_mode::{
    column_limit, drag, eased_to_rest, input_fed, rest_target, scroll_settled, swipe_applied,
    translated, zoom_applied, zoom_requested, KeyScroll, RowsMetaData, REST_EASING,
};
use crate::residual::{lemma_residual_bounded, lemma_split_unique, residual, whole_steps};

verus! {

/// Taking the pending delta twice in a row hands out zero the second time
/// and changes nothing more.
pub proof fn lemma_delta_consumed_once(camera: ReaderCamera)
    ensures
        camera.delta_taken().row_offset_delta == 0,
        camera.delta_taken().delta_taken() == camera.delta_taken(),
{
}

/// Everything the translation stage of one frame is given.
pub struct TranslationInput {
    /// Scroll by key repeat, if any.
    pub key_scroll_state: Option<KeyScroll>,
    /// Scroll that the wheel asked for, if any.
    pub delta_wheel: Option<i64>,
    /// Motion of the pointer.
    pub delta_mouse: Vec2,
    /// Frame time that easing runs on.
    pub delta_seconds: u64,
    /// Height that makes up for the lean.
    pub pitch_compensation: i64,
    /// Where the view stands in the text.
    pub rows_meta: RowsMetaData,
    /// Place of the object the camera reads.
    pub target_position: Vec3,
    /// Unit vector of the turn and lean angles.
    pub direction: Vec3,
}

/// The state after the translation stage of one frame.
pub open spec fn frame_applied(
    camera: ReaderCamera,
    frame: TranslationInput,
    text_descriptor: &TextDescriptor,
) -> ReaderCamera {
    translated(
        camera,
        frame.key_scroll_state,
        frame.delta_wheel,
        frame.delta_mouse,
        frame.delta_seconds,
        frame.pitch_compensation,
        &frame.rows_meta,
        text_descriptor,
        &frame.target_position,
        &frame.direction,
    )
}

/// Whether the owner of the text takes the pending delta after frame `i` of
/// a run.
pub open spec fn taken_after(takes: Seq<bool>, i: int) -> bool {
    0 <= i < takes.len() && takes[i]
}

/// The state after the translation stages of a run of frames, where the
/// owner of the text takes the pending delta after the frames that `takes`
/// marks.
pub open spec fn frames_applied(
    camera: ReaderCamera,
    frames: Seq<TranslationInput>,
    takes: Seq<bool>,
    text_descriptor: &TextDescriptor,
) -> ReaderCamera
    decreases frames.len(),
{
    if frames.len() == 0 {
        camera
    } else {
        let after = frame_applied(
            frames_applied(camera, frames.drop_last(), takes, text_descriptor),
            frames.last(),
            text_descriptor,
        );
        if taken_after(takes, frames.len() - 1) {
            after.delta_taken()
        } else {
            after
        }
    }
}

/// The rows that the owner of the text has taken over a run of frames, all
/// added up.
pub open spec fn handed_out(
    camera: ReaderCamera,
    frames: Seq<TranslationInput>,
    takes: Seq<bool>,
    text_descriptor: &TextDescriptor,
) -> int
    decreases frames.len(),
{
    if frames.len() == 0 {
        0
    } else {
        let after = frame_applied(
            frames_applied(camera, frames.drop_last(), takes, text_descriptor),
            frames.last(),
            text_descriptor,
        );
        handed_out(camera, frames.drop_last(), takes, text_descriptor) + if taken_after(
            takes,
            frames.len() - 1,
        ) {
            after.row_offset_delta as int
        } else {
            0
        }
    }
}

/// What the pointer of one frame adds to the accumulated scroll.
pub open spec fn pointer_share(frame: TranslationInput, camera: ReaderCamera) -> i64 {
    if camera.enabled_translation {
        drag(
            frame.delta_mouse.y,
            camera.mouse_scroll_sensitivity,
            frame.delta_seconds,
            camera.mouse_scroll_easing_seconds,
        )
    } else {
        0
    }
}

/// What the wheel of one frame adds to the accumulated scroll.
pub open spec fn wheel_share(frame: TranslationInput, camera: ReaderCamera) -> i64 {
    match frame.delta_wheel {
        Some(wheel) => if camera.enabled_scroll {
            times(wheel, camera.wheel_scroll_sensitivity)
        } else {
            0
        },
        None => 0,
    }
}

/// What pointer and wheel of a run of frames add to the accumulated scroll,
/// all added up.
pub open spec fn scroll_sum(frames: Seq<TranslationInput>, camera: ReaderCamera) -> int
    decreases frames.len(),
{
    if frames.len() == 0 {
        0
    } else {
        scroll_sum(frames.drop_last(), camera) + pointer_share(frames.last(), camera)
            + wheel_share(frames.last(), camera)
    }
}

/// Whether two states count pointer and wheel alike.
pub open spec fn same_settings(a: ReaderCamera, b: ReaderCamera) -> bool {
    &&& a.enabled_scroll == b.enabled_scroll
    &&& a.enabled_translation == b.enabled_translation
    &&& a.wheel_scroll_sensitivity == b.wheel_scroll_sensitivity
    &&& a.mouse_scroll_sensitivity == b.mouse_scroll_sensitivity
    &&& a.mouse_scroll_easing_seconds == b.mouse_scroll_easing_seconds
}

/// A frame of a burst: a wheel event, strictly inside the text.
pub open spec fn wheel_frame(frame: TranslationInput) -> bool {
    &&& frame.delta_wheel.is_some()
    &&& !frame.rows_meta.text_start_reached
    &&& !frame.rows_meta.text_end_reached
}

/// A frame without any scroll input: no wheel event, and a pointer that
/// adds nothing to the accumulated scroll.
pub open spec fn idle_frame(frame: TranslationInput, camera: ReaderCamera) -> bool {
    &&& frame.delta_wheel.is_none()
    &&& pointer_share(frame, camera) == 0
}

/// Whether the frame leaves the accumulated scroll and the pending row delta
/// within what the machine can hold, so that nothing saturates.
pub open spec fn frame_fits(
    camera: ReaderCamera,
    frame: TranslationInput,
    text_descriptor: &TextDescriptor,
) -> bool {
    let dragged = camera.scroll_accum + pointer_share(frame, camera);
    let fed = dragged + wheel_share(frame, camera);
    &&& i64::MIN <= dragged <= i64::MAX
    &&& i64::MIN <= fed <= i64::MAX
    &&& i32::MIN <= camera.row_offset_delta + whole_steps(
        fed as i64,
        text_descriptor.glyph_height,
    ) <= i32::MAX
}

/// Whether the run is a burst: every frame is a wheel frame that fits.
pub open spec fn burst(
    camera: ReaderCamera,
    frames: Seq<TranslationInput>,
    takes: Seq<bool>,
    text_descriptor: &TextDescriptor,
) -> bool
    decreases frames.len(),
{
    if frames.len() == 0 {
        true
    } else {
        &&& burst(camera, frames.drop_last(), takes, text_descriptor)
        &&& wheel_frame(frames.last())
        &&& frame_fits(
            frames_applied(camera, frames.drop_last(), takes, text_descriptor),
            frames.last(),
            text_descriptor,
        )
    }
}

/// Whether every frame of the run is an idle frame.
pub open spec fn idle(frames: Seq<TranslationInput>, camera: ReaderCamera) -> bool {
    forall|i: int| 0 <= i < frames.len() ==> idle_frame(#[trigger] frames[i], camera)
}

/// Whether the idle timer has finished when the first frame of the run
/// looks at it.
pub open spec fn past_timeout(frames: Seq<TranslationInput>, camera: ReaderCamera) -> bool {
    frames.len() > 0 ==> camera.scroll_idle_timer.ticked(frames[0].delta_seconds).finished()
}

/// The input of a frame joins the accumulated scroll as the share of the
/// pointer and then the share of the wheel.
proof fn lemma_frame_feeds(camera: ReaderCamera, frame: TranslationInput)
    ensures
        input_fed(
            camera,
            frame.delta_wheel,
            frame.delta_mouse,
            frame.delta_seconds,
        ).scroll_accum == saturate(
            saturate(camera.scroll_accum + pointer_share(frame, camera)) + wheel_share(
                frame,
                camera,
            ),
        ),
{
}

/// The translation stage, and the taking of the delta, change none of the
/// settings that decide how pointer and wheel are counted.
pub proof fn lemma_frame_keeps_settings(
    camera: ReaderCamera,
    frame: TranslationInput,
    text_descriptor: &TextDescriptor,
)
    ensures
        same_settings(frame_applied(camera, frame, text_descriptor), camera),
        same_settings(frame_applied(camera, frame, text_descriptor).delta_taken(), camera),
{
}

/// A run of frames changes none of the settings that decide how pointer and
/// wheel are counted.
pub proof fn lemma_run_keeps_settings(
    camera: ReaderCamera,
    frames: Seq<TranslationInput>,
    takes: Seq<bool>,
    text_descriptor: &TextDescriptor,
)
    ensures
        same_settings(frames_applied(camera, frames, takes, text_descriptor), camera),
    decreases frames.len(),
{
    if frames.len() > 0 {
        lemma_run_keeps_settings(camera, frames.drop_last(), takes, text_descriptor);
        lemma_frame_keeps_settings(
            frames_applied(camera, frames.drop_last(), takes, text_descriptor),
            frames.last(),
            text_descriptor,
        );
    }
}

/// In a wheel frame that fits, the accumulated scroll and the pending rows
/// together grow by exactly what pointer and wheel added, and the
/// accumulated scroll ends smaller than one glyph height.
pub proof fn lemma_frame_conserves(
    camera: ReaderCamera,
    frame: TranslationInput,
    text_descriptor: &TextDescriptor,
)
    requires
        text_descriptor.valid(),
        wheel_frame(frame),
        frame_fits(camera, frame, text_descriptor),
    ensures
        ({
            let after = frame_applied(camera, frame, text_descriptor);
            &&& after.scroll_accum + after.row_offset_delta * text_descriptor.glyph_height
                == camera.scroll_accum + camera.row_offset_delta * text_descriptor.glyph_height
                + pointer_share(frame, camera) + wheel_share(frame, camera)
            &&& magnitude(after.scroll_accum as int) < text_descriptor.glyph_height
        }),
{
    let height = text_descriptor.glyph_height;
    let fed = input_fed(camera, frame.delta_wheel, frame.delta_mouse, frame.delta_seconds);
    lemma_frame_feeds(camera, frame);
    let after = frame_applied(camera, frame, text_descriptor);
    lemma_residual_bounded(fed.scroll_accum, height);
    let steps = whole_steps(fed.scroll_accum, height);
    assert(after.scroll_accum == residual(fed.scroll_accum, height));
    assert(after.row_offset_delta == camera.row_offset_delta + steps);
    assert((camera.row_offset_delta + steps) * height == camera.row_offset_delta * height + steps
        * height) by (nonlinear_arith);
}

/// Over a burst, the accumulated scroll and the rows, pending and taken,
/// together grow by exactly what pointer and wheel added.
pub proof fn lemma_burst_conserves(
    camera: ReaderCamera,
    frames: Seq<TranslationInput>,
    takes: Seq<bool>,
    text_descriptor: &TextDescriptor,
)
    requires
        text_descriptor.valid(),
        burst(camera, frames, takes, text_descriptor),
    ensures
        ({
            let after = frames_applied(camera, frames, takes, text_descriptor);
            let handed = handed_out(camera, frames, takes, text_descriptor);
            &&& after.scroll_accum + (handed + after.row_offset_delta)
                * text_descriptor.glyph_height == camera.scroll_accum + camera.row_offset_delta
                * text_descriptor.glyph_height + scroll_sum(frames, camera)
            &&& frames.len() > 0 ==> magnitude(after.scroll_accum as int)
                < text_descriptor.glyph_height
        }),
    decreases frames.len(),
{
    let height = text_descriptor.glyph_height as int;
    if frames.len() > 0 {
        let before = frames_applied(camera, frames.drop_last(), takes, text_descriptor);
        let handed = handed_out(camera, frames.drop_last(), takes, text_descriptor);
        let moved = frame_applied(before, frames.last(), text_descriptor);
        lemma_burst_conserves(camera, frames.drop_last(), takes, text_descriptor);
        lemma_run_keeps_settings(camera, frames.drop_last(), takes, text_descriptor);
        lemma_frame_conserves(before, frames.last(), text_descriptor);
        assert((handed + before.row_offset_delta) * height == handed * height
            + before.row_offset_delta * height) by (nonlinear_arith);
        assert((handed + moved.row_offset_delta) * height == handed * height
            + moved.row_offset_delta * height) by (nonlinear_arith);
        assert((handed + moved.row_offset_delta + 0) * height == (handed
            + moved.row_offset_delta) * height);
    } else {
        assert((0 + camera.row_offset_delta) * height == camera.row_offset_delta * height);
    }
}

/// A burst that starts at rest and adds up to exactly `rows` glyph heights
/// ends at rest again, and the rows taken and pending have grown by exactly
/// `rows`.
pub proof fn lemma_burst_lands_on_row(
    camera: ReaderCamera,
    frames: Seq<TranslationInput>,
    takes: Seq<bool>,
    text_descriptor: &TextDescriptor,
    rows: int,
)
    requires
        text_descriptor.valid(),
        camera.scroll_accum == 0,
        burst(camera, frames, takes, text_descriptor),
        scroll_sum(frames, camera) == rows * text_descriptor.glyph_height,
    ensures
        frames_applied(camera, frames, takes, text_descriptor).scroll_accum == 0,
        handed_out(camera, frames, takes, text_descriptor) + frames_applied(
            camera,
            frames,
            takes,
            text_descriptor,
        ).row_offset_delta == camera.row_offset_delta + rows,
{
    let after = frames_applied(camera, frames, takes, text_descriptor);
    let total = handed_out(camera, frames, takes, text_descriptor) + after.row_offset_delta;
    let height = text_descriptor.glyph_height as int;
    lemma_burst_conserves(camera, frames, takes, text_descriptor);
    let gap = camera.row_offset_delta + rows - total;
    let rest = after.scroll_accum as int;
    assert(rest == gap * height) by (nonlinear_arith)
        requires
            rest + total * height == camera.row_offset_delta * height + rows * height,
            gap == camera.row_offset_delta + rows - total,
    ;
    assert(gap == 0) by (nonlinear_arith)
        requires
            rest == gap * height,
            -height < rest < height,
            height > 0,
    ;
}

/// Zero is where a residual of zero comes to rest.
pub proof fn lemma_rest_is_fixed(glyph_height: i64)
    requires
        glyph_height > 0,
    ensures
        eased_to_rest(0, glyph_height) == 0,
{
    assert(0 * REST_EASING == 0);
}

/// A residual at rest stays at rest through an idle frame, whether or not
/// the idle timer has finished, and no row becomes pending.
pub proof fn lemma_idle_frame_keeps_rest(
    camera: ReaderCamera,
    frame: TranslationInput,
    text_descriptor: &TextDescriptor,
)
    requires
        text_descriptor.valid(),
        idle_frame(frame, camera),
        camera.scroll_accum == 0,
    ensures
        frame_applied(camera, frame, text_descriptor).scroll_accum == 0,
        frame_applied(camera, frame, text_descriptor).row_offset_delta
            == camera.row_offset_delta,
{
    let height = text_descriptor.glyph_height;
    lemma_frame_feeds(camera, frame);
    lemma_rest_is_fixed(height);
    lemma_residual_bounded(0, height);
}

/// The idle frames of a run are idle for every state of the run.
proof fn lemma_idle_run_unfolds(
    camera: ReaderCamera,
    frames: Seq<TranslationInput>,
    takes: Seq<bool>,
    text_descriptor: &TextDescriptor,
)
    requires
        frames.len() > 0,
        idle(frames, camera),
    ensures
        idle(frames.drop_last(), camera),
        idle_frame(
            frames.last(),
            frames_applied(camera, frames.drop_last(), takes, text_descriptor),
        ),
{
    assert forall|i: int| 0 <= i < frames.drop_last().len() implies idle_frame(
        #[trigger] frames.drop_last()[i],
        camera,
    ) by {
        assert(frames.drop_last()[i] == frames[i]);
    }
    assert(idle_frame(frames[frames.len() - 1], camera));
    lemma_run_keeps_settings(camera, frames.drop_last(), takes, text_descriptor);
}

/// Idle frames after a residual has come to rest leave the residual at
/// rest, and the rows taken and pending together as they were.
pub proof fn lemma_idle_run_keeps_rest(
    camera: ReaderCamera,
    frames: Seq<TranslationInput>,
    takes: Seq<bool>,
    text_descriptor: &TextDescriptor,
)
    requires
        text_descriptor.valid(),
        idle(frames, camera),
        camera.scroll_accum == 0,
    ensures
        frames_applied(camera, frames, takes, text_descriptor).scroll_accum == 0,
        handed_out(camera, frames, takes, text_descriptor) + frames_applied(
            camera,
            frames,
            takes,
            text_descriptor,
        ).row_offset_delta == camera.row_offset_delta,
    decreases frames.len(),
{
    if frames.len() > 0 {
        let before = frames_applied(camera, frames.drop_last(), takes, text_descriptor);
        lemma_idle_run_unfolds(camera, frames, takes, text_descriptor);
        lemma_idle_run_keeps_rest(camera, frames.drop_last(), takes, text_descriptor);
        lemma_idle_frame_keeps_rest(before, frames.last(), text_descriptor);
    }
}

/// Input that adds up to exactly `rows` glyph heights, followed by any
/// number of idle frames, leaves the accumulated scroll at exactly zero,
/// and the rows that were taken along the way and the rows still pending
/// have together grown by exactly `rows`.
pub proof fn lemma_burst_then_idle_converges(
    camera: ReaderCamera,
    wheel_frames: Seq<TranslationInput>,
    wheel_takes: Seq<bool>,
    idle_frames: Seq<TranslationInput>,
    idle_takes: Seq<bool>,
    text_descriptor: &TextDescriptor,
    rows: int,
)
    requires
        text_descriptor.valid(),
        camera.scroll_accum == 0,
        burst(camera, wheel_frames, wheel_takes, text_descriptor),
        scroll_sum(wheel_frames, camera) == rows * text_descriptor.glyph_height,
        idle(idle_frames, camera),
    ensures
        ({
            let landed = frames_applied(camera, wheel_frames, wheel_takes, text_descriptor);
            let settled = frames_applied(landed, idle_frames, idle_takes, text_descriptor);
            &&& settled.scroll_accum == 0
            &&& handed_out(camera, wheel_frames, wheel_takes, text_descriptor) + handed_out(
                landed,
                idle_frames,
                idle_takes,
                text_descriptor,
            ) + settled.row_offset_delta == camera.row_offset_delta + rows
        }),
{
    let landed = frames_applied(camera, wheel_frames, wheel_takes, text_descriptor);
    lemma_burst_lands_on_row(camera, wheel_frames, wheel_takes, text_descriptor, rows);
    lemma_run_keeps_settings(camera, wheel_frames, wheel_takes, text_descriptor);
    assert(idle(idle_frames, landed)) by {
        assert forall|i: int| 0 <= i < idle_frames.len() implies idle_frame(
            #[trigger] idle_frames[i],
            landed,
        ) by {
            assert(idle_frame(idle_frames[i], camera));
        }
    }
    lemma_idle_run_keeps_rest(landed, idle_frames, idle_takes, text_descriptor);
}

/// How far a residual is from where it comes to rest.
pub open spec fn rest_distance(accum: i64, glyph_height: i64) -> int {
    magnitude(rest_target(accum, glyph_height) - accum)
}

/// The residual after an idle frame in which it eases toward its rest.
pub open spec fn idle_settled(accum: i64, glyph_height: i64) -> i64 {
    residual(eased_to_rest(accum, glyph_height), glyph_height)
}

/// One idle frame brings a residual to rest or at least a ten-thousandth of
/// a unit nearer to it, and keeps it smaller than one glyph height.
pub proof fn lemma_idle_frame_nears_rest(accum: i64, glyph_height: i64)
    requires
        glyph_height > 0,
        magnitude(accum as int) < glyph_height,
    ensures
        magnitude(idle_settled(accum, glyph_height) as int) < glyph_height,
        idle_settled(accum, glyph_height) == 0 || rest_distance(
            idle_settled(accum, glyph_height),
            glyph_height,
        ) + 100 <= rest_distance(accum, glyph_height),
{
    let target = rest_target(accum, glyph_height);
    let span = target - accum;
    let step = quotient(span * REST_EASING, ONE as int);
    assert(step == quotient(span, 10)) by {
        assert(span * REST_EASING == span * 100_000);
        assert(ONE == 1_000_000);
    }
    let eased = lerp(accum, target, REST_EASING);
    assert(eased == accum + step);
    let landed = eased_to_rest(accum, glyph_height);
    lemma_residual_bounded(landed, glyph_height);
    if landed == target {
        let height = glyph_height as int;
        assert(1 * height == height && (-1) * height == -height) by (nonlinear_arith);
        if target != 0 {
            if accum < 0 {
                lemma_split_unique(target, glyph_height, -1, 0);
            } else {
                lemma_split_unique(target, glyph_height, 1, 0);
            }
        }
        assert(idle_settled(accum, glyph_height) == 0);
    } else {
        assert(landed == eased);
        assert(magnitude(target - eased) >= REST_TOLERANCE);
        assert(magnitude(target - eased) == magnitude(span) - magnitude(span) / 10);
        assert(magnitude(eased as int) < glyph_height);
        assert(whole_steps(eased, glyph_height) == 0);
        assert(whole_steps(eased, glyph_height) * glyph_height == 0) by (nonlinear_arith)
            requires
                whole_steps(eased, glyph_height) == 0,
        ;
        assert(idle_settled(accum, glyph_height) == eased);
        assert(rest_target(eased, glyph_height) == target);
    }
}

/// In an idle frame that finds the idle timer finished, the accumulated
/// scroll eases toward its rest, and the timer stays finished.
pub proof fn lemma_idle_frame_eases(
    camera: ReaderCamera,
    frame: TranslationInput,
    text_descriptor: &TextDescriptor,
)
    requires
        text_descriptor.valid(),
        idle_frame(frame, camera),
        camera.scroll_idle_timer.ticked(frame.delta_seconds).finished(),
    ensures
        frame_applied(camera, frame, text_descriptor).scroll_accum == idle_settled(
            camera.scroll_accum,
            text_descriptor.glyph_height,
        ),
        frame_applied(camera, frame, text_descriptor).scroll_idle_timer.finished(),
{
    lemma_frame_feeds(camera, frame);
}

/// After a run of idle frames behind a finished idle timer, the residual is
/// at rest or has come nearer to it by a ten-thousandth of a unit per frame.
proof fn lemma_idle_run_nears_rest(
    camera: ReaderCamera,
    frames: Seq<TranslationInput>,
    takes: Seq<bool>,
    text_descriptor: &TextDescriptor,
)
    requires
        text_descriptor.valid(),
        idle(frames, camera),
        past_timeout(frames, camera),
        magnitude(camera.scroll_accum as int) < text_descriptor.glyph_height,
    ensures
        ({
            let after = frames_applied(camera, frames, takes, text_descriptor);
            &&& frames.len() > 0 ==> after.scroll_idle_timer.finished()
            &&& magnitude(after.scroll_accum as int) < text_descriptor.glyph_height
            &&& (after.scroll_accum == 0 || rest_distance(
                after.scroll_accum,
                text_descriptor.glyph_height,
            ) + 100 * frames.len() <= rest_distance(
                camera.scroll_accum,
                text_descriptor.glyph_height,
            ))
        }),
    decreases frames.len(),
{
    if frames.len() > 0 {
        let before = frames_applied(camera, frames.drop_last(), takes, text_descriptor);
        lemma_idle_run_unfolds(camera, frames, takes, text_descriptor);
        if frames.len() > 1 {
            assert(frames.drop_last()[0] == frames[0]);
        }
        lemma_idle_run_nears_rest(camera, frames.drop_last(), takes, text_descriptor);
        lemma_idle_frame_eases(before, frames.last(), text_descriptor);
        lemma_idle_frame_nears_rest(before.scroll_accum, text_descriptor.glyph_height);
        if before.scroll_accum == 0 {
            lemma_idle_frame_keeps_rest(before, frames.last(), text_descriptor);
        }
    }
}

/// Sustained idle frames bring any residual to rest: once the idle timer
/// has finished, a run of idle frames that numbers at least a hundredth of
/// the raw glyph height leaves the accumulated scroll at exactly zero.
pub proof fn lemma_sustained_idle_settles(
    camera: ReaderCamera,
    frames: Seq<TranslationInput>,
    takes: Seq<bool>,
    text_descriptor: &TextDescriptor,
)
    requires
        text_descriptor.valid(),
        idle(frames, camera),
        past_timeout(frames, camera),
        magnitude(camera.scroll_accum as int) < text_descriptor.glyph_height,
        100 * frames.len() >= text_descriptor.glyph_height,
    ensures
        frames_applied(camera, frames, takes, text_descriptor).scroll_accum == 0,
{
    lemma_idle_run_nears_rest(camera, frames, takes, text_descriptor);
}

/// Whatever a run of frames brought, with pointer or wheel, at the ends of
/// the text or inside it, saturating or not: sustained idle frames past the
/// timeout after it leave the accumulated scroll at exactly zero.
pub proof fn lemma_frames_then_idle_settle(
    camera: ReaderCamera,
    frames: Seq<TranslationInput>,
    takes: Seq<bool>,
    idle_frames: Seq<TranslationInput>,
    idle_takes: Seq<bool>,
    text_descriptor: &TextDescriptor,
)
    requires
        text_descriptor.valid(),
        frames.len() > 0 || magnitude(camera.scroll_accum as int) < text_descriptor.glyph_height,
        idle(idle_frames, camera),
        past_timeout(idle_frames, frames_applied(camera, frames, takes, text_descriptor)),
        100 * idle_frames.len() >= text_descriptor.glyph_height,
    ensures
        frames_applied(
            frames_applied(camera, frames, takes, text_descriptor),
            idle_frames,
            idle_takes,
            text_descriptor,
        ).scroll_accum == 0,
{
    let landed = frames_applied(camera, frames, takes, text_descriptor);
    if frames.len() > 0 {
        lemma_run_bounds_residuals(camera, frames, takes, text_descriptor);
    }
    lemma_run_keeps_settings(camera, frames, takes, text_descriptor);
    assert(idle(idle_frames, landed)) by {
        assert forall|i: int| 0 <= i < idle_frames.len() implies idle_frame(
            #[trigger] idle_frames[i],
            landed,
        ) by {
            assert(idle_frame(idle_frames[i], camera));
        }
    }
    lemma_sustained_idle_settles(landed, idle_frames, idle_takes, text_descriptor);
}

/// After the translation stage of any frame the accumulated scroll is
/// smaller than one glyph height, the accumulated swipe smaller than one
/// glyph width, and the column within its limit.
pub proof fn lemma_frame_bounds_residuals(
    camera: ReaderCamera,
    frame: TranslationInput,
    text_descriptor: &TextDescriptor,
)
    requires
        text_descriptor.valid(),
    ensures
        ({
            let after = frame_applied(camera, frame, text_descriptor);
            &&& magnitude(after.scroll_accum as int) < text_descriptor.glyph_height
            &&& magnitude(after.swipe_accum as int) < text_descriptor.glyph_width
            &&& after.column <= column_limit(text_descriptor.columns)
        }),
{
    let fed = input_fed(camera, frame.delta_wheel, frame.delta_mouse, frame.delta_seconds);
    lemma_residual_bounded(fed.swipe_accum, text_descriptor.glyph_width);
    let swiped = swipe_applied(fed, text_descriptor);
    let settled = scroll_settled(swiped, frame.delta_wheel.is_some(), text_descriptor.glyph_height);
    lemma_residual_bounded(settled, text_descriptor.glyph_height);
}

/// After every frame of a run the residuals are bounded: whatever the
/// frames bring, the state after the last of them has an accumulated scroll
/// smaller than one glyph height and an accumulated swipe smaller than one
/// glyph width.
pub proof fn lemma_run_bounds_residuals(
    camera: ReaderCamera,
    frames: Seq<TranslationInput>,
    takes: Seq<bool>,
    text_descriptor: &TextDescriptor,
)
    requires
        text_descriptor.valid(),
        frames.len() > 0,
    ensures
        ({
            let after = frames_applied(camera, frames, takes, text_descriptor);
            &&& magnitude(after.scroll_accum as int) < text_descriptor.glyph_height
            &&& magnitude(after.swipe_accum as int) < text_descriptor.glyph_width
            &&& after.column <= column_limit(text_descriptor.columns)
        }),
{
    lemma_frame_bounds_residuals(
        frames_applied(camera, frames.drop_last(), takes, text_descriptor),
        frames.last(),
        text_descriptor,
    );
}

/// At the start of the text no frame lowers the pending row delta, and at
/// its end no frame raises it.
pub proof fn lemma_frame_respects_text_ends(
    camera: ReaderCamera,
    frame: TranslationInput,
    text_descriptor: &TextDescriptor,
)
    requires
        text_descriptor.valid(),
    ensures
        frame.rows_meta.text_start_reached ==> frame_applied(
            camera,
            frame,
            text_descriptor,
        ).row_offset_delta >= camera.row_offset_delta,
        frame.rows_meta.text_end_reached ==> frame_applied(
            camera,
            frame,
            text_descriptor,
        ).row_offset_delta <= camera.row_offset_delta,
{
    let fed = input_fed(camera, frame.delta_wheel, frame.delta_mouse, frame.delta_seconds);
    let swiped = swipe_applied(fed, text_descriptor);
    let settled = scroll_settled(swiped, frame.delta_wheel.is_some(), text_descriptor.glyph_height);
    lemma_residual_bounded(settled, text_descriptor.glyph_height);
}

/// A zoom request followed by a frame of easing leaves the zoom target
/// within the allowed range, and the zoom as well if it was within it.
pub proof fn lemma_zoom_stays_in_range(
    camera: ReaderCamera,
    zoom_scalar_raw: i64,
    delta_seconds: u64,
)
    ensures
        zoom_in_range(
            zoom_applied(zoom_requested(camera, zoom_scalar_raw), delta_seconds).target_zoom,
        ),
        zoom_in_range(camera.zoom) ==> zoom_in_range(
            zoom_applied(zoom_requested(camera, zoom_scalar_raw), delta_seconds).zoom,
        ),
{
    let requested = zoom_requested(camera, zoom_scalar_raw);
    lemma_lerp_between(
        requested.zoom,
        requested.target_zoom,
        easing_rate(delta_seconds, requested.zoom_easing_seconds),
    );
}

} // verus!
