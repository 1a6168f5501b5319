//! What the fly and follow modes decide: the look angles and the zoom of a
//! camera that orbits its target.

use vstd::prelude::*;
use crate::camera::{ReaderCamera, ZOOM_MAX, ZOOM_MIN_FOLLOW};
use crate::fixed::{from_span, minus, plus, times, ONE};
use crate::geometry::Vec2;
use crate::input::{scroll_amount, MouseWheel};
use crate::reader_mode::clamped;

verus! {

/// The lowest lean a look may reach, in degrees.
pub const LOOK_PITCH_MIN: i64 = -89_000_000;

/// The highest lean a look may reach, in degrees.
pub const LOOK_PITCH_MAX: i64 = 89_900_000;

/// How far a pointer motion of `delta` turns the camera in a frame.
pub open spec fn look_turn(delta: i64, camera: ReaderCamera, delta_seconds: u64) -> i64 {
    times(times(delta, camera.sensitivity), from_span(delta_seconds))
}

/// The state after the pointer has turned the camera: the turn angle moves
/// against the sideways motion, the lean with the vertical one, and the lean
/// stays short of straight up and straight down. Nothing moves while
/// rotation is disabled.
pub open spec fn looked(camera: ReaderCamera, delta: Vec2, delta_seconds: u64) -> ReaderCamera {
    if camera.enabled_rotation {
        ReaderCamera {
            yaw: minus(camera.yaw, look_turn(delta.x, camera, delta_seconds)),
            pitch: clamped(
                plus(camera.pitch, look_turn(delta.y, camera, delta_seconds)),
                LOOK_PITCH_MIN,
                LOOK_PITCH_MAX,
            ),
            ..camera
        }
    } else {
        camera
    }
}

/// Turns the camera by a pointer motion.
pub fn look(delta: Vec2, delta_seconds: u64, camera: &mut ReaderCamera)
    ensures
        *final(camera) == looked(*old(camera), delta, delta_seconds),
        old(camera).enabled_rotation ==> LOOK_PITCH_MIN <= final(camera).pitch <= LOOK_PITCH_MAX,
{
    if camera.enabled_rotation {
        let seconds: i64 = from_span(delta_seconds);
        camera.yaw = minus(camera.yaw, times(times(delta.x, camera.sensitivity), seconds));
        let mut pitch: i64 = plus(
            camera.pitch,
            times(times(delta.y, camera.sensitivity), seconds),
        );
        if pitch > LOOK_PITCH_MAX {
            pitch = LOOK_PITCH_MAX;
        }
        if pitch < LOOK_PITCH_MIN {
            pitch = LOOK_PITCH_MIN;
        }
        camera.pitch = pitch;
    }
}

/// The factor by which the wheel events of a frame scale the zoom of a
/// following camera: each event scales by one less its travel times the
/// sensitivity.
pub open spec fn follow_scalar(
    events: Seq<MouseWheel>,
    pixels_per_line: i64,
    zoom_sensitivity: i64,
) -> i64
    decreases events.len(),
{
    if events.len() == 0 {
        ONE
    } else {
        times(
            follow_scalar(events.drop_last(), pixels_per_line, zoom_sensitivity),
            minus(ONE, times(scroll_amount(&events.last(), pixels_per_line), zoom_sensitivity)),
        )
    }
}

/// The state after the wheel has zoomed a following camera: the zoom is
/// scaled and kept in the range of the follow mode. Nothing moves while zoom
/// is disabled.
pub open spec fn follow_zoomed(
    camera: ReaderCamera,
    events: Seq<MouseWheel>,
    pixels_per_line: i64,
) -> ReaderCamera {
    if camera.enabled_zoom {
        ReaderCamera {
            zoom: clamped(
                times(follow_scalar(events, pixels_per_line, camera.zoom_sensitivity), camera.zoom),
                ZOOM_MIN_FOLLOW,
                ZOOM_MAX,
            ),
            ..camera
        }
    } else {
        camera
    }
}

/// Zooms a following camera by the wheel events of a frame.
pub fn follow_zoom(events: &Vec<MouseWheel>, pixels_per_line: i64, camera: &mut ReaderCamera)
    ensures
        *final(camera) == follow_zoomed(*old(camera), events@, pixels_per_line),
        old(camera).enabled_zoom ==> ZOOM_MIN_FOLLOW <= final(camera).zoom <= ZOOM_MAX,
{
    let mut scalar: i64 = ONE;
    let mut i: usize = 0;
    while i < events.len()
        invariant
            i <= events.len(),
            scalar == follow_scalar(
                events@.take(i as int),
                pixels_per_line,
                camera.zoom_sensitivity,
            ),
            *camera == *old(camera),
        decreases events.len() - i,
    {
        proof {
            assert(events@.take(i + 1).drop_last() == events@.take(i as int));
        }
        scalar = times(
            scalar,
            minus(ONE, times(scroll_amount(&events[i], pixels_per_line), camera.zoom_sensitivity)),
        );
        i = i + 1;
    }
    proof {
        assert(events@.take(i as int) == events@);
    }
    if camera.enabled_zoom {
        let mut zoom: i64 = times(scalar, camera.zoom);
        if zoom > ZOOM_MAX {
            zoom = ZOOM_MAX;
        }
        if zoom < ZOOM_MIN_FOLLOW {
            zoom = ZOOM_MIN_FOLLOW;
        }
        camera.zoom = zoom;
    }
}

} // verus!
