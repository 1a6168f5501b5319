//! Turning raw input events into the amounts the camera stages take.

use vstd::prelude::*;
use crate::fixed::{negate, over, plus, ONE};

verus! {

/// Pixels of wheel travel that count as one line.
pub const PIXELS_PER_LINE: i64 = 53_000_000;

/// The unit a wheel event is measured in.
#[derive(Clone, Copy, Debug, PartialEq, Eq, Structural)]
pub enum MouseScrollUnit {
    /// Lines of text.
    Line,
    /// Pixels on the screen.
    Pixel,
}

/// One event of the mouse wheel.
#[derive(Clone, Copy, Debug)]
pub struct MouseWheel {
    /// Unit of `x` and `y`.
    pub unit: MouseScrollUnit,
    /// Horizontal travel.
    pub x: i64,
    /// Vertical travel.
    pub y: i64,
}

/// The vertical travel of a wheel event in lines.
pub open spec fn spec_scroll_amount(event: &MouseWheel, pixels_per_line: i64) -> i64 {
    match event.unit {
        MouseScrollUnit::Line => event.y,
        MouseScrollUnit::Pixel => over(event.y, pixels_per_line),
    }
}

/// Measures the vertical travel of a wheel event in lines.
#[verifier::when_used_as_spec(spec_scroll_amount)]
pub fn scroll_amount(event: &MouseWheel, pixels_per_line: i64) -> (r: i64)
    ensures
        r == spec_scroll_amount(event, pixels_per_line),
{
    match event.unit {
        MouseScrollUnit::Line => event.y,
        MouseScrollUnit::Pixel => over(event.y, pixels_per_line),
    }
}

/// The raw zoom request that the wheel events of a frame make while
/// reading: the travel of the last event, against its direction; nothing
/// without an event.
pub open spec fn spec_wheel_zoom_request(events: Seq<MouseWheel>, pixels_per_line: i64) -> i64 {
    if events.len() == 0 {
        0
    } else {
        negate(scroll_amount(&events.last(), pixels_per_line))
    }
}

/// Works out the raw zoom request of a frame from its wheel events.
pub fn wheel_zoom_request(events: &Vec<MouseWheel>, pixels_per_line: i64) -> (r: i64)
    ensures
        r == spec_wheel_zoom_request(events@, pixels_per_line),
{
    if events.len() == 0 {
        0
    } else {
        negate(scroll_amount(&events[events.len() - 1], pixels_per_line))
    }
}

/// The vertical travel of all wheel events of a frame together, in lines.
pub open spec fn wheel_travel(events: Seq<MouseWheel>, pixels_per_line: i64) -> i64
    decreases events.len(),
{
    if events.len() == 0 {
        0
    } else {
        plus(
            wheel_travel(events.drop_last(), pixels_per_line),
            scroll_amount(&events.last(), pixels_per_line),
        )
    }
}

/// The scroll that the wheel events of a frame ask for: their travel
/// together, or nothing where no event came in.
pub open spec fn spec_wheel_scroll(events: Seq<MouseWheel>, pixels_per_line: i64) -> Option<i64> {
    if events.len() == 0 {
        None
    } else {
        Some(wheel_travel(events, pixels_per_line))
    }
}

/// Adds up the wheel events of a frame.
pub fn wheel_scroll(events: &Vec<MouseWheel>, pixels_per_line: i64) -> (r: Option<i64>)
    ensures
        r == spec_wheel_scroll(events@, pixels_per_line),
{
    if events.len() == 0 {
        return None;
    }
    let mut travel: i64 = 0;
    let mut i: usize = 0;
    while i < events.len()
        invariant
            i <= events.len(),
            travel == wheel_travel(events@.take(i as int), pixels_per_line),
        decreases events.len() - i,
    {
        proof {
            assert(events@.take(i + 1).drop_last() == events@.take(i as int));
        }
        travel = plus(travel, scroll_amount(&events[i], pixels_per_line));
        i = i + 1;
    }
    proof {
        assert(events@.take(i as int) == events@);
    }
    Some(travel)
}

/// The position of a two-key axis: one step up while only the first key is
/// held, one step down while only the second is, and the middle otherwise.
pub open spec fn spec_movement_axis(plus_pressed: bool, minus_pressed: bool) -> i64 {
    if plus_pressed && !minus_pressed {
        ONE
    } else if minus_pressed && !plus_pressed {
        (-ONE) as i64
    } else {
        0
    }
}

/// Reads a two-key axis.
#[verifier::when_used_as_spec(spec_movement_axis)]
pub fn movement_axis(plus_pressed: bool, minus_pressed: bool) -> (r: i64)
    ensures
        r == spec_movement_axis(plus_pressed, minus_pressed),
{
    let mut axis: i64 = 0;
    if plus_pressed {
        axis = axis + ONE;
    }
    if minus_pressed {
        axis = axis - ONE;
    }
    axis
}

} // verus!
