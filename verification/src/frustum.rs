//! The extent of the view on the text surface, from the border planes of the
//! viewing frustum.

use vstd::prelude::*;
use crate::TextDescriptor;
use crate::camera::ReaderCamera;
use crate::fixed::{minus, negate, over, plus, times};
use crate::geometry::Vec3;

verus! {

/// Distance kept between the text surface and the depth at which the borders
/// are taken, so that a plane through the surface itself is never solved.
pub const DEPTH_EPSILON: i64 = 50_000;

/// A plane `normal.x * x + normal.y * y + normal.z * z + d = 0`.
#[derive(Clone, Copy, Debug, PartialEq, Eq, Structural)]
pub struct Plane {
    /// Direction the plane faces.
    pub normal: Vec3,
    /// Signed distance of the origin from the plane along the normal.
    pub d: i64,
}

/// The four planes that bound the view sideways.
#[derive(Clone, Copy, Debug, PartialEq, Eq, Structural)]
pub struct Frustum {
    /// Border on the side of falling `x`.
    pub left: Plane,
    /// Border on the side of rising `x`.
    pub right: Plane,
    /// Border on the side of falling `y`.
    pub bottom: Plane,
    /// Border on the side of rising `y`.
    pub top: Plane,
}

impl Plane {
    /// The height at which the plane crosses the line `x = 0` at depth `z`:
    /// `(-d - normal.z * z) / normal.y`.
    pub open spec fn spec_border_y(&self, z: i64) -> i64 {
        over(minus(negate(self.d), times(self.normal.z, z)), self.normal.y)
    }

    /// Solves the plane for `y` at depth `z` on the line `x = 0`.
    #[verifier::when_used_as_spec(spec_border_y)]
    pub fn border_y(&self, z: i64) -> (r: i64)
        ensures
            r == self.spec_border_y(z),
    {
        over(minus(negate(self.d), times(self.normal.z, z)), self.normal.y)
    }

    /// The abscissa at which the plane crosses the line `y = 0` at depth `z`:
    /// `(-d - normal.z * z) / normal.x`.
    pub open spec fn spec_border_x(&self, z: i64) -> i64 {
        over(minus(negate(self.d), times(self.normal.z, z)), self.normal.x)
    }

    /// Solves the plane for `x` at depth `z` on the line `y = 0`.
    #[verifier::when_used_as_spec(spec_border_x)]
    pub fn border_x(&self, z: i64) -> (r: i64)
        ensures
            r == self.spec_border_x(z),
    {
        over(minus(negate(self.d), times(self.normal.z, z)), self.normal.x)
    }
}

/// The rows in view on a surface at depth `target_z`: the distance between
/// the upper and the lower border, in glyph heights.
pub open spec fn spec_calc_visible_rows(
    frustum: &Frustum,
    target_z: i64,
    glyph_height: i64,
) -> i64 {
    let z = plus(target_z, DEPTH_EPSILON);
    over(minus(frustum.top.border_y(z), frustum.bottom.border_y(z)), glyph_height)
}

/// Counts the rows in view on a surface at depth `target_z`.
#[verifier::when_used_as_spec(spec_calc_visible_rows)]
pub fn calc_visible_rows(frustum: &Frustum, target_z: i64, glyph_height: i64) -> (r: i64)
    requires
        glyph_height > 0,
    ensures
        r == spec_calc_visible_rows(frustum, target_z, glyph_height),
{
    let z: i64 = plus(target_z, DEPTH_EPSILON);
    over(minus(frustum.top.border_y(z), frustum.bottom.border_y(z)), glyph_height)
}

/// The columns in view on a surface at depth `target_z`: the distance
/// between the right and the left border, in glyph widths.
pub open spec fn spec_calc_visible_columns(
    frustum: &Frustum,
    target_z: i64,
    glyph_width: i64,
) -> i64 {
    let z = plus(target_z, DEPTH_EPSILON);
    over(minus(frustum.right.border_x(z), frustum.left.border_x(z)), glyph_width)
}

/// Counts the columns in view on a surface at depth `target_z`.
#[verifier::when_used_as_spec(spec_calc_visible_columns)]
pub fn calc_visible_columns(frustum: &Frustum, target_z: i64, glyph_width: i64) -> (r: i64)
    requires
        glyph_width > 0,
    ensures
        r == spec_calc_visible_columns(frustum, target_z, glyph_width),
{
    let z: i64 = plus(target_z, DEPTH_EPSILON);
    over(minus(frustum.right.border_x(z), frustum.left.border_x(z)), glyph_width)
}

/// The eased count after a fresh count came in. The eased count takes the
/// fresh one while it is unset, and while the count has not changed since
/// the previous frame; a count that changes from frame to frame leaves it
/// alone, so that it does not chase every small change of the frustum.
pub open spec fn followed_target(target: Option<i64>, previous: i64, fresh: i64) -> Option<i64> {
    if target.is_none() || fresh == previous {
        Some(fresh)
    } else {
        target
    }
}

/// The state after the extent of the view has been taken from `frustum`.
pub open spec fn frustum_applied(
    camera: ReaderCamera,
    frustum: &Frustum,
    text_descriptor: &TextDescriptor,
    target_z: i64,
) -> ReaderCamera {
    let z = plus(target_z, DEPTH_EPSILON);
    let rows = calc_visible_rows(frustum, target_z, text_descriptor.glyph_height);
    let columns = calc_visible_columns(frustum, target_z, text_descriptor.glyph_width);
    ReaderCamera {
        y_top: frustum.top.border_y(z),
        y_bottom: frustum.bottom.border_y(z),
        x_left: frustum.left.border_x(z),
        x_right: frustum.right.border_x(z),
        visible_rows: rows,
        visible_columns: columns,
        visible_rows_target: followed_target(camera.visible_rows_target, camera.visible_rows, rows),
        visible_columns_target: followed_target(
            camera.visible_columns_target,
            camera.visible_columns,
            columns,
        ),
        ..camera
    }
}

/// Lets an eased count follow a fresh one.
fn follow_target(target: Option<i64>, previous: i64, fresh: i64) -> (r: Option<i64>)
    ensures
        r == followed_target(target, previous, fresh),
{
    if target.is_none() || fresh == previous {
        Some(fresh)
    } else {
        target
    }
}

/// Takes the borders of the view and the counts of rows and columns in view
/// from the frustum of a camera that stands straight before the surface.
/// This runs before everything else in a frame. A camera that is not in
/// reader mode, or has no target, is left as it is.
pub fn calc_frustum_data(
    camera: &mut ReaderCamera,
    frustum: &Frustum,
    text_descriptor: &TextDescriptor,
    target_z: i64,
)
    requires
        text_descriptor.valid(),
    ensures
        !old(camera).reads() ==> *final(camera) == *old(camera),
        old(camera).reads() ==> *final(camera) == frustum_applied(
            *old(camera),
            frustum,
            text_descriptor,
            target_z,
        ),
{
    if !camera.reads() {
        return;
    }
    let z: i64 = plus(target_z, DEPTH_EPSILON);
    let rows: i64 = calc_visible_rows(frustum, target_z, text_descriptor.glyph_height);
    let columns: i64 = calc_visible_columns(frustum, target_z, text_descriptor.glyph_width);
    camera.y_top = frustum.top.border_y(z);
    camera.y_bottom = frustum.bottom.border_y(z);
    camera.x_left = frustum.left.border_x(z);
    camera.x_right = frustum.right.border_x(z);
    camera.visible_rows_target = follow_target(
        camera.visible_rows_target,
        camera.visible_rows,
        rows,
    );
    camera.visible_columns_target = follow_target(
        camera.visible_columns_target,
        camera.visible_columns,
        columns,
    );
    camera.visible_rows = rows;
    camera.visible_columns = columns;
}

} // verus!
