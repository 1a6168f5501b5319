//! Fixed-point vectors.

use vstd::prelude::*;
use crate::fixed::{abs, lerp, minus, plus, times, ONE};

verus! {

/// A vector in the plane of the screen.
#[derive(Clone, Copy, Debug, PartialEq, Eq, Structural)]
pub struct Vec2 {
    pub x: i64,
    pub y: i64,
}

/// A vector in world space.
#[derive(Clone, Copy, Debug, PartialEq, Eq, Structural)]
pub struct Vec3 {
    pub x: i64,
    pub y: i64,
    pub z: i64,
}

/// A rotation, kept as the four components of a quaternion.
#[derive(Clone, Copy, Debug, PartialEq, Eq, Structural)]
pub struct Quat {
    pub x: i64,
    pub y: i64,
    pub z: i64,
    pub w: i64,
}

impl Vec2 {
    /// The vector with both components zero.
    pub fn zero() -> (r: Vec2)
        ensures
            r == (Vec2 { x: 0, y: 0 }),
    {
        Vec2 { x: 0, y: 0 }
    }
}

impl Quat {
    /// The rotation that turns nothing.
    pub open spec fn spec_identity() -> Quat {
        Quat { x: 0, y: 0, z: 0, w: ONE }
    }

    /// The rotation that turns nothing.
    #[verifier::when_used_as_spec(spec_identity)]
    pub fn identity() -> (r: Quat)
        ensures
            r == Quat::spec_identity(),
    {
        Quat { x: 0, y: 0, z: 0, w: ONE }
    }
}

impl Vec3 {
    /// The vector with all components zero.
    pub open spec fn spec_zero() -> Vec3 {
        Vec3 { x: 0, y: 0, z: 0 }
    }

    /// The vector with all components zero.
    #[verifier::when_used_as_spec(spec_zero)]
    pub fn zero() -> (r: Vec3)
        ensures
            r == Vec3::spec_zero(),
    {
        Vec3 { x: 0, y: 0, z: 0 }
    }

    /// The component-wise saturated sum.
    pub open spec fn spec_plus(self, other: Vec3) -> Vec3 {
        Vec3 { x: plus(self.x, other.x), y: plus(self.y, other.y), z: plus(self.z, other.z) }
    }

    /// Adds two vectors component by component.
    #[verifier::when_used_as_spec(spec_plus)]
    pub fn plus(self, other: Vec3) -> (r: Vec3)
        ensures
            r == self.spec_plus(other),
    {
        Vec3 { x: plus(self.x, other.x), y: plus(self.y, other.y), z: plus(self.z, other.z) }
    }

    /// The vector with every component multiplied by `k`.
    pub open spec fn spec_scaled(self, k: i64) -> Vec3 {
        Vec3 { x: times(self.x, k), y: times(self.y, k), z: times(self.z, k) }
    }

    /// Multiplies every component by `k`.
    #[verifier::when_used_as_spec(spec_scaled)]
    pub fn scaled(self, k: i64) -> (r: Vec3)
        ensures
            r == self.spec_scaled(k),
    {
        Vec3 { x: times(self.x, k), y: times(self.y, k), z: times(self.z, k) }
    }

    /// The component-wise interpolation toward `other`.
    pub open spec fn spec_lerp(self, other: Vec3, t: i64) -> Vec3 {
        Vec3 {
            x: lerp(self.x, other.x, t),
            y: lerp(self.y, other.y, t),
            z: lerp(self.z, other.z, t),
        }
    }

    /// Interpolates every component toward the matching one of `other`.
    #[verifier::when_used_as_spec(spec_lerp)]
    pub fn lerp(self, other: Vec3, t: i64) -> (r: Vec3)
        ensures
            r == self.spec_lerp(other, t),
    {
        Vec3 {
            x: lerp(self.x, other.x, t),
            y: lerp(self.y, other.y, t),
            z: lerp(self.z, other.z, t),
        }
    }

    /// Whether every component of `self` lies within `tolerance` of the
    /// matching component of `other`.
    pub open spec fn spec_abs_diff_eq(self, other: Vec3, tolerance: i64) -> bool {
        &&& abs(minus(self.x, other.x)) <= tolerance
        &&& abs(minus(self.y, other.y)) <= tolerance
        &&& abs(minus(self.z, other.z)) <= tolerance
    }

    /// Compares two vectors component by component up to a tolerance.
    #[verifier::when_used_as_spec(spec_abs_diff_eq)]
    pub fn abs_diff_eq(self, other: Vec3, tolerance: i64) -> (r: bool)
        ensures
            r == self.spec_abs_diff_eq(other, tolerance),
    {
        abs(minus(self.x, other.x)) <= tolerance && abs(minus(self.y, other.y)) <= tolerance
            && abs(minus(self.z, other.z)) <= tolerance
    }
}

} // verus!
