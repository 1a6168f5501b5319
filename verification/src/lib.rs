//! Motion and row-synchronisation engine of a reader camera.
//!
//! The camera looks at a surface of fixed-size glyph cells. Each frame the
//! engine folds pointer and wheel input into bounded residuals, turns what
//! overflows into whole row and column steps, eases zoom, lean and position,
//! and keeps a request/report/delta handshake with the owner of the text.
//!
//! Every continuous quantity is a signed fixed-point number with six decimal
//! places, stored in an `i64`; durations are unsigned and share the same
//! scale, so a duration counts microseconds. Arithmetic saturates at the
//! bounds of the representation instead of wrapping.

use vstd::prelude::*;

pub mod fixed;
pub mod geometry;
pub mod residual;
pub mod camera;
pub mod frustum;
pub mod input;
pub mod reader_mode;
pub mod modes;
pub mod systems;
pub mod laws;

pub use camera::ReaderCamera;

verus! {

/// How the camera is driven.
#[derive(Clone, Copy, Debug, PartialEq, Eq, Structural)]
pub enum CameraMode {
    /// Free flight steered by keys and pointer.
    Fly,
    /// Orbiting a target object.
    Follow,
    /// Facing a text surface and scrolling over it row by row.
    Reader,
}

/// The grid of glyph cells the camera reads.
#[derive(Clone, Copy, Debug, Default)]
pub struct TextDescriptor {
    /// Width of one glyph cell.
    pub glyph_width: i64,
    /// Height of one glyph cell.
    pub glyph_height: i64,
    /// Number of rows of the text.
    pub rows: u32,
    /// Number of columns of the text.
    pub columns: u32,
}

impl TextDescriptor {
    /// A descriptor is usable when its glyph cells have a positive size.
    pub open spec fn valid(&self) -> bool {
        self.glyph_width > 0 && self.glyph_height > 0
    }

    /// Tells whether the glyph cells have a positive size.
    pub fn is_valid(&self) -> (r: bool)
        ensures
            r == self.valid(),
    {
        self.glyph_width > 0 && self.glyph_height > 0
    }
}

/// Index of a row of the text.
#[derive(Clone, Copy, Debug, Default)]
pub struct Row(pub u32);

/// Index of a column of the text.
#[derive(Clone, Copy, Debug, Default)]
pub struct Column(pub u32);

} // verus!
