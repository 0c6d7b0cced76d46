//! Plain integer geometry shared by the scene model and the renderer.

use vstd::prelude::*;

verus! {

/// Largest magnitude accepted for a coordinate or an extent, in pixels
/// (or in tenths of a pixel for camera state). Keeping every coordinate
/// within this bound lets sums of a position and an extent be computed
/// in `i64` without overflow.
pub const MAX_COORD: i64 = 1073741824;

/// A two-dimensional integer vector. Canvas positions and view
/// resolutions are whole pixels; camera state uses tenths of a pixel.
#[derive(Clone, Copy, Debug, PartialEq, Eq, Structural)]
pub struct Vec2 {
    pub x: i64,
    pub y: i64,
}

impl Vec2 {
    /// Both coordinates within `[-MAX_COORD, MAX_COORD]`.
    pub open spec fn bounded(self) -> bool {
        -MAX_COORD <= self.x <= MAX_COORD && -MAX_COORD <= self.y <= MAX_COORD
    }

    /// Both coordinates within `[0, MAX_COORD]`.
    pub open spec fn non_negative(self) -> bool {
        0 <= self.x <= MAX_COORD && 0 <= self.y <= MAX_COORD
    }
}

} // verus!
