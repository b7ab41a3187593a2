//! The entity record for one bouncing text box, and the shared constants
//! of the motion system.
//!
//! Geometry is measured in sub-pixel units: `SUBPIXELS_PER_PIXEL` sub-pixels
//! make one pixel.  A direction is a unit vector scaled by `DIR_SCALE`, so a
//! component always lies in `[-DIR_SCALE, DIR_SCALE]`.

use vstd::prelude::*;

verus! {

/// Sub-pixel units per pixel: all positions, viewport sizes and box sizes
/// are measured in these units.
pub const SUBPIXELS_PER_PIXEL: i64 = 1000;

/// How many text boxes the startup pass spawns.
pub const NUMBER_OF_TEXT_BOXES: usize = 4;

/// Speed of every text box, in pixels per second.
pub const TEXT_BOXES_SPEED: i64 = 200;

/// Side length of a text box's square footprint, in sub-pixels (64 pixels).
pub const TEXT_BOXES_SIZE: i64 = 64 * SUBPIXELS_PER_PIXEL;

/// Half the box footprint, in sub-pixels: the inset of the valid position
/// range from each viewport edge, so a box never leaves the screen.
pub const HALF_TEXT_BOX_SIZE: i64 = 32 * SUBPIXELS_PER_PIXEL;

/// Scale of a direction vector: a unit direction has components in
/// `[-DIR_SCALE, DIR_SCALE]` and squared magnitude about `DIR_SCALE^2`.
pub const DIR_SCALE: i64 = 1000;

/// Camera zoom rate, in natural-log units of scale per second.
pub const CAMERA_SPEED_PER_SEC: i64 = 1;

/// Camera pan step per tick while a pan key is held, in sub-pixels
/// (10 pixels), not scaled by frame time.
pub const CAMERA_PAN_STEP: i64 = 10 * SUBPIXELS_PER_PIXEL;

/// Largest frame delta accepted by the update passes, in milliseconds.
pub const MAX_TICK_MS: i64 = 1_000_000;

/// Largest viewport dimension accepted, in sub-pixels (a billion pixels).
pub const MAX_VIEWPORT: i64 = 1_000_000_000_000;

/// Bound on the magnitude of a well-formed coordinate, in sub-pixels.
/// Keeps every per-tick position update far away from `i64` overflow.
pub const POS_LIMIT: i64 = 2_000_000_000_000;

/// A plane vector in integer units.
#[derive(Clone, Copy, PartialEq, Eq, Structural, Debug)]
pub struct Vec2 {
    pub x: i64,
    pub y: i64,
}

/// One bouncing text box: its centre position (sub-pixels), its direction
/// of travel (unit vector scaled by `DIR_SCALE`), and a hover flag that
/// pauses motion while set.  The rendered label is chosen from the spawn
/// index alone and is not part of the moving state.
#[derive(Clone, Copy, PartialEq, Eq, Structural, Debug)]
pub struct TextBox {
    pub position: Vec2,
    pub direction: Vec2,
    pub is_hovered: bool,
}

/// Marker for the background-music entity; it carries no state and no
/// update pass touches it.
#[derive(Clone, Copy, PartialEq, Eq, Structural, Debug)]
pub struct Music;

impl TextBox {
    /// A well-formed box: direction components within the unit scale and
    /// position coordinates within the overflow-safe range.
    pub open spec fn wf(self) -> bool {
        &&& -DIR_SCALE <= self.direction.x <= DIR_SCALE
        &&& -DIR_SCALE <= self.direction.y <= DIR_SCALE
        &&& -POS_LIMIT <= self.position.x <= POS_LIMIT
        &&& -POS_LIMIT <= self.position.y <= POS_LIMIT
    }

    /// The box's centre lies in the inset viewport rectangle: at least half
    /// a box away from every edge, so the box is fully on screen.
    pub open spec fn in_bounds(self, view_w: int, view_h: int) -> bool {
        &&& HALF_TEXT_BOX_SIZE <= self.position.x <= view_w - HALF_TEXT_BOX_SIZE
        &&& HALF_TEXT_BOX_SIZE <= self.position.y <= view_h - HALF_TEXT_BOX_SIZE
    }
}

/// A viewport accepted by the update passes: large enough to hold one box
/// and small enough that all bound arithmetic stays far from overflow.
pub open spec fn valid_viewport(view_w: int, view_h: int) -> bool {
    &&& TEXT_BOXES_SIZE <= view_w <= MAX_VIEWPORT
    &&& TEXT_BOXES_SIZE <= view_h <= MAX_VIEWPORT
}

} // verus!
