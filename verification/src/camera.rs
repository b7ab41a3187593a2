//! The camera: a pannable position and a zoom stored in log space.
//!
//! The zoom scale is never stored directly.  The camera keeps the natural
//! logarithm of the scale factor, in micro-log units, and each zoom tick
//! adds or subtracts `rate * dt` from it; the renderer exponentiates when
//! it needs the scale.  Because every representable zoom state is the log
//! of its scale, the scale a state denotes is an exponential and therefore
//! strictly positive, and because the per-tick steps are exact integers,
//! equal zoom-in and zoom-out holds cancel exactly.

use vstd::prelude::*;
use crate::text_box::{CAMERA_PAN_STEP, CAMERA_SPEED_PER_SEC, MAX_TICK_MS, Vec2, valid_viewport};

verus! {

/// Micro-log units per millisecond for a zoom rate of one log unit per
/// second: the rate times this constant times the tick length in
/// milliseconds is the per-tick log-space step.
pub const LOG_MICROS_PER_MILLI: i64 = 1000;

/// Bound on the magnitude of a well-formed log-scale, in micro-log units.
/// Far beyond any scale a renderer can show, and far from `i64` overflow.
pub const LOG_SCALE_LIMIT: i64 = 1_000_000_000_000_000;

/// Bound on the magnitude of a well-formed camera coordinate, in
/// sub-pixels.
pub const CAMERA_POS_LIMIT: i64 = 2_000_000_000_000;

/// The camera: its position in sub-pixels and its zoom as the natural
/// logarithm of the scale factor, in micro-log units (zero denotes scale
/// one).  Only the pan pass writes the position and only the zoom pass
/// writes the log-scale.
#[derive(Clone, Copy, PartialEq, Eq, Structural, Debug)]
pub struct Camera {
    pub position: Vec2,
    pub log_scale: i64,
}

impl Camera {
    /// A well-formed camera: coordinates and log-scale within the
    /// overflow-safe ranges.
    pub open spec fn wf(self) -> bool {
        &&& -CAMERA_POS_LIMIT <= self.position.x <= CAMERA_POS_LIMIT
        &&& -CAMERA_POS_LIMIT <= self.position.y <= CAMERA_POS_LIMIT
        &&& -LOG_SCALE_LIMIT <= self.log_scale <= LOG_SCALE_LIMIT
    }
}

/// A camera coordinate after one pan tick: one fixed step forward if the
/// positive-direction key is held, one step back if the negative one is,
/// both applied independently, so opposite keys cancel.
pub open spec fn spec_panned(p: int, plus_key: bool, minus_key: bool) -> int {
    p + (if plus_key { CAMERA_PAN_STEP as int } else { 0 })
        - (if minus_key { CAMERA_PAN_STEP as int } else { 0 })
}

/// The log-space distance one zoom tick covers, in micro-log units.
pub open spec fn spec_zoom_distance(dt_ms: int) -> int {
    CAMERA_SPEED_PER_SEC * dt_ms * LOG_MICROS_PER_MILLI
}

/// The log-scale after one zoom tick: the zoom-in key subtracts the
/// tick's log-space distance, the zoom-out key adds it, both applied
/// independently.
pub open spec fn spec_zoomed(l: int, zoom_in: bool, zoom_out: bool, dt_ms: int) -> int {
    l - (if zoom_in { spec_zoom_distance(dt_ms) } else { 0 })
        + (if zoom_out { spec_zoom_distance(dt_ms) } else { 0 })
}

/// Create the startup camera: centred on the viewport, at scale one
/// (log-scale zero).
pub fn spawn_camera(view_w: i64, view_h: i64) -> (c: Camera)
    requires
        valid_viewport(view_w as int, view_h as int),
    ensures
        c.position.x == view_w as int / 2,
        c.position.y == view_h as int / 2,
        c.log_scale == 0,
        c.wf(),
{
    Camera {
        position: Vec2 { x: view_w / 2, y: view_h / 2 },
        log_scale: 0,
    }
}

/// Pan pass: move the camera one fixed step per held directional key,
/// each key applied independently within the tick.  The zoom is
/// untouched.
pub fn camera_control_pan(camera: &mut Camera, up: bool, down: bool, left: bool, right: bool)
    requires
        old(camera).wf(),
    ensures
        final(camera).position.x == spec_panned(old(camera).position.x as int, right, left),
        final(camera).position.y == spec_panned(old(camera).position.y as int, up, down),
        final(camera).log_scale == old(camera).log_scale,
{
    if up {
        camera.position.y = camera.position.y + CAMERA_PAN_STEP;
    }
    if down {
        camera.position.y = camera.position.y - CAMERA_PAN_STEP;
    }
    if left {
        camera.position.x = camera.position.x - CAMERA_PAN_STEP;
    }
    if right {
        camera.position.x = camera.position.x + CAMERA_PAN_STEP;
    }
}

/// Zoom pass: shift the stored log-scale by the tick's log-space
/// distance, inward while the zoom-in key is held and outward while the
/// zoom-out key is held.  The position is untouched.  Working in log
/// space keeps the zoom multiplicative per second of key hold and keeps
/// the denoted scale — the exponential of the log — strictly positive.
pub fn camera_control_zoom(camera: &mut Camera, zoom_in: bool, zoom_out: bool, dt_ms: i64)
    requires
        old(camera).wf(),
        0 <= dt_ms <= MAX_TICK_MS,
    ensures
        final(camera).log_scale == spec_zoomed(
            old(camera).log_scale as int, zoom_in, zoom_out, dt_ms as int),
        final(camera).position == old(camera).position,
{
    let dist: i64 = CAMERA_SPEED_PER_SEC * dt_ms * LOG_MICROS_PER_MILLI;
    let mut log_scale: i64 = camera.log_scale;
    if zoom_in {
        log_scale = log_scale - dist;
    }
    if zoom_out {
        log_scale = log_scale + dist;
    }
    camera.log_scale = log_scale;
}

/// Opposite pan keys held together cancel exactly: applying both the
/// forward and the backward step leaves the coordinate unchanged.
pub proof fn lemma_opposite_pan_keys_cancel(p: int)
    ensures
        spec_panned(p, true, true) == p,
{
}

/// The log-space round trip is exact: zooming in for one tick and then
/// out for a tick of the same length returns the log-scale — and so the
/// scale it denotes — to exactly its original value.
pub proof fn lemma_zoom_round_trip(l: int, dt_ms: int)
    ensures
        spec_zoomed(spec_zoomed(l, true, false, dt_ms), false, true, dt_ms) == l,
{
}

} // verus!
