//! Motion, reflection and confinement logic for a set of bouncing,
//! text-labelled boxes, together with a pannable, log-space-zoomable camera.
//!
//! All geometry is carried in integer sub-pixel units (1000 sub-pixels per
//! pixel) so that every update rule is exact: positions advance along a
//! stored direction vector at a fixed speed, directions reflect off the
//! viewport edges, and positions are clamped into the inset viewport
//! rectangle at the end of every tick.  The camera stores its zoom as the
//! natural logarithm of the scale factor in micro-units, so additive zoom
//! steps compose exactly and every representable scale is the exponential
//! of some log value.  Rendering, window management and randomness live
//! outside this crate and hand in plain integer values.

mod text_box;
mod motion;
mod camera;
mod spawn;

pub use motion::{
    spec_axis_displacement, spec_moved, spec_out_of_range, spec_reflected,
    spec_clamped, spec_tick_axis, spec_run_ticks_axis,
    lemma_axis_displacement_bounds,
    text_boxes_movement, update_text_boxes_direction, confine_text_boxes_movement,
    tick_text_boxes, lemma_confine_in_bounds, lemma_tick_in_bounds,
    lemma_run_ticks_in_bounds, lemma_reflect_flips_exactly_once,
    lemma_confined_box_keeps_direction, lemma_reflect_preserves_magnitude,
    lemma_run_ticks_direction_magnitude,
};
pub use camera::{
    Camera, LOG_MICROS_PER_MILLI, LOG_SCALE_LIMIT, CAMERA_POS_LIMIT,
    spec_panned, spec_zoom_distance, spec_zoomed,
    spawn_camera, camera_control_pan, camera_control_zoom,
    lemma_opposite_pan_keys_cancel, lemma_zoom_round_trip,
};
pub use spawn::{
    SpawnSample, Backdrop, NUMBER_OF_LABELS, sample_valid,
    spawn_text_boxes, text_box_label, setup_ocean,
};
pub use text_box::{
    Vec2, TextBox, Music, NUMBER_OF_TEXT_BOXES, TEXT_BOXES_SPEED, TEXT_BOXES_SIZE,
    HALF_TEXT_BOX_SIZE, SUBPIXELS_PER_PIXEL, DIR_SCALE, CAMERA_SPEED_PER_SEC,
    CAMERA_PAN_STEP, MAX_TICK_MS, MAX_VIEWPORT, POS_LIMIT, valid_viewport,
};
