//! The three per-tick update passes over the text boxes, in the order the
//! frame loop runs them: motion, direction reflection, position clamping.
//!
//! The two axes are fully independent, so the model is stated once per
//! axis: `spec_moved` advances a coordinate, `spec_reflected` flips a
//! direction component when the coordinate has crossed an inset bound, and
//! `spec_clamped` pulls the coordinate back into the inset range.  The
//! update passes promise, entity by entity and axis by axis, exactly these
//! functions of the old state.

use vstd::prelude::*;
use vstd::pervasive::VecAdditionalExecFns;
use crate::text_box::{
    TextBox, Vec2, DIR_SCALE, HALF_TEXT_BOX_SIZE, MAX_TICK_MS, TEXT_BOXES_SPEED,
    valid_viewport,
};

verus! {

/// How far a coordinate travels in one tick: the direction component
/// (unit vector scaled by `DIR_SCALE`) times the speed in pixels per
/// second times the tick length in milliseconds, divided back by the
/// direction scale.  The quotient truncates toward zero, so the formula
/// is split on the sign of the component.  The result is in sub-pixels.
pub open spec fn spec_axis_displacement(d: int, dt_ms: int) -> int {
    if d >= 0 {
        (d * TEXT_BOXES_SPEED * dt_ms) / (DIR_SCALE as int)
    } else {
        -(((-d) * TEXT_BOXES_SPEED * dt_ms) / (DIR_SCALE as int))
    }
}

/// A coordinate after the motion pass: advanced by its displacement,
/// unless the box is hovered, which pauses it.
pub open spec fn spec_moved(p: int, d: int, hovered: bool, dt_ms: int) -> int {
    if hovered {
        p
    } else {
        p + spec_axis_displacement(d, dt_ms)
    }
}

/// Whether a coordinate lies outside the closed inset range `[lo, hi]`.
pub open spec fn spec_out_of_range(p: int, lo: int, hi: int) -> bool {
    p < lo || p > hi
}

/// A direction component after the reflection pass: negated exactly when
/// its coordinate has left the inset range, otherwise untouched.
pub open spec fn spec_reflected(p: int, d: int, lo: int, hi: int) -> int {
    if spec_out_of_range(p, lo, hi) {
        -d
    } else {
        d
    }
}

/// A coordinate after the confinement pass: clamped into `[lo, hi]`.
pub open spec fn spec_clamped(p: int, lo: int, hi: int) -> int {
    if p < lo {
        lo
    } else if p > hi {
        hi
    } else {
        p
    }
}

/// One whole tick of one axis: motion, then reflection against the moved
/// coordinate, then clamping of the moved coordinate.  Returns the new
/// (coordinate, direction component) pair.
pub open spec fn spec_tick_axis(
    p: int,
    d: int,
    hovered: bool,
    lo: int,
    hi: int,
    dt_ms: int,
) -> (int, int) {
    let m = spec_moved(p, d, hovered, dt_ms);
    (spec_clamped(m, lo, hi), spec_reflected(m, d, lo, hi))
}

/// A whole sequence of ticks of one axis, oldest tick first.
pub open spec fn spec_run_ticks_axis(
    p: int,
    d: int,
    hovered: bool,
    lo: int,
    hi: int,
    dts: Seq<int>,
) -> (int, int)
    decreases dts.len(),
{
    if dts.len() == 0 {
        (p, d)
    } else {
        let stepped = spec_tick_axis(p, d, hovered, lo, hi, dts[0]);
        spec_run_ticks_axis(stepped.0, stepped.1, hovered, lo, hi, dts.skip(1))
    }
}

/// The displacement of one tick never exceeds the speed times the tick
/// length (in sub-pixels), whatever the direction component.
pub proof fn lemma_axis_displacement_bounds(d: int, dt_ms: int)
    requires
        -DIR_SCALE <= d <= DIR_SCALE,
        0 <= dt_ms <= MAX_TICK_MS,
    ensures
        -TEXT_BOXES_SPEED * dt_ms <= spec_axis_displacement(d, dt_ms) <= TEXT_BOXES_SPEED * dt_ms,
{
    if d >= 0 {
        assert(d * TEXT_BOXES_SPEED * dt_ms <= DIR_SCALE * TEXT_BOXES_SPEED * dt_ms)
            by (nonlinear_arith)
            requires 0 <= d <= DIR_SCALE && 0 <= dt_ms;
        assert(0 <= d * TEXT_BOXES_SPEED * dt_ms) by (nonlinear_arith)
            requires 0 <= d && 0 <= dt_ms;
        assert((d * TEXT_BOXES_SPEED * dt_ms) / (DIR_SCALE as int) <= TEXT_BOXES_SPEED * dt_ms)
            by (nonlinear_arith)
            requires
                0 <= d * TEXT_BOXES_SPEED * dt_ms <= DIR_SCALE * TEXT_BOXES_SPEED * dt_ms,
                0 <= TEXT_BOXES_SPEED * dt_ms;
        assert(0 <= (d * TEXT_BOXES_SPEED * dt_ms) / (DIR_SCALE as int)) by (nonlinear_arith)
            requires 0 <= d * TEXT_BOXES_SPEED * dt_ms;
    } else {
        let n = -d;
        assert(n * TEXT_BOXES_SPEED * dt_ms <= DIR_SCALE * TEXT_BOXES_SPEED * dt_ms)
            by (nonlinear_arith)
            requires 0 <= n <= DIR_SCALE && 0 <= dt_ms;
        assert(0 <= n * TEXT_BOXES_SPEED * dt_ms) by (nonlinear_arith)
            requires 0 <= n && 0 <= dt_ms;
        assert((n * TEXT_BOXES_SPEED * dt_ms) / (DIR_SCALE as int) <= TEXT_BOXES_SPEED * dt_ms)
            by (nonlinear_arith)
            requires
                0 <= n * TEXT_BOXES_SPEED * dt_ms <= DIR_SCALE * TEXT_BOXES_SPEED * dt_ms,
                0 <= TEXT_BOXES_SPEED * dt_ms;
        assert(0 <= (n * TEXT_BOXES_SPEED * dt_ms) / (DIR_SCALE as int)) by (nonlinear_arith)
            requires 0 <= n * TEXT_BOXES_SPEED * dt_ms;
    }
}

/// One direction component's step of one tick, in executable form.
fn axis_displacement(d: i64, dt_ms: i64) -> (r: i64)
    requires
        -DIR_SCALE <= d <= DIR_SCALE,
        0 <= dt_ms <= MAX_TICK_MS,
    ensures
        r == spec_axis_displacement(d as int, dt_ms as int),
        -TEXT_BOXES_SPEED * dt_ms <= r <= TEXT_BOXES_SPEED * dt_ms,
{
    proof {
        lemma_axis_displacement_bounds(d as int, dt_ms as int);
    }
    if d >= 0 {
        proof {
            assert(0 <= d * TEXT_BOXES_SPEED * dt_ms <= DIR_SCALE * TEXT_BOXES_SPEED * MAX_TICK_MS)
                by (nonlinear_arith)
                requires 0 <= d <= DIR_SCALE && 0 <= dt_ms <= MAX_TICK_MS;
        }
        (d * TEXT_BOXES_SPEED * dt_ms) / DIR_SCALE
    } else {
        let n: i64 = -d;
        proof {
            assert(0 <= n * TEXT_BOXES_SPEED * dt_ms <= DIR_SCALE * TEXT_BOXES_SPEED * MAX_TICK_MS)
                by (nonlinear_arith)
                requires 0 <= n <= DIR_SCALE && 0 <= dt_ms <= MAX_TICK_MS;
        }
        -((n * TEXT_BOXES_SPEED * dt_ms) / DIR_SCALE)
    }
}

/// Motion pass: advance every non-hovered box along its direction at the
/// fixed speed, scaled by the tick length; hovered boxes stand still.
/// Directions and hover flags are untouched.
pub fn text_boxes_movement(boxes: &mut Vec<TextBox>, dt_ms: i64)
    requires
        0 <= dt_ms <= MAX_TICK_MS,
        forall|i: int| 0 <= i < old(boxes)@.len() ==> old(boxes)@[i].wf(),
    ensures
        final(boxes)@.len() == old(boxes)@.len(),
        forall|i: int| 0 <= i < old(boxes)@.len() ==> {
            let b = old(boxes)@[i];
            let nb = #[trigger] final(boxes)@[i];
            &&& nb.position.x == spec_moved(
                b.position.x as int, b.direction.x as int, b.is_hovered, dt_ms as int)
            &&& nb.position.y == spec_moved(
                b.position.y as int, b.direction.y as int, b.is_hovered, dt_ms as int)
            &&& nb.direction == b.direction
            &&& nb.is_hovered == b.is_hovered
        },
{
    let n: usize = boxes.len();
    let mut i: usize = 0;
    while i < n
        invariant
            n == old(boxes)@.len(),
            0 <= i <= n,
            0 <= dt_ms <= MAX_TICK_MS,
            boxes@.len() == n,
            forall|j: int| 0 <= j < n ==> old(boxes)@[j].wf(),
            forall|j: int| i <= j < n ==> boxes@[j] == old(boxes)@[j],
            forall|j: int| 0 <= j < i ==> {
                let b = old(boxes)@[j];
                let nb = #[trigger] boxes@[j];
                &&& nb.position.x == spec_moved(
                    b.position.x as int, b.direction.x as int, b.is_hovered, dt_ms as int)
                &&& nb.position.y == spec_moved(
                    b.position.y as int, b.direction.y as int, b.is_hovered, dt_ms as int)
                &&& nb.direction == b.direction
                &&& nb.is_hovered == b.is_hovered
            },
        decreases n - i,
    {
        let b = boxes[i];
        if !b.is_hovered {
            let dx: i64 = axis_displacement(b.direction.x, dt_ms);
            let dy: i64 = axis_displacement(b.direction.y, dt_ms);
            let nb = TextBox {
                position: Vec2 { x: b.position.x + dx, y: b.position.y + dy },
                ..b
            };
            boxes.set(i, nb);
        }
        i = i + 1;
    }
}

/// Reflection pass: for every box, negate the x component of its
/// direction exactly when its x coordinate lies outside the inset range,
/// and likewise for y.  Positions and hover flags are untouched.
pub fn update_text_boxes_direction(boxes: &mut Vec<TextBox>, view_w: i64, view_h: i64)
    requires
        valid_viewport(view_w as int, view_h as int),
        forall|i: int| 0 <= i < old(boxes)@.len() ==>
            -DIR_SCALE <= #[trigger] old(boxes)@[i].direction.x <= DIR_SCALE
            && -DIR_SCALE <= old(boxes)@[i].direction.y <= DIR_SCALE,
    ensures
        final(boxes)@.len() == old(boxes)@.len(),
        forall|i: int| 0 <= i < old(boxes)@.len() ==> {
            let b = old(boxes)@[i];
            let nb = #[trigger] final(boxes)@[i];
            &&& nb.direction.x == spec_reflected(
                b.position.x as int, b.direction.x as int,
                HALF_TEXT_BOX_SIZE as int, view_w - HALF_TEXT_BOX_SIZE)
            &&& nb.direction.y == spec_reflected(
                b.position.y as int, b.direction.y as int,
                HALF_TEXT_BOX_SIZE as int, view_h - HALF_TEXT_BOX_SIZE)
            &&& nb.position == b.position
            &&& nb.is_hovered == b.is_hovered
        },
{
    let x_min: i64 = HALF_TEXT_BOX_SIZE;
    let x_max: i64 = view_w - HALF_TEXT_BOX_SIZE;
    let y_min: i64 = HALF_TEXT_BOX_SIZE;
    let y_max: i64 = view_h - HALF_TEXT_BOX_SIZE;
    let n: usize = boxes.len();
    let mut i: usize = 0;
    while i < n
        invariant
            n == old(boxes)@.len(),
            0 <= i <= n,
            boxes@.len() == n,
            x_min == HALF_TEXT_BOX_SIZE,
            x_max == view_w - HALF_TEXT_BOX_SIZE,
            y_min == HALF_TEXT_BOX_SIZE,
            y_max == view_h - HALF_TEXT_BOX_SIZE,
            forall|j: int| 0 <= j < n ==>
                -DIR_SCALE <= #[trigger] old(boxes)@[j].direction.x <= DIR_SCALE
                && -DIR_SCALE <= old(boxes)@[j].direction.y <= DIR_SCALE,
            forall|j: int| i <= j < n ==> boxes@[j] == old(boxes)@[j],
            forall|j: int| 0 <= j < i ==> {
                let b = old(boxes)@[j];
                let nb = #[trigger] boxes@[j];
                &&& nb.direction.x == spec_reflected(
                    b.position.x as int, b.direction.x as int,
                    x_min as int, x_max as int)
                &&& nb.direction.y == spec_reflected(
                    b.position.y as int, b.direction.y as int,
                    y_min as int, y_max as int)
                &&& nb.position == b.position
                &&& nb.is_hovered == b.is_hovered
            },
        decreases n - i,
    {
        let b = boxes[i];
        let mut nb = b;
        if b.position.x < x_min || b.position.x > x_max {
            nb.direction.x = -b.direction.x;
        }
        if b.position.y < y_min || b.position.y > y_max {
            nb.direction.y = -b.direction.y;
        }
        boxes.set(i, nb);
        i = i + 1;
    }
}

/// Confinement pass: clamp every box's position into the inset viewport
/// rectangle.  Directions and hover flags are untouched; afterwards every
/// box is fully on screen.
pub fn confine_text_boxes_movement(boxes: &mut Vec<TextBox>, view_w: i64, view_h: i64)
    requires
        valid_viewport(view_w as int, view_h as int),
    ensures
        final(boxes)@.len() == old(boxes)@.len(),
        forall|i: int| 0 <= i < old(boxes)@.len() ==> {
            let b = old(boxes)@[i];
            let nb = #[trigger] final(boxes)@[i];
            &&& nb.position.x == spec_clamped(
                b.position.x as int, HALF_TEXT_BOX_SIZE as int, view_w - HALF_TEXT_BOX_SIZE)
            &&& nb.position.y == spec_clamped(
                b.position.y as int, HALF_TEXT_BOX_SIZE as int, view_h - HALF_TEXT_BOX_SIZE)
            &&& nb.direction == b.direction
            &&& nb.is_hovered == b.is_hovered
        },
        forall|i: int| 0 <= i < final(boxes)@.len() ==>
            (#[trigger] final(boxes)@[i]).in_bounds(view_w as int, view_h as int),
{
    let x_min: i64 = HALF_TEXT_BOX_SIZE;
    let x_max: i64 = view_w - HALF_TEXT_BOX_SIZE;
    let y_min: i64 = HALF_TEXT_BOX_SIZE;
    let y_max: i64 = view_h - HALF_TEXT_BOX_SIZE;
    let n: usize = boxes.len();
    let mut i: usize = 0;
    while i < n
        invariant
            n == old(boxes)@.len(),
            0 <= i <= n,
            boxes@.len() == n,
            x_min == HALF_TEXT_BOX_SIZE,
            x_max == view_w - HALF_TEXT_BOX_SIZE,
            y_min == HALF_TEXT_BOX_SIZE,
            y_max == view_h - HALF_TEXT_BOX_SIZE,
            x_min <= x_max,
            y_min <= y_max,
            forall|j: int| i <= j < n ==> boxes@[j] == old(boxes)@[j],
            forall|j: int| 0 <= j < i ==> {
                let b = old(boxes)@[j];
                let nb = #[trigger] boxes@[j];
                &&& nb.position.x == spec_clamped(
                    b.position.x as int, x_min as int, x_max as int)
                &&& nb.position.y == spec_clamped(
                    b.position.y as int, y_min as int, y_max as int)
                &&& nb.direction == b.direction
                &&& nb.is_hovered == b.is_hovered
            },
        decreases n - i,
    {
        let b = boxes[i];
        let mut nb = b;
        if b.position.x < x_min {
            nb.position.x = x_min;
        } else if b.position.x > x_max {
            nb.position.x = x_max;
        }
        if b.position.y < y_min {
            nb.position.y = y_min;
        } else if b.position.y > y_max {
            nb.position.y = y_max;
        }
        boxes.set(i, nb);
        i = i + 1;
    }
}

/// One whole frame tick over the entity set, in the order the frame loop
/// declares: motion, then direction reflection, then confinement.  Every
/// box ends the tick exactly at `spec_tick_axis` of its old state on each
/// axis, fully inside the inset viewport rectangle, and well formed again.
pub fn tick_text_boxes(boxes: &mut Vec<TextBox>, view_w: i64, view_h: i64, dt_ms: i64)
    requires
        valid_viewport(view_w as int, view_h as int),
        0 <= dt_ms <= MAX_TICK_MS,
        forall|i: int| 0 <= i < old(boxes)@.len() ==> old(boxes)@[i].wf(),
    ensures
        final(boxes)@.len() == old(boxes)@.len(),
        forall|i: int| 0 <= i < old(boxes)@.len() ==> {
            let b = old(boxes)@[i];
            let nb = #[trigger] final(boxes)@[i];
            let tx = spec_tick_axis(
                b.position.x as int, b.direction.x as int, b.is_hovered,
                HALF_TEXT_BOX_SIZE as int, view_w - HALF_TEXT_BOX_SIZE, dt_ms as int);
            let ty = spec_tick_axis(
                b.position.y as int, b.direction.y as int, b.is_hovered,
                HALF_TEXT_BOX_SIZE as int, view_h - HALF_TEXT_BOX_SIZE, dt_ms as int);
            &&& nb.position.x == tx.0
            &&& nb.direction.x == tx.1
            &&& nb.position.y == ty.0
            &&& nb.direction.y == ty.1
            &&& nb.is_hovered == b.is_hovered
            &&& nb.in_bounds(view_w as int, view_h as int)
            &&& nb.wf()
        },
{
    text_boxes_movement(boxes, dt_ms);
    update_text_boxes_direction(boxes, view_w, view_h);
    confine_text_boxes_movement(boxes, view_w, view_h);
}

/// Clamping really confines: for any coordinate, the clamped value lies
/// in the inset range, as long as the range is non-empty.
pub proof fn lemma_confine_in_bounds(p: int, lo: int, hi: int)
    requires
        lo <= hi,
    ensures
        lo <= spec_clamped(p, lo, hi) <= hi,
{
}

/// The screen-bound invariant for one tick: whatever a box's coordinate
/// and direction were, after one whole tick the coordinate lies in the
/// inset range, because confinement runs last.
pub proof fn lemma_tick_in_bounds(p: int, d: int, hovered: bool, lo: int, hi: int, dt_ms: int)
    requires
        lo <= hi,
    ensures
        lo <= spec_tick_axis(p, d, hovered, lo, hi, dt_ms).0 <= hi,
{
    lemma_confine_in_bounds(spec_moved(p, d, hovered, dt_ms), lo, hi);
}

/// The screen-bound invariant for any run: after any non-empty sequence
/// of ticks, a box's coordinate lies in the inset range, whatever state
/// it started from.
pub proof fn lemma_run_ticks_in_bounds(
    p: int,
    d: int,
    hovered: bool,
    lo: int,
    hi: int,
    dts: Seq<int>,
)
    requires
        lo <= hi,
        dts.len() > 0,
    ensures
        lo <= spec_run_ticks_axis(p, d, hovered, lo, hi, dts).0 <= hi,
    decreases dts.len(),
{
    let stepped = spec_tick_axis(p, d, hovered, lo, hi, dts[0]);
    if dts.len() == 1 {
        lemma_tick_in_bounds(p, d, hovered, lo, hi, dts[0]);
        assert(spec_run_ticks_axis(stepped.0, stepped.1, hovered, lo, hi, dts.skip(1))
            == (stepped.0, stepped.1));
    } else {
        lemma_run_ticks_in_bounds(stepped.0, stepped.1, hovered, lo, hi, dts.skip(1));
    }
}

/// Within one reflection pass a direction component is negated exactly
/// once when its coordinate has crossed a bound, and not at all
/// otherwise: there is no double flip inside a tick.
pub proof fn lemma_reflect_flips_exactly_once(p: int, d: int, lo: int, hi: int)
    ensures
        spec_out_of_range(p, lo, hi) ==> spec_reflected(p, d, lo, hi) == -d,
        !spec_out_of_range(p, lo, hi) ==> spec_reflected(p, d, lo, hi) == d,
{
}

/// No flip carries over to the next tick: once a coordinate has been
/// clamped into the inset range, a reflection pass run on it leaves the
/// direction component as it is (the clamped coordinate is in range, and
/// reflection only acts out of range).
pub proof fn lemma_confined_box_keeps_direction(p: int, d: int, lo: int, hi: int)
    requires
        lo <= hi,
    ensures
        spec_reflected(spec_clamped(p, lo, hi), d, lo, hi) == d,
{
}

/// Over any whole run of ticks a direction component is only ever
/// negated, never rescaled: it ends as itself or its negation, so the
/// direction's magnitude is invariant over the box's whole lifetime.
pub proof fn lemma_run_ticks_direction_magnitude(
    p: int,
    d: int,
    hovered: bool,
    lo: int,
    hi: int,
    dts: Seq<int>,
)
    ensures
        spec_run_ticks_axis(p, d, hovered, lo, hi, dts).1 == d
            || spec_run_ticks_axis(p, d, hovered, lo, hi, dts).1 == -d,
    decreases dts.len(),
{
    if dts.len() > 0 {
        let stepped = spec_tick_axis(p, d, hovered, lo, hi, dts[0]);
        lemma_run_ticks_direction_magnitude(stepped.0, stepped.1, hovered, lo, hi, dts.skip(1));
    }
}

/// Reflection preserves the squared magnitude of the direction vector
/// exactly: it only negates components.
pub proof fn lemma_reflect_preserves_magnitude(
    px: int,
    py: int,
    dx: int,
    dy: int,
    x_lo: int,
    x_hi: int,
    y_lo: int,
    y_hi: int,
)
    ensures
        spec_reflected(px, dx, x_lo, x_hi) * spec_reflected(px, dx, x_lo, x_hi)
            + spec_reflected(py, dy, y_lo, y_hi) * spec_reflected(py, dy, y_lo, y_hi)
            == dx * dx + dy * dy,
{
    assert((-dx) * (-dx) == dx * dx) by (nonlinear_arith);
    assert((-dy) * (-dy) == dy * dy) by (nonlinear_arith);
}

} // verus!
