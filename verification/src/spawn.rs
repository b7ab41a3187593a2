//! The startup passes: the backdrop, and the initial set of text boxes.
//!
//! Randomness stays outside the crate: the caller draws one sample per
//! box — a position inside the viewport and a scaled unit direction — and
//! hands the plain integer values in.  Spawning itself is deterministic:
//! box `i` takes sample `i`'s position and direction, starts un-hovered,
//! and carries the label of index `i` from the fixed label cycle.

use vstd::prelude::*;
use crate::text_box::{DIR_SCALE, TextBox, Vec2, valid_viewport};

verus! {

/// How many distinct labels the spawn pass cycles through.
pub const NUMBER_OF_LABELS: usize = 4;

/// One random draw for one text box: a position inside the viewport, in
/// sub-pixels, and a direction as a unit vector scaled by `DIR_SCALE`.
#[derive(Clone, Copy, PartialEq, Eq, Structural, Debug)]
pub struct SpawnSample {
    pub pos_x: i64,
    pub pos_y: i64,
    pub dir_x: i64,
    pub dir_y: i64,
}

/// A sample the spawn pass accepts: position within the viewport and
/// direction components within the unit scale.
pub open spec fn sample_valid(s: SpawnSample, view_w: int, view_h: int) -> bool {
    &&& 0 <= s.pos_x <= view_w
    &&& 0 <= s.pos_y <= view_h
    &&& -DIR_SCALE <= s.dir_x <= DIR_SCALE
    &&& -DIR_SCALE <= s.dir_y <= DIR_SCALE
}

/// The backdrop sprite's geometry: a rectangle covering the whole
/// viewport, centred on it.
#[derive(Clone, Copy, PartialEq, Eq, Structural, Debug)]
pub struct Backdrop {
    pub center: Vec2,
    pub width: i64,
    pub height: i64,
}

/// The label rendered on the text box of the given spawn index: the
/// fixed list of labels, cycled by index.  A fifth box reuses the first
/// label.
pub fn text_box_label(index: usize) -> (r: &'static str)
    ensures
        (index as int) % (NUMBER_OF_LABELS as int) == 0 ==> r@ == "Josh"@,
        (index as int) % (NUMBER_OF_LABELS as int) == 1 ==> r@ == "Almie"@,
        (index as int) % (NUMBER_OF_LABELS as int) == 2 ==> r@ == "redbeard"@,
        (index as int) % (NUMBER_OF_LABELS as int) == 3 ==> r@ == "github.com"@,
{
    let m: usize = index % NUMBER_OF_LABELS;
    if m == 0 {
        "Josh"
    } else if m == 1 {
        "Almie"
    } else if m == 2 {
        "redbeard"
    } else {
        "github.com"
    }
}

/// Create the startup backdrop: a rectangle the size of the viewport,
/// placed at its centre.
pub fn setup_ocean(view_w: i64, view_h: i64) -> (b: Backdrop)
    requires
        valid_viewport(view_w as int, view_h as int),
    ensures
        b.center.x == view_w as int / 2,
        b.center.y == view_h as int / 2,
        b.width == view_w,
        b.height == view_h,
{
    Backdrop {
        center: Vec2 { x: view_w / 2, y: view_h / 2 },
        width: view_w,
        height: view_h,
    }
}

/// Create the startup text boxes, one per sample: box `i` stands at
/// sample `i`'s position, travels in sample `i`'s direction, and starts
/// un-hovered.  Every spawned box is well formed.
pub fn spawn_text_boxes(view_w: i64, view_h: i64, samples: &Vec<SpawnSample>) -> (r: Vec<TextBox>)
    requires
        valid_viewport(view_w as int, view_h as int),
        forall|i: int| 0 <= i < samples@.len() ==>
            sample_valid(#[trigger] samples@[i], view_w as int, view_h as int),
    ensures
        r@.len() == samples@.len(),
        forall|i: int| 0 <= i < samples@.len() ==> {
            let s = samples@[i];
            let b = #[trigger] r@[i];
            &&& b.position.x == s.pos_x
            &&& b.position.y == s.pos_y
            &&& b.direction.x == s.dir_x
            &&& b.direction.y == s.dir_y
            &&& b.is_hovered == false
            &&& b.wf()
        },
{
    let n: usize = samples.len();
    let mut r: Vec<TextBox> = Vec::new();
    let mut i: usize = 0;
    while i < n
        invariant
            n == samples@.len(),
            0 <= i <= n,
            r@.len() == i,
            valid_viewport(view_w as int, view_h as int),
            forall|j: int| 0 <= j < n ==>
                sample_valid(#[trigger] samples@[j], view_w as int, view_h as int),
            forall|j: int| 0 <= j < i ==> {
                let s = samples@[j];
                let b = #[trigger] r@[j];
                &&& b.position.x == s.pos_x
                &&& b.position.y == s.pos_y
                &&& b.direction.x == s.dir_x
                &&& b.direction.y == s.dir_y
                &&& b.is_hovered == false
                &&& b.wf()
            },
        decreases n - i,
    {
        let s = samples[i];
        r.push(TextBox {
            position: Vec2 { x: s.pos_x, y: s.pos_y },
            direction: Vec2 { x: s.dir_x, y: s.dir_y },
            is_hovered: false,
        });
        i = i + 1;
    }
    r
}

} // verus!
