use bouncing_boxes::{
    confine_text_boxes_movement, tick_text_boxes, text_boxes_movement,
    update_text_boxes_direction, TextBox, Vec2, HALF_TEXT_BOX_SIZE, SUBPIXELS_PER_PIXEL,
};

fn boxed(px: i64, py: i64, dx: i64, dy: i64) -> TextBox {
    TextBox {
        position: Vec2 { x: px, y: py },
        direction: Vec2 { x: dx, y: dy },
        is_hovered: false,
    }
}

const VIEW_W: i64 = 800 * SUBPIXELS_PER_PIXEL;
const VIEW_H: i64 = 600 * SUBPIXELS_PER_PIXEL;

#[test]
fn movement_advances_along_direction() {
    // speed 200 px/s for 100 ms at direction (1000, -500):
    // x moves 20 px, y moves -10 px.
    let mut boxes = vec![boxed(100_000, 200_000, 1000, -500)];
    text_boxes_movement(&mut boxes, 100);
    assert_eq!(boxes[0].position.x, 120_000);
    assert_eq!(boxes[0].position.y, 190_000);
    assert_eq!(boxes[0].direction, Vec2 { x: 1000, y: -500 });
}

#[test]
fn movement_truncates_subpixel_remainder() {
    // dir -707 over 16 ms: -(707 * 200 * 16) / 1000 = -2262 sub-pixels.
    let mut boxes = vec![boxed(10_000, 10_000, -707, -707)];
    text_boxes_movement(&mut boxes, 16);
    assert_eq!(boxes[0].position.x, 7_738);
    assert_eq!(boxes[0].position.y, 7_738);
}

#[test]
fn movement_skips_hovered_box() {
    let mut boxes = vec![
        boxed(100_000, 100_000, 1000, 0),
        TextBox {
            position: Vec2 { x: 100_000, y: 100_000 },
            direction: Vec2 { x: 1000, y: 0 },
            is_hovered: true,
        },
    ];
    text_boxes_movement(&mut boxes, 50);
    assert_eq!(boxes[0].position.x, 110_000);
    assert_eq!(boxes[1].position.x, 100_000);
    assert!(boxes[1].is_hovered);
}

#[test]
fn movement_on_empty_set_is_a_noop() {
    let mut boxes: Vec<TextBox> = Vec::new();
    text_boxes_movement(&mut boxes, 16);
    assert!(boxes.is_empty());
    update_text_boxes_direction(&mut boxes, VIEW_W, VIEW_H);
    confine_text_boxes_movement(&mut boxes, VIEW_W, VIEW_H);
    assert!(boxes.is_empty());
}

#[test]
fn reflection_flips_only_the_crossed_axis() {
    // x below the inset minimum, y comfortably inside.
    let mut boxes = vec![boxed(10_000, 300_000, -600, 400)];
    update_text_boxes_direction(&mut boxes, VIEW_W, VIEW_H);
    assert_eq!(boxes[0].direction, Vec2 { x: 600, y: 400 });
    assert_eq!(boxes[0].position, Vec2 { x: 10_000, y: 300_000 });
}

#[test]
fn reflection_flips_both_axes_past_the_far_corner() {
    let mut boxes = vec![boxed(VIEW_W - 10_000, VIEW_H - 10_000, 600, 400)];
    update_text_boxes_direction(&mut boxes, VIEW_W, VIEW_H);
    assert_eq!(boxes[0].direction, Vec2 { x: -600, y: -400 });
}

#[test]
fn reflection_leaves_a_box_exactly_on_the_bound_alone() {
    // The check is strict: a coordinate equal to the inset bound is in range.
    let mut boxes = vec![
        boxed(HALF_TEXT_BOX_SIZE, HALF_TEXT_BOX_SIZE, -600, -400),
        boxed(VIEW_W - HALF_TEXT_BOX_SIZE, VIEW_H - HALF_TEXT_BOX_SIZE, 600, 400),
    ];
    update_text_boxes_direction(&mut boxes, VIEW_W, VIEW_H);
    assert_eq!(boxes[0].direction, Vec2 { x: -600, y: -400 });
    assert_eq!(boxes[1].direction, Vec2 { x: 600, y: 400 });
}

#[test]
fn reflection_preserves_squared_magnitude() {
    let mut boxes = vec![boxed(10_000, 10_000, -600, 800)];
    let before = 600i64 * 600 + 800 * 800;
    update_text_boxes_direction(&mut boxes, VIEW_W, VIEW_H);
    let d = boxes[0].direction;
    assert_eq!(d.x * d.x + d.y * d.y, before);
}

#[test]
fn confinement_clamps_into_the_inset_rectangle() {
    let mut boxes = vec![
        boxed(-50_000, 300_000, 0, 0),
        boxed(VIEW_W + 70_000, VIEW_H + 1, 0, 0),
        boxed(400_000, 300_000, 0, 0),
    ];
    confine_text_boxes_movement(&mut boxes, VIEW_W, VIEW_H);
    assert_eq!(boxes[0].position, Vec2 { x: HALF_TEXT_BOX_SIZE, y: 300_000 });
    assert_eq!(
        boxes[1].position,
        Vec2 { x: VIEW_W - HALF_TEXT_BOX_SIZE, y: VIEW_H - HALF_TEXT_BOX_SIZE }
    );
    // an already confined box does not move
    assert_eq!(boxes[2].position, Vec2 { x: 400_000, y: 300_000 });
}

#[test]
fn confinement_does_not_touch_direction() {
    let mut boxes = vec![boxed(-50_000, -50_000, -600, -400)];
    confine_text_boxes_movement(&mut boxes, VIEW_W, VIEW_H);
    assert_eq!(boxes[0].direction, Vec2 { x: -600, y: -400 });
}

#[test]
fn tick_scenario_corner_bounce() {
    // Viewport 800x600, box at (10, 10) px moving along normalized
    // (-1, -1), half size 32 px: one tick flips both axes to positive
    // and clamps the position to (32, 32) px.
    let mut boxes = vec![boxed(10 * SUBPIXELS_PER_PIXEL, 10 * SUBPIXELS_PER_PIXEL, -707, -707)];
    tick_text_boxes(&mut boxes, VIEW_W, VIEW_H, 16);
    assert_eq!(
        boxes[0].position,
        Vec2 { x: 32 * SUBPIXELS_PER_PIXEL, y: 32 * SUBPIXELS_PER_PIXEL }
    );
    assert_eq!(boxes[0].direction, Vec2 { x: 707, y: 707 });
}

#[test]
fn tick_keeps_every_box_on_screen_over_many_ticks() {
    let mut boxes = vec![
        boxed(10_000, 10_000, -707, -707),
        boxed(790_000, 590_000, 707, 707),
        boxed(400_000, 300_000, 1000, 0),
        boxed(400_000, 300_000, 0, -1000),
    ];
    for _ in 0..1000 {
        tick_text_boxes(&mut boxes, VIEW_W, VIEW_H, 16);
        for b in &boxes {
            assert!(HALF_TEXT_BOX_SIZE <= b.position.x);
            assert!(b.position.x <= VIEW_W - HALF_TEXT_BOX_SIZE);
            assert!(HALF_TEXT_BOX_SIZE <= b.position.y);
            assert!(b.position.y <= VIEW_H - HALF_TEXT_BOX_SIZE);
        }
    }
}

#[test]
fn tick_with_huge_delta_still_confines() {
    // A giant frame delta overshoots far past the bound; the direction
    // still flips once and the clamp pulls the box back on screen.
    let mut boxes = vec![boxed(400_000, 300_000, 1000, 0)];
    tick_text_boxes(&mut boxes, VIEW_W, VIEW_H, 1_000_000);
    assert_eq!(boxes[0].position.x, VIEW_W - HALF_TEXT_BOX_SIZE);
    assert_eq!(boxes[0].direction, Vec2 { x: -1000, y: 0 });
}

#[test]
fn tick_flips_direction_only_once_per_crossing() {
    // First tick: crossing flips the direction and the clamp re-enters
    // the range.  A second tick with no travel (hovered) must not flip
    // again: the clamped coordinate sits inside the inset range.
    let mut boxes = vec![boxed(10_000, 300_000, -707, 0)];
    tick_text_boxes(&mut boxes, VIEW_W, VIEW_H, 16);
    assert_eq!(boxes[0].direction, Vec2 { x: 707, y: 0 });
    boxes[0].is_hovered = true;
    tick_text_boxes(&mut boxes, VIEW_W, VIEW_H, 16);
    assert_eq!(boxes[0].direction, Vec2 { x: 707, y: 0 });
}
