use bouncing_boxes::{
    camera_control_pan, camera_control_zoom, setup_ocean, spawn_camera, spawn_text_boxes,
    text_box_label, Camera, SpawnSample, Vec2, CAMERA_PAN_STEP, SUBPIXELS_PER_PIXEL,
};

const VIEW_W: i64 = 800 * SUBPIXELS_PER_PIXEL;
const VIEW_H: i64 = 600 * SUBPIXELS_PER_PIXEL;

#[test]
fn camera_spawns_centred_at_scale_one() {
    let c = spawn_camera(VIEW_W, VIEW_H);
    assert_eq!(c.position, Vec2 { x: 400_000, y: 300_000 });
    assert_eq!(c.log_scale, 0);
}

#[test]
fn pan_moves_one_step_per_held_key() {
    let mut c = spawn_camera(VIEW_W, VIEW_H);
    camera_control_pan(&mut c, true, false, false, false);
    assert_eq!(c.position, Vec2 { x: 400_000, y: 300_000 + CAMERA_PAN_STEP });
    camera_control_pan(&mut c, false, false, true, false);
    assert_eq!(c.position, Vec2 { x: 400_000 - CAMERA_PAN_STEP, y: 300_000 + CAMERA_PAN_STEP });
    camera_control_pan(&mut c, false, true, false, true);
    assert_eq!(c.position, Vec2 { x: 400_000, y: 300_000 });
}

#[test]
fn opposite_pan_keys_cancel() {
    let mut c = spawn_camera(VIEW_W, VIEW_H);
    camera_control_pan(&mut c, true, true, true, true);
    assert_eq!(c.position, Vec2 { x: 400_000, y: 300_000 });
}

#[test]
fn pan_does_not_touch_zoom_and_zoom_does_not_touch_pan() {
    let mut c = Camera { position: Vec2 { x: 1_000, y: 2_000 }, log_scale: 77 };
    camera_control_pan(&mut c, true, false, false, false);
    assert_eq!(c.log_scale, 77);
    camera_control_zoom(&mut c, true, false, 16);
    assert_eq!(c.position, Vec2 { x: 1_000, y: 2_000 + CAMERA_PAN_STEP });
}

#[test]
fn zoom_steps_are_exact_in_log_space() {
    // rate 1 log unit per second: 16 ms shifts the micro-log scale by 16000.
    let mut c = spawn_camera(VIEW_W, VIEW_H);
    camera_control_zoom(&mut c, true, false, 16);
    assert_eq!(c.log_scale, -16_000);
    camera_control_zoom(&mut c, false, true, 10);
    assert_eq!(c.log_scale, -6_000);
    // both keys held: the tick cancels out
    camera_control_zoom(&mut c, true, true, 500);
    assert_eq!(c.log_scale, -6_000);
}

#[test]
fn zoom_round_trip_returns_the_exact_scale() {
    // Holding zoom-in for some ticks and zoom-out for ticks of the same
    // total length returns the log scale, and so the scale, exactly.
    let mut c = spawn_camera(VIEW_W, VIEW_H);
    let original = c.log_scale;
    for _ in 0..60 {
        camera_control_zoom(&mut c, true, false, 17);
    }
    assert_ne!(c.log_scale, original);
    for _ in 0..60 {
        camera_control_zoom(&mut c, false, true, 17);
    }
    assert_eq!(c.log_scale, original);
}

#[test]
fn labels_cycle_in_order_and_a_fifth_box_reuses_the_first() {
    assert_eq!(text_box_label(0), "Josh");
    assert_eq!(text_box_label(1), "Almie");
    assert_eq!(text_box_label(2), "redbeard");
    assert_eq!(text_box_label(3), "github.com");
    assert_eq!(text_box_label(4), "Josh");
    assert_eq!(text_box_label(5), "Almie");
}

#[test]
fn ocean_covers_the_whole_viewport() {
    let b = setup_ocean(VIEW_W, VIEW_H);
    assert_eq!(b.center, Vec2 { x: 400_000, y: 300_000 });
    assert_eq!(b.width, VIEW_W);
    assert_eq!(b.height, VIEW_H);
}

#[test]
fn spawned_boxes_take_their_samples_and_start_unhovered() {
    let samples = vec![
        SpawnSample { pos_x: 100_000, pos_y: 200_000, dir_x: 707, dir_y: -707 },
        SpawnSample { pos_x: 0, pos_y: VIEW_H, dir_x: -1000, dir_y: 0 },
    ];
    let boxes = spawn_text_boxes(VIEW_W, VIEW_H, &samples);
    assert_eq!(boxes.len(), 2);
    assert_eq!(boxes[0].position, Vec2 { x: 100_000, y: 200_000 });
    assert_eq!(boxes[0].direction, Vec2 { x: 707, y: -707 });
    assert!(!boxes[0].is_hovered);
    assert_eq!(boxes[1].position, Vec2 { x: 0, y: VIEW_H });
    assert_eq!(boxes[1].direction, Vec2 { x: -1000, y: 0 });
    assert!(!boxes[1].is_hovered);
}
