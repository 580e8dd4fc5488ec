//! Scenario tests for the input controller state machine and the hit
//! tester. Coordinates are in fixed-point subunits: one pixel or document
//! unit is 1_000_000.

use vectorlab::fixedpoint::SCALE;
use vectorlab::hittest::{hit_test, Document};
use vectorlab::input::{InputController, InputEvent, KeyCode, MouseButton, WheelDelta};
use vectorlab::scheduler::RenderScheduler;
use vectorlab::transform::Point;
use vectorlab::viewport::ViewportState;

const PX: i64 = SCALE;

fn rig() -> (InputController, ViewportState, RenderScheduler) {
    (InputController::new(), ViewportState::new(), RenderScheduler::new())
}

fn moved(x: i64, y: i64) -> InputEvent {
    InputEvent::PointerMoved { x: x * PX, y: y * PX }
}

fn left(pressed: bool) -> InputEvent {
    InputEvent::PointerButton { button: MouseButton::Left, pressed }
}

#[test]
fn drag_round_trip_pans_by_pointer_delta() {
    let (mut c, mut vs, mut s) = rig();
    assert!(!c.handle_event(&mut vs, &mut s, left(true), false));
    assert!(!c.handle_event(&mut vs, &mut s, moved(50, 50), false));
    assert_eq!((vs.pan_x, vs.pan_y), (0, 0));
    assert!(!c.handle_event(&mut vs, &mut s, moved(80, 70), false));
    assert_eq!((vs.pan_x, vs.pan_y), (30 * PX, 20 * PX));
    assert!(!c.handle_event(&mut vs, &mut s, moved(80, 70), false));
    assert_eq!((vs.pan_x, vs.pan_y), (30 * PX, 20 * PX));
    assert!(!c.handle_event(&mut vs, &mut s, left(false), false));
    assert!(!c.handle_event(&mut vs, &mut s, moved(200, 200), false));
    assert_eq!((vs.pan_x, vs.pan_y), (30 * PX, 20 * PX));
}

#[test]
fn first_move_of_a_drag_only_sets_the_baseline() {
    let (mut c, mut vs, mut s) = rig();
    c.handle_event(&mut vs, &mut s, left(true), false);
    assert!(!s.is_dirty());
    c.handle_event(&mut vs, &mut s, moved(10, 10), false);
    assert!(!s.is_dirty());
    c.handle_event(&mut vs, &mut s, moved(11, 10), false);
    assert!(s.take_dirty());
    assert_eq!((vs.pan_x, vs.pan_y), (PX, 0));
}

#[test]
fn moves_while_idle_do_not_pan() {
    let (mut c, mut vs, mut s) = rig();
    c.handle_event(&mut vs, &mut s, moved(10, 10), false);
    c.handle_event(&mut vs, &mut s, moved(90, 40), false);
    assert_eq!((vs.pan_x, vs.pan_y), (0, 0));
    assert!(!s.is_dirty());
}

#[test]
fn wheel_zooms_toward_the_cursor_and_marks_dirty() {
    let (mut c, mut vs, mut s) = rig();
    c.handle_event(&mut vs, &mut s, moved(100, 100), false);
    let quit = c.handle_event(
        &mut vs,
        &mut s,
        InputEvent::Wheel { delta: WheelDelta::Lines(PX) },
        false,
    );
    assert!(!quit);
    // One line scrolled: factor 1.1.
    assert_eq!(vs.zoom, 1_100_000);
    // The anchor's document point is held: pan compensates.
    assert_eq!((vs.pan_x, vs.pan_y), (-10 * PX, -10 * PX));
    assert!(s.take_dirty());
}

#[test]
fn wheel_pixel_units_are_normalized_to_lines() {
    let (mut c1, mut vs1, mut s1) = rig();
    let (mut c2, mut vs2, mut s2) = rig();
    c1.handle_event(&mut vs1, &mut s1, InputEvent::Wheel { delta: WheelDelta::Lines(PX) }, false);
    c2.handle_event(
        &mut vs2,
        &mut s2,
        InputEvent::Wheel { delta: WheelDelta::Pixels(10 * PX) },
        false,
    );
    assert_eq!(vs1.zoom, vs2.zoom);
    assert_eq!(vs1.zoom, 1_100_000);
}

#[test]
fn resize_event_updates_viewport_only() {
    let (mut c, mut vs, mut s) = rig();
    let quit = c.handle_event(&mut vs, &mut s, InputEvent::Resized { width: 800, height: 600 }, false);
    assert!(!quit);
    assert_eq!((vs.viewport_w, vs.viewport_h), (800, 600));
    assert_eq!(vs.zoom, SCALE);
    assert_eq!((vs.pan_x, vs.pan_y), (0, 0));
    assert!(s.take_dirty());
}

#[test]
fn quit_keys_signal_exactly_one_quit_per_press() {
    let (mut c, mut vs, mut s) = rig();
    let esc = |repeat: bool| InputEvent::Key {
        code: KeyCode::Escape,
        ctrl: false,
        pressed: true,
        repeat,
    };
    let ctrl_q = InputEvent::Key {
        code: KeyCode::Character('q'),
        ctrl: true,
        pressed: true,
        repeat: false,
    };
    let plain_q = InputEvent::Key {
        code: KeyCode::Character('q'),
        ctrl: false,
        pressed: true,
        repeat: false,
    };
    let release = InputEvent::Key {
        code: KeyCode::Escape,
        ctrl: false,
        pressed: false,
        repeat: false,
    };
    assert!(c.handle_event(&mut vs, &mut s, esc(false), false));
    assert!(!c.handle_event(&mut vs, &mut s, esc(true), false));
    assert!(c.handle_event(&mut vs, &mut s, ctrl_q, false));
    assert!(!c.handle_event(&mut vs, &mut s, plain_q, false));
    assert!(!c.handle_event(&mut vs, &mut s, release, false));
    assert!(!s.is_dirty());
}

#[test]
fn close_request_signals_quit() {
    let (mut c, mut vs, mut s) = rig();
    assert!(c.handle_event(&mut vs, &mut s, InputEvent::CloseRequested, false));
    assert!(!s.is_dirty());
}

#[test]
fn vetoed_events_change_nothing() {
    let (mut c, mut vs, mut s) = rig();
    let before = vs;
    assert!(!c.handle_event(&mut vs, &mut s, InputEvent::CloseRequested, true));
    assert!(!c.handle_event(&mut vs, &mut s, left(true), true));
    assert!(!c.handle_event(&mut vs, &mut s, InputEvent::Wheel { delta: WheelDelta::Lines(PX) }, true));
    assert!(!c.handle_event(
        &mut vs,
        &mut s,
        InputEvent::Key { code: KeyCode::Escape, ctrl: false, pressed: true, repeat: false },
        true,
    ));
    assert_eq!(vs, before);
    assert!(!c.dragging);
    assert!(!s.is_dirty());
}

#[test]
fn cancel_drag_stops_panning_after_focus_loss() {
    let (mut c, mut vs, mut s) = rig();
    c.handle_event(&mut vs, &mut s, left(true), false);
    c.handle_event(&mut vs, &mut s, moved(10, 10), false);
    c.cancel_drag();
    c.handle_event(&mut vs, &mut s, moved(60, 60), false);
    assert_eq!((vs.pan_x, vs.pan_y), (0, 0));
}

fn triangle_doc() -> Document {
    let tri = vec![
        Point { x: 10 * PX, y: 10 * PX },
        Point { x: 40 * PX, y: 10 * PX },
        Point { x: 25 * PX, y: 40 * PX },
    ];
    Document::new(200 * PX, 200 * PX, vec![tri]).unwrap()
}

#[test]
fn hit_test_misses_outside_the_bounding_box() {
    let vs = ViewportState::new();
    let doc = triangle_doc();
    assert_eq!(hit_test(&vs, &doc, Point { x: 100 * PX, y: 100 * PX }), None);
    assert_eq!(hit_test(&vs, &doc, Point { x: 0, y: 0 }), None);
}

#[test]
fn hit_test_finds_a_point_inside_the_triangle() {
    let vs = ViewportState::new();
    let doc = triangle_doc();
    assert_eq!(hit_test(&vs, &doc, Point { x: 25 * PX, y: 20 * PX }), Some(0));
}

#[test]
fn hit_test_tolerates_points_near_an_edge() {
    let vs = ViewportState::new();
    let doc = triangle_doc();
    // Two units left of the leftmost vertex: within the tolerance of 3.
    assert_eq!(hit_test(&vs, &doc, Point { x: 8 * PX, y: 10 * PX }), Some(0));
    // Five units left: outside it.
    assert_eq!(hit_test(&vs, &doc, Point { x: 5 * PX, y: 10 * PX }), None);
}

#[test]
fn hit_test_respects_the_current_transform() {
    let mut vs = ViewportState::new();
    let doc = triangle_doc();
    // Zoom 2x about the origin: the triangle appears at doubled screen
    // coordinates, so the old inside point now misses ...
    vs.apply_zoom_delta(2 * SCALE, 0, 0);
    assert_eq!(hit_test(&vs, &doc, Point { x: 100 * PX, y: 100 * PX }), None);
    // ... and the doubled point hits.
    assert_eq!(hit_test(&vs, &doc, Point { x: 50 * PX, y: 40 * PX }), Some(0));
}

#[test]
fn hit_test_returns_the_topmost_match_in_document_order() {
    let vs = ViewportState::new();
    let square = vec![
        Point { x: 20 * PX, y: 15 * PX },
        Point { x: 30 * PX, y: 15 * PX },
        Point { x: 30 * PX, y: 25 * PX },
        Point { x: 20 * PX, y: 25 * PX },
    ];
    let tri = vec![
        Point { x: 10 * PX, y: 10 * PX },
        Point { x: 40 * PX, y: 10 * PX },
        Point { x: 25 * PX, y: 40 * PX },
    ];
    let doc = Document::new(200 * PX, 200 * PX, vec![square, tri]).unwrap();
    // Inside both: the first path in document order wins.
    assert_eq!(hit_test(&vs, &doc, Point { x: 25 * PX, y: 20 * PX }), Some(0));
    // Inside the triangle only.
    assert_eq!(hit_test(&vs, &doc, Point { x: 25 * PX, y: 35 * PX }), Some(1));
}

#[test]
fn document_new_rejects_bad_data() {
    assert!(Document::new(0, 10 * PX, vec![]).is_none());
    assert!(Document::new(10 * PX, -1, vec![]).is_none());
    let far = vec![Point { x: i64::MAX, y: 0 }];
    assert!(Document::new(10 * PX, 10 * PX, vec![far]).is_none());
    assert!(Document::new(10 * PX, 10 * PX, vec![]).is_some());
}

#[test]
fn single_point_path_is_hit_only_within_tolerance() {
    let vs = ViewportState::new();
    let dot = vec![Point { x: 50 * PX, y: 50 * PX }];
    let doc = Document::new(100 * PX, 100 * PX, vec![dot]).unwrap();
    assert_eq!(hit_test(&vs, &doc, Point { x: 52 * PX, y: 50 * PX }), Some(0));
    assert_eq!(hit_test(&vs, &doc, Point { x: 56 * PX, y: 50 * PX }), None);
}

#[test]
fn right_button_does_not_start_a_drag() {
    let (mut c, mut vs, mut s) = rig();
    c.handle_event(
        &mut vs,
        &mut s,
        InputEvent::PointerButton { button: MouseButton::Right, pressed: true },
        false,
    );
    assert!(!c.dragging);
    c.handle_event(&mut vs, &mut s, moved(10, 10), false);
    c.handle_event(&mut vs, &mut s, moved(30, 30), false);
    assert_eq!((vs.pan_x, vs.pan_y), (0, 0));
}

#[test]
fn press_while_dragging_keeps_the_baseline() {
    let (mut c, mut vs, mut s) = rig();
    c.handle_event(&mut vs, &mut s, left(true), false);
    c.handle_event(&mut vs, &mut s, moved(10, 10), false);
    c.handle_event(&mut vs, &mut s, left(true), false);
    c.handle_event(&mut vs, &mut s, moved(20, 20), false);
    assert_eq!((vs.pan_x, vs.pan_y), (10 * PX, 10 * PX));
}

#[test]
fn wheel_while_dragging_zooms_and_keeps_the_drag() {
    let (mut c, mut vs, mut s) = rig();
    c.handle_event(&mut vs, &mut s, left(true), false);
    c.handle_event(&mut vs, &mut s, moved(10, 10), false);
    c.handle_event(&mut vs, &mut s, InputEvent::Wheel { delta: WheelDelta::Lines(PX) }, false);
    assert!(c.dragging);
    assert_eq!(vs.zoom, 1_100_000);
}

#[test]
fn wheel_down_zooms_out() {
    let (mut c, mut vs, mut s) = rig();
    c.handle_event(&mut vs, &mut s, InputEvent::Wheel { delta: WheelDelta::Lines(-PX) }, false);
    assert_eq!(vs.zoom, 900_000);
}

#[test]
fn absurd_wheel_down_is_rejected_as_invalid() {
    // Twenty lines down would make the linear factor non-positive; such
    // a factor is treated as invalid input and the zoom is unchanged.
    let (mut c, mut vs, mut s) = rig();
    c.handle_event(
        &mut vs,
        &mut s,
        InputEvent::Wheel { delta: WheelDelta::Lines(-20 * PX) },
        false,
    );
    assert_eq!(vs.zoom, SCALE);
}

#[test]
fn uppercase_character_is_not_the_quit_key() {
    // Hosts normalize the key character to lower case; the core matches
    // it exactly.
    let (mut c, mut vs, mut s) = rig();
    let upper = InputEvent::Key {
        code: KeyCode::Character('Q'),
        ctrl: true,
        pressed: true,
        repeat: false,
    };
    assert!(!c.handle_event(&mut vs, &mut s, upper, false));
}
