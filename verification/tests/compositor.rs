use smallvil::geometry::{Pos, Rect, Size, moved_position, rects_overlap_check};
use smallvil::grab::{Dispatch, Forward, PointerEvent};
use smallvil::model::{Compositor, GrabState, Mode, Output, Window};

const BTN_LEFT: u32 = 0x110;

fn output_at(x: i32, y: i32, w: i32, h: i32) -> Output {
    Output {
        pos: Pos { x, y },
        mode: Mode { size: Size { w, h }, refresh: 60_000 },
    }
}

fn window_at(x: i32, y: i32, w: i32, h: i32) -> Window {
    Window {
        pos: Pos { x, y },
        size: Size { w, h },
        pending: None,
        maximized: false,
    }
}

fn press(c: &mut Compositor, code: u32) -> Dispatch {
    c.handle_pointer_event(PointerEvent::Button { code, is_press: true })
}

fn release(c: &mut Compositor, code: u32) -> Dispatch {
    c.handle_pointer_event(PointerEvent::Button { code, is_press: false })
}

fn motion(c: &mut Compositor, x: i32, y: i32) -> Dispatch {
    c.handle_pointer_event(PointerEvent::Motion { location: Pos { x, y } })
}

#[test]
fn new_compositor_is_idle() {
    let c = Compositor::new(output_at(0, 0, 1920, 1080));
    assert_eq!(c.outputs.len(), 1);
    assert_eq!(c.windows.len(), 0);
    assert_eq!(c.grab, GrabState::Inactive);
    assert_eq!(c.pressed.len(), 0);
    assert_eq!(c.pointer, Pos { x: 0, y: 0 });
}

#[test]
fn drag_then_snap_left() {
    // One 1920x1080 output; a 400x300 window at (100,100); the grab starts
    // with the pointer at (500,500).
    let mut c = Compositor::new(output_at(0, 0, 1920, 1080));
    let w = c.map_window(window_at(100, 100, 400, 300));
    motion(&mut c, 500, 500);
    press(&mut c, BTN_LEFT);
    assert!(c.begin_move_grab(w));

    // Moving the pointer to (200,500) is a delta of (-300,0); the candidate
    // x of 100-300 clamps to 0.
    let d = motion(&mut c, 200, 500);
    assert_eq!(d.forward, Forward::NoFocus);
    assert_eq!(c.windows[w].pos, Pos { x: 0, y: 100 });
    assert_eq!(c.grab, GrabState::Active(smallvil::model::MoveSurfaceGrab {
        start_pointer: Pos { x: 500, y: 500 },
        window: w,
        initial_window_location: Pos { x: 100, y: 100 },
    }));

    // Releasing at pointer x = 10 snaps the window to the left half.
    motion(&mut c, 10, 500);
    let d = release(&mut c, BTN_LEFT);
    assert!(d.released);
    assert_eq!(d.configure, Some(w));
    assert_eq!(d.forward, Forward::PassThrough);
    assert_eq!(c.grab, GrabState::Inactive);
    assert_eq!(c.windows[w].pos, Pos { x: 0, y: 0 });
    assert_eq!(c.windows[w].pending, Some(Size { w: 960, h: 1080 }));
}

#[test]
fn snap_right_takes_midpoint() {
    let mut c = Compositor::new(output_at(0, 0, 1920, 1080));
    let w = c.map_window(window_at(100, 100, 400, 300));
    press(&mut c, BTN_LEFT);
    assert!(c.begin_move_grab(w));
    motion(&mut c, 1910, 400);
    let d = release(&mut c, BTN_LEFT);
    assert!(d.released);
    assert_eq!(d.configure, Some(w));
    assert_eq!(c.windows[w].pos, Pos { x: 960, y: 0 });
    assert_eq!(c.windows[w].pending, Some(Size { w: 960, h: 1080 }));
}

#[test]
fn release_away_from_edges_keeps_position_and_size() {
    let mut c = Compositor::new(output_at(0, 0, 1920, 1080));
    let w = c.map_window(window_at(100, 100, 400, 300));
    motion(&mut c, 500, 500);
    press(&mut c, BTN_LEFT);
    assert!(c.begin_move_grab(w));
    motion(&mut c, 700, 650);
    assert_eq!(c.windows[w].pos, Pos { x: 300, y: 250 });
    let d = release(&mut c, BTN_LEFT);
    assert!(d.released);
    assert_eq!(d.configure, None);
    assert_eq!(c.grab, GrabState::Inactive);
    assert_eq!(c.windows[w].pos, Pos { x: 300, y: 250 });
    assert_eq!(c.windows[w].pending, None);
}

#[test]
fn grab_ends_only_when_no_button_remains() {
    let mut c = Compositor::new(output_at(0, 0, 1920, 1080));
    let w = c.map_window(window_at(100, 100, 400, 300));
    motion(&mut c, 500, 500);
    press(&mut c, BTN_LEFT);
    press(&mut c, BTN_LEFT + 1);
    assert!(c.begin_move_grab(w));
    let d = release(&mut c, BTN_LEFT);
    assert!(!d.released);
    assert!(matches!(c.grab, GrabState::Active(_)));
    let d = release(&mut c, BTN_LEFT + 1);
    assert!(d.released);
    assert_eq!(c.grab, GrabState::Inactive);
}

#[test]
fn motion_never_ends_the_grab() {
    let mut c = Compositor::new(output_at(0, 0, 1920, 1080));
    let w = c.map_window(window_at(100, 100, 400, 300));
    press(&mut c, BTN_LEFT);
    assert!(c.begin_move_grab(w));
    for i in 0..50 {
        motion(&mut c, 40 * i, 20 * i);
        assert!(matches!(c.grab, GrabState::Active(_)));
    }
}

#[test]
fn passthrough_events_do_not_touch_state() {
    let mut c = Compositor::new(output_at(0, 0, 1920, 1080));
    let w = c.map_window(window_at(100, 100, 400, 300));
    press(&mut c, BTN_LEFT);
    assert!(c.begin_move_grab(w));
    let before_grab = c.grab;
    let before_pos = c.windows[w].pos;
    for ev in [
        PointerEvent::RelativeMotion,
        PointerEvent::Axis,
        PointerEvent::Frame,
        PointerEvent::GestureSwipeBegin,
        PointerEvent::GestureSwipeUpdate,
        PointerEvent::GestureSwipeEnd,
        PointerEvent::GesturePinchBegin,
        PointerEvent::GesturePinchUpdate,
        PointerEvent::GesturePinchEnd,
        PointerEvent::GestureHoldBegin,
        PointerEvent::GestureHoldEnd,
    ] {
        let d = c.handle_pointer_event(ev);
        assert_eq!(d.forward, Forward::PassThrough);
        assert_eq!(d.configure, None);
        assert!(!d.released);
    }
    assert_eq!(c.grab, before_grab);
    assert_eq!(c.windows[w].pos, before_pos);
}

#[test]
fn events_route_by_focus_without_a_grab() {
    let mut c = Compositor::new(output_at(0, 0, 1920, 1080));
    c.map_window(window_at(100, 100, 400, 300));
    let d = motion(&mut c, 5, 5);
    assert_eq!(d.forward, Forward::Focus);
    let d = c.handle_pointer_event(PointerEvent::Axis);
    assert_eq!(d.forward, Forward::Focus);
    let d = press(&mut c, BTN_LEFT);
    assert_eq!(d.forward, Forward::Focus);
    // A release near the left edge with no grab active snaps nothing.
    let d = release(&mut c, BTN_LEFT);
    assert_eq!(d.configure, None);
    assert!(!d.released);
    assert_eq!(c.windows[0].pending, None);
}

#[test]
fn grab_is_exclusive() {
    let mut c = Compositor::new(output_at(0, 0, 1920, 1080));
    let w0 = c.map_window(window_at(100, 100, 400, 300));
    let w1 = c.map_window(window_at(600, 100, 200, 200));
    assert!(c.begin_move_grab(w0));
    let snapshot = c.grab;
    assert!(!c.begin_move_grab(w1));
    assert_eq!(c.grab, snapshot);
}

#[test]
fn second_output_governs_window_it_shows() {
    // Two outputs side by side, each 1280x720; the window overlaps only the
    // second, so clamp and snap use the second output's size.
    let mut c = Compositor::new(output_at(0, 0, 1280, 720));
    c.add_output(output_at(1280, 0, 1280, 720));
    let w = c.map_window(window_at(1400, 100, 400, 300));
    assert_eq!(c.output_for_window(w), 1);
    motion(&mut c, 1500, 200);
    press(&mut c, BTN_LEFT);
    assert!(c.begin_move_grab(w));
    motion(&mut c, 1270, 200);
    let d = release(&mut c, BTN_LEFT);
    assert!(d.released);
    // 1270 >= 1280 - 15: the right margin of the governing 1280-wide output.
    assert_eq!(c.windows[w].pos, Pos { x: 640, y: 0 });
    assert_eq!(c.windows[w].pending, Some(Size { w: 640, h: 720 }));
}

#[test]
fn clamp_uses_size_of_governing_output() {
    // Unequal outputs: the window sits on the second, 800 wide, so a drag
    // far to the right stops at 800 - 400.
    let mut c = Compositor::new(output_at(0, 0, 1920, 1080));
    c.add_output(output_at(1920, 0, 800, 600));
    let w = c.map_window(window_at(2000, 50, 400, 300));
    assert_eq!(c.output_for_window(w), 1);
    motion(&mut c, 2100, 100);
    press(&mut c, BTN_LEFT);
    assert!(c.begin_move_grab(w));
    motion(&mut c, 3000, 100);
    assert_eq!(c.windows[w].pos, Pos { x: 400, y: 50 });
}

#[test]
fn first_output_is_fallback_when_none_shows_the_window() {
    let mut c = Compositor::new(output_at(0, 0, 1920, 1080));
    c.add_output(output_at(1920, 0, 800, 600));
    // The window lies entirely below both outputs.
    let w = c.map_window(window_at(100, 5000, 400, 300));
    assert_eq!(c.output_for_window(w), 0);
}

#[test]
fn window_larger_than_output_sits_at_origin() {
    let mut c = Compositor::new(output_at(0, 0, 640, 480));
    let w = c.map_window(window_at(10, 10, 800, 600));
    press(&mut c, BTN_LEFT);
    assert!(c.begin_move_grab(w));
    motion(&mut c, 300, 300);
    // Both limits are negative: the clamp collapses to the lower bound.
    assert_eq!(c.windows[w].pos, Pos { x: 0, y: 0 });
}

#[test]
fn right_margin_wins_when_margins_overlap() {
    // On an output only 20 wide the two margins overlap; a release at x = 10
    // lies in both, and the right edge's placement wins.
    let mut c = Compositor::new(output_at(0, 0, 20, 480));
    let w = c.map_window(window_at(0, 0, 10, 10));
    motion(&mut c, 10, 5);
    press(&mut c, BTN_LEFT);
    assert!(c.begin_move_grab(w));
    let d = release(&mut c, BTN_LEFT);
    assert!(d.released);
    assert_eq!(c.windows[w].pos, Pos { x: 10, y: 0 });
    assert_eq!(c.windows[w].pending, Some(Size { w: 10, h: 480 }));
}

#[test]
fn moved_position_matches_componentwise_clamp() {
    let wsize = Size { w: 400, h: 300 };
    let osize = Size { w: 1920, h: 1080 };
    let w0 = Pos { x: 100, y: 100 };
    let p0 = Pos { x: 500, y: 500 };
    // Inside the range: follows the delta exactly.
    assert_eq!(
        moved_position(w0, p0, Pos { x: 600, y: 550 }, wsize, osize),
        Pos { x: 200, y: 150 }
    );
    // Past the low edge on x, past the high edge on y.
    assert_eq!(
        moved_position(w0, p0, Pos { x: 0, y: 9999 }, wsize, osize),
        Pos { x: 0, y: 780 }
    );
    // Extreme deltas neither overflow nor escape the clamp.
    assert_eq!(
        moved_position(w0, p0, Pos { x: i32::MAX, y: i32::MIN }, wsize, osize),
        Pos { x: 1520, y: 0 }
    );
}

#[test]
fn overlap_is_strict() {
    let a = Pos { x: 0, y: 0 };
    let asz = Size { w: 100, h: 100 };
    // Rectangles that merely touch along an edge do not overlap.
    assert!(!rects_overlap_check(a, asz, Pos { x: 100, y: 0 }, asz));
    assert!(rects_overlap_check(a, asz, Pos { x: 99, y: 0 }, asz));
    assert!(!rects_overlap_check(a, asz, Pos { x: 0, y: 100 }, asz));
}

#[test]
fn unmap_releases_grab_on_that_window() {
    let mut c = Compositor::new(output_at(0, 0, 1920, 1080));
    let w = c.map_window(window_at(100, 100, 400, 300));
    assert!(c.begin_move_grab(w));
    c.unmap_window(w);
    assert_eq!(c.grab, GrabState::Inactive);
    assert_eq!(c.windows.len(), 0);
}

#[test]
fn unmap_shifts_grab_on_later_window() {
    let mut c = Compositor::new(output_at(0, 0, 1920, 1080));
    let w0 = c.map_window(window_at(0, 0, 100, 100));
    let w1 = c.map_window(window_at(200, 0, 100, 100));
    assert!(c.begin_move_grab(w1));
    c.unmap_window(w0);
    match c.grab {
        GrabState::Active(g) => assert_eq!(g.window, 0),
        GrabState::Inactive => panic!("grab should survive unmapping another window"),
    }
    assert_eq!(c.windows[0].pos, Pos { x: 200, y: 0 });
}

#[test]
fn fixup_configures_maximized_windows() {
    let mut c = Compositor::new(output_at(0, 0, 1920, 1080));
    c.map_window(window_at(100, 100, 400, 300));
    let mut maxed = window_at(0, 0, 1920, 1080);
    maxed.maximized = true;
    c.map_window(maxed);
    let cfg = c.fix_positions();
    assert_eq!(cfg, vec![1]);
    assert_eq!(c.windows[0].pending, None);
    assert_eq!(c.windows[1].pending, Some(Size { w: 1920, h: 1080 }));
}

#[test]
fn fixup_twice_is_same_as_once() {
    let mut c = Compositor::new(output_at(0, 0, 1920, 1080));
    let mut maxed = window_at(0, 0, 500, 500);
    maxed.maximized = true;
    c.map_window(maxed);
    c.map_window(window_at(600, 0, 100, 100));
    let cfg1 = c.fix_positions();
    let after_once = c.windows.clone();
    let cfg2 = c.fix_positions();
    assert_eq!(cfg1, cfg2);
    assert_eq!(c.windows, after_once);
}

#[test]
fn output_resize_retargets_maximized_windows() {
    let mut c = Compositor::new(output_at(0, 0, 1920, 1080));
    let mut maxed = window_at(0, 0, 1920, 1080);
    maxed.maximized = true;
    let w = c.map_window(maxed);
    let cfg = c.handle_output_resized(0, Mode { size: Size { w: 1280, h: 720 }, refresh: 60_000 });
    assert_eq!(cfg, vec![w]);
    assert_eq!(c.outputs[0].mode.size, Size { w: 1280, h: 720 });
    assert_eq!(c.windows[w].pending, Some(Size { w: 1280, h: 720 }));
    // The window itself keeps its committed geometry until the client acks.
    assert_eq!(c.windows[w].size, Size { w: 1920, h: 1080 });
}

#[test]
fn output_resize_leaves_normal_windows_alone() {
    let mut c = Compositor::new(output_at(0, 0, 1920, 1080));
    let w = c.map_window(window_at(1800, 1000, 400, 300));
    let cfg = c.handle_output_resized(0, Mode { size: Size { w: 800, h: 600 }, refresh: 60_000 });
    assert!(cfg.is_empty());
    // Possibly out of bounds now, but not auto-corrected.
    assert_eq!(c.windows[w].pos, Pos { x: 1800, y: 1000 });
    assert_eq!(c.windows[w].pending, None);
}

#[test]
fn redraw_plan_covers_output_and_notifies_every_window() {
    let mut c = Compositor::new(output_at(0, 0, 1920, 1080));
    c.map_window(window_at(0, 0, 100, 100));
    c.map_window(window_at(5000, 5000, 100, 100)); // not visible anywhere
    c.map_window(window_at(200, 200, 100, 100));
    let plan = c.plan_redraw(0);
    assert_eq!(
        plan.damage,
        Rect { pos: Pos { x: 0, y: 0 }, size: Size { w: 1920, h: 1080 } }
    );
    assert_eq!(plan.frame_targets, vec![0, 1, 2]);
}

#[test]
fn pressed_set_holds_each_code_once() {
    let mut c = Compositor::new(output_at(0, 0, 1920, 1080));
    press(&mut c, BTN_LEFT);
    press(&mut c, BTN_LEFT);
    press(&mut c, BTN_LEFT + 1);
    assert_eq!(c.pressed, vec![BTN_LEFT, BTN_LEFT + 1]);
    release(&mut c, BTN_LEFT);
    assert_eq!(c.pressed, vec![BTN_LEFT + 1]);
    release(&mut c, BTN_LEFT + 1);
    assert!(c.pressed.is_empty());
}
