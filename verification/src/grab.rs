//! The pointer grab state machine: while a move grab is active it intercepts
//! pointer events, drags the window with clamping on motion, forwards
//! everything else unchanged, and on the release of the last pressed button
//! evaluates the edge-snap policy and exits.

use vstd::prelude::*;
use crate::geometry::{Pos, Size, moved_pos, moved_position};
use crate::model::{
    Compositor, GrabState, Model, Window, pressed_after, target_output,
    lemma_target_output_agrees, lemma_target_output_in_range, lemma_without_code,
};

verus! {

/// Width, in logical units, of the strip along each vertical output edge
/// within which releasing the grab snaps the window to that half of the
/// output.
pub const SNAP_MARGIN: i32 = 15;

/// A pointer event as the input dispatcher sees it. Only motion and button
/// events carry data the grab reads; the rest pass through unchanged.
#[derive(Clone, Copy, PartialEq, Eq, Structural, Debug)]
pub enum PointerEvent {
    Motion { location: Pos },
    RelativeMotion,
    Button { code: u32, is_press: bool },
    Axis,
    Frame,
    GestureSwipeBegin,
    GestureSwipeUpdate,
    GestureSwipeEnd,
    GesturePinchBegin,
    GesturePinchUpdate,
    GesturePinchEnd,
    GestureHoldBegin,
    GestureHoldEnd,
}

/// How the caller must forward the event down the pointer pipeline.
#[derive(Clone, Copy, PartialEq, Eq, Structural, Debug)]
pub enum Forward {
    /// No grab is active: route by normal client focus.
    Focus,
    /// A grab is active and consumed the motion: forward it with the focus
    /// deliberately reported as empty.
    NoFocus,
    /// A grab is active but does not interpret this event: forward it
    /// unchanged to whatever focus was already established.
    PassThrough,
}

/// What the caller must do after handing an event to the dispatcher: how to
/// forward it, whether a window's pending size must be sent to its client,
/// and whether the pointer pipeline's grab must be unset.
#[derive(Clone, Copy, PartialEq, Eq, Debug)]
pub struct Dispatch {
    pub forward: Forward,
    pub configure: Option<usize>,
    pub released: bool,
}

/// The final pointer position lies within the snap margin of the left or
/// right edge of the output.
pub open spec fn snap_applies(pointer_x: int, osize: Size) -> bool {
    pointer_x <= SNAP_MARGIN || pointer_x >= osize.w - SNAP_MARGIN
}

/// Where a snapped window lands: the output's origin, or its horizontal
/// midpoint when the pointer ended within the right margin (the right edge
/// wins when the margins overlap).
pub open spec fn snap_pos(pointer_x: int, osize: Size) -> Pos {
    if pointer_x >= osize.w - SNAP_MARGIN {
        Pos { x: ((osize.w as int) / 2) as i32, y: 0 }
    } else {
        Pos { x: 0, y: 0 }
    }
}

/// The size a snapped window is asked to take: half the output's width at
/// its full height.
pub open spec fn snap_size(osize: Size) -> Size {
    Size { w: ((osize.w as int) / 2) as i32, h: osize.h }
}

/// The state after a motion event. With a grab active the grabbed window
/// follows the pointer's movement since grab start, clamped to the output
/// that shows it; without one only the pointer location changes. No motion
/// event ever touches the grab slot itself.
pub open spec fn motion_step(m: Model, location: Pos) -> Model {
    match m.grab {
        GrabState::Inactive => Model { pointer: location, ..m },
        GrabState::Active(g) => {
            let w = g.window as int;
            let win = m.windows[w];
            let osize = m.outputs[target_output(m, w)].mode.size;
            let np = moved_pos(g.initial_window_location, g.start_pointer, location, win.size, osize);
            Model {
                pointer: location,
                windows: m.windows.update(
                    w,
                    Window { pos: np, size: win.size, pending: win.pending, maximized: win.maximized },
                ),
                ..m
            }
        },
    }
}

/// How a motion event is forwarded: with a grab active the client under the
/// pointer is reported as no focus; otherwise normal focus routing applies.
pub open spec fn motion_dispatch(m: Model) -> Dispatch {
    Dispatch {
        forward: match m.grab {
            GrabState::Inactive => Forward::Focus,
            GrabState::Active(_) => Forward::NoFocus,
        },
        configure: None,
        released: false,
    }
}

/// The state after a button event. The pressed set is updated first (the
/// event is always forwarded); then, with a grab active and no button left
/// pressed, the snap policy runs on the pointer's final location and the
/// grab exits. Button events are the only exit from an active grab.
pub open spec fn button_step(m: Model, code: u32, is_press: bool) -> Model {
    let pr = pressed_after(m.pressed, code, is_press);
    let m1 = Model { pressed: pr, ..m };
    match m.grab {
        GrabState::Inactive => m1,
        GrabState::Active(g) => {
            if pr.len() == 0 {
                let w = g.window as int;
                let osize = m.outputs[target_output(m, w)].mode.size;
                let m2 = if snap_applies(m.pointer.x as int, osize) {
                    let win = m.windows[w];
                    Model {
                        windows: m1.windows.update(
                            w,
                            Window {
                                pos: snap_pos(m.pointer.x as int, osize),
                                size: win.size,
                                pending: Some(snap_size(osize)),
                                maximized: win.maximized,
                            },
                        ),
                        ..m1
                    }
                } else {
                    m1
                };
                Model { grab: GrabState::Inactive, ..m2 }
            } else {
                m1
            }
        },
    }
}

/// What the caller does after a button event: the event always passes down
/// the pipeline; when the grab exits the pipeline's grab is unset, and when
/// the snap policy fired the snapped window's pending size must be sent.
pub open spec fn button_dispatch(m: Model, code: u32, is_press: bool) -> Dispatch {
    let pr = pressed_after(m.pressed, code, is_press);
    match m.grab {
        GrabState::Inactive => Dispatch { forward: Forward::Focus, configure: None, released: false },
        GrabState::Active(g) => {
            if pr.len() == 0 {
                let osize = m.outputs[target_output(m, g.window as int)].mode.size;
                Dispatch {
                    forward: Forward::PassThrough,
                    configure: if snap_applies(m.pointer.x as int, osize) {
                        Some(g.window)
                    } else {
                        None
                    },
                    released: true,
                }
            } else {
                Dispatch { forward: Forward::PassThrough, configure: None, released: false }
            }
        },
    }
}

/// The state after any pointer event: only motion and button events change
/// it.
pub open spec fn event_step(m: Model, ev: PointerEvent) -> Model {
    match ev {
        PointerEvent::Motion { location } => motion_step(m, location),
        PointerEvent::Button { code, is_press } => button_step(m, code, is_press),
        _ => m,
    }
}

/// Forwarding for the pass-through events: unchanged, to whatever focus was
/// already established.
pub open spec fn passthrough_dispatch(m: Model) -> Dispatch {
    Dispatch {
        forward: match m.grab {
            GrabState::Inactive => Forward::Focus,
            GrabState::Active(_) => Forward::PassThrough,
        },
        configure: None,
        released: false,
    }
}

/// What the caller does after any pointer event.
pub open spec fn event_dispatch(m: Model, ev: PointerEvent) -> Dispatch {
    match ev {
        PointerEvent::Motion { location } => motion_dispatch(m),
        PointerEvent::Button { code, is_press } => button_dispatch(m, code, is_press),
        _ => passthrough_dispatch(m),
    }
}

impl Compositor {
    /// Apply a motion event: record the pointer location and, while the grab
    /// is active, drag the grabbed window to the clamped position computed
    /// from the grab's immutable snapshot.
    pub fn handle_motion(&mut self, location: Pos) -> (r: Dispatch)
        requires
            old(self)@.wf(),
        ensures
            final(self)@ == motion_step(old(self)@, location),
            final(self)@.wf(),
            r == motion_dispatch(old(self)@),
    {
        let g = self.grab;
        match g {
            GrabState::Inactive => {
                self.pointer = location;
                proof {
                    assert(self@ =~= motion_step(old(self)@, location));
                }
                Dispatch { forward: Forward::Focus, configure: None, released: false }
            },
            GrabState::Active(g) => {
                let w = g.window;
                let win = self.windows[w];
                let o = self.output_for_window(w);
                let osize = self.outputs[o].mode.size;
                let np = moved_position(
                    g.initial_window_location,
                    g.start_pointer,
                    location,
                    win.size,
                    osize,
                );
                let nw = Window {
                    pos: np,
                    size: win.size,
                    pending: win.pending,
                    maximized: win.maximized,
                };
                self.windows[w] = nw;
                self.pointer = location;
                proof {
                    assert(self@ =~= motion_step(old(self)@, location));
                    assert forall|i: int| 0 <= i < self@.windows.len() implies
                        (#[trigger] self@.windows[i]).wf() by {
                        if i != w {
                            assert(self@.windows[i] == old(self)@.windows[i]);
                        }
                    }
                }
                Dispatch { forward: Forward::NoFocus, configure: None, released: false }
            },
        }
    }

    /// Apply a button event: account for the press or release first, as the
    /// forwarded event will, then — with a grab active and no button left
    /// pressed — run the snap policy on the pointer's final location and
    /// exit the grab. Motion never exits the grab; this is the only way out.
    pub fn handle_button(&mut self, code: u32, is_press: bool) -> (r: Dispatch)
        requires
            old(self)@.wf(),
        ensures
            final(self)@ == button_step(old(self)@, code, is_press),
            final(self)@.wf(),
            r == button_dispatch(old(self)@, code, is_press),
    {
        let ghost m0 = self@;
        self.update_pressed(code, is_press);
        let ghost m1 = self@;
        let g = self.grab;
        match g {
            GrabState::Inactive => {
                proof {
                    assert(self@ =~= button_step(m0, code, is_press));
                }
                Dispatch { forward: Forward::Focus, configure: None, released: false }
            },
            GrabState::Active(g) => {
                if self.pressed.len() == 0 {
                    let w = g.window;
                    proof {
                        lemma_target_output_agrees(m1, m0, w as int);
                        lemma_target_output_in_range(m0, w as int);
                    }
                    let o = self.output_for_window(w);
                    let osize = self.outputs[o].mode.size;
                    let px = self.pointer.x;
                    let right = px >= osize.w - SNAP_MARGIN;
                    let left = px <= SNAP_MARGIN;
                    let configure: Option<usize> = if left || right {
                        let nx: i32 = if right {
                            osize.w / 2
                        } else {
                            0
                        };
                        let win = self.windows[w];
                        let nw = Window {
                            pos: Pos { x: nx, y: 0 },
                            size: win.size,
                            pending: Some(Size { w: osize.w / 2, h: osize.h }),
                            maximized: win.maximized,
                        };
                        self.windows[w] = nw;
                        Some(w)
                    } else {
                        None
                    };
                    self.grab = GrabState::Inactive;
                    proof {
                        assert(self@ =~= button_step(m0, code, is_press));
                        assert forall|i: int| 0 <= i < self@.windows.len() implies
                            (#[trigger] self@.windows[i]).wf() by {
                            if i != w {
                                assert(self@.windows[i] == m0.windows[i]);
                            }
                        }
                    }
                    Dispatch { forward: Forward::PassThrough, configure, released: true }
                } else {
                    proof {
                        assert(self@ =~= button_step(m0, code, is_press));
                    }
                    Dispatch { forward: Forward::PassThrough, configure: None, released: false }
                }
            },
        }
    }

    /// Apply any pointer event, returning what the caller must do with it.
    /// Axis, frame, gesture and relative-motion events pass through without
    /// touching the state.
    pub fn handle_pointer_event(&mut self, ev: PointerEvent) -> (r: Dispatch)
        requires
            old(self)@.wf(),
        ensures
            final(self)@ == event_step(old(self)@, ev),
            final(self)@.wf(),
            r == event_dispatch(old(self)@, ev),
    {
        match ev {
            PointerEvent::Motion { location } => self.handle_motion(location),
            PointerEvent::Button { code, is_press } => self.handle_button(code, is_press),
            _ => {
                let g = self.grab;
                match g {
                    GrabState::Inactive => Dispatch {
                        forward: Forward::Focus,
                        configure: None,
                        released: false,
                    },
                    GrabState::Active(_) => Dispatch {
                        forward: Forward::PassThrough,
                        configure: None,
                        released: false,
                    },
                }
            },
        }
    }
}

} // verus!
