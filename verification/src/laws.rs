//! The laws the grab and the render cycle obey, stated over the abstract
//! state and proved from the transition functions.

use vstd::prelude::*;
use crate::geometry::{Pos, Size, clamp_coord};
use crate::model::{
    GrabState, Model, MoveSurfaceGrab, pressed_after, target_output, without_code,
    lemma_target_output_agrees, lemma_target_output_in_range,
};
use crate::grab::{PointerEvent, SNAP_MARGIN, button_step, event_step, motion_step};
use crate::render::{fixup_step, fixup_window};

verus! {

/// For every grab snapshot and motion delta, the dragged window lands at the
/// clamped drag-follow position, componentwise: its position at grab start
/// plus the pointer's movement, clamped to the interval from zero to the
/// governing output's extent minus the window's extent.
pub proof fn law_motion_position(m: Model, g: MoveSurfaceGrab, location: Pos)
    requires
        m.wf(),
        m.grab == GrabState::Active(g),
    ensures
        ({
            let wsize = m.windows[g.window as int].size;
            let osize = m.outputs[target_output(m, g.window as int)].mode.size;
            let np = motion_step(m, location).windows[g.window as int].pos;
            &&& np.x as int == clamp_coord(
                g.initial_window_location.x + location.x - g.start_pointer.x,
                osize.w - wsize.w,
            )
            &&& np.y as int == clamp_coord(
                g.initial_window_location.y + location.y - g.start_pointer.y,
                osize.h - wsize.h,
            )
        }),
{
    lemma_target_output_in_range(m, g.window as int);
}

/// No motion event ever touches the grab slot: motion alone never ends a
/// grab, and never alters its snapshot.
pub proof fn law_motion_never_ends_grab(m: Model, location: Pos)
    ensures
        motion_step(m, location).grab == m.grab,
{
}

/// Of all pointer events, only a button event can change the grab slot:
/// axis, frame, gesture and relative-motion events leave it untouched.
pub proof fn law_only_buttons_end_grab(m: Model, ev: PointerEvent)
    requires
        !(ev is Button),
    ensures
        event_step(m, ev).grab == m.grab,
{
}

/// Releasing the last pressed button always ends an active grab.
pub proof fn law_release_last_button_ends_grab(m: Model, code: u32)
    requires
        m.wf(),
        m.grab is Active,
        m.pressed == seq![code],
    ensures
        button_step(m, code, false).grab == GrabState::Inactive,
{
    assert(m.pressed.len() == 1);
    assert(m.pressed.last() == code);
    assert(m.pressed.drop_last() =~= Seq::<u32>::empty());
    assert(without_code(m.pressed, code) == without_code(Seq::<u32>::empty(), code));
    assert(without_code(Seq::<u32>::empty(), code).len() == 0);
    assert(pressed_after(m.pressed, code, false).len() == 0);
}

/// A button event that leaves some button pressed keeps the grab active and
/// every window untouched.
pub proof fn law_buttons_remaining_keep_grab(m: Model, code: u32, is_press: bool)
    requires
        m.grab is Active,
        pressed_after(m.pressed, code, is_press).len() != 0,
    ensures
        button_step(m, code, is_press).grab == m.grab,
        button_step(m, code, is_press).windows == m.windows,
{
}

/// When the grab exits with the pointer within the snap margin of the left
/// edge — and not within the right margin, which would win — the window is
/// moved to the output's origin and asked to take half the output's width at
/// its full height.
pub proof fn law_snap_left(m: Model, g: MoveSurfaceGrab, code: u32)
    requires
        m.wf(),
        m.grab == GrabState::Active(g),
        pressed_after(m.pressed, code, false).len() == 0,
        m.pointer.x <= SNAP_MARGIN,
        m.pointer.x < m.outputs[target_output(m, g.window as int)].mode.size.w - SNAP_MARGIN,
    ensures
        ({
            let r = button_step(m, code, false);
            let osize = m.outputs[target_output(m, g.window as int)].mode.size;
            &&& r.windows[g.window as int].pos == (Pos { x: 0, y: 0 })
            &&& r.windows[g.window as int].pending == Some(
                Size { w: ((osize.w as int) / 2) as i32, h: osize.h },
            )
            &&& r.grab == GrabState::Inactive
        }),
{
}

/// When the grab exits with the pointer within the snap margin of the right
/// edge, the window is moved to the output's horizontal midpoint and asked
/// to take the same half-width, full-height size.
pub proof fn law_snap_right(m: Model, g: MoveSurfaceGrab, code: u32)
    requires
        m.wf(),
        m.grab == GrabState::Active(g),
        pressed_after(m.pressed, code, false).len() == 0,
        m.pointer.x >= m.outputs[target_output(m, g.window as int)].mode.size.w - SNAP_MARGIN,
    ensures
        ({
            let r = button_step(m, code, false);
            let osize = m.outputs[target_output(m, g.window as int)].mode.size;
            &&& r.windows[g.window as int].pos == (Pos {
                x: ((osize.w as int) / 2) as i32,
                y: 0,
            })
            &&& r.windows[g.window as int].pending == Some(
                Size { w: ((osize.w as int) / 2) as i32, h: osize.h },
            )
            &&& r.grab == GrabState::Inactive
        }),
{
}

/// When the grab exits with the pointer in neither margin, every window
/// keeps the position last written during motion and its pending size is
/// untouched: the grab simply ends.
pub proof fn law_no_snap(m: Model, g: MoveSurfaceGrab, code: u32)
    requires
        m.wf(),
        m.grab == GrabState::Active(g),
        pressed_after(m.pressed, code, false).len() == 0,
        m.pointer.x > SNAP_MARGIN,
        m.pointer.x < m.outputs[target_output(m, g.window as int)].mode.size.w - SNAP_MARGIN,
    ensures
        button_step(m, code, false).windows == m.windows,
        button_step(m, code, false).grab == GrabState::Inactive,
{
}

/// Running the maximize fixup twice against the same output modes produces
/// the same state as running it once: the configured sizes do not drift.
pub proof fn law_fixup_idempotent(m: Model)
    requires
        m.wf(),
    ensures
        fixup_step(fixup_step(m)) == fixup_step(m),
{
    let m1 = fixup_step(m);
    assert forall|i: int| 0 <= i < m1.windows.len() implies
        #[trigger] fixup_window(m1, i) == m1.windows[i] by {
        assert(m1.windows[i] == fixup_window(m, i));
        lemma_target_output_agrees(m1, m, i);
    }
    assert(fixup_step(m1).windows =~= m1.windows);
    assert(fixup_step(m1) =~= m1);
}

} // verus!
