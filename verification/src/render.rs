//! The per-output render cycle's decisions: the redraw plan that one frame
//! follows, and the maximize fixup that runs after an output changes mode so
//! maximized windows keep tracking their output's geometry.

use vstd::prelude::*;
use crate::geometry::{Pos, Rect};
use crate::model::{
    Compositor, Mode, Model, Output, Window, target_output,
    lemma_target_output_agrees, lemma_target_output_in_range,
};

verus! {

/// Window `i` after the maximize fixup: a maximized window is asked to take
/// the full size of the output that shows it; any other window is left
/// alone.
pub open spec fn fixup_window(m: Model, i: int) -> Window {
    let w = m.windows[i];
    if w.maximized {
        Window {
            pos: w.pos,
            size: w.size,
            pending: Some(m.outputs[target_output(m, i)].mode.size),
            maximized: w.maximized,
        }
    } else {
        w
    }
}

/// The state after the maximize fixup ran over every mapped window. Only
/// pending sizes change; positions, committed sizes and the grab are
/// untouched.
pub open spec fn fixup_step(m: Model) -> Model {
    Model { windows: Seq::new(m.windows.len(), |i: int| fixup_window(m, i)), ..m }
}

/// The indices of the maximized windows, in stacking order: exactly these
/// receive a configure after the fixup.
pub open spec fn maximized_indices(ws: Seq<Window>) -> Seq<usize>
    decreases ws.len(),
{
    if ws.len() == 0 {
        Seq::empty()
    } else if ws.last().maximized {
        maximized_indices(ws.drop_last()).push((ws.len() - 1) as usize)
    } else {
        maximized_indices(ws.drop_last())
    }
}

/// The state after output `o` reports a new mode.
pub open spec fn mode_set_step(m: Model, o: int, mode: Mode) -> Model {
    Model {
        outputs: m.outputs.update(o, Output { pos: m.outputs[o].pos, mode }),
        ..m
    }
}

/// The decisions one redraw of output `o` follows: the damage submitted to
/// the backend covers the output's whole current mode, and every mapped
/// window — visible or not — receives a frame-completion notification, in
/// stacking order.
pub struct RedrawPlan {
    pub damage: Rect,
    pub frame_targets: Vec<usize>,
}

impl Compositor {
    /// Record output `o`'s new mode, keeping its position.
    pub fn set_output_mode(&mut self, o: usize, mode: Mode)
        requires
            old(self)@.wf(),
            o < old(self)@.outputs.len(),
            mode.size.wf(),
        ensures
            final(self)@ == mode_set_step(old(self)@, o as int, mode),
            final(self)@.wf(),
    {
        let pos = self.outputs[o].pos;
        self.outputs[o] = Output { pos, mode };
        proof {
            assert(self@ =~= mode_set_step(old(self)@, o as int, mode));
            assert forall|i: int| 0 <= i < self@.outputs.len() implies
                (#[trigger] self@.outputs[i]).wf() by {
                if i != o {
                    assert(self@.outputs[i] == old(self)@.outputs[i]);
                }
            }
        }
    }

    /// Re-run the maximize fixup over every mapped window: each window whose
    /// client reports itself maximized gets a new pending size equal to the
    /// full size of the output showing it. The returned indices are the
    /// windows whose pending size must now be sent to their clients.
    pub fn fix_positions(&mut self) -> (r: Vec<usize>)
        requires
            old(self)@.wf(),
        ensures
            final(self)@ == fixup_step(old(self)@),
            final(self)@.wf(),
            r@ == maximized_indices(old(self)@.windows),
    {
        let ghost m0 = self@;
        let mut r: Vec<usize> = Vec::new();
        let mut i: usize = 0;
        while i < self.windows.len()
            invariant
                m0.wf(),
                self@.outputs == m0.outputs,
                self@.grab == m0.grab,
                self@.pressed == m0.pressed,
                self@.pointer == m0.pointer,
                self@.windows.len() == m0.windows.len(),
                i <= m0.windows.len(),
                forall|k: int| 0 <= k < i ==> self@.windows[k] == fixup_window(m0, k),
                forall|k: int| i <= k < m0.windows.len() ==> self@.windows[k] == m0.windows[k],
                r@ == maximized_indices(m0.windows.take(i as int)),
                self@.wf(),
            decreases m0.windows.len() - i,
        {
            let win = self.windows[i];
            if win.maximized {
                proof {
                    lemma_target_output_agrees(self@, m0, i as int);
                    lemma_target_output_in_range(m0, i as int);
                }
                let o = self.output_for_window(i);
                let osize = self.outputs[o].mode.size;
                let nw = Window { pos: win.pos, size: win.size, pending: Some(osize), maximized: true };
                self.windows[i] = nw;
                r.push(i);
                proof {
                    assert(self@.windows[i as int] == fixup_window(m0, i as int));
                    assert forall|k: int| 0 <= k < self@.windows.len() implies
                        (#[trigger] self@.windows[k]).wf() by {
                        if k <= i {
                            assert(self@.windows[k] == fixup_window(m0, k));
                            assert(m0.windows[k].wf());
                        } else {
                            assert(self@.windows[k] == m0.windows[k]);
                        }
                    }
                }
            }
            proof {
                assert(m0.windows.take(i as int + 1).drop_last() =~= m0.windows.take(i as int));
                assert(m0.windows.take(i as int + 1).last() == m0.windows[i as int]);
            }
            i = i + 1;
        }
        proof {
            assert(m0.windows.take(m0.windows.len() as int) =~= m0.windows);
            assert(self@.windows =~= fixup_step(m0).windows);
            assert(self@ =~= fixup_step(m0));
        }
        r
    }

    /// Handle a backend resize event: record the output's new mode, then
    /// re-run the maximize fixup so maximized windows track the change.
    /// Non-maximized windows keep their position and size even if they now
    /// lie out of bounds. The returned indices are the windows whose pending
    /// size must be sent.
    pub fn handle_output_resized(&mut self, o: usize, mode: Mode) -> (r: Vec<usize>)
        requires
            old(self)@.wf(),
            o < old(self)@.outputs.len(),
            mode.size.wf(),
        ensures
            final(self)@ == fixup_step(mode_set_step(old(self)@, o as int, mode)),
            final(self)@.wf(),
            r@ == maximized_indices(old(self)@.windows),
    {
        self.set_output_mode(o, mode);
        self.fix_positions()
    }

    /// Plan one redraw of output `o`: damage covering the output's whole
    /// mode, and a frame-completion notification for every mapped window in
    /// stacking order. Binding the target, compositing, presenting and
    /// delivering the notifications are the caller's I/O.
    pub fn plan_redraw(&self, o: usize) -> (r: RedrawPlan)
        requires
            self@.wf(),
            o < self@.outputs.len(),
        ensures
            r.damage == (Rect {
                pos: Pos { x: 0, y: 0 },
                size: self@.outputs[o as int].mode.size,
            }),
            r.frame_targets@.len() == self@.windows.len(),
            forall|i: int| 0 <= i < self@.windows.len() ==> r.frame_targets@[i] == i,
    {
        let size = self.outputs[o].mode.size;
        let mut frame_targets: Vec<usize> = Vec::new();
        let mut i: usize = 0;
        while i < self.windows.len()
            invariant
                i <= self@.windows.len(),
                frame_targets@.len() == i,
                forall|k: int| 0 <= k < i ==> frame_targets@[k] == k,
            decreases self@.windows.len() - i,
        {
            frame_targets.push(i);
            i = i + 1;
        }
        RedrawPlan { damage: Rect { pos: Pos { x: 0, y: 0 }, size }, frame_targets }
    }
}

} // verus!
