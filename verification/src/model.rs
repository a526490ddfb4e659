//! The compositor's state: outputs, mapped windows, the pointer, the pressed
//! buttons, and the transient move grab, together with its abstract view and
//! the queries both the grab and the render cycle share.

use vstd::prelude::*;
use crate::geometry::{Pos, Size, rects_overlap, rects_overlap_check};

verus! {

/// An output's current mode: pixel size and refresh rate in millihertz.
#[derive(Clone, Copy, PartialEq, Eq, Structural, Debug)]
pub struct Mode {
    pub size: Size,
    pub refresh: i32,
}

/// A display sink, with its position in the global coordinate space and its
/// current mode.
#[derive(Clone, Copy, PartialEq, Eq, Structural, Debug)]
pub struct Output {
    pub pos: Pos,
    pub mode: Mode,
}

impl Output {
    /// The mode's extents are nonnegative.
    pub open spec fn wf(self) -> bool {
        self.mode.size.wf()
    }
}

/// A mapped window: its top-left position in global coordinates, the size the
/// client last committed, the size the compositor has requested and the
/// client has yet to acknowledge, and whether the client reports itself
/// maximized.
#[derive(Clone, Copy, PartialEq, Eq, Debug)]
pub struct Window {
    pub pos: Pos,
    pub size: Size,
    pub pending: Option<Size>,
    pub maximized: bool,
}

impl Window {
    /// The committed size's extents are nonnegative.
    pub open spec fn wf(self) -> bool {
        self.size.wf()
    }
}

/// The immutable snapshot a move grab holds: where the pointer and the window
/// stood when the grab began, and which window is being moved.
#[derive(Clone, Copy, PartialEq, Eq, Structural, Debug)]
pub struct MoveSurfaceGrab {
    pub start_pointer: Pos,
    pub window: usize,
    pub initial_window_location: Pos,
}

/// The grab slot of the input dispatcher: at most one move grab exists at any
/// time, enforced by this being a single tagged value.
#[derive(Clone, Copy, PartialEq, Eq, Structural, Debug)]
pub enum GrabState {
    Inactive,
    Active(MoveSurfaceGrab),
}

/// The abstract state the contracts speak of: the compositor with its
/// collections read as sequences.
#[verifier::ext_equal]
pub struct Model {
    pub outputs: Seq<Output>,
    pub windows: Seq<Window>,
    pub grab: GrabState,
    pub pressed: Seq<u32>,
    pub pointer: Pos,
}

/// No button code occurs twice.
pub open spec fn distinct_codes(s: Seq<u32>) -> bool {
    forall|i: int, j: int| 0 <= i < j < s.len() ==> s[i] != s[j]
}

impl Model {
    /// Well-formedness: at least one output exists, every output and window
    /// has nonnegative extents, an active grab points at a mapped window, and
    /// the pressed set holds no duplicates.
    pub open spec fn wf(self) -> bool {
        &&& self.outputs.len() >= 1
        &&& forall|i: int| 0 <= i < self.outputs.len() ==> (#[trigger] self.outputs[i]).wf()
        &&& forall|i: int| 0 <= i < self.windows.len() ==> (#[trigger] self.windows[i]).wf()
        &&& match self.grab {
            GrabState::Inactive => true,
            GrabState::Active(g) => g.window < self.windows.len(),
        }
        &&& distinct_codes(self.pressed)
    }
}

/// Window `w` overlaps output `o` in the global coordinate space.
pub open spec fn window_on_output(m: Model, w: int, o: int) -> bool {
    rects_overlap(m.windows[w].pos, m.windows[w].size, m.outputs[o].pos, m.outputs[o].mode.size)
}

/// The first output at index `o` or later that shows window `w`, if any.
pub open spec fn first_showing_at(m: Model, w: int, o: int) -> Option<int>
    decreases m.outputs.len() - o,
{
    if o < 0 || o >= m.outputs.len() {
        None
    } else if window_on_output(m, w, o) {
        Some(o)
    } else {
        first_showing_at(m, w, o + 1)
    }
}

/// The output whose size governs window `w`: the first output showing it, or
/// the first output overall when no output shows it yet.
pub open spec fn target_output(m: Model, w: int) -> int {
    match first_showing_at(m, w, 0) {
        Some(o) => o,
        None => 0,
    }
}

/// `first_showing_at` reads only the outputs and the queried window's
/// position and committed size, so two states agreeing there agree on it.
pub proof fn lemma_first_showing_agrees(m1: Model, m2: Model, w: int, o: int)
    requires
        m1.outputs == m2.outputs,
        m1.windows[w].pos == m2.windows[w].pos,
        m1.windows[w].size == m2.windows[w].size,
    ensures
        first_showing_at(m1, w, o) == first_showing_at(m2, w, o),
    decreases m1.outputs.len() - o,
{
    if o < 0 || o >= m1.outputs.len() {
    } else if window_on_output(m1, w, o) {
        assert(window_on_output(m2, w, o));
    } else {
        assert(!window_on_output(m2, w, o));
        lemma_first_showing_agrees(m1, m2, w, o + 1);
    }
}

/// Consequence of `lemma_first_showing_agrees` for the governing output.
pub proof fn lemma_target_output_agrees(m1: Model, m2: Model, w: int)
    requires
        m1.outputs == m2.outputs,
        m1.windows[w].pos == m2.windows[w].pos,
        m1.windows[w].size == m2.windows[w].size,
    ensures
        target_output(m1, w) == target_output(m2, w),
{
    lemma_first_showing_agrees(m1, m2, w, 0);
}

/// A hit of `first_showing_at` lies between where the search started and the
/// end of the output list.
pub proof fn lemma_first_showing_in_range(m: Model, w: int, o: int)
    ensures
        match first_showing_at(m, w, o) {
            Some(i) => o <= i < m.outputs.len(),
            None => true,
        },
    decreases m.outputs.len() - o,
{
    if o < 0 || o >= m.outputs.len() {
    } else if window_on_output(m, w, o) {
    } else {
        lemma_first_showing_in_range(m, w, o + 1);
    }
}

/// The governing output's index is always in range.
pub proof fn lemma_target_output_in_range(m: Model, w: int)
    requires
        m.outputs.len() >= 1,
    ensures
        0 <= target_output(m, w) < m.outputs.len(),
{
    lemma_first_showing_in_range(m, w, 0);
}

/// The pressed set after removing every occurrence of `code`.
pub open spec fn without_code(s: Seq<u32>, code: u32) -> Seq<u32>
    decreases s.len(),
{
    if s.len() == 0 {
        Seq::empty()
    } else if s.last() == code {
        without_code(s.drop_last(), code)
    } else {
        without_code(s.drop_last(), code).push(s.last())
    }
}

/// The pressed set after a button event: a press adds the code unless it is
/// already held, a release removes it.
pub open spec fn pressed_after(s: Seq<u32>, code: u32, is_press: bool) -> Seq<u32> {
    if is_press {
        if s.contains(code) {
            s
        } else {
            s.push(code)
        }
    } else {
        without_code(s, code)
    }
}

/// Removing a code keeps exactly the other codes, in order, and preserves
/// distinctness.
pub proof fn lemma_without_code(s: Seq<u32>, code: u32)
    ensures
        forall|x: u32| #[trigger] without_code(s, code).contains(x) <==> (s.contains(x) && x != code),
        distinct_codes(s) ==> distinct_codes(without_code(s, code)),
        without_code(s, code).len() <= s.len(),
    decreases s.len(),
{
    if s.len() == 0 {
        assert forall|x: u32| #[trigger] without_code(s, code).contains(x) implies false by {
        }
        assert forall|x: u32| s.contains(x) implies false by {
        }
    } else {
        let s0 = s.drop_last();
        let l = s.last();
        lemma_without_code(s0, code);
        assert forall|x: u32| #[trigger] s.contains(x) implies (s0.contains(x) || x == l) by {
            let i = choose|i: int| 0 <= i < s.len() && s[i] == x;
            if i < s.len() - 1 {
                assert(s0[i] == x);
            }
        }
        assert forall|x: u32| s0.contains(x) implies s.contains(x) by {
            let i = choose|i: int| 0 <= i < s0.len() && s0[i] == x;
            assert(s[i] == x);
        }
        assert(s.contains(l)) by {
            assert(s[s.len() - 1] == l);
        }
        if l == code {
            assert(without_code(s, code) == without_code(s0, code));
        } else {
            let r = without_code(s0, code).push(l);
            assert(without_code(s, code) == r);
            assert forall|x: u32| #[trigger] r.contains(x) implies (s.contains(x) && x != code) by {
                let i = choose|i: int| 0 <= i < r.len() && r[i] == x;
                if i < r.len() - 1 {
                    assert(without_code(s0, code)[i] == x);
                    assert(without_code(s0, code).contains(x));
                }
            }
            assert forall|x: u32| s.contains(x) && x != code implies #[trigger] r.contains(x) by {
                if s0.contains(x) {
                    assert(without_code(s0, code).contains(x));
                    let i = choose|i: int| 0 <= i < without_code(s0, code).len()
                        && without_code(s0, code)[i] == x;
                    assert(r[i] == x);
                } else {
                    assert(x == l);
                    assert(r[r.len() - 1] == l);
                }
            }
            if distinct_codes(s) {
                assert(distinct_codes(s0)) by {
                    assert forall|i: int, j: int| 0 <= i < j < s0.len() implies s0[i] != s0[j] by {
                        assert(s[i] == s0[i] && s[j] == s0[j]);
                    }
                }
                assert(!s0.contains(l)) by {
                    if s0.contains(l) {
                        let i = choose|i: int| 0 <= i < s0.len() && s0[i] == l;
                        assert(s[i] == l && s[s.len() - 1] == l);
                    }
                }
                assert(!without_code(s0, code).contains(l));
                assert forall|i: int, j: int| 0 <= i < j < r.len() implies r[i] != r[j] by {
                    if j < r.len() - 1 {
                        assert(without_code(s0, code)[i] != without_code(s0, code)[j]);
                    } else {
                        assert(without_code(s0, code)[i] == r[i]);
                        assert(without_code(s0, code).contains(r[i]));
                    }
                }
            }
        }
    }
}

/// The grab slot after window `i` is unmapped: a grab on that window is
/// released, a grab on a later window follows its shifted index.
pub open spec fn unmap_grab(grab: GrabState, i: int) -> GrabState {
    match grab {
        GrabState::Inactive => GrabState::Inactive,
        GrabState::Active(g) => if g.window == i {
            GrabState::Inactive
        } else if g.window > i {
            GrabState::Active(
                MoveSurfaceGrab {
                    start_pointer: g.start_pointer,
                    window: (g.window - 1) as usize,
                    initial_window_location: g.initial_window_location,
                },
            )
        } else {
            GrabState::Active(g)
        },
    }
}

/// The compositor's concrete state, owned by the single event-loop thread.
/// The input-handling phase and the render phase each borrow it exclusively
/// in turn, so no reader ever observes a half-written update.
pub struct Compositor {
    pub outputs: Vec<Output>,
    pub windows: Vec<Window>,
    pub grab: GrabState,
    pub pressed: Vec<u32>,
    pub pointer: Pos,
}

impl View for Compositor {
    type V = Model;

    open spec fn view(&self) -> Model {
        Model {
            outputs: self.outputs@,
            windows: self.windows@,
            grab: self.grab,
            pressed: self.pressed@,
            pointer: self.pointer,
        }
    }
}

impl Compositor {
    /// A fresh compositor with one output, no windows, no grab, no pressed
    /// buttons, and the pointer at the origin. At least one output must
    /// exist before any placement or render logic runs; a configuration
    /// without one is rejected at startup, not here.
    pub fn new(first_output: Output) -> (r: Compositor)
        requires
            first_output.wf(),
        ensures
            r@.wf(),
            r@.outputs == seq![first_output],
            r@.windows == Seq::<Window>::empty(),
            r@.grab == GrabState::Inactive,
            r@.pressed == Seq::<u32>::empty(),
            r@.pointer == (Pos { x: 0, y: 0 }),
    {
        let mut outputs: Vec<Output> = Vec::new();
        outputs.push(first_output);
        let r = Compositor {
            outputs,
            windows: Vec::new(),
            grab: GrabState::Inactive,
            pressed: Vec::new(),
            pointer: Pos { x: 0, y: 0 },
        };
        proof {
            assert(r@.outputs =~= seq![first_output]);
        }
        r
    }

    /// Register one more output, keeping the enumeration order.
    pub fn add_output(&mut self, output: Output)
        requires
            old(self)@.wf(),
            output.wf(),
        ensures
            final(self)@ == (Model { outputs: old(self)@.outputs.push(output), ..old(self)@ }),
            final(self)@.wf(),
    {
        self.outputs.push(output);
    }

    /// Map a window: it enters the layout model at the end of the stacking
    /// order and its index is returned.
    pub fn map_window(&mut self, window: Window) -> (r: usize)
        requires
            old(self)@.wf(),
            window.wf(),
        ensures
            final(self)@ == (Model { windows: old(self)@.windows.push(window), ..old(self)@ }),
            final(self)@.wf(),
            r == old(self)@.windows.len(),
    {
        let r = self.windows.len();
        self.windows.push(window);
        r
    }

    /// Unmap window `i`. A grab on that window is auto-released; a grab on a
    /// later window keeps following it under its shifted index.
    pub fn unmap_window(&mut self, i: usize)
        requires
            old(self)@.wf(),
            i < old(self)@.windows.len(),
        ensures
            final(self)@ == (Model {
                windows: old(self)@.windows.remove(i as int),
                grab: unmap_grab(old(self)@.grab, i as int),
                ..old(self)@
            }),
            final(self)@.wf(),
    {
        self.windows.remove(i);
        let g = self.grab;
        match g {
            GrabState::Inactive => {},
            GrabState::Active(g) => {
                if g.window == i {
                    self.grab = GrabState::Inactive;
                } else if g.window > i {
                    self.grab = GrabState::Active(
                        MoveSurfaceGrab {
                            start_pointer: g.start_pointer,
                            window: g.window - 1,
                            initial_window_location: g.initial_window_location,
                        },
                    );
                }
            },
        }
    }

    /// Claim the pointer for moving window `window`, taking the immutable
    /// snapshot the grab later computes deltas against. The claim is
    /// exclusive: while a grab is already active the request is ignored and
    /// `false` comes back.
    pub fn begin_move_grab(&mut self, window: usize) -> (r: bool)
        requires
            old(self)@.wf(),
            window < old(self)@.windows.len(),
        ensures
            old(self)@.grab == GrabState::Inactive ==> final(self)@ == (Model {
                grab: GrabState::Active(
                    MoveSurfaceGrab {
                        start_pointer: old(self)@.pointer,
                        window,
                        initial_window_location: old(self)@.windows[window as int].pos,
                    },
                ),
                ..old(self)@
            }),
            old(self)@.grab != GrabState::Inactive ==> final(self)@ == old(self)@,
            r == (old(self)@.grab == GrabState::Inactive),
            final(self)@.wf(),
    {
        match self.grab {
            GrabState::Inactive => {
                self.grab = GrabState::Active(
                    MoveSurfaceGrab {
                        start_pointer: self.pointer,
                        window,
                        initial_window_location: self.windows[window].pos,
                    },
                );
                true
            },
            GrabState::Active(_) => false,
        }
    }

    /// The output whose size governs window `w`: the first output showing
    /// it, falling back to the first output in enumeration order when no
    /// output shows the window yet.
    pub fn output_for_window(&self, w: usize) -> (r: usize)
        requires
            self@.wf(),
            w < self@.windows.len(),
        ensures
            r as int == target_output(self@, w as int),
            r < self@.outputs.len(),
    {
        let win = self.windows[w];
        let mut o: usize = 0;
        while o < self.outputs.len()
            invariant
                self@.wf(),
                w < self@.windows.len(),
                win == self@.windows[w as int],
                o <= self@.outputs.len(),
                first_showing_at(self@, w as int, 0) == first_showing_at(self@, w as int, o as int),
            decreases self@.outputs.len() - o,
        {
            let out = self.outputs[o];
            if rects_overlap_check(win.pos, win.size, out.pos, out.mode.size) {
                proof {
                    assert(window_on_output(self@, w as int, o as int));
                    assert(first_showing_at(self@, w as int, o as int) == Some(o as int));
                }
                return o;
            }
            proof {
                assert(!window_on_output(self@, w as int, o as int));
                assert(first_showing_at(self@, w as int, o as int)
                    == first_showing_at(self@, w as int, o as int + 1));
            }
            o = o + 1;
        }
        proof {
            assert(first_showing_at(self@, w as int, o as int) is None);
        }
        0
    }

    /// Whether `code` is currently held.
    fn pressed_contains(&self, code: u32) -> (r: bool)
        ensures
            r == self@.pressed.contains(code),
    {
        let mut j: usize = 0;
        while j < self.pressed.len()
            invariant
                j <= self@.pressed.len(),
                forall|k: int| 0 <= k < j ==> self@.pressed[k] != code,
            decreases self@.pressed.len() - j,
        {
            if self.pressed[j] == code {
                proof {
                    assert(self@.pressed[j as int] == code);
                }
                return true;
            }
            j = j + 1;
        }
        false
    }

    /// Apply a button event to the pressed set alone.
    pub(crate) fn update_pressed(&mut self, code: u32, is_press: bool)
        requires
            distinct_codes(old(self)@.pressed),
        ensures
            final(self)@ == (Model {
                pressed: pressed_after(old(self)@.pressed, code, is_press),
                ..old(self)@
            }),
            distinct_codes(final(self)@.pressed),
    {
        proof {
            lemma_without_code(self@.pressed, code);
        }
        if is_press {
            if !self.pressed_contains(code) {
                self.pressed.push(code);
                proof {
                    let s = old(self)@.pressed;
                    assert forall|i: int, j: int|
                        0 <= i < j < s.push(code).len() implies s.push(code)[i] != s.push(code)[j] by {
                        if j == s.len() {
                            assert(s.push(code)[j] == code);
                            if s.push(code)[i] == code {
                                assert(s[i] == code);
                                assert(s.contains(code));
                            }
                        }
                    }
                }
            }
        } else {
            let ghost t = self@.pressed;
            let mut kept: Vec<u32> = Vec::new();
            let mut j: usize = 0;
            while j < self.pressed.len()
                invariant
                    j <= self.pressed@.len(),
                    self.pressed@ == t,
                    kept@ == without_code(t.take(j as int), code),
                decreases self.pressed@.len() - j,
            {
                let c = self.pressed[j];
                if c != code {
                    kept.push(c);
                }
                proof {
                    assert(t.take(j as int + 1).drop_last() =~= t.take(j as int));
                    assert(t.take(j as int + 1).last() == t[j as int]);
                }
                j = j + 1;
            }
            proof {
                assert(t.take(t.len() as int) =~= t);
            }
            self.pressed = kept;
        }
    }
}

} // verus!
