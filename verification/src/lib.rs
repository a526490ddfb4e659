//! Interactive core of a minimal desktop compositor.
//!
//! The crate models the state that the single-threaded event loop of such a
//! compositor owns — the outputs, the mapped windows with their committed and
//! pending sizes, the pointer, and the transient move grab — and verifies the
//! logic that drives it: drag-follow placement with clamping, the edge-snap
//! policy evaluated when the grab ends, pressed-button accounting, the
//! maximize fixup run after an output changes mode, and the per-frame redraw
//! plan. Everything that talks to clients or to the display backend (sending
//! events, rendering, presenting) is left to the caller, which performs the
//! actions the library decides on.

pub mod geometry;
pub mod model;
pub mod grab;
pub mod render;
pub mod laws;
