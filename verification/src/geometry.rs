//! Points, sizes and rectangles in the global logical coordinate space, and
//! the pure placement policy: clamping a dragged window to its output.

use vstd::prelude::*;

verus! {

/// A point in the global logical coordinate space.
#[derive(Clone, Copy, PartialEq, Eq, Structural, Debug)]
pub struct Pos {
    pub x: i32,
    pub y: i32,
}

/// A width/height pair in logical pixels.
#[derive(Clone, Copy, PartialEq, Eq, Structural, Debug)]
pub struct Size {
    pub w: i32,
    pub h: i32,
}

impl Size {
    /// Both extents are nonnegative.
    pub open spec fn wf(self) -> bool {
        self.w >= 0 && self.h >= 0
    }
}

/// An axis-aligned rectangle: top-left corner and extent.
#[derive(Clone, Copy, PartialEq, Eq, Structural, Debug)]
pub struct Rect {
    pub pos: Pos,
    pub size: Size,
}

/// Clamp a candidate coordinate so a window of extent `win` stays inside an
/// output of extent `limit + win`, that is to the interval `[0, limit]`.
/// When the window is larger than the output (`limit < 0`) the clamp
/// collapses to the lower bound `0`, letting the window overflow off the far
/// edge.
pub open spec fn clamp_coord(v: int, limit: int) -> int {
    if limit <= 0 {
        0
    } else if v <= 0 {
        0
    } else if v >= limit {
        limit
    } else {
        v
    }
}

/// Where a dragged window lands: the window's position at grab start plus the
/// pointer's movement since grab start, clamped on each axis so the window's
/// bounding box stays within the output's extent.
pub open spec fn moved_pos(w0: Pos, p0: Pos, p: Pos, wsize: Size, osize: Size) -> Pos {
    Pos {
        x: clamp_coord(w0.x + p.x - p0.x, osize.w - wsize.w) as i32,
        y: clamp_coord(w0.y + p.y - p0.y, osize.h - wsize.h) as i32,
    }
}

/// One axis of the drag-follow placement, computed in 64-bit arithmetic so no
/// intermediate value can overflow.
fn clamp_axis(w0: i32, p0: i32, p: i32, out_extent: i32, win_extent: i32) -> (r: i32)
    requires
        win_extent >= 0,
    ensures
        r as int == clamp_coord(w0 + p - p0, out_extent - win_extent),
{
    let cand: i64 = w0 as i64 + p as i64 - p0 as i64;
    let limit: i64 = out_extent as i64 - win_extent as i64;
    let c: i64 = if limit <= 0 {
        0
    } else if cand <= 0 {
        0
    } else if cand >= limit {
        limit
    } else {
        cand
    };
    c as i32
}

/// Executable drag-follow placement; the result is `moved_pos` exactly.
pub fn moved_position(w0: Pos, p0: Pos, p: Pos, wsize: Size, osize: Size) -> (r: Pos)
    requires
        wsize.wf(),
    ensures
        r == moved_pos(w0, p0, p, wsize, osize),
{
    Pos {
        x: clamp_axis(w0.x, p0.x, p.x, osize.w, wsize.w),
        y: clamp_axis(w0.y, p0.y, p.y, osize.h, wsize.h),
    }
}

/// Two rectangles, given as corner and extent, share a region of nonzero
/// area.
pub open spec fn rects_overlap(apos: Pos, asize: Size, bpos: Pos, bsize: Size) -> bool {
    &&& apos.x < bpos.x + bsize.w
    &&& bpos.x < apos.x + asize.w
    &&& apos.y < bpos.y + bsize.h
    &&& bpos.y < apos.y + asize.h
}

/// Executable overlap test, in 64-bit arithmetic so the corner-plus-extent
/// sums cannot overflow.
pub fn rects_overlap_check(apos: Pos, asize: Size, bpos: Pos, bsize: Size) -> (r: bool)
    ensures
        r == rects_overlap(apos, asize, bpos, bsize),
{
    (apos.x as i64) < (bpos.x as i64) + (bsize.w as i64)
        && (bpos.x as i64) < (apos.x as i64) + (asize.w as i64)
        && (apos.y as i64) < (bpos.y as i64) + (bsize.h as i64)
        && (bpos.y as i64) < (apos.y as i64) + (asize.h as i64)
}

} // verus!
