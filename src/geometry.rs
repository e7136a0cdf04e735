//! Pixel rectangles and the penrose geometry operations the placement logic uses.
use vstd::prelude::*;

verus! {

/// Largest coordinate or extent the X protocol can carry (16 bits).
pub const MAX_COORD: u32 = 0xffff;

/// An absolute rectangle in pixels: top-left corner, width and height.
#[derive(Clone, Copy, Debug, PartialEq, Eq, Structural)]
pub struct Rect {
    pub x: u32,
    pub y: u32,
    pub w: u32,
    pub h: u32,
}

/// A point in root-window coordinates.
#[derive(Clone, Copy, Debug, PartialEq, Eq, Structural)]
pub struct Point {
    pub x: u32,
    pub y: u32,
}

impl Rect {
    pub open spec fn in_x_range(self) -> bool {
        self.x <= MAX_COORD && self.y <= MAX_COORD && self.w <= MAX_COORD && self.h <= MAX_COORD
    }

    pub fn new(x: u32, y: u32, w: u32, h: u32) -> (r: Rect)
        ensures
            r == (Rect { x, y, w, h }),
    {
        Rect { x, y, w, h }
    }
}

impl Point {
    pub open spec fn in_x_range(self) -> bool {
        self.x <= MAX_COORD && self.y <= MAX_COORD
    }

    pub fn new(x: u32, y: u32) -> (p: Point)
        ensures
            p == (Point { x, y }),
    {
        Point { x, y }
    }
}

/// Whether `r` fits inside `enclosing` when moved to its center.
pub open spec fn fits_in(r: Rect, enclosing: Rect) -> bool {
    r.w <= enclosing.w && r.h <= enclosing.h
}

/// `r` moved so that it sits at the center of `enclosing` (rounding towards the top left).
pub open spec fn centered_spec(r: Rect, enclosing: Rect) -> Rect
    recommends
        fits_in(r, enclosing),
{
    Rect {
        x: (enclosing.x + (enclosing.w - r.w) / 2) as u32,
        y: (enclosing.y + (enclosing.h - r.h) / 2) as u32,
        w: r.w,
        h: r.h,
    }
}

/// Whether centering `r` in `enclosing` stays within `u32`.
pub open spec fn centering_fits_u32(r: Rect, enclosing: Rect) -> bool {
    fits_in(r, enclosing) ==> enclosing.x + (enclosing.w - r.w) / 2 <= u32::MAX
        && enclosing.y + (enclosing.h - r.h) / 2 <= u32::MAX
}

/// Relies on penrose's `Rect::centered_in`: `None` when the rectangle is wider or
/// taller than the enclosing one, else the same size moved to its center.
#[verifier::external_body]
pub(crate) fn centered_in(r: Rect, enclosing: Rect) -> (res: Option<Rect>)
    requires
        centering_fits_u32(r, enclosing),
    ensures
        res == (if fits_in(r, enclosing) {
            Some(centered_spec(r, enclosing))
        } else {
            None
        }),
{
    let pr = penrose::pure::geometry::Rect::new(r.x, r.y, r.w, r.h);
    let pe = penrose::pure::geometry::Rect::new(enclosing.x, enclosing.y, enclosing.w, enclosing.h);
    pr.centered_in(&pe).map(|c| Rect { x: c.x, y: c.y, w: c.w, h: c.h })
}

/// Clamp at zero of a signed coordinate.
pub open spec fn floor_at(lo: int, v: int) -> int {
    if v < lo {
        lo
    } else {
        v
    }
}

/// `r` moved by `(dx, dy)`, with the corner clamped at the origin.
pub open spec fn repositioned(r: Rect, dx: int, dy: int) -> Rect {
    Rect { x: floor_at(0, r.x + dx) as u32, y: floor_at(0, r.y + dy) as u32, w: r.w, h: r.h }
}

/// `r` grown by `(dw, dh)`, each extent kept at one pixel or more.
pub open spec fn resized(r: Rect, dw: int, dh: int) -> Rect {
    Rect { x: r.x, y: r.y, w: floor_at(1, r.w + dw) as u32, h: floor_at(1, r.h + dh) as u32 }
}

/// Whether `v + d` can be computed in `i32` from a `u32` that fits `i32`.
pub open spec fn shift_fits_i32(v: u32, d: i32) -> bool {
    v <= i32::MAX && i32::MIN <= v + d <= i32::MAX
}

/// Relies on penrose's `Rect::reposition`: adds the deltas to the corner, clamping at zero.
#[verifier::external_body]
pub(crate) fn reposition(r: Rect, dx: i32, dy: i32) -> (res: Rect)
    requires
        shift_fits_i32(r.x, dx),
        shift_fits_i32(r.y, dy),
    ensures
        res == repositioned(r, dx as int, dy as int),
{
    let mut pr = penrose::pure::geometry::Rect::new(r.x, r.y, r.w, r.h);
    pr.reposition(dx, dy);
    Rect { x: pr.x, y: pr.y, w: pr.w, h: pr.h }
}

/// Relies on penrose's `Rect::resize`: adds the deltas to the extents, keeping each at least one.
#[verifier::external_body]
pub(crate) fn resize(r: Rect, dw: i32, dh: i32) -> (res: Rect)
    requires
        shift_fits_i32(r.w, dw),
        shift_fits_i32(r.h, dh),
    ensures
        res == resized(r, dw as int, dh as int),
{
    let mut pr = penrose::pure::geometry::Rect::new(r.x, r.y, r.w, r.h);
    pr.resize(dw, dh);
    Rect { x: pr.x, y: pr.y, w: pr.w, h: pr.h }
}

} // verus!
