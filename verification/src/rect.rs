//! Axis-aligned rectangles on the fixed-point plane.

use vstd::prelude::*;
use crate::units::{within_limit, COORD_LIMIT};

verus! {

/// An axis-aligned rectangle: origin at its top-left corner, `y` growing
/// downward, every field a whole number of position units.
#[derive(Debug, Clone, Copy, PartialEq, Eq, Structural)]
pub struct Rect {
    pub x: i64,
    pub y: i64,
    pub width: i64,
    pub height: i64,
}

/// The rectangle as four mathematical integers.
pub struct RectView {
    pub x: int,
    pub y: int,
    pub width: int,
    pub height: int,
}

impl RectView {
    /// The right edge.
    pub open spec fn right(self) -> int {
        self.x + self.width
    }

    /// The bottom edge.
    pub open spec fn bottom(self) -> int {
        self.y + self.height
    }

    /// The same rectangle displaced by `d` along x.
    pub open spec fn shift_x(self, d: int) -> RectView {
        RectView { x: self.x + d, ..self }
    }

    /// The same rectangle displaced by `d` along y.
    pub open spec fn shift_y(self, d: int) -> RectView {
        RectView { y: self.y + d, ..self }
    }

    /// The same rectangle with its left edge at `x`.
    pub open spec fn with_x(self, x: int) -> RectView {
        RectView { x, ..self }
    }

    /// The same rectangle with its top edge at `y`.
    pub open spec fn with_y(self, y: int) -> RectView {
        RectView { y, ..self }
    }

    /// The same rectangle, size kept, with its right edge at `right`.
    pub open spec fn with_right(self, right: int) -> RectView {
        RectView { x: right - self.width, ..self }
    }

    /// The same rectangle, size kept, with its bottom edge at `bottom`.
    pub open spec fn with_bottom(self, bottom: int) -> RectView {
        RectView { y: bottom - self.height, ..self }
    }

    /// Extents are not negative.
    pub open spec fn wf(self) -> bool {
        self.width >= 0 && self.height >= 0
    }

    /// Well-formed, with every field within `COORD_LIMIT`.
    pub open spec fn in_bounds(self) -> bool {
        &&& self.wf()
        &&& within_limit(self.x)
        &&& within_limit(self.y)
        &&& within_limit(self.width)
        &&& within_limit(self.height)
    }

    /// Every field fits a machine word.
    pub open spec fn representable(self) -> bool {
        &&& i64::MIN <= self.x <= i64::MAX
        &&& i64::MIN <= self.y <= i64::MAX
        &&& i64::MIN <= self.width <= i64::MAX
        &&& i64::MIN <= self.height <= i64::MAX
    }
}

impl View for Rect {
    type V = RectView;

    open spec fn view(&self) -> RectView {
        RectView { x: self.x as int, y: self.y as int, width: self.width as int, height: self.height as int }
    }
}

impl Default for Rect {
    fn default() -> (r: Rect)
        ensures
            r@ == (RectView { x: 0, y: 0, width: 0, height: 0 }),
    {
        Rect { x: 0, y: 0, width: 0, height: 0 }
    }
}

impl Rect {
    /// A rectangle with its top-left corner at (`x`, `y`).
    pub fn new(x: i64, y: i64, width: i64, height: i64) -> (r: Rect)
        ensures
            r@ == (RectView { x: x as int, y: y as int, width: width as int, height: height as int }),
    {
        Rect { x, y, width, height }
    }

    /// The right edge, `x + width`.
    pub fn right(&self) -> (r: i64)
        requires
            i64::MIN <= self@.right() <= i64::MAX,
        ensures
            r == self@.right(),
    {
        self.x + self.width
    }

    /// The bottom edge, `y + height`.
    pub fn bottom(&self) -> (r: i64)
        requires
            i64::MIN <= self@.bottom() <= i64::MAX,
        ensures
            r == self@.bottom(),
    {
        self.y + self.height
    }

    /// Puts the right edge at `right`; the size stays.
    pub fn move_right(&mut self, right: i64)
        requires
            i64::MIN <= right - old(self).width <= i64::MAX,
        ensures
            final(self)@ == old(self)@.with_right(right as int),
    {
        self.x = right - self.width;
    }

    /// Puts the bottom edge at `bottom`; the size stays.
    pub fn move_bottom(&mut self, bottom: i64)
        requires
            i64::MIN <= bottom - old(self).height <= i64::MAX,
        ensures
            final(self)@ == old(self)@.with_bottom(bottom as int),
    {
        self.y = bottom - self.height;
    }

    /// Whether the rectangle is well-formed with every field within
    /// `COORD_LIMIT`.
    pub fn in_bounds(&self) -> (ok: bool)
        ensures
            ok == self@.in_bounds(),
    {
        self.width >= 0 && self.height >= 0 && self.width <= COORD_LIMIT && self.height
            <= COORD_LIMIT && -COORD_LIMIT <= self.x && self.x <= COORD_LIMIT && -COORD_LIMIT
            <= self.y && self.y <= COORD_LIMIT
    }
}

} // verus!
