//! The tile grid and the axis-separated collision resolver.
//!
//! A move is resolved one axis at a time, vertical first. On each axis the
//! rectangle is displaced by the whole step, the cells along its leading edge
//! are tested at the place it then stands, and on a solid cell that edge is
//! put back on the cell boundary. The horizontal pass works on the rectangle
//! that the vertical pass left.

use vstd::prelude::*;
use crate::rect::{Rect, RectView};
use crate::units::{ceil_cell, cell_end, cell_of, floor_cell, within_limit, UNIT};

verus! {

/// Which sides of a moving rectangle touched a solid cell during one move.
#[derive(Debug, Clone, Copy, PartialEq, Eq, Structural)]
pub struct Collision {
    pub left: bool,
    pub right: bool,
    pub top: bool,
    pub bottom: bool,
}

impl Collision {
    /// No side touched anything.
    pub open spec fn none() -> Collision {
        Collision { left: false, right: false, top: false, bottom: false }
    }

    /// True exactly when the downward sweep touched a solid cell.
    pub fn is_on_floor(&self) -> (r: bool)
        ensures
            r == self.bottom,
    {
        self.bottom
    }
}

impl Default for Collision {
    fn default() -> (c: Collision)
        ensures
            c == Collision::none(),
    {
        Collision { left: false, right: false, top: false, bottom: false }
    }
}

/// A grid of cells, row by row from the top. A cell holding 1 is solid, and
/// so is every place outside the grid; rows may differ in length.
pub struct TileMap {
    pub blocks: Vec<Vec<u8>>,
}

impl View for TileMap {
    type V = Seq<Seq<u8>>;

    open spec fn view(&self) -> Seq<Seq<u8>> {
        Seq::new(self.blocks@.len(), |i: int| self.blocks@[i]@)
    }
}

/// The open interior of `r` meets the open interior of cell (`col`, `row`).
pub open spec fn overlaps_cell(r: RectView, col: int, row: int) -> bool {
    &&& r.x < (col + 1) * UNIT
    &&& col * UNIT < r.right()
    &&& r.y < (row + 1) * UNIT
    &&& row * UNIT < r.bottom()
}

impl TileMap {
    /// The value of cell (`x`, `y`); 1 for every place outside the grid.
    pub open spec fn cell(&self, x: int, y: int) -> u8 {
        if x < 0 || y < 0 || y >= self@.len() || x >= self@[y].len() {
            1u8
        } else {
            self@[y][x]
        }
    }

    /// Cell (`x`, `y`) stops movement.
    pub open spec fn solid(&self, x: int, y: int) -> bool {
        self.cell(x, y) == 1
    }

    /// Some cell of row `row` in columns `lo..hi` is solid.
    pub open spec fn row_hit(&self, lo: int, hi: int, row: int) -> bool {
        exists|c: int| lo <= c < hi && #[trigger] self.solid(c, row)
    }

    /// Some cell of column `col` in rows `lo..hi` is solid.
    pub open spec fn column_hit(&self, col: int, lo: int, hi: int) -> bool {
        exists|r: int| lo <= r < hi && #[trigger] self.solid(col, r)
    }

    /// A solid cell lies in the row of `t`'s bottom edge, under its width.
    pub open spec fn floor_contact(&self, t: RectView) -> bool {
        self.row_hit(cell_of(t.x), cell_end(t.right()), cell_of(t.bottom()))
    }

    /// A solid cell lies in the row of `t`'s top edge, over its width.
    pub open spec fn ceiling_contact(&self, t: RectView) -> bool {
        self.row_hit(cell_of(t.x), cell_end(t.right()), cell_of(t.y))
    }

    /// A solid cell lies in the column of `t`'s right edge, along its height.
    pub open spec fn right_contact(&self, t: RectView) -> bool {
        self.column_hit(cell_of(t.right()), cell_of(t.y), cell_end(t.bottom()))
    }

    /// A solid cell lies in the column of `t`'s left edge, along its height.
    pub open spec fn left_contact(&self, t: RectView) -> bool {
        self.column_hit(cell_of(t.x), cell_of(t.y), cell_end(t.bottom()))
    }

    /// The vertical pass: where `r` stands after moving by `dy * dt` along y,
    /// and whether its bottom or its top was stopped.
    pub open spec fn vertical_pass(&self, r: RectView, dy: int, dt: int) -> (RectView, Collision) {
        let t = r.shift_y(dy * dt);
        if dy > 0 {
            if self.floor_contact(t) {
                (
                    t.with_bottom(cell_of(t.bottom()) * UNIT),
                    Collision { bottom: true, ..Collision::none() },
                )
            } else {
                (t, Collision::none())
            }
        } else if dy < 0 {
            if self.ceiling_contact(t) {
                (t.with_y((cell_of(t.y) + 1) * UNIT), Collision { top: true, ..Collision::none() })
            } else {
                (t, Collision::none())
            }
        } else {
            (r, Collision::none())
        }
    }

    /// The horizontal pass: where `r` stands after moving by `dx * dt` along
    /// x, and whether its right or its left side was stopped.
    pub open spec fn horizontal_pass(&self, r: RectView, dx: int, dt: int) -> (
        RectView,
        Collision,
    ) {
        let t = r.shift_x(dx * dt);
        if dx > 0 {
            if self.right_contact(t) {
                (
                    t.with_right(cell_of(t.right()) * UNIT),
                    Collision { right: true, ..Collision::none() },
                )
            } else {
                (t, Collision::none())
            }
        } else if dx < 0 {
            if self.left_contact(t) {
                (t.with_x((cell_of(t.x) + 1) * UNIT), Collision { left: true, ..Collision::none() })
            } else {
                (t, Collision::none())
            }
        } else {
            (r, Collision::none())
        }
    }

    /// A whole move: the vertical pass, then the horizontal pass on what it
    /// left, with the contacts of both.
    pub open spec fn resolve(&self, r: RectView, dx: int, dy: int, dt: int) -> (
        RectView,
        Collision,
    ) {
        let (after_y, v) = self.vertical_pass(r, dy, dt);
        let (after_x, h) = self.horizontal_pass(after_y, dx, dt);
        (after_x, Collision { left: h.left, right: h.right, top: v.top, bottom: v.bottom })
    }

    /// A grid over the given rows.
    pub fn new(blocks: Vec<Vec<u8>>) -> (m: TileMap)
        ensures
            m.blocks == blocks,
    {
        TileMap { blocks }
    }

    /// The value of cell (`x`, `y`). Negative coordinates, rows past the last
    /// and columns past the end of their row all read as solid.
    pub fn get_i(&self, x: i64, y: i64) -> (v: u8)
        ensures
            v == self.cell(x as int, y as int),
            x < 0 || y < 0 || y >= self@.len() || x >= self@[y as int].len() ==> v == 1,
    {
        if x < 0 || y < 0 || (y as u64) >= (self.blocks.len() as u64) {
            1u8
        } else {
            let line = &self.blocks[y as usize];
            if (x as u64) >= (line.len() as u64) {
                1u8
            } else {
                line[x as usize]
            }
        }
    }

    /// Whether row `row` holds a solid cell in columns `lo..hi`.
    pub fn row_blocked(&self, lo: i64, hi: i64, row: i64) -> (hit: bool)
        ensures
            hit == self.row_hit(lo as int, hi as int, row as int),
    {
        let mut c: i64 = lo;
        while c < hi
            invariant
                lo <= c,
                forall|k: int| lo <= k < c ==> !#[trigger] self.solid(k, row as int),
            decreases hi - c,
        {
            if self.get_i(c, row) == 1 {
                assert(self.solid(c as int, row as int));
                return true;
            }
            c = c + 1;
        }
        false
    }

    /// Whether column `col` holds a solid cell in rows `lo..hi`.
    pub fn column_blocked(&self, col: i64, lo: i64, hi: i64) -> (hit: bool)
        ensures
            hit == self.column_hit(col as int, lo as int, hi as int),
    {
        let mut r: i64 = lo;
        while r < hi
            invariant
                lo <= r,
                forall|k: int| lo <= k < r ==> !#[trigger] self.solid(col as int, k),
            decreases hi - r,
        {
            if self.get_i(col, r) == 1 {
                assert(self.solid(col as int, r as int));
                return true;
            }
            r = r + 1;
        }
        false
    }

    /// Moves `rect` at velocity (`dx`, `dy`) for `time_passed` ticks against
    /// the grid and reports which of its sides were stopped.
    pub fn move_item(&self, rect: &mut Rect, dx: i64, dy: i64, time_passed: i64) -> (c: Collision)
        requires
            old(rect)@.in_bounds(),
            within_limit(dx * time_passed),
            within_limit(dy * time_passed),
        ensures
            final(rect)@ == self.resolve(old(rect)@, dx as int, dy as int, time_passed as int).0,
            c == self.resolve(old(rect)@, dx as int, dy as int, time_passed as int).1,
    {
        let mut collision = Collision::default();

        if dy != 0 {
            rect.y = rect.y + dy * time_passed;
            let lo = floor_cell(rect.x);
            let hi = ceil_cell(rect.right());
            if dy > 0 {
                let row = floor_cell(rect.bottom());
                if self.row_blocked(lo, hi, row) {
                    rect.move_bottom(row * UNIT);
                    collision.bottom = true;
                }
            } else {
                let row = floor_cell(rect.y);
                if self.row_blocked(lo, hi, row) {
                    rect.y = (row + 1) * UNIT;
                    collision.top = true;
                }
            }
        }

        if dx != 0 {
            rect.x = rect.x + dx * time_passed;
            let lo = floor_cell(rect.y);
            let hi = ceil_cell(rect.bottom());
            if dx > 0 {
                let col = floor_cell(rect.right());
                if self.column_blocked(col, lo, hi) {
                    rect.move_right(col * UNIT);
                    collision.right = true;
                }
            } else {
                let col = floor_cell(rect.x);
                if self.column_blocked(col, lo, hi) {
                    rect.x = (col + 1) * UNIT;
                    collision.left = true;
                }
            }
        }

        collision
    }

    /// Every place outside the grid is solid: left of column 0, above row 0,
    /// below the last row, or past the end of its row.
    pub proof fn lemma_outside_is_solid(&self, x: int, y: int)
        requires
            x < 0 || y < 0 || y >= self@.len() || x >= self@[y].len(),
        ensures
            self.cell(x, y) == 1,
            self.solid(x, y),
    {
    }

    /// At zero velocity a move leaves the rectangle where it is and reports
    /// no contact, wherever it stands and however long the step.
    pub proof fn lemma_rest_changes_nothing(&self, r: RectView, dt: int)
        ensures
            self.resolve(r, 0, 0, dt) == (r, Collision::none()),
    {
    }

    /// A move never changes the size of the rectangle, and each contact is
    /// reported only for the direction of travel.
    pub proof fn lemma_resolve_keeps_size(&self, r: RectView, dx: int, dy: int, dt: int)
        ensures
            self.resolve(r, dx, dy, dt).0.width == r.width,
            self.resolve(r, dx, dy, dt).0.height == r.height,
            self.resolve(r, dx, dy, dt).1.bottom ==> dy > 0,
            self.resolve(r, dx, dy, dt).1.top ==> dy < 0,
            self.resolve(r, dx, dy, dt).1.right ==> dx > 0,
            self.resolve(r, dx, dy, dt).1.left ==> dx < 0,
    {
    }

    /// A falling rectangle whose displaced bottom edge lies in a row with a
    /// solid cell under it stops with that edge exactly on the row's upper
    /// boundary: no lower than where the step would have taken it, less than
    /// a cell above, and clear of every cell of that row.
    pub proof fn lemma_fall_stops_on_boundary(&self, r: RectView, dx: int, dy: int, dt: int)
        requires
            dy > 0,
            self.floor_contact(r.shift_y(dy * dt)),
        ensures
            ({
                let (out, c) = self.resolve(r, dx, dy, dt);
                let row = cell_of(r.bottom() + dy * dt);
                &&& c.bottom
                &&& !c.top
                &&& out.bottom() == row * UNIT
                &&& out.bottom() % (UNIT as int) == 0
                &&& out.bottom() <= r.bottom() + dy * dt < out.bottom() + UNIT
                &&& forall|col: int| !overlaps_cell(out, col, row)
            }),
    {
    }

    /// A falling rectangle that meets no solid cell moves by the whole step
    /// and reports no floor.
    pub proof fn lemma_fall_is_free(&self, r: RectView, dx: int, dy: int, dt: int)
        requires
            dy > 0,
            !self.floor_contact(r.shift_y(dy * dt)),
        ensures
            self.resolve(r, dx, dy, dt).0.y == r.y + dy * dt,
            !self.resolve(r, dx, dy, dt).1.bottom,
            !self.resolve(r, dx, dy, dt).1.top,
    {
    }

    /// A rising rectangle whose displaced top edge lies in a row with a solid
    /// cell over it stops with that edge exactly on the row's lower boundary,
    /// clear of every cell of that row.
    pub proof fn lemma_rise_stops_on_boundary(&self, r: RectView, dx: int, dy: int, dt: int)
        requires
            dy < 0,
            self.ceiling_contact(r.shift_y(dy * dt)),
        ensures
            ({
                let (out, c) = self.resolve(r, dx, dy, dt);
                let row = cell_of(r.y + dy * dt);
                &&& c.top
                &&& !c.bottom
                &&& out.y == (row + 1) * UNIT
                &&& out.y % (UNIT as int) == 0
                &&& out.y - UNIT <= r.y + dy * dt < out.y
                &&& forall|col: int| !overlaps_cell(out, col, row)
            }),
    {
    }

    /// A rectangle moving right whose displaced right edge lies in a column
    /// with a solid cell beside it stops with that edge exactly on the
    /// column's left boundary, clear of every cell of that column. The
    /// rectangle it displaces is the one the vertical pass left.
    pub proof fn lemma_right_stops_on_boundary(&self, r: RectView, dx: int, dy: int, dt: int)
        requires
            dx > 0,
            self.right_contact(self.vertical_pass(r, dy, dt).0.shift_x(dx * dt)),
        ensures
            ({
                let (out, c) = self.resolve(r, dx, dy, dt);
                let col = cell_of(r.right() + dx * dt);
                &&& c.right
                &&& !c.left
                &&& out.right() == col * UNIT
                &&& out.right() % (UNIT as int) == 0
                &&& out.right() <= r.right() + dx * dt < out.right() + UNIT
                &&& out.y == self.vertical_pass(r, dy, dt).0.y
                &&& forall|row: int| !overlaps_cell(out, col, row)
            }),
    {
    }

    /// A rectangle moving left whose displaced left edge lies in a column
    /// with a solid cell beside it stops with that edge exactly on the
    /// column's right boundary, clear of every cell of that column. The
    /// rectangle it displaces is the one the vertical pass left.
    pub proof fn lemma_left_stops_on_boundary(&self, r: RectView, dx: int, dy: int, dt: int)
        requires
            dx < 0,
            self.left_contact(self.vertical_pass(r, dy, dt).0.shift_x(dx * dt)),
        ensures
            ({
                let (out, c) = self.resolve(r, dx, dy, dt);
                let col = cell_of(r.x + dx * dt);
                &&& c.left
                &&& !c.right
                &&& out.x == (col + 1) * UNIT
                &&& out.x % (UNIT as int) == 0
                &&& out.x - UNIT <= r.x + dx * dt < out.x
                &&& out.y == self.vertical_pass(r, dy, dt).0.y
                &&& forall|row: int| !overlaps_cell(out, col, row)
            }),
    {
    }
}

} // verus!
