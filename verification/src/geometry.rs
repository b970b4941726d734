//! Screen rectangles, pane cells and the cell ranges a drag selects.

use vstd::prelude::*;

verus! {

/// A rectangle of screen cells.
#[derive(Clone, Copy, Debug, PartialEq, Eq, Structural)]
pub struct Rect {
    pub x: u16,
    pub y: u16,
    pub width: u16,
    pub height: u16,
}

impl Rect {
    /// Whether both far edges are representable coordinates.
    pub open spec fn fits(self) -> bool {
        self.x + self.width <= u16::MAX && self.y + self.height <= u16::MAX
    }

    /// Whether the rectangle has no cells.
    pub open spec fn empty(self) -> bool {
        self.width == 0 || self.height == 0
    }

    /// Whether the screen cell (`col`, `row`) is one of the rectangle's.
    /// Cells past the last representable coordinate do not exist.
    pub open spec fn covers(self, col: int, row: int) -> bool {
        self.x <= col < capped(self.x + self.width) && self.y <= row < capped(self.y + self.height)
    }

    /// Whether every cell of `self` is a cell of `outer`.
    pub open spec fn within(self, outer: Rect) -> bool {
        outer.x <= self.x && outer.y <= self.y && self.x + self.width <= outer.x + outer.width
            && self.y + self.height <= outer.y + outer.height
    }

    /// Whether the screen cell (`col`, `row`) is one of the rectangle's.
    pub fn contains(&self, col: u16, row: u16) -> (r: bool)
        ensures
            r == self.covers(col as int, row as int),
    {
        col >= self.x && col < self.x.saturating_add(self.width) && row >= self.y && row
            < self.y.saturating_add(self.height)
    }

    /// Whether the rectangle has no cells.
    pub fn is_empty(&self) -> (r: bool)
        ensures
            r == self.empty(),
    {
        self.width == 0 || self.height == 0
    }
}

/// `n`, or the largest screen coordinate when `n` is past it.
pub open spec fn capped(n: int) -> int {
    if n <= u16::MAX {
        n
    } else {
        u16::MAX as int
    }
}

/// `a - b`, or zero when `b` is larger.
pub open spec fn monus(a: int, b: int) -> int {
    if a >= b {
        a - b
    } else {
        0
    }
}

/// The smaller of two numbers.
pub open spec fn least(a: int, b: int) -> int {
    if a <= b {
        a
    } else {
        b
    }
}

/// The larger of two numbers.
pub open spec fn most(a: int, b: int) -> int {
    if a >= b {
        a
    } else {
        b
    }
}

/// A cell inside the agent pane: (0, 0) is the pane's top-left cell, wherever
/// on the screen the pane is drawn.
#[derive(Clone, Copy, Debug, PartialEq, Eq, Structural)]
pub struct CellPos {
    pub row: u16,
    pub col: u16,
}

/// Whether `a` comes no later than `b` in reading order.
pub open spec fn reads_before(a: CellPos, b: CellPos) -> bool {
    a.row < b.row || (a.row == b.row && a.col <= b.col)
}

/// The two ends of a drag in reading order.
pub open spec fn ordered(a: CellPos, b: CellPos) -> (CellPos, CellPos) {
    if reads_before(a, b) {
        (a, b)
    } else {
        (b, a)
    }
}

/// The two ends of a drag in reading order, whichever way it was dragged.
pub fn normalized_range(a: CellPos, b: CellPos) -> (r: (CellPos, CellPos))
    ensures
        r == ordered(a, b),
{
    if a.row < b.row || (a.row == b.row && a.col <= b.col) {
        (a, b)
    } else {
        (b, a)
    }
}

/// The half-open column range that the selection from `start` to `end` covers
/// on `row`, in a pane `pane_width` cells wide.
pub open spec fn selected_columns(start: CellPos, end: CellPos, row: u16, pane_width: u16) -> (
    int,
    int,
) {
    let through_end = least(end.col + 1, pane_width as int);
    if start.row == end.row {
        (start.col as int, through_end)
    } else if row == start.row {
        (start.col as int, pane_width as int)
    } else if row == end.row {
        (0, through_end)
    } else {
        (0, pane_width as int)
    }
}

/// The column range `lo..hi` that the selection from `start` to `end` covers
/// on `row`. Both ends of a selection are selected; the range is half-open.
pub fn row_bounds(start: CellPos, end: CellPos, row: u16, pane_width: u16) -> (r: (u16, u16))
    ensures
        (r.0 as int, r.1 as int) == selected_columns(start, end, row, pane_width),
{
    let after_end: u16 = end.col.saturating_add(1);
    let through_end: u16 = if after_end < pane_width {
        after_end
    } else {
        pane_width
    };
    if start.row == end.row {
        return (start.col, through_end);
    }
    if row == start.row {
        (start.col, pane_width)
    } else if row == end.row {
        (0, through_end)
    } else {
        (0, pane_width)
    }
}

/// A rectangle of at most `width` by `height` cells in the middle of `r`.
pub open spec fn centered(width: u16, height: u16, r: Rect) -> Rect {
    Rect {
        x: (r.x + monus(r.width as int, width as int) / 2) as u16,
        y: (r.y + monus(r.height as int, height as int) / 2) as u16,
        width: least(width as int, r.width as int) as u16,
        height: least(height as int, r.height as int) as u16,
    }
}

/// A rectangle of at most `width` by `height` cells in the middle of `r`.
pub fn centered_rect_with_size(width: u16, height: u16, r: Rect) -> (c: Rect)
    requires
        r.fits(),
    ensures
        c == centered(width, height, r),
{
    let x: u16 = r.x + r.width.saturating_sub(width) / 2;
    let y: u16 = r.y + r.height.saturating_sub(height) / 2;
    Rect {
        x,
        y,
        width: if width < r.width {
            width
        } else {
            r.width
        },
        height: if height < r.height {
            height
        } else {
            r.height
        },
    }
}

/// A normalized drag starts no later than it ends, and is the same whichever
/// of its two cells the drag began on.
pub proof fn normalized_range_is_ordered_and_symmetric(a: CellPos, b: CellPos)
    ensures
        reads_before(ordered(a, b).0, ordered(a, b).1),
        ordered(a, b) == ordered(b, a),
        ordered(a, b) == (a, b) || ordered(a, b) == (b, a),
{
}

/// On a row that a selection touches, the bounds hold exactly the pane's cells
/// that lie between the two ends in reading order, the ends included.
pub proof fn row_bounds_are_the_cells_between_the_ends(
    start: CellPos,
    end: CellPos,
    cell: CellPos,
    pane_width: u16,
)
    requires
        reads_before(start, end),
        start.row <= cell.row <= end.row,
    ensures
        ({
            let (lo, hi) = selected_columns(start, end, cell.row, pane_width);
            lo <= cell.col < hi <==> cell.col < pane_width && reads_before(start, cell)
                && reads_before(cell, end)
        }),
{
}

/// A centered rectangle never leaves the rectangle it is centered in, and the
/// margins on its two sides differ by at most one cell.
pub proof fn centered_rect_stays_inside(width: u16, height: u16, r: Rect)
    requires
        r.fits(),
    ensures
        centered(width, height, r).within(r),
        ({
            let c = centered(width, height, r);
            let left = c.x - r.x;
            let right = (r.x + r.width) - (c.x + c.width);
            let above = c.y - r.y;
            let below = (r.y + r.height) - (c.y + c.height);
            left <= right <= left + 1 && above <= below <= above + 1
        }),
{
}

/// A rectangle on the screen covers a cell exactly when the cell is not left of it,
/// not above it, and not past its width or its height; and one without cells covers
/// none.
pub proof fn a_rectangle_covers_its_cells(r: Rect, col: int, row: int)
    requires
        r.fits(),
    ensures
        r.covers(col, row) <==> 0 <= col - r.x < r.width && 0 <= row - r.y < r.height,
        r.width == 0 || r.height == 0 <==> r.empty(),
        r.empty() ==> !r.covers(col, row),
        r.within(r),
{
}

/// A rectangle lies within another exactly when none of its four edges lies outside it,
/// and then every cell it covers is covered by the other.
pub proof fn what_lies_within_covers_no_more(r: Rect, outer: Rect, col: int, row: int)
    requires
        r.fits(),
        outer.fits(),
    ensures
        r.within(outer) ==> r.x >= outer.x && r.y >= outer.y && r.x + r.width <= outer.x
            + outer.width && r.y + r.height <= outer.y + outer.height,
        r.x >= outer.x && r.y >= outer.y && r.x + r.width <= outer.x + outer.width && r.y
            + r.height <= outer.y + outer.height ==> r.within(outer),
        r.within(outer) && r.covers(col, row) ==> outer.covers(col, row),
{
}

/// Limits: the nearest number on the right side of a bound.
pub proof fn limits_are_the_nearest(a: int, b: int)
    ensures
        least(a, b) <= a && least(a, b) <= b && (least(a, b) == a || least(a, b) == b),
        most(a, b) >= a && most(a, b) >= b && (most(a, b) == a || most(a, b) == b),
        a >= b ==> monus(a, b) == a - b,
        a < b ==> monus(a, b) == 0,
        a <= 65535 ==> capped(a) == a,
        a > 65535 ==> capped(a) == 65535,
{
}

/// A cell reads before another when its row is above, or in the same row when it is
/// not further right. Any two cells can be put in order.
pub proof fn reading_order_is_total(a: CellPos, b: CellPos, c: CellPos)
    ensures
        a.row < b.row ==> reads_before(a, b) && !reads_before(b, a),
        a.row == b.row ==> (reads_before(a, b) <==> a.col <= b.col),
        reads_before(a, b) || reads_before(b, a),
        reads_before(a, b) && reads_before(b, a) ==> a == b,
        reads_before(a, b) && reads_before(b, c) ==> reads_before(a, c),
        reads_before(a, b) ==> ordered(a, b) == (a, b) && ordered(b, a) == (a, b),
{
}

/// A centered rectangle is as large as asked for where there is room for it, and
/// else as large as there is room for.
pub proof fn centered_rects_are_as_large_as_asked_for(width: u16, height: u16, r: Rect)
    requires
        r.fits(),
    ensures
        width <= r.width ==> centered(width, height, r).width == width,
        width > r.width ==> centered(width, height, r).width == r.width && centered(
            width,
            height,
            r,
        ).x == r.x,
        height <= r.height ==> centered(width, height, r).height == height,
        height > r.height ==> centered(width, height, r).height == r.height && centered(
            width,
            height,
            r,
        ).y == r.y,
{
}

} // verus!
