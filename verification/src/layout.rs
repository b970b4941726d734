//! How the screen is divided: navigator styles, pane sizes and splits.

use vstd::prelude::*;

use crate::geometry::{least, monus, Rect};

verus! {

/// Width of the navigator column in left-pane style.
pub const NAV_PANE_WIDTH: u16 = 25;

/// Height of the status bar in popup style.
pub const STATUS_BAR_HEIGHT: u16 = 1;

/// Height of the log strip at the bottom of the screen.
pub const LOG_STRIP_HEIGHT: u16 = 1;

/// The two navigator styles.
#[derive(Clone, Copy, Debug, PartialEq, Eq, Structural)]
pub enum NavStyle {
    LeftPane,
    Popup,
}

impl NavStyle {
    /// The other style.
    pub open spec fn toggled(self) -> NavStyle {
        match self {
            NavStyle::LeftPane => NavStyle::Popup,
            NavStyle::Popup => NavStyle::LeftPane,
        }
    }

    /// The other style.
    pub fn toggle(self) -> (r: NavStyle)
        ensures
            r == self.toggled(),
    {
        match self {
            NavStyle::LeftPane => NavStyle::Popup,
            NavStyle::Popup => NavStyle::LeftPane,
        }
    }
}

/// Rows and columns left for an agent's terminal once the navigator chrome
/// and, when it is shown, the log strip have taken theirs.
pub open spec fn pane_size(style: NavStyle, term_rows: u16, term_cols: u16, log_strip: bool) -> (
    u16,
    u16,
) {
    let log_rows: int = if log_strip {
        LOG_STRIP_HEIGHT as int
    } else {
        0
    };
    match style {
        NavStyle::LeftPane => (
            monus(term_rows as int, log_rows) as u16,
            monus(term_cols as int, NAV_PANE_WIDTH as int) as u16,
        ),
        NavStyle::Popup => (
            monus(term_rows as int, STATUS_BAR_HEIGHT + log_rows) as u16,
            term_cols,
        ),
    }
}

/// Rows and columns of an agent's terminal on a `term_rows` by `term_cols`
/// screen.
pub fn pty_size_for(style: NavStyle, term_rows: u16, term_cols: u16, log_strip: bool) -> (r: (
    u16,
    u16,
))
    ensures
        r == pane_size(style, term_rows, term_cols, log_strip),
{
    let log_rows: u16 = if log_strip {
        LOG_STRIP_HEIGHT
    } else {
        0
    };
    match style {
        NavStyle::LeftPane => (
            term_rows.saturating_sub(log_rows),
            term_cols.saturating_sub(NAV_PANE_WIDTH),
        ),
        NavStyle::Popup => (term_rows.saturating_sub(STATUS_BAR_HEIGHT + log_rows), term_cols),
    }
}

/// Which way an area is split.
#[derive(Clone, Copy, Debug, PartialEq, Eq, Structural)]
pub enum Direction {
    Horizontal,
    Vertical,
}

/// What one part of a split asks for.
#[derive(Clone, Copy, Debug, PartialEq, Eq, Structural)]
pub enum Constraint {
    /// This many cells.
    Length(u16),
    /// At least this many cells, and whatever the others leave.
    Min(u16),
    /// This share of the whole, in percent.
    Percentage(u16),
}

/// The extent of `area` along `direction`.
pub open spec fn extent(direction: Direction, area: Rect) -> int {
    match direction {
        Direction::Horizontal => area.width as int,
        Direction::Vertical => area.height as int,
    }
}

/// The part of `area` from `start` to `end` along `direction`, and all of it
/// across.
pub open spec fn slice_of(direction: Direction, area: Rect, start: int, end: int) -> Rect {
    match direction {
        Direction::Horizontal => Rect {
            x: (area.x + start) as u16,
            width: (end - start) as u16,
            ..area
        },
        Direction::Vertical => Rect {
            y: (area.y + start) as u16,
            height: (end - start) as u16,
            ..area
        },
    }
}

/// The cells that `Length(length)` gets of `total` when it shares them with
/// `Min(min)`: the minimum is served first, then the length, and the rest goes
/// to the minimum.
pub open spec fn length_share(total: int, min: u16, length: u16) -> int {
    least(length as int, monus(total, min as int))
}

/// The cell that lies `percent` hundredths of the way along `total` cells,
/// rounded to the nearest, halves up.
pub open spec fn percent_mark(total: int, percent: int) -> int {
    (total * percent + 50) / 100
}

/// Splits `area` with `ratatui`'s `Layout::split`, which serves a minimum before
/// a length and a length before growth, and rounds each edge to whole cells.
/// What it returns is claimed for the two shapes of split that are made here: a
/// length beside a minimum, in either order, and three percentages that add up
/// to at most the whole, the outer two equal.
#[verifier::external_body]
fn layout_split(direction: Direction, constraints: &Vec<Constraint>, area: Rect) -> (r: Vec<Rect>)
    requires
        area.fits(),
    ensures
        r@.len() == constraints@.len(),
        constraints@.len() == 2 ==> match (constraints@[0], constraints@[1]) {
            (Constraint::Min(min), Constraint::Length(length)) => min <= i16::MAX ==> {
                let total = extent(direction, area);
                let cut = total - length_share(total, min, length);
                r@ == seq![
                    slice_of(direction, area, 0, cut),
                    slice_of(direction, area, cut, total),
                ]
            },
            (Constraint::Length(length), Constraint::Min(min)) => min <= i16::MAX ==> {
                let total = extent(direction, area);
                let cut = length_share(total, min, length);
                r@ == seq![
                    slice_of(direction, area, 0, cut),
                    slice_of(direction, area, cut, total),
                ]
            },
            _ => true,
        },
        constraints@.len() == 3 ==> match (constraints@[0], constraints@[1], constraints@[2]) {
            (
                Constraint::Percentage(p0),
                Constraint::Percentage(p1),
                Constraint::Percentage(p2),
            ) => p0 == p2 && p0 + p1 + p2 <= 100 ==> {
                let total = extent(direction, area);
                let a = percent_mark(total, p0 as int);
                let b = percent_mark(total, p0 + p1);
                let c = percent_mark(total, p0 + p1 + p2);
                r@ == seq![
                    slice_of(direction, area, 0, a),
                    slice_of(direction, area, a, b),
                    slice_of(direction, area, b, c),
                ]
            },
            _ => true,
        },
{
    let outside = ratatui::layout::Rect::new(area.x, area.y, area.width, area.height);
    let wanted = constraints.iter().map(|c| match *c {
        Constraint::Length(n) => ratatui::layout::Constraint::Length(n),
        Constraint::Min(n) => ratatui::layout::Constraint::Min(n),
        Constraint::Percentage(n) => ratatui::layout::Constraint::Percentage(n),
    });
    let layout = match direction {
        Direction::Horizontal => ratatui::layout::Layout::horizontal(wanted),
        Direction::Vertical => ratatui::layout::Layout::vertical(wanted),
    };
    let parts = layout.split(outside);
    parts.iter().map(|p| Rect { x: p.x, y: p.y, width: p.width, height: p.height }).collect()
}

/// `area` cut in two: a part that takes at least `min` cells and grows, then a
/// part of `length` cells.
pub open spec fn growing_then_fixed(direction: Direction, min: u16, length: u16, area: Rect) -> (
    Rect,
    Rect,
) {
    let total = extent(direction, area);
    let cut = total - length_share(total, min, length);
    (slice_of(direction, area, 0, cut), slice_of(direction, area, cut, total))
}

/// `area` cut in two: a part of `length` cells, then a part that takes at least
/// `min` cells and grows.
pub open spec fn fixed_then_growing(direction: Direction, length: u16, min: u16, area: Rect) -> (
    Rect,
    Rect,
) {
    let total = extent(direction, area);
    let cut = length_share(total, min, length);
    (slice_of(direction, area, 0, cut), slice_of(direction, area, cut, total))
}

/// Cuts `area` into a part that takes at least `min` cells and grows, and after
/// it a part of `length` cells.
pub fn split_growing_then_fixed(direction: Direction, min: u16, length: u16, area: Rect) -> (r: (
    Rect,
    Rect,
))
    requires
        area.fits(),
        min <= i16::MAX,
    ensures
        r == growing_then_fixed(direction, min, length, area),
{
    let mut constraints: Vec<Constraint> = Vec::new();
    constraints.push(Constraint::Min(min));
    constraints.push(Constraint::Length(length));
    let parts = layout_split(direction, &constraints, area);
    (parts[0], parts[1])
}

/// Cuts `area` into a part of `length` cells, and after it a part that takes at
/// least `min` cells and grows.
pub fn split_fixed_then_growing(direction: Direction, length: u16, min: u16, area: Rect) -> (r: (
    Rect,
    Rect,
))
    requires
        area.fits(),
        min <= i16::MAX,
    ensures
        r == fixed_then_growing(direction, length, min, area),
{
    let mut constraints: Vec<Constraint> = Vec::new();
    constraints.push(Constraint::Length(length));
    constraints.push(Constraint::Min(min));
    let parts = layout_split(direction, &constraints, area);
    (parts[0], parts[1])
}

/// The middle part of `area` along `direction`: `percent` of it, after an equal
/// share of the rest, in whole percents.
pub open spec fn middle_share(direction: Direction, percent: u16, area: Rect) -> Rect {
    let total = extent(direction, area);
    let side = (100 - percent) / 2;
    slice_of(
        direction,
        area,
        percent_mark(total, side),
        percent_mark(total, side + percent),
    )
}

/// The middle of `r`: `percent_x` of its width and `percent_y` of its height.
pub open spec fn centered_share(percent_x: u16, percent_y: u16, r: Rect) -> Rect {
    middle_share(
        Direction::Horizontal,
        percent_x,
        middle_share(Direction::Vertical, percent_y, r),
    )
}

fn split_middle(direction: Direction, percent: u16, area: Rect) -> (r: Rect)
    requires
        area.fits(),
        percent <= 100,
    ensures
        r == middle_share(direction, percent, area),
{
    let side: u16 = (100 - percent) / 2;
    let mut constraints: Vec<Constraint> = Vec::new();
    constraints.push(Constraint::Percentage(side));
    constraints.push(Constraint::Percentage(percent));
    constraints.push(Constraint::Percentage(side));
    let parts = layout_split(direction, &constraints, area);
    parts[1]
}

proof fn middle_share_fits(direction: Direction, percent: u16, area: Rect)
    requires
        area.fits(),
        percent <= 100,
    ensures
        middle_share(direction, percent, area).within(area),
        middle_share(direction, percent, area).fits(),
{
    let total = extent(direction, area);
    let side = (100 - percent) / 2;
    assert(0 <= total * side <= total * (side + percent) <= total * 100) by (nonlinear_arith)
        requires
            0 <= side,
            0 <= percent,
            side + percent <= 100,
            0 <= total,
    ;
}

/// The middle of `r`: `percent_x` of its width and `percent_y` of its height.
pub fn centered_rect(percent_x: u16, percent_y: u16, r: Rect) -> (c: Rect)
    requires
        r.fits(),
        percent_x <= 100,
        percent_y <= 100,
    ensures
        c == centered_share(percent_x, percent_y, r),
{
    let vertical_middle = split_middle(Direction::Vertical, percent_y, r);
    proof {
        middle_share_fits(Direction::Vertical, percent_y, r);
    }
    split_middle(Direction::Horizontal, percent_x, vertical_middle)
}

/// Toggling the navigator style twice changes nothing.
pub proof fn nav_style_toggle_is_an_involution(style: NavStyle)
    ensures
        style.toggled().toggled() == style,
        style.toggled() != style,
{
}

/// An agent's terminal is never larger than the screen, and showing the log
/// strip takes away exactly one row where there is one to take.
pub proof fn pane_size_is_bounded_by_the_screen(style: NavStyle, term_rows: u16, term_cols: u16)
    ensures
        ({
            let (rows, cols) = pane_size(style, term_rows, term_cols, false);
            let (strip_rows, strip_cols) = pane_size(style, term_rows, term_cols, true);
            rows <= term_rows && cols <= term_cols && strip_rows == monus(rows as int, 1)
                && strip_cols == cols
        }),
{
}

/// The two parts of a split lie side by side and together make up the area.
pub proof fn splits_tile_the_area(direction: Direction, min: u16, length: u16, area: Rect)
    requires
        area.fits(),
    ensures
        ({
            let (a, b) = growing_then_fixed(direction, min, length, area);
            let (c, d) = fixed_then_growing(direction, length, min, area);
            &&& a.within(area) && b.within(area) && c.within(area) && d.within(area)
            &&& a.fits() && b.fits() && c.fits() && d.fits()
            &&& extent(direction, a) + extent(direction, b) == extent(direction, area)
            &&& extent(direction, c) + extent(direction, d) == extent(direction, area)
            &&& match direction {
                Direction::Horizontal => b.x == a.x + a.width && d.x == c.x + c.width,
                Direction::Vertical => b.y == a.y + a.height && d.y == c.y + c.height,
            }
        }),
{
}

/// The centered share of a rectangle never leaves it.
pub proof fn centered_share_stays_inside(percent_x: u16, percent_y: u16, r: Rect)
    requires
        r.fits(),
        percent_x <= 100,
        percent_y <= 100,
    ensures
        centered_share(percent_x, percent_y, r).within(r),
        centered_share(percent_x, percent_y, r).fits(),
{
    middle_share_fits(Direction::Vertical, percent_y, r);
    middle_share_fits(
        Direction::Horizontal,
        percent_x,
        middle_share(Direction::Vertical, percent_y, r),
    );
}

/// The two navigator styles are each other's toggle.
pub proof fn toggling_goes_to_the_other_style()
    ensures
        NavStyle::LeftPane.toggled() is Popup,
        NavStyle::Popup.toggled() is LeftPane,
{
}

/// An agent's terminal gets what the chrome leaves of the screen. In the left-pane
/// style that is all but twenty-five columns, in the popup style all but one row; the
/// log strip takes one row more in either. What is not there is not taken.
pub proof fn terminals_get_what_the_chrome_leaves(rows: u16, cols: u16, log_strip: bool)
    ensures
        ({
            let log: int = if log_strip {
                1
            } else {
                0
            };
            let side = pane_size(NavStyle::LeftPane, rows, cols, log_strip);
            let popup = pane_size(NavStyle::Popup, rows, cols, log_strip);
            &&& rows >= log ==> side.0 == rows - log
            &&& cols >= 25 ==> side.1 == cols - 25
            &&& cols < 25 ==> side.1 == 0
            &&& rows >= log + 1 ==> popup.0 == rows - log - 1
            &&& rows < log + 1 ==> popup.0 == 0
            &&& rows < log ==> side.0 == 0
            &&& popup.1 == cols
        }),
{
}

/// The fixed part of a split has its length wherever the other part can have its
/// minimum beside it; where it cannot, the fixed part gets what the minimum leaves.
pub proof fn the_fixed_part_has_its_length(
    direction: Direction,
    min: u16,
    length: u16,
    area: Rect,
)
    requires
        area.fits(),
    ensures
        ({
            let total = match direction {
                Direction::Horizontal => area.width as int,
                Direction::Vertical => area.height as int,
            };
            let (grown, fixed) = growing_then_fixed(direction, min, length, area);
            let (fixed_first, grown_last) = fixed_then_growing(direction, length, min, area);
            &&& direction is Horizontal ==> {
                &&& min + length <= total ==> fixed.width == length && fixed_first.width == length
                &&& min <= total < min + length ==> grown.width == min && grown_last.width == min
                &&& total < min ==> fixed.width == 0 && fixed_first.width == 0
                &&& fixed.height == area.height && grown.height == area.height
                &&& fixed_first.height == area.height && grown_last.height == area.height
                &&& grown.x == area.x && fixed_first.x == area.x
                &&& fixed.x + fixed.width == area.x + area.width
                &&& grown_last.x + grown_last.width == area.x + area.width
                &&& fixed.y == area.y && grown.y == area.y
            }
            &&& direction is Vertical ==> {
                &&& min + length <= total ==> fixed.height == length && fixed_first.height
                    == length
                &&& min <= total < min + length ==> grown.height == min && grown_last.height
                    == min
                &&& total < min ==> fixed.height == 0 && fixed_first.height == 0
                &&& fixed.width == area.width && grown.width == area.width
                &&& grown.y == area.y && fixed_first.y == area.y
                &&& fixed.y + fixed.height == area.y + area.height
                &&& fixed.x == area.x && grown.x == area.x
            }
        }),
{
}

/// The middle of a rectangle: its edges lie at the nearest cell to the share that is
/// left on the side, and to that together with the share asked for.
pub proof fn the_middle_lies_between_its_marks(percent_x: u16, percent_y: u16, r: Rect)
    requires
        r.fits(),
        percent_x <= 100,
        percent_y <= 100,
    ensures
        ({
            let c = centered_share(percent_x, percent_y, r);
            let side_x = (100 - percent_x) / 2;
            let side_y = (100 - percent_y) / 2;
            &&& -50 <= 100 * (c.x - r.x) - r.width * side_x <= 50
            &&& -50 <= 100 * (c.x + c.width - r.x) - r.width * (side_x + percent_x) <= 50
            &&& -50 <= 100 * (c.y - r.y) - r.height * side_y <= 50
            &&& -50 <= 100 * (c.y + c.height - r.y) - r.height * (side_y + percent_y) <= 50
        }),
{
    let v = middle_share(Direction::Vertical, percent_y, r);
    middle_share_fits(Direction::Vertical, percent_y, r);
    middle_share_fits(Direction::Horizontal, percent_x, v);
    let side_x = (100 - percent_x) / 2;
    let side_y = (100 - percent_y) / 2;
    marks_are_nearest(r.width as int, side_x, percent_x as int);
    marks_are_nearest(r.height as int, side_y, percent_y as int);
}

proof fn marks_are_nearest(total: int, side: int, percent: int)
    requires
        0 <= total,
        0 <= side,
        0 <= percent,
        side + percent <= 100,
    ensures
        -50 <= 100 * percent_mark(total, side) - total * side <= 50,
        -50 <= 100 * percent_mark(total, side + percent) - total * (side + percent) <= 50,
        0 <= percent_mark(total, side) <= percent_mark(total, side + percent) <= total,
{
    assert(0 <= total * side <= total * (side + percent) <= total * 100) by (nonlinear_arith)
        requires
            0 <= side,
            0 <= percent,
            side + percent <= 100,
            0 <= total,
    ;
}

} // verus!
