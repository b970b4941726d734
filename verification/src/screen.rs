//! An agent's terminal screen, kept by the `vt100` emulator.
//!
//! The emulator itself is outside code. What the library relies on is stated
//! over [`ScreenView`], the picture that [`screen_view`] gives of it: the rows it
//! has scrolled out of sight, the rows of the live screen, how far the view is
//! scrolled back, and the screen behind the one in use.

use vstd::prelude::*;

use crate::geometry::{least, reads_before, CellPos};

verus! {

/// The color of a terminal cell.
#[derive(Clone, Copy, Debug, PartialEq, Eq, Structural)]
pub enum CellColor {
    Default,
    Idx(u8),
    Rgb(u8, u8, u8),
}

/// What one terminal cell holds.
pub struct CellView {
    pub contents: Seq<char>,
    pub bold: bool,
    pub italic: bool,
    pub underline: bool,
    pub inverse: bool,
    pub wide: bool,
    pub wide_continuation: bool,
    pub fg: CellColor,
    pub bg: CellColor,
}

/// One row of cells, and whether its text goes on in the next row.
pub struct RowView {
    pub cells: Seq<CellView>,
    pub wrapped: bool,
}

/// A terminal screen: the rows that scrolled out at the top, the live rows below
/// them, the number of columns, how many rows the view is scrolled back, how many
/// rows of history it keeps at most, and the rows of the other screen that a
/// program can switch to.
pub struct ScreenView {
    pub history: Seq<RowView>,
    pub live: Seq<RowView>,
    pub cols: nat,
    pub offset: nat,
    pub limit: nat,
    pub hidden: Seq<RowView>,
}

impl RowView {
    /// Whether no glyph of two cells is torn: the halves of each stand side by
    /// side.
    pub open spec fn whole(self) -> bool {
        forall|c: int|
            0 <= c < self.cells.len() ==> {
                &&& (#[trigger] self.cells[c]).wide ==> c + 1 < self.cells.len() && self.cells[c
                    + 1].wide_continuation
                &&& self.cells[c].wide_continuation ==> c > 0 && self.cells[c - 1].wide
            }
    }
}

/// Whether each of these rows has `cols` cells and no torn glyph.
pub open spec fn rows_are_whole(rows: Seq<RowView>, cols: nat) -> bool {
    forall|r: int|
        0 <= r < rows.len() ==> (#[trigger] rows[r]).cells.len() == cols && rows[r].whole()
}

/// `rows` rows of `cols` cells each, taken from `from`: cells past the new edges
/// are dropped, new ones are blank.
pub open spec fn resized_rows(from: Seq<RowView>, rows: u16, cols: u16) -> Seq<RowView> {
    Seq::new(
        rows as nat,
        |r: int|
            RowView {
                cells: Seq::new(
                    cols as nat,
                    |c: int|
                        if r < from.len() && c < from[r].cells.len() {
                            from[r].cells[c]
                        } else {
                            blank_cell()
                        },
                ),
                wrapped: false,
            },
    )
}

impl ScreenView {
    /// The rows in view: as many as the live screen has, `offset` rows further
    /// up.
    pub open spec fn visible(self) -> Seq<RowView> {
        let top = self.history.len() - self.offset;
        (self.history + self.live).subrange(top, top + self.live.len())
    }

    /// The cell in view at (`row`, `col`), if there is one.
    pub open spec fn cell_at(self, row: u16, col: u16) -> Option<CellView> {
        if row < self.visible().len() && col < self.visible()[row as int].cells.len() {
            Some(self.visible()[row as int].cells[col as int])
        } else {
            None
        }
    }

    /// Whether the cell in view at (`row`, `col`) holds text, and is not the second
    /// half of a wide glyph.
    pub open spec fn starts_glyph(self, row: u16, col: u16) -> bool {
        &&& self.cell_at(row, col) is Some
        &&& self.cell_at(row, col)->0.contents.len() > 0
        &&& col > 0 ==> !self.cell_at(row, (col - 1) as u16)->0.wide
    }

    /// Whether a wide glyph begins in the very last column a screen can have, on one
    /// of the rows in view up to `end_row`. Its second half is past every edge.
    pub open spec fn overhangs(self, end_row: u16) -> bool {
        exists|r: u16| r <= end_row && #[trigger] self.overhangs_at(r)
    }

    /// Whether a wide glyph begins in the very last column a screen can have, on
    /// this row in view.
    pub open spec fn overhangs_at(self, row: u16) -> bool {
        match self.cell_at(row, (u16::MAX - 1) as u16) {
            Some(cell) => cell.wide,
            None => false,
        }
    }

    /// Whether the view is scrolled back by `rows`, or to the top of the history
    /// when that is nearer.
    pub open spec fn shows_from(self, rows: nat) -> bool {
        self.offset == least(rows as int, self.history.len() as int)
    }

    /// The same screen scrolled back by `rows`, or to the top of the history
    /// when that is nearer.
    pub open spec fn scrolled_to(self, rows: nat) -> ScreenView {
        ScreenView { offset: least(rows as int, self.history.len() as int) as nat, ..self }
    }

    /// The same screen with `rows` live rows of `cols` cells each: cells past the
    /// new edges are dropped, new ones are blank.
    pub open spec fn resized(self, rows: u16, cols: u16) -> ScreenView {
        ScreenView {
            live: resized_rows(self.live, rows, cols),
            cols: cols as nat,
            hidden: resized_rows(self.hidden, rows, cols),
            ..self
        }
    }

    /// Whether any output can be shown here: there is room for the widest glyph
    /// and for a line that wraps, a tab stop past the right edge can still be
    /// counted, and no glyph is torn.
    pub open spec fn takes_output(self) -> bool {
        &&& 2 <= self.live.len()
        &&& 3 <= self.cols <= u16::MAX - 8
        &&& rows_are_whole(self.live, self.cols)
        &&& rows_are_whole(self.hidden, self.cols)
    }
}

/// An empty cell in the default colors.
pub open spec fn blank_cell() -> CellView {
    CellView {
        contents: Seq::empty(),
        bold: false,
        italic: false,
        underline: false,
        inverse: false,
        wide: false,
        wide_continuation: false,
        fg: CellColor::Default,
        bg: CellColor::Default,
    }
}

/// A fresh screen: no history so far, `limit` rows of it to come, and `rows` by
/// `cols` blank cells in view.
pub open spec fn blank_screen(rows: u16, cols: u16, limit: nat) -> ScreenView {
    ScreenView {
        history: Seq::empty(),
        live: Seq::new(
            rows as nat,
            |r: int| RowView { cells: Seq::new(cols as nat, |c: int| blank_cell()), wrapped: false },
        ),
        cols: cols as nat,
        offset: 0,
        limit,
        hidden: Seq::empty(),
    }
}

/// A `vt100::Parser`, the emulator of one agent's terminal.
#[verifier::external_body]
pub struct PaneParser {
    pub vt: vt100::Parser,
}

/// What the screen of the emulator holds.
pub uninterp spec fn screen_view(parser: PaneParser) -> ScreenView;

/// The emulator that `vt100::Parser::new` makes.
pub uninterp spec fn fresh(rows: u16, cols: u16, scrollback_len: nat) -> PaneParser;

/// What `vt100::Parser::process` makes of the emulator when it is given `bytes`.
pub uninterp spec fn fed(parser: PaneParser, bytes: Seq<u8>) -> PaneParser;

/// What `vt100::Screen::set_scrollback` makes of the emulator.
pub uninterp spec fn scrolled(parser: PaneParser, rows: nat) -> PaneParser;

/// What `vt100::Screen::set_size` makes of the emulator.
pub uninterp spec fn with_size(parser: PaneParser, rows: u16, cols: u16) -> PaneParser;

/// What `vt100::Screen::contents_between` returns on a screen with these visible
/// rows and this many columns.
pub uninterp spec fn text_between(
    visible: Seq<RowView>,
    cols: nat,
    start_row: u16,
    start_col: u16,
    end_row: u16,
    end_col: u16,
) -> Seq<char>;

/// `vt100::Parser::new`: the emulator of that name, with a blank screen of the given
/// size that keeps up to `scrollback_len` rows of history. A screen without rows is
/// not admitted.
#[verifier::external_body]
pub(crate) fn new_parser(rows: u16, cols: u16, scrollback_len: usize) -> (r: PaneParser)
    requires
        rows > 0,
    ensures
        r == fresh(rows, cols, scrollback_len as nat),
        screen_view(r) == blank_screen(rows, cols, scrollback_len as nat),
{
    PaneParser { vt: vt100::Parser::new(rows, cols, scrollback_len) }
}

/// `vt100::Parser::process`: the emulator after these bytes, by its name. The
/// screen keeps its size, no glyph is torn, the view stays within the history, and
/// a view of the live screen stays one. A screen on which some output makes the
/// emulator panic is not admitted; what the bytes draw is left unsaid.
#[verifier::external_body]
pub(crate) fn process(parser: &mut PaneParser, bytes: &[u8])
    requires
        screen_view(*old(parser)).takes_output(),
    ensures
        *final(parser) == fed(*old(parser), bytes@),
        screen_view(*final(parser)).takes_output(),
        screen_view(*final(parser)).live.len() == screen_view(*old(parser)).live.len(),
        screen_view(*final(parser)).cols == screen_view(*old(parser)).cols,
        screen_view(*final(parser)).offset <= screen_view(*final(parser)).history.len(),
        screen_view(*old(parser)).offset == 0 ==> screen_view(*final(parser)).offset == 0,
{
    parser.vt.process(bytes)
}

/// `vt100::Screen::scrollback`: how many rows the view is scrolled back, never
/// more than there are in the history.
#[verifier::external_body]
pub(crate) fn scrollback(parser: &PaneParser) -> (r: usize)
    ensures
        r == screen_view(*parser).offset,
        r <= screen_view(*parser).history.len(),
{
    parser.vt.screen().scrollback()
}

/// `vt100::Screen::set_scrollback`: moves the view, clamped to the history, and
/// leaves every row as it is. Where the view is there already nothing changes at
/// all; else the emulator is the one of that name.
#[verifier::external_body]
pub(crate) fn set_scrollback(parser: &mut PaneParser, rows: usize)
    ensures
        *final(parser) == if screen_view(*old(parser)).shows_from(rows as nat) {
            *old(parser)
        } else {
            scrolled(*old(parser), rows as nat)
        },
        screen_view(*final(parser)) == screen_view(*old(parser)).scrolled_to(rows as nat),
{
    parser.vt.screen_mut().set_scrollback(rows)
}

/// `vt100::Screen::set_size`: the emulator of that name, with the live rows cropped
/// or padded with blank cells. The history and the scroll position stay. A size
/// without rows or columns is not admitted.
#[verifier::external_body]
pub(crate) fn set_size(parser: &mut PaneParser, rows: u16, cols: u16)
    requires
        rows > 0,
        cols > 0,
    ensures
        *final(parser) == with_size(*old(parser), rows, cols),
        screen_view(*final(parser)) == screen_view(*old(parser)).resized(rows, cols),
{
    parser.vt.screen_mut().set_size(rows, cols)
}

/// The second number of `vt100::Screen::size`: how many columns the screen has.
#[verifier::external_body]
pub(crate) fn columns(parser: &PaneParser) -> (r: u16)
    ensures
        r == screen_view(*parser).cols,
{
    parser.vt.screen().size().1
}

/// `vt100::Screen::contents_between`: the text from the start cell up to, but
/// not including, the end cell, by its name over the rows in view. What a cell of
/// the range holds stands in it, all in one piece, unless the cell is the second
/// half of a wide glyph. On a range of several rows the start column must be on the
/// screen. A range that takes in the very last column a screen can have is not
/// admitted when a glyph overhangs it.
#[verifier::external_body]
pub(crate) fn contents_between(
    parser: &PaneParser,
    start_row: u16,
    start_col: u16,
    end_row: u16,
    end_col: u16,
) -> (r: String)
    requires
        start_row < end_row ==> start_col <= screen_view(*parser).cols,
        end_col == u16::MAX || (start_row < end_row && screen_view(*parser).cols == u16::MAX)
            ==> !screen_view(*parser).overhangs(end_row),
    ensures
        r@ == text_between(
            screen_view(*parser).visible(),
            screen_view(*parser).cols,
            start_row,
            start_col,
            end_row,
            end_col,
        ),
        forall|row: u16, col: u16|
            #![trigger screen_view(*parser).starts_glyph(row, col)]
            start_row <= row <= end_row && (row == start_row ==> start_col <= col) && (row
                == end_row ==> col < end_col) && (row < end_row ==> col < screen_view(*parser).cols)
                && screen_view(*parser).starts_glyph(row, col) ==> stands_in(
                screen_view(*parser).cell_at(row, col)->0.contents,
                r@,
            ),
{
    parser.vt.screen().contents_between(start_row, start_col, end_row, end_col)
}

/// Whether `part` stands in `text`, all in one piece.
pub open spec fn stands_in(part: Seq<char>, text: Seq<char>) -> bool {
    exists|k: int|
        0 <= k && k + part.len() <= text.len() && #[trigger] text.subrange(k, k + part.len())
            == part
}

/// A terminal cell without its colors.
pub struct Glyph {
    pub contents: String,
    pub bold: bool,
    pub italic: bool,
    pub underline: bool,
    pub inverse: bool,
    pub wide: bool,
    pub wide_continuation: bool,
}

impl Glyph {
    /// Whether this is what `cell` holds, its colors aside.
    pub open spec fn shows(self, cell: CellView) -> bool {
        &&& self.contents@ == cell.contents
        &&& self.bold == cell.bold
        &&& self.italic == cell.italic
        &&& self.underline == cell.underline
        &&& self.inverse == cell.inverse
        &&& self.wide == cell.wide
        &&& self.wide_continuation == cell.wide_continuation
    }
}

/// `vt100::Screen::cell`, with `contents`, `bold`, `italic`, `underline`,
/// `inverse`, `is_wide` and `is_wide_continuation` of the `vt100::Cell` it finds: the
/// cell in view at that place, or nothing past an edge.
#[verifier::external_body]
pub(crate) fn glyph_at(parser: &PaneParser, row: u16, col: u16) -> (r: Option<Glyph>)
    ensures
        match (r, screen_view(*parser).cell_at(row, col)) {
            (Some(glyph), Some(cell)) => glyph.shows(cell),
            (None, None) => true,
            _ => false,
        },
{
    parser.vt.screen().cell(row, col).map(|c| Glyph {
        contents: c.contents().to_string(),
        bold: c.bold(),
        italic: c.italic(),
        underline: c.underline(),
        inverse: c.inverse(),
        wide: c.is_wide(),
        wide_continuation: c.is_wide_continuation(),
    })
}

/// `vt100::Cell::fgcolor` of the cell in view at that place.
#[verifier::external_body]
pub(crate) fn foreground_at(parser: &PaneParser, row: u16, col: u16) -> (r: Option<CellColor>)
    ensures
        r == match screen_view(*parser).cell_at(row, col) {
            Some(cell) => Some(cell.fg),
            None => None,
        },
{
    parser.vt.screen().cell(row, col).map(|c| match c.fgcolor() {
        vt100::Color::Default => CellColor::Default,
        vt100::Color::Idx(n) => CellColor::Idx(n),
        vt100::Color::Rgb(r, g, b) => CellColor::Rgb(r, g, b),
    })
}

/// `vt100::Cell::bgcolor` of the cell in view at that place.
#[verifier::external_body]
pub(crate) fn background_at(parser: &PaneParser, row: u16, col: u16) -> (r: Option<CellColor>)
    ensures
        r == match screen_view(*parser).cell_at(row, col) {
            Some(cell) => Some(cell.bg),
            None => None,
        },
{
    parser.vt.screen().cell(row, col).map(|c| match c.bgcolor() {
        vt100::Color::Default => CellColor::Default,
        vt100::Color::Idx(n) => CellColor::Idx(n),
        vt100::Color::Rgb(r, g, b) => CellColor::Rgb(r, g, b),
    })
}

/// A terminal cell.
pub struct Cell {
    pub glyph: Glyph,
    pub fg: CellColor,
    pub bg: CellColor,
}

impl Cell {
    /// Whether this is what `cell` holds.
    pub open spec fn shows(self, cell: CellView) -> bool {
        self.glyph.shows(cell) && self.fg == cell.fg && self.bg == cell.bg
    }
}

/// The emulator after it was given these chunks of output one after the other.
pub open spec fn fed_all(parser: PaneParser, chunks: Seq<Vec<u8>>) -> PaneParser
    decreases chunks.len(),
{
    if chunks.len() == 0 {
        parser
    } else {
        fed(fed_all(parser, chunks.drop_last()), chunks.last()@)
    }
}

impl PaneParser {
    /// Gives these chunks of output to the emulator, one after the other. The
    /// screen keeps its size and can take more, and a view of the live screen
    /// stays one.
    pub fn feed(&mut self, chunks: &Vec<Vec<u8>>)
        requires
            screen_view(*old(self)).takes_output(),
        ensures
            *final(self) == fed_all(*old(self), chunks@),
            screen_view(*final(self)).takes_output(),
            screen_view(*final(self)).live.len() == screen_view(*old(self)).live.len(),
            screen_view(*final(self)).cols == screen_view(*old(self)).cols,
            screen_view(*old(self)).offset == 0 ==> screen_view(*final(self)).offset == 0,
    {
        let ghost before = *self;
        assert(chunks@.take(0) =~= Seq::empty());
        for i in 0..chunks.len()
            invariant
                *self == fed_all(before, chunks@.take(i as int)),
                screen_view(*self).takes_output(),
                screen_view(*self).live.len() == screen_view(before).live.len(),
                screen_view(*self).cols == screen_view(before).cols,
                screen_view(before).offset == 0 ==> screen_view(*self).offset == 0,
        {
            assert(chunks@.take(i + 1).drop_last() =~= chunks@.take(i as int));
            process(self, chunks[i].as_slice());
        }
        assert(chunks@.take(chunks@.len() as int) =~= chunks@);
    }

    /// The cell in view at (`row`, `col`), or nothing past an edge.
    pub fn cell(&self, row: u16, col: u16) -> (r: Option<Cell>)
        ensures
            match (r, screen_view(*self).cell_at(row, col)) {
                (Some(found), Some(cell)) => found.shows(cell),
                (None, None) => true,
                _ => false,
            },
    {
        match (
            glyph_at(self, row, col),
            foreground_at(self, row, col),
            background_at(self, row, col),
        ) {
            (Some(glyph), Some(fg), Some(bg)) => Some(Cell { glyph, fg, bg }),
            _ => None,
        }
    }

    /// Whether a wide glyph begins in the very last column a screen can have, on
    /// one of the rows in view up to `end_row`.
    fn overhangs(&self, end_row: u16) -> (r: bool)
        ensures
            r == screen_view(*self).overhangs(end_row),
    {
        let mut row: u16 = 0;
        loop
            invariant
                row <= end_row,
                forall|i: u16| i < row ==> !(#[trigger] screen_view(*self).overhangs_at(i)),
            decreases end_row - row,
        {
            if let Some(glyph) = glyph_at(self, row, u16::MAX - 1) {
                if glyph.wide {
                    assert(screen_view(*self).overhangs_at(row));
                    return true;
                }
            }
            assert(!screen_view(*self).overhangs_at(row));
            if row == end_row {
                return false;
            }
            row = row + 1;
        }
    }

    /// The text of the cells from `start` to `end` in reading order, both
    /// included. A first row entered past its right edge adds no text. Wherever the
    /// view is scrolled to, what each cell in view between the two holds stands in
    /// the text, all in one piece.
    pub fn text_of_range(&self, start: CellPos, end: CellPos) -> (r: String)
        ensures
            r@ == range_text(screen_view(*self), start, end),
            (end.col < u16::MAX - 1 && screen_view(*self).cols < u16::MAX) || !screen_view(
                *self,
            ).overhangs(end.row) ==> forall|at: CellPos|
                #![trigger screen_view(*self).starts_glyph(at.row, at.col)]
                reads_before(start, at) && reads_before(at, end) && at.col < screen_view(
                    *self,
                ).cols && screen_view(*self).starts_glyph(at.row, at.col) ==> r@.len() > 0
                    && stands_in(screen_view(*self).cell_at(at.row, at.col)->0.contents, r@),
    {
        let end_col: u16 = end.col.saturating_add(1);
        let cols: u16 = columns(self);
        let several = start.row < end.row;
        let start_col: u16 = if several && start.col > cols {
            cols
        } else {
            start.col
        };
        if (end_col == u16::MAX || (several && cols == u16::MAX)) && self.overhangs(end.row) {
            return String::new();
        }
        let text = contents_between(self, start.row, start_col, end.row, end_col);
        assert forall|at: CellPos|
            #![trigger screen_view(*self).starts_glyph(at.row, at.col)]
            reads_before(start, at) && reads_before(at, end) && at.col < screen_view(*self).cols
                && screen_view(*self).starts_glyph(at.row, at.col) implies text@.len() > 0
            && stands_in(screen_view(*self).cell_at(at.row, at.col)->0.contents, text@) by {
            assert(stands_in(screen_view(*self).cell_at(at.row, at.col)->0.contents, text@));
        }
        text
    }
}

/// The text of the cells in view from `start` to `end` in reading order, both
/// included. There is none where half a wide glyph would lie past the very last
/// column a screen can have.
pub open spec fn range_text(screen: ScreenView, start: CellPos, end: CellPos) -> Seq<char> {
    let end_col = least(end.col + 1, u16::MAX as int) as u16;
    let several = start.row < end.row;
    if (end_col == u16::MAX || (several && screen.cols == u16::MAX)) && screen.overhangs(end.row) {
        Seq::empty()
    } else {
        text_between(
            screen.visible(),
            screen.cols,
            start.row,
            if several {
                least(start.col as int, screen.cols as int) as u16
            } else {
                start.col
            },
            end.row,
            end_col,
        )
    }
}

/// Scrolling the view changes neither what was written nor the size, and going
/// back to where the view was restores it.
pub proof fn scrolling_there_and_back_restores_the_view(screen: ScreenView, rows: nat)
    requires
        screen.offset <= screen.history.len(),
    ensures
        screen.scrolled_to(rows).scrolled_to(screen.offset) == screen,
        screen.scrolled_to(rows).history == screen.history,
        screen.scrolled_to(rows).live == screen.live,
{
}

/// A fresh screen takes output from the start, unless it is too small or too wide.
pub proof fn fresh_screens_take_output(rows: u16, cols: u16, limit: nat)
    requires
        2 <= rows,
        3 <= cols <= u16::MAX - 8,
    ensures
        blank_screen(rows, cols, limit).takes_output(),
{
}

/// Scrolling the view makes no difference to whether a screen takes output, and
/// neither does any new size that is not narrower: only cutting columns off can
/// tear a glyph.
pub proof fn only_narrowing_tears_glyphs(screen: ScreenView, offset: nat, rows: u16, cols: u16)
    requires
        screen.takes_output(),
        2 <= rows,
        screen.cols <= cols <= u16::MAX - 8,
    ensures
        screen.scrolled_to(offset).takes_output(),
        screen.resized(rows, cols).takes_output(),
{
    rows_stay_whole(screen.live, screen.cols, rows, cols);
    rows_stay_whole(screen.hidden, screen.cols, rows, cols);
}

proof fn rows_stay_whole(from: Seq<RowView>, old_cols: nat, rows: u16, cols: u16)
    requires
        rows_are_whole(from, old_cols),
        old_cols <= cols,
    ensures
        rows_are_whole(resized_rows(from, rows, cols), cols as nat),
{
    let resized = resized_rows(from, rows, cols);
    assert forall|r: int| 0 <= r < resized.len() implies (
    #[trigger] resized[r]).cells.len() == cols && resized[r].whole() by {
        if r < from.len() {
            assert(from[r].whole());
            assert forall|c: int| 0 <= c < old_cols implies #[trigger] resized[r].cells[c]
                == from[r].cells[c] by {};
            assert forall|c: int| old_cols <= c < cols implies #[trigger] resized[r].cells[c]
                == blank_cell() by {};
        }
    }
}

/// The view always shows as many rows as the live screen has, and at scroll
/// position zero it shows the live screen itself.
pub proof fn view_has_the_height_of_the_screen(screen: ScreenView)
    requires
        screen.offset <= screen.history.len(),
    ensures
        screen.visible().len() == screen.live.len(),
        screen.offset == 0 ==> screen.visible() == screen.live,
{
    if screen.offset == 0 {
        assert(screen.visible() =~= screen.live);
    }
}

/// What a range copies depends on the rows in view and the number of columns only:
/// two screens that agree in these yield the same text, wherever either is scrolled
/// to and whatever lies out of view.
pub proof fn copying_depends_on_what_is_in_view_only(
    a: ScreenView,
    b: ScreenView,
    start: CellPos,
    end: CellPos,
)
    requires
        a.visible() == b.visible(),
        a.cols == b.cols,
    ensures
        range_text(a, start, end) == range_text(b, start, end),
{
    assert forall|r: u16| #[trigger] a.overhangs_at(r) == b.overhangs_at(r) by {}
    if a.overhangs(end.row) {
        let r = choose|r: u16| r <= end.row && #[trigger] a.overhangs_at(r);
        assert(b.overhangs_at(r));
    }
    if b.overhangs(end.row) {
        let r = choose|r: u16| r <= end.row && #[trigger] b.overhangs_at(r);
        assert(a.overhangs_at(r));
    }
}

/// The text of a range is what the emulator has between its two ends: from the
/// start cell through the end cell, both included, whatever the scroll position. A
/// range that starts past the right edge and goes on below starts at that edge.
pub proof fn a_range_is_what_stands_between_its_ends(
    screen: ScreenView,
    start: CellPos,
    end: CellPos,
)
    requires
        screen.cols < u16::MAX,
        end.col < u16::MAX - 1,
    ensures
        start.row >= end.row || start.col <= screen.cols ==> range_text(screen, start, end)
            == text_between(
            screen.visible(),
            screen.cols,
            start.row,
            start.col,
            end.row,
            (end.col + 1) as u16,
        ),
        start.row < end.row && start.col > screen.cols ==> range_text(screen, start, end)
            == text_between(
            screen.visible(),
            screen.cols,
            start.row,
            screen.cols as u16,
            end.row,
            (end.col + 1) as u16,
        ),
{
}

/// The same on the widest screens, and on ranges to the last column a cell can be
/// in, as long as no glyph overhangs that column: only then is there no text.
pub proof fn only_overhanging_glyphs_are_not_copied(
    screen: ScreenView,
    start: CellPos,
    end: CellPos,
)
    requires
        screen.cols <= u16::MAX,
    ensures
        !screen.overhangs(end.row) && (start.row >= end.row || start.col <= screen.cols)
            ==> range_text(screen, start, end) == text_between(
            screen.visible(),
            screen.cols,
            start.row,
            start.col,
            end.row,
            if end.col == u16::MAX {
                u16::MAX
            } else {
                (end.col + 1) as u16
            },
        ),
        screen.overhangs(end.row) && end.col >= u16::MAX - 1 ==> range_text(screen, start, end)
            == Seq::<char>::empty(),
        screen.overhangs(end.row) <==> exists|r: u16|
            r <= end.row && (#[trigger] screen.cell_at(r, (u16::MAX - 1) as u16)) is Some
                && screen.cell_at(r, (u16::MAX - 1) as u16)->0.wide,
{
    if screen.overhangs(end.row) {
        let r = choose|r: u16| r <= end.row && #[trigger] screen.overhangs_at(r);
        assert(screen.cell_at(r, (u16::MAX - 1) as u16) is Some);
    }
    assert forall|r: u16|
        r <= end.row && (#[trigger] screen.cell_at(r, (u16::MAX - 1) as u16)) is Some
            && screen.cell_at(r, (u16::MAX - 1) as u16)->0.wide implies screen.overhangs(
        end.row,
    ) by {
        assert(screen.overhangs_at(r));
    }
}

/// Which rows are in view: scrolled back by `n`, the last `n` rows of the history
/// stand above the live ones, as far as there is room for them.
pub proof fn scrolling_back_brings_the_history_into_view(screen: ScreenView, n: nat, r: int)
    requires
        0 <= r < screen.live.len(),
    ensures
        ({
            let back = if n <= screen.history.len() {
                n as int
            } else {
                screen.history.len() as int
            };
            let after = screen.scrolled_to(n);
            &&& after.offset == back
            &&& after.visible().len() == screen.live.len()
            &&& r < back ==> after.visible()[r] == screen.history[screen.history.len() - back + r]
            &&& r >= back ==> after.visible()[r] == screen.live[r - back]
            &&& after.cols == screen.cols && after.limit == screen.limit
            &&& after.hidden == screen.hidden
        }),
{
}

/// A new size keeps the cells that are still on the screen, adds blank ones where it
/// grew, and touches neither the history nor the scroll position.
pub proof fn a_new_size_keeps_what_fits(screen: ScreenView, rows: u16, cols: u16, r: int, c: int)
    requires
        0 <= r < rows,
        0 <= c < cols,
    ensures
        ({
            let after = screen.resized(rows, cols);
            &&& after.live.len() == rows && after.live[r].cells.len() == cols
            &&& after.cols == cols
            &&& r < screen.live.len() && c < screen.live[r].cells.len()
                ==> after.live[r].cells[c] == screen.live[r].cells[c]
            &&& r >= screen.live.len() || c >= screen.live[r].cells.len()
                ==> after.live[r].cells[c].contents.len() == 0
                && !after.live[r].cells[c].wide
            &&& after.history == screen.history && after.offset == screen.offset
            &&& after.limit == screen.limit
        }),
{
}

/// The cell in view at a place is the one that the row in view has there, and there is
/// none past an edge.
pub proof fn cells_in_view_are_those_of_the_rows_in_view(screen: ScreenView, row: u16, col: u16)
    ensures
        row < screen.visible().len() && col < screen.visible()[row as int].cells.len()
            ==> screen.cell_at(row, col) == Some(screen.visible()[row as int].cells[col as int]),
        row >= screen.visible().len() ==> screen.cell_at(row, col) is None,
        row < screen.visible().len() && col >= screen.visible()[row as int].cells.len()
            ==> screen.cell_at(row, col) is None,
{
}

/// A fresh screen is blank: as many rows and columns as asked for, no text in any cell,
/// no history, and the live screen in view.
pub proof fn fresh_screens_are_blank(rows: u16, cols: u16, limit: nat, r: int, c: int)
    requires
        0 <= r < rows,
        0 <= c < cols,
    ensures
        ({
            let screen = blank_screen(rows, cols, limit);
            &&& screen.live.len() == rows && screen.live[r].cells.len() == cols
            &&& screen.live[r].cells[c].contents.len() == 0
            &&& !screen.live[r].cells[c].wide && !screen.live[r].wrapped
            &&& !screen.live[r].cells[c].wide_continuation
            &&& !screen.live[r].cells[c].bold && !screen.live[r].cells[c].italic
            &&& !screen.live[r].cells[c].underline && !screen.live[r].cells[c].inverse
            &&& screen.live[r].cells[c].fg is Default && screen.live[r].cells[c].bg is Default
            &&& screen.history.len() == 0 && screen.offset == 0
            &&& screen.cols == cols && screen.limit == limit
            &&& screen.visible() == screen.live
        }),
{
    view_has_the_height_of_the_screen(blank_screen(rows, cols, limit));
}

/// Output is taken chunk by chunk, in order.
pub proof fn chunks_are_fed_in_order(parser: PaneParser, chunks: Seq<Vec<u8>>, last: Vec<u8>)
    ensures
        fed_all(parser, Seq::empty()) == parser,
        fed_all(parser, chunks.push(last)) == fed(fed_all(parser, chunks), last@),
{
    assert(chunks.push(last).drop_last() =~= chunks);
}

} // verus!
