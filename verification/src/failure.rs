//! The pane of an agent that never came up: its text, where each line of it
//! stands, and what a drag over it copies.

use vstd::prelude::*;

use crate::geometry::{least, monus, most, row_bounds, selected_columns, CellPos, Rect};
use crate::label::{display_width, unicode_width_of};
use crate::text::{
    a_line_is_one_piece, blank, chars_of, contents, control_char, is_blank, is_control_char,
    is_sound_mark, joined_lines_are_blank_together, lines, lines_of, newline_joined,
    one_more_line_is_one_more_piece, sound_mark, spaces, split_newlines, string_of,
    trim_line_ends, trimmed_end, trimming_keeps_what_is_not_blank, with_line_ends_trimmed,
};

verus! {

/// One line of the failure pane, and where it stands in the pane.
#[derive(Debug, PartialEq, Eq)]
pub struct FailureLine {
    pub row: u16,
    pub content: String,
    pub col: u16,
    /// Whether this is the headline.
    pub is_header: bool,
}

/// The text of the failure pane: a headline, an empty line, and the message.
pub open spec fn failure_lines(host: Seq<char>, err: Seq<char>) -> Seq<Seq<char>> {
    seq!["✗ bootstrap of "@ + host + " failed"@, Seq::empty()] + lines_of(err)
}

/// The text of the failure pane, line by line.
pub fn failure_source_lines(host: &str, err: &str) -> (r: Vec<String>)
    ensures
        contents(r@) == failure_lines(host@, err@),
{
    let mut out: Vec<String> = Vec::new();
    let mut header = "✗ bootstrap of ".to_owned();
    header.append(host);
    header.append(" failed");
    out.push(header);
    out.push(String::new());
    let mut message = lines(err);
    let ghost tail = message@;
    out.append(&mut message);
    assert(contents(out@) =~= seq![contents(out@)[0], contents(out@)[1]] + contents(tail));
    out
}

/// The row on which `count` lines begin when they are centered in `height` rows.
pub open spec fn top_row(count: nat, height: u16) -> int {
    monus(height as int, least(count as int, u16::MAX as int)) / 2
}

/// The column on which `cells` cells begin when they are centered in `width` columns.
pub fn centered_col(cells: usize, width: u16) -> (r: u16)
    ensures
        r == monus(width as int, cells as int) / 2,
{
    if cells < width as usize {
        (width - cells as u16) / 2
    } else {
        0
    }
}

/// The column on which a line begins when it is centered in `width` columns.
pub open spec fn left_col(line: Seq<char>, width: u16) -> int {
    monus(width as int, display_width(line) as int) / 2
}

/// How many lines of the failure pane are in view.
pub open spec fn lines_in_view(lines: Seq<Seq<char>>, area: Rect) -> int {
    least(lines.len() as int, area.height - top_row(lines.len(), area.height))
}

/// Whether `layout` is `lines` centered in `area`, without those past its last
/// row.
pub open spec fn is_layout(layout: Seq<FailureLine>, lines: Seq<Seq<char>>, area: Rect) -> bool {
    &&& layout.len() == lines_in_view(lines, area)
    &&& forall|i: int|
        0 <= i < layout.len() ==> {
            &&& (#[trigger] layout[i]).content@ == lines[i]
            &&& layout[i].row == top_row(lines.len(), area.height) + i
            &&& layout[i].col == left_col(lines[i], area.width)
            &&& layout[i].is_header == (i == 0)
        }
}

/// The lines of the failure pane that are in view, centered in `area`.
pub fn failure_layout(host: &str, err: &str, area: Rect) -> (r: Vec<FailureLine>)
    ensures
        is_layout(r@, failure_lines(host@, err@), area),
{
    let source = failure_source_lines(host, err);
    let ghost wanted = failure_lines(host@, err@);
    assert(source@.len() == contents(source@).len());
    let count: usize = source.len();
    let content_height: u16 = if count < u16::MAX as usize {
        count as u16
    } else {
        u16::MAX
    };
    let top_pad: u16 = area.height.saturating_sub(content_height) / 2;
    let max_visible: u16 = area.height - top_pad;
    let shown: usize = if count < max_visible as usize {
        count
    } else {
        max_visible as usize
    };
    let mut out: Vec<FailureLine> = Vec::new();
    for i in 0..shown
        invariant
            wanted == contents(source@),
            count == source@.len(),
            wanted == failure_lines(host@, err@),
            shown <= count,
            shown <= max_visible,
            max_visible == area.height - top_pad,
            top_pad == top_row(wanted.len(), area.height),
            out@.len() == i,
            forall|j: int|
                0 <= j < i ==> {
                    &&& (#[trigger] out@[j]).content@ == wanted[j]
                    &&& out@[j].row == top_row(wanted.len(), area.height) + j
                    &&& out@[j].col == left_col(wanted[j], area.width)
                    &&& out@[j].is_header == (j == 0)
                },
    {
        assert(wanted[i as int] == source@[i as int]@);
        let content = source[i].clone();
        let col: u16 = centered_col(unicode_width_of(content.as_str()), area.width);
        out.push(FailureLine { row: top_pad + i as u16, content, col, is_header: i == 0 });
    }
    out
}

/// A character of a line together with those after it that take no columns of
/// their own, and the columns it stands on: from `lo` up to `hi`, counted from
/// where the line begins.
pub struct GlyphSpan {
    pub chars: Seq<char>,
    pub lo: nat,
    pub hi: nat,
}

/// How many halfwidth katakana sound marks there are in `text`.
pub open spec fn sound_marks(text: Seq<char>) -> nat
    decreases text.len(),
{
    if text.len() == 0 {
        0
    } else {
        sound_marks(text.drop_last()) + if is_sound_mark(text.last()) {
            1nat
        } else {
            0
        }
    }
}

/// How many cells `text` is drawn on: its width, and one for each sound mark.
pub open spec fn cells(text: Seq<char>) -> nat {
    display_width(text) + sound_marks(text)
}

/// Whether a character that takes `own` cells by itself is drawn where there is room
/// for `room` columns: neither control characters are nor those wider than that.
pub open spec fn is_drawn(c: char, own: nat, room: int) -> bool {
    !is_control_char(c) && own <= room
}

/// The characters of a line that are drawn where there is room for `room` columns.
pub open spec fn drawn_text(line: Seq<char>, room: int) -> Seq<char>
    decreases line.len(),
{
    if line.len() == 0 {
        Seq::empty()
    } else {
        let before = drawn_text(line.drop_last(), room);
        if is_drawn(line.last(), cells(seq![line.last()]), room) {
            before.push(line.last())
        } else {
            before
        }
    }
}

/// The glyphs with one more character, which takes `own` cells by itself and makes
/// the text go from `before` to `after` cells. It stands on the cells in between. One
/// that takes none goes with the character before it, and is nothing where there is
/// none.
pub open spec fn with_char(
    spans: Seq<GlyphSpan>,
    c: char,
    own: nat,
    before: nat,
    after: nat,
) -> Seq<GlyphSpan> {
    if own > 0 && after > before {
        spans.push(GlyphSpan { chars: seq![c], lo: before, hi: after })
    } else if spans.len() > 0 {
        let base = spans.last();
        spans.drop_last().push(
            GlyphSpan { chars: base.chars.push(c), lo: base.lo, hi: after },
        )
    } else {
        spans
    }
}

/// Whether the last character of `text` takes no cells: it has none by itself, or
/// `text` is on no more cells than without it.
pub open spec fn ends_without_width(text: Seq<char>) -> bool {
    ||| cells(seq![text.last()]) == 0
    ||| cells(text) <= cells(text.drop_last())
}

/// The glyphs of `text`. Each character stands on the columns from the cells of the
/// text before it up to the cells of the text with it.
pub open spec fn glyphs(text: Seq<char>) -> Seq<GlyphSpan>
    decreases text.len(),
{
    if text.len() == 0 {
        Seq::empty()
    } else {
        with_char(
            glyphs(text.drop_last()),
            text.last(),
            cells(seq![text.last()]),
            cells(text.drop_last()),
            cells(text),
        )
    }
}

/// The columns there are for a line that begins on column `left`.
pub open spec fn room_from(left: int, width: u16) -> int {
    width - left
}

/// The glyphs of a line of the failure pane.
pub open spec fn line_glyphs(line: Seq<char>, width: u16) -> Seq<GlyphSpan> {
    glyphs(drawn_text(line, room_from(left_col(line, width), width)))
}

/// The characters of those glyphs that are drawn in full in `room` columns and whose
/// first column lies from `lo` up to `hi`.
pub open spec fn glyphs_within(spans: Seq<GlyphSpan>, room: int, lo: int, hi: int) -> Seq<char>
    decreases spans.len(),
{
    if spans.len() == 0 {
        Seq::empty()
    } else {
        let before = glyphs_within(spans.drop_last(), room, lo, hi);
        if lo <= spans.last().lo < hi && spans.last().hi <= room {
            before + spans.last().chars
        } else {
            before
        }
    }
}

/// The column after the last glyph that is drawn in full in `room` columns.
pub open spec fn drawn_end(spans: Seq<GlyphSpan>, room: int) -> nat
    decreases spans.len(),
{
    if spans.len() == 0 {
        0
    } else if spans.last().hi <= room {
        spans.last().hi
    } else {
        drawn_end(spans.drop_last(), room)
    }
}

/// What is drawn from column `lo` up to `hi` of glyphs that begin on column `left`:
/// spaces before them, those whose first column lies there, and spaces after them.
pub open spec fn cells_between(
    spans: Seq<GlyphSpan>,
    left: int,
    width: u16,
    lo: int,
    hi: int,
) -> Seq<char> {
    let room = room_from(left, width);
    spaces(least(hi, left) - lo) + glyphs_within(spans, room, lo - left, hi - left) + spaces(
        hi - most(lo, left + drawn_end(spans, room)),
    )
}

/// What is drawn of a line from column `lo` up to `hi`.
pub open spec fn line_cells(line: Seq<char>, width: u16, lo: int, hi: int) -> Seq<char> {
    cells_between(line_glyphs(line, width), left_col(line, width), width, lo, hi)
}

/// The text of a row of the failure pane from column `lo` up to `hi`: that of the
/// line there, and spaces off every line.
pub open spec fn failure_row(
    lines: Seq<Seq<char>>,
    area: Rect,
    row: int,
    lo: int,
    hi: int,
) -> Seq<char> {
    let i = row - top_row(lines.len(), area.height);
    if 0 <= i < lines_in_view(lines, area) {
        line_cells(lines[i], area.width, lo, hi)
    } else {
        spaces(hi - lo)
    }
}

/// The selected text of the rows from `start.row` to `last`, with newlines between
/// the rows.
pub open spec fn failure_cells(
    lines: Seq<Seq<char>>,
    area: Rect,
    start: CellPos,
    end: CellPos,
    last: int,
) -> Seq<char>
    decreases last - start.row + 1,
{
    if last < start.row {
        Seq::empty()
    } else {
        let (lo, hi) = selected_columns(start, end, last as u16, area.width);
        let before = failure_cells(lines, area, start, end, last - 1);
        let row = failure_row(lines, area, last, lo, hi);
        if last > start.row {
            before.push('\n') + row
        } else {
            before + row
        }
    }
}

/// What a drag from `start` to `end` over the failure pane copies: the selected
/// text without the white space at the ends of the rows, and nothing at
/// all when there is nothing but white space.
pub open spec fn failure_copy(
    lines: Seq<Seq<char>>,
    area: Rect,
    start: CellPos,
    end: CellPos,
) -> Seq<char> {
    let text = with_line_ends_trimmed(failure_cells(lines, area, start, end, end.row as int));
    if is_blank(text) {
        Seq::empty()
    } else {
        text
    }
}

/// A glyph of a line, and the columns it stands on.
#[derive(Debug, PartialEq, Eq)]
pub struct LineGlyph {
    pub chars: Vec<char>,
    pub lo: u128,
    pub hi: u128,
}

impl View for LineGlyph {
    type V = GlyphSpan;

    open spec fn view(&self) -> GlyphSpan {
        GlyphSpan { chars: self.chars@, lo: self.lo as nat, hi: self.hi as nat }
    }
}

/// The glyphs, each as its characters and columns.
pub open spec fn spans(glyphs: Seq<LineGlyph>) -> Seq<GlyphSpan> {
    glyphs.map_values(|g: LineGlyph| g@)
}

/// Whether a character that takes `own` cells by itself is drawn where there is room
/// for `room` columns.
pub fn drawn(c: char, own: u128, room: u16) -> (r: bool)
    ensures
        r == is_drawn(c, own as nat, room as int),
{
    !control_char(c) && own <= room as u128
}

/// Adds one more character to the glyphs of a text: one that takes `own` cells by
/// itself and makes the text go from `before` to `after` cells.
pub fn add_char(glyphs: &mut Vec<LineGlyph>, c: char, own: u128, before: u128, after: u128)
    ensures
        spans(final(glyphs)@) == with_char(
            spans(old(glyphs)@),
            c,
            own as nat,
            before as nat,
            after as nat,
        ),
{
    let ghost shown = glyphs@;
    assert(spans(shown).len() == shown.len());
    if own > 0 && after > before {
        let mut chars: Vec<char> = Vec::new();
        chars.push(c);
        assert(chars@ =~= seq![c]);
        glyphs.push(LineGlyph { chars, lo: before, hi: after });
    } else if let Some(mut base) = glyphs.pop() {
        assert(spans(shown).last() == base@);
        assert(spans(glyphs@) =~= spans(shown).drop_last());
        base.chars.push(c);
        base.hi = after;
        glyphs.push(base);
    }
    assert(spans(glyphs@) =~= with_char(
        spans(shown),
        c,
        own as nat,
        before as nat,
        after as nat,
    ));
}

/// The glyphs of `line` that are drawn where there is room for `room` columns.
fn glyphs_of(line: &str, room: u16) -> (r: Vec<LineGlyph>)
    ensures
        spans(r@) == glyphs(drawn_text(line@, room as int)),
{
    let chars = chars_of(line);
    let mut out: Vec<LineGlyph> = Vec::new();
    let mut text = String::new();
    let mut marks: usize = 0;
    let mut before: u128 = unicode_width_of(text.as_str()) as u128;
    assert(spans(out@) =~= glyphs(text@));
    assert(drawn_text(chars@.take(0), room as int) =~= text@);
    for i in 0..chars.len()
        invariant
            chars@ == line@,
            text@ == drawn_text(chars@.take(i as int), room as int),
            marks <= i,
            marks == sound_marks(text@),
            before == cells(text@),
            spans(out@) == glyphs(text@),
    {
        let c = chars[i];
        let ghost shown = text@;
        assert(chars@.take(i + 1).drop_last() =~= chars@.take(i as int));
        let mark: usize = if sound_mark(c) {
            1
        } else {
            0
        };
        let mut alone = String::new();
        alone.push(c);
        assert(alone@ =~= seq![c]);
        assert(sound_marks(seq![c].drop_last()) == 0);
        let own: u128 = unicode_width_of(alone.as_str()) as u128 + mark as u128;
        if drawn(c, own, room) {
            text.push(c);
            marks = marks + mark;
            assert(text@.drop_last() =~= shown);
            let after: u128 = unicode_width_of(text.as_str()) as u128 + marks as u128;
            add_char(&mut out, c, own, before, after);
            before = after;
        }
    }
    assert(chars@.take(chars@.len() as int) =~= line@);
    out
}

/// A line in view, as the glyphs it is made of.
struct PlacedLine {
    row: u16,
    col: u16,
    glyphs: Vec<LineGlyph>,
}

spec fn is_placed(placed: Seq<PlacedLine>, lines: Seq<Seq<char>>, area: Rect) -> bool {
    &&& placed.len() == lines_in_view(lines, area)
    &&& forall|i: int|
        0 <= i < placed.len() ==> {
            &&& spans((#[trigger] placed[i]).glyphs@) == line_glyphs(lines[i], area.width)
            &&& placed[i].row == top_row(lines.len(), area.height) + i
            &&& placed[i].col == left_col(lines[i], area.width)
        }
}

fn place_lines(host: &str, err: &str, area: Rect) -> (r: Vec<PlacedLine>)
    ensures
        is_placed(r@, failure_lines(host@, err@), area),
{
    let layout = failure_layout(host, err, area);
    let ghost wanted = failure_lines(host@, err@);
    let mut placed: Vec<PlacedLine> = Vec::new();
    for i in 0..layout.len()
        invariant
            wanted == failure_lines(host@, err@),
            is_layout(layout@, wanted, area),
            placed@.len() == i,
            forall|j: int|
                0 <= j < i ==> {
                    &&& spans((#[trigger] placed@[j]).glyphs@) == line_glyphs(
                        wanted[j],
                        area.width,
                    )
                    &&& placed@[j].row == top_row(wanted.len(), area.height) + j
                    &&& placed@[j].col == left_col(wanted[j], area.width)
                },
    {
        let line = &layout[i];
        let glyphs = glyphs_of(line.content.as_str(), area.width - line.col);
        placed.push(PlacedLine { row: line.row, col: line.col, glyphs });
    }
    placed
}

fn push_spaces(out: &mut Vec<char>, lo: u16, hi: u16)
    ensures
        final(out)@ == old(out)@ + spaces(hi - lo),
{
    let ghost before = out@;
    let mut col: u16 = lo;
    assert(out@ =~= before + spaces(0));
    while col < hi
        invariant
            lo <= col,
            col <= hi || col == lo,
            out@ == before + spaces(col - lo),
        decreases hi - col,
    {
        out.push(' ');
        assert(out@ =~= before + spaces(col + 1 - lo));
        col = col + 1;
    }
    assert(spaces(hi - lo) =~= spaces(col - lo));
}

/// Adds what is drawn from column `lo` up to `hi` of glyphs that begin on column
/// `left` of a pane with `width` columns.
pub fn push_cells(
    out: &mut Vec<char>,
    glyphs: &Vec<LineGlyph>,
    left: u16,
    width: u16,
    lo: u16,
    hi: u16,
)
    requires
        left <= width,
    ensures
        final(out)@ == old(out)@ + cells_between(
            spans(glyphs@),
            left as int,
            width,
            lo as int,
            hi as int,
        ),
{
    let ghost shown = spans(glyphs@);
    let ghost before = out@;
    let room: u16 = width - left;
    let margin: u16 = if hi < left {
        hi
    } else {
        left
    };
    push_spaces(out, lo, margin);
    let ghost padded = out@;
    let from: u128 = lo.saturating_sub(left) as u128;
    let to: u128 = hi.saturating_sub(left) as u128;
    let mut end: u128 = 0;
    assert(out@ =~= padded + glyphs_within(shown.take(0), room as int, lo - left, hi - left));
    for i in 0..glyphs.len()
        invariant
            shown == spans(glyphs@),
            from == monus(lo as int, left as int),
            to == monus(hi as int, left as int),
            end <= room,
            end == drawn_end(shown.take(i as int), room as int),
            out@ == padded + glyphs_within(
                shown.take(i as int),
                room as int,
                lo - left,
                hi - left,
            ),
    {
        let glyph = &glyphs[i];
        assert(shown.take(i + 1).drop_last() =~= shown.take(i as int));
        assert(shown.take(i + 1).last() == glyph@);
        if glyph.hi <= room as u128 {
            end = glyph.hi;
            if from <= glyph.lo && glyph.lo < to {
                push_all(out, &glyph.chars);
                assert(out@ =~= padded + (glyphs_within(
                    shown.take(i as int),
                    room as int,
                    lo - left,
                    hi - left,
                ) + glyph.chars@));
            }
        }
    }
    assert(shown.take(shown.len() as int) =~= shown);
    let after: u16 = left + end as u16;
    push_spaces(
        out,
        if lo < after {
            after
        } else {
            lo
        },
        hi,
    );
    assert(out@ =~= before + cells_between(shown, left as int, width, lo as int, hi as int));
}

fn push_all(out: &mut Vec<char>, chars: &Vec<char>)
    ensures
        final(out)@ == old(out)@ + chars@,
{
    let ghost before = out@;
    assert(out@ =~= before + chars@.take(0));
    for i in 0..chars.len()
        invariant
            out@ == before + chars@.take(i as int),
    {
        out.push(chars[i]);
        assert(out@ =~= before + chars@.take(i + 1));
    }
    assert(chars@.take(chars@.len() as int) =~= chars@);
}

fn push_row(
    out: &mut Vec<char>,
    placed: &Vec<PlacedLine>,
    area: Rect,
    row: u16,
    lo: u16,
    hi: u16,
    Ghost(lines): Ghost<Seq<Seq<char>>>,
)
    requires
        is_placed(placed@, lines, area),
    ensures
        final(out)@ == old(out)@ + failure_row(lines, area, row as int, lo as int, hi as int),
{
    let mut i: usize = 0;
    while i < placed.len()
        invariant
            i <= placed@.len(),
            is_placed(placed@, lines, area),
            forall|j: int| 0 <= j < i ==> (#[trigger] placed@[j]).row != row,
            out@ == old(out)@,
        decreases placed@.len() - i,
    {
        if placed[i].row == row {
            push_cells(out, &placed[i].glyphs, placed[i].col, area.width, lo, hi);
            return;
        }
        i = i + 1;
    }
    proof {
        let at = row - top_row(lines.len(), area.height);
        if 0 <= at < placed@.len() {
            assert(placed@[at].row == row);
        }
    }
    push_spaces(out, lo, hi);
}

/// What a drag from `start` to `end` over the failure pane copies.
pub fn failure_text_in_range(
    host: &str,
    err: &str,
    area: Rect,
    start: CellPos,
    end: CellPos,
) -> (r: String)
    ensures
        r@ == failure_copy(failure_lines(host@, err@), area, start, end),
{
    let placed = place_lines(host, err, area);
    let ghost wanted = failure_lines(host@, err@);
    let mut out: Vec<char> = Vec::new();
    if start.row <= end.row {
        let mut row: u16 = start.row;
        let (lo, hi) = row_bounds(start, end, row, area.width);
        push_row(&mut out, &placed, area, row, lo, hi, Ghost(wanted));
        assert(failure_cells(wanted, area, start, end, start.row - 1) =~= Seq::<char>::empty());
        assert(out@ =~= failure_cells(wanted, area, start, end, row as int));
        while row < end.row
            invariant
                start.row <= row <= end.row,
                is_placed(placed@, wanted, area),
                out@ == failure_cells(wanted, area, start, end, row as int),
            decreases end.row - row,
        {
            row = row + 1;
            out.push('\n');
            let (lo, hi) = row_bounds(start, end, row, area.width);
            push_row(&mut out, &placed, area, row, lo, hi, Ghost(wanted));
            assert(out@ =~= failure_cells(wanted, area, start, end, row as int));
        }
    } else {
        assert(out@ =~= failure_cells(wanted, area, start, end, end.row as int));
    }
    let trimmed = trim_line_ends(&out);
    if blank(&trimmed) {
        String::new()
    } else {
        string_of(&trimmed)
    }
}

/// Every line of the pane that is in view stands inside it, below the one before.
pub proof fn failure_layout_stays_in_the_pane(
    layout: Seq<FailureLine>,
    lines: Seq<Seq<char>>,
    area: Rect,
)
    requires
        is_layout(layout, lines, area),
    ensures
        forall|i: int| 0 <= i < layout.len() ==> (#[trigger] layout[i]).row < area.height,
        forall|i: int|
            0 <= i < layout.len() ==> (#[trigger] layout[i]).col == 0 || layout[i].col
                < area.width,
        forall|i: int, j: int|
            0 <= i < j < layout.len() ==> (#[trigger] layout[i]).row < (#[trigger] layout[j]).row,
{
}

/// The characters of these glyphs one after the other.
pub open spec fn joined(spans: Seq<GlyphSpan>) -> Seq<char>
    decreases spans.len(),
{
    if spans.len() == 0 {
        Seq::empty()
    } else {
        joined(spans.drop_last()) + spans.last().chars
    }
}

/// Whether every glyph stands on at least one column. This fails only where a
/// character makes the text no wider than it was before the glyph it goes with.
pub open spec fn all_have_width(spans: Seq<GlyphSpan>) -> bool {
    forall|k: int| 0 <= k < spans.len() ==> (#[trigger] spans[k]).lo < spans[k].hi
}

proof fn glyphs_stand_side_by_side(text: Seq<char>)
    ensures
        forall|k: int|
            0 <= k < glyphs(text).len() - 1 ==> (#[trigger] glyphs(text)[k]).hi == glyphs(text)[k
                + 1].lo,
        glyphs(text).len() > 0 ==> glyphs(text).last().hi == cells(text),
    decreases text.len(),
{
    if text.len() > 0 {
        glyphs_stand_side_by_side(text.drop_last());
    }
}

proof fn later_glyphs_stand_further_right(spans: Seq<GlyphSpan>, j: int, k: int)
    requires
        all_have_width(spans),
        forall|m: int| 0 <= m < spans.len() - 1 ==> (#[trigger] spans[m]).hi == spans[m + 1].lo,
        0 <= j < k < spans.len(),
    ensures
        spans[j].hi <= spans[k].lo,
    decreases k - j,
{
    if j + 1 < k {
        later_glyphs_stand_further_right(spans, j, k - 1);
        assert(spans[k - 1].hi == spans[k].lo);
    } else {
        assert(spans[j].hi == spans[j + 1].lo);
    }
}

spec fn is_within(glyph: GlyphSpan, room: int, lo: int, hi: int) -> bool {
    lo <= glyph.lo < hi && glyph.hi <= room
}

proof fn glyphs_within_a_range(
    spans: Seq<GlyphSpan>,
    room: int,
    lo: int,
    hi: int,
    a: int,
    b: int,
)
    requires
        0 <= a <= b <= spans.len(),
        forall|k: int|
            0 <= k < spans.len() ==> is_within(#[trigger] spans[k], room, lo, hi) == (a <= k < b),
    ensures
        glyphs_within(spans, room, lo, hi) == joined(spans.subrange(a, b)),
    decreases spans.len(),
{
    if spans.len() == 0 {
        assert(spans.subrange(a, b) =~= Seq::empty());
    } else {
        let rest = spans.drop_last();
        let last = spans.len() - 1;
        assert(is_within(spans[last], room, lo, hi) == (a <= last < b));
        assert forall|k: int| 0 <= k < rest.len() implies is_within(
            #[trigger] rest[k],
            room,
            lo,
            hi,
        ) == (a <= k < b) by {
            assert(rest[k] == spans[k]);
        }
        if a <= last < b {
            glyphs_within_a_range(rest, room, lo, hi, a, last);
            assert(spans.subrange(a, b).drop_last() =~= rest.subrange(a, last));
        } else if b <= last {
            glyphs_within_a_range(rest, room, lo, hi, a, b);
            assert(spans.subrange(a, b) =~= rest.subrange(a, b));
        } else {
            glyphs_within_a_range(rest, room, lo, hi, last, last);
            assert(spans.subrange(a, b) =~= Seq::empty());
            assert(rest.subrange(last, last) =~= Seq::empty());
        }
    }
}

proof fn the_end_is_past_what_is_drawn(spans: Seq<GlyphSpan>, room: int, k: int)
    requires
        all_have_width(spans),
        forall|m: int| 0 <= m < spans.len() - 1 ==> (#[trigger] spans[m]).hi == spans[m + 1].lo,
        0 <= k < spans.len(),
        spans[k].hi <= room,
    ensures
        spans[k].hi <= drawn_end(spans, room),
    decreases spans.len(),
{
    let rest = spans.drop_last();
    if k < spans.len() - 1 {
        later_glyphs_stand_further_right(spans, k, spans.len() - 1);
        assert forall|m: int| 0 <= m < rest.len() - 1 implies (#[trigger] rest[m]).hi == rest[m
            + 1].lo by {
            assert(spans[m].hi == spans[m + 1].lo);
        }
        the_end_is_past_what_is_drawn(rest, room, k);
    }
}

/// A drag copies what is drawn: over the columns of some glyphs of a line, from the
/// first column of the first to the last column of the last, it copies just these
/// glyphs; over the further columns of one wide glyph alone it copies nothing; and
/// the columns before and after what is drawn of the line read as spaces.
pub proof fn failure_cells_are_what_is_drawn(
    layout: Seq<FailureLine>,
    lines: Seq<Seq<char>>,
    area: Rect,
    i: int,
    a: int,
    b: int,
)
    requires
        is_layout(layout, lines, area),
        0 <= i < layout.len(),
        all_have_width(line_glyphs(lines[i], area.width)),
        0 <= a < b <= line_glyphs(lines[i], area.width).len(),
        layout[i].col + line_glyphs(lines[i], area.width)[b - 1].hi <= area.width,
    ensures
        ({
            let (row, col) = (layout[i].row as int, layout[i].col as int);
            let spans = line_glyphs(lines[i], area.width);
            let end = col + drawn_end(spans, area.width - col);
            &&& failure_row(lines, area, row, col + spans[a].lo, col + spans[b - 1].hi) == joined(
                spans.subrange(a, b),
            )
            &&& failure_row(lines, area, row, col + spans[a].lo + 1, col + spans[a].hi)
                == Seq::<char>::empty()
            &&& failure_row(lines, area, row, 0, col) == spaces(col)
            &&& failure_row(lines, area, row, end, area.width as int) == spaces(area.width - end)
        }),
{
    let left = layout[i].col as int;
    let room = area.width - left;
    let spans = line_glyphs(lines[i], area.width);
    glyphs_stand_side_by_side(drawn_text(lines[i], room));
    assert forall|j: int, k: int| 0 <= j < k < spans.len() implies (#[trigger] spans[j]).hi <= (
    #[trigger] spans[k]).lo by {
        later_glyphs_stand_further_right(spans, j, k);
    }
    assert forall|k: int| 0 <= k < spans.len() && spans[k].hi <= room implies (
    #[trigger] spans[k]).hi <= drawn_end(spans, room) by {
        the_end_is_past_what_is_drawn(spans, room, k);
    }
    let end = drawn_end(spans, room) as int;
    let (lo, hi) = (spans[a].lo as int, spans[b - 1].hi as int);
    glyphs_within_a_range(spans, room, lo, hi, a, b);
    glyphs_within_a_range(spans, room, lo + 1, spans[a].hi as int, 0, 0);
    glyphs_within_a_range(spans, room, -left, 0, 0, 0);
    glyphs_within_a_range(spans, room, end, room, 0, 0);
    assert(spans.subrange(0, 0) =~= Seq::empty());
    let row = layout[i].row as int;
    assert(failure_row(lines, area, row, left + lo, left + hi) =~= joined(spans.subrange(a, b)));
    assert(failure_row(lines, area, row, left + lo + 1, left + spans[a].hi)
        =~= Seq::<char>::empty());
    assert(failure_row(lines, area, row, 0, left) =~= spaces(left));
    assert(failure_row(lines, area, row, left + end, area.width as int) =~= spaces(
        area.width - left - end,
    ));
}

/// Every character that is drawn belongs to one glyph, in its order, so that a drag
/// over all of a line copies each of them once. Text that begins with a character
/// without width is left out: there is nothing for it to go with.
pub proof fn glyphs_hold_every_character(text: Seq<char>)
    requires
        text.len() > 0 ==> !ends_without_width(text.take(1)),
    ensures
        joined(glyphs(text)) == text,
        text.len() > 0 ==> glyphs(text).len() > 0,
    decreases text.len(),
{
    if text.len() > 0 {
        let before = text.drop_last();
        if before.len() > 0 {
            assert(before.take(1) =~= text.take(1));
        } else {
            assert(text.take(1) =~= text);
        }
        glyphs_hold_every_character(before);
        let spans = glyphs(before);
        assert(before.push(text.last()) =~= text);
        if !ends_without_width(text) {
            assert(glyphs(text).drop_last() =~= spans);
            assert(seq![text.last()] =~= Seq::empty().push(text.last()));
            assert(joined(glyphs(text)) =~= before.push(text.last()));
        } else {
            assert(glyphs(text).drop_last() =~= spans.drop_last());
            assert(joined(glyphs(text)) =~= before.push(text.last()));
        }
    }
}

/// The selected text of one row.
pub open spec fn selected_row(
    lines: Seq<Seq<char>>,
    area: Rect,
    start: CellPos,
    end: CellPos,
    row: int,
) -> Seq<char> {
    let (lo, hi) = selected_columns(start, end, row as u16, area.width);
    failure_row(lines, area, row, lo, hi)
}

/// The selected text of the rows from `start.row` on, `n` of them.
pub open spec fn selected_rows(
    lines: Seq<Seq<char>>,
    area: Rect,
    start: CellPos,
    end: CellPos,
    n: nat,
) -> Seq<Seq<char>> {
    Seq::new(n, |k: int| selected_row(lines, area, start, end, start.row + k))
}

proof fn nothing_drawn_is_a_newline(line: Seq<char>, room: int)
    ensures
        !drawn_text(line, room).contains('\n'),
    decreases line.len(),
{
    if line.len() > 0 {
        nothing_drawn_is_a_newline(line.drop_last(), room);
        assert(is_control_char('\n'));
    }
}

proof fn glyphs_bring_no_newline(text: Seq<char>)
    requires
        !text.contains('\n'),
    ensures
        forall|k: int| 0 <= k < glyphs(text).len() ==> !(#[trigger] glyphs(text)[k]).chars.contains(
            '\n',
        ),
    decreases text.len(),
{
    if text.len() > 0 {
        let before = text.drop_last();
        assert(!before.contains('\n')) by {
            if before.contains('\n') {
                let k = before.index_of('\n');
                assert(text[k] == '\n');
            }
        }
        glyphs_bring_no_newline(before);
        assert(text.last() != '\n') by {
            assert(text[text.len() - 1] == text.last());
        }
        if glyphs(before).len() > 0 {
            let base = glyphs(before).last();
            assert(!base.chars.contains('\n')) by {
                assert(glyphs(before)[glyphs(before).len() - 1] == base);
            }
        }
    }
}

proof fn ranges_bring_no_newline(spans: Seq<GlyphSpan>, room: int, lo: int, hi: int)
    requires
        forall|k: int| 0 <= k < spans.len() ==> !(#[trigger] spans[k]).chars.contains('\n'),
    ensures
        !glyphs_within(spans, room, lo, hi).contains('\n'),
    decreases spans.len(),
{
    if spans.len() > 0 {
        let rest = spans.drop_last();
        assert forall|k: int| 0 <= k < rest.len() implies !(#[trigger] rest[k]).chars.contains(
            '\n',
        ) by {
            assert(rest[k] == spans[k]);
        }
        ranges_bring_no_newline(rest, room, lo, hi);
        assert(!spans[spans.len() - 1].chars.contains('\n'));
    }
}

proof fn rows_hold_no_newline(lines: Seq<Seq<char>>, area: Rect, row: int, lo: int, hi: int)
    ensures
        !failure_row(lines, area, row, lo, hi).contains('\n'),
{
    let i = row - top_row(lines.len(), area.height);
    if 0 <= i < lines_in_view(lines, area) {
        let left = left_col(lines[i], area.width);
        let room = room_from(left, area.width);
        nothing_drawn_is_a_newline(lines[i], room);
        glyphs_bring_no_newline(drawn_text(lines[i], room));
        ranges_bring_no_newline(line_glyphs(lines[i], area.width), room, lo - left, hi - left);
    }
}

proof fn the_cells_split_into_the_rows(
    lines: Seq<Seq<char>>,
    area: Rect,
    start: CellPos,
    end: CellPos,
    n: nat,
)
    requires
        n > 0,
        start.row + n <= u16::MAX + 1,
    ensures
        split_newlines(failure_cells(lines, area, start, end, start.row + n - 1)) == selected_rows(
            lines,
            area,
            start,
            end,
            n,
        ),
    decreases n,
{
    let last = start.row + n - 1;
    let row = selected_row(lines, area, start, end, last);
    let (lo, hi) = selected_columns(start, end, last as u16, area.width);
    rows_hold_no_newline(lines, area, last, lo, hi);
    let before = failure_cells(lines, area, start, end, last - 1);
    if n == 1 {
        assert(before =~= Seq::empty());
        assert(failure_cells(lines, area, start, end, last) =~= row);
        a_line_is_one_piece(row);
        assert(seq![row] =~= selected_rows(lines, area, start, end, n));
    } else {
        the_cells_split_into_the_rows(lines, area, start, end, (n - 1) as nat);
        one_more_line_is_one_more_piece(before, row);
        assert(selected_rows(lines, area, start, end, n) =~= selected_rows(
            lines,
            area,
            start,
            end,
            (n - 1) as nat,
        ).push(row));
    }
}

/// A copy is made of the selected rows, a newline between each two, each without the
/// white space it ends in; no row brings a newline of its own. It is empty exactly
/// when all that is selected is white space.
pub proof fn a_copy_is_made_of_the_selected_rows(
    lines: Seq<Seq<char>>,
    area: Rect,
    start: CellPos,
    end: CellPos,
)
    requires
        start.row <= end.row,
    ensures
        ({
            let rows = selected_rows(
                lines,
                area,
                start,
                end,
                (end.row - start.row + 1) as nat,
            );
            let copy = failure_copy(lines, area, start, end);
            let all_blank = forall|k: int| 0 <= k < rows.len() ==> is_blank(#[trigger] rows[k]);
            &&& forall|k: int| 0 <= k < rows.len() ==> !(#[trigger] rows[k]).contains('\n')
            &&& all_blank ==> copy == Seq::<char>::empty()
            &&& !all_blank ==> copy.len() > 0 && copy == newline_joined(
                rows.map_values(|l: Seq<char>| trimmed_end(l)),
            )
        }),
{
    let n = (end.row - start.row + 1) as nat;
    let rows = selected_rows(lines, area, start, end, n);
    let trimmed = rows.map_values(|l: Seq<char>| trimmed_end(l));
    the_cells_split_into_the_rows(lines, area, start, end, n);
    assert forall|k: int| 0 <= k < rows.len() implies !(#[trigger] rows[k]).contains('\n') by {
        let row = start.row + k;
        let (lo, hi) = selected_columns(start, end, row as u16, area.width);
        rows_hold_no_newline(lines, area, row, lo, hi);
    }
    joined_lines_are_blank_together(trimmed);
    assert forall|k: int| 0 <= k < rows.len() implies is_blank(#[trigger] rows[k]) == is_blank(
        trimmed[k],
    ) by {
        trimming_keeps_what_is_not_blank(rows[k]);
    }
    if forall|k: int| 0 <= k < rows.len() ==> is_blank(#[trigger] rows[k]) {
        assert forall|k: int| 0 <= k < trimmed.len() implies is_blank(#[trigger] trimmed[k]) by {
            assert(is_blank(rows[k]));
        }
    } else {
        let k = choose|k: int| 0 <= k < rows.len() && !is_blank(#[trigger] rows[k]);
        assert(!is_blank(trimmed[k]));
    }
}

/// The failure pane tells which host it was, then, after an empty line, the lines of
/// the message, all of them and as they are.
pub proof fn the_failure_is_told_in_full(host: Seq<char>, err: Seq<char>)
    ensures
        failure_lines(host, err).len() == lines_of(err).len() + 2,
        failure_lines(host, err)[0] == "✗ bootstrap of "@ + host + " failed"@,
        failure_lines(host, err)[1].len() == 0,
        failure_lines(host, err).skip(2) == lines_of(err),
{
    assert(failure_lines(host, err).skip(2) =~= lines_of(err));
}

/// Lines are centered: as many rows are free above them as below, or one less, and as
/// many columns left of each as right of it, or one less. Where there is no room to
/// spare they begin at the edge.
pub proof fn failure_lines_are_centered(count: nat, height: u16, line: Seq<char>, width: u16)
    ensures
        count <= height ==> {
            let above = top_row(count, height);
            let below = height - count - above;
            0 <= above <= below <= above + 1
        },
        count > height ==> top_row(count, height) == 0,
        display_width(line) <= width ==> {
            let left = left_col(line, width);
            let right = width - display_width(line) - left;
            0 <= left <= right <= left + 1
        },
        display_width(line) > width ==> left_col(line, width) == 0,
{
}

/// All lines are in view where there are rows for them, and else as many as there are
/// rows, from the first on.
pub proof fn failure_lines_are_in_view_as_far_as_there_are_rows(
    lines: Seq<Seq<char>>,
    area: Rect,
)
    ensures
        lines.len() <= area.height ==> lines_in_view(lines, area) == lines.len(),
        lines.len() > area.height ==> lines_in_view(lines, area) == area.height,
{
}

/// Off every line a row of the failure pane reads as spaces.
pub proof fn rows_without_a_line_are_blank(
    lines: Seq<Seq<char>>,
    area: Rect,
    row: int,
    lo: int,
    hi: int,
)
    requires
        row < top_row(lines.len(), area.height) || row >= top_row(lines.len(), area.height)
            + lines_in_view(lines, area),
        lo <= hi,
    ensures
        failure_row(lines, area, row, lo, hi).len() == hi - lo,
        forall|k: int|
            0 <= k < hi - lo ==> #[trigger] failure_row(lines, area, row, lo, hi)[k] == ' ',
{
}

/// Which characters of a line are drawn: every one but control characters and those
/// wider than the room there is, in their order.
pub proof fn characters_are_drawn_in_order(line: Seq<char>, c: char, room: int)
    ensures
        drawn_text(Seq::empty(), room).len() == 0,
        (c as u32 <= 0x1f || 0x7f <= c as u32 <= 0x9f) ==> drawn_text(line.push(c), room)
            == drawn_text(line, room),
        cells(seq![c]) > room ==> drawn_text(line.push(c), room) == drawn_text(line, room),
        0x1f < c as u32 && (0x7f > c as u32 || 0x9f < c as u32) && cells(seq![c]) <= room
            ==> drawn_text(line.push(c), room) == drawn_text(line, room).push(c),
{
    assert(line.push(c).drop_last() =~= line);
}

/// How many cells a text is drawn on: its width, and one more for each of the two
/// halfwidth sound marks in it.
pub proof fn sound_marks_take_a_cell_more(text: Seq<char>, c: char)
    ensures
        cells(text) == display_width(text) + sound_marks(text),
        sound_marks(Seq::empty()) == 0,
        c as u32 == 0xff9e || c as u32 == 0xff9f ==> sound_marks(text.push(c)) == sound_marks(text)
            + 1,
        c as u32 != 0xff9e && c as u32 != 0xff9f ==> sound_marks(text.push(c)) == sound_marks(
            text,
        ),
{
    assert(text.push(c).drop_last() =~= text);
}

/// Whether every character of `text` takes one cell, wherever it stands.
pub open spec fn one_cell_each(text: Seq<char>) -> bool {
    &&& cells(Seq::empty()) == 0
    &&& forall|k: int| 0 <= k <= text.len() ==> cells(#[trigger] text.take(k)) == k
    &&& forall|k: int|
        0 <= k < text.len() ==> cells(seq![#[trigger] text[k]]) == 1 && !is_control_char(text[k])
}

proof fn plain_text_is_drawn_as_it_is(text: Seq<char>, room: int)
    requires
        one_cell_each(text),
        room >= 1,
    ensures
        drawn_text(text, room) == text,
    decreases text.len(),
{
    if text.len() > 0 {
        let before = text.drop_last();
        assert forall|k: int| 0 <= k <= before.len() implies cells(#[trigger] before.take(k))
            == k by {
            assert(before.take(k) =~= text.take(k));
        }
        assert forall|k: int| 0 <= k < before.len() implies cells(seq![#[trigger] before[k]]) == 1
            && !is_control_char(before[k]) by {
            assert(before[k] == text[k]);
        }
        plain_text_is_drawn_as_it_is(before, room);
        assert(text[text.len() - 1] == text.last());
        assert(before.push(text.last()) =~= text);
    }
}

proof fn plain_glyphs_are_the_characters(text: Seq<char>)
    requires
        one_cell_each(text),
    ensures
        glyphs(text).len() == text.len(),
        forall|k: int|
            0 <= k < text.len() ==> (#[trigger] glyphs(text)[k]).chars == seq![text[k]] && glyphs(
                text,
            )[k].lo == k && glyphs(text)[k].hi == k + 1,
    decreases text.len(),
{
    if text.len() > 0 {
        let before = text.drop_last();
        assert forall|k: int| 0 <= k <= before.len() implies cells(#[trigger] before.take(k))
            == k by {
            assert(before.take(k) =~= text.take(k));
        }
        assert forall|k: int| 0 <= k < before.len() implies cells(seq![#[trigger] before[k]]) == 1
            && !is_control_char(before[k]) by {
            assert(before[k] == text[k]);
        }
        plain_glyphs_are_the_characters(before);
        assert(text.take(text.len() as int) =~= text);
        assert(text.take(text.len() - 1) =~= before);
        assert(text[text.len() - 1] == text.last());
    }
}

proof fn joined_glyphs_are_the_characters(spans: Seq<GlyphSpan>, text: Seq<char>)
    requires
        spans.len() == text.len(),
        forall|k: int| 0 <= k < text.len() ==> (#[trigger] spans[k]).chars == seq![text[k]],
    ensures
        joined(spans) == text,
    decreases spans.len(),
{
    if spans.len() > 0 {
        let rest = spans.drop_last();
        let before = text.drop_last();
        assert forall|k: int| 0 <= k < before.len() implies (#[trigger] rest[k]).chars
            == seq![before[k]] by {
            assert(rest[k] == spans[k]);
        }
        joined_glyphs_are_the_characters(rest, before);
        assert(spans[spans.len() - 1].chars == seq![text[text.len() - 1]]);
        assert(joined(spans) =~= text);
    } else {
        assert(text =~= Seq::empty());
    }
}

/// On a line whose characters take one cell each, a drag over some of its columns
/// copies the characters that stand on them, no more and no less.
pub proof fn plain_lines_are_copied_by_column(
    lines: Seq<Seq<char>>,
    area: Rect,
    i: int,
    a: int,
    b: int,
)
    requires
        0 <= i < lines_in_view(lines, area),
        one_cell_each(lines[i]),
        0 <= a < b <= lines[i].len(),
        lines[i].len() <= area.width,
        display_width(lines[i]) == lines[i].len(),
    ensures
        ({
            let row = top_row(lines.len(), area.height) + i;
            let left = left_col(lines[i], area.width);
            failure_row(lines, area, row, left + a, left + b) == lines[i].subrange(a, b)
        }),
{
    let line = lines[i];
    let left = left_col(line, area.width);
    let room = room_from(left, area.width);
    plain_text_is_drawn_as_it_is(line, room);
    plain_glyphs_are_the_characters(line);
    let spans = line_glyphs(line, area.width);
    assert(spans == glyphs(line));
    assert(all_have_width(spans));
    glyphs_within_a_range(spans, room, a, b, a, b);
    joined_glyphs_are_the_characters(spans.subrange(a, b), line.subrange(a, b));
    assert(spans.last().hi == line.len());
    assert(drawn_end(spans, room) == line.len());
    let row = top_row(lines.len(), area.height) + i;
    assert(failure_row(lines, area, row, left + a, left + b) =~= line.subrange(a, b));
}

/// A layout holds the lines that are in view, from the first on and in order, each on
/// its centered place; only the first is the headline.
pub proof fn a_layout_holds_the_lines_in_view(
    layout: Seq<FailureLine>,
    lines: Seq<Seq<char>>,
    area: Rect,
    i: int,
)
    requires
        is_layout(layout, lines, area),
        0 <= i < layout.len(),
    ensures
        layout.len() == lines.len() || layout.len() == area.height,
        layout[i].content@ == lines[i],
        layout[i].is_header <==> i == 0,
        layout[i].row == layout[0].row + i,
        lines.len() <= area.height ==> 2 * layout[0].row <= area.height - lines.len() <= 2
            * layout[0].row + 1,
        display_width(lines[i]) <= area.width ==> 2 * layout[i].col <= area.width - display_width(
            lines[i],
        ) <= 2 * layout[i].col + 1,
{
}

} // verus!
