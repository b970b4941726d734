//! What a frame consists of: a list of things to draw, in order, each over what
//! was drawn before.

use vstd::prelude::*;

use crate::agent::AgentId;
use crate::geometry::{monus, Rect};
use crate::style::{span_views, Span, SpanView, Style};

verus! {

/// A line of text: its spans, and a style for the whole line under theirs.
pub struct TextLine {
    pub spans: Vec<Span>,
    pub style: Style,
}

/// A line of text, its text as sequences.
pub struct LineView {
    pub spans: Seq<SpanView>,
    pub style: Style,
}

impl View for TextLine {
    type V = LineView;

    open spec fn view(&self) -> LineView {
        LineView { spans: span_views(self.spans@), style: self.style }
    }
}

/// The lines of a text.
pub open spec fn line_views(lines: Seq<TextLine>) -> Seq<LineView> {
    lines.map_values(|l: TextLine| l@)
}

/// A line of one unstyled span in a style for the whole line.
pub open spec fn text_line(text: Seq<char>, style: Style) -> LineView {
    LineView { spans: seq![SpanView { content: text, style: Style::plain() }], style }
}

impl TextLine {
    /// A line of one text in `style`.
    pub fn styled(text: String, style: Style) -> (r: TextLine)
        ensures
            r@ == text_line(text@, style),
    {
        let mut spans: Vec<Span> = Vec::new();
        spans.push(Span::raw(text));
        assert(span_views(spans@) =~= seq![SpanView { content: text@, style: Style::plain() }]);
        TextLine { spans, style }
    }

    /// A line of one text with no style.
    pub fn raw(text: String) -> (r: TextLine)
        ensures
            r@ == text_line(text@, Style::plain()),
    {
        TextLine::styled(text, Style::none())
    }

    /// A line of spans with no style of its own.
    pub fn of_spans(spans: Vec<Span>) -> (r: TextLine)
        ensures
            r@ == (LineView { spans: span_views(spans@), style: Style::plain() }),
    {
        TextLine { spans, style: Style::none() }
    }
}

/// Which edge text is drawn against.
#[derive(Clone, Copy, Debug, PartialEq, Eq, Structural)]
pub enum Align {
    Left,
    Right,
}

/// One thing to draw.
pub enum Paint {
    /// Empty the cells of an area.
    Clear { area: Rect },
    /// A border with a title around an area.
    Border { area: Rect, title: String },
    /// Text, from the top of an area, cut off at its edges; inside a border with a
    /// title where there is one.
    Text {
        area: Rect,
        lines: Vec<TextLine>,
        style: Style,
        align: Align,
        border: Option<String>,
    },
    /// The screen of an agent.
    Screen { area: Rect, agent: AgentId },
    /// Reverse video on the cells of row `y` from column `from` up to `to`.
    Reverse { y: u16, from: u16, to: u16 },
    /// Underlined and cyan on the cells of row `y` from column `from` up to `to`.
    Link { y: u16, from: u16, to: u16 },
    /// The spawn dialog, over an area.
    Dialog { area: Rect },
}

/// One thing to draw, its text as sequences.
pub enum PaintView {
    Clear { area: Rect },
    Border { area: Rect, title: Seq<char> },
    Text {
        area: Rect,
        lines: Seq<LineView>,
        style: Style,
        align: Align,
        border: Option<Seq<char>>,
    },
    Screen { area: Rect, agent: AgentId },
    Reverse { y: u16, from: u16, to: u16 },
    Link { y: u16, from: u16, to: u16 },
    Dialog { area: Rect },
}

impl View for Paint {
    type V = PaintView;

    open spec fn view(&self) -> PaintView {
        match *self {
            Paint::Clear { area } => PaintView::Clear { area },
            Paint::Border { area, title } => PaintView::Border { area, title: title@ },
            Paint::Text { area, lines, style, align, border } => PaintView::Text {
                area,
                lines: line_views(lines@),
                style,
                align,
                border: match border {
                    Some(t) => Some(t@),
                    None => None,
                },
            },
            Paint::Screen { area, agent } => PaintView::Screen { area, agent },
            Paint::Reverse { y, from, to } => PaintView::Reverse { y, from, to },
            Paint::Link { y, from, to } => PaintView::Link { y, from, to },
            Paint::Dialog { area } => PaintView::Dialog { area },
        }
    }
}

/// A list of things to draw.
pub open spec fn paint_views(ops: Seq<Paint>) -> Seq<PaintView> {
    ops.map_values(|p: Paint| p@)
}

/// Text at the left of an area with no border.
pub open spec fn plain_text(area: Rect, lines: Seq<LineView>) -> PaintView {
    PaintView::Text { area, lines, style: Style::plain(), align: Align::Left, border: None }
}

/// Text at the left of an area, inside a border with a title.
pub open spec fn titled_text(area: Rect, lines: Seq<LineView>, title: Seq<char>) -> PaintView {
    PaintView::Text { area, lines, style: Style::plain(), align: Align::Left, border: Some(title) }
}

/// One line of text in one style.
pub open spec fn one_line(area: Rect, text: Seq<char>, style: Style, align: Align) -> PaintView {
    PaintView::Text {
        area,
        lines: seq![text_line(text, Style::plain())],
        style,
        align,
        border: None,
    }
}

/// Appends one thing to draw.
pub fn paint(out: &mut Vec<Paint>, op: Paint)
    ensures
        paint_views(final(out)@) == paint_views(old(out)@).push(op@),
{
    out.push(op);
    assert(paint_views(out@) =~= paint_views(old(out)@).push(op@));
}

/// Appends the emptying of an area and one line of text on it.
pub fn paint_badge(out: &mut Vec<Paint>, area: Rect, text: String, style: Style, align: Align)
    ensures
        paint_views(final(out)@) == paint_views(old(out)@) + seq![
            PaintView::Clear { area },
            one_line(area, text@, style, align),
        ],
{
    paint(out, Paint::Clear { area });
    let mut lines: Vec<TextLine> = Vec::new();
    lines.push(TextLine::raw(text));
    assert(line_views(lines@) =~= seq![text_line(text@, Style::plain())]);
    paint(out, Paint::Text { area, lines, style, align, border: None });
    assert(paint_views(out@) =~= paint_views(old(out)@) + seq![
        PaintView::Clear { area },
        one_line(area, text@, style, align),
    ]);
}

/// What a border leaves of an area.
pub open spec fn inside_border(area: Rect) -> Rect {
    Rect {
        x: if area.width == 0 {
            area.x
        } else {
            (area.x + 1) as u16
        },
        y: if area.height == 0 {
            area.y
        } else {
            (area.y + 1) as u16
        },
        width: monus(area.width as int, 2) as u16,
        height: monus(area.height as int, 2) as u16,
    }
}

/// `ratatui`'s `Block::inner` of a block with all four borders: one cell less on
/// each side, as far as there are cells.
#[verifier::external_body]
pub(crate) fn block_inner(area: Rect) -> (r: Rect)
    requires
        area.fits(),
    ensures
        r == inside_border(area),
{
    let outside = ratatui::layout::Rect::new(area.x, area.y, area.width, area.height);
    let block = ratatui::widgets::Block::default().borders(ratatui::widgets::Borders::ALL);
    let inner = block.inner(outside);
    Rect { x: inner.x, y: inner.y, width: inner.width, height: inner.height }
}

/// What a border leaves: one cell less on each side, and nothing of an area that is
/// no larger than its border.
pub proof fn a_border_takes_one_cell_on_each_side(area: Rect)
    requires
        area.fits(),
    ensures
        area.width >= 2 && area.height >= 2 ==> inside_border(area) == (Rect {
            x: (area.x + 1) as u16,
            y: (area.y + 1) as u16,
            width: (area.width - 2) as u16,
            height: (area.height - 2) as u16,
        }),
        area.width <= 2 || area.height <= 2 ==> inside_border(area).empty(),
        inside_border(area).within(area) || area.width < 2 || area.height < 2,
{
}

/// What texts are drawn as: their lines at the left of their area in no style of their
/// own, with the title of their border where they have one; a single line with the
/// style and at the edge it was given.
pub proof fn texts_are_drawn_as_given(
    area: Rect,
    lines: Seq<LineView>,
    title: Seq<char>,
    text: Seq<char>,
    style: Style,
    align: Align,
)
    ensures
        plain_text(area, lines)->Text_area == area && plain_text(area, lines)->Text_lines == lines,
        plain_text(area, lines)->border is None && plain_text(area, lines)->align is Left,
        titled_text(area, lines, title)->Text_area == area,
        titled_text(area, lines, title)->Text_lines == lines,
        titled_text(area, lines, title)->border == Some(title),
        one_line(area, text, style, align)->Text_area == area,
        one_line(area, text, style, align)->Text_style == style,
        one_line(area, text, style, align)->align == align,
        one_line(area, text, style, align)->Text_lines.len() == 1,
        one_line(area, text, style, align)->Text_lines[0].spans.len() == 1,
        one_line(area, text, style, align)->Text_lines[0].spans[0].content == text,
        text_line(text, style).spans.len() == 1,
        text_line(text, style).spans[0].content == text,
        text_line(text, style).style == style,
{
}

} // verus!
