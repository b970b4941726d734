//! Drawing the pane of one agent: its screen, what lies over it, and the pane of
//! one that never came up.

use vstd::prelude::*;

use crate::agent::{AgentId, AgentModel, AgentState, RuntimeAgent, StateModel};
use crate::failure::{
    all_have_width, failure_cells_are_what_is_drawn, failure_layout, failure_lines, failure_row,
    is_layout, joined, left_col, line_glyphs, lines_in_view, top_row, FailureLine,
};
use crate::geometry::{
    capped, least, normalized_range, ordered, reads_before, row_bounds, selected_columns, CellPos,
    Rect,
};
use crate::label::{borrowed, string_text};
use crate::mouse::{HoverUrl, PaneHitbox, Selection};
use crate::paint::{
    line_views, one_line, paint, paint_badge, paint_views, plain_text, text_line, Align, Paint,
    PaintView, TextLine,
};
use crate::style::{Color, Style};
use crate::text::{decimal, push_decimal, push_signed_decimal, signed_decimal};

verus! {

/// Width of the badge that shows how far an agent is scrolled back.
pub const SCROLL_INDICATOR_WIDTH: u16 = 24;

/// What lies over the agent pane: the selection and the link under the mouse.
pub struct PaneOverlay<'a> {
    pub selection: Option<&'a Selection>,
    pub hover: Option<&'a HoverUrl>,
}

/// The selected cells of the rows from `start.row` to `last` of a pane at
/// `area`, in reverse video.
pub open spec fn selected_rows(area: Rect, start: CellPos, end: CellPos, last: int) -> Seq<
    PaintView,
>
    decreases last - start.row + 1,
{
    if last < start.row {
        Seq::empty()
    } else {
        let before = selected_rows(area, start, end, last - 1);
        let (lo, hi) = selected_columns(start, end, last as u16, area.width);
        if lo < hi {
            before.push(
                PaintView::Reverse {
                    y: capped(area.y + last) as u16,
                    from: capped(area.x + lo) as u16,
                    to: capped(area.x + hi) as u16,
                },
            )
        } else {
            before
        }
    }
}

/// A selection over the pane of the agent with identity `id`, if it is in that
/// pane.
pub open spec fn selection_paint(area: Rect, id: AgentId, selection: Option<Selection>) -> Seq<
    PaintView,
> {
    match selection {
        Some(sel) => if sel.agent@ == id@ {
            let (start, end) = ordered(sel.anchor, sel.head);
            selected_rows(area, start, end, end.row as int)
        } else {
            Seq::empty()
        },
        None => Seq::empty(),
    }
}

/// The selection behind an optional reference.
pub open spec fn selection_of(s: Option<&Selection>) -> Option<Selection> {
    match s {
        Some(sel) => Some(*sel),
        None => None,
    }
}

/// The link behind an optional reference.
pub open spec fn hover_of(h: Option<&HoverUrl>) -> Option<HoverUrl> {
    match h {
        Some(hover) => Some(*hover),
        None => None,
    }
}

/// Draws a selection over the pane of an agent, if it is in that pane.
pub fn paint_selection_if_active(
    out: &mut Vec<Paint>,
    area: Rect,
    agent_id: &AgentId,
    selection: Option<&Selection>,
)
    ensures
        paint_views(final(out)@) == paint_views(old(out)@) + selection_paint(
            area,
            *agent_id,
            selection_of(selection),
        ),
{
    let ghost before = paint_views(out@);
    let sel = match selection {
        Some(sel) => sel,
        None => {
            assert(before + Seq::empty() =~= before);
            return ;
        },
    };
    if !sel.agent.same(agent_id) {
        assert(before + Seq::empty() =~= before);
        return ;
    }
    let (start, end) = normalized_range(sel.anchor, sel.head);
    let mut next: u32 = start.row as u32;
    assert(before + selected_rows(area, start, end, start.row - 1) =~= before);
    while next <= end.row as u32
        invariant
            start.row <= next <= end.row + 1,
            paint_views(out@) == before + selected_rows(area, start, end, next - 1),
        decreases end.row + 1 - next,
    {
        let row: u16 = next as u16;
        let (lo, hi) = row_bounds(start, end, row, area.width);
        if lo < hi {
            paint(
                out,
                Paint::Reverse {
                    y: area.y.saturating_add(row),
                    from: area.x.saturating_add(lo),
                    to: area.x.saturating_add(hi),
                },
            );
        }
        assert(paint_views(out@) =~= before + selected_rows(area, start, end, next as int));
        next = next + 1;
    }
}

/// The link under the mouse, over the pane of the agent with identity `id`, if it
/// is in that pane.
pub open spec fn hover_paint(area: Rect, id: AgentId, hover: Option<HoverUrl>) -> Seq<PaintView> {
    match hover {
        Some(h) => if h.agent@ == id@ && h.cols.start < h.cols.end {
            seq![
                PaintView::Link {
                    y: capped(area.y + h.row) as u16,
                    from: capped(area.x + h.cols.start) as u16,
                    to: capped(area.x + h.cols.end) as u16,
                },
            ]
        } else {
            Seq::empty()
        },
        None => Seq::empty(),
    }
}

/// Draws the link under the mouse over the pane of an agent, if it is in that
/// pane.
pub fn paint_hover_url_if_active(
    out: &mut Vec<Paint>,
    area: Rect,
    agent_id: &AgentId,
    hover: Option<&HoverUrl>,
)
    ensures
        paint_views(final(out)@) == paint_views(old(out)@) + hover_paint(
            area,
            *agent_id,
            hover_of(hover),
        ),
{
    let ghost before = paint_views(out@);
    if let Some(h) = hover {
        if h.agent.same(agent_id) && h.cols.start < h.cols.end {
            paint(
                out,
                Paint::Link {
                    y: area.y.saturating_add(h.row),
                    from: area.x.saturating_add(h.cols.start),
                    to: area.x.saturating_add(h.cols.end),
                },
            );
        }
    }
    assert(paint_views(out@) =~= before + hover_paint(area, *agent_id, hover_of(hover)));
}

/// The text of the crash banner: a lost connection for code -1, and else the
/// exit code; either way how to dismiss the agent.
pub open spec fn banner_text(exit_code: i32, dismiss_label: Seq<char>) -> Seq<char> {
    if exit_code == -1 {
        " ✗ connection lost — "@ + dismiss_label + " to dismiss "@
    } else {
        " ✗ session ended (exit "@ + signed_decimal(exit_code as int) + ") — "@ + dismiss_label
            + " to dismiss "@
    }
}

/// The style of the crash banner.
pub open spec fn banner_style() -> Style {
    Style { fg: Some(Color::White), bg: Some(Color::Red), bold: true, dim: false, reversed: false }
}

/// The crash banner, on the top row of the pane.
pub open spec fn banner_paint(area: Rect, exit_code: i32, dismiss_label: Seq<char>) -> Seq<
    PaintView,
> {
    if area.empty() {
        Seq::empty()
    } else {
        let row = Rect { height: 1, ..area };
        seq![
            PaintView::Clear { area: row },
            one_line(row, banner_text(exit_code, dismiss_label), banner_style(), Align::Left),
        ]
    }
}

/// Draws the crash banner on the top row of the pane.
pub fn render_crash_banner(out: &mut Vec<Paint>, area: Rect, exit_code: i32, dismiss_label: &str)
    ensures
        paint_views(final(out)@) == paint_views(old(out)@) + banner_paint(
            area,
            exit_code,
            dismiss_label@,
        ),
{
    if area.is_empty() {
        assert(paint_views(out@) + Seq::empty() =~= paint_views(out@));
        return ;
    }
    let banner_area = Rect { x: area.x, y: area.y, width: area.width, height: 1 };
    let style = Style {
        fg: Some(Color::White),
        bg: Some(Color::Red),
        bold: true,
        dim: false,
        reversed: false,
    };
    let mut text;
    if exit_code == -1 {
        text = " ✗ connection lost — ".to_owned();
    } else {
        text = " ✗ session ended (exit ".to_owned();
        push_signed_decimal(&mut text, exit_code);
        text.append(") — ");
    }
    text.append(dismiss_label);
    text.append(" to dismiss ");
    assert(text@ =~= banner_text(exit_code, dismiss_label@));
    paint_badge(out, banner_area, text, style, Align::Left);
}

/// The badge that shows how far the pane is scrolled back, in its bottom-right
/// corner.
pub open spec fn badge_paint(area: Rect, offset: nat) -> Seq<PaintView> {
    if area.empty() {
        Seq::empty()
    } else {
        let width = least(SCROLL_INDICATOR_WIDTH as int, area.width as int);
        let badge = Rect {
            x: (area.x + area.width - width) as u16,
            y: (area.y + area.height - 1) as u16,
            width: width as u16,
            height: 1,
        };
        seq![
            PaintView::Clear { area: badge },
            one_line(
                badge,
                " ↑ scroll "@ + decimal(offset) + " · esc "@,
                Style {
                    fg: Some(Color::Black),
                    bg: Some(Color::Yellow),
                    bold: true,
                    dim: false,
                    reversed: false,
                },
                Align::Right,
            ),
        ]
    }
}

/// Draws the badge that shows how far the pane is scrolled back.
pub fn render_scroll_indicator(out: &mut Vec<Paint>, area: Rect, offset: usize)
    requires
        area.fits(),
    ensures
        paint_views(final(out)@) == paint_views(old(out)@) + badge_paint(area, offset as nat),
{
    if area.is_empty() {
        assert(paint_views(out@) + Seq::empty() =~= paint_views(out@));
        return ;
    }
    let width: u16 = if SCROLL_INDICATOR_WIDTH < area.width {
        SCROLL_INDICATOR_WIDTH
    } else {
        area.width
    };
    let badge = Rect {
        x: area.x + area.width - width,
        y: area.y + area.height - 1,
        width,
        height: 1,
    };
    let mut text = " ↑ scroll ".to_owned();
    push_decimal(&mut text, offset as u64);
    text.append(" · esc ");
    let style = Style {
        fg: Some(Color::Black),
        bg: Some(Color::Yellow),
        bold: true,
        dim: false,
        reversed: false,
    };
    paint_badge(out, badge, text, style, Align::Right);
}

/// The style of a line of the failure pane.
pub open spec fn failure_style(header: bool) -> Style {
    Style { bold: header, ..Style::colored(Color::Red) }
}

/// One line of the failure pane, from where it begins to the right edge.
pub open spec fn failure_line_paint(lines: Seq<Seq<char>>, area: Rect, i: int) -> PaintView {
    let col = left_col(lines[i], area.width);
    plain_text(
        Rect {
            x: (area.x + col) as u16,
            y: (area.y + top_row(lines.len(), area.height) + i) as u16,
            width: (area.width - col) as u16,
            height: 1,
        },
        seq![text_line(lines[i], failure_style(i == 0))],
    )
}

/// The failure pane: the area emptied, and the lines in view, centered.
pub open spec fn failure_paint(area: Rect, lines: Seq<Seq<char>>) -> Seq<PaintView> {
    seq![PaintView::Clear { area }] + if area.width == 0 {
        Seq::empty()
    } else {
        Seq::new(
            lines_in_view(lines, area) as nat,
            |i: int| failure_line_paint(lines, area, i),
        )
    }
}

/// Draws the failure pane.
pub fn render_failure_pane(out: &mut Vec<Paint>, area: Rect, host: &str, err: &str)
    requires
        area.fits(),
    ensures
        paint_views(final(out)@) == paint_views(old(out)@) + failure_paint(
            area,
            failure_lines(host@, err@),
        ),
{
    let ghost before = paint_views(out@);
    let ghost wanted = failure_lines(host@, err@);
    paint(out, Paint::Clear { area });
    let layout = failure_layout(host, err, area);
    if area.width == 0 {
        assert(paint_views(out@) =~= before + failure_paint(area, wanted));
        return ;
    }
    let ghost full = Seq::new(
        layout@.len(),
        |i: int| failure_line_paint(wanted, area, i),
    );
    let ghost cleared = paint_views(out@);
    assert(cleared + full.take(0) =~= cleared);
    for i in 0..layout.len()
        invariant
            area.fits(),
            area.width > 0,
            wanted == failure_lines(host@, err@),
            is_layout(layout@, wanted, area),
            full == Seq::new(layout@.len(), |i: int| failure_line_paint(wanted, area, i)),
            paint_views(out@) == cleared + full.take(i as int),
    {
        let line = &layout[i];
        let mut style = Style::with_fg(Color::Red);
        style.bold = line.is_header;
        let row_area = Rect {
            x: area.x + line.col,
            y: area.y + line.row,
            width: area.width - line.col,
            height: 1,
        };
        let mut lines: Vec<TextLine> = Vec::new();
        lines.push(TextLine::styled(line.content.clone(), style));
        assert(line_views(lines@) =~= seq![text_line(wanted[i as int], failure_style(i == 0))]);
        paint(
            out,
            Paint::Text {
                area: row_area,
                lines,
                style: Style::none(),
                align: Align::Left,
                border: None,
            },
        );
        assert(paint_views(out@) =~= cleared + full.take(i + 1));
    }
    assert(full.take(full.len() as int) =~= full);
    assert(paint_views(out@) =~= before + failure_paint(area, wanted));
}

/// The pane of an agent: its screen with the selection, the link under the mouse
/// and the scroll badge over it, and the banner over that once it has crashed;
/// or the failure pane with the selection over it.
pub open spec fn pane_paint<T>(
    area: Rect,
    agent: AgentModel<T>,
    dismiss_label: Seq<char>,
    selection: Option<Selection>,
    hover: Option<HoverUrl>,
) -> Seq<PaintView> {
    let marks = selection_paint(area, agent.id, selection);
    let link = hover_paint(area, agent.id, hover);
    let badge = if agent.offset() > 0 {
        badge_paint(area, agent.offset())
    } else {
        Seq::empty()
    };
    let screen = seq![PaintView::Screen { area, agent: agent.id }];
    match agent.state {
        StateModel::Ready { .. } => screen + marks + link + badge,
        StateModel::Crashed { exit_code, .. } => screen + marks + link + badge + banner_paint(
            area,
            exit_code,
            dismiss_label,
        ),
        StateModel::Failed { error } => failure_paint(
            area,
            failure_lines(
                match string_text(agent.host) {
                    Some(host) => host,
                    None => Seq::empty(),
                },
                error@,
            ),
        ) + marks,
    }
}

/// The recorded pane after the pane of `id` was drawn at `area`.
pub open spec fn pane_recorded(pane: PaneHitbox, area: Rect, id: AgentId) -> PaneHitbox {
    if area.empty() {
        pane
    } else {
        PaneHitbox { rect: Some(area), agent_id: Some(id) }
    }
}

/// Draws the pane of an agent, and records where it is.
pub fn render_agent_pane<T>(
    out: &mut Vec<Paint>,
    area: Rect,
    agent: &RuntimeAgent<T>,
    dismiss_label: &str,
    pane_hitbox: &mut PaneHitbox,
    overlay: &PaneOverlay<'_>,
)
    requires
        area.fits(),
    ensures
        paint_views(final(out)@) == paint_views(old(out)@) + pane_paint(
            area,
            agent@,
            dismiss_label@,
            selection_of(overlay.selection),
            hover_of(overlay.hover),
        ),
        *final(pane_hitbox) == pane_recorded(*old(pane_hitbox), area, agent.id),
{
    let ghost before = paint_views(out@);
    pane_hitbox.record(area, agent.id.clone());
    match &agent.state {
        AgentState::Failed { error } => {
            let host = match borrowed(&agent.host) {
                Some(host) => host.to_owned(),
                None => String::new(),
            };
            render_failure_pane(out, area, host.as_str(), error.as_str());
            paint_selection_if_active(out, area, &agent.id, overlay.selection);
        },
        _ => {
            paint(out, Paint::Screen { area, agent: agent.id.clone() });
            paint_selection_if_active(out, area, &agent.id, overlay.selection);
            paint_hover_url_if_active(out, area, &agent.id, overlay.hover);
            let offset: usize = agent.scrollback_offset();
            if offset > 0 {
                render_scroll_indicator(out, area, offset);
            }
            if let AgentState::Crashed { exit_code, .. } = &agent.state {
                render_crash_banner(out, area, *exit_code, dismiss_label);
            }
        },
    }
    assert(paint_views(out@) =~= before + pane_paint(
        area,
        agent@,
        dismiss_label@,
        selection_of(overlay.selection),
        hover_of(overlay.hover),
    ));
}

/// What is drawn for a failed pane and what a drag over it copies is the same text:
/// line `i` is drawn from the column from which the columns of its glyphs are counted,
/// and a drag over the columns of some of them copies just these.
pub proof fn failure_pane_is_drawn_where_it_is_copied(
    area: Rect,
    lines: Seq<Seq<char>>,
    layout: Seq<FailureLine>,
    i: int,
    a: int,
    b: int,
)
    requires
        area.fits(),
        is_layout(layout, lines, area),
        0 <= i < layout.len(),
        all_have_width(line_glyphs(lines[i], area.width)),
        0 <= a < b <= line_glyphs(lines[i], area.width).len(),
        layout[i].col + line_glyphs(lines[i], area.width)[b - 1].hi <= area.width,
    ensures
        ({
            let drawn = failure_line_paint(lines, area, i);
            let spans = line_glyphs(lines[i], area.width);
            let (x, y) = (drawn->Text_area.x - area.x, drawn->Text_area.y - area.y);
            &&& drawn is Text
            &&& drawn->Text_lines[0].spans[0].content == lines[i]
            &&& failure_row(lines, area, y, x + spans[a].lo, x + spans[b - 1].hi) == joined(
                spans.subrange(a, b),
            )
        }),
{
    failure_cells_are_what_is_drawn(layout, lines, area, i, a, b);
}

/// No row is reversed on which nothing is selected: every reversed stretch has cells.
pub proof fn reversed_stretches_have_cells(area: Rect, start: CellPos, end: CellPos, last: int)
    requires
        area.fits(),
    ensures
        forall|k: int|
            0 <= k < selected_rows(area, start, end, last).len() ==> (#[trigger] selected_rows(
                area,
                start,
                end,
                last,
            )[k])->Reverse_from < selected_rows(area, start, end, last)[k]->Reverse_to,
    decreases last - start.row + 1,
{
    if last >= start.row {
        reversed_stretches_have_cells(area, start, end, last - 1);
    }
}

proof fn selected_rows_are_reversed(area: Rect, start: CellPos, end: CellPos, last: int)
    ensures
        forall|k: int|
            0 <= k < selected_rows(area, start, end, last).len() ==> #[trigger] selected_rows(
                area,
                start,
                end,
                last,
            )[k] is Reverse,
    decreases last - start.row + 1,
{
    if last >= start.row {
        selected_rows_are_reversed(area, start, end, last - 1);
    }
}

/// The pane of an agent that has a screen begins with that agent's screen, at the
/// place of the pane, and no other screen is drawn in it. The pane of one that never
/// came up is emptied, and shows no screen.
pub proof fn a_pane_shows_its_own_agent_only<T>(
    area: Rect,
    agent: AgentModel<T>,
    dismiss_label: Seq<char>,
    selection: Option<Selection>,
    hover: Option<HoverUrl>,
)
    ensures
        ({
            let drawn = pane_paint(area, agent, dismiss_label, selection, hover);
            &&& drawn.len() > 0
            &&& agent.state is Ready || agent.state is Crashed ==> drawn[0] == (
            PaintView::Screen { area, agent: agent.id })
            &&& agent.state is Failed ==> drawn[0] == (PaintView::Clear { area })
            &&& forall|k: int|
                0 < k < drawn.len() ==> !(#[trigger] drawn[k] is Screen) && !(drawn[k] is Dialog)
                    && !(drawn[k] is Border)
        }),
{
    if let Some(sel) = selection {
        let (start, end) = ordered(sel.anchor, sel.head);
        selected_rows_are_reversed(area, start, end, end.row as int);
    }
    let drawn = pane_paint(area, agent, dismiss_label, selection, hover);
    let marks = selection_paint(area, agent.id, selection);
    assert forall|k: int| 0 <= k < marks.len() implies #[trigger] marks[k] is Reverse by {}
}

/// A row of the pane is shown in reverse video exactly where it is selected: from
/// the first to the last selected column, at the place of the pane, on each row from
/// the first to the last selected one that has any such column.
pub proof fn selected_cells_are_reversed(area: Rect, start: CellPos, end: CellPos, row: u16)
    requires
        area.fits(),
        reads_before(start, end),
        start.row <= row <= end.row,
    ensures
        ({
            let drawn = selected_rows(area, start, end, end.row as int);
            let lo = if row == start.row {
                start.col as int
            } else {
                0
            };
            let hi = if row == end.row && end.col < area.width {
                end.col + 1
            } else {
                area.width as int
            };
            &&& drawn.len() <= end.row - start.row + 1
            &&& lo < hi && area.y + row <= u16::MAX ==> drawn.contains(
                PaintView::Reverse {
                    y: (area.y + row) as u16,
                    from: (area.x + lo) as u16,
                    to: (area.x + hi) as u16,
                },
            )
        }),
{
    rows_up_to_are_reversed(area, start, end, row, end.row as int);
}

proof fn rows_up_to_are_reversed(
    area: Rect,
    start: CellPos,
    end: CellPos,
    row: u16,
    last: int,
)
    requires
        area.fits(),
        reads_before(start, end),
        start.row <= row <= end.row,
        start.row - 1 <= last <= end.row,
    ensures
        ({
            let drawn = selected_rows(area, start, end, last);
            let lo = if row == start.row {
                start.col as int
            } else {
                0
            };
            let hi = if row == end.row && end.col < area.width {
                end.col + 1
            } else {
                area.width as int
            };
            &&& drawn.len() <= last - start.row + 1
            &&& row <= last && lo < hi && area.y + row <= u16::MAX ==> drawn.contains(
                PaintView::Reverse {
                    y: (area.y + row) as u16,
                    from: (area.x + lo) as u16,
                    to: (area.x + hi) as u16,
                },
            )
        }),
    decreases last - start.row + 1,
{
    if last >= start.row {
        rows_up_to_are_reversed(area, start, end, row, last - 1);
        let before = selected_rows(area, start, end, last - 1);
        let drawn = selected_rows(area, start, end, last);
        let lo = if row == start.row {
            start.col as int
        } else {
            0
        };
        let hi = if row == end.row && end.col < area.width {
            end.col + 1
        } else {
            area.width as int
        };
        let wanted = PaintView::Reverse {
            y: (area.y + row) as u16,
            from: (area.x + lo) as u16,
            to: (area.x + hi) as u16,
        };
        if row == last && lo < hi && area.y + row <= u16::MAX {
            assert(drawn.last() == wanted);
            assert(drawn[drawn.len() - 1] == wanted);
        } else if row < last && lo < hi && area.y + row <= u16::MAX {
            let k = before.index_of(wanted);
            assert(before[k] == wanted);
            assert(drawn[k] == wanted);
        }
    }
}

/// The selection and the link under the mouse are drawn over the pane of the agent
/// they are in, and over no other.
pub proof fn marks_stay_with_their_agent(
    area: Rect,
    id: AgentId,
    sel: Selection,
    link: HoverUrl,
)
    requires
        area.fits(),
    ensures
        selection_paint(area, id, None).len() == 0,
        sel.agent@ != id@ ==> selection_paint(area, id, Some(sel)).len() == 0,
        sel.agent@ == id@ && sel.anchor.row == sel.head.row && sel.anchor.col <= sel.head.col
            && sel.head.col < area.width && area.y + sel.head.row <= u16::MAX ==> selection_paint(
            area,
            id,
            Some(sel),
        ) == seq![
            PaintView::Reverse {
                y: (area.y + sel.head.row) as u16,
                from: (area.x + sel.anchor.col) as u16,
                to: (area.x + sel.head.col + 1) as u16,
            },
        ],
        sel.agent@ == id@ ==> selection_paint(area, id, Some(sel)) == selection_paint(
            area,
            id,
            Some(Selection { anchor: sel.head, head: sel.anchor, ..sel }),
        ),
        hover_paint(area, id, None).len() == 0,
        link.agent@ != id@ ==> hover_paint(area, id, Some(link)).len() == 0,
        link.cols.start >= link.cols.end ==> hover_paint(area, id, Some(link)).len() == 0,
        link.agent@ == id@ && link.cols.start < link.cols.end && link.row < area.height
            && link.cols.end <= area.width ==> hover_paint(area, id, Some(link)) == seq![
            PaintView::Link {
                y: (area.y + link.row) as u16,
                from: (area.x + link.cols.start) as u16,
                to: (area.x + link.cols.end) as u16,
            },
        ],
{
    if sel.agent@ == id@ && sel.anchor.row == sel.head.row && sel.anchor.col <= sel.head.col
        && sel.head.col < area.width && area.y + sel.head.row <= u16::MAX {
        reveal_with_fuel(selected_rows, 3);
        assert(selection_paint(area, id, Some(sel)) =~= seq![
            PaintView::Reverse {
                y: (area.y + sel.head.row) as u16,
                from: (area.x + sel.anchor.col) as u16,
                to: (area.x + sel.head.col + 1) as u16,
            },
        ]);
    }
}

/// What is drawn over the screen of an agent, and when: the marks of its selection,
/// then its link, then the scroll badge while the view is scrolled back, and over
/// all of that the banner once it has crashed. A live agent shows no banner and a
/// view of the live screen no badge.
pub proof fn a_pane_is_drawn_in_layers<T>(
    area: Rect,
    agent: AgentModel<T>,
    dismiss_label: Seq<char>,
)
    ensures
        ({
            let drawn = pane_paint(area, agent, dismiss_label, None, None);
            match agent.state {
                StateModel::Ready { screen, .. } => {
                    &&& screen.offset == 0 || area.empty() ==> drawn.len() == 1
                    &&& screen.offset > 0 && !area.empty() ==> drawn.len() == 3
                },
                StateModel::Crashed { screen, .. } => {
                    &&& area.empty() ==> drawn.len() == 1
                    &&& screen.offset == 0 && !area.empty() ==> drawn.len() == 3
                    &&& screen.offset > 0 && !area.empty() ==> drawn.len() == 5
                    &&& !area.empty() ==> drawn.last() is Text && drawn.last()->Text_area.y
                        == area.y && drawn.last()->Text_area.x == area.x
                        && drawn.last()->Text_area.width == area.width
                        && drawn.last()->Text_area.height == 1
                },
                StateModel::Failed { .. } => true,
            }
        }),
{
}

/// The badge says how many rows the view is scrolled back, at the right of the
/// bottom row of the pane, in no more cells than the pane has.
pub proof fn the_badge_is_in_the_corner(area: Rect, offset: nat)
    requires
        area.fits(),
        !area.empty(),
    ensures
        ({
            let drawn = badge_paint(area, offset);
            &&& drawn.len() == 2
            &&& drawn[0] is Clear && drawn[0]->Clear_area == drawn[1]->Text_area
            &&& drawn[1] is Text && drawn[1]->align == Align::Right
            &&& drawn[1]->Text_area.y + 1 == area.y + area.height
            &&& drawn[1]->Text_area.x + drawn[1]->Text_area.width == area.x + area.width
            &&& drawn[1]->Text_area.height == 1
            &&& area.width >= 24 ==> drawn[1]->Text_area.width == 24
            &&& area.width < 24 ==> drawn[1]->Text_area.x == area.x
            &&& drawn[1]->Text_lines.len() == 1
            &&& drawn[1]->Text_lines[0].spans.len() == 1
            &&& drawn[1]->Text_lines[0].spans[0].content == " ↑ scroll "@ + decimal(offset)
                + " · esc "@
        }),
{
}

/// The banner says that the connection was lost where there is no exit code, and
/// which code there is where there is one, zero included; and always how to dismiss
/// the agent.
pub proof fn the_banner_says_how_it_ended(exit_code: i32, dismiss_label: Seq<char>)
    ensures
        exit_code == -1 ==> banner_text(exit_code, dismiss_label) == " ✗ connection lost — "@ + (
        dismiss_label + " to dismiss "@),
        exit_code != -1 ==> banner_text(exit_code, dismiss_label) == " ✗ session ended (exit "@
            + (signed_decimal(exit_code as int) + (") — "@ + (dismiss_label
            + " to dismiss "@))),
{
    assert(banner_text(-1i32, dismiss_label) =~= " ✗ connection lost — "@ + (dismiss_label
        + " to dismiss "@));
    if exit_code != -1 {
        assert(banner_text(exit_code, dismiss_label) =~= " ✗ session ended (exit "@ + (
        signed_decimal(exit_code as int) + (") — "@ + (dismiss_label + " to dismiss "@))));
    }
}

/// The failure pane shows its lines in order from the row where they begin, one
/// below the other, the first of them in bold, all in red, and never one that is not
/// in view.
pub proof fn the_failure_pane_shows_its_lines_in_order(
    area: Rect,
    lines: Seq<Seq<char>>,
    i: int,
)
    requires
        area.fits(),
        area.width > 0,
    ensures
        ({
            let drawn = failure_paint(area, lines);
            &&& drawn[0] == (PaintView::Clear { area })
            &&& drawn.len() == lines_in_view(lines, area) + 1
            &&& 0 <= i < lines_in_view(lines, area) ==> {
                let line = drawn[i + 1];
                &&& line is Text
                &&& line->Text_lines.len() == 1
                &&& line->Text_lines[0].spans.len() == 1
                &&& line->Text_lines[0].spans[0].content == lines[i]
                &&& line->Text_lines[0].style.bold == (i == 0)
                &&& line->Text_lines[0].style.fg == Some(Color::Red)
            }
        }),
{
}

/// A pane is recorded where it was drawn, under the identity of the agent drawn in
/// it; one without cells is not recorded.
pub proof fn a_pane_is_recorded_where_it_is_drawn(pane: PaneHitbox, area: Rect, id: AgentId)
    ensures
        area.width > 0 && area.height > 0 ==> pane_recorded(pane, area, id).rect == Some(area)
            && pane_recorded(pane, area, id).agent_id == Some(id),
        area.width == 0 || area.height == 0 ==> pane_recorded(pane, area, id) == pane,
{
}

/// How the banner and the badge stand out: white on red, and black on yellow, both in
/// bold.
pub proof fn banner_and_badge_stand_out(area: Rect, exit_code: i32, label: Seq<char>, offset: nat)
    requires
        !area.empty(),
    ensures
        ({
            let banner = banner_paint(area, exit_code, label);
            &&& banner.len() == 2 && banner[0] is Clear && banner[1] is Text
            &&& banner[0]->Clear_area == banner[1]->Text_area
            &&& banner[1]->Text_style.fg == Some(Color::White)
            &&& banner[1]->Text_style.bg == Some(Color::Red)
            &&& banner[1]->Text_style.bold && !banner[1]->Text_style.dim
            &&& !banner[1]->Text_style.reversed
            &&& banner[1]->align is Left
            &&& banner[1]->Text_lines.len() == 1 && banner[1]->Text_lines[0].spans.len() == 1
            &&& banner[1]->Text_lines[0].spans[0].content == banner_text(exit_code, label)
            &&& banner[1]->Text_area == (Rect {
                x: area.x,
                y: area.y,
                width: area.width,
                height: 1,
            })
        }),
        ({
            let badge = badge_paint(area, offset);
            &&& badge[1]->Text_style.fg == Some(Color::Black)
            &&& badge[1]->Text_style.bg == Some(Color::Yellow)
            &&& badge[1]->Text_style.bold && !badge[1]->Text_style.dim
            &&& !badge[1]->Text_style.reversed
        }),
{
}

/// What lies over a pane is passed on as it is.
pub proof fn overlays_are_passed_on(sel: &Selection, link: &HoverUrl)
    ensures
        selection_of(Some(sel)) == Some(*sel),
        selection_of(None) is None,
        hover_of(Some(link)) == Some(*link),
        hover_of(None) is None,
{
}

/// Over the screen of a live or crashed agent come first the marks of the selection,
/// then the link, and then whatever is drawn without either; over a failed agent's pane
/// the marks come last, and no link.
pub proof fn marks_are_drawn_over_the_screen<T>(
    area: Rect,
    agent: AgentModel<T>,
    dismiss_label: Seq<char>,
    selection: Option<Selection>,
    hover: Option<HoverUrl>,
)
    ensures
        ({
            let drawn = pane_paint(area, agent, dismiss_label, selection, hover);
            let bare = pane_paint(area, agent, dismiss_label, None, None);
            let marks = selection_paint(area, agent.id, selection);
            let link = hover_paint(area, agent.id, hover);
            &&& !(agent.state is Failed) ==> drawn == bare.take(1) + marks + link + bare.skip(1)
            &&& agent.state is Failed ==> drawn == bare + marks
        }),
{
    let drawn = pane_paint(area, agent, dismiss_label, selection, hover);
    let bare = pane_paint(area, agent, dismiss_label, None, None);
    let marks = selection_paint(area, agent.id, selection);
    let link = hover_paint(area, agent.id, hover);
    if agent.state is Failed {
        assert(drawn =~= bare + marks);
    } else {
        assert(drawn =~= bare.take(1) + marks + link + bare.skip(1));
    }
}

/// The pane of an agent that never came up tells why: the failure lines of its host and
/// its error, and nothing else while nothing is selected.
pub proof fn a_failed_pane_tells_why<T>(area: Rect, agent: AgentModel<T>, dismiss_label: Seq<char>)
    requires
        agent.state is Failed,
    ensures
        agent.host is Some ==> pane_paint(area, agent, dismiss_label, None, None) == failure_paint(
            area,
            failure_lines(agent.host->0@, agent.state->error@),
        ),
        agent.host is None ==> pane_paint(area, agent, dismiss_label, None, None) == failure_paint(
            area,
            failure_lines(Seq::empty(), agent.state->error@),
        ),
{
    let drawn = pane_paint(area, agent, dismiss_label, None, None);
    if agent.host is Some {
        assert(drawn =~= failure_paint(
            area,
            failure_lines(agent.host->0@, agent.state->error@),
        ));
    } else {
        assert(drawn =~= failure_paint(area, failure_lines(Seq::empty(), agent.state->error@)));
    }
}

/// A crashed agent's banner is drawn with its exit code and the chord that dismisses
/// it, over everything else in the pane.
pub proof fn a_crashed_pane_says_so<T>(
    area: Rect,
    agent: AgentModel<T>,
    dismiss_label: Seq<char>,
    selection: Option<Selection>,
    hover: Option<HoverUrl>,
)
    requires
        agent.state is Crashed,
        !area.empty(),
    ensures
        ({
            let drawn = pane_paint(area, agent, dismiss_label, selection, hover);
            &&& drawn.len() >= 3
            &&& drawn.last() is Text && drawn.last()->Text_lines.len() == 1
            &&& drawn.last()->Text_lines[0].spans.len() == 1
            &&& drawn.last()->Text_lines[0].spans[0].content == banner_text(
                agent.state->exit_code,
                dismiss_label,
            )
        }),
{
}

/// A pane that is scrolled back says so, with the rows it is scrolled back by.
pub proof fn a_scrolled_pane_says_so<T>(
    area: Rect,
    agent: AgentModel<T>,
    dismiss_label: Seq<char>,
    selection: Option<Selection>,
    hover: Option<HoverUrl>,
)
    requires
        agent.state is Ready,
        agent.state->Ready_screen.offset > 0,
        !area.empty(),
    ensures
        ({
            let drawn = pane_paint(area, agent, dismiss_label, selection, hover);
            &&& drawn.len() >= 3
            &&& drawn.last() == badge_paint(area, agent.state->Ready_screen.offset)[1]
            &&& drawn[drawn.len() - 2] == badge_paint(area, agent.state->Ready_screen.offset)[0]
        }),
{
}

} // verus!
