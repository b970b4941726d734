//! Laws of what a frame shows and what can be clicked in it.

use vstd::prelude::*;

use crate::agent::{AgentModel, RuntimeAgent};
use crate::geometry::{centered_rect_stays_inside, Rect};
use crate::help::{help_lines, HELP_HEIGHT, HELP_WIDTH};
use crate::keymap::dismiss_text;
use crate::label::{total_width, AnimationPhase};
use crate::layout::{
    centered_share_stays_inside, fixed_then_growing, pane_size, the_middle_lies_between_its_marks,
    Direction, NavStyle, NAV_PANE_WIDTH,
};
use crate::mouse::{first_hit, Hitbox, PaneHitbox};
use crate::nav::{models, PopupState};
use crate::paint::{Align, PaintView};
use crate::render::{
    agent_list, body_hits, body_paint, body_pane_area, focused_pane_recorded, frame_hits,
    frame_paint, frame_pane_area, frame_parts, nav_rows, overlays_paint, popup_parts,
    popup_style_paint, segments_share, status_paint, status_parts, strip_spans, switcher_paint,
    tab_hits, tab_rect, tab_start, tab_views, FrameState,
};
use crate::render_pane::{a_pane_shows_its_own_agent_only, hover_of, pane_paint, selection_of};
use crate::style::{span_views, ChromeStyle, SpanView, Style};
use crate::text::decimal;

verus! {

/// Whether the regions lie side by side in a row of `area`, from left to right,
/// none of them empty, none overlapping another.
pub open spec fn side_by_side(hits: Seq<Hitbox>, area: Rect) -> bool {
    &&& forall|i: int|
        0 <= i < hits.len() ==> {
            let rect = (#[trigger] hits[i]).rect;
            &&& rect.y == area.y && rect.height == 1
            &&& area.x <= rect.x < rect.x + rect.width <= area.x + area.width
        }
    &&& forall|i: int, j: int|
        0 <= i < j < hits.len() ==> (#[trigger] hits[i]).rect.x + hits[i].rect.width <= (
        #[trigger] hits[j]).rect.x
}

/// The clickable regions of the tabs lie side by side in the status bar: each on
/// its row, none empty, none overlapping another.
pub proof fn tabs_lie_side_by_side<T>(
    tabs: Seq<Seq<SpanView>>,
    agents: Seq<RuntimeAgent<T>>,
    left: Rect,
    n: nat,
)
    requires
        left.fits(),
    ensures
        side_by_side(tab_hits(tabs, agents, left, n), left),
{
    tabs_end_before_the_next(tabs, agents, left, n);
}

proof fn tabs_end_before_the_next<T>(
    tabs: Seq<Seq<SpanView>>,
    agents: Seq<RuntimeAgent<T>>,
    left: Rect,
    n: nat,
)
    requires
        left.fits(),
    ensures
        side_by_side(tab_hits(tabs, agents, left, n), left),
        left.x <= tab_start(tabs, left.x, n) <= u16::MAX,
        forall|i: int|
            0 <= i < tab_hits(tabs, agents, left, n).len() ==> (#[trigger] tab_hits(
                tabs,
                agents,
                left,
                n,
            )[i]).rect.x + tab_hits(tabs, agents, left, n)[i].rect.width <= tab_start(
                tabs,
                left.x,
                n,
            ),
    decreases n,
{
    if n > 0 {
        tabs_end_before_the_next(tabs, agents, left, (n - 1) as nat);
    }
}

/// The rows of the navigator lie inside its border, one below the other, and each
/// belongs to the agent listed there.
pub proof fn navigator_rows_lie_below_each_other<T>(nav_area: Rect, agents: Seq<RuntimeAgent<T>>)
    requires
        nav_area.fits(),
    ensures
        ({
            let rows = nav_rows(nav_area, agents);
            &&& rows.len() <= agents.len()
            &&& forall|i: int|
                0 <= i < rows.len() ==> {
                    let rect = (#[trigger] rows[i]).rect;
                    &&& rect.within(nav_area) && !rect.empty()
                    &&& rect.y == nav_area.y + 1 + i && rect.height == 1
                    &&& rows[i].agent_id == agents[i].id
                }
        }),
{
}

proof fn the_only_region_is_hit(hits: Seq<Hitbox>, i: int, col: u16, row: u16)
    requires
        0 <= i < hits.len(),
        hits[i].rect.covers(col as int, row as int),
        forall|j: int| 0 <= j < i ==> !(#[trigger] hits[j]).rect.covers(col as int, row as int),
    ensures
        first_hit(hits, col, row) == Some(hits[i].agent_id),
    decreases i,
{
    if i > 0 {
        assert(!hits[0].rect.covers(col as int, row as int));
        the_only_region_is_hit(hits.skip(1), i - 1, col, row);
    }
}

/// A click on a cell of a tab or of a navigator row finds the agent whose it is.
pub proof fn a_click_finds_its_agent<T>(
    tabs: Seq<Seq<SpanView>>,
    agents: Seq<RuntimeAgent<T>>,
    area: Rect,
    n: nat,
    i: int,
    col: u16,
    row: u16,
)
    requires
        area.fits(),
    ensures
        ({
            let hits = tab_hits(tabs, agents, area, n);
            0 <= i < hits.len() && hits[i].rect.covers(col as int, row as int) ==> first_hit(
                hits,
                col,
                row,
            ) == Some(hits[i].agent_id)
        }),
        ({
            let hits = nav_rows(area, agents);
            0 <= i < hits.len() && hits[i].rect.covers(col as int, row as int) ==> first_hit(
                hits,
                col,
                row,
            ) == Some(hits[i].agent_id)
        }),
{
    let tabs_hit = tab_hits(tabs, agents, area, n);
    tabs_lie_side_by_side(tabs, agents, area, n);
    if 0 <= i < tabs_hit.len() && tabs_hit[i].rect.covers(col as int, row as int) {
        the_only_region_is_hit(tabs_hit, i, col, row);
    }
    let rows = nav_rows(area, agents);
    navigator_rows_lie_below_each_other(area, agents);
    if 0 <= i < rows.len() && rows[i].rect.covers(col as int, row as int) {
        the_only_region_is_hit(rows, i, col, row);
    }
}

/// Where the pane is drawn never leaves the frame.
pub proof fn the_pane_stays_in_the_frame(area: Rect, state: FrameState<'_>)
    requires
        area.fits(),
    ensures
        frame_pane_area(area, state).within(area),
        frame_pane_area(area, state).fits(),
{
    let main_area = frame_parts(area, state.log_tail is Some).0;
    crate::layout::splits_tile_the_area(Direction::Vertical, 0, 1, area);
    crate::layout::splits_tile_the_area(Direction::Vertical, 1, 1, main_area);
    crate::layout::splits_tile_the_area(Direction::Horizontal, 1, NAV_PANE_WIDTH, main_area);
}

/// Whether no screen of an agent is among what is drawn.
pub open spec fn no_screen(drawn: Seq<PaintView>) -> bool {
    forall|k: int| 0 <= k < drawn.len() ==> !(#[trigger] drawn[k] is Screen)
}

proof fn overlays_show_no_screen(area: Rect, log_area: Option<Rect>, state: FrameState<'_>)
    ensures
        no_screen(overlays_paint(area, log_area, state)),
{
    reveal(overlays_paint);
}

proof fn bodies_show_the_focused_agent<T>(
    main_area: Rect,
    agents: Seq<AgentModel<T>>,
    focused: usize,
    state: FrameState<'_>,
)
    requires
        focused < agents.len(),
    ensures
        ({
            let drawn = body_paint(main_area, agents, focused, state);
            let shown = PaintView::Screen {
                area: body_pane_area(main_area, state.nav_style),
                agent: agents[focused as int].id,
            };
            &&& !(agents[focused as int].state is Failed) ==> drawn.contains(shown)
            &&& forall|k: int|
                0 <= k < drawn.len() && #[trigger] drawn[k] is Screen ==> drawn[k] == shown
                    && !(agents[focused as int].state is Failed)
        }),
{
    reveal(body_paint);
    let label = dismiss_text(state.bindings.on_prefix.bindings@);
    let selection = selection_of(state.overlay.selection);
    let hover = hover_of(state.overlay.hover);
    let pane_area = body_pane_area(main_area, state.nav_style);
    let agent = agents[focused as int];
    let shown = PaintView::Screen { area: pane_area, agent: agent.id };
    let pane = pane_paint(pane_area, agent, label, selection, hover);
    a_pane_shows_its_own_agent_only(pane_area, agent, label, selection, hover);
    let drawn = body_paint(main_area, agents, focused, state);
    match state.nav_style {
        NavStyle::LeftPane => {
            assert(drawn.len() == 1 + pane.len());
            assert(drawn[1] == pane[0]);
            assert forall|k: int| 0 <= k < drawn.len() && #[trigger] drawn[k] is Screen implies k
                == 1 by {
                if k > 0 {
                    assert(drawn[k] == pane[k - 1]);
                }
            }
        },
        NavStyle::Popup => {
            assert(drawn[0] == pane[0]);
            let status = status_paint(
                popup_parts(main_area).1,
                agents,
                focused,
                state.phase,
                *state.chrome,
                span_views(state.segments.spans@),
                state.segments.width,
            );
            let rest = drawn.skip(pane.len() as int);
            assert(no_screen(status));
            assert forall|k: int| 0 <= k < drawn.len() && #[trigger] drawn[k] is Screen implies k
                == 0 by {
                if k < pane.len() {
                    assert(drawn[k] == pane[k]);
                } else if k < pane.len() + status.len() {
                    assert(drawn[k] == status[k - pane.len()]);
                }
            }
        },
    }
}

/// In every navigator style the screen drawn in a frame is that of the focused
/// agent, at the place of the pane, and no other agent's screen is drawn. The agent
/// drawn there is the one whom the recorded pane names, so that what the mouse does
/// in the pane goes to the agent that gets the keys.
pub proof fn the_frame_shows_the_focused_agent_only<T>(
    area: Rect,
    agents: Seq<RuntimeAgent<T>>,
    focused: usize,
    state: FrameState<'_>,
)
    requires
        area.fits(),
        focused < agents.len(),
        agents[focused as int].state is Ready || agents[focused as int].state is Crashed,
    ensures
        ({
            let drawn = frame_paint(area, models(agents), focused, state);
            let shown = PaintView::Screen {
                area: frame_pane_area(area, state),
                agent: agents[focused as int].id,
            };
            let pane = focused_pane_recorded(
                PaneHitbox::nothing(),
                frame_pane_area(area, state),
                agents,
                focused,
            );
            &&& drawn.contains(shown)
            &&& forall|k: int|
                0 <= k < drawn.len() && #[trigger] drawn[k] is Screen ==> drawn[k] == shown
            &&& forall|k: int|
                0 <= k < drawn.len() && #[trigger] drawn[k] is Screen
                    && !frame_pane_area(area, state).empty() ==> pane.agent_id == Some(
                    drawn[k]->agent,
                ) && pane.rect == Some(drawn[k]->Screen_area)
        }),
{
    let (main_area, log_area) = frame_parts(area, state.log_tail is Some);
    let ms = models(agents);
    let body = body_paint(main_area, ms, focused, state);
    let over = overlays_paint(area, log_area, state);
    let drawn = frame_paint(area, ms, focused, state);
    assert(ms[focused as int] == agents[focused as int]@);
    bodies_show_the_focused_agent(main_area, ms, focused, state);
    overlays_show_no_screen(area, log_area, state);
    let shown = PaintView::Screen {
        area: frame_pane_area(area, state),
        agent: agents[focused as int].id,
    };
    let at = body.index_of(shown);
    assert(drawn[at] == body[at]);
    assert forall|k: int| 0 <= k < drawn.len() && #[trigger] drawn[k] is Screen implies drawn[k]
        == shown by {
        if k < body.len() {
            assert(drawn[k] == body[k]);
        } else {
            assert(drawn[k] == over[k - body.len()]);
        }
    }
}

/// Where the focused agent never came up, or there is no agent, no screen is drawn.
pub proof fn without_a_screen_none_is_shown<T>(
    area: Rect,
    agents: Seq<AgentModel<T>>,
    focused: usize,
    state: FrameState<'_>,
)
    requires
        focused < agents.len() ==> agents[focused as int].state is Failed,
    ensures
        no_screen(frame_paint(area, agents, focused, state)),
{
    let (main_area, log_area) = frame_parts(area, state.log_tail is Some);
    let body = body_paint(main_area, agents, focused, state);
    let over = overlays_paint(area, log_area, state);
    let drawn = frame_paint(area, agents, focused, state);
    overlays_show_no_screen(area, log_area, state);
    if focused < agents.len() {
        bodies_show_the_focused_agent(main_area, agents, focused, state);
    } else {
        assert(no_screen(body)) by {
            reveal(body_paint);
        }
    }
    assert forall|k: int| 0 <= k < drawn.len() implies !(#[trigger] drawn[k] is Screen) by {
        if k < body.len() {
            assert(drawn[k] == body[k]);
        } else {
            assert(drawn[k] == over[k - body.len()]);
        }
    }
}

/// How a frame is divided. In the left-pane style the navigator takes the leftmost
/// twenty-five columns, or all but one of fewer, and the pane the rest. In the popup
/// style the pane takes the whole width, and leaves one row below it to the status
/// bar. In both the log strip, where there is one, takes the bottom row.
pub proof fn the_pane_takes_what_the_chrome_leaves(area: Rect, state: FrameState<'_>)
    requires
        area.fits(),
    ensures
        ({
            let pane = frame_pane_area(area, state);
            let log: int = if state.log_tail is Some && area.height > 0 {
                1
            } else {
                0
            };
            match state.nav_style {
                NavStyle::LeftPane => {
                    &&& pane.x + pane.width == area.x + area.width
                    &&& area.width >= 26 ==> pane.x == area.x + 25
                    &&& 1 <= area.width <= 25 ==> pane.width == 1
                    &&& pane.y == area.y && pane.height == area.height - log
                },
                NavStyle::Popup => {
                    &&& pane.x == area.x && pane.width == area.width
                    &&& pane.y == area.y
                    &&& area.height - log >= 2 ==> pane.height == area.height - log - 1
                    &&& area.height - log < 2 ==> pane.height == area.height - log
                },
            }
        }),
{
}

/// A pane drawn on the whole screen is as large as the terminal that the agent in it
/// was told of, wherever the screen has room for the chrome and a cell beside it.
pub proof fn panes_are_as_large_as_the_agents_terminal(
    rows: u16,
    cols: u16,
    state: FrameState<'_>,
)
    requires
        rows >= 3,
        cols >= 26,
    ensures
        ({
            let pane = frame_pane_area(Rect { x: 0, y: 0, width: cols, height: rows }, state);
            (pane.height, pane.width) == pane_size(
                state.nav_style,
                rows,
                cols,
                state.log_tail is Some,
            )
        }),
{
}

/// A list of agents has one line for each, in order: its number, counted from one,
/// in brackets, the mark on the chosen one and on no other, and the agent's own
/// label.
pub proof fn a_list_shows_every_agent_in_order<T>(
    agents: Seq<AgentModel<T>>,
    chosen: usize,
    phase: AnimationPhase,
    chrome: ChromeStyle,
    i: int,
)
    requires
        0 <= i < agents.len(),
    ensures
        ({
            let lines = agent_list(agents, chosen, phase, chrome);
            let head = lines[i].spans[0].content;
            let number = decimal((i + 1) as nat);
            &&& lines.len() == agents.len()
            &&& i == chosen ==> head == "> ["@ + number + "] "@
            &&& i != chosen ==> head == "  ["@ + number + "] "@
            &&& lines[i].spans.skip(1) == agents[i].label_view(false, phase, chrome)
            &&& lines[i].spans.last().content == agents[i].task()
        }),
{
    let lines = agent_list(agents, chosen, phase, chrome);
    assert(lines[i].spans.skip(1) =~= agents[i].label_view(false, phase, chrome));
}

/// In the left-pane style the navigator is drawn first: the list of agents with the
/// focused one marked, in the columns left of the pane.
pub proof fn the_navigator_marks_the_focused_agent<T>(
    area: Rect,
    agents: Seq<AgentModel<T>>,
    focused: usize,
    state: FrameState<'_>,
)
    requires
        area.fits(),
        state.nav_style is LeftPane,
    ensures
        ({
            let drawn = frame_paint(area, agents, focused, state);
            let pane = frame_pane_area(area, state);
            &&& drawn.len() > 0 && drawn[0] is Text
            &&& drawn[0]->Text_area.x == area.x && drawn[0]->Text_area.y == area.y
            &&& drawn[0]->Text_area.x + drawn[0]->Text_area.width == pane.x
            &&& drawn[0]->Text_area.height == pane.height
            &&& drawn[0]->Text_lines == agent_list(agents, focused, state.phase, *state.chrome)
            &&& drawn[0]->border == Some(" agents "@)
        }),
{
    reveal(body_paint);
    let main_area = frame_parts(area, state.log_tail is Some).0;
    let body = body_paint(main_area, agents, focused, state);
    assert(frame_paint(area, agents, focused, state)[0] == body[0]);
}

/// In the popup style the switcher, while it is open, is drawn over the pane and the
/// status bar: the list of agents with the selected one marked, whichever has the
/// focus. While it is closed it is not drawn.
pub proof fn the_switcher_marks_the_selected_agent<T>(
    area: Rect,
    agents: Seq<AgentModel<T>>,
    focused: usize,
    popup: PopupState,
    dismiss_label: Seq<char>,
    phase: AnimationPhase,
    chrome: ChromeStyle,
    segments: Seq<SpanView>,
    segments_width: u16,
)
    requires
        area.fits(),
        focused < agents.len(),
    ensures
        ({
            let drawn = popup_style_paint(
                area,
                agents,
                focused,
                popup,
                dismiss_label,
                phase,
                chrome,
                None,
                None,
                segments,
                segments_width,
            );
            let closed = popup_style_paint(
                area,
                agents,
                focused,
                PopupState::Closed,
                dismiss_label,
                phase,
                chrome,
                None,
                None,
                segments,
                segments_width,
            );
            match popup {
                PopupState::Open { selection } => {
                    &&& drawn.len() == closed.len() + 2
                    &&& drawn.take(closed.len() as int) == closed
                    &&& drawn[drawn.len() - 2] is Clear
                    &&& drawn.last() is Text && drawn.last()->Text_area == drawn[drawn.len()
                        - 2]->Clear_area
                    &&& drawn.last()->Text_area.within(area)
                    &&& drawn.last()->Text_lines == agent_list(agents, selection, phase, chrome)
                    &&& drawn.last()->border == Some(" switch agent "@)
                },
                PopupState::Closed => drawn == closed && (closed.last()->border is None),
            }
        }),
{
    centered_share_stays_inside(50, 60, area);
    let closed = popup_style_paint(
        area,
        agents,
        focused,
        PopupState::Closed,
        dismiss_label,
        phase,
        chrome,
        None,
        None,
        segments,
        segments_width,
    );
    if let PopupState::Open { selection } = popup {
        let drawn = popup_style_paint(
            area,
            agents,
            focused,
            popup,
            dismiss_label,
            phase,
            chrome,
            None,
            None,
            segments,
            segments_width,
        );
        assert(drawn.take(closed.len() as int) =~= closed);
    }
}

/// What opens over the agents. The log strip is there exactly while there is a log,
/// on the bottom row; the spawn dialog exactly while it is open, over the whole
/// frame; the help screen exactly while it is open, and above all else.
pub proof fn overlays_are_drawn_while_they_are_open<T>(
    area: Rect,
    agents: Seq<AgentModel<T>>,
    focused: usize,
    state: FrameState<'_>,
)
    requires
        area.fits(),
        area.height > 0,
    ensures
        ({
            let main_area = frame_parts(area, state.log_tail is Some).0;
            let body = body_paint(main_area, agents, focused, state);
            let drawn = frame_paint(area, agents, focused, state);
            let log: int = if state.log_tail is Some {
                2
            } else {
                0
            };
            let dialog: int = if state.spawn_open {
                1
            } else {
                0
            };
            let help: int = if state.help is Open {
                3
            } else {
                0
            };
            &&& drawn.len() == body.len() + log + dialog + help
            &&& drawn.take(body.len() as int) == body
            &&& state.log_tail is Some ==> {
                let strip = drawn[body.len() + 1int];
                &&& drawn[body.len() as int] is Clear
                &&& strip is Text
                &&& strip->Text_area.y + 1 == area.y + area.height && strip->Text_area.height == 1
                &&& strip->Text_area.x == area.x && strip->Text_area.width == area.width
                &&& strip->Text_lines.len() == 1 && strip->Text_lines[0].spans.len() == 1
                &&& strip->Text_lines[0].spans[0].content == match state.log_tail->0.latest {
                    Some(line) => line@,
                    None => "—"@,
                }
            }
            &&& state.spawn_open ==> drawn[body.len() + log] == (PaintView::Dialog { area })
            &&& state.help is Open ==> {
                &&& drawn[drawn.len() - 3] is Clear
                &&& drawn[drawn.len() - 2] is Border
                &&& drawn.last() is Text
                &&& drawn.last()->Text_lines == help_lines(*state.bindings)
                &&& drawn[drawn.len() - 2]->Border_area.within(area)
                &&& drawn[drawn.len() - 3]->Clear_area == drawn[drawn.len() - 2]->Border_area
            }
        }),
{
    reveal(overlays_paint);
    centered_rect_stays_inside(HELP_WIDTH, HELP_HEIGHT, area);
    let (main_area, log_area) = frame_parts(area, state.log_tail is Some);
    let body = body_paint(main_area, agents, focused, state);
    let over = overlays_paint(area, log_area, state);
    let drawn = frame_paint(area, agents, focused, state);
    assert(drawn.take(body.len() as int) =~= body);
    assert forall|k: int| 0 <= k < over.len() implies #[trigger] over[k] == drawn[body.len()
        + k] by {}
    if state.log_tail is Some {
        assert(drawn[body.len() as int] == over[0]);
        assert(drawn[body.len() + 1int] == over[1]);
    }
    if state.help is Open {
        assert(drawn.last() == over.last());
        assert(drawn[drawn.len() - 2] == over[over.len() - 2]);
        assert(drawn[drawn.len() - 3] == over[over.len() - 3]);
    }
}

/// The status bar shows the tabs of all agents in order with a separator between
/// neighbours: tab `i` stands at its place among the spans, whole.
pub proof fn the_status_bar_shows_every_tab(tabs: Seq<Seq<SpanView>>, secondary: Style, n: nat)
    requires
        0 < n <= tabs.len(),
    ensures
        strip_spans(tabs, secondary, 0).len() == 0,
        strip_spans(tabs, secondary, 1) == tabs[0],
        n > 1 ==> {
            let before = strip_spans(tabs, secondary, (n - 1) as nat);
            let all = strip_spans(tabs, secondary, n);
            &&& all.take(before.len() as int) == before
            &&& all[before.len() as int].content == " │ "@
            &&& all[before.len() as int].style == secondary
            &&& all.skip(before.len() + 1int) == tabs[n - 1]
        },
{
    if n > 1 {
        let before = strip_spans(tabs, secondary, (n - 1) as nat);
        let all = strip_spans(tabs, secondary, n);
        assert(all.take(before.len() as int) =~= before);
        assert(all.skip(before.len() + 1int) =~= tabs[n - 1]);
    }
}

/// Tabs lie where their text is drawn: the first at the left edge, each next one
/// after the one before it and the three cells of the separator, each as wide as its
/// text, as far as the bar goes.
pub proof fn tabs_lie_where_they_are_drawn(tabs: Seq<Seq<SpanView>>, left: Rect, i: nat)
    requires
        left.fits(),
        i < tabs.len(),
    ensures
        ({
            let rect = tab_rect(tabs, left, i);
            let end = left.x + left.width;
            &&& rect.y == left.y && rect.height == 1
            &&& i == 0 ==> rect.x == left.x
            &&& i > 0 ==> {
                let before = tab_start(tabs, left.x, (i - 1) as nat);
                before + total_width(tabs[i - 1]) + 3 <= u16::MAX ==> tab_start(tabs, left.x, i)
                    == before + total_width(tabs[i - 1]) + 3
            }
            &&& tab_start(tabs, left.x, i) + total_width(tabs[i as int]) <= end ==> rect.width
                == total_width(tabs[i as int])
            &&& tab_start(tabs, left.x, i) <= end < tab_start(tabs, left.x, i) + total_width(
                tabs[i as int],
            ) ==> rect.width == end - tab_start(tabs, left.x, i)
            &&& tab_start(tabs, left.x, i) >= end ==> rect.width == 0
        }),
{
    starts_are_coordinates(tabs, left.x, i);
    if i > 0 {
        starts_are_coordinates(tabs, left.x, (i - 1) as nat);
    }
}

proof fn starts_are_coordinates(tabs: Seq<Seq<SpanView>>, x: u16, i: nat)
    ensures
        x <= tab_start(tabs, x, i) <= u16::MAX,
    decreases i,
{
    if i > 0 {
        starts_are_coordinates(tabs, x, (i - 1) as nat);
    }
}

/// Every tab that has cells on the bar can be clicked, under the identity of the
/// agent whose tab it is.
pub proof fn every_drawn_tab_can_be_clicked<T>(
    tabs: Seq<Seq<SpanView>>,
    agents: Seq<RuntimeAgent<T>>,
    left: Rect,
    n: nat,
    i: nat,
)
    requires
        i < n <= agents.len(),
        tab_rect(tabs, left, i).width > 0,
    ensures
        tab_hits(tabs, agents, left, n).contains(
            Hitbox { rect: tab_rect(tabs, left, i), agent_id: agents[i as int].id },
        ),
    decreases n,
{
    let wanted = Hitbox { rect: tab_rect(tabs, left, i), agent_id: agents[i as int].id };
    let all = tab_hits(tabs, agents, left, n);
    let before = tab_hits(tabs, agents, left, (n - 1) as nat);
    if i == n - 1 {
        assert(all.last() == wanted);
        assert(all[all.len() - 1] == wanted);
    } else {
        every_drawn_tab_can_be_clicked(tabs, agents, left, (n - 1) as nat, i);
        let k = before.index_of(wanted);
        assert(all[k] == wanted);
    }
}

/// In the left-pane style every agent whose row is inside the navigator can be
/// clicked there, each on a row of its own below the one before.
pub proof fn every_listed_row_can_be_clicked<T>(
    nav_area: Rect,
    agents: Seq<RuntimeAgent<T>>,
    i: int,
)
    requires
        nav_area.fits(),
        nav_area.width > 2,
        0 <= i < agents.len(),
        i + 2 < nav_area.height,
    ensures
        i < nav_rows(nav_area, agents).len(),
        nav_rows(nav_area, agents)[i] == (Hitbox {
            rect: Rect {
                x: (nav_area.x + 1) as u16,
                y: (nav_area.y + 1 + i) as u16,
                width: (nav_area.width - 2) as u16,
                height: 1,
            },
            agent_id: agents[i].id,
        }),
{
}

/// The tab of an agent begins with its number, counted from one, and shows its own
/// label; only the focused agent's tab is highlighted.
pub proof fn tabs_are_numbered_from_one<T>(
    agents: Seq<AgentModel<T>>,
    focused: usize,
    phase: AnimationPhase,
    chrome: ChromeStyle,
    i: int,
)
    requires
        0 <= i < agents.len(),
    ensures
        ({
            let tab = tab_views(agents, focused, phase, chrome)[i];
            let label = agents[i].label_view(i == focused, phase, chrome);
            &&& tab_views(agents, focused, phase, chrome).len() == agents.len()
            &&& tab.len() == label.len() + 2
            &&& tab[0].content == " "@ + decimal((i + 1) as nat) + " "@
            &&& tab.subrange(1, tab.len() - 1) == label
            &&& tab.last().content == " "@
            &&& i == focused ==> tab[0].style == Style::highlight() && tab.last().style
                == Style::highlight()
            &&& i != focused ==> tab[0].style == chrome.secondary && tab.last().style
                == chrome.secondary
        }),
{
    let tab = tab_views(agents, focused, phase, chrome)[i];
    assert(tab.subrange(1, tab.len() - 1) =~= agents[i].label_view(i == focused, phase, chrome));
}

/// The status bar: the tabs at its left edge, and the segments against its right
/// edge where there are any and at least one cell is left beside them.
pub proof fn the_segments_stand_at_the_right<T>(
    area: Rect,
    agents: Seq<AgentModel<T>>,
    focused: usize,
    phase: AnimationPhase,
    chrome: ChromeStyle,
    segments: Seq<SpanView>,
    width: u16,
)
    requires
        area.fits(),
    ensures
        ({
            let drawn = status_paint(area, agents, focused, phase, chrome, segments, width);
            let tabs = tab_views(agents, focused, phase, chrome);
            &&& drawn[0] is Text
            &&& drawn[0]->Text_area.x == area.x && drawn[0]->Text_area.y == area.y
            &&& drawn[0]->Text_lines.len() == 1
            &&& drawn[0]->Text_lines[0].spans == strip_spans(tabs, chrome.secondary, agents.len())
            &&& drawn[0]->align == Align::Left
            &&& 0 < width < area.width ==> {
                &&& drawn.len() == 2 && drawn[1] is Text
                &&& drawn[1]->align == Align::Right
                &&& drawn[1]->Text_lines.len() == 1
                &&& drawn[1]->Text_lines[0].spans == segments
                &&& drawn[1]->Text_area.width == width
                &&& drawn[1]->Text_area.x + width == area.x + area.width
                &&& drawn[0]->Text_area.width == area.width - width
            }
            &&& width == 0 || width >= area.width ==> drawn.len() == 1
                && drawn[0]->Text_area.width == area.width
        }),
{
}

/// The segments may take three fifths of the bar, rounded down, and of a bar wider
/// than a third of the widest screen a fifth of that screen's width.
pub proof fn the_segments_take_three_fifths(width: u16)
    ensures
        width * 3 <= u16::MAX ==> 5 * segments_share(width) <= 3 * width < 5 * segments_share(
            width,
        ) + 5,
        width * 3 > u16::MAX ==> segments_share(width) == 13107,
        segments_share(width) <= width,
{
}

/// In the popup style a frame shows below the pane the tabs of all agents, with the
/// focused one highlighted, and while the switcher is open the list with the
/// selected agent marked on top.
pub proof fn the_popup_frame_shows_tabs_and_switcher<T>(
    area: Rect,
    agents: Seq<AgentModel<T>>,
    focused: usize,
    state: FrameState<'_>,
)
    requires
        area.fits(),
        area.height >= 3,
        state.nav_style is Popup,
    ensures
        ({
            let main_area = frame_parts(area, state.log_tail is Some).0;
            let body = body_paint(main_area, agents, focused, state);
            let pane = frame_pane_area(area, state);
            let tabs = tab_views(agents, focused, state.phase, *state.chrome);
            &&& exists|k: int|
                0 <= k < body.len() && #[trigger] body[k] is Text && body[k]->Text_lines.len() == 1
                    && body[k]->Text_lines[0].spans == strip_spans(
                    tabs,
                    state.chrome.secondary,
                    agents.len(),
                ) && body[k]->Text_area.y == pane.y + pane.height && body[k]->Text_area.x
                    == area.x
            &&& match state.popup {
                PopupState::Open { selection } => body.last() is Text && body.last()->Text_lines
                    == agent_list(agents, selection, state.phase, *state.chrome)
                    && body.last()->border == Some(" switch agent "@),
                PopupState::Closed => body.last() is Text && body.last()->border is None
                    && body.last()->Text_area.y == pane.y + pane.height,
            }
        }),
{
    reveal(body_paint);
    let main_area = frame_parts(area, state.log_tail is Some).0;
    let label = dismiss_text(state.bindings.on_prefix.bindings@);
    let selection = selection_of(state.overlay.selection);
    let hover = hover_of(state.overlay.hover);
    let (pane_area, bar) = popup_parts(main_area);
    let pane = if focused < agents.len() {
        pane_paint(pane_area, agents[focused as int], label, selection, hover)
    } else {
        Seq::empty()
    };
    let status = status_paint(
        bar,
        agents,
        focused,
        state.phase,
        *state.chrome,
        span_views(state.segments.spans@),
        state.segments.width,
    );
    let body = body_paint(main_area, agents, focused, state);
    assert(body[pane.len() as int] == status[0]);
    if state.popup is Closed {
        assert(body.last() == status.last());
    }
}

/// What can be clicked in a frame, and whom it names. In the left-pane style it is
/// the rows of the navigator, in the popup style the tabs, drawn below the pane.
pub proof fn what_can_be_clicked_names_its_agent<T>(
    area: Rect,
    agents: Seq<RuntimeAgent<T>>,
    focused: usize,
    state: FrameState<'_>,
    i: int,
)
    requires
        area.fits(),
        area.height >= 3,
        0 <= i < agents.len(),
    ensures
        ({
            let hits = frame_hits(area, agents, focused, state);
            let pane = frame_pane_area(area, state);
            match state.nav_style {
                NavStyle::LeftPane => area.width >= 26 && i + 2 < pane.height ==> hits.contains(
                    Hitbox {
                        rect: Rect {
                            x: (area.x + 1) as u16,
                            y: (area.y + 1 + i) as u16,
                            width: 23,
                            height: 1,
                        },
                        agent_id: agents[i].id,
                    },
                ),
                NavStyle::Popup => {
                    let tabs = tab_views(models(agents), focused, state.phase, *state.chrome);
                    let bar = Rect {
                        x: area.x,
                        y: (pane.y + pane.height) as u16,
                        width: if 0 < state.segments.width < area.width {
                            (area.width - state.segments.width) as u16
                        } else {
                            area.width
                        },
                        height: 1,
                    };
                    tab_rect(tabs, bar, i as nat).width > 0 ==> hits.contains(
                        Hitbox { rect: tab_rect(tabs, bar, i as nat), agent_id: agents[i].id },
                    )
                },
            }
        }),
        forall|k: int|
            0 <= k < frame_hits(area, agents, focused, state).len() ==> exists|j: int|
                0 <= j < agents.len() && (#[trigger] agents[j]).id == (#[trigger] frame_hits(
                    area,
                    agents,
                    focused,
                    state,
                )[k]).agent_id,
{
    reveal(body_hits);
    let main_area = frame_parts(area, state.log_tail is Some).0;
    let hits = frame_hits(area, agents, focused, state);
    match state.nav_style {
        NavStyle::LeftPane => {
            let nav_area = fixed_then_growing(
                Direction::Horizontal,
                NAV_PANE_WIDTH,
                1,
                main_area,
            ).0;
            if area.width >= 26 && i + 2 < frame_pane_area(area, state).height {
                every_listed_row_can_be_clicked(nav_area, agents, i);
                assert(hits[i] == nav_rows(nav_area, agents)[i]);
            }
            assert forall|k: int| 0 <= k < hits.len() implies exists|j: int|
                0 <= j < agents.len() && (#[trigger] agents[j]).id == (
                #[trigger] hits[k]).agent_id by {
                assert(agents[k].id == hits[k].agent_id);
            }
        },
        NavStyle::Popup => {
            let tabs = tab_views(models(agents), focused, state.phase, *state.chrome);
            let bar = status_parts(popup_parts(main_area).1, state.segments.width).0;
            if tab_rect(tabs, bar, i as nat).width > 0 {
                every_drawn_tab_can_be_clicked(tabs, agents, bar, agents.len(), i as nat);
            }
            tabs_name_their_agents(tabs, agents, bar, agents.len());
        },
    }
}

proof fn tabs_name_their_agents<T>(
    tabs: Seq<Seq<SpanView>>,
    agents: Seq<RuntimeAgent<T>>,
    left: Rect,
    n: nat,
)
    requires
        n <= agents.len(),
    ensures
        forall|k: int|
            0 <= k < tab_hits(tabs, agents, left, n).len() ==> exists|j: int|
                0 <= j < agents.len() && (#[trigger] agents[j]).id == (#[trigger] tab_hits(
                    tabs,
                    agents,
                    left,
                    n,
                )[k]).agent_id,
    decreases n,
{
    if n > 0 {
        tabs_name_their_agents(tabs, agents, left, (n - 1) as nat);
        let before = tab_hits(tabs, agents, left, (n - 1) as nat);
        let all = tab_hits(tabs, agents, left, n);
        assert forall|k: int| 0 <= k < all.len() implies exists|j: int|
            0 <= j < agents.len() && (#[trigger] agents[j]).id == (
            #[trigger] all[k]).agent_id by {
            if k < before.len() {
                assert(all[k] == before[k]);
            } else {
                assert(agents[n - 1].id == all[k].agent_id);
            }
        }
    }
}

/// The rows of the navigator that can be clicked lie inside its border, never on it.
pub proof fn navigator_rows_lie_inside_the_border<T>(
    nav_area: Rect,
    agents: Seq<RuntimeAgent<T>>,
    i: int,
)
    requires
        nav_area.fits(),
        0 <= i < nav_rows(nav_area, agents).len(),
    ensures
        ({
            let rect = nav_rows(nav_area, agents)[i].rect;
            &&& nav_area.x < rect.x && rect.x + rect.width < nav_area.x + nav_area.width
            &&& nav_area.y < rect.y && rect.y + rect.height < nav_area.y + nav_area.height
        }),
{
}

/// The switcher takes the middle half of the width and the middle three fifths of the
/// height, each edge at the nearest cell.
pub proof fn the_switcher_takes_the_middle<T>(
    area: Rect,
    agents: Seq<AgentModel<T>>,
    selection: usize,
    phase: AnimationPhase,
    chrome: ChromeStyle,
)
    requires
        area.fits(),
    ensures
        ({
            let drawn = switcher_paint(area, agents, selection, phase, chrome);
            let popup = drawn[0]->Clear_area;
            &&& drawn.len() == 2 && drawn[0] is Clear && drawn[1] is Text
            &&& drawn[1]->Text_area == popup
            &&& -50 <= 100 * (popup.x - area.x) - area.width * 25 <= 50
            &&& -50 <= 100 * (popup.x + popup.width - area.x) - area.width * 75 <= 50
            &&& -50 <= 100 * (popup.y - area.y) - area.height * 20 <= 50
            &&& -50 <= 100 * (popup.y + popup.height - area.y) - area.height * 80 <= 50
        }),
{
    the_middle_lies_between_its_marks(50, 60, area);
}

} // verus!
