//! Drawing a frame: the navigator, the agent pane, the status bar and what opens
//! over them.

use vstd::prelude::*;

use crate::agent::{AgentModel, ModelEffort, RuntimeAgent};
use crate::geometry::{capped, least, monus, Rect};
use crate::help::{help_paint, render_help};
use crate::keymap::{dismiss_text, Bindings};
use crate::label::{
    agent_label_spans, build_tab_strip, spans_width, string_text, tab_view, text_of, AnimationPhase,
};
use crate::layout::{
    centered_rect, centered_share, fixed_then_growing, growing_then_fixed, split_fixed_then_growing,
    split_growing_then_fixed, Direction, NavStyle, LOG_STRIP_HEIGHT, NAV_PANE_WIDTH,
    STATUS_BAR_HEIGHT,
};
use crate::mouse::{recorded, Hitbox, HoverUrl, PaneHitbox, Selection, TabHitboxes};
use crate::nav::{models, PopupState};
use crate::paint::{
    line_views, one_line, paint, paint_badge, paint_views, plain_text, titled_text, Align, LineView,
    Paint, PaintView, TextLine,
};
use crate::render_pane::{
    hover_of, pane_paint, pane_recorded, render_agent_pane, selection_of, PaneOverlay,
};
use crate::style::{span_views, ChromeStyle, Span, SpanView, Style};
use crate::text::{decimal, push_decimal};

verus! {

/// Whether the help screen is open.
#[derive(Clone, Copy, Debug, PartialEq, Eq, Structural)]
pub enum HelpState {
    Closed,
    Open,
}

/// The line of one agent in a list: a mark on the chosen one, its number, counted
/// from one, and its label.
pub open spec fn list_line<T>(
    agent: AgentModel<T>,
    i: int,
    chosen: bool,
    phase: AnimationPhase,
    chrome: ChromeStyle,
) -> LineView {
    let mark = if chosen {
        "> ["@
    } else {
        "  ["@
    };
    LineView {
        spans: seq![
            SpanView {
                content: mark + decimal((i + 1) as nat) + "] "@,
                style: Style::plain(),
            },
        ] + agent.label_view(false, phase, chrome),
        style: Style::plain(),
    }
}

/// The list of agents, the one at `chosen` marked.
pub open spec fn agent_list<T>(
    agents: Seq<AgentModel<T>>,
    chosen: usize,
    phase: AnimationPhase,
    chrome: ChromeStyle,
) -> Seq<LineView> {
    Seq::new(agents.len(), |i: int| list_line(agents[i], i, i == chosen, phase, chrome))
}

fn agent_lines<T>(
    agents: &Vec<RuntimeAgent<T>>,
    chosen: usize,
    phase: AnimationPhase,
    chrome: &ChromeStyle,
) -> (r: Vec<TextLine>)
    ensures
        line_views(r@) == agent_list(models(agents@), chosen, phase, *chrome),
{
    let ghost wanted = agent_list(models(agents@), chosen, phase, *chrome);
    let mut lines: Vec<TextLine> = Vec::new();
    for i in 0..agents.len()
        invariant
            wanted == agent_list(models(agents@), chosen, phase, *chrome),
            line_views(lines@) == wanted.take(i as int),
    {
        let mut text = if i == chosen {
            "> [".to_owned()
        } else {
            "  [".to_owned()
        };
        push_decimal(&mut text, i as u64 + 1);
        text.append("] ");
        let mut spans: Vec<Span> = Vec::new();
        spans.push(Span::raw(text));
        let mut label = agent_label_spans(&agents[i], false, phase, chrome);
        let ghost label_spans = label@;
        spans.append(&mut label);
        assert(span_views(spans@) =~= seq![span_views(spans@)[0]] + span_views(label_spans));
        let line = TextLine::of_spans(spans);
        assert(line@ == wanted[i as int]);
        let ghost before = lines@;
        lines.push(line);
        assert(line_views(lines@) =~= line_views(before).push(line@));
        assert(line_views(lines@) =~= wanted.take(i + 1));
    }
    assert(wanted.take(wanted.len() as int) =~= wanted);
    lines
}

/// The rows of the navigator: one for each agent, inside its border, as far as
/// there are rows.
pub open spec fn nav_rows<T>(nav_area: Rect, agents: Seq<RuntimeAgent<T>>) -> Seq<Hitbox> {
    let row = |i: int|
        Hitbox {
            rect: Rect {
                x: (nav_area.x + 1) as u16,
                y: (nav_area.y + 1 + i) as u16,
                width: monus(nav_area.width as int, 2) as u16,
                height: 1,
            },
            agent_id: agents[i].id,
        };
    if nav_area.width <= 2 {
        Seq::empty()
    } else {
        Seq::new(
            least(agents.len() as int, monus(nav_area.height as int, 2)) as nat,
            row,
        )
    }
}

/// The left-pane style in two given areas: the navigator in one, the focused
/// agent in the other.
pub open spec fn left_pane_paint<T>(
    nav_area: Rect,
    pty_area: Rect,
    agents: Seq<AgentModel<T>>,
    focused: usize,
    dismiss_label: Seq<char>,
    phase: AnimationPhase,
    chrome: ChromeStyle,
    selection: Option<Selection>,
    hover: Option<HoverUrl>,
) -> Seq<PaintView> {
    seq![titled_text(nav_area, agent_list(agents, focused, phase, chrome), " agents "@)]
        + if focused < agents.len() {
        pane_paint(pty_area, agents[focused as int], dismiss_label, selection, hover)
    } else {
        Seq::empty()
    }
}

/// The recorded pane after the focused agent's was drawn at `area`.
pub open spec fn focused_pane_recorded<T>(
    pane: PaneHitbox,
    area: Rect,
    agents: Seq<RuntimeAgent<T>>,
    focused: usize,
) -> PaneHitbox {
    if focused < agents.len() {
        pane_recorded(pane, area, agents[focused as int].id)
    } else {
        pane
    }
}

/// Draws the left-pane style, and records the navigator's rows and the pane.
pub fn render_left_pane<T>(
    out: &mut Vec<Paint>,
    area: Rect,
    agents: &Vec<RuntimeAgent<T>>,
    focused: usize,
    dismiss_label: &str,
    phase: AnimationPhase,
    chrome: &ChromeStyle,
    hitboxes: &mut TabHitboxes,
    pane_hitbox: &mut PaneHitbox,
    overlay: &PaneOverlay<'_>,
)
    requires
        area.fits(),
    ensures
        ({
            let (nav_area, pty_area) = fixed_then_growing(
                Direction::Horizontal,
                NAV_PANE_WIDTH,
                1,
                area,
            );
            &&& paint_views(final(out)@) == paint_views(old(out)@) + left_pane_paint(
                nav_area,
                pty_area,
                models(agents@),
                focused,
                dismiss_label@,
                phase,
                *chrome,
                selection_of(overlay.selection),
                hover_of(overlay.hover),
            )
            &&& final(hitboxes).rects@ == old(hitboxes).rects@ + nav_rows(nav_area, agents@)
            &&& *final(pane_hitbox) == focused_pane_recorded(
                *old(pane_hitbox),
                pty_area,
                agents@,
                focused,
            )
        }),
{
    let (nav_area, pty_area) = split_fixed_then_growing(
        Direction::Horizontal,
        NAV_PANE_WIDTH,
        1,
        area,
    );
    proof {
        crate::layout::splits_tile_the_area(Direction::Horizontal, 1, NAV_PANE_WIDTH, area);
    }
    let ghost before = paint_views(out@);
    let lines = agent_lines(agents, focused, phase, chrome);
    paint(
        out,
        Paint::Text {
            area: nav_area,
            lines,
            style: Style::none(),
            align: Align::Left,
            border: Some(" agents ".to_owned()),
        },
    );
    record_nav_rows(hitboxes, nav_area, agents);
    if focused < agents.len() {
        assert(models(agents@)[focused as int] == agents@[focused as int]@);
        render_agent_pane(
            out,
            pty_area,
            &agents[focused],
            dismiss_label,
            pane_hitbox,
            overlay,
        );
    }
    assert(paint_views(out@) =~= before + left_pane_paint(
        nav_area,
        pty_area,
        models(agents@),
        focused,
        dismiss_label@,
        phase,
        *chrome,
        selection_of(overlay.selection),
        hover_of(overlay.hover),
    ));
}

fn record_nav_rows<T>(hitboxes: &mut TabHitboxes, nav_area: Rect, agents: &Vec<RuntimeAgent<T>>)
    requires
        nav_area.fits(),
    ensures
        final(hitboxes).rects@ == old(hitboxes).rects@ + nav_rows(nav_area, agents@),
{
    let ghost before = hitboxes.rects@;
    let ghost wanted = nav_rows(nav_area, agents@);
    let rows: usize = nav_area.height.saturating_sub(2) as usize;
    let shown: usize = if agents.len() < rows {
        agents.len()
    } else {
        rows
    };
    if nav_area.width <= 2 {
        assert(before + wanted =~= before);
        return ;
    }
    assert(before + wanted.take(0) =~= before);
    for i in 0..shown
        invariant
            nav_area.fits(),
            nav_area.width > 2,
            shown <= agents@.len(),
            shown == wanted.len(),
            shown + 2 <= nav_area.height || shown == 0,
            wanted == nav_rows(nav_area, agents@),
            hitboxes.rects@ == before + wanted.take(i as int),
    {
        let rect = Rect {
            x: nav_area.x + 1,
            y: nav_area.y + 1 + i as u16,
            width: nav_area.width - 2,
            height: 1,
        };
        hitboxes.record(rect, agents[i].id.clone());
        assert(hitboxes.rects@ =~= before + wanted.take(i + 1));
    }
    assert(wanted.take(wanted.len() as int) =~= wanted);
}

/// The right side of the status bar: its text, and how many cells it takes.
pub struct Segments {
    pub spans: Vec<Span>,
    pub width: u16,
}

/// What the segments of the status bar are made from.
pub struct SegmentCtx<'a> {
    pub repo: Option<&'a str>,
    pub branch: Option<&'a str>,
    pub model_effort: Option<&'a ModelEffort>,
    pub cwd: Option<&'a str>,
}

/// What the segments of the status bar are made from: what is known of the
/// focused agent.
pub fn segment_context<T>(agents: &Vec<RuntimeAgent<T>>, focused: usize) -> (r: SegmentCtx<'_>)
    ensures
        focused < agents@.len() ==> {
            let agent = agents@[focused as int];
            &&& text_of(r.repo) == string_text(agent.repo)
            &&& text_of(r.branch) == string_text(agent.branch)
            &&& text_of(r.cwd) == string_text(agent.cwd)
            &&& match (r.model_effort, agent.model_effort) {
                (Some(a), Some(b)) => *a == b,
                (None, None) => true,
                _ => false,
            }
        },
        focused >= agents@.len() ==> r.repo is None && r.branch is None && r.cwd is None
            && r.model_effort is None,
{
    if focused < agents.len() {
        let agent = &agents[focused];
        SegmentCtx {
            repo: crate::label::borrowed(&agent.repo),
            branch: crate::label::borrowed(&agent.branch),
            model_effort: match &agent.model_effort {
                Some(m) => Some(m),
                None => None,
            },
            cwd: crate::label::borrowed(&agent.cwd),
        }
    } else {
        SegmentCtx { repo: None, branch: None, model_effort: None, cwd: None }
    }
}

/// How many cells of a status bar of `width` cells the segments may take: three
/// fifths.
pub open spec fn segments_share(width: u16) -> int {
    least(width * 3, u16::MAX as int) / 5
}

/// How many cells of a status bar of `width` cells the segments may take.
pub fn segments_budget(width: u16) -> (r: u16)
    ensures
        r == segments_share(width),
{
    let tripled: u32 = width as u32 * 3;
    if tripled < u16::MAX as u32 {
        (tripled / 5) as u16
    } else {
        u16::MAX / 5
    }
}

/// The parts of the status bar: the tabs, and the segments where there are any
/// and a cell is left beside them.
pub open spec fn status_parts(area: Rect, segments_width: u16) -> (Rect, Option<Rect>) {
    if segments_width > 0 && area.width > segments_width {
        let (left, right) = growing_then_fixed(Direction::Horizontal, 1, segments_width, area);
        (left, Some(right))
    } else {
        (area, None)
    }
}

/// The tabs of the agents.
pub open spec fn tab_views<T>(
    agents: Seq<AgentModel<T>>,
    focused: usize,
    phase: AnimationPhase,
    chrome: ChromeStyle,
) -> Seq<Seq<SpanView>> {
    Seq::new(agents.len(), |i: int| tab_view(agents[i], i, i == focused, phase, chrome))
}

/// The column at which tab `i` begins: three cells after the one before ends.
pub open spec fn tab_start(tabs: Seq<Seq<SpanView>>, x: u16, i: nat) -> int
    decreases i,
{
    if i == 0 {
        x as int
    } else {
        capped(capped(tab_start(tabs, x, (i - 1) as nat) + spans_width(tabs[i - 1])) + 3)
    }
}

/// The cells of tab `i` that are drawn in the area `left`.
pub open spec fn tab_rect(tabs: Seq<Seq<SpanView>>, left: Rect, i: nat) -> Rect {
    let x = tab_start(tabs, left.x, i);
    Rect {
        x: x as u16,
        y: left.y,
        width: least(spans_width(tabs[i as int]), monus(left.x + left.width, x)) as u16,
        height: 1,
    }
}

/// The clickable regions of the first `n` tabs: those of their cells that are
/// drawn.
pub open spec fn tab_hits<T>(
    tabs: Seq<Seq<SpanView>>,
    agents: Seq<RuntimeAgent<T>>,
    left: Rect,
    n: nat,
) -> Seq<Hitbox>
    decreases n,
{
    if n == 0 {
        Seq::empty()
    } else {
        recorded(
            tab_hits(tabs, agents, left, (n - 1) as nat),
            tab_rect(tabs, left, (n - 1) as nat),
            agents[n - 1].id,
        )
    }
}

/// The text of the first `n` tabs, with separators between them.
pub open spec fn strip_spans(tabs: Seq<Seq<SpanView>>, secondary: Style, n: nat) -> Seq<SpanView>
    decreases n,
{
    if n == 0 {
        Seq::empty()
    } else if n == 1 {
        tabs[0]
    } else {
        strip_spans(tabs, secondary, (n - 1) as nat).push(
            SpanView { content: " │ "@, style: secondary },
        ) + tabs[n - 1]
    }
}

/// The status bar: the tabs on the left, the segments on the right.
pub open spec fn status_paint<T>(
    area: Rect,
    agents: Seq<AgentModel<T>>,
    focused: usize,
    phase: AnimationPhase,
    chrome: ChromeStyle,
    segments: Seq<SpanView>,
    segments_width: u16,
) -> Seq<PaintView> {
    let (left, right) = status_parts(area, segments_width);
    let tabs = tab_views(agents, focused, phase, chrome);
    seq![
        plain_text(
            left,
            seq![
                LineView {
                    spans: strip_spans(tabs, chrome.secondary, tabs.len()),
                    style: Style::plain(),
                },
            ],
        ),
    ] + match right {
        Some(area) => seq![
            PaintView::Text {
                area,
                lines: seq![LineView { spans: segments, style: Style::plain() }],
                style: Style::plain(),
                align: Align::Right,
                border: None,
            },
        ],
        None => Seq::empty(),
    }
}

fn copy_spans(out: &mut Vec<Span>, spans: &Vec<Span>)
    ensures
        span_views(final(out)@) == span_views(old(out)@) + span_views(spans@),
{
    let ghost before = span_views(out@);
    let ghost wanted = span_views(spans@);
    assert(before + wanted.take(0) =~= before);
    for i in 0..spans.len()
        invariant
            wanted == span_views(spans@),
            span_views(out@) == before + wanted.take(i as int),
    {
        let ghost old_out = out@;
        out.push(spans[i].clone());
        assert(span_views(out@) =~= span_views(old_out).push(spans@[i as int]@));
        assert(span_views(out@) =~= before + wanted.take(i + 1));
    }
    assert(wanted.take(wanted.len() as int) =~= wanted);
}

/// Draws the status bar, and records the tabs.
pub fn render_status_bar<T>(
    out: &mut Vec<Paint>,
    area: Rect,
    agents: &Vec<RuntimeAgent<T>>,
    focused: usize,
    phase: AnimationPhase,
    chrome: &ChromeStyle,
    hitboxes: &mut TabHitboxes,
    segments: &Segments,
)
    requires
        area.fits(),
    ensures
        paint_views(final(out)@) == paint_views(old(out)@) + status_paint(
            area,
            models(agents@),
            focused,
            phase,
            *chrome,
            span_views(segments.spans@),
            segments.width,
        ),
        final(hitboxes).rects@ == old(hitboxes).rects@ + tab_hits(
            tab_views(models(agents@), focused, phase, *chrome),
            agents@,
            status_parts(area, segments.width).0,
            agents@.len(),
        ),
{
    let ghost before = paint_views(out@);
    let ghost hits_before = hitboxes.rects@;
    let (left_area, right_area) = if segments.width > 0 && area.width > segments.width {
        let (left, right) = split_growing_then_fixed(
            Direction::Horizontal,
            1,
            segments.width,
            area,
        );
        (left, Some(right))
    } else {
        (area, None)
    };
    proof {
        crate::layout::splits_tile_the_area(Direction::Horizontal, 1, segments.width, area);
    }
    let ghost views = tab_views(models(agents@), focused, phase, *chrome);
    let tabs = build_tab_strip(agents, focused, phase, chrome);
    let area_right: u16 = left_area.x + left_area.width;
    let mut spans: Vec<Span> = Vec::new();
    let mut x: u16 = left_area.x;
    assert(hits_before + tab_hits(views, agents@, left_area, 0) =~= hits_before);
    assert(span_views(spans@) =~= strip_spans(views, chrome.secondary, 0));
    for i in 0..tabs.len()
        invariant
            left_area.fits(),
            area_right == left_area.x + left_area.width,
            views == tab_views(models(agents@), focused, phase, *chrome),
            tabs@.len() == agents@.len(),
            views.len() == agents@.len(),
            forall|j: int|
                0 <= j < tabs@.len() ==> (#[trigger] tabs@[j]).agent_id == agents@[j].id
                    && span_views(tabs@[j].spans@) == views[j],
            i == 0 ==> x == left_area.x,
            i > 0 ==> x == capped(
                tab_start(views, left_area.x, (i - 1) as nat) + spans_width(views[i - 1]),
            ),
            span_views(spans@) == strip_spans(views, chrome.secondary, i as nat),
            hitboxes.rects@ == hits_before + tab_hits(views, agents@, left_area, i as nat),
    {
        let tab = &tabs[i];
        if i > 0 {
            let ghost old_spans = spans@;
            spans.push(Span::styled(" │ ".to_owned(), chrome.secondary));
            assert(span_views(spans@) =~= span_views(old_spans).push(
                SpanView { content: " │ "@, style: chrome.secondary },
            ));
            x = x.saturating_add(3);
        }
        assert(x == tab_start(views, left_area.x, i as nat));
        let tab_w: u16 = tab.width();
        let avail: u16 = area_right.saturating_sub(x);
        let clipped: u16 = if tab_w < avail {
            tab_w
        } else {
            avail
        };
        let rect = Rect { x, y: left_area.y, width: clipped, height: 1 };
        assert(rect == tab_rect(views, left_area, i as nat));
        hitboxes.record(rect, tab.agent_id.clone());
        assert(hitboxes.rects@ =~= hits_before + tab_hits(
            views,
            agents@,
            left_area,
            (i + 1) as nat,
        ));
        copy_spans(&mut spans, &tab.spans);
        assert(span_views(spans@) =~= strip_spans(views, chrome.secondary, (i + 1) as nat));
        x = x.saturating_add(tab_w);
    }
    let mut lines: Vec<TextLine> = Vec::new();
    lines.push(TextLine::of_spans(spans));
    assert(line_views(lines@) =~= seq![
        LineView {
            spans: strip_spans(views, chrome.secondary, views.len()),
            style: Style::plain(),
        },
    ]);
    paint(
        out,
        Paint::Text {
            area: left_area,
            lines,
            style: Style::none(),
            align: Align::Left,
            border: None,
        },
    );
    if let Some(right) = right_area {
        let mut copied: Vec<Span> = Vec::new();
        copy_spans(&mut copied, &segments.spans);
        assert(span_views(copied@) =~= span_views(segments.spans@));
        let mut lines: Vec<TextLine> = Vec::new();
        lines.push(TextLine::of_spans(copied));
        assert(line_views(lines@) =~= seq![
            LineView { spans: span_views(segments.spans@), style: Style::plain() },
        ]);
        paint(
            out,
            Paint::Text {
                area: right,
                lines,
                style: Style::none(),
                align: Align::Right,
                border: None,
            },
        );
    }
    assert(paint_views(out@) =~= before + status_paint(
        area,
        models(agents@),
        focused,
        phase,
        *chrome,
        span_views(segments.spans@),
        segments.width,
    ));
}

/// The agent switcher: the list of agents in the middle of `area`, over everything.
pub open spec fn switcher_paint<T>(
    area: Rect,
    agents: Seq<AgentModel<T>>,
    selection: usize,
    phase: AnimationPhase,
    chrome: ChromeStyle,
) -> Seq<PaintView> {
    let popup = centered_share(50, 60, area);
    seq![
        PaintView::Clear { area: popup },
        titled_text(popup, agent_list(agents, selection, phase, chrome), " switch agent "@),
    ]
}

/// Draws the agent switcher.
pub fn render_switcher_popup<T>(
    out: &mut Vec<Paint>,
    area: Rect,
    agents: &Vec<RuntimeAgent<T>>,
    selection: usize,
    phase: AnimationPhase,
    chrome: &ChromeStyle,
)
    requires
        area.fits(),
    ensures
        paint_views(final(out)@) == paint_views(old(out)@) + switcher_paint(
            area,
            models(agents@),
            selection,
            phase,
            *chrome,
        ),
{
    let popup_area = centered_rect(50, 60, area);
    paint(out, Paint::Clear { area: popup_area });
    let lines = agent_lines(agents, selection, phase, chrome);
    paint(
        out,
        Paint::Text {
            area: popup_area,
            lines,
            style: Style::none(),
            align: Align::Left,
            border: Some(" switch agent ".to_owned()),
        },
    );
    assert(paint_views(out@) =~= paint_views(old(out)@) + switcher_paint(
        area,
        models(agents@),
        selection,
        phase,
        *chrome,
    ));
}

/// The two parts of the popup style: the pane, and the status bar below it.
pub open spec fn popup_parts(area: Rect) -> (Rect, Rect) {
    growing_then_fixed(Direction::Vertical, 1, STATUS_BAR_HEIGHT, area)
}

/// The popup style: the focused agent, the status bar below it, and the switcher
/// over both while it is open.
pub open spec fn popup_style_paint<T>(
    area: Rect,
    agents: Seq<AgentModel<T>>,
    focused: usize,
    popup: PopupState,
    dismiss_label: Seq<char>,
    phase: AnimationPhase,
    chrome: ChromeStyle,
    selection: Option<Selection>,
    hover: Option<HoverUrl>,
    segments: Seq<SpanView>,
    segments_width: u16,
) -> Seq<PaintView> {
    let (pty_area, status_area) = popup_parts(area);
    let pane = if focused < agents.len() {
        pane_paint(pty_area, agents[focused as int], dismiss_label, selection, hover)
    } else {
        Seq::empty()
    };
    let switcher = match popup {
        PopupState::Open { selection } => switcher_paint(area, agents, selection, phase, chrome),
        PopupState::Closed => Seq::empty(),
    };
    pane + status_paint(status_area, agents, focused, phase, chrome, segments, segments_width)
        + switcher
}

/// The clickable regions of the status bar in the popup style.
pub open spec fn popup_style_hits<T>(
    area: Rect,
    agents: Seq<RuntimeAgent<T>>,
    focused: usize,
    phase: AnimationPhase,
    chrome: ChromeStyle,
    segments_width: u16,
) -> Seq<Hitbox> {
    tab_hits(
        tab_views(models(agents), focused, phase, chrome),
        agents,
        status_parts(popup_parts(area).1, segments_width).0,
        agents.len(),
    )
}

/// Draws the popup style, and records the tabs and the pane.
pub fn render_popup_style<T>(
    out: &mut Vec<Paint>,
    area: Rect,
    agents: &Vec<RuntimeAgent<T>>,
    focused: usize,
    popup: PopupState,
    dismiss_label: &str,
    phase: AnimationPhase,
    chrome: &ChromeStyle,
    hitboxes: &mut TabHitboxes,
    pane_hitbox: &mut PaneHitbox,
    overlay: &PaneOverlay<'_>,
    segments: &Segments,
)
    requires
        area.fits(),
    ensures
        paint_views(final(out)@) == paint_views(old(out)@) + popup_style_paint(
            area,
            models(agents@),
            focused,
            popup,
            dismiss_label@,
            phase,
            *chrome,
            selection_of(overlay.selection),
            hover_of(overlay.hover),
            span_views(segments.spans@),
            segments.width,
        ),
        final(hitboxes).rects@ == old(hitboxes).rects@ + popup_style_hits(
            area,
            agents@,
            focused,
            phase,
            *chrome,
            segments.width,
        ),
        *final(pane_hitbox) == focused_pane_recorded(
            *old(pane_hitbox),
            popup_parts(area).0,
            agents@,
            focused,
        ),
{
    let (pty_area, status_area) = split_growing_then_fixed(
        Direction::Vertical,
        1,
        STATUS_BAR_HEIGHT,
        area,
    );
    proof {
        crate::layout::splits_tile_the_area(Direction::Vertical, 1, STATUS_BAR_HEIGHT, area);
    }
    let ghost before = paint_views(out@);
    if focused < agents.len() {
        assert(models(agents@)[focused as int] == agents@[focused as int]@);
        render_agent_pane(
            out,
            pty_area,
            &agents[focused],
            dismiss_label,
            pane_hitbox,
            overlay,
        );
    }
    render_status_bar(out, status_area, agents, focused, phase, chrome, hitboxes, segments);
    if let PopupState::Open { selection } = popup {
        render_switcher_popup(out, area, agents, selection, phase, chrome);
    }
    assert(paint_views(out@) =~= before + popup_style_paint(
        area,
        models(agents@),
        focused,
        popup,
        dismiss_label@,
        phase,
        *chrome,
        selection_of(overlay.selection),
        hover_of(overlay.hover),
        span_views(segments.spans@),
        segments.width,
    ));
}

/// The log: its latest line, if anything was logged.
pub struct LogTail {
    pub latest: Option<String>,
}

/// The text of the log strip: the latest line, or a dash.
pub open spec fn log_text(tail: LogTail) -> Seq<char> {
    match tail.latest {
        Some(line) => line@,
        None => "—"@,
    }
}

/// The log strip.
pub open spec fn log_paint(area: Rect, tail: LogTail, chrome: ChromeStyle) -> Seq<PaintView> {
    seq![
        PaintView::Clear { area },
        one_line(area, log_text(tail), chrome.secondary, Align::Left),
    ]
}

/// Draws the log strip.
pub fn render_log_strip(out: &mut Vec<Paint>, area: Rect, tail: &LogTail, chrome: &ChromeStyle)
    ensures
        paint_views(final(out)@) == paint_views(old(out)@) + log_paint(area, *tail, *chrome),
{
    let line = match &tail.latest {
        Some(line) => line.clone(),
        None => "—".to_owned(),
    };
    paint_badge(out, area, line, chrome.secondary, Align::Left);
}

/// The parts of a frame: what the agents get, and the log strip where there is one.
pub open spec fn frame_parts(area: Rect, with_log: bool) -> (Rect, Option<Rect>) {
    if with_log {
        let (main, log) = growing_then_fixed(Direction::Vertical, 0, LOG_STRIP_HEIGHT, area);
        (main, Some(log))
    } else {
        (area, None)
    }
}

/// What a frame shows besides the agents: the parts that open over them.
pub struct FrameState<'a> {
    pub nav_style: NavStyle,
    pub popup: PopupState,
    pub help: HelpState,
    /// Whether the spawn dialog is open.
    pub spawn_open: bool,
    pub bindings: &'a Bindings,
    pub log_tail: Option<&'a LogTail>,
    pub phase: AnimationPhase,
    pub chrome: &'a ChromeStyle,
    pub overlay: PaneOverlay<'a>,
    pub segments: &'a Segments,
}

/// The agents in the chosen style.
#[verifier::opaque]
pub open spec fn body_paint<T>(
    main_area: Rect,
    agents: Seq<AgentModel<T>>,
    focused: usize,
    state: FrameState<'_>,
) -> Seq<PaintView> {
    let dismiss_label = dismiss_text(state.bindings.on_prefix.bindings@);
    let selection = selection_of(state.overlay.selection);
    let hover = hover_of(state.overlay.hover);
    match state.nav_style {
        NavStyle::LeftPane => {
            let (nav_area, pty_area) = fixed_then_growing(
                Direction::Horizontal,
                NAV_PANE_WIDTH,
                1,
                main_area,
            );
            left_pane_paint(
                nav_area,
                pty_area,
                agents,
                focused,
                dismiss_label,
                state.phase,
                *state.chrome,
                selection,
                hover,
            )
        },
        NavStyle::Popup => popup_style_paint(
            main_area,
            agents,
            focused,
            state.popup,
            dismiss_label,
            state.phase,
            *state.chrome,
            selection,
            hover,
            span_views(state.segments.spans@),
            state.segments.width,
        ),
    }
}

/// What is drawn over the agents: the log strip, the spawn dialog and the help
/// screen, each over what comes before it.
#[verifier::opaque]
pub open spec fn overlays_paint(area: Rect, log_area: Option<Rect>, state: FrameState<'_>) -> Seq<
    PaintView,
> {
    let log = match (state.log_tail, log_area) {
        (Some(tail), Some(strip)) => log_paint(strip, *tail, *state.chrome),
        _ => Seq::empty(),
    };
    let dialog = if state.spawn_open {
        seq![PaintView::Dialog { area }]
    } else {
        Seq::empty()
    };
    let help = match state.help {
        HelpState::Open => help_paint(area, *state.bindings),
        HelpState::Closed => Seq::empty(),
    };
    log + dialog + help
}

/// A frame: the agents in the chosen style, and what is drawn over them.
pub open spec fn frame_paint<T>(
    area: Rect,
    agents: Seq<AgentModel<T>>,
    focused: usize,
    state: FrameState<'_>,
) -> Seq<PaintView> {
    let (main_area, log_area) = frame_parts(area, state.log_tail is Some);
    body_paint(main_area, agents, focused, state) + overlays_paint(area, log_area, state)
}

/// The clickable regions of the agents in the chosen style.
#[verifier::opaque]
pub open spec fn body_hits<T>(
    main_area: Rect,
    agents: Seq<RuntimeAgent<T>>,
    focused: usize,
    state: FrameState<'_>,
) -> Seq<Hitbox> {
    match state.nav_style {
        NavStyle::LeftPane => nav_rows(
            fixed_then_growing(Direction::Horizontal, NAV_PANE_WIDTH, 1, main_area).0,
            agents,
        ),
        NavStyle::Popup => popup_style_hits(
            main_area,
            agents,
            focused,
            state.phase,
            *state.chrome,
            state.segments.width,
        ),
    }
}

/// The clickable regions of a frame.
pub open spec fn frame_hits<T>(
    area: Rect,
    agents: Seq<RuntimeAgent<T>>,
    focused: usize,
    state: FrameState<'_>,
) -> Seq<Hitbox> {
    body_hits(frame_parts(area, state.log_tail is Some).0, agents, focused, state)
}

/// Where the chosen style draws the pane.
pub open spec fn body_pane_area(main_area: Rect, style: NavStyle) -> Rect {
    match style {
        NavStyle::LeftPane => fixed_then_growing(
            Direction::Horizontal,
            NAV_PANE_WIDTH,
            1,
            main_area,
        ).1,
        NavStyle::Popup => popup_parts(main_area).0,
    }
}

/// Where the pane of a frame is.
pub open spec fn frame_pane_area(area: Rect, state: FrameState<'_>) -> Rect {
    body_pane_area(frame_parts(area, state.log_tail is Some).0, state.nav_style)
}

fn render_body<T>(
    out: &mut Vec<Paint>,
    main_area: Rect,
    agents: &Vec<RuntimeAgent<T>>,
    focused: usize,
    state: &FrameState<'_>,
    hitboxes: &mut TabHitboxes,
    pane_hitbox: &mut PaneHitbox,
)
    requires
        main_area.fits(),
    ensures
        paint_views(final(out)@) == paint_views(old(out)@) + body_paint(
            main_area,
            models(agents@),
            focused,
            *state,
        ),
        final(hitboxes).rects@ == old(hitboxes).rects@ + body_hits(
            main_area,
            agents@,
            focused,
            *state,
        ),
        *final(pane_hitbox) == focused_pane_recorded(
            *old(pane_hitbox),
            body_pane_area(main_area, state.nav_style),
            agents@,
            focused,
        ),
{
    reveal(body_paint);
    reveal(body_hits);
    let dismiss_label = state.bindings.dismiss_label();
    match state.nav_style {
        NavStyle::LeftPane => {
            render_left_pane(
                out,
                main_area,
                agents,
                focused,
                dismiss_label.as_str(),
                state.phase,
                state.chrome,
                hitboxes,
                pane_hitbox,
                &state.overlay,
            );
        },
        NavStyle::Popup => {
            render_popup_style(
                out,
                main_area,
                agents,
                focused,
                state.popup,
                dismiss_label.as_str(),
                state.phase,
                state.chrome,
                hitboxes,
                pane_hitbox,
                &state.overlay,
                state.segments,
            );
        },
    }
}

/// Draws a frame, and records what can be clicked in it in place of what could be
/// in the one before.
pub fn render_frame<T>(
    out: &mut Vec<Paint>,
    area: Rect,
    agents: &Vec<RuntimeAgent<T>>,
    focused: usize,
    state: &FrameState<'_>,
    hitboxes: &mut TabHitboxes,
    pane_hitbox: &mut PaneHitbox,
)
    requires
        area.fits(),
    ensures
        paint_views(final(out)@) == paint_views(old(out)@) + frame_paint(
            area,
            models(agents@),
            focused,
            *state,
        ),
        final(hitboxes).rects@ == frame_hits(area, agents@, focused, *state),
        *final(pane_hitbox) == focused_pane_recorded(
            PaneHitbox { rect: None, agent_id: None },
            frame_pane_area(area, *state),
            agents@,
            focused,
        ),
{
    hitboxes.clear();
    pane_hitbox.clear();
    let ghost before = paint_views(out@);
    let (main_area, log_area) = if state.log_tail.is_some() {
        let (main, log) = split_growing_then_fixed(
            Direction::Vertical,
            0,
            LOG_STRIP_HEIGHT,
            area,
        );
        (main, Some(log))
    } else {
        (area, None)
    };
    proof {
        crate::layout::splits_tile_the_area(Direction::Vertical, 0, LOG_STRIP_HEIGHT, area);
    }
    render_body(out, main_area, agents, focused, state, hitboxes, pane_hitbox);
    assert(hitboxes.rects@ =~= frame_hits(area, agents@, focused, *state));
    render_overlays(out, area, log_area, state);
    assert(paint_views(out@) =~= before + frame_paint(area, models(agents@), focused, *state));
}

fn render_overlays(
    out: &mut Vec<Paint>,
    area: Rect,
    log_area: Option<Rect>,
    state: &FrameState<'_>,
)
    requires
        area.fits(),
    ensures
        paint_views(final(out)@) == paint_views(old(out)@) + overlays_paint(
            area,
            log_area,
            *state,
        ),
{
    reveal(overlays_paint);
    let ghost before = paint_views(out@);
    if let (Some(tail), Some(strip)) = (state.log_tail, log_area) {
        render_log_strip(out, strip, tail, state.chrome);
    }
    if state.spawn_open {
        paint(out, Paint::Dialog { area });
    }
    if state.help == HelpState::Open {
        render_help(out, area, state.bindings);
    }
    assert(paint_views(out@) =~= before + overlays_paint(area, log_area, *state));
}

} // verus!
