//! Mouse gestures: where the clickable things are, and what a mouse event over
//! them asks for.

use vstd::prelude::*;

use crate::agent::{AgentId, AgentModel, RuntimeAgent};
use crate::geometry::{CellPos, Rect};
use crate::nav::{is_first, models, position, position_of};

verus! {

/// A mouse button.
#[derive(Clone, Copy, Debug, PartialEq, Eq, Structural)]
pub enum MouseButton {
    Left,
    Right,
    Middle,
}

/// What the mouse did.
#[derive(Clone, Copy, Debug, PartialEq, Eq, Structural)]
pub enum MouseEventKind {
    Down(MouseButton),
    Up(MouseButton),
    Drag(MouseButton),
    Moved,
    ScrollDown,
    ScrollUp,
    ScrollLeft,
    ScrollRight,
}

/// A clickable region, and the agent it stands for.
#[derive(Debug)]
pub struct Hitbox {
    pub rect: Rect,
    pub agent_id: AgentId,
}

/// The tabs, or navigator rows, of the frame last drawn.
#[derive(Debug)]
pub struct TabHitboxes {
    pub rects: Vec<Hitbox>,
}

/// The agent whose region is the first to cover the screen cell.
pub open spec fn first_hit(rects: Seq<Hitbox>, col: u16, row: u16) -> Option<AgentId>
    decreases rects.len(),
{
    if rects.len() == 0 {
        None
    } else if rects[0].rect.covers(col as int, row as int) {
        Some(rects[0].agent_id)
    } else {
        first_hit(rects.skip(1), col, row)
    }
}

impl Default for TabHitboxes {
    fn default() -> (r: TabHitboxes)
        ensures
            r.rects@ == Seq::<Hitbox>::empty(),
    {
        TabHitboxes { rects: Vec::new() }
    }
}

impl TabHitboxes {
    /// Forgets every region.
    pub fn clear(&mut self)
        ensures
            final(self).rects@ == Seq::<Hitbox>::empty(),
    {
        self.rects.clear();
    }

    /// Records a region for an agent, unless it has no cells.
    pub fn record(&mut self, rect: Rect, agent_id: AgentId)
        ensures
            final(self).rects@ == recorded(old(self).rects@, rect, agent_id),
    {
        if rect.width == 0 || rect.height == 0 {
            return ;
        }
        self.rects.push(Hitbox { rect, agent_id });
    }

    /// The agent whose region covers the screen cell, if any does.
    pub fn at(&self, col: u16, row: u16) -> (r: Option<AgentId>)
        ensures
            r == first_hit(self.rects@, col, row),
    {
        assert(self.rects@.skip(0) =~= self.rects@);
        for i in 0..self.rects.len()
            invariant
                first_hit(self.rects@.skip(i as int), col, row) == first_hit(
                    self.rects@,
                    col,
                    row,
                ),
        {
            let ghost rest = self.rects@.skip(i as int);
            assert(rest[0] == self.rects@[i as int]);
            assert(rest.skip(1) =~= self.rects@.skip(i + 1));
            if self.rects[i].rect.contains(col, row) {
                return Some(self.rects[i].agent_id.clone());
            }
        }
        None
    }
}

/// The regions with one more, unless that has no cells.
pub open spec fn recorded(rects: Seq<Hitbox>, rect: Rect, agent_id: AgentId) -> Seq<Hitbox> {
    if rect.empty() {
        rects
    } else {
        rects.push(Hitbox { rect, agent_id })
    }
}

/// The agent pane of the frame last drawn, if there was one.
#[derive(Debug)]
pub struct PaneHitbox {
    pub rect: Option<Rect>,
    pub agent_id: Option<AgentId>,
}

impl Default for PaneHitbox {
    fn default() -> (r: PaneHitbox)
        ensures
            r == PaneHitbox::nothing(),
    {
        PaneHitbox { rect: None, agent_id: None }
    }
}

impl PaneHitbox {
    /// No pane.
    pub open spec fn nothing() -> PaneHitbox {
        PaneHitbox { rect: None, agent_id: None }
    }

    /// Whether a recorded pane has cells, all of them on the screen.
    pub open spec fn valid(self) -> bool {
        match self.rect {
            Some(rect) => !rect.empty() && rect.fits(),
            None => true,
        }
    }

    /// The agent and the pane cell under a screen cell, if the pane covers it.
    pub open spec fn hit(self, col: u16, row: u16) -> Option<(AgentId, CellPos)> {
        match (self.rect, self.agent_id) {
            (Some(rect), Some(id)) => if rect.covers(col as int, row as int) {
                Some(
                    (
                        id,
                        CellPos { row: (row - rect.y) as u16, col: (col - rect.x) as u16 },
                    ),
                )
            } else {
                None
            },
            _ => None,
        }
    }

    /// The pane cell nearest to a screen cell, if there is a pane.
    pub open spec fn nearest(self, col: u16, row: u16) -> Option<CellPos> {
        match self.rect {
            Some(rect) => Some(
                CellPos {
                    row: between(row - rect.y, rect.height - 1) as u16,
                    col: between(col - rect.x, rect.width - 1) as u16,
                },
            ),
            None => None,
        }
    }

    /// Forgets the pane.
    pub fn clear(&mut self)
        ensures
            *final(self) == PaneHitbox::nothing(),
    {
        self.rect = None;
        self.agent_id = None;
    }

    /// Records the pane of an agent, unless it has no cells.
    pub fn record(&mut self, rect: Rect, agent_id: AgentId)
        ensures
            *final(self) == if rect.empty() {
                *old(self)
            } else {
                PaneHitbox { rect: Some(rect), agent_id: Some(agent_id) }
            },
    {
        if rect.width == 0 || rect.height == 0 {
            return ;
        }
        self.rect = Some(rect);
        self.agent_id = Some(agent_id);
    }

    /// Where the pane is, if there is one.
    pub fn rect(&self) -> (r: Option<Rect>)
        ensures
            r == self.rect,
    {
        self.rect
    }

    /// The agent and the pane cell under a screen cell, if the pane covers it.
    pub fn cell_at(&self, col: u16, row: u16) -> (r: Option<(AgentId, CellPos)>)
        ensures
            r == self.hit(col, row),
    {
        let rect = match self.rect {
            Some(rect) => rect,
            None => return None,
        };
        let id = match &self.agent_id {
            Some(id) => id.clone(),
            None => return None,
        };
        if !rect.contains(col, row) {
            return None;
        }
        Some((id, CellPos { row: row - rect.y, col: col - rect.x }))
    }

    /// The pane cell nearest to a screen cell, for drags that leave the pane.
    pub fn clamped_cell_at(&self, col: u16, row: u16) -> (r: Option<CellPos>)
        requires
            self.valid(),
        ensures
            r == self.nearest(col, row),
    {
        let rect = match self.rect {
            Some(rect) => rect,
            None => return None,
        };
        let last_col: u16 = rect.x + rect.width - 1;
        let last_row: u16 = rect.y + rect.height - 1;
        let c: u16 = if col < rect.x {
            rect.x
        } else if col > last_col {
            last_col
        } else {
            col
        };
        let r: u16 = if row < rect.y {
            rect.y
        } else if row > last_row {
            last_row
        } else {
            row
        };
        Some(CellPos { row: r - rect.y, col: c - rect.x })
    }
}

/// The number from zero to `last` nearest to `n`.
pub open spec fn between(n: int, last: int) -> int {
    if n < 0 {
        0
    } else if n > last {
        last
    } else {
        n
    }
}

/// A drag over the pane of an agent, from where it began to where it is.
#[derive(Debug, PartialEq, Eq)]
pub struct Selection {
    pub agent: AgentId,
    pub anchor: CellPos,
    pub head: CellPos,
}

impl Clone for Selection {
    fn clone(&self) -> (r: Selection)
        ensures
            r == *self,
    {
        Selection { agent: self.agent.clone(), anchor: self.anchor, head: self.head }
    }
}

/// Columns from `start` up to, but not including, `end`.
#[derive(Clone, Copy, Debug, PartialEq, Eq, Structural)]
pub struct ColRange {
    pub start: u16,
    pub end: u16,
}

/// A link found on one row of a screen.
#[derive(Debug, PartialEq, Eq)]
pub struct UrlSpan {
    pub row: u16,
    pub cols: ColRange,
    pub url: String,
}

/// The link under the mouse, in the pane of an agent.
#[derive(Debug, PartialEq, Eq)]
pub struct HoverUrl {
    pub agent: AgentId,
    pub row: u16,
    pub cols: ColRange,
    pub url: String,
}

impl Clone for HoverUrl {
    fn clone(&self) -> (r: HoverUrl)
        ensures
            r == *self,
    {
        HoverUrl {
            agent: self.agent.clone(),
            row: self.row,
            cols: self.cols,
            url: self.url.clone(),
        }
    }
}

/// What a mouse event over the tabs asks for.
#[derive(Debug, PartialEq, Eq)]
pub enum TabMouseDispatch {
    /// A tab was grabbed.
    PressTab(AgentId),
    /// The grabbed tab was let go where it was: focus it.
    Click(AgentId),
    /// The grabbed tab was let go over another: move it there.
    Reorder { from: AgentId, to: AgentId },
    /// The grabbed tab was let go elsewhere: nothing happens.
    Cancel,
}

/// What a mouse event over the tabs asks for, `press` being the tab grabbed.
pub open spec fn tab_dispatched(
    kind: MouseEventKind,
    hit: Option<AgentId>,
    press: Option<AgentId>,
) -> Option<TabMouseDispatch> {
    match kind {
        MouseEventKind::Down(MouseButton::Left) => match hit {
            Some(id) => Some(TabMouseDispatch::PressTab(id)),
            None => None,
        },
        MouseEventKind::Up(MouseButton::Left) => match (press, hit) {
            (Some(from), Some(to)) => if from@ == to@ {
                Some(TabMouseDispatch::Click(to))
            } else {
                Some(TabMouseDispatch::Reorder { from, to })
            },
            (Some(_), None) => Some(TabMouseDispatch::Cancel),
            (None, _) => None,
        },
        _ => None,
    }
}

/// What a mouse event asks for over the tabs. `mouse_press` is the tab grabbed
/// by the last press of the left button.
pub fn tab_mouse_dispatch(
    kind: MouseEventKind,
    column: u16,
    row: u16,
    hitboxes: &TabHitboxes,
    mouse_press: Option<&AgentId>,
) -> (r: Option<TabMouseDispatch>)
    ensures
        r == tab_dispatched(
            kind,
            first_hit(hitboxes.rects@, column, row),
            match mouse_press {
                Some(id) => Some(*id),
                None => None,
            },
        ),
{
    match kind {
        MouseEventKind::Down(MouseButton::Left) => match hitboxes.at(column, row) {
            Some(id) => Some(TabMouseDispatch::PressTab(id)),
            None => None,
        },
        MouseEventKind::Up(MouseButton::Left) => match (mouse_press, hitboxes.at(column, row)) {
            (Some(from), Some(to)) => {
                if from.same(&to) {
                    Some(TabMouseDispatch::Click(to))
                } else {
                    Some(TabMouseDispatch::Reorder { from: from.clone(), to })
                }
            },
            (Some(_), None) => Some(TabMouseDispatch::Cancel),
            (None, _) => None,
        },
        _ => None,
    }
}

/// What a mouse event over the agent pane asks for.
#[derive(Debug, PartialEq, Eq)]
pub enum PaneMouseDispatch {
    /// Start a selection at a cell.
    Arm { agent: AgentId, cell: CellPos },
    /// Extend the selection to a cell.
    Extend(CellPos),
    /// Copy what is selected.
    Commit,
}

/// What a mouse event over the agent pane asks for, while a selection is under
/// way or not.
pub open spec fn pane_dispatched(
    kind: MouseEventKind,
    column: u16,
    row: u16,
    pane: PaneHitbox,
    selecting: bool,
) -> Option<PaneMouseDispatch> {
    match kind {
        MouseEventKind::Down(MouseButton::Left) => match pane.hit(column, row) {
            Some((agent, cell)) => Some(PaneMouseDispatch::Arm { agent, cell }),
            None => None,
        },
        MouseEventKind::Drag(MouseButton::Left) => if selecting {
            match pane.nearest(column, row) {
                Some(cell) => Some(PaneMouseDispatch::Extend(cell)),
                None => None,
            }
        } else {
            None
        },
        MouseEventKind::Up(MouseButton::Left) => if selecting {
            Some(PaneMouseDispatch::Commit)
        } else {
            None
        },
        _ => None,
    }
}

/// What a mouse event asks for over the agent pane; nothing when it is not for
/// the pane.
pub fn pane_mouse_dispatch(
    kind: MouseEventKind,
    column: u16,
    row: u16,
    pane_hitbox: &PaneHitbox,
    selection: Option<&Selection>,
) -> (r: Option<PaneMouseDispatch>)
    requires
        pane_hitbox.valid(),
    ensures
        r == pane_dispatched(kind, column, row, *pane_hitbox, selection is Some),
{
    match kind {
        MouseEventKind::Down(MouseButton::Left) => match pane_hitbox.cell_at(column, row) {
            Some((agent, cell)) => Some(PaneMouseDispatch::Arm { agent, cell }),
            None => None,
        },
        MouseEventKind::Drag(MouseButton::Left) => {
            if selection.is_none() {
                return None;
            }
            match pane_hitbox.clamped_cell_at(column, row) {
                Some(cell) => Some(PaneMouseDispatch::Extend(cell)),
                None => None,
            }
        },
        MouseEventKind::Up(MouseButton::Left) => match selection {
            Some(_) => Some(PaneMouseDispatch::Commit),
            None => None,
        },
        _ => None,
    }
}

/// The agent and the pane cell whose screen is under a screen cell: the pane
/// covers it, and its agent is still there and has a screen.
pub open spec fn screen_cell_under<T>(
    pane: PaneHitbox,
    agents: Seq<AgentModel<T>>,
    column: u16,
    row: u16,
) -> Option<(AgentId, CellPos)> {
    match pane.hit(column, row) {
        Some((id, cell)) => match position_of(agents, id@) {
            Some(i) => if agents[i as int].state.screen() is Some {
                Some((id, cell))
            } else {
                None
            },
            None => None,
        },
        None => None,
    }
}

/// The agent and the pane cell to look for a link at, if any.
pub fn hover_cell<T>(
    pane_hitbox: &PaneHitbox,
    agents: &Vec<RuntimeAgent<T>>,
    column: u16,
    row: u16,
) -> (r: Option<(AgentId, CellPos)>)
    ensures
        r == screen_cell_under(*pane_hitbox, models(agents@), column, row),
{
    match pane_hitbox.cell_at(column, row) {
        Some((id, cell)) => match position(agents, &id) {
            Some(i) => {
                assert(models(agents@)[i as int] == agents@[i as int]@);
                if agents[i].state.screen().is_some() {
                    Some((id, cell))
                } else {
                    None
                }
            },
            None => None,
        },
        None => None,
    }
}

/// The link under the mouse: the one that `span` found at the pane cell there.
pub open spec fn hovered<T>(
    pane: PaneHitbox,
    agents: Seq<AgentModel<T>>,
    column: u16,
    row: u16,
    span: Option<UrlSpan>,
) -> Option<HoverUrl> {
    match (screen_cell_under(pane, agents, column, row), span) {
        (Some((agent, cell)), Some(found)) => Some(
            HoverUrl { agent, row: cell.row, cols: found.cols, url: found.url },
        ),
        _ => None,
    }
}

/// The link under the mouse. `span` is the link that was found at the cell
/// [`hover_cell`] names, if there was one.
pub fn compute_hover<T>(
    pane_hitbox: &PaneHitbox,
    agents: &Vec<RuntimeAgent<T>>,
    column: u16,
    row: u16,
    span: Option<UrlSpan>,
) -> (r: Option<HoverUrl>)
    ensures
        r == hovered(*pane_hitbox, models(agents@), column, row, span),
{
    match (hover_cell(pane_hitbox, agents, column, row), span) {
        (Some((agent, cell)), Some(found)) => Some(
            HoverUrl { agent, row: cell.row, cols: found.cols, url: found.url },
        ),
        _ => None,
    }
}

/// Whether a link came under the mouse, left it, or neither.
#[derive(Clone, Copy, Debug, PartialEq, Eq, Structural)]
pub enum HoverTransition {
    Unchanged,
    Activated,
    Deactivated,
}

/// The transition between having a link under the mouse and not.
pub open spec fn hover_transition(before: bool, now: bool) -> HoverTransition {
    if !before && now {
        HoverTransition::Activated
    } else if before && !now {
        HoverTransition::Deactivated
    } else {
        HoverTransition::Unchanged
    }
}

/// Replaces the link under the mouse and answers whether that came or went.
pub fn update_hover(hover: &mut Option<HoverUrl>, new: Option<HoverUrl>) -> (r: HoverTransition)
    ensures
        *final(hover) == new,
        r == hover_transition(*old(hover) is Some, new is Some),
{
    let was_active = hover.is_some();
    let now_active = new.is_some();
    *hover = new;
    match (was_active, now_active) {
        (false, true) => HoverTransition::Activated,
        (true, false) => HoverTransition::Deactivated,
        _ => HoverTransition::Unchanged,
    }
}

/// A hit in the pane is its nearest cell, and the nearest cell of a valid pane
/// always lies in it.
pub proof fn nearest_cell_agrees_with_hits(pane: PaneHitbox, col: u16, row: u16)
    requires
        pane.valid(),
    ensures
        pane.hit(col, row) is Some ==> pane.nearest(col, row) == Some((pane.hit(col, row)->0).1),
        pane.rect is Some ==> pane.nearest(col, row) is Some && pane.nearest(col, row)->0.row
            < pane.rect->0.height && pane.nearest(col, row)->0.col < pane.rect->0.width,
{
}

/// A region that was recorded covers only cells of its own: what has no cells is
/// never hit.
pub proof fn recorded_regions_have_cells(
    rects: Seq<Hitbox>,
    rect: Rect,
    agent_id: AgentId,
)
    requires
        forall|i: int| 0 <= i < rects.len() ==> !(#[trigger] rects[i]).rect.empty(),
    ensures
        forall|i: int|
            0 <= i < recorded(rects, rect, agent_id).len() ==> !(#[trigger] recorded(
                rects,
                rect,
                agent_id,
            )[i]).rect.empty(),
{
}

/// A release over the tabs does something exactly when a tab was grabbed, and a
/// press exactly when there is a tab.
pub proof fn tab_gestures_need_a_grab(hit: Option<AgentId>, press: Option<AgentId>)
    ensures
        tab_dispatched(MouseEventKind::Up(MouseButton::Left), hit, press) is Some
            <==> press is Some,
        tab_dispatched(MouseEventKind::Down(MouseButton::Left), hit, press) is Some
            <==> hit is Some,
{
}

/// A screen cell belongs to the first region that covers it, and to none when none
/// does.
pub proof fn the_first_region_is_hit(rects: Seq<Hitbox>, i: int, col: u16, row: u16)
    ensures
        0 <= i < rects.len() && rects[i].rect.covers(col as int, row as int) && (forall|j: int|
            0 <= j < i ==> !(#[trigger] rects[j]).rect.covers(col as int, row as int))
            ==> first_hit(rects, col, row) == Some(rects[i].agent_id),
        (forall|j: int|
            0 <= j < rects.len() ==> !(#[trigger] rects[j]).rect.covers(col as int, row as int))
            <==> first_hit(rects, col, row) is None,
    decreases rects.len(),
{
    if rects.len() > 0 {
        let rest = rects.skip(1);
        the_first_region_is_hit(rest, i - 1, col, row);
        assert forall|j: int| 0 <= j < rest.len() implies #[trigger] rest[j] == rects[j
            + 1] by {}
        if !rects[0].rect.covers(col as int, row as int) {
            if forall|j: int|
                0 <= j < rest.len() ==> !(#[trigger] rest[j]).rect.covers(
                    col as int,
                    row as int,
                ) {
                assert forall|j: int| 0 <= j < rects.len() implies !(
                #[trigger] rects[j]).rect.covers(col as int, row as int) by {
                    if j > 0 {
                        assert(!rest[j - 1].rect.covers(col as int, row as int));
                    }
                }
            }
            if forall|j: int|
                0 <= j < rects.len() ==> !(#[trigger] rects[j]).rect.covers(
                    col as int,
                    row as int,
                ) {
                assert forall|j: int| 0 <= j < rest.len() implies !(
                #[trigger] rest[j]).rect.covers(col as int, row as int) by {
                    assert(!rects[j + 1].rect.covers(col as int, row as int));
                }
            }
        }
    }
}

/// The pane is hit exactly on its cells, from its top-left corner on, and the cell
/// is counted from that corner. Drags outside it go to the edge they left by.
pub proof fn the_pane_is_hit_on_its_cells(rect: Rect, id: AgentId, col: u16, row: u16)
    requires
        rect.fits(),
        rect.width > 0,
        rect.height > 0,
    ensures
        ({
            let pane = PaneHitbox { rect: Some(rect), agent_id: Some(id) };
            let inside = rect.x <= col && col < rect.x + rect.width && rect.y <= row && row < rect.y
                + rect.height;
            let near = pane.nearest(col, row);
            &&& inside ==> pane.hit(col, row) == Some(
                (id, CellPos { row: (row - rect.y) as u16, col: (col - rect.x) as u16 }),
            )
            &&& !inside ==> pane.hit(col, row) is None
            &&& near is Some
            &&& col < rect.x ==> near->0.col == 0
            &&& rect.x <= col && col < rect.x + rect.width ==> near->0.col == col - rect.x
            &&& col >= rect.x + rect.width ==> near->0.col == rect.width - 1
            &&& row < rect.y ==> near->0.row == 0
            &&& rect.y <= row && row < rect.y + rect.height ==> near->0.row == row - rect.y
            &&& row >= rect.y + rect.height ==> near->0.row == rect.height - 1
        }),
        PaneHitbox::nothing().hit(col, row) is None,
        PaneHitbox::nothing().nearest(col, row) is None,
{
}

/// Over the tabs only the left button does anything: a press grabs the tab there, a
/// release on the same tab clicks it, on another moves it there, and elsewhere lets
/// it go.
pub proof fn tabs_follow_the_left_button(
    kind: MouseEventKind,
    hit: Option<AgentId>,
    press: Option<AgentId>,
)
    ensures
        ({
            let asked = tab_dispatched(kind, hit, press);
            &&& kind == MouseEventKind::Down(MouseButton::Left) && hit is Some ==> asked == Some(
                TabMouseDispatch::PressTab(hit->0),
            )
            &&& kind == MouseEventKind::Down(MouseButton::Left) && hit is None ==> asked is None
            &&& kind == MouseEventKind::Up(MouseButton::Left) ==> {
                &&& press is None ==> asked is None
                &&& press is Some && hit is None ==> asked == Some(TabMouseDispatch::Cancel)
                &&& press is Some && hit is Some && press->0@ == hit->0@ ==> asked == Some(
                    TabMouseDispatch::Click(hit->0),
                )
                &&& press is Some && hit is Some && press->0@ != hit->0@ ==> asked == Some(
                    TabMouseDispatch::Reorder { from: press->0, to: hit->0 },
                )
            }
            &&& kind != MouseEventKind::Down(MouseButton::Left) && kind != MouseEventKind::Up(
                MouseButton::Left,
            ) ==> asked is None
        }),
{
}

/// Over the pane only the left button does anything: a press on a cell starts a
/// selection there, a drag moves its end to the nearest cell, and a release ends it;
/// without a selection drags and releases are not for the pane.
pub proof fn the_pane_follows_the_left_button(
    kind: MouseEventKind,
    column: u16,
    row: u16,
    pane: PaneHitbox,
    selecting: bool,
)
    ensures
        ({
            let asked = pane_dispatched(kind, column, row, pane, selecting);
            &&& kind == MouseEventKind::Down(MouseButton::Left) ==> match pane.hit(column, row) {
                Some((agent, cell)) => asked == Some(PaneMouseDispatch::Arm { agent, cell }),
                None => asked is None,
            }
            &&& kind == MouseEventKind::Drag(MouseButton::Left) && selecting ==> match pane.nearest(
                column,
                row,
            ) {
                Some(cell) => asked == Some(PaneMouseDispatch::Extend(cell)),
                None => asked is None,
            }
            &&& kind == MouseEventKind::Up(MouseButton::Left) && selecting ==> asked == Some(
                PaneMouseDispatch::Commit,
            )
            &&& !selecting && kind != MouseEventKind::Down(MouseButton::Left) ==> asked is None
            &&& kind != MouseEventKind::Down(MouseButton::Left) && kind != MouseEventKind::Drag(
                MouseButton::Left,
            ) && kind != MouseEventKind::Up(MouseButton::Left) ==> asked is None
        }),
{
}

/// A link is under the mouse exactly when one was found, the pane covers the mouse,
/// and the pane's agent is still there with a screen. It is that link, in the row
/// under the mouse and in that agent's pane.
pub proof fn a_link_is_marked_where_it_was_found<T>(
    pane: PaneHitbox,
    agents: Seq<AgentModel<T>>,
    column: u16,
    row: u16,
    span: UrlSpan,
)
    requires
        agents.len() <= usize::MAX,
    ensures
        hovered(pane, agents, column, row, None) is None,
        pane.hit(column, row) is None ==> hovered(pane, agents, column, row, Some(span)) is None,
        pane.hit(column, row) is Some ==> {
            let (id, cell) = pane.hit(column, row)->0;
            let link = hovered(pane, agents, column, row, Some(span));
            &&& (forall|j: int| 0 <= j < agents.len() ==> (#[trigger] agents[j]).id@ != id@)
                ==> link is None
            &&& forall|i: int| #[trigger]
                is_first(agents, id@, i) ==> {
                    &&& agents[i].state is Failed ==> link is None
                    &&& agents[i].state is Ready || agents[i].state is Crashed ==> link == Some(
                        HoverUrl { agent: id, row: cell.row, cols: span.cols, url: span.url },
                    )
                }
        },
{
    if let Some((id, cell)) = pane.hit(column, row) {
        assert forall|i: int| #[trigger] is_first(agents, id@, i) implies position_of(agents, id@)
            == Some(i as usize) by {
            let k = choose|k: int| is_first(agents, id@, k);
            assert(is_first(agents, id@, k));
            if k < i {
                assert(agents[k].id@ != id@);
            } else if i < k {
                assert(agents[i].id@ != id@);
            }
        }
    }
}

/// The mouse cursor changes when a link comes under the mouse and when it leaves,
/// and not while one stays or none is there.
pub proof fn the_cursor_follows_the_link(before: bool, now: bool)
    ensures
        hover_transition(before, now) is Unchanged <==> before == now,
        hover_transition(before, now) is Activated <==> now && !before,
        hover_transition(before, now) is Deactivated <==> before && !now,
{
}

/// A link is looked for in the pane cell under the mouse, counted from the pane's
/// corner, while the pane's agent is still there with a screen, and nowhere else.
pub proof fn links_are_looked_for_under_the_mouse<T>(
    rect: Rect,
    id: AgentId,
    agents: Seq<AgentModel<T>>,
    column: u16,
    row: u16,
    i: int,
)
    requires
        rect.fits(),
        agents.len() <= usize::MAX,
        is_first(agents, id@, i),
    ensures
        ({
            let pane = PaneHitbox { rect: Some(rect), agent_id: Some(id) };
            let inside = rect.x <= column && column < rect.x + rect.width && rect.y <= row && row
                < rect.y + rect.height;
            let under = screen_cell_under(pane, agents, column, row);
            &&& inside && !(agents[i].state is Failed) ==> under == Some(
                (id, CellPos { row: (row - rect.y) as u16, col: (column - rect.x) as u16 }),
            )
            &&& !inside || agents[i].state is Failed ==> under is None
        }),
        screen_cell_under(PaneHitbox::nothing(), agents, column, row) is None,
{
    let k = choose|k: int| is_first(agents, id@, k);
    assert(is_first(agents, id@, k));
    if k < i {
        assert(agents[k].id@ != id@);
    } else if i < k {
        assert(agents[i].id@ != id@);
    }
}

} // verus!
