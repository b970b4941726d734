//! What is done between two events: following the agents, and drawing.

use vstd::prelude::*;

use crate::agent::{AgentId, AgentModel};
use crate::capture::CaptureChange;
use crate::geometry::Rect;
use crate::keymap::Bindings;
use crate::label::{host_terminal_title_for_focused, string_text, AnimationPhase};
use crate::mouse::{
    hover_transition, update_hover, HoverTransition, HoverUrl, PaneHitbox, Selection,
};
use crate::nav::{finished_positions, NavModel, NavState};
use crate::paint::{paint_views, Paint};
use crate::render::{
    focused_pane_recorded, frame_hits, frame_paint, frame_pane_area, render_frame, FrameState,
    LogTail, Segments,
};
use crate::render_pane::PaneOverlay;
use crate::runtime::{no_overlay_active, Runtime, RuntimeModel};
use crate::style::ChromeStyle;

verus! {

/// What is left to be done outside after the agents were followed.
pub struct FrameReport {
    /// Ring the host terminal's bell.
    pub bell: bool,
    /// The last agent is gone: leave the program.
    pub exit: bool,
    /// The change of mouse capture to ask of the terminal.
    pub capture: Option<CaptureChange>,
    /// The change of the mouse cursor.
    pub cursor: HoverTransition,
    /// The title to give to the host terminal.
    pub title: Option<String>,
}

/// What is left to be done outside, its text as a sequence.
pub struct FrameReportView {
    pub bell: bool,
    pub exit: bool,
    pub capture: Option<CaptureChange>,
    pub cursor: HoverTransition,
    pub title: Option<Seq<char>>,
}

impl View for FrameReport {
    type V = FrameReportView;

    open spec fn view(&self) -> FrameReportView {
        FrameReportView {
            bell: self.bell,
            exit: self.exit,
            capture: self.capture,
            cursor: self.cursor,
            title: string_text(self.title),
        }
    }
}

impl<T> NavModel<T> {
    /// Whether the focused agent is another than the one called `id`.
    pub open spec fn focus_left(self, id: AgentId) -> bool {
        match self.focused_agent() {
            Some(agent) => agent.id@ != id@,
            None => true,
        }
    }

    /// Whether the focused agent never came up.
    pub open spec fn focused_is_failed(self) -> bool {
        self.focused_agent() is Some && self.focused_agent()->0.state is Failed
    }

    /// The navigator after the agents were looked at: those that finished since ask
    /// for attention, those whose processes ended are crashed or gone.
    pub open spec fn followed(self, exits: Seq<Option<i32>>) -> NavModel<T> {
        self.with_transitions(
            finished_positions(self.agents),
            self.agents.map_values(|a: AgentModel<T>| a.working()),
        ).reaped(exits)
    }
}

/// The selection, unless its agent is no longer the focused one.
pub open spec fn live_selection<T>(nav: NavModel<T>, selection: Option<Selection>) -> Option<
    Selection,
> {
    match selection {
        Some(sel) => if nav.focus_left(sel.agent) {
            None
        } else {
            Some(sel)
        },
        None => None,
    }
}

/// The link under the mouse, unless its agent is no longer the focused one.
pub open spec fn live_hover<T>(nav: NavModel<T>, hover: Option<HoverUrl>) -> Option<HoverUrl> {
    match hover {
        Some(link) => if nav.focus_left(link.agent) {
            None
        } else {
            Some(link)
        },
        None => None,
    }
}

/// What following the agents does, and what is left to be done outside. `exits`
/// holds, for each agent, the code its process ended with, if it did. The bell
/// rings when an agent has finished; the title is given only when it has changed.
pub open spec fn follow_up<T, M>(
    ui: RuntimeModel<T, M>,
    exits: Seq<Option<i32>>,
    bell_on_finish: bool,
    yield_on_failed: bool,
    phase: AnimationPhase,
) -> (RuntimeModel<T, M>, FrameReportView) {
    let nav = ui.nav.followed(exits);
    let bell = bell_on_finish && finished_positions(ui.nav.agents).len() > 0;
    if nav.agents.len() == 0 {
        (
            RuntimeModel { nav, ..ui },
            FrameReportView {
                bell,
                exit: true,
                capture: None,
                cursor: HoverTransition::Unchanged,
                title: None,
            },
        )
    } else {
        let (mouse_capture, capture) = ui.mouse_capture.with_focused_failed(
            nav.focused_is_failed() && yield_on_failed,
        );
        let hover = live_hover(nav, ui.hover);
        let title = nav.host_title(phase);
        (
            RuntimeModel {
                nav,
                selection: live_selection(nav, ui.selection),
                hover,
                mouse_capture,
                host_title: title,
                ..ui
            },
            FrameReportView {
                bell,
                exit: false,
                capture,
                cursor: hover_transition(ui.hover is Some, hover is Some),
                title: if title == ui.host_title {
                    None
                } else {
                    title
                },
            },
        )
    }
}

impl<T> NavState<T> {
    fn has_left(&self, id: &AgentId) -> (r: bool)
        ensures
            r == self@.focus_left(*id),
    {
        if self.focused < self.agents.len() {
            assert(self@.focused_agent() == Some(self.agents@[self.focused as int]@));
            !self.agents[self.focused].id.same(id)
        } else {
            true
        }
    }

    fn is_focused_failed(&self) -> (r: bool)
        ensures
            r == self@.focused_is_failed(),
    {
        if self.focused < self.agents.len() {
            assert(self@.focused_agent() == Some(self.agents@[self.focused as int]@));
            self.agents[self.focused].state.is_failed()
        } else {
            false
        }
    }
}

fn same_text(a: &Option<String>, b: &Option<String>) -> (r: bool)
    ensures
        r == (string_text(*a) == string_text(*b)),
{
    match (a, b) {
        (Some(x), Some(y)) => *x == *y,
        (None, None) => true,
        _ => false,
    }
}

impl<T, M> Runtime<T, M> {
    /// Follows the agents: notices which have finished, takes out or marks those
    /// whose processes ended, and drops what was marked on an agent that is no
    /// longer in focus. Answers what is left to be done outside, in the order of
    /// the answer's fields.
    pub fn follow_agents(
        &mut self,
        exits: &Vec<Option<i32>>,
        bell_on_finish: bool,
        yield_on_failed: bool,
        phase: AnimationPhase,
    ) -> (r: FrameReport)
        requires
            exits@.len() == old(self)@.nav.agents.len(),
        ensures
            (final(self)@, r@) == follow_up(
                old(self)@,
                exits@,
                bell_on_finish,
                yield_on_failed,
                phase,
            ),
    {
        let transitions = self.nav.peek_finish_transitions();
        self.nav.apply_finish_transitions(&transitions);
        let bell = transitions.any() && bell_on_finish;
        assert(self.nav@.agents.len() == old(self).nav@.agents.len());
        self.nav.reap_dead_transports(exits);
        if self.nav.agents.len() == 0 {
            return FrameReport {
                bell,
                exit: true,
                capture: None,
                cursor: HoverTransition::Unchanged,
                title: None,
            };
        }
        let stale_selection = match &self.selection {
            Some(sel) => self.nav.has_left(&sel.agent),
            None => false,
        };
        if stale_selection {
            self.selection = None;
        }
        let focused_failed = self.nav.is_focused_failed();
        let capture = self.mouse_capture.set_focused_failed(focused_failed && yield_on_failed);
        let stale_hover = match &self.hover {
            Some(link) => self.nav.has_left(&link.agent),
            None => false,
        };
        let mut cursor = HoverTransition::Unchanged;
        if stale_hover {
            cursor = update_hover(&mut self.hover, None);
        }
        let desired = host_terminal_title_for_focused(&self.nav, phase);
        let title = if same_text(&desired, &self.host_title) {
            None
        } else {
            match &desired {
                Some(text) => Some(text.clone()),
                None => None,
            }
        };
        self.host_title = desired;
        FrameReport { bell, exit: false, capture, cursor, title }
    }

    /// Draws a frame on an area of the terminal, and records what can be clicked in
    /// it.
    pub fn draw(
        &mut self,
        out: &mut Vec<Paint>,
        area: Rect,
        bindings: &Bindings,
        log_tail: Option<&LogTail>,
        phase: AnimationPhase,
        chrome: &ChromeStyle,
        segments: &Segments,
    )
        requires
            area.fits(),
        ensures
            ({
                let state = frame_state(old(self), bindings, log_tail, phase, chrome, segments);
                &&& paint_views(final(out)@) == paint_views(old(out)@) + frame_paint(
                    area,
                    old(self)@.nav.agents,
                    old(self)@.nav.focused,
                    state,
                )
                &&& final(self)@ == (RuntimeModel {
                    tabs: frame_hits(
                        area,
                        old(self).nav.agents@,
                        old(self)@.nav.focused,
                        state,
                    ),
                    pane: focused_pane_recorded(
                        PaneHitbox::nothing(),
                        frame_pane_area(area, state),
                        old(self).nav.agents@,
                        old(self)@.nav.focused,
                    ),
                    ..old(self)@
                })
            }),
    {
        let state = FrameState {
            nav_style: self.nav_style,
            popup: self.nav.popup_state,
            help: self.help_state,
            spawn_open: self.spawn_ui.is_some(),
            bindings,
            log_tail,
            phase,
            chrome,
            overlay: PaneOverlay {
                selection: match &self.selection {
                    Some(sel) => Some(sel),
                    None => None,
                },
                hover: match &self.hover {
                    Some(link) => Some(link),
                    None => None,
                },
            },
            segments,
        };
        render_frame(
            out,
            area,
            &self.nav.agents,
            self.nav.focused,
            &state,
            &mut self.tab_hitboxes,
            &mut self.pane_hitbox,
        );
    }

    /// Where the links of the focused agent's screen are to be marked up, once the
    /// frame is drawn: in its pane, unless something is open over it or a link is
    /// marked already.
    pub fn link_area(&self) -> (r: Option<Rect>)
        ensures
            r == markup_area(self@),
    {
        let dialog = match &self.spawn_ui {
            Some(ui) => Some(ui),
            None => None,
        };
        if !no_overlay_active(dialog, self.nav.popup_state, self.help_state) || self.hover.is_some() {
            return None;
        }
        if self.nav.focused >= self.nav.agents.len() {
            return None;
        }
        assert(self@.nav.focused_agent() == Some(self.nav.agents@[self.nav.focused as int]@));
        if self.nav.agents[self.nav.focused].state.screen().is_some() {
            self.pane_hitbox.rect()
        } else {
            None
        }
    }
}

/// Where links are marked up after drawing.
pub open spec fn markup_area<T, M>(ui: RuntimeModel<T, M>) -> Option<Rect> {
    if ui.uncovered() && ui.hover is None && ui.nav.focused_agent() is Some
        && ui.nav.focused_agent()->0.state.screen() is Some {
        ui.pane.rect
    } else {
        None
    }
}

/// What a frame shows of the state.
pub open spec fn frame_state<'a, T, M>(
    ui: &'a Runtime<T, M>,
    bindings: &'a Bindings,
    log_tail: Option<&'a LogTail>,
    phase: AnimationPhase,
    chrome: &'a ChromeStyle,
    segments: &'a Segments,
) -> FrameState<'a> {
    FrameState {
        nav_style: ui.nav_style,
        popup: ui.nav.popup_state,
        help: ui.help_state,
        spawn_open: ui.spawn_ui is Some,
        bindings,
        log_tail,
        phase,
        chrome,
        overlay: PaneOverlay {
            selection: match ui.selection {
                Some(sel) => Some(&sel),
                None => None,
            },
            hover: match ui.hover {
                Some(link) => Some(&link),
                None => None,
            },
        },
        segments,
    }
}

/// Links are marked up after drawing exactly where the pane was drawn, while nothing
/// is open over it, no link is marked already, and the focused agent has a screen.
pub proof fn links_are_marked_up_in_an_uncovered_pane<T, M>(ui: RuntimeModel<T, M>)
    ensures
        markup_area(ui) is Some ==> markup_area(ui) == ui.pane.rect,
        ui.spawn_ui is Some ==> markup_area(ui) is None,
        ui.nav.popup_state is Open ==> markup_area(ui) is None,
        ui.help_state is Open ==> markup_area(ui) is None,
        ui.hover is Some ==> markup_area(ui) is None,
        ui.nav.focused >= ui.nav.agents.len() ==> markup_area(ui) is None,
        ui.nav.focused < ui.nav.agents.len() ==> {
            let state = ui.nav.agents[ui.nav.focused as int].state;
            &&& state is Failed ==> markup_area(ui) is None
            &&& (state is Ready || state is Crashed) && ui.spawn_ui is None && ui.nav.popup_state
                is Closed && ui.help_state is Closed && ui.hover is None ==> markup_area(ui)
                == ui.pane.rect
        },
{
}

/// What is drawn is the state as it is: the style in use, the switcher, the help
/// screen and the dialog exactly while they are open, and the selection and the link
/// that are marked.
pub proof fn frames_show_the_state_as_it_is<T, M>(
    ui: &Runtime<T, M>,
    bindings: &Bindings,
    log_tail: Option<&LogTail>,
    phase: AnimationPhase,
    chrome: &ChromeStyle,
    segments: &Segments,
)
    ensures
        ({
            let state = frame_state(ui, bindings, log_tail, phase, chrome, segments);
            &&& state.nav_style == ui.nav_style
            &&& state.popup == ui.nav.popup_state
            &&& state.help == ui.help_state
            &&& state.spawn_open <==> ui.spawn_ui is Some
            &&& ui.selection is Some ==> state.overlay.selection is Some
                && *state.overlay.selection->0 == ui.selection->0
            &&& ui.selection is None ==> state.overlay.selection is None
            &&& ui.hover is Some ==> state.overlay.hover is Some && *state.overlay.hover->0
                == ui.hover->0
            &&& ui.hover is None ==> state.overlay.hover is None
            &&& *state.bindings == *bindings && state.phase == phase
            &&& *state.chrome == *chrome && *state.segments == *segments
            &&& state.log_tail == log_tail
        }),
{
}

/// A selection or a link stays marked exactly while its agent is the focused one.
pub proof fn marks_stay_while_their_agent_is_focused<T>(
    nav: NavModel<T>,
    sel: Selection,
    link: HoverUrl,
)
    ensures
        nav.focused < nav.agents.len() && nav.agents[nav.focused as int].id@ == sel.agent@
            ==> live_selection(nav, Some(sel)) == Some(sel),
        nav.focused < nav.agents.len() && nav.agents[nav.focused as int].id@ != sel.agent@
            ==> live_selection(nav, Some(sel)) is None,
        nav.focused < nav.agents.len() && nav.agents[nav.focused as int].id@ == link.agent@
            ==> live_hover(nav, Some(link)) == Some(link),
        nav.focused < nav.agents.len() && nav.agents[nav.focused as int].id@ != link.agent@
            ==> live_hover(nav, Some(link)) is None,
        nav.focused >= nav.agents.len() ==> live_selection(nav, Some(sel)) is None && live_hover(
            nav,
            Some(link),
        ) is None,
        live_selection(nav, None) is None,
        live_hover(nav, None) is None,
        nav.focused_is_failed() <==> nav.focused < nav.agents.len()
            && nav.agents[nav.focused as int].state is Failed,
{
}

} // verus!
