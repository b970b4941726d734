//! The event loop as a state machine: what the user's input does, and what is left
//! to be done outside.

use vstd::prelude::*;

use crate::agent::{AgentId, AgentModel, AgentState, RuntimeAgent};
use crate::capture::{CaptureChange, CaptureMode, MouseCaptureState, YieldReasons};
use crate::dispatch::{dispatch_key, dispatched, Dispatch, KeyDispatch, PrefixState};
use crate::keymap::{first_action, Bindings, ScrollAction};
use crate::keys::{
    bracketed_paste, is_url_modifier, matches_url_modifier, wrap_paste, KeyCode, KeyEvent,
    KeyEventKind, KeyModifiers, ModifierKeyCode, MouseUrlModifier,
};
use crate::label::string_text;
use crate::layout::{pane_size, pty_size_for, NavStyle};
use crate::mouse::{
    compute_hover, first_hit, hover_transition, hovered, pane_dispatched, pane_mouse_dispatch,
    tab_dispatched, tab_mouse_dispatch, update_hover, Hitbox, HoverTransition, HoverUrl,
    MouseButton, MouseEventKind, PaneHitbox, PaneMouseDispatch, Selection, TabHitboxes,
    TabMouseDispatch, UrlSpan,
};
use crate::nav::{models, resize_agents, some_screen, NavModel, NavState, PopupState};
use crate::render::HelpState;
use crate::selection::{commit_selection, copied_text};

verus! {

/// How many rows one notch of the wheel scrolls.
pub const WHEEL_STEP: i32 = 3;

/// Everything the user's input acts on. `M` is the spawn dialog.
pub struct Runtime<T, M> {
    pub nav: NavState<T>,
    pub nav_style: NavStyle,
    pub prefix_state: PrefixState,
    pub help_state: HelpState,
    pub spawn_ui: Option<M>,
    /// The clickable regions of the frame last drawn.
    pub tab_hitboxes: TabHitboxes,
    /// The agent pane of the frame last drawn.
    pub pane_hitbox: PaneHitbox,
    /// The tab that was grabbed.
    pub mouse_press: Option<AgentId>,
    pub selection: Option<Selection>,
    pub hover: Option<HoverUrl>,
    pub mouse_capture: MouseCaptureState,
    /// The title the host terminal was given last.
    pub host_title: Option<String>,
}

/// Everything the user's input acts on, with the navigator replaced by its model.
pub struct RuntimeModel<T, M> {
    pub nav: NavModel<T>,
    pub nav_style: NavStyle,
    pub prefix_state: PrefixState,
    pub help_state: HelpState,
    pub spawn_ui: Option<M>,
    pub tabs: Seq<Hitbox>,
    pub pane: PaneHitbox,
    pub mouse_press: Option<AgentId>,
    pub selection: Option<Selection>,
    pub hover: Option<HoverUrl>,
    pub mouse_capture: MouseCaptureState,
    pub host_title: Option<Seq<char>>,
}

impl<T, M> View for Runtime<T, M> {
    type V = RuntimeModel<T, M>;

    open spec fn view(&self) -> RuntimeModel<T, M> {
        RuntimeModel {
            nav: self.nav@,
            nav_style: self.nav_style,
            prefix_state: self.prefix_state,
            help_state: self.help_state,
            spawn_ui: self.spawn_ui,
            tabs: self.tab_hitboxes.rects@,
            pane: self.pane_hitbox,
            mouse_press: self.mouse_press,
            selection: self.selection,
            hover: self.hover,
            mouse_capture: self.mouse_capture,
            host_title: string_text(self.host_title),
        }
    }
}

impl<T, M> RuntimeModel<T, M> {
    /// Whether every position names an agent, and the recorded pane has cells.
    pub open spec fn valid(self) -> bool {
        self.nav.valid() && self.pane.valid()
    }

    /// Whether a terminal of this size leaves a cell for the screens of agents, if
    /// there are any.
    pub open spec fn has_room(self, rows: u16, cols: u16, log_strip: bool) -> bool {
        let pane = pane_size(self.nav_style, rows, cols, log_strip);
        some_screen(self.nav.agents) ==> pane.0 > 0 && pane.1 > 0
    }

    /// Whether nothing is open over the agents: neither the spawn dialog, nor the
    /// switcher, nor the help screen.
    pub open spec fn uncovered(self) -> bool {
        self.spawn_ui is None && self.nav.popup_state is Closed && self.help_state is Closed
    }
}

/// Whether nothing is open over the agents: neither the spawn dialog, nor the
/// switcher, nor the help screen.
pub fn no_overlay_active<M>(
    spawn_ui: Option<&M>,
    popup_state: PopupState,
    help_state: HelpState,
) -> (r: bool)
    ensures
        r == (spawn_ui is None && popup_state is Closed && help_state is Closed),
{
    spawn_ui.is_none() && matches!(popup_state, PopupState::Closed) && matches!(
        help_state,
        HelpState::Closed
    )
}

/// An event from the host terminal.
pub enum Event {
    Key(KeyEvent),
    /// The window lost the keyboard.
    FocusLost,
    Resize { cols: u16, rows: u16 },
    /// `span` is the link that was found at the cell of an agent's screen under the
    /// mouse, if there was one.
    Mouse {
        kind: MouseEventKind,
        column: u16,
        row: u16,
        modifiers: KeyModifiers,
        span: Option<UrlSpan>,
    },
    Paste(String),
    /// Anything else, of which nothing comes.
    Other,
}

/// How the loop goes on after an event.
#[derive(Clone, Copy, Debug, PartialEq, Eq, Structural)]
pub enum Step {
    Continue,
    /// Leave the program.
    Exit,
    /// Open the spawn dialog.
    OpenDialog,
    /// Hand the key to the spawn dialog.
    DialogKey,
    /// Find out the size of the terminal and lay everything out anew.
    Relayout,
}

/// What is left to be done outside after an event.
pub struct Reaction {
    pub step: Step,
    /// The change of mouse capture to ask of the terminal.
    pub capture: Option<CaptureChange>,
    /// The link to open.
    pub open_url: Option<String>,
    /// The change of the mouse cursor.
    pub cursor: HoverTransition,
    /// The bytes to send to the focused agent.
    pub write: Option<Vec<u8>>,
    /// The text to put on the clipboard.
    pub copy: Option<String>,
    /// The size to give to the terminals of all live agents.
    pub resize: Option<(u16, u16)>,
}

/// What is left to be done outside after an event, its text as sequences.
pub struct ReactionView {
    pub step: Step,
    pub capture: Option<CaptureChange>,
    pub open_url: Option<Seq<char>>,
    pub cursor: HoverTransition,
    pub write: Option<Seq<u8>>,
    pub copy: Option<Seq<char>>,
    pub resize: Option<(u16, u16)>,
}

impl View for Reaction {
    type V = ReactionView;

    open spec fn view(&self) -> ReactionView {
        ReactionView {
            step: self.step,
            capture: self.capture,
            open_url: string_text(self.open_url),
            cursor: self.cursor,
            write: match self.write {
                Some(bytes) => Some(bytes@),
                None => None,
            },
            copy: string_text(self.copy),
            resize: self.resize,
        }
    }
}

/// Nothing is left to be done.
pub open spec fn nothing_left() -> ReactionView {
    ReactionView {
        step: Step::Continue,
        capture: None,
        open_url: None,
        cursor: HoverTransition::Unchanged,
        write: None,
        copy: None,
        resize: None,
    }
}

/// Nothing is left to be done but the given step.
pub open spec fn only_step(step: Step) -> ReactionView {
    ReactionView { step, ..nothing_left() }
}

impl Reaction {
    fn none() -> (r: Reaction)
        ensures
            r@ == nothing_left(),
    {
        Reaction {
            step: Step::Continue,
            capture: None,
            open_url: None,
            cursor: HoverTransition::Unchanged,
            write: None,
            copy: None,
            resize: None,
        }
    }

    fn step(step: Step) -> (r: Reaction)
        ensures
            r@ == only_step(step),
    {
        let mut r = Reaction::none();
        r.step = step;
        r
    }
}

impl<T> NavModel<T> {
    /// The focused agent's view moved by `delta` rows.
    pub open spec fn focused_nudged(self, delta: int) -> NavModel<T> {
        match self.focused_agent() {
            Some(agent) => self.with_focused_agent(agent.nudged_by(delta)),
            None => self,
        }
    }

    /// The focused agent's view scrolled back by `rows`.
    pub open spec fn focused_scrolled_to(self, rows: nat) -> NavModel<T> {
        match self.focused_agent() {
            Some(agent) => self.with_focused_agent(agent.scrolled_to(rows)),
            None => self,
        }
    }

    /// Whether the focused agent is live.
    pub open spec fn focused_is_live(self) -> bool {
        self.focused_agent() is Some && self.focused_agent()->0.state is Ready
    }

    /// How many rows the focused agent's view is scrolled back.
    pub open spec fn focused_offset(self) -> nat {
        match self.focused_agent() {
            Some(agent) => agent.offset(),
            None => 0,
        }
    }

    /// How many rows a page of the focused agent has: all but one, and at least
    /// one.
    pub open spec fn focused_page(self) -> int {
        match self.focused_agent() {
            Some(agent) => if agent.rows > 1 {
                agent.rows - 1
            } else {
                1
            },
            None => 1,
        }
    }
}

/// What a key does while the focused agent is scrolled back.
pub open spec fn scrolled<T>(nav: NavModel<T>, action: ScrollAction) -> NavModel<T> {
    match action {
        ScrollAction::LineUp => nav.focused_nudged(1),
        ScrollAction::LineDown => nav.focused_nudged(-1),
        ScrollAction::PageUp => nav.focused_nudged(nav.focused_page()),
        ScrollAction::PageDown => nav.focused_nudged(-nav.focused_page()),
        ScrollAction::Top => nav.focused_scrolled_to(usize::MAX as nat),
        ScrollAction::Bottom => nav.focused_scrolled_to(0),
        ScrollAction::ExitScroll => nav.focused_scrolled_to(0),
    }
}

impl<T> NavState<T> {
    fn nudge_focused(&mut self, delta: i32)
        ensures
            final(self)@ == old(self)@.focused_nudged(delta as int),
    {
        if self.focused < self.agents.len() {
            let ghost before = self.agents@;
            assert(self@.focused_agent() == Some(before[self.focused as int]@));
            self.agents[self.focused].nudge_scrollback(delta);
            assert(models(self.agents@) =~= models(before).update(
                self.focused as int,
                before[self.focused as int]@.nudged_by(delta as int),
            ));
        }
    }

    fn snap_focused(&mut self)
        ensures
            final(self)@ == old(self)@.focused_scrolled_to(0),
    {
        if self.focused < self.agents.len() {
            let ghost before = self.agents@;
            assert(self@.focused_agent() == Some(before[self.focused as int]@));
            self.agents[self.focused].snap_to_live();
            assert(models(self.agents@) =~= models(before).update(
                self.focused as int,
                before[self.focused as int]@.scrolled_to(0),
            ));
        }
    }

    fn top_focused(&mut self)
        ensures
            final(self)@ == old(self)@.focused_scrolled_to(usize::MAX as nat),
    {
        if self.focused < self.agents.len() {
            let ghost before = self.agents@;
            assert(self@.focused_agent() == Some(before[self.focused as int]@));
            self.agents[self.focused].jump_to_top();
            assert(models(self.agents@) =~= models(before).update(
                self.focused as int,
                before[self.focused as int]@.scrolled_to(usize::MAX as nat),
            ));
        }
    }

    fn is_focused_live(&self) -> (r: bool)
        ensures
            r == self@.focused_is_live(),
    {
        if self.focused < self.agents.len() {
            assert(self@.focused_agent() == Some(self.agents@[self.focused as int]@));
            match &self.agents[self.focused].state {
                AgentState::Ready { .. } => true,
                _ => false,
            }
        } else {
            false
        }
    }

    fn offset_of_focused(&self) -> (r: usize)
        ensures
            r == self@.focused_offset(),
    {
        if self.focused < self.agents.len() {
            assert(self@.focused_agent() == Some(self.agents@[self.focused as int]@));
            self.agents[self.focused].scrollback_offset()
        } else {
            0
        }
    }

    fn page_of_focused(&self) -> (r: i32)
        ensures
            r == self@.focused_page(),
            1 <= r <= u16::MAX,
    {
        if self.focused < self.agents.len() {
            assert(self@.focused_agent() == Some(self.agents@[self.focused as int]@));
            let rows: u16 = self.agents[self.focused].rows;
            if rows > 1 {
                rows as i32 - 1
            } else {
                1
            }
        } else {
            1
        }
    }

    /// Does what a key asks for while the focused agent is scrolled back.
    fn scroll_step(&mut self, action: ScrollAction)
        ensures
            final(self)@ == scrolled(old(self)@, action),
    {
        let page: i32 = self.page_of_focused();
        match action {
            ScrollAction::LineUp => self.nudge_focused(1),
            ScrollAction::LineDown => self.nudge_focused(-1),
            ScrollAction::PageUp => self.nudge_focused(page),
            ScrollAction::PageDown => self.nudge_focused(-page),
            ScrollAction::Top => self.top_focused(),
            ScrollAction::Bottom => self.snap_focused(),
            ScrollAction::ExitScroll => self.snap_focused(),
        }
    }
}

/// What a dispatched key does, and what is left to be done. Only bytes for the
/// agent bring its live screen back into view; bytes for an agent that is not live
/// are dropped.
pub open spec fn dispatch_reaction<T, M>(ui: RuntimeModel<T, M>, dispatch: Dispatch) -> (
    RuntimeModel<T, M>,
    ReactionView,
) {
    match dispatch {
        Dispatch::Forward(bytes) => (
            RuntimeModel { nav: ui.nav.focused_scrolled_to(0), ..ui },
            ReactionView {
                write: if ui.nav.focused_is_live() {
                    Some(bytes)
                } else {
                    None
                },
                ..nothing_left()
            },
        ),
        Dispatch::Consume => (ui, nothing_left()),
        Dispatch::Exit => (ui, only_step(Step::Exit)),
        Dispatch::SpawnAgent => (ui, only_step(Step::OpenDialog)),
        Dispatch::FocusNext => (RuntimeModel { nav: ui.nav.focus_next(), ..ui }, nothing_left()),
        Dispatch::FocusPrev => (RuntimeModel { nav: ui.nav.focus_prev(), ..ui }, nothing_left()),
        Dispatch::FocusLast => (RuntimeModel { nav: ui.nav.focus_last(), ..ui }, nothing_left()),
        Dispatch::FocusAt(i) => (RuntimeModel { nav: ui.nav.focus_at(i), ..ui }, nothing_left()),
        Dispatch::ToggleNav => (
            RuntimeModel { nav_style: ui.nav_style.toggled(), ..ui },
            only_step(Step::Relayout),
        ),
        Dispatch::OpenPopup => (
            RuntimeModel {
                nav: NavModel {
                    popup_state: PopupState::Open { selection: ui.nav.focused },
                    ..ui.nav
                },
                ..ui
            },
            nothing_left(),
        ),
        Dispatch::OpenHelp => (RuntimeModel { help_state: HelpState::Open, ..ui }, nothing_left()),
        Dispatch::DismissAgent => (
            RuntimeModel {
                nav: if ui.nav.focused_is_live() {
                    ui.nav
                } else {
                    ui.nav.without(ui.nav.focused)
                },
                ..ui
            },
            nothing_left(),
        ),
        Dispatch::KillAgent => (
            RuntimeModel { nav: ui.nav.without(ui.nav.focused), ..ui },
            nothing_left(),
        ),
    }
}

/// What a key press does. Help closes at any key; an open dialog or switcher gets
/// every key; an agent that is scrolled back gets the keys that scroll; the rest
/// goes through the prefix key and the bindings.
pub open spec fn press_reaction<T, M>(ui: RuntimeModel<T, M>, key: KeyEvent, bindings: Bindings) -> (
    RuntimeModel<T, M>,
    ReactionView,
) {
    if ui.help_state is Open {
        (RuntimeModel { help_state: HelpState::Closed, ..ui }, nothing_left())
    } else if ui.spawn_ui is Some {
        (ui, only_step(Step::DialogKey))
    } else if ui.nav.popup_state is Open {
        match first_action(bindings.on_popup.bindings@, key) {
            Some(action) => (
                RuntimeModel { nav: ui.nav.popup_step(action), ..ui },
                nothing_left(),
            ),
            None => (ui, nothing_left()),
        }
    } else if ui.nav.focused_offset() > 0 && first_action(
        bindings.on_scroll.bindings@,
        key,
    ) is Some {
        (
            RuntimeModel {
                nav: scrolled(ui.nav, first_action(bindings.on_scroll.bindings@, key)->0),
                ..ui
            },
            nothing_left(),
        )
    } else {
        let (prefix_state, dispatch) = dispatched(ui.prefix_state, key, bindings);
        dispatch_reaction(RuntimeModel { prefix_state, ..ui }, dispatch)
    }
}

/// What a bare modifier does: the one that lends the mouse lends it while held.
pub open spec fn modifier_reaction<T, M>(
    ui: RuntimeModel<T, M>,
    modifier: ModifierKeyCode,
    kind: KeyEventKind,
    url_modifier: MouseUrlModifier,
) -> (RuntimeModel<T, M>, ReactionView) {
    if is_url_modifier(modifier, url_modifier) && !(kind is Repeat) {
        let (mouse_capture, capture) = ui.mouse_capture.with_url_modifier(kind is Press);
        (
            RuntimeModel { mouse_capture, ..ui },
            ReactionView { capture, ..nothing_left() },
        )
    } else {
        (ui, nothing_left())
    }
}

/// What a key event does. Releases do nothing.
pub open spec fn key_reaction<T, M>(
    ui: RuntimeModel<T, M>,
    key: KeyEvent,
    bindings: Bindings,
    url_modifier: MouseUrlModifier,
) -> (RuntimeModel<T, M>, ReactionView) {
    match key.code {
        KeyCode::Modifier(modifier) => modifier_reaction(ui, modifier, key.kind, url_modifier),
        _ => if key.kind is Release {
            (ui, nothing_left())
        } else {
            press_reaction(ui, key, bindings)
        },
    }
}

/// What a mouse event over the agent pane does to the selection, and the text it
/// copies; nothing when it is not for the pane.
pub open spec fn pane_reaction<T, M>(
    ui: RuntimeModel<T, M>,
    kind: MouseEventKind,
    column: u16,
    row: u16,
) -> Option<(Option<Selection>, Option<Seq<char>>)> {
    match pane_dispatched(kind, column, row, ui.pane, ui.selection is Some) {
        Some(PaneMouseDispatch::Arm { agent, cell }) => Some(
            (Some(Selection { agent, anchor: cell, head: cell }), None),
        ),
        Some(PaneMouseDispatch::Extend(cell)) => Some(
            (
                match ui.selection {
                    Some(sel) => Some(Selection { head: cell, ..sel }),
                    None => None,
                },
                None,
            ),
        ),
        Some(PaneMouseDispatch::Commit) => Some(
            (
                None,
                match ui.selection {
                    Some(sel) => copied_text(sel, ui.nav.agents, ui.pane),
                    None => None,
                },
            ),
        ),
        None => None,
    }
}

/// What a mouse event over the tabs does.
pub open spec fn tab_reaction<T, M>(
    ui: RuntimeModel<T, M>,
    kind: MouseEventKind,
    column: u16,
    row: u16,
) -> RuntimeModel<T, M> {
    match tab_dispatched(kind, first_hit(ui.tabs, column, row), ui.mouse_press) {
        Some(TabMouseDispatch::PressTab(id)) => RuntimeModel { mouse_press: Some(id), ..ui },
        Some(TabMouseDispatch::Click(id)) => RuntimeModel {
            mouse_press: None,
            nav: ui.nav.focus_id(id@),
            ..ui
        },
        Some(TabMouseDispatch::Reorder { from, to }) => RuntimeModel {
            mouse_press: None,
            nav: ui.nav.rearranged(from@, to@),
            ..ui
        },
        Some(TabMouseDispatch::Cancel) => RuntimeModel { mouse_press: None, ..ui },
        None => ui,
    }
}

/// What a press, a move or a release of the mouse does. Moving with Ctrl held
/// marks the link under the mouse and without it unmarks it; a click with Ctrl held
/// opens the link there; otherwise the pane comes before the tabs.
pub open spec fn pointer_reaction<T, M>(
    ui: RuntimeModel<T, M>,
    kind: MouseEventKind,
    column: u16,
    row: u16,
    ctrl_held: bool,
    span: Option<UrlSpan>,
) -> (RuntimeModel<T, M>, ReactionView) {
    let link = hovered(ui.pane, ui.nav.agents, column, row, span);
    if ctrl_held && kind is Moved {
        (
            RuntimeModel { hover: link, ..ui },
            ReactionView {
                cursor: hover_transition(ui.hover is Some, link is Some),
                ..nothing_left()
            },
        )
    } else if ctrl_held && kind == MouseEventKind::Down(MouseButton::Left) && link is Some {
        (
            RuntimeModel { hover: link, ..ui },
            ReactionView {
                open_url: Some(link->0.url@),
                cursor: hover_transition(ui.hover is Some, true),
                ..nothing_left()
            },
        )
    } else {
        let cursor = hover_transition(ui.hover is Some, ui.hover is Some && ctrl_held);
        let unmarked = RuntimeModel {
            hover: if ctrl_held {
                ui.hover
            } else {
                None
            },
            ..ui
        };
        match pane_reaction(unmarked, kind, column, row) {
            Some((selection, copy)) => (
                RuntimeModel { selection, ..unmarked },
                ReactionView { cursor, copy, ..nothing_left() },
            ),
            None => (
                tab_reaction(unmarked, kind, column, row),
                ReactionView { cursor, ..nothing_left() },
            ),
        }
    }
}

/// What a mouse event does while nothing is open over the agents. The wheel
/// scrolls the focused agent wherever the mouse is.
pub open spec fn mouse_reaction<T, M>(
    ui: RuntimeModel<T, M>,
    kind: MouseEventKind,
    column: u16,
    row: u16,
    ctrl_held: bool,
    span: Option<UrlSpan>,
) -> (RuntimeModel<T, M>, ReactionView) {
    match kind {
        MouseEventKind::ScrollUp => (
            RuntimeModel { nav: ui.nav.focused_nudged(WHEEL_STEP as int), ..ui },
            nothing_left(),
        ),
        MouseEventKind::ScrollDown => (
            RuntimeModel { nav: ui.nav.focused_nudged(-(WHEEL_STEP as int)), ..ui },
            nothing_left(),
        ),
        _ => pointer_reaction(ui, kind, column, row, ctrl_held, span),
    }
}

/// What a change of the terminal's size does: every agent's pane follows, and what
/// was marked on the screens is no longer.
pub open spec fn resize_reaction<T, M>(
    ui: RuntimeModel<T, M>,
    cols: u16,
    rows: u16,
    log_strip: bool,
) -> (RuntimeModel<T, M>, ReactionView) {
    let (pane_rows, pane_cols) = pane_size(ui.nav_style, rows, cols, log_strip);
    (
        RuntimeModel {
            nav: ui.nav.resized(pane_rows, pane_cols),
            selection: None,
            hover: None,
            ..ui
        },
        ReactionView {
            cursor: hover_transition(ui.hover is Some, false),
            resize: Some((pane_rows, pane_cols)),
            ..nothing_left()
        },
    )
}

/// What pasted text does: it goes to the focused agent in one piece, and the
/// agent's live screen comes back into view.
pub open spec fn paste_reaction<T, M>(ui: RuntimeModel<T, M>, text: Seq<char>) -> (
    RuntimeModel<T, M>,
    ReactionView,
) {
    (
        RuntimeModel { nav: ui.nav.focused_scrolled_to(0), ..ui },
        ReactionView {
            write: if ui.nav.focused_is_live() {
                Some(bracketed_paste(text))
            } else {
                None
            },
            ..nothing_left()
        },
    )
}

/// What losing the keyboard does: a held modifier counts as released, and the link
/// under the mouse is no longer marked.
pub open spec fn focus_lost_reaction<T, M>(ui: RuntimeModel<T, M>) -> (RuntimeModel<T, M>, ReactionView) {
    let (mouse_capture, capture) = ui.mouse_capture.with_url_modifier(false);
    (
        RuntimeModel { mouse_capture, hover: None, ..ui },
        ReactionView {
            capture,
            cursor: hover_transition(ui.hover is Some, false),
            ..nothing_left()
        },
    )
}

/// What an event does, and what is left to be done outside. While something is
/// open over the agents, the mouse and pasted text do nothing.
pub open spec fn reaction<T, M>(
    ui: RuntimeModel<T, M>,
    event: Event,
    bindings: Bindings,
    url_modifier: MouseUrlModifier,
    log_strip: bool,
) -> (RuntimeModel<T, M>, ReactionView) {
    match event {
        Event::Key(key) => key_reaction(ui, key, bindings, url_modifier),
        Event::FocusLost => focus_lost_reaction(ui),
        Event::Resize { cols, rows } => resize_reaction(ui, cols, rows, log_strip),
        Event::Mouse { kind, column, row, modifiers, span } => if ui.uncovered() {
            mouse_reaction(ui, kind, column, row, modifiers.control, span)
        } else {
            (ui, nothing_left())
        },
        Event::Paste(text) => if ui.uncovered() {
            paste_reaction(ui, text@)
        } else {
            (ui, nothing_left())
        },
        Event::Other => (ui, nothing_left()),
    }
}

/// The state at the start: the first agent in focus, nothing open, nothing drawn
/// yet.
pub open spec fn initial<T, M>(
    agents: Seq<AgentModel<T>>,
    nav_style: NavStyle,
    mouse_captured: bool,
) -> RuntimeModel<T, M> {
    RuntimeModel {
        nav: NavModel {
            agents,
            focused: 0,
            previous_focused: None,
            popup_state: PopupState::Closed,
        },
        nav_style,
        prefix_state: PrefixState::Idle,
        help_state: HelpState::Closed,
        spawn_ui: None,
        tabs: Seq::empty(),
        pane: PaneHitbox::nothing(),
        mouse_press: None,
        selection: None,
        hover: None,
        mouse_capture: MouseCaptureState {
            mode: if mouse_captured {
                CaptureMode::Captured
            } else {
                CaptureMode::Disabled
            },
            reasons: YieldReasons { url_modifier_held: false, focused_failed: false },
        },
        host_title: None,
    }
}

impl<T, M> Runtime<T, M> {
    /// The state at the start.
    pub fn new(
        agents: Vec<RuntimeAgent<T>>,
        nav_style: NavStyle,
        mouse_captured: bool,
    ) -> (r: Runtime<T, M>)
        ensures
            r@ == initial::<T, M>(models(agents@), nav_style, mouse_captured),
    {
        Runtime {
            nav: NavState::new(agents),
            nav_style,
            prefix_state: PrefixState::Idle,
            help_state: HelpState::Closed,
            spawn_ui: None,
            tab_hitboxes: TabHitboxes::default(),
            pane_hitbox: PaneHitbox::default(),
            mouse_press: None,
            selection: None,
            hover: None,
            mouse_capture: MouseCaptureState::new(mouse_captured),
            host_title: None,
        }
    }

    fn apply_dispatch(&mut self, dispatch: KeyDispatch) -> (r: Reaction)
        requires
            old(self)@.nav.valid(),
            old(self)@.nav.agents.len() > 0,
        ensures
            (final(self)@, r@) == dispatch_reaction(old(self)@, dispatch@),
    {
        match dispatch {
            KeyDispatch::Forward(bytes) => {
                let live = self.nav.is_focused_live();
                self.nav.snap_focused();
                let mut r = Reaction::none();
                if live {
                    r.write = Some(bytes);
                }
                r
            },
            KeyDispatch::Consume => Reaction::none(),
            KeyDispatch::Exit => Reaction::step(Step::Exit),
            KeyDispatch::SpawnAgent => Reaction::step(Step::OpenDialog),
            KeyDispatch::FocusNext => {
                self.nav.focus_next();
                Reaction::none()
            },
            KeyDispatch::FocusPrev => {
                self.nav.focus_prev();
                Reaction::none()
            },
            KeyDispatch::FocusLast => {
                self.nav.focus_last();
                Reaction::none()
            },
            KeyDispatch::FocusAt(idx) => {
                self.nav.focus_at(idx);
                Reaction::none()
            },
            KeyDispatch::ToggleNav => {
                self.nav_style = self.nav_style.toggle();
                Reaction::step(Step::Relayout)
            },
            KeyDispatch::OpenPopup => {
                self.nav.popup_state = PopupState::Open { selection: self.nav.focused };
                Reaction::none()
            },
            KeyDispatch::OpenHelp => {
                self.help_state = HelpState::Open;
                Reaction::none()
            },
            KeyDispatch::DismissAgent => {
                let dismissed = self.nav.dismiss_focused();
                Reaction::none()
            },
            KeyDispatch::KillAgent => {
                let killed = self.nav.kill_focused();
                Reaction::none()
            },
        }
    }

    fn handle_press(&mut self, key: &KeyEvent, bindings: &Bindings) -> (r: Reaction)
        requires
            old(self)@.nav.valid(),
            old(self)@.nav.agents.len() > 0,
        ensures
            (final(self)@, r@) == press_reaction(old(self)@, *key, *bindings),
    {
        if self.help_state == HelpState::Open {
            self.help_state = HelpState::Closed;
            return Reaction::none();
        }
        if self.spawn_ui.is_some() {
            return Reaction::step(Step::DialogKey);
        }
        if let PopupState::Open { .. } = self.nav.popup_state {
            if let Some(action) = bindings.on_popup.lookup(key) {
                self.nav.popup_step(action);
            }
            return Reaction::none();
        }
        if self.nav.offset_of_focused() > 0 {
            if let Some(action) = bindings.on_scroll.lookup(key) {
                self.nav.scroll_step(action);
                return Reaction::none();
            }
        }
        let dispatch = dispatch_key(&mut self.prefix_state, key, bindings);
        self.apply_dispatch(dispatch)
    }

    fn handle_key(&mut self, key: &KeyEvent, bindings: &Bindings, url_modifier: MouseUrlModifier)
        -> (r: Reaction)
        requires
            old(self)@.nav.valid(),
            old(self)@.nav.agents.len() > 0,
        ensures
            (final(self)@, r@) == key_reaction(old(self)@, *key, *bindings, url_modifier),
    {
        if let KeyCode::Modifier(modifier) = key.code {
            let mut r = Reaction::none();
            if matches_url_modifier(modifier, url_modifier) {
                match key.kind {
                    KeyEventKind::Press => {
                        r.capture = self.mouse_capture.set_url_modifier_held(true);
                    },
                    KeyEventKind::Release => {
                        r.capture = self.mouse_capture.set_url_modifier_held(false);
                    },
                    KeyEventKind::Repeat => {},
                }
            }
            return r;
        }
        match key.kind {
            KeyEventKind::Release => Reaction::none(),
            _ => self.handle_press(key, bindings),
        }
    }
}

/// The selection borrowed.
fn borrowed_selection(selection: &Option<Selection>) -> (r: Option<&Selection>)
    ensures
        r is Some == selection is Some,
        r is Some ==> *r->0 == selection->0,
{
    match selection {
        Some(sel) => Some(sel),
        None => None,
    }
}

impl<T, M> Runtime<T, M> {
    fn handle_pane(&mut self, kind: MouseEventKind, column: u16, row: u16) -> (r: Option<
        Option<String>,
    >)
        requires
            old(self)@.pane.valid(),
        ensures
            match pane_reaction(old(self)@, kind, column, row) {
                Some((selection, copy)) => {
                    &&& r is Some && string_text(r->0) == copy
                    &&& final(self)@ == (RuntimeModel { selection, ..old(self)@ })
                },
                None => r is None && final(self)@ == old(self)@,
            },
    {
        let dispatch = pane_mouse_dispatch(
            kind,
            column,
            row,
            &self.pane_hitbox,
            borrowed_selection(&self.selection),
        );
        match dispatch {
            Some(PaneMouseDispatch::Arm { agent, cell }) => {
                self.selection = Some(Selection { agent, anchor: cell, head: cell });
                Some(None)
            },
            Some(PaneMouseDispatch::Extend(cell)) => {
                if let Some(sel) = self.selection.take() {
                    self.selection = Some(
                        Selection { agent: sel.agent, anchor: sel.anchor, head: cell },
                    );
                }
                Some(None)
            },
            Some(PaneMouseDispatch::Commit) => match self.selection.take() {
                Some(sel) => Some(commit_selection(&sel, &self.nav.agents, &self.pane_hitbox)),
                None => Some(None),
            },
            None => None,
        }
    }

    fn handle_tabs(&mut self, kind: MouseEventKind, column: u16, row: u16)
        ensures
            final(self)@ == tab_reaction(old(self)@, kind, column, row),
    {
        let press = match &self.mouse_press {
            Some(id) => Some(id),
            None => None,
        };
        match tab_mouse_dispatch(kind, column, row, &self.tab_hitboxes, press) {
            Some(TabMouseDispatch::PressTab(id)) => {
                self.mouse_press = Some(id);
            },
            Some(TabMouseDispatch::Click(id)) => {
                self.mouse_press = None;
                self.nav.focus_id(&id);
            },
            Some(TabMouseDispatch::Reorder { from, to }) => {
                self.mouse_press = None;
                self.nav.rearrange(&from, &to);
            },
            Some(TabMouseDispatch::Cancel) => {
                self.mouse_press = None;
            },
            None => {},
        }
    }

    fn handle_pointer(
        &mut self,
        kind: MouseEventKind,
        column: u16,
        row: u16,
        ctrl_held: bool,
        span: Option<UrlSpan>,
    ) -> (r: Reaction)
        requires
            old(self)@.pane.valid(),
        ensures
            (final(self)@, r@) == pointer_reaction(
                old(self)@,
                kind,
                column,
                row,
                ctrl_held,
                span,
            ),
    {
        let mut r = Reaction::none();
        if ctrl_held {
            let link = compute_hover(&self.pane_hitbox, &self.nav.agents, column, row, span);
            if kind == MouseEventKind::Moved {
                r.cursor = update_hover(&mut self.hover, link);
                return r;
            }
            if kind == MouseEventKind::Down(MouseButton::Left) {
                if let Some(found) = link {
                    r.open_url = Some(found.url.clone());
                    r.cursor = update_hover(&mut self.hover, Some(found));
                    return r;
                }
            }
        } else if self.hover.is_some() {
            r.cursor = update_hover(&mut self.hover, None);
        }
        match self.handle_pane(kind, column, row) {
            Some(copy) => {
                r.copy = copy;
            },
            None => {
                self.handle_tabs(kind, column, row);
            },
        }
        r
    }

    fn handle_mouse(
        &mut self,
        kind: MouseEventKind,
        column: u16,
        row: u16,
        ctrl_held: bool,
        span: Option<UrlSpan>,
    ) -> (r: Reaction)
        requires
            old(self)@.pane.valid(),
        ensures
            (final(self)@, r@) == mouse_reaction(
                old(self)@,
                kind,
                column,
                row,
                ctrl_held,
                span,
            ),
    {
        match kind {
            MouseEventKind::ScrollUp => {
                self.nav.nudge_focused(WHEEL_STEP);
                Reaction::none()
            },
            MouseEventKind::ScrollDown => {
                self.nav.nudge_focused(-WHEEL_STEP);
                Reaction::none()
            },
            _ => self.handle_pointer(kind, column, row, ctrl_held, span),
        }
    }

    /// Gives every agent the pane that the terminal's size leaves it. Answers the
    /// size, which the terminals of live agents are to be given too.
    pub fn relayout(&mut self, rows: u16, cols: u16, log_strip: bool) -> (r: (u16, u16))
        requires
            old(self)@.has_room(rows, cols, log_strip),
        ensures
            r == pane_size(old(self).nav_style, rows, cols, log_strip),
            final(self)@ == (RuntimeModel { nav: old(self)@.nav.resized(r.0, r.1), ..old(self)@ }),
    {
        let (pty_rows, pty_cols) = pty_size_for(self.nav_style, rows, cols, log_strip);
        resize_agents(&mut self.nav.agents, pty_rows, pty_cols);
        (pty_rows, pty_cols)
    }

    fn handle_resize(&mut self, cols: u16, rows: u16, log_strip: bool) -> (r: Reaction)
        requires
            old(self)@.has_room(rows, cols, log_strip),
        ensures
            (final(self)@, r@) == resize_reaction(old(self)@, cols, rows, log_strip),
    {
        let size = self.relayout(rows, cols, log_strip);
        self.selection = None;
        let mut r = Reaction::none();
        r.cursor = update_hover(&mut self.hover, None);
        r.resize = Some(size);
        r
    }

    fn handle_paste(&mut self, text: &str) -> (r: Reaction)
        ensures
            (final(self)@, r@) == paste_reaction(old(self)@, text@),
    {
        let live = self.nav.is_focused_live();
        self.nav.snap_focused();
        let mut r = Reaction::none();
        if live {
            r.write = Some(wrap_paste(text));
        }
        r
    }

    fn handle_focus_lost(&mut self) -> (r: Reaction)
        ensures
            (final(self)@, r@) == focus_lost_reaction(old(self)@),
    {
        let mut r = Reaction::none();
        r.capture = self.mouse_capture.lose_focus();
        r.cursor = update_hover(&mut self.hover, None);
        r
    }

    /// Does what an event asks for. Answers what is left to be done outside, in
    /// the order of the answer's fields. There must be an agent, and a new size of
    /// the terminal must leave a cell for the screens of agents.
    pub fn handle_event(
        &mut self,
        event: Event,
        bindings: &Bindings,
        url_modifier: MouseUrlModifier,
        log_strip: bool,
    ) -> (r: Reaction)
        requires
            old(self)@.valid(),
            old(self)@.nav.agents.len() > 0,
            event matches Event::Resize { cols, rows } ==> old(self)@.has_room(
                rows,
                cols,
                log_strip,
            ),
        ensures
            (final(self)@, r@) == reaction(old(self)@, event, *bindings, url_modifier, log_strip),
    {
        match event {
            Event::Key(key) => self.handle_key(&key, bindings, url_modifier),
            Event::FocusLost => self.handle_focus_lost(),
            Event::Resize { cols, rows } => self.handle_resize(cols, rows, log_strip),
            Event::Mouse { kind, column, row, modifiers, span } => {
                let dialog = match &self.spawn_ui {
                    Some(ui) => Some(ui),
                    None => None,
                };
                if no_overlay_active(dialog, self.nav.popup_state, self.help_state) {
                    self.handle_mouse(kind, column, row, modifiers.control, span)
                } else {
                    Reaction::none()
                }
            },
            Event::Paste(text) => {
                let dialog = match &self.spawn_ui {
                    Some(ui) => Some(ui),
                    None => None,
                };
                if no_overlay_active(dialog, self.nav.popup_state, self.help_state) {
                    self.handle_paste(text.as_str())
                } else {
                    Reaction::none()
                }
            },
            Event::Other => Reaction::none(),
        }
    }
}

} // verus!
