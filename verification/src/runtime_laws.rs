//! Laws of the event loop.

use vstd::prelude::*;
use vstd::utf8::encode_utf8;

use crate::agent::{output_is_taken_in_order, AgentModel, RuntimeAgent};
use crate::attach::with_arrivals;
use crate::capture::CaptureChange;
use crate::dispatch::{dispatched, Dispatch};
use crate::frame::follow_up;
use crate::geometry::Rect;
use crate::keymap::{the_first_binding_decides, Bindings, ScrollAction};
use crate::keys::{
    bracketed_paste, is_url_modifier, KeyCode, KeyEvent, KeyModifiers, ModifierKeyCode,
    MouseUrlModifier,
};
use crate::label::AnimationPhase;
use crate::layout::{pane_size, NavStyle};
use crate::mouse::{
    first_hit, hovered, MouseButton, MouseEventKind, PaneHitbox, Selection, UrlSpan,
};
use crate::nav::{finished_positions, position_of, with_output, NavModel, PopupState};
use crate::nav_laws::{
    focusing_keeps_positions_valid, peek_finds_exactly_the_finished, position_finds_the_first,
    reaping_takes_out_the_clean_exits, rearranging_keeps_the_user_on_the_same_agents,
    removal_keeps_positions_valid, steps_go_to_the_neighbours, steps_keep_positions_valid,
    the_finished_are_listed_in_order, unmarked,
};
use crate::render::{focused_pane_recorded, frame_pane_area, FrameState};
use crate::render_laws::the_pane_stays_in_the_frame;
use crate::runtime::{
    dispatch_reaction, initial, key_reaction, mouse_reaction, nothing_left, press_reaction,
    reaction, scrolled, Event, ReactionView, RuntimeModel,
};
use crate::selection::copied_text;

verus! {

proof fn dispatches_keep_it_valid<T, M>(ui: RuntimeModel<T, M>, dispatch: Dispatch)
    requires
        ui.valid(),
        ui.nav.agents.len() > 0,
    ensures
        dispatch_reaction(ui, dispatch).0.valid(),
{
    removal_keeps_positions_valid(ui.nav, ui.nav.focused);
    let idx = match dispatch {
        Dispatch::FocusAt(i) => i,
        _ => 0,
    };
    steps_keep_positions_valid(ui.nav, idx, crate::keymap::PopupAction::Cancel);
}

proof fn presses_keep_it_valid<T, M>(ui: RuntimeModel<T, M>, key: KeyEvent, bindings: Bindings)
    requires
        ui.valid(),
        ui.nav.agents.len() > 0,
    ensures
        press_reaction(ui, key, bindings).0.valid(),
{
    if let Some(action) = crate::keymap::first_action(bindings.on_popup.bindings@, key) {
        steps_keep_positions_valid(ui.nav, 0, action);
    }
    let (prefix_state, dispatch) = dispatched(ui.prefix_state, key, bindings);
    dispatches_keep_it_valid(RuntimeModel { prefix_state, ..ui }, dispatch);
}

/// The program starts valid, whatever agents it starts with.
pub proof fn the_start_is_valid<T, M>(
    agents: Seq<AgentModel<T>>,
    nav_style: NavStyle,
    mouse_captured: bool,
)
    requires
        agents.len() <= usize::MAX,
    ensures
        initial::<T, M>(agents, nav_style, mouse_captured).valid(),
        initial::<T, M>(agents, nav_style, mouse_captured).uncovered(),
        initial::<T, M>(agents, nav_style, mouse_captured).mouse_capture.in_line(),
{
}

/// Whatever the user does, every position the navigator holds stays one of an
/// agent, and the recorded pane stays one with cells.
pub proof fn events_keep_the_runtime_valid<T, M>(
    ui: RuntimeModel<T, M>,
    event: Event,
    bindings: Bindings,
    url_modifier: MouseUrlModifier,
    log_strip: bool,
)
    requires
        ui.valid(),
        ui.nav.agents.len() > 0,
    ensures
        reaction(ui, event, bindings, url_modifier, log_strip).0.valid(),
{
    match event {
        Event::Key(key) => presses_keep_it_valid(ui, key, bindings),
        Event::Mouse { kind, column, row, modifiers, span } => {
            let hit = crate::mouse::first_hit(ui.tabs, column, row);
            match crate::mouse::tab_dispatched(kind, hit, ui.mouse_press) {
                Some(crate::mouse::TabMouseDispatch::Click(id)) => {
                    position_finds_the_first(ui.nav.agents, id@);
                    if let Some(i) = position_of(ui.nav.agents, id@) {
                        focusing_keeps_positions_valid(ui.nav, i);
                    }
                },
                Some(crate::mouse::TabMouseDispatch::Reorder { from, to }) => {
                    rearranging_keeps_the_user_on_the_same_agents(ui.nav, from@, to@);
                },
                _ => {},
            }
        },
        _ => {},
    }
}

/// What happens between events keeps everything valid too: following the agents,
/// new agents that arrive or are started, and a new layout.
pub proof fn frames_keep_the_runtime_valid<T, M>(
    ui: RuntimeModel<T, M>,
    exits: Seq<Option<i32>>,
    bell_on_finish: bool,
    yield_on_failed: bool,
    phase: AnimationPhase,
    new: Seq<AgentModel<T>>,
    rows: u16,
    cols: u16,
)
    requires
        ui.valid(),
        exits.len() == ui.nav.agents.len(),
        ui.nav.agents.len() + new.len() < usize::MAX,
    ensures
        follow_up(ui, exits, bell_on_finish, yield_on_failed, phase).0.valid(),
        with_arrivals(ui.nav, new).valid(),
        new.len() > 0 ==> ui.nav.with_new_agent(new[0]).valid(),
        ui.nav.resized(rows, cols).valid(),
{
    let looked = ui.nav.with_transitions(
        finished_positions(ui.nav.agents),
        ui.nav.agents.map_values(|a: AgentModel<T>| a.working()),
    );
    reaping_takes_out_the_clean_exits(looked, exits);
}

/// Output reaches the screens of the agents that printed it and nothing else: it
/// keeps everything valid, and no agent moves, changes its name or loses its life.
pub proof fn output_keeps_the_runtime_valid<T, M>(
    ui: RuntimeModel<T, M>,
    printed: Seq<Vec<Vec<u8>>>,
    i: int,
)
    requires
        ui.valid(),
        printed.len() == ui.nav.agents.len(),
        0 <= i < ui.nav.agents.len(),
    ensures
        ({
            let after = RuntimeModel {
                nav: NavModel { agents: with_output(ui.nav.agents, printed), ..ui.nav },
                ..ui
            };
            let was = ui.nav.agents[i];
            let is = after.nav.agents[i];
            &&& after.valid()
            &&& after.nav.agents.len() == ui.nav.agents.len()
            &&& is == (AgentModel { state: is.state, ..was })
            &&& is.title() == was.title() && is.working() == was.working()
            &&& (is.state is Ready) == (was.state is Ready)
            &&& !(was.state is Ready) || printed[i]@.len() == 0 ==> is == was
        }),
{
}

proof fn nothing_unmarked_is_dropped<A>(items: Seq<A>, gone: Seq<bool>, n: nat)
    requires
        n <= items.len(),
        forall|j: int| 0 <= j < n ==> !gone[j],
    ensures
        unmarked(items, gone, n) == items.take(n as int),
    decreases n,
{
    if n > 0 {
        nothing_unmarked_is_dropped(items, gone, (n - 1) as nat);
        assert(items.take(n as int) =~= items.take(n - 1).push(items[n - 1]));
    } else {
        assert(unmarked(items, gone, 0) =~= items.take(0));
    }
}

/// Output goes on where it stopped: following the agents between two reads, while
/// none of their processes ends, leaves every emulator as it was, half-read
/// sequences and all, so that it ends up as if it had been given everything at once.
pub proof fn output_goes_on_across_frames<T, M>(
    ui: RuntimeModel<T, M>,
    first: Seq<Vec<Vec<u8>>>,
    more: Seq<Vec<Vec<u8>>>,
    exits: Seq<Option<i32>>,
    bell_on_finish: bool,
    yield_on_failed: bool,
    phase: AnimationPhase,
    i: int,
)
    requires
        ui.valid(),
        first.len() == ui.nav.agents.len(),
        more.len() == ui.nav.agents.len(),
        exits.len() == ui.nav.agents.len(),
        forall|j: int| 0 <= j < exits.len() ==> #[trigger] exits[j] is None,
        0 <= i < ui.nav.agents.len(),
    ensures
        ({
            let shown = RuntimeModel {
                nav: NavModel { agents: with_output(ui.nav.agents, first), ..ui.nav },
                ..ui
            };
            let after = follow_up(shown, exits, bell_on_finish, yield_on_failed, phase).0;
            &&& after.nav.agents.len() == ui.nav.agents.len()
            &&& with_output(after.nav.agents, more)[i].state
                == ui.nav.agents[i].state.with_output(first[i]@ + more[i]@)
        }),
{
    let nav = NavModel { agents: with_output(ui.nav.agents, first), ..ui.nav };
    let looked = nav.with_transitions(
        finished_positions(nav.agents),
        nav.agents.map_values(|a: AgentModel<T>| a.working()),
    );
    reaping_takes_out_the_clean_exits(looked, exits);
    let gone = Seq::new(
        looked.agents.len(),
        |j: int| looked.agents[j].state is Ready && exits[j] == Some(0i32),
    );
    let marked = Seq::new(
        looked.agents.len(),
        |j: int|
            if exits[j] is Some && exits[j]->0 != 0 {
                looked.agents[j].crashed(exits[j]->0)
            } else {
                looked.agents[j]
            },
    );
    nothing_unmarked_is_dropped(marked, gone, looked.agents.len());
    assert(marked.take(marked.len() as int) =~= marked);
    assert(marked[i].state == nav.agents[i].state);
    output_is_taken_in_order(ui.nav.agents[i], first[i]@, more[i]@);
}

/// The pane that drawing records has cells and lies in the terminal.
pub proof fn drawing_records_a_valid_pane<T>(
    area: Rect,
    state: FrameState<'_>,
    agents: Seq<RuntimeAgent<T>>,
    focused: usize,
)
    requires
        area.fits(),
    ensures
        ({
            let pane = focused_pane_recorded(
                PaneHitbox::nothing(),
                frame_pane_area(area, state),
                agents,
                focused,
            );
            &&& pane.valid()
            &&& pane.rect is Some ==> pane.rect->0.within(area) && focused < agents.len()
                && pane.agent_id == Some(agents[focused as int].id)
        }),
{
    the_pane_stays_in_the_frame(area, state);
}

/// Only what is sent to an agent brings its live screen back into view: moving
/// between agents and opening anything leaves every scroll position alone.
pub proof fn navigation_preserves_scroll_positions<T, M>(
    ui: RuntimeModel<T, M>,
    dispatch: Dispatch,
    i: int,
)
    requires
        ui.valid(),
        0 <= i < ui.nav.agents.len(),
        !(dispatch is Forward) && !(dispatch is DismissAgent) && !(dispatch is KillAgent),
    ensures
        ({
            let after = dispatch_reaction(ui, dispatch).0.nav;
            &&& after.agents.len() == ui.nav.agents.len()
            &&& after.agents[i].state == ui.nav.agents[i].state
            &&& after.agents[i].offset() == ui.nav.agents[i].offset()
            &&& after.agents[i].id == ui.nav.agents[i].id
        }),
{
}

/// What is typed or pasted goes to the focused agent and to no other, only if that
/// is live, and shows on its live screen; the focus stays. Where the live screen is
/// in view already, no agent changes at all.
pub proof fn writes_go_to_the_focused_agent<T, M>(
    ui: RuntimeModel<T, M>,
    event: Event,
    bindings: Bindings,
    url_modifier: MouseUrlModifier,
    log_strip: bool,
)
    requires
        ui.valid(),
        ui.nav.agents.len() > 0,
    ensures
        ({
            let (after, left) = reaction(ui, event, bindings, url_modifier, log_strip);
            left.write is Some ==> {
                &&& ui.uncovered()
                &&& ui.nav.focused_is_live() && after.nav.focused_is_live()
                &&& after.nav.focused == ui.nav.focused
                &&& after.nav.focused_offset() == 0
                &&& ui.nav.focused_offset() == 0 ==> after.nav.agents =~= ui.nav.agents
                &&& left.step is Continue
            }
        }),
{
}

/// While something is open over the agents, neither the mouse nor pasted text
/// reaches them; help gives way to any key, and the dialog gets every key that
/// help does not take.
pub proof fn overlays_shield_the_agents<T, M>(
    ui: RuntimeModel<T, M>,
    event: Event,
    bindings: Bindings,
    url_modifier: MouseUrlModifier,
    log_strip: bool,
)
    requires
        !ui.uncovered(),
    ensures
        ({
            let (after, left) = reaction(ui, event, bindings, url_modifier, log_strip);
            &&& event is Mouse || event is Paste ==> after == ui && left == nothing_left()
            &&& left.write is None && left.copy is None && left.open_url is None
            &&& event matches Event::Key(key) ==> !(key.code is Modifier) && !(
            key.kind is Release) ==> {
                &&& ui.help_state is Open ==> after == (RuntimeModel {
                    help_state: crate::render::HelpState::Closed,
                    ..ui
                }) && left == nothing_left()
                &&& !(ui.help_state is Open) && ui.spawn_ui is Some ==> after == ui && left.step
                    is DialogKey
            }
        }),
{
}

/// Keys that are let go do nothing, and a bare modifier touches nothing but the
/// mouse capture.
pub proof fn releases_do_nothing<T, M>(
    ui: RuntimeModel<T, M>,
    key: KeyEvent,
    bindings: Bindings,
    url_modifier: MouseUrlModifier,
)
    ensures
        key.kind is Release && !(key.code is Modifier) ==> key_reaction(
            ui,
            key,
            bindings,
            url_modifier,
        ) == (ui, nothing_left()),
        key.code is Modifier ==> key_reaction(ui, key, bindings, url_modifier).0 == (RuntimeModel {
            mouse_capture: key_reaction(ui, key, bindings, url_modifier).0.mouse_capture,
            ..ui
        }),
        key.code is Modifier && url_modifier is Off ==> key_reaction(
            ui,
            key,
            bindings,
            url_modifier,
        ) == (ui, nothing_left()),
{
}

/// After the agents were followed, a selection and a marked link belong to the
/// focused agent, the title is that of the focused agent and was given if it is
/// new, and the program goes on exactly while an agent is left.
pub proof fn marks_belong_to_the_focused_agent<T, M>(
    ui: RuntimeModel<T, M>,
    exits: Seq<Option<i32>>,
    bell_on_finish: bool,
    yield_on_failed: bool,
    phase: AnimationPhase,
)
    ensures
        ({
            let (after, left) = follow_up(ui, exits, bell_on_finish, yield_on_failed, phase);
            &&& left.exit == (after.nav.agents.len() == 0)
            &&& !left.exit && after.selection is Some ==> after.nav.focused_agent() is Some
                && after.nav.focused_agent()->0.id@ == after.selection->0.agent@
            &&& !left.exit && after.hover is Some ==> after.nav.focused_agent() is Some
                && after.nav.focused_agent()->0.id@ == after.hover->0.agent@
            &&& left.bell ==> bell_on_finish
            &&& left.title is Some ==> left.title != ui.host_title && left.title
                == after.host_title
            &&& !left.exit ==> after.host_title == after.nav.host_title(phase)
            &&& !left.exit ==> after.mouse_capture.reasons.focused_failed == (
            after.nav.focused_is_failed() && yield_on_failed)
        }),
{
}

/// A click on a tab, a press and a release on it, focuses its agent and moves
/// nothing.
pub proof fn clicking_a_tab_focuses_it<T, M>(ui: RuntimeModel<T, M>, column: u16, row: u16)
    requires
        ui.valid(),
        ui.nav.agents.len() > 0,
        ui.selection is None,
        ui.pane.hit(column, row) is None,
        crate::mouse::first_hit(ui.tabs, column, row) is Some,
        ui.hover is None,
    ensures
        ({
            let id = crate::mouse::first_hit(ui.tabs, column, row)->0;
            let down = crate::mouse::MouseEventKind::Down(crate::mouse::MouseButton::Left);
            let up = crate::mouse::MouseEventKind::Up(crate::mouse::MouseButton::Left);
            let pressed = mouse_reaction(ui, down, column, row, false, None).0;
            let released = mouse_reaction(pressed, up, column, row, false, None).0;
            released == (RuntimeModel { nav: ui.nav.focus_id(id@), mouse_press: None, ..ui })
        }),
{
}

/// Dragging over the pane and letting go copies what was dragged over, from where
/// it began to where it ended, and leaves nothing selected.
pub proof fn a_drag_copies_what_it_covers<T, M>(
    ui: RuntimeModel<T, M>,
    from_column: u16,
    from_row: u16,
    to_column: u16,
    to_row: u16,
)
    requires
        ui.valid(),
        ui.hover is None,
        ui.pane.hit(from_column, from_row) is Some,
    ensures
        ({
            let down = crate::mouse::MouseEventKind::Down(crate::mouse::MouseButton::Left);
            let drag = crate::mouse::MouseEventKind::Drag(crate::mouse::MouseButton::Left);
            let up = crate::mouse::MouseEventKind::Up(crate::mouse::MouseButton::Left);
            let (agent, anchor) = ui.pane.hit(from_column, from_row)->0;
            let head = ui.pane.nearest(to_column, to_row)->0;
            let armed = mouse_reaction(ui, down, from_column, from_row, false, None).0;
            let dragged = mouse_reaction(armed, drag, to_column, to_row, false, None).0;
            let (after, left) = mouse_reaction(dragged, up, to_column, to_row, false, None);
            &&& dragged.selection == Some(Selection { agent, anchor, head })
            &&& left.copy == crate::selection::copied_text(
                (Selection { agent, anchor, head }),
                ui.nav.agents,
                ui.pane,
            )
            &&& after == (RuntimeModel { selection: None, ..ui })
        }),
{
}

/// Whether nothing is left to be done outside but, at most, the step.
pub open spec fn leaves_nothing(left: ReactionView) -> bool {
    &&& left.capture is None && left.open_url is None && left.cursor is Unchanged
    &&& left.write is None && left.copy is None && left.resize is None
}

/// Whether two states differ in their navigators at most.
pub open spec fn same_but_nav<T, M>(a: RuntimeModel<T, M>, b: RuntimeModel<T, M>) -> bool {
    &&& a.nav_style == b.nav_style && a.prefix_state == b.prefix_state
    &&& a.help_state == b.help_state && a.spawn_ui == b.spawn_ui
    &&& a.tabs == b.tabs && a.pane == b.pane && a.mouse_press == b.mouse_press
    &&& a.selection == b.selection && a.hover == b.hover
    &&& a.mouse_capture == b.mouse_capture && a.host_title == b.host_title
}

/// Bytes for the program are left to be written exactly when the focused agent is
/// live, to the letter, and bring its live screen back into view. Nobody else is
/// touched.
pub proof fn forwarded_bytes_reach_a_live_agent<T, M>(ui: RuntimeModel<T, M>, bytes: Seq<u8>)
    requires
        ui.valid(),
        ui.nav.agents.len() > 0,
    ensures
        ({
            let (after, left) = dispatch_reaction(ui, Dispatch::Forward(bytes));
            let focused = ui.nav.agents[ui.nav.focused as int];
            &&& focused.state is Ready ==> left.write == Some(bytes)
            &&& !(focused.state is Ready) ==> left.write is None
            &&& left.step is Continue && left.capture is None && left.open_url is None
            &&& left.cursor is Unchanged && left.copy is None && left.resize is None
            &&& same_but_nav(after, ui)
            &&& after.nav.focused == ui.nav.focused
            &&& after.nav.previous_focused == ui.nav.previous_focused
            &&& after.nav.popup_state == ui.nav.popup_state
            &&& after.nav.agents.len() == ui.nav.agents.len()
            &&& after.nav.agents[ui.nav.focused as int].offset() == 0
            &&& after.nav.agents[ui.nav.focused as int].id == focused.id
            &&& forall|j: int|
                0 <= j < ui.nav.agents.len() && j != ui.nav.focused
                    ==> #[trigger] after.nav.agents[j] == ui.nav.agents[j]
        }),
{
}

/// Where the keys that move the focus go: to the right and to the left neighbour,
/// round the ends, back to the agent left, and to the position named, if there is an
/// agent there. Nothing else changes and nothing is left to be done.
pub proof fn focus_keys_move_the_focus<T, M>(ui: RuntimeModel<T, M>, i: usize)
    requires
        ui.valid(),
        ui.nav.agents.len() > 0,
    ensures
        ({
            let last = ui.nav.agents.len() - 1;
            let (next, left_next) = dispatch_reaction(ui, Dispatch::FocusNext);
            let (prev, left_prev) = dispatch_reaction(ui, Dispatch::FocusPrev);
            let (back, left_back) = dispatch_reaction(ui, Dispatch::FocusLast);
            let (there, left_there) = dispatch_reaction(ui, Dispatch::FocusAt(i));
            &&& next.nav.focused == if ui.nav.focused < last {
                ui.nav.focused + 1
            } else {
                0
            }
            &&& prev.nav.focused == if ui.nav.focused > 0 {
                ui.nav.focused - 1
            } else {
                last
            }
            &&& back.nav.focused == match ui.nav.previous_focused {
                Some(p) => p,
                None => ui.nav.focused,
            }
            &&& i <= last ==> there.nav.focused == i
            &&& i > last ==> there == ui
            &&& same_but_nav(next, ui) && same_but_nav(prev, ui)
            &&& same_but_nav(back, ui) && same_but_nav(there, ui)
            &&& left_next.step is Continue && leaves_nothing(left_next)
            &&& left_prev.step is Continue && leaves_nothing(left_prev)
            &&& left_back.step is Continue && leaves_nothing(left_back)
            &&& left_there.step is Continue && leaves_nothing(left_there)
        }),
{
    steps_go_to_the_neighbours(ui.nav);
}

/// What the other commands do. Toggling changes the style to the other one and asks
/// for a new layout; the switcher opens on the focused agent; help opens; spawning
/// asks for the dialog and quitting for the end, and both leave everything as it is.
pub proof fn commands_do_what_they_say<T, M>(ui: RuntimeModel<T, M>)
    ensures
        ({
            let (after, left) = dispatch_reaction(ui, Dispatch::ToggleNav);
            &&& after.nav_style != ui.nav_style
            &&& left.step is Relayout && leaves_nothing(left)
            &&& after == (RuntimeModel { nav_style: after.nav_style, ..ui })
        }),
        ({
            let (after, left) = dispatch_reaction(ui, Dispatch::OpenPopup);
            &&& after.nav.popup_state == (PopupState::Open { selection: ui.nav.focused })
            &&& after.nav.agents == ui.nav.agents && after.nav.focused == ui.nav.focused
            &&& after.nav.previous_focused == ui.nav.previous_focused
            &&& same_but_nav(after, ui)
            &&& left.step is Continue && leaves_nothing(left)
        }),
        ({
            let (after, left) = dispatch_reaction(ui, Dispatch::OpenHelp);
            &&& after.help_state is Open
            &&& after == (RuntimeModel { help_state: after.help_state, ..ui })
            &&& left.step is Continue && leaves_nothing(left)
        }),
        ({
            let (after, left) = dispatch_reaction(ui, Dispatch::SpawnAgent);
            after == ui && left.step is OpenDialog && leaves_nothing(left)
        }),
        ({
            let (after, left) = dispatch_reaction(ui, Dispatch::Exit);
            after == ui && left.step is Exit && leaves_nothing(left)
        }),
        ({
            let (after, left) = dispatch_reaction(ui, Dispatch::Consume);
            after == ui && left.step is Continue && leaves_nothing(left)
        }),
{
}

/// Dismissing takes the focused agent out unless it is live, and killing takes it out
/// whatever its state. The others stay, in order.
pub proof fn dismissing_spares_the_live<T, M>(ui: RuntimeModel<T, M>)
    requires
        ui.valid(),
        ui.nav.agents.len() > 0,
    ensures
        ({
            let (dismissed, left) = dispatch_reaction(ui, Dispatch::DismissAgent);
            let live = ui.nav.agents[ui.nav.focused as int].state is Ready;
            &&& live ==> dismissed == ui
            &&& !live ==> dismissed.nav.agents == ui.nav.agents.remove(ui.nav.focused as int)
            &&& same_but_nav(dismissed, ui)
            &&& left.step is Continue && leaves_nothing(left)
        }),
        ({
            let (killed, left) = dispatch_reaction(ui, Dispatch::KillAgent);
            &&& killed.nav.agents == ui.nav.agents.remove(ui.nav.focused as int)
            &&& same_but_nav(killed, ui)
            &&& left.step is Continue && leaves_nothing(left)
        }),
{
}

/// Who gets a key that is pressed. Help takes any key and closes; then the spawn
/// dialog takes every key; then the open switcher, where a key that is none of its
/// own does nothing; then the scroll keys, while the focused agent is scrolled back
/// and for no other agent; and then the prefix and the bindings.
pub proof fn keys_go_to_the_topmost_layer<T, M>(
    ui: RuntimeModel<T, M>,
    key: KeyEvent,
    bindings: Bindings,
    url_modifier: MouseUrlModifier,
    log_strip: bool,
    i: int,
)
    requires
        !(key.code is Modifier),
        !(key.kind is Release),
    ensures
        ({
            let (after, left) = reaction(ui, Event::Key(key), bindings, url_modifier, log_strip);
            let popup = bindings.on_popup.bindings@;
            let scroll = bindings.on_scroll.bindings@;
            let covered = ui.help_state is Open || ui.spawn_ui is Some;
            &&& ui.help_state is Open ==> {
                &&& after.help_state is Closed
                &&& after == (RuntimeModel { help_state: after.help_state, ..ui })
                &&& left.step is Continue && leaves_nothing(left)
            }
            &&& ui.help_state is Closed && ui.spawn_ui is Some ==> {
                &&& after == ui
                &&& left.step is DialogKey && leaves_nothing(left)
            }
            &&& !covered && ui.nav.popup_state is Open ==> {
                &&& left.step is Continue && leaves_nothing(left)
                &&& same_but_nav(after, ui)
                &&& (forall|j: int| 0 <= j < popup.len() ==> !(#[trigger] popup[j]).accepts(key))
                    ==> after == ui
                &&& 0 <= i < popup.len() && popup[i].accepts(key) && (forall|j: int|
                    0 <= j < i ==> !(#[trigger] popup[j]).accepts(key)) ==> after.nav
                    == ui.nav.popup_step(popup[i].action)
            }
            &&& !covered && ui.nav.popup_state is Closed && ui.nav.focused < ui.nav.agents.len()
                && ui.nav.agents[ui.nav.focused as int].offset() > 0 && 0 <= i < scroll.len()
                && scroll[i].accepts(key) && (forall|j: int|
                0 <= j < i ==> !(#[trigger] scroll[j]).accepts(key)) ==> {
                &&& left.step is Continue && leaves_nothing(left)
                &&& same_but_nav(after, ui)
                &&& after.nav == scrolled(ui.nav, scroll[i].action)
            }
            &&& !covered && ui.nav.popup_state is Closed && (ui.nav.focused >= ui.nav.agents.len()
                || ui.nav.agents[ui.nav.focused as int].offset() == 0 || (forall|j: int|
                0 <= j < scroll.len() ==> !(#[trigger] scroll[j]).accepts(key))) ==> {
                let (state, asked) = dispatched(ui.prefix_state, key, bindings);
                (after, left) == dispatch_reaction(
                    RuntimeModel { prefix_state: state, ..ui },
                    asked,
                )
            }
        }),
{
    the_first_binding_decides(bindings.on_popup.bindings@, key, i);
    the_first_binding_decides(bindings.on_scroll.bindings@, key, i);
}

/// Whether the view of the agent's screen lies within its history, and that can be
/// counted.
pub open spec fn view_within_history<T>(agent: AgentModel<T>) -> bool {
    match agent.state.screen() {
        Some(screen) => screen.offset <= screen.history.len() <= usize::MAX,
        None => true,
    }
}

/// What the scroll keys do to the focused agent, and to nobody else: a line or a page
/// up or down, a page being all rows of its pane but one, and to either end.
pub proof fn scroll_keys_move_the_focused_view<T>(nav: NavModel<T>, action: ScrollAction)
    requires
        nav.valid(),
        nav.agents.len() > 0,
        nav.agents[nav.focused as int].state.screen() is Some,
        view_within_history(nav.agents[nav.focused as int]),
    ensures
        ({
            let after = scrolled(nav, action);
            let agent = nav.agents[nav.focused as int];
            let screen = agent.state.screen()->0;
            let from = screen.offset;
            let top = screen.history.len();
            let to = after.agents[nav.focused as int].offset();
            let page: int = if agent.rows >= 2 {
                agent.rows - 1
            } else {
                1
            };
            &&& action is LineUp ==> to == if from < top {
                from + 1
            } else {
                top
            }
            &&& action is LineDown ==> to == if from > 0 {
                from - 1
            } else {
                0
            }
            &&& action is PageUp ==> to == if from + page < top {
                from + page
            } else {
                top as int
            }
            &&& action is PageDown ==> to == if from > page {
                from - page
            } else {
                0
            }
            &&& action is Top ==> to == top
            &&& action is Bottom || action is ExitScroll ==> to == 0
            &&& after.focused == nav.focused && after.previous_focused == nav.previous_focused
            &&& after.popup_state == nav.popup_state
            &&& after.agents.len() == nav.agents.len()
            &&& after.agents[nav.focused as int].id == agent.id
            &&& after.agents[nav.focused as int].rows == agent.rows
            &&& forall|j: int|
                0 <= j < nav.agents.len() && j != nav.focused ==> #[trigger] after.agents[j]
                    == nav.agents[j]
        }),
{
}

/// A notch of the wheel moves the focused agent's view by three rows, up into its
/// history and down to its live screen, wherever the mouse is and whatever is held,
/// and touches nothing else.
pub proof fn the_wheel_scrolls_three_rows<T, M>(
    ui: RuntimeModel<T, M>,
    column: u16,
    row: u16,
    ctrl_held: bool,
    span: Option<UrlSpan>,
)
    requires
        ui.valid(),
        ui.nav.agents.len() > 0,
        ui.nav.agents[ui.nav.focused as int].state.screen() is Some,
        view_within_history(ui.nav.agents[ui.nav.focused as int]),
    ensures
        ({
            let (up, left_up) = mouse_reaction(
                ui,
                MouseEventKind::ScrollUp,
                column,
                row,
                ctrl_held,
                span,
            );
            let (down, left_down) = mouse_reaction(
                ui,
                MouseEventKind::ScrollDown,
                column,
                row,
                ctrl_held,
                span,
            );
            let f = ui.nav.focused as int;
            let screen = ui.nav.agents[f].state.screen()->0;
            &&& up.nav.agents[f].offset() == if screen.offset + 3 <= screen.history.len() {
                screen.offset + 3
            } else {
                screen.history.len()
            }
            &&& down.nav.agents[f].offset() == if screen.offset >= 3 {
                screen.offset - 3
            } else {
                0
            }
            &&& same_but_nav(up, ui) && same_but_nav(down, ui)
            &&& up.nav.focused == ui.nav.focused && down.nav.focused == ui.nav.focused
            &&& left_up.step is Continue && leaves_nothing(left_up)
            &&& left_down.step is Continue && leaves_nothing(left_down)
            &&& forall|j: int|
                0 <= j < ui.nav.agents.len() && j != f ==> #[trigger] up.nav.agents[j]
                    == ui.nav.agents[j]
            &&& forall|j: int|
                0 <= j < ui.nav.agents.len() && j != f ==> #[trigger] down.nav.agents[j]
                    == ui.nav.agents[j]
        }),
{
}

/// A bare modifier that was chosen to lend the mouse lends it from the moment it goes
/// down until it comes up; holding it changes nothing, and other modifiers do nothing
/// at all. The terminal is asked for a change only where it captured the mouse and
/// there was no reason to lend it, or lent it and there is none left.
pub proof fn the_modifier_lends_the_mouse<T, M>(
    ui: RuntimeModel<T, M>,
    key: KeyEvent,
    modifier: ModifierKeyCode,
    bindings: Bindings,
    wanted: MouseUrlModifier,
    log_strip: bool,
)
    requires
        key.code == KeyCode::Modifier(modifier),
    ensures
        ({
            let (after, left) = reaction(ui, Event::Key(key), bindings, wanted, log_strip);
            let before = ui.mouse_capture;
            &&& !is_url_modifier(modifier, wanted) || key.kind is Repeat ==> after == ui
                && left.capture is None
            &&& is_url_modifier(modifier, wanted) && key.kind is Press ==> {
                &&& after.mouse_capture.reasons.url_modifier_held
                &&& left.capture is Some <==> before.mode is Captured
                    && !before.reasons.url_modifier_held
                &&& left.capture is Some ==> left.capture->0 is Release
            }
            &&& is_url_modifier(modifier, wanted) && key.kind is Release ==> {
                &&& !after.mouse_capture.reasons.url_modifier_held
                &&& before.reasons.url_modifier_held && before.mode is Yielded ==> (left.capture
                    == Some(CaptureChange::Capture) <==> !before.reasons.focused_failed)
                &&& !before.reasons.url_modifier_held ==> left.capture is None
            }
            &&& after.mouse_capture.mode == before.mode
            &&& after.mouse_capture.reasons.focused_failed == before.reasons.focused_failed
            &&& after == (RuntimeModel { mouse_capture: after.mouse_capture, ..ui })
            &&& left.step is Continue && left.write is None && left.copy is None
            &&& left.open_url is None && left.resize is None && left.cursor is Unchanged
        }),
{
}

/// The mouse over the agents without Ctrl: a press on the pane starts a selection on
/// the cell there, a drag moves its end, a release copies it and ends it. What was
/// marked as a link no longer is. No bytes are sent and no link is opened.
pub proof fn the_pane_selects_without_control<T, M>(
    ui: RuntimeModel<T, M>,
    column: u16,
    row: u16,
    span: Option<UrlSpan>,
)
    requires
        ui.valid(),
    ensures
        ({
            let (after, left) = mouse_reaction(
                ui,
                MouseEventKind::Down(MouseButton::Left),
                column,
                row,
                false,
                span,
            );
            ui.pane.hit(column, row) is Some ==> {
                let (agent, cell) = ui.pane.hit(column, row)->0;
                &&& after.selection == Some(Selection { agent, anchor: cell, head: cell })
                &&& after == (RuntimeModel { selection: after.selection, hover: None, ..ui })
                &&& left.copy is None && left.write is None && left.open_url is None
            }
        }),
        ({
            let (after, left) = mouse_reaction(
                ui,
                MouseEventKind::Drag(MouseButton::Left),
                column,
                row,
                false,
                span,
            );
            ui.selection is Some && ui.pane.rect is Some ==> {
                &&& after.selection == Some(
                    Selection { head: ui.pane.nearest(column, row)->0, ..ui.selection->0 },
                )
                &&& after == (RuntimeModel { selection: after.selection, hover: None, ..ui })
                &&& left.copy is None && left.write is None && left.open_url is None
            }
        }),
        ({
            let (after, left) = mouse_reaction(
                ui,
                MouseEventKind::Up(MouseButton::Left),
                column,
                row,
                false,
                span,
            );
            ui.selection is Some ==> {
                &&& after == (RuntimeModel { selection: None, hover: None, ..ui })
                &&& left.copy == copied_text(ui.selection->0, ui.nav.agents, ui.pane)
                &&& left.write is None && left.open_url is None
            }
        }),
{
}

/// The mouse outside the pane, with no selection under way: a press on a tab grabs
/// it, a release on it focuses its agent, a release on another tab moves it there,
/// and a release elsewhere lets it go. Whatever Ctrl does, nothing is sent or copied.
pub proof fn tabs_are_grabbed_clicked_and_moved<T, M>(
    ui: RuntimeModel<T, M>,
    column: u16,
    row: u16,
    ctrl_held: bool,
)
    requires
        ui.valid(),
        ui.selection is None,
        ui.hover is None,
        ui.pane.hit(column, row) is None,
    ensures
        ({
            let (after, left) = mouse_reaction(
                ui,
                MouseEventKind::Down(MouseButton::Left),
                column,
                row,
                ctrl_held,
                None,
            );
            &&& first_hit(ui.tabs, column, row) is None ==> after == ui
            &&& first_hit(ui.tabs, column, row) is Some ==> after == (RuntimeModel {
                mouse_press: first_hit(ui.tabs, column, row),
                ..ui
            })
            &&& left.step is Continue && leaves_nothing(left)
        }),
        ({
            let (after, left) = mouse_reaction(
                ui,
                MouseEventKind::Up(MouseButton::Left),
                column,
                row,
                ctrl_held,
                None,
            );
            let target = first_hit(ui.tabs, column, row);
            &&& left.step is Continue && leaves_nothing(left)
            &&& ui.mouse_press is None ==> after == ui
            &&& ui.mouse_press is Some ==> {
                &&& after.mouse_press is None
                &&& after == (RuntimeModel { nav: after.nav, mouse_press: None, ..ui })
                &&& target is None ==> after.nav == ui.nav
                &&& target is Some && target->0@ == ui.mouse_press->0@ ==> after.nav
                    == ui.nav.focus_id(ui.mouse_press->0@)
                &&& target is Some && target->0@ != ui.mouse_press->0@ ==> after.nav
                    == ui.nav.rearranged(ui.mouse_press->0@, target->0@)
            }
        }),
{
}

/// Ctrl and the mouse: moving marks the link under the mouse or none, a left click on
/// a link opens just that link, and neither selects anything or touches the tabs. The
/// cursor changes exactly when a link came or went.
pub proof fn control_marks_and_opens_links<T, M>(
    ui: RuntimeModel<T, M>,
    column: u16,
    row: u16,
    span: Option<UrlSpan>,
)
    ensures
        ({
            let link = hovered(ui.pane, ui.nav.agents, column, row, span);
            let (moved, left) = mouse_reaction(ui, MouseEventKind::Moved, column, row, true, span);
            &&& moved == (RuntimeModel { hover: link, ..ui })
            &&& left.cursor is Activated <==> ui.hover is None && link is Some
            &&& left.cursor is Deactivated <==> ui.hover is Some && link is None
            &&& left.open_url is None && left.copy is None && left.write is None
            &&& left.step is Continue
        }),
        ({
            let link = hovered(ui.pane, ui.nav.agents, column, row, span);
            let (clicked, left) = mouse_reaction(
                ui,
                MouseEventKind::Down(MouseButton::Left),
                column,
                row,
                true,
                span,
            );
            &&& link is Some ==> {
                &&& left.open_url == Some(link->0.url@)
                &&& clicked == (RuntimeModel { hover: link, ..ui })
                &&& left.copy is None && left.write is None && left.step is Continue
                &&& left.cursor is Activated <==> ui.hover is None
                &&& left.cursor is Deactivated ==> false
            }
            &&& link is None ==> left.open_url is None && clicked.hover == ui.hover
        }),
{
}

/// Without Ctrl no link is ever opened, and a link that was marked is unmarked by the
/// first thing the pointer does; the wheel leaves it.
pub proof fn links_need_control<T, M>(
    ui: RuntimeModel<T, M>,
    kind: MouseEventKind,
    column: u16,
    row: u16,
    span: Option<UrlSpan>,
)
    requires
        kind != MouseEventKind::ScrollUp,
        kind != MouseEventKind::ScrollDown,
    ensures
        ({
            let (after, left) = mouse_reaction(ui, kind, column, row, false, span);
            &&& left.open_url is None
            &&& after.hover is None
            &&& left.cursor is Deactivated <==> ui.hover is Some
            &&& left.cursor is Activated ==> false
            &&& left.step is Continue && left.write is None && left.resize is None
            &&& left.capture is None
        }),
{
}

/// A new size of the terminal: every agent's pane gets what the chrome leaves of it,
/// in the style in use; the terminals of the agents are to get the same; and what was
/// marked on the screens is not marked any more. Focus and identities stay.
pub proof fn a_resize_reaches_every_agent<T, M>(
    ui: RuntimeModel<T, M>,
    cols: u16,
    rows: u16,
    bindings: Bindings,
    url_modifier: MouseUrlModifier,
    log_strip: bool,
    i: int,
)
    requires
        0 <= i < ui.nav.agents.len(),
    ensures
        ({
            let (after, left) = reaction(
                ui,
                Event::Resize { cols, rows },
                bindings,
                url_modifier,
                log_strip,
            );
            let size = pane_size(ui.nav_style, rows, cols, log_strip);
            &&& left.resize == Some(size)
            &&& after.nav.agents.len() == ui.nav.agents.len()
            &&& after.nav.agents[i].rows == size.0 && after.nav.agents[i].cols == size.1
            &&& after.nav.agents[i].id == ui.nav.agents[i].id
            &&& after.nav.agents[i].state == ui.nav.agents[i].state.resized(size.0, size.1)
            &&& after.nav.focused == ui.nav.focused
            &&& after.nav.previous_focused == ui.nav.previous_focused
            &&& after.nav.popup_state == ui.nav.popup_state
            &&& after.selection is None && after.hover is None
            &&& after == (RuntimeModel { nav: after.nav, selection: None, hover: None, ..ui })
            &&& left.cursor is Deactivated <==> ui.hover is Some
            &&& left.cursor is Activated ==> false
            &&& left.step is Continue && left.write is None && left.copy is None
        }),
{
}

/// Pasted text goes to a live focused agent in one piece, wrapped as a paste, and
/// shows its live screen; an agent that is not live gets nothing.
pub proof fn a_paste_goes_to_the_live_agent_in_one_piece<T, M>(
    ui: RuntimeModel<T, M>,
    text: String,
    bindings: Bindings,
    url_modifier: MouseUrlModifier,
    log_strip: bool,
)
    requires
        ui.valid(),
        ui.nav.agents.len() > 0,
        ui.spawn_ui is None,
        ui.nav.popup_state is Closed,
        ui.help_state is Closed,
    ensures
        ({
            let (after, left) = reaction(ui, Event::Paste(text), bindings, url_modifier, log_strip);
            let f = ui.nav.focused as int;
            &&& ui.nav.agents[f].state is Ready ==> left.write == Some(bracketed_paste(text@))
            &&& !(ui.nav.agents[f].state is Ready) ==> left.write is None
            &&& after.nav.agents[f].offset() == 0
            &&& after.nav.focused == ui.nav.focused
            &&& same_but_nav(after, ui)
            &&& left.step is Continue && left.copy is None && left.open_url is None
            &&& left.resize is None && left.capture is None
            &&& forall|j: int|
                0 <= j < ui.nav.agents.len() && j != f ==> #[trigger] after.nav.agents[j]
                    == ui.nav.agents[j]
        }),
{
}

/// When the window loses the keyboard a held modifier counts as released, no link
/// stays marked, and nothing else changes. An event of no interest changes nothing.
pub proof fn losing_the_keyboard_lets_go<T, M>(
    ui: RuntimeModel<T, M>,
    bindings: Bindings,
    url_modifier: MouseUrlModifier,
    log_strip: bool,
)
    ensures
        ({
            let (after, left) = reaction(ui, Event::FocusLost, bindings, url_modifier, log_strip);
            let before = ui.mouse_capture;
            &&& !after.mouse_capture.reasons.url_modifier_held
            &&& after.mouse_capture.reasons.focused_failed == before.reasons.focused_failed
            &&& after.mouse_capture.mode == before.mode
            &&& after.hover is None
            &&& after == (RuntimeModel {
                hover: None,
                mouse_capture: after.mouse_capture,
                ..ui
            })
            &&& left.cursor is Deactivated <==> ui.hover is Some
            &&& left.capture == Some(CaptureChange::Capture) <==> before.reasons.url_modifier_held
                && before.mode is Yielded && !before.reasons.focused_failed
            &&& left.step is Continue && left.write is None && left.copy is None
            &&& left.open_url is None && left.resize is None
        }),
        ({
            let (after, left) = reaction(ui, Event::Other, bindings, url_modifier, log_strip);
            after == ui && left.step is Continue && leaves_nothing(left)
        }),
{
}

/// A character that is typed with nothing in its way reaches a live focused agent as
/// its UTF-8 encoding, and the focus stays: nothing is open, the agent is not scrolled
/// back, no prefix is pending, and the key is neither the prefix nor bound.
pub proof fn typed_text_reaches_the_focused_agent<T, M>(
    ui: RuntimeModel<T, M>,
    key: KeyEvent,
    c: char,
    bindings: Bindings,
    url_modifier: MouseUrlModifier,
    log_strip: bool,
)
    requires
        ui.valid(),
        ui.nav.agents.len() > 0,
        ui.spawn_ui is None,
        ui.nav.popup_state is Closed,
        ui.help_state is Closed,
        ui.nav.agents[ui.nav.focused as int].state is Ready,
        ui.nav.agents[ui.nav.focused as int].offset() == 0,
        ui.prefix_state is Idle,
        key.code == KeyCode::Char(c),
        !key.modifiers.control,
        !(key.kind is Release),
        !bindings.prefix.accepts(key),
        forall|j: int|
            0 <= j < bindings.on_direct.bindings@.len() ==> !(
            #[trigger] bindings.on_direct.bindings@[j]).accepts(key),
    ensures
        ({
            let (after, left) = reaction(ui, Event::Key(key), bindings, url_modifier, log_strip);
            &&& left.write == Some(encode_utf8(seq![c]))
            &&& left.step is Continue
            &&& after.nav.focused == ui.nav.focused
            &&& after.nav.agents =~= ui.nav.agents
            &&& same_but_nav(after, ui)
        }),
{
    the_first_binding_decides(bindings.on_direct.bindings@, key, 0);
}

/// At the start the first agent has the focus, nothing is open or marked, nothing was
/// drawn, no prefix is pending, and the mouse is captured exactly if the terminal gave
/// it away.
pub proof fn the_start_is_plain<T, M>(
    agents: Seq<AgentModel<T>>,
    nav_style: NavStyle,
    mouse_captured: bool,
)
    ensures
        ({
            let ui = initial::<T, M>(agents, nav_style, mouse_captured);
            &&& ui.nav.agents == agents && ui.nav.focused == 0
            &&& ui.nav.previous_focused is None && ui.nav.popup_state is Closed
            &&& ui.nav_style == nav_style && ui.prefix_state is Idle
            &&& ui.help_state is Closed && ui.spawn_ui is None
            &&& ui.tabs.len() == 0 && ui.pane.rect is None && ui.pane.agent_id is None
            &&& ui.mouse_press is None && ui.selection is None && ui.hover is None
            &&& ui.host_title is None
            &&& mouse_captured ==> ui.mouse_capture.mode is Captured
            &&& !mouse_captured ==> ui.mouse_capture.mode is Disabled
            &&& !ui.mouse_capture.reasons.url_modifier_held
            &&& !ui.mouse_capture.reasons.focused_failed
        }),
{
}

/// What following the agents reports. The bell rings exactly when it is wanted and an
/// agent that was at work is not any more, focused or not. The program ends exactly
/// when no agent is left. The title is given exactly when it is another than the last.
/// A marked link is dropped, and the cursor with it, exactly when its agent is no
/// longer in focus.
pub proof fn following_reports_what_changed<T, M>(
    ui: RuntimeModel<T, M>,
    exits: Seq<Option<i32>>,
    bell_on_finish: bool,
    yield_on_failed: bool,
    phase: AnimationPhase,
)
    requires
        ui.nav.agents.len() <= usize::MAX,
    ensures
        ({
            let (after, left) = follow_up(ui, exits, bell_on_finish, yield_on_failed, phase);
            let some_finished = exists|i: int|
                0 <= i < ui.nav.agents.len() && (#[trigger] ui.nav.agents[i]).last_working
                    && !ui.nav.agents[i].working();
            &&& left.bell <==> bell_on_finish && some_finished
            &&& left.exit <==> after.nav.agents.len() == 0
            &&& left.exit ==> left.title is None && left.capture is None && left.cursor
                is Unchanged && after == (RuntimeModel { nav: after.nav, ..ui })
            &&& !left.exit ==> {
                &&& after.host_title == ui.host_title ==> left.title is None
                &&& after.host_title != ui.host_title ==> left.title == after.host_title
                &&& left.cursor is Deactivated <==> ui.hover is Some && after.hover is None
                &&& left.cursor is Activated ==> false
                &&& after.hover is Some ==> after.hover == ui.hover
                &&& after.selection is Some ==> after.selection == ui.selection
                &&& after.nav.focused < after.nav.agents.len() ==> {
                    let id = after.nav.agents[after.nav.focused as int].id@;
                    &&& ui.hover is Some && ui.hover->0.agent@ == id ==> after.hover == ui.hover
                    &&& ui.selection is Some && ui.selection->0.agent@ == id ==> after.selection
                        == ui.selection
                    &&& ui.hover is Some && ui.hover->0.agent@ != id ==> after.hover is None
                    &&& ui.selection is Some && ui.selection->0.agent@ != id ==> after.selection
                        is None
                    &&& after.mouse_capture.reasons.focused_failed <==> yield_on_failed
                        && after.nav.agents[after.nav.focused as int].state is Failed
                }
                &&& after.mouse_capture.mode == ui.mouse_capture.mode
                &&& after.mouse_capture.reasons.url_modifier_held
                    == ui.mouse_capture.reasons.url_modifier_held
                &&& after.nav_style == ui.nav_style && after.prefix_state == ui.prefix_state
                &&& after.help_state == ui.help_state && after.spawn_ui == ui.spawn_ui
                &&& after.tabs == ui.tabs && after.pane == ui.pane
                &&& after.mouse_press == ui.mouse_press
            }
        }),
{
    let found = finished_positions(ui.nav.agents);
    the_finished_are_listed_in_order(ui.nav.agents);
    if found.len() > 0 {
        assert(ui.nav.agents[found[0] as int].last_working);
    }
    if exists|i: int|
        0 <= i < ui.nav.agents.len() && (#[trigger] ui.nav.agents[i]).last_working
            && !ui.nav.agents[i].working() {
        let i = choose|i: int|
            0 <= i < ui.nav.agents.len() && (#[trigger] ui.nav.agents[i]).last_working
                && !ui.nav.agents[i].working();
        assert(found.contains(i as usize));
    }
}

/// What becomes of an agent that is alone and in focus when it is followed: one whose
/// process goes on, or that was not live, stays what it is; a live one that ended with
/// zero is gone; a live one that ended otherwise is crashed with that code.
pub proof fn following_a_single_agent<T>(agent: AgentModel<T>, exit: Option<i32>)
    ensures
        ({
            let nav = NavModel {
                agents: seq![agent],
                focused: 0,
                previous_focused: None,
                popup_state: PopupState::Closed,
            };
            let after = nav.followed(seq![exit]);
            &&& agent.state is Ready && exit == Some(0i32) ==> after.agents.len() == 0
            &&& !(agent.state is Ready && exit == Some(0i32)) ==> {
                &&& after.agents.len() == 1
                &&& after.agents[0].id == agent.id
                &&& after.agents[0].last_working == agent.working()
                &&& after.agents[0].needs_attention == agent.needs_attention
                &&& agent.state is Ready && exit is Some ==> after.agents[0].state is Crashed
                    && after.agents[0].state->exit_code == exit->0
                &&& !(agent.state is Ready) || exit is None ==> after.agents[0].state
                    == agent.state
            }
        }),
{
    let nav = NavModel {
        agents: seq![agent],
        focused: 0,
        previous_focused: None,
        popup_state: PopupState::Closed,
    };
    let finished = finished_positions(nav.agents);
    let working = nav.agents.map_values(|a: AgentModel<T>| a.working());
    let noted = nav.with_transitions(finished, working);
    reveal_with_fuel(NavModel::without_marked, 3);
    assert(noted.agents.len() == 1);
}

/// While no live agent's process ends, following the agents keeps them all in their
/// places and states: what each is doing is put on record, and who finished out of
/// focus asks for attention.
pub proof fn following_keeps_the_others_in_order<T>(nav: NavModel<T>, exits: Seq<Option<i32>>)
    requires
        nav.valid(),
        exits.len() == nav.agents.len(),
        forall|i: int|
            0 <= i < exits.len() ==> !(nav.agents[i].state is Ready && #[trigger] exits[i] is Some),
    ensures
        ({
            let after = nav.followed(exits);
            &&& after.agents.len() == nav.agents.len()
            &&& after.focused == nav.focused && after.previous_focused == nav.previous_focused
            &&& after.popup_state == nav.popup_state
            &&& forall|i: int|
                0 <= i < nav.agents.len() ==> {
                    &&& (#[trigger] after.agents[i]).id == nav.agents[i].id
                    &&& after.agents[i].state == nav.agents[i].state
                    &&& after.agents[i].last_working == nav.agents[i].working()
                    &&& after.agents[i].needs_attention <==> nav.agents[i].needs_attention || (i
                        != nav.focused && nav.agents[i].last_working
                        && !nav.agents[i].working())
                }
        }),
{
    let finished = finished_positions(nav.agents);
    let working = nav.agents.map_values(|a: AgentModel<T>| a.working());
    let noted = nav.with_transitions(finished, working);
    let gone = Seq::new(
        noted.agents.len(),
        |i: int| noted.agents[i].state is Ready && exits[i] == Some(0i32),
    );
    let marked = NavModel {
        agents: Seq::new(
            noted.agents.len(),
            |i: int|
                if exits[i] is Some && exits[i]->0 != 0 {
                    noted.agents[i].crashed(exits[i]->0)
                } else {
                    noted.agents[i]
                },
        ),
        ..noted
    };
    assert forall|i: int| 0 <= i < noted.agents.len() implies !(#[trigger] gone[i]) by {
        assert(!(nav.agents[i].state is Ready && exits[i] is Some));
    }
    assert(marked.agents =~= noted.agents) by {
        assert forall|i: int| 0 <= i < noted.agents.len() implies #[trigger] marked.agents[i]
            == noted.agents[i] by {
            assert(!(nav.agents[i].state is Ready && exits[i] is Some));
        }
    }
    nothing_marked_nothing_gone(marked, gone, nav.agents.len());
    assert forall|i: int| 0 <= i < nav.agents.len() implies {
        noted.agents[i].needs_attention <==> nav.agents[i].needs_attention || (i != nav.focused
            && (#[trigger] nav.agents[i]).last_working && !nav.agents[i].working())
    } by {
        peek_finds_exactly_the_finished(nav.agents, i as usize);
    }
}

proof fn nothing_marked_nothing_gone<T>(nav: NavModel<T>, gone: Seq<bool>, n: nat)
    requires
        n <= gone.len(),
        forall|i: int| 0 <= i < gone.len() ==> !(#[trigger] gone[i]),
    ensures
        nav.without_marked(gone, n) == nav,
    decreases n,
{
    if n > 0 {
        nothing_marked_nothing_gone(nav, gone, (n - 1) as nat);
    }
}

/// What the pointer does that is none of the gestures changes nothing but that a marked
/// link is unmarked: moving without Ctrl, another button than the left one, a drag or a
/// release that nothing was pressed for.
pub proof fn other_pointer_events_change_nothing<T, M>(
    ui: RuntimeModel<T, M>,
    kind: MouseEventKind,
    column: u16,
    row: u16,
    span: Option<UrlSpan>,
)
    requires
        kind != MouseEventKind::ScrollUp,
        kind != MouseEventKind::ScrollDown,
        kind != MouseEventKind::Down(MouseButton::Left),
        kind != MouseEventKind::Up(MouseButton::Left) || (ui.selection is None && ui.mouse_press
            is None),
        kind != MouseEventKind::Drag(MouseButton::Left) || ui.selection is None,
    ensures
        ({
            let (after, left) = mouse_reaction(ui, kind, column, row, false, span);
            &&& after == (RuntimeModel { hover: None, ..ui })
            &&& left.copy is None && left.write is None && left.open_url is None
            &&& left.step is Continue
        }),
{
}

/// Ctrl makes no difference to what the pointer does but for moving and for a left
/// click on a link: selections and tabs go on as without it, and a marked link stays.
pub proof fn control_only_concerns_links<T, M>(
    ui: RuntimeModel<T, M>,
    kind: MouseEventKind,
    column: u16,
    row: u16,
    span: Option<UrlSpan>,
)
    requires
        !(kind is Moved),
        kind != MouseEventKind::Down(MouseButton::Left) || hovered(
            ui.pane,
            ui.nav.agents,
            column,
            row,
            span,
        ) is None,
    ensures
        ({
            let (with, left_with) = mouse_reaction(ui, kind, column, row, true, span);
            let (without, left_without) = mouse_reaction(ui, kind, column, row, false, span);
            &&& with == (RuntimeModel { hover: ui.hover, ..without })
            &&& left_with.copy == left_without.copy
            &&& left_with.cursor is Unchanged
            &&& left_with.open_url is None && left_with.write is None
            &&& left_with.step is Continue
        }),
{
}

/// The mouse and pasted text reach the agents exactly while nothing is open over them:
/// the spawn dialog, the switcher and the help screen each keep them away.
pub proof fn open_layers_keep_the_mouse_away<T, M>(
    ui: RuntimeModel<T, M>,
    kind: MouseEventKind,
    column: u16,
    row: u16,
    modifiers: KeyModifiers,
    span: Option<UrlSpan>,
    bindings: Bindings,
    url_modifier: MouseUrlModifier,
    log_strip: bool,
)
    ensures
        ({
            let (after, left) = reaction(
                ui,
                Event::Mouse { kind, column, row, modifiers, span },
                bindings,
                url_modifier,
                log_strip,
            );
            let open = ui.spawn_ui is Some || ui.nav.popup_state is Open || ui.help_state is Open;
            &&& open ==> after == ui && left.step is Continue && leaves_nothing(left)
            &&& !open ==> (after, left) == mouse_reaction(
                ui,
                kind,
                column,
                row,
                modifiers.control,
                span,
            )
        }),
{
}

/// What following the agents asks of the terminal about the mouse: to release it when
/// the focus has come to an agent that never came up and nothing else lent it, to
/// capture it when the focus has left one and nothing else lends it, and nothing while
/// that does not change.
pub proof fn following_lends_the_mouse_on_failed_agents<T, M>(
    ui: RuntimeModel<T, M>,
    exits: Seq<Option<i32>>,
    bell_on_finish: bool,
    yield_on_failed: bool,
    phase: AnimationPhase,
)
    ensures
        ({
            let (after, left) = follow_up(ui, exits, bell_on_finish, yield_on_failed, phase);
            let before = ui.mouse_capture;
            let failed = after.nav.focused < after.nav.agents.len()
                && after.nav.agents[after.nav.focused as int].state is Failed && yield_on_failed;
            !left.exit ==> {
                &&& failed == before.reasons.focused_failed ==> left.capture is None
                &&& failed && !before.reasons.focused_failed ==> (left.capture == Some(
                    CaptureChange::Release,
                ) <==> before.mode is Captured)
                &&& !failed && before.reasons.focused_failed ==> (left.capture == Some(
                    CaptureChange::Capture,
                ) <==> before.mode is Yielded && !before.reasons.url_modifier_held)
                &&& before.mode is Disabled ==> left.capture is None
            }
        }),
{
}

} // verus!
