//! The event loop: what the user's input does, what is done between events, and
//! what is asked of the host system.

use codemux::agent::{AgentId, AgentState, RuntimeAgent, TitleCapture};
use codemux::capture::{CaptureChange, CaptureMode};
use codemux::dispatch::PrefixState;
use codemux::geometry::{CellPos, Rect};
use codemux::keymap::{
    Binding, Bindings, DirectAction, KeyChord, ModalChord, PopupAction, PrefixAction, Scope,
    ScrollAction,
};
use codemux::keys::{
    KeyCode, KeyEvent, KeyEventKind, KeyModifiers, ModifierKeyCode, MouseUrlModifier,
};
use codemux::label::AnimationPhase;
use codemux::layout::NavStyle;
use codemux::mouse::{
    ColRange, HoverTransition, HoverUrl, MouseButton, MouseEventKind, Selection, UrlSpan,
};
use codemux::nav::PopupState;
use codemux::render::{HelpState, Segments};
use codemux::runtime::{no_overlay_active, Event, Reaction, Runtime, Step};
use codemux::startup::{
    keyboard_flags, needs_modifier_events, opener_command, restore_steps, Acquired, KeyboardFlags,
    Platform, Restore,
};
use codemux::style::ChromeStyle;

fn none() -> KeyModifiers {
    KeyModifiers::none()
}

fn sup() -> KeyModifiers {
    KeyModifiers { super_key: true, ..KeyModifiers::none() }
}

fn ctrl() -> KeyModifiers {
    KeyModifiers { control: true, ..KeyModifiers::none() }
}

fn key(code: KeyCode, modifiers: KeyModifiers) -> KeyEvent {
    KeyEvent { code, modifiers, kind: KeyEventKind::Press }
}

fn chord(code: KeyCode, modifiers: KeyModifiers) -> KeyChord {
    KeyChord { code, modifiers }
}

fn letter(c: char) -> KeyChord {
    KeyChord::plain(KeyCode::Char(c))
}

fn bind<A>(action: A, chord: KeyChord, aliases: Vec<KeyChord>, label: &str, description: &str) -> Binding<A> {
    Binding {
        action,
        chord,
        aliases,
        label: label.to_string(),
        description: description.to_string(),
    }
}

fn defaults() -> Bindings {
    let on_prefix = vec![
        bind(PrefixAction::Quit, letter('q'), vec![], "q", "quit"),
        bind(PrefixAction::SpawnAgent, letter('c'), vec![], "c", "spawn an agent"),
        bind(PrefixAction::FocusNext, letter('n'), vec![letter('l'), letter('j')], "n", "focus the next agent"),
        bind(PrefixAction::FocusPrev, letter('p'), vec![letter('h'), letter('k')], "p", "focus the previous agent"),
        bind(PrefixAction::FocusLast, KeyChord::plain(KeyCode::Tab), vec![], "tab", "bounce to the last agent"),
        bind(PrefixAction::ToggleNav, letter('v'), vec![], "v", "toggle the navigator"),
        bind(PrefixAction::OpenSwitcher, letter('w'), vec![], "w", "open the switcher"),
        bind(PrefixAction::DismissAgent, letter('d'), vec![], "d", "dismiss a dead agent"),
        bind(PrefixAction::KillAgent, letter('x'), vec![], "x", "kill an agent"),
        bind(PrefixAction::Help, letter('?'), vec![], "?", "help"),
    ];
    let on_direct = vec![
        bind(DirectAction::SpawnAgent, chord(KeyCode::Char('\\'), sup()), vec![], "super+\\", "spawn an agent"),
        bind(DirectAction::FocusNext, chord(KeyCode::Char('\''), sup()), vec![], "super+'", "focus the next agent"),
        bind(DirectAction::FocusPrev, chord(KeyCode::Char(';'), sup()), vec![], "super+;", "focus the previous agent"),
        bind(DirectAction::FocusLast, chord(KeyCode::Tab, sup()), vec![], "super+tab", "bounce to the last agent"),
    ];
    let on_popup = vec![
        bind(PopupAction::Next, KeyChord::plain(KeyCode::Down), vec![letter('j')], "down", "next"),
        bind(PopupAction::Prev, KeyChord::plain(KeyCode::Up), vec![letter('k')], "up", "previous"),
        bind(PopupAction::Confirm, KeyChord::plain(KeyCode::Enter), vec![], "enter", "focus"),
        bind(PopupAction::Cancel, KeyChord::plain(KeyCode::Esc), vec![], "esc", "close"),
    ];
    let on_scroll = vec![
        bind(ScrollAction::LineUp, KeyChord::plain(KeyCode::Up), vec![], "up", "one line up"),
        bind(ScrollAction::LineDown, KeyChord::plain(KeyCode::Down), vec![], "down", "one line down"),
        bind(ScrollAction::PageUp, KeyChord::plain(KeyCode::PageUp), vec![], "pgup", "one page up"),
        bind(ScrollAction::PageDown, KeyChord::plain(KeyCode::PageDown), vec![], "pgdn", "one page down"),
        bind(ScrollAction::Top, letter('g'), vec![], "g", "to the top"),
        bind(ScrollAction::Bottom, letter('G'), vec![], "G", "to the bottom"),
        bind(ScrollAction::ExitScroll, KeyChord::plain(KeyCode::Esc), vec![], "esc", "back to live"),
    ];
    Bindings {
        prefix: KeyChord::ctrl(KeyCode::Char('b')),
        prefix_label: "ctrl+b".to_string(),
        on_prefix: Scope { bindings: on_prefix },
        on_direct: Scope { bindings: on_direct },
        on_popup: Scope { bindings: on_popup },
        on_scroll: Scope { bindings: on_scroll },
        on_modal: vec![ModalChord {
            chord: KeyChord::plain(KeyCode::Esc),
            label: "esc".to_string(),
            description: "close".to_string(),
        }],
    }
}

type Rt = Runtime<(), &'static str>;

fn live(name: &str) -> RuntimeAgent<()> {
    RuntimeAgent::ready(AgentId::new(name), name.to_string(), None, None, None, (), 5, 20, 100)
}

fn failed(name: &str) -> RuntimeAgent<()> {
    RuntimeAgent::failed(
        AgentId::new(name),
        name.to_string(),
        None,
        None,
        "host".to_string(),
        "no route".to_string(),
        5,
        20,
    )
}

fn runtime(agents: Vec<RuntimeAgent<()>>) -> Rt {
    Runtime::new(agents, NavStyle::Popup, true)
}

/// Puts text on the screen of an agent.
fn feed(rt: &mut Rt, agent: usize, text: &str) {
    rt.nav.agents[agent].take_output(&vec![text.as_bytes().to_vec()]);
}

/// Fills the scrollback of an agent with forty lines.
fn fill(rt: &mut Rt, agent: usize) {
    for i in 0..40 {
        feed(rt, agent, &format!("line {i}\r\n"));
    }
}

fn with_pane(rt: &mut Rt, agent: &str) {
    rt.pane_hitbox.record(Rect { x: 2, y: 3, width: 20, height: 5 }, AgentId::new(agent));
}

fn on(rt: &mut Rt, event: Event) -> Reaction {
    rt.handle_event(event, &defaults(), MouseUrlModifier::Cmd, false)
}

fn press(rt: &mut Rt, code: KeyCode, modifiers: KeyModifiers) -> Reaction {
    on(rt, Event::Key(key(code, modifiers)))
}

fn command(rt: &mut Rt, c: char) -> Reaction {
    press(rt, KeyCode::Char('b'), ctrl());
    press(rt, KeyCode::Char(c), none())
}

fn mouse(rt: &mut Rt, kind: MouseEventKind, column: u16, row: u16) -> Reaction {
    on(rt, Event::Mouse { kind, column, row, modifiers: none(), span: None })
}

fn ctrl_mouse(rt: &mut Rt, kind: MouseEventKind, column: u16, row: u16, span: Option<UrlSpan>) -> Reaction {
    on(rt, Event::Mouse { kind, column, row, modifiers: ctrl(), span })
}

fn link() -> UrlSpan {
    UrlSpan { row: 0, cols: ColRange { start: 1, end: 9 }, url: "http://x".to_string() }
}

fn hovering(agent: &str) -> HoverUrl {
    HoverUrl {
        agent: AgentId::new(agent),
        row: 0,
        cols: ColRange { start: 1, end: 9 },
        url: "http://x".to_string(),
    }
}

fn selecting(agent: &str) -> Selection {
    Selection {
        agent: AgentId::new(agent),
        anchor: CellPos { row: 0, col: 0 },
        head: CellPos { row: 0, col: 1 },
    }
}

fn assert_nothing_left(r: &Reaction) {
    assert_eq!(r.step, Step::Continue);
    assert!(r.capture.is_none() && r.open_url.is_none() && r.write.is_none());
    assert!(r.copy.is_none() && r.resize.is_none());
    assert_eq!(r.cursor, HoverTransition::Unchanged);
}

fn offset(rt: &Rt, agent: usize) -> usize {
    rt.nav.agents[agent].scrollback_offset()
}

fn names(rt: &Rt) -> Vec<&str> {
    rt.nav.agents.iter().map(|a| a.id.name.as_str()).collect()
}

const PHASE: u128 = 0;

fn follow(rt: &mut Rt, exits: Vec<Option<i32>>) -> codemux::frame::FrameReport {
    rt.follow_agents(&exits, true, true, AnimationPhase::from_millis(PHASE))
}

#[test]
fn no_overlay_active_returns_true_when_nothing_open() {
    assert!(no_overlay_active::<()>(
        None,
        PopupState::Closed,
        HelpState::Closed,
    ));
}

#[test]
fn no_overlay_active_returns_false_when_help_open() {
    assert!(!no_overlay_active::<()>(
        None,
        PopupState::Closed,
        HelpState::Open
    ));
}

#[test]
fn no_overlay_active_returns_false_when_popup_open() {
    assert!(!no_overlay_active::<()>(
        None,
        PopupState::Open { selection: 0 },
        HelpState::Closed,
    ));
}

#[test]
fn the_program_starts_with_nothing_open_and_the_first_agent_in_focus() {
    let rt: Rt = Runtime::new(vec![live("a"), live("b")], NavStyle::LeftPane, false);
    assert_eq!((rt.nav.focused, rt.nav.previous_focused), (0, None));
    assert_eq!(rt.nav.popup_state, PopupState::Closed);
    assert_eq!((rt.prefix_state, rt.help_state), (PrefixState::Idle, HelpState::Closed));
    assert_eq!((rt.nav_style, rt.mouse_capture.mode), (NavStyle::LeftPane, CaptureMode::Disabled));
    assert!(rt.spawn_ui.is_none() && rt.selection.is_none() && rt.hover.is_none());
    assert!(rt.tab_hitboxes.rects.is_empty() && rt.pane_hitbox.rect.is_none());
}

#[test]
fn an_open_dialog_is_an_overlay() {
    assert!(!no_overlay_active(Some(&()), PopupState::Closed, HelpState::Closed));
}

#[test]
fn typed_text_goes_to_the_focused_agent_and_brings_its_live_screen_back() {
    let mut rt = runtime(vec![live("a"), live("b")]);
    fill(&mut rt, 0);
    fill(&mut rt, 1);
    rt.nav.agents[0].nudge_scrollback(4);
    rt.nav.agents[1].nudge_scrollback(6);
    let r = press(&mut rt, KeyCode::Char('z'), none());
    assert_eq!(r.write, Some(b"z".to_vec()));
    assert_eq!((offset(&rt, 0), offset(&rt, 1)), (0, 6));
}

#[test]
fn text_for_a_dead_agent_is_dropped() {
    let mut rt = runtime(vec![failed("a")]);
    assert_nothing_left(&press(&mut rt, KeyCode::Char('z'), none()));
    assert_nothing_left(&on(&mut rt, Event::Paste("z".to_string())));
}

#[test]
fn a_key_that_is_let_go_does_nothing() {
    let mut rt = runtime(vec![live("a")]);
    rt.help_state = HelpState::Open;
    let mut event = key(KeyCode::Char('z'), none());
    event.kind = KeyEventKind::Release;
    assert_nothing_left(&on(&mut rt, Event::Key(event)));
    assert_eq!(rt.help_state, HelpState::Open);
    let mut event = key(KeyCode::Backspace, none());
    event.kind = KeyEventKind::Repeat;
    rt.help_state = HelpState::Closed;
    assert_eq!(on(&mut rt, Event::Key(event)).write, Some(vec![0x7f]));
}

#[test]
fn commands_quit_spawn_and_open_help() {
    let mut rt = runtime(vec![live("a")]);
    assert_eq!(command(&mut rt, 'q').step, Step::Exit);
    assert_eq!(command(&mut rt, 'c').step, Step::OpenDialog);
    assert_nothing_left(&command(&mut rt, '?'));
    assert_eq!(rt.help_state, HelpState::Open);
    assert_nothing_left(&press(&mut rt, KeyCode::Char('b'), ctrl()));
    assert_eq!((rt.help_state, rt.prefix_state), (HelpState::Closed, PrefixState::Idle));
}

#[test]
fn commands_move_the_focus_and_keep_every_scroll_position() {
    let mut rt = runtime(vec![live("a"), live("b"), live("c")]);
    fill(&mut rt, 0);
    rt.nav.agents[0].nudge_scrollback(4);
    command(&mut rt, 'n');
    assert_eq!((rt.nav.focused, rt.nav.previous_focused), (1, Some(0)));
    assert_eq!(rt.prefix_state, PrefixState::AwaitingCommand);
    press(&mut rt, KeyCode::Char('n'), none());
    press(&mut rt, KeyCode::Char('n'), none());
    assert_eq!(rt.nav.focused, 0, "past the last agent comes the first");
    press(&mut rt, KeyCode::Char('p'), none());
    assert_eq!(rt.nav.focused, 2, "before the first agent comes the last");
    press(&mut rt, KeyCode::Tab, none());
    assert_eq!(rt.nav.focused, 0);
    press(&mut rt, KeyCode::Char('2'), none());
    assert_eq!(rt.nav.focused, 1);
    press(&mut rt, KeyCode::Char('9'), none());
    assert_eq!(rt.nav.focused, 1);
    assert_eq!(offset(&rt, 0), 4);
}

#[test]
fn toggling_the_navigator_asks_for_a_new_layout() {
    let mut rt = runtime(vec![live("a")]);
    assert_eq!(command(&mut rt, 'v').step, Step::Relayout);
    assert_eq!(rt.nav_style, NavStyle::LeftPane);
    assert_eq!(rt.relayout(24, 80, true), (23, 55));
    assert_eq!((rt.nav.agents[0].rows, rt.nav.agents[0].cols), (23, 55));
    assert_eq!(command(&mut rt, 'v').step, Step::Relayout);
    assert_eq!(rt.nav_style, NavStyle::Popup);
}

#[test]
fn agents_are_dismissed_when_dead_and_killed_in_any_case() {
    let mut rt = runtime(vec![live("a"), failed("b"), live("c")]);
    command(&mut rt, 'd');
    assert_eq!(names(&rt), vec!["a", "b", "c"]);
    rt.nav.focused = 1;
    command(&mut rt, 'd');
    assert_eq!((names(&rt), rt.nav.focused), (vec!["a", "c"], 1));
    command(&mut rt, 'x');
    assert_eq!((names(&rt), rt.nav.focused), (vec!["a"], 0));
    command(&mut rt, 'x');
    assert!(rt.nav.agents.is_empty());
    assert!(follow(&mut rt, vec![]).exit);
}

#[test]
fn the_switcher_takes_every_key() {
    let mut rt = runtime(vec![live("a"), live("b")]);
    command(&mut rt, 'w');
    assert_eq!(rt.nav.popup_state, PopupState::Open { selection: 0 });
    assert_nothing_left(&press(&mut rt, KeyCode::Char('z'), none()));
    assert_nothing_left(&press(&mut rt, KeyCode::Up, none()));
    assert_eq!(rt.nav.popup_state, PopupState::Open { selection: 1 });
    press(&mut rt, KeyCode::Enter, none());
    assert_eq!((rt.nav.popup_state, rt.nav.focused), (PopupState::Closed, 1));
    command(&mut rt, 'w');
    press(&mut rt, KeyCode::Down, none());
    press(&mut rt, KeyCode::Esc, none());
    assert_eq!((rt.nav.popup_state, rt.nav.focused), (PopupState::Closed, 1));
}

#[test]
fn an_open_dialog_gets_every_key_but_help_comes_first() {
    let mut rt = runtime(vec![live("a")]);
    rt.spawn_ui = Some("dialog");
    rt.help_state = HelpState::Open;
    assert_eq!(press(&mut rt, KeyCode::Char('b'), ctrl()).step, Step::Continue);
    assert_eq!(press(&mut rt, KeyCode::Char('b'), ctrl()).step, Step::DialogKey);
    assert_eq!(rt.prefix_state, PrefixState::Idle);
}

#[test]
fn keys_scroll_an_agent_that_is_scrolled_back() {
    let mut rt = runtime(vec![live("a")]);
    fill(&mut rt, 0);
    assert!(press(&mut rt, KeyCode::Up, none()).write.is_some(), "not scrolled back yet");
    rt.nav.agents[0].nudge_scrollback(1);
    assert_nothing_left(&press(&mut rt, KeyCode::Up, none()));
    assert_eq!(offset(&rt, 0), 2);
    press(&mut rt, KeyCode::PageUp, none());
    assert_eq!(offset(&rt, 0), 6, "a page is one row less than the pane");
    press(&mut rt, KeyCode::PageDown, none());
    press(&mut rt, KeyCode::Down, none());
    assert_eq!(offset(&rt, 0), 1);
    press(&mut rt, KeyCode::Char('g'), none());
    assert_eq!(offset(&rt, 0), 36);
    press(&mut rt, KeyCode::Char('G'), none());
    assert_eq!(offset(&rt, 0), 0);
    rt.nav.agents[0].nudge_scrollback(3);
    press(&mut rt, KeyCode::Esc, none());
    assert_eq!(offset(&rt, 0), 0);
}

#[test]
fn the_prefix_key_works_on_an_agent_that_is_scrolled_back() {
    let mut rt = runtime(vec![live("a"), live("b")]);
    fill(&mut rt, 0);
    rt.nav.agents[0].nudge_scrollback(3);
    command(&mut rt, '2');
    assert_eq!((rt.nav.focused, offset(&rt, 0)), (1, 3));
}

#[test]
fn the_wheel_scrolls_the_focused_agent_wherever_the_mouse_is() {
    let mut rt = runtime(vec![live("a"), live("b")]);
    fill(&mut rt, 0);
    fill(&mut rt, 1);
    assert_nothing_left(&mouse(&mut rt, MouseEventKind::ScrollUp, 0, 0));
    mouse(&mut rt, MouseEventKind::ScrollUp, 79, 23);
    assert_eq!((offset(&rt, 0), offset(&rt, 1)), (6, 0));
    mouse(&mut rt, MouseEventKind::ScrollDown, 79, 23);
    assert_eq!(offset(&rt, 0), 3);
    mouse(&mut rt, MouseEventKind::ScrollDown, 0, 0);
    mouse(&mut rt, MouseEventKind::ScrollDown, 0, 0);
    assert_eq!(offset(&rt, 0), 0);
}

#[test]
fn overlays_keep_the_mouse_and_pasted_text_from_the_agents() {
    for overlay in 0..3 {
        let mut rt = runtime(vec![live("a")]);
        fill(&mut rt, 0);
        with_pane(&mut rt, "a");
        match overlay {
            0 => rt.help_state = HelpState::Open,
            1 => rt.nav.popup_state = PopupState::Open { selection: 0 },
            _ => rt.spawn_ui = Some("dialog"),
        }
        assert_nothing_left(&mouse(&mut rt, MouseEventKind::ScrollUp, 0, 0));
        assert_nothing_left(&mouse(&mut rt, MouseEventKind::Down(MouseButton::Left), 4, 4));
        assert_nothing_left(&on(&mut rt, Event::Paste("text".to_string())));
        assert_eq!(offset(&rt, 0), 0);
        assert!(rt.selection.is_none());
        assert_eq!(rt.link_area(), None);
    }
}

#[test]
fn pasted_text_goes_to_the_agent_in_one_piece() {
    let mut rt = runtime(vec![live("a")]);
    fill(&mut rt, 0);
    rt.nav.agents[0].nudge_scrollback(5);
    let r = on(&mut rt, Event::Paste("a\nb".to_string()));
    assert_eq!(r.write, Some(b"\x1b[200~a\nb\x1b[201~".to_vec()));
    assert_eq!(offset(&rt, 0), 0);
}

#[test]
fn dragging_over_the_pane_copies_what_it_covers() {
    let mut rt = runtime(vec![live("a")]);
    feed(&mut rt, 0, "hello world");
    with_pane(&mut rt, "a");
    assert_nothing_left(&mouse(&mut rt, MouseEventKind::Down(MouseButton::Left), 2, 3));
    assert_eq!(rt.selection.as_ref().map(|s| s.anchor), Some(CellPos { row: 0, col: 0 }));
    assert_nothing_left(&mouse(&mut rt, MouseEventKind::Drag(MouseButton::Left), 6, 3));
    assert_eq!(rt.selection.as_ref().map(|s| s.head), Some(CellPos { row: 0, col: 4 }));
    let r = mouse(&mut rt, MouseEventKind::Up(MouseButton::Left), 6, 3);
    assert_eq!(r.copy.as_deref(), Some("hello"));
    assert!(rt.selection.is_none());
}

#[test]
fn the_error_of_a_failed_agent_can_be_copied() {
    let mut rt = runtime(vec![failed("a")]);
    rt.pane_hitbox.record(Rect { x: 0, y: 0, width: 40, height: 10 }, AgentId::new("a"));
    mouse(&mut rt, MouseEventKind::Down(MouseButton::Left), 0, 0);
    mouse(&mut rt, MouseEventKind::Drag(MouseButton::Left), 39, 9);
    let r = mouse(&mut rt, MouseEventKind::Up(MouseButton::Left), 39, 9);
    assert!(r.copy.is_some_and(|text| text.contains("no route")));
}

#[test]
fn tabs_are_clicked_dragged_and_let_go() {
    let tabs = |rt: &mut Rt| {
        for (i, name) in ["a", "b", "c"].iter().enumerate() {
            let rect = Rect { x: 10 * i as u16, y: 23, width: 10, height: 1 };
            rt.tab_hitboxes.record(rect, AgentId::new(name));
        }
    };
    let mut rt = runtime(vec![live("a"), live("b"), live("c")]);
    tabs(&mut rt);
    mouse(&mut rt, MouseEventKind::Down(MouseButton::Left), 12, 23);
    assert_eq!(rt.mouse_press, Some(AgentId::new("b")));
    mouse(&mut rt, MouseEventKind::Up(MouseButton::Left), 13, 23);
    assert_eq!((rt.nav.focused, rt.mouse_press.is_none()), (1, true));
    mouse(&mut rt, MouseEventKind::Down(MouseButton::Left), 2, 23);
    mouse(&mut rt, MouseEventKind::Up(MouseButton::Left), 22, 23);
    assert_eq!(names(&rt), vec!["b", "c", "a"]);
    assert_eq!((rt.nav.focused, rt.nav.previous_focused), (0, Some(2)), "the focus stays with its agent");
    mouse(&mut rt, MouseEventKind::Down(MouseButton::Left), 2, 23);
    mouse(&mut rt, MouseEventKind::Up(MouseButton::Left), 2, 5);
    assert_eq!((names(&rt), rt.mouse_press.is_none()), (vec!["b", "c", "a"], true));
}

#[test]
fn links_are_marked_and_opened_with_ctrl() {
    let mut rt = runtime(vec![live("a")]);
    with_pane(&mut rt, "a");
    let r = ctrl_mouse(&mut rt, MouseEventKind::Moved, 4, 3, Some(link()));
    assert_eq!(r.cursor, HoverTransition::Activated);
    assert_eq!(rt.hover, Some(hovering("a")));
    assert_eq!(rt.link_area(), None);
    let r = ctrl_mouse(&mut rt, MouseEventKind::Moved, 5, 3, Some(link()));
    assert_eq!(r.cursor, HoverTransition::Unchanged);
    let r = ctrl_mouse(&mut rt, MouseEventKind::Down(MouseButton::Left), 5, 3, Some(link()));
    assert_eq!(r.open_url.as_deref(), Some("http://x"));
    assert!(rt.selection.is_none(), "opening a link selects nothing");
    let r = mouse(&mut rt, MouseEventKind::Moved, 5, 3);
    assert_eq!(r.cursor, HoverTransition::Deactivated);
    assert!(rt.hover.is_none());
    let r = ctrl_mouse(&mut rt, MouseEventKind::Down(MouseButton::Left), 5, 3, None);
    assert!(r.open_url.is_none() && rt.selection.is_some(), "beside a link a selection begins");
}

#[test]
fn a_new_size_reaches_every_agent_and_unmarks_their_screens() {
    let mut rt = runtime(vec![live("a"), failed("b")]);
    rt.selection = Some(selecting("a"));
    rt.hover = Some(hovering("a"));
    let r = on(&mut rt, Event::Resize { cols: 80, rows: 24 });
    assert_eq!(r.resize, Some((23, 80)));
    assert_eq!(r.cursor, HoverTransition::Deactivated);
    assert!(rt.selection.is_none() && rt.hover.is_none());
    for agent in &rt.nav.agents {
        assert_eq!((agent.rows, agent.cols), (23, 80));
    }
}

fn modifier(rt: &mut Rt, code: ModifierKeyCode, kind: KeyEventKind) -> Reaction {
    let event = KeyEvent { code: KeyCode::Modifier(code), modifiers: none(), kind };
    on(rt, Event::Key(event))
}

#[test]
fn the_mouse_is_lent_while_the_modifier_is_held() {
    let mut rt = runtime(vec![live("a")]);
    let r = modifier(&mut rt, ModifierKeyCode::LeftSuper, KeyEventKind::Press);
    assert_eq!(r.capture, Some(CaptureChange::Release));
    rt.mouse_capture.settle(CaptureChange::Release, true);
    assert_nothing_left(&modifier(&mut rt, ModifierKeyCode::LeftSuper, KeyEventKind::Repeat));
    let r = modifier(&mut rt, ModifierKeyCode::LeftSuper, KeyEventKind::Release);
    assert_eq!(r.capture, Some(CaptureChange::Capture));
    assert_nothing_left(&modifier(&mut rt, ModifierKeyCode::LeftShift, KeyEventKind::Press));
}

#[test]
fn losing_the_keyboard_takes_the_mouse_back() {
    let mut rt = runtime(vec![live("a")]);
    rt.hover = Some(hovering("a"));
    modifier(&mut rt, ModifierKeyCode::RightSuper, KeyEventKind::Press);
    rt.mouse_capture.settle(CaptureChange::Release, true);
    let r = on(&mut rt, Event::FocusLost);
    assert_eq!(r.capture, Some(CaptureChange::Capture));
    assert_eq!(r.cursor, HoverTransition::Deactivated);
    assert!(rt.hover.is_none());
    assert_nothing_left(&on(&mut rt, Event::Other));
}

fn working(rt: &mut Rt, agent: usize, working: bool) {
    let title = Some("fixing".to_string());
    rt.nav.agents[agent].set_title(TitleCapture { title, working });
}

#[test]
fn the_bell_rings_when_an_agent_has_finished() {
    let mut rt = runtime(vec![live("a"), live("b")]);
    working(&mut rt, 1, true);
    assert!(!follow(&mut rt, vec![None, None]).bell);
    working(&mut rt, 1, false);
    assert!(follow(&mut rt, vec![None, None]).bell);
    assert!(rt.nav.agents[1].needs_attention);
    assert!(!follow(&mut rt, vec![None, None]).bell);
    command(&mut rt, 'n');
    assert!(!rt.nav.agents[1].needs_attention);
    working(&mut rt, 1, true);
    follow(&mut rt, vec![None, None]);
    working(&mut rt, 1, false);
    let silent = rt.follow_agents(&vec![None, None], false, true, AnimationPhase::from_millis(PHASE));
    assert!(!silent.bell);
}

#[test]
fn agents_that_end_well_go_and_others_stay_with_their_last_screen() {
    let mut rt = runtime(vec![live("a"), live("b"), live("c")]);
    rt.nav.focused = 2;
    let report = follow(&mut rt, vec![Some(0), Some(1), None]);
    assert!(!report.exit);
    assert_eq!((names(&rt), rt.nav.focused), (vec!["b", "c"], 1));
    assert!(matches!(rt.nav.agents[0].state, AgentState::Crashed { exit_code: 1, .. }));
    let report = follow(&mut rt, vec![Some(0), Some(0)]);
    assert!(!report.exit, "a crashed agent stays until it is dismissed");
    assert_eq!(names(&rt), vec!["b"]);
}

#[test]
fn the_program_ends_with_its_last_agent() {
    let mut rt = runtime(vec![live("a")]);
    let report = follow(&mut rt, vec![Some(0)]);
    assert!(report.exit && report.title.is_none());
}

#[test]
fn what_is_marked_on_an_agent_goes_when_the_focus_does() {
    let mut rt = runtime(vec![live("a"), live("b")]);
    rt.selection = Some(selecting("a"));
    rt.hover = Some(hovering("a"));
    let report = follow(&mut rt, vec![None, None]);
    assert_eq!(report.cursor, HoverTransition::Unchanged);
    assert!(rt.selection.is_some() && rt.hover.is_some());
    rt.nav.change_focus(1);
    let report = follow(&mut rt, vec![None, None]);
    assert_eq!(report.cursor, HoverTransition::Deactivated);
    assert!(rt.selection.is_none() && rt.hover.is_none());
}

#[test]
fn the_host_title_is_given_only_when_it_changes() {
    let mut rt = runtime(vec![live("a"), live("b")]);
    assert_eq!(follow(&mut rt, vec![None, None]).title.as_deref(), Some("a"));
    assert_eq!(follow(&mut rt, vec![None, None]).title, None);
    rt.nav.change_focus(1);
    assert_eq!(follow(&mut rt, vec![None, None]).title.as_deref(), Some("b"));
    working(&mut rt, 1, true);
    assert_eq!(follow(&mut rt, vec![None, None]).title.as_deref(), Some("⣾ fixing"));
}

#[test]
fn the_mouse_is_lent_over_a_failed_agent_if_the_user_wants_it() {
    let mut rt = runtime(vec![failed("a"), live("b")]);
    let report = rt.follow_agents(&vec![None, None], true, false, AnimationPhase::from_millis(PHASE));
    assert_eq!(report.capture, None);
    let report = follow(&mut rt, vec![None, None]);
    assert_eq!(report.capture, Some(CaptureChange::Release));
    rt.mouse_capture.settle(CaptureChange::Release, true);
    assert_eq!(follow(&mut rt, vec![None, None]).capture, None);
    rt.nav.change_focus(1);
    assert_eq!(follow(&mut rt, vec![None, None]).capture, Some(CaptureChange::Capture));
    rt.mouse_capture.settle(CaptureChange::Capture, false);
    assert_eq!(rt.mouse_capture.mode, CaptureMode::Yielded);
}

#[test]
fn drawing_records_what_can_be_clicked() {
    let mut rt = runtime(vec![live("a"), live("b")]);
    let mut out = Vec::new();
    let area = Rect { x: 0, y: 0, width: 80, height: 24 };
    rt.draw(
        &mut out,
        area,
        &defaults(),
        None,
        AnimationPhase::from_millis(PHASE),
        &ChromeStyle::default(),
        &Segments { spans: vec![], width: 0 },
    );
    assert!(!out.is_empty());
    assert_eq!(rt.pane_hitbox.rect, Some(Rect { x: 0, y: 0, width: 80, height: 23 }));
    assert_eq!(rt.link_area(), rt.pane_hitbox.rect);
    assert_eq!(rt.tab_hitboxes.rects.len(), 2);
    let second = rt.tab_hitboxes.rects[1].rect;
    mouse(&mut rt, MouseEventKind::Down(MouseButton::Left), second.x, second.y);
    mouse(&mut rt, MouseEventKind::Up(MouseButton::Left), second.x, second.y);
    assert_eq!(rt.nav.focused, 1);
}

#[test]
fn links_are_not_marked_up_where_there_is_no_screen() {
    let mut rt = runtime(vec![failed("a")]);
    with_pane(&mut rt, "a");
    assert_eq!(rt.link_area(), None);
}

#[test]
fn the_keyboard_protocol_is_asked_for_only_when_needed() {
    let mut plain = defaults();
    plain.on_direct.bindings.clear();
    assert!(keyboard_flags(&plain, MouseUrlModifier::Off).is_empty());
    let tell_apart = KeyboardFlags {
        disambiguate_escape_codes: true,
        report_event_types: false,
        report_all_keys_as_escape_codes: false,
        report_alternate_keys: false,
    };
    assert_eq!(keyboard_flags(&defaults(), MouseUrlModifier::Off), tell_apart);
    let all = KeyboardFlags {
        disambiguate_escape_codes: true,
        report_event_types: true,
        report_all_keys_as_escape_codes: true,
        report_alternate_keys: true,
    };
    assert_eq!(keyboard_flags(&plain, MouseUrlModifier::Alt), all);
    assert!(needs_modifier_events(MouseUrlModifier::Alt));
    assert!(!needs_modifier_events(MouseUrlModifier::Off));
}

#[test]
fn the_terminal_is_given_back_as_far_as_it_was_taken() {
    let all = Acquired {
        enhanced_keyboard: true,
        mouse_captured: true,
        bracketed_paste: true,
        host_title_pushed: true,
        focus_changes: true,
    };
    assert_eq!(
        restore_steps(all),
        vec![
            Restore::FocusChanges,
            Restore::BracketedPaste,
            Restore::MouseCapture,
            Restore::CursorShape,
            Restore::KeyboardFlags,
            Restore::Title,
            Restore::PendingInput,
            Restore::RawMode,
            Restore::AlternateScreen,
        ],
    );
    let none = Acquired {
        enhanced_keyboard: false,
        mouse_captured: false,
        bracketed_paste: false,
        host_title_pushed: false,
        focus_changes: false,
    };
    assert_eq!(
        restore_steps(none),
        vec![
            Restore::CursorShape,
            Restore::PendingInput,
            Restore::RawMode,
            Restore::AlternateScreen,
        ],
    );
}

#[test]
fn a_link_is_opened_as_one_argument() {
    let url = "https://x/?a=1;b 2\"";
    assert_eq!(opener_command(Platform::MacOs, url), vec!["open", url]);
    assert_eq!(opener_command(Platform::OtherUnix, url), vec!["xdg-open", url]);
    assert_eq!(opener_command(Platform::Windows, url), vec!["cmd", "/C", "start", "", url]);
}

#[test]
fn agents_without_screens_need_no_room() {
    let mut rt = runtime(vec![failed("a")]);
    let r = on(&mut rt, Event::Resize { cols: 0, rows: 0 });
    assert_eq!(r.resize, Some((0, 0)));
    assert_eq!((rt.nav.agents[0].rows, rt.nav.agents[0].cols), (0, 0));
    assert!(rt.nav.agents[0].state.is_failed());
}
