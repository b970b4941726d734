//! What keys ask for, with and without the prefix.

use codemux::dispatch::{dispatch_key, is_nav_dispatch, KeyDispatch, PrefixState};
use codemux::keymap::{
    Binding, Bindings, DirectAction, KeyChord, ModalChord, PopupAction, PrefixAction, Scope,
    ScrollAction,
};
use codemux::keys::{KeyCode, KeyEvent, KeyEventKind, KeyModifiers};

fn none() -> KeyModifiers {
    KeyModifiers::none()
}

fn sup() -> KeyModifiers {
    KeyModifiers { super_key: true, ..KeyModifiers::none() }
}

fn ctrl() -> KeyModifiers {
    KeyModifiers { control: true, ..KeyModifiers::none() }
}

fn alt() -> KeyModifiers {
    KeyModifiers { alt: true, ..KeyModifiers::none() }
}

fn shift() -> KeyModifiers {
    KeyModifiers { shift: true, ..KeyModifiers::none() }
}

fn key(code: KeyCode, modifiers: KeyModifiers) -> KeyEvent {
    KeyEvent { code, modifiers, kind: KeyEventKind::Press }
}

fn chord(code: KeyCode, modifiers: KeyModifiers) -> KeyChord {
    KeyChord { code, modifiers }
}

fn letter(c: char) -> KeyChord {
    KeyChord::plain(KeyCode::Char(c))
}

fn bind<A>(action: A, chord: KeyChord, aliases: Vec<KeyChord>, label: &str, description: &str) -> Binding<A> {
    Binding {
        action,
        chord,
        aliases,
        label: label.to_string(),
        description: description.to_string(),
    }
}

fn defaults() -> Bindings {
    let on_prefix = vec![
        bind(PrefixAction::Quit, letter('q'), vec![], "q", "quit"),
        bind(PrefixAction::SpawnAgent, letter('c'), vec![], "c", "spawn an agent"),
        bind(PrefixAction::FocusNext, letter('n'), vec![letter('l'), letter('j')], "n", "focus the next agent"),
        bind(PrefixAction::FocusPrev, letter('p'), vec![letter('h'), letter('k')], "p", "focus the previous agent"),
        bind(PrefixAction::FocusLast, KeyChord::plain(KeyCode::Tab), vec![], "tab", "bounce to the last agent"),
        bind(PrefixAction::ToggleNav, letter('v'), vec![], "v", "toggle the navigator"),
        bind(PrefixAction::OpenSwitcher, letter('w'), vec![], "w", "open the switcher"),
        bind(PrefixAction::DismissAgent, letter('d'), vec![], "d", "dismiss a dead agent"),
        bind(PrefixAction::KillAgent, letter('x'), vec![], "x", "kill an agent"),
        bind(PrefixAction::Help, letter('?'), vec![], "?", "help"),
    ];
    let on_direct = vec![
        bind(DirectAction::SpawnAgent, chord(KeyCode::Char('\\'), sup()), vec![], "super+\\", "spawn an agent"),
        bind(DirectAction::FocusNext, chord(KeyCode::Char('\''), sup()), vec![], "super+'", "focus the next agent"),
        bind(DirectAction::FocusPrev, chord(KeyCode::Char(';'), sup()), vec![], "super+;", "focus the previous agent"),
        bind(DirectAction::FocusLast, chord(KeyCode::Tab, sup()), vec![], "super+tab", "bounce to the last agent"),
    ];
    let on_popup = vec![
        bind(PopupAction::Next, KeyChord::plain(KeyCode::Down), vec![letter('j')], "down", "next"),
        bind(PopupAction::Prev, KeyChord::plain(KeyCode::Up), vec![letter('k')], "up", "previous"),
        bind(PopupAction::Confirm, KeyChord::plain(KeyCode::Enter), vec![], "enter", "focus"),
        bind(PopupAction::Cancel, KeyChord::plain(KeyCode::Esc), vec![], "esc", "close"),
    ];
    let on_scroll = vec![
        bind(ScrollAction::LineUp, KeyChord::plain(KeyCode::Up), vec![], "up", "one line up"),
        bind(ScrollAction::LineDown, KeyChord::plain(KeyCode::Down), vec![], "down", "one line down"),
        bind(ScrollAction::PageUp, KeyChord::plain(KeyCode::PageUp), vec![], "pgup", "one page up"),
        bind(ScrollAction::PageDown, KeyChord::plain(KeyCode::PageDown), vec![], "pgdn", "one page down"),
        bind(ScrollAction::Top, letter('g'), vec![], "g", "to the top"),
        bind(ScrollAction::Bottom, letter('G'), vec![], "G", "to the bottom"),
        bind(ScrollAction::ExitScroll, KeyChord::plain(KeyCode::Esc), vec![], "esc", "back to live"),
    ];
    Bindings {
        prefix: KeyChord::ctrl(KeyCode::Char('b')),
        prefix_label: "ctrl+b".to_string(),
        on_prefix: Scope { bindings: on_prefix },
        on_direct: Scope { bindings: on_direct },
        on_popup: Scope { bindings: on_popup },
        on_scroll: Scope { bindings: on_scroll },
        on_modal: vec![ModalChord {
            chord: KeyChord::plain(KeyCode::Esc),
            label: "esc".to_string(),
            description: "close".to_string(),
        }],
    }
}

#[test]
fn idle_forwards_a_normal_char() {
    let mut state = PrefixState::Idle;
    let action = dispatch_key(
        &mut state,
        &key(KeyCode::Char('a'), none()),
        &defaults(),
    );
    assert_eq!(action, KeyDispatch::Forward(vec![b'a']));
    assert_eq!(state, PrefixState::Idle);
}

#[test]
fn idle_forwards_ctrl_c_to_pty() {
    let mut state = PrefixState::Idle;
    let action = dispatch_key(
        &mut state,
        &key(KeyCode::Char('c'), ctrl()),
        &defaults(),
    );
    assert_eq!(action, KeyDispatch::Forward(vec![0x03]));
}

#[test]
fn ctrl_b_in_idle_arms_the_state_machine() {
    let mut state = PrefixState::Idle;
    let action = dispatch_key(
        &mut state,
        &key(KeyCode::Char('b'), ctrl()),
        &defaults(),
    );
    assert_eq!(action, KeyDispatch::Consume);
    assert_eq!(state, PrefixState::AwaitingCommand);
}

#[test]
fn double_prefix_forwards_a_literal_prefix_byte() {
    let mut state = PrefixState::AwaitingCommand;
    let action = dispatch_key(
        &mut state,
        &key(KeyCode::Char('b'), ctrl()),
        &defaults(),
    );
    assert_eq!(action, KeyDispatch::Forward(vec![0x02]));
}

#[test]
fn prefix_q_exits() {
    let mut state = PrefixState::AwaitingCommand;
    let action = dispatch_key(
        &mut state,
        &key(KeyCode::Char('q'), none()),
        &defaults(),
    );
    assert_eq!(action, KeyDispatch::Exit);
}

#[test]
fn prefix_c_opens_spawn_modal() {
    let mut state = PrefixState::AwaitingCommand;
    let action = dispatch_key(
        &mut state,
        &key(KeyCode::Char('c'), none()),
        &defaults(),
    );
    assert_eq!(action, KeyDispatch::SpawnAgent);
}

#[test]
fn direct_cmd_apostrophe_focuses_next_without_arming_prefix() {
    let mut state = PrefixState::Idle;
    let action = dispatch_key(
        &mut state,
        &key(KeyCode::Char('\''), sup()),
        &defaults(),
    );
    assert_eq!(action, KeyDispatch::FocusNext);
    assert_eq!(state, PrefixState::Idle);
}

#[test]
fn direct_cmd_semicolon_focuses_prev() {
    let mut state = PrefixState::Idle;
    let action = dispatch_key(
        &mut state,
        &key(KeyCode::Char(';'), sup()),
        &defaults(),
    );
    assert_eq!(action, KeyDispatch::FocusPrev);
    assert_eq!(state, PrefixState::Idle);
}

#[test]
fn direct_cmd_backslash_spawns_agent_without_arming_prefix() {
    let mut state = PrefixState::Idle;
    let action = dispatch_key(
        &mut state,
        &key(KeyCode::Char('\\'), sup()),
        &defaults(),
    );
    assert_eq!(action, KeyDispatch::SpawnAgent);
    assert_eq!(state, PrefixState::Idle);
}

#[test]
fn plain_backslash_without_super_still_forwards_as_a_byte() {
    let mut state = PrefixState::Idle;
    let action = dispatch_key(
        &mut state,
        &key(KeyCode::Char('\\'), none()),
        &defaults(),
    );
    assert_eq!(action, KeyDispatch::Forward(vec![b'\\']));
}

#[test]
fn plain_semicolon_without_super_still_forwards_as_a_byte() {
    let mut state = PrefixState::Idle;
    let action = dispatch_key(
        &mut state,
        &key(KeyCode::Char(';'), none()),
        &defaults(),
    );
    assert_eq!(action, KeyDispatch::Forward(vec![b';']));
}

#[test]
fn prefix_then_nav_key_stays_in_awaiting_command() {
    let mut state = PrefixState::AwaitingCommand;
    let action = dispatch_key(
        &mut state,
        &key(KeyCode::Char('h'), none()),
        &defaults(),
    );
    assert_eq!(action, KeyDispatch::FocusPrev);
    assert_eq!(state, PrefixState::AwaitingCommand);
}

#[test]
fn prefix_then_repeated_nav_keys_keeps_dispatching() {
    let mut state = PrefixState::AwaitingCommand;
    for _ in 0..3 {
        let action = dispatch_key(
            &mut state,
            &key(KeyCode::Char('h'), none()),
            &defaults(),
        );
        assert_eq!(action, KeyDispatch::FocusPrev);
        assert_eq!(state, PrefixState::AwaitingCommand);
    }
}

#[test]
fn prefix_then_digit_stays_sticky() {
    let mut state = PrefixState::AwaitingCommand;
    let action = dispatch_key(
        &mut state,
        &key(KeyCode::Char('2'), none()),
        &defaults(),
    );
    assert_eq!(action, KeyDispatch::FocusAt(1));
    assert_eq!(state, PrefixState::AwaitingCommand);
}

#[test]
fn prefix_then_tab_stays_sticky() {
    let mut state = PrefixState::AwaitingCommand;
    let action = dispatch_key(
        &mut state,
        &key(KeyCode::Tab, none()),
        &defaults(),
    );
    assert_eq!(action, KeyDispatch::FocusLast);
    assert_eq!(state, PrefixState::AwaitingCommand);
}

#[test]
fn prefix_then_non_nav_command_exits_sticky() {
    let mut state = PrefixState::AwaitingCommand;
    let action = dispatch_key(
        &mut state,
        &key(KeyCode::Char('c'), none()),
        &defaults(),
    );
    assert_eq!(action, KeyDispatch::SpawnAgent);
    assert_eq!(state, PrefixState::Idle);
}

#[test]
fn prefix_then_unbound_key_exits_sticky() {
    let mut state = PrefixState::AwaitingCommand;
    let action = dispatch_key(
        &mut state,
        &key(KeyCode::Char('z'), none()),
        &defaults(),
    );
    assert_eq!(action, KeyDispatch::Consume);
    assert_eq!(state, PrefixState::Idle);
}

#[test]
fn prefix_then_esc_exits_sticky_via_unbound_path() {
    let mut state = PrefixState::AwaitingCommand;
    let action = dispatch_key(
        &mut state,
        &key(KeyCode::Esc, none()),
        &defaults(),
    );
    assert_eq!(action, KeyDispatch::Consume);
    assert_eq!(state, PrefixState::Idle);
}

#[test]
fn prefix_h_via_alias_focuses_prev() {
    let mut state = PrefixState::AwaitingCommand;
    let action = dispatch_key(
        &mut state,
        &key(KeyCode::Char('h'), none()),
        &defaults(),
    );
    assert_eq!(action, KeyDispatch::FocusPrev);
}

#[test]
fn prefix_l_via_alias_focuses_next() {
    let mut state = PrefixState::AwaitingCommand;
    let action = dispatch_key(
        &mut state,
        &key(KeyCode::Char('l'), none()),
        &defaults(),
    );
    assert_eq!(action, KeyDispatch::FocusNext);
}

#[test]
fn prefix_tab_dispatches_focus_last() {
    let mut state = PrefixState::AwaitingCommand;
    let action = dispatch_key(
        &mut state,
        &key(KeyCode::Tab, none()),
        &defaults(),
    );
    assert_eq!(action, KeyDispatch::FocusLast);
}

#[test]
fn prefix_x_dispatches_kill_agent() {
    let mut state = PrefixState::AwaitingCommand;
    let action = dispatch_key(
        &mut state,
        &key(KeyCode::Char('x'), none()),
        &defaults(),
    );
    assert_eq!(action, KeyDispatch::KillAgent);
}

#[test]
fn prefix_d_dispatches_dismiss_agent() {
    let mut state = PrefixState::AwaitingCommand;
    let action = dispatch_key(
        &mut state,
        &key(KeyCode::Char('d'), none()),
        &defaults(),
    );
    assert_eq!(action, KeyDispatch::DismissAgent);
}

#[test]
fn prefix_question_mark_opens_help() {
    let mut state = PrefixState::AwaitingCommand;
    let action = dispatch_key(
        &mut state,
        &key(KeyCode::Char('?'), shift()),
        &defaults(),
    );
    assert_eq!(action, KeyDispatch::OpenHelp);
}

#[test]
fn prefix_digit_focuses_by_one_indexed_position() {
    for d in 1..=9_u8 {
        let mut state = PrefixState::AwaitingCommand;
        let c = char::from_digit(u32::from(d), 10).unwrap();
        let action = dispatch_key(
            &mut state,
            &key(KeyCode::Char(c), none()),
            &defaults(),
        );
        assert_eq!(action, KeyDispatch::FocusAt(usize::from(d - 1)));
    }
}

#[test]
fn prefix_zero_is_consumed_no_focus() {
    let mut state = PrefixState::AwaitingCommand;
    let action = dispatch_key(
        &mut state,
        &key(KeyCode::Char('0'), none()),
        &defaults(),
    );
    assert_eq!(action, KeyDispatch::Consume);
}

#[test]
fn unbound_key_after_prefix_is_consumed() {
    let mut state = PrefixState::AwaitingCommand;
    let action = dispatch_key(
        &mut state,
        &key(KeyCode::Char('z'), none()),
        &defaults(),
    );
    assert_eq!(action, KeyDispatch::Consume);
    assert_eq!(state, PrefixState::Idle);
}

#[test]
fn user_can_remap_quit_to_a_different_key() {
    let mut bindings = defaults();
    bindings.on_prefix.bindings[0].chord = letter('x');
    let mut state = PrefixState::AwaitingCommand;
    let action = dispatch_key(&mut state, &key(KeyCode::Char('x'), none()), &bindings);
    assert_eq!(action, KeyDispatch::Exit);
    let mut state2 = PrefixState::AwaitingCommand;
    let action2 = dispatch_key(&mut state2, &key(KeyCode::Char('q'), none()), &bindings);
    assert_eq!(action2, KeyDispatch::Consume);
}

#[test]
fn user_can_remap_the_prefix_itself() {
    let mut bindings = defaults();
    bindings.prefix = KeyChord::ctrl(KeyCode::Char('a'));
    let mut state = PrefixState::Idle;
    let action = dispatch_key(&mut state, &key(KeyCode::Char('a'), ctrl()), &bindings);
    assert_eq!(action, KeyDispatch::Consume);
    assert_eq!(state, PrefixState::AwaitingCommand);
    let mut state2 = PrefixState::Idle;
    let action2 = dispatch_key(&mut state2, &key(KeyCode::Char('b'), ctrl()), &bindings);
    assert_eq!(action2, KeyDispatch::Forward(vec![0x02]));
}

#[test]
fn a_prefix_without_a_byte_is_swallowed_when_doubled() {
    let mut bindings = defaults();
    bindings.prefix = KeyChord::plain(KeyCode::F(1));
    let mut state = PrefixState::AwaitingCommand;
    let action = dispatch_key(&mut state, &key(KeyCode::F(1), none()), &bindings);
    assert_eq!(action, KeyDispatch::Consume);
    assert_eq!(state, PrefixState::Idle);
}

#[test]
fn digits_with_ctrl_are_no_positions() {
    let mut state = PrefixState::AwaitingCommand;
    let action = dispatch_key(&mut state, &key(KeyCode::Char('2'), ctrl()), &defaults());
    assert_eq!(action, KeyDispatch::Consume);
}

#[test]
fn only_focus_moves_are_navigation() {
    assert!(is_nav_dispatch(&KeyDispatch::FocusNext));
    assert!(is_nav_dispatch(&KeyDispatch::FocusAt(3)));
    assert!(!is_nav_dispatch(&KeyDispatch::OpenPopup));
    assert!(!is_nav_dispatch(&KeyDispatch::Forward(vec![1])));
}

#[test]
fn shift_belongs_to_the_other_modifiers_of_a_key_without_a_character() {
    let tab = KeyChord::plain(KeyCode::Tab);
    assert!(tab.matches(&key(KeyCode::Tab, none())));
    assert!(!tab.matches(&key(KeyCode::Tab, shift())));
    assert!(!tab.matches(&key(KeyCode::Tab, alt())));
    assert!(letter('?').matches(&key(KeyCode::Char('?'), shift())));
    assert!(!letter('?').matches(&key(KeyCode::Char('?'), ctrl())));
}

#[test]
fn the_super_key_is_found_in_every_scope() {
    let mut bindings = defaults();
    assert!(bindings.uses_super_modifier());
    bindings.on_direct.bindings = vec![];
    assert!(!bindings.uses_super_modifier());
    bindings.on_scroll.bindings[2].aliases = vec![chord(KeyCode::Up, sup())];
    assert!(bindings.uses_super_modifier());
    bindings.on_scroll.bindings[2].aliases = vec![];
    bindings.on_modal[0].chord = chord(KeyCode::Esc, sup());
    assert!(bindings.uses_super_modifier());
}

#[test]
fn the_dismiss_chord_is_written_as_bound() {
    let mut bindings = defaults();
    assert_eq!(bindings.dismiss_label(), "d");
    bindings.on_prefix.bindings = vec![];
    assert_eq!(bindings.dismiss_label(), "");
}
