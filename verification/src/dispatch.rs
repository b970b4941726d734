//! The prefix-key state machine: what a key press asks of the runtime.

use vstd::prelude::*;

use crate::keymap::{
    first_action, literal_byte, literal_byte_for, the_first_binding_decides, Bindings, DirectAction,
    PrefixAction,
};
use crate::keys::{forwarded_bytes, key_to_bytes, KeyCode, KeyEvent};

verus! {

/// Whether the prefix key has been pressed.
#[derive(Clone, Copy, Debug, PartialEq, Eq, Structural)]
pub enum PrefixState {
    Idle,
    AwaitingCommand,
}

/// What a key press asks for.
#[derive(Debug, PartialEq, Eq)]
pub enum KeyDispatch {
    Forward(Vec<u8>),
    Consume,
    Exit,
    SpawnAgent,
    FocusNext,
    FocusPrev,
    FocusLast,
    FocusAt(usize),
    ToggleNav,
    OpenPopup,
    OpenHelp,
    DismissAgent,
    KillAgent,
}

/// What a key press asks for, with the bytes as a sequence.
pub enum Dispatch {
    Forward(Seq<u8>),
    Consume,
    Exit,
    SpawnAgent,
    FocusNext,
    FocusPrev,
    FocusLast,
    FocusAt(usize),
    ToggleNav,
    OpenPopup,
    OpenHelp,
    DismissAgent,
    KillAgent,
}

impl View for KeyDispatch {
    type V = Dispatch;

    open spec fn view(&self) -> Dispatch {
        match *self {
            KeyDispatch::Forward(bytes) => Dispatch::Forward(bytes@),
            KeyDispatch::Consume => Dispatch::Consume,
            KeyDispatch::Exit => Dispatch::Exit,
            KeyDispatch::SpawnAgent => Dispatch::SpawnAgent,
            KeyDispatch::FocusNext => Dispatch::FocusNext,
            KeyDispatch::FocusPrev => Dispatch::FocusPrev,
            KeyDispatch::FocusLast => Dispatch::FocusLast,
            KeyDispatch::FocusAt(i) => Dispatch::FocusAt(i),
            KeyDispatch::ToggleNav => Dispatch::ToggleNav,
            KeyDispatch::OpenPopup => Dispatch::OpenPopup,
            KeyDispatch::OpenHelp => Dispatch::OpenHelp,
            KeyDispatch::DismissAgent => Dispatch::DismissAgent,
            KeyDispatch::KillAgent => Dispatch::KillAgent,
        }
    }
}

/// Whether a dispatch moves the focus between agents.
pub open spec fn moves_focus(dispatch: Dispatch) -> bool {
    dispatch is FocusNext || dispatch is FocusPrev || dispatch is FocusLast || dispatch is FocusAt
}

/// Whether a dispatch moves the focus between agents.
pub fn is_nav_dispatch(dispatch: &KeyDispatch) -> (r: bool)
    ensures
        r == moves_focus(dispatch@),
{
    match dispatch {
        KeyDispatch::FocusNext => true,
        KeyDispatch::FocusPrev => true,
        KeyDispatch::FocusLast => true,
        KeyDispatch::FocusAt(_) => true,
        _ => false,
    }
}

/// The agent position that a digit key names, counted from zero.
pub open spec fn digit_target(key: KeyEvent) -> Option<usize> {
    match key.code {
        KeyCode::Char(c) => if '1' <= c && c <= '9' && !key.modifiers.control {
            Some((c as u32 - '1' as u32) as usize)
        } else {
            None
        },
        _ => None,
    }
}

/// What a command after the prefix asks for.
pub open spec fn prefix_dispatch(action: PrefixAction) -> Dispatch {
    match action {
        PrefixAction::Quit => Dispatch::Exit,
        PrefixAction::SpawnAgent => Dispatch::SpawnAgent,
        PrefixAction::FocusNext => Dispatch::FocusNext,
        PrefixAction::FocusPrev => Dispatch::FocusPrev,
        PrefixAction::FocusLast => Dispatch::FocusLast,
        PrefixAction::ToggleNav => Dispatch::ToggleNav,
        PrefixAction::OpenSwitcher => Dispatch::OpenPopup,
        PrefixAction::DismissAgent => Dispatch::DismissAgent,
        PrefixAction::KillAgent => Dispatch::KillAgent,
        PrefixAction::Help => Dispatch::OpenHelp,
    }
}

/// What a chord that needs no prefix asks for.
pub open spec fn direct_dispatch(action: DirectAction) -> Dispatch {
    match action {
        DirectAction::SpawnAgent => Dispatch::SpawnAgent,
        DirectAction::FocusNext => Dispatch::FocusNext,
        DirectAction::FocusPrev => Dispatch::FocusPrev,
        DirectAction::FocusLast => Dispatch::FocusLast,
    }
}

/// What `key` asks for after the prefix: the prefix again sends its own byte to
/// the program, a digit picks an agent, and the rest goes by the bindings.
pub open spec fn awaiting_dispatch(key: KeyEvent, bindings: Bindings) -> Dispatch {
    if bindings.prefix.accepts(key) {
        match literal_byte(bindings.prefix) {
            Some(byte) => Dispatch::Forward(seq![byte]),
            None => Dispatch::Consume,
        }
    } else {
        match digit_target(key) {
            Some(i) => Dispatch::FocusAt(i),
            None => match first_action(bindings.on_prefix.bindings@, key) {
                Some(action) => prefix_dispatch(action),
                None => Dispatch::Consume,
            },
        }
    }
}

/// What `key` asks for when no prefix is pending, and the state it leaves: a
/// direct chord acts at once, the prefix waits for a command, and anything else
/// goes to the program.
pub open spec fn idle_dispatch(key: KeyEvent, bindings: Bindings) -> (PrefixState, Dispatch) {
    match first_action(bindings.on_direct.bindings@, key) {
        Some(action) => (PrefixState::Idle, direct_dispatch(action)),
        None => if bindings.prefix.accepts(key) {
            (PrefixState::AwaitingCommand, Dispatch::Consume)
        } else {
            match forwarded_bytes(key.code, key.modifiers) {
                Some(bytes) => (PrefixState::Idle, Dispatch::Forward(bytes)),
                None => (PrefixState::Idle, Dispatch::Consume),
            }
        },
    }
}

/// What `key` asks for in `state`, and the state it leaves. After the prefix,
/// moves of the focus keep waiting for another command; everything else ends
/// the wait.
pub open spec fn dispatched(state: PrefixState, key: KeyEvent, bindings: Bindings) -> (
    PrefixState,
    Dispatch,
) {
    match state {
        PrefixState::Idle => idle_dispatch(key, bindings),
        PrefixState::AwaitingCommand => {
            let dispatch = awaiting_dispatch(key, bindings);
            (
                if moves_focus(dispatch) {
                    PrefixState::AwaitingCommand
                } else {
                    PrefixState::Idle
                },
                dispatch,
            )
        },
    }
}

/// What `key` asks for after the prefix.
pub fn compute_awaiting_dispatch(key: &KeyEvent, bindings: &Bindings) -> (r: KeyDispatch)
    ensures
        r@ == awaiting_dispatch(*key, *bindings),
{
    if bindings.prefix.matches(key) {
        if let Some(byte) = literal_byte_for(&bindings.prefix) {
            let bytes = vec![byte];
            assert(bytes@ =~= seq![byte]);
            return KeyDispatch::Forward(bytes);
        }
        return KeyDispatch::Consume;
    }
    if let KeyCode::Char(c) = key.code {
        if '1' <= c && c <= '9' && !key.modifiers.control {
            return KeyDispatch::FocusAt((c as u32 - '1' as u32) as usize);
        }
    }
    match bindings.on_prefix.lookup(key) {
        Some(PrefixAction::Quit) => KeyDispatch::Exit,
        Some(PrefixAction::SpawnAgent) => KeyDispatch::SpawnAgent,
        Some(PrefixAction::FocusNext) => KeyDispatch::FocusNext,
        Some(PrefixAction::FocusPrev) => KeyDispatch::FocusPrev,
        Some(PrefixAction::FocusLast) => KeyDispatch::FocusLast,
        Some(PrefixAction::ToggleNav) => KeyDispatch::ToggleNav,
        Some(PrefixAction::OpenSwitcher) => KeyDispatch::OpenPopup,
        Some(PrefixAction::DismissAgent) => KeyDispatch::DismissAgent,
        Some(PrefixAction::KillAgent) => KeyDispatch::KillAgent,
        Some(PrefixAction::Help) => KeyDispatch::OpenHelp,
        None => KeyDispatch::Consume,
    }
}

/// Runs the prefix-key state machine on one key.
pub fn dispatch_key(state: &mut PrefixState, key: &KeyEvent, bindings: &Bindings) -> (r:
    KeyDispatch)
    ensures
        (*final(state), r@) == dispatched(*old(state), *key, *bindings),
{
    match *state {
        PrefixState::Idle => {
            if let Some(action) = bindings.on_direct.lookup(key) {
                return match action {
                    DirectAction::SpawnAgent => KeyDispatch::SpawnAgent,
                    DirectAction::FocusNext => KeyDispatch::FocusNext,
                    DirectAction::FocusPrev => KeyDispatch::FocusPrev,
                    DirectAction::FocusLast => KeyDispatch::FocusLast,
                };
            }
            if bindings.prefix.matches(key) {
                *state = PrefixState::AwaitingCommand;
                KeyDispatch::Consume
            } else {
                match key_to_bytes(key.code, key.modifiers) {
                    Some(bytes) => KeyDispatch::Forward(bytes),
                    None => KeyDispatch::Consume,
                }
            }
        },
        PrefixState::AwaitingCommand => {
            let dispatch = compute_awaiting_dispatch(key, bindings);
            if !is_nav_dispatch(&dispatch) {
                *state = PrefixState::Idle;
            }
            dispatch
        },
    }
}

/// After the prefix, the machine goes on waiting exactly on moves of the focus.
pub proof fn prefix_is_sticky_for_moves_only(key: KeyEvent, bindings: Bindings)
    ensures
        ({
            let (state, dispatch) = dispatched(PrefixState::AwaitingCommand, key, bindings);
            state is AwaitingCommand <==> moves_focus(dispatch)
        }),
{
}

/// Without a pending prefix only the prefix key itself starts a wait, and it
/// then sends nothing on; a direct chord takes precedence over it.
pub proof fn only_the_prefix_key_arms(key: KeyEvent, bindings: Bindings)
    ensures
        ({
            let (state, dispatch) = dispatched(PrefixState::Idle, key, bindings);
            state is AwaitingCommand <==> bindings.prefix.accepts(key) && first_action(
                bindings.on_direct.bindings@,
                key,
            ) is None
        }),
        dispatched(PrefixState::Idle, key, bindings).0 is AwaitingCommand ==> dispatched(
            PrefixState::Idle,
            key,
            bindings,
        ).1 is Consume,
{
}

/// Pressing a Ctrl-letter prefix twice sends the program that letter's control
/// byte and leaves the machine idle.
pub proof fn double_prefix_sends_the_prefix(key: KeyEvent, bindings: Bindings)
    requires
        bindings.prefix.accepts(key),
        literal_byte(bindings.prefix) is Some,
        first_action(bindings.on_direct.bindings@, key) is None,
    ensures
        ({
            let (armed, _) = dispatched(PrefixState::Idle, key, bindings);
            dispatched(armed, key, bindings) == (
                PrefixState::Idle,
                Dispatch::Forward(seq![literal_byte(bindings.prefix)->0]),
            )
        }),
{
}

/// The digits one to nine, without Ctrl, pick the agents in order, the first with
/// one; whatever else is held makes no difference, and no other key picks one.
pub proof fn digits_pick_agents_in_order(key: KeyEvent, c: char)
    ensures
        key.code == KeyCode::Char(c) && '1' <= c && c <= '9' && !key.modifiers.control ==> {
            &&& digit_target(key) is Some
            &&& digit_target(key)->0 as int + 1 == c as u32 as int - '0' as u32 as int
        },
        key.code == KeyCode::Char(c) && (c < '1' || c > '9') ==> digit_target(key) is None,
        key.modifiers.control ==> digit_target(key) is None,
        !(key.code is Char) ==> digit_target(key) is None,
{
}

/// What a command after the prefix does is what its first binding says: the table of
/// the commands. The prefix itself and the digits come before the bindings, and a key
/// that is none of these is swallowed.
pub proof fn commands_after_the_prefix(key: KeyEvent, bindings: Bindings, i: int)
    requires
        !bindings.prefix.accepts(key),
        digit_target(key) is None,
    ensures
        ({
            let (state, asked) = dispatched(PrefixState::AwaitingCommand, key, bindings);
            let list = bindings.on_prefix.bindings@;
            &&& (forall|j: int| 0 <= j < list.len() ==> !(#[trigger] list[j]).accepts(key))
                ==> asked is Consume && state is Idle
            &&& 0 <= i < list.len() && list[i].accepts(key) && (forall|j: int|
                0 <= j < i ==> !(#[trigger] list[j]).accepts(key)) ==> {
                &&& list[i].action is Quit ==> asked is Exit && state is Idle
                &&& list[i].action is SpawnAgent ==> asked is SpawnAgent && state is Idle
                &&& list[i].action is FocusNext ==> asked is FocusNext && state
                    is AwaitingCommand
                &&& list[i].action is FocusPrev ==> asked is FocusPrev && state
                    is AwaitingCommand
                &&& list[i].action is FocusLast ==> asked is FocusLast && state
                    is AwaitingCommand
                &&& list[i].action is ToggleNav ==> asked is ToggleNav && state is Idle
                &&& list[i].action is OpenSwitcher ==> asked is OpenPopup && state is Idle
                &&& list[i].action is DismissAgent ==> asked is DismissAgent && state is Idle
                &&& list[i].action is KillAgent ==> asked is KillAgent && state is Idle
                &&& list[i].action is Help ==> asked is OpenHelp && state is Idle
            }
        }),
{
    the_first_binding_decides(bindings.on_prefix.bindings@, key, i);
}

/// After the prefix a digit focuses the agent it picks and keeps waiting, whatever
/// the bindings say of it, unless it is the prefix; and the prefix itself ends the
/// wait, with its byte for the program where it has one.
pub proof fn digits_and_the_prefix_come_first(key: KeyEvent, bindings: Bindings)
    ensures
        !bindings.prefix.accepts(key) && digit_target(key) is Some ==> dispatched(
            PrefixState::AwaitingCommand,
            key,
            bindings,
        ) == (PrefixState::AwaitingCommand, Dispatch::FocusAt(digit_target(key)->0)),
        bindings.prefix.accepts(key) && literal_byte(bindings.prefix) is Some ==> dispatched(
            PrefixState::AwaitingCommand,
            key,
            bindings,
        ) == (PrefixState::Idle, Dispatch::Forward(seq![literal_byte(bindings.prefix)->0])),
        bindings.prefix.accepts(key) && literal_byte(bindings.prefix) is None ==> dispatched(
            PrefixState::AwaitingCommand,
            key,
            bindings,
        ) == (PrefixState::Idle, Dispatch::Consume),
{
}

/// Without a pending prefix: a direct chord does what its first binding says, the
/// prefix starts a wait, and any other key goes to the program as its bytes, or
/// nowhere when it has none. Only the prefix leaves the machine waiting.
pub proof fn keys_without_the_prefix(key: KeyEvent, bindings: Bindings, i: int)
    ensures
        ({
            let (state, asked) = dispatched(PrefixState::Idle, key, bindings);
            let list = bindings.on_direct.bindings@;
            &&& 0 <= i < list.len() && list[i].accepts(key) && (forall|j: int|
                0 <= j < i ==> !(#[trigger] list[j]).accepts(key)) ==> {
                &&& state is Idle
                &&& list[i].action is SpawnAgent ==> asked is SpawnAgent
                &&& list[i].action is FocusNext ==> asked is FocusNext
                &&& list[i].action is FocusPrev ==> asked is FocusPrev
                &&& list[i].action is FocusLast ==> asked is FocusLast
            }
            &&& (forall|j: int| 0 <= j < list.len() ==> !(#[trigger] list[j]).accepts(key)) ==> {
                &&& bindings.prefix.accepts(key) ==> state is AwaitingCommand && asked is Consume
                &&& !bindings.prefix.accepts(key) ==> state is Idle && match forwarded_bytes(
                    key.code,
                    key.modifiers,
                ) {
                    Some(bytes) => asked == Dispatch::Forward(bytes),
                    None => asked is Consume,
                }
            }
        }),
{
    the_first_binding_decides(bindings.on_direct.bindings@, key, i);
}

} // verus!
