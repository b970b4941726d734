//! Whether the program or the host terminal gets the mouse.

use vstd::prelude::*;

verus! {

/// What the host terminal's mouse capture is set to.
#[derive(Clone, Copy, Debug, PartialEq, Eq, Structural)]
pub enum CaptureMode {
    /// The terminal never gave the mouse away.
    Disabled,
    /// The program receives mouse events.
    Captured,
    /// The mouse is lent back to the host terminal.
    Yielded,
}

/// The independent reasons to lend the mouse back.
#[derive(Clone, Copy, Debug, PartialEq, Eq, Structural)]
pub struct YieldReasons {
    /// The user is holding the modifier that opens links.
    pub url_modifier_held: bool,
    /// The focused agent never came up.
    pub focused_failed: bool,
}

impl YieldReasons {
    /// Whether there is any reason.
    pub open spec fn some(self) -> bool {
        self.url_modifier_held || self.focused_failed
    }

    /// Whether there is any reason.
    pub fn any(self) -> (r: bool)
        ensures
            r == self.some(),
    {
        self.url_modifier_held || self.focused_failed
    }
}

impl Default for YieldReasons {
    fn default() -> (r: YieldReasons)
        ensures
            !r.url_modifier_held && !r.focused_failed,
    {
        YieldReasons { url_modifier_held: false, focused_failed: false }
    }
}

/// A change of the terminal's mouse capture.
#[derive(Clone, Copy, Debug, PartialEq, Eq, Structural)]
pub enum CaptureChange {
    /// Stop capturing the mouse.
    Release,
    /// Capture the mouse again.
    Capture,
}

/// The mouse capture and the reasons to lend it back.
#[derive(Clone, Copy, Debug, PartialEq, Eq, Structural)]
pub struct MouseCaptureState {
    pub mode: CaptureMode,
    pub reasons: YieldReasons,
}

/// The change that brings the capture in line with the reasons, if it is not: a
/// captured mouse is lent back while there is a reason, a lent one is captured
/// again once there is none.
pub open spec fn wanted_change(state: MouseCaptureState) -> Option<CaptureChange> {
    match (state.mode, state.reasons.some()) {
        (CaptureMode::Captured, true) => Some(CaptureChange::Release),
        (CaptureMode::Yielded, false) => Some(CaptureChange::Capture),
        _ => None,
    }
}

impl MouseCaptureState {
    /// Whether the capture is in line with the reasons.
    pub open spec fn in_line(self) -> bool {
        wanted_change(self) is None
    }

    /// The state after `change` was asked of the terminal, which took it when
    /// `written`.
    pub open spec fn settled(self, change: CaptureChange, written: bool) -> MouseCaptureState {
        if written {
            MouseCaptureState {
                mode: match change {
                    CaptureChange::Release => CaptureMode::Yielded,
                    CaptureChange::Capture => CaptureMode::Captured,
                },
                ..self
            }
        } else {
            self
        }
    }

    /// The state with the modifier held or not, and the change it asks for.
    pub open spec fn with_url_modifier(self, held: bool) -> (
        MouseCaptureState,
        Option<CaptureChange>,
    ) {
        let after = MouseCaptureState {
            reasons: YieldReasons { url_modifier_held: held, ..self.reasons },
            ..self
        };
        (
            after,
            if self.reasons.url_modifier_held == held {
                None
            } else {
                wanted_change(after)
            },
        )
    }

    /// The state with a failed agent focused or not, and the change it asks for.
    pub open spec fn with_focused_failed(self, failed: bool) -> (
        MouseCaptureState,
        Option<CaptureChange>,
    ) {
        let after = MouseCaptureState {
            reasons: YieldReasons { focused_failed: failed, ..self.reasons },
            ..self
        };
        (
            after,
            if self.reasons.focused_failed == failed {
                None
            } else {
                wanted_change(after)
            },
        )
    }

    /// The state at the start: captured if the terminal gave the mouse away.
    pub fn new(mode_active: bool) -> (r: MouseCaptureState)
        ensures
            r == (MouseCaptureState {
                mode: if mode_active {
                    CaptureMode::Captured
                } else {
                    CaptureMode::Disabled
                },
                reasons: (YieldReasons { url_modifier_held: false, focused_failed: false }),
            }),
    {
        MouseCaptureState {
            mode: if mode_active {
                CaptureMode::Captured
            } else {
                CaptureMode::Disabled
            },
            reasons: YieldReasons::default(),
        }
    }

    /// Records whether the modifier is held. Answers the change to make, which is
    /// to be reported back to [`Self::settle`].
    pub fn set_url_modifier_held(&mut self, held: bool) -> (r: Option<CaptureChange>)
        ensures
            (*final(self), r) == old(self).with_url_modifier(held),
    {
        if self.reasons.url_modifier_held == held {
            return None;
        }
        self.reasons.url_modifier_held = held;
        self.sync()
    }

    /// Records whether the focused agent is a failed one. Answers the change to
    /// make.
    pub fn set_focused_failed(&mut self, failed: bool) -> (r: Option<CaptureChange>)
        ensures
            (*final(self), r) == old(self).with_focused_failed(failed),
    {
        if self.reasons.focused_failed == failed {
            return None;
        }
        self.reasons.focused_failed = failed;
        self.sync()
    }

    /// The window lost the keyboard: a held modifier will not be seen to be
    /// released, so it counts as released. Answers the change to make.
    pub fn lose_focus(&mut self) -> (r: Option<CaptureChange>)
        ensures
            (*final(self), r) == old(self).with_url_modifier(false),
    {
        self.set_url_modifier_held(false)
    }

    /// The change that brings the capture in line with the reasons.
    pub fn sync(&self) -> (r: Option<CaptureChange>)
        ensures
            r == wanted_change(*self),
    {
        match (self.mode, self.reasons.any()) {
            (CaptureMode::Captured, true) => Some(CaptureChange::Release),
            (CaptureMode::Yielded, false) => Some(CaptureChange::Capture),
            _ => None,
        }
    }

    /// Records that `change` was asked of the terminal, and whether it could be
    /// written. A change that could not be leaves the mode as it was.
    pub fn settle(&mut self, change: CaptureChange, written: bool)
        ensures
            *final(self) == old(self).settled(change, written),
    {
        if written {
            self.mode =
            match change {
                CaptureChange::Release => CaptureMode::Yielded,
                CaptureChange::Capture => CaptureMode::Captured,
            };
        }
    }
}

/// The state after a change of the reasons whose wish, if any, was written.
pub open spec fn obeyed(step: (MouseCaptureState, Option<CaptureChange>)) -> MouseCaptureState {
    match step.1 {
        Some(change) => step.0.settled(change, true),
        None => step.0,
    }
}

/// While the terminal takes every change, the mouse is lent back exactly while
/// there is a reason to, whichever reason changes in whichever order.
pub proof fn capture_follows_the_reasons(state: MouseCaptureState, held: bool, failed: bool)
    requires
        state.in_line(),
    ensures
        obeyed(state.with_url_modifier(held)).in_line(),
        obeyed(state.with_focused_failed(failed)).in_line(),
        state.mode is Captured || state.mode is Yielded ==> (state.mode is Yielded
            <==> state.reasons.some()),
{
}

/// A terminal that never gave the mouse away is never asked for anything, and
/// stays that way. The reasons are recorded all the same.
pub proof fn disabled_capture_stays_disabled(state: MouseCaptureState, held: bool, failed: bool)
    requires
        state.mode is Disabled,
    ensures
        state.with_url_modifier(held).1 is None,
        state.with_url_modifier(held).0.mode is Disabled,
        state.with_url_modifier(held).0.reasons.url_modifier_held == held,
        state.with_focused_failed(failed).1 is None,
        state.with_focused_failed(failed).0.mode is Disabled,
        state.with_focused_failed(failed).0.reasons.focused_failed == failed,
{
}

/// Saying again what is known asks for nothing and changes nothing.
pub proof fn repeating_a_reason_is_silent(state: MouseCaptureState, held: bool, failed: bool)
    ensures
        ({
            let once = obeyed(state.with_url_modifier(held));
            once.with_url_modifier(held) == (once, None::<CaptureChange>)
        }),
        ({
            let once = obeyed(state.with_focused_failed(failed));
            once.with_focused_failed(failed) == (once, None::<CaptureChange>)
        }),
{
}

/// Each reason is recorded without touching the other.
pub proof fn reasons_are_independent(state: MouseCaptureState, held: bool, failed: bool)
    ensures
        state.with_url_modifier(held).0.reasons.focused_failed == state.reasons.focused_failed,
        state.with_focused_failed(failed).0.reasons.url_modifier_held
            == state.reasons.url_modifier_held,
{
}

/// What is asked of the terminal: to release a captured mouse while there is a
/// reason, to capture a lent one while there is none, and nothing else. Either reason
/// is enough.
pub proof fn the_terminal_is_asked_for_what_is_missing(state: MouseCaptureState)
    ensures
        state.mode is Captured && state.reasons.url_modifier_held ==> wanted_change(state) == Some(
            CaptureChange::Release,
        ),
        state.mode is Captured && state.reasons.focused_failed ==> wanted_change(state) == Some(
            CaptureChange::Release,
        ),
        state.mode is Captured && !state.reasons.url_modifier_held
            && !state.reasons.focused_failed ==> wanted_change(state) is None,
        state.mode is Yielded && !state.reasons.url_modifier_held && !state.reasons.focused_failed
            ==> wanted_change(state) == Some(CaptureChange::Capture),
        state.mode is Yielded && state.reasons.url_modifier_held ==> wanted_change(state) is None,
        state.mode is Yielded && state.reasons.focused_failed ==> wanted_change(state) is None,
        state.mode is Disabled ==> wanted_change(state) is None,
{
}

/// A change that the terminal took is on record, and one that it did not take changes
/// nothing. The reasons stay either way.
pub proof fn a_change_counts_once_it_is_taken(state: MouseCaptureState, change: CaptureChange)
    ensures
        state.settled(CaptureChange::Release, true).mode is Yielded,
        state.settled(CaptureChange::Capture, true).mode is Captured,
        state.settled(change, true).reasons == state.reasons,
        state.settled(change, false) == state,
{
}

/// A reason is on record from when it is told until the contrary is told, and only a
/// reason that is new is acted on: the terminal is then asked for what is missing.
pub proof fn reasons_are_recorded_and_acted_on(state: MouseCaptureState, now: bool)
    ensures
        ({
            let (after, asked) = state.with_url_modifier(now);
            &&& after.reasons.url_modifier_held == now
            &&& after.mode == state.mode
            &&& state.reasons.url_modifier_held == now ==> asked is None && after == state
            &&& state.reasons.url_modifier_held != now ==> asked == wanted_change(after)
        }),
        ({
            let (after, asked) = state.with_focused_failed(now);
            &&& after.reasons.focused_failed == now
            &&& after.mode == state.mode
            &&& state.reasons.focused_failed == now ==> asked is None && after == state
            &&& state.reasons.focused_failed != now ==> asked == wanted_change(after)
        }),
{
}

} // verus!
