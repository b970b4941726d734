//! What the host system is asked for: the terminal at the start and at the end, and
//! the program that opens links.

use vstd::prelude::*;

use crate::keymap::Bindings;
use crate::keys::MouseUrlModifier;
use crate::text::contents;

verus! {

/// Which parts of the Kitty keyboard protocol the terminal is asked for.
#[derive(Clone, Copy, Debug, PartialEq, Eq, Structural)]
pub struct KeyboardFlags {
    /// Tell apart keys that share an escape sequence, and report the Super key.
    pub disambiguate_escape_codes: bool,
    /// Report repeats and releases.
    pub report_event_types: bool,
    /// Report keys that send no text, such as a bare modifier.
    pub report_all_keys_as_escape_codes: bool,
    /// Report the shifted form of a key too.
    pub report_alternate_keys: bool,
}

/// What the bindings and the modifier that lends the mouse ask of the terminal: to
/// tell keys apart where a chord holds the Super key, and to report the modifier
/// being pressed and released where there is one.
pub open spec fn flags_for(uses_super: bool, modifier: MouseUrlModifier) -> KeyboardFlags {
    let modifier_events = !(modifier is Off);
    KeyboardFlags {
        disambiguate_escape_codes: uses_super || modifier_events,
        report_event_types: modifier_events,
        report_all_keys_as_escape_codes: modifier_events,
        report_alternate_keys: modifier_events,
    }
}

impl KeyboardFlags {
    /// Whether the terminal is asked for anything.
    pub open spec fn some(self) -> bool {
        self.disambiguate_escape_codes || self.report_event_types
            || self.report_all_keys_as_escape_codes || self.report_alternate_keys
    }

    /// Whether the terminal is asked for nothing.
    pub fn is_empty(self) -> (r: bool)
        ensures
            r == !self.some(),
    {
        !(self.disambiguate_escape_codes || self.report_event_types
            || self.report_all_keys_as_escape_codes || self.report_alternate_keys)
    }
}

/// Whether presses and releases of the modifier that lends the mouse are needed;
/// then changes of the window's focus are needed too.
pub fn needs_modifier_events(modifier: MouseUrlModifier) -> (r: bool)
    ensures
        r == !(modifier is Off),
{
    match modifier {
        MouseUrlModifier::Off => false,
        _ => true,
    }
}

/// Which parts of the keyboard protocol to ask for.
pub fn keyboard_flags(bindings: &Bindings, modifier: MouseUrlModifier) -> (r: KeyboardFlags)
    ensures
        r == flags_for(bindings.uses_super(), modifier),
{
    let needs_super_keys = bindings.uses_super_modifier();
    let modifier_events = needs_modifier_events(modifier);
    KeyboardFlags {
        disambiguate_escape_codes: needs_super_keys || modifier_events,
        report_event_types: modifier_events,
        report_all_keys_as_escape_codes: modifier_events,
        report_alternate_keys: modifier_events,
    }
}

/// The terminal is asked for nothing exactly when no chord holds the Super key and
/// no modifier lends the mouse, and never for releases without the rest.
pub proof fn the_protocol_is_used_only_when_needed(uses_super: bool, modifier: MouseUrlModifier)
    ensures
        flags_for(uses_super, modifier).some() == (uses_super || !(modifier is Off)),
        flags_for(uses_super, modifier).report_all_keys_as_escape_codes ==> flags_for(
            uses_super,
            modifier,
        ) == (KeyboardFlags {
            disambiguate_escape_codes: true,
            report_event_types: true,
            report_all_keys_as_escape_codes: true,
            report_alternate_keys: true,
        }),
{
}

/// What the terminal has granted and must be given back.
#[derive(Clone, Copy, Debug, PartialEq, Eq, Structural)]
pub struct Acquired {
    pub enhanced_keyboard: bool,
    pub mouse_captured: bool,
    pub bracketed_paste: bool,
    pub host_title_pushed: bool,
    pub focus_changes: bool,
}

/// One step of giving the terminal back.
#[derive(Clone, Copy, Debug, PartialEq, Eq, Structural)]
pub enum Restore {
    FocusChanges,
    BracketedPaste,
    MouseCapture,
    /// Give the mouse cursor its ordinary shape.
    CursorShape,
    KeyboardFlags,
    Title,
    /// Throw away input that has not been read yet.
    PendingInput,
    RawMode,
    AlternateScreen,
}

/// `step` if it is due.
pub open spec fn if_due(due: bool, step: Restore) -> Seq<Restore> {
    if due {
        seq![step]
    } else {
        Seq::empty()
    }
}

/// How the terminal is given back: what it granted, last first, and no more than
/// that. Input is thrown away once nothing more is asked to be reported, and while
/// it is still read raw.
pub open spec fn restoration(acquired: Acquired) -> Seq<Restore> {
    if_due(acquired.focus_changes, Restore::FocusChanges) + if_due(
        acquired.bracketed_paste,
        Restore::BracketedPaste,
    ) + if_due(acquired.mouse_captured, Restore::MouseCapture) + seq![Restore::CursorShape]
        + if_due(acquired.enhanced_keyboard, Restore::KeyboardFlags) + if_due(
        acquired.host_title_pushed,
        Restore::Title,
    ) + seq![Restore::PendingInput, Restore::RawMode, Restore::AlternateScreen]
}

fn add_if(steps: &mut Vec<Restore>, due: bool, step: Restore)
    ensures
        final(steps)@ == old(steps)@ + if_due(due, step),
{
    if due {
        steps.push(step);
    }
    assert(steps@ =~= old(steps)@ + if_due(due, step));
}

/// The steps of giving the terminal back, in order.
pub fn restore_steps(acquired: Acquired) -> (r: Vec<Restore>)
    ensures
        r@ == restoration(acquired),
{
    let mut steps: Vec<Restore> = Vec::new();
    add_if(&mut steps, acquired.focus_changes, Restore::FocusChanges);
    add_if(&mut steps, acquired.bracketed_paste, Restore::BracketedPaste);
    add_if(&mut steps, acquired.mouse_captured, Restore::MouseCapture);
    steps.push(Restore::CursorShape);
    add_if(&mut steps, acquired.enhanced_keyboard, Restore::KeyboardFlags);
    add_if(&mut steps, acquired.host_title_pushed, Restore::Title);
    steps.push(Restore::PendingInput);
    steps.push(Restore::RawMode);
    steps.push(Restore::AlternateScreen);
    assert(steps@ =~= restoration(acquired));
    steps
}

/// The systems that open links in different ways.
#[derive(Clone, Copy, Debug, PartialEq, Eq, Structural)]
pub enum Platform {
    MacOs,
    Windows,
    OtherUnix,
}

/// The program that opens a link, and its arguments. The link is the last of them,
/// and all of it is one argument.
pub open spec fn opener(platform: Platform, url: Seq<char>) -> Seq<Seq<char>> {
    match platform {
        Platform::MacOs => seq!["open"@, url],
        Platform::Windows => seq!["cmd"@, "/C"@, "start"@, ""@, url],
        Platform::OtherUnix => seq!["xdg-open"@, url],
    }
}

/// The program that opens a link, and its arguments.
pub fn opener_command(platform: Platform, url: &str) -> (r: Vec<String>)
    ensures
        contents(r@) == opener(platform, url@),
{
    let mut words: Vec<String> = Vec::new();
    match platform {
        Platform::MacOs => {
            words.push("open".to_owned());
        },
        Platform::Windows => {
            words.push("cmd".to_owned());
            words.push("/C".to_owned());
            words.push("start".to_owned());
            words.push("".to_owned());
        },
        Platform::OtherUnix => {
            words.push("xdg-open".to_owned());
        },
    }
    words.push(url.to_owned());
    assert(contents(words@) =~= opener(platform, url@));
    words
}

/// A link reaches the program that opens it as one argument, whatever it holds.
pub proof fn links_are_one_argument(platform: Platform, url: Seq<char>)
    ensures
        opener(platform, url).len() >= 2,
        opener(platform, url).last() == url,
{
}

/// What the terminal did not grant is not given back, and everything else is.
pub proof fn only_what_was_granted_is_given_back(acquired: Acquired)
    ensures
        restoration(acquired).contains(Restore::FocusChanges) == acquired.focus_changes,
        restoration(acquired).contains(Restore::BracketedPaste) == acquired.bracketed_paste,
        restoration(acquired).contains(Restore::MouseCapture) == acquired.mouse_captured,
        restoration(acquired).contains(Restore::KeyboardFlags) == acquired.enhanced_keyboard,
        restoration(acquired).contains(Restore::Title) == acquired.host_title_pushed,
        restoration(acquired).last() == Restore::AlternateScreen,
        restoration(acquired)[restoration(acquired).len() - 2] == Restore::RawMode,
{
    let steps = restoration(acquired);
    let n1 = if acquired.focus_changes { 1int } else { 0 };
    let n2 = n1 + if acquired.bracketed_paste { 1int } else { 0 };
    let n3 = n2 + if acquired.mouse_captured { 1int } else { 0 };
    let n4 = n3 + 1 + if acquired.enhanced_keyboard { 1int } else { 0 };
    if acquired.focus_changes {
        assert(steps[0] == Restore::FocusChanges);
    }
    if acquired.bracketed_paste {
        assert(steps[n1] == Restore::BracketedPaste);
    }
    if acquired.mouse_captured {
        assert(steps[n2] == Restore::MouseCapture);
    }
    if acquired.enhanced_keyboard {
        assert(steps[n3 + 1] == Restore::KeyboardFlags);
    }
    if acquired.host_title_pushed {
        assert(steps[n4] == Restore::Title);
    }
}

/// Which parts of the protocol are asked for: all of them while a modifier lends the
/// mouse, telling keys apart alone while only a chord holds the Super key, and none
/// otherwise.
pub proof fn the_protocol_follows_the_configuration(uses_super: bool, modifier: MouseUrlModifier)
    ensures
        ({
            let flags = flags_for(uses_super, modifier);
            &&& !(modifier is Off) ==> flags.disambiguate_escape_codes && flags.report_event_types
                && flags.report_all_keys_as_escape_codes && flags.report_alternate_keys
            &&& modifier is Off ==> !flags.report_event_types
                && !flags.report_all_keys_as_escape_codes && !flags.report_alternate_keys
                && flags.disambiguate_escape_codes == uses_super
        }),
{
}

/// The terminal is given back in one order, whatever was granted: first what reports
/// input, then the pointer, the keyboard and the title, then the unread input goes,
/// and last the terminal's own modes. No step is taken twice.
pub proof fn the_terminal_is_given_back_in_order(acquired: Acquired, i: int, j: int)
    requires
        0 <= i < j < restoration(acquired).len(),
    ensures
        place_in_order(restoration(acquired)[i]) < place_in_order(restoration(acquired)[j]),
        restoration(acquired).contains(Restore::CursorShape),
        restoration(acquired).contains(Restore::PendingInput),
        restoration(acquired).contains(Restore::RawMode),
        restoration(acquired).contains(Restore::AlternateScreen),
{
    let steps = restoration(acquired);
    let n = steps.len();
    assert(steps[n - 1] == Restore::AlternateScreen);
    assert(steps[n - 2] == Restore::RawMode);
    assert(steps[n - 3] == Restore::PendingInput);
    let n3 = (if acquired.focus_changes { 1int } else { 0 }) + (if acquired.bracketed_paste {
        1int
    } else {
        0
    }) + if acquired.mouse_captured { 1int } else { 0 };
    assert(steps[n3] == Restore::CursorShape);
}

/// The place of a step in the order in which the terminal is given back.
pub open spec fn place_in_order(step: Restore) -> int {
    match step {
        Restore::FocusChanges => 0,
        Restore::BracketedPaste => 1,
        Restore::MouseCapture => 2,
        Restore::CursorShape => 3,
        Restore::KeyboardFlags => 4,
        Restore::Title => 5,
        Restore::PendingInput => 6,
        Restore::RawMode => 7,
        Restore::AlternateScreen => 8,
    }
}

/// Each system has its own program for links, with the link as its only argument but
/// for what the Windows shell needs before it.
pub proof fn each_system_has_its_opener(url: Seq<char>)
    ensures
        opener(Platform::MacOs, url).len() == 2,
        opener(Platform::MacOs, url)[0] == "open"@,
        opener(Platform::OtherUnix, url).len() == 2,
        opener(Platform::OtherUnix, url)[0] == "xdg-open"@,
        opener(Platform::Windows, url).len() == 5,
        opener(Platform::Windows, url).take(4) == seq!["cmd"@, "/C"@, "start"@, ""@],
{
    assert(opener(Platform::Windows, url).take(4) =~= seq!["cmd"@, "/C"@, "start"@, ""@]);
}

} // verus!
