//! Key events, and the bytes a terminal program reads for them.

use vstd::prelude::*;
use vstd::utf8::encode_utf8;

verus! {

/// The modifier keys held during an event.
#[derive(Clone, Copy, Debug, PartialEq, Eq, Structural)]
pub struct KeyModifiers {
    pub shift: bool,
    pub control: bool,
    pub alt: bool,
    pub super_key: bool,
    pub hyper: bool,
    pub meta: bool,
}

impl KeyModifiers {
    /// No modifier.
    pub open spec fn nothing() -> KeyModifiers {
        KeyModifiers {
            shift: false,
            control: false,
            alt: false,
            super_key: false,
            hyper: false,
            meta: false,
        }
    }

    /// No modifier.
    pub fn none() -> (r: KeyModifiers)
        ensures
            r == KeyModifiers::nothing(),
    {
        KeyModifiers {
            shift: false,
            control: false,
            alt: false,
            super_key: false,
            hyper: false,
            meta: false,
        }
    }

    /// The modifiers of `self` and those of `other`.
    pub fn union(self, other: KeyModifiers) -> (r: KeyModifiers)
        ensures
            r == (KeyModifiers {
                shift: self.shift || other.shift,
                control: self.control || other.control,
                alt: self.alt || other.alt,
                super_key: self.super_key || other.super_key,
                hyper: self.hyper || other.hyper,
                meta: self.meta || other.meta,
            }),
    {
        KeyModifiers {
            shift: self.shift || other.shift,
            control: self.control || other.control,
            alt: self.alt || other.alt,
            super_key: self.super_key || other.super_key,
            hyper: self.hyper || other.hyper,
            meta: self.meta || other.meta,
        }
    }
}

/// A modifier key as a key of its own.
#[derive(Clone, Copy, Debug, PartialEq, Eq, Structural)]
pub enum ModifierKeyCode {
    LeftShift,
    LeftControl,
    LeftAlt,
    LeftSuper,
    LeftHyper,
    LeftMeta,
    RightShift,
    RightControl,
    RightAlt,
    RightSuper,
    RightHyper,
    RightMeta,
    IsoLevel3Shift,
    IsoLevel5Shift,
}

/// A key that controls the playing of media.
#[derive(Clone, Copy, Debug, PartialEq, Eq, Structural)]
pub enum MediaKeyCode {
    Play,
    Pause,
    PlayPause,
    Reverse,
    Stop,
    FastForward,
    Rewind,
    TrackNext,
    TrackPrevious,
    Record,
    LowerVolume,
    RaiseVolume,
    MuteVolume,
}

/// A key.
#[derive(Clone, Copy, Debug, PartialEq, Eq, Structural)]
pub enum KeyCode {
    Backspace,
    Enter,
    Left,
    Right,
    Up,
    Down,
    Home,
    End,
    PageUp,
    PageDown,
    Tab,
    BackTab,
    Delete,
    Insert,
    F(u8),
    Char(char),
    Null,
    Esc,
    CapsLock,
    ScrollLock,
    NumLock,
    PrintScreen,
    Pause,
    Menu,
    KeypadBegin,
    Media(MediaKeyCode),
    Modifier(ModifierKeyCode),
}

/// Whether a key went down, is being held, or came up.
#[derive(Clone, Copy, Debug, PartialEq, Eq, Structural)]
pub enum KeyEventKind {
    Press,
    Repeat,
    Release,
}

/// One key event.
#[derive(Clone, Copy, Debug, PartialEq, Eq, Structural)]
pub struct KeyEvent {
    pub code: KeyCode,
    pub modifiers: KeyModifiers,
    pub kind: KeyEventKind,
}

/// The modifier whose holding hands the mouse back to the host terminal.
#[derive(Clone, Copy, Debug, PartialEq, Eq, Structural)]
pub enum MouseUrlModifier {
    Off,
    Cmd,
    Ctrl,
    Alt,
    Shift,
}

/// Whether `key` is a physical key of `wanted`, on either side of the keyboard.
/// `Cmd` is Super, or Meta where the keymap says Meta for it.
pub open spec fn is_url_modifier(key: ModifierKeyCode, wanted: MouseUrlModifier) -> bool {
    match wanted {
        MouseUrlModifier::Off => false,
        MouseUrlModifier::Cmd => key is LeftSuper || key is RightSuper || key is LeftMeta
            || key is RightMeta,
        MouseUrlModifier::Ctrl => key is LeftControl || key is RightControl,
        MouseUrlModifier::Alt => key is LeftAlt || key is RightAlt,
        MouseUrlModifier::Shift => key is LeftShift || key is RightShift,
    }
}

/// Whether `mk` is the key the user chose to drive the yield of the mouse.
pub fn matches_url_modifier(mk: ModifierKeyCode, url_mod: MouseUrlModifier) -> (r: bool)
    ensures
        r == is_url_modifier(mk, url_mod),
{
    match url_mod {
        MouseUrlModifier::Off => false,
        MouseUrlModifier::Cmd => matches!(
            mk,
            ModifierKeyCode::LeftSuper | ModifierKeyCode::RightSuper | ModifierKeyCode::LeftMeta
                | ModifierKeyCode::RightMeta
        ),
        MouseUrlModifier::Ctrl => matches!(
            mk,
            ModifierKeyCode::LeftControl | ModifierKeyCode::RightControl
        ),
        MouseUrlModifier::Alt => matches!(
            mk,
            ModifierKeyCode::LeftAlt | ModifierKeyCode::RightAlt
        ),
        MouseUrlModifier::Shift => matches!(
            mk,
            ModifierKeyCode::LeftShift | ModifierKeyCode::RightShift
        ),
    }
}

/// The control byte of a letter, `1` for `a` or `A` up to `26` for `z` or `Z`;
/// nothing for any other character.
pub open spec fn control_code(c: char) -> Option<u8> {
    if 'a' <= c && c <= 'z' {
        Some((c as u32 - 'a' as u32 + 1) as u8)
    } else if 'A' <= c && c <= 'Z' {
        Some((c as u32 - 'A' as u32 + 1) as u8)
    } else {
        None
    }
}

/// The control byte of a letter.
pub fn control_byte(c: char) -> (r: Option<u8>)
    ensures
        r == control_code(c),
{
    if 'a' <= c && c <= 'z' {
        Some((c as u32 - 'a' as u32 + 1) as u8)
    } else if 'A' <= c && c <= 'Z' {
        Some((c as u32 - 'A' as u32 + 1) as u8)
    } else {
        None
    }
}

/// The bytes a terminal sends for a key. Only Ctrl with a character alters
/// them: a Ctrl-letter is itself a control byte.
pub open spec fn terminal_bytes(code: KeyCode, modifiers: KeyModifiers) -> Option<Seq<u8>> {
    match code {
        KeyCode::Char(c) => if modifiers.control {
            match control_code(c) {
                Some(b) => Some(seq![b]),
                None => None,
            }
        } else {
            Some(encode_utf8(seq![c]))
        },
        KeyCode::Enter => Some(seq![0x0du8]),
        KeyCode::Tab => Some(seq![0x09u8]),
        KeyCode::BackTab => Some(seq![0x1bu8, 0x5b, 0x5a]),
        KeyCode::Backspace => Some(seq![0x7fu8]),
        KeyCode::Esc => Some(seq![0x1bu8]),
        KeyCode::Up => Some(seq![0x1bu8, 0x5b, 0x41]),
        KeyCode::Down => Some(seq![0x1bu8, 0x5b, 0x42]),
        KeyCode::Right => Some(seq![0x1bu8, 0x5b, 0x43]),
        KeyCode::Left => Some(seq![0x1bu8, 0x5b, 0x44]),
        KeyCode::Home => Some(seq![0x1bu8, 0x5b, 0x48]),
        KeyCode::End => Some(seq![0x1bu8, 0x5b, 0x46]),
        KeyCode::PageUp => Some(seq![0x1bu8, 0x5b, 0x35, 0x7e]),
        KeyCode::PageDown => Some(seq![0x1bu8, 0x5b, 0x36, 0x7e]),
        KeyCode::Delete => Some(seq![0x1bu8, 0x5b, 0x33, 0x7e]),
        KeyCode::Insert => Some(seq![0x1bu8, 0x5b, 0x32, 0x7e]),
        _ => None,
    }
}

/// The bytes of an optional byte vector.
pub open spec fn bytes_of(r: Option<Vec<u8>>) -> Option<Seq<u8>> {
    match r {
        Some(v) => Some(v@),
        None => None,
    }
}

/// Appends `text` in UTF-8.
pub fn push_utf8(out: &mut Vec<u8>, text: &str)
    ensures
        final(out)@ == old(out)@ + encode_utf8(text@),
{
    let bytes = text.as_bytes();
    let ghost before = out@;
    for i in 0..bytes.len()
        invariant
            bytes@ == encode_utf8(text@),
            out@ == before + bytes@.take(i as int),
    {
        out.push(bytes[i]);
        assert(out@ =~= before + bytes@.take(i + 1));
    }
    assert(bytes@.take(bytes@.len() as int) =~= bytes@);
}

/// The bytes a terminal sends for a key, with no opinion on modifiers but Ctrl
/// with a character.
pub fn encode_terminal_key(code: KeyCode, modifiers: KeyModifiers) -> (r: Option<Vec<u8>>)
    ensures
        bytes_of(r) == terminal_bytes(code, modifiers),
{
    let r = match code {
        KeyCode::Char(c) => if modifiers.control {
            match control_byte(c) {
                Some(b) => Some(vec![b]),
                None => None,
            }
        } else {
            let mut text = String::new();
            text.push(c);
            let mut bytes: Vec<u8> = Vec::new();
            push_utf8(&mut bytes, text.as_str());
            assert(text@ =~= seq![c]);
            assert(bytes@ =~= encode_utf8(seq![c]));
            Some(bytes)
        },
        KeyCode::Enter => Some(vec![0x0du8]),
        KeyCode::Tab => Some(vec![0x09u8]),
        KeyCode::BackTab => Some(vec![0x1bu8, 0x5b, 0x5a]),
        KeyCode::Backspace => Some(vec![0x7fu8]),
        KeyCode::Esc => Some(vec![0x1bu8]),
        KeyCode::Up => Some(vec![0x1bu8, 0x5b, 0x41]),
        KeyCode::Down => Some(vec![0x1bu8, 0x5b, 0x42]),
        KeyCode::Right => Some(vec![0x1bu8, 0x5b, 0x43]),
        KeyCode::Left => Some(vec![0x1bu8, 0x5b, 0x44]),
        KeyCode::Home => Some(vec![0x1bu8, 0x5b, 0x48]),
        KeyCode::End => Some(vec![0x1bu8, 0x5b, 0x46]),
        KeyCode::PageUp => Some(vec![0x1bu8, 0x5b, 0x35, 0x7e]),
        KeyCode::PageDown => Some(vec![0x1bu8, 0x5b, 0x36, 0x7e]),
        KeyCode::Delete => Some(vec![0x1bu8, 0x5b, 0x33, 0x7e]),
        KeyCode::Insert => Some(vec![0x1bu8, 0x5b, 0x32, 0x7e]),
        _ => None,
    };
    proof {
        let expected = terminal_bytes(code, modifiers);
        if r is Some && expected is Some {
            assert(r->0@ =~= expected->0);
        }
    }
    r
}

/// The bytes a readline-style input understands for a chord of a graphical
/// desktop; nothing for a chord with no such meaning.
///
/// | Chord                                | Bytes     | Meaning              |
/// |--------------------------------------|-----------|----------------------|
/// | Cmd with Backspace                   | `15`      | discard the line     |
/// | Ctrl or Alt with Backspace           | `1b 7f`   | rub out a word       |
/// | Shift, Alt, Ctrl or Cmd with Enter   | `1b 0d`   | newline in the input |
pub open spec fn readline_bytes(code: KeyCode, modifiers: KeyModifiers) -> Option<Seq<u8>> {
    match code {
        KeyCode::Backspace => if modifiers.super_key {
            Some(seq![0x15u8])
        } else if modifiers.control || modifiers.alt {
            Some(seq![0x1bu8, 0x7f])
        } else {
            None
        },
        KeyCode::Enter => if modifiers.shift || modifiers.alt || modifiers.control
            || modifiers.super_key {
            Some(seq![0x1bu8, 0x0d])
        } else {
            None
        },
        _ => None,
    }
}

/// Translates a desktop chord into the bytes a readline-style input acts on.
pub fn translate_readline_shortcut(code: KeyCode, modifiers: KeyModifiers) -> (r: Option<Vec<u8>>)
    ensures
        bytes_of(r) == readline_bytes(code, modifiers),
        code != KeyCode::Backspace && code != KeyCode::Enter ==> r is None,
{
    let r = match code {
        KeyCode::Backspace => if modifiers.super_key {
            Some(vec![0x15u8])
        } else if modifiers.control || modifiers.alt {
            Some(vec![0x1bu8, 0x7f])
        } else {
            None
        },
        KeyCode::Enter => if modifiers.shift || modifiers.alt || modifiers.control
            || modifiers.super_key {
            Some(vec![0x1bu8, 0x0d])
        } else {
            None
        },
        _ => None,
    };
    proof {
        let expected = readline_bytes(code, modifiers);
        if r is Some && expected is Some {
            assert(r->0@ =~= expected->0);
        }
    }
    r
}

/// The bytes to forward for a key: those of its desktop meaning when it has
/// one, and else those a terminal sends.
pub open spec fn forwarded_bytes(code: KeyCode, modifiers: KeyModifiers) -> Option<Seq<u8>> {
    match readline_bytes(code, modifiers) {
        Some(b) => Some(b),
        None => terminal_bytes(code, modifiers),
    }
}

/// The bytes to forward to the program for a key.
pub fn key_to_bytes(code: KeyCode, modifiers: KeyModifiers) -> (r: Option<Vec<u8>>)
    ensures
        bytes_of(r) == forwarded_bytes(code, modifiers),
        code matches KeyCode::Char(c) ==> !modifiers.control ==> r is Some && r->0@ == encode_utf8(
            seq![c],
        ),
{
    match translate_readline_shortcut(code, modifiers) {
        Some(bytes) => Some(bytes),
        None => encode_terminal_key(code, modifiers),
    }
}

/// The marker before pasted text.
pub open spec fn paste_start() -> Seq<u8> {
    seq![0x1bu8, 0x5b, 0x32, 0x30, 0x30, 0x7e]
}

/// The marker after pasted text.
pub open spec fn paste_end() -> Seq<u8> {
    seq![0x1bu8, 0x5b, 0x32, 0x30, 0x31, 0x7e]
}

/// `bytes` without the escape bytes in it.
pub open spec fn without_escapes(bytes: Seq<u8>) -> Seq<u8> {
    bytes.filter(|b: u8| b != 0x1b)
}

/// A paste as a program in bracketed-paste mode reads it.
pub open spec fn bracketed_paste(text: Seq<char>) -> Seq<u8> {
    paste_start() + without_escapes(encode_utf8(text)) + paste_end()
}

/// Wraps pasted text in the bracketed-paste markers. Escape bytes in the text
/// are dropped, so nothing in it can end the paste early.
pub fn wrap_paste(text: &str) -> (out: Vec<u8>)
    ensures
        out@ == bracketed_paste(text@),
{
    let mut out: Vec<u8> = vec![0x1bu8, 0x5b, 0x32, 0x30, 0x30, 0x7e];
    assert(out@ =~= paste_start());
    let bytes = text.as_bytes();
    proof {
        reveal(Seq::filter);
    }
    assert(without_escapes(bytes@.take(0)) =~= Seq::<u8>::empty());
    for i in 0..bytes.len()
        invariant
            bytes@ == encode_utf8(text@),
            out@ == paste_start() + without_escapes(bytes@.take(i as int)),
    {
        proof {
            reveal(Seq::filter);
            assert(bytes@.take(i + 1).drop_last() =~= bytes@.take(i as int));
        }
        if bytes[i] != 0x1b {
            out.push(bytes[i]);
        }
        assert(out@ =~= paste_start() + without_escapes(bytes@.take(i + 1)));
    }
    assert(bytes@.take(bytes@.len() as int) =~= bytes@);
    let mut end: Vec<u8> = vec![0x1bu8, 0x5b, 0x32, 0x30, 0x31, 0x7e];
    assert(end@ =~= paste_end());
    out.append(&mut end);
    out
}

/// The terminal encoding has no opinion on modifiers: away from characters it
/// is the same whatever is held, and on characters only Ctrl matters.
pub proof fn terminal_bytes_have_no_modifier_opinion(
    code: KeyCode,
    a: KeyModifiers,
    b: KeyModifiers,
)
    requires
        code is Char ==> a.control == b.control,
    ensures
        terminal_bytes(code, a) == terminal_bytes(code, b),
{
}

/// A chord that is no readline shortcut reaches the program as the terminal
/// encoding of its key, and an unmodified key never is one.
pub proof fn unmodified_keys_are_no_shortcuts(code: KeyCode)
    ensures
        readline_bytes(code, KeyModifiers::nothing()) is None,
        forwarded_bytes(code, KeyModifiers::nothing()) == terminal_bytes(
            code,
            KeyModifiers::nothing(),
        ),
{
}

/// Cmd decides what Backspace means, whatever else is held with it.
pub proof fn cmd_backspace_discards_the_line(modifiers: KeyModifiers)
    requires
        modifiers.super_key,
    ensures
        forwarded_bytes(KeyCode::Backspace, modifiers) == Some(seq![0x15u8]),
{
}

/// Whatever is pasted, the only escape bytes of a wrapped paste are the first
/// bytes of its two markers. So the program sees exactly one end of the paste,
/// at the very end.
pub proof fn wrapped_paste_ends_once(text: Seq<char>)
    ensures
        ({
            let out = bracketed_paste(text);
            &&& out.len() >= 12
            &&& out.take(6) == paste_start()
            &&& out.skip(out.len() - 6) == paste_end()
            &&& forall|i: int|
                0 <= i < out.len() && #[trigger] out[i] == 0x1b ==> i == 0 || i == out.len() - 6
            &&& forall|i: int|
                0 <= i && i + 6 <= out.len() && #[trigger] out.subrange(i, i + 6) == paste_end()
                    ==> i == out.len() - 6
        }),
{
    let body = encode_utf8(text);
    let pred = |b: u8| b != 0x1b;
    broadcast use vstd::seq_lib::group_filter_ensures;

    let kept = without_escapes(body);
    let out = bracketed_paste(text);
    assert(out.take(6) =~= paste_start());
    assert(out.skip(out.len() - 6) =~= paste_end());
    assert forall|i: int| 0 <= i < out.len() && #[trigger] out[i] == 0x1b implies i == 0 || i
        == out.len() - 6 by {
        if 6 <= i < out.len() - 6 {
            assert(out[i] == kept[i - 6]);
            assert(pred(kept[i - 6]));
        }
    }
    assert forall|i: int|
        0 <= i && i + 6 <= out.len() && #[trigger] out.subrange(i, i + 6) == paste_end() implies i
        == out.len() - 6 by {
        let window = out.subrange(i, i + 6);
        assert(window[0] == out[i]);
        assert(out[i] == 0x1b);
        if i == 0 {
            assert(window[4] == out[4]);
        }
    }
}

/// A typed character reaches the program as its UTF-8 encoding, whatever modifiers
/// but Ctrl are held with it.
pub proof fn typed_characters_are_forwarded_in_utf8(c: char, modifiers: KeyModifiers)
    requires
        !modifiers.control,
    ensures
        readline_bytes(KeyCode::Char(c), modifiers) is None,
        terminal_bytes(KeyCode::Char(c), modifiers) == Some(encode_utf8(seq![c])),
        forwarded_bytes(KeyCode::Char(c), modifiers) == Some(encode_utf8(seq![c])),
{
}

/// Only Backspace and Enter have a desktop meaning. Any other key is forwarded as
/// its terminal encoding, whatever modifiers are held.
pub proof fn other_keys_are_no_shortcuts(code: KeyCode, modifiers: KeyModifiers)
    requires
        code != KeyCode::Backspace,
        code != KeyCode::Enter,
    ensures
        readline_bytes(code, modifiers) is None,
        forwarded_bytes(code, modifiers) == terminal_bytes(code, modifiers),
{
}

/// Ctrl with a letter is forwarded as one byte, the letter's place in the alphabet,
/// in either case and whatever else is held. Ctrl with any other character is not
/// forwarded at all.
pub proof fn control_letters_are_their_place_in_the_alphabet(c: char, modifiers: KeyModifiers)
    requires
        modifiers.control,
    ensures
        ({
            let lower = 'a' <= c && c <= 'z';
            let upper = 'A' <= c && c <= 'Z';
            match forwarded_bytes(KeyCode::Char(c), modifiers) {
                Some(bytes) => {
                    &&& lower || upper
                    &&& bytes.len() == 1
                    &&& 1 <= bytes[0] <= 26
                    &&& lower ==> bytes[0] as int - 1 == c as u32 as int - 'a' as u32 as int
                    &&& upper ==> bytes[0] as int - 1 == c as u32 as int - 'A' as u32 as int
                },
                None => !lower && !upper,
            }
        }),
        control_code(c) is Some <==> terminal_bytes(KeyCode::Char(c), modifiers) is Some,
{
}

/// What Backspace sends: Cmd discards the line, else Ctrl or Alt rubs out a word,
/// and without any of the three it is the byte `7f`, whatever else is held.
pub proof fn backspace_follows_its_modifiers(modifiers: KeyModifiers)
    ensures
        modifiers.super_key ==> forwarded_bytes(KeyCode::Backspace, modifiers) == Some(
            seq![0x15u8],
        ),
        !modifiers.super_key && modifiers.control ==> forwarded_bytes(
            KeyCode::Backspace,
            modifiers,
        ) == Some(seq![0x1bu8, 0x7f]),
        !modifiers.super_key && modifiers.alt ==> forwarded_bytes(KeyCode::Backspace, modifiers)
            == Some(seq![0x1bu8, 0x7f]),
        !modifiers.super_key && !modifiers.control && !modifiers.alt ==> {
            &&& readline_bytes(KeyCode::Backspace, modifiers) is None
            &&& forwarded_bytes(KeyCode::Backspace, modifiers) == Some(seq![0x7fu8])
        },
        terminal_bytes(KeyCode::Backspace, modifiers) == Some(seq![0x7fu8]),
{
}

/// What Enter sends: with Shift, Alt, Ctrl or Cmd a newline in the input, and
/// without any of the four the byte `0d`, whatever else is held.
pub proof fn enter_follows_its_modifiers(modifiers: KeyModifiers)
    ensures
        modifiers.shift ==> forwarded_bytes(KeyCode::Enter, modifiers) == Some(
            seq![0x1bu8, 0x0d],
        ),
        modifiers.alt ==> forwarded_bytes(KeyCode::Enter, modifiers) == Some(seq![0x1bu8, 0x0d]),
        modifiers.control ==> forwarded_bytes(KeyCode::Enter, modifiers) == Some(
            seq![0x1bu8, 0x0d],
        ),
        modifiers.super_key ==> forwarded_bytes(KeyCode::Enter, modifiers) == Some(
            seq![0x1bu8, 0x0d],
        ),
        !modifiers.shift && !modifiers.alt && !modifiers.control && !modifiers.super_key ==> {
            &&& readline_bytes(KeyCode::Enter, modifiers) is None
            &&& forwarded_bytes(KeyCode::Enter, modifiers) == Some(seq![0x0du8])
        },
        terminal_bytes(KeyCode::Enter, modifiers) == Some(seq![0x0du8]),
{
}

/// The keys that are no characters have one sequence each, whatever modifiers are
/// held: the arrows and Home and End are an escape, a bracket and a letter, the
/// paging and editing keys an escape, a bracket, a digit and a tilde.
pub proof fn special_keys_send_their_sequences(modifiers: KeyModifiers)
    ensures
        forwarded_bytes(KeyCode::Tab, modifiers) == Some(seq!['\t' as u8]),
        forwarded_bytes(KeyCode::Esc, modifiers) == Some(seq![27u8]),
        forwarded_bytes(KeyCode::BackTab, modifiers) == Some(seq![27u8, '[' as u8, 'Z' as u8]),
        forwarded_bytes(KeyCode::Up, modifiers) == Some(seq![27u8, '[' as u8, 'A' as u8]),
        forwarded_bytes(KeyCode::Down, modifiers) == Some(seq![27u8, '[' as u8, 'B' as u8]),
        forwarded_bytes(KeyCode::Right, modifiers) == Some(seq![27u8, '[' as u8, 'C' as u8]),
        forwarded_bytes(KeyCode::Left, modifiers) == Some(seq![27u8, '[' as u8, 'D' as u8]),
        forwarded_bytes(KeyCode::Home, modifiers) == Some(seq![27u8, '[' as u8, 'H' as u8]),
        forwarded_bytes(KeyCode::End, modifiers) == Some(seq![27u8, '[' as u8, 'F' as u8]),
        forwarded_bytes(KeyCode::Insert, modifiers) == Some(
            seq![27u8, '[' as u8, '2' as u8, '~' as u8],
        ),
        forwarded_bytes(KeyCode::Delete, modifiers) == Some(
            seq![27u8, '[' as u8, '3' as u8, '~' as u8],
        ),
        forwarded_bytes(KeyCode::PageUp, modifiers) == Some(
            seq![27u8, '[' as u8, '5' as u8, '~' as u8],
        ),
        forwarded_bytes(KeyCode::PageDown, modifiers) == Some(
            seq![27u8, '[' as u8, '6' as u8, '~' as u8],
        ),
{
}

/// A key that stands for no text and no movement (a function key, a lock, a media
/// key, a bare modifier and the like) is not forwarded, whatever is held with it.
pub proof fn silent_keys_are_not_forwarded(code: KeyCode, modifiers: KeyModifiers)
    requires
        code is F || code is Null || code is CapsLock || code is ScrollLock || code is NumLock
            || code is PrintScreen || code is Pause || code is Menu || code is KeypadBegin
            || code is Media || code is Modifier,
    ensures
        forwarded_bytes(code, modifiers) is None,
{
}

/// Both keys of a modifier count as it, and no key counts as two modifiers; Super
/// and Meta both count as Cmd. With the modifier off no key counts.
pub proof fn each_modifier_has_its_two_keys(key: ModifierKeyCode, wanted: MouseUrlModifier)
    ensures
        is_url_modifier(key, wanted) ==> !(wanted is Off),
        key is LeftShift || key is RightShift ==> (is_url_modifier(key, wanted) <==> wanted
            is Shift),
        key is LeftControl || key is RightControl ==> (is_url_modifier(key, wanted) <==> wanted
            is Ctrl),
        key is LeftAlt || key is RightAlt ==> (is_url_modifier(key, wanted) <==> wanted is Alt),
        key is LeftSuper || key is RightSuper || key is LeftMeta || key is RightMeta ==> (
        is_url_modifier(key, wanted) <==> wanted is Cmd),
        key is LeftHyper || key is RightHyper || key is IsoLevel3Shift || key is IsoLevel5Shift
            ==> !is_url_modifier(key, wanted),
{
}

/// Between the markers of a wrapped paste stand the bytes of the text in their
/// order, all of them but the escape bytes: a text without any is there whole.
pub proof fn a_paste_carries_its_text(text: Seq<char>)
    ensures
        ({
            let bytes = encode_utf8(text);
            let out = bracketed_paste(text);
            let body = out.subrange(6, out.len() - 6);
            &&& out.len() >= 12
            &&& body.len() <= bytes.len()
            &&& !bytes.contains(27u8) ==> body == bytes
            &&& forall|b: u8| b != 27 ==> (#[trigger] body.contains(b) <==> bytes.contains(b))
            &&& forall|b: u8| b != 27 ==> #[trigger] body.to_multiset().count(b)
                == bytes.to_multiset().count(b)
            &&& out.take(6) == seq![
                27u8,
                '[' as u8,
                '2' as u8,
                '0' as u8,
                '0' as u8,
                '~' as u8,
            ]
            &&& out.skip(out.len() - 6) == seq![
                27u8,
                '[' as u8,
                '2' as u8,
                '0' as u8,
                '1' as u8,
                '~' as u8,
            ]
        }),
{
    let bytes = encode_utf8(text);
    let out = bracketed_paste(text);
    let kept = without_escapes(bytes);
    let body = out.subrange(6, out.len() - 6);
    assert(body =~= kept);
    assert(out.take(6) =~= paste_start());
    assert(out.skip(out.len() - 6) =~= paste_end());
    kept_bytes(bytes);
}

proof fn kept_bytes(bytes: Seq<u8>)
    ensures
        without_escapes(bytes).len() <= bytes.len(),
        !bytes.contains(27u8) ==> without_escapes(bytes) == bytes,
        forall|b: u8|
            b != 27 ==> (#[trigger] without_escapes(bytes).contains(b) <==> bytes.contains(b)),
        forall|b: u8|
            b != 27 ==> #[trigger] without_escapes(bytes).to_multiset().count(b)
                == bytes.to_multiset().count(b),
    decreases bytes.len(),
{
    broadcast use vstd::seq_lib::group_to_multiset_ensures;

    reveal(Seq::filter);
    if bytes.len() > 0 {
        let rest = bytes.drop_last();
        let last = bytes.last();
        kept_bytes(rest);
        assert(bytes =~= rest.push(last));
        if bytes.contains(27u8) == false {
            assert(!rest.contains(27u8));
            assert(bytes[bytes.len() - 1] != 27u8);
        }
        assert(bytes.to_multiset() =~= rest.to_multiset().insert(last));
        if last != 27 {
            assert(without_escapes(bytes) =~= without_escapes(rest).push(last));
            assert(without_escapes(bytes).to_multiset() =~= without_escapes(
                rest,
            ).to_multiset().insert(last));
        } else {
            assert(without_escapes(bytes) =~= without_escapes(rest));
        }
        assert forall|b: u8| b != 27 implies (#[trigger] without_escapes(bytes).contains(b)
            <==> bytes.contains(b)) by {
            assert(without_escapes(bytes).to_multiset().count(b) == bytes.to_multiset().count(b));
        }
    }
}

/// Optional bytes are the bytes that are there, be they none at all.
pub proof fn optional_bytes_are_the_bytes(bytes: Vec<u8>)
    ensures
        bytes_of(Some(bytes)) == Some(bytes@),
        bytes_of(None) is None,
{
}

} // verus!
