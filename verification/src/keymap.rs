//! Key bindings: chords, and the actions they are bound to in each scope.

use vstd::prelude::*;

use crate::keys::{control_byte, control_code, KeyCode, KeyEvent, KeyModifiers};

verus! {

/// A key together with the modifiers held with it.
#[derive(Clone, Copy, Debug, PartialEq, Eq, Structural)]
pub struct KeyChord {
    pub code: KeyCode,
    pub modifiers: KeyModifiers,
}

impl KeyChord {
    /// Whether pressing `key` is pressing this chord. On a character key Shift
    /// is part of the character, so only the other modifiers are compared.
    pub open spec fn accepts(self, key: KeyEvent) -> bool {
        &&& self.code == key.code
        &&& self.modifiers.control == key.modifiers.control
        &&& self.modifiers.alt == key.modifiers.alt
        &&& self.modifiers.super_key == key.modifiers.super_key
        &&& self.modifiers.hyper == key.modifiers.hyper
        &&& self.modifiers.meta == key.modifiers.meta
        &&& self.code is Char || self.modifiers.shift == key.modifiers.shift
    }

    /// The chord of `code` alone.
    pub fn plain(code: KeyCode) -> (r: KeyChord)
        ensures
            r == (KeyChord { code, modifiers: KeyModifiers::nothing() }),
    {
        KeyChord { code, modifiers: KeyModifiers::none() }
    }

    /// The chord of Ctrl with `code`.
    pub fn ctrl(code: KeyCode) -> (r: KeyChord)
        ensures
            r == (KeyChord {
                code,
                modifiers: KeyModifiers { control: true, ..KeyModifiers::nothing() },
            }),
    {
        let mut modifiers = KeyModifiers::none();
        modifiers.control = true;
        KeyChord { code, modifiers }
    }

    /// Whether pressing `key` is pressing this chord.
    pub fn matches(&self, key: &KeyEvent) -> (r: bool)
        ensures
            r == self.accepts(*key),
    {
        let on_character = match self.code {
            KeyCode::Char(_) => true,
            _ => false,
        };
        self.code == key.code && self.modifiers.control == key.modifiers.control
            && self.modifiers.alt == key.modifiers.alt && self.modifiers.super_key
            == key.modifiers.super_key && self.modifiers.hyper == key.modifiers.hyper
            && self.modifiers.meta == key.modifiers.meta && (on_character || self.modifiers.shift
            == key.modifiers.shift)
    }
}

/// The byte a Ctrl-letter chord sends; nothing for any other chord.
pub open spec fn literal_byte(chord: KeyChord) -> Option<u8> {
    match chord.code {
        KeyCode::Char(c) => if chord.modifiers.control {
            control_code(c)
        } else {
            None
        },
        _ => None,
    }
}

/// The byte a Ctrl-letter chord sends; nothing for any other chord.
pub fn literal_byte_for(chord: &KeyChord) -> (r: Option<u8>)
    ensures
        r == literal_byte(*chord),
{
    if !chord.modifiers.control {
        return None;
    }
    match chord.code {
        KeyCode::Char(c) => control_byte(c),
        _ => None,
    }
}

/// What a command after the prefix key does.
#[derive(Clone, Copy, Debug, PartialEq, Eq, Structural)]
pub enum PrefixAction {
    Quit,
    SpawnAgent,
    FocusNext,
    FocusPrev,
    FocusLast,
    ToggleNav,
    OpenSwitcher,
    DismissAgent,
    KillAgent,
    Help,
}

/// What a chord that needs no prefix does.
#[derive(Clone, Copy, Debug, PartialEq, Eq, Structural)]
pub enum DirectAction {
    SpawnAgent,
    FocusNext,
    FocusPrev,
    FocusLast,
}

/// What a key does in the agent switcher.
#[derive(Clone, Copy, Debug, PartialEq, Eq, Structural)]
pub enum PopupAction {
    Next,
    Prev,
    Confirm,
    Cancel,
}

/// What a key does while an agent is scrolled back.
#[derive(Clone, Copy, Debug, PartialEq, Eq, Structural)]
pub enum ScrollAction {
    LineUp,
    LineDown,
    PageUp,
    PageDown,
    Top,
    Bottom,
    ExitScroll,
}

/// One action and what is bound to it: a chord, further chords that do the
/// same, how the chord is written, and what the action does in words.
pub struct Binding<A> {
    pub action: A,
    pub chord: KeyChord,
    pub aliases: Vec<KeyChord>,
    pub label: String,
    pub description: String,
}

impl<A> Binding<A> {
    /// Whether pressing `key` asks for this action.
    pub open spec fn accepts(self, key: KeyEvent) -> bool {
        self.chord.accepts(key) || exists|i: int|
            0 <= i < self.aliases@.len() && (#[trigger] self.aliases@[i]).accepts(key)
    }

    /// Whether any of its chords holds the Super key.
    pub open spec fn uses_super(self) -> bool {
        self.chord.modifiers.super_key || exists|i: int|
            0 <= i < self.aliases@.len() && (#[trigger] self.aliases@[i]).modifiers.super_key
    }

    /// Whether pressing `key` asks for this action.
    pub fn matches(&self, key: &KeyEvent) -> (r: bool)
        ensures
            r == self.accepts(*key),
    {
        if self.chord.matches(key) {
            return true;
        }
        for i in 0..self.aliases.len()
            invariant
                forall|j: int| 0 <= j < i ==> !(#[trigger] self.aliases@[j]).accepts(*key),
        {
            if self.aliases[i].matches(key) {
                return true;
            }
        }
        false
    }

    /// Whether any of its chords holds the Super key.
    pub fn holds_super(&self) -> (r: bool)
        ensures
            r == self.uses_super(),
    {
        if self.chord.modifiers.super_key {
            return true;
        }
        for i in 0..self.aliases.len()
            invariant
                forall|j: int| 0 <= j < i ==> !(#[trigger] self.aliases@[j]).modifiers.super_key,
        {
            if self.aliases[i].modifiers.super_key {
                return true;
            }
        }
        false
    }
}

/// The bindings of one scope, in the order in which they are tried and listed.
pub struct Scope<A> {
    pub bindings: Vec<Binding<A>>,
}

/// The action of the first binding that accepts `key`.
pub open spec fn first_action<A>(bindings: Seq<Binding<A>>, key: KeyEvent) -> Option<A>
    decreases bindings.len(),
{
    if bindings.len() == 0 {
        None
    } else if bindings[0].accepts(key) {
        Some(bindings[0].action)
    } else {
        first_action(bindings.skip(1), key)
    }
}

/// The first binding of `action`, the one that help shows for it.
pub open spec fn binding_of<A>(bindings: Seq<Binding<A>>, action: A) -> Option<Binding<A>>
    decreases bindings.len(),
{
    if bindings.len() == 0 {
        None
    } else if bindings[0].action == action {
        Some(bindings[0])
    } else {
        binding_of(bindings.skip(1), action)
    }
}

/// A binding that is found is one of those looked through, and is of that action; one
/// is found as soon as there is one.
pub(crate) proof fn what_is_found_is_there<A>(bindings: Seq<Binding<A>>, action: A)
    ensures
        binding_of(bindings, action) matches Some(b) ==> bindings.contains(b) && b.action
            == action,
        (exists|i: int| 0 <= i < bindings.len() && (#[trigger] bindings[i]).action == action)
            ==> binding_of(bindings, action) is Some,
    decreases bindings.len(),
{
    if bindings.len() > 0 {
        let rest = bindings.skip(1);
        what_is_found_is_there(rest, action);
        if bindings[0].action != action {
            if let Some(b) = binding_of(rest, action) {
                let k = rest.index_of(b);
                assert(bindings[k + 1] == b);
            }
            if exists|i: int| 0 <= i < bindings.len() && (#[trigger] bindings[i]).action == action {
                let i = choose|i: int|
                    0 <= i < bindings.len() && (#[trigger] bindings[i]).action == action;
                assert(rest[i - 1].action == action);
            }
        } else {
            assert(bindings[0] == binding_of(bindings, action)->0);
        }
    }
}

impl<A> Scope<A> {
    /// Whether every action there is has a binding.
    pub open spec fn complete(self) -> bool {
        forall|action: A| #[trigger] self.binds(action)
    }

    /// Whether `action` has a binding.
    pub open spec fn binds(self, action: A) -> bool {
        exists|i: int|
            0 <= i < self.bindings@.len() && (#[trigger] self.bindings@[i]).action == action
    }

    /// Whether any chord of the scope holds the Super key.
    pub open spec fn uses_super(self) -> bool {
        exists|i: int|
            0 <= i < self.bindings@.len() && (#[trigger] self.bindings@[i]).uses_super()
    }

    /// Whether any chord of the scope holds the Super key.
    pub fn holds_super(&self) -> (r: bool)
        ensures
            r == self.uses_super(),
    {
        for i in 0..self.bindings.len()
            invariant
                forall|j: int| 0 <= j < i ==> !(#[trigger] self.bindings@[j]).uses_super(),
        {
            if self.bindings[i].holds_super() {
                return true;
            }
        }
        false
    }
}

impl<A: Copy> Scope<A> {
    /// The action bound to `key`: that of the first binding that accepts it.
    pub fn lookup(&self, key: &KeyEvent) -> (r: Option<A>)
        ensures
            r == first_action(self.bindings@, *key),
    {
        assert(self.bindings@.skip(0) =~= self.bindings@);
        for i in 0..self.bindings.len()
            invariant
                first_action(self.bindings@.skip(i as int), *key) == first_action(
                    self.bindings@,
                    *key,
                ),
        {
            let ghost rest = self.bindings@.skip(i as int);
            assert(rest[0] == self.bindings@[i as int]);
            assert(rest.skip(1) =~= self.bindings@.skip(i + 1));
            if self.bindings[i].matches(key) {
                return Some(self.bindings[i].action);
            }
        }
        None
    }
}

/// A chord of the spawn dialog, as the help screen lists it.
pub struct ModalChord {
    pub chord: KeyChord,
    pub label: String,
    pub description: String,
}

/// Every binding.
pub struct Bindings {
    pub prefix: KeyChord,
    pub prefix_label: String,
    pub on_prefix: Scope<PrefixAction>,
    pub on_direct: Scope<DirectAction>,
    pub on_popup: Scope<PopupAction>,
    pub on_scroll: Scope<ScrollAction>,
    pub on_modal: Vec<ModalChord>,
}

/// How the chord of the first binding for dismissing an agent is written;
/// nothing when there is none.
pub open spec fn dismiss_text(bindings: Seq<Binding<PrefixAction>>) -> Seq<char>
    decreases bindings.len(),
{
    if bindings.len() == 0 {
        Seq::empty()
    } else if bindings[0].action is DismissAgent {
        bindings[0].label@
    } else {
        dismiss_text(bindings.skip(1))
    }
}

impl Bindings {
    /// Whether every action of every scope has a binding.
    pub open spec fn complete(self) -> bool {
        &&& self.on_direct.complete()
        &&& self.on_prefix.complete()
        &&& self.on_popup.complete()
        &&& self.on_scroll.complete()
    }

    /// Whether some chord holds the Super key.
    pub open spec fn uses_super(self) -> bool {
        ||| self.prefix.modifiers.super_key
        ||| self.on_prefix.uses_super()
        ||| self.on_direct.uses_super()
        ||| self.on_popup.uses_super()
        ||| self.on_scroll.uses_super()
        ||| exists|i: int|
            0 <= i < self.on_modal@.len() && (#[trigger] self.on_modal@[i]).chord.modifiers.super_key
    }

    /// Whether some chord holds the Super key.
    pub fn uses_super_modifier(&self) -> (r: bool)
        ensures
            r == self.uses_super(),
    {
        if self.prefix.modifiers.super_key || self.on_prefix.holds_super()
            || self.on_direct.holds_super() || self.on_popup.holds_super()
            || self.on_scroll.holds_super() {
            return true;
        }
        for i in 0..self.on_modal.len()
            invariant
                forall|j: int|
                    0 <= j < i ==> !(#[trigger] self.on_modal@[j]).chord.modifiers.super_key,
        {
            if self.on_modal[i].chord.modifiers.super_key {
                return true;
            }
        }
        false
    }

    /// How the chord that dismisses an agent is written.
    pub fn dismiss_label(&self) -> (r: String)
        ensures
            r@ == dismiss_text(self.on_prefix.bindings@),
    {
        let bindings = &self.on_prefix.bindings;
        assert(bindings@.skip(0) =~= bindings@);
        for i in 0..bindings.len()
            invariant
                bindings@ == self.on_prefix.bindings@,
                dismiss_text(bindings@.skip(i as int)) == dismiss_text(bindings@),
        {
            let ghost rest = bindings@.skip(i as int);
            assert(rest[0] == bindings@[i as int]);
            assert(rest.skip(1) =~= bindings@.skip(i + 1));
            if bindings[i].action == PrefixAction::DismissAgent {
                return bindings[i].label.clone();
            }
        }
        String::new()
    }
}

/// A key is a chord when both are the same key with the same modifiers held; on a
/// character key Shift makes no difference, and neither does whether the key went
/// down or is being held.
pub proof fn a_chord_is_its_key_with_its_modifiers(chord: KeyChord, key: KeyEvent, other: KeyEvent)
    ensures
        chord.code != key.code ==> !chord.accepts(key),
        chord.code == key.code && chord.modifiers == key.modifiers ==> chord.accepts(key),
        !(chord.code is Char) && chord.modifiers != key.modifiers ==> !chord.accepts(key),
        chord.code is Char && chord.code == key.code ==> (chord.accepts(key) <==> (KeyModifiers {
            shift: false,
            ..chord.modifiers
        }) == (KeyModifiers { shift: false, ..key.modifiers })),
        key.code == other.code && key.modifiers == other.modifiers ==> chord.accepts(key)
            == chord.accepts(other),
{
}

/// A binding is asked for by its chord and by each of its aliases, and by nothing
/// else.
pub proof fn a_binding_takes_its_chord_and_its_aliases<A>(
    binding: Binding<A>,
    key: KeyEvent,
    i: int,
)
    ensures
        binding.chord.accepts(key) ==> binding.accepts(key),
        0 <= i < binding.aliases@.len() && binding.aliases@[i].accepts(key) ==> binding.accepts(
            key,
        ),
        !binding.chord.accepts(key) && (forall|j: int|
            0 <= j < binding.aliases@.len() ==> !(#[trigger] binding.aliases@[j]).accepts(key))
            ==> !binding.accepts(key),
{
}

/// The action of a key is that of the first binding that it asks for, and there is
/// none exactly when it asks for no binding.
pub proof fn the_first_binding_decides<A>(bindings: Seq<Binding<A>>, key: KeyEvent, i: int)
    ensures
        0 <= i < bindings.len() && bindings[i].accepts(key) && (forall|j: int|
            0 <= j < i ==> !(#[trigger] bindings[j]).accepts(key)) ==> first_action(bindings, key)
            == Some(bindings[i].action),
        (forall|j: int| 0 <= j < bindings.len() ==> !(#[trigger] bindings[j]).accepts(key))
            <==> first_action(bindings, key) is None,
    decreases bindings.len(),
{
    if bindings.len() > 0 {
        let rest = bindings.skip(1);
        the_first_binding_decides(rest, key, i - 1);
        assert forall|j: int| 0 <= j < rest.len() implies #[trigger] rest[j] == bindings[j
            + 1] by {}
        assert forall|j: int| 0 < j < bindings.len() implies #[trigger] bindings[j] == rest[j
            - 1] by {}
        if !bindings[0].accepts(key) {
            if forall|j: int| 0 <= j < rest.len() ==> !(#[trigger] rest[j]).accepts(key) {
                assert forall|j: int| 0 <= j < bindings.len() implies !(
                #[trigger] bindings[j]).accepts(key) by {
                    if j > 0 {
                        assert(!rest[j - 1].accepts(key));
                    }
                }
            }
            if forall|j: int| 0 <= j < bindings.len() ==> !(#[trigger] bindings[j]).accepts(key) {
                assert forall|j: int| 0 <= j < rest.len() implies !(
                #[trigger] rest[j]).accepts(key) by {
                    assert(!bindings[j + 1].accepts(key));
                }
            }
        }
    }
}

/// The binding that help shows for an action is the first one of it, and the one that
/// banners name for dismissing an agent is the first one of that.
pub proof fn the_first_binding_of_an_action_is_shown(
    bindings: Seq<Binding<PrefixAction>>,
    action: PrefixAction,
    i: int,
)
    ensures
        0 <= i < bindings.len() && bindings[i].action == action && (forall|j: int|
            0 <= j < i ==> (#[trigger] bindings[j]).action != action) ==> {
            &&& binding_of(bindings, action) == Some(bindings[i])
            &&& action is DismissAgent ==> dismiss_text(bindings) == bindings[i].label@
        },
        (forall|j: int| 0 <= j < bindings.len() ==> (#[trigger] bindings[j]).action != action) ==> {
            &&& binding_of(bindings, action) is None
            &&& action is DismissAgent ==> dismiss_text(bindings).len() == 0
        },
    decreases bindings.len(),
{
    if bindings.len() > 0 {
        let rest = bindings.skip(1);
        the_first_binding_of_an_action_is_shown(rest, action, i - 1);
        assert forall|j: int| 0 <= j < rest.len() implies #[trigger] rest[j] == bindings[j
            + 1] by {}
        if forall|j: int| 0 <= j < bindings.len() ==> (#[trigger] bindings[j]).action != action {
            assert forall|j: int| 0 <= j < rest.len() implies (#[trigger] rest[j]).action
                != action by {
                assert(bindings[j + 1].action != action);
            }
        }
        if 0 < i < bindings.len() && bindings[i].action == action && (forall|j: int|
            0 <= j < i ==> (#[trigger] bindings[j]).action != action) {
            assert(bindings[0].action != action);
            assert forall|j: int| 0 <= j < i - 1 implies (#[trigger] rest[j]).action != action by {
                assert(bindings[j + 1].action != action);
            }
            assert(rest[i - 1].action == action);
        }
    }
}

/// The byte of a chord is the place of its letter in the alphabet, where it is Ctrl
/// with a letter, whatever else is held; no other chord has one.
pub proof fn only_control_letters_have_a_byte(chord: KeyChord, c: char)
    ensures
        !chord.modifiers.control ==> literal_byte(chord) is None,
        !(chord.code is Char) ==> literal_byte(chord) is None,
        chord.code == KeyCode::Char(c) && chord.modifiers.control && 'a' <= c && c <= 'z' ==> {
            &&& literal_byte(chord) is Some
            &&& literal_byte(chord)->0 as int == c as u32 as int - 'a' as u32 as int + 1
        },
        chord.code == KeyCode::Char(c) && chord.modifiers.control && 'A' <= c && c <= 'Z' ==> {
            &&& literal_byte(chord) is Some
            &&& literal_byte(chord)->0 as int == c as u32 as int - 'A' as u32 as int + 1
        },
        chord.code == KeyCode::Char(c) && (c < 'A' || (c > 'Z' && c < 'a') || c > 'z')
            ==> literal_byte(chord) is None,
{
}

/// One chord with the Super key anywhere among the bindings, be it an alias or a
/// chord of the spawn dialog, makes them use it; without any they do not.
pub proof fn one_chord_makes_the_bindings_use_super(bindings: Bindings, i: int, j: int)
    ensures
        bindings.prefix.modifiers.super_key ==> bindings.uses_super(),
        0 <= i < bindings.on_prefix.bindings@.len()
            && bindings.on_prefix.bindings@[i].chord.modifiers.super_key ==> bindings.uses_super(),
        0 <= i < bindings.on_direct.bindings@.len()
            && bindings.on_direct.bindings@[i].chord.modifiers.super_key ==> bindings.uses_super(),
        0 <= i < bindings.on_popup.bindings@.len()
            && bindings.on_popup.bindings@[i].chord.modifiers.super_key ==> bindings.uses_super(),
        0 <= i < bindings.on_scroll.bindings@.len()
            && bindings.on_scroll.bindings@[i].chord.modifiers.super_key ==> bindings.uses_super(),
        0 <= i < bindings.on_modal@.len() && bindings.on_modal@[i].chord.modifiers.super_key
            ==> bindings.uses_super(),
        0 <= i < bindings.on_prefix.bindings@.len() && 0 <= j
            < bindings.on_prefix.bindings@[i].aliases@.len()
            && bindings.on_prefix.bindings@[i].aliases@[j].modifiers.super_key
            ==> bindings.uses_super(),
        0 <= i < bindings.on_direct.bindings@.len() && 0 <= j
            < bindings.on_direct.bindings@[i].aliases@.len()
            && bindings.on_direct.bindings@[i].aliases@[j].modifiers.super_key
            ==> bindings.uses_super(),
        0 <= i < bindings.on_popup.bindings@.len() && 0 <= j
            < bindings.on_popup.bindings@[i].aliases@.len()
            && bindings.on_popup.bindings@[i].aliases@[j].modifiers.super_key
            ==> bindings.uses_super(),
        0 <= i < bindings.on_scroll.bindings@.len() && 0 <= j
            < bindings.on_scroll.bindings@[i].aliases@.len()
            && bindings.on_scroll.bindings@[i].aliases@[j].modifiers.super_key
            ==> bindings.uses_super(),
{
    if 0 <= i < bindings.on_prefix.bindings@.len() {
        let b = bindings.on_prefix.bindings@[i];
        assert(b.uses_super() ==> bindings.on_prefix.uses_super());
    }
    if 0 <= i < bindings.on_direct.bindings@.len() {
        let b = bindings.on_direct.bindings@[i];
        assert(b.uses_super() ==> bindings.on_direct.uses_super());
    }
    if 0 <= i < bindings.on_popup.bindings@.len() {
        let b = bindings.on_popup.bindings@[i];
        assert(b.uses_super() ==> bindings.on_popup.uses_super());
    }
    if 0 <= i < bindings.on_scroll.bindings@.len() {
        let b = bindings.on_scroll.bindings@[i];
        assert(b.uses_super() ==> bindings.on_scroll.uses_super());
    }
}

/// Bindings that use the Super key have a chord that holds it.
pub proof fn using_super_takes_a_chord(bindings: Bindings)
    requires
        !bindings.prefix.modifiers.super_key,
        no_chord_holds_super(bindings.on_prefix),
        no_chord_holds_super(bindings.on_direct),
        no_chord_holds_super(bindings.on_popup),
        no_chord_holds_super(bindings.on_scroll),
        forall|i: int|
            0 <= i < bindings.on_modal@.len() ==> !(
            #[trigger] bindings.on_modal@[i]).chord.modifiers.super_key,
    ensures
        !bindings.uses_super(),
{
    no_chord_no_super(bindings.on_prefix);
    no_chord_no_super(bindings.on_direct);
    no_chord_no_super(bindings.on_popup);
    no_chord_no_super(bindings.on_scroll);
}

/// Whether no chord of the scope, and no alias, holds the Super key.
pub open spec fn no_chord_holds_super<A>(scope: Scope<A>) -> bool {
    forall|i: int|
        0 <= i < scope.bindings@.len() ==> {
            &&& !(#[trigger] scope.bindings@[i]).chord.modifiers.super_key
            &&& forall|j: int|
                0 <= j < scope.bindings@[i].aliases@.len() ==> !(
                #[trigger] scope.bindings@[i].aliases@[j]).modifiers.super_key
        }
}

proof fn no_chord_no_super<A>(scope: Scope<A>)
    requires
        no_chord_holds_super(scope),
    ensures
        !scope.uses_super(),
{
}

} // verus!
