//! The bytes that keys and pasted text turn into.

use codemux::keymap::{literal_byte_for, KeyChord};
use codemux::keys::{
    control_byte, encode_terminal_key, key_to_bytes, matches_url_modifier,
    translate_readline_shortcut, wrap_paste, KeyCode, KeyModifiers, ModifierKeyCode,
    MouseUrlModifier,
};

fn none() -> KeyModifiers {
    KeyModifiers::none()
}

fn sup() -> KeyModifiers {
    KeyModifiers { super_key: true, ..KeyModifiers::none() }
}

fn ctrl() -> KeyModifiers {
    KeyModifiers { control: true, ..KeyModifiers::none() }
}

fn alt() -> KeyModifiers {
    KeyModifiers { alt: true, ..KeyModifiers::none() }
}

fn shift() -> KeyModifiers {
    KeyModifiers { shift: true, ..KeyModifiers::none() }
}

#[test]
fn encode_terminal_key_has_no_modifier_opinion_on_backspace() {
    for modifier in [
        none(),
        sup(),
        ctrl(),
        alt(),
        sup().union(ctrl()),
    ] {
        assert_eq!(
            encode_terminal_key(KeyCode::Backspace, modifier),
            Some(vec![0x7f]),
            "encoder must stay opinion-free for Backspace+{modifier:?}",
        );
    }
}

#[test]
fn encode_terminal_key_has_no_modifier_opinion_on_enter() {
    for modifier in [
        none(),
        shift(),
        alt(),
        sup(),
    ] {
        assert_eq!(
            encode_terminal_key(KeyCode::Enter, modifier),
            Some(vec![b'\r']),
            "encoder must stay opinion-free for Enter+{modifier:?}",
        );
    }
}

#[test]
fn encode_terminal_key_keeps_ctrl_letter_as_protocol() {
    assert_eq!(
        encode_terminal_key(KeyCode::Char('c'), ctrl()),
        Some(vec![0x03]),
    );
}

#[test]
fn shortcut_returns_none_for_unmodified_keys() {
    for code in [
        KeyCode::Backspace,
        KeyCode::Enter,
        KeyCode::Up,
        KeyCode::Down,
        KeyCode::Char('a'),
    ] {
        assert_eq!(
            translate_readline_shortcut(code, none()),
            None,
            "{code:?} (no modifiers) must not be a shortcut",
        );
    }
}

#[test]
fn shortcut_returns_none_for_keys_with_no_registered_shortcut() {
    assert_eq!(
        translate_readline_shortcut(KeyCode::Up, sup()),
        None,
    );
}

#[test]
fn shortcut_cmd_backspace_is_unix_line_discard() {
    assert_eq!(
        translate_readline_shortcut(KeyCode::Backspace, sup()),
        Some(vec![0x15]),
    );
}

#[test]
fn shortcut_ctrl_or_alt_backspace_is_unix_word_rubout() {
    for modifier in [ctrl(), alt()] {
        assert_eq!(
            translate_readline_shortcut(KeyCode::Backspace, modifier),
            Some(vec![0x1b, 0x7f]),
            "wrong bytes for {modifier:?}+Backspace",
        );
    }
}

#[test]
fn shortcut_super_wins_over_ctrl_for_backspace() {
    assert_eq!(
        translate_readline_shortcut(
            KeyCode::Backspace,
            sup().union(ctrl()),
        ),
        Some(vec![0x15]),
    );
}

#[test]
fn shortcut_modified_enter_is_meta_enter_for_newline_in_input() {
    for modifier in [
        shift(),
        alt(),
        ctrl(),
        sup(),
    ] {
        assert_eq!(
            translate_readline_shortcut(KeyCode::Enter, modifier),
            Some(vec![0x1b, b'\r']),
            "wrong bytes for {modifier:?}+Enter",
        );
    }
}

#[test]
fn plain_ascii_char_passes_through_as_one_byte() {
    assert_eq!(
        key_to_bytes(KeyCode::Char('A'), none()),
        Some(vec![b'A'])
    );
}

#[test]
fn ctrl_a_through_ctrl_z_map_to_0x01_through_0x1a() {
    for (i, c) in ('a'..='z').enumerate() {
        let bytes = key_to_bytes(KeyCode::Char(c), ctrl()).unwrap();
        let expected = u8::try_from(i + 1).unwrap();
        assert_eq!(bytes, vec![expected], "wrong byte for ctrl-{c}");
    }
}

#[test]
fn enter_is_a_carriage_return() {
    assert_eq!(
        key_to_bytes(KeyCode::Enter, none()),
        Some(vec![b'\r'])
    );
}

#[test]
fn modified_enter_emits_meta_enter_for_in_input_newline() {
    for modifier in [
        shift(),
        alt(),
        ctrl(),
        sup(),
    ] {
        assert_eq!(
            key_to_bytes(KeyCode::Enter, modifier),
            Some(vec![0x1b, b'\r']),
            "wrong bytes for modified Enter ({modifier:?})"
        );
    }
}

#[test]
fn wrap_paste_emits_brackets_around_plain_text() {
    assert_eq!(
        wrap_paste("hello\nworld"),
        b"\x1b[200~hello\nworld\x1b[201~".to_vec(),
    );
}

#[test]
fn wrap_paste_strips_embedded_esc_to_block_end_marker_injection() {
    let wrapped = wrap_paste("ok\x1b[201~rm -rf");
    let s = String::from_utf8(wrapped).unwrap();
    assert_eq!(s, "\x1b[200~ok[201~rm -rf\x1b[201~");
    assert_eq!(s.matches("\x1b[201~").count(), 1);
}

#[test]
fn arrow_keys_emit_csi_letter_sequences() {
    assert_eq!(
        key_to_bytes(KeyCode::Up, none()),
        Some(vec![0x1b, b'[', b'A'])
    );
    assert_eq!(
        key_to_bytes(KeyCode::Down, none()),
        Some(vec![0x1b, b'[', b'B'])
    );
}

#[test]
fn plain_backspace_emits_del() {
    assert_eq!(
        key_to_bytes(KeyCode::Backspace, none()),
        Some(vec![0x7f])
    );
}

#[test]
fn ctrl_or_alt_backspace_emits_meta_del_for_word_delete() {
    for modifier in [ctrl(), alt()] {
        assert_eq!(
            key_to_bytes(KeyCode::Backspace, modifier),
            Some(vec![0x1b, 0x7f]),
            "wrong bytes for {modifier:?}+Backspace",
        );
    }
    assert_eq!(
        key_to_bytes(
            KeyCode::Backspace,
            ctrl().union(alt()),
        ),
        Some(vec![0x1b, 0x7f]),
    );
}

#[test]
fn cmd_backspace_emits_ctrl_u_for_line_delete() {
    assert_eq!(
        key_to_bytes(KeyCode::Backspace, sup()),
        Some(vec![0x15])
    );
}

#[test]
fn cmd_wins_over_ctrl_when_both_modify_backspace() {
    assert_eq!(
        key_to_bytes(
            KeyCode::Backspace,
            sup().union(ctrl()),
        ),
        Some(vec![0x15]),
    );
}

#[test]
fn unmapped_key_is_dropped() {
    assert_eq!(key_to_bytes(KeyCode::F(12), none()), None);
}

#[test]
fn literal_byte_for_ctrl_letters() {
    assert_eq!(
        literal_byte_for(&KeyChord::ctrl(KeyCode::Char('b'))),
        Some(0x02)
    );
    assert_eq!(
        literal_byte_for(&KeyChord::ctrl(KeyCode::Char('a'))),
        Some(0x01)
    );
}

#[test]
fn literal_byte_for_returns_none_when_prefix_is_not_a_ctrl_letter() {
    assert_eq!(literal_byte_for(&KeyChord::plain(KeyCode::Char('q'))), None);
    assert_eq!(literal_byte_for(&KeyChord::ctrl(KeyCode::F(1))), None);
}

#[test]
fn matches_url_modifier_covers_both_sides_for_each_variant() {
    for mk in [ModifierKeyCode::LeftSuper, ModifierKeyCode::RightSuper, ModifierKeyCode::LeftMeta, ModifierKeyCode::RightMeta] {
        assert!(matches_url_modifier(mk, MouseUrlModifier::Cmd), "{mk:?}");
    }
    for mk in [
        ModifierKeyCode::LeftControl,
        ModifierKeyCode::RightControl,
        ModifierKeyCode::LeftAlt,
        ModifierKeyCode::RightAlt,
        ModifierKeyCode::LeftShift,
        ModifierKeyCode::RightShift,
    ] {
        assert!(!matches_url_modifier(mk, MouseUrlModifier::Cmd), "{mk:?}");
    }
    assert!(matches_url_modifier(ModifierKeyCode::LeftControl, MouseUrlModifier::Ctrl));
    assert!(matches_url_modifier(ModifierKeyCode::RightControl, MouseUrlModifier::Ctrl));
    assert!(!matches_url_modifier(ModifierKeyCode::LeftSuper, MouseUrlModifier::Ctrl));
    assert!(matches_url_modifier(ModifierKeyCode::LeftAlt, MouseUrlModifier::Alt));
    assert!(matches_url_modifier(ModifierKeyCode::RightAlt, MouseUrlModifier::Alt));
    assert!(!matches_url_modifier(ModifierKeyCode::LeftShift, MouseUrlModifier::Alt));
    assert!(matches_url_modifier(ModifierKeyCode::LeftShift, MouseUrlModifier::Shift));
    assert!(matches_url_modifier(ModifierKeyCode::RightShift, MouseUrlModifier::Shift));
    assert!(!matches_url_modifier(ModifierKeyCode::LeftAlt, MouseUrlModifier::Shift));
    for mk in [ModifierKeyCode::LeftSuper, ModifierKeyCode::LeftControl, ModifierKeyCode::LeftAlt, ModifierKeyCode::LeftShift, ModifierKeyCode::LeftMeta] {
        assert!(!matches_url_modifier(mk, MouseUrlModifier::Off), "{mk:?}");
    }
}

#[test]
fn characters_beyond_ascii_are_sent_as_utf8() {
    assert_eq!(key_to_bytes(KeyCode::Char('é'), none()), Some("é".as_bytes().to_vec()));
    assert_eq!(key_to_bytes(KeyCode::Char('橋'), none()), Some("橋".as_bytes().to_vec()));
    assert_eq!(key_to_bytes(KeyCode::Char('🦀'), none()), Some("🦀".as_bytes().to_vec()));
}

#[test]
fn only_letters_have_control_bytes() {
    assert_eq!(control_byte('a'), Some(1));
    assert_eq!(control_byte('Z'), Some(26));
    assert_eq!(control_byte('1'), None);
    assert_eq!(control_byte('é'), None);
}

#[test]
fn every_mapped_key_has_its_sequence() {
    let cases: Vec<(KeyCode, Vec<u8>)> = vec![
        (KeyCode::Tab, b"\t".to_vec()),
        (KeyCode::Esc, b"\x1b".to_vec()),
        (KeyCode::Left, b"\x1b[D".to_vec()),
        (KeyCode::Right, b"\x1b[C".to_vec()),
        (KeyCode::Home, b"\x1b[H".to_vec()),
        (KeyCode::End, b"\x1b[F".to_vec()),
        (KeyCode::PageUp, b"\x1b[5~".to_vec()),
        (KeyCode::PageDown, b"\x1b[6~".to_vec()),
        (KeyCode::Delete, b"\x1b[3~".to_vec()),
        (KeyCode::BackTab, b"\x1b[Z".to_vec()),
    ];
    for (code, bytes) in cases {
        assert_eq!(encode_terminal_key(code, none()), Some(bytes), "wrong bytes for {code:?}");
    }
}

#[test]
fn pasted_text_beyond_ascii_is_wrapped_whole() {
    assert_eq!(wrap_paste("é橋"), "\x1b[200~é橋\x1b[201~".as_bytes().to_vec());
    assert_eq!(wrap_paste(""), b"\x1b[200~\x1b[201~".to_vec());
}
