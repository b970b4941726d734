//! What is written to the host terminal besides the frame.

use codemux::agent::{AgentId, AgentState, RuntimeAgent};
use codemux::geometry::Rect;
use codemux::mouse::{ColRange, HoverTransition, UrlSpan};
use codemux::screen::{CellColor, PaneParser};
use codemux::term::{
    apply_hover_cursor, emit_cell_sgr, emit_color, emit_mouse_cursor_shape,
    paint_hyperlinks_post_draw, write_clipboard_to,
};

/// A screen with some output on it.
fn screen(rows: u16, cols: u16, output: &[u8]) -> PaneParser {
    let agent: RuntimeAgent<()> = RuntimeAgent::ready(
        AgentId::new("a"),
        "a".to_string(),
        None,
        None,
        None,
        (),
        rows,
        cols,
        0,
    );
    match agent.state {
        AgentState::Ready { mut parser, .. } => {
            parser.vt.process(output);
            parser
        }
        _ => panic!("a new agent is ready"),
    }
}

/// The links on a screen, at most one to a row.
fn find_urls(parser: &PaneParser) -> Vec<UrlSpan> {
    let screen = parser.vt.screen();
    let (rows, cols) = screen.size();
    let mut found = Vec::new();
    for row in 0..rows {
        let text = screen.contents_between(row, 0, row, cols);
        if let Some(at) = text.find("https://") {
            let url: String = text[at..].chars().take_while(|c| !c.is_whitespace()).collect();
            let start = u16::try_from(at).unwrap();
            let end = start + u16::try_from(url.len()).unwrap();
            found.push(UrlSpan { row, cols: ColRange { start, end }, url });
        }
    }
    found
}

fn hyperlinks(area: Rect, parser: &PaneParser) -> String {
    let mut out = String::new();
    paint_hyperlinks_post_draw(&mut out, area, parser, &find_urls(parser));
    out
}

fn strip_csi_sequences(input: &str) -> String {
    let mut out = String::with_capacity(input.len());
    let bytes = input.as_bytes();
    let mut i = 0;
    while i < bytes.len() {
        if bytes[i] == 0x1b && i + 1 < bytes.len() && bytes[i + 1] == b'[' {
            i += 2;
            while i < bytes.len() && (0x30..=0x3F).contains(&bytes[i]) {
                i += 1;
            }
            while i < bytes.len() && (0x20..=0x2F).contains(&bytes[i]) {
                i += 1;
            }
            if i < bytes.len() {
                i += 1;
            }
        } else {
            out.push(bytes[i] as char);
            i += 1;
        }
    }
    out
}

#[test]
fn write_clipboard_to_emits_osc_52_with_base64_payload() {
    let mut buf = String::new();
    write_clipboard_to(&mut buf, "hi");
    assert_eq!(buf, "\x1b]52;c;aGk=\x07");
}

#[test]
fn write_clipboard_to_handles_empty_string_as_empty_payload() {
    let mut buf = String::new();
    write_clipboard_to(&mut buf, "");
    assert_eq!(buf, "\x1b]52;c;\x07");
}

#[test]
fn write_clipboard_to_round_trips_multibyte_utf8() {
    let mut buf = String::new();
    write_clipboard_to(&mut buf, "olá 🦀");
    assert!(buf.starts_with("\x1b]52;c;"));
    assert!(buf.ends_with("\x07"));
}

#[test]
fn paint_hyperlinks_post_draw_emits_osc_8_wrap_around_cell_walk() {
    let parser = screen(3, 40, b"plain row\r\nsee https://example.com here\r\nbottom");

    let area = Rect {
        x: 0,
        y: 0,
        width: 40,
        height: 3,
    };
    let s = hyperlinks(area, &parser);

    assert!(s.starts_with("\x1b7"), "leads with DECSC, got {s:?}");
    assert!(s.ends_with("\x1b8"), "trails with DECRC, got {s:?}");
    assert!(
        s.contains("\x1b[2;5H"),
        "CUP for first URL cell missing, got {s:?}",
    );
    assert!(
        s.contains("\x1b]8;;https://example.com\x1b\\"),
        "OSC 8 setup with URL missing, got {s:?}",
    );
    for ch in "https://example.com".chars() {
        assert!(
            s.contains(ch),
            "URL char {ch:?} missing from re-print, got {s:?}",
        );
    }
    assert!(
        s.contains("\x1b]8;;\x1b\\"),
        "OSC 8 reset missing, got {s:?}",
    );
}

#[test]
fn paint_hyperlinks_post_draw_translates_pane_offset_into_terminal_cup() {
    let parser = screen(1, 40, b"https://example.com");
    let area = Rect {
        x: 10,
        y: 5,
        width: 40,
        height: 1,
    };
    let s = hyperlinks(area, &parser);
    assert!(
        s.contains("\x1b[6;11H"),
        "CUP must translate pane offset into absolute coords, got {s:?}",
    );
}

#[test]
fn paint_hyperlinks_post_draw_is_a_no_op_when_no_urls_present() {
    let parser = screen(2, 20, b"plain text\r\nno url here");
    let area = Rect {
        x: 0,
        y: 0,
        width: 20,
        height: 2,
    };
    let out = hyperlinks(area, &parser);
    assert!(
        out.is_empty(),
        "no bytes should be written when there are no URLs, got {out:?}",
    );
}

#[test]
fn paint_hyperlinks_post_draw_does_not_drop_chars_adjacent_to_url_boundaries() {
    let parser = screen(1, 40, b"see https://example.com here");
    let area = Rect {
        x: 0,
        y: 0,
        width: 40,
        height: 1,
    };
    let s = hyperlinks(area, &parser);

    let setup = "\x1b]8;;https://example.com\x1b\\";
    let reset = "\x1b]8;;\x1b\\";
    let setup_at = s.find(setup).expect("OSC 8 setup present");
    let reset_at = s[setup_at..]
        .find(reset)
        .expect("OSC 8 reset present after setup");
    let between = &s[setup_at + setup.len()..setup_at + reset_at];
    let stripped = strip_csi_sequences(between);
    assert_eq!(
        stripped, "https://example.com",
        "URL must be re-printed contiguously between OSC 8 setup and reset",
    );
}

#[test]
fn emit_cell_sgr_resets_then_emits_attrs_and_colors_for_a_styled_cell() {
    let parser = screen(1, 5, b"\x1b[1;4;31;43mX\x1b[0m");
    let cell = parser.cell(0, 0).expect("cell exists");

    let mut s = String::new();
    emit_cell_sgr(&mut s, &cell);
    assert!(s.starts_with("\x1b[0m"), "leads with full reset, got {s:?}");
    assert!(s.contains("\x1b[1m"), "bold missing, got {s:?}");
    assert!(s.contains("\x1b[4m"), "underline missing, got {s:?}");
    assert!(s.contains("\x1b[38;5;1m"), "red fg missing, got {s:?}");
    assert!(s.contains("\x1b[48;5;3m"), "yellow bg missing, got {s:?}");
}

#[test]
fn emit_color_emits_default_indexed_and_rgb_forms() {
    let mut s = String::new();
    emit_color(&mut s, CellColor::Default, true);
    emit_color(&mut s, CellColor::Default, false);
    emit_color(&mut s, CellColor::Idx(42), true);
    emit_color(&mut s, CellColor::Rgb(10, 20, 30), false);
    assert_eq!(s, "\x1b[39m\x1b[49m\x1b[38;5;42m\x1b[48;2;10;20;30m");
}

#[test]
fn emit_mouse_cursor_shape_writes_osc_22_with_pointer_or_default() {
    let mut s = String::new();
    emit_mouse_cursor_shape(&mut s, true);
    emit_mouse_cursor_shape(&mut s, false);
    assert_eq!(s, "\x1b]22;pointer\x1b\\\x1b]22;default\x1b\\");
}

#[test]
fn apply_hover_cursor_emits_pointer_on_activated_default_on_deactivated_nothing_on_unchanged() {
    let mut s = String::new();
    apply_hover_cursor(&mut s, HoverTransition::Activated);
    apply_hover_cursor(&mut s, HoverTransition::Deactivated);
    apply_hover_cursor(&mut s, HoverTransition::Unchanged);
    assert_eq!(s, "\x1b]22;pointer\x1b\\\x1b]22;default\x1b\\");
}

#[test]
fn the_clipboard_payload_is_padded_base64() {
    for (text, payload) in [
        ("f", "Zg=="),
        ("fo", "Zm8="),
        ("foo", "Zm9v"),
        ("foob", "Zm9vYg=="),
        ("olá 🦀", "b2zDoSDwn6aA"),
        ("~~~???", "fn5+Pz8/"),
    ] {
        let mut buf = String::new();
        write_clipboard_to(&mut buf, text);
        assert_eq!(buf, format!("\x1b]52;c;{payload}\x07"));
    }
}

#[test]
fn a_plain_cell_is_reset_to_the_default_colors() {
    let parser = screen(1, 5, b"a");
    let mut s = String::new();
    emit_cell_sgr(&mut s, &parser.cell(0, 0).unwrap());
    assert_eq!(s, "\x1b[0m\x1b[39m\x1b[49m");
}

#[test]
fn every_attribute_has_its_sequence() {
    let parser = screen(1, 5, b"\x1b[1;3;4;7mX");
    let mut s = String::new();
    emit_cell_sgr(&mut s, &parser.cell(0, 0).unwrap());
    assert_eq!(s, "\x1b[0m\x1b[1m\x1b[3m\x1b[4m\x1b[7m\x1b[39m\x1b[49m");
}

#[test]
fn an_empty_cell_of_a_link_is_printed_as_a_space() {
    let parser = screen(1, 10, b"ab");
    let spans = vec![UrlSpan {
        row: 0,
        cols: ColRange { start: 1, end: 3 },
        url: "https://x".to_string(),
    }];
    let mut out = String::new();
    paint_hyperlinks_post_draw(&mut out, Rect { x: 0, y: 0, width: 10, height: 1 }, &parser, &spans);
    assert_eq!(
        out,
        "\x1b7\x1b[1;2H\x1b]8;;https://x\x1b\\\x1b[0m\x1b[39m\x1b[49mb\x1b[0m\x1b[39m\x1b[49m \x1b]8;;\x1b\\\x1b8",
    );
}
