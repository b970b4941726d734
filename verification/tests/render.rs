//! What a frame shows, painted on a terminal in memory.

use codemux::agent::{AgentId, RuntimeAgent};
use codemux::failure::failure_text_in_range;
use codemux::geometry::{CellPos, Rect};
use codemux::help::{binding_line, render_help};
use codemux::keymap::{
    Binding, Bindings, DirectAction, KeyChord, ModalChord, PopupAction, PrefixAction, Scope,
    ScrollAction,
};
use codemux::keys::{KeyCode, KeyModifiers};
use codemux::label::AnimationPhase;
use codemux::layout::{
    centered_rect, pty_size_for, split_fixed_then_growing, split_growing_then_fixed, Direction,
    NavStyle, NAV_PANE_WIDTH,
};
use codemux::mouse::{ColRange, HoverUrl, PaneHitbox, Selection, TabHitboxes};
use codemux::nav::PopupState;
use codemux::paint::{Align, Paint, TextLine};
use codemux::render::{
    render_frame, render_left_pane, render_log_strip, render_status_bar, render_switcher_popup,
    segment_context, segments_budget, FrameState, HelpState, LogTail, Segments,
};
use codemux::render_pane::{
    paint_hover_url_if_active, paint_selection_if_active, render_agent_pane, render_failure_pane,
    render_scroll_indicator, PaneOverlay,
};
use codemux::style::{ChromeStyle, Color, Span, Style};
use ratatui::backend::TestBackend;
use ratatui::layout::Alignment;
use ratatui::style::Modifier;
use ratatui::text::Line;
use ratatui::widgets::{Block, Borders, Clear, Paragraph};
use ratatui::{Frame, Terminal};
use tui_term::widget::PseudoTerminal;

fn color_of(color: Color) -> ratatui::style::Color {
    match color {
        Color::Reset => ratatui::style::Color::Reset,
        Color::Black => ratatui::style::Color::Black,
        Color::Red => ratatui::style::Color::Red,
        Color::Green => ratatui::style::Color::Green,
        Color::Yellow => ratatui::style::Color::Yellow,
        Color::Blue => ratatui::style::Color::Blue,
        Color::Magenta => ratatui::style::Color::Magenta,
        Color::Cyan => ratatui::style::Color::Cyan,
        Color::Gray => ratatui::style::Color::Gray,
        Color::DarkGray => ratatui::style::Color::DarkGray,
        Color::LightRed => ratatui::style::Color::LightRed,
        Color::LightGreen => ratatui::style::Color::LightGreen,
        Color::LightYellow => ratatui::style::Color::LightYellow,
        Color::LightBlue => ratatui::style::Color::LightBlue,
        Color::LightMagenta => ratatui::style::Color::LightMagenta,
        Color::LightCyan => ratatui::style::Color::LightCyan,
        Color::White => ratatui::style::Color::White,
        Color::Rgb(r, g, b) => ratatui::style::Color::Rgb(r, g, b),
        Color::Indexed(i) => ratatui::style::Color::Indexed(i),
    }
}

fn style_of(style: Style) -> ratatui::style::Style {
    let mut out = ratatui::style::Style::default();
    if let Some(fg) = style.fg {
        out = out.fg(color_of(fg));
    }
    if let Some(bg) = style.bg {
        out = out.bg(color_of(bg));
    }
    if style.bold {
        out = out.add_modifier(Modifier::BOLD);
    }
    if style.dim {
        out = out.add_modifier(Modifier::DIM);
    }
    if style.reversed {
        out = out.add_modifier(Modifier::REVERSED);
    }
    out
}

fn area_of(area: Rect) -> ratatui::layout::Rect {
    ratatui::layout::Rect::new(area.x, area.y, area.width, area.height)
}

fn line_of(line: &TextLine) -> Line<'static> {
    let spans: Vec<ratatui::text::Span<'static>> = line
        .spans
        .iter()
        .map(|s| ratatui::text::Span::styled(s.content.clone(), style_of(s.style)))
        .collect();
    Line::from(spans).style(style_of(line.style))
}

fn show(frame: &mut Frame<'_>, ops: &[Paint], agents: &[RuntimeAgent<()>]) {
    for op in ops {
        match op {
            Paint::Clear { area } => frame.render_widget(Clear, area_of(*area)),
            Paint::Border { area, title } => frame.render_widget(
                Block::default().borders(Borders::ALL).title(title.clone()),
                area_of(*area),
            ),
            Paint::Text { area, lines, style, align, border } => {
                let lines: Vec<Line<'static>> = lines.iter().map(line_of).collect();
                let mut widget = Paragraph::new(lines).style(style_of(*style)).alignment(match align {
                    Align::Left => Alignment::Left,
                    Align::Right => Alignment::Right,
                });
                if let Some(title) = border {
                    widget = widget.block(Block::default().borders(Borders::ALL).title(title.clone()));
                }
                frame.render_widget(widget, area_of(*area));
            }
            Paint::Screen { area, agent } => {
                let found = agents.iter().find(|a| a.id == *agent).and_then(|a| a.state.screen());
                let parser = found.expect("a screen that is drawn is there");
                frame.render_widget(PseudoTerminal::new(parser.vt.screen()), area_of(*area));
            }
            Paint::Reverse { y, from, to } => {
                for x in *from..*to {
                    if let Some(cell) = frame.buffer_mut().cell_mut((x, *y)) {
                        cell.modifier.insert(Modifier::REVERSED);
                    }
                }
            }
            Paint::Link { y, from, to } => {
                for x in *from..*to {
                    if let Some(cell) = frame.buffer_mut().cell_mut((x, *y)) {
                        cell.modifier.insert(Modifier::UNDERLINED);
                        cell.fg = ratatui::style::Color::Cyan;
                    }
                }
            }
            Paint::Dialog { .. } => {}
        }
    }
}

fn draw<F>(terminal: &mut Terminal<TestBackend>, agents: &[RuntimeAgent<()>], paint: F)
where
    F: FnOnce(&mut Vec<Paint>),
{
    let mut ops = Vec::new();
    paint(&mut ops);
    terminal.draw(|frame| show(frame, &ops, agents)).unwrap();
}

fn none() -> KeyModifiers {
    KeyModifiers::none()
}

fn sup() -> KeyModifiers {
    KeyModifiers { super_key: true, ..KeyModifiers::none() }
}

fn chord(code: KeyCode, modifiers: KeyModifiers) -> KeyChord {
    KeyChord { code, modifiers }
}

fn letter(c: char) -> KeyChord {
    KeyChord::plain(KeyCode::Char(c))
}

fn bind<A>(action: A, chord: KeyChord, aliases: Vec<KeyChord>, label: &str, description: &str) -> Binding<A> {
    Binding {
        action,
        chord,
        aliases,
        label: label.to_string(),
        description: description.to_string(),
    }
}

fn defaults() -> Bindings {
    let on_prefix = vec![
        bind(PrefixAction::Quit, letter('q'), vec![], "q", "quit"),
        bind(PrefixAction::SpawnAgent, letter('c'), vec![], "c", "spawn an agent"),
        bind(PrefixAction::FocusNext, letter('n'), vec![letter('l'), letter('j')], "n", "focus the next agent"),
        bind(PrefixAction::FocusPrev, letter('p'), vec![letter('h'), letter('k')], "p", "focus the previous agent"),
        bind(PrefixAction::FocusLast, KeyChord::plain(KeyCode::Tab), vec![], "tab", "bounce to the last agent"),
        bind(PrefixAction::ToggleNav, letter('v'), vec![], "v", "toggle the navigator"),
        bind(PrefixAction::OpenSwitcher, letter('w'), vec![], "w", "open the switcher"),
        bind(PrefixAction::DismissAgent, letter('d'), vec![], "d", "dismiss a dead agent"),
        bind(PrefixAction::KillAgent, letter('x'), vec![], "x", "kill an agent"),
        bind(PrefixAction::Help, letter('?'), vec![], "?", "help"),
    ];
    let on_direct = vec![
        bind(DirectAction::SpawnAgent, chord(KeyCode::Char('\\'), sup()), vec![], "super+\\", "spawn an agent"),
        bind(DirectAction::FocusNext, chord(KeyCode::Char('\''), sup()), vec![], "super+'", "focus the next agent"),
        bind(DirectAction::FocusPrev, chord(KeyCode::Char(';'), sup()), vec![], "super+;", "focus the previous agent"),
        bind(DirectAction::FocusLast, chord(KeyCode::Tab, sup()), vec![], "super+tab", "bounce to the last agent"),
    ];
    let on_popup = vec![
        bind(PopupAction::Next, KeyChord::plain(KeyCode::Down), vec![letter('j')], "down", "next"),
        bind(PopupAction::Prev, KeyChord::plain(KeyCode::Up), vec![letter('k')], "up", "previous"),
        bind(PopupAction::Confirm, KeyChord::plain(KeyCode::Enter), vec![], "enter", "focus"),
        bind(PopupAction::Cancel, KeyChord::plain(KeyCode::Esc), vec![], "esc", "close"),
    ];
    let on_scroll = vec![
        bind(ScrollAction::LineUp, KeyChord::plain(KeyCode::Up), vec![], "up", "one line up"),
        bind(ScrollAction::LineDown, KeyChord::plain(KeyCode::Down), vec![], "down", "one line down"),
        bind(ScrollAction::PageUp, KeyChord::plain(KeyCode::PageUp), vec![], "pgup", "one page up"),
        bind(ScrollAction::PageDown, KeyChord::plain(KeyCode::PageDown), vec![], "pgdn", "one page down"),
        bind(ScrollAction::Top, letter('g'), vec![], "g", "to the top"),
        bind(ScrollAction::Bottom, letter('G'), vec![], "G", "to the bottom"),
        bind(ScrollAction::ExitScroll, KeyChord::plain(KeyCode::Esc), vec![], "esc", "back to live"),
    ];
    Bindings {
        prefix: KeyChord::ctrl(KeyCode::Char('b')),
        prefix_label: "ctrl+b".to_string(),
        on_prefix: Scope { bindings: on_prefix },
        on_direct: Scope { bindings: on_direct },
        on_popup: Scope { bindings: on_popup },
        on_scroll: Scope { bindings: on_scroll },
        on_modal: vec![ModalChord {
            chord: KeyChord::plain(KeyCode::Esc),
            label: "esc".to_string(),
            description: "close".to_string(),
        }],
    }
}

fn failed_agent(label: &str) -> RuntimeAgent<()> {
    RuntimeAgent::failed(
        AgentId::new(label),
        label.to_string(),
        None,
        None,
        "host".to_string(),
        "test".to_string(),
        24,
        80,
    )
}

fn ready_test_agent(scrollback_len: usize) -> RuntimeAgent<()> {
    RuntimeAgent::ready(
        AgentId::new("a"),
        "a".to_string(),
        None,
        None,
        None,
        (),
        5,
        20,
        scrollback_len,
    )
}

fn three_failed_agents() -> Vec<RuntimeAgent<()>> {
    vec![failed_agent("a"), failed_agent("b"), failed_agent("c")]
}

fn no_overlay() -> PaneOverlay<'static> {
    PaneOverlay { selection: None, hover: None }
}

fn no_segments() -> Segments {
    Segments { spans: Vec::new(), width: 0 }
}

fn cell(row: u16, col: u16) -> CellPos {
    CellPos { row, col }
}

fn row_text(terminal: &Terminal<TestBackend>, y: u16) -> String {
    let buf = terminal.backend().buffer();
    let area = buf.area;
    (area.x..area.x + area.width).map(|x| buf[(x, y)].symbol()).collect::<String>()
}

fn top_row_text(terminal: &Terminal<TestBackend>) -> String {
    row_text(terminal, 0)
}

fn screen_text(terminal: &Terminal<TestBackend>) -> String {
    let height = terminal.backend().buffer().area.height;
    (0..height).map(|y| row_text(terminal, y) + "\n").collect()
}

#[test]
fn render_status_bar_records_one_hitbox_per_agent_in_order() {
    let backend = TestBackend::new(80, 24);
    let mut terminal = Terminal::new(backend).unwrap();
    let agents = three_failed_agents();
    let mut hb = TabHitboxes::default();
    draw(&mut terminal, &[], |ops| {
            render_status_bar(
                ops,
                Rect {
                    x: 0,
                    y: 23,
                    width: 80,
                    height: 1,
                },
                &agents,
                1,
                AnimationPhase::default(),
                &ChromeStyle::default(),
                &mut hb,
                &no_segments(),
            );
        });
    let ids: Vec<AgentId> = hb.rects.iter().map(|h| h.agent_id.clone()).collect();
    assert_eq!(
        ids,
        vec![AgentId::new("a"), AgentId::new("b"), AgentId::new("c")],
    );
}

#[test]
fn render_status_bar_hitboxes_sit_on_the_status_row_and_are_non_overlapping() {
    let backend = TestBackend::new(80, 24);
    let mut terminal = Terminal::new(backend).unwrap();
    let agents = three_failed_agents();
    let mut hb = TabHitboxes::default();
    draw(&mut terminal, &[], |ops| {
            render_status_bar(
                ops,
                Rect {
                    x: 0,
                    y: 23,
                    width: 80,
                    height: 1,
                },
                &agents,
                0,
                AnimationPhase::default(),
                &ChromeStyle::default(),
                &mut hb,
                &no_segments(),
            );
        });
    for h in &hb.rects {
        assert_eq!(h.rect.y, 23, "hitbox must sit on the status row");
        assert_eq!(h.rect.height, 1, "hitbox must be one row tall");
        assert!(h.rect.width > 0, "hitbox must have nonzero width");
    }
    for window in hb.rects.windows(2) {
        let left = &window[0].rect;
        let right = &window[1].rect;
        assert!(
            left.x.saturating_add(left.width) <= right.x,
            "tabs must not overlap (got {left:?} then {right:?})",
        );
    }
}

#[test]
fn render_status_bar_clears_stale_hitboxes_first() {
    let backend = TestBackend::new(80, 24);
    let mut terminal = Terminal::new(backend).unwrap();
    let agents = three_failed_agents();
    let mut hb = TabHitboxes::default();
    let stale = AgentId::new("stale-agent");
    hb.record(
        Rect {
            x: 0,
            y: 0,
            width: 99,
            height: 99,
        },
        stale.clone(),
    );
    hb.clear();
    draw(&mut terminal, &[], |ops| {
            render_status_bar(
                ops,
                Rect {
                    x: 0,
                    y: 23,
                    width: 80,
                    height: 1,
                },
                &agents,
                0,
                AnimationPhase::default(),
                &ChromeStyle::default(),
                &mut hb,
                &no_segments(),
            );
        });
    assert_eq!(hb.rects.len(), 3, "stale rect must not leak forward");
    assert!(
        hb.rects.iter().all(|h| h.agent_id != stale),
        "stale agent id must be gone",
    );
}

#[test]
fn render_left_pane_records_one_hitbox_per_agent() {
    let backend = TestBackend::new(80, 24);
    let mut terminal = Terminal::new(backend).unwrap();
    let agents = three_failed_agents();
    let mut hb = TabHitboxes::default();
    draw(&mut terminal, &[], |ops| {
            render_left_pane(
                ops,
                Rect {
                    x: 0,
                    y: 0,
                    width: 80,
                    height: 24,
                },
                &agents,
                1,
                "d",
                AnimationPhase::default(),
                &ChromeStyle::default(),
                &mut hb,
                &mut PaneHitbox::default(),
                &no_overlay(),
            );
        });
    let ids: Vec<AgentId> = hb.rects.iter().map(|h| h.agent_id.clone()).collect();
    assert_eq!(
        ids,
        vec![AgentId::new("a"), AgentId::new("b"), AgentId::new("c")],
    );
}

#[test]
fn render_left_pane_hitboxes_skip_borders_and_advance_one_row_per_agent() {
    let backend = TestBackend::new(80, 24);
    let mut terminal = Terminal::new(backend).unwrap();
    let agents = three_failed_agents();
    let mut hb = TabHitboxes::default();
    draw(&mut terminal, &[], |ops| {
            render_left_pane(
                ops,
                Rect {
                    x: 0,
                    y: 0,
                    width: 80,
                    height: 24,
                },
                &agents,
                0,
                "d",
                AnimationPhase::default(),
                &ChromeStyle::default(),
                &mut hb,
                &mut PaneHitbox::default(),
                &no_overlay(),
            );
        });
    for (i, h) in hb.rects.iter().enumerate() {
        assert_eq!(h.rect.x, 1, "agent row must skip the left border");
        assert_eq!(h.rect.width, NAV_PANE_WIDTH - 2);
        assert_eq!(h.rect.height, 1);
        assert_eq!(h.rect.y, 1 + u16::try_from(i).unwrap());
    }
}

#[test]
fn render_left_pane_drops_rows_that_overflow_the_pane() {
    let backend = TestBackend::new(80, 24);
    let mut terminal = Terminal::new(backend).unwrap();
    let agents: Vec<RuntimeAgent<()>> = (0..50)
        .map(|i| failed_agent(&format!("agent-{i}")))
        .collect();
    let mut hb = TabHitboxes::default();
    draw(&mut terminal, &[], |ops| {
            render_left_pane(
                ops,
                Rect {
                    x: 0,
                    y: 0,
                    width: 80,
                    height: 24,
                },
                &agents,
                0,
                "d",
                AnimationPhase::default(),
                &ChromeStyle::default(),
                &mut hb,
                &mut PaneHitbox::default(),
                &no_overlay(),
            );
        });
    assert!(
        hb.rects.len() < agents.len(),
        "overflowing rows must be dropped, got {} hitboxes for {} agents",
        hb.rects.len(),
        agents.len(),
    );
    for h in &hb.rects {
        assert!(
            h.rect.y < 23,
            "hitbox at y={} crosses bottom border",
            h.rect.y,
        );
    }
}

#[test]
fn render_agent_pane_paints_red_banner_for_nonzero_exit_code() {
    let backend = TestBackend::new(80, 24);
    let mut terminal = Terminal::new(backend).unwrap();
    let mut agent = ready_test_agent(100);
    agent.mark_crashed(7);
    draw(&mut terminal, std::slice::from_ref(&agent), |ops| {
            render_agent_pane(
                ops,
                Rect {
                    x: 0,
                    y: 0,
                    width: 80,
                    height: 24,
                },
                &agent,
                "d",
                &mut PaneHitbox::default(),
                &no_overlay(),
            );
        });
    let row = top_row_text(&terminal);
    assert!(
        row.contains("session ended (exit 7)"),
        "non-zero exit banner missing copy, got: {row:?}",
    );
    assert!(
        row.contains("dismiss"),
        "non-zero exit banner missing dismiss hint, got: {row:?}",
    );
}

#[test]
fn render_agent_pane_paints_connection_lost_banner_for_minus_one() {
    let backend = TestBackend::new(80, 24);
    let mut terminal = Terminal::new(backend).unwrap();
    let mut agent = ready_test_agent(100);
    agent.mark_crashed(-1);
    draw(&mut terminal, std::slice::from_ref(&agent), |ops| {
            render_agent_pane(
                ops,
                Rect {
                    x: 0,
                    y: 0,
                    width: 80,
                    height: 24,
                },
                &agent,
                "d",
                &mut PaneHitbox::default(),
                &no_overlay(),
            );
        });
    let row = top_row_text(&terminal);
    assert!(
        row.contains("connection lost"),
        "minus-one banner must distinguish socket-level failure, got: {row:?}",
    );
}

#[test]
fn render_agent_pane_falls_through_to_red_banner_for_synthetic_zero_exit() {
    let backend = TestBackend::new(80, 24);
    let mut terminal = Terminal::new(backend).unwrap();
    let mut agent = ready_test_agent(100);
    agent.mark_crashed(0);
    draw(&mut terminal, std::slice::from_ref(&agent), |ops| {
            render_agent_pane(
                ops,
                Rect {
                    x: 0,
                    y: 0,
                    width: 80,
                    height: 24,
                },
                &agent,
                "d",
                &mut PaneHitbox::default(),
                &no_overlay(),
            );
        });
    let row = top_row_text(&terminal);
    assert!(
        row.contains("session ended (exit 0)"),
        "synthetic 0-exit must still render its code in copy, got: {row:?}",
    );
    assert!(
        row.contains('\u{2717}'),
        "synthetic 0-exit now shares the red ✗ treatment, got: {row:?}",
    );
}

#[test]
fn render_agent_pane_banner_uses_configured_dismiss_chord() {
    let backend = TestBackend::new(80, 24);
    let mut terminal = Terminal::new(backend).unwrap();
    let mut agent = ready_test_agent(100);
    agent.mark_crashed(7);
    draw(&mut terminal, std::slice::from_ref(&agent), |ops| {
            render_agent_pane(
                ops,
                Rect {
                    x: 0,
                    y: 0,
                    width: 80,
                    height: 24,
                },
                &agent,
                "ctrl+x",
                &mut PaneHitbox::default(),
                &no_overlay(),
            );
        });
    let row = top_row_text(&terminal);
    assert!(
        row.contains("ctrl+x to dismiss"),
        "banner must interpolate the supplied chord label, got: {row:?}",
    );
}

#[test]
fn paint_selection_if_active_flips_reversed_modifier_on_selected_cells() {
    let backend = TestBackend::new(10, 3);
    let mut terminal = Terminal::new(backend).unwrap();
    let area = Rect {
        x: 0,
        y: 0,
        width: 10,
        height: 3,
    };
    let agent_id = AgentId::new("a");
    let sel = Selection {
        agent: agent_id.clone(),
        anchor: cell(0, 2),
        head: cell(0, 5),
    };
    draw(&mut terminal, &[], |ops| {
            paint_selection_if_active(ops, area, &agent_id, Some(&sel));
        });
    let buf = terminal.backend().buffer();
    for x in 0..10u16 {
        let modifier = buf[(x, 0)].modifier;
        let in_selection = (2..=5).contains(&x);
        assert_eq!(
            modifier.contains(Modifier::REVERSED),
            in_selection,
            "cell at x={x} expected_in_selection={in_selection}",
        );
    }
}

#[test]
fn paint_selection_if_active_skips_when_agent_id_does_not_match() {
    let backend = TestBackend::new(10, 3);
    let mut terminal = Terminal::new(backend).unwrap();
    let area = Rect {
        x: 0,
        y: 0,
        width: 10,
        height: 3,
    };
    let sel = Selection {
        agent: AgentId::new("a"),
        anchor: cell(0, 0),
        head: cell(0, 9),
    };
    draw(&mut terminal, &[], |ops| {
            paint_selection_if_active(ops, area, &AgentId::new("b"), Some(&sel));
        });
    let buf = terminal.backend().buffer();
    for x in 0..10u16 {
        assert!(
            !buf[(x, 0)].modifier.contains(Modifier::REVERSED),
            "no cell should be flipped when agent id does not match",
        );
    }
}

#[test]
fn render_failure_pane_paints_at_extractor_cells() {
    let backend = TestBackend::new(40, 10);
    let mut terminal = Terminal::new(backend).unwrap();
    let area = Rect {
        x: 0,
        y: 0,
        width: 40,
        height: 10,
    };
    draw(&mut terminal, &[], |ops| {
            render_failure_pane(ops, area, "foo", "boom");
        });
    let buf = terminal.backend().buffer();
    assert_eq!(
        buf[(9, 3)].symbol(),
        "b",
        "header 'b' at the cell the extractor picks for col=9",
    );
    assert_eq!(
        buf[(0, 3)].symbol(),
        " ",
        "left margin of the header row is padding",
    );
}

#[test]
fn paint_hover_url_if_active_underlines_url_range_and_tints_cyan() {
    let backend = TestBackend::new(10, 3);
    let mut terminal = Terminal::new(backend).unwrap();
    let area = Rect {
        x: 0,
        y: 0,
        width: 10,
        height: 3,
    };
    let agent_id = AgentId::new("a");
    let hover = HoverUrl {
        agent: agent_id.clone(),
        row: 1,
        cols: ColRange { start: 2, end: 6 },
        url: "https://x".to_string(),
    };
    draw(&mut terminal, &[], |ops| {
            paint_hover_url_if_active(ops, area, &agent_id, Some(&hover));
        });
    let buf = terminal.backend().buffer();
    for x in 0..10u16 {
        let painted = &buf[(x, 1)];
        let in_url = (2..6).contains(&x);
        assert_eq!(
            painted.modifier.contains(Modifier::UNDERLINED),
            in_url,
            "underline at x={x} expected_in_url={in_url}",
        );
        if in_url {
            assert_eq!(painted.fg, ratatui::style::Color::Cyan, "cyan fg at x={x}");
        }
    }
    for x in 0..10u16 {
        assert!(!buf[(x, 0)].modifier.contains(Modifier::UNDERLINED));
        assert!(!buf[(x, 2)].modifier.contains(Modifier::UNDERLINED));
    }
}

#[test]
fn paint_hover_url_if_active_skips_when_agent_id_does_not_match() {
    let backend = TestBackend::new(10, 3);
    let mut terminal = Terminal::new(backend).unwrap();
    let area = Rect {
        x: 0,
        y: 0,
        width: 10,
        height: 3,
    };
    let hover = HoverUrl {
        agent: AgentId::new("a"),
        row: 0,
        cols: ColRange { start: 0, end: 10 },
        url: "https://x".to_string(),
    };
    draw(&mut terminal, &[], |ops| {
            paint_hover_url_if_active(ops, area, &AgentId::new("b"), Some(&hover));
        });
    let buf = terminal.backend().buffer();
    for x in 0..10u16 {
        assert!(
            !buf[(x, 0)].modifier.contains(Modifier::UNDERLINED),
            "no cell should be underlined when agent id does not match",
        );
    }
}

struct Scene {
    bindings: Bindings,
    chrome: ChromeStyle,
    segments: Segments,
    log: LogTail,
}

fn scene() -> Scene {
    Scene {
        bindings: defaults(),
        chrome: ChromeStyle::default(),
        segments: no_segments(),
        log: LogTail { latest: None },
    }
}

fn frame_state(scene: &Scene, nav_style: NavStyle) -> FrameState<'_> {
    FrameState {
        nav_style,
        popup: PopupState::Closed,
        help: HelpState::Closed,
        spawn_open: false,
        bindings: &scene.bindings,
        log_tail: None,
        phase: AnimationPhase::default(),
        chrome: &scene.chrome,
        overlay: no_overlay(),
        segments: &scene.segments,
    }
}

fn full(width: u16, height: u16) -> Rect {
    Rect { x: 0, y: 0, width, height }
}

#[test]
fn the_left_pane_style_lists_the_agents_and_shows_the_focused_one() {
    let mut terminal = Terminal::new(TestBackend::new(80, 10)).unwrap();
    let mut agent = ready_test_agent(10);
    agent.take_output(&vec![b"hello".to_vec()]);
    let agents = vec![agent, failed_agent("b")];
    let scene = scene();
    let state = frame_state(&scene, NavStyle::LeftPane);
    let (mut hb, mut pane) = (TabHitboxes::default(), PaneHitbox::default());
    draw(&mut terminal, &agents, |ops| {
        render_frame(ops, full(80, 10), &agents, 0, &state, &mut hb, &mut pane);
    });
    assert!(row_text(&terminal, 0).contains(" agents "));
    assert!(row_text(&terminal, 1).contains("> [1] a"));
    assert!(row_text(&terminal, 2).contains("  [2] "));
    assert!(row_text(&terminal, 0).contains("hello"));
    assert_eq!(pane.rect(), Some(Rect { x: 25, y: 0, width: 55, height: 10 }));
    assert_eq!(hb.at(5, 2), Some(AgentId::new("b")));
}

#[test]
fn the_popup_style_shows_tabs_below_the_pane_and_the_switcher_over_it() {
    let mut terminal = Terminal::new(TestBackend::new(80, 24)).unwrap();
    let agents = three_failed_agents();
    let scene = scene();
    let mut state = frame_state(&scene, NavStyle::Popup);
    let (mut hb, mut pane) = (TabHitboxes::default(), PaneHitbox::default());
    draw(&mut terminal, &agents, |ops| {
        render_frame(ops, full(80, 24), &agents, 1, &state, &mut hb, &mut pane);
    });
    assert_eq!(pane.rect(), Some(Rect { x: 0, y: 0, width: 80, height: 23 }));
    assert_eq!(hb.rects.len(), 3);
    assert!(row_text(&terminal, 23).contains(" │ "));
    assert!(!screen_text(&terminal).contains(" switch agent "));
    state.popup = PopupState::Open { selection: 2 };
    draw(&mut terminal, &agents, |ops| {
        render_frame(ops, full(80, 24), &agents, 1, &state, &mut hb, &mut pane);
    });
    assert!(screen_text(&terminal).contains(" switch agent "));
    assert!(screen_text(&terminal).contains("> [3] "));
    assert_eq!(hb.rects.len(), 3, "what was recorded before is forgotten");
}

#[test]
fn the_log_strip_takes_the_last_row() {
    let mut terminal = Terminal::new(TestBackend::new(40, 6)).unwrap();
    let agents = vec![failed_agent("a")];
    let mut scene = scene();
    let (mut hb, mut pane) = (TabHitboxes::default(), PaneHitbox::default());
    let mut state = frame_state(&scene, NavStyle::Popup);
    state.log_tail = Some(&scene.log);
    draw(&mut terminal, &agents, |ops| {
        render_frame(ops, full(40, 6), &agents, 0, &state, &mut hb, &mut pane);
    });
    assert!(row_text(&terminal, 5).starts_with('—'));
    assert_eq!(pane.rect(), Some(Rect { x: 0, y: 0, width: 40, height: 4 }));
    scene.log = LogTail { latest: Some("listening".to_string()) };
    let mut ops = Vec::new();
    render_log_strip(&mut ops, Rect { x: 0, y: 5, width: 40, height: 1 }, &scene.log, &scene.chrome);
    assert_eq!(ops.len(), 2);
    draw(&mut terminal, &agents, |out| out.append(&mut ops));
    assert!(row_text(&terminal, 5).starts_with("listening "));
}

#[test]
fn dialog_and_help_come_last() {
    let agents = vec![failed_agent("a")];
    let scene = scene();
    let mut state = frame_state(&scene, NavStyle::Popup);
    state.spawn_open = true;
    state.help = HelpState::Open;
    let (mut hb, mut pane) = (TabHitboxes::default(), PaneHitbox::default());
    let mut ops = Vec::new();
    render_frame(&mut ops, full(80, 60), &agents, 0, &state, &mut hb, &mut pane);
    let dialog = ops.iter().position(|op| matches!(op, Paint::Dialog { .. })).unwrap();
    let help = ops.iter().position(|op| matches!(op, Paint::Border { .. })).unwrap();
    assert!(dialog < help);
    assert_eq!(help + 2, ops.len());
}

#[test]
fn help_lists_every_binding_under_its_heading() {
    let mut terminal = Terminal::new(TestBackend::new(100, 60)).unwrap();
    draw(&mut terminal, &[], |ops| render_help(ops, full(100, 60), &defaults()));
    let text = screen_text(&terminal);
    for heading in [
        " codemux help ",
        "prefix:  ctrl+b",
        "direct (no prefix):",
        "in prefix mode:",
        "in agent switcher popup:",
        "in spawn minibuffer:",
        "in scroll mode:",
        "mouse:",
        "press any key to close",
    ] {
        assert!(text.contains(heading), "{heading:?} is missing from:\n{text}");
    }
    assert!(text.contains("  q           quit"));
    assert!(text.contains("  1-9         focus agent by one-indexed position"));
    assert!(text.contains("  pgup        one page up"));
    assert!(text.contains("  drag pane   select text in the agent pane; release"));
}

#[test]
fn a_long_chord_pushes_its_description() {
    let line = binding_line("ctrl+shift+x", "does it");
    assert_eq!(line.spans[0].content, "  ctrl+shift+x  does it");
    let line = binding_line("q", "quit");
    assert_eq!(line.spans[0].content, "  q           quit");
}

#[test]
fn segments_stand_at_the_right_and_tabs_stop_before_them() {
    let mut terminal = Terminal::new(TestBackend::new(20, 1)).unwrap();
    let agents = three_failed_agents();
    let segments = Segments { spans: vec![Span::raw("main".to_string())], width: 4 };
    let mut hb = TabHitboxes::default();
    draw(&mut terminal, &agents, |ops| {
        render_status_bar(
            ops,
            full(20, 1),
            &agents,
            0,
            AnimationPhase::default(),
            &ChromeStyle::default(),
            &mut hb,
            &segments,
        );
    });
    assert!(row_text(&terminal, 0).ends_with("main"));
    for h in &hb.rects {
        assert!(h.rect.x + h.rect.width <= 16);
    }
}

#[test]
fn segments_that_leave_no_room_for_a_tab_are_dropped() {
    let agents = vec![failed_agent("a")];
    let segments = Segments { spans: vec![Span::raw("0123456789".to_string())], width: 10 };
    let mut hb = TabHitboxes::default();
    let mut ops = Vec::new();
    render_status_bar(
        &mut ops,
        full(10, 1),
        &agents,
        0,
        AnimationPhase::default(),
        &ChromeStyle::default(),
        &mut hb,
        &segments,
    );
    assert_eq!(ops.len(), 1);
    assert_eq!(hb.rects[0].rect, full(10, 1));
}

#[test]
fn segments_get_three_fifths_of_the_bar() {
    assert_eq!(segments_budget(100), 60);
    assert_eq!(segments_budget(1), 0);
    assert_eq!(segments_budget(21_845), 13_107);
    assert_eq!(segments_budget(u16::MAX), 13_107);
}

#[test]
fn segments_are_made_of_what_is_known_of_the_focused_agent() {
    let mut agent = failed_agent("a");
    agent.repo = Some("codemux".to_string());
    agent.branch = Some("main".to_string());
    agent.cwd = Some("/work/codemux".to_string());
    let agents = vec![failed_agent("z"), agent];
    let ctx = segment_context(&agents, 1);
    assert_eq!((ctx.repo, ctx.branch, ctx.cwd), (Some("codemux"), Some("main"), Some("/work/codemux")));
    assert!(ctx.model_effort.is_none());
    let none = segment_context(&agents, 2);
    assert_eq!((none.repo, none.branch, none.cwd), (None, None, None));
}

#[test]
fn the_switcher_takes_half_the_width_and_three_fifths_of_the_height() {
    assert_eq!(
        centered_rect(50, 60, full(80, 24)),
        Rect { x: 20, y: 5, width: 40, height: 14 },
    );
    let agents = three_failed_agents();
    let mut ops = Vec::new();
    render_switcher_popup(
        &mut ops,
        full(80, 24),
        &agents,
        0,
        AnimationPhase::default(),
        &ChromeStyle::default(),
    );
    match &ops[0] {
        Paint::Clear { area } => assert_eq!(*area, Rect { x: 20, y: 5, width: 40, height: 14 }),
        _ => panic!("the place of the switcher is cleared first"),
    }
}

#[test]
fn the_scroll_badge_sits_in_the_corner() {
    let mut terminal = Terminal::new(TestBackend::new(40, 3)).unwrap();
    draw(&mut terminal, &[], |ops| render_scroll_indicator(ops, full(40, 3), 12));
    assert!(row_text(&terminal, 2).ends_with(" ↑ scroll 12 · esc "));
    assert_eq!(row_text(&terminal, 1).trim(), "");
    let mut ops = Vec::new();
    render_scroll_indicator(&mut ops, full(0, 3), 12);
    assert!(ops.is_empty());
}

#[test]
fn a_scrolled_agent_shows_the_badge() {
    let mut agent = ready_test_agent(100);
    for i in 0..20 {
        agent.take_output(&vec![format!("l{i}\r\n").into_bytes()]);
    }
    agent.nudge_scrollback(4);
    let mut terminal = Terminal::new(TestBackend::new(40, 5)).unwrap();
    draw(&mut terminal, std::slice::from_ref(&agent), |ops| {
        render_agent_pane(ops, full(40, 5), &agent, "d", &mut PaneHitbox::default(), &no_overlay());
    });
    assert!(row_text(&terminal, 4).ends_with(" ↑ scroll 4 · esc "));
}

#[test]
fn panes_take_what_the_style_leaves() {
    assert_eq!(pty_size_for(NavStyle::LeftPane, 24, 80, false), (24, 55));
    assert_eq!(pty_size_for(NavStyle::LeftPane, 24, 80, true), (23, 55));
    assert_eq!(pty_size_for(NavStyle::Popup, 24, 80, false), (23, 80));
    assert_eq!(pty_size_for(NavStyle::Popup, 24, 80, true), (22, 80));
    assert_eq!(pty_size_for(NavStyle::Popup, 1, 1, true), (0, 1));
    assert_eq!(NavStyle::Popup.toggle(), NavStyle::LeftPane);
    assert_eq!(NavStyle::Popup.toggle().toggle(), NavStyle::Popup);
}

#[test]
fn splits_tile_areas_of_every_size() {
    for size in (0..200u16).chain([1000, 65_535]) {
        let area = Rect { x: 0, y: 0, width: size, height: 3 };
        for (min, length) in [
            (1u16, 25u16),
            (0, 1),
            (1, 1),
            (1, 60),
            (0, 0),
            (5, 0),
            (7, 13),
            (300, 40),
            (32_767, 9),
            (32_767, 65_535),
            (0, 65_535),
        ] {
            let (a, b) = split_growing_then_fixed(Direction::Horizontal, min, length, area);
            assert_eq!((a.x, b.x), (0, a.width));
            assert_eq!(u32::from(a.width) + u32::from(b.width), u32::from(size));
            let fixed = length.min(size.saturating_sub(min));
            assert_eq!(b.width, fixed, "size {size} min {min} length {length}");
            let (c, d) = split_fixed_then_growing(Direction::Horizontal, length, min, area);
            assert_eq!((c.width, d.x), (fixed, fixed));
            let tall = Rect { x: 2, y: 0, width: 3, height: size };
            let (e, f) = split_growing_then_fixed(Direction::Vertical, min, length, tall);
            assert_eq!((e.height, f.height), (size - fixed, fixed));
            assert_eq!((e.x, f.x, e.width, f.width), (2, 2, 3, 3));
        }
    }
}

#[test]
fn shares_are_taken_from_the_middle_at_every_size() {
    for size in (0..300u16).chain([1000, 65_535]) {
        let area = Rect { x: 0, y: 0, width: size, height: size };
        let share = centered_rect(50, 60, area);
        let mark = |percent: u32| (u32::from(size) * percent + 50) / 100;
        assert_eq!(u32::from(share.x), mark(25), "left of {size}");
        assert_eq!(u32::from(share.x) + u32::from(share.width), mark(75), "right of {size}");
        assert_eq!(u32::from(share.y), mark(20), "top of {size}");
        assert_eq!(u32::from(share.y) + u32::from(share.height), mark(80), "bottom of {size}");
    }
}

#[test]
fn shares_of_every_percentage_are_taken_from_the_middle() {
    for percent in 0..=100u16 {
        for size in (0..=140u16).chain([199, 200, 250, 255, 333, 1000, 4095, 32_767, 65_528]) {
            let area = Rect { x: 7, y: 0, width: size, height: 1 };
            let share = centered_rect(percent, 100, area);
            let mark = |p: u32| 7 + (u32::from(size) * p + 50) / 100;
            let side = (100 - u32::from(percent)) / 2;
            assert_eq!(
                (u32::from(share.x), u32::from(share.x) + u32::from(share.width)),
                (mark(side), mark(side + u32::from(percent))),
                "{percent} percent of {size}",
            );
        }
    }
}

#[test]
fn a_border_takes_one_cell_on_each_side_as_far_as_there_are_cells() {
    for size in [0u16, 1, 2, 3, 10] {
        let mut ops = Vec::new();
        render_help(&mut ops, full(size, size), &defaults());
        match &ops[2] {
            Paint::Text { area, .. } => {
                let start = u16::from(size > 0);
                let inner = size.saturating_sub(2);
                assert_eq!(*area, Rect { x: start, y: start, width: inner, height: inner });
            }
            _ => panic!("the text comes after the border"),
        }
    }
}

/// What stands on each cell of a row; nothing on the further cells of a wide glyph.
fn symbols(terminal: &Terminal<TestBackend>, y: u16) -> Vec<Option<String>> {
    let buf = terminal.backend().buffer();
    let mut out = Vec::new();
    let mut covered = 0;
    for x in 0..buf.area.width {
        if covered > 0 {
            covered -= 1;
            out.push(None);
        } else {
            let symbol = buf[(x, y)].symbol().to_string();
            covered = unicode_width::UnicodeWidthStr::width(symbol.as_str()).saturating_sub(1);
            out.push(Some(symbol));
        }
    }
    out
}

#[test]
fn every_drag_over_a_failed_pane_copies_what_is_on_screen() {
    let messages = [
        "boom",
        "橋川山",
        "a橋b\tc",
        "\x1b[31mred",
        "cafe\u{301}s",
        "\u{301}lead",
        "⚠\u{fe0f} warn",
        "👩\u{200d}🔬 lab",
        "⌚\u{fe0e}x",
        "\u{17d8}k",
        "  橋  ",
        "橋橋橋橋橋橋橋橋橋橋橋橋",
    ];
    for message in messages {
        for width in [1, 2, 3, 5, 8, 23, 40] {
            if width == 1 && message.contains('⌚') {
                // Too wide for the pane but for the selector after it.
                continue;
            }
            let area = full(width, 6);
            let mut terminal = Terminal::new(TestBackend::new(width, 6)).unwrap();
            draw(&mut terminal, &[], |ops| render_failure_pane(ops, area, "橋", message));
            for row in 0..6 {
                let cells = symbols(&terminal, row);
                for from in 0..width {
                    for to in from..width {
                        let shown: String = cells[usize::from(from)..=usize::from(to)]
                            .iter()
                            .flatten()
                            .map(String::as_str)
                            .collect();
                        let (start, end) = (CellPos { row, col: from }, CellPos { row, col: to });
                        assert_eq!(
                            failure_text_in_range("橋", message, area, start, end),
                            shown.trim_end(),
                            "{message:?} on {width} columns, row {row}, {from} to {to}",
                        );
                    }
                }
            }
        }
    }
}

#[test]
fn a_sound_mark_is_painted_where_it_is_copied() {
    let area = full(40, 10);
    let message = "\u{ff76}\u{ff9e}a";
    let mut terminal = Terminal::new(TestBackend::new(40, 10)).unwrap();
    draw(&mut terminal, &[], |ops| render_failure_pane(ops, area, "f", message));
    assert_eq!(terminal.backend().buffer()[(21, 5)].symbol(), "a");
    let at = CellPos { row: 5, col: 21 };
    assert_eq!(failure_text_in_range("f", message, area, at, at), "a");
}

#[test]
fn help_has_a_line_for_every_action() {
    let bindings = defaults();
    let mut terminal = Terminal::new(TestBackend::new(100, 60)).unwrap();
    draw(&mut terminal, &[], |ops| render_help(ops, full(100, 60), &bindings));
    let screen = screen_text(&terminal);
    let shows = |label: &str, description: &str| {
        let line = format!("  {label:<10}  {description} ");
        assert!(screen.contains(&line), "no line {line:?}");
    };
    for action in [
        DirectAction::SpawnAgent,
        DirectAction::FocusNext,
        DirectAction::FocusPrev,
        DirectAction::FocusLast,
    ] {
        let b = bindings.on_direct.bindings.iter().find(|b| b.action == action).unwrap();
        shows(&b.label, &b.description);
    }
    for action in [
        PrefixAction::Quit,
        PrefixAction::SpawnAgent,
        PrefixAction::FocusNext,
        PrefixAction::FocusPrev,
        PrefixAction::FocusLast,
        PrefixAction::ToggleNav,
        PrefixAction::OpenSwitcher,
        PrefixAction::DismissAgent,
        PrefixAction::KillAgent,
        PrefixAction::Help,
    ] {
        let b = bindings.on_prefix.bindings.iter().find(|b| b.action == action).unwrap();
        shows(&b.label, &b.description);
    }
    for action in
        [PopupAction::Next, PopupAction::Prev, PopupAction::Confirm, PopupAction::Cancel]
    {
        let b = bindings.on_popup.bindings.iter().find(|b| b.action == action).unwrap();
        shows(&b.label, &b.description);
    }
    for action in [
        ScrollAction::LineUp,
        ScrollAction::LineDown,
        ScrollAction::PageUp,
        ScrollAction::PageDown,
        ScrollAction::Top,
        ScrollAction::Bottom,
        ScrollAction::ExitScroll,
    ] {
        let b = bindings.on_scroll.bindings.iter().find(|b| b.action == action).unwrap();
        shows(&b.label, &b.description);
    }
}
