//! What the mouse hits, and what it asks for.

use codemux::agent::{AgentId, RuntimeAgent};
use codemux::capture::{CaptureChange, CaptureMode, MouseCaptureState, YieldReasons};
use codemux::geometry::{
    centered_rect_with_size, normalized_range, row_bounds, CellPos, Rect,
};
use codemux::mouse::{
    compute_hover, hover_cell, pane_mouse_dispatch, tab_mouse_dispatch, update_hover, ColRange,
    HoverTransition, HoverUrl, MouseButton, MouseEventKind, PaneHitbox, PaneMouseDispatch,
    Selection, TabHitboxes, TabMouseDispatch, UrlSpan,
};
use codemux::screen::PaneParser;

fn cell(row: u16, col: u16) -> CellPos {
    CellPos { row, col }
}

fn two_tab_hitboxes() -> TabHitboxes {
    let mut hb = TabHitboxes::default();
    hb.record(Rect { x: 0, y: 23, width: 5, height: 1 }, AgentId::new("a"));
    hb.record(Rect { x: 5, y: 23, width: 5, height: 1 }, AgentId::new("b"));
    hb
}

fn ready_agent_with(id: &str, cols: u16, body: &[u8]) -> RuntimeAgent<()> {
    let mut agent = RuntimeAgent::ready(
        AgentId::new(id),
        id.to_string(),
        None,
        None,
        None,
        (),
        5,
        cols,
        100,
    );
    agent.take_output(&vec![body.to_vec()]);
    agent
}

/// The link at a cell of a screen.
fn url_at(parser: &PaneParser, row: u16, col: u16) -> Option<UrlSpan> {
    let screen = parser.vt.screen();
    let text = screen.contents_between(row, 0, row, screen.size().1);
    let start = text.find("https://")?;
    let url: String = text[start..].chars().take_while(|c| !c.is_whitespace()).collect();
    let start = u16::try_from(start).unwrap();
    let end = start + u16::try_from(url.len()).unwrap();
    if start <= col && col < end {
        Some(UrlSpan { row, cols: ColRange { start, end }, url })
    } else {
        None
    }
}

/// The link under the mouse, looked for on the screen under it.
fn hover_at(
    hitbox: &PaneHitbox,
    agents: &Vec<RuntimeAgent<()>>,
    column: u16,
    row: u16,
) -> Option<HoverUrl> {
    let span = hover_cell(hitbox, agents, column, row).and_then(|(id, cell)| {
        let agent = agents.iter().find(|a| a.id == id)?;
        url_at(agent.state.screen()?, cell.row, cell.col)
    });
    compute_hover(hitbox, agents, column, row, span)
}

#[test]
fn tab_hitboxes_at_finds_recorded_rect() {
    let mut hb = TabHitboxes::default();
    let id_a = AgentId::new("a");
    let id_b = AgentId::new("b");
    hb.record(
        Rect {
            x: 5,
            y: 10,
            width: 4,
            height: 1,
        },
        id_a.clone(),
    );
    hb.record(
        Rect {
            x: 9,
            y: 10,
            width: 6,
            height: 1,
        },
        id_b.clone(),
    );
    assert_eq!(hb.at(5, 10), Some(id_a.clone()));
    assert_eq!(hb.at(8, 10), Some(id_a));
    assert_eq!(hb.at(9, 10), Some(id_b.clone()));
    assert_eq!(hb.at(14, 10), Some(id_b));
}

#[test]
fn tab_hitboxes_at_misses_outside_recorded_rects() {
    let mut hb = TabHitboxes::default();
    hb.record(
        Rect {
            x: 5,
            y: 10,
            width: 4,
            height: 1,
        },
        AgentId::new("a"),
    );
    assert_eq!(hb.at(4, 10), None);
    assert_eq!(hb.at(9, 10), None);
    assert_eq!(hb.at(5, 9), None);
    assert_eq!(hb.at(5, 11), None);
}

#[test]
fn tab_hitboxes_clear_drops_all_recorded_rects() {
    let mut hb = TabHitboxes::default();
    hb.record(
        Rect {
            x: 0,
            y: 0,
            width: 10,
            height: 1,
        },
        AgentId::new("a"),
    );
    assert!(hb.at(0, 0).is_some());
    hb.clear();
    assert!(hb.at(0, 0).is_none());
}

#[test]
fn tab_hitboxes_record_rejects_zero_sized_rect() {
    let mut hb = TabHitboxes::default();
    hb.record(
        Rect {
            x: 5,
            y: 10,
            width: 0,
            height: 1,
        },
        AgentId::new("a"),
    );
    hb.record(
        Rect {
            x: 5,
            y: 10,
            width: 4,
            height: 0,
        },
        AgentId::new("b"),
    );
    assert_eq!(hb.at(5, 10), None);
}

#[test]
fn tab_mouse_dispatch_down_on_tab_returns_press() {
    let hb = two_tab_hitboxes();
    assert_eq!(
        tab_mouse_dispatch(MouseEventKind::Down(MouseButton::Left), 2, 23, &hb, None),
        Some(TabMouseDispatch::PressTab(AgentId::new("a"))),
    );
    assert_eq!(
        tab_mouse_dispatch(MouseEventKind::Down(MouseButton::Left), 7, 23, &hb, None),
        Some(TabMouseDispatch::PressTab(AgentId::new("b"))),
    );
}

#[test]
fn tab_mouse_dispatch_down_outside_tabs_returns_none() {
    let hb = two_tab_hitboxes();
    assert_eq!(
        tab_mouse_dispatch(MouseEventKind::Down(MouseButton::Left), 50, 10, &hb, None),
        None,
    );
}

#[test]
fn tab_mouse_dispatch_up_same_tab_is_a_click() {
    let hb = two_tab_hitboxes();
    let pressed = AgentId::new("a");
    assert_eq!(
        tab_mouse_dispatch(
            MouseEventKind::Up(MouseButton::Left),
            2,
            23,
            &hb,
            Some(&pressed),
        ),
        Some(TabMouseDispatch::Click(AgentId::new("a"))),
    );
}

#[test]
fn tab_mouse_dispatch_up_different_tab_is_a_reorder() {
    let hb = two_tab_hitboxes();
    let pressed = AgentId::new("a");
    assert_eq!(
        tab_mouse_dispatch(
            MouseEventKind::Up(MouseButton::Left),
            7,
            23,
            &hb,
            Some(&pressed),
        ),
        Some(TabMouseDispatch::Reorder {
            from: AgentId::new("a"),
            to: AgentId::new("b"),
        }),
    );
}

#[test]
fn tab_mouse_dispatch_up_outside_tabs_cancels() {
    let hb = two_tab_hitboxes();
    let pressed = AgentId::new("a");
    assert_eq!(
        tab_mouse_dispatch(
            MouseEventKind::Up(MouseButton::Left),
            50,
            10,
            &hb,
            Some(&pressed),
        ),
        Some(TabMouseDispatch::Cancel),
    );
}

#[test]
fn tab_mouse_dispatch_up_with_no_press_is_none() {
    let hb = two_tab_hitboxes();
    assert_eq!(
        tab_mouse_dispatch(MouseEventKind::Up(MouseButton::Left), 2, 23, &hb, None),
        None,
    );
}

#[test]
fn tab_mouse_dispatch_drag_is_none_so_event_loop_keeps_state() {
    let hb = two_tab_hitboxes();
    let pressed = AgentId::new("a");
    assert_eq!(
        tab_mouse_dispatch(
            MouseEventKind::Drag(MouseButton::Left),
            5,
            23,
            &hb,
            Some(&pressed),
        ),
        None,
    );
}

#[test]
fn tab_mouse_dispatch_non_left_buttons_are_ignored() {
    let hb = two_tab_hitboxes();
    let pressed = AgentId::new("a");
    for button in [MouseButton::Right, MouseButton::Middle] {
        assert_eq!(
            tab_mouse_dispatch(MouseEventKind::Down(button), 2, 23, &hb, None),
            None,
        );
        assert_eq!(
            tab_mouse_dispatch(MouseEventKind::Up(button), 2, 23, &hb, Some(&pressed)),
            None,
        );
    }
}

#[test]
fn normalized_range_handles_inverted_drag() {
    let (start, end) = normalized_range(cell(5, 12), cell(2, 3));
    assert_eq!(start, cell(2, 3));
    assert_eq!(end, cell(5, 12));
}

#[test]
fn normalized_range_preserves_already_ordered_drag() {
    let (start, end) = normalized_range(cell(2, 3), cell(5, 12));
    assert_eq!(start, cell(2, 3));
    assert_eq!(end, cell(5, 12));
}

#[test]
fn row_bounds_single_row_selection_is_inclusive_at_both_ends() {
    let (lo, hi) = row_bounds(cell(2, 4), cell(2, 9), 2, 80);
    assert_eq!((lo, hi), (4, 10));
}

#[test]
fn row_bounds_top_row_of_multirow_runs_to_pane_edge() {
    let (lo, hi) = row_bounds(cell(2, 4), cell(5, 9), 2, 80);
    assert_eq!((lo, hi), (4, 80));
}

#[test]
fn row_bounds_middle_row_spans_full_pane_width() {
    let (lo, hi) = row_bounds(cell(2, 4), cell(5, 9), 3, 80);
    assert_eq!((lo, hi), (0, 80));
}

#[test]
fn row_bounds_bottom_row_runs_from_zero_to_end_col_inclusive() {
    let (lo, hi) = row_bounds(cell(2, 4), cell(5, 9), 5, 80);
    assert_eq!((lo, hi), (0, 10));
}

#[test]
fn row_bounds_single_row_clamps_end_col_to_pane_width() {
    let (lo, hi) = row_bounds(cell(2, 4), cell(2, 100), 2, 80);
    assert_eq!((lo, hi), (4, 80));
}

#[test]
fn pane_hitbox_cell_at_translates_to_pane_relative() {
    let mut hb = PaneHitbox::default();
    hb.record(
        Rect {
            x: 25,
            y: 0,
            width: 80,
            height: 24,
        },
        AgentId::new("a"),
    );
    let (id, c) = hb.cell_at(30, 5).unwrap();
    assert_eq!(id, AgentId::new("a"));
    assert_eq!(c, cell(5, 5));
}

#[test]
fn pane_hitbox_cell_at_returns_none_outside_pane() {
    let mut hb = PaneHitbox::default();
    hb.record(
        Rect {
            x: 25,
            y: 0,
            width: 80,
            height: 24,
        },
        AgentId::new("a"),
    );
    assert!(hb.cell_at(10, 5).is_none());
}

#[test]
fn pane_hitbox_clamped_cell_at_clamps_to_nearest_edge() {
    let mut hb = PaneHitbox::default();
    hb.record(
        Rect {
            x: 25,
            y: 0,
            width: 80,
            height: 24,
        },
        AgentId::new("a"),
    );
    let c = hb.clamped_cell_at(200, 50).unwrap();
    assert_eq!(c, cell(23, 79));
    let c = hb.clamped_cell_at(0, 0).unwrap();
    assert_eq!(c, cell(0, 0));
}

#[test]
fn pane_hitbox_no_record_means_no_dispatch() {
    let hb = PaneHitbox::default();
    assert!(hb.cell_at(30, 5).is_none());
    assert!(hb.clamped_cell_at(30, 5).is_none());
}

#[test]
fn pane_mouse_dispatch_down_inside_pane_arms_selection() {
    let mut hb = PaneHitbox::default();
    hb.record(
        Rect {
            x: 25,
            y: 0,
            width: 80,
            height: 24,
        },
        AgentId::new("a"),
    );
    let dispatch =
        pane_mouse_dispatch(MouseEventKind::Down(MouseButton::Left), 30, 5, &hb, None);
    assert_eq!(
        dispatch,
        Some(PaneMouseDispatch::Arm {
            agent: AgentId::new("a"),
            cell: cell(5, 5),
        }),
    );
}

#[test]
fn pane_mouse_dispatch_down_outside_pane_returns_none() {
    let mut hb = PaneHitbox::default();
    hb.record(
        Rect {
            x: 25,
            y: 0,
            width: 80,
            height: 24,
        },
        AgentId::new("a"),
    );
    let dispatch =
        pane_mouse_dispatch(MouseEventKind::Down(MouseButton::Left), 10, 5, &hb, None);
    assert_eq!(dispatch, None);
}

#[test]
fn pane_mouse_dispatch_drag_extends_when_selection_active() {
    let mut hb = PaneHitbox::default();
    hb.record(
        Rect {
            x: 25,
            y: 0,
            width: 80,
            height: 24,
        },
        AgentId::new("a"),
    );
    let sel = Selection {
        agent: AgentId::new("a"),
        anchor: cell(5, 5),
        head: cell(5, 5),
    };
    let dispatch = pane_mouse_dispatch(
        MouseEventKind::Drag(MouseButton::Left),
        40,
        10,
        &hb,
        Some(&sel),
    );
    assert_eq!(dispatch, Some(PaneMouseDispatch::Extend(cell(10, 15))));
}

#[test]
fn pane_mouse_dispatch_drag_outside_pane_clamps() {
    let mut hb = PaneHitbox::default();
    hb.record(
        Rect {
            x: 25,
            y: 0,
            width: 80,
            height: 24,
        },
        AgentId::new("a"),
    );
    let sel = Selection {
        agent: AgentId::new("a"),
        anchor: cell(5, 5),
        head: cell(5, 5),
    };
    let dispatch = pane_mouse_dispatch(
        MouseEventKind::Drag(MouseButton::Left),
        300,
        5,
        &hb,
        Some(&sel),
    );
    assert_eq!(dispatch, Some(PaneMouseDispatch::Extend(cell(5, 79))));
}

#[test]
fn pane_mouse_dispatch_drag_without_selection_is_none() {
    let mut hb = PaneHitbox::default();
    hb.record(
        Rect {
            x: 25,
            y: 0,
            width: 80,
            height: 24,
        },
        AgentId::new("a"),
    );
    let dispatch =
        pane_mouse_dispatch(MouseEventKind::Drag(MouseButton::Left), 30, 5, &hb, None);
    assert_eq!(dispatch, None);
}

#[test]
fn pane_mouse_dispatch_up_with_selection_commits() {
    let mut hb = PaneHitbox::default();
    hb.record(
        Rect {
            x: 25,
            y: 0,
            width: 80,
            height: 24,
        },
        AgentId::new("a"),
    );
    let sel = Selection {
        agent: AgentId::new("a"),
        anchor: cell(5, 5),
        head: cell(5, 9),
    };
    let dispatch = pane_mouse_dispatch(
        MouseEventKind::Up(MouseButton::Left),
        34,
        5,
        &hb,
        Some(&sel),
    );
    assert_eq!(dispatch, Some(PaneMouseDispatch::Commit));
}

#[test]
fn pane_mouse_dispatch_up_without_selection_is_none() {
    let mut hb = PaneHitbox::default();
    hb.record(
        Rect {
            x: 25,
            y: 0,
            width: 80,
            height: 24,
        },
        AgentId::new("a"),
    );
    let dispatch = pane_mouse_dispatch(MouseEventKind::Up(MouseButton::Left), 30, 5, &hb, None);
    assert_eq!(dispatch, None);
}

#[test]
fn pane_mouse_dispatch_right_button_is_none() {
    let mut hb = PaneHitbox::default();
    hb.record(
        Rect {
            x: 25,
            y: 0,
            width: 80,
            height: 24,
        },
        AgentId::new("a"),
    );
    let dispatch =
        pane_mouse_dispatch(MouseEventKind::Down(MouseButton::Right), 30, 5, &hb, None);
    assert_eq!(dispatch, None);
}

#[test]
fn update_hover_returns_activated_on_none_to_some() {
    let mut hover: Option<HoverUrl> = None;
    let new = HoverUrl {
        agent: AgentId::new("a"),
        row: 0,
        cols: ColRange { start: 0, end: 5 },
        url: "https://x".to_string(),
    };
    let transition = update_hover(&mut hover, Some(new.clone()));
    assert_eq!(transition, HoverTransition::Activated);
    assert_eq!(hover, Some(new));
}

#[test]
fn update_hover_returns_deactivated_on_some_to_none() {
    let mut hover: Option<HoverUrl> = Some(HoverUrl {
        agent: AgentId::new("a"),
        row: 0,
        cols: ColRange { start: 0, end: 5 },
        url: "https://x".to_string(),
    });
    let transition = update_hover(&mut hover, None);
    assert_eq!(transition, HoverTransition::Deactivated);
    assert_eq!(hover, None);
}

#[test]
fn update_hover_returns_unchanged_when_active_state_unchanged() {
    let mut hover: Option<HoverUrl> = Some(HoverUrl {
        agent: AgentId::new("a"),
        row: 0,
        cols: ColRange { start: 0, end: 5 },
        url: "https://x".to_string(),
    });
    let next = HoverUrl {
        agent: AgentId::new("a"),
        row: 0,
        cols: ColRange { start: 6, end: 11 },
        url: "https://y".to_string(),
    };
    assert_eq!(
        update_hover(&mut hover, Some(next.clone())),
        HoverTransition::Unchanged,
    );
    assert_eq!(hover, Some(next));

    let mut hover: Option<HoverUrl> = None;
    assert_eq!(update_hover(&mut hover, None), HoverTransition::Unchanged,);
}

#[test]
fn mouse_capture_state_no_op_when_capture_inactive() {
    let mut s = MouseCaptureState::new(false);
    assert_eq!(s.mode, CaptureMode::Disabled);
    s.set_url_modifier_held(true);
    assert_eq!(
        s.mode,
        CaptureMode::Disabled,
        "url-modifier yield must not transition Disabled mode",
    );
    assert!(s.reasons.url_modifier_held, "reason bit still tracks");
    s.set_url_modifier_held(false);
    assert_eq!(
        s.mode,
        CaptureMode::Disabled,
        "url-modifier release must not transition Disabled mode",
    );
    s.set_focused_failed(true);
    assert_eq!(
        s.mode,
        CaptureMode::Disabled,
        "focused-Failed yield must not transition Disabled mode",
    );
    s.lose_focus();
    assert_eq!(
        s.mode,
        CaptureMode::Disabled,
        "focus loss must not transition Disabled mode",
    );
}

#[test]
fn mouse_capture_state_yield_reasons_compose_independently() {
    let mut s = MouseCaptureState {
        mode: CaptureMode::Captured,
        reasons: YieldReasons::default(),
    };
    assert!(!s.reasons.any(), "no reasons → captured");

    s.reasons.url_modifier_held = true;
    s.reasons.focused_failed = true;
    assert!(s.reasons.any(), "both reasons → would yield");

    s.reasons.url_modifier_held = false;
    assert!(
        s.reasons.any(),
        "focused-Failed alone keeps capture yielded",
    );

    s.reasons.focused_failed = false;
    assert!(!s.reasons.any(), "no reasons → would reclaim");
}

#[test]
fn mouse_capture_state_lose_focus_preserves_focused_failed() {
    let mut s = MouseCaptureState {
        mode: CaptureMode::Disabled,
        reasons: YieldReasons {
            url_modifier_held: true,
            focused_failed: true,
        },
    };
    s.lose_focus();
    assert!(!s.reasons.url_modifier_held, "url-modifier bit cleared");
    assert!(
        s.reasons.focused_failed,
        "focused-Failed bit preserved across alt-tab",
    );
}

#[test]
fn compute_hover_returns_url_under_pane_cell() {
    let agents = vec![ready_agent_with("h", 40, b"see https://example.com here")];
    let mut hitbox = PaneHitbox::default();
    hitbox.record(Rect { x: 10, y: 5, width: 40, height: 5 }, AgentId::new("h"));
    let span = hover_at(&hitbox, &agents, 14, 5).expect("col 14 maps to pane col 4 (the 'h')");
    assert_eq!(span.url, "https://example.com");
    assert_eq!(span.agent, AgentId::new("h"));
    assert_eq!(span.row, 0);
    assert_eq!(span.cols, ColRange { start: 4, end: 23 });
}

#[test]
fn compute_hover_returns_none_when_screen_cell_outside_pane() {
    let agents = vec![ready_agent_with("h", 40, b"https://example.com")];
    let mut hitbox = PaneHitbox::default();
    hitbox.record(Rect { x: 10, y: 5, width: 40, height: 5 }, AgentId::new("h"));
    assert!(hover_at(&hitbox, &agents, 0, 0).is_none());
}

#[test]
fn compute_hover_returns_none_when_no_url_under_cell() {
    let agents = vec![ready_agent_with("h", 40, b"plain text, no url here")];
    let mut hitbox = PaneHitbox::default();
    hitbox.record(Rect { x: 0, y: 0, width: 40, height: 5 }, AgentId::new("h"));
    assert!(hover_at(&hitbox, &agents, 5, 0).is_none());
}

#[test]
fn no_link_is_looked_for_without_a_screen() {
    let failed: Vec<RuntimeAgent<()>> = vec![RuntimeAgent::failed(
        AgentId::new("h"),
        "h".to_string(),
        None,
        None,
        "host".to_string(),
        "test".to_string(),
        5,
        40,
    )];
    let mut hitbox = PaneHitbox::default();
    hitbox.record(Rect { x: 0, y: 0, width: 40, height: 5 }, AgentId::new("h"));
    assert_eq!(hover_cell(&hitbox, &failed, 5, 0), None);
    let none: Vec<RuntimeAgent<()>> = vec![];
    assert_eq!(hover_cell(&hitbox, &none, 5, 0), None);
}

#[test]
fn the_last_cells_of_the_screen_can_be_hit() {
    let mut hb = PaneHitbox::default();
    hb.record(Rect { x: 65530, y: 65530, width: 5, height: 5 }, AgentId::new("a"));
    assert_eq!(hb.cell_at(65534, 65534), Some((AgentId::new("a"), cell(4, 4))));
    assert_eq!(hb.cell_at(65535, 65534), None);
    assert_eq!(hb.clamped_cell_at(65535, 65535), Some(cell(4, 4)));
}

#[test]
fn a_pane_without_cells_is_not_recorded() {
    let mut hb = PaneHitbox::default();
    hb.record(Rect { x: 3, y: 3, width: 0, height: 5 }, AgentId::new("a"));
    assert_eq!(hb.rect(), None);
    hb.record(Rect { x: 3, y: 3, width: 2, height: 5 }, AgentId::new("a"));
    assert_eq!(hb.rect(), Some(Rect { x: 3, y: 3, width: 2, height: 5 }));
    hb.clear();
    assert_eq!(hb.rect(), None);
}

#[test]
fn capture_is_lent_for_a_reason_and_taken_back_without_one() {
    let mut s = MouseCaptureState::new(true);
    assert_eq!(s.set_url_modifier_held(true), Some(CaptureChange::Release));
    s.settle(CaptureChange::Release, true);
    assert_eq!(s.mode, CaptureMode::Yielded);
    assert_eq!(s.set_url_modifier_held(true), None);
    assert_eq!(s.set_focused_failed(true), None);
    assert_eq!(s.set_url_modifier_held(false), None);
    assert_eq!(s.set_focused_failed(false), Some(CaptureChange::Capture));
    s.settle(CaptureChange::Capture, false);
    assert_eq!(s.mode, CaptureMode::Yielded, "a change that was not written did not happen");
    assert_eq!(s.sync(), Some(CaptureChange::Capture));
}

#[test]
fn a_rectangle_is_centered_with_the_odd_cell_after_it() {
    let r = Rect { x: 10, y: 20, width: 81, height: 24 };
    assert_eq!(
        centered_rect_with_size(64, 50, r),
        Rect { x: 18, y: 20, width: 64, height: 24 },
    );
}

#[test]
fn a_rectangle_knows_its_cells() {
    let r = Rect { x: 2, y: 3, width: 2, height: 1 };
    assert!(r.contains(2, 3) && r.contains(3, 3));
    assert!(!r.contains(4, 3) && !r.contains(2, 4) && !r.contains(1, 3));
    assert!(!r.is_empty());
    assert!(Rect { x: 2, y: 3, width: 0, height: 1 }.is_empty());
}
