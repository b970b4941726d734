//! What agents are called, and how that is drawn.

use codemux::agent::{AgentId, RuntimeAgent, TitleCapture};
use codemux::label::{
    agent_body_text, agent_label_spans, body_style, body_text, build_tab_strip,
    host_terminal_title, host_terminal_title_for_focused, label_spans, tab_index_style, total_cells,
    AnimationPhase, TabSpec, BLINK_BRIGHT, BLINK_DIM, BLINK_HALF_CYCLE_MS, SPINNER_FRAMES,
};
use codemux::nav::NavState;
use codemux::style::{ChromeColor, ChromeStyle, Color, HostColor, Span, Ui};
use std::time::Duration;

fn failed_agent(label: &str) -> RuntimeAgent<()> {
    RuntimeAgent::failed(
        AgentId::new(label),
        label.to_string(),
        None,
        None,
        "host".to_string(),
        "test".to_string(),
        24,
        80,
    )
}

fn failed_agent_with(label: &str, repo: Option<&str>, host: Option<&str>) -> RuntimeAgent<()> {
    let mut agent = failed_agent(label);
    agent.repo = repo.map(str::to_string);
    agent.host = host.map(str::to_string);
    agent
}

fn ready_agent_at_work(title: &str) -> RuntimeAgent<()> {
    let mut agent = RuntimeAgent::ready(
        AgentId::new("a"),
        "a".to_string(),
        None,
        None,
        None,
        (),
        5,
        20,
        100,
    );
    agent.set_title(TitleCapture { title: Some(title.to_string()), working: true });
    agent
}

fn rendered(spans: &[Span]) -> String {
    spans.iter().map(|s| s.content.as_str()).collect()
}

fn host_color(host: &str, color: ChromeColor) -> HostColor {
    HostColor { host: host.to_string(), color }
}

#[test]
fn build_tab_strip_emits_one_spec_per_agent_in_order() {
    let agents = vec![failed_agent("a"), failed_agent("b"), failed_agent("c")];
    let tabs = build_tab_strip(
        &agents,
        1,
        AnimationPhase::default(),
        &ChromeStyle::default(),
    );
    assert_eq!(tabs.len(), 3);
    assert_eq!(tabs[0].agent_id, AgentId::new("a"));
    assert_eq!(tabs[1].agent_id, AgentId::new("b"));
    assert_eq!(tabs[2].agent_id, AgentId::new("c"));
}

#[test]
fn build_tab_strip_each_spec_has_nonzero_width() {
    let agents = vec![failed_agent("agent-1"), failed_agent("agent-2")];
    let tabs = build_tab_strip(
        &agents,
        0,
        AnimationPhase::default(),
        &ChromeStyle::default(),
    );
    for tab in &tabs {
        assert!(tab.width() > 0, "tab {} has zero width", tab.agent_id.name);
    }
}

#[test]
fn tab_spec_width_sums_span_display_cells() {
    let spec = TabSpec {
        agent_id: AgentId::new("a"),
        spans: vec![
            Span::raw(" ".to_string()),
            Span::raw("hello".to_string()),
            Span::raw(" ".to_string()),
        ],
    };
    assert_eq!(spec.width(), 7);
}

#[test]
fn agent_body_text_uses_repo_when_no_title() {
    let agent = failed_agent_with("agent-1", Some("codemux"), None);
    assert_eq!(agent_body_text(&agent), "codemux");
}

#[test]
fn agent_body_text_falls_back_to_label_when_neither_repo_nor_title() {
    let agent = failed_agent_with("agent-1", None, None);
    assert_eq!(agent_body_text(&agent), "agent-1");
}

#[test]
fn agent_label_spans_includes_host_prefix_for_ssh() {
    let agent = failed_agent_with("agent-1", Some("codemux"), Some("devpod-01"));
    let spans = agent_label_spans(
        &agent,
        false,
        AnimationPhase::default(),
        &ChromeStyle::default(),
    );
    let rendered: String = spans.iter().map(|s| s.content.as_str()).collect();
    assert!(
        rendered.contains("devpod-01"),
        "host prefix missing: {rendered:?}"
    );
    assert!(
        rendered.contains("codemux"),
        "repo body missing: {rendered:?}"
    );
}

#[test]
fn agent_label_spans_omits_host_prefix_for_local() {
    let agent = failed_agent_with("agent-1", Some("codemux"), None);
    let spans = agent_label_spans(
        &agent,
        false,
        AnimationPhase::default(),
        &ChromeStyle::default(),
    );
    let rendered: String = spans.iter().map(|s| s.content.as_str()).collect();
    assert_eq!(rendered, "codemux");
}

#[test]
fn agent_label_spans_renders_attention_dot_when_unfocused_and_flagged() {
    let mut agent = failed_agent_with("agent-1", Some("codemux"), None);
    agent.needs_attention = true;
    let spans = agent_label_spans(
        &agent,
        false,
        AnimationPhase::default(),
        &ChromeStyle::default(),
    );
    let rendered: String = spans.iter().map(|s| s.content.as_str()).collect();
    assert!(
        rendered.contains('●'),
        "attention dot missing: {rendered:?}"
    );
}

#[test]
fn agent_label_spans_omits_attention_dot_when_focused() {
    let mut agent = failed_agent_with("agent-1", Some("codemux"), None);
    agent.needs_attention = true;
    let spans = agent_label_spans(
        &agent,
        true,
        AnimationPhase::default(),
        &ChromeStyle::default(),
    );
    let rendered: String = spans.iter().map(|s| s.content.as_str()).collect();
    assert!(
        !rendered.contains('●'),
        "focused tab should not show attention dot: {rendered:?}"
    );
}

#[test]
fn agent_label_spans_omits_attention_dot_when_not_flagged() {
    let agent = failed_agent_with("agent-1", Some("codemux"), None);
    let spans = agent_label_spans(
        &agent,
        false,
        AnimationPhase::default(),
        &ChromeStyle::default(),
    );
    let rendered: String = spans.iter().map(|s| s.content.as_str()).collect();
    assert!(!rendered.contains('●'));
}

#[test]
fn body_style_swings_between_grey_tones_when_attention_active() {
    let bright = body_style(
        false,
        true,
        AnimationPhase {
            spinner_frame: 0,
            blink_bright: true,
        },
        &ChromeStyle::default(),
    );
    let dim = body_style(
        false,
        true,
        AnimationPhase {
            spinner_frame: 0,
            blink_bright: false,
        },
        &ChromeStyle::default(),
    );
    assert_eq!(bright.fg, Some(Color::Indexed(BLINK_BRIGHT)));
    assert_eq!(dim.fg, Some(Color::Indexed(BLINK_DIM)));
    assert_ne!(bright, dim);
}

#[test]
fn body_style_focused_overrides_attention() {
    let focused_with_attention = body_style(
        true,
        true,
        AnimationPhase {
            spinner_frame: 0,
            blink_bright: true,
        },
        &ChromeStyle::default(),
    );
    assert!(
        focused_with_attention.reversed
    );
}

#[test]
fn animation_phase_advances_spinner_with_elapsed_time() {
    let f0 = AnimationPhase::from_elapsed(Duration::from_millis(0));
    let f1 = AnimationPhase::from_elapsed(Duration::from_millis(100));
    let f2 = AnimationPhase::from_elapsed(Duration::from_millis(200));
    let wrap = AnimationPhase::from_elapsed(Duration::from_millis(800));
    assert_eq!(f0.spinner_frame, 0);
    assert_eq!(f1.spinner_frame, 1);
    assert_eq!(f2.spinner_frame, 2);
    assert_eq!(wrap.spinner_frame, 0);
}

#[test]
fn animation_phase_blink_toggles_at_half_cycle_boundary() {
    let half_ms = u64::try_from(BLINK_HALF_CYCLE_MS).unwrap_or(u64::MAX);
    let bright0 = AnimationPhase::from_elapsed(Duration::from_millis(0));
    let dim = AnimationPhase::from_elapsed(Duration::from_millis(half_ms));
    let bright1 = AnimationPhase::from_elapsed(Duration::from_millis(half_ms * 2));
    assert!(bright0.blink_bright);
    assert!(!dim.blink_bright);
    assert!(bright1.blink_bright);
}

#[test]
fn animation_phase_spinner_glyph_returns_a_known_frame() {
    let p = AnimationPhase {
        spinner_frame: 0,
        blink_bright: false,
    };
    assert_eq!(p.spinner_glyph(), SPINNER_FRAMES[0]);
    let last = SPINNER_FRAMES.len() - 1;
    let p = AnimationPhase {
        spinner_frame: last,
        blink_bright: false,
    };
    assert_eq!(p.spinner_glyph(), SPINNER_FRAMES[last]);
}

#[test]
fn animation_phase_spinner_glyph_clamps_out_of_range_frame() {
    let p = AnimationPhase {
        spinner_frame: SPINNER_FRAMES.len() + 100,
        blink_bright: false,
    };
    assert_eq!(p.spinner_glyph(), SPINNER_FRAMES[SPINNER_FRAMES.len() - 1]);
}

#[test]
fn label_spans_renders_spinner_glyph_when_working() {
    let phase = AnimationPhase {
        spinner_frame: 3,
        blink_bright: true,
    };
    let spans = label_spans(
        None,
        "codemux",
        true,
        false,
        false,
        phase,
        &ChromeStyle::default(),
    );
    assert!(
        rendered(&spans).contains(SPINNER_FRAMES[3]),
        "spinner glyph missing: {:?}",
        rendered(&spans)
    );
}

#[test]
fn label_spans_omits_spinner_when_not_working() {
    let phase = AnimationPhase::default();
    let spans = label_spans(
        None,
        "codemux",
        false,
        false,
        false,
        phase,
        &ChromeStyle::default(),
    );
    let out = rendered(&spans);
    for frame in SPINNER_FRAMES {
        assert!(!out.contains(frame), "stray spinner glyph: {out:?}");
    }
}

#[test]
fn label_spans_renders_focused_spinner_with_reverse_style() {
    let phase = AnimationPhase::default();
    let spans = label_spans(
        None,
        "codemux",
        true,
        false,
        true,
        phase,
        &ChromeStyle::default(),
    );
    let spinner_span = spans
        .iter()
        .find(|s| SPINNER_FRAMES.iter().any(|g| s.content.contains(g)))
        .expect("spinner span present");
    assert!(spinner_span.style.reversed);
}

#[test]
fn label_spans_renders_host_prefix_when_provided() {
    let spans = label_spans(
        Some("devpod-01"),
        "codemux",
        false,
        false,
        false,
        AnimationPhase::default(),
        &ChromeStyle::default(),
    );
    assert!(rendered(&spans).contains("devpod-01"));
}

#[test]
fn label_spans_omits_host_prefix_when_absent() {
    let spans = label_spans(
        None,
        "codemux",
        false,
        false,
        false,
        AnimationPhase::default(),
        &ChromeStyle::default(),
    );
    assert_eq!(rendered(&spans), "codemux");
}

#[test]
fn label_spans_renders_spinner_before_host() {
    let phase = AnimationPhase {
        spinner_frame: 3,
        blink_bright: true,
    };
    let spans = label_spans(
        Some("devpod-01"),
        "codemux",
        true,
        false,
        false,
        phase,
        &ChromeStyle::default(),
    );
    let spinner_idx = spans
        .iter()
        .position(|s| SPINNER_FRAMES.iter().any(|g| s.content.contains(g)))
        .expect("spinner span present");
    let host_idx = spans
        .iter()
        .position(|s| s.content.contains("devpod-01"))
        .expect("host span present");
    assert!(
        spinner_idx < host_idx,
        "spinner must render before host: spinner@{spinner_idx} host@{host_idx}",
    );
}

#[test]
fn body_text_combines_repo_and_title() {
    assert_eq!(
        body_text(Some("Add tab names"), Some("codemux"), "fallback"),
        "codemux: Add tab names"
    );
}

#[test]
fn body_text_uses_title_alone_when_no_repo() {
    assert_eq!(
        body_text(Some("Add tab names"), None, "fallback"),
        "Add tab names"
    );
}

#[test]
fn body_text_uses_repo_alone_when_no_title() {
    assert_eq!(body_text(None, Some("codemux"), "fallback"), "codemux");
}

#[test]
fn body_text_falls_back_to_label_when_neither() {
    assert_eq!(body_text(None, None, "fallback"), "fallback");
}

#[test]
fn host_terminal_title_prefixes_host_when_remote() {
    assert_eq!(
        host_terminal_title(Some("dev01"), "codemux: Add tab names", None),
        "dev01 \u{00b7} codemux: Add tab names"
    );
}

#[test]
fn host_terminal_title_omits_prefix_when_local() {
    assert_eq!(
        host_terminal_title(None, "codemux: Add tab names", None),
        "codemux: Add tab names"
    );
}

#[test]
fn host_terminal_title_treats_empty_host_as_no_host() {
    assert_eq!(host_terminal_title(Some(""), "body", None), "body");
}

#[test]
fn host_terminal_title_prepends_working_glyph_for_remote() {
    assert_eq!(
        host_terminal_title(Some("dev01"), "codemux: Working", Some("⣾")),
        "⣾ dev01 \u{00b7} codemux: Working"
    );
}

#[test]
fn host_terminal_title_prepends_working_glyph_for_local() {
    assert_eq!(
        host_terminal_title(None, "codemux: Working", Some("⣾")),
        "⣾ codemux: Working"
    );
}

#[test]
fn host_terminal_title_prepends_working_glyph_when_host_empty() {
    assert_eq!(host_terminal_title(Some(""), "body", Some("⣾")), "⣾ body");
}

#[test]
fn host_terminal_title_for_focused_returns_none_when_no_agents() {
    let nav = NavState::<()>::new(vec![]);
    assert!(host_terminal_title_for_focused(&nav, AnimationPhase::default()).is_none());
}

#[test]
fn host_terminal_title_for_focused_uses_focused_agent_with_host() {
    let agents = vec![
        failed_agent_with("a", Some("repo-a"), Some("hostA")),
        failed_agent_with("b", Some("repo-b"), Some("hostB")),
    ];
    let mut nav = NavState::new(agents);
    nav.focused = 1;
    let title = host_terminal_title_for_focused(&nav, AnimationPhase::default());
    assert_eq!(title.as_deref(), Some("hostB \u{00b7} repo-b"));
}

#[test]
fn host_terminal_title_for_focused_omits_host_for_local_agent() {
    let agents = vec![failed_agent_with("a", Some("repo-a"), None)];
    let nav = NavState::new(agents);
    let title = host_terminal_title_for_focused(&nav, AnimationPhase::default());
    assert_eq!(title.as_deref(), Some("repo-a"));
}

#[test]
fn host_terminal_title_for_focused_prefixes_spinner_when_agent_is_working() {
    let nav = NavState::new(vec![ready_agent_at_work("Working")]);
    let title = host_terminal_title_for_focused(&nav, AnimationPhase::default());
    let expected = format!("{} Working", SPINNER_FRAMES[0]);
    assert_eq!(title.as_deref(), Some(expected.as_str()));
}

#[test]
fn host_terminal_title_for_focused_threads_phase_into_spinner_frame() {
    let nav = NavState::new(vec![ready_agent_at_work("Working")]);
    let phase = AnimationPhase {
        spinner_frame: 3,
        ..AnimationPhase::default()
    };
    let title = host_terminal_title_for_focused(&nav, phase);
    let expected = format!("{} Working", SPINNER_FRAMES[3]);
    assert_eq!(title.as_deref(), Some(expected.as_str()));
}

#[test]
fn tab_index_style_focused_is_reverse_bold() {
    let s = tab_index_style(true, &ChromeStyle::default());
    assert!(s.reversed);
    assert!(s.bold);
}

#[test]
fn tab_index_style_unfocused_uses_secondary_chrome() {
    let s = tab_index_style(false, &ChromeStyle::default());
    assert!(!s.reversed);
    assert_eq!(s.fg, Some(Color::Indexed(247)));
    assert!(!s.dim);
}

#[test]
fn tab_index_style_unfocused_subtle_keeps_dim() {
    let chrome = ChromeStyle::from_ui(&Ui {
        subtle: true,
        ..Default::default()
    });
    let s = tab_index_style(false, &chrome);
    assert_eq!(s.fg, Some(Color::DarkGray));
    assert!(s.dim);
}

#[test]
fn host_style_falls_back_to_secondary_when_host_is_unconfigured() {
    let chrome = ChromeStyle::from_ui(&Ui::default());
    assert_eq!(chrome.host_style("unknown-host"), chrome.secondary);
}

#[test]
fn host_style_uses_configured_color_when_host_is_known() {
    let mut host_colors = Vec::new();
    host_colors.push(host_color("work", ChromeColor::Named(Color::Blue)));
    host_colors.push(host_color("personal", ChromeColor::Indexed(33)));
    host_colors.push(host_color("devpod", ChromeColor::Rgb(0xd7, 0x5f, 0x00)));
    let chrome = ChromeStyle::from_ui(&Ui {
        host_colors,
        ..Default::default()
    });
    assert_eq!(chrome.host_style("work").fg, Some(Color::Blue));
    assert_eq!(chrome.host_style("personal").fg, Some(Color::Indexed(33)));
    assert_eq!(
        chrome.host_style("devpod").fg,
        Some(Color::Rgb(0xd7, 0x5f, 0x00)),
    );
}

#[test]
fn label_spans_unfocused_host_prefix_uses_per_host_accent() {
    let mut host_colors = Vec::new();
    host_colors.push(host_color("work", ChromeColor::Named(Color::Blue)));
    let chrome = ChromeStyle::from_ui(&Ui {
        host_colors,
        ..Default::default()
    });
    let spans = label_spans(
        Some("work"),
        "shell",
        false,
        false,
        false,
        AnimationPhase::default(),
        &chrome,
    );
    let host_span = spans
        .iter()
        .find(|s| s.content.contains("work"))
        .expect("host prefix span present");
    assert_eq!(
        host_span.style.fg,
        Some(Color::Blue),
        "unfocused host prefix must use configured accent",
    );
}

#[test]
fn label_spans_unconfigured_host_falls_back_to_secondary() {
    let chrome = ChromeStyle::from_ui(&Ui::default());
    let spans = label_spans(
        Some("random-host"),
        "shell",
        false,
        false,
        false,
        AnimationPhase::default(),
        &chrome,
    );
    let host_span = spans
        .iter()
        .find(|s| s.content.contains("random-host"))
        .expect("host prefix span present");
    assert_eq!(host_span.style, chrome.secondary);
}

#[test]
fn a_wide_glyph_counts_for_the_cells_it_takes() {
    let spec = TabSpec {
        agent_id: AgentId::new("a"),
        spans: vec![Span::raw("橋橋".to_string()), Span::raw("a\u{301}".to_string())],
    };
    assert_eq!(spec.width(), 5);
}

#[test]
fn a_label_wider_than_any_screen_is_as_wide_as_a_screen() {
    let spec = TabSpec {
        agent_id: AgentId::new("a"),
        spans: vec![Span::raw("x".repeat(70_000))],
    };
    assert_eq!(spec.width(), u16::MAX);
}

#[test]
fn tabs_are_numbered_from_one() {
    let agents = vec![failed_agent("a"), failed_agent("b")];
    let tabs = build_tab_strip(&agents, 1, AnimationPhase::default(), &ChromeStyle::default());
    assert!(rendered(&tabs[0].spans).contains('1'));
    assert!(rendered(&tabs[1].spans).contains('2'));
}

#[test]
fn animations_repeat() {
    for ms in [0u64, 99, 100, 799, 1499, 1500, 2999] {
        let period = 24_000;
        assert_eq!(
            AnimationPhase::from_elapsed(Duration::from_millis(ms)),
            AnimationPhase::from_elapsed(Duration::from_millis(ms + period)),
        );
    }
    assert_eq!(
        AnimationPhase::from_elapsed(Duration::from_micros(199_999)),
        AnimationPhase::from_millis(199),
    );
}

#[test]
fn an_agent_at_work_spins_before_its_name() {
    let agent = ready_agent_at_work("Fix it");
    let spans = agent_label_spans(&agent, false, AnimationPhase::default(), &ChromeStyle::default());
    assert_eq!(rendered(&spans), format!("{} Fix it", SPINNER_FRAMES[0]));
}

#[test]
fn widths_add_up_to_at_most_a_screen() {
    assert_eq!(total_cells(&vec![]), 0);
    assert_eq!(total_cells(&vec![3, 0, 4]), 7);
    assert_eq!(total_cells(&vec![65_534]), 65_534);
    assert_eq!(total_cells(&vec![65_534, 2]), u16::MAX);
    assert_eq!(total_cells(&vec![usize::MAX, usize::MAX]), u16::MAX);
}
