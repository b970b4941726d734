//! What an agent is called on its tab, in the navigator and in the title of the
//! host terminal.

use vstd::prelude::*;

use crate::agent::{AgentId, AgentModel, RuntimeAgent};
use crate::geometry::least;
use crate::nav::{NavModel, NavState};
use crate::style::{span_views, ChromeStyle, Color, Span, SpanView, Style};
use crate::text::{decimal, push_decimal};

verus! {

/// Half the period of the attention blink, in milliseconds.
pub const BLINK_HALF_CYCLE_MS: u128 = 1500;

/// How long one frame of the spinner shows, in milliseconds.
pub const SPINNER_FRAME_MS: u128 = 100;

/// The frames of the spinner.
pub const SPINNER_FRAMES: [&'static str; 8] = ["⣾", "⣽", "⣻", "⢿", "⡿", "⣟", "⣯", "⣷"];

/// The palette index of the bright half of the attention blink.
pub const BLINK_BRIGHT: u8 = 252;

/// The palette index of the dim half of the attention blink.
pub const BLINK_DIM: u8 = 247;

/// How many whole milliseconds a duration has.
pub uninterp spec fn duration_millis(d: std::time::Duration) -> u128;

/// `Duration::as_millis`: the whole milliseconds of a duration, by name.
pub assume_specification[ std::time::Duration::as_millis ](d: &std::time::Duration) -> (r: u128)
    ensures
        r == duration_millis(*d),
;

/// The number of terminal cells that `unicode_width::UnicodeWidthStr::width` gives
/// for a text.
pub uninterp spec fn display_width(text: Seq<char>) -> nat;

/// `unicode_width::UnicodeWidthStr::width`: how many terminal cells a text takes,
/// by name.
#[verifier::external_body]
pub(crate) fn unicode_width_of(text: &str) -> (r: usize)
    ensures
        r == display_width(text@),
{
    unicode_width::UnicodeWidthStr::width(text)
}

/// Where the animations are.
#[derive(Clone, Copy, Debug, PartialEq, Eq, Structural)]
pub struct AnimationPhase {
    /// The frame of the spinner.
    pub spinner_frame: usize,
    /// Whether the attention blink is in its bright half.
    pub blink_bright: bool,
}

impl Default for AnimationPhase {
    fn default() -> (r: AnimationPhase)
        ensures
            r == (AnimationPhase { spinner_frame: 0, blink_bright: false }),
    {
        AnimationPhase { spinner_frame: 0, blink_bright: false }
    }
}

/// Where the animations are `ms` milliseconds after they began.
pub open spec fn phase_at(ms: u128) -> AnimationPhase {
    AnimationPhase {
        spinner_frame: (ms as int / SPINNER_FRAME_MS as int % 8) as usize,
        blink_bright: ms as int / BLINK_HALF_CYCLE_MS as int % 2 == 0,
    }
}

/// The spinner glyph of a frame; past the last frame, the last one.
pub open spec fn glyph(phase: AnimationPhase) -> Seq<char> {
    SPINNER_FRAMES[least(phase.spinner_frame as int, 7)]@
}

impl AnimationPhase {
    /// Where the animations are when `elapsed` has passed since they began.
    pub fn from_elapsed(elapsed: std::time::Duration) -> (r: AnimationPhase)
        ensures
            r == phase_at(duration_millis(elapsed)),
    {
        AnimationPhase::from_millis(elapsed.as_millis())
    }

    /// Where the animations are `ms` milliseconds after they began.
    pub fn from_millis(ms: u128) -> (r: AnimationPhase)
        ensures
            r == phase_at(ms),
    {
        AnimationPhase {
            spinner_frame: (ms / SPINNER_FRAME_MS % 8) as usize,
            blink_bright: ms / BLINK_HALF_CYCLE_MS % 2 == 0,
        }
    }

    /// The spinner glyph of this phase.
    pub fn spinner_glyph(self) -> (r: &'static str)
        ensures
            r@ == glyph(self),
    {
        let i: usize = if self.spinner_frame < 7 {
            self.spinner_frame
        } else {
            7
        };
        SPINNER_FRAMES[i]
    }
}

/// The text behind an optional borrowed string.
pub open spec fn text_of(s: Option<&str>) -> Option<Seq<char>> {
    match s {
        Some(text) => Some(text@),
        None => None,
    }
}

/// The text behind an optional string.
pub open spec fn string_text(s: Option<String>) -> Option<Seq<char>> {
    match s {
        Some(text) => Some(text@),
        None => None,
    }
}

/// An optional string, borrowed.
pub fn borrowed(s: &Option<String>) -> (r: Option<&str>)
    ensures
        text_of(r) == string_text(*s),
{
    match s {
        Some(text) => Some(text.as_str()),
        None => None,
    }
}

/// What an agent is doing: its title after its repository, whichever there is,
/// and the fallback when there is neither.
pub open spec fn task_text(
    title: Option<Seq<char>>,
    repo: Option<Seq<char>>,
    fallback: Seq<char>,
) -> Seq<char> {
    match (repo, title) {
        (Some(repo), Some(title)) => repo + ": "@ + title,
        (Some(repo), None) => repo,
        (None, Some(title)) => title,
        (None, None) => fallback,
    }
}

/// What an agent is doing, from its title, its repository and its label.
pub fn body_text(title: Option<&str>, repo: Option<&str>, fallback: &str) -> (r: String)
    ensures
        r@ == task_text(text_of(title), text_of(repo), fallback@),
{
    match (repo, title) {
        (Some(repo), Some(title)) => {
            let mut out = repo.to_owned();
            out.append(": ");
            out.append(title);
            out
        },
        (Some(repo), None) => repo.to_owned(),
        (None, Some(title)) => title.to_owned(),
        (None, None) => fallback.to_owned(),
    }
}

impl<T> AgentModel<T> {
    /// What the agent is doing.
    pub open spec fn task(self) -> Seq<char> {
        task_text(string_text(self.title()), string_text(self.repo), self.label@)
    }
}

/// What an agent is doing.
pub fn agent_body_text<T>(agent: &RuntimeAgent<T>) -> (r: String)
    ensures
        r@ == agent@.task(),
{
    body_text(agent.title(), borrowed(&agent.repo), agent.label.as_str())
}

/// The style of an agent's name: highlighted when focused, blinking while it
/// asks for attention, receding otherwise.
pub open spec fn name_style(
    focused: bool,
    attention: bool,
    phase: AnimationPhase,
    secondary: Style,
) -> Style {
    if focused {
        Style::highlight()
    } else if attention {
        Style::colored(
            Color::Indexed(
                if phase.blink_bright {
                    BLINK_BRIGHT
                } else {
                    BLINK_DIM
                },
            ),
        )
    } else {
        secondary
    }
}

/// The style of an agent's name.
pub fn body_style(
    focused: bool,
    attention: bool,
    phase: AnimationPhase,
    chrome: &ChromeStyle,
) -> (r: Style)
    ensures
        r == name_style(focused, attention, phase, chrome.secondary),
{
    if focused {
        Style::reversed_bold()
    } else if attention {
        let index: u8 = if phase.blink_bright {
            BLINK_BRIGHT
        } else {
            BLINK_DIM
        };
        Style::with_fg(Color::Indexed(index))
    } else {
        chrome.secondary
    }
}

/// The label of an agent: the spinner while it works, its host when it is a
/// remote one, a dot while it asks for attention, and what it is doing.
pub open spec fn label_view(
    host: Option<Seq<char>>,
    body: Seq<char>,
    working: bool,
    attention: bool,
    focused: bool,
    phase: AnimationPhase,
    chrome: ChromeStyle,
) -> Seq<SpanView> {
    let style = name_style(focused, attention, phase, chrome.secondary);
    let spinner = if working {
        seq![
            SpanView {
                content: glyph(phase) + " "@,
                style: if focused {
                    Style::highlight()
                } else {
                    Style::colored(Color::Gray)
                },
            },
        ]
    } else {
        Seq::empty()
    };
    let place = match host {
        Some(host) => seq![
            SpanView {
                content: host + " · "@,
                style: if focused {
                    Style::highlight()
                } else {
                    chrome.accent(host)
                },
            },
        ],
        None => Seq::empty(),
    };
    let dot = if attention {
        seq![SpanView { content: "● "@, style }]
    } else {
        Seq::empty()
    };
    spinner + place + dot + seq![SpanView { content: body, style }]
}

/// The label of an agent, from what it consists of.
pub fn label_spans(
    host: Option<&str>,
    body: &str,
    working: bool,
    attention: bool,
    focused: bool,
    phase: AnimationPhase,
    chrome: &ChromeStyle,
) -> (r: Vec<Span>)
    ensures
        span_views(r@) == label_view(
            text_of(host),
            body@,
            working,
            attention,
            focused,
            phase,
            *chrome,
        ),
{
    let style = body_style(focused, attention, phase, chrome);
    let mut spans: Vec<Span> = Vec::new();
    if working {
        let spinner_style = if focused {
            Style::reversed_bold()
        } else {
            Style::with_fg(Color::Gray)
        };
        let mut content = phase.spinner_glyph().to_owned();
        content.append(" ");
        spans.push(Span::styled(content, spinner_style));
    }
    if let Some(host) = host {
        let host_style = if focused {
            Style::reversed_bold()
        } else {
            chrome.host_style(host)
        };
        let mut content = host.to_owned();
        content.append(" · ");
        spans.push(Span::styled(content, host_style));
    }
    if attention {
        spans.push(Span::styled("● ".to_owned(), style));
    }
    spans.push(Span::styled(body.to_owned(), style));
    assert(span_views(spans@) =~= label_view(
        text_of(host),
        body@,
        working,
        attention,
        focused,
        phase,
        *chrome,
    ));
    spans
}

impl<T> AgentModel<T> {
    /// The label of the agent. A focused agent does not show that it asks for
    /// attention: the user is there.
    pub open spec fn label_view(
        self,
        focused: bool,
        phase: AnimationPhase,
        chrome: ChromeStyle,
    ) -> Seq<SpanView> {
        label_view(
            string_text(self.host),
            self.task(),
            self.working(),
            self.needs_attention && !focused,
            focused,
            phase,
            chrome,
        )
    }
}

/// The label of an agent.
pub fn agent_label_spans<T>(
    agent: &RuntimeAgent<T>,
    focused: bool,
    phase: AnimationPhase,
    chrome: &ChromeStyle,
) -> (r: Vec<Span>)
    ensures
        span_views(r@) == agent@.label_view(focused, phase, *chrome),
{
    let attention = agent.needs_attention && !focused;
    let body = agent_body_text(agent);
    label_spans(
        borrowed(&agent.host),
        body.as_str(),
        agent.is_working(),
        attention,
        focused,
        phase,
        chrome,
    )
}

/// The title for the host terminal: the spinner glyph, if any, the host, if any
/// and not empty, and what the agent is doing.
pub open spec fn title_text(
    host: Option<Seq<char>>,
    body: Seq<char>,
    working_glyph: Option<Seq<char>>,
) -> Seq<char> {
    let prefix = match working_glyph {
        Some(g) => g + " "@,
        None => Seq::empty(),
    };
    match host {
        Some(h) => if h.len() > 0 {
            prefix + h + " · "@ + body
        } else {
            prefix + body
        },
        None => prefix + body,
    }
}

/// The title for the host terminal.
pub fn host_terminal_title(host: Option<&str>, body: &str, working_glyph: Option<&str>) -> (r:
    String)
    ensures
        r@ == title_text(text_of(host), body@, text_of(working_glyph)),
{
    let mut out = String::new();
    if let Some(g) = working_glyph {
        out.append(g);
        out.append(" ");
    }
    assert(out@ =~= match text_of(working_glyph) {
        Some(g) => g + " "@,
        None => Seq::empty(),
    });
    if let Some(h) = host {
        if h.unicode_len() > 0 {
            out.append(h);
            out.append(" · ");
        }
    }
    out.append(body);
    out
}

impl<T> NavModel<T> {
    /// The title for the host terminal: that of the focused agent, with the
    /// spinner while it works.
    pub open spec fn host_title(self, phase: AnimationPhase) -> Option<Seq<char>> {
        match self.focused_agent() {
            Some(agent) => Some(
                title_text(
                    string_text(agent.host),
                    agent.task(),
                    if agent.working() {
                        Some(glyph(phase))
                    } else {
                        None
                    },
                ),
            ),
            None => None,
        }
    }
}

/// The title for the host terminal: that of the focused agent, if there is one.
pub fn host_terminal_title_for_focused<T>(nav: &NavState<T>, phase: AnimationPhase) -> (r: Option<
    String,
>)
    ensures
        string_text(r) == nav@.host_title(phase),
{
    if nav.focused >= nav.agents.len() {
        return None;
    }
    let agent = &nav.agents[nav.focused];
    assert(nav@.focused_agent() == Some(agent@));
    let working_glyph = if agent.is_working() {
        Some(phase.spinner_glyph())
    } else {
        None
    };
    let body = agent_body_text(agent);
    Some(host_terminal_title(borrowed(&agent.host), body.as_str(), working_glyph))
}

/// One tab: the agent it stands for and its text.
pub struct TabSpec {
    pub agent_id: AgentId,
    pub spans: Vec<Span>,
}

/// How many terminal cells the spans take.
pub open spec fn total_width(spans: Seq<SpanView>) -> nat
    decreases spans.len(),
{
    if spans.len() == 0 {
        0
    } else {
        total_width(spans.drop_last()) + display_width(spans.last().content)
    }
}

/// How many terminal cells the spans take, at most the width of a screen.
pub open spec fn spans_width(spans: Seq<SpanView>) -> int {
    least(total_width(spans) as int, u16::MAX as int)
}

/// These numbers together.
pub open spec fn sum(numbers: Seq<usize>) -> nat
    decreases numbers.len(),
{
    if numbers.len() == 0 {
        0
    } else {
        sum(numbers.drop_last()) + numbers.last() as nat
    }
}

/// How many terminal cells texts of these widths take together, at most the width of
/// a screen.
pub fn total_cells(widths: &Vec<usize>) -> (r: u16)
    ensures
        r == least(sum(widths@) as int, u16::MAX as int),
{
    let mut total: usize = 0;
    for i in 0..widths.len()
        invariant
            total == least(sum(widths@.take(i as int)) as int, usize::MAX as int),
    {
        assert(widths@.take(i + 1).drop_last() =~= widths@.take(i as int));
        total = total.saturating_add(widths[i]);
    }
    assert(widths@.take(widths@.len() as int) =~= widths@);
    if total < u16::MAX as usize {
        total as u16
    } else {
        u16::MAX
    }
}

/// How many terminal cells the spans take, at most the width of a screen.
pub fn width_of(spans: &Vec<Span>) -> (r: u16)
    ensures
        r == spans_width(span_views(spans@)),
{
    let ghost views = span_views(spans@);
    let mut widths: Vec<usize> = Vec::new();
    assert(views.take(0) =~= Seq::empty());
    for i in 0..spans.len()
        invariant
            views == span_views(spans@),
            sum(widths@) == total_width(views.take(i as int)),
    {
        let ghost before = widths@;
        assert(views.take(i + 1).drop_last() =~= views.take(i as int));
        assert(views.take(i + 1).last() == views[i as int]);
        widths.push(unicode_width_of(spans[i].content.as_str()));
        assert(widths@.drop_last() =~= before);
    }
    assert(views.take(views.len() as int) =~= views);
    total_cells(&widths)
}

impl TabSpec {
    /// How many terminal cells the tab takes, at most the width of a screen.
    pub fn width(&self) -> (r: u16)
        ensures
            r == spans_width(span_views(self.spans@)),
    {
        width_of(&self.spans)
    }
}

/// The style of a tab's number.
pub open spec fn number_style(focused: bool, secondary: Style) -> Style {
    if focused {
        Style::highlight()
    } else {
        secondary
    }
}

/// The style of a tab's number.
pub fn tab_index_style(focused: bool, chrome: &ChromeStyle) -> (r: Style)
    ensures
        r == number_style(focused, chrome.secondary),
{
    if focused {
        Style::reversed_bold()
    } else {
        chrome.secondary
    }
}

/// The text of the tab at position `i`: its number, counted from one, the
/// agent's label, and a space.
pub open spec fn tab_view<T>(
    agent: AgentModel<T>,
    i: int,
    focused: bool,
    phase: AnimationPhase,
    chrome: ChromeStyle,
) -> Seq<SpanView> {
    let style = number_style(focused, chrome.secondary);
    seq![SpanView { content: " "@ + decimal((i + 1) as nat) + " "@, style }] + agent.label_view(
        focused,
        phase,
        chrome,
    ) + seq![SpanView { content: " "@, style }]
}

/// The tabs of the agents, in order.
pub fn build_tab_strip<T>(
    agents: &Vec<RuntimeAgent<T>>,
    focused: usize,
    phase: AnimationPhase,
    chrome: &ChromeStyle,
) -> (r: Vec<TabSpec>)
    ensures
        r@.len() == agents@.len(),
        forall|i: int|
            0 <= i < r@.len() ==> (#[trigger] r@[i]).agent_id == agents@[i].id && span_views(
                r@[i].spans@,
            ) == tab_view(agents@[i]@, i, i == focused, phase, *chrome),
{
    let mut tabs: Vec<TabSpec> = Vec::new();
    for i in 0..agents.len()
        invariant
            tabs@.len() == i,
            forall|j: int|
                0 <= j < i ==> (#[trigger] tabs@[j]).agent_id == agents@[j].id && span_views(
                    tabs@[j].spans@,
                ) == tab_view(agents@[j]@, j, j == focused, phase, *chrome),
    {
        let focused_tab = i == focused;
        let mut number = " ".to_owned();
        push_decimal(&mut number, i as u64 + 1);
        number.append(" ");
        let mut spans: Vec<Span> = Vec::new();
        spans.push(Span::styled(number, tab_index_style(focused_tab, chrome)));
        let mut label = agent_label_spans(&agents[i], focused_tab, phase, chrome);
        let ghost label_spans = label@;
        spans.append(&mut label);
        spans.push(Span::styled(" ".to_owned(), tab_index_style(focused_tab, chrome)));
        assert(span_views(spans@) =~= tab_view(
            agents@[i as int]@,
            i as int,
            focused_tab,
            phase,
            *chrome,
        )) by {
            assert(span_views(label_spans) == agents@[i as int]@.label_view(
                focused_tab,
                phase,
                *chrome,
            ));
            assert(span_views(spans@) =~= seq![span_views(spans@)[0]] + span_views(label_spans)
                + seq![span_views(spans@).last()]);
        }
        tabs.push(TabSpec { agent_id: agents[i].id.clone(), spans });
    }
    tabs
}

/// The spinner turns once every eight frames, and the blink once every two
/// halves.
pub proof fn animation_is_periodic(ms: u128, turns: u128)
    requires
        ms + turns * 8 * SPINNER_FRAME_MS <= u128::MAX,
        ms + turns * 2 * BLINK_HALF_CYCLE_MS <= u128::MAX,
    ensures
        phase_at((ms + turns * 8 * SPINNER_FRAME_MS) as u128).spinner_frame == phase_at(
            ms,
        ).spinner_frame,
        phase_at((ms + turns * 2 * BLINK_HALF_CYCLE_MS) as u128).blink_bright == phase_at(
            ms,
        ).blink_bright,
        phase_at(ms).spinner_frame < 8,
{
    let t = turns as int;
    let m = ms as int;
    assert((m + t * 8 * 100) / 100 == m / 100 + t * 8);
    assert((m / 100 + t * 8) % 8 == (m / 100) % 8);
    assert((m + t * 2 * 1500) / 1500 == m / 1500 + t * 2);
    assert((m / 1500 + t * 2) % 2 == (m / 1500) % 2);
}

/// A working agent's spinner is the first span of its label, whatever its host.
pub proof fn spinner_comes_first(
    host: Option<Seq<char>>,
    body: Seq<char>,
    attention: bool,
    focused: bool,
    phase: AnimationPhase,
    chrome: ChromeStyle,
)
    ensures
        label_view(host, body, true, attention, focused, phase, chrome)[0].content == glyph(phase)
            + " "@,
        label_view(host, body, true, attention, focused, phase, chrome).last().content == body,
{
}

/// Where the animations are at any time: the spinner shows each of its eight frames
/// for a tenth of a second, and the blink is bright for a second and a half and dim
/// for as long, from the beginning on.
pub proof fn the_animations_follow_the_clock(ms: u128, turn: int, k: int)
    ensures
        0 <= k < 8 && 0 <= turn && 800 * turn + 100 * k <= ms < 800 * turn + 100 * (k + 1)
            ==> phase_at(ms).spinner_frame == k,
        0 <= turn && 3000 * turn <= ms < 3000 * turn + 1500 ==> phase_at(ms).blink_bright,
        0 <= turn && 3000 * turn + 1500 <= ms < 3000 * turn + 3000 ==> !phase_at(ms).blink_bright,
{
    let m = ms as int;
    if 0 <= k < 8 && 0 <= turn && 800 * turn + 100 * k <= m < 800 * turn + 100 * (k + 1) {
        assert(m / 100 == 8 * turn + k);
        assert((8 * turn + k) % 8 == k);
    }
    if 0 <= turn && 3000 * turn <= m < 3000 * turn + 1500 {
        assert(m / 1500 == 2 * turn);
    }
    if 0 <= turn && 3000 * turn + 1500 <= m < 3000 * turn + 3000 {
        assert(m / 1500 == 2 * turn + 1);
    }
}

/// Each frame of the spinner is drawn as its own glyph, and a frame past the last as
/// the last.
pub proof fn each_frame_has_its_glyph(phase: AnimationPhase)
    ensures
        phase.spinner_frame < 8 ==> glyph(phase) == SPINNER_FRAMES[phase.spinner_frame as int]@,
        phase.spinner_frame >= 8 ==> glyph(phase) == SPINNER_FRAMES[7]@,
{
}

/// What an agent is doing is told by its repository, then its title, whichever it has,
/// and by its label when it has neither.
pub proof fn the_task_is_repository_and_title<T>(agent: AgentModel<T>)
    ensures
        agent.repo is None && agent.title() is None ==> agent.task() == agent.label@,
        agent.repo is Some && agent.title() is None ==> agent.task() == agent.repo->0@,
        agent.repo is None && agent.title() is Some ==> agent.task() == agent.title()->0@,
        agent.repo is Some && agent.title() is Some ==> agent.task() == agent.repo->0@ + ": "@
            + agent.title()->0@,
{
}

/// The label of an agent, span by span: the spinner exactly while it works, its host
/// exactly when it has one, the dot exactly while it asks for attention, and always
/// what it is doing, in this order.
pub proof fn a_label_shows_its_parts_in_order(
    host: Option<Seq<char>>,
    body: Seq<char>,
    working: bool,
    attention: bool,
    focused: bool,
    phase: AnimationPhase,
    chrome: ChromeStyle,
)
    ensures
        ({
            let label = label_view(host, body, working, attention, focused, phase, chrome);
            let w: int = if working {
                1
            } else {
                0
            };
            let h: int = if host is Some {
                1
            } else {
                0
            };
            let a: int = if attention {
                1
            } else {
                0
            };
            &&& label.len() == w + h + a + 1
            &&& working ==> label[0].content == glyph(phase) + " "@
            &&& host is Some ==> label[w].content == host->0 + " · "@
            &&& attention ==> label[w + h].content == "● "@
            &&& label[w + h + a].content == body
        }),
{
}

/// How a label is drawn: on the focused tab all of it is highlighted. Elsewhere the
/// name blinks while it asks for attention and recedes otherwise, the spinner is gray,
/// and the host has its own color.
pub proof fn a_label_is_drawn_by_what_it_says(
    host: Option<Seq<char>>,
    body: Seq<char>,
    working: bool,
    attention: bool,
    phase: AnimationPhase,
    chrome: ChromeStyle,
    i: int,
)
    ensures
        ({
            let label = label_view(host, body, working, attention, true, phase, chrome);
            0 <= i < label.len() ==> label[i].style == Style::highlight()
        }),
        ({
            let label = label_view(host, body, working, attention, false, phase, chrome);
            let w: int = if working {
                1
            } else {
                0
            };
            &&& working ==> label[0].style == Style::colored(Color::Gray)
            &&& host is Some ==> label[w].style == chrome.accent(host->0)
            &&& !attention ==> label.last().style == chrome.secondary
            &&& attention && phase.blink_bright ==> label.last().style == Style::colored(
                Color::Indexed(252),
            )
            &&& attention && !phase.blink_bright ==> label.last().style == Style::colored(
                Color::Indexed(247),
            )
            &&& attention ==> label[label.len() - 2].style == label.last().style
        }),
{
}

/// The label of an agent is made of what the agent is: its host, what it is doing,
/// whether it works and whether it asks for attention, which a focused one never
/// shows.
pub proof fn a_label_is_that_of_its_agent<T>(
    agent: AgentModel<T>,
    phase: AnimationPhase,
    chrome: ChromeStyle,
)
    ensures
        agent.label_view(true, phase, chrome) == label_view(
            match agent.host {
                Some(host) => Some(host@),
                None => None,
            },
            agent.task(),
            agent.working(),
            false,
            true,
            phase,
            chrome,
        ),
        agent.label_view(false, phase, chrome) == label_view(
            match agent.host {
                Some(host) => Some(host@),
                None => None,
            },
            agent.task(),
            agent.working(),
            agent.needs_attention,
            false,
            phase,
            chrome,
        ),
{
}

/// The title of the host terminal ends with what the focused agent is doing, after
/// its host where it has one with a name, after the spinner while it works. Without an
/// agent there is none.
pub proof fn the_title_is_that_of_the_focused_agent<T>(nav: NavModel<T>, phase: AnimationPhase)
    ensures
        nav.focused >= nav.agents.len() ==> nav.host_title(phase) is None,
        nav.focused < nav.agents.len() ==> {
            let agent = nav.agents[nav.focused as int];
            let place = if agent.host is Some && agent.host->0@.len() > 0 {
                agent.host->0@ + " · "@
            } else {
                Seq::empty()
            };
            let spinner = if agent.working() {
                glyph(phase) + " "@
            } else {
                Seq::empty()
            };
            nav.host_title(phase) == Some(spinner + (place + agent.task()))
        },
{
    if nav.focused < nav.agents.len() {
        let agent = nav.agents[nav.focused as int];
        let place = if agent.host is Some && agent.host->0@.len() > 0 {
            agent.host->0@ + " · "@
        } else {
            Seq::empty()
        };
        let spinner = if agent.working() {
            glyph(phase) + " "@
        } else {
            Seq::empty()
        };
        assert(nav.host_title(phase)->0 =~= spinner + (place + agent.task()));
    }
}

/// Spans take as many cells as their texts together, each counted once, up to the
/// width of the widest screen.
pub proof fn widths_add_up(spans: Seq<SpanView>, last: SpanView)
    ensures
        total_width(Seq::empty()) == 0,
        total_width(spans.push(last)) == total_width(spans) + display_width(last.content),
        total_width(spans) <= 65535 ==> spans_width(spans) == total_width(spans),
        total_width(spans) > 65535 ==> spans_width(spans) == 65535,
{
    assert(spans.push(last).drop_last() =~= spans);
}

/// Optional text is the text that is there.
pub proof fn optional_text_is_the_text(s: &str, t: String)
    ensures
        text_of(Some(s)) == Some(s@),
        text_of(None) is None,
        string_text(Some(t)) == Some(t@),
        string_text(None) is None,
{
}

/// Widths are added up one by one.
pub proof fn sums_add_up(numbers: Seq<usize>, last: usize)
    ensures
        sum(Seq::empty()) == 0,
        sum(numbers.push(last)) == sum(numbers) + last,
{
    assert(numbers.push(last).drop_last() =~= numbers);
}

/// The number on a tab, and the tab itself, are those of its position, highlighted on
/// the focused tab and receding on the others.
pub proof fn a_tab_has_the_number_of_its_place<T>(
    agent: AgentModel<T>,
    i: int,
    phase: AnimationPhase,
    chrome: ChromeStyle,
)
    requires
        i >= 0,
    ensures
        number_style(true, chrome.secondary) == Style::highlight(),
        number_style(false, chrome.secondary) == chrome.secondary,
        tab_view(agent, i, true, phase, chrome)[0].content == " "@ + decimal((1 + i) as nat)
            + " "@,
        tab_view(agent, i, false, phase, chrome)[0].content == " "@ + decimal((1 + i) as nat)
            + " "@,
        tab_view(agent, i, true, phase, chrome)[0].style == Style::highlight(),
        tab_view(agent, i, false, phase, chrome)[0].style == chrome.secondary,
{
}

} // verus!
