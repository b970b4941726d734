//! Styled text: colors, styles, spans, and the styles of the chrome around the
//! agent pane.

use vstd::prelude::*;

verus! {

/// A terminal color.
#[derive(Clone, Copy, Debug, PartialEq, Eq, Structural)]
pub enum Color {
    Reset,
    Black,
    Red,
    Green,
    Yellow,
    Blue,
    Magenta,
    Cyan,
    Gray,
    DarkGray,
    LightRed,
    LightGreen,
    LightYellow,
    LightBlue,
    LightMagenta,
    LightCyan,
    White,
    Rgb(u8, u8, u8),
    Indexed(u8),
}

/// How a piece of text is drawn. What is not set is left as it is.
#[derive(Clone, Copy, Debug, PartialEq, Eq, Structural)]
pub struct Style {
    pub fg: Option<Color>,
    pub bg: Option<Color>,
    pub bold: bool,
    pub dim: bool,
    pub reversed: bool,
}

impl Style {
    /// Nothing set.
    pub open spec fn plain() -> Style {
        Style { fg: None, bg: None, bold: false, dim: false, reversed: false }
    }

    /// Only the foreground color set.
    pub open spec fn colored(color: Color) -> Style {
        Style { fg: Some(color), ..Style::plain() }
    }

    /// Reverse video and bold: the focused tab.
    pub open spec fn highlight() -> Style {
        Style { bold: true, reversed: true, ..Style::plain() }
    }

    /// Nothing set.
    pub fn none() -> (r: Style)
        ensures
            r == Style::plain(),
    {
        Style { fg: None, bg: None, bold: false, dim: false, reversed: false }
    }

    /// Only the foreground color set.
    pub fn with_fg(color: Color) -> (r: Style)
        ensures
            r == Style::colored(color),
    {
        Style { fg: Some(color), bg: None, bold: false, dim: false, reversed: false }
    }

    /// Reverse video and bold: the focused tab.
    pub fn reversed_bold() -> (r: Style)
        ensures
            r == Style::highlight(),
    {
        Style { fg: None, bg: None, bold: true, dim: false, reversed: true }
    }
}

/// A piece of text in one style.
#[derive(Debug, PartialEq, Eq)]
pub struct Span {
    pub content: String,
    pub style: Style,
}

/// A piece of text in one style, the text as a sequence.
pub struct SpanView {
    pub content: Seq<char>,
    pub style: Style,
}

impl View for Span {
    type V = SpanView;

    open spec fn view(&self) -> SpanView {
        SpanView { content: self.content@, style: self.style }
    }
}

impl Clone for Span {
    fn clone(&self) -> (r: Span)
        ensures
            r == *self,
    {
        Span { content: self.content.clone(), style: self.style }
    }
}

impl Span {
    /// `content` in `style`.
    pub fn styled(content: String, style: Style) -> (r: Span)
        ensures
            r@ == (SpanView { content: content@, style }),
    {
        Span { content, style }
    }

    /// `content` with no style of its own.
    pub fn raw(content: String) -> (r: Span)
        ensures
            r@ == (SpanView { content: content@, style: Style::plain() }),
    {
        Span { content, style: Style::none() }
    }
}

/// The spans of a line, their text as sequences.
pub open spec fn span_views(spans: Seq<Span>) -> Seq<SpanView> {
    spans.map_values(|s: Span| s@)
}

/// A color as the configuration gives it.
#[derive(Clone, Copy, Debug, PartialEq, Eq, Structural)]
pub enum ChromeColor {
    Named(Color),
    Indexed(u8),
    Rgb(u8, u8, u8),
}

impl ChromeColor {
    /// The terminal color it stands for.
    pub open spec fn color(self) -> Color {
        match self {
            ChromeColor::Named(color) => color,
            ChromeColor::Indexed(n) => Color::Indexed(n),
            ChromeColor::Rgb(r, g, b) => Color::Rgb(r, g, b),
        }
    }

    /// The terminal color it stands for.
    pub fn to_color(self) -> (r: Color)
        ensures
            r == self.color(),
    {
        match self {
            ChromeColor::Named(color) => color,
            ChromeColor::Indexed(n) => Color::Indexed(n),
            ChromeColor::Rgb(r, g, b) => Color::Rgb(r, g, b),
        }
    }
}

/// The color configured for one host.
pub struct HostColor {
    pub host: String,
    pub color: ChromeColor,
}

/// What the configuration says about the chrome.
pub struct Ui {
    /// Draw the chrome dimmed.
    pub subtle: bool,
    /// Colors of hosts.
    pub host_colors: Vec<HostColor>,
}

impl Default for Ui {
    fn default() -> (r: Ui)
        ensures
            !r.subtle,
            r.host_colors@ == Seq::<HostColor>::empty(),
    {
        Ui { subtle: false, host_colors: Vec::new() }
    }
}

/// The style of one host's name.
pub struct HostStyle {
    pub host: String,
    pub style: Style,
}

/// The styles of the chrome.
pub struct ChromeStyle {
    /// What is meant to recede: separators, hints, unfocused tabs.
    pub secondary: Style,
    /// Styles of host names.
    pub host_styles: Vec<HostStyle>,
}

/// The style of what recedes.
pub open spec fn secondary_style(subtle: bool) -> Style {
    if subtle {
        Style { dim: true, ..Style::colored(Color::DarkGray) }
    } else {
        Style::colored(Color::Indexed(247))
    }
}

/// The style set for `host`, or `otherwise` when none is.
pub open spec fn style_of_host(styles: Seq<HostStyle>, host: Seq<char>, otherwise: Style) -> Style
    decreases styles.len(),
{
    if styles.len() == 0 {
        otherwise
    } else if styles[0].host@ == host {
        styles[0].style
    } else {
        style_of_host(styles.skip(1), host, otherwise)
    }
}

impl ChromeStyle {
    /// The style of a host's name on an unfocused tab: the configured color, and
    /// else the style of what recedes.
    pub open spec fn accent(self, host: Seq<char>) -> Style {
        style_of_host(self.host_styles@, host, self.secondary)
    }

    /// The styles that the configuration asks for.
    pub fn from_ui(ui: &Ui) -> (r: ChromeStyle)
        ensures
            r.secondary == secondary_style(ui.subtle),
            r.host_styles@ == ui.host_colors@.map_values(
                |h: HostColor| HostStyle { host: h.host, style: Style::colored(h.color.color()) },
            ),
    {
        let secondary = if ui.subtle {
            let mut s = Style::with_fg(Color::DarkGray);
            s.dim = true;
            s
        } else {
            Style::with_fg(Color::Indexed(247))
        };
        let ghost wanted = ui.host_colors@.map_values(
            |h: HostColor| HostStyle { host: h.host, style: Style::colored(h.color.color()) },
        );
        let mut host_styles: Vec<HostStyle> = Vec::new();
        for i in 0..ui.host_colors.len()
            invariant
                wanted == ui.host_colors@.map_values(
                    |h: HostColor| HostStyle {
                        host: h.host,
                        style: Style::colored(h.color.color()),
                    },
                ),
                host_styles@ == wanted.take(i as int),
        {
            let entry = &ui.host_colors[i];
            host_styles.push(
                HostStyle {
                    host: entry.host.clone(),
                    style: Style::with_fg(entry.color.to_color()),
                },
            );
            assert(host_styles@ =~= wanted.take(i + 1));
        }
        assert(wanted.take(wanted.len() as int) =~= wanted);
        ChromeStyle { secondary, host_styles }
    }

    /// The style of a host's name on an unfocused tab.
    pub fn host_style(&self, host: &str) -> (r: Style)
        ensures
            r == self.accent(host@),
    {
        let wanted = host.to_owned();
        assert(self.host_styles@.skip(0) =~= self.host_styles@);
        for i in 0..self.host_styles.len()
            invariant
                wanted@ == host@,
                style_of_host(self.host_styles@.skip(i as int), host@, self.secondary)
                    == self.accent(host@),
        {
            let ghost rest = self.host_styles@.skip(i as int);
            assert(rest[0] == self.host_styles@[i as int]);
            assert(rest.skip(1) =~= self.host_styles@.skip(i + 1));
            if self.host_styles[i].host == wanted {
                return self.host_styles[i].style;
            }
        }
        self.secondary
    }
}

impl Default for ChromeStyle {
    fn default() -> (r: ChromeStyle)
        ensures
            r.secondary == secondary_style(false),
            r.host_styles@ == Seq::<HostStyle>::empty(),
    {
        let r = ChromeStyle::from_ui(&Ui::default());
        assert(r.host_styles@ =~= Seq::<HostStyle>::empty());
        r
    }
}

/// The color of a host's name is that of the first entry for it, and without any its
/// name recedes like the rest. What is configured for other hosts makes no difference.
pub proof fn the_first_color_of_a_host_counts(chrome: ChromeStyle, host: Seq<char>, i: int)
    ensures
        ({
            let styles = chrome.host_styles@;
            &&& 0 <= i < styles.len() && styles[i].host@ == host && (forall|j: int|
                0 <= j < i ==> (#[trigger] styles[j]).host@ != host) ==> chrome.accent(host)
                == styles[i].style
            &&& (forall|j: int| 0 <= j < styles.len() ==> (#[trigger] styles[j]).host@ != host)
                ==> chrome.accent(host) == chrome.secondary
        }),
{
    the_first_style_counts(chrome.host_styles@, host, chrome.secondary, i);
}

proof fn the_first_style_counts(
    styles: Seq<HostStyle>,
    host: Seq<char>,
    otherwise: Style,
    i: int,
)
    ensures
        0 <= i < styles.len() && styles[i].host@ == host && (forall|j: int|
            0 <= j < i ==> (#[trigger] styles[j]).host@ != host) ==> style_of_host(
            styles,
            host,
            otherwise,
        ) == styles[i].style,
        (forall|j: int| 0 <= j < styles.len() ==> (#[trigger] styles[j]).host@ != host)
            ==> style_of_host(styles, host, otherwise) == otherwise,
    decreases styles.len(),
{
    if styles.len() > 0 {
        let rest = styles.skip(1);
        the_first_style_counts(rest, host, otherwise, i - 1);
        assert forall|j: int| 0 <= j < rest.len() implies #[trigger] rest[j] == styles[j
            + 1] by {}
        if forall|j: int| 0 <= j < styles.len() ==> (#[trigger] styles[j]).host@ != host {
            assert forall|j: int| 0 <= j < rest.len() implies (#[trigger] rest[j]).host@
                != host by {
                assert(styles[j + 1].host@ != host);
            }
        }
        if 0 < i < styles.len() && styles[i].host@ == host && (forall|j: int|
            0 <= j < i ==> (#[trigger] styles[j]).host@ != host) {
            assert(styles[0].host@ != host);
            assert forall|j: int| 0 <= j < i - 1 implies (#[trigger] rest[j]).host@ != host by {
                assert(styles[j + 1].host@ != host);
            }
        }
    }
}

/// What the named styles set: nothing, the color of the text only, and reverse video
/// with bold. What recedes is a gray, and a darker, dimmed one where that was asked
/// for. A configured color is the terminal's color of that kind.
pub proof fn styles_set_what_they_say(color: Color, n: u8, g: u8, b: u8)
    ensures
        Style::plain().fg is None && Style::plain().bg is None && !Style::plain().bold
            && !Style::plain().dim && !Style::plain().reversed,
        Style::colored(color) == (Style { fg: Some(color), ..Style::plain() }),
        Style::highlight().reversed && Style::highlight().bold && !Style::highlight().dim
            && Style::highlight().fg is None && Style::highlight().bg is None,
        secondary_style(false) == (Style { fg: Some(Color::Indexed(247)), ..Style::plain() }),
        secondary_style(true) == (Style {
            fg: Some(Color::DarkGray),
            dim: true,
            ..Style::plain()
        }),
        ChromeColor::Named(color).color() == color,
        ChromeColor::Indexed(n).color() == Color::Indexed(n),
        ChromeColor::Rgb(n, g, b).color() == Color::Rgb(n, g, b),
{
}

} // verus!
