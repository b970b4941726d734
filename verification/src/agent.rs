//! Agents: their identity, their terminal and their life cycle.

use vstd::prelude::*;

use crate::geometry::{least, monus};
use crate::screen::{
    blank_screen, fed, fed_all, fresh, new_parser, screen_view, scrollback, scrolled,
    set_scrollback, set_size, with_size, PaneParser, ScreenView,
};

verus! {

/// The identity of an agent, the same for its whole life wherever it stands in
/// the navigator.
#[derive(Debug, PartialEq, Eq, Hash)]
pub struct AgentId {
    pub name: String,
}

impl View for AgentId {
    type V = Seq<char>;

    open spec fn view(&self) -> Seq<char> {
        self.name@
    }
}

impl Clone for AgentId {
    fn clone(&self) -> (r: AgentId)
        ensures
            r == *self,
    {
        AgentId { name: self.name.clone() }
    }
}

impl AgentId {
    /// The identity written `name`.
    pub fn new(name: &str) -> (r: AgentId)
        ensures
            r@ == name@,
    {
        AgentId { name: name.to_owned() }
    }

    /// Whether both are the same identity.
    pub fn same(&self, other: &AgentId) -> (r: bool)
        ensures
            r == (self@ == other@),
    {
        self.name == other.name
    }
}

/// The model an agent runs, and how hard it is told to think.
#[derive(Debug, PartialEq, Eq)]
pub struct ModelEffort {
    pub model: String,
    pub effort: Option<String>,
}

/// What the window title of the agent's foreground program said last: the title
/// without its status glyph, and whether that glyph meant that it is working.
#[derive(Debug, PartialEq, Eq)]
pub struct TitleCapture {
    pub title: Option<String>,
    pub working: bool,
}

/// The state of an agent. A live one is ready; one whose process ended badly is
/// crashed and keeps its last screen; one that never came up is failed.
pub enum AgentState<T> {
    Failed { error: String },
    Ready { parser: PaneParser, title: TitleCapture, transport: T },
    Crashed { parser: PaneParser, title: TitleCapture, exit_code: i32 },
}

/// An agent.
pub struct RuntimeAgent<T> {
    /// The agent's identity.
    pub id: AgentId,
    /// What it is called until its program sets a title.
    pub label: String,
    /// The repository it works in, if known.
    pub repo: Option<String>,
    /// The directory it was started in, for local agents.
    pub cwd: Option<String>,
    /// The host it runs on, for remote agents.
    pub host: Option<String>,
    /// The model and effort last reported for it.
    pub model_effort: Option<ModelEffort>,
    /// The git branch last reported for it.
    pub branch: Option<String>,
    /// Whether it was working when last looked at.
    pub last_working: bool,
    /// Whether it finished something while the user was elsewhere.
    pub needs_attention: bool,
    /// Rows of its pane.
    pub rows: u16,
    /// Columns of its pane.
    pub cols: u16,
    pub state: AgentState<T>,
}

/// The state of an agent: its emulator comes with what the screen of it holds.
pub enum StateModel<T> {
    Failed { error: String },
    Ready { parser: PaneParser, screen: ScreenView, title: TitleCapture, transport: T },
    Crashed { parser: PaneParser, screen: ScreenView, title: TitleCapture, exit_code: i32 },
}

/// An agent: its emulator comes with what the screen of it holds.
pub struct AgentModel<T> {
    pub id: AgentId,
    pub label: String,
    pub repo: Option<String>,
    pub cwd: Option<String>,
    pub host: Option<String>,
    pub model_effort: Option<ModelEffort>,
    pub branch: Option<String>,
    pub last_working: bool,
    pub needs_attention: bool,
    pub rows: u16,
    pub cols: u16,
    pub state: StateModel<T>,
}

impl<T> View for AgentState<T> {
    type V = StateModel<T>;

    open spec fn view(&self) -> StateModel<T> {
        match *self {
            AgentState::Failed { error } => StateModel::Failed { error },
            AgentState::Ready { parser, title, transport } => StateModel::Ready {
                parser,
                screen: screen_view(parser),
                title,
                transport,
            },
            AgentState::Crashed { parser, title, exit_code } => StateModel::Crashed {
                parser,
                screen: screen_view(parser),
                title,
                exit_code,
            },
        }
    }
}

impl<T> View for RuntimeAgent<T> {
    type V = AgentModel<T>;

    open spec fn view(&self) -> AgentModel<T> {
        AgentModel {
            id: self.id,
            label: self.label,
            repo: self.repo,
            cwd: self.cwd,
            host: self.host,
            model_effort: self.model_effort,
            branch: self.branch,
            last_working: self.last_working,
            needs_attention: self.needs_attention,
            rows: self.rows,
            cols: self.cols,
            state: self.state@,
        }
    }
}

impl<T> StateModel<T> {
    /// What the agent's screen holds: a live one's, or a crashed one's last.
    pub open spec fn screen(self) -> Option<ScreenView> {
        match self {
            StateModel::Ready { screen, .. } => Some(screen),
            StateModel::Crashed { screen, .. } => Some(screen),
            StateModel::Failed { .. } => None,
        }
    }

    /// The agent's emulator: a live one's, or a crashed one's as it was left.
    pub open spec fn emulator(self) -> Option<PaneParser> {
        match self {
            StateModel::Ready { parser, .. } => Some(parser),
            StateModel::Crashed { parser, .. } => Some(parser),
            StateModel::Failed { .. } => None,
        }
    }

    /// The same state with another emulator and what the screen of that holds,
    /// where there is one.
    pub open spec fn with_emulator(self, parser: PaneParser, screen: ScreenView) -> StateModel<T> {
        match self {
            StateModel::Ready { title, transport, .. } => StateModel::Ready {
                parser,
                screen,
                title,
                transport,
            },
            StateModel::Crashed { title, exit_code, .. } => StateModel::Crashed {
                parser,
                screen,
                title,
                exit_code,
            },
            StateModel::Failed { error } => StateModel::Failed { error },
        }
    }

    /// The same state with its view scrolled back by `rows`, as far as the history
    /// goes. Where the view is there already the emulator is left alone.
    pub open spec fn scrolled_to(self, rows: nat) -> StateModel<T> {
        match (self.emulator(), self.screen()) {
            (Some(parser), Some(screen)) => self.with_emulator(
                if screen.shows_from(rows) {
                    parser
                } else {
                    scrolled(parser, rows)
                },
                screen.scrolled_to(rows),
            ),
            _ => self,
        }
    }

    /// The same state with a screen of another size.
    pub open spec fn resized(self, rows: u16, cols: u16) -> StateModel<T> {
        match (self.emulator(), self.screen()) {
            (Some(parser), Some(screen)) => self.with_emulator(
                with_size(parser, rows, cols),
                screen.resized(rows, cols),
            ),
            _ => self,
        }
    }

    /// The same state after these chunks of output: they go to a live agent's
    /// emulator in order, and to nothing once it is no longer live.
    pub open spec fn with_output(self, chunks: Seq<Vec<u8>>) -> StateModel<T> {
        match self {
            StateModel::Ready { parser, screen, .. } => self.with_emulator(
                fed_all(parser, chunks),
                if chunks.len() == 0 {
                    screen
                } else {
                    screen_view(fed_all(parser, chunks))
                },
            ),
            _ => self,
        }
    }
}

/// `a` moved by `delta`, stopping at zero and at the largest `usize`.
pub open spec fn nudged(a: int, delta: int) -> int {
    least(monus(a + delta, 0), usize::MAX as int)
}

impl<T> AgentModel<T> {
    /// How many rows the agent's view is scrolled back.
    pub open spec fn offset(self) -> nat {
        match self.state.screen() {
            Some(screen) => screen.offset,
            None => 0,
        }
    }

    /// The agent with its view scrolled back by `rows`, as far as its history
    /// goes; unchanged without a screen.
    pub open spec fn scrolled_to(self, rows: nat) -> AgentModel<T> {
        AgentModel { state: self.state.scrolled_to(rows), ..self }
    }

    /// The agent with its view moved by `delta` rows, into the history when
    /// positive.
    pub open spec fn nudged_by(self, delta: int) -> AgentModel<T> {
        self.scrolled_to(nudged(self.offset() as int, delta) as nat)
    }

    /// The agent in a pane of another size.
    pub open spec fn resized(self, rows: u16, cols: u16) -> AgentModel<T> {
        AgentModel { rows, cols, state: self.state.resized(rows, cols), ..self }
    }

    /// The agent after its process ended with `exit_code`: a ready one is
    /// crashed and keeps its emulator and title, another stays what it is.
    pub open spec fn crashed(self, exit_code: i32) -> AgentModel<T> {
        AgentModel {
            state: match self.state {
                StateModel::Ready { parser, screen, title, .. } => StateModel::Crashed {
                    parser,
                    screen,
                    title,
                    exit_code,
                },
                other => other,
            },
            ..self
        }
    }

    /// The title its program set, if any.
    pub open spec fn title(self) -> Option<String> {
        match self.state {
            StateModel::Ready { title, .. } => title.title,
            StateModel::Crashed { title, .. } => title.title,
            StateModel::Failed { .. } => None,
        }
    }

    /// Whether its program is at work: only a live one's can be.
    pub open spec fn working(self) -> bool {
        match self.state {
            StateModel::Ready { title, .. } => title.working,
            _ => false,
        }
    }

    /// The agent after its program printed these chunks.
    pub open spec fn with_output(self, chunks: Seq<Vec<u8>>) -> AgentModel<T> {
        AgentModel { state: self.state.with_output(chunks), ..self }
    }

    /// Whether whatever its program prints can be shown: it prints only while it
    /// is live.
    pub open spec fn takes_output(self) -> bool {
        match self.state {
            StateModel::Ready { screen, .. } => screen.takes_output(),
            _ => true,
        }
    }
}

impl<T> AgentState<T> {
    /// The emulator whose screen is drawn: a live agent's, or a crashed one's
    /// with its last screen.
    pub fn screen(&self) -> (r: Option<&PaneParser>)
        ensures
            match (r, self@.screen()) {
                (Some(parser), Some(screen)) => screen_view(*parser) == screen
                    && self@.emulator() == Some(*parser),
                (None, None) => true,
                _ => false,
            },
    {
        match self {
            AgentState::Ready { parser, .. } => Some(parser),
            AgentState::Crashed { parser, .. } => Some(parser),
            AgentState::Failed { .. } => None,
        }
    }

    /// Whether the agent never came up.
    pub fn is_failed(&self) -> (r: bool)
        ensures
            r == (self@ is Failed),
    {
        match self {
            AgentState::Failed { .. } => true,
            _ => false,
        }
    }
}

impl<T> RuntimeAgent<T> {
    /// A live agent with a blank screen.
    pub fn ready(
        id: AgentId,
        label: String,
        repo: Option<String>,
        cwd: Option<String>,
        host: Option<String>,
        transport: T,
        rows: u16,
        cols: u16,
        scrollback_len: usize,
    ) -> (r: RuntimeAgent<T>)
        requires
            rows > 0,
        ensures
            r@ == (AgentModel {
                id,
                label,
                repo,
                cwd,
                host,
                model_effort: None,
                branch: None,
                last_working: false,
                needs_attention: false,
                rows,
                cols,
                state: StateModel::Ready {
                    parser: fresh(rows, cols, scrollback_len as nat),
                    screen: blank_screen(rows, cols, scrollback_len as nat),
                    title: (TitleCapture { title: None, working: false }),
                    transport,
                },
            }),
    {
        RuntimeAgent {
            id,
            label,
            repo,
            cwd,
            host,
            model_effort: None,
            branch: None,
            last_working: false,
            needs_attention: false,
            rows,
            cols,
            state: AgentState::Ready {
                parser: new_parser(rows, cols, scrollback_len),
                title: TitleCapture { title: None, working: false },
                transport,
            },
        }
    }

    /// An agent that never came up, with the message that says why.
    pub fn failed(
        id: AgentId,
        label: String,
        repo: Option<String>,
        cwd: Option<String>,
        host: String,
        error: String,
        rows: u16,
        cols: u16,
    ) -> (r: RuntimeAgent<T>)
        ensures
            r@ == (AgentModel::<T> {
                id,
                label,
                repo,
                cwd,
                host: Some(host),
                model_effort: None,
                branch: None,
                last_working: false,
                needs_attention: false,
                rows,
                cols,
                state: StateModel::Failed { error },
            }),
    {
        RuntimeAgent {
            id,
            label,
            repo,
            cwd,
            host: Some(host),
            model_effort: None,
            branch: None,
            last_working: false,
            needs_attention: false,
            rows,
            cols,
            state: AgentState::Failed { error },
        }
    }

    /// How many rows the agent's view is scrolled back.
    pub fn scrollback_offset(&self) -> (r: usize)
        ensures
            r == self@.offset(),
    {
        match self.state.screen() {
            Some(parser) => scrollback(parser),
            None => 0,
        }
    }

    /// Scrolls the agent's view back by `rows`, as far as its history goes.
    fn scroll_to(&mut self, rows: usize)
        ensures
            final(self)@ == old(self)@.scrolled_to(rows as nat),
    {
        match &mut self.state {
            AgentState::Ready { parser, .. } => set_scrollback(parser, rows),
            AgentState::Crashed { parser, .. } => set_scrollback(parser, rows),
            AgentState::Failed { .. } => {},
        }
    }

    /// Moves the agent's view by `delta` rows: into the history when positive,
    /// towards the live screen when negative.
    pub fn nudge_scrollback(&mut self, delta: i32)
        ensures
            final(self)@ == old(self)@.nudged_by(delta as int),
    {
        let offset: usize = self.scrollback_offset();
        let next: usize = if delta >= 0 {
            offset.saturating_add(delta as usize)
        } else {
            let back: u32 = (-(delta as i64)) as u32;
            offset.saturating_sub(back as usize)
        };
        self.scroll_to(next);
    }

    /// Brings the live screen back into view.
    pub fn snap_to_live(&mut self)
        ensures
            final(self)@ == old(self)@.scrolled_to(0),
    {
        self.scroll_to(0);
    }

    /// Scrolls to the top of the history.
    pub fn jump_to_top(&mut self)
        ensures
            final(self)@ == old(self)@.scrolled_to(usize::MAX as nat),
    {
        self.scroll_to(usize::MAX);
    }

    /// The title the agent's program set, if any.
    pub fn title(&self) -> (r: Option<&str>)
        ensures
            match (r, self@.title()) {
                (Some(text), Some(title)) => text@ == title@,
                (None, None) => true,
                _ => false,
            },
    {
        let title = match &self.state {
            AgentState::Ready { title, .. } => &title.title,
            AgentState::Crashed { title, .. } => &title.title,
            AgentState::Failed { .. } => return None,
        };
        match title {
            Some(text) => Some(text.as_str()),
            None => None,
        }
    }

    /// Whether the agent's program is at work.
    pub fn is_working(&self) -> (r: bool)
        ensures
            r == self@.working(),
    {
        match &self.state {
            AgentState::Ready { title, .. } => title.working,
            _ => false,
        }
    }

    /// Turns a live agent into a crashed one that keeps its emulator. Does nothing
    /// to an agent that is no longer live.
    pub fn mark_crashed(&mut self, exit_code: i32)
        ensures
            final(self)@ == old(self)@.crashed(exit_code),
    {
        let mut prior = AgentState::Failed { error: String::new() };
        std::mem::swap(&mut prior, &mut self.state);
        self.state =
        match prior {
            AgentState::Ready { parser, title, .. } => AgentState::Crashed {
                parser,
                title,
                exit_code,
            },
            other => other,
        };
    }

    /// Gives the agent's pane another size. A screen needs at least one cell.
    pub fn resize(&mut self, rows: u16, cols: u16)
        requires
            old(self)@.state.screen() is Some ==> rows > 0 && cols > 0,
        ensures
            final(self)@ == old(self)@.resized(rows, cols),
    {
        self.rows = rows;
        self.cols = cols;
        match &mut self.state {
            AgentState::Ready { parser, .. } => set_size(parser, rows, cols),
            AgentState::Crashed { parser, .. } => set_size(parser, rows, cols),
            AgentState::Failed { .. } => {},
        }
    }

    /// Shows what the agent's program printed, chunk after chunk. One that is no
    /// longer live keeps its last screen.
    pub fn take_output(&mut self, chunks: &Vec<Vec<u8>>)
        requires
            old(self)@.takes_output(),
        ensures
            final(self)@ == old(self)@.with_output(chunks@),
            final(self)@.takes_output(),
            old(self)@.offset() == 0 ==> final(self)@.offset() == 0,
    {
        match &mut self.state {
            AgentState::Ready { parser, .. } => parser.feed(chunks),
            _ => {},
        }
    }

    /// Records the title the agent's program set last, and whether it says that
    /// the program is at work. Only a live agent has a program.
    pub fn set_title(&mut self, capture: TitleCapture)
        ensures
            final(self)@ == (AgentModel {
                state: match old(self)@.state {
                    StateModel::Ready { parser, screen, transport, .. } => StateModel::Ready {
                        parser,
                        screen,
                        title: capture,
                        transport,
                    },
                    other => other,
                },
                ..old(self)@
            }),
    {
        match &mut self.state {
            AgentState::Ready { title, .. } => {
                *title = capture;
            },
            _ => {},
        }
    }
}

/// Crashing is final: a second exit code changes nothing, and neither does one
/// for an agent that never came up. A crashed agent keeps its emulator, what the
/// screen of that holds, and its title, and is never at work.
pub proof fn crashing_is_final<T>(agent: AgentModel<T>, first: i32, second: i32)
    ensures
        agent.crashed(first).crashed(second) == agent.crashed(first),
        agent.state is Failed ==> agent.crashed(first) == agent,
        agent.crashed(first).state.emulator() == agent.state.emulator(),
        agent.crashed(first).state.screen() == agent.state.screen(),
        agent.crashed(first).title() == agent.title(),
        !agent.crashed(first).working(),
{
}

/// Output changes the emulator of a live agent and nothing else of it, and an agent
/// that is no longer live not at all.
pub proof fn output_changes_only_the_emulator<T>(agent: AgentModel<T>, chunks: Seq<Vec<u8>>)
    ensures
        ({
            let after = agent.with_output(chunks);
            &&& agent.state is Ready ==> after == (AgentModel {
                state: agent.state.with_emulator(
                    fed_all(agent.state.emulator()->0, chunks),
                    after.state.screen()->0,
                ),
                ..agent
            })
            &&& !(agent.state is Ready) ==> after == agent
            &&& agent.with_output(Seq::empty()) == agent
        }),
{
}

/// What was printed before comes before what is printed after: giving output in two
/// parts is giving it whole.
pub proof fn output_is_taken_in_order<T>(
    agent: AgentModel<T>,
    first: Seq<Vec<u8>>,
    more: Seq<Vec<u8>>,
)
    ensures
        agent.with_output(first).with_output(more) == agent.with_output(first + more),
{
    if let StateModel::Ready { parser, .. } = agent.state {
        fed_in_order(parser, first, more);
        assert(more.len() == 0 ==> first + more =~= first);
    }
}

proof fn fed_in_order(parser: PaneParser, first: Seq<Vec<u8>>, more: Seq<Vec<u8>>)
    ensures
        fed_all(fed_all(parser, first), more) == fed_all(parser, first + more),
    decreases more.len(),
{
    if more.len() == 0 {
        assert(first + more =~= first);
    } else {
        fed_in_order(parser, first, more.drop_last());
        assert((first + more).drop_last() =~= first + more.drop_last());
    }
}

/// Scrolling an agent changes its scroll position only, and that by as much as
/// its history allows; going back brings back what was in view. Scrolling to where
/// the view is leaves the emulator alone.
pub proof fn scrolling_moves_only_the_view<T>(agent: AgentModel<T>, delta: int)
    ensures
        agent.state.screen() is Some ==> {
            let moved = agent.nudged_by(delta);
            &&& moved.offset() == least(
                nudged(agent.offset() as int, delta),
                agent.state.screen()->0.history.len() as int,
            )
            &&& moved == (AgentModel { state: moved.state, ..agent })
            &&& moved.scrolled_to(agent.offset()).state.screen() == agent.scrolled_to(
                agent.offset(),
            ).state.screen()
            &&& moved.offset() == agent.offset() ==> moved == agent
            &&& moved.title() == agent.title()
            &&& moved.working() == agent.working()
        },
        agent.state is Failed ==> agent.nudged_by(delta) == agent && agent.offset() == 0,
{
}

/// What an agent of each state has. A live one and a crashed one have their own
/// emulator with its screen and the title their program set; one that never came up
/// has none of these. Only a live one can be at work.
pub proof fn each_state_has_its_parts<T>(agent: AgentModel<T>)
    ensures
        match agent.state {
            StateModel::Ready { parser, screen, title, .. } => {
                &&& agent.state.screen() == Some(screen) && agent.state.emulator() == Some(parser)
                &&& agent.offset() == screen.offset
                &&& agent.title() == title.title
                &&& agent.working() == title.working
                &&& agent.takes_output() == screen.takes_output()
            },
            StateModel::Crashed { parser, screen, title, .. } => {
                &&& agent.state.screen() == Some(screen) && agent.state.emulator() == Some(parser)
                &&& agent.offset() == screen.offset
                &&& agent.title() == title.title
                &&& !agent.working()
                &&& agent.takes_output()
            },
            StateModel::Failed { .. } => {
                &&& agent.state.screen() is None && agent.state.emulator() is None
                &&& agent.offset() == 0
                &&& agent.title() is None
                &&& !agent.working()
                &&& agent.takes_output()
            },
        },
{
}

/// A live agent whose process ended is crashed with the code it ended with, whatever
/// that code is, and keeps everything else.
pub proof fn a_crash_keeps_the_exit_code<T>(agent: AgentModel<T>, exit_code: i32)
    requires
        agent.state is Ready,
    ensures
        agent.crashed(exit_code).state is Crashed,
        agent.crashed(exit_code).state->exit_code == exit_code,
        agent.crashed(exit_code).state->Crashed_screen == agent.state->Ready_screen,
        agent.crashed(exit_code).state->Crashed_title == agent.state->Ready_title,
        agent.crashed(exit_code).id == agent.id,
        agent.crashed(exit_code).label == agent.label,
        agent.crashed(exit_code).needs_attention == agent.needs_attention,
        agent.crashed(exit_code).last_working == agent.last_working,
        agent.crashed(exit_code).rows == agent.rows && agent.crashed(exit_code).cols == agent.cols,
{
}

/// Scrolling moves the view by exactly the rows asked for, back into the history or
/// forward to the live screen, and stops at the top of the history and at the live
/// screen.
pub proof fn the_view_moves_by_the_rows_asked_for<T>(agent: AgentModel<T>, delta: int)
    requires
        agent.state is Ready || agent.state is Crashed,
        agent.state.screen()->0.offset <= agent.state.screen()->0.history.len() <= usize::MAX,
    ensures
        ({
            let from = agent.state.screen()->0.offset;
            let top = agent.state.screen()->0.history.len();
            let after = agent.nudged_by(delta).state.screen()->0;
            &&& agent.nudged_by(delta).state.screen() is Some
            &&& from + delta < 0 ==> after.offset == 0
            &&& 0 <= from + delta <= top ==> after.offset == from + delta
            &&& from + delta > top ==> after.offset == top
            &&& after.history == agent.state.screen()->0.history
            &&& after.live == agent.state.screen()->0.live
            &&& agent.scrolled_to(0).offset() == 0
            &&& agent.scrolled_to(usize::MAX as nat).offset() == top
        }),
{
}

/// A pane of another size is recorded on the agent and given to its screen, whatever
/// the size; nothing else of the agent changes.
pub proof fn a_new_size_is_recorded<T>(agent: AgentModel<T>, rows: u16, cols: u16)
    ensures
        ({
            let after = agent.resized(rows, cols);
            &&& after.rows == rows && after.cols == cols
            &&& agent.state.screen() is Some ==> after.state.screen() == Some(
                agent.state.screen()->0.resized(rows, cols),
            ) && after.state.emulator() == Some(with_size(agent.state.emulator()->0, rows, cols))
            &&& agent.state is Failed ==> after.state == agent.state
            &&& agent.state is Ready <==> after.state is Ready
            &&& agent.state is Crashed <==> after.state is Crashed
            &&& after.title() == agent.title() && after.working() == agent.working()
            &&& after.id == agent.id && after.needs_attention == agent.needs_attention
            &&& after.last_working == agent.last_working && after.host == agent.host
            &&& after.label == agent.label && after.repo == agent.repo
            &&& after.branch == agent.branch && after.cwd == agent.cwd
        }),
{
}

/// What a live agent prints goes to its emulator, chunk by chunk in order.
pub proof fn output_reaches_the_emulator<T>(
    agent: AgentModel<T>,
    chunks: Seq<Vec<u8>>,
    last: Vec<u8>,
)
    requires
        agent.state is Ready,
    ensures
        agent.with_output(chunks.push(last)).state.emulator() == Some(
            fed(agent.with_output(chunks).state.emulator()->0, last@),
        ),
        agent.with_output(chunks.push(last)).state.screen() == Some(
            screen_view(fed(agent.with_output(chunks).state.emulator()->0, last@)),
        ),
        agent.with_output(Seq::empty()) == agent,
{
    assert(chunks.push(last).drop_last() =~= chunks);
}

/// Scrolling, a new size and output leave what an agent is connected to, how it ended
/// and why it never came up as they are.
pub proof fn views_come_and_go_agents_stay<T>(
    agent: AgentModel<T>,
    back: nat,
    rows: u16,
    cols: u16,
    chunks: Seq<Vec<u8>>,
)
    ensures
        match agent.state {
            StateModel::Ready { title, transport, .. } => {
                &&& agent.scrolled_to(back).state is Ready
                &&& agent.scrolled_to(back).state->transport == transport
                &&& agent.scrolled_to(back).state->Ready_title == title
                &&& agent.resized(rows, cols).state is Ready
                &&& agent.resized(rows, cols).state->transport == transport
                &&& agent.resized(rows, cols).state->Ready_title == title
                &&& agent.with_output(chunks).state is Ready
                &&& agent.with_output(chunks).state->transport == transport
                &&& agent.with_output(chunks).state->Ready_title == title
            },
            StateModel::Crashed { title, exit_code, .. } => {
                &&& agent.scrolled_to(back).state is Crashed
                &&& agent.scrolled_to(back).state->exit_code == exit_code
                &&& agent.scrolled_to(back).state->Crashed_title == title
                &&& agent.resized(rows, cols).state is Crashed
                &&& agent.resized(rows, cols).state->exit_code == exit_code
                &&& agent.resized(rows, cols).state->Crashed_title == title
                &&& agent.with_output(chunks) == agent
            },
            StateModel::Failed { error } => {
                &&& agent.scrolled_to(back) == agent
                &&& agent.resized(rows, cols).state == (StateModel::<T>::Failed { error })
                &&& agent.with_output(chunks) == agent
            },
        },
{
}

} // verus!
