//! What a finished selection copies.

use vstd::prelude::*;

use crate::agent::{AgentModel, AgentState, RuntimeAgent, StateModel};
use crate::failure::{failure_copy, failure_lines, failure_text_in_range};
use crate::geometry::{normalized_range, ordered, reads_before, CellPos, Rect};
use crate::label::{borrowed, string_text};
use crate::mouse::{PaneHitbox, Selection};
use crate::nav::{is_first, models, position, position_of};
use crate::screen::{range_text, stands_in, ScreenView};

verus! {

/// The text that a selection covers in the pane of `agent`: that of its screen,
/// or that of the failure pane where one is drawn.
pub open spec fn selected_text<T>(
    sel: Selection,
    agent: AgentModel<T>,
    pane: PaneHitbox,
) -> Seq<char> {
    let (start, end) = ordered(sel.anchor, sel.head);
    match agent.state {
        StateModel::Ready { screen, .. } => range_text(screen, start, end),
        StateModel::Crashed { screen, .. } => range_text(screen, start, end),
        StateModel::Failed { error } => match pane.rect {
            Some(area) => failure_copy(
                failure_lines(
                    match string_text(agent.host) {
                        Some(host) => host,
                        None => Seq::empty(),
                    },
                    error@,
                ),
                area,
                start,
                end,
            ),
            None => Seq::empty(),
        },
    }
}

/// The text to copy for a selection: nothing when its agent is gone or when it
/// covers no text.
pub open spec fn copied_text<T>(
    sel: Selection,
    agents: Seq<AgentModel<T>>,
    pane: PaneHitbox,
) -> Option<Seq<char>> {
    match position_of(agents, sel.agent@) {
        Some(i) => {
            let text = selected_text(sel, agents[i as int], pane);
            if text.len() == 0 {
                None
            } else {
                Some(text)
            }
        },
        None => None,
    }
}

/// Whether the cell at `at` lies between the two ends of a drag in reading order,
/// on the screen, and a glyph starts in it.
pub open spec fn covers_glyph(sel: Selection, screen: ScreenView, at: CellPos) -> bool {
    &&& (reads_before(sel.anchor, at) && reads_before(at, sel.head)) || (reads_before(
        sel.head,
        at,
    ) && reads_before(at, sel.anchor))
    &&& at.col < screen.cols
    &&& screen.starts_glyph(at.row, at.col)
}

/// The text to copy for a selection. The agent is found by its identity, so a
/// selection whose agent has gone copies nothing; one that covers no text copies
/// nothing either, and leaves the clipboard alone. One that covers a glyph in view
/// copies it, whichever way it was dragged and wherever the view is scrolled to.
pub fn commit_selection<T>(
    sel: &Selection,
    agents: &Vec<RuntimeAgent<T>>,
    pane_hitbox: &PaneHitbox,
) -> (r: Option<String>)
    ensures
        string_text(r) == copied_text(*sel, models(agents@), *pane_hitbox),
        forall|i: int, at: CellPos|
            is_first(models(agents@), sel.agent@, i) && models(agents@)[i].state.screen() is Some
                && sel.anchor.col < u16::MAX - 1 && sel.head.col < u16::MAX - 1 && models(
                agents@,
            )[i].state.screen()->0.cols < u16::MAX && #[trigger] covers_glyph(
                *sel,
                models(agents@)[i].state.screen()->0,
                at,
            ) ==> r is Some && stands_in(
                models(agents@)[i].state.screen()->0.cell_at(at.row, at.col)->0.contents,
                r->0@,
            ),
{
    let i: usize = match position(agents, &sel.agent) {
        Some(i) => i,
        None => return None,
    };
    let agent = &agents[i];
    assert(models(agents@)[i as int] == agent@);
    let (start, end) = normalized_range(sel.anchor, sel.head);
    let text = match &agent.state {
        AgentState::Ready { parser, .. } => parser.text_of_range(start, end),
        AgentState::Crashed { parser, .. } => parser.text_of_range(start, end),
        AgentState::Failed { error } => match pane_hitbox.rect() {
            Some(area) => {
                let host = match borrowed(&agent.host) {
                    Some(host) => host.to_owned(),
                    None => String::new(),
                };
                failure_text_in_range(host.as_str(), error.as_str(), area, start, end)
            },
            None => String::new(),
        },
    };
    if text.as_str().unicode_len() == 0 {
        return None;
    }
    Some(text)
}

/// It makes no difference which way a selection was dragged.
pub proof fn a_drag_copies_the_same_both_ways<T>(
    sel: Selection,
    agents: Seq<AgentModel<T>>,
    pane: PaneHitbox,
)
    ensures
        copied_text(sel, agents, pane) == copied_text(
            Selection { anchor: sel.head, head: sel.anchor, ..sel },
            agents,
            pane,
        ),
{
}

/// A selection copies from the agent it was made in, wherever that stands: the text
/// between its ends on that agent's screen. No text is copied when the agent is
/// gone, and an empty one never is.
pub proof fn a_selection_copies_from_its_own_agent<T>(
    sel: Selection,
    agents: Seq<AgentModel<T>>,
    pane: PaneHitbox,
    i: int,
)
    requires
        agents.len() <= usize::MAX,
        reads_before(sel.anchor, sel.head),
    ensures
        copied_text(sel, agents, pane) is Some ==> copied_text(sel, agents, pane)->0.len() > 0,
        (forall|j: int| 0 <= j < agents.len() ==> (#[trigger] agents[j]).id@ != sel.agent@)
            ==> copied_text(sel, agents, pane) is None,
        is_first(agents, sel.agent@, i) ==> match agents[i].state {
            StateModel::Ready { screen, .. } => {
                let text = range_text(screen, sel.anchor, sel.head);
                &&& text.len() > 0 ==> copied_text(sel, agents, pane) == Some(text)
                &&& text.len() == 0 ==> copied_text(sel, agents, pane) is None
            },
            StateModel::Crashed { screen, .. } => {
                let text = range_text(screen, sel.anchor, sel.head);
                &&& text.len() > 0 ==> copied_text(sel, agents, pane) == Some(text)
                &&& text.len() == 0 ==> copied_text(sel, agents, pane) is None
            },
            StateModel::Failed { .. } => pane.rect is None ==> copied_text(sel, agents, pane)
                is None,
        },
{
    if is_first(agents, sel.agent@, i) {
        let k = choose|k: int| is_first(agents, sel.agent@, k);
        assert(is_first(agents, sel.agent@, k));
        if k < i {
            assert(agents[k].id@ != sel.agent@);
        } else if i < k {
            assert(agents[i].id@ != sel.agent@);
        }
    }
}

/// A selection over a failed pane copies from the lines that are drawn there, those of
/// the host and the error, between its two ends.
pub proof fn a_failed_pane_is_copied_from_its_lines<T>(
    sel: Selection,
    agent: AgentModel<T>,
    area: Rect,
    pane: PaneHitbox,
)
    requires
        agent.state is Failed,
        reads_before(sel.anchor, sel.head),
        pane.rect == Some(area),
    ensures
        agent.host is Some ==> selected_text(sel, agent, pane) == failure_copy(
            failure_lines(agent.host->0@, agent.state->error@),
            area,
            sel.anchor,
            sel.head,
        ),
        agent.host is None ==> selected_text(sel, agent, pane) == failure_copy(
            failure_lines(Seq::empty(), agent.state->error@),
            area,
            sel.anchor,
            sel.head,
        ),
{
}

} // verus!
