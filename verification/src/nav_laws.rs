//! What holds of the navigator across its operations.

use vstd::prelude::*;

use crate::agent::AgentModel;
use crate::keymap::PopupAction;
use crate::nav::{
    finished_positions, is_first, just_finished, moved, next_position, position_of, prev_position,
    shifted, with_output, NavModel, PopupState,
};

verus! {

/// Taking an agent out leaves every position valid.
pub proof fn removal_keeps_positions_valid<T>(nav: NavModel<T>, idx: usize)
    requires
        nav.valid(),
    ensures
        nav.without(idx).valid(),
{
}

/// Taking an agent out moves no other agent under the user: the focus, the
/// bounce position and the switcher's selection stay with their agents. Only the
/// bounce position can be lost, when it would coincide with the focus.
pub proof fn removal_keeps_the_user_on_the_same_agents<T>(nav: NavModel<T>, idx: usize)
    requires
        nav.valid(),
        idx < nav.agents.len(),
    ensures
        ({
            let after = nav.without(idx);
            &&& idx != nav.focused ==> after.agents[after.focused as int]
                == nav.agents[nav.focused as int]
            &&& nav.previous_focused is Some && nav.previous_focused->0 != idx && idx
                != nav.focused ==> after.previous_focused is Some
                && after.agents[after.previous_focused->0 as int]
                == nav.agents[nav.previous_focused->0 as int]
            &&& nav.previous_focused is Some && nav.previous_focused->0 != idx
                && after.previous_focused is Some
                ==> after.agents[after.previous_focused->0 as int]
                == nav.agents[nav.previous_focused->0 as int]
            &&& match (nav.popup_state, after.popup_state) {
                (PopupState::Open { selection: before }, PopupState::Open { selection: now }) =>
                    before != idx ==> after.agents[now as int] == nav.agents[before as int],
                (PopupState::Open { .. }, PopupState::Closed) => after.agents.len() == 0,
                (PopupState::Closed, now) => now is Closed,
            }
        }),
{
}

/// Taking the focused agent out focuses the agent that followed it, or the new
/// last one when it was the last; the agent list loses exactly that agent.
pub proof fn removing_the_focused_agent_focuses_its_neighbour<T>(nav: NavModel<T>)
    requires
        nav.valid(),
        nav.agents.len() > 1,
    ensures
        ({
            let after = nav.without(nav.focused);
            &&& after.agents == nav.agents.remove(nav.focused as int)
            &&& nav.focused + 1 < nav.agents.len() ==> after.agents[after.focused as int]
                == nav.agents[nav.focused + 1]
            &&& nav.focused + 1 == nav.agents.len() ==> after.agents[after.focused as int]
                == nav.agents[nav.focused - 1]
        }),
{
}

/// Moving the focus to an agent keeps every position valid, and clears the
/// attention that agent asked for.
pub proof fn focusing_keeps_positions_valid<T>(nav: NavModel<T>, new: usize)
    requires
        nav.valid(),
        new < nav.agents.len(),
    ensures
        nav.focused_on(new).valid(),
        nav.focused_on(new).focused == new,
        new != nav.focused ==> !nav.focused_on(new).agents[new as int].needs_attention,
        nav.focused_on(new).agents.len() == nav.agents.len(),
{
}

/// Bouncing back returns to the agent left, and bouncing again returns once
/// more: two agents can be alternated for ever.
pub proof fn bouncing_alternates_between_two_agents<T>(nav: NavModel<T>, new: usize)
    requires
        nav.valid(),
        new < nav.agents.len(),
        new != nav.focused,
    ensures
        ({
            let there = nav.focused_on(new);
            let back = there.focus_last();
            let again = back.focus_last();
            &&& back.focused == nav.focused && back.previous_focused == Some(new)
            &&& again.focused == new && again.previous_focused == Some(nav.focused)
        }),
{
}

/// Focusing the agent already in focus changes nothing, the bounce position
/// included.
pub proof fn refocusing_changes_nothing<T>(nav: NavModel<T>)
    ensures
        nav.focused_on(nav.focused) == nav,
{
}

/// Stepping to the next position and back again, or the other way round, ends
/// where it began.
pub proof fn next_and_prev_undo_each_other(i: usize, len: nat)
    requires
        i < len <= usize::MAX,
    ensures
        next_position(i, len) < len,
        prev_position(i, len) < len,
        prev_position(next_position(i, len), len) == i,
        next_position(prev_position(i, len), len) == i,
{
    assert((i + 1) % (len as int) == if i + 1 < len {
        i + 1
    } else {
        0
    }) by (nonlinear_arith)
        requires
            i < len,
    ;
    let p = prev_position(i, len);
    assert((p + 1) % (len as int) == if p + 1 < len {
        p + 1
    } else {
        0
    }) by (nonlinear_arith)
        requires
            p < len,
    ;
}

/// Stepping the focus or the switcher keeps every position valid.
pub proof fn steps_keep_positions_valid<T>(nav: NavModel<T>, idx: usize, action: PopupAction)
    requires
        nav.valid(),
        nav.agents.len() > 0,
    ensures
        nav.focus_next().valid(),
        nav.focus_prev().valid(),
        nav.focus_last().valid(),
        nav.focus_at(idx).valid(),
        nav.popup_step(action).valid(),
{
    next_and_prev_undo_each_other(nav.focused, nav.agents.len());
    if let PopupState::Open { selection } = nav.popup_state {
        next_and_prev_undo_each_other(selection, nav.agents.len());
    }
}

/// Moving an agent keeps all agents and their order but for the one moved: each
/// is found at its shifted position, and no two positions are shifted to one.
pub proof fn moving_shifts_every_agent<A>(items: Seq<A>, from: usize, to: usize)
    requires
        from < items.len(),
        to < items.len(),
        items.len() <= usize::MAX,
    ensures
        moved(items, from, to).len() == items.len(),
        forall|i: usize|
            i < items.len() ==> shifted(i, from, to) < items.len() && #[trigger] moved(
                items,
                from,
                to,
            )[shifted(i, from, to) as int] == items[i as int],
        forall|i: usize, j: usize|
            i < items.len() && j < items.len() && i != j ==> #[trigger] shifted(i, from, to)
                != #[trigger] shifted(j, from, to),
{
}

/// Moving an agent and moving it back changes nothing.
pub proof fn moving_back_undoes_a_move<A>(items: Seq<A>, from: usize, to: usize)
    requires
        items.len() <= usize::MAX,
    ensures
        moved(moved(items, from, to), to, from) == items,
        forall|i: usize|
            from < items.len() && to < items.len() && i < items.len() ==> #[trigger] shifted(
                shifted(i, from, to),
                to,
                from,
            ) == i,
        moved(items, from, from) == items,
{
    assert(moved(moved(items, from, to), to, from) =~= items);
    assert(moved(items, from, from) =~= items);
}

/// An agent that is found by its identity has that identity, and none before it
/// has.
pub proof fn position_finds_the_first<T>(agents: Seq<AgentModel<T>>, id: Seq<char>)
    requires
        agents.len() <= usize::MAX,
    ensures
        match position_of(agents, id) {
            Some(i) => is_first(agents, id, i as int),
            None => forall|i: int| 0 <= i < agents.len() ==> (#[trigger] agents[i]).id@ != id,
        },
{
    if forall|i: int| !is_first(agents, id, i) {
        assert forall|i: int| 0 <= i < agents.len() implies (#[trigger] agents[i]).id@ != id by {
            no_first_before(agents, id, i + 1);
        }
    }
}

proof fn no_first_before<T>(agents: Seq<AgentModel<T>>, id: Seq<char>, n: int)
    requires
        0 <= n <= agents.len(),
        forall|i: int| !is_first(agents, id, i),
    ensures
        forall|i: int| 0 <= i < n ==> (#[trigger] agents[i]).id@ != id,
    decreases n,
{
    if n > 0 {
        no_first_before(agents, id, n - 1);
        assert(!is_first(agents, id, n - 1));
    }
}

/// Rearranging tabs leaves the user on the same agent, with the same agent to
/// bounce back to, and every position valid.
pub proof fn rearranging_keeps_the_user_on_the_same_agents<T>(
    nav: NavModel<T>,
    from: Seq<char>,
    to: Seq<char>,
)
    requires
        nav.valid(),
        nav.agents.len() > 0,
    ensures
        ({
            let after = nav.rearranged(from, to);
            &&& after.valid()
            &&& after.agents[after.focused as int] == nav.agents[nav.focused as int]
            &&& nav.previous_focused is Some ==> after.previous_focused is Some
                && after.agents[after.previous_focused->0 as int]
                == nav.agents[nav.previous_focused->0 as int]
            &&& nav.previous_focused is None ==> after.previous_focused is None
        }),
{
    position_finds_the_first(nav.agents, from);
    position_finds_the_first(nav.agents, to);
    if let (Some(f), Some(t)) = (position_of(nav.agents, from), position_of(nav.agents, to)) {
        moving_shifts_every_agent(nav.agents, f, t);
        assert(moved(nav.agents, f, t)[shifted(nav.focused, f, t) as int]
            == nav.agents[nav.focused as int]);
        if let Some(p) = nav.previous_focused {
            assert(moved(nav.agents, f, t)[shifted(p, f, t) as int] == nav.agents[p as int]);
        }
    }
}

/// What a peek finds is exactly who has just finished.
pub proof fn peek_finds_exactly_the_finished<T>(agents: Seq<AgentModel<T>>, i: usize)
    requires
        agents.len() <= usize::MAX,
    ensures
        finished_positions(agents).contains(i) <==> i < agents.len() && just_finished(
            agents[i as int],
        ),
    decreases agents.len(),
{
    if agents.len() > 0 {
        let rest = agents.drop_last();
        let before = finished_positions(rest);
        peek_finds_exactly_the_finished(rest, i);
        let last = (agents.len() - 1) as usize;
        if i < rest.len() {
            assert(rest[i as int] == agents[i as int]);
        }
        if just_finished(agents.last()) {
            let all = before.push(last);
            if before.contains(i) {
                let w = before.index_of(i);
                assert(all[w] == i);
            }
            if i == last {
                assert(all[before.len() as int] == i);
            }
            if all.contains(i) {
                let w = all.index_of(i);
                if w < before.len() {
                    assert(before[w] == i);
                }
            }
        }
    }
}

/// Applying what was peeked consumes it: nobody has just finished any more. The
/// agents that finished out of focus now ask for attention, and the focused one
/// asks for no more than before.
pub proof fn applying_consumes_the_transitions<T>(nav: NavModel<T>)
    requires
        nav.agents.len() <= usize::MAX,
    ensures
        ({
            let after = nav.with_transitions(
                finished_positions(nav.agents),
                nav.agents.map_values(|a: AgentModel<T>| a.working()),
            );
            &&& finished_positions(after.agents) == Seq::<usize>::empty()
            &&& forall|i: int|
                0 <= i < nav.agents.len() ==> (#[trigger] after.agents[i]).needs_attention == (
                nav.agents[i].needs_attention || (i != nav.focused && just_finished(
                    nav.agents[i],
                )))
        }),
{
    let finished = finished_positions(nav.agents);
    let after = nav.with_transitions(
        finished,
        nav.agents.map_values(|a: AgentModel<T>| a.working()),
    );
    assert forall|i: int| 0 <= i < nav.agents.len() implies (
    #[trigger] after.agents[i]).needs_attention == (nav.agents[i].needs_attention || (i
        != nav.focused && just_finished(nav.agents[i]))) by {
        peek_finds_exactly_the_finished(nav.agents, i as usize);
    }
    let again = finished_positions(after.agents);
    assert(again =~= Seq::<usize>::empty()) by {
        if again.len() > 0 {
            let i = again[0];
            assert(again.contains(i));
            peek_finds_exactly_the_finished(after.agents, i);
            assert(false);
        }
    }
}

/// Taking marked agents out keeps every position valid; an unmarked focused
/// agent keeps the focus; unmarked agents stay, in order.
proof fn removing_marked_keeps_the_rest<T>(nav: NavModel<T>, gone: Seq<bool>, n: nat)
    requires
        nav.valid(),
        n <= nav.agents.len(),
        n <= gone.len(),
        gone.len() <= usize::MAX,
    ensures
        nav.without_marked(gone, n).valid(),
        nav.focused < nav.agents.len() && !(nav.focused < n && gone[nav.focused as int]) ==> {
            let after = nav.without_marked(gone, n);
            after.focused < after.agents.len() && after.agents[after.focused as int]
                == nav.agents[nav.focused as int]
        },
        nav.without_marked(gone, n).agents == kept(nav.agents, gone, n),
    decreases n,
{
    if n > 0 {
        let m = (n - 1) as nat;
        if gone[n - 1] {
            let idx = (n - 1) as usize;
            let next = nav.without(idx);
            removal_keeps_positions_valid(nav, idx);
            removing_marked_keeps_the_rest(next, gone, m);
            assert(next.agents.take(m as int) =~= nav.agents.take(m as int));
            assert(next.agents.skip(m as int) =~= nav.agents.skip(n as int));
            unmarked_of_a_prefix(nav.agents.take(n as int), nav.agents.take(m as int), gone, m);
            if nav.focused < nav.agents.len() && nav.focused != idx {
                removal_keeps_the_user_on_the_same_agents(nav, idx);
            }
        } else {
            removing_marked_keeps_the_rest(nav, gone, m);
            unmarked_of_a_prefix(nav.agents.take(n as int), nav.agents.take(m as int), gone, m);
            assert(nav.agents.skip(m as int) =~= seq![nav.agents[m as int]] + nav.agents.skip(
                n as int,
            ));
        }
        assert(nav.without_marked(gone, n).agents =~= kept(nav.agents, gone, n));
    } else {
        assert(kept(nav.agents, gone, 0) =~= nav.agents);
    }
}

/// The unmarked ones of the first `n` items, in order.
pub open spec fn unmarked<A>(items: Seq<A>, gone: Seq<bool>, n: nat) -> Seq<A>
    decreases n,
{
    if n == 0 {
        Seq::empty()
    } else if gone[n - 1] {
        unmarked(items, gone, (n - 1) as nat)
    } else {
        unmarked(items, gone, (n - 1) as nat).push(items[n - 1])
    }
}

spec fn kept<A>(items: Seq<A>, gone: Seq<bool>, n: nat) -> Seq<A> {
    unmarked(items.take(n as int), gone, n) + items.skip(n as int)
}

proof fn unmarked_of_a_prefix<A>(items: Seq<A>, other: Seq<A>, gone: Seq<bool>, n: nat)
    requires
        n <= items.len(),
        n <= other.len(),
        forall|i: int| 0 <= i < n ==> items[i] == other[i],
    ensures
        unmarked(items, gone, n) == unmarked(other, gone, n),
    decreases n,
{
    if n > 0 {
        unmarked_of_a_prefix(items, other, gone, (n - 1) as nat);
    }
}

/// Reaping takes out exactly the live agents that ended with code zero and keeps
/// the others in their order, crashed where they ended badly. Every position
/// stays valid, and a focused agent that stays keeps the focus.
pub proof fn reaping_takes_out_the_clean_exits<T>(nav: NavModel<T>, exits: Seq<Option<i32>>)
    requires
        nav.valid(),
        exits.len() == nav.agents.len(),
    ensures
        ({
            let after = nav.reaped(exits);
            let gone = Seq::new(
                nav.agents.len(),
                |i: int| nav.agents[i].state is Ready && exits[i] == Some(0i32),
            );
            let marked = Seq::new(
                nav.agents.len(),
                |i: int|
                    if exits[i] is Some && exits[i]->0 != 0 {
                        nav.agents[i].crashed(exits[i]->0)
                    } else {
                        nav.agents[i]
                    },
            );
            &&& after.valid()
            &&& after.agents == unmarked(marked, gone, nav.agents.len())
            &&& nav.agents.len() > 0 && !gone[nav.focused as int] ==> after.focused
                < after.agents.len() && after.agents[after.focused as int]
                == marked[nav.focused as int]
        }),
{
    let gone = Seq::new(
        nav.agents.len(),
        |i: int| nav.agents[i].state is Ready && exits[i] == Some(0i32),
    );
    let marked = NavModel {
        agents: Seq::new(
            nav.agents.len(),
            |i: int|
                if exits[i] is Some && exits[i]->0 != 0 {
                    nav.agents[i].crashed(exits[i]->0)
                } else {
                    nav.agents[i]
                },
        ),
        ..nav
    };
    removing_marked_keeps_the_rest(marked, gone, nav.agents.len());
    assert(marked.agents.take(nav.agents.len() as int) =~= marked.agents);
    assert(kept(marked.agents, gone, nav.agents.len()) =~= unmarked(
        marked.agents,
        gone,
        nav.agents.len(),
    ));
}

/// Going to a position ends there, wherever the focus was before. The position left
/// is the one to bounce back to, the agent arrived at asks for no attention any
/// more, and the other agents and the switcher stay as they were. Going to a
/// position past the last agent changes nothing.
pub proof fn going_to_a_position_ends_there<T>(nav: NavModel<T>, i: usize)
    requires
        nav.valid(),
    ensures
        ({
            let after = nav.focus_at(i);
            &&& i >= nav.agents.len() ==> after == nav
            &&& i < nav.agents.len() ==> {
                &&& after.focused == i
                &&& i != nav.focused ==> after.previous_focused == Some(nav.focused)
                &&& i == nav.focused ==> after == nav
                &&& after.agents.len() == nav.agents.len()
                &&& forall|j: int|
                    0 <= j < nav.agents.len() && j != i ==> #[trigger] after.agents[j]
                        == nav.agents[j]
                &&& i != nav.focused ==> after.agents[i as int] == (AgentModel {
                    needs_attention: false,
                    ..nav.agents[i as int]
                })
            }
            &&& after.popup_state == nav.popup_state
        }),
{
}

/// How the focus steps: to the right neighbour, from the last agent to the first,
/// and the other way round; each step leaves the position it came from to bounce
/// back to, unless there is only one agent.
pub proof fn steps_go_to_the_neighbours<T>(nav: NavModel<T>)
    requires
        nav.valid(),
        nav.agents.len() > 0,
    ensures
        ({
            let last = nav.agents.len() - 1;
            let next = nav.focus_next();
            let prev = nav.focus_prev();
            &&& nav.focused < last ==> next.focused == nav.focused + 1
            &&& nav.focused == last ==> next.focused == 0
            &&& nav.focused > 0 ==> prev.focused == nav.focused - 1
            &&& nav.focused == 0 ==> prev.focused == last
            &&& last > 0 ==> next.previous_focused == Some(nav.focused)
                && prev.previous_focused == Some(nav.focused)
            &&& last == 0 ==> next == nav && prev == nav
            &&& next.popup_state == nav.popup_state && prev.popup_state == nav.popup_state
            &&& next.agents.len() == nav.agents.len() && prev.agents.len() == nav.agents.len()
            &&& forall|j: int|
                0 <= j < nav.agents.len() && j != next.focused ==> #[trigger] next.agents[j]
                    == nav.agents[j]
            &&& forall|j: int|
                0 <= j < nav.agents.len() && j != prev.focused ==> #[trigger] prev.agents[j]
                    == nav.agents[j]
        }),
{
    let len = nav.agents.len() as int;
    let i = nav.focused as int;
    assert((i + 1) % len == if i + 1 < len {
        i + 1
    } else {
        0
    }) by (nonlinear_arith)
        requires
            0 <= i < len,
    ;
}

/// Bouncing goes to the agent that had the focus before and swaps the two; where
/// there was none, nothing changes.
pub proof fn bouncing_swaps_the_two_positions<T>(nav: NavModel<T>)
    requires
        nav.valid(),
    ensures
        ({
            let after = nav.focus_last();
            match nav.previous_focused {
                Some(p) => {
                    &&& after.focused == p
                    &&& after.previous_focused == Some(nav.focused)
                    &&& after.agents.len() == nav.agents.len()
                    &&& !after.agents[p as int].needs_attention
                },
                None => after == nav,
            }
        }),
{
}

/// Going to an agent by its identity ends on an agent of that identity, on the
/// first there is; when there is none nothing changes.
pub proof fn going_to_an_identity_ends_on_it<T>(nav: NavModel<T>, id: Seq<char>)
    requires
        nav.valid(),
    ensures
        ({
            let after = nav.focus_id(id);
            &&& (exists|i: int| 0 <= i < nav.agents.len() && (#[trigger] nav.agents[i]).id@ == id)
                ==> {
                &&& after.focused < after.agents.len()
                &&& after.agents.len() == nav.agents.len()
                &&& after.agents[after.focused as int].id@ == id
                &&& forall|j: int|
                    0 <= j < after.focused ==> (#[trigger] nav.agents[j]).id@ != id
                &&& after.focused != nav.focused ==> after.previous_focused == Some(nav.focused)
            }
            &&& (forall|i: int| 0 <= i < nav.agents.len() ==> (#[trigger] nav.agents[i]).id@ != id)
                ==> after == nav
            &&& after.popup_state == nav.popup_state
        }),
{
    position_finds_the_first(nav.agents, id);
    if let Some(i) = position_of(nav.agents, id) {
        assert(nav.agents[i as int].id@ == id);
    }
}

/// What the keys of an open switcher do: they step the selection by one, from the
/// last agent to the first and back, and leave the focus alone; confirming focuses
/// the selected agent and closes the switcher; cancelling only closes it. A closed
/// switcher does nothing.
pub proof fn the_switcher_follows_its_keys<T>(nav: NavModel<T>, action: PopupAction)
    requires
        nav.valid(),
    ensures
        ({
            let after = nav.popup_step(action);
            match nav.popup_state {
                PopupState::Closed => after == nav,
                PopupState::Open { selection } => match action {
                    PopupAction::Next => {
                        &&& after.popup_state is Open
                        &&& selection + 1 < nav.agents.len() ==> after.popup_state->selection
                            == selection + 1
                        &&& selection + 1 == nav.agents.len() ==> after.popup_state->selection == 0
                        &&& after.agents == nav.agents && after.focused == nav.focused
                        &&& after.previous_focused == nav.previous_focused
                    },
                    PopupAction::Prev => {
                        &&& after.popup_state is Open
                        &&& selection > 0 ==> after.popup_state->selection == selection - 1
                        &&& selection == 0 ==> after.popup_state->selection == nav.agents.len() - 1
                        &&& after.agents == nav.agents && after.focused == nav.focused
                        &&& after.previous_focused == nav.previous_focused
                    },
                    PopupAction::Confirm => {
                        &&& after.popup_state is Closed
                        &&& after.focused == selection
                        &&& selection != nav.focused ==> after.previous_focused == Some(
                            nav.focused,
                        ) && !after.agents[selection as int].needs_attention
                        &&& selection == nav.focused ==> after.previous_focused
                            == nav.previous_focused && after.agents == nav.agents
                        &&& after.agents.len() == nav.agents.len()
                        &&& forall|j: int|
                            0 <= j < nav.agents.len() && j != selection
                                ==> #[trigger] after.agents[j] == nav.agents[j]
                    },
                    PopupAction::Cancel => {
                        &&& after.popup_state is Closed
                        &&& after.agents == nav.agents && after.focused == nav.focused
                        &&& after.previous_focused == nav.previous_focused
                    },
                },
            }
        }),
{
    if let PopupState::Open { selection } = nav.popup_state {
        let len = nav.agents.len() as int;
        let i = selection as int;
        assert((i + 1) % len == if i + 1 < len {
            i + 1
        } else {
            0
        }) by (nonlinear_arith)
            requires
                0 <= i < len,
        ;
    }
}

/// A new agent goes to the end of the list, nobody else moves or changes, and it
/// gets the focus; the agent that had it is the one to bounce back to.
pub proof fn a_new_agent_is_last_and_focused<T>(nav: NavModel<T>, agent: AgentModel<T>)
    requires
        nav.valid(),
        nav.agents.len() < usize::MAX,
    ensures
        ({
            let after = nav.with_new_agent(agent);
            let n = nav.agents.len() as int;
            &&& after.agents.len() == n + 1
            &&& forall|j: int| 0 <= j < n ==> #[trigger] after.agents[j] == nav.agents[j]
            &&& after.agents[n].id == agent.id && after.agents[n].state == agent.state
            &&& after.agents[n] == agent || after.agents[n] == (AgentModel {
                needs_attention: false,
                ..agent
            })
            &&& after.focused == n
            &&& n > 0 ==> after.previous_focused == Some(nav.focused)
            &&& n == 0 ==> after.previous_focused == nav.previous_focused
            &&& after.popup_state == nav.popup_state
            &&& after.valid()
        }),
{
}

/// A dragged tab ends at the position of the tab it was dropped on, and the others
/// keep their order. When either of the two agents is gone nothing changes.
pub proof fn a_dragged_tab_ends_where_it_was_dropped<T>(
    nav: NavModel<T>,
    from: Seq<char>,
    to: Seq<char>,
)
    requires
        nav.valid(),
    ensures
        ({
            let after = nav.rearranged(from, to);
            &&& after.agents.len() == nav.agents.len()
            &&& after.popup_state == nav.popup_state
            &&& forall|f: int, t: int| #[trigger]
                is_first(nav.agents, from, f) && #[trigger] is_first(nav.agents, to, t) ==> {
                    &&& after.agents[t] == nav.agents[f]
                    &&& after.agents.remove(t) == nav.agents.remove(f)
                }
            &&& (forall|i: int| 0 <= i < nav.agents.len() ==> (#[trigger] nav.agents[i]).id@
                != from) ==> after == nav
            &&& (forall|i: int| 0 <= i < nav.agents.len() ==> (#[trigger] nav.agents[i]).id@ != to)
                ==> after == nav
            &&& from == to ==> after == nav
        }),
{
    let after = nav.rearranged(from, to);
    position_finds_the_first(nav.agents, from);
    position_finds_the_first(nav.agents, to);
    if let (Some(f), Some(t)) = (position_of(nav.agents, from), position_of(nav.agents, to)) {
        assert(nav.agents[f as int].id@ == from);
        assert(nav.agents[t as int].id@ == to);
        assert(after.agents.remove(t as int) =~= nav.agents.remove(f as int));
        if f == t {
            assert(after.agents =~= nav.agents);
        }
    }
    assert forall|f: int, t: int| #[trigger]
        is_first(nav.agents, from, f) && #[trigger] is_first(nav.agents, to, t) implies {
        &&& after.agents[t] == nav.agents[f]
        &&& after.agents.remove(t) == nav.agents.remove(f)
    } by {
        first_is_unique(nav.agents, from, f);
        first_is_unique(nav.agents, to, t);
    }
}

proof fn first_is_unique<T>(agents: Seq<AgentModel<T>>, id: Seq<char>, i: int)
    requires
        agents.len() <= usize::MAX,
        is_first(agents, id, i),
    ensures
        position_of(agents, id) == Some(i as usize),
{
    let k = choose|k: int| is_first(agents, id, k);
    assert(is_first(agents, id, k));
    if k < i {
        assert(agents[k].id@ != id);
    } else if i < k {
        assert(agents[i].id@ != id);
    }
}

/// An agent has just finished when it was at work when last looked at and is not
/// now, and those that finished are listed in order, each once.
pub proof fn the_finished_are_listed_in_order<T>(agents: Seq<AgentModel<T>>)
    requires
        agents.len() <= usize::MAX,
    ensures
        ({
            let found = finished_positions(agents);
            &&& found.len() <= agents.len()
            &&& forall|k: int|
                0 <= k < found.len() ==> (#[trigger] found[k]) < agents.len()
                    && agents[found[k] as int].last_working && !agents[found[k] as int].working()
            &&& forall|k: int, l: int|
                0 <= k < l < found.len() ==> (#[trigger] found[k]) < (#[trigger] found[l])
            &&& forall|i: int|
                0 <= i < agents.len() && (#[trigger] agents[i]).last_working
                    && !agents[i].working() ==> found.contains(i as usize)
        }),
    decreases agents.len(),
{
    let found = finished_positions(agents);
    if agents.len() > 0 {
        let rest = agents.drop_last();
        the_finished_are_listed_in_order(rest);
        let before = finished_positions(rest);
        assert forall|k: int| 0 <= k < before.len() implies (#[trigger] before[k]) < rest.len()
            && agents[before[k] as int].last_working && !agents[before[k] as int].working() by {
            assert(rest[before[k] as int] == agents[before[k] as int]);
        }
        if just_finished(agents.last()) {
            assert(found =~= before.push((agents.len() - 1) as usize));
        }
    }
    assert forall|i: int| 0 <= i < agents.len() && (#[trigger] agents[i]).last_working
        && !agents[i].working() implies found.contains(i as usize) by {
        peek_finds_exactly_the_finished(agents, i as usize);
    }
}

/// Recording what the agents do changes only what was recorded and who asks for
/// attention: nobody moves, and a focused agent that finishes asks for nothing.
pub proof fn recording_changes_nothing_else<T>(
    nav: NavModel<T>,
    finished: Seq<usize>,
    new_working: Seq<bool>,
    i: int,
)
    requires
        nav.valid(),
        0 <= i < nav.agents.len(),
        new_working.len() == nav.agents.len(),
    ensures
        ({
            let after = nav.with_transitions(finished, new_working);
            &&& after.agents.len() == nav.agents.len()
            &&& after.focused == nav.focused && after.previous_focused == nav.previous_focused
            &&& after.popup_state == nav.popup_state
            &&& after.agents[i].last_working == new_working[i]
            &&& after.agents[i].id == nav.agents[i].id
            &&& after.agents[i].state == nav.agents[i].state
            &&& after.agents[i].rows == nav.agents[i].rows
            &&& after.agents[i].cols == nav.agents[i].cols
            &&& nav.agents[i].needs_attention ==> after.agents[i].needs_attention
            &&& i != nav.focused && finished.contains(i as usize)
                ==> after.agents[i].needs_attention
            &&& i == nav.focused ==> after.agents[i].needs_attention
                == nav.agents[i].needs_attention
            &&& !finished.contains(i as usize) ==> after.agents[i].needs_attention
                == nav.agents[i].needs_attention
        }),
{
}

/// Taking one agent out keeps the order of the others, and the positions follow
/// them: those after it move up by one, those before it stay.
pub proof fn removal_closes_the_gap<T>(nav: NavModel<T>, idx: usize)
    requires
        nav.valid(),
        idx < nav.agents.len(),
    ensures
        ({
            let after = nav.without(idx);
            let n = nav.agents.len() as int;
            &&& after.agents.len() == n - 1
            &&& forall|j: int| 0 <= j < idx ==> #[trigger] after.agents[j] == nav.agents[j]
            &&& forall|j: int|
                idx <= j < n - 1 ==> #[trigger] after.agents[j] == nav.agents[j + 1]
            &&& nav.focused < idx ==> after.focused == nav.focused
            &&& nav.focused > idx ==> after.focused == nav.focused - 1
            &&& nav.focused == idx && idx + 1 < n ==> after.focused == idx
            &&& nav.focused == idx && idx + 1 == n && n > 1 ==> after.focused == idx - 1
            &&& n == 1 ==> after.focused == 0 && after.previous_focused is None
                && after.popup_state is Closed
            &&& match nav.popup_state {
                PopupState::Open { selection } => {
                    &&& selection < idx ==> after.popup_state == (PopupState::Open { selection })
                    &&& selection > idx ==> after.popup_state == (PopupState::Open {
                        selection: (selection - 1) as usize,
                    })
                    &&& selection == idx && idx + 1 < n ==> after.popup_state == (
                    PopupState::Open { selection })
                    &&& selection == idx && idx + 1 == n && n > 1 ==> after.popup_state == (
                    PopupState::Open { selection: (selection - 1) as usize })
                },
                PopupState::Closed => after.popup_state is Closed,
            }
        }),
{
}

/// The agent to bounce back to is lost with an agent taken out only when it is that
/// agent, or when the focus moves onto it.
pub proof fn removal_keeps_the_bounce_position<T>(nav: NavModel<T>, idx: usize)
    requires
        nav.valid(),
        idx < nav.agents.len(),
        nav.previous_focused is Some,
    ensures
        ({
            let p = nav.previous_focused->0;
            let after = nav.without(idx);
            let there: int = if p > idx {
                p - 1
            } else {
                p as int
            };
            &&& p == idx ==> after.previous_focused is None
            &&& p != idx && there == after.focused ==> after.previous_focused is None
            &&& p != idx && there != after.focused ==> after.previous_focused is Some
                && after.previous_focused->0 == there
        }),
{
}

/// Each agent gets its own output and its own new size, wherever it stands, and nobody
/// else's.
pub proof fn each_agent_gets_its_own<T>(
    nav: NavModel<T>,
    printed: Seq<Vec<Vec<u8>>>,
    rows: u16,
    cols: u16,
    i: int,
)
    requires
        0 <= i < nav.agents.len(),
        printed.len() == nav.agents.len(),
    ensures
        with_output(nav.agents, printed).len() == nav.agents.len(),
        with_output(nav.agents, printed)[i] == nav.agents[i].with_output(printed[i]@),
        nav.resized(rows, cols).agents.len() == nav.agents.len(),
        nav.resized(rows, cols).agents[i] == nav.agents[i].resized(rows, cols),
        nav.resized(rows, cols).focused == nav.focused,
        nav.resized(rows, cols).previous_focused == nav.previous_focused,
        nav.resized(rows, cols).popup_state == nav.popup_state,
{
}

/// The focused agent is the one at the focused position, and there is none past the
/// last. Replacing it replaces it alone.
pub proof fn the_focused_agent_is_at_the_focused_position<T>(
    nav: NavModel<T>,
    agent: AgentModel<T>,
    j: int,
)
    ensures
        nav.focused < nav.agents.len() ==> {
            &&& nav.focused_agent() == Some(nav.agents[nav.focused as int])
            &&& nav.with_focused_agent(agent).agents.len() == nav.agents.len()
            &&& nav.with_focused_agent(agent).agents[nav.focused as int] == agent
            &&& 0 <= j < nav.agents.len() && j != nav.focused ==> nav.with_focused_agent(
                agent,
            ).agents[j] == nav.agents[j]
        },
        nav.focused >= nav.agents.len() ==> nav.focused_agent() is None && nav.with_focused_agent(
            agent,
        ) == nav,
        nav.with_focused_agent(agent).focused == nav.focused,
        nav.with_focused_agent(agent).previous_focused == nav.previous_focused,
        nav.with_focused_agent(agent).popup_state == nav.popup_state,
{
}

/// Bouncing back to a position that is no agent's any more, or that has the focus
/// already, changes nothing.
pub proof fn bouncing_needs_another_agent<T>(nav: NavModel<T>)
    ensures
        nav.previous_focused is None ==> nav.focus_last() == nav,
        nav.previous_focused is Some && nav.previous_focused->0 >= nav.agents.len()
            ==> nav.focus_last() == nav,
        nav.previous_focused == Some(nav.focused) ==> nav.focus_last() == nav,
        nav.previous_focused is Some && nav.previous_focused->0 < nav.agents.len()
            ==> nav.focus_last().focused == nav.previous_focused->0,
{
}

} // verus!
