//! The navigator: the list of agents, which one has the focus, which one had it
//! before, and the agent switcher.

use vstd::prelude::*;

use crate::agent::{AgentId, AgentModel, AgentState, RuntimeAgent};
use crate::keymap::PopupAction;

verus! {

/// The agent switcher.
#[derive(Clone, Copy, Debug, PartialEq, Eq, Structural)]
pub enum PopupState {
    Closed,
    Open { selection: usize },
}

/// The agents and where the user is among them.
pub struct NavState<T> {
    pub agents: Vec<RuntimeAgent<T>>,
    /// Position of the focused agent.
    pub focused: usize,
    /// Position of the agent that had the focus before, to bounce back to.
    pub previous_focused: Option<usize>,
    pub popup_state: PopupState,
}

/// The navigator, with each agent replaced by its model.
pub struct NavModel<T> {
    pub agents: Seq<AgentModel<T>>,
    pub focused: usize,
    pub previous_focused: Option<usize>,
    pub popup_state: PopupState,
}

/// The models of a sequence of agents.
pub open spec fn models<T>(agents: Seq<RuntimeAgent<T>>) -> Seq<AgentModel<T>> {
    agents.map_values(|a: RuntimeAgent<T>| a@)
}

impl<T> View for NavState<T> {
    type V = NavModel<T>;

    open spec fn view(&self) -> NavModel<T> {
        NavModel {
            agents: models(self.agents@),
            focused: self.focused,
            previous_focused: self.previous_focused,
            popup_state: self.popup_state,
        }
    }
}

/// Where position `i` lies once position `idx` has been taken out, for `i` other
/// than `idx`.
pub open spec fn after_removal(i: usize, idx: usize) -> usize {
    if i > idx {
        (i - 1) as usize
    } else {
        i
    }
}

/// The nearest position to `i` in a list of `len`.
pub open spec fn clamped(i: usize, len: nat) -> usize {
    if i < len {
        i
    } else {
        (len - 1) as usize
    }
}

/// Where position `i` lies after the agent at `from` has been moved to `to`.
pub open spec fn shifted(i: usize, from: usize, to: usize) -> usize {
    if i == from {
        to
    } else if from < i <= to {
        (i - 1) as usize
    } else if to <= i < from {
        (i + 1) as usize
    } else {
        i
    }
}

/// `items` with the one at `from` moved to `to` and those between closed up;
/// unchanged when either is no position.
pub open spec fn moved<A>(items: Seq<A>, from: usize, to: usize) -> Seq<A> {
    if from < items.len() && to < items.len() {
        items.remove(from as int).insert(to as int, items[from as int])
    } else {
        items
    }
}

/// The position after `i` among `len`, and after the last the first.
pub open spec fn next_position(i: usize, len: nat) -> usize {
    ((i + 1) % (len as int)) as usize
}

/// The position before `i` among `len`, and before the first the last.
pub open spec fn prev_position(i: usize, len: nat) -> usize {
    if i == 0 {
        (len - 1) as usize
    } else {
        (i - 1) as usize
    }
}

/// The position of the first agent with identity `id`.
pub open spec fn position_of<T>(agents: Seq<AgentModel<T>>, id: Seq<char>) -> Option<usize> {
    if exists|i: int| is_first(agents, id, i) {
        Some((choose|i: int| is_first(agents, id, i)) as usize)
    } else {
        None
    }
}

/// Whether `i` is the position of the first agent with identity `id`.
pub open spec fn is_first<T>(agents: Seq<AgentModel<T>>, id: Seq<char>, i: int) -> bool {
    &&& 0 <= i < agents.len()
    &&& agents[i].id@ == id
    &&& forall|j: int| 0 <= j < i ==> (#[trigger] agents[j]).id@ != id
}

/// Whether the agent was at work when last looked at and no longer is.
pub open spec fn just_finished<T>(agent: AgentModel<T>) -> bool {
    agent.last_working && !agent.working()
}

/// The positions, in order, of the agents that have just finished.
pub open spec fn finished_positions<T>(agents: Seq<AgentModel<T>>) -> Seq<usize>
    decreases agents.len(),
{
    if agents.len() == 0 {
        Seq::empty()
    } else {
        let before = finished_positions(agents.drop_last());
        if just_finished(agents.last()) {
            before.push((agents.len() - 1) as usize)
        } else {
            before
        }
    }
}

impl<T> NavModel<T> {
    /// Whether every position the navigator holds is one of an agent, and the
    /// agent to bounce back to is not the focused one.
    pub open spec fn valid(self) -> bool {
        &&& self.agents.len() <= usize::MAX
        &&& self.focused < self.agents.len() || (self.agents.len() == 0 && self.focused == 0)
        &&& match self.previous_focused {
            Some(p) => p < self.agents.len() && p != self.focused,
            None => true,
        }
        &&& match self.popup_state {
            PopupState::Open { selection } => selection < self.agents.len(),
            PopupState::Closed => true,
        }
    }

    /// The focused agent, if there is one.
    pub open spec fn focused_agent(self) -> Option<AgentModel<T>> {
        if self.focused < self.agents.len() {
            Some(self.agents[self.focused as int])
        } else {
            None
        }
    }

    /// The navigator with the focused agent replaced, if there is one.
    pub open spec fn with_focused_agent(self, agent: AgentModel<T>) -> NavModel<T> {
        if self.focused < self.agents.len() {
            NavModel { agents: self.agents.update(self.focused as int, agent), ..self }
        } else {
            self
        }
    }

    /// The focus moved to position `new`. The position left behind becomes the
    /// one to bounce back to, and the agent now in focus no longer asks for
    /// attention. Nothing changes when the focus is there already.
    pub open spec fn focused_on(self, new: usize) -> NavModel<T> {
        if new == self.focused {
            self
        } else {
            NavModel {
                agents: if new < self.agents.len() {
                    self.agents.update(
                        new as int,
                        AgentModel { needs_attention: false, ..self.agents[new as int] },
                    )
                } else {
                    self.agents
                },
                focused: new,
                previous_focused: Some(self.focused),
                popup_state: self.popup_state,
            }
        }
    }

    /// The agent at `idx` taken out, and every position adjusted: it follows its
    /// agent, or, when its agent is the one taken out, the focus and the switcher
    /// go to the agent that takes its place, and the bounce position is dropped.
    /// It is dropped also when it would coincide with the focus.
    pub open spec fn without(self, idx: usize) -> NavModel<T> {
        if idx >= self.agents.len() {
            self
        } else {
            let agents = self.agents.remove(idx as int);
            let focused = if agents.len() == 0 {
                self.focused
            } else if idx == self.focused {
                clamped(self.focused, agents.len())
            } else {
                after_removal(self.focused, idx)
            };
            let previous = match self.previous_focused {
                Some(p) => if p == idx || after_removal(p, idx) == focused {
                    None
                } else {
                    Some(after_removal(p, idx))
                },
                None => None,
            };
            let popup = match self.popup_state {
                PopupState::Open { selection } => if agents.len() == 0 {
                    PopupState::Closed
                } else {
                    PopupState::Open {
                        selection: clamped(after_removal(selection, idx), agents.len()),
                    }
                },
                PopupState::Closed => PopupState::Closed,
            };
            NavModel { agents, focused, previous_focused: previous, popup_state: popup }
        }
    }

    /// The agents at the positions below `n` marked in `gone` taken out, the last
    /// one first.
    pub open spec fn without_marked(self, gone: Seq<bool>, n: nat) -> NavModel<T>
        decreases n,
    {
        if n == 0 {
            self
        } else if gone[n - 1] {
            self.without((n - 1) as usize).without_marked(gone, (n - 1) as nat)
        } else {
            self.without_marked(gone, (n - 1) as nat)
        }
    }

    /// What becomes of the agents whose processes ended: a live one that ended
    /// with code zero is taken out, one that ended otherwise is crashed.
    pub open spec fn reaped(self, exits: Seq<Option<i32>>) -> NavModel<T> {
        let marked = NavModel {
            agents: Seq::new(
                self.agents.len(),
                |i: int|
                    if exits[i] is Some && exits[i]->0 != 0 {
                        self.agents[i].crashed(exits[i]->0)
                    } else {
                        self.agents[i]
                    },
            ),
            ..self
        };
        let gone = Seq::new(
            self.agents.len(),
            |i: int| self.agents[i].state is Ready && exits[i] == Some(0i32),
        );
        marked.without_marked(gone, self.agents.len())
    }

    /// The agents at `finished` ask for attention, unless focused, and what each
    /// agent was doing is recorded.
    pub open spec fn with_transitions(self, finished: Seq<usize>, new_working: Seq<bool>) -> NavModel<
        T,
    > {
        NavModel {
            agents: Seq::new(
                self.agents.len(),
                |i: int|
                    AgentModel {
                        needs_attention: self.agents[i].needs_attention || (i != self.focused
                            && finished.contains(i as usize)),
                        last_working: if i < new_working.len() {
                            new_working[i]
                        } else {
                            self.agents[i].last_working
                        },
                        ..self.agents[i]
                    },
            ),
            ..self
        }
    }

    /// The focus on the next agent, and from the last one on the first.
    pub open spec fn focus_next(self) -> NavModel<T> {
        self.focused_on(next_position(self.focused, self.agents.len()))
    }

    /// The focus on the agent before, and from the first one on the last.
    pub open spec fn focus_prev(self) -> NavModel<T> {
        self.focused_on(prev_position(self.focused, self.agents.len()))
    }

    /// The focus back on the agent that had it before, if that is still there.
    pub open spec fn focus_last(self) -> NavModel<T> {
        match self.previous_focused {
            Some(p) => if p < self.agents.len() && p != self.focused {
                self.focused_on(p)
            } else {
                self
            },
            None => self,
        }
    }

    /// The focus on the agent at `i`, if there is one.
    pub open spec fn focus_at(self, i: usize) -> NavModel<T> {
        if i < self.agents.len() {
            self.focused_on(i)
        } else {
            self
        }
    }

    /// The focus on the first agent with identity `id`, if there is one.
    pub open spec fn focus_id(self, id: Seq<char>) -> NavModel<T> {
        match position_of(self.agents, id) {
            Some(i) => self.focused_on(i),
            None => self,
        }
    }

    /// What a key of the switcher does while it is open: step through the agents,
    /// wrapping at both ends, go to the selected one, or close.
    pub open spec fn popup_step(self, action: PopupAction) -> NavModel<T> {
        match self.popup_state {
            PopupState::Closed => self,
            PopupState::Open { selection } => match action {
                PopupAction::Next => NavModel {
                    popup_state: PopupState::Open {
                        selection: next_position(selection, self.agents.len()),
                    },
                    ..self
                },
                PopupAction::Prev => NavModel {
                    popup_state: PopupState::Open {
                        selection: prev_position(selection, self.agents.len()),
                    },
                    ..self
                },
                PopupAction::Confirm => NavModel {
                    popup_state: PopupState::Closed,
                    ..self.focused_on(selection)
                },
                PopupAction::Cancel => NavModel { popup_state: PopupState::Closed, ..self },
            },
        }
    }

    /// Every agent in a pane of another size.
    pub open spec fn resized(self, rows: u16, cols: u16) -> NavModel<T> {
        NavModel {
            agents: self.agents.map_values(|a: AgentModel<T>| a.resized(rows, cols)),
            ..self
        }
    }

    /// `agent` added at the end and focused.
    pub open spec fn with_new_agent(self, agent: AgentModel<T>) -> NavModel<T> {
        NavModel { agents: self.agents.push(agent), ..self }.focused_on(
            self.agents.len() as usize,
        )
    }

    /// The agent with identity `from` moved to where the one with identity `to`
    /// is. The focus and the bounce position follow their agents. Nothing changes
    /// when one of them is gone.
    pub open spec fn rearranged(self, from: Seq<char>, to: Seq<char>) -> NavModel<T> {
        match (position_of(self.agents, from), position_of(self.agents, to)) {
            (Some(f), Some(t)) => NavModel {
                agents: moved(self.agents, f, t),
                focused: shifted(self.focused, f, t),
                previous_focused: match self.previous_focused {
                    Some(p) => Some(shifted(p, f, t)),
                    None => None,
                },
                popup_state: self.popup_state,
            },
            _ => self,
        }
    }
}

/// Where position `i` lies after the agent at `from` has been moved to `to`.
pub fn shift_index(i: usize, from: usize, to: usize) -> (r: usize)
    ensures
        r == shifted(i, from, to),
{
    if i == from {
        to
    } else if from < to && i > from && i <= to {
        i - 1
    } else if from > to && i >= to && i < from {
        i + 1
    } else {
        i
    }
}

/// Moves the agent at `from` to position `to`; those in between close up.
pub fn reorder_agents<T>(agents: &mut Vec<RuntimeAgent<T>>, from: usize, to: usize)
    ensures
        final(agents)@ == moved(old(agents)@, from, to),
{
    if from == to || from >= agents.len() || to >= agents.len() {
        assert(from == to && from < agents@.len() ==> moved(agents@, from, to) =~= agents@);
        return ;
    }
    let agent = agents.remove(from);
    agents.insert(to, agent);
}

/// The position of the first agent with identity `id`.
pub fn position<T>(agents: &Vec<RuntimeAgent<T>>, id: &AgentId) -> (r: Option<usize>)
    ensures
        r == position_of(models(agents@), id@),
        r is Some ==> is_first(models(agents@), id@, r->0 as int),
{
    let ghost m = models(agents@);
    for i in 0..agents.len()
        invariant
            m == models(agents@),
            forall|j: int| 0 <= j < i ==> (#[trigger] m[j]).id@ != id@,
    {
        assert(m[i as int] == agents@[i as int]@);
        if agents[i].id.same(id) {
            proof {
                assert(is_first(m, id@, i as int));
                let k = choose|k: int| is_first(m, id@, k);
                assert(is_first(m, id@, k));
                assert(k == i) by {
                    if k < i {
                        assert(m[k].id@ != id@);
                    } else if i < k {
                        assert(m[i as int].id@ != id@);
                    }
                }
            }
            return Some(i);
        }
    }
    assert forall|k: int| !is_first(m, id@, k) by {
        if 0 <= k < m.len() {
            assert(m[k].id@ != id@);
        }
    }
    None
}

/// Which agents have just finished, and what every agent is doing.
pub struct FinishTransitions {
    /// Positions of the agents that have just finished.
    pub finished: Vec<usize>,
    /// For each agent, whether it is at work.
    pub new_working: Vec<bool>,
}

impl FinishTransitions {
    /// Whether any agent has just finished.
    pub fn any(&self) -> (r: bool)
        ensures
            r == (self.finished@.len() > 0),
    {
        !(self.finished.len() == 0)
    }
}

impl<T> NavState<T> {
    /// A navigator over `agents`, with the first one in focus.
    pub fn new(agents: Vec<RuntimeAgent<T>>) -> (r: NavState<T>)
        ensures
            r@ == (NavModel {
                agents: models(agents@),
                focused: 0,
                previous_focused: None,
                popup_state: PopupState::Closed,
            }),
    {
        NavState { agents, focused: 0, previous_focused: None, popup_state: PopupState::Closed }
    }

    /// Takes the agent at `idx` out and adjusts every position that this could
    /// invalidate. Does nothing when there is no such agent.
    pub fn remove_at(&mut self, idx: usize)
        ensures
            final(self)@ == old(self)@.without(idx),
    {
        if idx >= self.agents.len() {
            return ;
        }
        let ghost before = self.agents@;
        let removed = self.agents.remove(idx);
        assert(models(self.agents@) =~= models(before).remove(idx as int));
        if self.agents.len() > 0 {
            if idx < self.focused {
                self.focused = self.focused - 1;
            } else if idx == self.focused && self.focused >= self.agents.len() {
                self.focused = self.agents.len() - 1;
            }
        }
        if let Some(prev) = self.previous_focused {
            if prev == idx {
                self.previous_focused = None;
            } else if prev > idx {
                self.previous_focused = Some(prev - 1);
            }
        }
        if let Some(prev) = self.previous_focused {
            if prev == self.focused {
                self.previous_focused = None;
            }
        }
        if let PopupState::Open { selection } = self.popup_state {
            if self.agents.len() == 0 {
                self.popup_state = PopupState::Closed;
            } else {
                let follow: usize = if idx < selection {
                    selection - 1
                } else {
                    selection
                };
                let last: usize = self.agents.len() - 1;
                self.popup_state =
                PopupState::Open {
                    selection: if follow < last {
                        follow
                    } else {
                        last
                    },
                };
            }
        }
    }

    /// Moves the focus to position `new`.
    pub fn change_focus(&mut self, new: usize)
        ensures
            final(self)@ == old(self)@.focused_on(new),
    {
        if new == self.focused {
            return ;
        }
        let ghost before = self.agents@;
        self.previous_focused = Some(self.focused);
        self.focused = new;
        if new < self.agents.len() {
            self.agents[new].needs_attention = false;
            assert(models(self.agents@) =~= models(before).update(
                new as int,
                AgentModel { needs_attention: false, ..models(before)[new as int] },
            ));
        }
    }

    /// Takes the focused agent out if it is no longer live. Answers whether it
    /// did.
    pub fn dismiss_focused(&mut self) -> (r: bool)
        ensures
            r == (old(self)@.focused_agent() is Some && !(
            old(self)@.focused_agent()->0.state is Ready)),
            final(self)@ == if r {
                old(self)@.without(old(self)@.focused)
            } else {
                old(self)@
            },
    {
        if self.focused >= self.agents.len() {
            return false;
        }
        assert(models(self.agents@)[self.focused as int] == self.agents@[self.focused as int]@);
        match &self.agents[self.focused].state {
            AgentState::Ready { .. } => {
                return false;
            },
            _ => {},
        }
        self.remove_at(self.focused);
        true
    }

    /// Takes the focused agent out, live or not. Answers whether there was one.
    pub fn kill_focused(&mut self) -> (r: bool)
        ensures
            r == (old(self)@.focused_agent() is Some),
            final(self)@ == old(self)@.without(old(self)@.focused),
    {
        if self.focused >= self.agents.len() {
            return false;
        }
        self.remove_at(self.focused);
        true
    }

    /// Which agents have just finished. Changes nothing.
    pub fn peek_finish_transitions(&self) -> (r: FinishTransitions)
        ensures
            r.finished@ == finished_positions(self@.agents),
            r.new_working@ == self@.agents.map_values(|a: AgentModel<T>| a.working()),
    {
        let ghost m = models(self.agents@);
        let mut finished: Vec<usize> = Vec::new();
        let mut new_working: Vec<bool> = Vec::new();
        for i in 0..self.agents.len()
            invariant
                m == models(self.agents@),
                finished@ == finished_positions(m.take(i as int)),
                new_working@ == m.take(i as int).map_values(|a: AgentModel<T>| a.working()),
        {
            assert(m[i as int] == self.agents@[i as int]@);
            assert(m.take(i + 1).drop_last() =~= m.take(i as int));
            assert(m.take(i + 1).last() == m[i as int]);
            let cur = self.agents[i].is_working();
            if self.agents[i].last_working && !cur {
                finished.push(i);
            }
            new_working.push(cur);
            assert(new_working@ =~= m.take(i + 1).map_values(|a: AgentModel<T>| a.working()));
        }
        assert(m.take(m.len() as int) =~= m);
        FinishTransitions { finished, new_working }
    }

    /// Records what was peeked: every agent's activity, and the attention of
    /// those that finished out of focus.
    pub fn apply_finish_transitions(&mut self, transitions: &FinishTransitions)
        ensures
            final(self)@ == old(self)@.with_transitions(
                transitions.finished@,
                transitions.new_working@,
            ),
    {
        let ghost m = models(self.agents@);
        let ghost finished = transitions.finished@;
        let ghost new_working = transitions.new_working@;
        let total: usize = self.agents.len();
        for k in 0..transitions.finished.len()
            invariant
                total == m.len(),
                finished == transitions.finished@,
                self.focused == old(self).focused,
                self.previous_focused == old(self).previous_focused,
                self.popup_state == old(self).popup_state,
                self.agents@.len() == m.len(),
                forall|i: int|
                    0 <= i < m.len() ==> (#[trigger] self.agents@[i])@ == (AgentModel {
                        needs_attention: m[i].needs_attention || (i != self.focused
                            && finished.take(k as int).contains(i as usize)),
                        ..m[i]
                    }),
        {
            let i: usize = transitions.finished[k];
            let ghost before = self.agents@;
            proof {
                broadcast use vstd::seq_lib::group_seq_properties;

                assert(finished.take(k + 1) =~= finished.take(k as int).push(i));
                assert forall|j: int| 0 <= j < m.len() implies #[trigger] finished.take(
                    k + 1,
                ).contains(j as usize) == (finished.take(k as int).contains(j as usize) || j == i) by {
                }
            }
            if i != self.focused && i < self.agents.len() {
                self.agents[i].needs_attention = true;
            }
        }
        assert(finished.take(finished.len() as int) =~= finished);
        let n: usize = if self.agents.len() < transitions.new_working.len() {
            self.agents.len()
        } else {
            transitions.new_working.len()
        };
        for i in 0..n
            invariant
                n <= m.len(),
                n <= new_working.len(),
                n == m.len() || n == new_working.len(),
                new_working == transitions.new_working@,
                self.focused == old(self).focused,
                self.previous_focused == old(self).previous_focused,
                self.popup_state == old(self).popup_state,
                self.agents@.len() == m.len(),
                forall|j: int|
                    0 <= j < m.len() ==> (#[trigger] self.agents@[j])@ == (AgentModel {
                        needs_attention: m[j].needs_attention || (j != self.focused
                            && finished.contains(j as usize)),
                        last_working: if j < i {
                            new_working[j]
                        } else {
                            m[j].last_working
                        },
                        ..m[j]
                    }),
        {
            self.agents[i].last_working = transitions.new_working[i];
        }
        assert(models(self.agents@) =~= old(self)@.with_transitions(finished, new_working).agents);
    }

    /// Reacts to processes that ended. `exits` holds, for each agent, the exit
    /// code its transport reported, if any. A live agent that ended with code
    /// zero leaves the navigator; one that ended otherwise is crashed and stays
    /// until the user dismisses it.
    pub fn reap_dead_transports(&mut self, exits: &Vec<Option<i32>>)
        requires
            exits@.len() == old(self)@.agents.len(),
        ensures
            final(self)@ == old(self)@.reaped(exits@),
    {
        let ghost m = models(self.agents@);
        let mut gone: Vec<bool> = Vec::new();
        let total: usize = self.agents.len();
        for i in 0..total
            invariant
                total == m.len(),
                exits@.len() == m.len(),
                self.agents@.len() == m.len(),
                self.focused == old(self).focused,
                self.previous_focused == old(self).previous_focused,
                self.popup_state == old(self).popup_state,
                gone@.len() == i,
                forall|j: int|
                    0 <= j < i ==> #[trigger] gone@[j] == (m[j].state is Ready && exits@[j] == Some(
                        0i32,
                    )),
                forall|j: int|
                    0 <= j < m.len() ==> (#[trigger] self.agents@[j])@ == if j < i && exits@[j] is Some
                        && exits@[j]->0 != 0 {
                        m[j].crashed(exits@[j]->0)
                    } else {
                        m[j]
                    },
        {
            let mut clean = false;
            assert(self.agents@[i as int]@ == m[i as int]);
            if let Some(code) = exits[i] {
                if code == 0 {
                    clean =
                    match &self.agents[i].state {
                        AgentState::Ready { .. } => true,
                        _ => false,
                    };
                } else {
                    self.agents[i].mark_crashed(code);
                }
            }
            gone.push(clean);
        }
        let ghost goal = old(self)@.reaped(exits@);
        let ghost flags = Seq::new(
            m.len(),
            |i: int| m[i].state is Ready && exits@[i] == Some(0i32),
        );
        assert(gone@ =~= flags);
        let mut n: usize = gone.len();
        proof {
            let marked = Seq::new(
                m.len(),
                |i: int|
                    if exits@[i] is Some && exits@[i]->0 != 0 {
                        m[i].crashed(exits@[i]->0)
                    } else {
                        m[i]
                    },
            );
            assert(self@.agents =~= marked);
            assert(self@.without_marked(flags, n as nat) == goal);
        }
        while n > 0
            invariant
                n <= gone@.len(),
                gone@ == flags,
                self@.without_marked(flags, n as nat) == goal,
            decreases n,
        {
            n = n - 1;
            if gone[n] {
                self.remove_at(n);
            }
        }
    }

    /// Focuses the next agent, and from the last one the first.
    pub fn focus_next(&mut self)
        requires
            old(self)@.valid(),
            old(self)@.agents.len() > 0,
        ensures
            final(self)@ == old(self)@.focus_next(),
    {
        let next: usize = if self.focused + 1 < self.agents.len() {
            self.focused + 1
        } else {
            0
        };
        proof {
            next_position_wraps(self.focused, self.agents@.len());
        }
        self.change_focus(next);
    }

    /// Focuses the agent before, and from the first one the last.
    pub fn focus_prev(&mut self)
        requires
            old(self)@.agents.len() > 0,
        ensures
            final(self)@ == old(self)@.focus_prev(),
    {
        let prev: usize = if self.focused == 0 {
            self.agents.len() - 1
        } else {
            self.focused - 1
        };
        self.change_focus(prev);
    }

    /// Bounces back to the agent that had the focus before.
    pub fn focus_last(&mut self)
        ensures
            final(self)@ == old(self)@.focus_last(),
    {
        if let Some(prev) = self.previous_focused {
            if prev < self.agents.len() && prev != self.focused {
                self.change_focus(prev);
            }
        }
    }

    /// Focuses the agent at `idx`, if there is one.
    pub fn focus_at(&mut self, idx: usize)
        ensures
            final(self)@ == old(self)@.focus_at(idx),
            idx < old(self).agents@.len() ==> final(self).focused == idx,
            idx >= old(self).agents@.len() ==> final(self)@ == old(self)@,
    {
        if idx < self.agents.len() {
            self.change_focus(idx);
        }
    }

    /// Focuses the agent with identity `id`, if it is still there.
    pub fn focus_id(&mut self, id: &AgentId)
        ensures
            final(self)@ == old(self)@.focus_id(id@),
    {
        if let Some(idx) = position(&self.agents, id) {
            self.change_focus(idx);
        }
    }

    /// Does what a key of the open switcher asks for.
    pub fn popup_step(&mut self, action: PopupAction)
        requires
            old(self)@.valid(),
        ensures
            final(self)@ == old(self)@.popup_step(action),
    {
        if let PopupState::Open { selection } = self.popup_state {
            match action {
                PopupAction::Next => {
                    proof {
                        next_position_wraps(selection, self.agents@.len());
                    }
                    let next: usize = if selection + 1 < self.agents.len() {
                        selection + 1
                    } else {
                        0
                    };
                    self.popup_state = PopupState::Open { selection: next };
                },
                PopupAction::Prev => {
                    let prev: usize = if selection == 0 {
                        self.agents.len() - 1
                    } else {
                        selection - 1
                    };
                    self.popup_state = PopupState::Open { selection: prev };
                },
                PopupAction::Confirm => {
                    self.change_focus(selection);
                    self.popup_state = PopupState::Closed;
                },
                PopupAction::Cancel => {
                    self.popup_state = PopupState::Closed;
                },
            }
        }
    }

    /// Moves the agent `from` to where the agent `to` is; focus and bounce
    /// position follow their agents.
    pub fn rearrange(&mut self, from: &AgentId, to: &AgentId)
        ensures
            final(self)@ == old(self)@.rearranged(from@, to@),
    {
        let from_idx = position(&self.agents, from);
        let to_idx = position(&self.agents, to);
        if let (Some(f), Some(t)) = (from_idx, to_idx) {
            let ghost before = self.agents@;
            reorder_agents(&mut self.agents, f, t);
            assert(models(self.agents@) =~= moved(models(before), f, t));
            self.focused = shift_index(self.focused, f, t);
            self.previous_focused =
            match self.previous_focused {
                Some(p) => Some(shift_index(p, f, t)),
                None => None,
            };
        }
    }

    /// Adds an agent at the end and focuses it.
    pub fn push_and_focus(&mut self, agent: RuntimeAgent<T>)
        ensures
            final(self)@ == old(self)@.with_new_agent(agent@),
    {
        let ghost before = self.agents@;
        let target: usize = self.agents.len();
        self.agents.push(agent);
        assert(models(self.agents@) =~= models(before).push(agent@));
        self.change_focus(target);
    }
}

proof fn next_position_wraps(i: usize, len: nat)
    requires
        i < len <= usize::MAX,
    ensures
        next_position(i, len) == if i + 1 < len {
            (i + 1) as usize
        } else {
            0
        },
{
    assert((i + 1) % (len as int) == if i + 1 < len {
        i + 1
    } else {
        0
    }) by (nonlinear_arith)
        requires
            i < len,
    ;
}

/// The agents after their programs printed these chunks of output.
pub open spec fn with_output<T>(
    agents: Seq<AgentModel<T>>,
    printed: Seq<Vec<Vec<u8>>>,
) -> Seq<AgentModel<T>> {
    Seq::new(agents.len(), |i: int| agents[i].with_output(printed[i]@))
}

/// Shows what every agent's program printed since: chunks of output for each, in
/// the order of the agents.
pub fn read_agents<T>(agents: &mut Vec<RuntimeAgent<T>>, printed: &Vec<Vec<Vec<u8>>>)
    requires
        printed@.len() == old(agents)@.len(),
        forall|i: int|
            0 <= i < old(agents)@.len() ==> (#[trigger] old(agents)@[i])@.takes_output(),
    ensures
        models(final(agents)@) == with_output(models(old(agents)@), printed@),
        forall|i: int|
            0 <= i < final(agents)@.len() ==> (#[trigger] final(agents)@[i])@.takes_output(),
        forall|i: int|
            0 <= i < final(agents)@.len() && old(agents)@[i]@.offset() == 0 ==> (
            #[trigger] final(agents)@[i])@.offset() == 0,
{
    let ghost before = agents@;
    let ghost m = models(agents@);
    let total: usize = agents.len();
    for i in 0..total
        invariant
            m == models(before),
            total == before.len(),
            printed@.len() == before.len(),
            agents@.len() == before.len(),
            forall|j: int| 0 <= j < before.len() ==> (#[trigger] agents@[j])@.takes_output(),
            forall|j: int|
                0 <= j < before.len() && before[j]@.offset() == 0 ==> (
                #[trigger] agents@[j])@.offset() == 0,
            forall|j: int|
                0 <= j < before.len() ==> (#[trigger] agents@[j])@ == if j < i {
                    m[j].with_output(printed@[j]@)
                } else {
                    m[j]
                },
    {
        agents[i].take_output(&printed[i]);
    }
    assert(models(agents@) =~= with_output(m, printed@));
}

/// Whether some agent has a screen: one that is live, or was.
pub open spec fn some_screen<T>(agents: Seq<AgentModel<T>>) -> bool {
    exists|i: int| 0 <= i < agents.len() && (#[trigger] agents[i]).state.screen() is Some
}

/// Gives every agent's pane another size. A screen needs at least one cell.
pub fn resize_agents<T>(agents: &mut Vec<RuntimeAgent<T>>, rows: u16, cols: u16)
    requires
        some_screen(models(old(agents)@)) ==> rows > 0 && cols > 0,
    ensures
        models(final(agents)@) == models(old(agents)@).map_values(
            |a: AgentModel<T>| a.resized(rows, cols),
        ),
{
    let ghost m = models(agents@);
    let total: usize = agents.len();
    for i in 0..total
        invariant
            total == m.len(),
            some_screen(m) ==> rows > 0 && cols > 0,
            agents@.len() == m.len(),
            forall|j: int|
                0 <= j < m.len() ==> (#[trigger] agents@[j])@ == if j < i {
                    m[j].resized(rows, cols)
                } else {
                    m[j]
                },
    {
        assert(m[i as int].state.screen() is Some ==> some_screen(m));
        agents[i].resize(rows, cols);
    }
    assert(models(agents@) =~= m.map_values(|a: AgentModel<T>| a.resized(rows, cols)));
}

} // verus!
