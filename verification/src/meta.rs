//! What is found out about agents in the background: their branch and their model.

use vstd::prelude::*;

use crate::agent::{AgentId, AgentModel, ModelEffort, RuntimeAgent};
use crate::nav::{is_first, models, position, position_of, NavModel, NavState};

verus! {

/// Something found out about an agent.
pub enum MetaEvent {
    /// Its branch, if it is on one.
    Branch { agent_id: AgentId, value: Option<String> },
    /// Its model and effort, if they could be read.
    Model { agent_id: AgentId, value: Option<ModelEffort> },
}

impl MetaEvent {
    /// The agent it was found out about.
    pub open spec fn about(self) -> AgentId {
        match self {
            MetaEvent::Branch { agent_id, .. } => agent_id,
            MetaEvent::Model { agent_id, .. } => agent_id,
        }
    }
}

/// An agent with what was found out about it.
pub open spec fn informed<T>(agent: AgentModel<T>, event: MetaEvent) -> AgentModel<T> {
    match event {
        MetaEvent::Branch { value, .. } => AgentModel { branch: value, ..agent },
        MetaEvent::Model { value, .. } => AgentModel { model_effort: value, ..agent },
    }
}

/// The agents with one thing found out: only the agent it is about learns it, and
/// nobody when that is gone.
pub open spec fn meta_applied<T>(agents: Seq<AgentModel<T>>, event: MetaEvent) -> Seq<
    AgentModel<T>,
> {
    match position_of(agents, event.about()@) {
        Some(i) => agents.update(i as int, informed(agents[i as int], event)),
        None => agents,
    }
}

/// The agents with everything found out, in order.
pub open spec fn all_applied<T>(agents: Seq<AgentModel<T>>, events: Seq<MetaEvent>) -> Seq<
    AgentModel<T>,
>
    decreases events.len(),
{
    if events.len() == 0 {
        agents
    } else {
        all_applied(meta_applied(agents, events[0]), events.skip(1))
    }
}

/// Records what was found out. Each agent is found by its identity, so that nothing
/// lands on another after a move; what is about an agent that is gone is dropped.
pub fn apply_meta_events<T>(agents: &mut Vec<RuntimeAgent<T>>, events: Vec<MetaEvent>)
    ensures
        models(final(agents)@) == all_applied(models(old(agents)@), events@),
{
    let ghost goal = all_applied(models(agents@), events@);
    let mut rest = events;
    while rest.len() > 0
        invariant
            all_applied(models(agents@), rest@) == goal,
        decreases rest@.len(),
    {
        let ghost before = models(agents@);
        let ghost rest_before = rest@;
        let event = rest.remove(0);
        assert(rest_before.skip(1) =~= rest@);
        let found = match &event {
            MetaEvent::Branch { agent_id, .. } => position(agents, agent_id),
            MetaEvent::Model { agent_id, .. } => position(agents, agent_id),
        };
        if let Some(i) = found {
            assert(before[i as int] == agents@[i as int]@);
            let ghost wanted = informed(before[i as int], event);
            match event {
                MetaEvent::Branch { value, .. } => {
                    agents[i].branch = value;
                },
                MetaEvent::Model { value, .. } => {
                    agents[i].model_effort = value;
                },
            }
            assert(models(agents@) =~= before.update(i as int, wanted));
        }
    }
}

/// What the worker is told about whom to watch.
#[derive(Debug, PartialEq, Eq)]
pub enum MetaTarget {
    /// Nothing new.
    Keep,
    /// To watch this agent in its directory.
    Watch { agent_id: AgentId, cwd: String },
    /// To watch nobody.
    Clear,
}

/// The focused agent and its directory, if it runs on this machine.
pub open spec fn focused_local<T>(nav: NavModel<T>) -> Option<(AgentId, String)> {
    match nav.focused_agent() {
        Some(agent) => match agent.cwd {
            Some(cwd) => Some((agent.id, cwd)),
            None => None,
        },
        None => None,
    }
}

/// What the worker is told when `last_sent` is whom it watches.
pub open spec fn meta_target<T>(nav: NavModel<T>, last_sent: Option<AgentId>) -> MetaTarget {
    match (focused_local(nav), last_sent) {
        (Some((id, cwd)), Some(prev)) => if id@ == prev@ {
            MetaTarget::Keep
        } else {
            MetaTarget::Watch { agent_id: id, cwd }
        },
        (Some((id, cwd)), None) => MetaTarget::Watch { agent_id: id, cwd },
        (None, Some(_)) => MetaTarget::Clear,
        (None, None) => MetaTarget::Keep,
    }
}

/// Whom the worker watches after it was told.
pub open spec fn watched_after(target: MetaTarget, last_sent: Option<AgentId>) -> Option<AgentId> {
    match target {
        MetaTarget::Keep => last_sent,
        MetaTarget::Watch { agent_id, .. } => Some(agent_id),
        MetaTarget::Clear => None,
    }
}

/// Decides what to tell the worker: to watch the focused agent if that runs on
/// this machine, and otherwise nobody. It is told only when that changes.
pub fn sync_meta_worker_target<T>(nav: &NavState<T>, last_sent: &mut Option<AgentId>) -> (r:
    MetaTarget)
    ensures
        r == meta_target(nav@, *old(last_sent)),
        *final(last_sent) == watched_after(r, *old(last_sent)),
{
    if nav.focused < nav.agents.len() {
        let agent = &nav.agents[nav.focused];
        assert(nav@.focused_agent() == Some(agent@));
        if let Some(cwd) = &agent.cwd {
            let unchanged = match last_sent {
                Some(prev) => agent.id.same(prev),
                None => false,
            };
            if unchanged {
                return MetaTarget::Keep;
            }
            *last_sent = Some(agent.id.clone());
            return MetaTarget::Watch { agent_id: agent.id.clone(), cwd: cwd.clone() };
        }
    }
    if last_sent.is_some() {
        *last_sent = None;
        MetaTarget::Clear
    } else {
        MetaTarget::Keep
    }
}

/// What is found out about an agent changes no other, and of that one only what it
/// is about.
pub proof fn news_stays_with_its_agent<T>(
    agents: Seq<AgentModel<T>>,
    event: MetaEvent,
    i: int,
)
    requires
        0 <= i < agents.len() <= usize::MAX,
    ensures
        meta_applied(agents, event).len() == agents.len(),
        agents[i].id@ != event.about()@ ==> meta_applied(agents, event)[i] == agents[i],
        ({
            let after = meta_applied(agents, event)[i];
            after == agents[i] || after == informed(agents[i], event)
        }),
        meta_applied(agents, event)[i].id == agents[i].id,
{
    if exists|k: int| is_first(agents, event.about()@, k) {
        let k = choose|k: int| is_first(agents, event.about()@, k);
        assert(is_first(agents, event.about()@, k));
    }
}

/// Once the worker has been told it is not told again until the focus moves to
/// another agent, and then it watches the focused agent or nobody.
pub proof fn the_worker_follows_the_focus<T>(nav: NavModel<T>, last_sent: Option<AgentId>)
    ensures
        ({
            let watched = watched_after(meta_target(nav, last_sent), last_sent);
            &&& meta_target(nav, watched) is Keep
            &&& match focused_local(nav) {
                Some((id, _)) => watched is Some && watched->0@ == id@,
                None => watched is None,
            }
        }),
{
}

/// The agent that something was found out about learns it, whatever was known before:
/// its branch or its model, a lost one as well as a new one. Nothing else of it
/// changes, and nothing else is learned.
pub proof fn the_agent_learns_what_was_found<T>(
    agents: Seq<AgentModel<T>>,
    event: MetaEvent,
    i: int,
)
    requires
        agents.len() <= usize::MAX,
        is_first(agents, event.about()@, i),
    ensures
        ({
            let after = meta_applied(agents, event)[i];
            match event {
                MetaEvent::Branch { value, .. } => {
                    &&& after.branch == value
                    &&& after == (AgentModel { branch: after.branch, ..agents[i] })
                },
                MetaEvent::Model { value, .. } => {
                    &&& after.model_effort == value
                    &&& after == (AgentModel { model_effort: after.model_effort, ..agents[i] })
                },
            }
        }),
        match event {
            MetaEvent::Branch { agent_id, .. } => event.about() == agent_id,
            MetaEvent::Model { agent_id, .. } => event.about() == agent_id,
        },
{
    let k = choose|k: int| is_first(agents, event.about()@, k);
    assert(is_first(agents, event.about()@, k));
    if k < i {
        assert(agents[k].id@ != event.about()@);
    } else if i < k {
        assert(agents[i].id@ != event.about()@);
    }
}

/// News about an agent that is gone changes nothing.
pub proof fn news_of_the_gone_is_dropped<T>(agents: Seq<AgentModel<T>>, event: MetaEvent)
    requires
        forall|i: int| 0 <= i < agents.len() ==> (#[trigger] agents[i]).id@ != event.about()@,
    ensures
        meta_applied(agents, event) == agents,
{
    assert forall|k: int| !is_first(agents, event.about()@, k) by {
        if 0 <= k < agents.len() {
            assert(agents[k].id@ != event.about()@);
        }
    }
}

/// News is taken in the order in which it came: the last one is applied on top of all
/// the others.
pub proof fn news_is_taken_in_order<T>(
    agents: Seq<AgentModel<T>>,
    events: Seq<MetaEvent>,
    last: MetaEvent,
)
    ensures
        all_applied(agents, Seq::empty()) == agents,
        all_applied(agents, events.push(last)) == meta_applied(all_applied(agents, events), last),
    decreases events.len(),
{
    if events.len() == 0 {
        assert(events.push(last).skip(1) =~= Seq::<MetaEvent>::empty());
        reveal_with_fuel(all_applied, 2);
    } else {
        let rest = events.skip(1);
        assert(events.push(last).skip(1) =~= rest.push(last));
        news_is_taken_in_order(meta_applied(agents, events[0]), rest, last);
    }
}

/// The worker is told to watch the focused agent exactly when that has a directory on
/// this machine and is not the one watched; to watch nobody exactly when it has none
/// and somebody is watched; and otherwise nothing.
pub proof fn the_worker_is_told_of_changes_only<T>(nav: NavModel<T>, last_sent: Option<AgentId>)
    ensures
        ({
            let told = meta_target(nav, last_sent);
            let watched = watched_after(told, last_sent);
            let local = nav.focused < nav.agents.len() && nav.agents[nav.focused as int].cwd
                is Some;
            &&& local ==> {
                let agent = nav.agents[nav.focused as int];
                &&& last_sent is Some && last_sent->0@ == agent.id@ ==> told is Keep && watched
                    == last_sent
                &&& last_sent is None || last_sent->0@ != agent.id@ ==> told == (
                MetaTarget::Watch { agent_id: agent.id, cwd: agent.cwd->0 }) && watched == Some(
                    agent.id,
                )
            }
            &&& !local && last_sent is Some ==> told is Clear && watched is None
            &&& !local && last_sent is None ==> told is Keep && watched is None
        }),
{
}

} // verus!
