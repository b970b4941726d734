//! Every agent has an identity of its own.
//!
//! Agents are found by identity: by a click on a tab, by the news about them, by a
//! selection on their screen. These laws say that this names one agent only, from
//! the start of the program to its end.

use vstd::multiset::Multiset;
use vstd::prelude::*;

use crate::agent::AgentModel;
use crate::attach::{
    arrivals, done_marks, still_waiting, swap_removed, with_arrivals, without_owned,
};
use crate::frame::follow_up;
use crate::keymap::Bindings;
use crate::keys::MouseUrlModifier;
use crate::label::AnimationPhase;
use crate::nav::{finished_positions, moved, NavModel};
use crate::runtime::{reaction, Event, RuntimeModel};
use crate::spawn::{agent_name, completion, AttachEvent, PendingAttach};
use crate::text::{decimal, decimal_is_injective};

verus! {

/// The identities of agents, in their order.
pub open spec fn ids_of<T>(agents: Seq<AgentModel<T>>) -> Seq<Seq<char>> {
    agents.map_values(|a: AgentModel<T>| a.id@)
}

/// The identities of the agents that attaches will bring up.
pub open spec fn awaited_ids<A>(attaches: Seq<PendingAttach<A>>) -> Seq<Seq<char>> {
    attaches.map_values(|a: PendingAttach<A>| a.agent_id@)
}

/// The identities of all agents, those that are there and those to come.
pub open spec fn identities<T, A>(
    agents: Seq<AgentModel<T>>,
    attaches: Seq<PendingAttach<A>>,
) -> Multiset<Seq<char>> {
    ids_of(agents).to_multiset().add(awaited_ids(attaches).to_multiset())
}

/// Whether no two agents share an identity, and each is called by a number up to
/// `counter`.
pub open spec fn all_distinct(ids: Multiset<Seq<char>>, counter: usize) -> bool {
    forall|id: Seq<char>| #[trigger]
        ids.count(id) > 0 ==> ids.count(id) == 1 && exists|k: usize|
            k <= counter && id == #[trigger] agent_name(k)
}

/// Agents with different numbers have different names.
pub proof fn agent_names_are_distinct(a: usize, b: usize)
    ensures
        agent_name(a) == agent_name(b) ==> a == b,
{
    reveal_strlit("agent-");
    if agent_name(a) == agent_name(b) {
        assert(agent_name(a).skip(6) =~= decimal(a as nat));
        assert(agent_name(b).skip(6) =~= decimal(b as nat));
        decimal_is_injective(a as nat, b as nat);
    }
}

/// The agent the program starts with is the only one of its identity.
pub proof fn the_first_agent_is_number_one<T, A>(agent: AgentModel<T>)
    requires
        agent.id@ == "agent-1"@,
    ensures
        all_distinct(identities(seq![agent], Seq::<PendingAttach<A>>::empty()), 1),
{
    broadcast use vstd::multiset::group_multiset_axioms;

    reveal_strlit("agent-1");
    reveal_strlit("agent-");
    assert(agent_name(1) =~= "agent-1"@);
    assert(ids_of(seq![agent]) =~= Seq::empty().push(agent.id@));
    vstd::seq_lib::to_multiset_build(Seq::<Seq<char>>::empty(), agent.id@);
    assert(awaited_ids(Seq::<PendingAttach<A>>::empty()) =~= Seq::empty());
    vstd::seq_lib::to_multiset_len(Seq::<Seq<char>>::empty());
}

proof fn a_new_number_is_unused(ids: Multiset<Seq<char>>, counter: usize)
    requires
        all_distinct(ids, counter),
        counter < usize::MAX,
    ensures
        all_distinct(ids.insert(agent_name((counter + 1) as usize)), (counter + 1) as usize),
{
    broadcast use vstd::multiset::group_multiset_axioms;

    let next = (counter + 1) as usize;
    let new = agent_name(next);
    if ids.count(new) > 0 {
        let k = choose|k: usize| k <= counter && new == #[trigger] agent_name(k);
        agent_names_are_distinct(next, k);
    }
    let more = ids.insert(new);
    assert forall|id: Seq<char>| #[trigger] more.count(id) > 0 implies more.count(id) == 1
        && exists|k: usize| k <= next && id == #[trigger] agent_name(k) by {
        if id == new {
            assert(id == agent_name(next));
        } else {
            assert(ids.count(id) > 0);
        }
    }
}

/// An agent that is started here, or an attach that is begun, takes a number that
/// no other agent has.
pub proof fn starting_keeps_identities_distinct<T, A>(
    nav: NavModel<T>,
    attaches: Seq<PendingAttach<A>>,
    counter: usize,
    agent: AgentModel<T>,
    attach: PendingAttach<A>,
)
    requires
        all_distinct(identities(nav.agents, attaches), counter),
        counter < usize::MAX,
        nav.agents.len() < usize::MAX,
        agent.id@ == agent_name((counter + 1) as usize),
        attach.agent_id@ == agent_name((counter + 1) as usize),
    ensures
        all_distinct(
            identities(nav.with_new_agent(agent).agents, attaches),
            (counter + 1) as usize,
        ),
        all_distinct(identities(nav.agents, attaches.push(attach)), (counter + 1) as usize),
{
    broadcast use vstd::multiset::group_multiset_axioms;

    let ids = identities(nav.agents, attaches);
    let new = agent_name((counter + 1) as usize);
    a_new_number_is_unused(ids, counter);
    assert(ids_of(nav.with_new_agent(agent).agents) =~= ids_of(nav.agents).push(new));
    vstd::seq_lib::to_multiset_build(ids_of(nav.agents), new);
    assert(identities(nav.with_new_agent(agent).agents, attaches) =~= ids.insert(new));
    assert(awaited_ids(attaches.push(attach)) =~= awaited_ids(attaches).push(new));
    vstd::seq_lib::to_multiset_build(awaited_ids(attaches), new);
    assert(identities(nav.agents, attaches.push(attach)) =~= ids.insert(new));
}

proof fn arrivals_look_at_the_first<A, S, T>(
    a: Seq<PendingAttach<A>>,
    b: Seq<PendingAttach<A>>,
    events: Seq<Vec<AttachEvent<S, T>>>,
    scrollback_len: usize,
    n: nat,
)
    requires
        n <= a.len(),
        n <= b.len(),
        forall|i: int| 0 <= i < n ==> a[i] == b[i],
    ensures
        arrivals(a, events, scrollback_len, n) == arrivals(b, events, scrollback_len, n),
    decreases n,
{
    if n > 0 {
        arrivals_look_at_the_first(a, b, events, scrollback_len, (n - 1) as nat);
    }
}

proof fn one_more_arrives(
    there: Multiset<Seq<char>>,
    waiting: Multiset<Seq<char>>,
    all: Multiset<Seq<char>>,
    id: Seq<char>,
)
    requires
        there.add(waiting) == all.remove(id),
        all.count(id) > 0,
    ensures
        there.insert(id).add(waiting) == all,
{
    broadcast use vstd::multiset::group_multiset_axioms;

    assert forall|other: Seq<char>|
        #![trigger there.insert(id).add(waiting).count(other)]
        there.insert(id).add(waiting).count(other) == all.count(other) by {
        assert(there.add(waiting).count(other) == all.remove(id).count(other));
    }
    assert(there.insert(id).add(waiting) =~= all);
}

proof fn each_attach_arrives_or_waits<A, S, T>(
    attaches: Seq<PendingAttach<A>>,
    events: Seq<Vec<AttachEvent<S, T>>>,
    scrollback_len: usize,
    n: nat,
)
    requires
        n <= attaches.len(),
        n <= events.len(),
    ensures
        identities(
            arrivals(attaches, events, scrollback_len, n),
            still_waiting(attaches, done_marks(events), n),
        ) == awaited_ids(attaches).to_multiset(),
    decreases n,
{
    broadcast use vstd::multiset::group_multiset_axioms;

    let done = done_marks(events);
    let before = arrivals(attaches, events, scrollback_len, (n - 1) as nat);
    if n == 0 {
        let none = Seq::<AgentModel<T>>::empty();
        broadcast use vstd::seq_lib::to_multiset_contains;

        assert(ids_of(none) =~= Seq::empty());
        assert(identities(none, attaches) =~= awaited_ids(attaches).to_multiset());
    } else if done[n - 1] {
        let fewer = swap_removed(attaches, n - 1);
        let id = attaches[n - 1].agent_id@;
        arrivals_look_at_the_first(attaches, fewer, events, scrollback_len, (n - 1) as nat);
        each_attach_arrives_or_waits(fewer, events, scrollback_len, (n - 1) as nat);
        assert(awaited_ids(fewer) =~= swap_removed(awaited_ids(attaches), n - 1));
        crate::attach::swap_removal_takes_one(awaited_ids(attaches), n - 1);
        assert(awaited_ids(attaches)[n - 1] == id);
        vstd::seq_lib::to_multiset_contains(awaited_ids(attaches), id);
        assert(completion(events[n - 1]@) is Some);
        assert(ids_of(arrivals(attaches, events, scrollback_len, n)) =~= ids_of(before).push(id));
        vstd::seq_lib::to_multiset_build(ids_of(before), id);
        one_more_arrives(
            ids_of(before).to_multiset(),
            awaited_ids(still_waiting(fewer, done, (n - 1) as nat)).to_multiset(),
            awaited_ids(attaches).to_multiset(),
            id,
        );
    } else {
        each_attach_arrives_or_waits(attaches, events, scrollback_len, (n - 1) as nat);
    }
}

/// When attaches are done their agents keep the identities they were awaited
/// under: there are the same identities as before, each as often.
pub proof fn arriving_keeps_identities<A, S, T>(
    nav: NavModel<T>,
    attaches: Seq<PendingAttach<A>>,
    events: Seq<Vec<AttachEvent<S, T>>>,
    scrollback_len: usize,
)
    requires
        events.len() == attaches.len(),
        nav.agents.len() + attaches.len() < usize::MAX,
    ensures
        identities(
            with_arrivals(nav, arrivals(attaches, events, scrollback_len, events.len())).agents,
            still_waiting(attaches, done_marks(events), events.len()),
        ) == identities(nav.agents, attaches),
{
    broadcast use vstd::multiset::group_multiset_axioms;

    let new = arrivals(attaches, events, scrollback_len, events.len());
    let waiting = still_waiting(attaches, done_marks(events), events.len());
    each_attach_arrives_or_waits(attaches, events, scrollback_len, events.len());
    assert(ids_of(with_arrivals(nav, new).agents) =~= ids_of(nav.agents) + ids_of(new));
    vstd::seq_lib::lemma_multiset_commutative(ids_of(nav.agents), ids_of(new));
    assert(identities(with_arrivals(nav, new).agents, waiting) =~= identities(
        nav.agents,
        attaches,
    ));
}

proof fn fewer_stay_distinct<T, A>(
    before: Seq<AgentModel<T>>,
    after: Seq<AgentModel<T>>,
    attaches: Seq<PendingAttach<A>>,
    counter: usize,
)
    requires
        all_distinct(identities(before, attaches), counter),
        ids_of(after).to_multiset().subset_of(ids_of(before).to_multiset()),
    ensures
        all_distinct(identities(after, attaches), counter),
{
    broadcast use vstd::multiset::group_multiset_axioms;

    let ids = identities(after, attaches);
    assert forall|id: Seq<char>| #[trigger] ids.count(id) > 0 implies ids.count(id) == 1 && exists|
        k: usize,
    |
        k <= counter && id == #[trigger] agent_name(k) by {
        assert(identities(before, attaches).count(id) > 0);
    }
}

proof fn taking_one_out_leaves_fewer<T>(nav: NavModel<T>, idx: usize)
    ensures
        ids_of(nav.without(idx).agents).to_multiset().subset_of(ids_of(nav.agents).to_multiset()),
{
    broadcast use vstd::multiset::group_multiset_axioms;

    if idx < nav.agents.len() {
        assert(ids_of(nav.without(idx).agents) =~= ids_of(nav.agents).remove(idx as int));
        vstd::seq_lib::to_multiset_remove(ids_of(nav.agents), idx as int);
    }
}

proof fn moving_keeps_identities<T>(agents: Seq<AgentModel<T>>, from: usize, to: usize)
    ensures
        ids_of(moved(agents, from, to)).to_multiset() == ids_of(agents).to_multiset(),
{
    broadcast use vstd::multiset::group_multiset_axioms;

    if from < agents.len() && to < agents.len() {
        let ids = ids_of(agents);
        let id = agents[from as int].id@;
        assert(ids_of(moved(agents, from, to)) =~= ids.remove(from as int).insert(to as int, id));
        assert(ids[from as int] == id);
        vstd::seq_lib::to_multiset_remove(ids, from as int);
        vstd::seq_lib::to_multiset_insert(ids.remove(from as int), to as int, id);
        vstd::seq_lib::to_multiset_contains(ids, id);
        assert(ids.to_multiset().remove(id).insert(id) =~= ids.to_multiset());
    }
}

/// Whatever the user does, no agent gets another's identity: the identities that
/// are there afterwards were there before.
pub proof fn events_make_no_identities<T, M>(
    ui: RuntimeModel<T, M>,
    event: Event,
    bindings: Bindings,
    url_modifier: MouseUrlModifier,
    log_strip: bool,
)
    ensures
        ids_of(
            reaction(ui, event, bindings, url_modifier, log_strip).0.nav.agents,
        ).to_multiset().subset_of(ids_of(ui.nav.agents).to_multiset()),
{
    broadcast use vstd::multiset::group_multiset_axioms;

    let after = reaction(ui, event, bindings, url_modifier, log_strip).0;
    taking_one_out_leaves_fewer(ui.nav, ui.nav.focused);
    if let Event::Mouse { kind, column, row, .. } = event {
        let hit = crate::mouse::first_hit(ui.tabs, column, row);
        if let Some(crate::mouse::TabMouseDispatch::Reorder { from, to }) =
            crate::mouse::tab_dispatched(kind, hit, ui.mouse_press) {
            if let (Some(f), Some(t)) = (
                crate::nav::position_of(ui.nav.agents, from@),
                crate::nav::position_of(ui.nav.agents, to@),
            ) {
                moving_keeps_identities(ui.nav.agents, f, t);
            }
        }
    }
    if after.nav.agents.len() == ui.nav.agents.len() && forall|i: int|
        0 <= i < ui.nav.agents.len() ==> (#[trigger] after.nav.agents[i]).id@
            == ui.nav.agents[i].id@ {
        assert(ids_of(after.nav.agents) =~= ids_of(ui.nav.agents));
    }
}

proof fn taking_several_out_leaves_fewer<T>(nav: NavModel<T>, gone: Seq<bool>, n: nat)
    requires
        n <= nav.agents.len(),
        nav.agents.len() <= usize::MAX,
    ensures
        ids_of(nav.without_marked(gone, n).agents).to_multiset().subset_of(
            ids_of(nav.agents).to_multiset(),
        ),
    decreases n,
{
    broadcast use vstd::multiset::group_multiset_axioms;

    if n > 0 {
        if gone[n - 1] {
            taking_one_out_leaves_fewer(nav, (n - 1) as usize);
            taking_several_out_leaves_fewer(nav.without((n - 1) as usize), gone, (n - 1) as nat);
        } else {
            taking_several_out_leaves_fewer(nav, gone, (n - 1) as nat);
        }
    }
}

/// No two agents come to share an identity: whatever the user does, whatever agents
/// finish or end, and whatever is called off.
pub proof fn identities_stay_distinct<T, M, A>(
    ui: RuntimeModel<T, M>,
    attaches: Seq<PendingAttach<A>>,
    counter: usize,
    event: Event,
    bindings: Bindings,
    url_modifier: MouseUrlModifier,
    log_strip: bool,
    exits: Seq<Option<i32>>,
    bell_on_finish: bool,
    yield_on_failed: bool,
    phase: AnimationPhase,
)
    requires
        all_distinct(identities(ui.nav.agents, attaches), counter),
        ui.nav.agents.len() <= usize::MAX,
        exits.len() == ui.nav.agents.len(),
    ensures
        all_distinct(
            identities(
                reaction(ui, event, bindings, url_modifier, log_strip).0.nav.agents,
                attaches,
            ),
            counter,
        ),
        all_distinct(
            identities(
                follow_up(ui, exits, bell_on_finish, yield_on_failed, phase).0.nav.agents,
                attaches,
            ),
            counter,
        ),
        all_distinct(identities(ui.nav.agents, without_owned(attaches)), counter),
{
    broadcast use vstd::multiset::group_multiset_axioms;

    events_make_no_identities(ui, event, bindings, url_modifier, log_strip);
    fewer_stay_distinct(
        ui.nav.agents,
        reaction(ui, event, bindings, url_modifier, log_strip).0.nav.agents,
        attaches,
        counter,
    );
    let looked = ui.nav.with_transitions(
        finished_positions(ui.nav.agents),
        ui.nav.agents.map_values(|a: AgentModel<T>| a.working()),
    );
    let marked = NavModel {
        agents: Seq::new(
            looked.agents.len(),
            |i: int|
                if exits[i] is Some && exits[i]->0 != 0 {
                    looked.agents[i].crashed(exits[i]->0)
                } else {
                    looked.agents[i]
                },
        ),
        ..looked
    };
    let gone = Seq::new(
        looked.agents.len(),
        |i: int| looked.agents[i].state is Ready && exits[i] == Some(0i32),
    );
    assert(ids_of(marked.agents) =~= ids_of(ui.nav.agents));
    taking_several_out_leaves_fewer(marked, gone, looked.agents.len());
    fewer_stay_distinct(
        ui.nav.agents,
        follow_up(ui, exits, bell_on_finish, yield_on_failed, phase).0.nav.agents,
        attaches,
        counter,
    );
    calling_off_keeps_identities_distinct(ui.nav.agents, attaches, counter);
}

proof fn calling_off_keeps_identities_distinct<T, A>(
    agents: Seq<AgentModel<T>>,
    attaches: Seq<PendingAttach<A>>,
    counter: usize,
)
    requires
        all_distinct(identities(agents, attaches), counter),
    ensures
        all_distinct(identities(agents, without_owned(attaches)), counter),
{
    broadcast use vstd::multiset::group_multiset_axioms;

    if exists|i: int| crate::attach::first_owned(attaches, i) {
        let i = choose|i: int| crate::attach::first_owned(attaches, i);
        assert(awaited_ids(swap_removed(attaches, i)) =~= swap_removed(awaited_ids(attaches), i));
        crate::attach::swap_removal_takes_one(awaited_ids(attaches), i);
        let ids = identities(agents, without_owned(attaches));
        assert forall|id: Seq<char>| #[trigger] ids.count(id) > 0 implies ids.count(id) == 1
            && exists|k: usize| k <= counter && id == #[trigger] agent_name(k) by {
            assert(identities(agents, attaches).count(id) > 0);
        }
    }
}

} // verus!
