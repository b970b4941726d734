//! Attaches under way: what becomes of them when their workers are done, and how
//! the user takes one back.

use vstd::prelude::*;

use crate::agent::{AgentModel, RuntimeAgent, StateModel, TitleCapture};
use crate::nav::{models, NavModel, NavState};
use crate::screen::{blank_screen, fresh};
use crate::spawn::{
    completion, split_events, stages_before_done, AttachEvent, PendingAttach, PendingPrepare,
};

verus! {

/// `items` without the one at `i`, whose place the last one takes.
pub open spec fn swap_removed<A>(items: Seq<A>, i: int) -> Seq<A> {
    items.update(i, items.last()).drop_last()
}

/// Whether `i` is the position of the first attach the dialog waits for.
pub open spec fn first_owned<A>(attaches: Seq<PendingAttach<A>>, i: int) -> bool {
    &&& 0 <= i < attaches.len()
    &&& attaches[i].modal_owner
    &&& forall|j: int| 0 <= j < i ==> !(#[trigger] attaches[j]).modal_owner
}

/// The attaches without the first one that the dialog waits for, if there is one.
pub open spec fn without_owned<A>(attaches: Seq<PendingAttach<A>>) -> Seq<PendingAttach<A>> {
    if exists|i: int| first_owned(attaches, i) {
        swap_removed(attaches, choose|i: int| first_owned(attaches, i))
    } else {
        attaches
    }
}

/// Takes back the attach the spawn dialog waits for, if there is one. Others go on.
pub fn cancel_modal_owned_attach<A>(attaches: &mut Vec<PendingAttach<A>>)
    ensures
        final(attaches)@ == without_owned(old(attaches)@),
{
    let total: usize = attaches.len();
    for i in 0..total
        invariant
            total == attaches@.len(),
            attaches@ == old(attaches)@,
            forall|j: int| 0 <= j < i ==> !(#[trigger] attaches@[j]).modal_owner,
    {
        if attaches[i].modal_owner {
            proof {
                assert(first_owned(attaches@, i as int));
                let k = choose|k: int| first_owned(attaches@, k);
                assert(first_owned(attaches@, k));
                assert(k == i) by {
                    if k < i {
                        assert(!attaches@[k].modal_owner);
                    } else if i < k {
                        assert(!attaches@[i as int].modal_owner);
                    }
                }
            }
            let cancelled = attaches.swap_remove(i);
            assert(attaches@ =~= swap_removed(old(attaches)@, i as int));
            return ;
        }
    }
    assert forall|k: int| !first_owned(attaches@, k) by {
        if 0 <= k < attaches@.len() {
            assert(!attaches@[k].modal_owner);
        }
    }
}

/// The agent that an attach brings up: a live one over the transport, or a failed
/// one with the reason.
pub open spec fn attached_agent<A, T>(
    attach: PendingAttach<A>,
    result: Result<T, String>,
    scrollback_len: usize,
) -> AgentModel<T> {
    AgentModel {
        id: attach.agent_id,
        label: attach.label,
        repo: attach.repo,
        cwd: None,
        host: Some(attach.host),
        model_effort: None,
        branch: None,
        last_working: false,
        needs_attention: false,
        rows: attach.rows,
        cols: attach.cols,
        state: match result {
            Ok(transport) => StateModel::Ready {
                parser: fresh(attach.rows, attach.cols, scrollback_len as nat),
                screen: blank_screen(attach.rows, attach.cols, scrollback_len as nat),
                title: TitleCapture { title: None, working: false },
                transport,
            },
            Err(error) => StateModel::Failed { error },
        },
    }
}

/// The agents that the first `n` attaches bring up.
pub open spec fn arrivals<A, S, T>(
    attaches: Seq<PendingAttach<A>>,
    events: Seq<Vec<AttachEvent<S, T>>>,
    scrollback_len: usize,
    n: nat,
) -> Seq<AgentModel<T>>
    decreases n,
{
    if n == 0 {
        Seq::empty()
    } else {
        let before = arrivals(attaches, events, scrollback_len, (n - 1) as nat);
        match completion(events[n - 1]@) {
            Some(result) => before.push(attached_agent(attaches[n - 1], result, scrollback_len)),
            None => before,
        }
    }
}

/// The stages that the first `n` attaches report to the dialog that waits for them.
pub open spec fn awaited_stages<A, S, T>(
    attaches: Seq<PendingAttach<A>>,
    events: Seq<Vec<AttachEvent<S, T>>>,
    n: nat,
) -> Seq<S>
    decreases n,
{
    if n == 0 {
        Seq::empty()
    } else {
        let before = awaited_stages(attaches, events, (n - 1) as nat);
        if attaches[n - 1].modal_owner {
            before + stages_before_done(events[n - 1]@)
        } else {
            before
        }
    }
}

/// Whether an attach is done and has a transport.
pub open spec fn came_up<S, T>(events: Seq<AttachEvent<S, T>>) -> bool {
    completion(events) is Some && completion(events)->0 is Ok
}

/// Whether one of the first `n` attaches that is done is one the dialog waits for.
pub open spec fn owned_is_done<A, S, T>(
    attaches: Seq<PendingAttach<A>>,
    events: Seq<Vec<AttachEvent<S, T>>>,
    n: int,
) -> bool {
    exists|i: int|
        0 <= i < n && (#[trigger] attaches[i]).modal_owner && completion(events[i]@) is Some
}

/// The attaches without those of the first `n` that are marked done, the last one
/// taken out first.
pub open spec fn still_waiting<A>(attaches: Seq<PendingAttach<A>>, done: Seq<bool>, n: nat) -> Seq<
    PendingAttach<A>,
>
    decreases n,
{
    if n == 0 {
        attaches
    } else if done[n - 1] {
        still_waiting(swap_removed(attaches, n - 1), done, (n - 1) as nat)
    } else {
        still_waiting(attaches, done, (n - 1) as nat)
    }
}

/// Which attaches are done.
pub open spec fn done_marks<S, T>(events: Seq<Vec<AttachEvent<S, T>>>) -> Seq<bool> {
    Seq::new(events.len(), |i: int| completion(events[i]@) is Some)
}

/// The navigator with new agents at the end, the last of them focused.
pub open spec fn with_arrivals<T>(nav: NavModel<T>, new: Seq<AgentModel<T>>) -> NavModel<T> {
    let extended = NavModel { agents: nav.agents + new, ..nav };
    if new.len() > 0 {
        extended.focused_on((extended.agents.len() - 1) as usize)
    } else {
        extended
    }
}

fn agent_of<A, T>(
    attach: &PendingAttach<A>,
    result: Result<T, String>,
    scrollback_len: usize,
) -> (r: RuntimeAgent<T>)
    requires
        result is Ok ==> attach.rows > 0,
    ensures
        r@ == attached_agent(*attach, result, scrollback_len),
{
    let repo = match &attach.repo {
        Some(repo) => Some(repo.clone()),
        None => None,
    };
    match result {
        Ok(transport) => RuntimeAgent::ready(
            attach.agent_id.clone(),
            attach.label.clone(),
            repo,
            None,
            Some(attach.host.clone()),
            transport,
            attach.rows,
            attach.cols,
            scrollback_len,
        ),
        Err(error) => RuntimeAgent::failed(
            attach.agent_id.clone(),
            attach.label.clone(),
            repo,
            None,
            attach.host.clone(),
            error,
            attach.rows,
            attach.cols,
        ),
    }
}

fn remove_done<A>(attaches: &mut Vec<PendingAttach<A>>, done: &Vec<bool>)
    requires
        done@.len() == old(attaches)@.len(),
    ensures
        final(attaches)@ == still_waiting(old(attaches)@, done@, done@.len()),
{
    let ghost goal = still_waiting(attaches@, done@, done@.len());
    let mut n: usize = done.len();
    while n > 0
        invariant
            n <= done@.len(),
            n <= attaches@.len(),
            still_waiting(attaches@, done@, n as nat) == goal,
        decreases n,
    {
        n = n - 1;
        if done[n] {
            let ghost before = attaches@;
            let finished = attaches.swap_remove(n);
            assert(attaches@ =~= swap_removed(before, n as int));
        }
    }
}

/// Brings up the agents whose attaches are done, and drops those attaches.
///
/// `events` holds, for each attach, what its worker has reported. A finished
/// attach becomes a live agent, or a failed one that says why; the last of the
/// new agents gets the focus. If the dialog waited for one of them it closes, and
/// the preparation it came from is over. Answers the stages to show to the dialog.
pub fn drain_attach_events<S, T, M, A, F, H>(
    nav: &mut NavState<T>,
    spawn_ui: &mut Option<M>,
    prepare: &mut Option<PendingPrepare<F, H>>,
    attaches: &mut Vec<PendingAttach<A>>,
    events: Vec<Vec<AttachEvent<S, T>>>,
    scrollback_len: usize,
) -> (r: Vec<S>)
    requires
        events@.len() == old(attaches)@.len(),
        forall|i: int|
            0 <= i < events@.len() && came_up((#[trigger] events@[i])@) ==> old(attaches)@[i].rows
                > 0,
    ensures
        final(nav)@ == with_arrivals(
            old(nav)@,
            arrivals(old(attaches)@, events@, scrollback_len, events@.len()),
        ),
        final(attaches)@ == still_waiting(old(attaches)@, done_marks(events@), events@.len()),
        r@ == if *old(spawn_ui) is Some {
            awaited_stages(old(attaches)@, events@, events@.len())
        } else {
            Seq::empty()
        },
        owned_is_done(old(attaches)@, events@, events@.len() as int) ==> *final(spawn_ui) is None
            && *final(prepare) is None,
        !owned_is_done(old(attaches)@, events@, events@.len() as int) ==> *final(spawn_ui) == *old(
            spawn_ui,
        ) && *final(prepare) == *old(prepare),
{
    let ghost all = events@;
    let ghost before = nav@;
    let open = spawn_ui.is_some();
    let mut rest = events;
    let mut shown: Vec<S> = Vec::new();
    let mut done: Vec<bool> = Vec::new();
    let mut new_agents: Vec<RuntimeAgent<T>> = Vec::new();
    let mut close_modal = false;
    let total: usize = attaches.len();
    assert(models(new_agents@) =~= Seq::<AgentModel<T>>::empty());
    assert(rest@ =~= all.skip(0));
    for i in 0..total
        invariant
            total == attaches@.len(),
            attaches@ == old(attaches)@,
            all.len() == total,
            rest@ == all.skip(i as int),
            forall|j: int|
                0 <= j < total && came_up((#[trigger] all[j])@) ==> attaches@[j].rows > 0,
            models(new_agents@) == arrivals(attaches@, all, scrollback_len, i as nat),
            done@ == done_marks(all).take(i as int),
            shown@ == if open {
                awaited_stages(attaches@, all, i as nat)
            } else {
                Seq::<S>::empty()
            },
            close_modal == owned_is_done(attaches@, all, i as int),
    {
        let reported = rest.remove(0);
        assert(reported == all[i as int]);
        assert(rest@ =~= all.skip(i + 1));
        let attach = &attaches[i];
        let (mut stages, completed) = split_events(reported);
        if open && attach.modal_owner {
            shown.append(&mut stages);
        }
        done.push(completed.is_some());
        assert(done@ =~= done_marks(all).take(i + 1));
        if let Some(result) = completed {
            let ghost agents_before = new_agents@;
            let agent = agent_of(attach, result, scrollback_len);
            new_agents.push(agent);
            assert(models(new_agents@) =~= models(agents_before).push(agent@));
            if attach.modal_owner {
                close_modal = true;
                assert(attaches@[i as int].modal_owner && completion(all[i as int]@) is Some);
            }
        }
        assert(close_modal == owned_is_done(attaches@, all, i + 1)) by {
            if owned_is_done(attaches@, all, i + 1) {
                let k = choose|k: int|
                    0 <= k < i + 1 && (#[trigger] attaches@[k]).modal_owner && completion(
                        all[k]@,
                    ) is Some;
                if k < i {
                    assert(owned_is_done(attaches@, all, i as int));
                }
            }
            if owned_is_done(attaches@, all, i as int) {
                let k = choose|k: int|
                    0 <= k < i && (#[trigger] attaches@[k]).modal_owner && completion(
                        all[k]@,
                    ) is Some;
                assert(attaches@[k].modal_owner);
            }
        }
    }
    assert(done_marks(all).take(total as int) =~= done_marks(all));
    if close_modal {
        *spawn_ui = None;
        *prepare = None;
    }
    remove_done(attaches, &done);
    let new_count: usize = new_agents.len();
    let ghost agents_before = nav.agents@;
    let ghost new_before = new_agents@;
    nav.agents.append(&mut new_agents);
    assert(models(nav.agents@) =~= models(agents_before) + models(new_before));
    if new_count > 0 {
        let target: usize = nav.agents.len() - 1;
        nav.change_focus(target);
    }
    shown
}

/// `items` without those of the first `n` that are marked, in order.
pub open spec fn without_done<A>(items: Seq<A>, done: Seq<bool>, n: nat) -> Seq<A>
    decreases n,
{
    if n == 0 {
        items
    } else if done[n - 1] {
        without_done(items.remove(n - 1), done, (n - 1) as nat)
    } else {
        without_done(items, done, (n - 1) as nat)
    }
}

pub(crate) proof fn swap_removal_takes_one<A>(items: Seq<A>, i: int)
    requires
        0 <= i < items.len(),
    ensures
        swap_removed(items, i).to_multiset() == items.to_multiset().remove(items[i]),
{
    broadcast use {
        vstd::seq_lib::to_multiset_insert,
        vstd::seq_lib::to_multiset_remove,
        vstd::multiset::group_multiset_axioms,
    };

    let last = items.len() - 1;
    assert(items.drop_last() =~= items.remove(last));
    if i == last {
        assert(swap_removed(items, i) =~= items.remove(last));
    } else {
        let fewer = items.remove(last).remove(i);
        assert(swap_removed(items, i) =~= fewer.insert(i, items.last()));
        assert(items.remove(last)[i] == items[i]);
        assert(items.remove(i)[last - 1] == items[last]);
        assert(items.remove(i).remove(last - 1) =~= fewer);
        assert(items.remove(i) =~= items.remove(i).remove(last - 1).insert(
            last - 1,
            items[last],
        ));
    }
}

proof fn removals_agree<A>(
    a: Seq<PendingAttach<A>>,
    b: Seq<PendingAttach<A>>,
    done: Seq<bool>,
    n: nat,
)
    requires
        n <= a.len(),
        a.len() == b.len(),
        forall|i: int| 0 <= i < n ==> a[i] == b[i],
        a.to_multiset() == b.to_multiset(),
    ensures
        still_waiting(a, done, n).to_multiset() == without_done(b, done, n).to_multiset(),
    decreases n,
{
    if n > 0 {
        if done[n - 1] {
            swap_removal_takes_one(a, n - 1);
            vstd::seq_lib::to_multiset_remove(b, n - 1);
            assert(a[n - 1] == b[n - 1]);
            removals_agree(swap_removed(a, n - 1), b.remove(n - 1), done, (n - 1) as nat);
        } else {
            removals_agree(a, b, done, (n - 1) as nat);
        }
    }
}

/// The attaches that are still waited for are, up to their order, those that were
/// waited for and are not done: none is lost, none is kept by mistake.
pub proof fn unfinished_attaches_stay<A>(attaches: Seq<PendingAttach<A>>, done: Seq<bool>)
    requires
        done.len() == attaches.len(),
    ensures
        still_waiting(attaches, done, done.len()).to_multiset() == without_done(
            attaches,
            done,
            done.len(),
        ).to_multiset(),
{
    removals_agree(attaches, attaches, done, done.len());
}

/// Cancelling leaves no attach that the dialog waits for, as long as it waits for
/// at most one, and takes no other.
pub proof fn cancelling_takes_only_the_awaited<A>(attaches: Seq<PendingAttach<A>>)
    requires
        forall|i: int, j: int|
            0 <= i < attaches.len() && 0 <= j < attaches.len() && (
            #[trigger] attaches[i]).modal_owner && (#[trigger] attaches[j]).modal_owner ==> i == j,
    ensures
        forall|k: int|
            0 <= k < without_owned(attaches).len() ==> !(#[trigger] without_owned(
                attaches,
            )[k]).modal_owner,
        forall|k: int|
            0 <= k < attaches.len() && !(#[trigger] attaches[k]).modal_owner ==> without_owned(
                attaches,
            ).contains(attaches[k]),
        without_owned(attaches).len() >= attaches.len() - 1,
        (forall|k: int| 0 <= k < attaches.len() ==> !(#[trigger] attaches[k]).modal_owner)
            ==> without_owned(attaches) == attaches,
{
    if exists|i: int| first_owned(attaches, i) {
        let i = choose|i: int| first_owned(attaches, i);
        assert(attaches[i].modal_owner);
        assert forall|k: int|
            0 <= k < attaches.len() && !(#[trigger] attaches[k]).modal_owner implies without_owned(
            attaches,
        ).contains(attaches[k]) by {
            if k < attaches.len() - 1 {
                assert(without_owned(attaches)[k] == attaches[k]);
            } else {
                assert(without_owned(attaches)[i] == attaches[k]);
            }
        }
    } else {
        assert forall|k: int| 0 <= k < attaches.len() implies !(#[trigger] attaches[k]).modal_owner by {
            if attaches[k].modal_owner {
                assert(!first_owned(attaches, k));
                let j = choose|j: int| 0 <= j < k && attaches[j].modal_owner;
                assert(attaches[j].modal_owner && attaches[k].modal_owner);
            }
        }
    }
}

/// Taking one out of a list by putting the last in its place keeps all others, and
/// moves only the last.
pub proof fn swapping_out_moves_only_the_last<A>(items: Seq<A>, i: int, k: int)
    requires
        0 <= i < items.len(),
        0 <= k < items.len() - 1,
    ensures
        swap_removed(items, i).len() == items.len() - 1,
        k != i ==> swap_removed(items, i)[k] == items[k],
        k == i ==> swap_removed(items, i)[k] == items[items.len() - 1],
{
}

/// Cancelling takes the first attach that the dialog waits for out of the list, and
/// nothing where it waits for none.
pub proof fn cancelling_takes_the_first_awaited<A>(attaches: Seq<PendingAttach<A>>, i: int)
    ensures
        0 <= i < attaches.len() && attaches[i].modal_owner && (forall|j: int|
            0 <= j < i ==> !(#[trigger] attaches[j]).modal_owner) ==> without_owned(attaches)
            == swap_removed(attaches, i),
        (forall|j: int| 0 <= j < attaches.len() ==> !(#[trigger] attaches[j]).modal_owner)
            ==> without_owned(attaches) == attaches,
{
    if 0 <= i < attaches.len() && attaches[i].modal_owner && (forall|j: int|
        0 <= j < i ==> !(#[trigger] attaches[j]).modal_owner) {
        assert(first_owned(attaches, i));
        let k = choose|k: int| first_owned(attaches, k);
        assert(first_owned(attaches, k));
        if k < i {
            assert(!attaches[k].modal_owner);
        } else if i < k {
            assert(!attaches[i].modal_owner);
        }
    }
}

/// The agent that an attach brings up has the identity, label, host, repository and
/// size of the attach, and asks for nothing. It is live over the transport with a
/// blank screen where there is one, and else failed with the reason.
pub proof fn an_attach_brings_up_its_agent<A, T>(
    attach: PendingAttach<A>,
    result: Result<T, String>,
    scrollback_len: usize,
)
    ensures
        ({
            let agent = attached_agent(attach, result, scrollback_len);
            &&& agent.id == attach.agent_id && agent.label == attach.label
            &&& agent.host == Some(attach.host) && agent.repo == attach.repo
            &&& agent.rows == attach.rows && agent.cols == attach.cols
            &&& agent.cwd is None && agent.branch is None && agent.model_effort is None
            &&& !agent.last_working && !agent.needs_attention
            &&& match result {
                Ok(transport) => {
                    &&& agent.state is Ready
                    &&& agent.state->transport == transport
                    &&& agent.state->Ready_screen == blank_screen(
                        attach.rows,
                        attach.cols,
                        scrollback_len as nat,
                    )
                    &&& agent.title() is None && !agent.working()
                },
                Err(error) => agent.state is Failed && agent.state->error == error,
            }
        }),
{
}

/// One attach more brings up one agent more exactly when its worker is done, after
/// all the others, and adds its stages to what the dialog sees exactly when the dialog
/// waits for it.
pub proof fn each_attach_adds_its_own<A, S, T>(
    attaches: Seq<PendingAttach<A>>,
    events: Seq<Vec<AttachEvent<S, T>>>,
    scrollback_len: usize,
    n: nat,
)
    ensures
        arrivals(attaches, events, scrollback_len, 0).len() == 0,
        ({
            let before = arrivals(attaches, events, scrollback_len, n);
            let after = arrivals(attaches, events, scrollback_len, n + 1);
            &&& completion(events[n as int]@) is None ==> after == before
            &&& completion(events[n as int]@) is Some ==> {
                &&& after.len() == before.len() + 1
                &&& after.drop_last() == before
                &&& after.last() == attached_agent(
                    attaches[n as int],
                    completion(events[n as int]@)->0,
                    scrollback_len,
                )
            }
        }),
        awaited_stages(attaches, events, 0).len() == 0,
        ({
            let before = awaited_stages(attaches, events, n);
            let after = awaited_stages(attaches, events, n + 1);
            &&& attaches[n as int].modal_owner ==> after == before + stages_before_done(
                events[n as int]@,
            )
            &&& !attaches[n as int].modal_owner ==> after == before
        }),
        came_up(events[n as int]@) <==> completion(events[n as int]@) is Some && completion(
            events[n as int]@,
        )->0 is Ok,
        n < events.len() ==> done_marks(events).len() == events.len() && (done_marks(
            events,
        )[n as int] <==> completion(events[n as int]@) is Some),
{
    let before = arrivals(attaches, events, scrollback_len, n);
    if let Some(result) = completion(events[n as int]@) {
        let agent = attached_agent(attaches[n as int], result, scrollback_len);
        assert(before.push(agent).drop_last() =~= before);
    }
}

/// The dialog's attach is done as soon as one that it waits for is.
pub proof fn one_awaited_attach_is_enough<A, S, T>(
    attaches: Seq<PendingAttach<A>>,
    events: Seq<Vec<AttachEvent<S, T>>>,
    n: int,
    i: int,
)
    ensures
        0 <= i < n && attaches[i].modal_owner && completion(events[i]@) is Some ==> owned_is_done(
            attaches,
            events,
            n,
        ),
        (forall|j: int|
            0 <= j < n && (#[trigger] attaches[j]).modal_owner ==> completion(events[j]@) is None)
            ==> !owned_is_done(attaches, events, n),
{
}

/// As many attaches are still waited for as are not done: all while none is, in their
/// order, and none once all are.
pub proof fn done_attaches_leave_the_list<A>(attaches: Seq<PendingAttach<A>>, done: Seq<bool>)
    requires
        done.len() == attaches.len(),
    ensures
        (forall|i: int| 0 <= i < done.len() ==> !(#[trigger] done[i])) ==> still_waiting(
            attaches,
            done,
            done.len(),
        ) == attaches,
        (forall|i: int| 0 <= i < done.len() ==> #[trigger] done[i]) ==> still_waiting(
            attaches,
            done,
            done.len(),
        ).len() == 0,
        still_waiting(attaches, done, done.len()).len() == unfinished(done, done.len()),
{
    some_are_left(attaches, done, done.len());
    if forall|i: int| 0 <= i < done.len() ==> #[trigger] done[i] {
        all_done_none_left(done, done.len());
    }
    if forall|i: int| 0 <= i < done.len() ==> !(#[trigger] done[i]) {
        none_done_all_left(attaches, done, done.len());
    }
}

/// How many of the first `n` are not marked done.
pub open spec fn unfinished(done: Seq<bool>, n: nat) -> nat
    decreases n,
{
    if n == 0 {
        0
    } else {
        unfinished(done, (n - 1) as nat) + if done[n - 1] {
            0nat
        } else {
            1
        }
    }
}

proof fn some_are_left<A>(attaches: Seq<PendingAttach<A>>, done: Seq<bool>, n: nat)
    requires
        n <= attaches.len(),
        n <= done.len(),
    ensures
        still_waiting(attaches, done, n).len() == attaches.len() - n + unfinished(done, n),
    decreases n,
{
    if n > 0 {
        if done[n - 1] {
            some_are_left(swap_removed(attaches, n - 1), done, (n - 1) as nat);
        } else {
            some_are_left(attaches, done, (n - 1) as nat);
        }
    }
}

proof fn all_done_none_left(done: Seq<bool>, n: nat)
    requires
        n <= done.len(),
        forall|i: int| 0 <= i < done.len() ==> #[trigger] done[i],
    ensures
        unfinished(done, n) == 0,
    decreases n,
{
    if n > 0 {
        all_done_none_left(done, (n - 1) as nat);
    }
}

proof fn none_done_all_left<A>(attaches: Seq<PendingAttach<A>>, done: Seq<bool>, n: nat)
    requires
        n <= done.len(),
        forall|i: int| 0 <= i < done.len() ==> !(#[trigger] done[i]),
    ensures
        still_waiting(attaches, done, n) == attaches,
    decreases n,
{
    if n > 0 {
        none_done_all_left(attaches, done, (n - 1) as nat);
    }
}

/// New agents go to the end of the list in the order in which they came, nobody else
/// moves or changes, and the last of them gets the focus; without new agents nothing
/// changes.
pub proof fn arrivals_go_to_the_end<T>(nav: NavModel<T>, new: Seq<AgentModel<T>>)
    requires
        nav.valid(),
        nav.agents.len() + new.len() <= usize::MAX,
    ensures
        ({
            let after = with_arrivals(nav, new);
            let n = nav.agents.len() as int;
            &&& after.agents.len() == n + new.len()
            &&& forall|i: int| 0 <= i < n ==> #[trigger] after.agents[i] == nav.agents[i]
            &&& forall|i: int|
                0 <= i < new.len() ==> (#[trigger] after.agents[n + i]).id == new[i].id
                    && after.agents[n + i].state == new[i].state
            &&& new.len() > 0 ==> after.focused == after.agents.len() - 1
            &&& new.len() > 0 && n > 0 ==> after.previous_focused == Some(nav.focused)
            &&& new.len() == 0 ==> after.agents == nav.agents && after.focused == nav.focused
                && after.previous_focused == nav.previous_focused
            &&& after.popup_state == nav.popup_state
        }),
{
    if new.len() == 0 {
        assert(nav.agents + new =~= nav.agents);
    }
}

} // verus!
