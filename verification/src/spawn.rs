//! Bringing up agents: preparing a host, attaching to an agent on it, and what
//! the spawn dialog shows meanwhile.

use vstd::prelude::*;

use crate::agent::AgentId;
use crate::label::string_text;
use crate::text::{decimal, decimal_is_digits, decimal_is_injective, push_decimal};

verus! {

/// A host on which an agent can be started.
#[derive(Debug, PartialEq, Eq)]
pub struct PreparedHost {
    /// The user's home directory there.
    pub remote_home: String,
    /// Whether the daemon there had to be replaced.
    pub binary_was_updated: bool,
}

/// An attach under way: the agent it will bring up, and the handle `A` of the
/// worker. Dropping the handle cancels the worker.
pub struct PendingAttach<A> {
    /// The identity of the agent to come.
    pub agent_id: AgentId,
    pub label: String,
    pub host: String,
    /// The repository the agent will work in, if known.
    pub repo: Option<String>,
    pub rows: u16,
    pub cols: u16,
    pub handle: A,
    /// Whether the spawn dialog is waiting for this attach.
    pub modal_owner: bool,
}

/// What the agent with number `counter` is called.
pub open spec fn agent_name(counter: usize) -> Seq<char> {
    "agent-"@ + decimal(counter as nat)
}

/// What the daemon of an agent is called on its host: the agent's number together
/// with the process that started it.
pub open spec fn daemon_name(tui_pid: u32, spawn_counter: usize) -> Seq<char> {
    "agent-"@ + decimal(tui_pid as nat) + "-"@ + decimal(spawn_counter as nat)
}

/// What a remote agent is labelled until its program sets a title.
pub open spec fn remote_label(host: Seq<char>, counter: usize) -> Seq<char> {
    host + ":"@ + agent_name(counter)
}

/// A path that was typed: none when nothing was.
pub open spec fn given_path(path: Seq<char>) -> Option<Seq<char>> {
    if path.len() == 0 {
        None
    } else {
        Some(path)
    }
}

/// A path that was typed: none when nothing was.
pub fn typed_path(path: &str) -> (r: Option<String>)
    ensures
        string_text(r) == given_path(path@),
{
    if path.unicode_len() == 0 {
        None
    } else {
        Some(path.to_owned())
    }
}

/// What the agent with number `counter` is called.
pub(crate) fn numbered(counter: usize) -> (r: String)
    ensures
        r@ == agent_name(counter),
{
    let mut name = "agent-".to_owned();
    push_decimal(&mut name, counter as u64);
    name
}

/// What the daemon of an agent is called on its host.
pub fn daemon_agent_id_for(tui_pid: u32, spawn_counter: usize) -> (r: String)
    ensures
        r@ == daemon_name(tui_pid, spawn_counter),
{
    let mut name = "agent-".to_owned();
    push_decimal(&mut name, tui_pid as u64);
    name.append("-");
    push_decimal(&mut name, spawn_counter as u64);
    name
}

/// Whether `attach` is the attach for agent number `counter` on a prepared host,
/// in the directory `cwd` or, without one, wherever the host puts it: its fields,
/// its repository as `resolve_repo` answered it, and its handle as
/// `attach_factory` made it.
pub open spec fn attach_launched<A, R, L>(
    attach: PendingAttach<A>,
    prepared: PreparedHost,
    host: String,
    cwd: Option<Seq<char>>,
    tui_pid: u32,
    counter: usize,
    rows: u16,
    cols: u16,
    modal_owner: bool,
    resolve_repo: R,
    attach_factory: L,
) -> bool where
    R: FnOnce(&str) -> Option<String>,
    L: FnOnce(PreparedHost, String, String, Option<String>, u16, u16) -> A,
 {
    &&& attach.agent_id@ == agent_name(counter)
    &&& attach.label@ == remote_label(host@, counter)
    &&& attach.host == host
    &&& attach.rows == rows && attach.cols == cols && attach.modal_owner == modal_owner
    &&& match cwd {
        Some(dir) => exists|path: &str|
            path@ == dir && #[trigger] call_ensures(resolve_repo, (path,), attach.repo),
        None => attach.repo is None,
    }
    &&& handle_made(
        attach.handle,
        prepared,
        host,
        cwd,
        daemon_name(tui_pid, counter),
        rows,
        cols,
        attach_factory,
    )
}

/// Whether `attach_factory` made `handle` for the daemon called `daemon` in the
/// directory `cwd` of a prepared host.
pub open spec fn handle_made<A, L>(
    handle: A,
    prepared: PreparedHost,
    host: String,
    cwd: Option<Seq<char>>,
    daemon: Seq<char>,
    rows: u16,
    cols: u16,
    attach_factory: L,
) -> bool where L: FnOnce(PreparedHost, String, String, Option<String>, u16, u16) -> A {
    exists|id: String, dir: Option<String>|
        id@ == daemon && string_text(dir) == cwd && #[trigger] call_ensures(
            attach_factory,
            (prepared, host, id, dir, rows, cols),
            handle,
        )
}

/// Whether `resolve_repo` and `attach_factory` can be asked about the daemon called
/// `daemon` in the directory `cwd` of a prepared host.
pub open spec fn attach_can_launch<A, R, L>(
    prepared: PreparedHost,
    host: String,
    cwd: Option<Seq<char>>,
    daemon: Seq<char>,
    rows: u16,
    cols: u16,
    resolve_repo: R,
    attach_factory: L,
) -> bool where
    R: FnOnce(&str) -> Option<String>,
    L: FnOnce(PreparedHost, String, String, Option<String>, u16, u16) -> A,
 {
    &&& forall|path: &str|
        cwd == Some(path@) ==> #[trigger] call_requires(resolve_repo, (path,))
    &&& forall|id: String, dir: Option<String>|
        id@ == daemon && string_text(dir) == cwd ==> #[trigger] call_requires(
            attach_factory,
            (prepared, host, id, dir, rows, cols),
        )
}

/// Starts the attach for agent number `spawn_counter` on a prepared host, in the
/// directory `cwd` or, without one, wherever the host puts it.
pub fn launch_attach<A, R, L>(
    prepared: PreparedHost,
    host: String,
    cwd: Option<String>,
    tui_pid: u32,
    spawn_counter: usize,
    rows: u16,
    cols: u16,
    modal_owner: bool,
    resolve_repo: R,
    attach_factory: L,
) -> (r: PendingAttach<A>) where
    R: FnOnce(&str) -> Option<String>,
    L: FnOnce(PreparedHost, String, String, Option<String>, u16, u16) -> A,

    requires
        attach_can_launch(
            prepared,
            host,
            string_text(cwd),
            daemon_name(tui_pid, spawn_counter),
            rows,
            cols,
            resolve_repo,
            attach_factory,
        ),
    ensures
        attach_launched(
            r,
            prepared,
            host,
            string_text(cwd),
            tui_pid,
            spawn_counter,
            rows,
            cols,
            modal_owner,
            resolve_repo,
            attach_factory,
        ),
{
    let name = numbered(spawn_counter);
    let mut label = host.clone();
    label.append(":");
    label.append(name.as_str());
    let daemon_agent_id = daemon_agent_id_for(tui_pid, spawn_counter);
    let repo = match &cwd {
        Some(dir) => {
            let path = dir.as_str();
            let repo = resolve_repo(path);
            assert(path@ == dir@ && call_ensures(resolve_repo, (path,), repo));
            repo
        },
        None => None,
    };
    let ghost id = daemon_agent_id;
    let handle = attach_factory(prepared, host.clone(), daemon_agent_id, cwd, rows, cols);
    assert(call_ensures(attach_factory, (prepared, host, id, cwd, rows, cols), handle));
    assert(handle_made(
        handle,
        prepared,
        host,
        string_text(cwd),
        daemon_name(tui_pid, spawn_counter),
        rows,
        cols,
        attach_factory,
    ));
    PendingAttach {
        agent_id: AgentId { name },
        label,
        host,
        repo,
        rows,
        cols,
        handle,
        modal_owner,
    }
}

/// Starts the attach for agent number `spawn_counter` on a prepared host, in the
/// directory that was typed, if one was.
pub fn build_remote_attach<A, R, L>(
    prepared: PreparedHost,
    host: String,
    path: &str,
    tui_pid: u32,
    spawn_counter: usize,
    rows: u16,
    cols: u16,
    modal_owner: bool,
    resolve_repo: R,
    attach_factory: L,
) -> (r: PendingAttach<A>) where
    R: FnOnce(&str) -> Option<String>,
    L: FnOnce(PreparedHost, String, String, Option<String>, u16, u16) -> A,

    requires
        attach_can_launch(
            prepared,
            host,
            given_path(path@),
            daemon_name(tui_pid, spawn_counter),
            rows,
            cols,
            resolve_repo,
            attach_factory,
        ),
    ensures
        attach_launched(
            r,
            prepared,
            host,
            given_path(path@),
            tui_pid,
            spawn_counter,
            rows,
            cols,
            modal_owner,
            resolve_repo,
            attach_factory,
        ),
{
    launch_attach(
        prepared,
        host,
        typed_path(path),
        tui_pid,
        spawn_counter,
        rows,
        cols,
        modal_owner,
        resolve_repo,
        attach_factory,
    )
}

/// What a successful preparation yields: the host, and the file system handle `F`
/// where one could be opened.
pub struct PrepareSuccess<F> {
    pub prepared: PreparedHost,
    pub fs: Option<F>,
}

/// What a worker reports: a stage `S` it has reached, or that it is done, and what
/// it came to.
pub enum WorkerEvent<S, D> {
    Stage(S),
    Done(D),
}

/// What the worker that prepares a host reports.
pub type PrepareEvent<S, F, E> = WorkerEvent<S, Result<PrepareSuccess<F>, E>>;

/// What the worker that attaches to an agent reports: at the end the transport `T`
/// to it, or why there is none.
pub type AttachEvent<S, T> = WorkerEvent<S, Result<T, String>>;

/// A host being prepared. Dropping the worker's handle `H` cancels the worker;
/// dropping the file system handle `F` closes the connection.
pub struct PendingPrepare<F, H> {
    pub host: String,
    pub handle: H,
    /// The host, once it is prepared.
    pub prepared: Option<PreparedHost>,
    pub remote_fs: Option<F>,
    /// The directory to start an agent in as soon as the host is prepared.
    pub pending_project_path: Option<String>,
}

/// What the spawn dialog is told.
pub enum ModalCommand<S, E> {
    /// Show the stage that was reached.
    SetStage(S),
    /// Let the user pick a directory on `host`.
    UnlockForRemotePath { host: String, remote_home: String },
    /// Go back to picking a host, and show why.
    UnlockBackToHost { error: E },
}

/// A host whose directories are to be indexed.
pub struct IndexRequest {
    pub host: String,
    pub remote_home: String,
}

/// What came of looking at a worker's events.
pub struct PrepareReport<S, F, E> {
    /// What to tell the spawn dialog, in order.
    pub commands: Vec<ModalCommand<S, E>>,
    /// The index to start, if any.
    pub index: Option<IndexRequest>,
    /// The file system handle that is no longer needed once the index is started.
    pub spare_fs: Option<F>,
}

/// The stages reported before the worker was done.
pub open spec fn stages_before_done<S, D>(events: Seq<WorkerEvent<S, D>>) -> Seq<S>
    decreases events.len(),
{
    if events.len() == 0 {
        Seq::empty()
    } else {
        match events[0] {
            WorkerEvent::Stage(stage) => seq![stage] + stages_before_done(events.skip(1)),
            WorkerEvent::Done(_) => Seq::empty(),
        }
    }
}

/// What the worker came to, if it is done.
pub open spec fn completion<S, D>(events: Seq<WorkerEvent<S, D>>) -> Option<D>
    decreases events.len(),
{
    if events.len() == 0 {
        None
    } else {
        match events[0] {
            WorkerEvent::Stage(_) => completion(events.skip(1)),
            WorkerEvent::Done(result) => Some(result),
        }
    }
}

/// What an open dialog is told about the stages.
pub open spec fn stage_commands<S, E>(stages: Seq<S>) -> Seq<ModalCommand<S, E>> {
    stages.map_values(|stage: S| ModalCommand::SetStage(stage))
}

/// What the dialog is told, if it is open.
pub open spec fn told<M, S, E>(dialog: Option<M>, commands: Seq<ModalCommand<S, E>>) -> Seq<
    ModalCommand<S, E>,
> {
    if dialog is Some {
        commands
    } else {
        Seq::empty()
    }
}

/// Takes the events of a worker apart.
pub(crate) fn split_events<S, D>(events: Vec<WorkerEvent<S, D>>) -> (r: (Vec<S>, Option<D>))
    ensures
        r.0@ == stages_before_done(events@),
        r.1 == completion(events@),
{
    let ghost all = events@;
    let mut rest = events;
    let mut stages: Vec<S> = Vec::new();
    assert(stages@ + stages_before_done(rest@) =~= stages_before_done(all));
    while rest.len() > 0
        invariant
            all == events@,
            stages_before_done(all) == stages@ + stages_before_done(rest@),
            completion(all) == completion(rest@),
        decreases rest@.len(),
    {
        let ghost before = rest@;
        let ghost stages_so_far = stages@;
        let event = rest.remove(0);
        assert(before.skip(1) =~= rest@);
        match event {
            WorkerEvent::Stage(stage) => {
                stages.push(stage);
                assert(stages_so_far + (seq![stage] + stages_before_done(rest@)) =~= stages@
                    + stages_before_done(rest@));
            },
            WorkerEvent::Done(result) => {
                assert(stages@ + Seq::<S>::empty() =~= stages@);
                return (stages, Some(result));
            },
        }
    }
    assert(stages@ + Seq::<S>::empty() =~= stages@);
    (stages, None)
}

fn tell_stages<S, E>(commands: &mut Vec<ModalCommand<S, E>>, stages: Vec<S>)
    ensures
        final(commands)@ == old(commands)@ + stage_commands::<S, E>(stages@),
{
    let ghost all = stages@;
    let mut rest = stages;
    assert(commands@ + stage_commands::<S, E>(rest@) =~= old(commands)@ + stage_commands::<S, E>(all));
    while rest.len() > 0
        invariant
            commands@ + stage_commands::<S, E>(rest@) == old(commands)@ + stage_commands::<S, E>(all),
        decreases rest@.len(),
    {
        let ghost before = commands@ + stage_commands::<S, E>(rest@);
        let stage = rest.remove(0);
        commands.push(ModalCommand::SetStage(stage));
        assert(commands@ + stage_commands::<S, E>(rest@) =~= before);
    }
    assert(commands@ + stage_commands::<S, E>(rest@) =~= commands@);
}

/// Advances the preparation of a host by the events of its worker.
///
/// While the worker is not done the dialog only learns the stages. When it
/// succeeds, the dialog lets the user pick a directory there, unless a directory
/// was chosen already: then the dialog closes and an attach is started. Either
/// way the host's directories are indexed, if its file system could be opened.
/// When it fails, the dialog shows why, whether or not a directory was chosen, and
/// the preparation is over.
pub fn drain_prepare_events<S, F, E, H, M, A, R, L>(
    prepare: &mut Option<PendingPrepare<F, H>>,
    spawn_ui: &mut Option<M>,
    attaches: &mut Vec<PendingAttach<A>>,
    spawn_counter: &mut usize,
    events: Vec<PrepareEvent<S, F, E>>,
    pty_geom: (u16, u16),
    tui_pid: u32,
    resolve_repo: R,
    attach_factory: L,
) -> (r: PrepareReport<S, F, E>) where
    R: FnOnce(&str) -> Option<String>,
    L: FnOnce(PreparedHost, String, String, Option<String>, u16, u16) -> A,

    requires
        *old(prepare) matches Some(slot) ==> slot.pending_project_path matches Some(path)
            ==> completion(events@) matches Some(Ok(success)) ==> *old(spawn_counter) < usize::MAX
            && attach_can_launch(
            success.prepared,
            slot.host,
            given_path(path@),
            daemon_name(tui_pid, (*old(spawn_counter) + 1) as usize),
            pty_geom.0,
            pty_geom.1,
            resolve_repo,
            attach_factory,
        ),
    ensures
        match *old(prepare) {
            None => {
                &&& *final(prepare) is None
                &&& *final(spawn_ui) == *old(spawn_ui)
                &&& final(attaches)@ == old(attaches)@
                &&& *final(spawn_counter) == *old(spawn_counter)
                &&& r.commands@.len() == 0 && r.index is None && r.spare_fs is None
            },
            Some(slot) => {
                let stages = stage_commands::<S, E>(stages_before_done(events@));
                match completion(events@) {
                    None => {
                        &&& *final(prepare) == Some(slot)
                        &&& *final(spawn_ui) == *old(spawn_ui)
                        &&& final(attaches)@ == old(attaches)@
                        &&& *final(spawn_counter) == *old(spawn_counter)
                        &&& r.commands@ == told(*old(spawn_ui), stages)
                        &&& r.index is None && r.spare_fs is None
                    },
                    Some(Err(error)) => {
                        &&& *final(prepare) is None
                        &&& *final(spawn_ui) == *old(spawn_ui)
                        &&& final(attaches)@ == old(attaches)@
                        &&& *final(spawn_counter) == *old(spawn_counter)
                        &&& r.commands@ == told(
                            *old(spawn_ui),
                            stages.push(ModalCommand::UnlockBackToHost { error }),
                        )
                        &&& r.index is None && r.spare_fs is None
                    },
                    Some(Ok(success)) => {
                        &&& r.index == if success.fs is Some {
                            Some(
                                IndexRequest {
                                    host: slot.host,
                                    remote_home: success.prepared.remote_home,
                                },
                            )
                        } else {
                            None
                        }
                        &&& match slot.pending_project_path {
                            None => {
                                &&& *final(prepare) == Some(
                                    PendingPrepare {
                                        prepared: Some(success.prepared),
                                        remote_fs: success.fs,
                                        ..slot
                                    },
                                )
                                &&& *final(spawn_ui) == *old(spawn_ui)
                                &&& final(attaches)@ == old(attaches)@
                                &&& *final(spawn_counter) == *old(spawn_counter)
                                &&& r.commands@ == told(
                                    *old(spawn_ui),
                                    stages.push(
                                        ModalCommand::UnlockForRemotePath {
                                            host: slot.host,
                                            remote_home: success.prepared.remote_home,
                                        },
                                    ),
                                )
                                &&& r.spare_fs is None
                            },
                            Some(path) => {
                                &&& *final(prepare) is None
                                &&& *final(spawn_ui) is None
                                &&& *final(spawn_counter) == *old(spawn_counter) + 1
                                &&& final(attaches)@.len() == old(attaches)@.len() + 1
                                &&& final(attaches)@.drop_last() == old(attaches)@
                                &&& attach_launched(
                                    final(attaches)@.last(),
                                    success.prepared,
                                    slot.host,
                                    given_path(path@),
                                    tui_pid,
                                    *final(spawn_counter),
                                    pty_geom.0,
                                    pty_geom.1,
                                    false,
                                    resolve_repo,
                                    attach_factory,
                                )
                                &&& r.commands@ == told(*old(spawn_ui), stages)
                                &&& r.spare_fs == success.fs
                            },
                        }
                    },
                }
            },
        },
{
    let mut commands: Vec<ModalCommand<S, E>> = Vec::new();
    let mut slot = match prepare.take() {
        Some(slot) => slot,
        None => return PrepareReport { commands, index: None, spare_fs: None },
    };
    let open = spawn_ui.is_some();
    let (stages, completed) = split_events(events);
    if open {
        tell_stages(&mut commands, stages);
        assert(commands@ =~= stage_commands::<S, E>(stages_before_done(events@)));
    }
    let result = match completed {
        Some(result) => result,
        None => {
            *prepare = Some(slot);
            return PrepareReport { commands, index: None, spare_fs: None };
        },
    };
    match result {
        Ok(success) => {
            let index = if success.fs.is_some() {
                Some(
                    IndexRequest {
                        host: slot.host.clone(),
                        remote_home: success.prepared.remote_home.clone(),
                    },
                )
            } else {
                None
            };
            match slot.pending_project_path.take() {
                None => {
                    if open {
                        commands.push(
                            ModalCommand::UnlockForRemotePath {
                                host: slot.host.clone(),
                                remote_home: success.prepared.remote_home.clone(),
                            },
                        );
                    }
                    slot.remote_fs = success.fs;
                    slot.prepared = Some(success.prepared);
                    *prepare = Some(slot);
                    PrepareReport { commands, index, spare_fs: None }
                },
                Some(path) => {
                    *spawn_counter = *spawn_counter + 1;
                    let attach = build_remote_attach(
                        success.prepared,
                        slot.host,
                        path.as_str(),
                        tui_pid,
                        *spawn_counter,
                        pty_geom.0,
                        pty_geom.1,
                        false,
                        resolve_repo,
                        attach_factory,
                    );
                    *spawn_ui = None;
                    attaches.push(attach);
                    assert(attaches@.drop_last() =~= old(attaches)@);
                    PrepareReport { commands, index, spare_fs: success.fs }
                },
            }
        },
        Err(error) => {
            if open {
                commands.push(ModalCommand::UnlockBackToHost { error });
            }
            PrepareReport { commands, index: None, spare_fs: None }
        },
    }
}

/// No two agents, of this run of the program or of another, have daemons of the
/// same name on a host: a new agent never attaches to an old daemon.
pub proof fn daemon_names_are_distinct(pid1: u32, counter1: usize, pid2: u32, counter2: usize)
    ensures
        daemon_name(pid1, counter1) == daemon_name(pid2, counter2) ==> pid1 == pid2 && counter1
            == counter2,
{
    if daemon_name(pid1, counter1) == daemon_name(pid2, counter2) {
        reveal_strlit("agent-");
        reveal_strlit("-");
        let a1 = decimal(pid1 as nat);
        let a2 = decimal(pid2 as nat);
        let b1 = decimal(counter1 as nat);
        let b2 = decimal(counter2 as nat);
        let name = daemon_name(pid1, counter1);
        decimal_is_digits(pid1 as nat);
        decimal_is_digits(pid2 as nat);
        assert(name[6 + a1.len() as int] == '-');
        assert(daemon_name(pid2, counter2)[6 + a2.len() as int] == '-');
        assert forall|i: int| 0 <= i < a1.len() implies a1[i] == name[6 + i] by {}
        assert forall|i: int| 0 <= i < a2.len() implies a2[i] == name[6 + i] by {}
        if a1.len() < a2.len() {
            assert(a2[a1.len() as int] == '-');
        } else if a2.len() < a1.len() {
            assert(a1[a2.len() as int] == '-');
        }
        assert(a1 =~= a2);
        assert(b1 =~= name.skip((7 + a1.len()) as int));
        assert(b2 =~= daemon_name(pid2, counter2).skip((7 + a2.len()) as int));
        decimal_is_injective(pid1 as nat, pid2 as nat);
        decimal_is_injective(counter1 as nat, counter2 as nat);
    }
}

/// How agents are called: by their number, with the host before it on a remote one,
/// and by the process that started them and their number for their daemon.
pub proof fn names_are_made_of_their_numbers(pid: u32, counter: usize, host: Seq<char>)
    ensures
        agent_name(counter) == "agent-"@ + decimal(counter as nat),
        remote_label(host, counter) == host + (":"@ + agent_name(counter)),
        daemon_name(pid, counter) == "agent-"@ + (decimal(pid as nat) + ("-"@ + decimal(
            counter as nat,
        ))),
{
    assert(remote_label(host, counter) =~= host + (":"@ + agent_name(counter)));
    assert(daemon_name(pid, counter) =~= "agent-"@ + (decimal(pid as nat) + ("-"@ + decimal(
        counter as nat,
    ))));
}

/// A path that was typed is taken as it is, and only an empty one is none.
pub proof fn a_typed_path_is_taken_as_it_is(path: Seq<char>)
    ensures
        path.len() > 0 ==> given_path(path) == Some(path),
        given_path(Seq::empty()) is None,
        given_path(path) is None ==> path.len() == 0,
{
}

/// A worker that was done at its event `i` reported the stages before that, all of
/// them and in order, and came to what that event says; whatever it said later counts
/// for nothing. One that is not done reported as many stages as events.
pub proof fn a_worker_is_done_at_its_first_done<S, D>(events: Seq<WorkerEvent<S, D>>, i: int)
    ensures
        0 <= i < events.len() && events[i] is Done && (forall|j: int|
            0 <= j < i ==> #[trigger] events[j] is Stage) ==> {
            &&& completion(events) == Some(events[i]->Done_0)
            &&& stages_before_done(events).len() == i
            &&& forall|j: int|
                0 <= j < i ==> #[trigger] stages_before_done(events)[j] == events[j]->Stage_0
        },
        (forall|j: int| 0 <= j < events.len() ==> #[trigger] events[j] is Stage) ==> {
            &&& completion(events) is None
            &&& stages_before_done(events).len() == events.len()
            &&& forall|j: int|
                0 <= j < events.len() ==> #[trigger] stages_before_done(events)[j]
                    == events[j]->Stage_0
        },
    decreases events.len(),
{
    if events.len() > 0 {
        let rest = events.skip(1);
        a_worker_is_done_at_its_first_done(rest, i - 1);
        assert forall|j: int| 0 <= j < rest.len() implies #[trigger] rest[j] == events[j
            + 1] by {}
        if events[0] is Stage {
            let all = stages_before_done(events);
            assert(all =~= seq![events[0]->Stage_0] + stages_before_done(rest));
            if 0 < i < events.len() && events[i] is Done && (forall|j: int|
                0 <= j < i ==> #[trigger] events[j] is Stage) {
                assert(rest[i - 1] is Done);
                assert forall|j: int| 0 <= j < i implies #[trigger] all[j] == events[j]->Stage_0 by {
                    if j > 0 {
                        assert(all[j] == stages_before_done(rest)[j - 1]);
                        assert(rest[j - 1] == events[j]);
                    }
                }
            }
            if forall|j: int| 0 <= j < events.len() ==> #[trigger] events[j] is Stage {
                assert forall|j: int| 0 <= j < rest.len() implies #[trigger] rest[j] is Stage by {
                    assert(events[j + 1] is Stage);
                }
                assert forall|j: int| 0 <= j < events.len() implies #[trigger] all[j]
                    == events[j]->Stage_0 by {
                    if j > 0 {
                        assert(all[j] == stages_before_done(rest)[j - 1]);
                        assert(rest[j - 1] == events[j]);
                    }
                }
            }
        }
    }
}

/// An open dialog is told of every stage in order, and a closed one of nothing.
pub proof fn an_open_dialog_is_told_every_stage<M, S, E>(dialog: Option<M>, stages: Seq<S>, i: int)
    requires
        0 <= i < stages.len(),
    ensures
        ({
            let commands = stage_commands::<S, E>(stages);
            &&& commands.len() == stages.len()
            &&& commands[i] == ModalCommand::<S, E>::SetStage(stages[i])
            &&& dialog is Some ==> told(dialog, commands) == commands
            &&& dialog is None ==> told(dialog, commands).len() == 0
        }),
{
}

/// What a started attach is: of the agent with the given number, labelled by its host
/// and its number, on that host, in a pane of the given size, awaited or not as asked,
/// in the repository that was found for its directory, and in none without one; and
/// its worker was started for that host, that daemon, that directory and that size.
pub proof fn a_started_attach_is_as_asked_for<A, R, L>(
    attach: PendingAttach<A>,
    prepared: PreparedHost,
    host: String,
    cwd: Option<Seq<char>>,
    tui_pid: u32,
    counter: usize,
    rows: u16,
    cols: u16,
    modal_owner: bool,
    resolve_repo: R,
    attach_factory: L,
) where
    R: FnOnce(&str) -> Option<String>,
    L: FnOnce(PreparedHost, String, String, Option<String>, u16, u16) -> A,

    requires
        attach_launched(
            attach,
            prepared,
            host,
            cwd,
            tui_pid,
            counter,
            rows,
            cols,
            modal_owner,
            resolve_repo,
            attach_factory,
        ),
    ensures
        attach.agent_id@ == "agent-"@ + decimal(counter as nat),
        attach.label@ == host@ + ":"@ + ("agent-"@ + decimal(counter as nat)),
        attach.host == host,
        attach.rows == rows,
        attach.cols == cols,
        attach.modal_owner == modal_owner,
        cwd is None ==> attach.repo is None,
        cwd is Some ==> exists|path: &str|
            path@ == cwd->0 && #[trigger] call_ensures(resolve_repo, (path,), attach.repo),
        exists|id: String, dir: Option<String>|
            id@ == daemon_name(tui_pid, counter) && (dir is Some <==> cwd is Some) && (dir is Some
                ==> dir->0@ == cwd->0) && #[trigger] call_ensures(
                attach_factory,
                (prepared, host, id, dir, rows, cols),
                attach.handle,
            ),
{
    let (id, dir) = choose|id: String, dir: Option<String>|
        id@ == daemon_name(tui_pid, counter) && string_text(dir) == cwd && #[trigger] call_ensures(
            attach_factory,
            (prepared, host, id, dir, rows, cols),
            attach.handle,
        );
    assert(call_ensures(attach_factory, (prepared, host, id, dir, rows, cols), attach.handle));
}

} // verus!
