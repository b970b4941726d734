//! What the user decides in the spawn dialog.

use vstd::prelude::*;

use crate::agent::{AgentId, AgentModel, RuntimeAgent, StateModel, TitleCapture};
use crate::attach::{cancel_modal_owned_attach, without_owned};
use crate::label::string_text;
use crate::nav::NavState;
use crate::screen::{blank_screen, fresh};
use crate::spawn::{
    agent_name, attach_can_launch, attach_launched, build_remote_attach, daemon_name, given_path,
    launch_attach, numbered, PendingAttach, PendingPrepare, PreparedHost,
};

verus! {

/// The user closed the dialog: a preparation under way and an attach it waited for
/// go with it.
pub fn cancel_spawn<M, F, H, A>(
    spawn_ui: &mut Option<M>,
    prepare: &mut Option<PendingPrepare<F, H>>,
    attaches: &mut Vec<PendingAttach<A>>,
)
    ensures
        *final(spawn_ui) is None,
        *final(prepare) is None,
        final(attaches)@ == without_owned(old(attaches)@),
{
    *spawn_ui = None;
    *prepare = None;
    cancel_modal_owned_attach(attaches);
}

/// The user stopped waiting: the preparation under way is taken back or, when it
/// is over, the attach the dialog waits for.
pub fn cancel_bootstrap<F, H, A>(
    prepare: &mut Option<PendingPrepare<F, H>>,
    attaches: &mut Vec<PendingAttach<A>>,
)
    ensures
        *final(prepare) is None,
        final(attaches)@ == if *old(prepare) is Some {
            old(attaches)@
        } else {
            without_owned(old(attaches)@)
        },
{
    if prepare.is_some() {
        *prepare = None;
    } else {
        cancel_modal_owned_attach(attaches);
    }
}

/// The user picked a host: its preparation begins, in place of another one under
/// way. With a `path` an agent is to be started there as soon as it is prepared.
/// `start_prepare` starts the worker.
pub fn begin_prepare<F, H, L>(
    prepare: &mut Option<PendingPrepare<F, H>>,
    host: String,
    path: Option<String>,
    start_prepare: L,
) where L: FnOnce(String) -> H
    requires
        call_requires(start_prepare, (host,)),
    ensures
        ({
            &&& *final(prepare) matches Some(slot)
            &&& slot.host == host
            &&& call_ensures(start_prepare, (host,), slot.handle)
            &&& slot.prepared is None
            &&& slot.remote_fs is None
            &&& slot.pending_project_path == path
        }),
{
    let handle = start_prepare(host.clone());
    *prepare =
    Some(
        PendingPrepare {
            host,
            handle,
            prepared: None,
            remote_fs: None,
            pending_project_path: path,
        },
    );
}

/// The host that has been prepared, if one has.
pub open spec fn host_ready<F, H>(prepare: Option<PendingPrepare<F, H>>) -> Option<PreparedHost> {
    match prepare {
        Some(slot) => slot.prepared,
        None => None,
    }
}

/// The user asked for an agent on a remote host, in a directory or, with an empty
/// `path`, wherever the host puts it. The preparation is used up. Answers whether
/// the dialog is to wait for the attach; without a prepared host there is none, and
/// the dialog closes.
pub fn spawn_remote<M, F, H, A, R, L>(
    spawn_ui: &mut Option<M>,
    prepare: &mut Option<PendingPrepare<F, H>>,
    attaches: &mut Vec<PendingAttach<A>>,
    spawn_counter: &mut usize,
    host: String,
    path: &str,
    pty_geom: (u16, u16),
    tui_pid: u32,
    resolve_repo: R,
    attach_factory: L,
) -> (r: bool) where
    R: FnOnce(&str) -> Option<String>,
    L: FnOnce(PreparedHost, String, String, Option<String>, u16, u16) -> A,

    requires
        *old(spawn_counter) < usize::MAX,
        host_ready(*old(prepare)) matches Some(prepared) ==> attach_can_launch(
            prepared,
            host,
            given_path(path@),
            daemon_name(tui_pid, (*old(spawn_counter) + 1) as usize),
            pty_geom.0,
            pty_geom.1,
            resolve_repo,
            attach_factory,
        ),
    ensures
        *final(spawn_counter) == *old(spawn_counter) + 1,
        *final(prepare) is None,
        r == (host_ready(*old(prepare)) is Some),
        match host_ready(*old(prepare)) {
            Some(prepared) => {
                &&& *final(spawn_ui) == *old(spawn_ui)
                &&& final(attaches)@.len() == old(attaches)@.len() + 1
                &&& final(attaches)@.drop_last() == old(attaches)@
                &&& attach_launched(
                    final(attaches)@.last(),
                    prepared,
                    host,
                    given_path(path@),
                    tui_pid,
                    *final(spawn_counter),
                    pty_geom.0,
                    pty_geom.1,
                    true,
                    resolve_repo,
                    attach_factory,
                )
            },
            None => *final(spawn_ui) is None && final(attaches)@ == old(attaches)@,
        },
{
    *spawn_counter = *spawn_counter + 1;
    let prepared = match prepare.take() {
        Some(slot) => slot.prepared,
        None => None,
    };
    match prepared {
        Some(prepared) => {
            let attach = build_remote_attach(
                prepared,
                host,
                path,
                tui_pid,
                *spawn_counter,
                pty_geom.0,
                pty_geom.1,
                true,
                resolve_repo,
                attach_factory,
            );
            attaches.push(attach);
            assert(attaches@.drop_last() =~= old(attaches)@);
            true
        },
        None => {
            *spawn_ui = None;
            false
        },
    }
}

/// The user asked for an agent in the scratch directory of a remote host. As
/// [`spawn_remote`], but `scratch` says which directory that is, if any, and sees
/// to it that it exists.
pub fn spawn_remote_scratch<M, F, H, A, C, R, L>(
    spawn_ui: &mut Option<M>,
    prepare: &mut Option<PendingPrepare<F, H>>,
    attaches: &mut Vec<PendingAttach<A>>,
    spawn_counter: &mut usize,
    host: String,
    pty_geom: (u16, u16),
    tui_pid: u32,
    scratch: C,
    resolve_repo: R,
    attach_factory: L,
) -> (r: bool) where
    C: FnOnce(&PreparedHost, &Option<F>) -> Option<String>,
    R: FnOnce(&str) -> Option<String>,
    L: FnOnce(PreparedHost, String, String, Option<String>, u16, u16) -> A,

    requires
        *old(spawn_counter) < usize::MAX,
        *old(prepare) matches Some(slot) ==> slot.prepared matches Some(prepared) ==> {
            &&& call_requires(scratch, (&prepared, &slot.remote_fs))
            &&& forall|cwd: Option<String>| #[trigger]
                call_ensures(scratch, (&prepared, &slot.remote_fs), cwd) ==> attach_can_launch(
                    prepared,
                    host,
                    string_text(cwd),
                    daemon_name(tui_pid, (*old(spawn_counter) + 1) as usize),
                    pty_geom.0,
                    pty_geom.1,
                    resolve_repo,
                    attach_factory,
                )
        },
    ensures
        *final(spawn_counter) == *old(spawn_counter) + 1,
        *final(prepare) is None,
        r == (host_ready(*old(prepare)) is Some),
        match host_ready(*old(prepare)) {
            Some(prepared) => {
                &&& *final(spawn_ui) == *old(spawn_ui)
                &&& final(attaches)@.len() == old(attaches)@.len() + 1
                &&& final(attaches)@.drop_last() == old(attaches)@
                &&& exists|cwd: Option<String>| #[trigger]
                    call_ensures(scratch, (&prepared, &(*old(prepare))->0.remote_fs), cwd)
                        && attach_launched(
                        final(attaches)@.last(),
                        prepared,
                        host,
                        string_text(cwd),
                        tui_pid,
                        *final(spawn_counter),
                        pty_geom.0,
                        pty_geom.1,
                        true,
                        resolve_repo,
                        attach_factory,
                    )
            },
            None => *final(spawn_ui) is None && final(attaches)@ == old(attaches)@,
        },
{
    *spawn_counter = *spawn_counter + 1;
    if let Some(slot) = prepare.take() {
        if let Some(prepared) = slot.prepared {
            let cwd = scratch(&prepared, &slot.remote_fs);
            let attach = launch_attach(
                prepared,
                host,
                cwd,
                tui_pid,
                *spawn_counter,
                pty_geom.0,
                pty_geom.1,
                true,
                resolve_repo,
                attach_factory,
            );
            attaches.push(attach);
            assert(attaches@.drop_last() =~= old(attaches)@);
            assert(call_ensures(scratch, (&prepared, &slot.remote_fs), cwd));
            return true;
        }
    }
    *spawn_ui = None;
    false
}

/// The scratch directory to start in: none when there is none to be had, the
/// directory as it is when it cannot be made from here, and otherwise the directory
/// if `mkdir` could make it.
pub fn resolve_remote_scratch_cwd<K>(dir: Option<String>, mkdir: Option<K>) -> (r: Option<
    String,
>) where K: FnOnce(&str) -> bool
    requires
        dir matches Some(d) ==> mkdir matches Some(make) ==> forall|path: &str|
            path@ == d@ ==> #[trigger] call_requires(make, (path,)),
    ensures
        match (dir, mkdir) {
            (None, _) => r is None,
            (Some(_), None) => r == dir,
            (Some(d), Some(make)) => exists|path: &str, made: bool|
                path@ == d@ && #[trigger] call_ensures(make, (path,), made) && r == if made {
                    dir
                } else {
                    None
                },
        },
{
    match dir {
        None => None,
        Some(d) => match mkdir {
            None => Some(d),
            Some(make) => {
                let path = d.as_str();
                let made = make(path);
                assert(path@ == d@ && call_ensures(make, (path,), made));
                if made {
                    Some(d)
                } else {
                    None
                }
            },
        },
    }
}

/// The scratch directory to start in on this machine: the directory, if there is
/// one and `mkdir` could make it.
pub fn resolve_local_scratch_cwd<K>(dir: Option<String>, mkdir: K) -> (r: Option<
    String,
>) where K: FnOnce(&str) -> bool
    requires
        dir matches Some(d) ==> forall|path: &str|
            path@ == d@ ==> #[trigger] call_requires(mkdir, (path,)),
    ensures
        match dir {
            None => r is None,
            Some(d) => exists|path: &str, made: bool|
                path@ == d@ && #[trigger] call_ensures(mkdir, (path,), made) && r == if made {
                    dir
                } else {
                    None
                },
        },
{
    resolve_remote_scratch_cwd(dir, Some(mkdir))
}

/// Which index of directories to build anew.
#[derive(Debug, PartialEq, Eq)]
pub enum IndexRebuild {
    Local,
    Remote { host: String, remote_home: String },
    /// None: the host is not connected.
    Skipped,
}

/// The user asked for the index of the dialog's host to be built anew: this
/// machine's, or that of a remote `host`, which needs an open file system. Where
/// its home directory is not known yet the index starts at the root.
pub fn refresh_index<F, H>(prepare: &Option<PendingPrepare<F, H>>, host: Option<&str>) -> (r:
    IndexRebuild)
    ensures
        match host {
            None => r is Local,
            Some(key) => if prepare is Some && prepare->0.remote_fs is Some {
                &&& r matches IndexRebuild::Remote { host, remote_home }
                &&& host@ == key@
                &&& remote_home@ == match prepare->0.prepared {
                    Some(prepared) => prepared.remote_home@,
                    None => "/"@,
                }
            } else {
                r is Skipped
            },
        },
{
    let key = match host {
        Some(key) => key,
        None => return IndexRebuild::Local,
    };
    if let Some(slot) = prepare {
        if slot.remote_fs.is_some() {
            let remote_home = match &slot.prepared {
                Some(prepared) => prepared.remote_home.clone(),
                None => "/".to_owned(),
            };
            return IndexRebuild::Remote { host: key.to_owned(), remote_home };
        }
    }
    IndexRebuild::Skipped
}

/// Whether `agent` is a live agent of this machine over `transport`, in the
/// directory `cwd`.
pub open spec fn is_local_agent<T>(
    agent: AgentModel<T>,
    id: Seq<char>,
    label: Seq<char>,
    cwd: Option<String>,
    repo: Option<String>,
    transport: T,
    rows: u16,
    cols: u16,
    scrollback_len: usize,
) -> bool {
    &&& agent.id@ == id
    &&& agent.label@ == label
    &&& agent.cwd == cwd
    &&& agent.repo == repo
    &&& agent.host is None
    &&& agent.model_effort is None && agent.branch is None
    &&& !agent.last_working && !agent.needs_attention
    &&& agent.rows == rows && agent.cols == cols
    &&& agent.state == (StateModel::Ready {
        parser: fresh(rows, cols, scrollback_len as nat),
        screen: blank_screen(rows, cols, scrollback_len as nat),
        title: (TitleCapture { title: None, working: false }),
        transport,
    })
}

/// Whether `repo` is what `resolve_repo` answered for the directory `cwd`; without
/// one there is nothing to ask.
pub open spec fn repo_resolved<R>(resolve_repo: R, cwd: Option<String>, repo: Option<String>) -> bool where
    R: FnOnce(&str) -> Option<String>,
 {
    match cwd {
        Some(dir) => exists|path: &str|
            path@ == dir@ && #[trigger] call_ensures(resolve_repo, (path,), repo),
        None => repo is None,
    }
}

/// Starts an agent on this machine. `spawn_local` starts its process in a terminal
/// of the given size, `resolve_repo` says which repository a directory belongs to.
/// Where the process does not start, neither does the agent.
pub fn spawn_local_agent<T, E, L, R>(
    id: AgentId,
    label: String,
    cwd: Option<String>,
    rows: u16,
    cols: u16,
    scrollback_len: usize,
    spawn_local: L,
    resolve_repo: R,
) -> (r: Result<RuntimeAgent<T>, E>) where
    L: FnOnce(&String, &Option<String>, u16, u16) -> Result<T, E>,
    R: FnOnce(&str) -> Option<String>,

    requires
        rows > 0,
        call_requires(spawn_local, (&label, &cwd, rows, cols)),
        cwd matches Some(dir) ==> forall|path: &str|
            path@ == dir@ ==> #[trigger] call_requires(resolve_repo, (path,)),
    ensures
        match r {
            Ok(agent) => exists|transport: T, repo: Option<String>|
                call_ensures(spawn_local, (&label, &cwd, rows, cols), Ok::<T, E>(transport))
                    && repo_resolved(resolve_repo, cwd, repo) && #[trigger] is_local_agent(
                    agent@,
                    id@,
                    label@,
                    cwd,
                    repo,
                    transport,
                    rows,
                    cols,
                    scrollback_len,
                ),
            Err(error) => call_ensures(
                spawn_local,
                (&label, &cwd, rows, cols),
                Err::<T, E>(error),
            ),
        },
{
    let transport = match spawn_local(&label, &cwd, rows, cols) {
        Ok(transport) => transport,
        Err(error) => return Err(error),
    };
    let repo = match &cwd {
        Some(dir) => {
            let path = dir.as_str();
            let repo = resolve_repo(path);
            assert(path@ == dir@ && call_ensures(resolve_repo, (path,), repo));
            repo
        },
        None => None,
    };
    assert(repo_resolved(resolve_repo, cwd, repo));
    let agent = RuntimeAgent::ready(
        id,
        label,
        repo,
        cwd,
        None,
        transport,
        rows,
        cols,
        scrollback_len,
    );
    assert(is_local_agent(
        agent@,
        id@,
        label@,
        cwd,
        repo,
        transport,
        rows,
        cols,
        scrollback_len,
    ));
    Ok(agent)
}

/// The user asked for an agent on this machine: the dialog closes, and the agent
/// that starts, if it does, gets the next number, a place at the end and the focus.
pub fn spawn_local_here<M, T, E, L, R>(
    nav: &mut NavState<T>,
    spawn_ui: &mut Option<M>,
    spawn_counter: &mut usize,
    cwd: Option<String>,
    pty_geom: (u16, u16),
    scrollback_len: usize,
    spawn_local: L,
    resolve_repo: R,
) -> (r: Result<(), E>) where
    L: FnOnce(&String, &Option<String>, u16, u16) -> Result<T, E>,
    R: FnOnce(&str) -> Option<String>,

    requires
        *old(spawn_counter) < usize::MAX,
        pty_geom.0 > 0,
        forall|label: String|
            label@ == agent_name((*old(spawn_counter) + 1) as usize) ==> #[trigger] call_requires(
                spawn_local,
                (&label, &cwd, pty_geom.0, pty_geom.1),
            ),
        cwd matches Some(dir) ==> forall|path: &str|
            path@ == dir@ ==> #[trigger] call_requires(resolve_repo, (path,)),
    ensures
        *final(spawn_counter) == *old(spawn_counter) + 1,
        *final(spawn_ui) is None,
        match r {
            Ok(_) => exists|agent: AgentModel<T>, transport: T, repo: Option<String>|
                final(nav)@ == old(nav)@.with_new_agent(agent) && local_process(
                    spawn_local,
                    agent_name(*final(spawn_counter)),
                    cwd,
                    pty_geom,
                    Ok(transport),
                ) && repo_resolved(resolve_repo, cwd, repo) && #[trigger] is_local_agent(
                    agent,
                    agent_name(*final(spawn_counter)),
                    agent_name(*final(spawn_counter)),
                    cwd,
                    repo,
                    transport,
                    pty_geom.0,
                    pty_geom.1,
                    scrollback_len,
                ),
            Err(error) => final(nav)@ == old(nav)@ && local_process(
                spawn_local,
                agent_name(*final(spawn_counter)),
                cwd,
                pty_geom,
                Err(error),
            ),
        },
{
    *spawn_counter = *spawn_counter + 1;
    *spawn_ui = None;
    let label = numbered(*spawn_counter);
    let id = AgentId::new(label.as_str());
    let ghost name = label;
    let started = spawn_local_agent(
        id,
        label,
        cwd,
        pty_geom.0,
        pty_geom.1,
        scrollback_len,
        spawn_local,
        resolve_repo,
    );
    match started {
        Ok(agent) => {
            proof {
                let (transport, repo) = choose|transport: T, repo: Option<String>|
                    call_ensures(
                        spawn_local,
                        (&name, &cwd, pty_geom.0, pty_geom.1),
                        Ok::<T, E>(transport),
                    ) && repo_resolved(resolve_repo, cwd, repo) && #[trigger] is_local_agent(
                        agent@,
                        id@,
                        name@,
                        cwd,
                        repo,
                        transport,
                        pty_geom.0,
                        pty_geom.1,
                        scrollback_len,
                    );
                assert(local_process(
                    spawn_local,
                    agent_name(*spawn_counter),
                    cwd,
                    pty_geom,
                    Ok(transport),
                ));
            }
            nav.push_and_focus(agent);
            Ok(())
        },
        Err(error) => {
            assert(local_process(
                spawn_local,
                agent_name(*spawn_counter),
                cwd,
                pty_geom,
                Err(error),
            ));
            Err(error)
        },
    }
}

/// Whether `spawn_local` answered `result` for the process called `label`.
pub open spec fn local_process<T, E, L>(
    spawn_local: L,
    label: Seq<char>,
    cwd: Option<String>,
    pty_geom: (u16, u16),
    result: Result<T, E>,
) -> bool where L: FnOnce(&String, &Option<String>, u16, u16) -> Result<T, E> {
    exists|name: String|
        name@ == label && #[trigger] call_ensures(
            spawn_local,
            (&name, &cwd, pty_geom.0, pty_geom.1),
            result,
        )
}

/// A host can be used exactly when a preparation is under way that has come to its
/// end well.
pub proof fn a_host_is_ready_once_it_is_prepared<F, H>(slot: PendingPrepare<F, H>)
    ensures
        host_ready(Some(slot)) == slot.prepared,
        host_ready::<F, H>(None) is None,
{
}

/// What a local agent is: live over its transport, with a blank screen of its pane's
/// size, on no host, in its directory and the repository of that, without a title or
/// anything else known, and asking for nothing.
pub proof fn a_local_agent_is_live_and_blank<T>(
    agent: AgentModel<T>,
    id: Seq<char>,
    label: Seq<char>,
    cwd: Option<String>,
    repo: Option<String>,
    transport: T,
    rows: u16,
    cols: u16,
    scrollback_len: usize,
)
    requires
        is_local_agent(agent, id, label, cwd, repo, transport, rows, cols, scrollback_len),
    ensures
        agent.id@ == id && agent.label@ == label,
        agent.cwd == cwd && agent.repo == repo && agent.host is None,
        agent.rows == rows && agent.cols == cols,
        !agent.needs_attention && !agent.last_working && !agent.working(),
        agent.title() is None && agent.branch is None && agent.model_effort is None,
        agent.state is Ready,
        agent.state->transport == transport,
        agent.state->Ready_screen == blank_screen(rows, cols, scrollback_len as nat),
        agent.offset() == 0,
{
}

/// Without a directory no repository is looked for, and with one it is that which was
/// found for it.
pub proof fn the_repository_is_that_of_the_directory<R>(
    resolve_repo: R,
    cwd: Option<String>,
    repo: Option<String>,
) where R: FnOnce(&str) -> Option<String>
    requires
        repo_resolved(resolve_repo, cwd, repo),
    ensures
        cwd is None ==> repo is None,
        cwd is Some ==> exists|path: &str|
            path@ == cwd->0@ && #[trigger] call_ensures(resolve_repo, (path,), repo),
{
}

} // verus!
