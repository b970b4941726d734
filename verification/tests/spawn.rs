//! Bringing up agents, and what is found out about them.

use codemux::agent::{AgentId, AgentState, ModelEffort, RuntimeAgent};
use codemux::attach::{cancel_modal_owned_attach, drain_attach_events};
use codemux::fuzzy::{tick_fuzzy_dispatch, FuzzyUi, Memo};
use codemux::meta::{apply_meta_events, sync_meta_worker_target, MetaEvent, MetaTarget};
use codemux::nav::NavState;
use codemux::outcome::{
    begin_prepare, cancel_bootstrap, cancel_spawn, refresh_index, resolve_local_scratch_cwd,
    resolve_remote_scratch_cwd, spawn_local_agent, spawn_local_here, spawn_remote,
    spawn_remote_scratch, IndexRebuild,
};
use codemux::spawn::{
    build_remote_attach, daemon_agent_id_for, drain_prepare_events, typed_path, AttachEvent,
    ModalCommand, PendingAttach, PendingPrepare, PrepareEvent, PrepareReport, PrepareSuccess,
    PreparedHost,
};
use std::cell::RefCell;

/// A file system handle.
#[derive(Debug, PartialEq, Eq)]
struct Fs;

/// A worker's handle.
#[derive(Debug, PartialEq, Eq)]
struct Handle;

/// The spawn dialog.
#[derive(Debug, PartialEq, Eq)]
struct Dialog;

type Prepare = PendingPrepare<Fs, Handle>;
type Event = PrepareEvent<&'static str, Fs, &'static str>;
type Report = PrepareReport<&'static str, Fs, &'static str>;

fn basename(path: &str) -> Option<String> {
    path.rsplit('/').next().map(str::to_string)
}

fn fake_attach_factory(
    _prepared: PreparedHost,
    _host: String,
    _agent_id: String,
    _cwd: Option<String>,
    _rows: u16,
    _cols: u16,
) -> Handle {
    Handle
}

fn prepared_host_for_test() -> PreparedHost {
    PreparedHost { remote_home: "/home/u".to_string(), binary_was_updated: false }
}

fn make_pending_prepare(host: &str, pending_project_path: Option<String>) -> Prepare {
    PendingPrepare {
        host: host.to_string(),
        handle: Handle,
        prepared: None,
        remote_fs: None,
        pending_project_path,
    }
}

fn drain_test_geometry() -> (u16, u16) {
    (24, 80)
}

fn attach_for(name: &str, modal_owner: bool) -> PendingAttach<u8> {
    PendingAttach {
        agent_id: AgentId::new(name),
        label: format!("devpod:{name}"),
        host: "devpod".to_string(),
        repo: Some("p".to_string()),
        rows: 5,
        cols: 20,
        handle: 0,
        modal_owner,
    }
}

fn ready_test_agent(scrollback_len: usize) -> RuntimeAgent<u8> {
    RuntimeAgent::ready(
        AgentId::new("a"),
        "a".to_string(),
        None,
        None,
        None,
        0,
        5,
        20,
        scrollback_len,
    )
}

#[test]
fn daemon_agent_id_includes_tui_pid_and_counter() {
    assert_eq!(daemon_agent_id_for(48321, 2), "agent-48321-2");
    assert_eq!(daemon_agent_id_for(1, 1), "agent-1-1");
}

#[test]
fn daemons_of_different_agents_have_different_names() {
    assert_ne!(daemon_agent_id_for(1, 11), daemon_agent_id_for(11, 1));
    assert_eq!(daemon_agent_id_for(u32::MAX, 0), "agent-4294967295-0");
}

#[test]
fn agents_never_share_an_identity() {
    let first = spawn_local_agent::<u8, String, _, _>(
        AgentId::new("agent-1"),
        "agent-1".to_string(),
        None,
        5,
        20,
        10,
        |_, _, _, _| Ok(0),
        |_| None,
    );
    let mut nav = NavState::new(vec![first.expect("it starts")]);
    let mut counter = 1;
    let mut attaches: Vec<PendingAttach<u8>> = Vec::new();
    for _ in 0..3 {
        let started: Result<(), String> = spawn_local_here(
            &mut nav,
            &mut None::<Dialog>,
            &mut counter,
            None,
            (5, 20),
            10,
            |_, _, _, _| Ok(0),
            |_| None,
        );
        assert_eq!(started, Ok(()));
        let mut slot = make_pending_prepare("devpod", None);
        slot.prepared = Some(prepared_host_for_test());
        spawn_remote(
            &mut Some(Dialog),
            &mut Some(slot),
            &mut attaches,
            &mut counter,
            "devpod".to_string(),
            "",
            (5, 20),
            9,
            basename,
            |_, _, _, _, _, _| 0,
        );
        nav.kill_focused();
    }
    let events = attaches.iter().map(|_| vec![AttachEvent::<(), u8>::Done(Ok(1))]).collect();
    let mut prepare: Option<Prepare> = None;
    drain_attach_events(&mut nav, &mut None::<Dialog>, &mut prepare, &mut attaches, events, 10);
    let ids: Vec<&str> = nav.agents.iter().map(|a| a.id.name.as_str()).collect();
    assert_eq!(ids, vec!["agent-1", "agent-3", "agent-5", "agent-7"]);
}

#[test]
fn a_path_that_was_not_typed_is_none() {
    assert_eq!(typed_path(""), None);
    assert_eq!(typed_path("/work/p").as_deref(), Some("/work/p"));
}

/// What a scratch directory is resolved to, with a maker of directories that is
/// asked at most once.
fn resolve_scratch(dir: Option<&str>, mkdir: Option<bool>) -> (Option<String>, Vec<String>) {
    let asked = RefCell::new(Vec::new());
    let resolved = resolve_remote_scratch_cwd(
        dir.map(str::to_string),
        mkdir.map(|made| {
            let asked = &asked;
            move |path: &str| {
                asked.borrow_mut().push(path.to_string());
                made
            }
        }),
    );
    (resolved, asked.into_inner())
}

#[test]
fn resolve_remote_scratch_cwd_returns_none_when_path_unresolvable() {
    assert_eq!(resolve_scratch(None, Some(true)), (None, vec![]));
}

#[test]
fn resolve_remote_scratch_cwd_returns_dir_without_mkdir_when_no_remote_fs() {
    let (resolved, asked) = resolve_scratch(Some("/root/.codemux/scratch"), None);
    assert_eq!(resolved.as_deref(), Some("/root/.codemux/scratch"));
    assert!(asked.is_empty());
}

#[test]
fn resolve_remote_scratch_cwd_returns_dir_on_mkdir_success() {
    let (resolved, asked) = resolve_scratch(Some("/root/.codemux/scratch"), Some(true));
    assert_eq!(resolved.as_deref(), Some("/root/.codemux/scratch"));
    assert_eq!(asked, vec!["/root/.codemux/scratch"]);
}

#[test]
fn resolve_remote_scratch_cwd_returns_none_on_mkdir_failure() {
    assert_eq!(resolve_scratch(Some("/root/.codemux/scratch"), Some(false)).0, None);
}

#[test]
fn the_local_scratch_directory_is_used_if_it_can_be_made() {
    let dir = || Some("/home/u/scratch".to_string());
    assert_eq!(resolve_local_scratch_cwd(dir(), |_| true), dir());
    assert_eq!(resolve_local_scratch_cwd(dir(), |_| false), None);
    assert_eq!(resolve_local_scratch_cwd(None, |_| true), None);
}

#[test]
fn build_remote_attach_constructs_pending_attach_with_correct_fields() {
    let prepared = prepared_host_for_test();
    let attach = build_remote_attach(
        prepared,
        "devpod".to_string(),
        "/work/p",
        12345,
        7,
        24,
        80,
        true,
        basename,
        fake_attach_factory,
    );
    assert_eq!(attach.label, "devpod:agent-7");
    assert_eq!(attach.agent_id, AgentId::new("agent-7"));
    assert_eq!(attach.host, "devpod");
    assert_eq!(attach.repo.as_deref(), Some("p"));
    assert_eq!(attach.rows, 24);
    assert_eq!(attach.cols, 80);
    assert!(attach.modal_owner);
}

#[test]
fn build_remote_attach_empty_path_omits_repo() {
    let prepared = prepared_host_for_test();
    let attach = build_remote_attach(
        prepared,
        "devpod".to_string(),
        "",
        12345,
        7,
        24,
        80,
        false,
        basename,
        fake_attach_factory,
    );
    assert!(
        attach.repo.is_none(),
        "empty path must produce repo: None, got {:?}",
        attach.repo,
    );
    assert!(!attach.modal_owner);
}

#[test]
fn an_attach_is_started_for_the_daemon_and_the_directory() {
    let mut asked = None;
    build_remote_attach(
        prepared_host_for_test(),
        "devpod".to_string(),
        "/work/p",
        12345,
        7,
        24,
        80,
        true,
        basename,
        |prepared, host, id, cwd, rows, cols| {
            asked = Some((prepared.remote_home, host, id, cwd, rows, cols));
        },
    );
    assert_eq!(
        asked,
        Some((
            "/home/u".to_string(),
            "devpod".to_string(),
            "agent-12345-7".to_string(),
            Some("/work/p".to_string()),
            24,
            80,
        )),
    );
}

struct Drained {
    prepare: Option<Prepare>,
    spawn_ui: Option<Dialog>,
    attaches: Vec<PendingAttach<Handle>>,
    spawn_counter: usize,
    report: Report,
}

fn drain(prepare: Option<Prepare>, spawn_ui: Option<Dialog>, events: Vec<Event>) -> Drained {
    let (mut prepare, mut spawn_ui) = (prepare, spawn_ui);
    let mut attaches = Vec::new();
    let mut spawn_counter: usize = 0;
    let report = drain_prepare_events(
        &mut prepare,
        &mut spawn_ui,
        &mut attaches,
        &mut spawn_counter,
        events,
        drain_test_geometry(),
        999,
        basename,
        fake_attach_factory,
    );
    Drained { prepare, spawn_ui, attaches, spawn_counter, report }
}

fn success(fs: Option<Fs>) -> Event {
    Event::Done(Ok(PrepareSuccess { prepared: prepared_host_for_test(), fs }))
}

#[test]
fn drain_prepare_events_with_pending_path_dismisses_modal_and_launches_attach() {
    let slot = make_pending_prepare("devpod", Some("/work/p".to_string()));
    let d = drain(Some(slot), Some(Dialog), vec![success(None)]);
    assert!(d.prepare.is_none(), "auto-spawn consumes the prepare slot");
    assert!(d.spawn_ui.is_none(), "auto-spawn dismisses the modal");
    assert_eq!(d.attaches.len(), 1, "auto-spawn queues exactly one attach");
    assert_eq!(d.attaches[0].host, "devpod");
    assert_eq!(d.attaches[0].label, "devpod:agent-1");
    assert_eq!(d.attaches[0].repo.as_deref(), Some("p"));
    assert!(
        !d.attaches[0].modal_owner,
        "auto-spawn flow must not own the modal — it dismissed it",
    );
    assert_eq!(d.spawn_counter, 1, "spawn_counter incremented for the attach");
}

#[test]
fn drain_prepare_events_without_pending_path_unlocks_modal() {
    let slot = make_pending_prepare("devpod", None);
    let d = drain(Some(slot), Some(Dialog), vec![success(None)]);
    assert!(
        d.spawn_ui.is_some(),
        "PrepareHost flow keeps the modal open for path entry",
    );
    assert!(d.attaches.is_empty(), "no attach launched without a stashed path");
    let slot = d
        .prepare
        .as_ref()
        .expect("slot is re-stashed for the subsequent user-driven Spawn");
    assert!(slot.prepared.is_some(), "prepared host is recorded on the slot");
    assert_eq!(d.spawn_counter, 0, "spawn_counter unchanged in PrepareHost flow");
    match &d.report.commands[..] {
        [ModalCommand::UnlockForRemotePath { host, remote_home }] => {
            assert_eq!((host.as_str(), remote_home.as_str()), ("devpod", "/home/u"));
        }
        _ => panic!("the dialog is told to let the user pick a directory"),
    }
}

#[test]
fn drain_prepare_events_with_failure_unlocks_back_to_host_zone_even_with_pending_path() {
    let slot = make_pending_prepare("devpod", Some("/work/p".to_string()));
    let d = drain(Some(slot), Some(Dialog), vec![Event::Done(Err("simulated probe failure"))]);
    assert!(d.prepare.is_none(), "failure drops the slot");
    assert!(d.spawn_ui.is_some(), "modal stays open so the user sees the error");
    assert!(
        d.attaches.is_empty(),
        "no attach launched on failure, even with pending path",
    );
    assert_eq!(d.spawn_counter, 0);
    match &d.report.commands[..] {
        [ModalCommand::UnlockBackToHost { error }] => assert_eq!(*error, "simulated probe failure"),
        _ => panic!("the dialog is told why"),
    }
}

#[test]
fn drain_prepare_events_with_no_done_event_re_stashes_slot() {
    let slot = make_pending_prepare("devpod", Some("/work/p".to_string()));
    let d = drain(Some(slot), Some(Dialog), vec![Event::Stage("version probe")]);
    assert!(d.prepare.is_some(), "in-flight slot is re-stashed");
    assert!(d.spawn_ui.is_some(), "modal stays open while in-flight");
    assert!(d.attaches.is_empty(), "no attach yet — prepare hasn't completed");
    let slot = d.prepare.as_ref().expect("slot re-stashed");
    assert_eq!(
        slot.pending_project_path.as_deref(),
        Some("/work/p"),
        "pending path preserved across in-flight drains",
    );
    assert!(matches!(d.report.commands[..], [ModalCommand::SetStage("version probe")]));
}

#[test]
fn drain_prepare_events_no_slot_is_a_noop() {
    let d = drain(None, None, vec![]);
    assert!(d.prepare.is_none());
    assert!(d.spawn_ui.is_none());
    assert!(d.attaches.is_empty());
    assert_eq!(d.spawn_counter, 0);
}

#[test]
fn drain_prepare_events_with_remote_fs_kicks_off_swr_index() {
    let slot = make_pending_prepare("devpod", None);
    let d = drain(Some(slot), Some(Dialog), vec![success(Some(Fs))]);
    let slot = d.prepare.as_ref().expect("slot re-stashed for user-driven Spawn");
    assert!(
        slot.remote_fs.is_some(),
        "RemoteFs handed off to the slot for the modal's per-keystroke listing",
    );
    assert!(slot.prepared.is_some());
    assert!(d.spawn_ui.is_some());
    let index = d.report.index.expect("the host is indexed");
    assert_eq!((index.host.as_str(), index.remote_home.as_str()), ("devpod", "/home/u"));
    assert_eq!(d.report.spare_fs, None);
}

#[test]
fn an_automatic_start_leaves_the_file_system_for_the_index() {
    let slot = make_pending_prepare("devpod", Some(String::new()));
    let d = drain(
        Some(slot),
        None,
        vec![Event::Stage("one"), success(Some(Fs)), Event::Stage("late")],
    );
    assert_eq!(d.report.spare_fs, Some(Fs));
    assert!(d.report.index.is_some());
    assert!(d.report.commands.is_empty(), "nobody is told when the dialog is closed");
    assert_eq!(d.attaches[0].repo, None);
}

#[test]
fn stages_are_told_in_order_up_to_the_end() {
    let slot = make_pending_prepare("devpod", None);
    let d = drain(
        Some(slot),
        Some(Dialog),
        vec![Event::Stage("a"), Event::Stage("b"), Event::Done(Err("no")), Event::Stage("c")],
    );
    assert!(matches!(
        d.report.commands[..],
        [
            ModalCommand::SetStage("a"),
            ModalCommand::SetStage("b"),
            ModalCommand::UnlockBackToHost { error: "no" }
        ]
    ));
}

#[test]
fn finished_attaches_become_agents_and_the_last_gets_the_focus() {
    let mut nav = NavState::new(vec![ready_test_agent(10)]);
    let mut spawn_ui = Some(Dialog);
    let mut prepare = Some(make_pending_prepare("devpod", None));
    let mut attaches = vec![
        attach_for("agent-2", false),
        attach_for("agent-3", false),
        attach_for("agent-4", false),
    ];
    let events: Vec<Vec<AttachEvent<&str, u8>>> = vec![
        vec![AttachEvent::Stage("hidden"), AttachEvent::Done(Ok(7))],
        vec![AttachEvent::Stage("waiting")],
        vec![AttachEvent::Done(Err("refused".to_string()))],
    ];
    let stages =
        drain_attach_events(&mut nav, &mut spawn_ui, &mut prepare, &mut attaches, events, 50);
    assert!(stages.is_empty(), "the dialog waits for none of them");
    assert!(spawn_ui.is_some() && prepare.is_some());
    assert_eq!(attaches.len(), 1);
    assert_eq!(attaches[0].agent_id, AgentId::new("agent-3"));
    assert_eq!(nav.agents.len(), 3);
    assert_eq!((nav.focused, nav.previous_focused), (2, Some(0)));
    match &nav.agents[1].state {
        AgentState::Ready { transport, .. } => assert_eq!(*transport, 7),
        _ => panic!("a finished attach is live"),
    }
    assert_eq!(nav.agents[1].label, "devpod:agent-2");
    assert_eq!(nav.agents[1].host.as_deref(), Some("devpod"));
    assert_eq!(nav.agents[1].repo.as_deref(), Some("p"));
    assert_eq!(nav.agents[1].cwd, None);
    match &nav.agents[2].state {
        AgentState::Failed { error } => assert_eq!(error, "refused"),
        _ => panic!("a refused attach is failed"),
    }
}

#[test]
fn the_dialog_closes_when_the_attach_it_waits_for_is_done() {
    let mut nav = NavState::new(vec![ready_test_agent(10)]);
    let mut spawn_ui = Some(Dialog);
    let mut prepare = Some(make_pending_prepare("devpod", None));
    let mut attaches = vec![attach_for("agent-2", true)];
    let staged: Vec<Vec<AttachEvent<&str, u8>>> =
        vec![vec![AttachEvent::Stage("tunnel"), AttachEvent::Stage("hello")]];
    let stages =
        drain_attach_events(&mut nav, &mut spawn_ui, &mut prepare, &mut attaches, staged, 50);
    assert_eq!(stages, vec!["tunnel", "hello"]);
    assert!(spawn_ui.is_some() && prepare.is_some());
    let done: Vec<Vec<AttachEvent<&str, u8>>> = vec![vec![AttachEvent::Done(Ok(1))]];
    drain_attach_events(&mut nav, &mut spawn_ui, &mut prepare, &mut attaches, done, 50);
    assert!(spawn_ui.is_none() && prepare.is_none() && attaches.is_empty());
    assert_eq!(nav.focused, 1);
}

#[test]
fn cancelling_takes_back_only_the_attach_that_is_waited_for() {
    let mut attaches = vec![
        attach_for("agent-2", false),
        attach_for("agent-3", true),
        attach_for("agent-4", false),
    ];
    cancel_modal_owned_attach(&mut attaches);
    let names: Vec<&str> = attaches.iter().map(|a| a.agent_id.name.as_str()).collect();
    assert_eq!(names, vec!["agent-2", "agent-4"]);
    cancel_modal_owned_attach(&mut attaches);
    assert_eq!(attaches.len(), 2);
}

#[test]
fn closing_the_dialog_takes_everything_back() {
    let mut spawn_ui = Some(Dialog);
    let mut prepare = Some(make_pending_prepare("devpod", None));
    let mut attaches = vec![attach_for("agent-2", true)];
    cancel_spawn(&mut spawn_ui, &mut prepare, &mut attaches);
    assert!(spawn_ui.is_none() && prepare.is_none() && attaches.is_empty());
}

#[test]
fn waiting_is_given_up_for_the_preparation_first() {
    let mut prepare = Some(make_pending_prepare("devpod", None));
    let mut attaches = vec![attach_for("agent-2", true)];
    cancel_bootstrap(&mut prepare, &mut attaches);
    assert!(prepare.is_none());
    assert_eq!(attaches.len(), 1);
    cancel_bootstrap(&mut prepare, &mut attaches);
    assert!(attaches.is_empty());
}

#[test]
fn preparing_a_host_replaces_the_preparation_of_another() {
    let mut prepare = Some(make_pending_prepare("old", Some("/x".to_string())));
    let mut started = Vec::new();
    begin_prepare(&mut prepare, "new".to_string(), Some("/work/p".to_string()), |host| {
        started.push(host);
        Handle
    });
    let slot = prepare.expect("a preparation is under way");
    assert_eq!(slot.host, "new");
    assert_eq!(slot.pending_project_path.as_deref(), Some("/work/p"));
    assert!(slot.prepared.is_none() && slot.remote_fs.is_none());
    assert_eq!(started, vec!["new"]);
}

#[test]
fn a_remote_agent_needs_a_prepared_host() {
    let mut spawn_ui = Some(Dialog);
    let mut attaches: Vec<PendingAttach<Handle>> = Vec::new();
    let mut counter = 4;
    let mut prepare: Option<Prepare> = Some(make_pending_prepare("devpod", None));
    let waiting = spawn_remote(
        &mut spawn_ui,
        &mut prepare,
        &mut attaches,
        &mut counter,
        "devpod".to_string(),
        "/work/p",
        (24, 80),
        9,
        basename,
        fake_attach_factory,
    );
    assert!(!waiting && spawn_ui.is_none() && prepare.is_none() && attaches.is_empty());
    assert_eq!(counter, 5);
    let mut spawn_ui = Some(Dialog);
    let mut slot = make_pending_prepare("devpod", None);
    slot.prepared = Some(prepared_host_for_test());
    let mut prepare = Some(slot);
    let waiting = spawn_remote(
        &mut spawn_ui,
        &mut prepare,
        &mut attaches,
        &mut counter,
        "devpod".to_string(),
        "/work/p",
        (24, 80),
        9,
        basename,
        fake_attach_factory,
    );
    assert!(waiting && spawn_ui.is_some() && prepare.is_none());
    assert_eq!(attaches[0].label, "devpod:agent-6");
    assert!(attaches[0].modal_owner);
}

#[test]
fn a_remote_agent_can_be_started_in_the_scratch_directory() {
    let mut spawn_ui = Some(Dialog);
    let mut attaches: Vec<PendingAttach<Option<String>>> = Vec::new();
    let mut counter = 0;
    let mut slot = make_pending_prepare("devpod", None);
    slot.prepared = Some(prepared_host_for_test());
    slot.remote_fs = Some(Fs);
    let mut prepare = Some(slot);
    let waiting = spawn_remote_scratch(
        &mut spawn_ui,
        &mut prepare,
        &mut attaches,
        &mut counter,
        "devpod".to_string(),
        (24, 80),
        9,
        |prepared, fs| {
            assert_eq!(*fs, Some(Fs));
            Some(format!("{}/scratch", prepared.remote_home))
        },
        basename,
        |_, _, _, cwd, _, _| cwd,
    );
    assert!(waiting && prepare.is_none());
    assert_eq!(attaches[0].repo.as_deref(), Some("scratch"));
    assert_eq!(attaches[0].handle.as_deref(), Some("/home/u/scratch"));
    let mut none: Option<Prepare> = None;
    let waiting = spawn_remote_scratch(
        &mut spawn_ui,
        &mut none,
        &mut attaches,
        &mut counter,
        "devpod".to_string(),
        (24, 80),
        9,
        |_, _| None,
        basename,
        |_, _, _, cwd, _, _| cwd,
    );
    assert!(!waiting && spawn_ui.is_none());
    assert_eq!((attaches.len(), counter), (1, 2));
}

#[test]
fn a_local_agent_is_started_focused_and_numbered() {
    let mut nav = NavState::new(vec![ready_test_agent(10)]);
    let mut spawn_ui = Some(Dialog);
    let mut counter = 1;
    let started: Result<(), String> = spawn_local_here(
        &mut nav,
        &mut spawn_ui,
        &mut counter,
        Some("/work/p".to_string()),
        (5, 20),
        100,
        |label, cwd, rows, cols| {
            assert_eq!((label.as_str(), cwd.as_deref(), rows, cols), ("agent-2", Some("/work/p"), 5, 20));
            Ok(9)
        },
        basename,
    );
    assert_eq!(started, Ok(()));
    assert!(spawn_ui.is_none());
    assert_eq!((nav.agents.len(), nav.focused, counter), (2, 1, 2));
    let agent = &nav.agents[1];
    assert_eq!((agent.id.name.as_str(), agent.label.as_str()), ("agent-2", "agent-2"));
    assert_eq!((agent.repo.as_deref(), agent.cwd.as_deref()), (Some("p"), Some("/work/p")));
    assert_eq!(agent.host, None);
}

#[test]
fn a_local_agent_that_does_not_start_changes_no_tabs() {
    let mut nav = NavState::new(vec![ready_test_agent(10)]);
    let mut spawn_ui = Some(Dialog);
    let mut counter = 1;
    let started = spawn_local_here(
        &mut nav,
        &mut spawn_ui,
        &mut counter,
        None,
        (5, 20),
        100,
        |_, _, _, _| Err("no such program".to_string()),
        basename,
    );
    assert_eq!(started, Err("no such program".to_string()));
    assert_eq!((nav.agents.len(), nav.focused, counter), (1, 0, 2));
    assert!(spawn_ui.is_none());
}

#[test]
fn a_local_agent_without_a_directory_has_no_repository() {
    let agent: Result<RuntimeAgent<u8>, String> = spawn_local_agent(
        AgentId::new("agent-1"),
        "agent-1".to_string(),
        None,
        5,
        20,
        100,
        |_, _, _, _| Ok(3),
        |_| panic!("there is no directory to ask about"),
    );
    let agent = agent.expect("it starts");
    assert_eq!((agent.repo, agent.cwd, agent.rows, agent.cols), (None, None, 5, 20));
}

#[test]
fn the_index_is_rebuilt_for_the_host_of_the_dialog() {
    let mut prepare: Option<Prepare> = None;
    assert_eq!(refresh_index(&prepare, None), IndexRebuild::Local);
    assert_eq!(refresh_index(&prepare, Some("devpod")), IndexRebuild::Skipped);
    let mut slot = make_pending_prepare("devpod", None);
    slot.remote_fs = Some(Fs);
    prepare = Some(slot);
    assert_eq!(
        refresh_index(&prepare, Some("devpod")),
        IndexRebuild::Remote { host: "devpod".to_string(), remote_home: "/".to_string() },
    );
    if let Some(slot) = prepare.as_mut() {
        slot.prepared = Some(prepared_host_for_test());
    }
    assert_eq!(
        refresh_index(&prepare, Some("devpod")),
        IndexRebuild::Remote { host: "devpod".to_string(), remote_home: "/home/u".to_string() },
    );
}

fn asking(host: &str, query: &str) -> FuzzyUi {
    FuzzyUi::Asking { host: host.to_string(), query: query.to_string() }
}

#[test]
fn tick_fuzzy_dispatch_records_pushed_index_and_query_for_active_modal() {
    let mut last_pushed_index_gen: Memo<u64> = Memo::default();
    let mut last_pushed_query: Memo<String> = Memo::default();
    let local = "local".to_string();
    let first = tick_fuzzy_dispatch(
        &asking("local", "code"),
        vec![1, 2],
        Some(1),
        true,
        &mut last_pushed_index_gen,
        &mut last_pushed_query,
    );
    assert!(first.set_index && first.query);
    assert_eq!(first.results, vec![1, 2]);
    assert_eq!(
        last_pushed_index_gen.get(&local).copied(),
        Some(1),
        "SetIndex memoization must record the dispatched generation",
    );
    assert_eq!(
        last_pushed_query.get(&local).map(String::as_str),
        Some("code"),
        "Query memoization must record the dispatched query",
    );
    let second = tick_fuzzy_dispatch(
        &asking("local", "code"),
        Vec::<u8>::new(),
        Some(1),
        true,
        &mut last_pushed_index_gen,
        &mut last_pushed_query,
    );
    assert!(!second.set_index && !second.query);
    assert_eq!(last_pushed_index_gen.get(&local).copied(), Some(1));
    assert_eq!(last_pushed_query.get(&local).map(String::as_str), Some("code"));
}

#[test]
fn tick_fuzzy_dispatch_skips_when_modal_closed() {
    let mut last_pushed_index_gen: Memo<u64> = Memo::default();
    let mut last_pushed_query: Memo<String> = Memo::default();
    let tick = tick_fuzzy_dispatch(
        &FuzzyUi::Closed,
        vec![1],
        None,
        false,
        &mut last_pushed_index_gen,
        &mut last_pushed_query,
    );
    assert!(tick.results.is_empty() && !tick.set_index && !tick.query);
    assert!(last_pushed_index_gen.is_empty());
    assert!(last_pushed_query.is_empty());
}

#[test]
fn tick_fuzzy_dispatch_skips_when_query_empty() {
    let mut last_pushed_index_gen: Memo<u64> = Memo::default();
    let mut last_pushed_query: Memo<String> = Memo::default();
    let tick = tick_fuzzy_dispatch(
        &FuzzyUi::Idle,
        vec![1],
        Some(1),
        true,
        &mut last_pushed_index_gen,
        &mut last_pushed_query,
    );
    assert_eq!(tick.results, vec![1]);
    assert!(!tick.set_index && !tick.query);
    assert!(last_pushed_index_gen.is_empty());
    assert!(last_pushed_query.is_empty());
}

#[test]
fn a_new_index_brings_the_same_query_again_and_other_hosts_are_left_alone() {
    let mut gens: Memo<u64> = Memo::default();
    let mut queries: Memo<String> = Memo::default();
    let tick = |ui: FuzzyUi, generation: Option<u64>, has_dirs: bool, gens: &mut Memo<u64>, queries: &mut Memo<String>| {
        let d = tick_fuzzy_dispatch(&ui, Vec::<u8>::new(), generation, has_dirs, gens, queries);
        (d.set_index, d.query)
    };
    assert_eq!(tick(asking("a", "x"), None, false, &mut gens, &mut queries), (false, true));
    assert_eq!(tick(asking("a", "x"), Some(1), false, &mut gens, &mut queries), (false, false));
    assert_eq!(tick(asking("a", "x"), Some(1), true, &mut gens, &mut queries), (true, true));
    assert_eq!(tick(asking("b", "x"), Some(1), true, &mut gens, &mut queries), (true, true));
    assert_eq!(tick(asking("a", "x"), Some(2), true, &mut gens, &mut queries), (true, true));
    assert_eq!(tick(asking("a", "xy"), Some(2), true, &mut gens, &mut queries), (false, true));
    assert_eq!(tick(asking("b", "x"), Some(1), true, &mut gens, &mut queries), (false, false));
    gens.remove(&"a".to_string());
    assert_eq!(gens.get(&"a".to_string()), None);
    assert_eq!(gens.get(&"b".to_string()), Some(&1));
}

#[test]
fn apply_meta_events_routes_branch_to_matching_agent() {
    let mut a = ready_test_agent(100);
    a.id = AgentId::new("a");
    let mut b = ready_test_agent(100);
    b.id = AgentId::new("b");
    let mut agents = vec![a, b];
    apply_meta_events(
        &mut agents,
        vec![MetaEvent::Branch {
            agent_id: AgentId::new("a"),
            value: Some("feature/x".to_string()),
        }],
    );
    assert_eq!(agents[0].branch.as_deref(), Some("feature/x"));
    assert!(agents[1].branch.is_none());
}

fn opus() -> ModelEffort {
    ModelEffort { model: "opus[1m]".to_string(), effort: Some("xhigh".to_string()) }
}

#[test]
fn apply_meta_events_writes_model_and_effort_together() {
    let mut agent = ready_test_agent(100);
    agent.id = AgentId::new("a");
    let mut agents = vec![agent];
    apply_meta_events(
        &mut agents,
        vec![MetaEvent::Model { agent_id: AgentId::new("a"), value: Some(opus()) }],
    );
    let me = agents[0].model_effort.as_ref().unwrap();
    assert_eq!(me.model, "opus[1m]");
    assert_eq!(me.effort.as_deref(), Some("xhigh"));
}

#[test]
fn apply_meta_events_clears_model_and_effort_on_none() {
    let mut agent = ready_test_agent(100);
    agent.id = AgentId::new("a");
    agent.model_effort = Some(opus());
    let mut agents = vec![agent];
    apply_meta_events(
        &mut agents,
        vec![MetaEvent::Model { agent_id: AgentId::new("a"), value: None }],
    );
    assert!(agents[0].model_effort.is_none());
}

#[test]
fn apply_meta_events_drops_events_for_unknown_agents() {
    let mut agent = ready_test_agent(100);
    agent.id = AgentId::new("a");
    let mut agents = vec![agent];
    apply_meta_events(
        &mut agents,
        vec![MetaEvent::Branch {
            agent_id: AgentId::new("ghost"),
            value: Some("ghost-branch".to_string()),
        }],
    );
    assert!(agents[0].branch.is_none());
}

#[test]
fn the_worker_is_told_only_when_the_focus_moves() {
    let mut local = ready_test_agent(10);
    local.cwd = Some("/work".to_string());
    let mut remote = ready_test_agent(10);
    remote.id = AgentId::new("b");
    let mut nav = NavState::new(vec![local, remote]);
    let mut last = None;
    assert_eq!(
        sync_meta_worker_target(&nav, &mut last),
        MetaTarget::Watch { agent_id: AgentId::new("a"), cwd: "/work".to_string() },
    );
    assert_eq!(sync_meta_worker_target(&nav, &mut last), MetaTarget::Keep);
    nav.focused = 1;
    assert_eq!(sync_meta_worker_target(&nav, &mut last), MetaTarget::Clear);
    assert_eq!(last, None);
    assert_eq!(sync_meta_worker_target(&nav, &mut last), MetaTarget::Keep);
}

#[test]
fn a_preparation_that_starts_nothing_needs_no_number() {
    let mut prepare = Some(make_pending_prepare("devpod", None));
    let mut spawn_ui = Some(Dialog);
    let mut attaches = Vec::new();
    let mut spawn_counter: usize = usize::MAX;
    drain_prepare_events(
        &mut prepare,
        &mut spawn_ui,
        &mut attaches,
        &mut spawn_counter,
        vec![success(None)],
        drain_test_geometry(),
        999,
        basename,
        fake_attach_factory,
    );
    assert_eq!(spawn_counter, usize::MAX);
    assert!(attaches.is_empty());
    assert!(prepare.is_some_and(|slot| slot.prepared.is_some()));
}
