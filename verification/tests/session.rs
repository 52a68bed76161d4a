use debugger::dap::{
    Capabilities, LoadedSourceEvent, LoadedSourceEventReason, Module, ModuleEvent, ModuleEventReason,
    ModuleId, Source, SteppingGranularity,
};
use debugger::dap_command::{LoadedSourcesCommand, ModulesCommand, PauseCommand, StackTraceCommand};
use debugger::debug_format::{DebugAdapterConfig, DebugConnectionType, DebugRequestType};
use debugger::ids::{DebugAdapterClientId, DebugSessionId};
use debugger::session::{CachedRequest, ClientMode, ClientState, DebugSession, SessionRequest};

fn module(id: i32, name: &str) -> Module {
    Module {
        id: ModuleId::Number(id),
        name: name.to_string(),
        path: None,
        is_optimized: None,
        is_user_code: None,
        version: None,
        symbol_status: None,
        symbol_file_path: None,
        date_time_stamp: None,
        address_range: None,
    }
}

fn source(name: &str, path: Option<&str>) -> Source {
    Source {
        name: Some(name.to_string()),
        path: path.map(|p| p.to_string()),
        source_reference: None,
        presentation_hint: None,
        origin: None,
        sources: None,
        adapter_data: None,
        checksums: None,
    }
}

fn local_client() -> ClientState {
    ClientState::new(DebugAdapterClientId(1), ClientMode::Local)
}

#[test]
fn module_events_add_change_and_remove() {
    let mut client = local_client();
    client.handle_module_event(&ModuleEvent { reason: ModuleEventReason::New, module: module(1, "a") });
    client.handle_module_event(&ModuleEvent { reason: ModuleEventReason::New, module: module(2, "b") });
    client.handle_module_event(&ModuleEvent { reason: ModuleEventReason::Changed, module: module(1, "a2") });
    let names: Vec<String> = client.modules().1.iter().map(|m| m.name.clone()).collect();
    assert_eq!(names, vec!["a2", "b"]);
    client.handle_module_event(&ModuleEvent { reason: ModuleEventReason::Removed, module: module(1, "x") });
    let names: Vec<String> = client.modules().1.iter().map(|m| m.name.clone()).collect();
    assert_eq!(names, vec!["b"]);
    client.handle_module_event(&ModuleEvent { reason: ModuleEventReason::Changed, module: module(7, "z") });
    assert_eq!(client.modules().1.len(), 1);
}

#[test]
fn loaded_source_events_change_by_path_and_remove_equal_sources() {
    let mut client = local_client();
    client.handle_loaded_source_event(&LoadedSourceEvent {
        reason: LoadedSourceEventReason::New,
        source: source("a", Some("/a.py")),
    });
    client.handle_loaded_source_event(&LoadedSourceEvent {
        reason: LoadedSourceEventReason::Changed,
        source: source("renamed", Some("/a.py")),
    });
    let (_, sources) = client.loaded_sources();
    assert_eq!(sources.len(), 1);
    assert_eq!(sources[0].name, Some("renamed".to_string()));
    client.handle_loaded_source_event(&LoadedSourceEvent {
        reason: LoadedSourceEventReason::Removed,
        source: source("other", Some("/a.py")),
    });
    assert_eq!(client.loaded_sources().1.len(), 1);
    client.handle_loaded_source_event(&LoadedSourceEvent {
        reason: LoadedSourceEventReason::Removed,
        source: source("renamed", Some("/a.py")),
    });
    assert!(client.loaded_sources().1.is_empty());
}

#[test]
fn cached_requests_are_sent_once_until_invalidated() {
    let mut client = local_client();
    let request = CachedRequest::StackTrace(StackTraceCommand { thread_id: 1, start_frame: None, levels: None });
    assert!(client.fetch(request));
    assert!(!client.fetch(request));
    assert!(client.stack_frames(1).is_none());
    assert!(client.stack_frames(2).is_some());
    client.invalidate();
    assert!(client.fetch(request));
}

#[test]
fn unsupported_requests_are_refused_locally_only() {
    let mut client = local_client();
    let pause = client.pause_thread(3);
    assert_eq!(pause, SessionRequest::Pause(PauseCommand { thread_id: 3 }));
    assert_eq!(pause.command(), "pause");
    assert!(client.check_request(&pause).is_ok());

    let modules = client.modules().0.unwrap();
    let refused = client.check_request(&modules).unwrap_err();
    assert_eq!(refused.command, "modules");

    let remote = ClientState::new(DebugAdapterClientId(2), ClientMode::Remote { upstream_project_id: 5 });
    assert!(remote.check_request(&modules).is_ok());
}

#[test]
fn restart_and_shutdown_fall_back_to_disconnect() {
    let mut client = local_client();
    assert_eq!(client.restart(None).command(), "disconnect");
    assert_eq!(client.shutdown().command(), "disconnect");
    client.capabilities.supports_restart_request = Some(true);
    client.capabilities.supports_terminate_request = Some(true);
    match client.restart(None) {
        SessionRequest::Restart(c) => assert_eq!(c.raw, b"null".to_vec()),
        other => panic!("unexpected {:?}", other),
    }
    match client.restart(Some(b"{\"a\":1}".to_vec())) {
        SessionRequest::Restart(c) => assert_eq!(c.raw, b"{\"a\":1}".to_vec()),
        other => panic!("unexpected {:?}", other),
    }
    assert_eq!(client.shutdown().command(), "terminate");
}

#[test]
fn step_requests_follow_capabilities() {
    let mut client = local_client();
    match client.step_over(4, SteppingGranularity::Line) {
        SessionRequest::Next(c) => {
            assert_eq!(c.inner.thread_id, 4);
            assert_eq!(c.inner.granularity, None);
        }
        other => panic!("unexpected {:?}", other),
    }
    client.capabilities.supports_stepping_granularity = Some(true);
    match client.step_in(4, SteppingGranularity::Line) {
        SessionRequest::StepIn(c) => assert_eq!(c.inner.granularity, Some(SteppingGranularity::Line)),
        other => panic!("unexpected {:?}", other),
    }
    assert_eq!(client.step_out(1, SteppingGranularity::Line).command(), "stepOut");
    assert_eq!(client.step_back(1, SteppingGranularity::Line).command(), "stepBack");
    assert_eq!(client.continue_thread(1).command(), "continue");
    assert_eq!(client.disconnect_client().command(), "disconnect");
    assert!(client.terminate_threads(Some(vec![1])).is_none());
    client.capabilities.supports_terminate_threads_request = Some(true);
    assert_eq!(client.terminate_threads(Some(vec![1])).unwrap().command(), "terminateThreads");
}

fn config(label: &str) -> DebugAdapterConfig {
    DebugAdapterConfig {
        label: label.to_string(),
        id: "lldb".to_string(),
        connection: DebugConnectionType::STDIO,
        request: DebugRequestType::Launch,
        program: None,
        cwd: None,
    }
}

#[test]
fn sessions_keep_their_clients() {
    let mut session = DebugSession::new_local(DebugSessionId(4), config("run tests"));
    assert_eq!(session.id(), DebugSessionId(4));
    assert_eq!(session.name(), "run tests");
    assert!(session.as_local().is_some());
    assert!(!session.ignore_breakpoints());
    session.set_ignore_breakpoints(true);
    assert!(session.ignore_breakpoints());

    session.add_client(DebugAdapterClientId(1), ClientMode::Local);
    assert!(session.client_state(DebugAdapterClientId(1)).is_some());
    assert!(session.client_state(DebugAdapterClientId(2)).is_none());
    assert!(session.shutdown_client(DebugAdapterClientId(1)).is_some());
    assert!(session.client_state(DebugAdapterClientId(1)).is_none());
    assert!(session.shutdown_client(DebugAdapterClientId(1)).is_none());

    let remote = DebugSession::new_remote(DebugSessionId(5), "remote".to_string(), true);
    assert_eq!(remote.name(), "remote");
    assert!(remote.as_local().is_none());
    assert!(remote.ignore_breakpoints());
    let _ = Capabilities::default();
}

#[test]
fn module_list_follows_a_client_of_the_session() {
    let mut session = DebugSession::new_local(DebugSessionId(1), config("s"));
    assert_eq!(
        session.on_module_event(DebugAdapterClientId(3), &ModuleEvent { reason: ModuleEventReason::New, module: module(1, "a") }),
        None
    );
    session.add_client(DebugAdapterClientId(3), ClientMode::Local);
    assert_eq!(
        session.on_module_event(DebugAdapterClientId(3), &ModuleEvent { reason: ModuleEventReason::New, module: module(1, "a") }),
        Some(1)
    );
    let state = session.client_state(DebugAdapterClientId(3)).unwrap();
    assert_eq!(state.module_entry(0), Some(("a".to_string(), None)));
    assert_eq!(state.module_entry(1), None);
}

#[test]
fn session_lists_removes_and_shuts_down_its_clients() {
    let mut session = DebugSession::new_local(DebugSessionId(8), config("s"));
    assert_eq!(session.clients_len(), 0);
    session.add_client(DebugAdapterClientId(1), ClientMode::Local);
    session.add_client(DebugAdapterClientId(2), ClientMode::Local);
    session.add_client(DebugAdapterClientId(1), ClientMode::Local);
    assert_eq!(session.clients_len(), 2);
    let mut ids = session.clients();
    ids.sort_by_key(|id| id.0);
    assert_eq!(ids, vec![DebugAdapterClientId(1), DebugAdapterClientId(2)]);
    assert_eq!(session.client_by_id(DebugAdapterClientId(2)), Some(DebugAdapterClientId(2)));
    assert_eq!(session.client_by_id(DebugAdapterClientId(5)), None);

    let ends = session.shutdown_clients();
    assert_eq!(ends.len(), 2);
    for (_, request) in &ends {
        assert_eq!(request.command(), "disconnect");
    }

    let removed = session.remove_client(DebugAdapterClientId(1)).unwrap();
    assert_eq!(removed.client_id, DebugAdapterClientId(1));
    assert!(session.remove_client(DebugAdapterClientId(1)).is_none());
    assert_eq!(session.clients(), vec![DebugAdapterClientId(2)]);
}

#[test]
fn modules_and_sources_are_requested_once_until_invalidated() {
    let mut client = local_client();
    // The first call asks for the modules; later calls reuse that request.
    assert_eq!(client.modules().0, Some(SessionRequest::Modules(ModulesCommand)));
    assert_eq!(client.modules().0, None);
    assert_eq!(client.modules().0, None);
    client.set_modules(vec![module(1, "First Module"), module(2, "Second Module")]);
    let (request, modules) = client.modules();
    assert_eq!(request, None);
    assert_eq!(modules.iter().map(|m| m.name.clone()).collect::<Vec<_>>(), vec!["First Module", "Second Module"]);

    assert_eq!(client.loaded_sources().0, Some(SessionRequest::LoadedSources(LoadedSourcesCommand)));
    assert_eq!(client.loaded_sources().0, None);

    client.invalidate();
    assert_eq!(client.modules().0, Some(SessionRequest::Modules(ModulesCommand)));
    assert_eq!(client.loaded_sources().0, Some(SessionRequest::LoadedSources(LoadedSourcesCommand)));
}
