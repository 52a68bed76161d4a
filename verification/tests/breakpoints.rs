use debugger::breakpoint_store::{
    Breakpoint as PlacedKind, BreakpointEditAction, BreakpointKind, BreakpointStore,
    SerializedBreakpoint as KindSerialized,
};
use debugger::dap::{Capabilities, SteppingGranularity, TerminateThreadsArguments};
use debugger::dap_store::{
    continue_arguments, disconnect_arguments, initialize_arguments, restart_disconnect_arguments,
    sends_configuration_done, start_request, step_in_arguments, step_out_arguments, step_over_arguments,
    terminate_threads_action, Bias, Breakpoint, ClientStatus, DapStore, DapStoreEvent, ProjectPath,
    SerializedBreakpoint, StartRequest, TerminateThreadsAction,
};
use debugger::debug_format::DebugRequestType;
use debugger::ids::DebugAdapterClientId;

fn standard() -> PlacedKind {
    PlacedKind { kind: BreakpointKind::Standard }
}

fn log(message: &str) -> PlacedKind {
    PlacedKind { kind: BreakpointKind::Log(message.to_string()) }
}

fn anchors(store: &BreakpointStore, path: &str) -> Vec<(u64, i32)> {
    store.breakpoints(&path.to_string(), None).iter().map(|(a, b)| (*a, b.kind.to_int())).collect()
}

#[test]
fn kind_numbers_and_messages() {
    assert_eq!(BreakpointKind::Standard.to_int(), 0);
    assert_eq!(BreakpointKind::Log("x".to_string()).to_int(), 1);
    assert_eq!(BreakpointKind::Standard.log_message(), None);
    assert_eq!(BreakpointKind::Log("hit".to_string()).log_message(), Some("hit".to_string()));
    assert!(BreakpointKind::Log("a".to_string()) == BreakpointKind::Log("b".to_string()));
    assert!(BreakpointKind::Standard != BreakpointKind::Log("a".to_string()));
}

#[test]
fn toggling_twice_restores_the_store() {
    let mut store = BreakpointStore::local();
    store.toggle_breakpoint("/a.rs".to_string(), (3, standard()), BreakpointEditAction::Toggle);
    assert_eq!(anchors(&store, "/a.rs"), vec![(3, 0)]);
    store.toggle_breakpoint("/a.rs".to_string(), (3, standard()), BreakpointEditAction::Toggle);
    assert!(anchors(&store, "/a.rs").is_empty());
}

#[test]
fn log_message_edits_add_and_remove_log_points() {
    let mut store = BreakpointStore::local();
    store.toggle_breakpoint(
        "/a.rs".to_string(),
        (5, standard()),
        BreakpointEditAction::EditLogMessage("value is {x}".to_string()),
    );
    let bps = store.breakpoints(&"/a.rs".to_string(), None);
    assert_eq!(bps.len(), 1);
    assert_eq!(bps[0].0, 5);
    assert_eq!(bps[0].1.kind.log_message(), Some("value is {x}".to_string()));

    store.toggle_breakpoint("/a.rs".to_string(), (5, log("old")), BreakpointEditAction::EditLogMessage(String::new()));
    assert!(anchors(&store, "/a.rs").is_empty());

    store.toggle_breakpoint("/a.rs".to_string(), (6, standard()), BreakpointEditAction::EditLogMessage(String::new()));
    assert!(anchors(&store, "/a.rs").is_empty());
}

#[test]
fn breakpoints_in_a_range_keep_their_order() {
    let mut store = BreakpointStore::local();
    for anchor in [9u64, 2, 5, 12] {
        store.toggle_breakpoint("/b.rs".to_string(), (anchor, standard()), BreakpointEditAction::Toggle);
    }
    let in_range: Vec<u64> = store.breakpoints(&"/b.rs".to_string(), Some((2, 9))).iter().map(|b| b.0).collect();
    assert_eq!(in_range, vec![9, 2, 5]);
    assert!(store.breakpoints(&"/none.rs".to_string(), None).is_empty());
}

#[test]
fn renaming_a_file_moves_its_breakpoints() {
    let mut store = BreakpointStore::local();
    store.toggle_breakpoint("/old.rs".to_string(), (1, standard()), BreakpointEditAction::Toggle);
    store.on_file_rename("/old.rs".to_string(), "/new.rs".to_string());
    assert!(anchors(&store, "/old.rs").is_empty());
    assert_eq!(anchors(&store, "/new.rs"), vec![(1, 0)]);
    store.on_file_rename("/missing.rs".to_string(), "/other.rs".to_string());
    assert!(anchors(&store, "/other.rs").is_empty());
}

#[test]
fn active_position_is_kept() {
    let mut store = BreakpointStore::local();
    assert_eq!(store.active_position(), None);
    store.set_active_position(Some(("/a.rs".to_string(), 4)));
    assert_eq!(store.active_position(), Some(("/a.rs".to_string(), 4)));
}

#[test]
fn serialized_kind_breakpoint_keeps_fields() {
    let saved = KindSerialized { position: 3, path: "/x".to_string(), kind: BreakpointKind::Standard };
    assert_eq!(saved.position, 3);
}

fn path(p: &str) -> ProjectPath {
    ProjectPath { worktree_id: 1, path: p.to_string() }
}

#[test]
fn row_breakpoints_become_one_based_lines() {
    let anchored = Breakpoint { active_position: Some(77), cache_position: 3 };
    assert_eq!(anchored.to_source_breakpoint(10).line, 11);
    let closed = Breakpoint { active_position: None, cache_position: 3 };
    assert_eq!(closed.to_source_breakpoint(10).line, 4);
    let saved = SerializedBreakpoint { position: 8, path: "/a".to_string() };
    assert_eq!(saved.to_source_breakpoint().line, 8);
    assert_eq!(saved.to_source_breakpoint().condition, None);
}

#[test]
fn anchors_lean_right_only_on_the_first_row() {
    assert_eq!(Breakpoint { active_position: None, cache_position: 0 }.anchor_bias(), Bias::Right);
    assert_eq!(Breakpoint { active_position: None, cache_position: 4 }.anchor_bias(), Bias::Left);
}

#[test]
fn active_position_is_set_once() {
    let mut bp = Breakpoint { active_position: None, cache_position: 2 };
    bp.set_active_position(5);
    assert_eq!(bp.active_position, Some(5));
    bp.set_active_position(9);
    assert_eq!(bp.active_position, Some(5));
    assert_eq!(bp.cache_position, 2);
}

#[test]
fn saving_and_reading_back_a_breakpoint() {
    let bp = Breakpoint { active_position: None, cache_position: 6 };
    let saved = bp.to_serialized(None, "/a".to_string());
    assert_eq!(saved.position, 7);
    assert_eq!(Breakpoint::from_serialized(&saved), bp);
    let open = Breakpoint { active_position: Some(1), cache_position: 6 };
    assert_eq!(open.to_serialized(Some(10), "/a".to_string()).position, 11);
    assert_eq!(open.to_serialized(None, "/a".to_string()).position, 7);
    let zero = SerializedBreakpoint { position: 0, path: "/a".to_string() };
    assert_eq!(Breakpoint::from_serialized(&zero).cache_position, 0);
}

#[test]
fn store_toggles_and_reads_saved_breakpoints() {
    let mut store = DapStore::new();
    let bp = Breakpoint { active_position: None, cache_position: 1 };
    store.toggle_breakpoint_for_buffer(&path("a.rs"), bp);
    assert_eq!(store.breakpoints_of(&path("a.rs")), vec![bp]);
    store.toggle_breakpoint_for_buffer(&path("a.rs"), bp);
    assert!(store.breakpoints_of(&path("a.rs")).is_empty());

    store.deserialize_breakpoints(
        1,
        vec![
            SerializedBreakpoint { position: 3, path: "b.rs".to_string() },
            SerializedBreakpoint { position: 3, path: "b.rs".to_string() },
            SerializedBreakpoint { position: 9, path: "b.rs".to_string() },
        ],
    );
    let mut rows: Vec<u32> = store.breakpoints_of(&path("b.rs")).iter().map(|b| b.cache_position).collect();
    rows.sort();
    assert_eq!(rows, vec![2, 8]);
}

#[test]
fn clients_start_run_and_stop() {
    let mut store = DapStore::new();
    let first = store.start_client();
    let second = store.start_client();
    assert_eq!(first, DebugAdapterClientId(0));
    assert_eq!(second, DebugAdapterClientId(1));
    assert!(!store.is_running(first));
    assert!(store.running_clients().is_empty());
    assert!(store.mark_running(first));
    assert!(store.is_running(first));
    assert_eq!(store.running_clients(), vec![first]);
    assert!(!store.mark_running(DebugAdapterClientId(9)));
    assert_eq!(store.shutdown_client(first), Some(DapStoreEvent::DebugClientStopped(first)));
    assert_eq!(store.shutdown_client(first), None);
    assert!(!store.is_running(first));
    assert_eq!(store.next_client_id(), DebugAdapterClientId(2));
    let _ = ClientStatus::Starting;
}

fn capabilities(granularity: bool, single: bool) -> Capabilities {
    let mut c = Capabilities::default();
    c.supports_stepping_granularity = Some(granularity);
    c.supports_single_thread_execution_requests = Some(single);
    c
}

#[test]
fn step_arguments_follow_capabilities() {
    let full = capabilities(true, true);
    let args = step_over_arguments(4, SteppingGranularity::Line, &full);
    assert_eq!(args.thread_id, 4);
    assert_eq!(args.granularity, Some(SteppingGranularity::Line));
    assert_eq!(args.single_thread, Some(true));

    let none = Capabilities::default();
    let args = step_in_arguments(4, SteppingGranularity::Instruction, &none);
    assert_eq!(args.granularity, None);
    assert_eq!(args.single_thread, None);
    assert_eq!(args.target_id, None);

    let args = step_out_arguments(2, SteppingGranularity::Statement, &capabilities(true, false));
    assert_eq!(args.granularity, Some(SteppingGranularity::Statement));
    assert_eq!(args.single_thread, None);
}

#[test]
fn continue_and_disconnect_arguments() {
    let c = continue_arguments(3);
    assert_eq!(c.thread_id, 3);
    assert_eq!(c.single_thread, Some(true));
    let d = disconnect_arguments();
    assert_eq!((d.restart, d.terminate_debuggee, d.suspend_debuggee), (Some(false), Some(true), Some(false)));
    let r = restart_disconnect_arguments();
    assert_eq!((r.restart, r.terminate_debuggee, r.suspend_debuggee), (Some(true), Some(false), Some(false)));
}

#[test]
fn start_request_and_configuration_done() {
    assert_eq!(start_request(DebugRequestType::Launch), StartRequest::Launch);
    assert_eq!(start_request(DebugRequestType::Attach), StartRequest::Attach);
    let mut c = Capabilities::default();
    assert!(!sends_configuration_done(&c));
    c.supports_configuration_done_request = Some(true);
    assert!(sends_configuration_done(&c));
}

#[test]
fn terminating_threads_needs_support() {
    let mut c = Capabilities::default();
    assert_eq!(terminate_threads_action(Some(vec![1]), &c), TerminateThreadsAction::ShutdownClient);
    c.supports_terminate_threads_request = Some(true);
    assert_eq!(
        terminate_threads_action(Some(vec![1, 2]), &c),
        TerminateThreadsAction::TerminateThreads(TerminateThreadsArguments { thread_ids: Some(vec![1, 2]) })
    );
}

#[test]
fn initialize_arguments_name_zed() {
    let args = initialize_arguments("debugpy".to_string());
    assert_eq!(args.client_id, Some("zed".to_string()));
    assert_eq!(args.client_name, Some("Zed".to_string()));
    assert_eq!(args.adapter_id, "debugpy");
    assert_eq!(args.locale, Some("en-US".to_string()));
    assert_eq!(args.lines_start_at1, Some(true));
    assert_eq!(args.supports_variable_paging, Some(false));
}
