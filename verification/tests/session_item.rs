use debugger::debug_format::{DebugAdapterKind, DebugRequestType, DebugTaskDefinition, DebugTaskError, DebugTaskFile, TaskTemplates};
use debugger::ids::DebugSessionId;
use debugger::session_item::{Dedup, DebugSession, DebugSessionState, StartingEvent};
use debugger::thread_entries::{SetVariableState, ThreadVariableList};
use debugger::dap::Variable;

#[test]
fn panel_session_goes_from_inert_to_running() {
    let mut item = DebugSession::inert();
    assert_eq!(item.session_id(), None);
    let tab = item.tab_content();
    assert_eq!(tab.label, "New Session");
    assert!(!tab.is_starting);
    item.on_inert_event(DebugSessionId(4));
    assert_eq!(item.mode, DebugSessionState::Starting(DebugSessionId(4)));
    assert!(item.tab_content().is_starting);
    assert_eq!(item.shutdown(), None);
    item.on_starting_event(StartingEvent::Finished);
    assert_eq!(item.mode, DebugSessionState::Running(DebugSessionId(4)));
    assert_eq!(item.tab_content().label, "Running");
    assert_eq!(item.shutdown(), Some(DebugSessionId(4)));
    item.on_inert_event(DebugSessionId(9));
    assert_eq!(item.session_id(), Some(DebugSessionId(4)));
}

#[test]
fn failed_start_shows_an_error() {
    let mut item = DebugSession::inert();
    item.on_inert_event(DebugSessionId(2));
    item.on_starting_event(StartingEvent::Failed);
    assert_eq!(item.mode, DebugSessionState::Failed);
    let tab = item.tab_content();
    assert_eq!(tab.label, "Failed");
    assert!(tab.is_error);
    assert_eq!(item.session_id(), None);
}

#[test]
fn sessions_of_the_same_id_are_deduplicated() {
    let running = DebugSession::running(DebugSessionId(1));
    assert_eq!(running.dedup(&DebugSession::running(DebugSessionId(1))), Some(Dedup::KeepExisting));
    assert_eq!(running.dedup(&DebugSession::running(DebugSessionId(2))), None);
    assert_eq!(DebugSession::inert().dedup(&DebugSession::inert()), Some(Dedup::KeepExisting));
}

#[test]
fn debug_tasks_do_not_become_templates_yet() {
    let task = DebugTaskDefinition {
        label: "debug main".to_string(),
        program: "main".to_string(),
        adapter_path: "/bin/adapter".to_string(),
        session_type: DebugRequestType::Launch,
        adapter: DebugAdapterKind::Custom,
    };
    assert_eq!(task.clone().to_zed_format(), Err(DebugTaskError::NotYetImplemented));
    let templates = TaskTemplates::from_debug_tasks(DebugTaskFile(vec![task]));
    assert!(templates.0.is_empty());
}

fn variable(name: &str, value: &str) -> Variable {
    Variable {
        name: name.to_string(),
        value: value.to_string(),
        type_: None,
        presentation_hint: None,
        evaluate_name: None,
        variables_reference: 0,
        named_variables: None,
        indexed_variables: None,
        memory_reference: None,
        declaration_location_reference: None,
        value_location_reference: None,
    }
}

#[test]
fn editing_a_variable_sets_it_only_when_changed() {
    let mut list = ThreadVariableList { open_entries: vec![], set_variable_state: None, stack_frame_entries: vec![] };
    assert_eq!(list.set_variable_value("1".to_string()), None);
    list.start_set_variable(7, &variable("x", "1"));
    assert_eq!(
        list.set_variable_state,
        Some(SetVariableState { parent_variables_reference: 7, name: "x".to_string(), value: "1".to_string() })
    );
    assert_eq!(list.set_variable_value("1".to_string()), None);
    assert_eq!(list.set_variable_state, None);
    list.start_set_variable(7, &variable("x", "1"));
    let args = list.set_variable_value("2".to_string()).unwrap();
    assert_eq!(args.variables_reference, 7);
    assert_eq!(args.name, "x");
    assert_eq!(args.value, "2");
    assert_eq!(args.format, None);
}
