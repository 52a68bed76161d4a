use debugger::client_capabilities::DebugClientCapabilities;
use debugger::dap::{Capabilities, ChecksumAlgorithm, Scope, ScopePresentationHint, SteppingGranularity, Variable};
use debugger::dap_command::{
    DapCommand, LocalDapCommand, NextCommand, RestartCommand, ScopesCommand, StackTraceCommand, StepCommand,
    VariablesCommand,
};
use debugger::debug_format::{Ipv4Address, TCPHost};
use debugger::ids::{DebugAdapterClientId, DebugSessionId};
use debugger::proto::{DapRestartRequest, DapScopePresentationHint, DapVariables};
use debugger::proto_conversions::ProtoConversion;

#[test]
fn client_capabilities_pack_into_bits() {
    let caps = DebugClientCapabilities {
        supports_loaded_sources_request: true,
        supports_modules_request: false,
        supports_restart_request: true,
        supports_set_expression: false,
        supports_single_thread_execution_requests: false,
        supports_step_back: false,
        supports_stepping_granularity: false,
        supports_terminate_threads_request: true,
    };
    assert_eq!(caps.to_u32(), 0b1000_0101);
    assert_eq!(DebugClientCapabilities::from_u32(caps.to_u32()), caps);
    assert_eq!(DebugClientCapabilities::from_u32(0).to_u32(), 0);
    assert!(DebugClientCapabilities::from_u32(0xff).supports_step_back);
}

#[test]
fn ids_travel_as_numbers() {
    assert_eq!(DebugSessionId::from_proto(42), DebugSessionId(42));
    assert_eq!(DebugSessionId(7).to_proto(), 7);
    assert_eq!(DebugAdapterClientId::from_proto(9), DebugAdapterClientId(9));
    assert_eq!(DebugAdapterClientId(9).to_proto(), 9);
}

#[test]
fn tcp_host_defaults_to_localhost() {
    let host = TCPHost { port: Some(80), host: None, delay: None };
    assert_eq!(host.host(), Ipv4Address { a: 127, b: 0, c: 0, d: 1 });
    let host = TCPHost { port: None, host: Some(Ipv4Address { a: 1, b: 2, c: 3, d: 4 }), delay: None };
    assert_eq!(host.host(), Ipv4Address { a: 1, b: 2, c: 3, d: 4 });
}

#[test]
fn step_request_goes_over_the_wire_and_back() {
    let command = NextCommand {
        inner: StepCommand { thread_id: 3, granularity: Some(SteppingGranularity::Instruction), single_thread: Some(true) },
    };
    let wire = command.to_proto(DebugSessionId(5), 11);
    assert_eq!(wire.project_id, 11);
    assert_eq!(wire.client_id, 5);
    assert_eq!(wire.thread_id, 3);
    assert_eq!(NextCommand::from_proto(&wire), command);
    assert_eq!(NextCommand::client_id_from_proto(&wire), DebugSessionId(5));
    let args = command.to_dap();
    assert_eq!(args.thread_id, 3);
    assert_eq!(args.granularity, Some(SteppingGranularity::Instruction));
    assert!(NextCommand::is_supported(&Capabilities::default()));
}

#[test]
fn variables_request_and_answer() {
    let command = VariablesCommand { variables_reference: 4, filter: None, start: Some(1), count: Some(2), format: None };
    let wire = command.to_proto(DebugSessionId(1), 2);
    assert_eq!(VariablesCommand::from_proto(&wire), command);
    assert_eq!(command.to_dap().variables_reference, 4);

    let variable = Variable {
        name: "x".to_string(),
        value: "3".to_string(),
        type_: Some("i32".to_string()),
        presentation_hint: None,
        evaluate_name: None,
        variables_reference: 0,
        named_variables: None,
        indexed_variables: None,
        memory_reference: None,
        declaration_location_reference: None,
        value_location_reference: None,
    };
    let answer: DapVariables = VariablesCommand::response_to_proto(DebugSessionId(1), vec![variable.clone()]);
    assert_eq!(answer.client_id, 1);
    let back = command.response_from_proto(answer);
    assert_eq!(back, vec![variable]);
}

#[test]
fn restart_arguments_that_are_not_json_become_null() {
    let request = DapRestartRequest { project_id: 1, client_id: 2, raw_args: b"{\"noDebug\":true}".to_vec() };
    assert_eq!(RestartCommand::from_proto(&request).raw, b"{\"noDebug\":true}".to_vec());
    let broken = DapRestartRequest { project_id: 1, client_id: 2, raw_args: b"{not json".to_vec() };
    assert_eq!(RestartCommand::from_proto(&broken).raw, b"null".to_vec());
    let command = RestartCommand { raw: b"[]".to_vec() };
    assert_eq!(command.to_proto(DebugSessionId(2), 3).raw_args, b"[]".to_vec());
    // The arguments are read as a JSON value and written back: whitespace goes.
    let spaced = DapRestartRequest { project_id: 1, client_id: 2, raw_args: b"{ \"noDebug\" : true }".to_vec() };
    assert_eq!(RestartCommand::from_proto(&spaced).raw, b"{\"noDebug\":true}".to_vec());
    let command = RestartCommand { raw: b"[ 1, 2 ]".to_vec() };
    assert_eq!(command.to_proto(DebugSessionId(2), 3).raw_args, b"[1,2]".to_vec());
    let broken = RestartCommand { raw: b"{".to_vec() };
    assert!(broken.to_proto(DebugSessionId(2), 3).raw_args.is_empty());
}

#[test]
fn stack_trace_and_scopes_answers_keep_order() {
    let scope = Scope {
        name: "Locals".to_string(),
        presentation_hint: Some(ScopePresentationHint::Locals),
        variables_reference: 8,
        named_variables: None,
        indexed_variables: None,
        expensive: false,
        source: None,
        line: Some(3),
        column: None,
        end_line: None,
        end_column: None,
    };
    let answer = ScopesCommand::response_to_proto(DebugSessionId(0), vec![scope.clone()]);
    assert_eq!(answer.scopes.len(), 1);
    assert_eq!(answer.scopes[0].presentation_hint, Some(DapScopePresentationHint::Locals.to_i32()));
    let back = ScopesCommand { stack_frame_id: 1 }.response_from_proto(answer);
    assert_eq!(back, vec![scope]);

    let empty = StackTraceCommand::response_to_proto(DebugSessionId(0), vec![]);
    assert!(empty.frames.is_empty());
    assert!(StackTraceCommand { thread_id: 1, start_frame: None, levels: None }.response_from_proto(empty).is_empty());
}

#[test]
fn wire_hints_and_capabilities_round_trip() {
    for n in 0..5 {
        let hint = DapScopePresentationHint::from_i32(n).unwrap();
        assert_eq!(hint.to_i32(), n);
    }
    assert!(DapScopePresentationHint::from_i32(99).is_none());

    let mut caps = Capabilities::default();
    caps.supports_step_back = Some(true);
    caps.supports_terminate_request = Some(false);
    let wire = caps.to_proto();
    assert_eq!(wire.supports_step_back, Some(true));
    let back = Capabilities::from_proto(wire);
    assert_eq!(back.supports_step_back, Some(true));
    assert_eq!(back.supports_terminate_request, Some(false));
    assert_eq!(back.supports_restart_request, None);
}

#[test]
fn wire_checksum_names_are_read_by_their_exact_spelling() {
    let mut wire = Capabilities::default().to_proto();
    wire.supported_checksum_algorithms =
        vec!["Md5".to_string(), "SHA1".to_string(), "Sha256".to_string(), "Bogus".to_string()];
    let back = Capabilities::from_proto(wire);
    assert_eq!(back.supported_checksum_algorithms, Some(vec![ChecksumAlgorithm::Md5, ChecksumAlgorithm::Sha256]));
    assert_eq!(back.supports_step_back, None);
    let mut empty = Capabilities::default().to_proto();
    empty.supported_checksum_algorithms = vec![];
    assert_eq!(Capabilities::from_proto(empty).supported_checksum_algorithms, None);
}
