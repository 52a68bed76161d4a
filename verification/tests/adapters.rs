use debugger::adapters::{
    find_file_name_in_dir, join, ArgValue, BinaryError, DebugAdapterDownloadKind, DebugAdapterName, GithubRepo, GoDebugAdapter,
    LldbDebugAdapter, ProcessEntry, PythonDebugAdapter,
};
use debugger::client::{response_result, RequestError, SequenceCounter};
use debugger::dap::{OutputEvent, OutputEventCategory};
use debugger::debug_format::{DebugAdapterConfig, DebugConnectionType, DebugRequestType, Ipv4Address, TCPHost};
use debugger::ids::{DebugAdapterClientId, ThreadStatus};
use debugger::panel_item::{
    route_output, should_skip_event, tab_content, tab_tooltip_text, OutputTarget, ThreadStatuses,
};
use debugger::tasks::{bash_task_context, can_schedule_tasks, ConnectionState, VariableName};
use debugger::text::{decimal_string, dotted_string};

fn config(request: DebugRequestType) -> DebugAdapterConfig {
    DebugAdapterConfig {
        label: "debug".to_string(),
        id: "debugpy".to_string(),
        connection: DebugConnectionType::STDIO,
        request,
        program: Some("main.py".to_string()),
        cwd: Some("/work".to_string()),
    }
}

fn text(v: &ArgValue) -> String {
    match v {
        ArgValue::Text(t) => t.clone(),
        other => panic!("not text: {:?}", other),
    }
}

#[test]
fn numbers_and_addresses_as_text() {
    assert_eq!(decimal_string(0), "0");
    assert_eq!(decimal_string(1234567890), "1234567890");
    assert_eq!(decimal_string(u64::MAX), "18446744073709551615");
    assert_eq!(dotted_string(Ipv4Address { a: 127, b: 0, c: 0, d: 1 }), "127.0.0.1");
    assert_eq!(dotted_string(Ipv4Address { a: 10, b: 255, c: 3, d: 40 }), "10.255.3.40");
}

#[test]
fn joining_paths_adds_one_separator() {
    assert_eq!(join(&"/a".to_string(), "b"), "/a/b");
    assert_eq!(join(&"/a/".to_string(), "b"), "/a/b");
    assert_eq!(join(&String::new(), "b"), "b");
}

#[test]
fn repositories_and_names() {
    let repo = GithubRepo { repo_name: "debugpy".to_string(), repo_owner: "microsoft".to_string() };
    assert_eq!(repo.repo_name_with_owner(), "microsoft/debugpy");
    assert_eq!(DebugAdapterName("lldb".to_string()).to_string(), "lldb");
}

#[test]
fn lldb_adapter_comes_from_llvm() {
    let lldb = LldbDebugAdapter::new();
    assert_eq!(lldb.name(), DebugAdapterName("lldb".to_string()));
    assert_eq!(
        lldb.download_kind(),
        DebugAdapterDownloadKind::Github(GithubRepo {
            repo_name: "llvm-project".to_string(),
            repo_owner: "llvm".to_string(),
        })
    );
    let args = lldb.request_args(&config(DebugRequestType::Launch));
    assert_eq!(args.fields.len(), 1);
    assert_eq!(args.fields[0].0, "program");
    assert_eq!(text(&args.fields[0].1), "main.py");
}

fn host() -> TCPHost {
    TCPHost { port: None, host: None, delay: Some(250) }
}

#[test]
fn python_adapter_listens_on_localhost_by_default() {
    let python = PythonDebugAdapter::new(&host(), 5678);
    assert_eq!(python.host, Ipv4Address { a: 127, b: 0, c: 0, d: 1 });
    assert_eq!(python.port, 5678);
    assert_eq!(python.timeout, Some(250));
    assert_eq!(python.name(), DebugAdapterName("debugpy".to_string()));
    assert_eq!(python.language_name(), "Python");
    assert_eq!(python.github_repo().repo_name_with_owner(), "microsoft/debugpy");

    let binary = python.binary("/usr/bin/python3".to_string(), &"/ad/debugpy_v1".to_string(), &config(DebugRequestType::Launch));
    assert_eq!(binary.command, "/usr/bin/python3");
    assert_eq!(
        binary.arguments,
        Some(vec![
            "/ad/debugpy_v1/src/debugpy/adapter".to_string(),
            "--port=5678".to_string(),
            "--host=127.0.0.1".to_string(),
        ])
    );
    assert_eq!(binary.cwd, Some("/work".to_string()));
    assert_eq!(binary.envs, None);
}

#[test]
fn python_command_prefers_the_toolchain() {
    assert_eq!(
        PythonDebugAdapter::python_command(Some("/venv/bin/python".to_string()), vec![Some("/usr/bin/python3".to_string())]),
        Some("/venv/bin/python".to_string())
    );
    assert_eq!(
        PythonDebugAdapter::python_command(None, vec![None, Some("/usr/bin/python".to_string()), Some("/py".to_string())]),
        Some("/usr/bin/python".to_string())
    );
    assert_eq!(PythonDebugAdapter::python_command(None, vec![None, None]), None);
}

#[test]
fn python_request_args_launch_and_attach() {
    let python = PythonDebugAdapter::new(&host(), 1);
    let launch = python.request_args(&config(DebugRequestType::Launch), None);
    let names: Vec<&str> = launch.fields.iter().map(|f| f.0.as_str()).collect();
    assert_eq!(names, vec!["request", "processId", "program", "subProcess", "cwd"]);
    assert_eq!(text(&launch.fields[0].1), "launch");
    assert_eq!(launch.fields[1].1, ArgValue::Null);
    assert_eq!(launch.fields[3].1, ArgValue::Bool(true));
    let attach = python.request_args(&config(DebugRequestType::Attach), Some(42));
    assert_eq!(text(&attach.fields[0].1), "attach");
    assert_eq!(attach.fields[1].1, ArgValue::Number(42));
    // A launch sends no process id, even when one is given.
    let launch_with_pid = python.request_args(&config(DebugRequestType::Launch), Some(42));
    assert_eq!(launch_with_pid.fields[1].1, ArgValue::Null);
    assert_eq!(python.request_args(&config(DebugRequestType::Attach), None).fields[1].1, ArgValue::Null);
}

#[test]
fn python_attach_offers_interpreters_only() {
    let python = PythonDebugAdapter::new(&host(), 1);
    let processes = vec![
        ProcessEntry { pid: 1, name: "python3".to_string() },
        ProcessEntry { pid: 2, name: "bash".to_string() },
        ProcessEntry { pid: 3, name: "Python3.exe".to_string() },
        ProcessEntry { pid: 4, name: "pythonw".to_string() },
        ProcessEntry { pid: 5, name: "py".to_string() },
    ];
    let pids: Vec<u32> = python.attach_processes(&processes).iter().map(|p| p.pid).collect();
    assert_eq!(pids, vec![1, 3, 5]);
}

#[test]
fn go_adapter_needs_delve() {
    let go = GoDebugAdapter::new(&TCPHost { port: None, host: Some(Ipv4Address { a: 10, b: 0, c: 0, d: 2 }), delay: None }, 4000);
    assert_eq!(go.name(), DebugAdapterName("delve".to_string()));
    assert_eq!(go.installed_binary(None, &config(DebugRequestType::Launch)), Err(BinaryError::DelveNotFound));
    let binary = go.installed_binary(Some("/usr/bin/dlv".to_string()), &config(DebugRequestType::Launch)).unwrap();
    assert_eq!(binary.command, "/usr/bin/dlv");
    assert_eq!(
        binary.arguments,
        Some(vec!["dap".to_string(), "--listen".to_string(), "10.0.0.2:4000".to_string()])
    );
    let args = go.request_args(&config(DebugRequestType::Launch));
    let names: Vec<&str> = args.fields.iter().map(|f| f.0.as_str()).collect();
    assert_eq!(names, vec!["program", "cwd", "subProcess"]);
}

#[test]
fn bash_tasks_run_selection_and_file() {
    let tasks = bash_task_context();
    assert_eq!(tasks.len(), 2);
    assert_eq!(tasks[0].label, "execute selection");
    assert_eq!(tasks[0].command, "$ZED_SELECTED_TEXT");
    assert_eq!(tasks[1].label, "run '$ZED_FILE'");
    assert_eq!(tasks[1].command, "$ZED_FILE");
    assert_eq!(VariableName::File.template_value(), "$ZED_FILE");
}

#[test]
fn tasks_are_scheduled_locally_or_when_connected() {
    assert!(can_schedule_tasks(None));
    assert!(can_schedule_tasks(Some(ConnectionState::Connected)));
    assert!(!can_schedule_tasks(Some(ConnectionState::Reconnecting)));
    assert!(!can_schedule_tasks(Some(ConnectionState::Disconnected)));
}

#[test]
fn sequence_numbers_start_at_one() {
    let mut counter = SequenceCounter::new();
    assert_eq!(counter.next_sequence_id(), 1);
    assert_eq!(counter.next_sequence_id(), 2);
}

#[test]
fn responses_give_their_body_or_fail() {
    assert_eq!(response_result(true, Some(b"[1]".to_vec())), Ok(b"[1]".to_vec()));
    assert_eq!(response_result(true, None), Ok(b"null".to_vec()));
    assert_eq!(response_result(false, Some(b"{}".to_vec())), Err(RequestError::RequestFailed));
}

#[test]
fn events_of_other_threads_or_clients_are_skipped() {
    let me = DebugAdapterClientId(1);
    assert!(!should_skip_event(me, 5, me, 5));
    assert!(should_skip_event(me, 5, me, 6));
    assert!(should_skip_event(me, 5, DebugAdapterClientId(2), 5));
}

fn output(category: Option<OutputEventCategory>, text: &str) -> OutputEvent {
    OutputEvent {
        category,
        output: text.to_string(),
        group: None,
        variables_reference: None,
        source: None,
        line: None,
        column: None,
        data: None,
        location_reference: None,
    }
}

#[test]
fn output_goes_to_console_editor_or_nowhere() {
    assert_eq!(route_output(&output(None, "hi  ")), OutputTarget::Console("hi  ".to_string()));
    assert_eq!(
        route_output(&output(Some(OutputEventCategory::Console), "x\n")),
        OutputTarget::Console("x\n".to_string())
    );
    assert_eq!(
        route_output(&output(Some(OutputEventCategory::Stdout), "line one \n\n")),
        OutputTarget::OutputEditor("line one\n".to_string())
    );
    assert_eq!(
        route_output(&output(Some(OutputEventCategory::Stderr), "err\t")),
        OutputTarget::OutputEditor("err\n".to_string())
    );
    assert_eq!(route_output(&output(Some(OutputEventCategory::Telemetry), "t")), OutputTarget::Ignored);
}

#[test]
fn resumed_threads_run_unless_their_status_changed() {
    let mut statuses = ThreadStatuses { threads: vec![(1, ThreadStatus::Stopped), (2, ThreadStatus::Stopped)] };
    assert_eq!(statuses.status(1), ThreadStatus::Stopped);
    assert_eq!(statuses.status(9), ThreadStatus::Running);
    assert!(statuses.update_after_resume(1, ThreadStatus::Stopped, ThreadStatus::Stopped, None));
    assert_eq!(statuses.threads, vec![(1, ThreadStatus::Running), (2, ThreadStatus::Stopped)]);
    assert!(!statuses.update_after_resume(2, ThreadStatus::Stopped, ThreadStatus::Exited, Some(true)));
    assert_eq!(statuses.status(2), ThreadStatus::Stopped);
    assert!(statuses.update_after_resume(2, ThreadStatus::Stopped, ThreadStatus::Stopped, Some(true)));
    assert_eq!(statuses.threads, vec![(1, ThreadStatus::Running), (2, ThreadStatus::Running)]);
}

#[test]
fn tab_titles_name_adapter_and_thread() {
    assert_eq!(tab_content(&"lldb".to_string(), 3), "lldb - Thread 3");
    assert_eq!(tab_tooltip_text(&"lldb".to_string(), 3, ThreadStatus::Stopped), "lldb Thread 3 - Stopped");
}

#[test]
fn installed_debugpy_is_found_by_prefix_and_started_with_python() {
    let python = PythonDebugAdapter::new(&host(), 5678);
    let entries = vec!["notes".to_string(), "debugpy_v1.8".to_string(), "debugpy_v1.9".to_string()];
    let found = python
        .get_installed_binary(
            None,
            &"/ad".to_string(),
            &entries,
            None,
            vec![None, Some("/usr/bin/python".to_string())],
            &config(DebugRequestType::Launch),
        )
        .unwrap();
    assert_eq!(found.command, "/usr/bin/python");
    assert_eq!(found.arguments.as_ref().unwrap()[0], "/ad/debugpy/debugpy_v1.8/src/debugpy/adapter");

    let given = python
        .get_installed_binary(
            Some("/opt/dbg".to_string()),
            &"/ad".to_string(),
            &vec![],
            Some("/venv/bin/python".to_string()),
            vec![Some("/usr/bin/python3".to_string())],
            &config(DebugRequestType::Launch),
        )
        .unwrap();
    assert_eq!(given.command, "/venv/bin/python");
    assert_eq!(given.arguments.as_ref().unwrap()[0], "/opt/dbg/src/debugpy/adapter");

    assert_eq!(
        python.get_installed_binary(None, &"/ad".to_string(), &vec!["x".to_string()], None, vec![], &config(DebugRequestType::Launch)),
        Err(BinaryError::DebugpyNotFound)
    );
    assert_eq!(
        python.get_installed_binary(None, &"/ad".to_string(), &entries, None, vec![None], &config(DebugRequestType::Launch)),
        Err(BinaryError::PythonNotFound)
    );
    assert_eq!(
        find_file_name_in_dir(&"/d/".to_string(), &entries, &"debugpy_".to_string()),
        Some("/d/debugpy_v1.8".to_string())
    );
    assert_eq!(find_file_name_in_dir(&"/d".to_string(), &entries, &"zz".to_string()), None);
}

#[test]
fn lldb_dap_path_is_trimmed_and_must_be_utf8() {
    let lldb = LldbDebugAdapter::new();
    let binary = lldb.fetch_binary(b"  /usr/bin/lldb-dap\n".to_vec()).unwrap();
    assert_eq!(binary.command, "/usr/bin/lldb-dap");
    assert_eq!(binary.arguments, None);
    assert_eq!(lldb.fetch_binary(vec![0xff, 0xfe]), Err(BinaryError::NotUtf8));
}

#[test]
fn the_kth_request_gets_number_k() {
    let mut counter = SequenceCounter::new();
    for k in 1..=1000u64 {
        assert_eq!(counter.next_sequence_id(), k);
    }
}

#[test]
fn output_lines_lose_unicode_trailing_space_only() {
    let s = "  lead\tkept \u{3000}\u{2009}\r\n";
    assert_eq!(
        route_output(&output(Some(OutputEventCategory::Stdout), s)),
        OutputTarget::OutputEditor(format!("{}\n", s.trim_end()))
    );
    assert_eq!(
        route_output(&output(Some(OutputEventCategory::Stderr), "a\u{200B}")),
        OutputTarget::OutputEditor("a\u{200B}\n".to_string())
    );
    let lldb = LldbDebugAdapter::new();
    let binary = lldb.fetch_binary("\u{00A0}/bin/lldb-dap\u{2028}".as_bytes().to_vec()).unwrap();
    assert_eq!(binary.command, "\u{00A0}/bin/lldb-dap\u{2028}".trim());
}
