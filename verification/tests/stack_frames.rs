use debugger::dap::{Scope, Source, StackFrame, StackFramePresentationHint, Variable};
use debugger::ids::DebugAdapterClientId;
use debugger::stack_frames::{
    build_entries, collapsed_entry_label, expand_collapsed_entry, frame_location, normal_entry_label,
    FrameSelection, StackFrameEntry, StackFrameList,
};
use debugger::thread_entries::{
    scope_entry_id_exec, variable_context_menu, variable_entry_id_exec, SetVariableState, ThreadEntry,
    ThreadVariableList, VariableMenuAction, VariableMenuEntry,
};

fn source(path: &str, origin: Option<&str>) -> Source {
    Source {
        name: Some("main.rs".to_string()),
        path: Some(path.to_string()),
        source_reference: None,
        presentation_hint: None,
        origin: origin.map(|o| o.to_string()),
        sources: None,
        adapter_data: None,
        checksums: None,
    }
}

fn frame(id: u64, line: u64, hint: Option<StackFramePresentationHint>) -> StackFrame {
    StackFrame {
        id,
        name: format!("frame{}", id),
        source: Some(source("/src/main.rs", Some("internal"))),
        line,
        column: 1,
        end_line: None,
        end_column: None,
        can_restart: None,
        instruction_pointer_reference: None,
        module_id: None,
        presentation_hint: hint,
    }
}

fn ids(entries: &[StackFrameEntry]) -> Vec<Vec<u64>> {
    entries
        .iter()
        .map(|e| match e {
            StackFrameEntry::Normal(f) => vec![f.id],
            StackFrameEntry::Collapsed(fs) => fs.iter().map(|f| f.id).collect(),
        })
        .collect()
}

#[test]
fn deemphasized_runs_are_collapsed() {
    let d = Some(StackFramePresentationHint::Deemphasize);
    let frames = vec![frame(1, 1, None), frame(2, 1, d), frame(3, 1, d), frame(4, 1, None), frame(5, 1, d)];
    let entries = build_entries(&frames);
    assert_eq!(ids(&entries), vec![vec![1], vec![2, 3], vec![4], vec![5]]);
    assert!(matches!(entries[1], StackFrameEntry::Collapsed(_)));
    assert!(matches!(entries[3], StackFrameEntry::Collapsed(_)));
}

#[test]
fn no_frames_no_entries() {
    assert!(build_entries(&vec![]).is_empty());
}

#[test]
fn expanding_a_collapsed_entry_shows_its_frames() {
    let d = Some(StackFramePresentationHint::Deemphasize);
    let frames = vec![frame(1, 1, None), frame(2, 1, d), frame(3, 1, d), frame(4, 1, None)];
    let mut entries = build_entries(&frames);
    let hidden = vec![frame(2, 1, d), frame(3, 1, d)];
    expand_collapsed_entry(&mut entries, 1, &hidden);
    assert_eq!(ids(&entries), vec![vec![1], vec![2], vec![3], vec![4]]);
    assert!(entries.iter().all(|e| matches!(e, StackFrameEntry::Normal(_))));
}

#[test]
fn collapsed_label_counts_frames_and_names_origin() {
    let d = Some(StackFramePresentationHint::Deemphasize);
    assert_eq!(collapsed_entry_label(&vec![frame(2, 1, d), frame(3, 1, d)]), "Show 2 more: internal");
    let mut f = frame(2, 1, d);
    f.source = None;
    assert_eq!(collapsed_entry_label(&vec![f]), "Show 1 more");
}

#[test]
fn normal_label_shows_location_and_selection() {
    let f = frame(7, 42, None);
    let label = normal_entry_label(&f, 7, Some(true));
    assert_eq!(label.name, "frame7");
    assert_eq!(label.location, "main.rs:42");
    assert_eq!(label.path, Some("/src/main.rs".to_string()));
    assert_eq!(label.origin, Some("internal".to_string()));
    assert!(label.selected);
    assert!(label.restartable);

    let mut refusing = frame(8, 3, None);
    refusing.can_restart = Some(false);
    let label = normal_entry_label(&refusing, 7, Some(true));
    assert!(!label.selected);
    assert!(!label.restartable);
    assert!(!normal_entry_label(&f, 7, None).restartable);
}

#[test]
fn frame_location_is_the_row_above_the_line() {
    assert_eq!(frame_location(&frame(1, 10, None)), Some(("/src/main.rs".to_string(), 9)));
    assert_eq!(frame_location(&frame(1, 0, None)), Some(("/src/main.rs".to_string(), 0)));
    let mut f = frame(1, 10, None);
    f.source = None;
    assert_eq!(frame_location(&f), None);
}

#[test]
fn stack_frame_list_selects_and_travels() {
    let mut list = StackFrameList::new(DebugAdapterClientId(3), 9);
    assert_eq!(list.first_stack_frame_id(), 0);
    let first = list.set_stack_frames(vec![frame(5, 12, None), frame(6, 20, None)]);
    assert_eq!(first, Some(5));
    assert_eq!(list.first_stack_frame_id(), 5);
    assert_eq!(list.entries.len(), 2);

    let chosen = frame(6, 20, None);
    assert_eq!(list.select_stack_frame(&chosen, false), FrameSelection::Stay);
    assert_eq!(list.current_stack_frame_id, 6);
    assert_eq!(
        list.select_stack_frame(&chosen, true),
        FrameSelection::Open { path: "/src/main.rs".to_string(), row: 19 }
    );
    let mut pathless = frame(5, 1, None);
    pathless.source = None;
    assert_eq!(list.select_stack_frame(&pathless, true), FrameSelection::PathNotFound);

    let wire = list.to_proto();
    assert_eq!(wire.thread_id, 9);
    assert_eq!(wire.client_id, 3);
    assert_eq!(wire.current_stack_frame, 5);
    assert_eq!(wire.stack_frames.len(), 2);

    let mut remote = StackFrameList::new(DebugAdapterClientId(0), 0);
    remote.set_from_proto(wire);
    assert_eq!(remote.thread_id, 9);
    assert_eq!(remote.client_id, DebugAdapterClientId(3));
    assert_eq!(remote.current_stack_frame_id, 5);
    assert_eq!(remote.stack_frames.len(), 2);
    for (theirs, ours) in remote.stack_frames.iter().zip(list.stack_frames.iter()) {
        assert_eq!(theirs.id, ours.id);
        assert_eq!(theirs.name, ours.name);
        assert_eq!(theirs.line, ours.line);
        let source = theirs.source.as_ref().unwrap();
        assert_eq!(source.path, Some("/src/main.rs".to_string()));
        assert_eq!(source.sources, Some(vec![]));
        assert_eq!(source.checksums, Some(vec![]));
    }
    assert_eq!(remote.entries.len(), 2);
}

#[test]
fn stack_frame_list_without_frames_selects_nothing() {
    let mut list = StackFrameList::new(DebugAdapterClientId(0), 1);
    assert_eq!(list.set_stack_frames(vec![]), None);
    assert!(list.entries.is_empty());
}

fn scope(name: &str, reference: u64) -> Scope {
    Scope {
        name: name.to_string(),
        presentation_hint: None,
        variables_reference: reference,
        named_variables: None,
        indexed_variables: None,
        expensive: false,
        source: None,
        line: None,
        column: None,
        end_line: None,
        end_column: None,
    }
}

fn variable(name: &str, reference: u64) -> Variable {
    Variable {
        name: name.to_string(),
        value: "1".to_string(),
        type_: None,
        presentation_hint: None,
        evaluate_name: None,
        variables_reference: reference,
        named_variables: None,
        indexed_variables: None,
        memory_reference: None,
        declaration_location_reference: None,
        value_location_reference: None,
    }
}

fn shown(entries: &[ThreadEntry]) -> Vec<String> {
    entries
        .iter()
        .map(|e| match e {
            ThreadEntry::Scope(s) => format!("scope {}", s.name),
            ThreadEntry::SetVariableEditor { depth, state } => format!("editor {} {}", depth, state.name),
            ThreadEntry::Variable { depth, variable, .. } => format!("var {} {}", depth, variable.name),
        })
        .collect()
}

#[test]
fn entry_ids_name_scope_and_variable() {
    let s = scope("Locals", 4);
    assert_eq!(scope_entry_id_exec(&s), "scope-4");
    assert_eq!(variable_entry_id_exec(&variable("x", 0), &s, 2), "variable-2-4-x");
}

#[test]
fn first_scope_is_opened_and_closed_variables_hide_children() {
    let mut list = ThreadVariableList { open_entries: vec![], set_variable_state: None, stack_frame_entries: vec![] };
    let locals = scope("Locals", 1);
    let vars = vec![(0usize, variable("a", 10)), (1usize, variable("a.x", 0)), (0usize, variable("b", 0))];
    let empty = scope("Registers", 2);
    let data = vec![(empty, vec![]), (locals.clone(), vars)];
    list.build_entries(100, &data, true);
    assert_eq!(list.open_entries, vec!["scope-1".to_string()]);
    let (frame_id, entries) = list.stack_frame_entries.last().unwrap();
    assert_eq!(*frame_id, 100);
    assert_eq!(shown(entries), vec!["scope Locals", "var 0 a", "var 0 b"]);

    list.toggle_entry_collapsed(&"variable-0-1-a".to_string());
    list.build_entries(100, &data, false);
    assert_eq!(list.stack_frame_entries.len(), 1);
    assert_eq!(shown(&list.stack_frame_entries[0].1), vec!["scope Locals", "var 0 a", "var 1 a.x", "var 0 b"]);

    list.toggle_entry_collapsed(&"scope-1".to_string());
    list.build_entries(100, &data, false);
    assert_eq!(shown(&list.stack_frame_entries[0].1), vec!["scope Locals"]);
}

#[test]
fn edited_variable_is_preceded_by_its_editor() {
    let mut list = ThreadVariableList {
        open_entries: vec!["scope-1".to_string()],
        set_variable_state: Some(SetVariableState {
            parent_variables_reference: 1,
            name: "b".to_string(),
            value: "2".to_string(),
        }),
        stack_frame_entries: vec![(7, vec![])],
    };
    let data = vec![(scope("Locals", 1), vec![(0usize, variable("a", 0)), (0usize, variable("b", 0))])];
    list.build_entries(100, &data, false);
    assert_eq!(list.stack_frame_entries[0].0, 7);
    assert_eq!(list.stack_frame_entries[1].0, 100);
    assert_eq!(shown(&list.stack_frame_entries[1].1), vec!["scope Locals", "var 0 a", "editor 0 b", "var 0 b"]);
}

#[test]
fn list_getters_show_frames_entries_and_selection() {
    let mut list = StackFrameList::new(DebugAdapterClientId(2), 9);
    assert_eq!(list.current_stack_frame_id(), 0);
    assert!(list.dap_stack_frames().is_empty());
    list.set_stack_frames(vec![frame(1, 10, None), frame(2, 20, Some(StackFramePresentationHint::Deemphasize))]);
    assert_eq!(list.dap_stack_frames().iter().map(|f| f.id).collect::<Vec<_>>(), vec![1, 2]);
    assert_eq!(ids(list.entries()), vec![vec![1], vec![2]]);
    let chosen = frame(2, 20, None);
    list.select_stack_frame(&chosen, false);
    assert_eq!(list.current_stack_frame_id(), 2);
}

#[test]
fn variable_menu_copies_and_sets_when_supported() {
    let v = variable("count", 0);
    let menu = variable_context_menu(&v, Some(true));
    assert_eq!(
        menu,
        vec![
            VariableMenuEntry {
                label: "Copy name".to_string(),
                action: VariableMenuAction::CopyToClipboard("count".to_string())
            },
            VariableMenuEntry {
                label: "Copy value".to_string(),
                action: VariableMenuAction::CopyToClipboard(v.value.clone())
            },
            VariableMenuEntry { label: "Set value".to_string(), action: VariableMenuAction::SetValue },
        ]
    );
    assert_eq!(variable_context_menu(&v, None).len(), 2);
    assert_eq!(variable_context_menu(&v, Some(false)).len(), 2);
}
