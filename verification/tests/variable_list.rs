use debugger::dap::{Scope, ScopePresentationHint, Variable, VariablePresentationHint};
use debugger::dap_store::ProjectPath;
use debugger::file_finder::{
    calculate_selected_index, cursor_position, history_check, history_item_shown, labels_for_match,
    labels_for_path_match, open_action, search_update, separators_after_indices, split_path, trim_end_matches_exec,
    FinderMatch, FoundPath, HistoryCheck, OpenAction, PathMatch, SearchUpdate,
};
use debugger::variable_list::{
    deploy_variable_context_menu, render_variable, ContextMenuAction, EntryKind, EntryPath, EntryState, ListEntry,
    ValueCell, VariableEdit, VariableList, VariableRow,
};

fn scope(name: &str, reference: u64, hint: Option<ScopePresentationHint>) -> Scope {
    Scope {
        name: name.to_string(),
        presentation_hint: hint,
        variables_reference: reference,
        named_variables: None,
        indexed_variables: None,
        expensive: false,
        source: None,
        line: None,
        column: None,
        end_line: None,
        end_column: None,
    }
}

fn variable(name: &str, reference: u64) -> Variable {
    Variable {
        name: name.to_string(),
        value: "0".to_string(),
        type_: None,
        presentation_hint: None,
        evaluate_name: None,
        variables_reference: reference,
        named_variables: None,
        indexed_variables: None,
        memory_reference: None,
        declaration_location_reference: None,
        value_location_reference: None,
    }
}

fn table() -> Vec<(u64, Vec<Variable>)> {
    vec![(1, vec![variable("x", 2), variable("y", 0)]), (2, vec![variable("z", 0)]), (3, vec![variable("r", 0)])]
}

#[test]
fn paths_grow_by_child_and_name() {
    let scope_path = EntryPath::for_scope(1);
    assert_eq!(scope_path.indices, vec![1]);
    let child = scope_path.with_child(7);
    assert_eq!(child.indices, vec![1, 7]);
    assert_eq!(child.parent_reference_id(), 7);
    let named = child.with_name("x".to_string());
    assert_eq!(named.leaf_name, Some("x".to_string()));
    assert!(named.same_as(&named.copy()));
    assert!(!named.same_as(&child));
}

#[test]
fn nothing_is_built_before_a_frame_is_selected() {
    let mut list = VariableList::new();
    list.build_entries(&vec![scope("Locals", 1, None)], &table());
    assert!(list.scopes().is_empty());
    assert!(list.variables().is_empty());
}

#[test]
fn only_scope_is_expanded_and_children_follow_expansion() {
    let mut list = VariableList::new();
    let scopes = vec![scope("Locals", 1, None)];
    list.select_stack_frame(5, &scopes, &table());
    assert_eq!(list.visual_entries(), vec!["v Locals", "    > x", "    > y"]);
    let names: Vec<String> = list.completion_variables().iter().map(|v| v.name.clone()).collect();
    assert_eq!(names, vec!["x", "y"]);

    let x = EntryPath::for_scope(1).with_child(1).with_name("x".to_string());
    assert!(list.toggle_entry(&x));
    list.build_entries(&scopes, &table());
    assert_eq!(list.visual_entries(), vec!["v Locals", "    v x", "        > z", "    > y"]);

    assert!(!list.toggle_entry(&EntryPath::for_scope(99)));
    list.clear_states();
    list.build_entries(&scopes, &table());
    assert_eq!(list.visual_entries(), vec!["v Locals", "    > x", "    > y"]);
}

#[test]
fn locals_are_expanded_among_several_scopes_and_empty_scopes_are_left_out() {
    let mut list = VariableList::new();
    let scopes = vec![
        scope("Registers", 3, None),
        scope("Frame", 1, Some(ScopePresentationHint::Locals)),
        scope("Empty", 9, None),
    ];
    list.select_stack_frame(1, &scopes, &table());
    assert_eq!(list.visual_entries(), vec!["> Registers", "v Frame", "    > x", "    > y"]);
    let scope_names: Vec<String> = list.scopes().iter().map(|s| s.name.clone()).collect();
    assert_eq!(scope_names, vec!["Registers", "Frame"]);
}

#[test]
fn selection_moves_and_wraps() {
    let mut list = VariableList::new();
    let scopes = vec![scope("Locals", 1, None)];
    list.select_stack_frame(5, &scopes, &table());
    assert!(list.selection().is_none());
    list.select_next();
    assert_eq!(list.selection().unwrap().indices, vec![1]);
    list.select_next();
    assert_eq!(list.selection().unwrap().leaf_name, Some("x".to_string()));
    list.select_last();
    assert_eq!(list.selection().unwrap().leaf_name, Some("y".to_string()));
    list.select_next();
    assert_eq!(list.selection().unwrap().leaf_name, None);
    list.select_prev();
    assert_eq!(list.selection().unwrap().leaf_name, None);
    list.select_first();
    assert_eq!(list.selection().unwrap().indices, vec![1]);

    assert!(list.set_selected_expanded(false));
    list.build_entries(&scopes, &table());
    assert_eq!(list.visual_entries(), vec!["> Locals"]);
}

fn found(path: &str, absolute: Option<&str>) -> FoundPath {
    FoundPath {
        project: ProjectPath { worktree_id: 1, path: path.to_string() },
        absolute: absolute.map(|a| a.to_string()),
    }
}

fn path_match(path: &str, positions: Vec<usize>) -> PathMatch {
    PathMatch {
        score: 0,
        worktree_id: 2,
        path: path.to_string(),
        path_prefix: String::new(),
        positions,
        is_dir: false,
        distance_to_relative_ancestor: 0,
    }
}

#[test]
fn currently_opened_history_item_is_skipped_first() {
    let opened = found("a.rs", None);
    let matches = vec![
        FinderMatch::History { path: found("a.rs", None), panel_match: None },
        FinderMatch::Search(path_match("b.rs", vec![])),
    ];
    assert_eq!(calculate_selected_index(&matches, &Some(opened)), 1);
    assert_eq!(calculate_selected_index(&matches, &None), 0);
    let single = vec![FinderMatch::History { path: found("a.rs", None), panel_match: None }];
    assert_eq!(calculate_selected_index(&single, &Some(found("a.rs", None))), 0);
    assert_eq!(calculate_selected_index(&vec![], &None), 0);
}

#[test]
fn separator_follows_last_history_match() {
    let matches = vec![
        FinderMatch::History { path: found("a.rs", None), panel_match: None },
        FinderMatch::History { path: found("b.rs", None), panel_match: None },
        FinderMatch::Search(path_match("c.rs", vec![])),
    ];
    assert_eq!(separators_after_indices(true, &matches), vec![1]);
    assert!(separators_after_indices(false, &matches).is_empty());
    let only_search = vec![FinderMatch::Search(path_match("c.rs", vec![]))];
    assert!(separators_after_indices(true, &only_search).is_empty());
}

#[test]
fn confirming_opens_by_project_or_absolute_path() {
    let history = FinderMatch::History { path: found("a.rs", Some("/home/me/p/a.rs")), panel_match: None };
    assert_eq!(
        open_action(&history, true, false),
        OpenAction::ProjectPath { path: ProjectPath { worktree_id: 1, path: "a.rs".to_string() }, split: false }
    );
    assert_eq!(
        open_action(&history, false, true),
        OpenAction::AbsPath { path: "/home/me/p/a.rs".to_string(), split: true }
    );
    assert_eq!(
        open_action(&FinderMatch::Search(path_match("src/b.rs", vec![])), false, false),
        OpenAction::ProjectPath { path: ProjectPath { worktree_id: 2, path: "src/b.rs".to_string() }, split: false }
    );
}

#[test]
fn cursor_goes_to_zero_based_row_and_column() {
    assert_eq!(cursor_position(Some(10), Some(4)), Some((9, 3)));
    assert_eq!(cursor_position(Some(0), None), Some((0, 0)));
    assert_eq!(cursor_position(None, Some(3)), None);
}

#[test]
fn history_items_and_search_updates() {
    assert!(history_item_shown(true, false, false));
    assert!(history_item_shown(false, true, true));
    assert!(!history_item_shown(false, false, true));
    assert_eq!(
        search_update(3, 2, true, false),
        SearchUpdate { apply: true, extend_old_matches: true, keep_selection: true }
    );
    assert_eq!(
        search_update(1, 2, false, true),
        SearchUpdate { apply: false, extend_old_matches: false, keep_selection: false }
    );
}

#[test]
fn trimming_repeated_suffixes() {
    assert_eq!(trim_end_matches_exec("src/main.rsmain.rs", "main.rs"), "src/");
    assert_eq!(trim_end_matches_exec("abc", ""), "abc");
    assert_eq!(trim_end_matches_exec("abc", "x"), "abc");
}

#[test]
fn labels_split_file_name_and_directory() {
    let labels = labels_for_path_match(&String::new(), &"src/main.rs".to_string(), &vec![0, 4, 5]);
    assert_eq!(labels.file_name, "main.rs");
    assert_eq!(labels.file_name_positions, vec![0, 1]);
    assert_eq!(labels.full_path, "src/");
    assert_eq!(labels.full_path_positions, vec![0]);

    let prefixed = labels_for_path_match(&"project/".to_string(), &"a.rs".to_string(), &vec![8]);
    assert_eq!(prefixed.file_name, "a.rs");
    assert_eq!(prefixed.file_name_positions, vec![0]);
    assert_eq!(prefixed.full_path, "project/");
}

#[test]
fn labels_of_matches_shorten_home() {
    let outside = FinderMatch::History { path: found("a.rs", Some("/home/me/other/a.rs")), panel_match: None };
    let labels = labels_for_match(&outside, false, Some("/home/me".to_string()));
    assert_eq!(labels.file_name, "a.rs");
    assert_eq!(labels.full_path, "/home/me/other/a.rs");

    let search = FinderMatch::Search(PathMatch {
        score: 0,
        worktree_id: 1,
        path: "src/lib.rs".to_string(),
        path_prefix: "/home/me/p/".to_string(),
        positions: vec![],
        is_dir: false,
        distance_to_relative_ancestor: 0,
    });
    let labels = labels_for_match(&search, true, Some("/home/me".to_string()));
    assert_eq!(labels.file_name, "lib.rs");
    assert_eq!(labels.full_path, "~/p/src/");
    let labels = labels_for_match(&search, true, None);
    assert_eq!(labels.full_path, "/home/me/p/src/");
}

#[test]
fn matches_give_their_path_panel_match_and_split_target() {
    let history = FinderMatch::History { path: found("src/a.rs", Some("/p/src/a.rs")), panel_match: None };
    let found_again =
        FinderMatch::History { path: found("src/b.rs", None), panel_match: Some(path_match("src/b.rs", vec![1])) };
    let search = FinderMatch::Search(path_match("src/c.rs", vec![]));
    assert_eq!(history.path(), "src/a.rs");
    assert_eq!(search.path(), "src/c.rs");
    assert_eq!(history.panel_match(), None);
    assert_eq!(found_again.panel_match().map(|m| m.positions.clone()), Some(vec![1]));
    assert_eq!(search.panel_match().map(|m| m.path.clone()), Some("src/c.rs".to_string()));
    assert_eq!(split_path(&history), ProjectPath { worktree_id: 1, path: "src/a.rs".to_string() });
    assert_eq!(split_path(&search), ProjectPath { worktree_id: 2, path: "src/c.rs".to_string() });
}

#[test]
fn navigation_history_is_checked_before_it_is_offered() {
    assert_eq!(history_check(true, false, true), HistoryCheck::Keep);
    assert_eq!(history_check(false, false, true), HistoryCheck::Drop);
    assert_eq!(history_check(false, true, true), HistoryCheck::KeepIfFile);
    assert_eq!(history_check(false, true, false), HistoryCheck::Keep);
}

#[test]
fn set_value_from_the_menu_sets_the_variable_under_its_parent() {
    let path = EntryPath { leaf_name: Some("x".to_string()), indices: vec![1, 7] };
    let entry = ListEntry { dap_kind: EntryKind::Variable(variable("x", 0)), path: path.copy() };
    let menu = deploy_variable_context_menu(&entry).unwrap();
    assert_eq!(menu.iter().map(|m| m.0.clone()).collect::<Vec<_>>(), vec!["Copy name", "Copy value", "Set value"]);
    assert_eq!(menu[0].1, ContextMenuAction::CopyToClipboard("x".to_string()));
    let mut edit = VariableEdit::new();
    match &menu[2].1 {
        ContextMenuAction::Edit(p) => edit.start(p.copy()),
        other => panic!("unexpected menu action {:?}", other),
    }
    let args = edit.confirm_variable_edit("42".to_string()).unwrap();
    assert_eq!((args.variables_reference, args.name.as_str(), args.value.as_str()), (7, "x", "42"));
    assert!(edit.edited_path.is_none());
    assert!(edit.confirm_variable_edit("1".to_string()).is_none());

    let scope = ListEntry { dap_kind: EntryKind::Scope(scope("Locals", 1, None)), path: EntryPath::for_scope(1) };
    assert!(deploy_variable_context_menu(&scope).is_none());

    edit.start(EntryPath::for_scope(1));
    assert!(edit.confirm_variable_edit("1".to_string()).is_none());
    edit.start(path);
    edit.cancel_variable_edit();
    assert!(edit.confirm_variable_edit("1".to_string()).is_none());
}

#[test]
fn toggling_a_variable_twice_restores_the_list() {
    let mut list = VariableList::new();
    let scopes = vec![scope("Scope 1", 2, None)];
    let table = vec![(2, vec![variable("variable1", 3)]), (3, vec![variable("variable 2", 4)])];
    list.select_stack_frame(1, &scopes, &table);
    let first = vec!["v Scope 1", "    > variable1"];
    assert_eq!(list.visual_entries(), first);

    let variable1 = EntryPath::for_scope(2).with_child(2).with_name("variable1".to_string());
    assert!(list.toggle_entry(&variable1));
    list.build_entries(&scopes, &table);
    assert_eq!(list.visual_entries(), vec!["v Scope 1", "    v variable1", "        > variable 2"]);

    assert!(list.toggle_entry(&variable1));
    list.build_entries(&scopes, &table);
    assert_eq!(list.visual_entries(), first);
}

#[test]
fn variable_rows_show_toggle_selection_and_value() {
    let path = EntryPath { leaf_name: Some("x".to_string()), indices: vec![1, 1] };
    let mut v = variable("x", 5);
    v.presentation_hint = Some(VariablePresentationHint { kind: Some("baseClass".to_string()), visibility: None, lazy: None });
    let entry = ListEntry { dap_kind: EntryKind::Variable(v), path: path.copy() };
    let state = EntryState { depth: 2, is_expanded: true };

    let row = render_variable(&entry, state, Some(&path), None, false, Some(true)).unwrap();
    assert_eq!(
        row,
        VariableRow {
            item_id: "variable-item-x-2".to_string(),
            name: "x".to_string(),
            name_is_type: true,
            indent: 2,
            toggle: Some(true),
            selected: true,
            click_selects: path.copy(),
            value: ValueCell::Text { label: "=  0".to_string(), editable: true },
        }
    );
    let editing = render_variable(&entry, state, None, Some(&path), false, Some(true)).unwrap();
    assert_eq!(editing.value, ValueCell::Editor);
    assert!(!editing.selected);
    let disabled = render_variable(&entry, state, None, None, true, Some(true)).unwrap();
    assert_eq!(disabled.value, ValueCell::Text { label: "=  0".to_string(), editable: false });

    let mut leaf = variable("y", 0);
    leaf.value = String::new();
    let leaf_entry = ListEntry { dap_kind: EntryKind::Variable(leaf), path: EntryPath::for_scope(1).with_name("y".to_string()) };
    let leaf_row = render_variable(&leaf_entry, EntryState { depth: 1, is_expanded: false }, None, None, false, None).unwrap();
    assert_eq!(leaf_row.toggle, None);
    assert!(!leaf_row.name_is_type);
    assert_eq!(leaf_row.value, ValueCell::Hidden);

    let scope_entry = ListEntry { dap_kind: EntryKind::Scope(scope("Locals", 1, None)), path: EntryPath::for_scope(1) };
    assert!(render_variable(&scope_entry, state, None, None, false, None).is_none());
}

#[test]
fn clicking_a_variable_row_selects_its_entry() {
    let mut list = VariableList::new();
    let scopes = vec![scope("Locals", 1, None)];
    list.select_stack_frame(5, &scopes, &table());
    let y = EntryPath::for_scope(1).with_child(1).with_name("y".to_string());
    let entry = ListEntry { dap_kind: EntryKind::Variable(variable("y", 0)), path: y.copy() };
    let row = render_variable(&entry, EntryState { depth: 1, is_expanded: false }, None, None, false, None).unwrap();
    list.select(&row.click_selects);
    assert_eq!(list.selection(), Some(y.copy()));
    let again = render_variable(&entry, EntryState { depth: 1, is_expanded: false }, list.selection().as_ref(), None, false, None);
    assert!(again.unwrap().selected);
}

#[test]
fn found_paths_are_the_same_component_by_component() {
    let matches = vec![
        FinderMatch::History { path: found("src//a.rs", None), panel_match: None },
        FinderMatch::Search(path_match("b.rs", vec![])),
    ];
    // `src//a.rs` and `src/a.rs` are the same path for std.
    assert_eq!(calculate_selected_index(&matches, &Some(found("src/a.rs", None))), 1);
    assert_eq!(calculate_selected_index(&matches, &Some(found("src/b.rs", None))), 0);
}
