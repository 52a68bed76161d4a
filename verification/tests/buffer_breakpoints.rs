use debugger::dap::SourceBreakpoint;
use debugger::dap_store::{Bias, Breakpoint, DapStore, ProjectPath};
use debugger::ids::DebugAdapterClientId;

fn path(p: &str) -> ProjectPath {
    ProjectPath { worktree_id: 1, path: p.to_string() }
}

fn line(line: u64) -> SourceBreakpoint {
    SourceBreakpoint { line, column: None, condition: None, hit_condition: None, log_message: None, mode: None }
}

fn sorted(mut v: Vec<Breakpoint>) -> Vec<(Option<u64>, u32)> {
    let mut out: Vec<(Option<u64>, u32)> = v.drain(..).map(|b| (b.active_position, b.cache_position)).collect();
    out.sort();
    out
}

#[test]
fn rows_come_from_the_anchor_while_the_buffer_knows_it() {
    let rows = vec![(7, 10), (8, 2), (7, 99)];
    let anchored = Breakpoint { active_position: Some(7), cache_position: 3 };
    assert_eq!(anchored.point_for_buffer(&rows), (10, 0));
    assert_eq!(anchored.point_for_buffer_snapshot(&rows), (10, 0));
    assert_eq!(anchored.source_for_snapshot(&rows), line(11));
    let unknown_anchor = Breakpoint { active_position: Some(5), cache_position: 3 };
    assert_eq!(unknown_anchor.point_for_buffer(&rows), (3, 0));
    let plain = Breakpoint { active_position: None, cache_position: 4 };
    assert_eq!(plain.source_for_snapshot(&rows), line(5));
}

#[test]
fn opening_anchors_and_closing_keeps_rows() {
    let mut store = DapStore::new();
    let file = path("/src/lib.rs");
    let first_row = Breakpoint { active_position: None, cache_position: 0 };
    let later = Breakpoint { active_position: None, cache_position: 6 };
    store.toggle_breakpoint_for_buffer(&file, first_row);
    store.toggle_breakpoint_for_buffer(&file, later);

    // The first row is anchored to the right, other rows to the left.
    let anchors = vec![((0, Bias::Right), 100), ((6, Bias::Left), 106), ((6, Bias::Right), 999)];
    store.set_active_breakpoints(&file, &anchors);
    assert_eq!(sorted(store.breakpoints_of(&file)), vec![(Some(100), 0), (Some(106), 6)]);

    // An edit moved the second anchor two rows down.
    let rows = vec![(100, 0), (106, 8)];
    store.sync_open_breakpoints_to_closed_breakpoints(&file, &rows);
    assert_eq!(sorted(store.breakpoints_of(&file)), vec![(None, 0), (None, 8)]);
}

#[test]
fn round_trip_without_edits_gives_the_breakpoints_back() {
    let mut store = DapStore::new();
    let file = path("/a.rs");
    store.toggle_breakpoint_for_buffer(&file, Breakpoint { active_position: None, cache_position: 2 });
    store.toggle_breakpoint_for_buffer(&file, Breakpoint { active_position: None, cache_position: 9 });
    let before = sorted(store.breakpoints_of(&file));
    store.set_active_breakpoints(&file, &vec![((2, Bias::Left), 1), ((9, Bias::Left), 2)]);
    store.sync_open_breakpoints_to_closed_breakpoints(&file, &vec![(1, 2), (2, 9)]);
    assert_eq!(sorted(store.breakpoints_of(&file)), before);
}

#[test]
fn rows_without_an_anchor_stay_unanchored_and_unknown_files_are_untouched() {
    let mut store = DapStore::new();
    let file = path("/b.rs");
    store.toggle_breakpoint_for_buffer(&file, Breakpoint { active_position: None, cache_position: 3 });
    store.set_active_breakpoints(&file, &vec![]);
    assert_eq!(sorted(store.breakpoints_of(&file)), vec![(None, 3)]);

    let other = path("/c.rs");
    store.sync_open_breakpoints_to_closed_breakpoints(&other, &vec![]);
    assert!(store.breakpoints_of(&other).is_empty());
    // Opening a file without breakpoints gives it an empty entry.
    store.set_active_breakpoints(&other, &vec![]);
    assert!(store.breakpoints_of(&other).is_empty());
}

#[test]
fn changed_breakpoints_go_out_only_to_running_clients() {
    let mut store = DapStore::new();
    let file = path("/d.rs");
    store.toggle_breakpoint_for_buffer(&file, Breakpoint { active_position: Some(4), cache_position: 1 });
    let rows = vec![(4, 6)];
    assert_eq!(store.send_changed_breakpoints(&file, &rows), None);

    let id = store.start_client();
    assert_eq!(store.client_by_id(id), None);
    assert_eq!(store.send_changed_breakpoints(&file, &rows), None);

    assert!(store.mark_running(id));
    assert_eq!(store.client_by_id(id), Some(id));
    assert_eq!(store.client_by_id(DebugAdapterClientId(77)), None);
    assert_eq!(store.send_changed_breakpoints(&file, &rows), Some(vec![line(7)]));
    assert_eq!(store.send_changed_breakpoints(&path("/none.rs"), &rows), None);
}
