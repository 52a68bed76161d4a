use std::cmp::Ordering;

use debugger::dap_store::ProjectPath;
use debugger::file_finder::{history_candidates, history_matches, FinderMatch, FoundPath, PathMatch};
use debugger::finder_matches::{compare_matches, compare_panel_matches, FinderSearch, Matches, MAX_MATCHES};

fn found(path: &str) -> FoundPath {
    FoundPath { project: ProjectPath { worktree_id: 1, path: path.to_string() }, absolute: None }
}

fn pm(path: &str, score: u64) -> PathMatch {
    PathMatch {
        score,
        worktree_id: 1,
        path: path.to_string(),
        path_prefix: String::new(),
        positions: vec![],
        is_dir: false,
        distance_to_relative_ancestor: 0,
    }
}

fn paths(matches: &Matches) -> Vec<String> {
    matches
        .matches
        .iter()
        .map(|m| match m {
            FinderMatch::History { path, .. } => format!("h:{}", path.project.path),
            FinderMatch::Search(p) => format!("s:{}", p.path),
        })
        .collect()
}

#[test]
fn path_matches_rank_by_score_then_earlier_path() {
    assert_eq!(compare_panel_matches(&pm("a.rs", 2), &pm("b.rs", 1)), Ordering::Greater);
    assert_eq!(compare_panel_matches(&pm("b.rs", 1), &pm("a.rs", 1)), Ordering::Less);
    assert_eq!(compare_panel_matches(&pm("a.rs", 1), &pm("a.rs", 1)), Ordering::Equal);
    let mut near = pm("x.rs", 1);
    near.distance_to_relative_ancestor = 1;
    let mut far = pm("a.rs", 1);
    far.distance_to_relative_ancestor = 5;
    assert_eq!(compare_panel_matches(&near, &far), Ordering::Greater);
    assert_eq!(compare_panel_matches(&pm("a/b", 1), &pm("a-b", 1)), Ordering::Greater);
}

#[test]
fn opened_file_and_history_rank_first() {
    let opened = found("o.rs");
    let history = FinderMatch::History { path: found("o.rs"), panel_match: None };
    let search = FinderMatch::Search(pm("z.rs", 9));
    assert_eq!(compare_matches(false, Some(&opened), &history, &search), Ordering::Greater);
    assert_eq!(compare_matches(false, Some(&opened), &search, &history), Ordering::Less);
    let other = FinderMatch::History { path: found("p.rs"), panel_match: Some(pm("p.rs", 1)) };
    assert_eq!(compare_matches(true, None, &other, &search), Ordering::Greater);
    assert_eq!(compare_matches(false, None, &other, &search), Ordering::Less);
    let bare = FinderMatch::History { path: found("q.rs"), panel_match: None };
    assert_eq!(compare_matches(false, None, &bare, &search), Ordering::Less);
}

#[test]
fn without_query_opened_file_comes_first() {
    let mut matches = Matches { separate_history: false, matches: vec![] };
    let history = vec![found("a.rs"), found("o.rs"), found("b.rs")];
    let opened = found("o.rs");
    matches.push_new_matches(&history, Some(&opened), false, vec![], vec![], false);
    assert_eq!(paths(&matches), vec!["h:o.rs", "h:a.rs", "h:b.rs"]);
    matches.push_new_matches(&history, None, false, vec![], vec![], false);
    assert_eq!(paths(&matches), vec!["h:a.rs", "h:o.rs", "h:b.rs"]);
}

#[test]
fn search_results_are_ranked_and_deduplicated() {
    let mut matches = Matches { separate_history: true, matches: vec![] };
    let history_match = FinderMatch::History { path: found("h.rs"), panel_match: Some(pm("h.rs", 1)) };
    matches.push_new_matches(
        &vec![],
        None,
        true,
        vec![history_match],
        vec![pm("c.rs", 3), pm("h.rs", 10), pm("a.rs", 5), pm("c.rs", 3)],
        false,
    );
    assert_eq!(paths(&matches), vec!["h:h.rs", "s:a.rs", "s:c.rs"]);
    assert_eq!(matches.len(), 3);
    assert!(matches.get(3).is_none());

    matches.push_new_matches(&vec![], None, true, vec![], vec![pm("b.rs", 4)], true);
    assert_eq!(paths(&matches), vec!["s:a.rs", "s:b.rs", "s:c.rs"]);
}

#[test]
fn no_more_than_a_hundred_matches_are_kept() {
    let mut matches = Matches { separate_history: false, matches: vec![] };
    let results: Vec<PathMatch> = (0..150).map(|i| pm(&format!("f{:03}.rs", i), i)).collect();
    matches.push_new_matches(&vec![], None, true, vec![], results, false);
    assert_eq!(matches.len(), MAX_MATCHES);
    assert_eq!(paths(&matches)[0], "s:f099.rs");
}

#[test]
fn history_entry_without_match_is_found_by_path() {
    let matches = Matches {
        separate_history: false,
        matches: vec![FinderMatch::Search(pm("a.rs", 1)), FinderMatch::Search(pm("b.rs", 1))],
    };
    let entry = FinderMatch::History { path: found("b.rs"), panel_match: None };
    assert_eq!(matches.position(&entry, None), Ok(1));
    let missing = FinderMatch::History { path: found("z.rs"), panel_match: None };
    assert_eq!(matches.position(&missing, None), Err(0));
}

#[test]
fn history_candidates_group_files_by_worktree() {
    let other = FoundPath { project: ProjectPath { worktree_id: 2, path: "x/y.rs".to_string() }, absolute: None };
    let root = FoundPath { project: ProjectPath { worktree_id: 1, path: String::new() }, absolute: None };
    let history = vec![found("a.rs"), other, root, found("b.rs")];
    let opened = found("o.rs");
    let groups = history_candidates(&history, Some(&opened));
    assert_eq!(groups.len(), 2);
    assert_eq!(groups[0].worktree_id, 1);
    let names: Vec<&str> = groups[0].paths.iter().map(|f| f.project.path.as_str()).collect();
    assert_eq!(names, vec!["a.rs", "b.rs", "o.rs"]);
    assert_eq!(groups[0].max_results, 4);
    assert_eq!(groups[1].worktree_id, 2);
    assert_eq!(groups[1].max_results, 2);
}

#[test]
fn history_matches_take_each_file_once() {
    let pool = vec![found("a.rs"), found("b.rs")];
    let results = vec![pm("b.rs", 3), pm("zz.rs", 9), pm("b.rs", 1), pm("a.rs", 2)];
    let matches = history_matches(&pool, results);
    assert_eq!(matches.len(), 2);
    match &matches[0] {
        FinderMatch::History { path, panel_match } => {
            assert_eq!(path.project.path, "b.rs");
            assert_eq!(panel_match.as_ref().unwrap().score, 3);
        }
        other => panic!("unexpected {:?}", other),
    }
    match &matches[1] {
        FinderMatch::History { path, .. } => assert_eq!(path.project.path, "a.rs"),
        other => panic!("unexpected {:?}", other),
    }
}

fn finder() -> FinderSearch {
    FinderSearch {
        history_items: vec![found("a.rs"), found("b.rs")],
        currently_opened_path: Some(found("b.rs")),
        matches: Matches { separate_history: true, matches: vec![] },
        selected_index: 0,
        latest_search_id: 0,
        latest_search_did_cancel: false,
        latest_search_query: None,
        search_count: 0,
        first_update: true,
    }
}

#[test]
fn empty_query_shows_history_once() {
    let mut search = finder();
    let history = vec![found("a.rs"), found("b.rs")];
    assert_eq!(search.update_matches("  ", &history), None);
    assert_eq!(paths(&search.matches), vec!["h:b.rs", "h:a.rs"]);
    assert_eq!(search.search_count, 1);
    assert!(!search.first_update);
    assert_eq!(search.update_matches(" ", &history), None);
    assert_eq!(search.search_count, 1);
    assert_eq!(search.update_matches(" ma in.rs ", &history), Some("main.rs".to_string()));
}

#[test]
fn later_search_results_win_and_selection_follows() {
    let mut search = finder();
    let first = search.start_search();
    let second = search.start_search();
    search.set_search_matches(second, true, "x".to_string(), vec![], vec![pm("x.rs", 5), pm("y.rs", 2)]);
    assert_eq!(paths(&search.matches), vec!["s:x.rs", "s:y.rs"]);
    assert_eq!(search.selected_index, 0);
    search.set_search_matches(first, false, "old".to_string(), vec![], vec![pm("z.rs", 9)]);
    assert_eq!(paths(&search.matches), vec!["s:x.rs", "s:y.rs"]);
    assert_eq!(search.latest_search_query, Some("x".to_string()));

    search.selected_index = 1;
    let third = search.start_search();
    search.set_search_matches(third, true, "x".to_string(), vec![], vec![pm("w.rs", 7), pm("y.rs", 2)]);
    assert_eq!(paths(&search.matches), vec!["s:w.rs", "s:x.rs", "s:y.rs"]);
    assert_eq!(search.selected_index, 2);
    assert!(search.latest_search_did_cancel);
}

/// A fuzzy score as the integer the library ranks it by (tenths).
fn rank(score: f64) -> u64 {
    (score * 10.0).round() as u64
}

fn ord_match(score: f64, path: &str) -> PathMatch {
    PathMatch {
        score: rank(score),
        positions: Vec::new(),
        worktree_id: 0,
        path: path.to_string(),
        path_prefix: String::new(),
        distance_to_relative_ancestor: 0,
        is_dir: false,
    }
}

#[test]
fn test_custom_project_search_ordering_in_file_finder() {
    let mut file_finder_sorted_output = vec![
        ord_match(0.5, "b0.5"),
        ord_match(1.0, "c1.0"),
        ord_match(1.0, "a1.0"),
        ord_match(0.5, "a0.5"),
        ord_match(1.0, "b1.0"),
    ];
    file_finder_sorted_output.sort_by(|a, b| compare_panel_matches(b, a));

    assert_eq!(
        file_finder_sorted_output,
        vec![
            ord_match(1.0, "a1.0"),
            ord_match(1.0, "b1.0"),
            ord_match(1.0, "c1.0"),
            ord_match(0.5, "a0.5"),
            ord_match(0.5, "b0.5"),
        ]
    );
}
