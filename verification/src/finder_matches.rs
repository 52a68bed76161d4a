//! The ranked matches of the file finder: how two matches compare, where a
//! new match goes among the ranked ones, and how the matches of a search
//! are merged in, without duplicates and up to a hundred.
use vstd::prelude::*;
use vstd::string::*;
use std::cmp::Ordering;
use crate::file_finder::{same_found, FinderMatch, FoundPath, PathMatch};

verus! {

/// The most matches kept.
pub const MAX_MATCHES: usize = 100;

/// What `std::path::Path::cmp` says of two paths: `-1`, `0` or `1` as the
/// first comes before, with or after the second, component by component.
pub uninterp spec fn path_order(a: Seq<char>, b: Seq<char>) -> i8;

/// Compares two paths with `std::path::Path::cmp`, as `-1`, `0` or `1`; the
/// result is a function of the two texts alone.
#[verifier::external_body]
pub(crate) fn compare_paths(a: &str, b: &str) -> (r: i8)
    ensures
        r == path_order(a@, b@),
        -1 <= r <= 1,
{
    match std::path::Path::new(a).cmp(std::path::Path::new(b)) {
        Ordering::Less => -1,
        Ordering::Equal => 0,
        Ordering::Greater => 1,
    }
}

/// The order of two `u64`s.
pub open spec fn order_u64(a: u64, b: u64) -> Ordering {
    if a < b {
        Ordering::Less
    } else if a == b {
        Ordering::Equal
    } else {
        Ordering::Greater
    }
}

/// The order of two `usize`s.
pub open spec fn order_usize(a: usize, b: usize) -> Ordering {
    if a < b {
        Ordering::Less
    } else if a == b {
        Ordering::Equal
    } else {
        Ordering::Greater
    }
}

/// The order of a `-1`, `0`, `1` answer.
pub open spec fn order_of_sign(s: i8) -> Ordering {
    if s < 0 {
        Ordering::Less
    } else if s == 0 {
        Ordering::Equal
    } else {
        Ordering::Greater
    }
}

/// The opposite order.
pub open spec fn reversed(o: Ordering) -> Ordering {
    match o {
        Ordering::Less => Ordering::Greater,
        Ordering::Equal => Ordering::Equal,
        Ordering::Greater => Ordering::Less,
    }
}

/// `first`, unless it is equal, and then `second`.
pub open spec fn then_order(first: Ordering, second: Ordering) -> Ordering {
    if first == Ordering::Equal {
        second
    } else {
        first
    }
}

/// How two path matches rank: by score, then by worktree, then the one
/// nearer its relative ancestor, then the path that comes first. The greater
/// match is the better one.
pub open spec fn panel_order(a: PathMatch, b: PathMatch) -> Ordering {
    then_order(
        order_u64(a.score, b.score),
        then_order(
            order_u64(a.worktree_id, b.worktree_id),
            then_order(
                order_usize(b.distance_to_relative_ancestor, a.distance_to_relative_ancestor),
                reversed(order_of_sign(path_order(a.path@, b.path@))),
            ),
        ),
    )
}

/// How two path matches rank: the higher score ranks higher; at equal
/// scores the higher worktree id ranks higher, whatever the distances and
/// paths; then the match nearer its relative ancestor ranks higher; then the
/// path that comes first ranks higher; matches equal in all of these rank
/// equal.
pub proof fn lemma_panel_ranking(a: PathMatch, b: PathMatch)
    ensures
        a.score < b.score ==> panel_order(a, b) == Ordering::Less,
        a.score > b.score ==> panel_order(a, b) == Ordering::Greater,
        a.score == b.score && a.worktree_id < b.worktree_id ==> panel_order(a, b) == Ordering::Less,
        a.score == b.score && a.worktree_id > b.worktree_id ==> panel_order(a, b) == Ordering::Greater,
        a.score == b.score && a.worktree_id == b.worktree_id && a.distance_to_relative_ancestor
            < b.distance_to_relative_ancestor ==> panel_order(a, b) == Ordering::Greater,
        a.score == b.score && a.worktree_id == b.worktree_id && a.distance_to_relative_ancestor
            > b.distance_to_relative_ancestor ==> panel_order(a, b) == Ordering::Less,
        a.score == b.score && a.worktree_id == b.worktree_id && a.distance_to_relative_ancestor
            == b.distance_to_relative_ancestor ==> (panel_order(a, b) == Ordering::Greater <==> path_order(
            a.path@,
            b.path@,
        ) < 0) && (panel_order(a, b) == Ordering::Less <==> path_order(a.path@, b.path@) > 0) && (panel_order(a, b)
            == Ordering::Equal <==> path_order(a.path@, b.path@) == 0),
{
}

/// How two matches of the finder rank: the file opened now ranks above any
/// other match; then, when history is shown apart, a history match ranks
/// above a search result; otherwise matches rank by their path matches, a
/// match without one below any match with one.
pub proof fn lemma_match_ranking(separate_history: bool, opened: Option<FoundPath>, a: FinderMatch, b: FinderMatch)
    ensures
        is_opened(a, opened) ==> match_order(separate_history, opened, a, b) == Ordering::Greater,
        !is_opened(a, opened) && is_opened(b, opened) ==> match_order(separate_history, opened, a, b)
            == Ordering::Less,
        !is_opened(a, opened) && !is_opened(b, opened) && separate_history && a is History && b is Search
            ==> match_order(separate_history, opened, a, b) == Ordering::Greater,
        !is_opened(a, opened) && !is_opened(b, opened) && separate_history && a is Search && b is History
            ==> match_order(separate_history, opened, a, b) == Ordering::Less,
        !is_opened(a, opened) && !is_opened(b, opened) && !(separate_history && (a is History) != (b is History))
            ==> match_order(separate_history, opened, a, b) == (match (panel_match_of(a), panel_match_of(b)) {
            (Some(x), Some(y)) => panel_order(x, y),
            (Some(_), None) => Ordering::Greater,
            (None, Some(_)) => Ordering::Less,
            (None, None) => Ordering::Equal,
        }),
{
}

fn order_of_u64(a: u64, b: u64) -> (r: Ordering)
    ensures
        r == order_u64(a, b),
{
    if a < b {
        Ordering::Less
    } else if a == b {
        Ordering::Equal
    } else {
        Ordering::Greater
    }
}

fn order_of_usize(a: usize, b: usize) -> (r: Ordering)
    ensures
        r == order_usize(a, b),
{
    if a < b {
        Ordering::Less
    } else if a == b {
        Ordering::Equal
    } else {
        Ordering::Greater
    }
}

/// Ranks two path matches.
pub fn compare_panel_matches(a: &PathMatch, b: &PathMatch) -> (r: Ordering)
    ensures
        r == panel_order(*a, *b),
{
    match order_of_u64(a.score, b.score) {
        Ordering::Equal => {},
        other => return other,
    }
    match order_of_u64(a.worktree_id, b.worktree_id) {
        Ordering::Equal => {},
        other => return other,
    }
    match order_of_usize(b.distance_to_relative_ancestor, a.distance_to_relative_ancestor) {
        Ordering::Equal => {},
        other => return other,
    }
    let p = compare_paths(a.path.as_str(), b.path.as_str());
    if p < 0 {
        Ordering::Greater
    } else if p == 0 {
        Ordering::Equal
    } else {
        Ordering::Less
    }
}

/// The path match a match carries, if any.
pub open spec fn panel_match_of(m: FinderMatch) -> Option<PathMatch> {
    match m {
        FinderMatch::History { panel_match, .. } => panel_match,
        FinderMatch::Search(pm) => Some(pm),
    }
}

/// How two optional path matches rank: none below any.
pub open spec fn option_order(a: Option<PathMatch>, b: Option<PathMatch>) -> Ordering {
    match (a, b) {
        (None, None) => Ordering::Equal,
        (None, Some(_)) => Ordering::Less,
        (Some(_), None) => Ordering::Greater,
        (Some(x), Some(y)) => panel_order(x, y),
    }
}

/// Whether a match is the history entry of the file opened now.
pub open spec fn is_opened(m: FinderMatch, opened: Option<FoundPath>) -> bool {
    m matches FinderMatch::History { path, .. } && opened matches Some(o) && same_found(path, o)
}

/// How two matches of the finder rank: the file opened now above all, then,
/// when history is shown apart, history above search results, then by
/// their path matches.
pub open spec fn match_order(separate_history: bool, opened: Option<FoundPath>, a: FinderMatch, b: FinderMatch) -> Ordering {
    if is_opened(a, opened) {
        Ordering::Greater
    } else if is_opened(b, opened) {
        Ordering::Less
    } else if separate_history && a is History && b is Search {
        Ordering::Greater
    } else if separate_history && a is Search && b is History {
        Ordering::Less
    } else {
        option_order(panel_match_of(a), panel_match_of(b))
    }
}

fn is_opened_exec(m: &FinderMatch, opened: Option<&FoundPath>) -> (r: bool)
    ensures
        r == is_opened(*m, match opened {
            Some(o) => Some(*o),
            None => None,
        }),
{
    match (m, opened) {
        (FinderMatch::History { path, .. }, Some(o)) => crate::file_finder::same_found_exec(path, o),
        _ => false,
    }
}

/// The optional found path behind a reference.
pub open spec fn opt_found(opened: Option<&FoundPath>) -> Option<FoundPath> {
    match opened {
        Some(o) => Some(*o),
        None => None,
    }
}

/// Ranks two matches of the finder; the greater one is the better.
pub fn compare_matches(
    separate_history: bool,
    currently_opened: Option<&FoundPath>,
    a: &FinderMatch,
    b: &FinderMatch,
) -> (r: Ordering)
    ensures
        r == match_order(separate_history, opt_found(currently_opened), *a, *b),
{
    if is_opened_exec(a, currently_opened) {
        return Ordering::Greater;
    }
    if is_opened_exec(b, currently_opened) {
        return Ordering::Less;
    }
    if separate_history {
        match (a, b) {
            (FinderMatch::History { .. }, FinderMatch::Search(_)) => return Ordering::Greater,
            (FinderMatch::Search(_), FinderMatch::History { .. }) => return Ordering::Less,
            _ => {},
        }
    }
    let pa = match a {
        FinderMatch::History { panel_match, .. } => panel_match.as_ref(),
        FinderMatch::Search(pm) => Some(pm),
    };
    let pb = match b {
        FinderMatch::History { panel_match, .. } => panel_match.as_ref(),
        FinderMatch::Search(pm) => Some(pm),
    };
    match (pa, pb) {
        (None, None) => Ordering::Equal,
        (None, Some(_)) => Ordering::Less,
        (Some(_), None) => Ordering::Greater,
        (Some(x), Some(y)) => compare_panel_matches(x, y),
    }
}

/// How a ranked match compares to the one searched for, as the search
/// probes it: better matches come first.
pub fn probe_order(
    separate_history: bool,
    currently_opened: Option<&FoundPath>,
    m: &FinderMatch,
    entry: &FinderMatch,
) -> (r: Ordering)
    ensures
        r == reversed(match_order(separate_history, opt_found(currently_opened), *m, *entry)),
{
    match compare_matches(separate_history, currently_opened, m, entry) {
        Ordering::Less => Ordering::Greater,
        Ordering::Equal => Ordering::Equal,
        Ordering::Greater => Ordering::Less,
    }
}

/// What a path match is ranked by.
pub struct PanelKey {
    pub score: u64,
    pub worktree_id: u64,
    pub distance_to_relative_ancestor: usize,
    pub path: Seq<char>,
}

/// What a match is ranked by: its kind, a history match's file, and its
/// path match's ranking values.
pub enum MatchKey {
    History { path: FoundPath, panel: Option<PanelKey> },
    Search(PanelKey),
}

/// The ranking values of a path match.
pub open spec fn panel_key(pm: PathMatch) -> PanelKey {
    PanelKey {
        score: pm.score,
        worktree_id: pm.worktree_id,
        distance_to_relative_ancestor: pm.distance_to_relative_ancestor,
        path: pm.path@,
    }
}

/// What a match is ranked by.
pub open spec fn match_key(m: FinderMatch) -> MatchKey {
    match m {
        FinderMatch::History { path, panel_match } => MatchKey::History {
            path,
            panel: match panel_match {
                Some(pm) => Some(panel_key(pm)),
                None => None,
            },
        },
        FinderMatch::Search(pm) => MatchKey::Search(panel_key(pm)),
    }
}

/// What `slice::binary_search_by` answers for the ranked matches, probed
/// with `probe_order` against an entry ranked by `entry`.
pub uninterp spec fn searched_position(
    matches: Seq<FinderMatch>,
    separate_history: bool,
    opened: Option<FoundPath>,
    entry: MatchKey,
) -> Result<usize, usize>;

/// The match at index `i`.
pub open spec fn match_at(ms: Seq<FinderMatch>, i: usize) -> FinderMatch {
    ms[i as int]
}

/// How a ranked match compares to the entry searched for, as `probe_order`
/// gives it.
pub open spec fn probe(separate_history: bool, opened: Option<FoundPath>, m: FinderMatch, entry: FinderMatch) -> Ordering {
    reversed(match_order(separate_history, opened, m, entry))
}

/// The place of an order among less, equal and greater.
pub open spec fn order_code(o: Ordering) -> int {
    match o {
        Ordering::Less => 0,
        Ordering::Equal => 1,
        Ordering::Greater => 2,
    }
}

/// Whether the matches are ordered for a search of `entry`: those that
/// probe less come first, then those that probe equal, then those that
/// probe greater.
pub open spec fn ordered_for(
    ms: Seq<FinderMatch>,
    separate_history: bool,
    opened: Option<FoundPath>,
    entry: FinderMatch,
) -> bool {
    forall|i: int, j: int|
        0 <= i < j < ms.len() ==> order_code(probe(separate_history, opened, #[trigger] ms[i], entry)) <= order_code(
            probe(separate_history, opened, #[trigger] ms[j], entry),
        )
}

/// Whether an answer of a search for `entry` fits matches ordered for it:
/// a found index holds a match that probes equal; an index to insert at has
/// every match before it probing less and every one from it on probing
/// greater.
pub open spec fn answer_fits(
    ms: Seq<FinderMatch>,
    separate_history: bool,
    opened: Option<FoundPath>,
    entry: FinderMatch,
    r: Result<usize, usize>,
) -> bool {
    match r {
        Ok(i) => i < ms.len() && probe(separate_history, opened, match_at(ms, i), entry) == Ordering::Equal,
        Err(i) => i <= ms.len() && (forall|j: int|
            0 <= j < i ==> probe(separate_history, opened, #[trigger] ms[j], entry) == Ordering::Less) && (forall|j: int|
            i <= j < ms.len() ==> probe(separate_history, opened, #[trigger] ms[j], entry) == Ordering::Greater),
    }
}

/// Calls `slice::binary_search_by` on the ranked matches, probing each with
/// `probe_order`. As std documents it, on matches ordered for the entry a
/// found index holds a match that probes equal, and otherwise the index
/// returned is where the entry can be inserted keeping the order: every
/// match before it probes less and every one from it on probes greater.
/// On matches not so ordered std leaves the answer unspecified.
#[verifier::external_body]
fn binary_search_matches(
    matches: &Vec<FinderMatch>,
    separate_history: bool,
    currently_opened: Option<&FoundPath>,
    entry: &FinderMatch,
) -> (r: Result<usize, usize>)
    ensures
        r == searched_position(matches@, separate_history, opt_found(currently_opened), match_key(*entry)),
        ordered_for(matches@, separate_history, opt_found(currently_opened), *entry) ==> answer_fits(
            matches@,
            separate_history,
            opt_found(currently_opened),
            *entry,
            r,
        ),
{
    matches.binary_search_by(|m| probe_order(separate_history, currently_opened, m, entry))
}

/// The path a match is about.
pub open spec fn match_path(m: FinderMatch) -> Seq<char> {
    match m {
        FinderMatch::History { path, .. } => path.project.path@,
        FinderMatch::Search(pm) => pm.path@,
    }
}

/// The first index whose match is about the same path as `path`.
pub open spec fn first_same_path(ms: Seq<FinderMatch>, path: Seq<char>) -> Option<int>
    decreases ms.len(),
{
    if ms.len() == 0 {
        None
    } else if path_order(path, match_path(ms.last())) == 0 {
        match first_same_path(ms.drop_last(), path) {
            Some(i) => Some(i),
            None => Some(ms.len() - 1),
        }
    } else {
        first_same_path(ms.drop_last(), path)
    }
}

/// Where a match goes among the ranked matches: a history entry without a
/// path match is looked for by its path; any other by binary search.
pub open spec fn position_of(
    ms: Seq<FinderMatch>,
    separate_history: bool,
    opened: Option<FoundPath>,
    entry: FinderMatch,
) -> Result<usize, usize> {
    match entry {
        FinderMatch::History { path, panel_match: None } => match first_same_path(ms, path.project.path@) {
            Some(i) => Ok(i as usize),
            None => Err(0usize),
        },
        _ => searched_position(ms, separate_history, opened, match_key(entry)),
    }
}

/// The ranked matches after merging `news` in, in order: a match already
/// there is skipped, any other is inserted where it goes, and the merge
/// stops once a hundred matches are kept.
pub open spec fn merged(
    ms: Seq<FinderMatch>,
    news: Seq<FinderMatch>,
    separate_history: bool,
    opened: Option<FoundPath>,
) -> Seq<FinderMatch>
    decreases news.len(),
{
    if news.len() == 0 {
        ms
    } else {
        match position_of(ms, separate_history, opened, news[0]) {
            Ok(_) => merged(ms, news.skip(1), separate_history, opened),
            Err(i) => if i <= ms.len() {
                let next = ms.insert(i as int, news[0]);
                if next.len() == MAX_MATCHES {
                    next
                } else {
                    merged(next, news.skip(1), separate_history, opened)
                }
            } else {
                ms
            },
        }
    }
}

/// Merging matches into fewer than a hundred keeps at most a hundred.
pub proof fn lemma_merged_at_most_max(
    ms: Seq<FinderMatch>,
    news: Seq<FinderMatch>,
    separate_history: bool,
    opened: Option<FoundPath>,
)
    requires
        ms.len() < MAX_MATCHES,
    ensures
        merged(ms, news, separate_history, opened).len() <= MAX_MATCHES,
    decreases news.len(),
{
    if news.len() > 0 {
        match position_of(ms, separate_history, opened, news[0]) {
            Ok(_) => lemma_merged_at_most_max(ms, news.skip(1), separate_history, opened),
            Err(i) => if i <= ms.len() {
                let next = ms.insert(i as int, news[0]);
                if next.len() != MAX_MATCHES {
                    lemma_merged_at_most_max(next, news.skip(1), separate_history, opened);
                }
            },
        }
    }
}

/// A merge invents no match and loses none of the ranked ones: every match
/// it keeps was ranked before or is one of the new ones, and it keeps at
/// least as many as were ranked.
pub proof fn lemma_merged_from(
    ms: Seq<FinderMatch>,
    news: Seq<FinderMatch>,
    separate_history: bool,
    opened: Option<FoundPath>,
)
    ensures
        merged(ms, news, separate_history, opened).len() >= ms.len(),
        forall|x: FinderMatch| #[trigger] merged(ms, news, separate_history, opened).contains(x) ==> ms.contains(x)
            || news.contains(x),
        forall|x: FinderMatch| ms.contains(x) ==> #[trigger] merged(ms, news, separate_history, opened).contains(x),
    decreases news.len(),
{
    if news.len() > 0 {
        let rest = news.skip(1);
        assert forall|x: FinderMatch| rest.contains(x) implies news.contains(x) by {
            let k = choose|k: int| 0 <= k < rest.len() && rest[k] == x;
            assert(news[k + 1] == x);
        }
        assert(news.contains(news[0]));
        match position_of(ms, separate_history, opened, news[0]) {
            Ok(_) => lemma_merged_from(ms, rest, separate_history, opened),
            Err(i) => if i <= ms.len() {
                let next = ms.insert(i as int, news[0]);
                assert forall|x: FinderMatch| next.contains(x) implies ms.contains(x) || x == news[0] by {
                    let k = choose|k: int| 0 <= k < next.len() && next[k] == x;
                    if k < i {
                        assert(ms[k] == x);
                    } else if k > i {
                        assert(ms[k - 1] == x);
                    }
                }
                assert forall|x: FinderMatch| ms.contains(x) implies next.contains(x) by {
                    let k = choose|k: int| 0 <= k < ms.len() && ms[k] == x;
                    if k < i {
                        assert(next[k] == x);
                    } else {
                        assert(next[k + 1] == x);
                    }
                }
                if next.len() != MAX_MATCHES {
                    lemma_merged_from(next, rest, separate_history, opened);
                }
            },
        }
    }
}

/// The history entry of a found path, without a path match.
pub open spec fn history_entry(f: FoundPath) -> FinderMatch {
    FinderMatch::History { path: f, panel_match: None }
}

/// The matches shown without a query: the file opened now, then the other
/// history files, in order.
pub open spec fn without_query(history: Seq<FoundPath>, opened: Option<FoundPath>) -> Seq<FinderMatch> {
    let rest = history.filter(|f: FoundPath| !(opened matches Some(o) && same_found(f, o))).map_values(
        |f: FoundPath| history_entry(f),
    );
    match opened {
        Some(o) => seq![history_entry(o)] + rest,
        None => rest,
    }
}

/// Whether a search result is about the path of one of the history matches.
pub open spec fn in_history(pm: PathMatch, history_matches: Seq<FinderMatch>) -> bool {
    exists|k: int| 0 <= k < history_matches.len() && path_order(match_path(history_matches[k]), pm.path@) == 0
}

/// The search results that are not about a history match's path, as
/// matches.
pub open spec fn new_searches(searches: Seq<PathMatch>, history_matches: Seq<FinderMatch>) -> Seq<FinderMatch> {
    searches.filter(|pm: PathMatch| !in_history(pm, history_matches)).map_values(|pm: PathMatch| FinderMatch::Search(pm))
}

/// Looks for the first match about the same path as `path`: `Ok` with its
/// index, `Err(0)` when there is none.
fn find_same_path(matches: &Vec<FinderMatch>, path: &String) -> (r: Result<usize, usize>)
    ensures
        r == (match first_same_path(matches@, path@) {
            Some(i) => Ok(i as usize),
            None => Err(0usize),
        }),
{
    let ghost ms = matches@;
    let mut i: usize = 0;
    while i < matches.len()
        invariant
            i <= ms.len(),
            ms == matches@,
            first_same_path(ms.take(i as int), path@) is None,
        decreases ms.len() - i,
    {
        let here = matches[i].path();
        assert(ms.take(i as int + 1).drop_last() =~= ms.take(i as int));
        assert(ms.take(i as int + 1).last() == ms[i as int]);
        if compare_paths(path.as_str(), here.as_str()) == 0 {
            proof {
                lemma_first_same_path_extends(ms, path@, i as int);
            }
            return Ok(i);
        }
        i += 1;
    }
    assert(ms.take(i as int) =~= ms);
    Err(0)
}

/// The ranked matches of the finder.
#[derive(Debug)]
pub struct Matches {
    pub separate_history: bool,
    pub matches: Vec<FinderMatch>,
}

fn copy_found(f: &FoundPath) -> (r: FoundPath)
    ensures
        r == *f,
{
    FoundPath {
        project: crate::dap_store::ProjectPath { worktree_id: f.project.worktree_id, path: f.project.path.clone() },
        absolute: crate::dap::clone_opt_string(&f.absolute),
    }
}

impl Matches {
    /// How many matches there are.
    pub fn len(&self) -> (r: usize)
        ensures
            r == self.matches@.len(),
    {
        self.matches.len()
    }

    /// The match at `index`, if there is one.
    pub fn get(&self, index: usize) -> (r: Option<&FinderMatch>)
        ensures
            r == (if index < self.matches@.len() {
                Some(&self.matches@[index as int])
            } else {
                None
            }),
    {
        if index < self.matches.len() {
            Some(&self.matches[index])
        } else {
            None
        }
    }

    /// Where `entry` goes among the matches: `Ok` with the index of an equal
    /// match, or `Err` with the index to insert it at.
    pub fn position(&self, entry: &FinderMatch, currently_opened: Option<&FoundPath>) -> (r: Result<usize, usize>)
        ensures
            r == position_of(self.matches@, self.separate_history, opt_found(currently_opened), *entry),
            !(entry matches FinderMatch::History { panel_match: None, .. }) && ordered_for(
                self.matches@,
                self.separate_history,
                opt_found(currently_opened),
                *entry,
            ) ==> answer_fits(self.matches@, self.separate_history, opt_found(currently_opened), *entry, r),
    {
        match entry {
            FinderMatch::History { path, panel_match: None } => find_same_path(&self.matches, &path.project.path),
            _ => binary_search_matches(&self.matches, self.separate_history, currently_opened, entry),
        }
    }

    /// Merges the matches of a search in. Without a query, the matches are
    /// the file opened now and the other history files. With one, the old
    /// search matches are kept when extending (and nothing else), the
    /// history matches and then the search results not about a history
    /// match's path are merged in, as `merged` says.
    pub fn push_new_matches(
        &mut self,
        history_items: &Vec<FoundPath>,
        currently_opened: Option<&FoundPath>,
        has_query: bool,
        new_history_matches: Vec<FinderMatch>,
        new_search_matches: Vec<PathMatch>,
        extend_old_matches: bool,
    )
        ensures
            final(self).separate_history == old(self).separate_history,
            !has_query ==> final(self).matches@ == without_query(history_items@, opt_found(currently_opened)),
            has_query ==> final(self).matches@ == merged(
                if extend_old_matches {
                    old(self).matches@.filter(|m: FinderMatch| m is Search)
                } else {
                    Seq::empty()
                },
                new_history_matches@ + new_searches(new_search_matches@, new_history_matches@),
                old(self).separate_history,
                opt_found(currently_opened),
            ),
    {
        let ghost opened = opt_found(currently_opened);
        if !has_query {
            let mut out: Vec<FinderMatch> = Vec::new();
            let ghost pred = |f: FoundPath| !(opened matches Some(o) && same_found(f, o));
            match currently_opened {
                Some(o) => out.push(FinderMatch::History { path: copy_found(o), panel_match: None }),
                None => {},
            }
            let ghost head = out@;
            let mut i: usize = 0;
            assert(history_items@.take(0).filter(pred) =~= Seq::<FoundPath>::empty()) by {
                reveal(Seq::filter);
            }
            while i < history_items.len()
                invariant
                    i <= history_items.len(),
                    opened == opt_found(currently_opened),
                    pred == (|f: FoundPath| !(opened matches Some(o) && same_found(f, o))),
                    out@ == head + history_items@.take(i as int).filter(pred).map_values(|f: FoundPath| history_entry(f)),
                decreases history_items.len() - i,
            {
                let f = &history_items[i];
                proof {
                    assert(history_items@.take(i as int + 1) =~= history_items@.take(i as int).push(*f));
                    history_items@.take(i as int).lemma_filter_push(*f, pred);
                }
                let skip = match currently_opened {
                    Some(o) => crate::file_finder::same_found_exec(f, o),
                    None => false,
                };
                if !skip {
                    let ghost before = out@;
                    out.push(FinderMatch::History { path: copy_found(f), panel_match: None });
                    proof {
                        let kept = history_items@.take(i as int).filter(pred);
                        assert(kept.push(*f).map_values(|g: FoundPath| history_entry(g)) =~= kept.map_values(
                            |g: FoundPath| history_entry(g),
                        ).push(history_entry(*f)));
                        assert(out@ =~= head + kept.push(*f).map_values(|g: FoundPath| history_entry(g)));
                    }
                }
                i += 1;
            }
            assert(history_items@.take(history_items.len() as int) =~= history_items@);
            assert(out@ =~= without_query(history_items@, opened));
            self.matches = out;
            return;
        }
        let ghost nh = new_history_matches@;
        let ghost ns = new_search_matches@;
        let ghost searches = new_searches(new_search_matches@, new_history_matches@);
        let ghost news = new_history_matches@ + searches;
        let mut searched: Vec<FinderMatch> = self.keep_new_searches(new_search_matches, &new_history_matches);
        assert(searched@ == searches);
        let mut kept: Vec<FinderMatch> = Vec::new();
        if extend_old_matches {
            kept = self.search_matches_only();
        }
        let ghost start = kept@;
        self.matches = kept;
        let mut pending: Vec<FinderMatch> = new_history_matches;
        pending.append(&mut searched);
        assert(pending@ == news);
        let ghost sep = self.separate_history;
        while pending.len() > 0
            invariant
                sep == self.separate_history,
                sep == old(self).separate_history,
                opened == opt_found(currently_opened),
                has_query,
                nh == new_history_matches@,
                ns == new_search_matches@,
                news == nh + new_searches(ns, nh),
                start == (if extend_old_matches {
                    old(self).matches@.filter(|m: FinderMatch| m is Search)
                } else {
                    Seq::empty()
                }),
                merged(self.matches@, pending@, sep, opened) == merged(start, news, sep, opened),
            decreases pending.len(),
        {
            let ghost before = self.matches@;
            let ghost rest = pending@;
            let entry = pending.remove(0);
            assert(rest[0] == entry);
            assert(rest.skip(1) =~= pending@);
            match self.position(&entry, currently_opened) {
                Ok(_) => {},
                Err(i) => {
                    if i <= self.matches.len() {
                        self.matches.insert(i, entry);
                        if self.matches.len() == MAX_MATCHES {
                            return;
                        }
                    } else {
                        return;
                    }
                },
            }
        }
    }

    /// The search matches among the ranked ones, in order.
    fn search_matches_only(&mut self) -> (r: Vec<FinderMatch>)
        ensures
            r@ == old(self).matches@.filter(|m: FinderMatch| m is Search),
            final(self).separate_history == old(self).separate_history,
    {
        let ghost pred = |m: FinderMatch| m is Search;
        let mut rest: Vec<FinderMatch> = Vec::new();
        std::mem::swap(&mut rest, &mut self.matches);
        let ghost orig = rest@;
        let mut out: Vec<FinderMatch> = Vec::new();
        let mut k: usize = 0;
        let n: usize = rest.len();
        assert(orig.take(0).filter(pred) =~= Seq::<FinderMatch>::empty()) by {
            reveal(Seq::filter);
        }
        while rest.len() > 0
            invariant
                k <= orig.len(),
                orig.len() == n,
                k + rest@.len() == n,
                rest@ == orig.skip(k as int),
                out@ == orig.take(k as int).filter(pred),
                pred == (|m: FinderMatch| m is Search),
            decreases rest.len(),
        {
            let m = rest.remove(0);
            proof {
                assert(orig.take(k as int + 1) =~= orig.take(k as int).push(m));
                orig.take(k as int).lemma_filter_push(m, pred);
                assert(orig.skip(k as int + 1) =~= orig.skip(k as int).skip(1));
            }
            if let FinderMatch::Search(_) = m {
                out.push(m);
            }
            k += 1;
        }
        assert(orig.take(k as int) =~= orig);
        out
    }

    /// The search results not about a history match's path, as matches.
    fn keep_new_searches(&self, searches: Vec<PathMatch>, history: &Vec<FinderMatch>) -> (r: Vec<FinderMatch>)
        ensures
            r@ == new_searches(searches@, history@),
    {
        let ghost pred = |pm: PathMatch| !in_history(pm, history@);
        let ghost orig = searches@;
        let mut rest = searches;
        let mut kept: Vec<PathMatch> = Vec::new();
        let mut k: usize = 0;
        let n: usize = rest.len();
        assert(orig.take(0).filter(pred) =~= Seq::<PathMatch>::empty()) by {
            reveal(Seq::filter);
        }
        while rest.len() > 0
            invariant
                k <= orig.len(),
                orig.len() == n,
                k + rest@.len() == n,
                rest@ == orig.skip(k as int),
                kept@ == orig.take(k as int).filter(pred),
                pred == (|pm: PathMatch| !in_history(pm, history@)),
            decreases rest.len(),
        {
            let pm = rest.remove(0);
            proof {
                assert(orig.take(k as int + 1) =~= orig.take(k as int).push(pm));
                orig.take(k as int).lemma_filter_push(pm, pred);
                assert(orig.skip(k as int + 1) =~= orig.skip(k as int).skip(1));
            }
            let mut found = false;
            let mut j: usize = 0;
            while j < history.len()
                invariant
                    j <= history.len(),
                    found == exists|q: int| 0 <= q < j && path_order(match_path(history@[q]), pm.path@) == 0,
                decreases history.len() - j,
            {
                if compare_paths(history[j].path().as_str(), pm.path.as_str()) == 0 {
                    found = true;
                }
                j += 1;
            }
            if !found {
                kept.push(pm);
            }
            k += 1;
        }
        assert(orig.take(k as int) =~= orig);
        let ghost fl = orig.filter(pred);
        let mut out: Vec<FinderMatch> = Vec::new();
        while kept.len() > 0
            invariant
                out@.len() + kept@.len() == fl.len(),
                fl == orig.filter(pred),
                kept@ == fl.skip(out@.len() as int),
                out@ == fl.take(out@.len() as int).map_values(|p: PathMatch| FinderMatch::Search(p)),
            decreases kept.len(),
        {
            let ghost j = out@.len() as int;
            let p = kept.remove(0);
            proof {
                assert(fl.take(j + 1) =~= fl.take(j).push(p));
                assert(fl.skip(j + 1) =~= fl.skip(j).skip(1));
                assert(fl.take(j + 1).map_values(|q: PathMatch| FinderMatch::Search(q)) =~= fl.take(j).map_values(
                    |q: PathMatch| FinderMatch::Search(q),
                ).push(FinderMatch::Search(p)));
            }
            out.push(FinderMatch::Search(p));
        }
        assert(fl.take(out@.len() as int) =~= fl);
        out
    }
}

proof fn lemma_first_same_path_extends(ms: Seq<FinderMatch>, path: Seq<char>, i: int)
    requires
        0 <= i < ms.len(),
        first_same_path(ms.take(i), path) is None,
        path_order(path, match_path(ms[i])) == 0,
    ensures
        first_same_path(ms, path) == Some(i),
    decreases ms.len(),
{
    if i < ms.len() - 1 {
        assert(ms.drop_last().take(i) =~= ms.take(i));
        lemma_first_same_path_extends(ms.drop_last(), path, i);
        assert(ms.drop_last().take(i) =~= ms.take(i));
        assert(ms.drop_last()[i] == ms[i]);
    } else {
        assert(ms.drop_last() =~= ms.take(i));
    }
}

fn copy_path_match(pm: &PathMatch) -> (r: PathMatch)
    ensures
        panel_key(r) == panel_key(*pm),
        r.score == pm.score,
        r.worktree_id == pm.worktree_id,
        r.path == pm.path,
        r.distance_to_relative_ancestor == pm.distance_to_relative_ancestor,
{
    PathMatch {
        score: pm.score,
        worktree_id: pm.worktree_id,
        path: pm.path.clone(),
        path_prefix: pm.path_prefix.clone(),
        positions: pm.positions.clone(),
        is_dir: pm.is_dir,
        distance_to_relative_ancestor: pm.distance_to_relative_ancestor,
    }
}

fn copy_match(m: &FinderMatch) -> (r: FinderMatch)
    ensures
        match_key(r) == match_key(*m),
        (r is History) == (*m is History),
        r matches FinderMatch::History { path, panel_match } ==> (*m matches FinderMatch::History {
            path: p0,
            panel_match: q0,
        } && path == p0 && (panel_match is None) == (q0 is None)),
{
    match m {
        FinderMatch::History { path, panel_match } => FinderMatch::History {
            path: copy_found(path),
            panel_match: match panel_match {
                Some(pm) => Some(copy_path_match(pm)),
                None => None,
            },
        },
        FinderMatch::Search(pm) => FinderMatch::Search(copy_path_match(pm)),
    }
}

/// The query a raw query stands for: without spaces, trimmed.
pub open spec fn query_text(raw_query: Seq<char>) -> Seq<char> {
    crate::file_finder::trimmed(crate::file_finder::replaced(raw_query, " "@, ""@))
}

/// The selected index after new matches came in: the match selected before
/// keeps its selection where it went (the first when it is gone), unless the
/// query changed, and then the first selection is taken anew.
pub open spec fn selection_after(
    previous: Option<FinderMatch>,
    ms: Seq<FinderMatch>,
    separate_history: bool,
    opened: Option<FoundPath>,
) -> usize {
    match previous {
        None => crate::file_finder::first_selection(ms, opened),
        Some(m) => match position_of(ms, separate_history, opened, m) {
            Ok(i) => i,
            Err(_) => 0,
        },
    }
}

/// The state of the file finder's searches: the history, the file opened
/// now, the ranked matches and the selection, and what is known of the
/// latest search.
#[derive(Debug)]
pub struct FinderSearch {
    pub history_items: Vec<FoundPath>,
    pub currently_opened_path: Option<FoundPath>,
    pub matches: Matches,
    pub selected_index: usize,
    pub latest_search_id: usize,
    pub latest_search_did_cancel: bool,
    pub latest_search_query: Option<String>,
    pub search_count: usize,
    pub first_update: bool,
}

impl FinderSearch {
    /// Takes a raw query. A query that is empty once its spaces are removed
    /// and it is trimmed shows the history (`shown_history`, the history
    /// files that can be opened), when there was a query before or nothing
    /// was shown yet, and gives nothing; any other query is given back, to
    /// be searched for.
    pub fn update_matches(&mut self, raw_query: &str, shown_history: &Vec<FoundPath>) -> (r: Option<String>)
        requires
            old(self).search_count < usize::MAX,
        ensures
            query_text(raw_query@).len() > 0 ==> (r matches Some(q) && q@ == query_text(raw_query@) && *final(self)
                == *old(self)),
            query_text(raw_query@).len() == 0 ==> r is None,
            query_text(raw_query@).len() == 0 && (old(self).latest_search_query is Some || old(self).first_update)
                ==> {
                &&& final(self).latest_search_id == old(self).search_count
                &&& final(self).search_count == old(self).search_count + 1
                &&& final(self).latest_search_query is None
                &&& final(self).matches.separate_history == old(self).matches.separate_history
                &&& final(self).matches.matches@ == without_query(
                    shown_history@,
                    old(self).currently_opened_path,
                )
                &&& !final(self).first_update
                &&& final(self).selected_index == 0
                &&& final(self).history_items == old(self).history_items
                &&& final(self).currently_opened_path == old(self).currently_opened_path
                &&& final(self).latest_search_did_cancel == old(self).latest_search_did_cancel
            },
            query_text(raw_query@).len() == 0 && !(old(self).latest_search_query is Some || old(self).first_update)
                ==> *final(self) == *old(self),
    {
        let no_spaces = crate::file_finder::replace_all(raw_query, " ", "");
        let query = crate::file_finder::trim(no_spaces.as_str());
        proof {
            reveal_strlit(" ");
            reveal_strlit("");
        }
        if query.as_str().unicode_len() > 0 {
            return Some(query);
        }
        if self.latest_search_query.is_some() || self.first_update {
            self.latest_search_id = self.search_count;
            self.search_count = self.search_count + 1;
            self.latest_search_query = None;
            self.matches.matches = Vec::new();
            let opened = match &self.currently_opened_path {
                Some(o) => Some(copy_found(o)),
                None => None,
            };
            self.matches.push_new_matches(shown_history, opened.as_ref(), false, Vec::new(), Vec::new(), false);
            self.first_update = false;
            self.selected_index = 0;
        }
        None
    }

    /// A search starts: it gets the next search id.
    pub fn start_search(&mut self) -> (r: usize)
        requires
            old(self).search_count < usize::MAX,
        ensures
            r == old(self).search_count,
            final(self).search_count == old(self).search_count + 1,
            final(self).latest_search_id == old(self).latest_search_id,
            final(self).matches.matches == old(self).matches.matches,
    {
        let id = self.search_count;
        self.search_count = self.search_count + 1;
        id
    }

    /// Takes the matches of a search for `query` (the history matches and the
    /// search results), unless a later search already came in: they are
    /// merged in (extending the old search matches when the latest search was
    /// cancelled and the query did not change), and the selection follows
    /// the match selected before while the query stays the same.
    pub fn set_search_matches(
        &mut self,
        search_id: usize,
        did_cancel: bool,
        query: String,
        history_matches: Vec<FinderMatch>,
        results: Vec<PathMatch>,
    )
        ensures
            search_id < old(self).latest_search_id ==> *final(self) == *old(self),
            search_id >= old(self).latest_search_id ==> {
                let query_changed = !(old(self).latest_search_query matches Some(q) && q@ == query@);
                let extend = old(self).latest_search_did_cancel && !query_changed;
                let previous = if query_changed || old(self).selected_index >= old(self).matches.matches@.len() {
                    None
                } else {
                    Some(old(self).matches.matches@[old(self).selected_index as int])
                };
                let merged_matches = merged(
                    if extend {
                        old(self).matches.matches@.filter(|m: FinderMatch| m is Search)
                    } else {
                        Seq::empty()
                    },
                    history_matches@ + new_searches(results@, history_matches@),
                    old(self).matches.separate_history,
                    old(self).currently_opened_path,
                );
                &&& final(self).latest_search_id == search_id
                &&& final(self).matches.matches@ == merged_matches
                &&& final(self).matches.separate_history == old(self).matches.separate_history
                &&& final(self).selected_index == selection_after(
                    previous,
                    merged_matches,
                    old(self).matches.separate_history,
                    old(self).currently_opened_path,
                )
                &&& final(self).latest_search_query == Some(query)
                &&& final(self).latest_search_did_cancel == did_cancel
                &&& final(self).history_items == old(self).history_items
                &&& final(self).currently_opened_path == old(self).currently_opened_path
                &&& final(self).search_count == old(self).search_count
                &&& final(self).first_update == old(self).first_update
            },
    {
        if search_id < self.latest_search_id {
            return;
        }
        self.latest_search_id = search_id;
        let query_changed = match &self.latest_search_query {
            Some(q) => *q != query,
            None => true,
        };
        let extend_old_matches = self.latest_search_did_cancel && !query_changed;
        let selected_match = if query_changed {
            None
        } else {
            match self.matches.get(self.selected_index) {
                Some(m) => Some(copy_match(m)),
                None => None,
            }
        };
        let opened = match &self.currently_opened_path {
            Some(o) => Some(copy_found(o)),
            None => None,
        };
        self.matches.push_new_matches(
            &self.history_items,
            opened.as_ref(),
            true,
            history_matches,
            results,
            extend_old_matches,
        );
        self.selected_index = match selected_match {
            None => crate::file_finder::calculate_selected_index(&self.matches.matches, &opened),
            Some(m) => match self.matches.position(&m, opened.as_ref()) {
                Ok(i) => i,
                Err(_) => 0,
            },
        };
        self.latest_search_query = Some(query);
        self.latest_search_did_cancel = did_cancel;
    }
}

} // verus!
