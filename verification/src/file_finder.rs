//! The decisions of the file finder: which match is selected first, where
//! the history matches end, what a confirmed match opens and where the
//! cursor goes, and the labels a match is shown with.
use vstd::prelude::*;
use vstd::string::*;
use crate::dap_store::ProjectPath;
use crate::finder_matches::{compare_paths, path_order};

verus! {

/// A file the finder found: its project path and, when known, its absolute
/// path.
#[derive(Debug, PartialEq)]
pub struct FoundPath {
    pub project: ProjectPath,
    pub absolute: Option<String>,
}

/// Whether two found paths are the same, as `FoundPath`'s derived equality
/// compares them: the same worktree, and paths (and absolute paths, when
/// both have one) that `std::path::Path` holds equal, component by
/// component.
pub open spec fn same_found(a: FoundPath, b: FoundPath) -> bool {
    &&& a.project.worktree_id == b.project.worktree_id
    &&& path_order(a.project.path@, b.project.path@) == 0
    &&& match (a.absolute, b.absolute) {
        (None, None) => true,
        (Some(x), Some(y)) => path_order(x@, y@) == 0,
        _ => false,
    }
}

pub(crate) fn same_found_exec(a: &FoundPath, b: &FoundPath) -> (r: bool)
    ensures
        r == same_found(*a, *b),
{
    if a.project.worktree_id != b.project.worktree_id {
        return false;
    }
    if compare_paths(a.project.path.as_str(), b.project.path.as_str()) != 0 {
        return false;
    }
    match (&a.absolute, &b.absolute) {
        (None, None) => true,
        (Some(x), Some(y)) => compare_paths(x.as_str(), y.as_str()) == 0,
        _ => false,
    }
}

/// A path that matched the query: where it is, what it is shown after, and
/// the byte positions of the matched characters in the prefix and path.
#[derive(Debug, PartialEq)]
pub struct PathMatch {
    /// How well the path matched, as an integer that ranks as the fuzzy
    /// score does.
    pub score: u64,
    pub worktree_id: u64,
    pub path: String,
    pub path_prefix: String,
    pub positions: Vec<usize>,
    pub is_dir: bool,
    pub distance_to_relative_ancestor: usize,
}

/// A match of the finder: a recently opened file, or a search result.
#[derive(Debug, PartialEq)]
pub enum FinderMatch {
    History { path: FoundPath, panel_match: Option<PathMatch> },
    Search(PathMatch),
}

/// The index selected first: the second match when the first is the
/// currently opened file from the history and another match follows, else
/// the first.
pub open spec fn first_selection(matches: Seq<FinderMatch>, currently_opened: Option<FoundPath>) -> usize {
    if matches.len() > 1 && currently_opened is Some && (matches[0] matches FinderMatch::History { path, .. }
        && same_found(path, currently_opened->0)) {
        1
    } else {
        0
    }
}

/// Picks the index selected first.
pub fn calculate_selected_index(matches: &Vec<FinderMatch>, currently_opened: &Option<FoundPath>) -> (r: usize)
    ensures
        r == first_selection(matches@, *currently_opened),
{
    if matches.len() == 0 {
        return 0;
    }
    match (&matches[0], currently_opened) {
        (FinderMatch::History { path, .. }, Some(opened)) => {
            if same_found_exec(path, opened) && matches.len() - 1 > 0 {
                1
            } else {
                0
            }
        },
        _ => 0,
    }
}

/// Where a separator is drawn: after the last history match, when history
/// matches are shown apart and search matches follow them.
pub fn separators_after_indices(separate_history: bool, matches: &Vec<FinderMatch>) -> (r: Vec<usize>)
    ensures
        separate_history && (exists|i: int| 0 <= i < matches@.len() && !(matches@[i] is History)) ==> ({
            let i = choose|i: int| 0 <= i < matches@.len() && !(matches@[i] is History) && forall|j: int| 0 <= j < i ==> matches@[j] is History;
            if i > 0 {
                r@ == seq![(i - 1) as usize]
            } else {
                r@.len() == 0
            }
        }),
        !(separate_history && (exists|i: int| 0 <= i < matches@.len() && !(matches@[i] is History))) ==> r@.len() == 0,
{
    if separate_history {
        let mut i: usize = 0;
        while i < matches.len()
            invariant
                separate_history,
                i <= matches.len(),
                forall|j: int| 0 <= j < i ==> matches@[j] is History,
            decreases matches.len() - i,
        {
            if !matches!(matches[i], FinderMatch::History { .. }) {
                assert(!(matches@[i as int] is History));
                let ghost c = choose|k: int| 0 <= k < matches@.len() && !(matches@[k] is History) && forall|j: int| 0 <= j < k ==> matches@[j] is History;
                assert(c == i) by {
                    if c < i {
                        assert(matches@[c] is History);
                    }
                    if c > i {
                        assert(matches@[i as int] is History);
                    }
                }
                if i > 0 {
                    return vec![i - 1];
                } else {
                    return Vec::new();
                }
            }
            i += 1;
        }
    }
    Vec::new()
}

/// What confirming a match opens.
#[derive(Debug, PartialEq)]
pub enum OpenAction {
    /// A file of the project, split off the current pane or in it.
    ProjectPath { path: ProjectPath, split: bool },
    /// A file by its absolute path, split off the current pane or in it.
    AbsPath { path: String, split: bool },
}

fn copy_project_path(p: &ProjectPath) -> (r: ProjectPath)
    ensures
        r == *p,
{
    ProjectPath { worktree_id: p.worktree_id, path: p.path.clone() }
}

/// What confirming a match opens: a history file by its project path while
/// its worktree is open, else by its absolute path when known; a search
/// result by its project path. A secondary confirmation splits the pane.
pub fn open_action(m: &FinderMatch, has_worktree: bool, secondary: bool) -> (r: OpenAction)
    ensures
        match *m {
            FinderMatch::History { path, .. } => if !has_worktree && path.absolute is Some {
                r == OpenAction::AbsPath { path: path.absolute->0, split: secondary }
            } else {
                r == OpenAction::ProjectPath { path: path.project, split: secondary }
            },
            FinderMatch::Search(pm) => r == OpenAction::ProjectPath {
                path: ProjectPath { worktree_id: pm.worktree_id, path: pm.path },
                split: secondary,
            },
        },
{
    match m {
        FinderMatch::History { path, .. } => {
            if has_worktree {
                OpenAction::ProjectPath { path: copy_project_path(&path.project), split: secondary }
            } else {
                match &path.absolute {
                    Some(abs) => OpenAction::AbsPath { path: abs.clone(), split: secondary },
                    None => OpenAction::ProjectPath { path: copy_project_path(&path.project), split: secondary },
                }
            }
        },
        FinderMatch::Search(pm) => OpenAction::ProjectPath {
            path: ProjectPath { worktree_id: pm.worktree_id, path: pm.path.clone() },
            split: secondary,
        },
    }
}

impl FinderMatch {
    /// The path of the match within its worktree.
    pub fn path(&self) -> (r: &String)
        ensures
            *r == (match *self {
                FinderMatch::History { path, .. } => path.project.path,
                FinderMatch::Search(pm) => pm.path,
            }),
    {
        match self {
            FinderMatch::History { path, .. } => &path.project.path,
            FinderMatch::Search(pm) => &pm.path,
        }
    }

    /// The search result behind the match: a search match's own, or the one
    /// a history match was found again by.
    pub fn panel_match(&self) -> (r: Option<&PathMatch>)
        ensures
            r == (match *self {
                FinderMatch::History { panel_match, .. } => match panel_match {
                    Some(pm) => Some(&pm),
                    None => None,
                },
                FinderMatch::Search(pm) => Some(&pm),
            }),
    {
        match self {
            FinderMatch::History { panel_match, .. } => match panel_match {
                Some(pm) => Some(pm),
                None => None,
            },
            FinderMatch::Search(pm) => Some(pm),
        }
    }
}

/// The file a match is opened in when the pane is split: its project path,
/// whether its worktree is open or not.
pub fn split_path(m: &FinderMatch) -> (r: ProjectPath)
    ensures
        r == (match *m {
            FinderMatch::History { path, .. } => path.project,
            FinderMatch::Search(pm) => ProjectPath { worktree_id: pm.worktree_id, path: pm.path },
        }),
{
    match m {
        FinderMatch::History { path, .. } => copy_project_path(&path.project),
        FinderMatch::Search(pm) => ProjectPath { worktree_id: pm.worktree_id, path: pm.path.clone() },
    }
}

/// What becomes of a file of the navigation history when the finder opens.
#[derive(Clone, Copy, Debug, PartialEq, Eq, Structural)]
pub enum HistoryCheck {
    /// It is offered.
    Keep,
    /// It is offered if its absolute path is a file on disk.
    KeepIfFile,
    /// It is left out.
    Drop,
}

/// What becomes of a history file: one the project has an entry for is
/// offered; else one without an absolute path is left out; else, in a local
/// project, it is offered if that path is a file, and in a remote one it is
/// offered.
pub fn history_check(has_entry: bool, has_absolute: bool, is_local: bool) -> (r: HistoryCheck)
    ensures
        r == (if has_entry {
            HistoryCheck::Keep
        } else if !has_absolute {
            HistoryCheck::Drop
        } else if is_local {
            HistoryCheck::KeepIfFile
        } else {
            HistoryCheck::Keep
        }),
{
    if has_entry {
        HistoryCheck::Keep
    } else if !has_absolute {
        HistoryCheck::Drop
    } else if is_local {
        HistoryCheck::KeepIfFile
    } else {
        HistoryCheck::Keep
    }
}

/// Where the cursor goes in the opened file: the query's one-based row and
/// column made zero-based (column zero when missing), when it gives a row.
pub fn cursor_position(row: Option<u32>, column: Option<u32>) -> (r: Option<(u32, u32)>)
    ensures
        r == (match row {
            Some(rw) => Some((
                (if rw == 0 {
                    0
                } else {
                    rw - 1
                }) as u32,
                (match column {
                    Some(c) => if c == 0 {
                        0
                    } else {
                        c - 1
                    },
                    None => 0,
                }) as u32,
            )),
            None => None,
        }),
{
    match row {
        Some(rw) => {
            let col = match column {
                Some(c) => c.saturating_sub(1),
                None => 0,
            };
            Some((rw.saturating_sub(1), col))
        },
        None => None,
    }
}

/// Whether a history file is offered with an empty query: while its
/// worktree is open, or when it has an absolute path in a local or ssh
/// project.
pub fn history_item_shown(has_worktree: bool, local_or_ssh: bool, has_absolute: bool) -> (r: bool)
    ensures
        r == (has_worktree || (local_or_ssh && has_absolute)),
{
    has_worktree || (local_or_ssh && has_absolute)
}

/// What the finder does with the results of a search.
#[derive(Clone, Copy, Debug, PartialEq, Eq, Structural)]
pub struct SearchUpdate {
    /// Whether the results are taken: they are unless a later search already
    /// was.
    pub apply: bool,
    /// Whether the old search matches are kept and extended: when the last
    /// search was cancelled and the query did not change.
    pub extend_old_matches: bool,
    /// Whether the selected match stays selected: when the query did not
    /// change.
    pub keep_selection: bool,
}

pub fn search_update(
    search_id: usize,
    latest_search_id: usize,
    latest_search_did_cancel: bool,
    query_changed: bool,
) -> (r: SearchUpdate)
    ensures
        r == (SearchUpdate {
            apply: search_id >= latest_search_id,
            extend_old_matches: latest_search_did_cancel && !query_changed,
            keep_selection: !query_changed,
        }),
{
    SearchUpdate {
        apply: search_id >= latest_search_id,
        extend_old_matches: latest_search_did_cancel && !query_changed,
        keep_selection: !query_changed,
    }
}


/// The length in bytes of a text, as Rust reports it.
pub open spec fn byte_len(s: Seq<char>) -> usize {
    vstd::utf8::encode_utf8(s).len() as usize
}

fn byte_len_exec(s: &String) -> (r: usize)
    ensures
        r == byte_len(s@),
{
    s.as_str().len()
}

/// What `std::path::Path::file_name` gives for a path text: its final
/// component, unless the path ends in `..` or has none.
pub uninterp spec fn file_name_of(path: Seq<char>) -> Option<Seq<char>>;

/// Calls `std::path::Path::file_name` on a path text and takes the name as
/// text; the result is a function of the path alone.
#[verifier::external_body]
fn path_file_name(path: &str) -> (r: Option<String>)
    ensures
        match r {
            Some(n) => file_name_of(path@) == Some(n@),
            None => file_name_of(path@) is None,
        },
{
    match std::path::Path::new(path).file_name() {
        Some(name) => Some(name.to_string_lossy().to_string()),
        None => None,
    }
}

/// What `str::replace` gives: every occurrence of `from` in `s`, found from
/// the left without overlapping, replaced by `to`; an empty `from` occurs
/// before every character and at the end.
pub open spec fn replaced(s: Seq<char>, from: Seq<char>, to: Seq<char>) -> Seq<char>
    decreases s.len(),
{
    if from.len() == 0 {
        if s.len() == 0 {
            to
        } else {
            to + seq![s[0]] + replaced(s.drop_first(), from, to)
        }
    } else if s.len() == 0 {
        Seq::empty()
    } else if from.is_prefix_of(s) {
        to + replaced(s.skip(from.len() as int), from, to)
    } else {
        seq![s[0]] + replaced(s.drop_first(), from, to)
    }
}

fn starts_at(s: &str, start: usize, n: usize, pat: &str, m: usize) -> (r: bool)
    requires
        n == s@.len(),
        m == pat@.len(),
        start <= n,
    ensures
        r == pat@.is_prefix_of(s@.skip(start as int)),
{
    if m > n - start {
        return false;
    }
    let mut k: usize = 0;
    while k < m
        invariant
            k <= m,
            m == pat@.len(),
            n == s@.len(),
            start + m <= n,
            forall|j: int| 0 <= j < k ==> s@[start + j] == pat@[j],
        decreases m - k,
    {
        if s.get_char(start + k) != pat.get_char(k) {
            assert(s@.skip(start as int)[k as int] != pat@[k as int]);
            return false;
        }
        k += 1;
    }
    assert(pat@ =~= s@.skip(start as int).take(m as int));
    true
}

/// Replaces every occurrence of `from` in `s` by `to`, as `str::replace`
/// does.
pub(crate) fn replace_all(s: &str, from: &str, to: &str) -> (r: String)
    ensures
        r@ == replaced(s@, from@, to@),
{
    let n = s.unicode_len();
    let m = from.unicode_len();
    let mut out = String::new();
    let mut i: usize = 0;
    assert(s@.skip(0) =~= s@);
    while i < n
        invariant
            i <= n,
            n == s@.len(),
            m == from@.len(),
            out@ + replaced(s@.skip(i as int), from@, to@) == replaced(s@, from@, to@),
        decreases n - i,
    {
        let ghost rest = s@.skip(i as int);
        assert(rest[0] == s@[i as int]);
        assert(rest.drop_first() =~= s@.skip(i as int + 1));
        if m == 0 {
            out.append(to);
            out.append(s.substring_char(i, i + 1));
            assert(out@ + replaced(s@.skip(i as int + 1), from@, to@) =~= replaced(s@, from@, to@));
            i += 1;
        } else if starts_at(s, i, n, from, m) {
            out.append(to);
            assert(rest.skip(m as int) =~= s@.skip(i as int + m as int));
            assert(out@ + replaced(s@.skip(i as int + m as int), from@, to@) =~= replaced(s@, from@, to@));
            i += m;
        } else {
            out.append(s.substring_char(i, i + 1));
            assert(out@ + replaced(s@.skip(i as int + 1), from@, to@) =~= replaced(s@, from@, to@));
            i += 1;
        }
    }
    if m == 0 {
        out.append(to);
    }
    assert(out@ =~= replaced(s@, from@, to@));
    out
}

/// What `str::trim` gives: the text without leading and trailing white
/// space.
pub open spec fn trimmed(s: Seq<char>) -> Seq<char> {
    crate::text::without_leading_space(crate::text::without_trailing_space(s))
}

/// The text without leading and trailing white space, as `str::trim` gives
/// it.
pub(crate) fn trim(s: &str) -> (r: String)
    ensures
        r@ == trimmed(s@),
{
    let end = crate::text::trailing_space_start(s);
    let start = crate::text::leading_space_end(s, end);
    String::from_str(s.substring_char(start, end))
}

/// `s` without every trailing repetition of `pat`; an empty pattern removes
/// nothing.
pub open spec fn trim_end_matches(s: Seq<char>, pat: Seq<char>) -> Seq<char>
    decreases s.len(),
{
    if pat.len() == 0 || pat.len() > s.len() || s.subrange(s.len() - pat.len(), s.len() as int) != pat {
        s
    } else {
        trim_end_matches(s.subrange(0, s.len() - pat.len()), pat)
    }
}

fn ends_with_at(s: &str, end: usize, pat: &str, pat_len: usize) -> (r: bool)
    requires
        end <= s@.len(),
        pat_len == pat@.len(),
        pat_len <= end,
    ensures
        r == (s@.subrange(end - pat_len, end as int) == pat@),
{
    let mut k: usize = 0;
    while k < pat_len
        invariant
            k <= pat_len,
            pat_len == pat@.len(),
            pat_len <= end <= s@.len(),
            forall|j: int| 0 <= j < k ==> s@[end - pat_len + j] == pat@[j],
        decreases pat_len - k,
    {
        if s.get_char(end - pat_len + k) != pat.get_char(k) {
            assert(s@.subrange(end - pat_len, end as int)[k as int] != pat@[k as int]);
            return false;
        }
        k += 1;
    }
    assert(s@.subrange(end - pat_len, end as int) =~= pat@);
    true
}

/// Removes every trailing repetition of `pat` from `s`.
pub fn trim_end_matches_exec(s: &str, pat: &str) -> (r: String)
    ensures
        r@ == trim_end_matches(s@, pat@),
{
    let n = s.unicode_len();
    let m = pat.unicode_len();
    let mut end = n;
    assert(s@.subrange(0, n as int) =~= s@);
    while m > 0 && m <= end && ends_with_at(s, end, pat, m)
        invariant
            end <= n,
            n == s@.len(),
            m == pat@.len(),
            trim_end_matches(s@.subrange(0, end as int), pat@) == trim_end_matches(s@, pat@),
        decreases end,
    {
        let ghost t = s@.subrange(0, end as int);
        assert(t.subrange(t.len() - m, t.len() as int) =~= s@.subrange(end - m, end as int));
        assert(t.subrange(0, t.len() - m) =~= s@.subrange(0, end - m));
        end = end - m;
    }
    let ghost t = s@.subrange(0, end as int);
    proof {
        if m > 0 && m <= end {
            assert(t.subrange(t.len() - m, t.len() as int) =~= s@.subrange(end - m, end as int));
        }
    }
    assert(s@.subrange(0, n as int) =~= s@);
    String::from_str(s.substring_char(0, end))
}

/// The positions at or after `start`, moved back by `start`, in order.
pub open spec fn shifted(ps: Seq<usize>, start: usize) -> Seq<usize>
    decreases ps.len(),
{
    if ps.len() == 0 {
        ps
    } else if ps.last() >= start {
        shifted(ps.drop_last(), start).push((ps.last() - start) as usize)
    } else {
        shifted(ps.drop_last(), start)
    }
}

/// The positions before `bound`, in order.
pub open spec fn below(ps: Seq<usize>, bound: usize) -> Seq<usize>
    decreases ps.len(),
{
    if ps.len() == 0 {
        ps
    } else if ps.last() < bound {
        below(ps.drop_last(), bound).push(ps.last())
    } else {
        below(ps.drop_last(), bound)
    }
}

fn shifted_exec(ps: &Vec<usize>, start: usize) -> (r: Vec<usize>)
    ensures
        r@ == shifted(ps@, start),
{
    let mut out: Vec<usize> = Vec::new();
    let mut i: usize = 0;
    while i < ps.len()
        invariant
            i <= ps.len(),
            out@ == shifted(ps@.take(i as int), start),
        decreases ps.len() - i,
    {
        assert(ps@.take(i as int + 1).drop_last() =~= ps@.take(i as int));
        assert(ps@.take(i as int + 1).last() == ps@[i as int]);
        if ps[i] >= start {
            out.push(ps[i] - start);
        }
        i += 1;
    }
    assert(ps@.take(ps.len() as int) =~= ps@);
    out
}

fn below_exec(ps: &Vec<usize>, bound: usize) -> (r: Vec<usize>)
    ensures
        r@ == below(ps@, bound),
{
    let mut out: Vec<usize> = Vec::new();
    let mut i: usize = 0;
    while i < ps.len()
        invariant
            i <= ps.len(),
            out@ == below(ps@.take(i as int), bound),
        decreases ps.len() - i,
    {
        assert(ps@.take(i as int + 1).drop_last() =~= ps@.take(i as int));
        assert(ps@.take(i as int + 1).last() == ps@[i as int]);
        if ps[i] < bound {
            out.push(ps[i]);
        }
        i += 1;
    }
    assert(ps@.take(ps.len() as int) =~= ps@);
    out
}

/// The labels a match is shown with: its file name with the matched
/// positions in it, and the path before the file name with the matched
/// positions there.
#[derive(Debug, PartialEq)]
pub struct Labels {
    pub file_name: String,
    pub file_name_positions: Vec<usize>,
    pub full_path: String,
    pub full_path_positions: Vec<usize>,
}

/// The file name shown for a path: the path's file name, or the prefix when
/// the path has none.
pub open spec fn label_name(prefix: Seq<char>, path: Seq<char>) -> Seq<char> {
    match file_name_of(path) {
        Some(n) => n,
        None => prefix,
    }
}

/// Where the file name starts in the prefix and path, in bytes (the byte
/// counts taken as Rust's saturating arithmetic takes them).
pub open spec fn name_start(prefix: Seq<char>, path: Seq<char>) -> usize {
    let sum = byte_len(prefix) + byte_len(path);
    let total = if sum > usize::MAX {
        usize::MAX as int
    } else {
        sum
    };
    if total >= byte_len(label_name(prefix, path)) {
        (total - byte_len(label_name(prefix, path))) as usize
    } else {
        0
    }
}

/// The path shown before the file name: the prefix and path without the
/// trailing file name.
pub open spec fn label_dir(prefix: Seq<char>, path: Seq<char>) -> Seq<char> {
    trim_end_matches(prefix + path, label_name(prefix, path))
}

/// Whether labels are those of a path match given by its prefix, path and
/// positions.
pub open spec fn labels_of(l: Labels, prefix: Seq<char>, path: Seq<char>, positions: Seq<usize>) -> bool {
    &&& l.file_name@ == label_name(prefix, path)
    &&& l.file_name_positions@ == shifted(positions, name_start(prefix, path))
    &&& l.full_path@ == label_dir(prefix, path)
    &&& l.full_path_positions@ == below(positions, byte_len(label_dir(prefix, path)))
}

/// The labels of a path match.
pub fn labels_for_path_match(prefix: &String, path: &String, positions: &Vec<usize>) -> (r: Labels)
    ensures
        labels_of(r, prefix@, path@, positions@),
{
    let mut full_path = prefix.clone();
    full_path.append(path.as_str());
    let file_name = match path_file_name(path.as_str()) {
        Some(name) => name,
        None => prefix.clone(),
    };
    let total = byte_len_exec(prefix).saturating_add(byte_len_exec(path));
    let start = total.saturating_sub(byte_len_exec(&file_name));
    let file_name_positions = shifted_exec(positions, start);
    let full_path = trim_end_matches_exec(full_path.as_str(), file_name.as_str());
    let full_path_positions = below_exec(positions, byte_len_exec(&full_path));
    Labels { file_name, file_name_positions, full_path, full_path_positions }
}

/// The labels of a history file outside any open worktree: its absolute
/// path's file name (the project path when it has none) and the absolute
/// path, without positions.
pub open spec fn absolute_labels(l: Labels, project_path: Seq<char>, absolute: Seq<char>) -> bool {
    &&& l.file_name@ == (match file_name_of(absolute) {
        Some(n) => n,
        None => project_path,
    })
    &&& l.file_name_positions@.len() == 0
    &&& l.full_path@ == absolute
    &&& l.full_path_positions@.len() == 0
}

/// The home directory as a prefix to shorten: the trimmed home path, when
/// it is not empty.
pub open spec fn home_prefix(home: Option<String>) -> Option<Seq<char>> {
    match home {
        Some(h) => if trimmed(h@).len() > 0 {
            Some(trimmed(h@))
        } else {
            None
        },
        None => None,
    }
}

/// The labels with the home directory shortened to `~` in the path, when
/// no position falls in the file name and the path starts with the home
/// directory.
pub open spec fn with_home(l: Labels, home: Option<String>, out: Labels) -> bool {
    if l.file_name_positions@.len() == 0 && home_prefix(home) is Some && home_prefix(home)->0.is_prefix_of(
        l.full_path@,
    ) {
        &&& out.file_name == l.file_name
        &&& out.file_name_positions == l.file_name_positions
        &&& out.full_path@ == replaced(l.full_path@, home_prefix(home)->0, "~"@)
        &&& out.full_path_positions == l.full_path_positions
    } else {
        out == l
    }
}

pub(crate) fn starts_with(s: &String, prefix: &String) -> (r: bool)
    ensures
        r == prefix@.is_prefix_of(s@),
{
    let n = s.as_str().unicode_len();
    let m = prefix.as_str().unicode_len();
    if m > n {
        return false;
    }
    let mut k: usize = 0;
    while k < m
        invariant
            k <= m <= n,
            n == s@.len(),
            m == prefix@.len(),
            forall|j: int| 0 <= j < k ==> s@[j] == prefix@[j],
        decreases m - k,
    {
        if s.as_str().get_char(k) != prefix.as_str().get_char(k) {
            return false;
        }
        k += 1;
    }
    true
}

/// The labels a match of the finder is shown with. A history file outside
/// any open worktree is shown by its absolute path when it has one; other
/// history files by their project path (the absolute path for a worktree
/// root), with the positions of their match, if any; search results by
/// their own match. The home directory is shortened to `~` as `with_home`
/// says.
pub fn labels_for_match(m: &FinderMatch, has_worktree: bool, home: Option<String>) -> (r: Labels)
    ensures
        match *m {
            FinderMatch::History { path, panel_match } => if !has_worktree && path.absolute is Some {
                absolute_labels(r, path.project.path@, path.absolute->0@)
            } else {
                exists|l: Labels|
                    #![trigger with_home(l, home, r)]
                    labels_of(
                        l,
                        Seq::empty(),
                        if path.project.path@.len() == 0 && path.absolute is Some {
                            path.absolute->0@
                        } else {
                            path.project.path@
                        },
                        match panel_match {
                            Some(pm) => pm.positions@,
                            None => Seq::empty(),
                        },
                    ) && with_home(l, home, r)
            },
            FinderMatch::Search(pm) => exists|l: Labels|
                #![trigger with_home(l, home, r)]
                labels_of(l, pm.path_prefix@, pm.path@, pm.positions@) && with_home(l, home, r),
        },
{
    let labels = match m {
        FinderMatch::History { path: entry_path, panel_match } => {
            if !has_worktree {
                if let Some(absolute) = &entry_path.absolute {
                    let file_name = match path_file_name(absolute.as_str()) {
                        Some(name) => name,
                        None => entry_path.project.path.clone(),
                    };
                    return Labels {
                        file_name,
                        file_name_positions: Vec::new(),
                        full_path: absolute.clone(),
                        full_path_positions: Vec::new(),
                    };
                }
            }
            let mut path = entry_path.project.path.clone();
            if entry_path.project.path.as_str().unicode_len() == 0 {
                if let Some(absolute) = &entry_path.absolute {
                    path = absolute.clone();
                }
            }
            let positions = match panel_match {
                Some(pm) => pm.positions.clone(),
                None => Vec::new(),
            };
            let empty = String::new();
            proof {
                assert(empty@ =~= Seq::<char>::empty());
            }
            labels_for_path_match(&empty, &path, &positions)
        },
        FinderMatch::Search(pm) => labels_for_path_match(&pm.path_prefix, &pm.path, &pm.positions),
    };
    let ghost l = labels;
    let out = shorten_home(labels, home);
    assert(with_home(l, home, out));
    out
}

fn shorten_home(labels: Labels, home: Option<String>) -> (r: Labels)
    ensures
        with_home(labels, home, r),
{
    if labels.file_name_positions.len() == 0 {
        if let Some(h) = &home {
            let h = trim(h.as_str());
            if h.as_str().unicode_len() > 0 && starts_with(&labels.full_path, &h) {
                let full_path = replace_all(labels.full_path.as_str(), h.as_str(), "~");
                return Labels {
                    file_name: labels.file_name,
                    file_name_positions: labels.file_name_positions,
                    full_path,
                    full_path_positions: labels.full_path_positions,
                };
            }
        }
    }
    labels
}

/// The history files a query is matched against: the history and then the
/// file opened now, each that has a file name.
pub open spec fn history_pool(history: Seq<FoundPath>, opened: Option<FoundPath>) -> Seq<FoundPath> {
    let all = match opened {
        Some(o) => history.push(o),
        None => history,
    };
    all.filter(|f: FoundPath| file_name_of(f.project.path@) is Some)
}

/// The first group of a worktree.
pub open spec fn group_index(groups: Seq<(u64, Seq<FoundPath>)>, worktree_id: u64) -> Option<int>
    decreases groups.len(),
{
    if groups.len() == 0 {
        None
    } else {
        match group_index(groups.drop_last(), worktree_id) {
            Some(i) => Some(i),
            None => if groups.last().0 == worktree_id {
                Some(groups.len() - 1)
            } else {
                None
            },
        }
    }
}

/// The files grouped by worktree, the worktrees in the order they first
/// occur and each group's files in order.
pub open spec fn grouped(pool: Seq<FoundPath>) -> Seq<(u64, Seq<FoundPath>)>
    decreases pool.len(),
{
    if pool.len() == 0 {
        Seq::empty()
    } else {
        let groups = grouped(pool.drop_last());
        let f = pool.last();
        match group_index(groups, f.project.worktree_id) {
            Some(i) => groups.update(i, (groups[i].0, groups[i].1.push(f))),
            None => groups.push((f.project.worktree_id, seq![f])),
        }
    }
}

/// The history files of one worktree that a query is matched against, and
/// how many results to ask for.
#[derive(Debug, PartialEq)]
pub struct HistoryCandidates {
    pub worktree_id: u64,
    pub paths: Vec<FoundPath>,
    pub max_results: usize,
}

fn find_group(groups: &Vec<HistoryCandidates>, worktree_id: u64) -> (r: Option<usize>)
    ensures
        match r {
            Some(i) => group_index(groups@.map_values(|g: HistoryCandidates| (g.worktree_id, g.paths@)), worktree_id)
                == Some(i as int) && i < groups@.len() && groups@[i as int].worktree_id == worktree_id,
            None => group_index(groups@.map_values(|g: HistoryCandidates| (g.worktree_id, g.paths@)), worktree_id) is None,
        },
{
    let ghost gv = groups@.map_values(|g: HistoryCandidates| (g.worktree_id, g.paths@));
    let mut i: usize = 0;
    while i < groups.len()
        invariant
            i <= groups.len(),
            gv == groups@.map_values(|g: HistoryCandidates| (g.worktree_id, g.paths@)),
            group_index(gv.take(i as int), worktree_id) is None,
        decreases groups.len() - i,
    {
        assert(gv.take(i as int + 1).drop_last() =~= gv.take(i as int));
        if groups[i].worktree_id == worktree_id {
            proof {
                lemma_group_index_found(gv, worktree_id, i as int);
            }
            return Some(i);
        }
        i += 1;
    }
    assert(gv.take(i as int) =~= gv);
    None
}

proof fn lemma_group_index_found(gs: Seq<(u64, Seq<FoundPath>)>, worktree_id: u64, i: int)
    requires
        0 <= i < gs.len(),
        group_index(gs.take(i), worktree_id) is None,
        gs[i].0 == worktree_id,
    ensures
        group_index(gs, worktree_id) == Some(i),
    decreases gs.len(),
{
    if i < gs.len() - 1 {
        assert(gs.drop_last().take(i) =~= gs.take(i));
        lemma_group_index_found(gs.drop_last(), worktree_id, i);
    } else {
        assert(gs.drop_last() =~= gs.take(i));
    }
}

fn copy_found_path(f: &FoundPath) -> (r: FoundPath)
    ensures
        r == *f,
{
    FoundPath {
        project: ProjectPath { worktree_id: f.project.worktree_id, path: f.project.path.clone() },
        absolute: crate::dap::clone_opt_string(&f.absolute),
    }
}

/// The history files a query is matched against, by worktree: the history
/// and then the file opened now, each that has a file name; a worktree asks
/// for one result more than it has files.
pub fn history_candidates(history: &Vec<FoundPath>, currently_opened: Option<&FoundPath>) -> (r: Vec<HistoryCandidates>)
    requires
        history@.len() + 2 <= usize::MAX,
    ensures
        r@.map_values(|g: HistoryCandidates| (g.worktree_id, g.paths@)) == grouped(
            history_pool(history@, match currently_opened {
                Some(o) => Some(*o),
                None => None,
            }),
        ),
        forall|i: int| 0 <= i < r@.len() ==> #[trigger] r@[i].max_results == r@[i].paths@.len() + 1,
{
    let ghost opened = match currently_opened {
        Some(o) => Some(*o),
        None => None,
    };
    let ghost all = match opened {
        Some(o) => history@.push(o),
        None => history@,
    };
    let ghost pred = |f: FoundPath| file_name_of(f.project.path@) is Some;
    let mut all_paths: Vec<FoundPath> = Vec::new();
    let mut i: usize = 0;
    while i < history.len()
        invariant
            i <= history.len(),
            all_paths@ == history@.take(i as int),
        decreases history.len() - i,
    {
        all_paths.push(copy_found_path(&history[i]));
        assert(all_paths@ =~= history@.take(i as int + 1));
        i += 1;
    }
    match currently_opened {
        Some(o) => all_paths.push(copy_found_path(o)),
        None => {},
    }
    assert(all_paths@ =~= all);
    let mut groups: Vec<HistoryCandidates> = Vec::new();
    let mut k: usize = 0;
    assert(all.take(0).filter(pred) =~= Seq::<FoundPath>::empty()) by {
        reveal(Seq::filter);
    }
    while k < all_paths.len()
        invariant
            k <= all_paths.len(),
            all_paths@ == all,
            all.len() <= history@.len() + 1,
            history@.len() + 2 <= usize::MAX,
            pred == (|f: FoundPath| file_name_of(f.project.path@) is Some),
            groups@.map_values(|g: HistoryCandidates| (g.worktree_id, g.paths@)) == grouped(all.take(k as int).filter(pred)),
            forall|j: int| 0 <= j < groups@.len() ==> #[trigger] groups@[j].paths@.len() <= k,
            forall|j: int| 0 <= j < groups@.len() ==> #[trigger] groups@[j].max_results == groups@[j].paths@.len() + 1,
        decreases all_paths.len() - k,
    {
        let f = &all_paths[k];
        let ghost before = all.take(k as int).filter(pred);
        proof {
            assert(all.take(k as int + 1) =~= all.take(k as int).push(*f));
            all.take(k as int).lemma_filter_push(*f, pred);
        }
        let ghost gv0 = groups@.map_values(|g: HistoryCandidates| (g.worktree_id, g.paths@));
        let ghost g0 = groups@;
        if path_file_name(f.project.path.as_str()).is_some() {
            assert(before.push(*f).drop_last() =~= before);
            assert(before.push(*f).last() == *f);
            match find_group(&groups, f.project.worktree_id) {
                Some(gi) => {
                    let mut g = groups.remove(gi);
                    assert(g == g0[gi as int]);
                    assert(g.paths@.len() <= k);
                    g.paths.push(copy_found_path(f));
                    g.max_results = g.paths.len() + 1;
                    groups.insert(gi, g);
                    proof {
                        assert(groups@ =~= g0.update(gi as int, g));
                        let gv = groups@.map_values(|h: HistoryCandidates| (h.worktree_id, h.paths@));
                        assert(gv0[gi as int] == (g0[gi as int].worktree_id, g0[gi as int].paths@));
                        assert(gv =~= gv0.update(gi as int, (gv0[gi as int].0, gv0[gi as int].1.push(*f))));
                        assert(gv0 == grouped(before));
                        assert(group_index(gv0, f.project.worktree_id) == Some(gi as int));
                        assert(grouped(before.push(*f)) == gv);
                        assert(all.take(k as int + 1).filter(pred) == before.push(*f));
                        assert forall|j: int| 0 <= j < groups@.len() implies #[trigger] groups@[j].paths@.len() <= k + 1 by {
                            if j != gi {
                                assert(groups@[j] == g0[j]);
                            }
                        }
                        assert forall|j: int| 0 <= j < groups@.len() implies #[trigger] groups@[j].max_results
                            == groups@[j].paths@.len() + 1 by {
                            if j != gi {
                                assert(groups@[j] == g0[j]);
                            }
                        }
                    }
                },
                None => {
                    let first = copy_found_path(f);
                    let paths = vec![first];
                    assert(paths@ =~= seq![*f]);
                    groups.push(HistoryCandidates { worktree_id: f.project.worktree_id, paths, max_results: 2 });
                    proof {
                        let gv = groups@.map_values(|h: HistoryCandidates| (h.worktree_id, h.paths@));
                        assert(gv =~= gv0.push((f.project.worktree_id, seq![*f])));
                        assert(gv0 == grouped(before));
                        assert(group_index(gv0, f.project.worktree_id) is None);
                        assert(grouped(before.push(*f)) == gv);
                        assert(all.take(k as int + 1).filter(pred) == before.push(*f));
                        assert forall|j: int| 0 <= j < groups@.len() implies #[trigger] groups@[j].paths@.len() <= k + 1 by {
                            if j < g0.len() {
                                assert(groups@[j] == g0[j]);
                            }
                        }
                        assert forall|j: int| 0 <= j < groups@.len() implies #[trigger] groups@[j].max_results
                            == groups@[j].paths@.len() + 1 by {
                            if j < g0.len() {
                                assert(groups@[j] == g0[j]);
                            }
                        }
                    }
                },
            }
        }
        k += 1;
    }
    assert(all.take(k as int) =~= all);
    groups
}

/// The last file of the pool with the given worktree and path.
pub open spec fn last_with_key(pool: Seq<FoundPath>, worktree_id: u64, path: Seq<char>) -> Option<FoundPath>
    decreases pool.len(),
{
    if pool.len() == 0 {
        None
    } else if pool.last().project.worktree_id == worktree_id && pool.last().project.path@ == path {
        Some(pool.last())
    } else {
        last_with_key(pool.drop_last(), worktree_id, path)
    }
}

/// The first match about `path`.
pub open spec fn first_path_index(out: Seq<FinderMatch>, path: Seq<char>) -> Option<int>
    decreases out.len(),
{
    if out.len() == 0 {
        None
    } else {
        match first_path_index(out.drop_last(), path) {
            Some(i) => Some(i),
            None => if finder_path(out.last()) == path {
                Some(out.len() - 1)
            } else {
                None
            },
        }
    }
}

/// The matches after adding `m`: it replaces the match about the same path,
/// or comes last.
pub open spec fn put_by_path(out: Seq<FinderMatch>, m: FinderMatch) -> Seq<FinderMatch> {
    match first_path_index(out, finder_path(m)) {
        Some(i) => out.update(i, m),
        None => out.push(m),
    }
}

/// The path a match is about.
pub open spec fn finder_path(m: FinderMatch) -> Seq<char> {
    match m {
        FinderMatch::History { path, .. } => path.project.path@,
        FinderMatch::Search(pm) => pm.path@,
    }
}

/// The history matches of the results of matching the pool, and the keys
/// already taken: each result takes the last pool file of its worktree and
/// path, once; history matches about the same path replace one another.
pub open spec fn history_matches_state(pool: Seq<FoundPath>, results: Seq<PathMatch>) -> (Set<(u64, Seq<char>)>, Seq<FinderMatch>)
    decreases results.len(),
{
    if results.len() == 0 {
        (Set::empty(), Seq::empty())
    } else {
        let (used, out) = history_matches_state(pool, results.drop_last());
        let r = results.last();
        let key = (r.worktree_id, r.path@);
        if used.contains(key) {
            (used, out)
        } else {
            match last_with_key(pool, r.worktree_id, r.path@) {
                None => (used, out),
                Some(f) => (used.insert(key), put_by_path(out, FinderMatch::History { path: f, panel_match: Some(r) })),
            }
        }
    }
}

proof fn lemma_last_with_key(pool: Seq<FoundPath>, worktree_id: u64, path: Seq<char>)
    ensures
        last_with_key(pool, worktree_id, path) matches Some(f) ==> f.project.worktree_id == worktree_id
            && f.project.path@ == path,
    decreases pool.len(),
{
    if pool.len() > 0 {
        lemma_last_with_key(pool.drop_last(), worktree_id, path);
    }
}

/// The keys taken, as values.
pub open spec fn key_set(used: Seq<(u64, String)>) -> Set<(u64, Seq<char>)> {
    used.map_values(|k: (u64, String)| (k.0, k.1@)).to_set()
}

fn key_taken(used: &Vec<(u64, String)>, worktree_id: u64, path: &String) -> (r: bool)
    ensures
        r == key_set(used@).contains((worktree_id, path@)),
{
    let ghost kv = used@.map_values(|k: (u64, String)| (k.0, k.1@));
    let mut i: usize = 0;
    while i < used.len()
        invariant
            i <= used.len(),
            kv == used@.map_values(|k: (u64, String)| (k.0, k.1@)),
            forall|j: int| 0 <= j < i ==> kv[j] != (worktree_id, path@),
        decreases used.len() - i,
    {
        if used[i].0 == worktree_id && used[i].1 == *path {
            assert(kv[i as int] == (worktree_id, path@));
            return true;
        }
        i += 1;
    }
    assert(forall|j: int| 0 <= j < kv.len() ==> #[trigger] kv[j] != (worktree_id, path@));
    false
}

fn find_last_with_key(pool: &Vec<FoundPath>, worktree_id: u64, path: &String) -> (r: Option<FoundPath>)
    ensures
        r == last_with_key(pool@, worktree_id, path@),
{
    let mut n: usize = pool.len();
    assert(pool@.take(n as int) =~= pool@);
    while n > 0
        invariant
            n <= pool.len(),
            last_with_key(pool@, worktree_id, path@) == last_with_key(pool@.take(n as int), worktree_id, path@),
        decreases n,
    {
        let f = &pool[n - 1];
        assert(pool@.take(n as int).last() == *f);
        assert(pool@.take(n as int).drop_last() =~= pool@.take(n as int - 1));
        if f.project.worktree_id == worktree_id && f.project.path == *path {
            return Some(copy_found_path(f));
        }
        n -= 1;
    }
    None
}

fn find_path(out: &Vec<FinderMatch>, path: &String) -> (r: Option<usize>)
    ensures
        match r {
            Some(i) => first_path_index(out@, path@) == Some(i as int) && i < out@.len(),
            None => first_path_index(out@, path@) is None,
        },
{
    let mut i: usize = 0;
    while i < out.len()
        invariant
            i <= out.len(),
            first_path_index(out@.take(i as int), path@) is None,
        decreases out.len() - i,
    {
        assert(out@.take(i as int + 1).drop_last() =~= out@.take(i as int));
        let here = match &out[i] {
            FinderMatch::History { path: p, .. } => &p.project.path,
            FinderMatch::Search(pm) => &pm.path,
        };
        if *here == *path {
            proof {
                lemma_first_path_index_found(out@, path@, i as int);
            }
            return Some(i);
        }
        i += 1;
    }
    assert(out@.take(i as int) =~= out@);
    None
}

proof fn lemma_first_path_index_found(out: Seq<FinderMatch>, path: Seq<char>, i: int)
    requires
        0 <= i < out.len(),
        first_path_index(out.take(i), path) is None,
        finder_path(out[i]) == path,
    ensures
        first_path_index(out, path) == Some(i),
    decreases out.len(),
{
    if i < out.len() - 1 {
        assert(out.drop_last().take(i) =~= out.take(i));
        lemma_first_path_index_found(out.drop_last(), path, i);
    } else {
        assert(out.drop_last() =~= out.take(i));
    }
}

/// The history matches of the results of matching the pool of history
/// files: each result takes the last pool file of its worktree and path,
/// once, and history matches about the same path replace one another.
pub fn history_matches(pool: &Vec<FoundPath>, results: Vec<PathMatch>) -> (r: Vec<FinderMatch>)
    ensures
        r@ == history_matches_state(pool@, results@).1,
{
    let ghost orig = results@;
    let mut rest = results;
    let mut used: Vec<(u64, String)> = Vec::new();
    let mut out: Vec<FinderMatch> = Vec::new();
    assert(orig.take(0) =~= Seq::<PathMatch>::empty());
    assert(key_set(used@) =~= Set::<(u64, Seq<char>)>::empty());
    while rest.len() > 0
        invariant
            rest@.len() <= orig.len(),
            rest@ == orig.skip(orig.len() - rest@.len()),
            history_matches_state(pool@, orig.take(orig.len() - rest@.len())) == (key_set(used@), out@),
        decreases rest.len(),
    {
        let ghost done = orig.len() - rest@.len();
        let ghost used0 = used@;
        let ghost out0 = out@;
        let r = rest.remove(0);
        proof {
            assert(r == orig[done]);
            assert(orig.take(done + 1).drop_last() =~= orig.take(done));
            assert(orig.take(done + 1).last() == r);
            assert(orig.skip(done + 1) =~= orig.skip(done).skip(1));
        }
        if !key_taken(&used, r.worktree_id, &r.path) {
            match find_last_with_key(pool, r.worktree_id, &r.path) {
                None => {},
                Some(f) => {
                    proof {
                        lemma_last_with_key(pool@, r.worktree_id, r.path@);
                    }
                    let ghost u0 = used@;
                    used.push((r.worktree_id, r.path.clone()));
                    proof {
                        assert(used@.map_values(|k: (u64, String)| (k.0, k.1@)) =~= u0.map_values(
                            |k: (u64, String)| (k.0, k.1@),
                        ).push((r.worktree_id, r.path@)));
                        vstd::seq_lib::lemma_seq_contains_after_push(
                            u0.map_values(|k: (u64, String)| (k.0, k.1@)),
                            (r.worktree_id, r.path@),
                            (r.worktree_id, r.path@),
                        );
                        assert(key_set(used@) =~= key_set(u0).insert((r.worktree_id, r.path@))) by {
                            assert forall|x: (u64, Seq<char>)| key_set(used@).contains(x) <==> key_set(u0).insert(
                                (r.worktree_id, r.path@),
                            ).contains(x) by {
                                vstd::seq_lib::lemma_seq_contains_after_push(
                                    u0.map_values(|k: (u64, String)| (k.0, k.1@)),
                                    (r.worktree_id, r.path@),
                                    x,
                                );
                            }
                        }
                    }
                    let path = r.path.clone();
                    let m = FinderMatch::History { path: f, panel_match: Some(r) };
                    assert(finder_path(m) == path@);
                    match find_path(&out, &path) {
                        Some(i) => {
                            out.set(i, m);
                        },
                        None => {
                            out.push(m);
                        },
                    }
                    assert(out@ == put_by_path(out0, m));
                },
            }
        }
    }
    assert(orig.take(orig.len() as int) =~= orig);
    out
}

} // verus!
