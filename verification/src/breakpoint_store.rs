//! Breakpoints of a project, kept per file, independent of any debug session.
//!
//! A position in a buffer is held as an integer anchor: anchors of one buffer
//! are ordered by their offset and found again by equality.
use vstd::prelude::*;

verus! {

/// What an edit of a breakpoint does.
#[derive(Clone, Debug)]
pub enum BreakpointEditAction {
    /// Sets a standard breakpoint, or removes the one there.
    Toggle,
    /// Sets a log breakpoint with the message, or removes the log breakpoint
    /// there; an empty message removes a log breakpoint.
    EditLogMessage(String),
}

/// The kind of a breakpoint.
#[derive(Debug)]
pub enum BreakpointKind {
    Standard,
    Log(String),
}

impl Clone for BreakpointKind {
    fn clone(&self) -> (r: Self)
        ensures
            r == *self,
    {
        match self {
            BreakpointKind::Standard => BreakpointKind::Standard,
            BreakpointKind::Log(m) => BreakpointKind::Log(m.clone()),
        }
    }
}

/// Two kinds are equal when they are the same variant, whatever the message.
pub open spec fn same_kind(a: BreakpointKind, b: BreakpointKind) -> bool {
    (a is Standard && b is Standard) || (a is Log && b is Log)
}

impl PartialEq for BreakpointKind {
    fn eq(&self, other: &Self) -> (r: bool) {
        match (self, other) {
            (BreakpointKind::Standard, BreakpointKind::Standard) => true,
            (BreakpointKind::Log(_), BreakpointKind::Log(_)) => true,
            _ => false,
        }
    }
}

impl vstd::std_specs::cmp::PartialEqSpecImpl for BreakpointKind {
    open spec fn obeys_eq_spec() -> bool {
        true
    }

    open spec fn eq_spec(&self, other: &Self) -> bool {
        same_kind(*self, *other)
    }
}

impl BreakpointKind {
    /// The kind's number on the wire.
    pub fn to_int(&self) -> (r: i32)
        ensures
            r == (if *self is Standard {
                0i32
            } else {
                1i32
            }),
    {
        match self {
            BreakpointKind::Standard => 0,
            BreakpointKind::Log(_) => 1,
        }
    }

    /// The message of a log breakpoint.
    pub fn log_message(&self) -> (r: Option<String>)
        ensures
            r == (match *self {
                BreakpointKind::Standard => None,
                BreakpointKind::Log(m) => Some(m),
            }),
    {
        match self {
            BreakpointKind::Standard => None,
            BreakpointKind::Log(message) => Some(message.clone()),
        }
    }
}

/// A breakpoint.
#[derive(Debug)]
pub struct Breakpoint {
    pub kind: BreakpointKind,
}

impl Clone for Breakpoint {
    fn clone(&self) -> (r: Self)
        ensures
            r == *self,
    {
        Breakpoint { kind: self.kind.clone() }
    }
}

impl PartialEq for Breakpoint {
    fn eq(&self, other: &Self) -> (r: bool) {
        self.kind == other.kind
    }
}

impl vstd::std_specs::cmp::PartialEqSpecImpl for Breakpoint {
    open spec fn obeys_eq_spec() -> bool {
        true
    }

    open spec fn eq_spec(&self, other: &Self) -> bool {
        same_kind(self.kind, other.kind)
    }
}

/// A breakpoint as it is saved: its row, its file and its kind.
#[derive(Clone, Debug)]
pub struct SerializedBreakpoint {
    pub position: u32,
    pub path: String,
    pub kind: BreakpointKind,
}

/// A breakpoint at an anchor.
pub type PlacedBreakpoint = (u64, Breakpoint);

/// Whether two placed breakpoints are equal: the same anchor and the same
/// kind.
pub open spec fn same_placed(a: PlacedBreakpoint, b: PlacedBreakpoint) -> bool {
    a.0 == b.0 && same_kind(a.1.kind, b.1.kind)
}

/// `list` without the breakpoints equal to `bp`, in order.
pub open spec fn without(list: Seq<PlacedBreakpoint>, bp: PlacedBreakpoint) -> Seq<PlacedBreakpoint>
    decreases list.len(),
{
    if list.len() == 0 {
        list
    } else if same_placed(list.last(), bp) {
        without(list.drop_last(), bp)
    } else {
        without(list.drop_last(), bp).push(list.last())
    }
}

/// Removes the breakpoints equal to `bp`; when there was none, adds `bp`.
pub open spec fn toggled(list: Seq<PlacedBreakpoint>, bp: PlacedBreakpoint) -> Seq<PlacedBreakpoint> {
    if without(list, bp).len() == list.len() {
        list.push(bp)
    } else {
        without(list, bp)
    }
}

/// The breakpoints of a file after an edit at the anchor of `bp`.
pub open spec fn edited(
    list: Seq<PlacedBreakpoint>,
    bp: PlacedBreakpoint,
    action: BreakpointEditAction,
) -> Seq<PlacedBreakpoint> {
    match action {
        BreakpointEditAction::Toggle => toggled(list, bp),
        BreakpointEditAction::EditLogMessage(message) => if message@.len() > 0 {
            toggled(list, (bp.0, Breakpoint { kind: BreakpointKind::Log(message) }))
        } else if bp.1.kind is Log {
            without(list, bp)
        } else {
            list
        },
    }
}

/// The breakpoints of one file.
pub struct FileBreakpoints {
    pub path: String,
    pub breakpoints: Vec<PlacedBreakpoint>,
}

/// The breakpoints of each file, by the text of its path.
pub open spec fn files_map(s: Seq<FileBreakpoints>) -> Map<Seq<char>, Seq<PlacedBreakpoint>>
    decreases s.len(),
{
    if s.len() == 0 {
        Map::empty()
    } else {
        files_map(s.drop_last()).insert(s.last().path@, s.last().breakpoints@)
    }
}

/// No path occurs twice.
pub open spec fn distinct_paths(s: Seq<FileBreakpoints>) -> bool {
    forall|i: int, j: int| 0 <= i < j < s.len() ==> s[i].path@ != s[j].path@
}

/// The breakpoints of a project, and the position the debugger stopped at.
pub struct BreakpointStore {
    files: Vec<FileBreakpoints>,
    active_stack_frame: Option<(String, u64)>,
}

impl View for BreakpointStore {
    type V = Map<Seq<char>, Seq<PlacedBreakpoint>>;

    closed spec fn view(&self) -> Map<Seq<char>, Seq<PlacedBreakpoint>> {
        files_map(self.files@)
    }
}

proof fn lemma_files_map_dom(s: Seq<FileBreakpoints>)
    ensures
        forall|p: Seq<char>|
            #[trigger] files_map(s).contains_key(p) <==> exists|i: int|
                0 <= i < s.len() && s[i].path@ == p,
    decreases s.len(),
{
    if s.len() > 0 {
        lemma_files_map_dom(s.drop_last());
        assert forall|p: Seq<char>| #[trigger] files_map(s).contains_key(p) implies exists|i: int|
            0 <= i < s.len() && s[i].path@ == p by {
            if p != s.last().path@ {
                assert(files_map(s.drop_last()).contains_key(p));
                let i = choose|i: int| 0 <= i < s.drop_last().len() && s.drop_last()[i].path@ == p;
                assert(s[i] == s.drop_last()[i]);
            } else {
                assert(s[s.len() - 1].path@ == p);
            }
        }
        assert forall|p: Seq<char>|
            (exists|i: int| 0 <= i < s.len() && s[i].path@ == p) implies #[trigger] files_map(
            s,
        ).contains_key(p) by {
            let i = choose|i: int| 0 <= i < s.len() && s[i].path@ == p;
            if i < s.len() - 1 {
                assert(s.drop_last()[i] == s[i]);
                assert(files_map(s.drop_last()).contains_key(p));
            }
        }
    }
}

proof fn lemma_files_map_at(s: Seq<FileBreakpoints>, i: int)
    requires
        distinct_paths(s),
        0 <= i < s.len(),
    ensures
        files_map(s).contains_key(s[i].path@),
        files_map(s)[s[i].path@] == s[i].breakpoints@,
    decreases s.len(),
{
    if i < s.len() - 1 {
        assert(distinct_paths(s.drop_last()));
        lemma_files_map_at(s.drop_last(), i);
        assert(s.drop_last()[i] == s[i]);
    }
}

proof fn lemma_files_map_remove(s: Seq<FileBreakpoints>, i: int)
    requires
        distinct_paths(s),
        0 <= i < s.len(),
    ensures
        files_map(s.remove(i)) == files_map(s).remove(s[i].path@),
        distinct_paths(s.remove(i)),
    decreases s.len(),
{
    let p = s[i].path@;
    if i == s.len() - 1 {
        assert(s.remove(i) =~= s.drop_last());
        lemma_files_map_dom(s.drop_last());
        assert(!files_map(s.drop_last()).contains_key(p)) by {
            if files_map(s.drop_last()).contains_key(p) {
                let j = choose|j: int| 0 <= j < s.drop_last().len() && s.drop_last()[j].path@ == p;
                assert(s[j].path@ == s[i].path@);
            }
        }
        assert(files_map(s).remove(p) =~= files_map(s.drop_last()));
    } else {
        let d = s.drop_last();
        assert(distinct_paths(d));
        lemma_files_map_remove(d, i);
        assert(d[i] == s[i]);
        assert(s.remove(i) =~= d.remove(i).push(s.last()));
        assert(s.remove(i).drop_last() =~= d.remove(i));
        assert(s.last().path@ != p);
        assert(files_map(s.remove(i)) =~= files_map(s).remove(p));
    }
}

proof fn lemma_files_map_push(s: Seq<FileBreakpoints>, f: FileBreakpoints)
    requires
        distinct_paths(s),
        !files_map(s).contains_key(f.path@),
    ensures
        files_map(s.push(f)) == files_map(s).insert(f.path@, f.breakpoints@),
        distinct_paths(s.push(f)),
{
    assert(s.push(f).drop_last() =~= s);
    lemma_files_map_dom(s);
    assert forall|i: int, j: int| 0 <= i < j < s.push(f).len() implies s.push(f)[i].path@ != s.push(
        f,
    )[j].path@ by {
        if j == s.len() {
            assert(s.push(f)[i] == s[i]);
        } else {
            assert(s.push(f)[i] == s[i] && s.push(f)[j] == s[j]);
        }
    }
}

/// Finds the index of the file with the given path.
fn find_file(files: &Vec<FileBreakpoints>, path: &String) -> (r: Option<usize>)
    ensures
        match r {
            Some(i) => i < files.len() && files@[i as int].path@ == path@,
            None => forall|i: int| 0 <= i < files.len() ==> files@[i].path@ != path@,
        },
{
    let mut i: usize = 0;
    while i < files.len()
        invariant
            i <= files.len(),
            forall|j: int| 0 <= j < i ==> files@[j].path@ != path@,
        decreases files.len() - i,
    {
        if files[i].path == *path {
            return Some(i);
        }
        i += 1;
    }
    None
}

fn same_placed_exec(a: &PlacedBreakpoint, b: &PlacedBreakpoint) -> (r: bool)
    ensures
        r == same_placed(*a, *b),
{
    a.0 == b.0 && a.1 == b.1
}

/// `list` without the breakpoints equal to `bp`, in order.
fn retain_others(list: &Vec<PlacedBreakpoint>, bp: &PlacedBreakpoint) -> (r: Vec<PlacedBreakpoint>)
    ensures
        r@ == without(list@, *bp),
{
    let mut out: Vec<PlacedBreakpoint> = Vec::new();
    let mut i: usize = 0;
    while i < list.len()
        invariant
            i <= list.len(),
            out@ == without(list@.take(i as int), *bp),
        decreases list.len() - i,
    {
        assert(list@.take(i as int + 1).drop_last() =~= list@.take(i as int));
        assert(list@.take(i as int + 1).last() == list@[i as int]);
        if !same_placed_exec(&list[i], bp) {
            out.push((list[i].0, list[i].1.clone()));
        }
        i += 1;
    }
    assert(list@.take(list.len() as int) =~= list@);
    out
}


/// Removes the breakpoints equal to `bp`; when there was none, adds `bp`.
fn toggle_list(list: Vec<PlacedBreakpoint>, bp: PlacedBreakpoint) -> (r: Vec<PlacedBreakpoint>)
    ensures
        r@ == toggled(list@, bp),
{
    let kept = retain_others(&list, &bp);
    if kept.len() == list.len() {
        let mut list = list;
        list.push(bp);
        list
    } else {
        kept
    }
}

/// The breakpoints of a file after an edit at the anchor of `bp`.
fn edit_list(list: Vec<PlacedBreakpoint>, bp: PlacedBreakpoint, action: BreakpointEditAction) -> (r:
    Vec<PlacedBreakpoint>)
    ensures
        r@ == edited(list@, bp, action),
{
    match action {
        BreakpointEditAction::Toggle => toggle_list(list, bp),
        BreakpointEditAction::EditLogMessage(message) => {
            if !message.as_str().is_empty() {
                toggle_list(list, (bp.0, Breakpoint { kind: BreakpointKind::Log(message) }))
            } else if matches!(bp.1.kind, BreakpointKind::Log(_)) {
                retain_others(&list, &bp)
            } else {
                list
            }
        },
    }
}

/// The breakpoints of the file at `path` after an edit, given those before.
pub open spec fn file_after_edit(
    store: Map<Seq<char>, Seq<PlacedBreakpoint>>,
    path: Seq<char>,
    bp: PlacedBreakpoint,
    action: BreakpointEditAction,
) -> Seq<PlacedBreakpoint> {
    edited(
        if store.contains_key(path) {
            store[path]
        } else {
            Seq::empty()
        },
        bp,
        action,
    )
}

/// The store after an edit: the file's new breakpoints, or no entry for the
/// file when none is left.
pub open spec fn store_after_edit(
    store: Map<Seq<char>, Seq<PlacedBreakpoint>>,
    path: Seq<char>,
    bp: PlacedBreakpoint,
    action: BreakpointEditAction,
) -> Map<Seq<char>, Seq<PlacedBreakpoint>> {
    let after = file_after_edit(store, path, bp, action);
    if after.len() == 0 {
        store.remove(path)
    } else {
        store.insert(path, after)
    }
}

/// The store after a file is renamed: its breakpoints move to the new path,
/// replacing any there.
pub open spec fn store_after_rename(
    store: Map<Seq<char>, Seq<PlacedBreakpoint>>,
    old_path: Seq<char>,
    new_path: Seq<char>,
) -> Map<Seq<char>, Seq<PlacedBreakpoint>> {
    if store.contains_key(old_path) {
        store.remove(old_path).insert(new_path, store[old_path])
    } else {
        store
    }
}

/// No file of the store is left with an empty list of breakpoints.
pub open spec fn no_empty_file(store: Map<Seq<char>, Seq<PlacedBreakpoint>>) -> bool {
    forall|p: Seq<char>| #[trigger] store.contains_key(p) ==> store[p].len() > 0
}


/// Whether an anchor lies in a range, both ends included; any anchor does
/// without a range.
pub open spec fn anchor_in_range(anchor: u64, range: Option<(u64, u64)>) -> bool {
    match range {
        None => true,
        Some((start, end)) => start <= anchor && anchor <= end,
    }
}

/// The breakpoints of `list` whose anchors lie in `range`, in order.
pub open spec fn in_range(list: Seq<PlacedBreakpoint>, range: Option<(u64, u64)>) -> Seq<PlacedBreakpoint>
    decreases list.len(),
{
    if list.len() == 0 {
        list
    } else if anchor_in_range(list.last().0, range) {
        in_range(list.drop_last(), range).push(list.last())
    } else {
        in_range(list.drop_last(), range)
    }
}

fn breakpoints_in_range(list: &Vec<PlacedBreakpoint>, range: Option<(u64, u64)>) -> (r: Vec<PlacedBreakpoint>)
    ensures
        r@ == in_range(list@, range),
{
    let mut out: Vec<PlacedBreakpoint> = Vec::new();
    let mut i: usize = 0;
    while i < list.len()
        invariant
            i <= list.len(),
            out@ == in_range(list@.take(i as int), range),
        decreases list.len() - i,
    {
        assert(list@.take(i as int + 1).drop_last() =~= list@.take(i as int));
        assert(list@.take(i as int + 1).last() == list@[i as int]);
        let anchor = list[i].0;
        let inside = match range {
            None => true,
            Some((start, end)) => start <= anchor && anchor <= end,
        };
        if inside {
            out.push((anchor, list[i].1.clone()));
        }
        i += 1;
    }
    assert(list@.take(list.len() as int) =~= list@);
    out
}


/// Whether `list` holds a breakpoint equal to `bp`.
pub open spec fn has_equal(list: Seq<PlacedBreakpoint>, bp: PlacedBreakpoint) -> bool {
    exists|i: int| 0 <= i < list.len() && same_placed(#[trigger] list[i], bp)
}

/// The breakpoints a store holds for a file; none when it has no entry.
pub open spec fn file_of(store: Map<Seq<char>, Seq<PlacedBreakpoint>>, path: Seq<char>) -> Seq<
    PlacedBreakpoint,
> {
    if store.contains_key(path) {
        store[path]
    } else {
        Seq::empty()
    }
}

proof fn lemma_without(list: Seq<PlacedBreakpoint>, bp: PlacedBreakpoint)
    ensures
        !has_equal(without(list, bp), bp),
        without(list, bp).len() <= list.len(),
        without(list, bp).len() == list.len() <==> !has_equal(list, bp),
        !has_equal(list, bp) ==> without(list, bp) == list,
        without(list.push(bp), bp) == without(list, bp),
    decreases list.len(),
{
    assert(list.push(bp).drop_last() =~= list);
    if list.len() > 0 {
        let d = list.drop_last();
        lemma_without(d, bp);
        let w = without(list, bp);
        let wd = without(d, bp);
        if same_placed(list.last(), bp) {
            assert(has_equal(list, bp)) by {
                assert(same_placed(list[list.len() - 1], bp));
            }
        } else {
            assert(!has_equal(w, bp)) by {
                if has_equal(w, bp) {
                    let i = choose|i: int| 0 <= i < w.len() && same_placed(#[trigger] w[i], bp);
                    if i < wd.len() {
                        assert(w[i] == wd[i]);
                        assert(has_equal(wd, bp));
                    }
                }
            }
            assert(has_equal(list, bp) <==> has_equal(d, bp)) by {
                if has_equal(list, bp) {
                    let i = choose|i: int| 0 <= i < list.len() && same_placed(#[trigger] list[i], bp);
                    assert(i < d.len());
                    assert(d[i] == list[i]);
                }
                if has_equal(d, bp) {
                    let i = choose|i: int| 0 <= i < d.len() && same_placed(#[trigger] d[i], bp);
                    assert(list[i] == d[i]);
                }
            }
            if !has_equal(list, bp) {
                assert(w =~= list);
            }
        }
    }
}

/// Toggling a breakpoint where no equal one is set, then toggling it again,
/// gives the store back as it was.
pub proof fn lemma_toggle_twice_restores(
    store: Map<Seq<char>, Seq<PlacedBreakpoint>>,
    path: Seq<char>,
    bp: PlacedBreakpoint,
)
    requires
        no_empty_file(store),
        !has_equal(file_of(store, path), bp),
    ensures
        store_after_edit(
            store_after_edit(store, path, bp, BreakpointEditAction::Toggle),
            path,
            bp,
            BreakpointEditAction::Toggle,
        ) == store,
{
    let list = file_of(store, path);
    lemma_without(list, bp);
    lemma_without(list.push(bp), bp);
    let once = store_after_edit(store, path, bp, BreakpointEditAction::Toggle);
    assert(file_after_edit(store, path, bp, BreakpointEditAction::Toggle) == list.push(bp));
    assert(once == store.insert(path, list.push(bp)));
    assert(file_of(once, path) == list.push(bp));
    assert(file_after_edit(once, path, bp, BreakpointEditAction::Toggle) == list);
    if list.len() == 0 {
        assert(!store.contains_key(path));
        assert(once.remove(path) =~= store);
    } else {
        assert(once.insert(path, list) =~= store);
    }
}

/// After a toggle, the file holds a breakpoint equal to the toggled one
/// exactly when it held none before.
pub proof fn lemma_toggle_flips(
    store: Map<Seq<char>, Seq<PlacedBreakpoint>>,
    path: Seq<char>,
    bp: PlacedBreakpoint,
)
    ensures
        has_equal(
            file_of(store_after_edit(store, path, bp, BreakpointEditAction::Toggle), path),
            bp,
        ) <==> !has_equal(file_of(store, path), bp),
{
    let list = file_of(store, path);
    lemma_without(list, bp);
    let after = file_after_edit(store, path, bp, BreakpointEditAction::Toggle);
    assert(file_of(store_after_edit(store, path, bp, BreakpointEditAction::Toggle), path) == after);
    if !has_equal(list, bp) {
        assert(after == list.push(bp));
        assert(same_placed(after[list.len() as int], bp));
    }
}

impl BreakpointStore {
    #[verifier::type_invariant]
    closed spec fn inv(&self) -> bool {
        &&& distinct_paths(self.files@)
        &&& forall|i: int| 0 <= i < self.files@.len() ==> #[trigger] self.files@[i].breakpoints@.len() > 0
    }

    /// The position the debugger stopped at, as a path and an anchor.
    pub closed spec fn active(&self) -> Option<(String, u64)> {
        self.active_stack_frame
    }

    proof fn lemma_no_empty_file(&self)
        requires
            self.inv(),
        ensures
            no_empty_file(self@),
    {
        lemma_files_map_dom(self.files@);
        assert forall|p: Seq<char>| #[trigger] self@.contains_key(p) implies self@[p].len() > 0 by {
            let i = choose|i: int| 0 <= i < self.files@.len() && self.files@[i].path@ == p;
            lemma_files_map_at(self.files@, i);
        }
    }

    /// An empty store.
    pub fn local() -> (r: Self)
        ensures
            r@ == Map::<Seq<char>, Seq<PlacedBreakpoint>>::empty(),
            r.active() is None,
    {
        BreakpointStore { files: Vec::new(), active_stack_frame: None }
    }

    /// Edits the breakpoints of the file at `abs_path` at the anchor of
    /// `breakpoint`; a file left with no breakpoint leaves the store.
    pub fn toggle_breakpoint(
        &mut self,
        abs_path: String,
        breakpoint: PlacedBreakpoint,
        edit_action: BreakpointEditAction,
    )
        ensures
            final(self)@ == store_after_edit(old(self)@, abs_path@, breakpoint, edit_action),
            no_empty_file(final(self)@),
            final(self).active() == old(self).active(),
    {
        proof {
            use_type_invariant(&*self);
        }
        let ghost before = self@;
        let mut files: Vec<FileBreakpoints> = Vec::new();
        std::mem::swap(&mut files, &mut self.files);
        let ghost all = files@;
        proof {
            lemma_files_map_dom(all);
        }
        assert(forall|k: int| 0 <= k < all.len() ==> #[trigger] all[k].breakpoints@.len() > 0);
        let list = match find_file(&files, &abs_path) {
            Some(i) => {
                proof {
                    lemma_files_map_at(all, i as int);
                    lemma_files_map_remove(all, i as int);
                }
                let f = files.remove(i);
                assert forall|k: int| 0 <= k < files@.len() implies #[trigger] files@[k].breakpoints@.len()
                    > 0 by {
                    if k < i {
                        assert(files@[k] == all[k]);
                    } else {
                        assert(files@[k] == all[k + 1]);
                    }
                }
                f.breakpoints
            },
            None => {
                assert(!before.contains_key(abs_path@)) by {
                    if before.contains_key(abs_path@) {
                        let k = choose|k: int| 0 <= k < all.len() && all[k].path@ == abs_path@;
                        assert(files@[k].path@ != abs_path@);
                    }
                }
                assert(before.remove(abs_path@) =~= before);
                Vec::new()
            },
        };
        assert(files_map(files@) == before.remove(abs_path@));
        assert(list@ == (if before.contains_key(abs_path@) {
            before[abs_path@]
        } else {
            Seq::<PlacedBreakpoint>::empty()
        }));
        let new_list = edit_list(list, breakpoint, edit_action);
        proof {
            lemma_files_map_dom(files@);
        }
        if new_list.len() > 0 {
            let ghost rest = files@;
            proof {
                assert(!files_map(rest).contains_key(abs_path@));
                lemma_files_map_push(rest, FileBreakpoints { path: abs_path, breakpoints: new_list });
            }
            files.push(FileBreakpoints { path: abs_path, breakpoints: new_list });
            assert(files_map(files@) =~= before.insert(abs_path@, new_list@)) by {
                assert(before.remove(abs_path@).insert(abs_path@, new_list@) =~= before.insert(
                    abs_path@,
                    new_list@,
                ));
            }
        }
        self.files = files;
        proof {
            self.lemma_no_empty_file();
        }
    }

    /// Moves the breakpoints of the file at `old_path` to `new_path`,
    /// replacing any there; nothing changes when `old_path` has none.
    pub fn on_file_rename(&mut self, old_path: String, new_path: String)
        ensures
            final(self)@ == store_after_rename(old(self)@, old_path@, new_path@),
            no_empty_file(final(self)@),
            final(self).active() == old(self).active(),
    {
        proof {
            use_type_invariant(&*self);
        }
        let ghost before = self@;
        let mut files: Vec<FileBreakpoints> = Vec::new();
        std::mem::swap(&mut files, &mut self.files);
        let ghost all = files@;
        proof {
            lemma_files_map_dom(all);
        }
        assert(forall|k: int| 0 <= k < all.len() ==> #[trigger] all[k].breakpoints@.len() > 0);
        match find_file(&files, &old_path) {
            Some(i) => {
                proof {
                    lemma_files_map_at(all, i as int);
                    lemma_files_map_remove(all, i as int);
                }
                let moved = files.remove(i);
                let ghost mid = files@;
                assert forall|k: int| 0 <= k < mid.len() implies #[trigger] mid[k].breakpoints@.len() > 0 by {
                    if k < i {
                        assert(mid[k] == all[k]);
                    } else {
                        assert(mid[k] == all[k + 1]);
                    }
                }
                proof {
                    lemma_files_map_dom(mid);
                }
                match find_file(&files, &new_path) {
                    Some(j) => {
                        proof {
                            lemma_files_map_remove(mid, j as int);
                        }
                        files.remove(j);
                        assert forall|k: int| 0 <= k < files@.len() implies #[trigger] files@[k].breakpoints@.len()
                            > 0 by {
                            if k < j {
                                assert(files@[k] == mid[k]);
                            } else {
                                assert(files@[k] == mid[k + 1]);
                            }
                        }
                    },
                    None => {
                        assert(!files_map(mid).contains_key(new_path@)) by {
                            if files_map(mid).contains_key(new_path@) {
                                let k = choose|k: int| 0 <= k < mid.len() && mid[k].path@ == new_path@;
                                assert(files@[k].path@ != new_path@);
                            }
                        }
                        assert(files_map(mid).remove(new_path@) =~= files_map(mid));
                    },
                }
                assert(files_map(files@) == before.remove(old_path@).remove(new_path@));
                let ghost rest = files@;
                proof {
                    lemma_files_map_dom(rest);
                    lemma_files_map_push(rest, FileBreakpoints { path: new_path, breakpoints: moved.breakpoints });
                }
                files.push(FileBreakpoints { path: new_path, breakpoints: moved.breakpoints });
                assert(files_map(files@) =~= store_after_rename(before, old_path@, new_path@));
            },
            None => {
                assert(!before.contains_key(old_path@)) by {
                    if before.contains_key(old_path@) {
                        let k = choose|k: int| 0 <= k < all.len() && all[k].path@ == old_path@;
                        assert(files@[k].path@ != old_path@);
                    }
                }
            },
        }
        self.files = files;
        proof {
            self.lemma_no_empty_file();
        }
    }

    /// The breakpoints of the file at `path` whose anchors lie in `range`,
    /// both ends included, or all of them without a range; in order.
    pub fn breakpoints(&self, path: &String, range: Option<(u64, u64)>) -> (r: Vec<PlacedBreakpoint>)
        ensures
            r@ == (if self@.contains_key(path@) {
                in_range(self@[path@], range)
            } else {
                Seq::<PlacedBreakpoint>::empty()
            }),
    {
        proof {
            use_type_invariant(self);
            lemma_files_map_dom(self.files@);
        }
        match find_file(&self.files, path) {
            Some(i) => {
                proof {
                    lemma_files_map_at(self.files@, i as int);
                }
                breakpoints_in_range(&self.files[i].breakpoints, range)
            },
            None => {
                assert(!self@.contains_key(path@)) by {
                    if self@.contains_key(path@) {
                        let k = choose|k: int| 0 <= k < self.files@.len() && self.files@[k].path@ == path@;
                        assert(self.files@[k].path@ != path@);
                    }
                }
                Vec::new()
            },
        }
    }

    /// The position the debugger stopped at.
    pub fn active_position(&self) -> (r: Option<(String, u64)>)
        ensures
            r == self.active(),
    {
        match &self.active_stack_frame {
            Some((path, anchor)) => Some((path.clone(), *anchor)),
            None => None,
        }
    }

    /// Sets the position the debugger stopped at.
    pub fn set_active_position(&mut self, position: Option<(String, u64)>)
        ensures
            final(self).active() == position,
            final(self)@ == old(self)@,
    {
        proof {
            use_type_invariant(&*self);
        }
        self.active_stack_frame = position;
    }
}

} // verus!
