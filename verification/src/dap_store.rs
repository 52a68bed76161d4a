//! The store of debug adapter clients and of breakpoints kept by row: which
//! clients run, what each announced it supports, the breakpoints of each
//! project file, and the arguments of the requests the store sends.
use vstd::prelude::*;
use vstd::string::*;
use crate::dap;
use crate::debug_format::DebugRequestType;
use crate::ids::DebugAdapterClientId;

verus! {

/// What the store tells its observers.
#[derive(Clone, Debug, PartialEq)]
pub enum DapStoreEvent {
    DebugClientStarted(DebugAdapterClientId),
    DebugClientStopped(DebugAdapterClientId),
    /// A message of a client's adapter, as JSON text.
    DebugClientEvent { client_id: DebugAdapterClientId, message: Vec<u8> },
}

/// A file of a project: the worktree it belongs to and its path there.
#[derive(Clone, Debug, PartialEq)]
pub struct ProjectPath {
    pub worktree_id: u64,
    pub path: String,
}

/// The value a project path is found again by.
pub open spec fn path_key(p: ProjectPath) -> (u64, Seq<char>) {
    (p.worktree_id, p.path@)
}

/// A breakpoint of an open or closed file: the anchor it follows while its
/// buffer is open, and the row it was last known at.
#[derive(Clone, Copy, Debug, PartialEq, Eq, Structural)]
pub struct Breakpoint {
    pub active_position: Option<u64>,
    pub cache_position: u32,
}

/// A breakpoint as it is saved: its one-based row and its file.
#[derive(Clone, Debug, PartialEq)]
pub struct SerializedBreakpoint {
    pub position: u32,
    pub path: String,
}

/// A breakpoint at a one-based line, with nothing else set.
pub open spec fn line_breakpoint(line: u64) -> dap::SourceBreakpoint {
    dap::SourceBreakpoint {
        line,
        column: None,
        condition: None,
        hit_condition: None,
        log_message: None,
        mode: None,
    }
}

fn line_breakpoint_exec(line: u64) -> (r: dap::SourceBreakpoint)
    ensures
        r == line_breakpoint(line),
{
    dap::SourceBreakpoint {
        line,
        column: None,
        condition: None,
        hit_condition: None,
        log_message: None,
        mode: None,
    }
}

impl SerializedBreakpoint {
    /// The breakpoint the adapter is asked to set: at the saved line.
    pub fn to_source_breakpoint(&self) -> (r: dap::SourceBreakpoint)
        ensures
            r == line_breakpoint(self.position as u64),
    {
        line_breakpoint_exec(self.position as u64)
    }
}

/// Which way an anchor leans when text is inserted at it.
#[derive(Clone, Copy, Debug, PartialEq, Eq, Structural)]
pub enum Bias {
    Left,
    Right,
}

impl Breakpoint {
    /// The row of the breakpoint: the row of its anchor, given as
    /// `active_row`, while it has one; its last known row otherwise.
    pub open spec fn row(&self, active_row: u32) -> u32 {
        if self.active_position is Some {
            active_row
        } else {
            self.cache_position
        }
    }

    /// The breakpoint the adapter is asked to set: one line below the row,
    /// lines being counted from one.
    pub fn to_source_breakpoint(&self, active_row: u32) -> (r: dap::SourceBreakpoint)
        ensures
            r == line_breakpoint((self.row(active_row) + 1) as u64),
    {
        let row = match self.active_position {
            Some(_) => active_row,
            None => self.cache_position,
        };
        line_breakpoint_exec(row as u64 + 1)
    }

    /// The bias of the anchor put at the start of the breakpoint's row: to
    /// the right on the first row, to the left elsewhere.
    pub fn anchor_bias(&self) -> (r: Bias)
        ensures
            r == (if self.cache_position == 0 {
                Bias::Right
            } else {
                Bias::Left
            }),
    {
        if self.cache_position == 0 {
            Bias::Right
        } else {
            Bias::Left
        }
    }

    /// Gives the breakpoint an anchor, unless it has one.
    pub fn set_active_position(&mut self, anchor: u64)
        ensures
            final(self).active_position == (match old(self).active_position {
                Some(a) => Some(a),
                None => Some(anchor),
            }),
            final(self).cache_position == old(self).cache_position,
    {
        if self.active_position.is_none() {
            self.active_position = Some(anchor);
        }
    }

    /// The breakpoint as it is saved: its one-based row, from its anchor
    /// when its buffer is open (`active_row` is then the anchor's row) and
    /// from its last known row otherwise.
    pub fn to_serialized(&self, active_row: Option<u32>, path: String) -> (r: SerializedBreakpoint)
        requires
            self.cache_position < u32::MAX,
            active_row matches Some(row) ==> row < u32::MAX,
        ensures
            r.path == path,
            r.position == (match (active_row, self.active_position) {
                (Some(row), Some(_)) => row + 1,
                _ => self.cache_position + 1,
            }),
    {
        let position = match (active_row, self.active_position) {
            (Some(row), Some(_)) => row + 1,
            _ => self.cache_position + 1,
        };
        SerializedBreakpoint { position, path }
    }

    /// The breakpoint a saved one stands for: no anchor, one row above the
    /// saved line (row zero for line zero).
    pub fn from_serialized(serialized: &SerializedBreakpoint) -> (r: Breakpoint)
        ensures
            r == (Breakpoint {
                active_position: None,
                cache_position: if serialized.position == 0 {
                    0
                } else {
                    (serialized.position - 1) as u32
                },
            }),
    {
        Breakpoint { active_position: None, cache_position: serialized.position.saturating_sub(1) }
    }
}

/// Saving a breakpoint without an anchor and reading it back gives it back.
pub proof fn lemma_serialized_round_trip(bp: Breakpoint, path: String)
    requires
        bp.active_position is None,
        bp.cache_position < u32::MAX,
    ensures
        ({
            let saved = SerializedBreakpoint { position: (bp.cache_position + 1) as u32, path };
            (Breakpoint {
                active_position: None,
                cache_position: if saved.position == 0 {
                    0
                } else {
                    (saved.position - 1) as u32
                },
            }) == bp
        }),
{
}

/// The breakpoints of one project file.
pub struct FileBreakpointSet {
    pub project_path: ProjectPath,
    pub breakpoints: Vec<Breakpoint>,
}

/// The breakpoints of each project file, by its path's key.
pub open spec fn breakpoint_map(s: Seq<FileBreakpointSet>) -> Map<(u64, Seq<char>), Set<Breakpoint>>
    decreases s.len(),
{
    if s.len() == 0 {
        Map::empty()
    } else {
        breakpoint_map(s.drop_last()).insert(path_key(s.last().project_path), s.last().breakpoints@.to_set())
    }
}

/// No project file occurs twice, and no breakpoint twice in a file.
pub open spec fn well_keyed(s: Seq<FileBreakpointSet>) -> bool {
    &&& forall|i: int, j: int|
        0 <= i < j < s.len() ==> path_key(s[i].project_path) != path_key(s[j].project_path)
    &&& forall|i: int| 0 <= i < s.len() ==> (#[trigger] s[i]).breakpoints@.no_duplicates()
}

/// The breakpoints of a file; none when the store has no entry for it.
pub open spec fn set_of(m: Map<(u64, Seq<char>), Set<Breakpoint>>, key: (u64, Seq<char>)) -> Set<Breakpoint> {
    if m.contains_key(key) {
        m[key]
    } else {
        Set::empty()
    }
}

/// A set with `bp` removed when it holds it, added otherwise.
pub open spec fn toggle_in(s: Set<Breakpoint>, bp: Breakpoint) -> Set<Breakpoint> {
    if s.contains(bp) {
        s.remove(bp)
    } else {
        s.insert(bp)
    }
}

proof fn lemma_map_at(s: Seq<FileBreakpointSet>, i: int)
    requires
        well_keyed(s),
        0 <= i < s.len(),
    ensures
        breakpoint_map(s).contains_key(path_key(s[i].project_path)),
        breakpoint_map(s)[path_key(s[i].project_path)] == s[i].breakpoints@.to_set(),
    decreases s.len(),
{
    if i < s.len() - 1 {
        assert(well_keyed(s.drop_last()));
        lemma_map_at(s.drop_last(), i);
        assert(s.drop_last()[i] == s[i]);
    }
}

proof fn lemma_map_absent(s: Seq<FileBreakpointSet>, key: (u64, Seq<char>))
    requires
        forall|i: int| 0 <= i < s.len() ==> path_key(s[i].project_path) != key,
    ensures
        !breakpoint_map(s).contains_key(key),
    decreases s.len(),
{
    if s.len() > 0 {
        lemma_map_absent(s.drop_last(), key);
    }
}

proof fn lemma_map_update(s: Seq<FileBreakpointSet>, i: int, f: FileBreakpointSet)
    requires
        well_keyed(s),
        0 <= i < s.len(),
        path_key(f.project_path) == path_key(s[i].project_path),
        f.breakpoints@.no_duplicates(),
    ensures
        breakpoint_map(s.update(i, f)) == breakpoint_map(s).insert(path_key(f.project_path), f.breakpoints@.to_set()),
        well_keyed(s.update(i, f)),
    decreases s.len(),
{
    let t = s.update(i, f);
    assert forall|a: int| 0 <= a < t.len() implies (#[trigger] t[a]).breakpoints@.no_duplicates() by {
        if a != i {
            assert(t[a] == s[a]);
        }
    }
    if i == s.len() - 1 {
        assert(t.drop_last() =~= s.drop_last());
        assert(breakpoint_map(t) =~= breakpoint_map(s).insert(path_key(f.project_path), f.breakpoints@.to_set()));
    } else {
        let d = s.drop_last();
        assert(well_keyed(d));
        lemma_map_update(d, i, f);
        assert(t.drop_last() =~= d.update(i, f));
        assert(path_key(s.last().project_path) != path_key(f.project_path));
        assert(breakpoint_map(t) =~= breakpoint_map(s).insert(path_key(f.project_path), f.breakpoints@.to_set()));
    }
}

proof fn lemma_map_push(s: Seq<FileBreakpointSet>, f: FileBreakpointSet)
    requires
        well_keyed(s),
        forall|i: int| 0 <= i < s.len() ==> path_key(s[i].project_path) != path_key(f.project_path),
        f.breakpoints@.no_duplicates(),
    ensures
        breakpoint_map(s.push(f)) == breakpoint_map(s).insert(path_key(f.project_path), f.breakpoints@.to_set()),
        well_keyed(s.push(f)),
{
    assert(s.push(f).drop_last() =~= s);
    let t = s.push(f);
    assert forall|a: int| 0 <= a < t.len() implies (#[trigger] t[a]).breakpoints@.no_duplicates() by {
        if a < s.len() {
            assert(t[a] == s[a]);
        }
    }
    assert forall|a: int, b: int| 0 <= a < b < t.len() implies path_key(t[a].project_path) != path_key(
        t[b].project_path,
    ) by {
        assert(t[a] == s[a]);
        if b < s.len() {
            assert(t[b] == s[b]);
        }
    }
}

fn find_project_path(files: &Vec<FileBreakpointSet>, path: &ProjectPath) -> (r: Option<usize>)
    ensures
        match r {
            Some(i) => i < files.len() && path_key(files@[i as int].project_path) == path_key(*path),
            None => forall|i: int| 0 <= i < files.len() ==> path_key(files@[i].project_path) != path_key(*path),
        },
{
    let mut i: usize = 0;
    while i < files.len()
        invariant
            i <= files.len(),
            forall|j: int| 0 <= j < i ==> path_key(files@[j].project_path) != path_key(*path),
        decreases files.len() - i,
    {
        if files[i].project_path.worktree_id == path.worktree_id && files[i].project_path.path == path.path {
            return Some(i);
        }
        i += 1;
    }
    None
}

/// Removes `bp` from a list without duplicates when it holds it, adds it
/// otherwise.
fn toggle_list(list: &mut Vec<Breakpoint>, bp: Breakpoint)
    requires
        old(list)@.no_duplicates(),
    ensures
        final(list)@.no_duplicates(),
        final(list)@.to_set() == toggle_in(old(list)@.to_set(), bp),
{
    let ghost before = list@;
    let mut i: usize = 0;
    while i < list.len()
        invariant
            list@ == before,
            before == old(list)@,
            before.no_duplicates(),
            i <= list.len(),
            forall|j: int| 0 <= j < i ==> list@[j] != bp,
        decreases list.len() - i,
    {
        if list[i] == bp {
            list.remove(i);
            proof {
                assert(before.to_set().contains(bp)) by {
                    assert(before[i as int] == bp);
                }
                assert forall|x: Breakpoint| list@.contains(x) <==> before.to_set().remove(bp).contains(x) by {
                    if list@.contains(x) {
                        let k = choose|k: int| 0 <= k < list@.len() && list@[k] == x;
                        if k < i {
                            assert(before[k] == x);
                            assert(k != i as int);
                        } else {
                            assert(before[k + 1] == x);
                            assert(k + 1 != i as int);
                        }
                    }
                    if before.contains(x) && x != bp {
                        let k = choose|k: int| 0 <= k < before.len() && before[k] == x;
                        assert(k != i as int);
                        if k < i {
                            assert(list@[k] == x);
                        } else {
                            assert(list@[k - 1] == x);
                        }
                    }
                }
                assert(list@.to_set() =~= before.to_set().remove(bp));
                assert forall|a: int, b: int| 0 <= a < b < list@.len() implies list@[a] != list@[b] by {
                    let a2 = if a < i { a } else { a + 1 };
                    let b2 = if b < i { b } else { b + 1 };
                    assert(list@[a] == before[a2] && list@[b] == before[b2]);
                }
            }
            return;
        }
        i += 1;
    }
    assert(!before.contains(bp));
    list.push(bp);
    proof {
        assert(list@.to_set() =~= before.to_set().insert(bp)) by {
            assert forall|x: Breakpoint| list@.contains(x) <==> before.to_set().insert(bp).contains(x) by {
                if list@.contains(x) {
                    let k = choose|k: int| 0 <= k < list@.len() && list@[k] == x;
                    if k < before.len() {
                        assert(before[k] == x);
                    }
                }
                if before.contains(x) {
                    let k = choose|k: int| 0 <= k < before.len() && before[k] == x;
                    assert(list@[k] == x);
                }
                if x == bp {
                    assert(list@[before.len() as int] == x);
                }
            }
        }
        assert forall|a: int, b: int| 0 <= a < b < list@.len() implies list@[a] != list@[b] by {
            if b == before.len() {
                assert(list@[a] == before[a]);
            } else {
                assert(list@[a] == before[a] && list@[b] == before[b]);
            }
        }
    }
}

/// Whether an adapter client has started.
#[derive(Clone, Copy, Debug, PartialEq, Eq, Structural)]
pub enum ClientStatus {
    Starting,
    Running,
}

/// The debug adapter clients of a project and the breakpoints of its files.
pub struct DapStore {
    next_client_id: usize,
    clients: Vec<(DebugAdapterClientId, ClientStatus)>,
    breakpoints: Vec<FileBreakpointSet>,
}

impl View for DapStore {
    type V = Map<(u64, Seq<char>), Set<Breakpoint>>;

    closed spec fn view(&self) -> Map<(u64, Seq<char>), Set<Breakpoint>> {
        breakpoint_map(self.breakpoints@)
    }
}

impl DapStore {
    #[verifier::type_invariant]
    closed spec fn inv(&self) -> bool {
        &&& well_keyed(self.breakpoints@)
        &&& forall|i: int, j: int|
            0 <= i < j < self.clients@.len() ==> self.clients@[i].0 != self.clients@[j].0
    }

    /// The status of each client of the store.
    pub closed spec fn client_map(&self) -> Map<DebugAdapterClientId, ClientStatus> {
        Map::new(
            |id: DebugAdapterClientId| exists|i: int| 0 <= i < self.clients@.len() && self.clients@[i].0 == id,
            |id: DebugAdapterClientId|
                self.clients@[choose|i: int| 0 <= i < self.clients@.len() && self.clients@[i].0 == id].1,
        )
    }

    /// The id the next client gets.
    pub closed spec fn next_id(&self) -> usize {
        self.next_client_id
    }

    /// An empty store.
    pub fn new() -> (r: Self)
        ensures
            r@ == Map::<(u64, Seq<char>), Set<Breakpoint>>::empty(),
            r.next_id() == 0,
            r.client_map() == Map::<DebugAdapterClientId, ClientStatus>::empty(),
    {
        let r = DapStore { next_client_id: 0, clients: Vec::new(), breakpoints: Vec::new() };
        assert(r.client_map() =~= Map::<DebugAdapterClientId, ClientStatus>::empty());
        r
    }

    /// Hands out a fresh client id; ids are handed out in increasing order,
    /// wrapping around at the largest one.
    pub fn next_client_id(&mut self) -> (r: DebugAdapterClientId)
        ensures
            r.0 == old(self).next_id(),
            final(self).next_id() == (if old(self).next_id() == usize::MAX {
                0
            } else {
                (old(self).next_id() + 1) as usize
            }),
            final(self)@ == old(self)@,
            final(self).client_map() == old(self).client_map(),
    {
        proof {
            use_type_invariant(&*self);
        }
        let id = self.next_client_id;
        self.next_client_id = self.next_client_id.wrapping_add(1);
        DebugAdapterClientId(id)
    }

    /// Toggles a breakpoint in the breakpoints of a project file; the file
    /// keeps an entry, empty or not.
    pub fn toggle_breakpoint_for_buffer(&mut self, project_path: &ProjectPath, breakpoint: Breakpoint)
        ensures
            final(self)@ == old(self)@.insert(
                path_key(*project_path),
                toggle_in(set_of(old(self)@, path_key(*project_path)), breakpoint),
            ),
            final(self).next_id() == old(self).next_id(),
            final(self).client_map() == old(self).client_map(),
    {
        proof {
            use_type_invariant(&*self);
        }
        let ghost before = self@;
        let mut files: Vec<FileBreakpointSet> = Vec::new();
        std::mem::swap(&mut files, &mut self.breakpoints);
        let ghost all = files@;
        match find_project_path(&files, project_path) {
            Some(i) => {
                proof {
                    lemma_map_at(all, i as int);
                }
                let mut entry = files.remove(i);
                assert(entry.breakpoints@.no_duplicates());
                toggle_list(&mut entry.breakpoints, breakpoint);
                proof {
                    lemma_map_update(all, i as int, entry);
                }
                files.insert(i, entry);
                assert(files@ =~= all.update(i as int, entry));
            },
            None => {
                proof {
                    lemma_map_absent(all, path_key(*project_path));
                }
                let mut list: Vec<Breakpoint> = Vec::new();
                proof {
                    assert(list@.to_set() =~= Set::<Breakpoint>::empty());
                }
                toggle_list(&mut list, breakpoint);
                let entry = FileBreakpointSet {
                    project_path: ProjectPath { worktree_id: project_path.worktree_id, path: project_path.path.clone() },
                    breakpoints: list,
                };
                proof {
                    lemma_map_push(all, entry);
                }
                files.push(entry);
            },
        }
        self.breakpoints = files;
    }
}


/// Adds `bp` to a list without duplicates unless it holds it.
pub(crate) fn add_to_list(list: &mut Vec<Breakpoint>, bp: Breakpoint)
    requires
        old(list)@.no_duplicates(),
    ensures
        final(list)@.no_duplicates(),
        final(list)@.to_set() == old(list)@.to_set().insert(bp),
{
    let ghost before = list@;
    let mut i: usize = 0;
    while i < list.len()
        invariant
            before == old(list)@,
            before.no_duplicates(),
            list@ == before,
            i <= list.len(),
            forall|j: int| 0 <= j < i ==> list@[j] != bp,
        decreases list.len() - i,
    {
        if list[i] == bp {
            assert(before.to_set().insert(bp) =~= before.to_set()) by {
                assert(before.to_set().contains(bp)) by {
                    assert(before[i as int] == bp);
                }
            }
            return;
        }
        i += 1;
    }
    list.push(bp);
    proof {
        assert(list@.to_set() =~= before.to_set().insert(bp)) by {
            assert forall|x: Breakpoint| list@.contains(x) <==> before.to_set().insert(bp).contains(x) by {
                if list@.contains(x) {
                    let k = choose|k: int| 0 <= k < list@.len() && list@[k] == x;
                    if k < before.len() {
                        assert(before[k] == x);
                    }
                }
                if before.contains(x) {
                    let k = choose|k: int| 0 <= k < before.len() && before[k] == x;
                    assert(list@[k] == x);
                }
                if x == bp {
                    assert(list@[before.len() as int] == x);
                }
            }
        }
        assert forall|a: int, b: int| 0 <= a < b < list@.len() implies list@[a] != list@[b] by {
            if b == before.len() {
                assert(list@[a] == before[a]);
            } else {
                assert(list@[a] == before[a] && list@[b] == before[b]);
            }
        }
    }
}

/// The breakpoints after saved breakpoints of a worktree are read back, one
/// after the other, each into the set of its file.
pub open spec fn after_deserializing(
    m: Map<(u64, Seq<char>), Set<Breakpoint>>,
    worktree_id: u64,
    saved: Seq<SerializedBreakpoint>,
) -> Map<(u64, Seq<char>), Set<Breakpoint>>
    decreases saved.len(),
{
    if saved.len() == 0 {
        m
    } else {
        let before = after_deserializing(m, worktree_id, saved.drop_last());
        let key = (worktree_id, saved.last().path@);
        let p = saved.last().position;
        before.insert(
            key,
            set_of(before, key).insert(
                Breakpoint { active_position: None, cache_position: if p == 0 { 0 } else { (p - 1) as u32 } },
            ),
        )
    }
}

/// Toggling the same breakpoint twice leaves the file's breakpoints as they
/// were.
pub proof fn lemma_toggle_twice(s: Set<Breakpoint>, bp: Breakpoint)
    ensures
        toggle_in(toggle_in(s, bp), bp) == s,
{
    if s.contains(bp) {
        assert(s.remove(bp).insert(bp) =~= s);
    } else {
        assert(s.insert(bp).remove(bp) =~= s);
    }
}

impl DapStore {
    fn add_breakpoint(&mut self, project_path: ProjectPath, breakpoint: Breakpoint)
        ensures
            final(self)@ == old(self)@.insert(
                path_key(project_path),
                set_of(old(self)@, path_key(project_path)).insert(breakpoint),
            ),
            final(self).next_id() == old(self).next_id(),
            final(self).client_map() == old(self).client_map(),
    {
        proof {
            use_type_invariant(&*self);
        }
        let mut files: Vec<FileBreakpointSet> = Vec::new();
        std::mem::swap(&mut files, &mut self.breakpoints);
        let ghost all = files@;
        match find_project_path(&files, &project_path) {
            Some(i) => {
                proof {
                    lemma_map_at(all, i as int);
                }
                let mut entry = files.remove(i);
                assert(entry.breakpoints@.no_duplicates());
                add_to_list(&mut entry.breakpoints, breakpoint);
                proof {
                    lemma_map_update(all, i as int, entry);
                }
                files.insert(i, entry);
                assert(files@ =~= all.update(i as int, entry));
            },
            None => {
                proof {
                    lemma_map_absent(all, path_key(project_path));
                }
                let mut list: Vec<Breakpoint> = Vec::new();
                proof {
                    assert(list@.to_set() =~= Set::<Breakpoint>::empty());
                }
                add_to_list(&mut list, breakpoint);
                let entry = FileBreakpointSet { project_path, breakpoints: list };
                proof {
                    lemma_map_push(all, entry);
                }
                files.push(entry);
            },
        }
        self.breakpoints = files;
    }

    /// Reads back saved breakpoints of a worktree: each becomes an anchorless
    /// breakpoint one row above its saved line, in the set of its file.
    pub fn deserialize_breakpoints(&mut self, worktree_id: u64, saved: Vec<SerializedBreakpoint>)
        ensures
            final(self)@ == after_deserializing(old(self)@, worktree_id, saved@),
            final(self).next_id() == old(self).next_id(),
            final(self).client_map() == old(self).client_map(),
    {
        let ghost start = self@;
        let mut i: usize = 0;
        while i < saved.len()
            invariant
                i <= saved.len(),
                self@ == after_deserializing(start, worktree_id, saved@.take(i as int)),
                self.next_id() == old(self).next_id(),
                self.client_map() == old(self).client_map(),
            decreases saved.len() - i,
        {
            assert(saved@.take(i as int + 1).drop_last() =~= saved@.take(i as int));
            assert(saved@.take(i as int + 1).last() == saved@[i as int]);
            let bp = Breakpoint::from_serialized(&saved[i]);
            self.add_breakpoint(ProjectPath { worktree_id, path: saved[i].path.clone() }, bp);
            i += 1;
        }
        assert(saved@.take(saved.len() as int) =~= saved@);
    }

    /// Replaces the breakpoints of a project file by those of a list that
    /// holds none twice; the file keeps an entry.
    pub(crate) fn put_breakpoints(&mut self, project_path: &ProjectPath, list: Vec<Breakpoint>)
        requires
            list@.no_duplicates(),
        ensures
            final(self)@ == old(self)@.insert(path_key(*project_path), list@.to_set()),
            final(self).next_id() == old(self).next_id(),
            final(self).client_map() == old(self).client_map(),
    {
        proof {
            use_type_invariant(&*self);
        }
        let mut files: Vec<FileBreakpointSet> = Vec::new();
        std::mem::swap(&mut files, &mut self.breakpoints);
        let ghost all = files@;
        match find_project_path(&files, project_path) {
            Some(i) => {
                let mut entry = files.remove(i);
                entry.breakpoints = list;
                proof {
                    lemma_map_update(all, i as int, entry);
                }
                files.insert(i, entry);
                assert(files@ =~= all.update(i as int, entry));
            },
            None => {
                proof {
                    lemma_map_absent(all, path_key(*project_path));
                }
                let entry = FileBreakpointSet {
                    project_path: ProjectPath { worktree_id: project_path.worktree_id, path: project_path.path.clone() },
                    breakpoints: list,
                };
                proof {
                    lemma_map_push(all, entry);
                }
                files.push(entry);
            },
        }
        self.breakpoints = files;
    }

    /// Whether the store has an entry for a project file, empty or not.
    pub(crate) fn has_entry(&self, project_path: &ProjectPath) -> (r: bool)
        ensures
            r == self@.contains_key(path_key(*project_path)),
    {
        proof {
            use_type_invariant(self);
        }
        match find_project_path(&self.breakpoints, project_path) {
            Some(i) => {
                proof {
                    lemma_map_at(self.breakpoints@, i as int);
                }
                true
            },
            None => {
                proof {
                    lemma_map_absent(self.breakpoints@, path_key(*project_path));
                }
                false
            },
        }
    }

    /// The breakpoints of a project file.
    pub fn breakpoints_of(&self, project_path: &ProjectPath) -> (r: Vec<Breakpoint>)
        ensures
            r@.to_set() == set_of(self@, path_key(*project_path)),
            r@.no_duplicates(),
    {
        proof {
            use_type_invariant(self);
        }
        match find_project_path(&self.breakpoints, project_path) {
            Some(i) => {
                proof {
                    lemma_map_at(self.breakpoints@, i as int);
                }
                let out = self.breakpoints[i].breakpoints.clone();
                assert(out@ =~= self.breakpoints@[i as int].breakpoints@);
                out
            },
            None => {
                proof {
                    lemma_map_absent(self.breakpoints@, path_key(*project_path));
                }
                let out: Vec<Breakpoint> = Vec::new();
                assert(out@.to_set() =~= Set::<Breakpoint>::empty());
                out
            },
        }
    }
}


impl DapStore {
    fn index_of_client(&self, id: DebugAdapterClientId) -> (r: Option<usize>)
        ensures
            match r {
                Some(i) => i < self.clients.len() && self.clients@[i as int].0 == id
                    && self.client_map().contains_key(id),
                None => !self.client_map().contains_key(id),
            },
    {
        let mut i: usize = 0;
        while i < self.clients.len()
            invariant
                i <= self.clients.len(),
                forall|j: int| 0 <= j < i ==> self.clients@[j].0 != id,
            decreases self.clients.len() - i,
        {
            if self.clients[i].0 == id {
                assert(self.client_map().contains_key(id));
                return Some(i);
            }
            i += 1;
        }
        None
    }

    /// Starts a client under a fresh id: it is starting until it runs.
    pub fn start_client(&mut self) -> (r: DebugAdapterClientId)
        ensures
            r.0 == old(self).next_id(),
            !old(self).client_map().contains_key(r) ==> final(self).client_map() == old(self).client_map().insert(
                r,
                ClientStatus::Starting,
            ),
            final(self)@ == old(self)@,
    {
        let id = self.next_client_id();
        proof {
            use_type_invariant(&*self);
        }
        match self.index_of_client(id) {
            Some(i) => {
                let ghost before = self.client_map();
                let mut clients: Vec<(DebugAdapterClientId, ClientStatus)> = Vec::new();
                std::mem::swap(&mut clients, &mut self.clients);
                clients.set(i, (id, ClientStatus::Starting));
                self.clients = clients;
            },
            None => {
                let ghost before = self.client_map();
                let ghost old_clients = self.clients@;
                let mut clients: Vec<(DebugAdapterClientId, ClientStatus)> = Vec::new();
                std::mem::swap(&mut clients, &mut self.clients);
                clients.push((id, ClientStatus::Starting));
                self.clients = clients;
                proof {
                    let n = old_clients.len() as int;
                    assert(forall|j: int| 0 <= j < n ==> old_clients[j].0 != id);
                    assert forall|x: DebugAdapterClientId| self.client_map().contains_key(x) <==> before.insert(
                        id,
                        ClientStatus::Starting,
                    ).contains_key(x) by {
                        if self.client_map().contains_key(x) {
                            let k = choose|k: int| 0 <= k < self.clients@.len() && self.clients@[k].0 == x;
                            if k < n {
                                assert(old_clients[k] == self.clients@[k]);
                            }
                        }
                        if before.contains_key(x) {
                            let k = choose|k: int| 0 <= k < old_clients.len() && old_clients[k].0 == x;
                            assert(self.clients@[k] == old_clients[k]);
                        }
                        if x == id {
                            assert(self.clients@[n].0 == id);
                        }
                    }
                    assert forall|x: DebugAdapterClientId| #[trigger] self.client_map().contains_key(x) implies self.client_map()[x]
                        == before.insert(id, ClientStatus::Starting)[x] by {
                        let k = choose|k: int| 0 <= k < self.clients@.len() && self.clients@[k].0 == x;
                        if x == id {
                            assert(self.clients@[n].0 == id);
                            if k < n {
                                assert(old_clients[k] == self.clients@[k]);
                            }
                        } else {
                            assert(k != n);
                            assert(old_clients[k] == self.clients@[k]);
                            let k2 = choose|k2: int| 0 <= k2 < old_clients.len() && old_clients[k2].0 == x;
                            assert(self.clients@[k2] == old_clients[k2]);
                        }
                    }
                    assert(self.client_map() =~= before.insert(id, ClientStatus::Starting));
                }
            },
        }
        id
    }

    /// Marks a starting client as running; says whether the store has it.
    pub fn mark_running(&mut self, id: DebugAdapterClientId) -> (found: bool)
        ensures
            found == old(self).client_map().contains_key(id),
            found ==> final(self).client_map() == old(self).client_map().insert(id, ClientStatus::Running),
            !found ==> final(self).client_map() == old(self).client_map(),
            final(self)@ == old(self)@,
            final(self).next_id() == old(self).next_id(),
    {
        proof {
            use_type_invariant(&*self);
        }
        match self.index_of_client(id) {
            Some(i) => {
                let ghost before = self.client_map();
                let ghost old_clients = self.clients@;
                let mut clients: Vec<(DebugAdapterClientId, ClientStatus)> = Vec::new();
                std::mem::swap(&mut clients, &mut self.clients);
                clients.set(i, (id, ClientStatus::Running));
                self.clients = clients;
                proof {
                    assert forall|x: DebugAdapterClientId| self.client_map().contains_key(x) <==> before.insert(
                        id,
                        ClientStatus::Running,
                    ).contains_key(x) by {
                        if self.client_map().contains_key(x) {
                            let k = choose|k: int| 0 <= k < self.clients@.len() && self.clients@[k].0 == x;
                            if k != i {
                                assert(old_clients[k] == self.clients@[k]);
                            }
                        }
                        if before.contains_key(x) {
                            let k = choose|k: int| 0 <= k < old_clients.len() && old_clients[k].0 == x;
                            if k != i {
                                assert(self.clients@[k] == old_clients[k]);
                            } else {
                                assert(self.clients@[k].0 == x);
                            }
                        }
                    }
                    assert forall|x: DebugAdapterClientId| #[trigger] self.client_map().contains_key(x) implies self.client_map()[x]
                        == before.insert(id, ClientStatus::Running)[x] by {
                        let k = choose|k: int| 0 <= k < self.clients@.len() && self.clients@[k].0 == x;
                        if x == id {
                            assert(k == i);
                        } else {
                            assert(old_clients[k] == self.clients@[k]);
                            let k2 = choose|k2: int| 0 <= k2 < old_clients.len() && old_clients[k2].0 == x;
                            assert(k2 == k);
                        }
                    }
                    assert(self.client_map() =~= before.insert(id, ClientStatus::Running));
                }
                true
            },
            None => false,
        }
    }

    /// Whether a client runs; a starting client does not yet.
    pub fn is_running(&self, id: DebugAdapterClientId) -> (r: bool)
        ensures
            r == (self.client_map().contains_key(id) && self.client_map()[id] == ClientStatus::Running),
    {
        proof {
            use_type_invariant(self);
        }
        match self.index_of_client(id) {
            Some(i) => {
                assert(self.client_map()[id] == self.clients@[i as int].1);
                self.clients[i].1 == ClientStatus::Running
            },
            None => false,
        }
    }

    /// The client of an id, when it runs; a starting client is not handed
    /// out yet.
    pub fn client_by_id(&self, id: DebugAdapterClientId) -> (r: Option<DebugAdapterClientId>)
        ensures
            r == (if self.client_map().contains_key(id) && self.client_map()[id] == ClientStatus::Running {
                Some(id)
            } else {
                None
            }),
    {
        if self.is_running(id) {
            Some(id)
        } else {
            None
        }
    }

    /// Removes a client and tells that it stopped; nothing when the store
    /// has no such client.
    pub fn shutdown_client(&mut self, id: DebugAdapterClientId) -> (r: Option<DapStoreEvent>)
        ensures
            r == (if old(self).client_map().contains_key(id) {
                Some(DapStoreEvent::DebugClientStopped(id))
            } else {
                None
            }),
            final(self).client_map() == old(self).client_map().remove(id),
            final(self)@ == old(self)@,
            final(self).next_id() == old(self).next_id(),
    {
        proof {
            use_type_invariant(&*self);
        }
        match self.index_of_client(id) {
            Some(i) => {
                let ghost before = self.client_map();
                let ghost old_clients = self.clients@;
                let mut clients: Vec<(DebugAdapterClientId, ClientStatus)> = Vec::new();
                std::mem::swap(&mut clients, &mut self.clients);
                clients.remove(i);
                assert(forall|k: int| 0 <= k < clients@.len() ==> #[trigger] clients@[k] == (if k < i {
                    old_clients[k]
                } else {
                    old_clients[k + 1]
                }));
                self.clients = clients;
                proof {
                    assert forall|x: DebugAdapterClientId| self.client_map().contains_key(x) <==> before.remove(
                        id,
                    ).contains_key(x) by {
                        if self.client_map().contains_key(x) {
                            let k = choose|k: int| 0 <= k < self.clients@.len() && self.clients@[k].0 == x;
                            if k < i {
                                assert(old_clients[k].0 == x);
                            } else {
                                assert(old_clients[k + 1].0 == x);
                            }
                        }
                        if before.contains_key(x) && x != id {
                            let k = choose|k: int| 0 <= k < old_clients.len() && old_clients[k].0 == x;
                            assert(k != i);
                            if k < i {
                                assert(self.clients@[k] == old_clients[k]);
                            } else {
                                assert(self.clients@[k - 1] == old_clients[k]);
                            }
                        }
                    }
                    assert forall|x: DebugAdapterClientId| #[trigger] self.client_map().contains_key(x) implies self.client_map()[x]
                        == before.remove(id)[x] by {
                        let k = choose|k: int| 0 <= k < self.clients@.len() && self.clients@[k].0 == x;
                        let k_old = if k < i { k } else { k + 1 };
                        assert(old_clients[k_old] == self.clients@[k]);
                        let k2 = choose|k2: int| 0 <= k2 < old_clients.len() && old_clients[k2].0 == x;
                        assert(k2 == k_old);
                    }
                    assert(self.client_map() =~= before.remove(id));
                }
                Some(DapStoreEvent::DebugClientStopped(id))
            },
            None => {
                assert(self.client_map().remove(id) =~= self.client_map());
                None
            },
        }
    }
}

impl DapStore {
    /// The ids of the clients that run, each once; starting clients are left
    /// out.
    pub fn running_clients(&self) -> (r: Vec<DebugAdapterClientId>)
        ensures
            r@.no_duplicates(),
            forall|id: DebugAdapterClientId| #[trigger] r@.contains(id) <==> (self.client_map().contains_key(id)
                && self.client_map()[id] == ClientStatus::Running),
    {
        proof {
            use_type_invariant(self);
        }
        let mut out: Vec<DebugAdapterClientId> = Vec::new();
        let mut i: usize = 0;
        while i < self.clients.len()
            invariant
                i <= self.clients.len(),
                forall|a: int, b: int| 0 <= a < b < self.clients@.len() ==> self.clients@[a].0 != self.clients@[b].0,
                out@.no_duplicates(),
                forall|id: DebugAdapterClientId| #[trigger] out@.contains(id) <==> exists|k: int|
                    0 <= k < i && self.clients@[k].0 == id && self.clients@[k].1 == ClientStatus::Running,
            decreases self.clients.len() - i,
        {
            let (id, status) = self.clients[i];
            if status == ClientStatus::Running {
                proof {
                    assert(!out@.contains(id)) by {
                        if out@.contains(id) {
                            let k = choose|k: int| 0 <= k < i && self.clients@[k].0 == id && self.clients@[k].1
                                == ClientStatus::Running;
                            assert(self.clients@[k].0 != self.clients@[i as int].0);
                        }
                    }
                }
                let ghost before = out@;
                out.push(id);
                proof {
                    assert forall|x: DebugAdapterClientId| #[trigger] out@.contains(x) <==> exists|k: int|
                        0 <= k < i + 1 && self.clients@[k].0 == x && self.clients@[k].1 == ClientStatus::Running by {
                        if out@.contains(x) && x != id {
                            let j = choose|j: int| 0 <= j < out@.len() && out@[j] == x;
                            assert(before[j] == x);
                            assert(before.contains(x));
                        }
                        if exists|k: int| 0 <= k < i + 1 && self.clients@[k].0 == x && self.clients@[k].1
                            == ClientStatus::Running {
                            let k = choose|k: int| 0 <= k < i + 1 && self.clients@[k].0 == x && self.clients@[k].1
                                == ClientStatus::Running;
                            if k < i {
                                assert(before.contains(x));
                                let j = choose|j: int| 0 <= j < before.len() && before[j] == x;
                                assert(out@[j] == x);
                            } else {
                                assert(out@[before.len() as int] == x);
                            }
                        }
                    }
                }
            } else {
                proof {
                    assert forall|x: DebugAdapterClientId| #[trigger] out@.contains(x) <==> exists|k: int|
                        0 <= k < i + 1 && self.clients@[k].0 == x && self.clients@[k].1 == ClientStatus::Running by {
                        if exists|k: int| 0 <= k < i + 1 && self.clients@[k].0 == x && self.clients@[k].1
                            == ClientStatus::Running {
                            let k = choose|k: int| 0 <= k < i + 1 && self.clients@[k].0 == x && self.clients@[k].1
                                == ClientStatus::Running;
                            assert(k < i);
                        }
                    }
                }
            }
            i += 1;
        }
        proof {
            assert forall|id: DebugAdapterClientId| #[trigger] out@.contains(id) <==> (self.client_map().contains_key(id)
                && self.client_map()[id] == ClientStatus::Running) by {
                if out@.contains(id) {
                    let k = choose|k: int| 0 <= k < self.clients@.len() && self.clients@[k].0 == id && self.clients@[k].1
                        == ClientStatus::Running;
                    assert(self.client_map().contains_key(id));
                    let k2 = choose|k2: int| 0 <= k2 < self.clients@.len() && self.clients@[k2].0 == id;
                    assert(k2 == k);
                }
                if self.client_map().contains_key(id) && self.client_map()[id] == ClientStatus::Running {
                    let k2 = choose|k2: int| 0 <= k2 < self.clients@.len() && self.clients@[k2].0 == id;
                    assert(self.clients@[k2].1 == ClientStatus::Running);
                }
            }
        }
        out
    }
}


/// An optional capability flag as a yes-or-no: missing means no.
pub open spec fn supported(flag: Option<bool>) -> bool {
    flag == Some(true)
}

fn supported_exec(flag: Option<bool>) -> (r: bool)
    ensures
        r == supported(flag),
{
    match flag {
        Some(b) => b,
        None => false,
    }
}

/// The unit of a step, sent only when the adapter supports units.
pub open spec fn step_granularity(
    granularity: dap::SteppingGranularity,
    capabilities: dap::Capabilities,
) -> Option<dap::SteppingGranularity> {
    if supported(capabilities.supports_stepping_granularity) {
        Some(granularity)
    } else {
        None
    }
}

/// Single-thread stepping, asked for only when the adapter supports it.
pub open spec fn step_single_thread(capabilities: dap::Capabilities) -> Option<bool> {
    if supported(capabilities.supports_single_thread_execution_requests) {
        Some(true)
    } else {
        None
    }
}

fn step_options(granularity: dap::SteppingGranularity, capabilities: &dap::Capabilities) -> (r: (
    Option<dap::SteppingGranularity>,
    Option<bool>,
))
    ensures
        r.0 == step_granularity(granularity, *capabilities),
        r.1 == step_single_thread(*capabilities),
{
    let g = if supported_exec(capabilities.supports_stepping_granularity) {
        Some(granularity)
    } else {
        None
    };
    let single = if supported_exec(capabilities.supports_single_thread_execution_requests) {
        Some(true)
    } else {
        None
    };
    (g, single)
}

/// The arguments of a `next` request of a thread.
pub fn step_over_arguments(
    thread_id: u64,
    granularity: dap::SteppingGranularity,
    capabilities: &dap::Capabilities,
) -> (r: dap::NextArguments)
    ensures
        r == (dap::NextArguments {
            thread_id,
            granularity: step_granularity(granularity, *capabilities),
            single_thread: step_single_thread(*capabilities),
        }),
{
    let (g, single) = step_options(granularity, capabilities);
    dap::NextArguments { thread_id, granularity: g, single_thread: single }
}

/// The arguments of a `stepIn` request of a thread, with no target.
pub fn step_in_arguments(
    thread_id: u64,
    granularity: dap::SteppingGranularity,
    capabilities: &dap::Capabilities,
) -> (r: dap::StepInArguments)
    ensures
        r == (dap::StepInArguments {
            thread_id,
            granularity: step_granularity(granularity, *capabilities),
            single_thread: step_single_thread(*capabilities),
            target_id: None,
        }),
{
    let (g, single) = step_options(granularity, capabilities);
    dap::StepInArguments { thread_id, granularity: g, single_thread: single, target_id: None }
}

/// The arguments of a `stepOut` request of a thread.
pub fn step_out_arguments(
    thread_id: u64,
    granularity: dap::SteppingGranularity,
    capabilities: &dap::Capabilities,
) -> (r: dap::StepOutArguments)
    ensures
        r == (dap::StepOutArguments {
            thread_id,
            granularity: step_granularity(granularity, *capabilities),
            single_thread: step_single_thread(*capabilities),
        }),
{
    let (g, single) = step_options(granularity, capabilities);
    dap::StepOutArguments { thread_id, granularity: g, single_thread: single }
}

/// The arguments that resume one thread only.
pub fn continue_arguments(thread_id: u64) -> (r: dap::ContinueArguments)
    ensures
        r == (dap::ContinueArguments { thread_id, single_thread: Some(true) }),
{
    dap::ContinueArguments { thread_id, single_thread: Some(true) }
}

/// Disconnecting for good: no restart, the debuggee terminated.
pub fn disconnect_arguments() -> (r: dap::DisconnectArguments)
    ensures
        r == (dap::DisconnectArguments {
            restart: Some(false),
            terminate_debuggee: Some(true),
            suspend_debuggee: Some(false),
        }),
{
    dap::DisconnectArguments { restart: Some(false), terminate_debuggee: Some(true), suspend_debuggee: Some(false) }
}

/// Disconnecting to restart: the debuggee is left running, to be launched
/// or attached again.
pub fn restart_disconnect_arguments() -> (r: dap::DisconnectArguments)
    ensures
        r == (dap::DisconnectArguments {
            restart: Some(true),
            terminate_debuggee: Some(false),
            suspend_debuggee: Some(false),
        }),
{
    dap::DisconnectArguments { restart: Some(true), terminate_debuggee: Some(false), suspend_debuggee: Some(false) }
}

/// The request sent after `initialize` and on restart, by the configured
/// request type.
#[derive(Clone, Copy, Debug, PartialEq, Eq, Structural)]
pub enum StartRequest {
    Launch,
    Attach,
}

pub fn start_request(request: DebugRequestType) -> (r: StartRequest)
    ensures
        r == (match request {
            DebugRequestType::Launch => StartRequest::Launch,
            DebugRequestType::Attach => StartRequest::Attach,
        }),
{
    match request {
        DebugRequestType::Launch => StartRequest::Launch,
        DebugRequestType::Attach => StartRequest::Attach,
    }
}

/// Whether `configurationDone` is sent: only when the adapter supports it.
pub fn sends_configuration_done(capabilities: &dap::Capabilities) -> (r: bool)
    ensures
        r == supported(capabilities.supports_configuration_done_request),
{
    supported_exec(capabilities.supports_configuration_done_request)
}

/// What ending some threads does: a `terminateThreads` request when the
/// adapter supports it, else the whole client is shut down.
#[derive(Clone, Debug, PartialEq)]
pub enum TerminateThreadsAction {
    TerminateThreads(dap::TerminateThreadsArguments),
    ShutdownClient,
}

pub fn terminate_threads_action(thread_ids: Option<Vec<u64>>, capabilities: &dap::Capabilities) -> (r:
    TerminateThreadsAction)
    ensures
        supported(capabilities.supports_terminate_threads_request) ==> r == TerminateThreadsAction::TerminateThreads(
            dap::TerminateThreadsArguments { thread_ids },
        ),
        !supported(capabilities.supports_terminate_threads_request) ==> r == TerminateThreadsAction::ShutdownClient,
{
    if supported_exec(capabilities.supports_terminate_threads_request) {
        TerminateThreadsAction::TerminateThreads(dap::TerminateThreadsArguments { thread_ids })
    } else {
        TerminateThreadsAction::ShutdownClient
    }
}

/// The `initialize` arguments the store sends for an adapter.
pub fn initialize_arguments(adapter_id: String) -> (r: dap::InitializeRequestArguments)
    ensures
        r.client_id matches Some(id) && id@ == "zed"@,
        r.client_name matches Some(name) && name@ == "Zed"@,
        r.adapter_id == adapter_id,
        r.locale matches Some(locale) && locale@ == "en-US"@,
        r.path_format == Some(dap::InitializeRequestArgumentsPathFormat::Path),
        r.supports_variable_type == Some(true),
        r.supports_variable_paging == Some(false),
        r.supports_run_in_terminal_request == Some(false),
        r.supports_memory_references == Some(true),
        r.supports_progress_reporting == Some(false),
        r.supports_invalidated_event == Some(false),
        r.lines_start_at1 == Some(true),
        r.columns_start_at1 == Some(true),
        r.supports_memory_event == Some(false),
        r.supports_args_can_be_interpreted_by_shell == Some(true),
        r.supports_start_debugging_request == Some(true),
{
    dap::InitializeRequestArguments {
        client_id: Some(String::from_str("zed")),
        client_name: Some(String::from_str("Zed")),
        adapter_id,
        locale: Some(String::from_str("en-US")),
        path_format: Some(dap::InitializeRequestArgumentsPathFormat::Path),
        supports_variable_type: Some(true),
        supports_variable_paging: Some(false),
        supports_run_in_terminal_request: Some(false),
        supports_memory_references: Some(true),
        supports_progress_reporting: Some(false),
        supports_invalidated_event: Some(false),
        lines_start_at1: Some(true),
        columns_start_at1: Some(true),
        supports_memory_event: Some(false),
        supports_args_can_be_interpreted_by_shell: Some(true),
        supports_start_debugging_request: Some(true),
    }
}

} // verus!
