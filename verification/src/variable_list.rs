//! The entries of a variable list: the scopes of the selected stack frame,
//! each followed, when expanded, by its variables, each followed in turn,
//! when expanded, by its own children; with the expansion state of each
//! entry and the selected entry.
use vstd::prelude::*;
use vstd::string::*;
use crate::dap;
use crate::dap::{ScopePresentationHint, ScopeView, Variable};
use crate::text::{decimal, decimal_string};

verus! {

/// Where an entry sits in the tree: the references of its ancestors (the
/// scope's first) and, for a variable, its name.
#[derive(Debug, PartialEq)]
pub struct EntryPath {
    pub leaf_name: Option<String>,
    pub indices: Vec<u64>,
}

/// The abstract value of an entry path.
pub struct PathView {
    pub leaf_name: Option<Seq<char>>,
    pub indices: Seq<u64>,
}

impl View for EntryPath {
    type V = PathView;

    open spec fn view(&self) -> PathView {
        PathView {
            leaf_name: match self.leaf_name {
                Some(n) => Some(n@),
                None => None,
            },
            indices: self.indices@,
        }
    }
}

impl EntryPath {
    /// The path of a scope.
    pub fn for_scope(scope_id: u64) -> (r: Self)
        ensures
            r@ == (PathView { leaf_name: None, indices: seq![scope_id] }),
    {
        let r = EntryPath { leaf_name: None, indices: vec![scope_id] };
        assert(r.indices@ =~= seq![scope_id]);
        r
    }

    /// The path with a name.
    pub fn with_name(&self, name: String) -> (r: Self)
        ensures
            r@ == (PathView { leaf_name: Some(name@), indices: self@.indices }),
    {
        EntryPath { leaf_name: Some(name), indices: self.indices.clone() }
    }

    /// The path of a child under the variable of reference
    /// `variable_reference`.
    pub fn with_child(&self, variable_reference: u64) -> (r: Self)
        ensures
            r@ == (PathView { leaf_name: None, indices: self@.indices.push(variable_reference) }),
    {
        let mut indices = self.indices.clone();
        indices.push(variable_reference);
        assert(indices@ =~= self@.indices.push(variable_reference));
        EntryPath { leaf_name: None, indices }
    }

    /// The reference of the entry's parent: the last index.
    pub fn parent_reference_id(&self) -> (r: u64)
        requires
            self.indices.len() > 0,
        ensures
            r == self@.indices.last(),
    {
        self.indices[self.indices.len() - 1]
    }

    /// Whether two paths are equal.
    pub fn same_as(&self, other: &EntryPath) -> (r: bool)
        ensures
            r == (self@ == other@),
    {
        if self.indices.len() != other.indices.len() {
            return false;
        }
        let mut i: usize = 0;
        while i < self.indices.len()
            invariant
                i <= self.indices.len(),
                self.indices.len() == other.indices.len(),
                forall|j: int| 0 <= j < i ==> self.indices@[j] == other.indices@[j],
            decreases self.indices.len() - i,
        {
            if self.indices[i] != other.indices[i] {
                return false;
            }
            i += 1;
        }
        assert(self.indices@ =~= other.indices@);
        match (&self.leaf_name, &other.leaf_name) {
            (None, None) => true,
            (Some(a), Some(b)) => *a == *b,
            _ => false,
        }
    }

    pub fn copy(&self) -> (r: Self)
        ensures
            r@ == self@,
    {
        EntryPath { leaf_name: crate::dap::clone_opt_string(&self.leaf_name), indices: self.indices.clone() }
    }
}

/// How an entry is shown: its depth in the tree and whether its children
/// are shown.
#[derive(Clone, Copy, Debug, PartialEq, Eq, Structural)]
pub struct EntryState {
    pub depth: usize,
    pub is_expanded: bool,
}

/// What an entry shows.
#[derive(Debug)]
pub enum EntryKind {
    Variable(Variable),
    Scope(dap::Scope),
}

/// The abstract value of an entry's kind.
pub enum KindView {
    Variable(Variable),
    Scope(ScopeView),
}

impl View for EntryKind {
    type V = KindView;

    open spec fn view(&self) -> KindView {
        match self {
            EntryKind::Variable(v) => KindView::Variable(*v),
            EntryKind::Scope(s) => KindView::Scope(s@),
        }
    }
}

/// An entry of the list.
#[derive(Debug)]
pub struct ListEntry {
    pub dap_kind: EntryKind,
    pub path: EntryPath,
}

/// The abstract value of an entry.
pub struct EntryView {
    pub kind: KindView,
    pub path: PathView,
}

impl View for ListEntry {
    type V = EntryView;

    open spec fn view(&self) -> EntryView {
        EntryView { kind: self.dap_kind@, path: self.path@ }
    }
}

/// The abstract values of entries.
pub open spec fn entry_views(s: Seq<ListEntry>) -> Seq<EntryView> {
    s.map_values(|e: ListEntry| e@)
}

/// The abstract values of entry states by path.
pub open spec fn state_views(s: Seq<(EntryPath, EntryState)>) -> Seq<(PathView, EntryState)> {
    s.map_values(|e: (EntryPath, EntryState)| (e.0@, e.1))
}

/// The state of a path: that of its first occurrence.
pub open spec fn lookup(s: Seq<(PathView, EntryState)>, p: PathView) -> Option<EntryState>
    decreases s.len(),
{
    if s.len() == 0 {
        None
    } else if s[0].0 == p {
        Some(s[0].1)
    } else {
        lookup(s.skip(1), p)
    }
}

proof fn lemma_lookup_push(s: Seq<(PathView, EntryState)>, x: (PathView, EntryState), p: PathView)
    ensures
        lookup(s.push(x), p) == (if lookup(s, p) is Some {
            lookup(s, p)
        } else if x.0 == p {
            Some(x.1)
        } else {
            None
        }),
    decreases s.len(),
{
    if s.len() > 0 {
        assert(s.push(x)[0] == s[0]);
        assert(s.push(x).skip(1) =~= s.skip(1).push(x));
        lemma_lookup_push(s.skip(1), x, p);
        assert(lookup(s.push(x).skip(1), p) == lookup(s.skip(1).push(x), p));
    } else {
        assert(s.push(x)[0] == x);
        assert(s.push(x).skip(1) =~= Seq::<(PathView, EntryState)>::empty());
        assert(lookup(Seq::<(PathView, EntryState)>::empty(), p) is None);
        assert(lookup(s, p) is None);
    }
}

proof fn lemma_lookup_found(s: Seq<(PathView, EntryState)>, p: PathView)
    ensures
        lookup(s, p) matches Some(st) ==> exists|i: int| 0 <= i < s.len() && s[i] == (p, st),
    decreases s.len(),
{
    if s.len() > 0 && s[0].0 != p {
        lemma_lookup_found(s.skip(1), p);
        if lookup(s, p) is Some {
            let st = lookup(s, p)->0;
            let i = choose|i: int| 0 <= i < s.skip(1).len() && s.skip(1)[i] == (p, st);
            assert(s[i + 1] == (p, st));
        }
    }
}

/// The first index of a path, when it occurs.
proof fn lemma_lookup_index(s: Seq<(PathView, EntryState)>, p: PathView, i: int)
    requires
        0 <= i < s.len(),
        s[i].0 == p,
        forall|j: int| 0 <= j < i ==> s[j].0 != p,
    ensures
        lookup(s, p) == Some(s[i].1),
        forall|st: EntryState, q: PathView|
            lookup(s.update(i, (p, st)), q) == (if q == p {
                Some(st)
            } else {
                lookup(s, q)
            }),
    decreases i,
{
    if i > 0 {
        let t = s.skip(1);
        assert forall|j: int| 0 <= j < i - 1 implies t[j].0 != p by {
            assert(t[j] == s[j + 1]);
        }
        lemma_lookup_index(t, p, i - 1);
        assert forall|st: EntryState, q: PathView| lookup(s.update(i, (p, st)), q) == (if q == p {
            Some(st)
        } else {
            lookup(s, q)
        }) by {
            assert(s.update(i, (p, st))[0] == s[0]);
            assert(s.update(i, (p, st)).skip(1) =~= t.update(i - 1, (p, st)));
            assert(lookup(s.update(i, (p, st)).skip(1), q) == lookup(t.update(i - 1, (p, st)), q));
        }
    } else {
        assert forall|st: EntryState, q: PathView| lookup(s.update(i, (p, st)), q) == (if q == p {
            Some(st)
        } else {
            lookup(s, q)
        }) by {
            assert(s.update(i, (p, st))[0] == (p, st));
            assert(s.update(i, (p, st)).skip(1) =~= s.skip(1));
        }
    }
}

/// The children of a variable reference in a table of fetched variables:
/// those of its first row, none when it has no row.
pub open spec fn children(t: Seq<(u64, Vec<Variable>)>, reference: u64) -> Seq<Variable>
    decreases t.len(),
{
    if t.len() == 0 {
        Seq::empty()
    } else if t[0].0 == reference {
        t[0].1@
    } else {
        children(t.skip(1), reference)
    }
}

fn children_exec(t: &Vec<(u64, Vec<Variable>)>, reference: u64) -> (r: &Vec<Variable>)
    requires
        children(t@, reference).len() > 0,
    ensures
        r@ == children(t@, reference),
{
    let mut i: usize = 0;
    assert(t@.skip(0) =~= t@);
    while i < t.len()
        invariant
            i <= t.len(),
            children(t@, reference) == children(t@.skip(i as int), reference),
            children(t@, reference).len() > 0,
        decreases t.len() - i,
    {
        assert(t@.skip(i as int)[0] == t@[i as int]);
        assert(t@.skip(i as int).skip(1) =~= t@.skip(i as int + 1));
        if t[i].0 == reference {
            return &t[i].1;
        }
        i += 1;
    }
    assert(t@.skip(i as int) =~= Seq::<(u64, Vec<Variable>)>::empty());
    &t[0].1
}

fn has_children(t: &Vec<(u64, Vec<Variable>)>, reference: u64) -> (r: bool)
    ensures
        r == (children(t@, reference).len() > 0),
{
    let mut i: usize = 0;
    assert(t@.skip(0) =~= t@);
    while i < t.len()
        invariant
            i <= t.len(),
            children(t@, reference) == children(t@.skip(i as int), reference),
        decreases t.len() - i,
    {
        assert(t@.skip(i as int)[0] == t@[i as int]);
        assert(t@.skip(i as int).skip(1) =~= t@.skip(i as int + 1));
        if t[i].0 == reference {
            return t[i].1.len() > 0;
        }
        i += 1;
    }
    assert(t@.skip(i as int) =~= Seq::<(u64, Vec<Variable>)>::empty());
    false
}

/// What `str::to_lowercase` gives for a text.
pub uninterp spec fn lowercased(s: Seq<char>) -> Seq<char>;

/// Calls `str::to_lowercase`; the result is a function of the text alone.
#[verifier::external_body]
fn to_lowercase(s: &str) -> (r: String)
    ensures
        r@ == lowercased(s@),
{
    s.to_lowercase()
}

/// Whether an entry is expanded when it has no state yet: a scope is when
/// it is the only one, or is the locals (by its hint, or by its name when it
/// has no hint); a variable is not.
pub open spec fn default_expanded(kind: KindView, scopes_count: nat) -> bool {
    match kind {
        KindView::Scope(s) => scopes_count == 1 || match s.presentation_hint {
            Some(h) => h == ScopePresentationHint::Locals,
            None => lowercased(s.name@) == "locals"@,
        },
        KindView::Variable(_) => false,
    }
}

/// Which entries are open before the user toggles them. The only scope of
/// a frame is open; a scope the adapter hints to be the locals is open; a
/// scope without a hint is open exactly when its name is `locals` ignoring
/// case (what `str::to_lowercase` makes of it is `locals`, as for `Locals`);
/// a scope with another hint is closed when it is not the only one; a
/// variable is closed. An entry met for the first time in a build takes
/// that state.
pub proof fn lemma_default_expansion(
    s: ScopeView,
    v: Variable,
    scopes_count: nat,
    states: Seq<(PathView, EntryState)>,
    path: PathView,
)
    ensures
        scopes_count == 1 ==> default_expanded(KindView::Scope(s), scopes_count),
        s.presentation_hint == Some(ScopePresentationHint::Locals) ==> default_expanded(
            KindView::Scope(s),
            scopes_count,
        ),
        s.presentation_hint is None && lowercased(s.name@) == "locals"@ ==> default_expanded(
            KindView::Scope(s),
            scopes_count,
        ),
        scopes_count != 1 && s.presentation_hint is None && lowercased(s.name@) != "locals"@ ==> !default_expanded(
            KindView::Scope(s),
            scopes_count,
        ),
        scopes_count != 1 && (s.presentation_hint matches Some(h) && h != ScopePresentationHint::Locals)
            ==> !default_expanded(KindView::Scope(s), scopes_count),
        !default_expanded(KindView::Variable(v), scopes_count),
        lookup(states, path) is None ==> state_after(states, path, KindView::Scope(s), scopes_count).0.is_expanded
            == default_expanded(KindView::Scope(s), scopes_count)
            && state_after(states, path, KindView::Scope(s), scopes_count).0.depth == path.indices.len() as usize,
        lookup(states, path) matches Some(st) ==> state_after(states, path, KindView::Scope(s), scopes_count).0
            == st,
{
}

/// The path of an entry: a variable's carries its name.
pub open spec fn entry_path(base: PathView, kind: KindView) -> PathView {
    match kind {
        KindView::Variable(v) => PathView { leaf_name: Some(v.name@), indices: base.indices },
        KindView::Scope(_) => base,
    }
}

/// The state of an entry and the states after it is looked up: an entry
/// with no state gets one, at the depth of its path.
pub open spec fn state_after(
    states: Seq<(PathView, EntryState)>,
    path: PathView,
    kind: KindView,
    scopes_count: nat,
) -> (EntryState, Seq<(PathView, EntryState)>) {
    match lookup(states, path) {
        Some(st) => (st, states),
        None => {
            let st = EntryState { depth: path.indices.len() as usize, is_expanded: default_expanded(kind, scopes_count) };
            (st, states.push((path, st)))
        },
    }
}

/// The entries of a node and of its shown descendants, in order, and the
/// states after them. `bound` exceeds the depth of every expanded entry.
pub open spec fn walk_node(
    t: Seq<(u64, Vec<Variable>)>,
    scopes_count: nat,
    bound: nat,
    reference: u64,
    base: PathView,
    kind: KindView,
    states: Seq<(PathView, EntryState)>,
) -> (Seq<EntryView>, Seq<(PathView, EntryState)>)
    decreases bound - base.indices.len(), 0int, 0int,
{
    let path = entry_path(base, kind);
    let (st, states1) = state_after(states, path, kind, scopes_count);
    let me = EntryView { kind, path };
    if st.is_expanded && path.indices.len() < bound {
        let child_base = PathView { leaf_name: None, indices: path.indices.push(reference) };
        let (rest, states2) = walk_children(t, scopes_count, bound, children(t, reference), child_base, states1);
        (seq![me] + rest, states2)
    } else {
        (seq![me], states1)
    }
}

/// The entries of children under `base`, one after the other.
pub open spec fn walk_children(
    t: Seq<(u64, Vec<Variable>)>,
    scopes_count: nat,
    bound: nat,
    kids: Seq<Variable>,
    base: PathView,
    states: Seq<(PathView, EntryState)>,
) -> (Seq<EntryView>, Seq<(PathView, EntryState)>)
    decreases bound - base.indices.len(), 1int, kids.len(),
{
    if kids.len() == 0 || base.indices.len() > bound {
        (Seq::empty(), states)
    } else {
        let (e1, s1) = walk_node(t, scopes_count, bound, kids[0].variables_reference, base, KindView::Variable(kids[0]), states);
        let (e2, s2) = walk_children(t, scopes_count, bound, kids.skip(1), base, s1);
        (e1 + e2, s2)
    }
}

/// The entries of the scopes that have variables, one after the other.
pub open spec fn walk_scopes(
    t: Seq<(u64, Vec<Variable>)>,
    scopes_count: nat,
    bound: nat,
    scopes: Seq<ScopeView>,
    states: Seq<(PathView, EntryState)>,
) -> (Seq<EntryView>, Seq<(PathView, EntryState)>)
    decreases scopes.len(),
{
    if scopes.len() == 0 {
        (Seq::empty(), states)
    } else if children(t, scopes[0].variables_reference).len() == 0 {
        walk_scopes(t, scopes_count, bound, scopes.skip(1), states)
    } else {
        let r = scopes[0].variables_reference;
        let (e1, s1) = walk_node(t, scopes_count, bound, r, PathView { leaf_name: None, indices: seq![r] }, KindView::Scope(scopes[0]), states);
        let (e2, s2) = walk_scopes(t, scopes_count, bound, scopes.skip(1), s1);
        (e1 + e2, s2)
    }
}

/// How a node is shown: first the node itself, at its path; alone when it
/// is collapsed; when it is expanded (and shallower than the bound) and has
/// variables under its reference, its first variable follows it at once,
/// one level deeper, under the node's path and that reference.
pub proof fn lemma_node_shape(
    t: Seq<(u64, Vec<Variable>)>,
    scopes_count: nat,
    bound: nat,
    reference: u64,
    base: PathView,
    kind: KindView,
    states: Seq<(PathView, EntryState)>,
)
    ensures
        ({
            let e = walk_node(t, scopes_count, bound, reference, base, kind, states).0;
            let path = entry_path(base, kind);
            let st = state_after(states, path, kind, scopes_count).0;
            &&& e.len() >= 1
            &&& e[0] == (EntryView { kind, path })
            &&& !st.is_expanded ==> e.len() == 1
            &&& st.is_expanded && path.indices.len() < bound && children(t, reference).len() > 0 ==> {
                let first = children(t, reference)[0];
                &&& e.len() >= 2
                &&& e[1] == (EntryView {
                    kind: KindView::Variable(first),
                    path: PathView { leaf_name: Some(first.name@), indices: path.indices.push(reference) },
                })
            }
        }),
{
    let path = entry_path(base, kind);
    let (st, states1) = state_after(states, path, kind, scopes_count);
    if st.is_expanded && path.indices.len() < bound && children(t, reference).len() > 0 {
        let kids = children(t, reference);
        let child_base = PathView { leaf_name: None, indices: path.indices.push(reference) };
        let (rest, states2) = walk_children(t, scopes_count, bound, kids, child_base, states1);
        let (e1, s1) = walk_node(
            t,
            scopes_count,
            bound,
            kids[0].variables_reference,
            child_base,
            KindView::Variable(kids[0]),
            states1,
        );
        assert(e1[0] == (EntryView {
            kind: KindView::Variable(kids[0]),
            path: entry_path(child_base, KindView::Variable(kids[0])),
        }));
        assert(child_base.indices.len() <= bound);
        assert(rest == e1 + walk_children(t, scopes_count, bound, kids.skip(1), child_base, s1).0);
        assert(rest[0] == e1[0]);
    }
}

/// The greatest depth of an expanded state, at least one.
pub open spec fn deepest_expanded(s: Seq<(PathView, EntryState)>) -> nat
    decreases s.len(),
{
    if s.len() == 0 {
        1
    } else {
        let rest = deepest_expanded(s.drop_last());
        if s.last().1.is_expanded && s.last().0.indices.len() > rest {
            s.last().0.indices.len()
        } else {
            rest
        }
    }
}

/// A bound beyond the depth of every expanded entry.
pub open spec fn depth_bound(s: Seq<(PathView, EntryState)>) -> nat {
    deepest_expanded(s) + 1
}

/// Every expanded state lies above `bound`, and every state's depth is the
/// length of its path.
pub open spec fn states_ok(s: Seq<(PathView, EntryState)>, bound: nat) -> bool {
    forall|i: int|
        0 <= i < s.len() ==> (#[trigger] s[i]).1.depth == s[i].0.indices.len() as usize && (s[i].1.is_expanded
            ==> s[i].0.indices.len() < bound)
}

proof fn lemma_deepest(s: Seq<(PathView, EntryState)>)
    ensures
        deepest_expanded(s) >= 1,
        forall|i: int| 0 <= i < s.len() && (#[trigger] s[i]).1.is_expanded ==> s[i].0.indices.len() <= deepest_expanded(s),
    decreases s.len(),
{
    if s.len() > 0 {
        lemma_deepest(s.drop_last());
        assert forall|i: int| 0 <= i < s.len() && (#[trigger] s[i]).1.is_expanded implies s[i].0.indices.len()
            <= deepest_expanded(s) by {
            if i < s.len() - 1 {
                assert(s.drop_last()[i] == s[i]);
            }
        }
    }
}


/// The abstract values of scopes.
pub open spec fn scope_views(s: Seq<dap::Scope>) -> Seq<ScopeView> {
    s.map_values(|sc: dap::Scope| sc@)
}

fn default_expanded_exec(kind: &EntryKind, scopes_count: usize) -> (r: bool)
    ensures
        r == default_expanded(kind@, scopes_count as nat),
{
    match kind {
        EntryKind::Scope(s) => {
            if scopes_count == 1 {
                return true;
            }
            match s.presentation_hint {
                Some(h) => h == ScopePresentationHint::Locals,
                None => {
                    let lower = to_lowercase(s.name.as_str());
                    let locals = String::from_str("locals");
                    proof {
                        reveal_strlit("locals");
                    }
                    lower == locals
                },
            }
        },
        EntryKind::Variable(_) => false,
    }
}

/// Finds the first state of a path.
fn find_state(states: &Vec<(EntryPath, EntryState)>, path: &EntryPath) -> (r: Option<usize>)
    ensures
        match r {
            Some(i) => i < states.len() && lookup(state_views(states@), path@) == Some(states@[i as int].1)
                && state_views(states@)[i as int].0 == path@
                && forall|j: int| 0 <= j < i ==> state_views(states@)[j].0 != path@,
            None => lookup(state_views(states@), path@) is None,
        },
{
    let ghost sv = state_views(states@);
    let mut i: usize = 0;
    while i < states.len()
        invariant
            i <= states.len(),
            sv == state_views(states@),
            forall|j: int| 0 <= j < i ==> sv[j].0 != path@,
        decreases states.len() - i,
    {
        if states[i].0.same_as(path) {
            proof {
                lemma_lookup_index(sv, path@, i as int);
            }
            return Some(i);
        }
        i += 1;
    }
    proof {
        lemma_lookup_found(sv, path@);
        if lookup(sv, path@) is Some {
            let st = lookup(sv, path@)->0;
            let k = choose|k: int| 0 <= k < sv.len() && sv[k] == (path@, st);
            assert(sv[k].0 == path@);
        }
    }
    None
}

fn walk_node_exec(
    t: &Vec<(u64, Vec<Variable>)>,
    scopes_count: usize,
    reference: u64,
    base: EntryPath,
    kind: EntryKind,
    states: &mut Vec<(EntryPath, EntryState)>,
    entries: &mut Vec<ListEntry>,
    Ghost(bound): Ghost<nat>,
)
    requires
        states_ok(state_views(old(states)@), bound),
        base@.indices.len() <= bound,
        kind@ is Scope ==> base@.indices.len() == 1 && bound >= 2,
    ensures
        entry_views(final(entries)@) == entry_views(old(entries)@) + walk_node(
            t@,
            scopes_count as nat,
            bound,
            reference,
            base@,
            kind@,
            state_views(old(states)@),
        ).0,
        state_views(final(states)@) == walk_node(
            t@,
            scopes_count as nat,
            bound,
            reference,
            base@,
            kind@,
            state_views(old(states)@),
        ).1,
        states_ok(state_views(final(states)@), bound),
    decreases bound - base@.indices.len(), 0int, 0int,
{
    let ghost s0 = state_views(states@);
    let ghost e0 = entry_views(entries@);
    let ghost kv = kind@;
    let path = match &kind {
        EntryKind::Variable(v) => base.with_name(v.name.clone()),
        EntryKind::Scope(_) => base,
    };
    assert(path@ == entry_path(base@, kv));
    let st = match find_state(states, &path) {
        Some(i) => {
            proof {
                lemma_lookup_found(s0, path@);
            }
            states[i].1
        },
        None => {
            let st = EntryState { depth: path.indices.len(), is_expanded: default_expanded_exec(&kind, scopes_count) };
            states.push((path.copy(), st));
            proof {
                assert(state_views(states@) =~= s0.push((path@, st)));
                assert forall|i: int| 0 <= i < state_views(states@).len() implies (#[trigger] state_views(
                    states@,
                )[i]).1.depth == state_views(states@)[i].0.indices.len() as usize && (state_views(states@)[i].1.is_expanded
                    ==> state_views(states@)[i].0.indices.len() < bound) by {
                    if i < s0.len() {
                        assert(state_views(states@)[i] == s0[i]);
                    }
                }
            }
            st
        },
    };
    let ghost s1 = state_views(states@);
    assert(state_after(s0, path@, kv, scopes_count as nat) == (st, s1));
    proof {
        if st.is_expanded {
            if lookup(s0, path@) is Some {
                let k = choose|k: int| 0 <= k < s0.len() && s0[k] == (path@, st);
                assert(s0[k].1.is_expanded);
            }
        }
    }
    assert(st.is_expanded ==> path@.indices.len() < bound);
    let expanded = st.is_expanded;
    let child_base = path.with_child(reference);
    entries.push(ListEntry { dap_kind: kind, path });
    assert(entry_views(entries@) =~= e0 + seq![EntryView { kind: kv, path: entry_path(base@, kv) }]);
    if expanded {
        if has_children(t, reference) {
            let kids = children_exec(t, reference);
            walk_children_exec(t, scopes_count, kids, &child_base, states, entries, Ghost(bound));
        } else {
            assert(walk_children(t@, scopes_count as nat, bound, children(t@, reference), child_base@, s1).0
                =~= Seq::<EntryView>::empty());
        }
        assert(entry_views(entries@) =~= e0 + walk_node(t@, scopes_count as nat, bound, reference, base@, kv, s0).0);
    }
}

fn walk_children_exec(
    t: &Vec<(u64, Vec<Variable>)>,
    scopes_count: usize,
    kids: &Vec<Variable>,
    base: &EntryPath,
    states: &mut Vec<(EntryPath, EntryState)>,
    entries: &mut Vec<ListEntry>,
    Ghost(bound): Ghost<nat>,
)
    requires
        states_ok(state_views(old(states)@), bound),
        base@.indices.len() <= bound,
    ensures
        entry_views(final(entries)@) == entry_views(old(entries)@) + walk_children(
            t@,
            scopes_count as nat,
            bound,
            kids@,
            base@,
            state_views(old(states)@),
        ).0,
        state_views(final(states)@) == walk_children(
            t@,
            scopes_count as nat,
            bound,
            kids@,
            base@,
            state_views(old(states)@),
        ).1,
        states_ok(state_views(final(states)@), bound),
    decreases bound - base@.indices.len(), 1int, kids@.len(),
{
    let ghost total = walk_children(t@, scopes_count as nat, bound, kids@, base@, state_views(states@));
    let ghost e_start = entry_views(entries@);
    let mut i: usize = 0;
    assert(kids@.skip(0) =~= kids@);
    assert(e_start + total.0 =~= entry_views(entries@) + walk_children(
        t@,
        scopes_count as nat,
        bound,
        kids@.skip(0),
        base@,
        state_views(states@),
    ).0);
    while i < kids.len()
        invariant
            i <= kids.len(),
            base@.indices.len() <= bound,
            states_ok(state_views(states@), bound),
            e_start + total.0 == entry_views(entries@) + walk_children(
                t@,
                scopes_count as nat,
                bound,
                kids@.skip(i as int),
                base@,
                state_views(states@),
            ).0,
            total.1 == walk_children(
                t@,
                scopes_count as nat,
                bound,
                kids@.skip(i as int),
                base@,
                state_views(states@),
            ).1,
        decreases kids.len() - i,
    {
        let ghost rest = kids@.skip(i as int);
        let ghost before = entry_views(entries@);
        let ghost sb = state_views(states@);
        assert(rest[0] == kids@[i as int]);
        assert(rest.skip(1) =~= kids@.skip(i as int + 1));
        let kid = kids[i].clone();
        walk_node_exec(
            t,
            scopes_count,
            kid.variables_reference,
            base.copy(),
            EntryKind::Variable(kid),
            states,
            entries,
            Ghost(bound),
        );
        i += 1;
        assert(before + walk_children(t@, scopes_count as nat, bound, rest, base@, sb).0 =~= entry_views(entries@)
            + walk_children(t@, scopes_count as nat, bound, kids@.skip(i as int), base@, state_views(states@)).0);
    }
    assert(kids@.skip(i as int) =~= Seq::<Variable>::empty());
    assert(entry_views(entries@) =~= e_start + total.0);
}


/// Every entry has a state, at the depth of its path.
pub open spec fn all_have_states(es: Seq<EntryView>, s: Seq<(PathView, EntryState)>) -> bool {
    forall|i: int|
        0 <= i < es.len() ==> (lookup(s, (#[trigger] es[i]).path) matches Some(st) && st.depth == es[i].path.indices.len() as usize)
}

/// `s2` keeps the state of every path that `s1` has.
pub open spec fn keeps_states(s1: Seq<(PathView, EntryState)>, s2: Seq<(PathView, EntryState)>) -> bool {
    forall|p: PathView| #[trigger] lookup(s1, p) is Some ==> lookup(s2, p) == lookup(s1, p)
}

/// Every state's depth is the length of its path.
pub open spec fn depths_ok(s: Seq<(PathView, EntryState)>) -> bool {
    forall|i: int| 0 <= i < s.len() ==> (#[trigger] s[i]).1.depth == s[i].0.indices.len() as usize
}

proof fn lemma_lookup_depth(s: Seq<(PathView, EntryState)>, p: PathView)
    requires
        depths_ok(s),
    ensures
        lookup(s, p) matches Some(st) ==> st.depth == p.indices.len() as usize,
{
    lemma_lookup_found(s, p);
    if lookup(s, p) is Some {
        let st = lookup(s, p)->0;
        let k = choose|k: int| 0 <= k < s.len() && s[k] == (p, st);
        assert(s[k].1.depth == s[k].0.indices.len() as usize);
    }
}

proof fn lemma_state_after(s: Seq<(PathView, EntryState)>, path: PathView, kind: KindView, count: nat)
    requires
        depths_ok(s),
    ensures
        keeps_states(s, state_after(s, path, kind, count).1),
        depths_ok(state_after(s, path, kind, count).1),
        lookup(state_after(s, path, kind, count).1, path) == Some(state_after(s, path, kind, count).0),
        state_after(s, path, kind, count).0.depth == path.indices.len() as usize,
{
    lemma_lookup_depth(s, path);
    if lookup(s, path) is None {
        let st = state_after(s, path, kind, count).0;
        let s2 = s.push((path, st));
        assert forall|p: PathView| #[trigger] lookup(s, p) is Some implies lookup(s2, p) == lookup(s, p) by {
            lemma_lookup_push(s, (path, st), p);
        }
        lemma_lookup_push(s, (path, st), path);
        assert forall|i: int| 0 <= i < s2.len() implies (#[trigger] s2[i]).1.depth == s2[i].0.indices.len() as usize by {
            if i < s.len() {
                assert(s2[i] == s[i]);
            }
        }
    }
}

proof fn lemma_keeps_trans(a: Seq<(PathView, EntryState)>, b: Seq<(PathView, EntryState)>, c: Seq<(PathView, EntryState)>)
    requires
        keeps_states(a, b),
        keeps_states(b, c),
    ensures
        keeps_states(a, c),
{
    assert forall|p: PathView| #[trigger] lookup(a, p) is Some implies lookup(c, p) == lookup(a, p) by {
        assert(lookup(b, p) is Some);
    }
}

proof fn lemma_walk_node_states(
    t: Seq<(u64, Vec<Variable>)>,
    count: nat,
    bound: nat,
    reference: u64,
    base: PathView,
    kind: KindView,
    s: Seq<(PathView, EntryState)>,
)
    requires
        depths_ok(s),
    ensures
        keeps_states(s, walk_node(t, count, bound, reference, base, kind, s).1),
        depths_ok(walk_node(t, count, bound, reference, base, kind, s).1),
        all_have_states(walk_node(t, count, bound, reference, base, kind, s).0, walk_node(t, count, bound, reference, base, kind, s).1),
    decreases bound - base.indices.len(), 0int, 0int,
{
    let path = entry_path(base, kind);
    let (st, s1) = state_after(s, path, kind, count);
    lemma_state_after(s, path, kind, count);
    let me = EntryView { kind, path };
    if st.is_expanded && path.indices.len() < bound {
        let child_base = PathView { leaf_name: None, indices: path.indices.push(reference) };
        let (rest, s2) = walk_children(t, count, bound, children(t, reference), child_base, s1);
        lemma_walk_children_states(t, count, bound, children(t, reference), child_base, s1);
        lemma_keeps_trans(s, s1, s2);
        let es = seq![me] + rest;
        assert forall|i: int| 0 <= i < es.len() implies (lookup(s2, (#[trigger] es[i]).path) matches Some(x) && x.depth
            == es[i].path.indices.len() as usize) by {
            if i == 0 {
                assert(lookup(s1, path) is Some);
            } else {
                assert(es[i] == rest[i - 1]);
            }
        }
    } else {
        let es = seq![me];
        assert forall|i: int| 0 <= i < es.len() implies (lookup(s1, (#[trigger] es[i]).path) matches Some(x) && x.depth
            == es[i].path.indices.len() as usize) by {
            assert(es[i] == me);
        }
    }
}

proof fn lemma_walk_children_states(
    t: Seq<(u64, Vec<Variable>)>,
    count: nat,
    bound: nat,
    kids: Seq<Variable>,
    base: PathView,
    s: Seq<(PathView, EntryState)>,
)
    requires
        depths_ok(s),
    ensures
        keeps_states(s, walk_children(t, count, bound, kids, base, s).1),
        depths_ok(walk_children(t, count, bound, kids, base, s).1),
        all_have_states(walk_children(t, count, bound, kids, base, s).0, walk_children(t, count, bound, kids, base, s).1),
    decreases bound - base.indices.len(), 1int, kids.len(),
{
    if kids.len() == 0 || base.indices.len() > bound {
    } else {
        let (e1, s1) = walk_node(t, count, bound, kids[0].variables_reference, base, KindView::Variable(kids[0]), s);
        let (e2, s2) = walk_children(t, count, bound, kids.skip(1), base, s1);
        lemma_walk_node_states(t, count, bound, kids[0].variables_reference, base, KindView::Variable(kids[0]), s);
        lemma_walk_children_states(t, count, bound, kids.skip(1), base, s1);
        lemma_keeps_trans(s, s1, s2);
        let es = e1 + e2;
        assert forall|i: int| 0 <= i < es.len() implies (lookup(s2, (#[trigger] es[i]).path) matches Some(x) && x.depth
            == es[i].path.indices.len() as usize) by {
            if i < e1.len() {
                assert(es[i] == e1[i]);
                assert(lookup(s1, e1[i].path) is Some);
            } else {
                assert(es[i] == e2[i - e1.len()]);
            }
        }
    }
}

/// Every entry a walk of the scopes shows has a state, at the depth of its
/// path, and the walk keeps every state it started with.
pub proof fn lemma_walk_scopes_states(
    t: Seq<(u64, Vec<Variable>)>,
    count: nat,
    bound: nat,
    scopes: Seq<ScopeView>,
    s: Seq<(PathView, EntryState)>,
)
    requires
        depths_ok(s),
    ensures
        keeps_states(s, walk_scopes(t, count, bound, scopes, s).1),
        depths_ok(walk_scopes(t, count, bound, scopes, s).1),
        all_have_states(walk_scopes(t, count, bound, scopes, s).0, walk_scopes(t, count, bound, scopes, s).1),
    decreases scopes.len(),
{
    if scopes.len() == 0 {
    } else if children(t, scopes[0].variables_reference).len() == 0 {
        lemma_walk_scopes_states(t, count, bound, scopes.skip(1), s);
    } else {
        let r = scopes[0].variables_reference;
        let base = PathView { leaf_name: None, indices: seq![r] };
        let (e1, s1) = walk_node(t, count, bound, r, base, KindView::Scope(scopes[0]), s);
        let (e2, s2) = walk_scopes(t, count, bound, scopes.skip(1), s1);
        lemma_walk_node_states(t, count, bound, r, base, KindView::Scope(scopes[0]), s);
        lemma_walk_scopes_states(t, count, bound, scopes.skip(1), s1);
        lemma_keeps_trans(s, s1, s2);
        let es = e1 + e2;
        assert forall|i: int| 0 <= i < es.len() implies (lookup(s2, (#[trigger] es[i]).path) matches Some(x) && x.depth
            == es[i].path.indices.len() as usize) by {
            if i < e1.len() {
                assert(es[i] == e1[i]);
                assert(lookup(s1, e1[i].path) is Some);
            } else {
                assert(es[i] == e2[i - e1.len()]);
            }
        }
    }
}


/// The name an entry shows: its variable's or its scope's.
pub open spec fn kind_name(k: KindView) -> Seq<char> {
    match k {
        KindView::Variable(v) => v.name@,
        KindView::Scope(s) => s.name@,
    }
}

/// Four spaces for each of `n` levels.
pub open spec fn indent(n: nat) -> Seq<char>
    decreases n,
{
    if n == 0 {
        Seq::empty()
    } else {
        indent((n - 1) as nat) + "    "@
    }
}

/// How an entry is drawn as text: indented by its depth below the top
/// level, `v` when expanded and `>` when not, then its name.
pub open spec fn visual_line(state: EntryState, name: Seq<char>) -> Seq<char> {
    indent((state.depth - 1) as nat) + (if state.is_expanded {
        "v"@
    } else {
        ">"@
    }) + " "@ + name
}

/// `-<index>` for each index of a path, in order.
pub open spec fn indices_suffix(indices: Seq<u64>) -> Seq<char>
    decreases indices.len(),
{
    if indices.len() == 0 {
        Seq::empty()
    } else {
        indices_suffix(indices.drop_last()) + "-"@ + decimal(indices.last() as nat)
    }
}

/// The id of an entry: `variable-<name>` or `scope-<name>`, then its path's
/// indices.
pub open spec fn entry_item_id(e: EntryView) -> Seq<char> {
    (match e.kind {
        KindView::Variable(v) => "variable-"@ + v.name@,
        KindView::Scope(s) => "scope-"@ + s.name@,
    }) + indices_suffix(e.path.indices)
}

/// The scopes among entries, in order.
pub open spec fn shown_scopes(es: Seq<EntryView>) -> Seq<ScopeView>
    decreases es.len(),
{
    if es.len() == 0 {
        Seq::empty()
    } else {
        match es.last().kind {
            KindView::Scope(s) => shown_scopes(es.drop_last()).push(s),
            KindView::Variable(_) => shown_scopes(es.drop_last()),
        }
    }
}

impl ListEntry {
    /// The id of the entry.
    pub fn item_id(&self) -> (r: String)
        ensures
            r@ == entry_item_id(self@),
    {
        let mut id = match &self.dap_kind {
            EntryKind::Variable(v) => {
                let mut t = String::from_str("variable-");
                t.append(v.name.as_str());
                t
            },
            EntryKind::Scope(sc) => {
                let mut t = String::from_str("scope-");
                t.append(sc.name.as_str());
                t
            },
        };
        proof {
            reveal_strlit("variable-");
            reveal_strlit("scope-");
            reveal_strlit("-");
        }
        let ghost head = id@;
        let mut i: usize = 0;
        while i < self.path.indices.len()
            invariant
                i <= self.path.indices.len(),
                id@ == head + indices_suffix(self.path.indices@.take(i as int)),
            decreases self.path.indices.len() - i,
        {
            assert(self.path.indices@.take(i as int + 1).drop_last() =~= self.path.indices@.take(i as int));
            id.append("-");
            id.append(decimal_string(self.path.indices[i]).as_str());
            i += 1;
        }
        assert(self.path.indices@.take(self.path.indices.len() as int) =~= self.path.indices@);
        id
    }

    /// The id of the entry's value: the same as the entry's.
    pub fn item_value_id(&self) -> (r: String)
        ensures
            r@ == entry_item_id(self@),
    {
        self.item_id()
    }
}

/// The variable list of the selected stack frame.
pub struct VariableList {
    entries: Vec<ListEntry>,
    entry_states: Vec<(EntryPath, EntryState)>,
    selected_stack_frame_id: Option<u64>,
    selection: Option<EntryPath>,
}

/// The entries a walk of the scopes shows, and the states after it.
pub open spec fn visible_entries(
    t: Seq<(u64, Vec<Variable>)>,
    scopes: Seq<ScopeView>,
    states: Seq<(PathView, EntryState)>,
) -> (Seq<EntryView>, Seq<(PathView, EntryState)>) {
    walk_scopes(t, scopes.len(), depth_bound(states), scopes, states)
}

/// The state of `q` once the entry at `p` is toggled: `p`'s state with its
/// expansion flipped, when it has one; every other state as it was.
pub open spec fn toggled(s: Seq<(PathView, EntryState)>, p: PathView, q: PathView) -> Option<EntryState> {
    if q == p {
        match lookup(s, p) {
            Some(st) => Some(EntryState { depth: st.depth, is_expanded: !st.is_expanded }),
            None => None,
        }
    } else {
        lookup(s, q)
    }
}

/// Toggling the same entry twice gives every entry back the state it had.
pub proof fn lemma_toggle_entry_twice(
    before: Seq<(PathView, EntryState)>,
    mid: Seq<(PathView, EntryState)>,
    after: Seq<(PathView, EntryState)>,
    p: PathView,
)
    requires
        forall|q: PathView| #[trigger] lookup(mid, q) == toggled(before, p, q),
        forall|q: PathView| #[trigger] lookup(after, q) == toggled(mid, p, q),
    ensures
        forall|q: PathView| #[trigger] lookup(after, q) == lookup(before, q),
{
    assert forall|q: PathView| #[trigger] lookup(after, q) == lookup(before, q) by {
        assert(lookup(mid, p) == toggled(before, p, p));
        assert(lookup(after, q) == toggled(mid, p, q));
        assert(lookup(mid, q) == toggled(before, p, q));
    }
}

impl VariableList {
    #[verifier::type_invariant]
    closed spec fn inv(&self) -> bool {
        depths_ok(state_views(self.entry_states@))
    }

    /// The entries shown, in order.
    pub closed spec fn shown(&self) -> Seq<EntryView> {
        entry_views(self.entries@)
    }

    /// The state of each path, by its first occurrence.
    pub closed spec fn states(&self) -> Seq<(PathView, EntryState)> {
        state_views(self.entry_states@)
    }

    /// The selected stack frame.
    pub closed spec fn frame(&self) -> Option<u64> {
        self.selected_stack_frame_id
    }

    /// The path of the selected entry.
    pub closed spec fn selected(&self) -> Option<PathView> {
        match self.selection {
            Some(p) => Some(p@),
            None => None,
        }
    }

    /// An empty list with no frame selected.
    pub fn new() -> (r: Self)
        ensures
            r.shown() == Seq::<EntryView>::empty(),
            r.states() == Seq::<(PathView, EntryState)>::empty(),
            r.frame() is None,
            r.selected() is None,
    {
        let r = VariableList { entries: Vec::new(), entry_states: Vec::new(), selected_stack_frame_id: None, selection: None };
        assert(r.shown() =~= Seq::<EntryView>::empty());
        assert(r.states() =~= Seq::<(PathView, EntryState)>::empty());
        r
    }

    /// Rebuilds the entries from the selected frame's scopes and the fetched
    /// variables; nothing changes while no frame is selected.
    pub fn build_entries(&mut self, scopes: &Vec<dap::Scope>, table: &Vec<(u64, Vec<Variable>)>)
        ensures
            old(self).frame() is None ==> final(self).shown() == old(self).shown() && final(self).states()
                == old(self).states(),
            old(self).frame() is Some ==> final(self).shown() == visible_entries(table@, scope_views(scopes@), old(self).states()).0
                && final(self).states() == visible_entries(table@, scope_views(scopes@), old(self).states()).1,
            all_have_states(visible_entries(table@, scope_views(scopes@), old(self).states()).0, visible_entries(table@, scope_views(scopes@), old(self).states()).1),
            final(self).frame() == old(self).frame(),
            final(self).selected() == old(self).selected(),
    {
        proof {
            use_type_invariant(&*self);
            lemma_walk_scopes_states(table@, scopes.len() as nat, depth_bound(self.states()), scope_views(scopes@), self.states());
        }
        if self.selected_stack_frame_id.is_none() {
            return;
        }
        let ghost s0 = self.states();
        let ghost bound = depth_bound(s0);
        let ghost sv = scope_views(scopes@);
        let ghost total = walk_scopes(table@, scopes.len() as nat, bound, sv, s0);
        proof {
            lemma_deepest(s0);
        }
        let mut states: Vec<(EntryPath, EntryState)> = Vec::new();
        std::mem::swap(&mut states, &mut self.entry_states);
        assert(states_ok(state_views(states@), bound));
        let mut entries: Vec<ListEntry> = Vec::new();
        let mut i: usize = 0;
        assert(sv.skip(0) =~= sv);
        assert(entry_views(entries@) =~= Seq::<EntryView>::empty());
        assert(total.0 =~= entry_views(entries@) + walk_scopes(table@, scopes.len() as nat, bound, sv.skip(0), state_views(states@)).0);
        while i < scopes.len()
            invariant
                i <= scopes.len(),
                sv == scope_views(scopes@),
                bound >= 2,
                states_ok(state_views(states@), bound),
                total.0 == entry_views(entries@) + walk_scopes(table@, scopes.len() as nat, bound, sv.skip(i as int), state_views(states@)).0,
                total.1 == walk_scopes(table@, scopes.len() as nat, bound, sv.skip(i as int), state_views(states@)).1,
            decreases scopes.len() - i,
        {
            let ghost rest = sv.skip(i as int);
            let ghost before = entry_views(entries@);
            let ghost sb = state_views(states@);
            assert(rest[0] == scopes@[i as int]@);
            assert(rest.skip(1) =~= sv.skip(i as int + 1));
            let reference = scopes[i].variables_reference;
            if has_children(table, reference) {
                let base = EntryPath::for_scope(reference);
                walk_node_exec(
                    table,
                    scopes.len(),
                    reference,
                    base,
                    EntryKind::Scope(scopes[i].clone()),
                    &mut states,
                    &mut entries,
                    Ghost(bound),
                );
                assert(before + walk_scopes(table@, scopes.len() as nat, bound, rest, sb).0 =~= entry_views(entries@)
                    + walk_scopes(table@, scopes.len() as nat, bound, sv.skip(i as int + 1), state_views(states@)).0);
            }
            i += 1;
        }
        assert(sv.skip(i as int) =~= Seq::<ScopeView>::empty());
        assert(entry_views(entries@) =~= total.0);
        proof {
            assert forall|k: int| 0 <= k < state_views(states@).len() implies (#[trigger] state_views(states@)[k]).1.depth
                == state_views(states@)[k].0.indices.len() as usize by {
                assert(states_ok(state_views(states@), bound));
            }
        }
        self.entry_states = states;
        self.entries = entries;
    }

    /// Selects a stack frame and rebuilds the entries for it.
    pub fn select_stack_frame(&mut self, stack_frame_id: u64, scopes: &Vec<dap::Scope>, table: &Vec<(u64, Vec<Variable>)>)
        ensures
            final(self).frame() == Some(stack_frame_id),
            final(self).shown() == visible_entries(table@, scope_views(scopes@), old(self).states()).0,
            final(self).states() == visible_entries(table@, scope_views(scopes@), old(self).states()).1,
            final(self).selected() == old(self).selected(),
    {
        proof {
            use_type_invariant(&*self);
        }
        self.selected_stack_frame_id = Some(stack_frame_id);
        self.build_entries(scopes, table);
    }

    /// Forgets every entry's state, as when the debuggee stops.
    pub fn clear_states(&mut self)
        ensures
            final(self).states() == Seq::<(PathView, EntryState)>::empty(),
            final(self).shown() == old(self).shown(),
            final(self).frame() == old(self).frame(),
            final(self).selected() == old(self).selected(),
    {
        proof {
            use_type_invariant(&*self);
        }
        let mut empty: Vec<(EntryPath, EntryState)> = Vec::new();
        std::mem::swap(&mut empty, &mut self.entry_states);
        assert(self.states() =~= Seq::<(PathView, EntryState)>::empty());
    }

    fn set_expanded(&mut self, path: &EntryPath, flip: bool, value: bool) -> (found: bool)
        ensures
            found == (lookup(old(self).states(), path@) is Some),
            found ==> forall|q: PathView|
                lookup(final(self).states(), q) == (if q == path@ {
                    Some(EntryState {
                        depth: lookup(old(self).states(), path@)->0.depth,
                        is_expanded: if flip { !lookup(old(self).states(), path@)->0.is_expanded } else { value },
                    })
                } else {
                    lookup(old(self).states(), q)
                }),
            !found ==> final(self).states() == old(self).states(),
            final(self).shown() == old(self).shown(),
            final(self).frame() == old(self).frame(),
            final(self).selected() == old(self).selected(),
    {
        proof {
            use_type_invariant(&*self);
        }
        match find_state(&self.entry_states, path) {
            Some(i) => {
                let ghost s0 = self.states();
                let old_state = self.entry_states[i].1;
                let new_state = EntryState {
                    depth: old_state.depth,
                    is_expanded: if flip { !old_state.is_expanded } else { value },
                };
                let mut states: Vec<(EntryPath, EntryState)> = Vec::new();
                std::mem::swap(&mut states, &mut self.entry_states);
                let key = states[i].0.copy();
                states.set(i, (key, new_state));
                proof {
                    lemma_lookup_index(s0, path@, i as int);
                    assert(state_views(states@) =~= s0.update(i as int, (path@, new_state)));
                    assert forall|k: int| 0 <= k < state_views(states@).len() implies (#[trigger] state_views(states@)[k]).1.depth
                        == state_views(states@)[k].0.indices.len() as usize by {
                        assert(s0[k].1.depth == s0[k].0.indices.len() as usize);
                    }
                }
                self.entry_states = states;
                true
            },
            None => false,
        }
    }

    /// Flips whether the entry at `path` is expanded; says whether it has a
    /// state. The entries are rebuilt by the caller.
    pub fn toggle_entry(&mut self, path: &EntryPath) -> (found: bool)
        ensures
            forall|q: PathView| #[trigger] lookup(final(self).states(), q) == toggled(old(self).states(), path@, q),
            found == (lookup(old(self).states(), path@) is Some),
            found ==> lookup(final(self).states(), path@) == Some(EntryState {
                depth: lookup(old(self).states(), path@)->0.depth,
                is_expanded: !lookup(old(self).states(), path@)->0.is_expanded,
            }),
            found ==> forall|q: PathView| q != path@ ==> lookup(final(self).states(), q) == lookup(old(self).states(), q),
            !found ==> final(self).states() == old(self).states(),
            final(self).shown() == old(self).shown(),
            final(self).selected() == old(self).selected(),
    {
        self.set_expanded(path, true, false)
    }

    /// Expands or collapses the selected entry; says whether it has a state.
    pub fn set_selected_expanded(&mut self, expanded: bool) -> (found: bool)
        ensures
            old(self).selected() is None ==> !found && final(self).states() == old(self).states(),
            old(self).selected() matches Some(p) ==> found == (lookup(old(self).states(), p) is Some) && (found
                ==> lookup(final(self).states(), p)->0.is_expanded == expanded),
            final(self).shown() == old(self).shown(),
            final(self).selected() == old(self).selected(),
    {
        proof {
            use_type_invariant(&*self);
        }
        match &self.selection {
            Some(p) => {
                let p = p.copy();
                self.set_expanded(&p, false, expanded)
            },
            None => false,
        }
    }

    /// Selects the entry at `path`, as a click on its row does.
    pub fn select(&mut self, path: &EntryPath)
        ensures
            final(self).selected() == Some(path@),
            final(self).shown() == old(self).shown(),
            final(self).states() == old(self).states(),
            final(self).frame() == old(self).frame(),
    {
        proof {
            use_type_invariant(&*self);
        }
        self.selection = Some(path.copy());
    }

    /// Selects the first entry, when there is one.
    pub fn select_first(&mut self)
        ensures
            old(self).shown().len() > 0 ==> final(self).selected() == Some(old(self).shown()[0].path),
            old(self).shown().len() == 0 ==> final(self).selected() == old(self).selected(),
            final(self).shown() == old(self).shown(),
            final(self).states() == old(self).states(),
    {
        proof {
            use_type_invariant(&*self);
        }
        if self.entries.len() > 0 {
            self.selection = Some(self.entries[0].path.copy());
        }
    }

    /// Selects the last entry, when there is one.
    pub fn select_last(&mut self)
        ensures
            old(self).shown().len() > 0 ==> final(self).selected() == Some(old(self).shown().last().path),
            old(self).shown().len() == 0 ==> final(self).selected() == old(self).selected(),
            final(self).shown() == old(self).shown(),
            final(self).states() == old(self).states(),
    {
        proof {
            use_type_invariant(&*self);
        }
        if self.entries.len() > 0 {
            self.selection = Some(self.entries[self.entries.len() - 1].path.copy());
        }
    }

    fn index_of_selection(&self) -> (r: Option<usize>)
        requires
            self.selection is Some,
        ensures
            match r {
                Some(i) => i < self.entries.len() && self.shown()[i as int].path == self.selected()->0 && forall|j: int|
                    0 <= j < i ==> self.shown()[j].path != self.selected()->0,
                None => forall|j: int| 0 <= j < self.shown().len() ==> self.shown()[j].path != self.selected()->0,
            },
    {
        let sel = match &self.selection {
            Some(p) => p,
            None => {
                return None;
            },
        };
        let mut i: usize = 0;
        while i < self.entries.len()
            invariant
                i <= self.entries.len(),
                self.selection is Some,
                sel@ == self.selected()->0,
                forall|j: int| 0 <= j < i ==> self.shown()[j].path != self.selected()->0,
            decreases self.entries.len() - i,
        {
            if self.entries[i].path.same_as(sel) {
                return Some(i);
            }
            i += 1;
        }
        None
    }

    /// Selects the entry before the selected one (the first stays
    /// selected); with nothing selected, the first entry.
    pub fn select_prev(&mut self)
        ensures
            old(self).selected() is None ==> (old(self).shown().len() > 0 ==> final(self).selected() == Some(
                old(self).shown()[0].path,
            )),
            old(self).selected() matches Some(p) ==> (if exists|i: int| 0 <= i < old(self).shown().len() && old(self).shown()[i].path == p {
                exists|i: int|
                    0 <= i < old(self).shown().len() && (#[trigger] old(self).shown()[i]).path == p && (forall|j: int| 0 <= j < i ==> old(self).shown()[j].path != p)
                        && final(self).selected() == Some(old(self).shown()[if i == 0 { 0 } else { i - 1 }].path)
            } else {
                final(self).selected() == old(self).selected()
            }),
            final(self).shown() == old(self).shown(),
            final(self).states() == old(self).states(),
    {
        proof {
            use_type_invariant(&*self);
        }
        if self.selection.is_none() {
            self.select_first();
            return;
        }
        match self.index_of_selection() {
            Some(i) => {
                let prev = if i == 0 { 0 } else { i - 1 };
                self.selection = Some(self.entries[prev].path.copy());
            },
            None => {},
        }
    }

    /// Selects the entry after the selected one; after the last, the first.
    /// With nothing selected, the first entry.
    pub fn select_next(&mut self)
        ensures
            old(self).selected() is None ==> (old(self).shown().len() > 0 ==> final(self).selected() == Some(
                old(self).shown()[0].path,
            )),
            old(self).selected() matches Some(p) ==> (if exists|i: int| 0 <= i < old(self).shown().len() && old(self).shown()[i].path == p {
                exists|i: int|
                    0 <= i < old(self).shown().len() && (#[trigger] old(self).shown()[i]).path == p && (forall|j: int| 0 <= j < i ==> old(self).shown()[j].path != p)
                        && final(self).selected() == Some(old(self).shown()[if i + 1 < old(self).shown().len() { i + 1 } else { 0 }].path)
            } else {
                final(self).selected() == old(self).selected()
            }),
            final(self).shown() == old(self).shown(),
            final(self).states() == old(self).states(),
    {
        proof {
            use_type_invariant(&*self);
        }
        if self.selection.is_none() {
            self.select_first();
            return;
        }
        match self.index_of_selection() {
            Some(i) => {
                if i + 1 < self.entries.len() {
                    self.selection = Some(self.entries[i + 1].path.copy());
                } else {
                    self.select_first();
                }
            },
            None => {},
        }
    }

    /// The path of the selected entry, if any.
    pub fn selection(&self) -> (r: Option<EntryPath>)
        ensures
            match r {
                Some(p) => self.selected() == Some(p@),
                None => self.selected() is None,
            },
    {
        match &self.selection {
            Some(p) => Some(p.copy()),
            None => None,
        }
    }

    /// The scopes shown, in order.
    pub fn scopes(&self) -> (r: Vec<dap::Scope>)
        ensures
            scope_views(r@) == shown_scopes(self.shown()),
    {
        let mut out: Vec<dap::Scope> = Vec::new();
        let mut i: usize = 0;
        while i < self.entries.len()
            invariant
                i <= self.entries.len(),
                scope_views(out@) == shown_scopes(self.shown().take(i as int)),
            decreases self.entries.len() - i,
        {
            assert(self.shown().take(i as int + 1).drop_last() =~= self.shown().take(i as int));
            assert(self.shown().take(i as int + 1).last() == self.shown()[i as int]);
            match &self.entries[i].dap_kind {
                EntryKind::Scope(sc) => {
                    let ghost before = out@;
                    out.push(sc.clone());
                    assert(scope_views(out@) =~= scope_views(before).push(sc@));
                },
                EntryKind::Variable(_) => {},
            }
            i += 1;
        }
        assert(self.shown().take(self.entries.len() as int) =~= self.shown());
        out
    }

    /// The variables shown, in order.
    pub fn variables(&self) -> (r: Vec<Variable>)
        ensures
            r@ == shown_variables(self.shown()),
    {
        self.completion_variables()
    }

    /// The entries drawn as text, one line each, as `visual_line` says; every
    /// entry shown must have a state with a depth of at least one.
    pub fn visual_entries(&self) -> (r: Vec<String>)
        requires
            forall|i: int| 0 <= i < self.shown().len() ==> (lookup(self.states(), (#[trigger] self.shown()[i]).path) matches Some(
                st,
            ) && st.depth >= 1),
        ensures
            r@.len() == self.shown().len(),
            forall|i: int| 0 <= i < r@.len() ==> #[trigger] r@[i]@ == visual_line(
                lookup(self.states(), self.shown()[i].path)->0,
                kind_name(self.shown()[i].kind),
            ),
    {
        let mut out: Vec<String> = Vec::new();
        let mut i: usize = 0;
        while i < self.entries.len()
            invariant
                i <= self.entries.len(),
                out.len() == i,
                forall|k: int| 0 <= k < self.shown().len() ==> (lookup(self.states(), (#[trigger] self.shown()[k]).path) matches Some(
                    st,
                ) && st.depth >= 1),
                forall|k: int| 0 <= k < i ==> #[trigger] out@[k]@ == visual_line(
                    lookup(self.states(), self.shown()[k].path)->0,
                    kind_name(self.shown()[k].kind),
                ),
            decreases self.entries.len() - i,
        {
            let entry = &self.entries[i];
            assert(self.shown()[i as int] == entry@);
            let ix = find_state(&self.entry_states, &entry.path);
            let state = match ix {
                Some(k) => self.entry_states[k].1,
                None => {
                    assert(false);
                    EntryState { depth: 1, is_expanded: false }
                },
            };
            let ghost st = lookup(self.states(), entry.path@)->0;
            assert(state == st);
            let mut line = String::new();
            let mut level: usize = 0;
            while level < state.depth - 1
                invariant
                    state.depth >= 1,
                    level <= state.depth - 1,
                    line@ == indent(level as nat),
                decreases state.depth - 1 - level,
            {
                line.append("    ");
                level += 1;
            }
            if state.is_expanded {
                line.append("v");
            } else {
                line.append(">");
            }
            line.append(" ");
            match &entry.dap_kind {
                EntryKind::Variable(v) => line.append(v.name.as_str()),
                EntryKind::Scope(sc) => line.append(sc.name.as_str()),
            }
            proof {
                reveal_strlit("    ");
                reveal_strlit("v");
                reveal_strlit(">");
                reveal_strlit(" ");
            }
            assert(line@ =~= visual_line(st, kind_name(entry@.kind)));
            out.push(line);
            i += 1;
        }
        out
    }

    /// The variables shown, in order.
    pub fn completion_variables(&self) -> (r: Vec<Variable>)
        ensures
            r@ == shown_variables(self.shown()),
    {
        let mut out: Vec<Variable> = Vec::new();
        let mut i: usize = 0;
        while i < self.entries.len()
            invariant
                i <= self.entries.len(),
                out@ == shown_variables(self.shown().take(i as int)),
            decreases self.entries.len() - i,
        {
            assert(self.shown().take(i as int + 1).drop_last() =~= self.shown().take(i as int));
            assert(self.shown().take(i as int + 1).last() == self.shown()[i as int]);
            match &self.entries[i].dap_kind {
                EntryKind::Variable(v) => out.push(v.clone()),
                EntryKind::Scope(_) => {},
            }
            i += 1;
        }
        assert(self.shown().take(self.entries.len() as int) =~= self.shown());
        out
    }
}

/// The variables among entries, in order.
pub open spec fn shown_variables(es: Seq<EntryView>) -> Seq<Variable>
    decreases es.len(),
{
    if es.len() == 0 {
        Seq::empty()
    } else {
        match es.last().kind {
            KindView::Variable(v) => shown_variables(es.drop_last()).push(v),
            KindView::Scope(_) => shown_variables(es.drop_last()),
        }
    }
}

/// The variable whose value is being edited, if any.
pub struct VariableEdit {
    pub edited_path: Option<EntryPath>,
}

impl VariableEdit {
    /// Nothing is being edited.
    pub fn new() -> (r: Self)
        ensures
            r.edited_path is None,
    {
        VariableEdit { edited_path: None }
    }

    /// Starts editing the value of the entry at `path`, in place of any
    /// other edit.
    pub fn start(&mut self, path: EntryPath)
        ensures
            final(self).edited_path == Some(path),
    {
        self.edited_path = Some(path);
    }

    /// Drops the edit.
    pub fn cancel_variable_edit(&mut self)
        ensures
            final(self).edited_path is None,
    {
        self.edited_path = None;
    }

    /// Ends the edit with the text typed: the variable named by the edited
    /// path, under its parent's reference, is to be set to it. Nothing is
    /// set when nothing was edited or the path names no variable.
    pub fn confirm_variable_edit(&mut self, value: String) -> (r: Option<dap::SetVariableArguments>)
        requires
            old(self).edited_path matches Some(p) ==> p.indices.len() > 0,
        ensures
            final(self).edited_path is None,
            r == (match old(self).edited_path {
                Some(p) => match p.leaf_name {
                    Some(name) => Some(
                        dap::SetVariableArguments {
                            variables_reference: p.indices@.last(),
                            name,
                            value,
                            format: None,
                        },
                    ),
                    None => None,
                },
                None => None,
            }),
    {
        let edited = self.edited_path.take();
        match edited {
            Some(path) => {
                let variables_reference = path.parent_reference_id();
                match path.leaf_name {
                    Some(name) => Some(dap::SetVariableArguments { variables_reference, name, value, format: None }),
                    None => None,
                }
            },
            None => None,
        }
    }
}

/// What an entry of a variable's context menu does.
#[derive(Debug, PartialEq)]
pub enum ContextMenuAction {
    /// Puts the text on the clipboard.
    CopyToClipboard(String),
    /// Starts editing the value of the entry at the path.
    Edit(EntryPath),
}

/// The context menu of an entry: for a variable, copying its name, copying
/// its value and setting its value; none for a scope.
pub fn deploy_variable_context_menu(entry: &ListEntry) -> (r: Option<Vec<(String, ContextMenuAction)>>)
    ensures
        match entry.dap_kind {
            EntryKind::Variable(v) => r matches Some(menu) && {
                &&& menu@.len() == 3
                &&& menu@[0].0@ == "Copy name"@
                &&& menu@[0].1 == ContextMenuAction::CopyToClipboard(v.name)
                &&& menu@[1].0@ == "Copy value"@
                &&& menu@[1].1 == ContextMenuAction::CopyToClipboard(v.value)
                &&& menu@[2].0@ == "Set value"@
                &&& (menu@[2].1 matches ContextMenuAction::Edit(p) && p@ == entry.path@)
            },
            EntryKind::Scope(_) => r is None,
        },
{
    match &entry.dap_kind {
        EntryKind::Variable(v) => {
            let mut menu: Vec<(String, ContextMenuAction)> = Vec::new();
            menu.push((String::from_str("Copy name"), ContextMenuAction::CopyToClipboard(v.name.clone())));
            menu.push((String::from_str("Copy value"), ContextMenuAction::CopyToClipboard(v.value.clone())));
            menu.push((String::from_str("Set value"), ContextMenuAction::Edit(entry.path.copy())));
            Some(menu)
        },
        EntryKind::Scope(_) => None,
    }
}

/// Whether a presentation hint's kind is that of a type: a class, a base
/// class, an inner class or a most derived class.
pub open spec fn is_type_kind(kind: Seq<char>) -> bool {
    kind == "class"@ || kind == "baseClass"@ || kind == "innerClass"@ || kind == "mostDerivedClass"@
}

/// Whether a variable's name is drawn in the color of types; otherwise it
/// is drawn in the color of variables.
pub open spec fn name_is_type(v: Variable) -> bool {
    v.presentation_hint matches Some(h) && h.kind matches Some(k) && is_type_kind(k@)
}

fn name_is_type_exec(v: &Variable) -> (r: bool)
    ensures
        r == name_is_type(*v),
{
    match &v.presentation_hint {
        Some(h) => match &h.kind {
            Some(k) => {
                let class = String::from_str("class");
                let base = String::from_str("baseClass");
                let inner = String::from_str("innerClass");
                let derived = String::from_str("mostDerivedClass");
                *k == class || *k == base || *k == inner || *k == derived
            },
            None => false,
        },
        None => false,
    }
}

/// What a variable row shows where its value goes.
#[derive(Debug, PartialEq)]
pub enum ValueCell {
    /// The variable has an empty value: nothing is shown.
    Hidden,
    /// The value is being edited: the editor is shown.
    Editor,
    /// The value as a label; a double click on it starts editing it when
    /// it is editable.
    Text { label: String, editable: bool },
}

/// How a variable entry is drawn.
#[derive(Debug, PartialEq)]
pub struct VariableRow {
    /// The id of the row's item: `variable-item-`, the name, `-` and the
    /// depth.
    pub item_id: String,
    pub name: String,
    /// Whether the name has the color of types.
    pub name_is_type: bool,
    /// How many levels the row is indented.
    pub indent: usize,
    /// Whether the row has a disclosure toggle, and then whether it is
    /// open: a variable with children has one.
    pub toggle: Option<bool>,
    /// Whether the row is the selected one.
    pub selected: bool,
    /// The path a click on the row selects, with `VariableList::select`:
    /// the entry's own.
    pub click_selects: EntryPath,
    pub value: ValueCell,
}

/// How a variable entry in `state` is drawn, given the selected path, the
/// path being edited, whether the list is disabled and whether the adapter
/// can set variables; nothing for a scope.
pub fn render_variable(
    entry: &ListEntry,
    state: EntryState,
    selected: Option<&EntryPath>,
    edited: Option<&EntryPath>,
    disabled: bool,
    supports_set_variable: Option<bool>,
) -> (r: Option<VariableRow>)
    ensures
        match entry.dap_kind {
            EntryKind::Scope(_) => r is None,
            EntryKind::Variable(v) => r matches Some(row) && {
                &&& row.item_id@ == "variable-item-"@ + v.name@ + "-"@ + decimal(state.depth as nat)
                &&& row.name == v.name
                &&& row.name_is_type == name_is_type(v)
                &&& row.indent == state.depth
                &&& row.toggle == (if v.variables_reference > 0 {
                    Some(state.is_expanded)
                } else {
                    None
                })
                &&& row.selected == (selected matches Some(p) && p@ == entry.path@)
                &&& row.click_selects@ == entry.path@
                &&& if v.value@.len() == 0 {
                    row.value is Hidden
                } else if edited matches Some(p) && p@ == entry.path@ {
                    row.value is Editor
                } else {
                    row.value matches ValueCell::Text { label, editable } && label@ == "=  "@ + v.value@
                        && editable == (!disabled && supports_set_variable == Some(true))
                }
            },
        },
{
    match &entry.dap_kind {
        EntryKind::Scope(_) => None,
        EntryKind::Variable(v) => {
            let mut item_id = String::from_str("variable-item-");
            item_id.append(v.name.as_str());
            item_id.append("-");
            item_id.append(decimal_string(state.depth as u64).as_str());
            let toggle = if v.variables_reference > 0 {
                Some(state.is_expanded)
            } else {
                None
            };
            let is_selected = match selected {
                Some(p) => p.same_as(&entry.path),
                None => false,
            };
            let value = if v.value.as_str().unicode_len() == 0 {
                ValueCell::Hidden
            } else {
                let is_edited = match edited {
                    Some(p) => p.same_as(&entry.path),
                    None => false,
                };
                if is_edited {
                    ValueCell::Editor
                } else {
                    let mut label = String::from_str("=  ");
                    label.append(v.value.as_str());
                    let supports = match supports_set_variable {
                        Some(b) => b,
                        None => false,
                    };
                    ValueCell::Text { label, editable: !disabled && supports }
                }
            };
            proof {
                reveal_strlit("variable-item-");
                reveal_strlit("-");
                reveal_strlit("=  ");
            }
            Some(
                VariableRow {
                    item_id,
                    name: v.name.clone(),
                    name_is_type: name_is_type_exec(v),
                    indent: state.depth,
                    toggle,
                    selected: is_selected,
                    click_selects: entry.path.copy(),
                    value,
                },
            )
        },
    }
}

} // verus!
