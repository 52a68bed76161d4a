//! The entries of a thread's variable list built from a flat list of
//! variables with their depths: a scope is followed by its variables when it
//! is open, and the descendants of a closed variable are skipped.
use vstd::prelude::*;
use vstd::string::*;
use crate::dap;
use crate::dap::{ScopeView, Variable};
use crate::text::{decimal, decimal_string};

verus! {

broadcast use vstd::seq_lib::lemma_seq_contains_after_push;

/// The id under which a scope is opened: `scope-<reference>`.
pub open spec fn scope_entry_id(scope: ScopeView) -> Seq<char> {
    "scope-"@ + decimal(scope.variables_reference as nat)
}

/// The id under which a variable is opened:
/// `variable-<depth>-<scope reference>-<name>`.
pub open spec fn variable_entry_id(variable: Variable, scope: ScopeView, depth: usize) -> Seq<char> {
    "variable-"@ + decimal(depth as nat) + "-"@ + decimal(scope.variables_reference as nat) + "-"@
        + variable.name@
}

pub fn scope_entry_id_exec(scope: &dap::Scope) -> (r: String)
    ensures
        r@ == scope_entry_id(scope@),
{
    let mut id = String::from_str("scope-");
    id.append(decimal_string(scope.variables_reference).as_str());
    proof {
        reveal_strlit("scope-");
    }
    id
}

pub fn variable_entry_id_exec(variable: &Variable, scope: &dap::Scope, depth: usize) -> (r: String)
    ensures
        r@ == variable_entry_id(*variable, scope@, depth),
{
    let mut id = String::from_str("variable-");
    id.append(decimal_string(depth as u64).as_str());
    id.append("-");
    id.append(decimal_string(scope.variables_reference).as_str());
    id.append("-");
    id.append(variable.name.as_str());
    proof {
        reveal_strlit("variable-");
        reveal_strlit("-");
    }
    id
}

/// A value being edited: the variable, by its parent's reference and its
/// name, and the value typed so far.
#[derive(Debug, PartialEq)]
pub struct SetVariableState {
    pub parent_variables_reference: u64,
    pub name: String,
    pub value: String,
}

impl Clone for SetVariableState {
    fn clone(&self) -> (r: Self)
        ensures
            r == *self,
    {
        SetVariableState {
            parent_variables_reference: self.parent_variables_reference,
            name: self.name.clone(),
            value: self.value.clone(),
        }
    }
}

/// An entry of a thread's variable list.
#[derive(Debug)]
pub enum ThreadEntry {
    Scope(dap::Scope),
    SetVariableEditor { depth: usize, state: SetVariableState },
    Variable {
        depth: usize,
        scope: dap::Scope,
        variable: Variable,
        has_children: bool,
        parent_variables_reference: u64,
    },
}

/// The abstract value of an entry.
pub enum ThreadEntryView {
    Scope(ScopeView),
    SetVariableEditor { depth: usize, state: SetVariableState },
    Variable {
        depth: usize,
        scope: ScopeView,
        variable: Variable,
        has_children: bool,
        parent_variables_reference: u64,
    },
}

impl View for ThreadEntry {
    type V = ThreadEntryView;

    open spec fn view(&self) -> ThreadEntryView {
        match self {
            ThreadEntry::Scope(s) => ThreadEntryView::Scope(s@),
            ThreadEntry::SetVariableEditor { depth, state } => ThreadEntryView::SetVariableEditor {
                depth: *depth,
                state: *state,
            },
            ThreadEntry::Variable { depth, scope, variable, has_children, parent_variables_reference } =>
                ThreadEntryView::Variable {
                depth: *depth,
                scope: scope@,
                variable: *variable,
                has_children: *has_children,
                parent_variables_reference: *parent_variables_reference,
            },
        }
    }
}

/// The abstract values of entries.
pub open spec fn thread_entry_views(s: Seq<ThreadEntry>) -> Seq<ThreadEntryView> {
    s.map_values(|e: ThreadEntry| e@)
}

/// The depth below which variables are skipped after `depth_check`, once a
/// variable at `depth` is met: a variable at or above the check ends the
/// skipping.
pub open spec fn check_after_meeting(depth_check: Option<usize>, depth: usize) -> Option<usize> {
    match depth_check {
        Some(d) => if d >= depth {
            None
        } else {
            Some(d)
        },
        None => None,
    }
}

/// The entries of the variables of an open scope, from the depth check
/// `depth_check` on: a variable deeper than the check is skipped; a closed
/// variable starts skipping its descendants; the variable being edited is
/// preceded by its editor.
pub open spec fn variable_entries(
    vars: Seq<(usize, Variable)>,
    scope: ScopeView,
    open: Set<Seq<char>>,
    editing: Option<SetVariableState>,
    depth_check: Option<usize>,
) -> Seq<ThreadEntryView>
    decreases vars.len(),
{
    if vars.len() == 0 {
        Seq::empty()
    } else {
        let (depth, variable) = vars[0];
        if depth_check matches Some(d) && depth > d {
            variable_entries(vars.skip(1), scope, open, editing, depth_check)
        } else {
            let check = check_after_meeting(depth_check, depth);
            let check2 = if !open.contains(variable_entry_id(variable, scope, depth)) && (check is None
                || check->0 > depth) {
                Some(depth)
            } else {
                check
            };
            let editor = match editing {
                Some(st) => if st.parent_variables_reference == scope.variables_reference && st.name@
                    == variable.name@ {
                    seq![ThreadEntryView::SetVariableEditor { depth, state: st }]
                } else {
                    Seq::empty()
                },
                None => Seq::empty(),
            };
            let me = ThreadEntryView::Variable {
                depth,
                scope,
                variable,
                has_children: variable.variables_reference > 0,
                parent_variables_reference: scope.variables_reference,
            };
            editor + seq![me] + variable_entries(vars.skip(1), scope, open, editing, check2)
        }
    }
}

/// The entries of the scopes that have variables, from the ones shown so
/// far, and the open ids after them: when asked, the first such scope is
/// opened.
pub open spec fn scope_entries(
    scopes: Seq<(ScopeView, Seq<(usize, Variable)>)>,
    open: Set<Seq<char>>,
    editing: Option<SetVariableState>,
    open_first_scope: bool,
    shown: Seq<ThreadEntryView>,
) -> (Seq<ThreadEntryView>, Set<Seq<char>>)
    decreases scopes.len(),
{
    if scopes.len() == 0 {
        (shown, open)
    } else {
        let (scope, vars) = scopes[0];
        if vars.len() == 0 {
            scope_entries(scopes.skip(1), open, editing, open_first_scope, shown)
        } else {
            let open1 = if open_first_scope && shown.len() == 0 {
                open.insert(scope_entry_id(scope))
            } else {
                open
            };
            let shown1 = shown.push(ThreadEntryView::Scope(scope));
            let shown2 = if open1.contains(scope_entry_id(scope)) {
                shown1 + variable_entries(vars, scope, open1, editing, None)
            } else {
                shown1
            };
            scope_entries(scopes.skip(1), open1, editing, open_first_scope, shown2)
        }
    }
}

fn contains_id(open: &Vec<String>, id: &String) -> (r: bool)
    ensures
        r == id_views(open@).contains(id@),
{
    let mut i: usize = 0;
    while i < open.len()
        invariant
            i <= open.len(),
            forall|j: int| 0 <= j < i ==> open@[j]@ != id@,
        decreases open.len() - i,
    {
        if open[i] == *id {
            assert(id_views(open@)[i as int] == id@);
            return true;
        }
        i += 1;
    }
    assert(forall|k: int| 0 <= k < open@.len() ==> #[trigger] id_views(open@)[k] != id@);
    false
}

/// The ids, as character sequences.
pub open spec fn id_views(ids: Seq<String>) -> Seq<Seq<char>> {
    ids.map_values(|s: String| s@)
}

/// The ids of the open entries.
pub open spec fn open_set(open: Seq<String>) -> Set<Seq<char>> {
    id_views(open).to_set()
}

fn opt_state_clone(s: &Option<SetVariableState>) -> (r: Option<SetVariableState>)
    ensures
        r == *s,
{
    match s {
        Some(st) => Some(st.clone()),
        None => None,
    }
}

/// Builds the entries of the variables of an open scope.
fn push_variable_entries(
    vars: &Vec<(usize, Variable)>,
    scope: &dap::Scope,
    open: &Vec<String>,
    editing: &Option<SetVariableState>,
    entries: &mut Vec<ThreadEntry>,
)
    ensures
        thread_entry_views(final(entries)@) == thread_entry_views(old(entries)@) + variable_entries(
            vars@,
            scope@,
            open_set(open@),
            *editing,
            None,
        ),
{
    let ghost sv = scope@;
    let ghost os = open_set(open@);
    let ghost total = variable_entries(vars@, sv, os, *editing, None);
    let ghost e0 = thread_entry_views(entries@);
    let mut depth_check: Option<usize> = None;
    let mut i: usize = 0;
    assert(vars@.skip(0) =~= vars@);
    assert(e0 + total =~= thread_entry_views(entries@) + variable_entries(vars@.skip(0), sv, os, *editing, depth_check));
    while i < vars.len()
        invariant
            i <= vars.len(),
            sv == scope@,
            os == open_set(open@),
            e0 + total == thread_entry_views(entries@) + variable_entries(vars@.skip(i as int), sv, os, *editing, depth_check),
        decreases vars.len() - i,
    {
        let ghost rest = vars@.skip(i as int);
        let ghost before = thread_entry_views(entries@);
        let ghost check0 = depth_check;
        assert(rest[0] == vars@[i as int]);
        assert(rest.skip(1) =~= vars@.skip(i as int + 1));
        let depth = vars[i].0;
        let skip = match depth_check {
            Some(d) => depth > d,
            None => false,
        };
        if !skip {
            let variable = &vars[i].1;
            match depth_check {
                Some(d) => if d >= depth {
                    depth_check = None;
                },
                None => {},
            }
            let has_children = variable.variables_reference > 0;
            let id = variable_entry_id_exec(variable, scope, depth);
            let is_open = contains_id(open, &id);
            proof {
                assert(os.contains(id@) == id_views(open@).contains(id@));
            }
            if !is_open {
                let deeper = match depth_check {
                    Some(d) => d > depth,
                    None => true,
                };
                if deeper {
                    depth_check = Some(depth);
                }
            }
            match editing {
                Some(state) => if state.parent_variables_reference == scope.variables_reference && state.name
                    == variable.name {
                    entries.push(ThreadEntry::SetVariableEditor { depth, state: state.clone() });
                },
                None => {},
            }
            entries.push(
                ThreadEntry::Variable {
                    has_children,
                    depth,
                    scope: scope.clone(),
                    variable: variable.clone(),
                    parent_variables_reference: scope.variables_reference,
                },
            );
            assert(thread_entry_views(entries@) + variable_entries(vars@.skip(i as int + 1), sv, os, *editing, depth_check)
                =~= before + variable_entries(rest, sv, os, *editing, check0));
        }
        i += 1;
    }
    assert(vars@.skip(i as int) =~= Seq::<(usize, Variable)>::empty());
    assert(thread_entry_views(entries@) =~= e0 + total);
}

/// The variable list of a thread: the ids of the open entries, the value
/// being edited, and the entries of each stack frame.
pub struct ThreadVariableList {
    pub open_entries: Vec<String>,
    pub set_variable_state: Option<SetVariableState>,
    pub stack_frame_entries: Vec<(u64, Vec<ThreadEntry>)>,
}

impl ThreadVariableList {
    /// Opens a closed entry and closes an open one.
    pub fn toggle_entry_collapsed(&mut self, entry_id: &String)
        ensures
            open_set(final(self).open_entries@) == (if open_set(old(self).open_entries@).contains(entry_id@) {
                open_set(old(self).open_entries@).remove(entry_id@)
            } else {
                open_set(old(self).open_entries@).insert(entry_id@)
            }),
            final(self).set_variable_state == old(self).set_variable_state,
    {
        let ghost before = self.open_entries@;
        let ghost bs = id_views(before);
        let mut i: usize = 0;
        let mut found = false;
        let mut kept: Vec<String> = Vec::new();
        while i < self.open_entries.len()
            invariant
                i <= self.open_entries.len(),
                self.open_entries@ == before,
                bs == id_views(before),
                found == bs.take(i as int).contains(entry_id@),
                forall|x: Seq<char>| id_views(kept@).contains(x) <==> (bs.take(i as int).contains(x) && x != entry_id@),
            decreases self.open_entries.len() - i,
        {
            let ghost kb = id_views(kept@);
            assert(bs.take(i as int + 1) =~= bs.take(i as int).push(bs[i as int]));
            assert(bs[i as int] == self.open_entries@[i as int]@);
            if self.open_entries[i] == *entry_id {
                found = true;
            } else {
                kept.push(self.open_entries[i].clone());
                assert(id_views(kept@) =~= kb.push(bs[i as int]));
            }
            i += 1;
        }
        assert(bs.take(before.len() as int) =~= bs);
        if !found {
            let ghost kb = id_views(kept@);
            kept.push(entry_id.clone());
            assert(id_views(kept@) =~= kb.push(entry_id@));
        }
        assert(open_set(kept@) =~= (if open_set(before).contains(entry_id@) {
            open_set(before).remove(entry_id@)
        } else {
            open_set(before).insert(entry_id@)
        }));
        self.open_entries = kept;
    }

    /// Starts editing the value of a variable whose parent has the
    /// reference `parent_variables_reference`; the editor starts with the
    /// variable's value.
    pub fn start_set_variable(&mut self, parent_variables_reference: u64, variable: &Variable)
        ensures
            final(self).set_variable_state == Some(
                SetVariableState { parent_variables_reference, name: variable.name, value: variable.value },
            ),
            final(self).open_entries == old(self).open_entries,
            final(self).stack_frame_entries == old(self).stack_frame_entries,
    {
        self.set_variable_state = Some(
            SetVariableState {
                parent_variables_reference,
                name: variable.name.clone(),
                value: variable.value.clone(),
            },
        );
    }

    /// Ends the edit with the value typed: the variable is set to it, unless
    /// nothing was being edited or the value did not change.
    pub fn set_variable_value(&mut self, new_value: String) -> (r: Option<dap::SetVariableArguments>)
        ensures
            final(self).set_variable_state is None,
            final(self).open_entries == old(self).open_entries,
            final(self).stack_frame_entries == old(self).stack_frame_entries,
            r == (match old(self).set_variable_state {
                Some(st) => if st.value@ == new_value@ {
                    None
                } else {
                    Some(
                        dap::SetVariableArguments {
                            variables_reference: st.parent_variables_reference,
                            name: st.name,
                            value: new_value,
                            format: None,
                        },
                    )
                },
                None => None,
            }),
    {
        let mut state: Option<SetVariableState> = None;
        std::mem::swap(&mut state, &mut self.set_variable_state);
        match state {
            None => None,
            Some(st) => {
                if st.value == new_value {
                    None
                } else {
                    Some(
                        dap::SetVariableArguments {
                            variables_reference: st.parent_variables_reference,
                            name: st.name,
                            value: new_value,
                            format: None,
                        },
                    )
                }
            },
        }
    }

    /// Keeps `entries` as the entries of the stack frame `stack_frame_id`,
    /// in place of those it had.
    pub fn set_stack_frame_entries(&mut self, stack_frame_id: u64, entries: Vec<ThreadEntry>)
        ensures
            final(self).stack_frame_entries@ == old(self).stack_frame_entries@.filter(
                |p: (u64, Vec<ThreadEntry>)| p.0 != stack_frame_id,
            ).push((stack_frame_id, entries)),
            final(self).open_entries == old(self).open_entries,
            final(self).set_variable_state == old(self).set_variable_state,
    {
        let ghost pred = |p: (u64, Vec<ThreadEntry>)| p.0 != stack_frame_id;
        let mut rest: Vec<(u64, Vec<ThreadEntry>)> = Vec::new();
        std::mem::swap(&mut rest, &mut self.stack_frame_entries);
        let ghost orig = rest@;
        let n: usize = rest.len();
        let mut kept: Vec<(u64, Vec<ThreadEntry>)> = Vec::new();
        let mut k: usize = 0;
        assert(orig.take(0).filter(pred) =~= Seq::<(u64, Vec<ThreadEntry>)>::empty()) by {
            reveal(Seq::filter);
        }
        while rest.len() > 0
            invariant
                k <= orig.len(),
                orig.len() == n,
                rest@ == orig.skip(k as int),
                kept@ == orig.take(k as int).filter(pred),
                pred == (|p: (u64, Vec<ThreadEntry>)| p.0 != stack_frame_id),
            decreases rest.len(),
        {
            let p = rest.remove(0);
            proof {
                assert(orig.take(k as int + 1) =~= orig.take(k as int).push(p));
                orig.take(k as int).lemma_filter_push(p, pred);
                assert(orig.skip(k as int + 1) =~= orig.skip(k as int).skip(1));
            }
            if p.0 != stack_frame_id {
                kept.push(p);
            }
            k += 1;
        }
        assert(orig.take(k as int) =~= orig);
        kept.push((stack_frame_id, entries));
        self.stack_frame_entries = kept;
    }

    /// Builds the entries of a stack frame from its scopes and their
    /// variables, with their depths, and keeps them as that frame's entries.
    pub fn build_entries(
        &mut self,
        stack_frame_id: u64,
        scopes_and_vars: &Vec<(dap::Scope, Vec<(usize, Variable)>)>,
        open_first_scope: bool,
    )
        ensures
            ({
                let built = scope_entries(
                    scopes_and_vars@.map_values(|p: (dap::Scope, Vec<(usize, Variable)>)| (p.0@, p.1@)),
                    open_set(old(self).open_entries@),
                    old(self).set_variable_state,
                    open_first_scope,
                    Seq::empty(),
                );
                &&& open_set(final(self).open_entries@) == built.1
                &&& final(self).stack_frame_entries@.len() > 0
                &&& final(self).stack_frame_entries@.last().0 == stack_frame_id
                &&& thread_entry_views(final(self).stack_frame_entries@.last().1@) == built.0
            }),
            final(self).stack_frame_entries@.drop_last() == old(self).stack_frame_entries@.filter(
                |p: (u64, Vec<ThreadEntry>)| p.0 != stack_frame_id,
            ),
            final(self).set_variable_state == old(self).set_variable_state,
    {
        let ghost sv = scopes_and_vars@.map_values(|p: (dap::Scope, Vec<(usize, Variable)>)| (p.0@, p.1@));
        let ghost editing = self.set_variable_state;
        let ghost total = scope_entries(sv, open_set(self.open_entries@), editing, open_first_scope, Seq::empty());
        let ghost frames = self.stack_frame_entries@;
        let mut entries: Vec<ThreadEntry> = Vec::new();
        let mut i: usize = 0;
        assert(sv.skip(0) =~= sv);
        assert(thread_entry_views(entries@) =~= Seq::<ThreadEntryView>::empty());
        while i < scopes_and_vars.len()
            invariant
                i <= scopes_and_vars.len(),
                sv == scopes_and_vars@.map_values(|p: (dap::Scope, Vec<(usize, Variable)>)| (p.0@, p.1@)),
                editing == self.set_variable_state,
                frames == self.stack_frame_entries@,
                total == scope_entries(sv.skip(i as int), open_set(self.open_entries@), editing, open_first_scope, thread_entry_views(entries@)),
            decreases scopes_and_vars.len() - i,
        {
            assert(sv.skip(i as int)[0] == sv[i as int]);
            assert(sv.skip(i as int).skip(1) =~= sv.skip(i as int + 1));
            let scope = &scopes_and_vars[i].0;
            let vars = &scopes_and_vars[i].1;
            if vars.len() > 0 {
                if open_first_scope && entries.len() == 0 {
                    let ghost ob = self.open_entries@;
                    self.open_entries.push(scope_entry_id_exec(scope));
                    assert(id_views(self.open_entries@) =~= id_views(ob).push(scope_entry_id(scope@)));
                    assert(open_set(self.open_entries@) =~= open_set(ob).insert(scope_entry_id(scope@)));
                }
                let ghost before = thread_entry_views(entries@);
                entries.push(ThreadEntry::Scope(scope.clone()));
                assert(thread_entry_views(entries@) =~= before.push(ThreadEntryView::Scope(scope@)));
                let id = scope_entry_id_exec(scope);
                if contains_id(&self.open_entries, &id) {
                    push_variable_entries(vars, scope, &self.open_entries, &self.set_variable_state, &mut entries);
                }
            }
            i += 1;
        }
        assert(sv.skip(i as int) =~= Seq::<(ScopeView, Seq<(usize, Variable)>)>::empty());
        let ghost built = thread_entry_views(entries@);
        self.set_stack_frame_entries(stack_frame_id, entries);
        assert(self.stack_frame_entries@.drop_last() =~= old(self).stack_frame_entries@.filter(
            |p: (u64, Vec<ThreadEntry>)| p.0 != stack_frame_id,
        ));
    }
}

/// What an entry of a variable's context menu does.
#[derive(Debug, PartialEq)]
pub enum VariableMenuAction {
    /// Puts the text on the clipboard.
    CopyToClipboard(String),
    /// Starts editing the variable's value.
    SetValue,
}

/// An entry of a variable's context menu: its label and what it does.
#[derive(Debug, PartialEq)]
pub struct VariableMenuEntry {
    pub label: String,
    pub action: VariableMenuAction,
}

/// The context menu of a variable: copying its name, copying its value, and
/// setting its value when the adapter can set variables.
pub fn variable_context_menu(variable: &Variable, supports_set_variable: Option<bool>) -> (r: Vec<VariableMenuEntry>)
    ensures
        r@.len() == (if supports_set_variable == Some(true) {
            3int
        } else {
            2int
        }),
        r@[0].label@ == "Copy name"@ && r@[0].action == VariableMenuAction::CopyToClipboard(variable.name),
        r@[1].label@ == "Copy value"@ && r@[1].action == VariableMenuAction::CopyToClipboard(variable.value),
        supports_set_variable == Some(true) ==> r@[2].label@ == "Set value"@ && r@[2].action
            == VariableMenuAction::SetValue,
{
    let mut out: Vec<VariableMenuEntry> = Vec::new();
    out.push(
        VariableMenuEntry {
            label: String::from_str("Copy name"),
            action: VariableMenuAction::CopyToClipboard(variable.name.clone()),
        },
    );
    out.push(
        VariableMenuEntry {
            label: String::from_str("Copy value"),
            action: VariableMenuAction::CopyToClipboard(variable.value.clone()),
        },
    );
    let supports = match supports_set_variable {
        Some(b) => b,
        None => false,
    };
    if supports {
        out.push(VariableMenuEntry { label: String::from_str("Set value"), action: VariableMenuAction::SetValue });
    }
    out
}

} // verus!
