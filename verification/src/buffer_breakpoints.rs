//! Breakpoints of a file while its buffer is open.
//!
//! An open buffer answers two questions about positions: at which row an
//! anchor now stands, and which anchor it puts at the start of a row with a
//! given bias. The store is handed those answers as tables of plain values,
//! taken from the buffer by its caller.
use vstd::prelude::*;
use crate::dap;
use crate::dap_store::{
    add_to_list, line_breakpoint, path_key, set_of, Bias, Breakpoint, ClientStatus, DapStore, ProjectPath,
};

verus! {

/// The row a buffer reports for an anchor: the first entry of the table for
/// it, if any.
pub open spec fn anchor_row(rows: Seq<(u64, u32)>, anchor: u64) -> Option<u32>
    decreases rows.len(),
{
    if rows.len() == 0 {
        None
    } else if rows[0].0 == anchor {
        Some(rows[0].1)
    } else {
        anchor_row(rows.drop_first(), anchor)
    }
}

/// The anchor a buffer puts at the start of a row with a bias: the first
/// entry of the table for them, if any.
pub open spec fn anchor_at(anchors: Seq<((u32, Bias), u64)>, row: u32, bias: Bias) -> Option<u64>
    decreases anchors.len(),
{
    if anchors.len() == 0 {
        None
    } else if anchors[0].0 == (row, bias) {
        Some(anchors[0].1)
    } else {
        anchor_at(anchors.drop_first(), row, bias)
    }
}

fn lookup_row(rows: &Vec<(u64, u32)>, anchor: u64) -> (r: Option<u32>)
    ensures
        r == anchor_row(rows@, anchor),
{
    let mut i: usize = 0;
    assert(rows@.subrange(0, rows@.len() as int) =~= rows@);
    while i < rows.len()
        invariant
            i <= rows.len(),
            anchor_row(rows@, anchor) == anchor_row(rows@.subrange(i as int, rows@.len() as int), anchor),
        decreases rows.len() - i,
    {
        let ghost rest = rows@.subrange(i as int, rows@.len() as int);
        assert(rest[0] == rows@[i as int]);
        if rows[i].0 == anchor {
            return Some(rows[i].1);
        }
        assert(rest.drop_first() =~= rows@.subrange(i as int + 1, rows@.len() as int));
        i += 1;
    }
    None
}

fn lookup_anchor(anchors: &Vec<((u32, Bias), u64)>, row: u32, bias: Bias) -> (r: Option<u64>)
    ensures
        r == anchor_at(anchors@, row, bias),
{
    let mut i: usize = 0;
    assert(anchors@.subrange(0, anchors@.len() as int) =~= anchors@);
    while i < anchors.len()
        invariant
            i <= anchors.len(),
            anchor_at(anchors@, row, bias) == anchor_at(
                anchors@.subrange(i as int, anchors@.len() as int),
                row,
                bias,
            ),
        decreases anchors.len() - i,
    {
        let ghost rest = anchors@.subrange(i as int, anchors@.len() as int);
        assert(rest[0] == anchors@[i as int]);
        let ((r, b), a) = anchors[i];
        if r == row && b == bias {
            return Some(a);
        }
        assert(rest.drop_first() =~= anchors@.subrange(i as int + 1, anchors@.len() as int));
        i += 1;
    }
    None
}

/// The bias of the anchor put at the start of a row: to the right on the
/// first row, to the left elsewhere.
pub open spec fn row_bias(row: u32) -> Bias {
    if row == 0 {
        Bias::Right
    } else {
        Bias::Left
    }
}

/// The row of a breakpoint in an open buffer: the row of its anchor while it
/// has one the buffer knows, its last known row otherwise.
pub open spec fn row_in(bp: Breakpoint, rows: Seq<(u64, u32)>) -> u32 {
    match bp.active_position {
        Some(a) => match anchor_row(rows, a) {
            Some(r) => r,
            None => bp.cache_position,
        },
        None => bp.cache_position,
    }
}

/// A breakpoint of a buffer that closes: no anchor, and its row in the
/// buffer as its last known row.
pub open spec fn closed(bp: Breakpoint, rows: Seq<(u64, u32)>) -> Breakpoint {
    Breakpoint { active_position: None, cache_position: row_in(bp, rows) }
}

/// A breakpoint of a buffer that opens: one without an anchor gets the
/// anchor the buffer puts at the start of its row; one the buffer gives no
/// anchor for, and one that has an anchor, stays as it is.
pub open spec fn activated(bp: Breakpoint, anchors: Seq<((u32, Bias), u64)>) -> Breakpoint {
    match bp.active_position {
        Some(_) => bp,
        None => match anchor_at(anchors, bp.cache_position, row_bias(bp.cache_position)) {
            Some(a) => Breakpoint { active_position: Some(a), cache_position: bp.cache_position },
            None => bp,
        },
    }
}

/// The breakpoint the adapter is asked to set for a breakpoint of an open
/// buffer: one line below its row, lines being counted from one.
pub open spec fn snapshot_source(bp: Breakpoint, rows: Seq<(u64, u32)>) -> dap::SourceBreakpoint {
    line_breakpoint((row_in(bp, rows) + 1) as u64)
}

fn row_in_exec(bp: &Breakpoint, rows: &Vec<(u64, u32)>) -> (r: u32)
    ensures
        r == row_in(*bp, rows@),
{
    match bp.active_position {
        Some(a) => match lookup_row(rows, a) {
            Some(r) => r,
            None => bp.cache_position,
        },
        None => bp.cache_position,
    }
}

impl Breakpoint {
    /// The point of the breakpoint in an open buffer: its row, column zero.
    pub fn point_for_buffer(&self, rows: &Vec<(u64, u32)>) -> (r: (u32, u32))
        ensures
            r == (row_in(*self, rows@), 0u32),
    {
        (row_in_exec(self, rows), 0)
    }

    /// The point of the breakpoint in a snapshot of an open buffer: its row,
    /// column zero.
    pub fn point_for_buffer_snapshot(&self, rows: &Vec<(u64, u32)>) -> (r: (u32, u32))
        ensures
            r == (row_in(*self, rows@), 0u32),
    {
        (row_in_exec(self, rows), 0)
    }

    /// The breakpoint the adapter is asked to set while the buffer is open.
    pub fn source_for_snapshot(&self, rows: &Vec<(u64, u32)>) -> (r: dap::SourceBreakpoint)
        ensures
            r == snapshot_source(*self, rows@),
    {
        let row = row_in_exec(self, rows);
        dap::SourceBreakpoint {
            line: row as u64 + 1,
            column: None,
            condition: None,
            hit_condition: None,
            log_message: None,
            mode: None,
        }
    }
}

/// What closing a buffer does to each of its breakpoints.
pub open spec fn closing(rows: Seq<(u64, u32)>) -> spec_fn(Breakpoint) -> Breakpoint {
    |bp: Breakpoint| closed(bp, rows)
}

/// What opening a buffer does to each of its breakpoints.
pub open spec fn activating(anchors: Seq<((u32, Bias), u64)>) -> spec_fn(Breakpoint) -> Breakpoint {
    |bp: Breakpoint| activated(bp, anchors)
}

/// The breakpoint asked for, for each breakpoint of an open buffer.
pub open spec fn sourcing(rows: Seq<(u64, u32)>) -> spec_fn(Breakpoint) -> dap::SourceBreakpoint {
    |bp: Breakpoint| snapshot_source(bp, rows)
}

/// The breakpoints of a file once its buffer closed.
pub open spec fn closed_set(s: Set<Breakpoint>, rows: Seq<(u64, u32)>) -> Set<Breakpoint> {
    s.map(closing(rows))
}

/// The breakpoints of a file once its buffer opened.
pub open spec fn activated_set(s: Set<Breakpoint>, anchors: Seq<((u32, Bias), u64)>) -> Set<Breakpoint> {
    s.map(activating(anchors))
}

proof fn lemma_mapped_step<B>(list: Seq<Breakpoint>, i: int, f: spec_fn(Breakpoint) -> B)
    requires
        0 <= i < list.len(),
    ensures
        list.take(i + 1).map_values(f).to_set() == list.take(i).map_values(f).to_set().insert(f(list[i])),
{
    assert(list.take(i + 1).map_values(f) =~= list.take(i).map_values(f).push(f(list[i])));
    list.take(i).map_values(f).lemma_push_to_set_commute(f(list[i]));
}

proof fn lemma_mapped_all<B>(list: Seq<Breakpoint>, f: spec_fn(Breakpoint) -> B)
    ensures
        list.take(list.len() as int).map_values(f).to_set() == list.to_set().map(f),
{
    assert(list.take(list.len() as int) =~= list);
    list.lemma_to_set_map_commutes(f);
}

fn closed_list(list: &Vec<Breakpoint>, rows: &Vec<(u64, u32)>) -> (r: Vec<Breakpoint>)
    ensures
        r@.no_duplicates(),
        r@.to_set() == closed_set(list@.to_set(), rows@),
{
    let mut out: Vec<Breakpoint> = Vec::new();
    let mut i: usize = 0;
    assert(list@.take(0).map_values(closing(rows@)).to_set() =~= out@.to_set());
    while i < list.len()
        invariant
            i <= list.len(),
            out@.no_duplicates(),
            out@.to_set() == list@.take(i as int).map_values(closing(rows@)).to_set(),
        decreases list.len() - i,
    {
        let row = row_in_exec(&list[i], rows);
        add_to_list(&mut out, Breakpoint { active_position: None, cache_position: row });
        proof {
            lemma_mapped_step(list@, i as int, closing(rows@));
        }
        i += 1;
    }
    proof {
        lemma_mapped_all(list@, closing(rows@));
    }
    out
}

fn activated_list(list: &Vec<Breakpoint>, anchors: &Vec<((u32, Bias), u64)>) -> (r: Vec<Breakpoint>)
    ensures
        r@.no_duplicates(),
        r@.to_set() == activated_set(list@.to_set(), anchors@),
{
    let mut out: Vec<Breakpoint> = Vec::new();
    let mut i: usize = 0;
    assert(list@.take(0).map_values(activating(anchors@)).to_set() =~= out@.to_set());
    while i < list.len()
        invariant
            i <= list.len(),
            out@.no_duplicates(),
            out@.to_set() == list@.take(i as int).map_values(activating(anchors@)).to_set(),
        decreases list.len() - i,
    {
        let mut bp = list[i];
        if bp.active_position.is_none() {
            let bias = bp.anchor_bias();
            match lookup_anchor(anchors, bp.cache_position, bias) {
                Some(a) => bp.set_active_position(a),
                None => {},
            }
        }
        add_to_list(&mut out, bp);
        proof {
            lemma_mapped_step(list@, i as int, activating(anchors@));
        }
        i += 1;
    }
    proof {
        lemma_mapped_all(list@, activating(anchors@));
    }
    out
}

impl DapStore {
    /// Gives each breakpoint of a file whose buffer opened the anchor the
    /// buffer puts at the start of its row (`anchors`); the file keeps an
    /// entry, empty or not.
    pub fn set_active_breakpoints(&mut self, project_path: &ProjectPath, anchors: &Vec<((u32, Bias), u64)>)
        ensures
            final(self)@ == old(self)@.insert(
                path_key(*project_path),
                activated_set(set_of(old(self)@, path_key(*project_path)), anchors@),
            ),
            final(self).next_id() == old(self).next_id(),
            final(self).client_map() == old(self).client_map(),
    {
        let list = self.breakpoints_of(project_path);
        let out = activated_list(&list, anchors);
        self.put_breakpoints(project_path, out);
    }

    /// Takes the breakpoints of a file whose buffer closes off their anchors,
    /// each keeping its row in the buffer (`rows`); nothing when the store
    /// has no entry for the file.
    pub fn sync_open_breakpoints_to_closed_breakpoints(&mut self, project_path: &ProjectPath, rows: &Vec<(u64, u32)>)
        ensures
            old(self)@.contains_key(path_key(*project_path)) ==> final(self)@ == old(self)@.insert(
                path_key(*project_path),
                closed_set(old(self)@[path_key(*project_path)], rows@),
            ),
            !old(self)@.contains_key(path_key(*project_path)) ==> final(self)@ == old(self)@,
            final(self).next_id() == old(self).next_id(),
            final(self).client_map() == old(self).client_map(),
    {
        if self.has_entry(project_path) {
            let list = self.breakpoints_of(project_path);
            let out = closed_list(&list, rows);
            self.put_breakpoints(project_path, out);
        }
    }

    /// The breakpoints to send to the running clients after those of a file
    /// changed: one for each breakpoint of the file, at its row in the open
    /// buffer (`rows`); none when no client runs or the store has no entry
    /// for the file.
    pub fn send_changed_breakpoints(&self, project_path: &ProjectPath, rows: &Vec<(u64, u32)>) -> (r: Option<Vec<dap::SourceBreakpoint>>)
        ensures
            r is None <==> (!self@.contains_key(path_key(*project_path)) || !(exists|id| #[trigger]
                self.client_map().contains_key(id) && self.client_map()[id] == ClientStatus::Running)),
            r matches Some(v) ==> exists|l: Seq<Breakpoint>| #![trigger l.to_set()]
                l.no_duplicates() && l.to_set() == self@[path_key(*project_path)] && v@ == l.map_values(sourcing(rows@)),
    {
        let clients = self.running_clients();
        if clients.len() == 0 {
            assert forall|id| !(#[trigger] self.client_map().contains_key(id) && self.client_map()[id]
                == ClientStatus::Running) by {
                assert(!clients@.contains(id));
            }
            return None;
        }
        assert(clients@.contains(clients@[0]));
        if !self.has_entry(project_path) {
            return None;
        }
        let list = self.breakpoints_of(project_path);
        let mut out: Vec<dap::SourceBreakpoint> = Vec::new();
        let mut i: usize = 0;
        while i < list.len()
            invariant
                i <= list.len(),
                out@ == list@.take(i as int).map_values(sourcing(rows@)),
            decreases list.len() - i,
        {
            out.push(list[i].source_for_snapshot(rows));
            assert(list@.take(i as int + 1).map_values(sourcing(rows@)) =~= list@.take(i as int).map_values(
                sourcing(rows@),
            ).push(snapshot_source(list@[i as int], rows@)));
            i += 1;
        }
        assert(list@.take(list.len() as int) =~= list@);
        assert(set_of(self@, path_key(*project_path)) == self@[path_key(*project_path)]);
        Some(out)
    }
}

/// A breakpoint of a closed buffer has no anchor.
pub proof fn lemma_closed_anchorless(s: Set<Breakpoint>, rows: Seq<(u64, u32)>)
    ensures
        forall|bp: Breakpoint| #[trigger] closed_set(s, rows).contains(bp) ==> bp.active_position is None,
{
}

/// Breakpoints kept by row, anchored when their buffer opens and taken off
/// their anchors when it closes, with each anchor still at the row it was
/// put at, come back as they were.
pub proof fn lemma_reopen_round_trip(
    s: Set<Breakpoint>,
    anchors: Seq<((u32, Bias), u64)>,
    rows: Seq<(u64, u32)>,
)
    requires
        forall|bp: Breakpoint| #[trigger] s.contains(bp) ==> bp.active_position is None,
        forall|bp: Breakpoint| #[trigger] s.contains(bp) ==> match anchor_at(
            anchors,
            bp.cache_position,
            row_bias(bp.cache_position),
        ) {
            Some(a) => anchor_row(rows, a) == Some(bp.cache_position),
            None => true,
        },
    ensures
        closed_set(activated_set(s, anchors), rows) == s,
{
    let t = closed_set(activated_set(s, anchors), rows);
    assert forall|bp: Breakpoint| s.contains(bp) implies closed(activated(bp, anchors), rows) == bp by {}
    assert forall|x: Breakpoint| t.contains(x) <==> s.contains(x) by {
        if t.contains(x) {
            let y = choose|y: Breakpoint| activated_set(s, anchors).contains(y) && closing(rows)(y) == x;
            let z = choose|z: Breakpoint| s.contains(z) && activating(anchors)(z) == y;
            assert(closed(activated(z, anchors), rows) == z);
        }
        if s.contains(x) {
            assert(activated_set(s, anchors).contains(activated(x, anchors)));
            assert(closed(activated(x, anchors), rows) == x);
        }
    }
    assert(t =~= s);
}

} // verus!
