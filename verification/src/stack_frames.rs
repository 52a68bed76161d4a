//! The entries of a stack frame list: frames shown one by one, with each run
//! of deemphasized frames folded into one collapsed entry.
use vstd::prelude::*;
use vstd::string::*;
use crate::dap::{Source, StackFrame, StackFrameView, StackFramePresentationHint};
use crate::text::{decimal, decimal_string};
use crate::ids::DebugAdapterClientId;
use crate::proto;
use crate::proto_conversions::{
    lemma_stack_frame_round_trip,
    opt_source_accepted,
    opt_source_wire_faithful,
    stack_frame_from_proto,
    stack_frame_to_proto,
    ProtoConversion,
};

verus! {

/// An entry of a stack frame list.
#[derive(Debug)]
pub enum StackFrameEntry {
    Normal(StackFrame),
    Collapsed(Vec<StackFrame>),
}

/// The abstract value of an entry.
pub enum EntryView {
    Normal(StackFrameView),
    Collapsed(Seq<StackFrameView>),
}

/// The abstract values of a sequence of frames.
pub open spec fn frame_views(s: Seq<StackFrame>) -> Seq<StackFrameView> {
    s.map_values(|f: StackFrame| f@)
}

impl View for StackFrameEntry {
    type V = EntryView;

    open spec fn view(&self) -> EntryView {
        match self {
            StackFrameEntry::Normal(f) => EntryView::Normal(f@),
            StackFrameEntry::Collapsed(v) => EntryView::Collapsed(frame_views(v@)),
        }
    }
}

/// The abstract values of a sequence of entries.
pub open spec fn entry_views(s: Seq<StackFrameEntry>) -> Seq<EntryView> {
    s.map_values(|e: StackFrameEntry| e@)
}

/// Whether a frame asks to be shown deemphasized.
pub open spec fn is_deemphasized(f: StackFrameView) -> bool {
    f.presentation_hint == Some(StackFramePresentationHint::Deemphasize)
}

/// The collapsed entry of the pending deemphasized frames, if any.
pub open spec fn collapse(pending: Seq<StackFrameView>) -> Seq<EntryView> {
    if pending.len() == 0 {
        Seq::empty()
    } else {
        seq![EntryView::Collapsed(pending)]
    }
}

/// The entries of `frames`, after deemphasized frames `pending` that are
/// not shown yet.
pub open spec fn build_from(frames: Seq<StackFrameView>, pending: Seq<StackFrameView>) -> Seq<EntryView>
    decreases frames.len(),
{
    if frames.len() == 0 {
        collapse(pending)
    } else if is_deemphasized(frames[0]) {
        build_from(frames.skip(1), pending.push(frames[0]))
    } else {
        collapse(pending) + seq![EntryView::Normal(frames[0])] + build_from(frames.skip(1), Seq::empty())
    }
}

/// The entries of a stack: each frame on its own, but each run of
/// deemphasized frames folded into one collapsed entry.
pub open spec fn entries_of(frames: Seq<StackFrameView>) -> Seq<EntryView> {
    build_from(frames, Seq::empty())
}

/// Builds the entries of a stack.
pub fn build_entries(frames: &Vec<StackFrame>) -> (r: Vec<StackFrameEntry>)
    ensures
        entry_views(r@) == entries_of(frame_views(frames@)),
{
    let ghost f = frame_views(frames@);
    let mut entries: Vec<StackFrameEntry> = Vec::new();
    let mut pending: Vec<StackFrame> = Vec::new();
    let mut i: usize = 0;
    assert(f.skip(0) =~= f);
    assert(entry_views(entries@) =~= Seq::<EntryView>::empty());
    assert(frame_views(pending@) =~= Seq::<StackFrameView>::empty());
    assert(entry_views(entries@) + build_from(f.skip(0), frame_views(pending@)) =~= entries_of(f));
    while i < frames.len()
        invariant
            f == frame_views(frames@),
            i <= frames.len(),
            entry_views(entries@) + build_from(f.skip(i as int), frame_views(pending@)) == entries_of(f),
        decreases frames.len() - i,
    {
        let ghost e0 = entry_views(entries@);
        let ghost p0 = frame_views(pending@);
        let ghost rest = f.skip(i as int);
        assert(rest[0] == frames@[i as int]@);
        assert(rest.skip(1) =~= f.skip(i as int + 1));
        let frame = frames[i].clone();
        if matches!(frame.presentation_hint, Some(StackFramePresentationHint::Deemphasize)) {
            pending.push(frame);
            assert(frame_views(pending@) =~= p0.push(rest[0]));
        } else {
            if pending.len() > 0 {
                let mut taken: Vec<StackFrame> = Vec::new();
                std::mem::swap(&mut taken, &mut pending);
                entries.push(StackFrameEntry::Collapsed(taken));
            }
            entries.push(StackFrameEntry::Normal(frame));
            assert(entry_views(entries@) =~= e0 + collapse(p0) + seq![EntryView::Normal(rest[0])]);
            assert(frame_views(pending@) =~= Seq::<StackFrameView>::empty());
            assert(entry_views(entries@) + build_from(f.skip(i as int + 1), frame_views(pending@)) =~= e0
                + build_from(rest, p0));
        }
        i += 1;
    }
    let ghost e0 = entry_views(entries@);
    let ghost p0 = frame_views(pending@);
    assert(f.skip(i as int).len() == 0);
    if pending.len() > 0 {
        entries.push(StackFrameEntry::Collapsed(pending));
    }
    assert(entry_views(entries@) =~= e0 + collapse(p0));
    entries
}


/// The frames an entry shows.
pub open spec fn entry_frames(e: EntryView) -> Seq<StackFrameView> {
    match e {
        EntryView::Normal(f) => seq![f],
        EntryView::Collapsed(v) => v,
    }
}

/// The frames a sequence of entries shows, in order.
pub open spec fn flatten(es: Seq<EntryView>) -> Seq<StackFrameView>
    decreases es.len(),
{
    if es.len() == 0 {
        Seq::empty()
    } else {
        entry_frames(es[0]) + flatten(es.skip(1))
    }
}

proof fn lemma_flatten_append(a: Seq<EntryView>, b: Seq<EntryView>)
    ensures
        flatten(a + b) == flatten(a) + flatten(b),
    decreases a.len(),
{
    if a.len() == 0 {
        assert(a + b =~= b);
        assert(flatten(a) + flatten(b) =~= flatten(b));
    } else {
        lemma_flatten_append(a.skip(1), b);
        assert((a + b).skip(1) =~= a.skip(1) + b);
        assert((a + b)[0] == a[0]);
        assert(flatten(a + b) =~= flatten(a) + flatten(b));
    }
}

proof fn lemma_flatten_single(e: EntryView)
    ensures
        flatten(seq![e]) == entry_frames(e),
{
    assert(seq![e].skip(1) =~= Seq::<EntryView>::empty());
    assert(flatten(seq![e]) =~= entry_frames(e) + flatten(Seq::<EntryView>::empty()));
}

proof fn lemma_build_flatten(f: Seq<StackFrameView>, p: Seq<StackFrameView>)
    ensures
        flatten(build_from(f, p)) == p + f,
    decreases f.len(),
{
    if f.len() == 0 {
        if p.len() > 0 {
            lemma_flatten_single(EntryView::Collapsed(p));
        }
        assert(p + f =~= p);
    } else if is_deemphasized(f[0]) {
        lemma_build_flatten(f.skip(1), p.push(f[0]));
        assert(p.push(f[0]) + f.skip(1) =~= p + f);
    } else {
        lemma_build_flatten(f.skip(1), Seq::empty());
        let c = collapse(p);
        let n = seq![EntryView::Normal(f[0])];
        lemma_flatten_append(c + n, build_from(f.skip(1), Seq::empty()));
        lemma_flatten_append(c, n);
        lemma_flatten_single(EntryView::Normal(f[0]));
        if p.len() > 0 {
            lemma_flatten_single(EntryView::Collapsed(p));
        }
        assert(flatten(c) == p);
        assert(p + seq![f[0]] + (Seq::<StackFrameView>::empty() + f.skip(1)) =~= p + f);
    }
}

/// Folding runs of deemphasized frames loses, adds and reorders no frame:
/// the entries show the stack's frames, in order.
pub proof fn lemma_entries_keep_frames(frames: Seq<StackFrameView>)
    ensures
        flatten(entries_of(frames)) == frames,
{
    lemma_build_flatten(frames, Seq::empty());
    assert(Seq::<StackFrameView>::empty() + frames =~= frames);
}

/// Whether entries are grouped as the list shows them: a normal entry holds
/// a frame that is not deemphasized, a collapsed entry holds at least one
/// frame and only deemphasized ones, and no two collapsed entries follow
/// each other.
pub open spec fn well_grouped(es: Seq<EntryView>) -> bool {
    &&& forall|i: int|
        0 <= i < es.len() ==> match #[trigger] es[i] {
            EntryView::Normal(f) => !is_deemphasized(f),
            EntryView::Collapsed(v) => v.len() > 0 && forall|j: int| 0 <= j < v.len() ==> is_deemphasized(#[trigger] v[j]),
        }
    &&& forall|i: int| 0 <= i < es.len() - 1 ==> !(#[trigger] es[i] is Collapsed && es[i + 1] is Collapsed)
}

proof fn lemma_build_grouped(f: Seq<StackFrameView>, p: Seq<StackFrameView>)
    requires
        forall|j: int| 0 <= j < p.len() ==> is_deemphasized(#[trigger] p[j]),
    ensures
        well_grouped(build_from(f, p)),
    decreases f.len(),
{
    if f.len() == 0 {
    } else if is_deemphasized(f[0]) {
        assert forall|j: int| 0 <= j < p.push(f[0]).len() implies is_deemphasized(#[trigger] p.push(f[0])[j]) by {
            if j < p.len() {
                assert(p.push(f[0])[j] == p[j]);
            }
        }
        lemma_build_grouped(f.skip(1), p.push(f[0]));
    } else {
        lemma_build_grouped(f.skip(1), Seq::empty());
        let head = collapse(p) + seq![EntryView::Normal(f[0])];
        let rest = build_from(f.skip(1), Seq::empty());
        let all = head + rest;
        assert(head.last() is Normal);
        assert forall|i: int| 0 <= i < all.len() implies match #[trigger] all[i] {
            EntryView::Normal(fr) => !is_deemphasized(fr),
            EntryView::Collapsed(v) => v.len() > 0 && forall|j: int| 0 <= j < v.len() ==> is_deemphasized(#[trigger] v[j]),
        } by {
            if i >= head.len() {
                assert(all[i] == rest[i - head.len()]);
            }
        }
        assert forall|i: int| 0 <= i < all.len() - 1 implies !(#[trigger] all[i] is Collapsed && all[i + 1] is Collapsed) by {
            if i >= head.len() {
                assert(all[i] == rest[i - head.len()]);
                assert(all[i + 1] == rest[i + 1 - head.len()]);
            } else if i == head.len() - 1 {
                assert(all[i] == head.last());
            } else {
                assert(all[i + 1] == head[i + 1]);
            }
        }
    }
}

/// The entries of a stack are grouped as the list shows them.
pub proof fn lemma_entries_grouped(frames: Seq<StackFrameView>)
    ensures
        well_grouped(entries_of(frames)),
{
    lemma_build_grouped(frames, Seq::empty());
}

/// The entries after the entry at `ix` is expanded into one normal entry per
/// frame.
pub open spec fn expanded(es: Seq<EntryView>, ix: int, frames: Seq<StackFrameView>) -> Seq<EntryView> {
    es.take(ix) + frames.map_values(|f: StackFrameView| EntryView::Normal(f)) + es.skip(ix + 1)
}

/// Replaces the entry at `ix` by one normal entry for each of `frames`.
pub fn expand_collapsed_entry(entries: &mut Vec<StackFrameEntry>, ix: usize, frames: &Vec<StackFrame>)
    requires
        ix < old(entries).len(),
    ensures
        entry_views(final(entries)@) == expanded(entry_views(old(entries)@), ix as int, frame_views(frames@)),
{
    let ghost es = entry_views(entries@);
    let mut tail = entries.split_off(ix + 1);
    entries.pop();
    assert(entry_views(entries@) =~= es.take(ix as int));
    let mut i: usize = 0;
    while i < frames.len()
        invariant
            i <= frames.len(),
            entry_views(entries@) =~= es.take(ix as int) + frame_views(frames@).take(i as int).map_values(
                |f: StackFrameView| EntryView::Normal(f),
            ),
        decreases frames.len() - i,
    {
        let ghost before = entry_views(entries@);
        let ghost fv = frame_views(frames@);
        entries.push(StackFrameEntry::Normal(frames[i].clone()));
        assert(entry_views(entries@) =~= before.push(EntryView::Normal(frames@[i as int]@)));
        assert(fv.take(i as int + 1).map_values(|f: StackFrameView| EntryView::Normal(f)) =~= fv.take(
            i as int,
        ).map_values(|f: StackFrameView| EntryView::Normal(f)).push(EntryView::Normal(fv[i as int])));
        i += 1;
    }
    assert(frame_views(frames@).take(frames.len() as int) =~= frame_views(frames@));
    let ghost t = entry_views(tail@);
    entries.append(&mut tail);
    assert(t =~= es.skip(ix as int + 1));
    assert(entry_views(entries@) =~= expanded(es, ix as int, frame_views(frames@)));
}

/// Expanding a collapsed entry into its own frames leaves the frames the
/// list shows unchanged.
pub proof fn lemma_expand_keeps_frames(es: Seq<EntryView>, ix: int)
    requires
        0 <= ix < es.len(),
        es[ix] is Collapsed,
    ensures
        flatten(expanded(es, ix, es[ix]->Collapsed_0)) == flatten(es),
{
    let v = es[ix]->Collapsed_0;
    let normals = v.map_values(|f: StackFrameView| EntryView::Normal(f));
    lemma_flatten_normals(v);
    lemma_flatten_append(es.take(ix) + normals, es.skip(ix + 1));
    lemma_flatten_append(es.take(ix), normals);
    lemma_flatten_append(es.take(ix), seq![es[ix]]);
    lemma_flatten_append(es.take(ix) + seq![es[ix]], es.skip(ix + 1));
    lemma_flatten_single(es[ix]);
    assert(es.take(ix) + seq![es[ix]] + es.skip(ix + 1) =~= es);
}

proof fn lemma_flatten_normals(v: Seq<StackFrameView>)
    ensures
        flatten(v.map_values(|f: StackFrameView| EntryView::Normal(f))) == v,
    decreases v.len(),
{
    let n = v.map_values(|f: StackFrameView| EntryView::Normal(f));
    if v.len() > 0 {
        lemma_flatten_normals(v.skip(1));
        assert(n.skip(1) =~= v.skip(1).map_values(|f: StackFrameView| EntryView::Normal(f)));
        assert(flatten(n) =~= v);
    } else {
        assert(flatten(n) =~= v);
    }
}


/// The text of an optional string; empty when missing.
pub open spec fn text_or_empty(s: Option<String>) -> Seq<char> {
    match s {
        Some(t) => t@,
        None => Seq::empty(),
    }
}

/// The name of a frame's source, if any.
pub open spec fn source_name(f: StackFrameView) -> Option<String> {
    match f.source {
        Some(s) => s.name,
        None => None,
    }
}

/// The path of a frame's source, if any.
pub open spec fn source_path(f: StackFrameView) -> Option<String> {
    match f.source {
        Some(s) => s.path,
        None => None,
    }
}

/// The origin of a frame's source, if any.
pub open spec fn source_origin(f: StackFrameView) -> Option<String> {
    match f.source {
        Some(s) => s.origin,
        None => None,
    }
}

/// Where a frame is: its source's name, a colon and its line.
pub open spec fn location_of(f: StackFrameView) -> Seq<char> {
    text_or_empty(source_name(f)) + ":"@ + decimal(f.line as nat)
}

/// What a normal entry of the list shows, and how.
pub struct NormalEntryLabel {
    pub name: String,
    pub location: String,
    pub path: Option<String>,
    pub origin: Option<String>,
    pub selected: bool,
    pub restartable: bool,
}

fn opt_field(s: &Option<Source>, pick: u8) -> (r: Option<String>)
    requires
        pick < 3,
    ensures
        r == (match *s {
            Some(src) => if pick == 0 {
                src.name
            } else if pick == 1 {
                src.path
            } else {
                src.origin
            },
            None => None,
        }),
{
    match s {
        Some(src) => if pick == 0 {
            crate::dap::clone_opt_string(&src.name)
        } else if pick == 1 {
            crate::dap::clone_opt_string(&src.path)
        } else {
            crate::dap::clone_opt_string(&src.origin)
        },
        None => None,
    }
}

/// What the list shows for a frame on its own: its name, its location, its
/// source's path and origin; it is selected when it is the current frame,
/// and offers a restart when the adapter can restart frames and the frame
/// does not refuse it.
pub fn normal_entry_label(frame: &StackFrame, current_stack_frame_id: u64, supports_restart_frame: Option<bool>) -> (r:
    NormalEntryLabel)
    ensures
        r.name == frame.name,
        r.location@ == location_of(frame@),
        r.path == source_path(frame@),
        r.origin == source_origin(frame@),
        r.selected == (frame.id == current_stack_frame_id),
        r.restartable == (supports_restart_frame == Some(true) && frame.can_restart != Some(false)),
{
    let mut location = match opt_field(&frame.source, 0) {
        Some(name) => name,
        None => String::new(),
    };
    location.append(":");
    location.append(decimal_string(frame.line).as_str());
    let supports = match supports_restart_frame {
        Some(b) => b,
        None => false,
    };
    let can_restart = match frame.can_restart {
        Some(b) => b,
        None => true,
    };
    let r = NormalEntryLabel {
        name: frame.name.clone(),
        location,
        path: opt_field(&frame.source, 1),
        origin: opt_field(&frame.source, 2),
        selected: frame.id == current_stack_frame_id,
        restartable: supports && can_restart,
    };
    assert(r.location@ =~= location_of(frame@));
    r
}

/// What a collapsed entry shows: how many frames it hides, and the origin
/// of its first frame's source.
pub open spec fn collapsed_label(frames: Seq<StackFrameView>) -> Seq<char> {
    "Show "@ + decimal(frames.len()) + " more"@ + match source_origin(frames[0]) {
        Some(o) => ": "@ + o@,
        None => Seq::empty(),
    }
}

/// The label of a collapsed entry.
pub fn collapsed_entry_label(frames: &Vec<StackFrame>) -> (r: String)
    requires
        frames.len() > 0,
    ensures
        r@ == collapsed_label(frame_views(frames@)),
{
    let mut out = String::from_str("Show ");
    out.append(decimal_string(frames.len() as u64).as_str());
    out.append(" more");
    match opt_field(&frames[0].source, 2) {
        Some(origin) => {
            out.append(": ");
            out.append(origin.as_str());
        },
        None => {},
    }
    proof {
        reveal_strlit("Show ");
        reveal_strlit(" more");
        reveal_strlit(": ");
    }
    assert(frame_views(frames@)[0] == frames@[0]@);
    assert(out@ =~= collapsed_label(frame_views(frames@)));
    out
}

/// Where selecting a frame goes: its source's path and the zero-based row
/// of its line, when the frame has a path.
pub fn frame_location(frame: &StackFrame) -> (r: Option<(String, u32)>)
    ensures
        r == (match source_path(frame@) {
            Some(p) => Some((p, (if frame.line == 0 { 0 } else { frame.line - 1 }) as u32)),
            None => None,
        }),
{
    let row = frame.line.saturating_sub(1) as u32;
    match opt_field(&frame.source, 1) {
        Some(path) => Some((path, row)),
        None => None,
    }
}

/// Where selecting a frame leads.
#[derive(Debug, PartialEq)]
pub enum FrameSelection {
    /// The frame is selected and nothing is opened.
    Stay,
    /// The frame's source is opened at this zero-based row.
    Open { path: String, row: u32 },
    /// The frame has no source path to open.
    PathNotFound,
}

/// The stack frames of a thread of a client, the entries they are shown as,
/// and the frame selected.
#[derive(Debug)]
pub struct StackFrameList {
    pub thread_id: u64,
    pub client_id: DebugAdapterClientId,
    pub current_stack_frame_id: u64,
    pub stack_frames: Vec<StackFrame>,
    pub entries: Vec<StackFrameEntry>,
}

impl StackFrameList {
    /// An empty list of a thread; no frame is selected.
    pub fn new(client_id: DebugAdapterClientId, thread_id: u64) -> (r: Self)
        ensures
            r.thread_id == thread_id,
            r.client_id == client_id,
            r.current_stack_frame_id == 0,
            r.stack_frames@.len() == 0,
            r.entries@.len() == 0,
    {
        StackFrameList {
            thread_id,
            client_id,
            current_stack_frame_id: 0,
            stack_frames: Vec::new(),
            entries: Vec::new(),
        }
    }

    /// The entries the frames are shown as.
    pub fn entries(&self) -> (r: &Vec<StackFrameEntry>)
        ensures
            *r == self.entries,
    {
        &self.entries
    }

    /// The id of the selected frame.
    pub fn current_stack_frame_id(&self) -> (r: u64)
        ensures
            r == self.current_stack_frame_id,
    {
        self.current_stack_frame_id
    }

    /// The frames of the thread, as the adapter sent them.
    pub fn dap_stack_frames(&self) -> (r: Vec<StackFrame>)
        ensures
            frame_views(r@) == frame_views(self.stack_frames@),
    {
        let mut out: Vec<StackFrame> = Vec::new();
        let mut i: usize = 0;
        while i < self.stack_frames.len()
            invariant
                i <= self.stack_frames.len(),
                frame_views(out@) == frame_views(self.stack_frames@.take(i as int)),
            decreases self.stack_frames.len() - i,
        {
            out.push(self.stack_frames[i].clone());
            assert(frame_views(self.stack_frames@.take(i as int + 1)) =~= frame_views(
                self.stack_frames@.take(i as int),
            ).push(self.stack_frames@[i as int]@));
            assert(frame_views(out@) =~= frame_views(self.stack_frames@.take(i as int)).push(
                self.stack_frames@[i as int]@,
            ));
            i += 1;
        }
        assert(self.stack_frames@.take(self.stack_frames.len() as int) =~= self.stack_frames@);
        out
    }

    /// The id of the top frame; zero when there is none.
    pub fn first_stack_frame_id(&self) -> (r: u64)
        ensures
            r == (if self.stack_frames@.len() > 0 {
                self.stack_frames@[0].id
            } else {
                0
            }),
    {
        if self.stack_frames.len() > 0 {
            self.stack_frames[0].id
        } else {
            0
        }
    }

    /// Takes freshly fetched frames and rebuilds the entries; gives the top
    /// frame's id, the frame to select, or nothing when there is no frame.
    pub fn set_stack_frames(&mut self, frames: Vec<StackFrame>) -> (r: Option<u64>)
        ensures
            final(self).stack_frames@ == frames@,
            entry_views(final(self).entries@) == entries_of(frame_views(frames@)),
            r == (if frames@.len() > 0 {
                Some(frames@[0].id)
            } else {
                None
            }),
            final(self).thread_id == old(self).thread_id,
            final(self).client_id == old(self).client_id,
            final(self).current_stack_frame_id == old(self).current_stack_frame_id,
    {
        self.entries = build_entries(&frames);
        let first = if frames.len() > 0 {
            Some(frames[0].id)
        } else {
            None
        };
        self.stack_frames = frames;
        first
    }

    /// Selects a frame; when asked to go to it, its source is opened at the
    /// row above its line.
    pub fn select_stack_frame(&mut self, frame: &StackFrame, go_to_stack_frame: bool) -> (r: FrameSelection)
        ensures
            final(self).current_stack_frame_id == frame.id,
            final(self).stack_frames == old(self).stack_frames,
            final(self).entries == old(self).entries,
            final(self).thread_id == old(self).thread_id,
            final(self).client_id == old(self).client_id,
            !go_to_stack_frame ==> r == FrameSelection::Stay,
            go_to_stack_frame ==> match source_path(frame@) {
                Some(p) => r matches FrameSelection::Open { path, row } && path@ == p@ && row == (if frame.line == 0 {
                    0
                } else {
                    frame.line - 1
                }) as u32,
                None => r == FrameSelection::PathNotFound,
            },
    {
        self.current_stack_frame_id = frame.id;
        if !go_to_stack_frame {
            return FrameSelection::Stay;
        }
        match frame_location(frame) {
            Some((path, row)) => FrameSelection::Open { path, row },
            None => FrameSelection::PathNotFound,
        }
    }

    /// The list as the host shows it to collaborators.
    pub fn to_proto(&self) -> (r: proto::DebuggerStackFrameList)
        ensures
            r.thread_id == self.thread_id,
            r.client_id == self.client_id.0,
            r.current_stack_frame == self.current_stack_frame_id,
            r.stack_frames@.len() == self.stack_frames@.len(),
            forall|j: int| 0 <= j < self.stack_frames@.len() ==> #[trigger] r.stack_frames@[j]@
                == stack_frame_to_proto(self.stack_frames@[j]@),
    {
        let mut frames: Vec<proto::DapStackFrame> = Vec::new();
        let mut i: usize = 0;
        while i < self.stack_frames.len()
            invariant
                i <= self.stack_frames.len(),
                frames.len() == i,
                forall|j: int| 0 <= j < i ==> #[trigger] frames@[j]@ == stack_frame_to_proto(self.stack_frames@[j]@),
            decreases self.stack_frames.len() - i,
        {
            frames.push(self.stack_frames[i].to_proto());
            i += 1;
        }
        proto::DebuggerStackFrameList {
            thread_id: self.thread_id,
            client_id: self.client_id.to_proto(),
            current_stack_frame: self.current_stack_frame_id,
            stack_frames: frames,
        }
    }

    /// Takes the list a host shows: its thread, client, selected frame and
    /// frames, and rebuilds the entries.
    pub fn set_from_proto(&mut self, list: proto::DebuggerStackFrameList)
        requires
            forall|j: int| 0 <= j < list.stack_frames@.len() ==> opt_source_accepted(
                #[trigger] list.stack_frames@[j]@.source,
            ),
        ensures
            final(self).thread_id == list.thread_id,
            final(self).client_id.0 == list.client_id as usize,
            final(self).current_stack_frame_id == list.current_stack_frame,
            final(self).stack_frames@.len() == list.stack_frames@.len(),
            forall|j: int| 0 <= j < list.stack_frames@.len() ==> #[trigger] final(self).stack_frames@[j]@
                == stack_frame_from_proto(list.stack_frames@[j]@),
            entry_views(final(self).entries@) == entries_of(frame_views(final(self).stack_frames@)),
    {
        self.thread_id = list.thread_id;
        self.client_id = DebugAdapterClientId::from_proto(list.client_id);
        self.current_stack_frame_id = list.current_stack_frame;
        let ghost orig = list.stack_frames@;
        let mut wire = list.stack_frames;
        let mut frames: Vec<StackFrame> = Vec::new();
        while wire.len() > 0
            invariant
                frames.len() + wire.len() == orig.len(),
                wire@ == orig.skip(frames.len() as int),
                forall|j: int| 0 <= j < orig.len() ==> opt_source_accepted(#[trigger] orig[j]@.source),
                forall|j: int| 0 <= j < frames.len() ==> #[trigger] frames@[j]@ == stack_frame_from_proto(orig[j]@),
            decreases wire.len(),
        {
            let ghost k = frames.len() as int;
            let frame = wire.remove(0);
            assert(frame == orig[k]);
            assert(orig.skip(k).skip(1) =~= orig.skip(k + 1));
            frames.push(StackFrame::from_proto(frame));
        }
        self.entries = build_entries(&frames);
        self.stack_frames = frames;
    }
}

/// A host's list, sent to a collaborator and taken there, gives back its
/// thread, client, selected frame and frames, when the frames name no module,
/// carry no presentation hint and their sources keep everything on the wire.
pub proof fn lemma_stack_frame_list_round_trip(frames: Seq<StackFrameView>, wire: Seq<StackFrameView>)
    requires
        wire.len() == frames.len(),
        forall|j: int| 0 <= j < frames.len() ==> (#[trigger] frames[j]).module_id is None
            && frames[j].presentation_hint is None && opt_source_wire_faithful(frames[j].source),
        forall|j: int| 0 <= j < frames.len() ==> #[trigger] wire[j] == stack_frame_from_proto(
            stack_frame_to_proto(frames[j]),
        ),
    ensures
        wire == frames,
        forall|j: int| 0 <= j < frames.len() ==> opt_source_accepted(#[trigger] stack_frame_to_proto(frames[j]).source),
{
    assert forall|j: int| 0 <= j < frames.len() implies wire[j] == frames[j] && opt_source_accepted(
        #[trigger] stack_frame_to_proto(frames[j]).source,
    ) by {
        lemma_stack_frame_round_trip(frames[j]);
    }
    assert(wire =~= frames);
}

} // verus!
