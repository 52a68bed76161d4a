//! How peer ids and debug session ids are ordered, and that their wire forms
//! keep that order.
use vstd::prelude::*;
use std::cmp::Ordering;
use vstd::std_specs::cmp::PartialOrdSpecImpl;
use crate::ids::DebugSessionId;
use crate::peer::PeerId;

verus! {

/// The order of two `u32`s.
pub open spec fn order_u32(a: u32, b: u32) -> Ordering {
    if a < b {
        Ordering::Less
    } else if a == b {
        Ordering::Equal
    } else {
        Ordering::Greater
    }
}

/// Peers are ordered by owner, then by id.
pub open spec fn peer_order(p: PeerId, q: PeerId) -> Ordering {
    if p.owner_id != q.owner_id {
        order_u32(p.owner_id, q.owner_id)
    } else {
        order_u32(p.id, q.id)
    }
}

impl PartialOrd for PeerId {
    fn partial_cmp(&self, other: &Self) -> (r: Option<Ordering>) {
        if self.owner_id < other.owner_id {
            Some(Ordering::Less)
        } else if self.owner_id > other.owner_id {
            Some(Ordering::Greater)
        } else if self.id < other.id {
            Some(Ordering::Less)
        } else if self.id > other.id {
            Some(Ordering::Greater)
        } else {
            Some(Ordering::Equal)
        }
    }
}

impl PartialOrdSpecImpl for PeerId {
    open spec fn obeys_partial_cmp_spec() -> bool {
        true
    }

    open spec fn partial_cmp_spec(&self, other: &Self) -> Option<Ordering> {
        Some(peer_order(*self, *other))
    }
}

/// Packing peer ids into `u64`s keeps their order: one peer comes before
/// another exactly when its packed number is the smaller, and two peers are
/// equal exactly when their packed numbers are.
pub proof fn lemma_packing_keeps_order(p: PeerId, q: PeerId)
    ensures
        peer_order(p, q) == Ordering::Less <==> p.packed() < q.packed(),
        peer_order(p, q) == Ordering::Equal <==> p.packed() == q.packed(),
        peer_order(p, q) == Ordering::Greater <==> p.packed() > q.packed(),
        p.packed() == q.packed() <==> p == q,
{
    let po = p.owner_id;
    let qo = q.owner_id;
    let pi = p.id;
    let qi = q.id;
    assert(po < qo ==> po * 0x1_0000_0000 + pi < qo * 0x1_0000_0000 + qi) by (nonlinear_arith)
        requires
            pi <= u32::MAX,
            qi <= u32::MAX,
    ;
    assert(po > qo ==> po * 0x1_0000_0000 + pi > qo * 0x1_0000_0000 + qi) by (nonlinear_arith)
        requires
            pi <= u32::MAX,
            qi <= u32::MAX,
    ;
}

/// Session ids are ordered by their number.
pub open spec fn session_order(a: DebugSessionId, b: DebugSessionId) -> Ordering {
    if a.0 < b.0 {
        Ordering::Less
    } else if a.0 == b.0 {
        Ordering::Equal
    } else {
        Ordering::Greater
    }
}

impl PartialOrd for DebugSessionId {
    fn partial_cmp(&self, other: &Self) -> (r: Option<Ordering>) {
        if self.0 < other.0 {
            Some(Ordering::Less)
        } else if self.0 == other.0 {
            Some(Ordering::Equal)
        } else {
            Some(Ordering::Greater)
        }
    }
}

impl PartialOrdSpecImpl for DebugSessionId {
    open spec fn obeys_partial_cmp_spec() -> bool {
        true
    }

    open spec fn partial_cmp_spec(&self, other: &Self) -> Option<Ordering> {
        Some(session_order(*self, *other))
    }
}

/// A session id's wire number, which `DebugSessionId::to_proto` gives as
/// the id's own number, keeps the order of session ids.
pub proof fn lemma_wire_number_keeps_order(a: DebugSessionId, b: DebugSessionId, wa: u64, wb: u64)
    requires
        wa == a.0,
        wb == b.0,
    ensures
        session_order(a, b) == Ordering::Less <==> wa < wb,
        session_order(a, b) == Ordering::Equal <==> wa == wb,
        session_order(a, b) == Ordering::Greater <==> wa > wb,
        wa == wb <==> a == b,
{
}

} // verus!
