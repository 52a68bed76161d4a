use vstd::prelude::*;

verus! {

/// Identifies a peer of a collaboration session: the connection owner and a
/// per-owner connection id, packed into one `u64` on the wire.
///
/// Peers are ordered by `owner_id`, then by `id`.
#[derive(Clone, Copy, Debug, PartialEq, Eq, Ord, Hash, Structural)]
pub struct PeerId {
    pub owner_id: u32,
    pub id: u32,
}

/// The peer id that stands for the host of an ssh project.
pub fn ssh_peer_id() -> (r: PeerId)
    ensures
        r.owner_id == 0 && r.id == 0,
{
    PeerId { owner_id: 0, id: 0 }
}

/// The project id used for an ssh project.
pub const SSH_PROJECT_ID: u64 = 0;

/// 2^32, the weight of the high half of a packed peer id.
pub open spec fn half_u64() -> int {
    0x1_0000_0000
}

impl PeerId {
    /// The `u64` whose high half is `owner_id` and whose low half is `id`.
    pub open spec fn packed(self) -> int {
        self.owner_id * half_u64() + self.id
    }

    /// Unpacks a peer id: the high 32 bits are the owner, the low 32 bits the id.
    pub fn from_u64(peer_id: u64) -> (r: PeerId)
        ensures
            r.owner_id == peer_id / 0x1_0000_0000,
            r.id == peer_id % 0x1_0000_0000,
    {
        let owner_id = (peer_id >> 32u64) as u32;
        let id = peer_id as u32;
        assert(owner_id == peer_id / 0x1_0000_0000) by (bit_vector)
            requires
                owner_id == (peer_id >> 32u64) as u32,
        ;
        assert(id == peer_id % 0x1_0000_0000) by (bit_vector)
            requires
                id == peer_id as u32,
        ;
        PeerId { owner_id, id }
    }

    /// Packs the peer id into one `u64`: owner in the high half, id in the low half.
    pub fn as_u64(self) -> (r: u64)
        ensures
            r == self.packed(),
    {
        let o = self.owner_id;
        let i = self.id;
        let r = ((o as u64) << 32u64) | (i as u64);
        assert(r == (o as u64) * 0x1_0000_0000u64 + (i as u64)) by (bit_vector)
            requires
                r == ((o as u64) << 32u64) | (i as u64),
        ;
        r
    }
}

/// Unpacking a packed peer id gives the same peer back.
pub proof fn lemma_peer_id_round_trip(p: PeerId)
    ensures
        p.packed() <= u64::MAX,
        ({
            let n = p.packed();
            n / half_u64() == p.owner_id && n % half_u64() == p.id
        }),
{
    let o = p.owner_id as int;
    let i = p.id as int;
    assert(o * 0x1_0000_0000 + i <= u64::MAX) by (nonlinear_arith)
        requires
            0 <= o <= u32::MAX,
            0 <= i <= u32::MAX,
    ;
    assert((o * 0x1_0000_0000 + i) / 0x1_0000_0000 == o) by (nonlinear_arith)
        requires
            0 <= o,
            0 <= i < 0x1_0000_0000,
    ;
    assert((o * 0x1_0000_0000 + i) % 0x1_0000_0000 == i) by (nonlinear_arith)
        requires
            0 <= o,
            0 <= i < 0x1_0000_0000,
    ;
}

/// Packing the unpacked halves of any `u64` gives the same number back.
pub proof fn lemma_u64_round_trip(n: u64)
    ensures
        (PeerId { owner_id: (n as int / half_u64()) as u32, id: (n as int % half_u64()) as u32 }).packed() == n,
{
    let q = n / 0x1_0000_0000;
    let r = n % 0x1_0000_0000;
    assert(q * 0x1_0000_0000 + r == n) by (nonlinear_arith)
        requires
            q == n / 0x1_0000_0000,
            r == n % 0x1_0000_0000,
    ;
    assert(q <= u32::MAX) by (nonlinear_arith)
        requires
            q == n / 0x1_0000_0000,
            0 <= n <= u64::MAX,
    ;
}

/// The priority with which an enveloped message is handled.
#[derive(Clone, Copy, Debug, PartialEq, Eq, Structural)]
pub enum MessagePriority {
    Foreground,
    Background,
}

impl MessagePriority {
    /// Whether messages of this priority are handled in the background.
    pub fn is_background(&self) -> (r: bool)
        ensures
            r == (*self == MessagePriority::Background),
    {
        match self {
            MessagePriority::Foreground => false,
            MessagePriority::Background => true,
        }
    }
}

/// A 128-bit nonce carried as two `u64` halves.
#[derive(Clone, Copy, Debug, PartialEq, Eq, Structural)]
pub struct Nonce {
    pub upper_half: u64,
    pub lower_half: u64,
}

/// 2^64, the weight of the upper half of a nonce.
pub open spec fn half_u128() -> int {
    0x1_0000_0000_0000_0000
}

impl Nonce {
    /// The number whose high 64 bits are `upper_half` and low 64 bits `lower_half`.
    pub open spec fn value(self) -> int {
        self.upper_half * half_u128() + self.lower_half
    }

    /// Splits a 128-bit number into its halves.
    pub fn from_u128(nonce: u128) -> (r: Nonce)
        ensures
            r.upper_half == nonce / 0x1_0000_0000_0000_0000,
            r.lower_half == nonce % 0x1_0000_0000_0000_0000,
    {
        let upper_half = (nonce >> 64u128) as u64;
        let lower_half = nonce as u64;
        assert(upper_half == nonce / 0x1_0000_0000_0000_0000) by (bit_vector)
            requires
                upper_half == (nonce >> 64u128) as u64,
        ;
        assert(lower_half == nonce % 0x1_0000_0000_0000_0000) by (bit_vector)
            requires
                lower_half == nonce as u64,
        ;
        Nonce { upper_half, lower_half }
    }

    /// Joins the two halves into one 128-bit number.
    pub fn to_u128(self) -> (r: u128)
        ensures
            r == self.value(),
    {
        let u = self.upper_half;
        let l = self.lower_half;
        let r = ((u as u128) << 64u128) | (l as u128);
        assert(r == (u as u128) * 0x1_0000_0000_0000_0000u128 + (l as u128)) by (bit_vector)
            requires
                r == ((u as u128) << 64u128) | (l as u128),
        ;
        r
    }
}

/// Joining the halves of a split nonce gives the nonce back.
pub proof fn lemma_nonce_round_trip(n: u128)
    ensures
        (Nonce {
            upper_half: (n as int / half_u128()) as u64,
            lower_half: (n as int % half_u128()) as u64,
        }).value() == n,
{
    let q = n / 0x1_0000_0000_0000_0000;
    let r = n % 0x1_0000_0000_0000_0000;
    assert(q * 0x1_0000_0000_0000_0000 + r == n) by (nonlinear_arith)
        requires
            q == n / 0x1_0000_0000_0000_0000,
            r == n % 0x1_0000_0000_0000_0000,
    ;
    assert(q <= u64::MAX) by (nonlinear_arith)
        requires
            q == n / 0x1_0000_0000_0000_0000,
            0 <= n <= u128::MAX,
    ;
}

} // verus!
