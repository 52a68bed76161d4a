//! Identifiers of debug sessions, adapter clients and threads.
use vstd::prelude::*;

verus! {

/// Identifies a debug session; on the wire it travels as a `u64`.
#[derive(Clone, Copy, Debug, PartialEq, Eq, Ord, Hash, Structural)]
pub struct DebugSessionId(pub usize);

impl DebugSessionId {
    /// The session a wire id names: the number, narrowed to a `usize`.
    pub fn from_proto(session_id: u64) -> (r: Self)
        ensures
            r.0 == session_id as usize,
    {
        DebugSessionId(session_id as usize)
    }

    /// The wire id of the session.
    pub fn to_proto(&self) -> (r: u64)
        ensures
            r == self.0 as u64,
            r == self.0,
    {
        self.0 as u64
    }
}

/// A session id sent over the wire names the same session when read back.
pub proof fn lemma_session_id_round_trip(id: DebugSessionId)
    ensures
        ((id.0 as u64) as usize) == id.0,
{
}

/// A wire id that fits in a `usize` is read back unchanged.
pub proof fn lemma_wire_session_id_round_trip(n: u64)
    requires
        n <= usize::MAX,
    ensures
        ((n as usize) as u64) == n,
{
}

/// Identifies the client connection to one debug adapter.
#[derive(Clone, Copy, Debug, PartialEq, Eq, PartialOrd, Ord, Hash, Structural)]
pub struct DebugAdapterClientId(pub usize);

impl DebugAdapterClientId {
    /// The client a wire id names: the number, narrowed to a `usize`.
    pub fn from_proto(client_id: u64) -> (r: Self)
        ensures
            r.0 == client_id as usize,
    {
        DebugAdapterClientId(client_id as usize)
    }

    /// The wire id of the client.
    pub fn to_proto(&self) -> (r: u64)
        ensures
            r == self.0,
    {
        self.0 as u64
    }
}

/// Identifies a thread of the debuggee.
#[derive(Clone, Copy, Debug, PartialEq, Eq, PartialOrd, Ord, Hash, Structural)]
pub struct ThreadId(pub u64);

/// Where a thread stands; a new thread is running.
#[derive(Clone, Copy, Debug, PartialEq, Eq, PartialOrd, Ord, Hash, Structural)]
pub enum ThreadStatus {
    Running,
    Stopped,
    Exited,
    Ended,
}

impl Default for ThreadStatus {
    fn default() -> (r: Self)
        ensures
            r == ThreadStatus::Running,
    {
        ThreadStatus::Running
    }
}

} // verus!
