//! What a debug adapter client decides about requests: the sequence numbers
//! it gives them and what it makes of the adapter's responses.
use vstd::prelude::*;
use crate::dap_command::{json_null, json_null_bytes};

verus! {

/// The sequence numbers of a client's requests: from one, each request
/// taking the next, wrapping around after the largest.
pub struct SequenceCounter {
    next: u64,
}

impl SequenceCounter {
    /// The number the next request gets.
    pub closed spec fn upcoming(&self) -> u64 {
        self.next
    }

    pub fn new() -> (r: Self)
        ensures
            r.upcoming() == 1,
    {
        SequenceCounter { next: 1 }
    }

    /// The sequence number of the next request.
    pub fn next_sequence_id(&mut self) -> (r: u64)
        ensures
            r == old(self).upcoming(),
            final(self).upcoming() == advanced(old(self).upcoming()),
    {
        let id = self.next;
        self.next = self.next.wrapping_add(1);
        id
    }
}

/// The number after `n`, wrapping around after the largest.
pub open spec fn advanced(n: u64) -> u64 {
    if n == u64::MAX {
        0
    } else {
        (n + 1) as u64
    }
}

/// The numbers handed out by a new counter, one call after the other, count
/// up from one: the `k`-th call gets `k`, so no two calls get the same
/// number. `counters[i]` is the counter before call `i`, which returned
/// `ids[i]`, as `next_sequence_id` says; a counter starts at one.
pub proof fn lemma_ids_count_up(counters: Seq<u64>, ids: Seq<u64>)
    requires
        counters.len() == ids.len() + 1,
        ids.len() <= u64::MAX,
        counters[0] == 1,
        forall|i: int| 0 <= i < ids.len() ==> #[trigger] ids[i] == counters[i] && counters[i + 1] == advanced(counters[i]),
    ensures
        forall|i: int| 0 <= i < ids.len() ==> #[trigger] ids[i] == i + 1,
        forall|i: int, j: int| 0 <= i < j < ids.len() ==> ids[i] != ids[j],
{
    assert forall|i: int| 0 <= i < ids.len() implies counters[i] == i + 1 by {
        lemma_counter_at(counters, ids, i);
    }
    assert forall|i: int| 0 <= i < ids.len() implies #[trigger] ids[i] == i + 1 by {
        assert(counters[i] == i + 1);
    }
}

proof fn lemma_counter_at(counters: Seq<u64>, ids: Seq<u64>, i: int)
    requires
        counters.len() == ids.len() + 1,
        ids.len() <= u64::MAX,
        counters[0] == 1,
        forall|k: int| 0 <= k < ids.len() ==> #[trigger] ids[k] == counters[k] && counters[k + 1] == advanced(counters[k]),
        0 <= i < ids.len(),
    ensures
        counters[i] == i + 1,
    decreases i,
{
    if i > 0 {
        lemma_counter_at(counters, ids, i - 1);
        assert(ids[i - 1] == counters[i - 1]);
    }
}

/// Why a request did not give a result.
#[derive(Clone, Debug, PartialEq)]
pub enum RequestError {
    /// The adapter answered that the request failed.
    RequestFailed,
}

/// What a response gives: its body as JSON text (`null` when it has none)
/// when it succeeded, else a failure.
pub fn response_result(success: bool, body: Option<Vec<u8>>) -> (r: Result<Vec<u8>, RequestError>)
    ensures
        success ==> (r matches Ok(b) && b@ == (match body {
            Some(v) => v@,
            None => json_null(),
        })),
        !success ==> r == Err::<Vec<u8>, RequestError>(RequestError::RequestFailed),
{
    if success {
        match body {
            Some(b) => Ok(b),
            None => Ok(json_null_bytes()),
        }
    } else {
        Err(RequestError::RequestFailed)
    }
}

} // verus!
