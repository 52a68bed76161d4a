//! The few adapter capabilities that the collaboration server stores for a
//! debug session, packed into the bits of one `u32`.
use vstd::prelude::*;

verus! {

/// The adapter capabilities a collaborator's UI needs to know.
#[derive(Clone, Copy, Debug, PartialEq, Eq, Structural)]
pub struct DebugClientCapabilities {
    pub supports_loaded_sources_request: bool,
    pub supports_modules_request: bool,
    pub supports_restart_request: bool,
    pub supports_set_expression: bool,
    pub supports_single_thread_execution_requests: bool,
    pub supports_step_back: bool,
    pub supports_stepping_granularity: bool,
    pub supports_terminate_threads_request: bool,
}

pub const SUPPORTS_LOADED_SOURCES_REQUEST_BIT: u32 = 0;
pub const SUPPORTS_MODULES_REQUEST_BIT: u32 = 1;
pub const SUPPORTS_RESTART_REQUEST_BIT: u32 = 2;
pub const SUPPORTS_SET_EXPRESSION_BIT: u32 = 3;
pub const SUPPORTS_SINGLE_THREAD_EXECUTION_REQUESTS_BIT: u32 = 4;
pub const SUPPORTS_STEP_BACK_BIT: u32 = 5;
pub const SUPPORTS_STEPPING_GRANULARITY_BIT: u32 = 6;
pub const SUPPORTS_TERMINATE_THREADS_REQUEST_BIT: u32 = 7;

/// Whether bit `bit` of `value` is set.
pub open spec fn bit_set(value: u32, bit: u32) -> bool {
    (value >> bit) & 1u32 == 1u32
}

/// `1` for true, `0` for false.
pub open spec fn flag(b: bool) -> u32 {
    if b {
        1u32
    } else {
        0u32
    }
}

impl DebugClientCapabilities {
    /// The packed form: bit `k` holds the `k`-th capability, the higher bits are clear.
    pub open spec fn packed(self) -> u32 {
        flag(self.supports_loaded_sources_request) | (flag(self.supports_modules_request) << 1u32) | (flag(
            self.supports_restart_request,
        ) << 2u32) | (flag(self.supports_set_expression) << 3u32) | (flag(
            self.supports_single_thread_execution_requests,
        ) << 4u32) | (flag(self.supports_step_back) << 5u32) | (flag(self.supports_stepping_granularity)
            << 6u32) | (flag(self.supports_terminate_threads_request) << 7u32)
    }

    /// The capabilities a packed value holds: one per bit of the low eight bits.
    pub open spec fn unpacked(value: u32) -> DebugClientCapabilities {
        DebugClientCapabilities {
            supports_loaded_sources_request: bit_set(value, 0),
            supports_modules_request: bit_set(value, 1),
            supports_restart_request: bit_set(value, 2),
            supports_set_expression: bit_set(value, 3),
            supports_single_thread_execution_requests: bit_set(value, 4),
            supports_step_back: bit_set(value, 5),
            supports_stepping_granularity: bit_set(value, 6),
            supports_terminate_threads_request: bit_set(value, 7),
        }
    }

    /// Packs the capabilities into the low eight bits of a `u32`.
    pub fn to_u32(&self) -> (r: u32)
        ensures
            r == self.packed(),
    {
        let b0 = self.supports_loaded_sources_request as u32;
        let b1 = self.supports_modules_request as u32;
        let b2 = self.supports_restart_request as u32;
        let b3 = self.supports_set_expression as u32;
        let b4 = self.supports_single_thread_execution_requests as u32;
        let b5 = self.supports_step_back as u32;
        let b6 = self.supports_stepping_granularity as u32;
        let b7 = self.supports_terminate_threads_request as u32;
        assert(b0 == flag(self.supports_loaded_sources_request) && b1 == flag(self.supports_modules_request) && b2
            == flag(self.supports_restart_request) && b3 == flag(self.supports_set_expression) && b4 == flag(
            self.supports_single_thread_execution_requests,
        ) && b5 == flag(self.supports_step_back) && b6 == flag(self.supports_stepping_granularity) && b7 == flag(
            self.supports_terminate_threads_request,
        ));
        let mut result: u32 = 0;
        result = result | (b0 << SUPPORTS_LOADED_SOURCES_REQUEST_BIT);
        result = result | (b1 << SUPPORTS_MODULES_REQUEST_BIT);
        result = result | (b2 << SUPPORTS_RESTART_REQUEST_BIT);
        result = result | (b3 << SUPPORTS_SET_EXPRESSION_BIT);
        result = result | (b4 << SUPPORTS_SINGLE_THREAD_EXECUTION_REQUESTS_BIT);
        result = result | (b5 << SUPPORTS_STEP_BACK_BIT);
        result = result | (b6 << SUPPORTS_STEPPING_GRANULARITY_BIT);
        result = result | (b7 << SUPPORTS_TERMINATE_THREADS_REQUEST_BIT);
        assert(result == b0 | (b1 << 1u32) | (b2 << 2u32) | (b3 << 3u32) | (b4 << 4u32) | (b5 << 5u32) | (b6 << 6u32)
            | (b7 << 7u32)) by (bit_vector)
            requires
                result == (((((((0u32 | (b0 << 0u32)) | (b1 << 1u32)) | (b2 << 2u32)) | (b3 << 3u32)) | (b4 << 4u32)) | (b5
                    << 5u32)) | (b6 << 6u32)) | (b7 << 7u32),
        ;
        result
    }

    /// Reads the capabilities back from the low eight bits of a `u32`.
    pub fn from_u32(value: u32) -> (r: Self)
        ensures
            r == Self::unpacked(value),
    {
        let r = DebugClientCapabilities {
            supports_loaded_sources_request: (value & (1u32 << SUPPORTS_LOADED_SOURCES_REQUEST_BIT)) != 0,
            supports_modules_request: (value & (1u32 << SUPPORTS_MODULES_REQUEST_BIT)) != 0,
            supports_restart_request: (value & (1u32 << SUPPORTS_RESTART_REQUEST_BIT)) != 0,
            supports_set_expression: (value & (1u32 << SUPPORTS_SET_EXPRESSION_BIT)) != 0,
            supports_single_thread_execution_requests: (value & (1u32
                << SUPPORTS_SINGLE_THREAD_EXECUTION_REQUESTS_BIT)) != 0,
            supports_step_back: (value & (1u32 << SUPPORTS_STEP_BACK_BIT)) != 0,
            supports_stepping_granularity: (value & (1u32 << SUPPORTS_STEPPING_GRANULARITY_BIT)) != 0,
            supports_terminate_threads_request: (value & (1u32 << SUPPORTS_TERMINATE_THREADS_REQUEST_BIT))
                != 0,
        };
        assert(((value & (1u32 << 0u32)) != 0) == ((value >> 0u32) & 1u32 == 1u32)) by (bit_vector);
        assert(((value & (1u32 << 1u32)) != 0) == ((value >> 1u32) & 1u32 == 1u32)) by (bit_vector);
        assert(((value & (1u32 << 2u32)) != 0) == ((value >> 2u32) & 1u32 == 1u32)) by (bit_vector);
        assert(((value & (1u32 << 3u32)) != 0) == ((value >> 3u32) & 1u32 == 1u32)) by (bit_vector);
        assert(((value & (1u32 << 4u32)) != 0) == ((value >> 4u32) & 1u32 == 1u32)) by (bit_vector);
        assert(((value & (1u32 << 5u32)) != 0) == ((value >> 5u32) & 1u32 == 1u32)) by (bit_vector);
        assert(((value & (1u32 << 6u32)) != 0) == ((value >> 6u32) & 1u32 == 1u32)) by (bit_vector);
        assert(((value & (1u32 << 7u32)) != 0) == ((value >> 7u32) & 1u32 == 1u32)) by (bit_vector);
        r
    }
}

/// Reading back packed capabilities gives the same capabilities.
pub proof fn lemma_capabilities_bits_round_trip(c: DebugClientCapabilities)
    ensures
        DebugClientCapabilities::unpacked(c.packed()) == c,
        c.packed() < 256,
{
    let (a, b, d, e, f, g, h, k) = (
        flag(c.supports_loaded_sources_request),
        flag(c.supports_modules_request),
        flag(c.supports_restart_request),
        flag(c.supports_set_expression),
        flag(c.supports_single_thread_execution_requests),
        flag(c.supports_step_back),
        flag(c.supports_stepping_granularity),
        flag(c.supports_terminate_threads_request),
    );
    let p = c.packed();
    assert(p == a | (b << 1u32) | (d << 2u32) | (e << 3u32) | (f << 4u32) | (g << 5u32) | (h << 6u32) | (k << 7u32));
    assert(
        a <= 1 && b <= 1 && d <= 1 && e <= 1 && f <= 1 && g <= 1 && h <= 1 && k <= 1 ==> {
            let p = a | (b << 1u32) | (d << 2u32) | (e << 3u32) | (f << 4u32) | (g << 5u32) | (h << 6u32) | (k << 7u32);
            &&& p < 256
            &&& ((p >> 0u32) & 1u32) == a
            &&& ((p >> 1u32) & 1u32) == b
            &&& ((p >> 2u32) & 1u32) == d
            &&& ((p >> 3u32) & 1u32) == e
            &&& ((p >> 4u32) & 1u32) == f
            &&& ((p >> 5u32) & 1u32) == g
            &&& ((p >> 6u32) & 1u32) == h
            &&& ((p >> 7u32) & 1u32) == k
        }
    ) by (bit_vector);
}

proof fn lemma_flag_of_bit(value: u32, k: u32)
    requires
        k < 32,
    ensures
        flag(bit_set(value, k)) == (value >> k) & 1u32,
{
    assert((value >> k) & 1u32 <= 1u32) by (bit_vector);
}

/// Packing the capabilities read from a value keeps exactly its low eight bits.
pub proof fn lemma_bits_capabilities_round_trip(value: u32)
    ensures
        DebugClientCapabilities::unpacked(value).packed() == value & 0xffu32,
{
    lemma_flag_of_bit(value, 0);
    lemma_flag_of_bit(value, 1);
    lemma_flag_of_bit(value, 2);
    lemma_flag_of_bit(value, 3);
    lemma_flag_of_bit(value, 4);
    lemma_flag_of_bit(value, 5);
    lemma_flag_of_bit(value, 6);
    lemma_flag_of_bit(value, 7);
    assert(((value >> 0u32) & 1u32) | (((value >> 1u32) & 1u32) << 1u32) | (((value >> 2u32) & 1u32) << 2u32) | (((
    value >> 3u32) & 1u32) << 3u32) | (((value >> 4u32) & 1u32) << 4u32) | (((value >> 5u32) & 1u32) << 5u32) | (((
    value >> 6u32) & 1u32) << 6u32) | (((value >> 7u32) & 1u32) << 7u32) == value & 0xffu32) by (bit_vector);
}

/// The stored record of a debug session of a shared project.
#[derive(Clone, Debug, PartialEq, Eq, Structural)]
pub struct DebugSessionRecord {
    pub id: i32,
    pub project_id: i32,
    pub capabilities: u32,
}

impl DebugSessionRecord {
    /// The capabilities the record stores.
    pub fn capabilities(&self) -> (r: DebugClientCapabilities)
        ensures
            r == DebugClientCapabilities::unpacked(self.capabilities),
    {
        DebugClientCapabilities::from_u32(self.capabilities)
    }

    /// Stores the given capabilities, leaving the other fields unchanged.
    pub fn set_capabilities(&mut self, capabilities: DebugClientCapabilities)
        ensures
            final(self).capabilities == capabilities.packed(),
            final(self).id == old(self).id,
            final(self).project_id == old(self).project_id,
    {
        self.capabilities = capabilities.to_u32();
    }
}

/// Capabilities stored in a record are read back unchanged.
pub proof fn lemma_record_round_trip(r: DebugSessionRecord, c: DebugClientCapabilities)
    ensures
        DebugClientCapabilities::unpacked((DebugSessionRecord { capabilities: c.packed(), ..r }).capabilities) == c,
{
    lemma_capabilities_bits_round_trip(c);
}

} // verus!
