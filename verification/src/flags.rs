//! Flag policy for outbound sends.
//!
//! Every send suppresses broken-pipe signal delivery. On the
//! completion-queue path a zero-copy transmission mode may additionally be
//! requested, but only when the payload is large enough for the per-call
//! overhead of zero copy to pay off.

use vstd::prelude::*;

verus! {

/// Suppresses delivery of the broken-pipe signal on send.
pub const NOSIGNAL_FLAG: u32 = 0x4000;

/// Requests zero-copy transmission of the payload.
pub const ZEROCOPY_FLAG: u32 = 0x4000000;

/// Payloads at or above this many bytes request zero copy; smaller ones
/// do not, because zero copy adds per-call overhead that only pays off
/// for large transfers.
pub const ZEROCOPY_THRESHOLD: usize = 10 * 1024 * 1024;

/// The flag word for a completion-queue send: a function of the zero-copy
/// configuration and the payload size alone.
pub open spec fn send_flags_spec(zero_copy: bool, len: nat) -> u32 {
    if zero_copy && len >= ZEROCOPY_THRESHOLD {
        NOSIGNAL_FLAG | ZEROCOPY_FLAG
    } else {
        NOSIGNAL_FLAG
    }
}

/// Computes the flag word for a completion-queue send of `len` payload bytes.
pub fn send_flags(zero_copy: bool, len: usize) -> (r: u32)
    ensures
        r == send_flags_spec(zero_copy, len as nat),
{
    if zero_copy && len >= ZEROCOPY_THRESHOLD {
        NOSIGNAL_FLAG | ZEROCOPY_FLAG
    } else {
        NOSIGNAL_FLAG
    }
}

/// The zero-copy decision is a function of the payload size alone: a
/// payload exactly at the threshold requests zero copy, and one byte
/// below the threshold does not.
pub proof fn lemma_zero_copy_threshold(zero_copy: bool)
    ensures
        send_flags_spec(true, ZEROCOPY_THRESHOLD as nat) == NOSIGNAL_FLAG | ZEROCOPY_FLAG,
        send_flags_spec(true, (ZEROCOPY_THRESHOLD - 1) as nat) == NOSIGNAL_FLAG,
        send_flags_spec(false, ZEROCOPY_THRESHOLD as nat) == NOSIGNAL_FLAG,
        send_flags_spec(zero_copy, ZEROCOPY_THRESHOLD as nat) & NOSIGNAL_FLAG == NOSIGNAL_FLAG,
{
    assert((NOSIGNAL_FLAG | ZEROCOPY_FLAG) & NOSIGNAL_FLAG == NOSIGNAL_FLAG) by (bit_vector);
    assert(NOSIGNAL_FLAG & NOSIGNAL_FLAG == NOSIGNAL_FLAG) by (bit_vector);
}

} // verus!
