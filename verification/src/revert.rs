//! Reading the reason out of a revert payload.
//!
//! A call that the limiter rejects comes back with the ABI encoding of a
//! Solidity error: the four-byte selector of the error's signature, then its
//! arguments. The limiter's `LimiterExceeded()` takes none, so its payloads are
//! told by the selector alone; bytes after it are not looked at.

use vstd::prelude::*;

verus! {

/// The selector of `LimiterExceeded()`: the first four bytes of the Keccak-256
/// digest of the signature.
pub const LIMITER_EXCEEDED: [u8; 4] = [0x5c, 0xe0, 0x81, 0x7a];

/// Why a call reverted, as far as the agent tells reasons apart.
#[derive(Clone, Copy, Debug, PartialEq, Eq)]
pub enum RevertReason {
    /// The flow would have exceeded the limiter's bound.
    LimiterExceeded,
    /// Any other payload, the empty one included.
    Unrecognized,
}

/// Whether the payload opens with the selector of `LimiterExceeded()`.
pub open spec fn is_limiter_exceeded(payload: Seq<u8>) -> bool {
    payload.len() >= 4 && payload.subrange(0, 4) == LIMITER_EXCEEDED@
}

/// The reason that a payload carries.
pub open spec fn revert_reason(payload: Seq<u8>) -> RevertReason {
    if is_limiter_exceeded(payload) {
        RevertReason::LimiterExceeded
    } else {
        RevertReason::Unrecognized
    }
}

/// Decodes a revert payload into the reason it carries.
pub fn decode_revert(payload: &[u8]) -> (reason: RevertReason)
    ensures
        reason == revert_reason(payload@),
{
    if payload.len() < 4 {
        return RevertReason::Unrecognized;
    }
    let mut i: usize = 0;
    while i < 4
        invariant
            i <= 4,
            payload@.len() >= 4,
            forall|j: int| 0 <= j < i ==> payload@[j] == LIMITER_EXCEEDED@[j],
        decreases 4 - i,
    {
        if payload[i] != LIMITER_EXCEEDED[i] {
            assert(payload@.subrange(0, 4)[i as int] != LIMITER_EXCEEDED@[i as int]);
            return RevertReason::Unrecognized;
        }
        i = i + 1;
    }
    assert(payload@.subrange(0, 4) =~= LIMITER_EXCEEDED@);
    RevertReason::LimiterExceeded
}

} // verus!
