//! An oracle bridge for a replicated ledger.
//!
//! Once per finalized block, an offchain worker fetches a quotation over
//! HTTP under a hard deadline and, for every signing identity held in the
//! local keystore, submits the fetched bytes as a signed transaction. The
//! deterministic side of the ledger validates each submission, overwrites
//! the single latest-value slot, and appends a notification event.
//!
//! The verified library holds all decisions of that pipeline: the identity-pool
//! short-circuit, the deadline and status validation of the fetch, the fan-out of
//! one submission per identity, the aggregation of dispatch outcomes, and
//! the recording rules of the deterministic path. The surrounding runtime
//! (network I/O, keystore access, transaction broadcast, block callbacks)
//! stays outside and drives these functions with plain values.

mod encoding;
pub mod fetch;
pub mod identity;
pub mod recorder;
pub mod submission;
pub mod worker;

use vstd::prelude::*;

verus! {

/// The hard deadline, in milliseconds, granted to one outbound fetch.
pub const FETCH_DEADLINE_MS: u64 = 2000;

/// Copies a byte payload, so that each consumer owns its own bytes.
pub(crate) fn copy_bytes(bytes: &Vec<u8>) -> (r: Vec<u8>)
    ensures
        r@ == bytes@,
{
    let mut copy: Vec<u8> = Vec::new();
    let mut i: usize = 0;
    while i < bytes.len()
        invariant
            i <= bytes@.len(),
            copy@ == bytes@.take(i as int),
        decreases bytes@.len() - i,
    {
        copy.push(bytes[i]);
        proof {
            assert(copy@ =~= bytes@.take(i + 1));
        }
        i = i + 1;
    }
    proof {
        assert(bytes@.take(bytes@.len() as int) =~= bytes@);
    }
    copy
}

} // verus!
