//! Time-to-live policy shared by every storage entry of the protocol.
//!
//! `THRESHOLD` is the minimum remaining ledger count before an entry is
//! extended; `EXTEND_TO` is the ledger count it is extended to.

use vstd::prelude::*;

verus! {

/// Minimum remaining ledgers before an extension triggers: 25% of `EXTEND_TO`.
pub const THRESHOLD: u32 = 500_000;

/// Ledger count an entry is extended to when `THRESHOLD` is crossed.
pub const EXTEND_TO: u32 = 2_000_000;

/// The renewal threshold is positive and strictly below the extension target,
/// so every renewal happens before expiry and actually lengthens the lifetime.
pub proof fn lemma_ttl_policy_is_consistent()
    ensures
        0 < THRESHOLD < EXTEND_TO,
        THRESHOLD * 4 == EXTEND_TO,
{
}

} // verus!
