//! Verified core of the TrusTrove trade-finance protocol: the identity
//! registry, the invoice lifecycle state machine, the escrow ledger, the
//! share-based liquidity pool and the pool factory, each modelled as plain
//! state with exact contracts, and the flows that cross them (`protocol`).

pub mod ttl;
pub mod table;
pub mod ids;
pub mod index;
pub mod invoice;
pub mod bookkeeping;
pub mod escrow;
pub mod registry;
pub mod pool_factory;
pub mod sums;
pub mod pool;
pub mod protocol;
