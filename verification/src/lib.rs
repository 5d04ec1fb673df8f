//! Verified core of a broker for scarce hardware-backed cryptographic
//! operation contexts: a bounded per-security-level registry of live
//! operations, an admission controller that may evict an idle victim on
//! behalf of a privileged (forced) caller, a pruning policy, and the
//! liveness gate that every handle call passes through.

use vstd::prelude::*;

pub mod entry;
pub mod registry;
pub mod policy;
pub mod admission;
pub mod handle;
pub mod laws;
pub mod dice;

pub use entry::BackendProxy;
pub use entry::OpState;
pub use entry::OwnerId;

verus! {

/// Error taxonomy of the broker core.
///
/// Every table-management failure is resolved locally into exactly one
/// of these before returning to the caller; there is no partial or
/// ambiguous outcome.
#[derive(Clone, Copy, PartialEq, Eq, Structural, Debug)]
pub enum Error {
    /// The table is saturated and no eligible (idle, non-forced) victim
    /// existed. Retryable.
    BackendBusy,
    /// The referenced operation no longer exists: finished, aborted,
    /// pruned, or never admitted. Not retryable for that handle.
    InvalidHandle,
    /// Opaque failure reported by the secure-hardware collaborator,
    /// passed through unchanged.
    Backend { code: u64 },
}

} // verus!
