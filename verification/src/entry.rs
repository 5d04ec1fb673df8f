//! Operation entries: the registry-owned record pairing a backend
//! operation proxy with its bookkeeping (owner, creation order, forced
//! flag, liveness state).

use vstd::prelude::*;

verus! {

/// Identity of the caller that created an operation. The broker records
/// it for accounting only; policy decisions about identity are made by
/// external collaborators before a request reaches this core.
pub struct OwnerId {
    /// Numeric identity of the calling process.
    pub uid: u32,
    /// Supplementary namespace/security context, carried verbatim.
    pub ctx: String,
}

/// Mathematical model of an [`OwnerId`].
pub struct OwnerV {
    pub uid: int,
    pub ctx: Seq<char>,
}

impl View for OwnerId {
    type V = OwnerV;

    open spec fn view(&self) -> OwnerV {
        OwnerV { uid: self.uid as int, ctx: self.ctx@ }
    }
}

/// Token standing for one live hardware operation context. The context
/// itself lives with the secure-environment collaborator; the broker
/// only tracks which entry owns it. It is dropped in place when the
/// owning entry is finalized.
pub struct BackendProxy {
    /// Opaque context token handed in by the layer that talked to the
    /// backend factory.
    pub ctx_token: u64,
}

impl View for BackendProxy {
    type V = int;

    open spec fn view(&self) -> int {
        self.ctx_token as int
    }
}

/// Liveness state of an operation entry.
///
/// `Finalized` means the backend context has been torn down; such an
/// entry is removed from the table in the same step, so a well-formed
/// registry never holds one.
#[derive(Clone, Copy, PartialEq, Eq, Structural, Debug)]
pub enum OpState {
    /// Admitted and not currently inside a backend call; eligible for
    /// pruning unless the entry is forced.
    ActiveIdle,
    /// A thread currently holds the entry and is invoking the backend;
    /// never chosen as an eviction victim.
    ActiveBusy,
    /// Torn down (normal completion, abort, or eviction).
    Finalized,
}

/// One row of the registry table.
pub struct Entry {
    /// Identifier unique for the lifetime of the registry; never reused.
    pub id: u64,
    /// Identity of the creating caller; diagnostics only.
    pub owner: OwnerId,
    /// Exempt from pruning. Set once at creation from the caller's
    /// already-validated privilege, immutable thereafter.
    pub forced: bool,
    /// Monotonically increasing creation order, used for victim
    /// tie-breaking (oldest first).
    pub sequence: u64,
    /// Liveness state.
    pub state: OpState,
    /// The owned backend operation proxy; dropped on finalization.
    pub proxy: BackendProxy,
}

/// Mathematical model of an [`Entry`].
pub struct EntryV {
    pub id: int,
    pub owner: OwnerV,
    pub forced: bool,
    pub sequence: int,
    pub state: OpState,
    pub proxy: int,
}

impl View for Entry {
    type V = EntryV;

    open spec fn view(&self) -> EntryV {
        EntryV {
            id: self.id as int,
            owner: self.owner@,
            forced: self.forced,
            sequence: self.sequence as int,
            state: self.state,
            proxy: self.proxy@,
        }
    }
}

impl EntryV {
    /// An entry may be offered to the pruning policy exactly when it is
    /// neither forced nor inside a backend call.
    pub open spec fn prunable(self) -> bool {
        !self.forced && self.state == OpState::ActiveIdle
    }
}

} // verus!
