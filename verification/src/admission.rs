//! Admission controller: decides, on each creation request, whether to
//! admit immediately, admit after evicting exactly one idle non-forced
//! victim on behalf of a forced caller, or reject with `BackendBusy`.
//! A non-forced caller never evicts anyone.

use vstd::prelude::*;

use crate::entry::BackendProxy;
use crate::entry::EntryV;
use crate::entry::OpState;
use crate::entry::OwnerId;
use crate::entry::OwnerV;
use crate::policy::select_victim;
use crate::policy::spec_victim;
use crate::registry::has_id;
use crate::registry::idx_of_id;
use crate::registry::lemma_prunable_id_in_table;
use crate::registry::prunable_ids;
use crate::registry::remove_id;
use crate::registry::Registry;
use crate::registry::RegistryV;
use crate::registry::SlotReservation;
use crate::Error;

verus! {

/// The entry an admission creates: fresh identifier and creation
/// order, idle, with the forced flag fixed for the entry's lifetime.
pub open spec fn admitted_entry(r: RegistryV, owner: OwnerV, forced: bool, proxy: int) -> EntryV {
    EntryV {
        id: r.next_id,
        owner,
        forced,
        sequence: r.next_sequence,
        state: OpState::ActiveIdle,
        proxy,
    }
}

/// An admission succeeds exactly when a slot is free, or the caller is
/// forced and some idle, non-forced victim exists.
pub open spec fn can_admit(r: RegistryV, forced: bool) -> bool {
    r.occupied() < r.capacity || (forced && prunable_ids(r.entries).len() > 0)
}

/// The registry after one admission request: unchanged on rejection;
/// otherwise the new entry appended, preceded — where the table was
/// saturated and the caller forced — by the eviction of the oldest
/// idle, non-forced entry.
pub open spec fn spec_admit(r: RegistryV, owner: OwnerV, forced: bool, proxy: int) -> RegistryV {
    if r.occupied() < r.capacity {
        RegistryV {
            next_id: r.next_id + 1,
            next_sequence: r.next_sequence + 1,
            entries: r.entries.push(admitted_entry(r, owner, forced, proxy)),
            ..r
        }
    } else if forced && prunable_ids(r.entries).len() > 0 {
        RegistryV {
            next_id: r.next_id + 1,
            next_sequence: r.next_sequence + 1,
            entries: remove_id(r.entries, prunable_ids(r.entries)[0]).push(
                admitted_entry(r, owner, forced, proxy),
            ),
            ..r
        }
    } else {
        r
    }
}

/// What `begin_admit` secured for the caller.
#[derive(Clone, Copy, PartialEq, Eq, Structural, Debug)]
pub enum SlotGrant {
    /// A free slot was reserved; nobody was evicted.
    Fresh,
    /// The table was saturated; the oldest idle, non-forced entry was
    /// finalized and its freed slot reserved. The caller that drove the
    /// victim's backend context learns of the eviction lazily, as
    /// `InvalidHandle` on its next call.
    Evicted { victim: u64 },
}

/// First half of an admission: secures a slot — evicting at most one
/// idle, non-forced victim where the caller is forced and the table is
/// saturated — or rejects with `BackendBusy`. The backend context is
/// constructed only after this succeeds, never speculatively; the
/// caller then consumes the reservation with [`Registry::insert`], or
/// releases it with [`Registry::cancel_reservation`] if the factory
/// fails.
pub fn begin_admit(reg: &mut Registry, forced: bool) -> (r: Result<SlotGrant, Error>)
    requires
        old(reg)@.wf(),
    ensures
        final(reg)@.wf(),
        r is Ok <==> can_admit(old(reg)@, forced),
        r == Ok::<SlotGrant, Error>(SlotGrant::Fresh) <==> old(reg)@.occupied() < old(
            reg,
        )@.capacity,
        r == Ok::<SlotGrant, Error>(SlotGrant::Fresh) ==> final(reg)@ == (RegistryV {
            reserved: old(reg)@.reserved + 1,
            ..old(reg)@
        }),
        r matches Ok(SlotGrant::Evicted { victim }) ==> {
            &&& Option::Some(victim as int) == spec_victim(prunable_ids(old(reg)@.entries))
            &&& final(reg)@ == (RegistryV {
                reserved: old(reg)@.reserved + 1,
                entries: remove_id(old(reg)@.entries, victim as int),
                ..old(reg)@
            })
        },
        r is Err ==> final(reg)@ == old(reg)@ && r == Err::<SlotGrant, Error>(Error::BackendBusy),
{
    match reg.try_reserve_slot() {
        SlotReservation::Reserved => Result::Ok(SlotGrant::Fresh),
        SlotReservation::Full => {
            if !forced {
                return Result::Err(Error::BackendBusy);
            }
            let candidates = reg.snapshot_prunable();
            match select_victim(&candidates) {
                Option::None => Result::Err(Error::BackendBusy),
                Option::Some(victim) => {
                    proof {
                        assert(prunable_ids(reg@.entries)[0] == victim as int);
                        lemma_prunable_id_in_table(reg@.entries, 0);
                        assert(has_id(reg@.entries, victim as int));
                    }
                    let ghost s = reg@.entries;
                    reg.finalize(victim);
                    proof {
                        let k = idx_of_id(s, victim as int);
                        assert(0 <= k < s.len() && s[k].id == victim as int);
                        assert(reg@.entries.len() == s.len() - 1);
                    }
                    // The slot just freed is taken under the same
                    // exclusive section; the retry is bounded to one
                    // attempt and escalates rather than looping.
                    match reg.try_reserve_slot() {
                        SlotReservation::Reserved => Result::Ok(SlotGrant::Evicted { victim }),
                        SlotReservation::Full => Result::Err(Error::BackendBusy),
                    }
                },
            }
        },
    }
}

/// One whole admission request, used where the backend context token
/// is already at hand: `admit(owner, forced, ·) -> HandleId` or
/// `BackendBusy`, exactly as [`spec_admit`] says. Callers that must
/// construct the backend context between securing the slot and
/// inserting the entry use [`begin_admit`] instead.
pub fn admit_op(reg: &mut Registry, owner: OwnerId, forced: bool, proxy: BackendProxy) -> (r: Result<
    u64,
    Error,
>)
    requires
        old(reg)@.wf(),
        old(reg)@.next_id < u64::MAX as int,
        old(reg)@.next_sequence < u64::MAX as int,
    ensures
        final(reg)@.wf(),
        r is Ok <==> can_admit(old(reg)@, forced),
        can_admit(old(reg)@, forced) ==> r == Ok::<u64, Error>((old(reg)@.next_id) as u64),
        !can_admit(old(reg)@, forced) ==> r == Err::<u64, Error>(Error::BackendBusy),
        final(reg)@ == spec_admit(old(reg)@, owner@, forced, proxy@),
{
    let ghost r0 = old(reg)@;
    match begin_admit(reg, forced) {
        Result::Ok(_grant) => {
            let id = reg.insert(owner, forced, proxy);
            proof {
                assert(reg@.entries =~= spec_admit(r0, owner@, forced, proxy@).entries);
                assert(reg@ == spec_admit(r0, owner@, forced, proxy@));
            }
            Result::Ok(id)
        },
        Result::Err(e) => Result::Err(e),
    }
}

} // verus!
