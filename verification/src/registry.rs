//! The bounded operation table for one security level: the single
//! source of truth for "is this handle still valid". All policy-visible
//! mutation of broker state goes through it.

use vstd::prelude::*;

use crate::entry::BackendProxy;
use crate::entry::Entry;
use crate::entry::EntryV;
use crate::entry::OpState;
use crate::entry::OwnerId;
use crate::Error;

verus! {

/// There is an entry with the given identifier.
pub open spec fn has_id(s: Seq<EntryV>, id: int) -> bool {
    exists|i: int| 0 <= i < s.len() && (#[trigger] s[i]).id == id
}

/// There is an idle entry with the given identifier: the condition on
/// which a handle call passes the liveness gate.
pub open spec fn has_idle(s: Seq<EntryV>, id: int) -> bool {
    exists|i: int| 0 <= i < s.len() && (#[trigger] s[i]).id == id && s[i].state
        == OpState::ActiveIdle
}

/// There is a busy entry with the given identifier.
pub open spec fn has_busy(s: Seq<EntryV>, id: int) -> bool {
    exists|i: int| 0 <= i < s.len() && (#[trigger] s[i]).id == id && s[i].state
        == OpState::ActiveBusy
}

/// The index of the entry with the given identifier. Meaningful only
/// where `has_id` holds and identifiers are unique.
pub open spec fn idx_of_id(s: Seq<EntryV>, id: int) -> int {
    choose|i: int| 0 <= i < s.len() && (#[trigger] s[i]).id == id
}

/// The table with the state of the entry `id` replaced by `st`; the
/// table unchanged where no entry has that identifier.
pub open spec fn set_state(s: Seq<EntryV>, id: int, st: OpState) -> Seq<EntryV> {
    s.map_values(
        |e: EntryV|
            if e.id == id {
                EntryV { state: st, ..e }
            } else {
                e
            },
    )
}

/// The table with the entry `id` removed; the table unchanged where no
/// entry has that identifier.
pub open spec fn remove_id(s: Seq<EntryV>, id: int) -> Seq<EntryV> {
    if has_id(s, id) {
        s.remove(idx_of_id(s, id))
    } else {
        s
    }
}

/// The identifiers of all prunable (non-forced, idle) entries, in table
/// order — by creation sequence ascending, oldest first.
pub open spec fn prunable_ids(s: Seq<EntryV>) -> Seq<int> {
    s.filter(|e: EntryV| e.prunable()).map_values(|e: EntryV| e.id)
}

/// Every identifier in the prunable snapshot belongs to a prunable
/// entry of the table.
pub proof fn lemma_prunable_id_in_table(s: Seq<EntryV>, i: int)
    requires
        0 <= i < prunable_ids(s).len(),
    ensures
        exists|j: int|
            0 <= j < s.len() && (#[trigger] s[j]).id == prunable_ids(s)[i] && s[j].prunable(),
{
    let pred = |e: EntryV| e.prunable();
    let f = s.filter(pred);
    assert(prunable_ids(s)[i] == f[i].id);
    s.lemma_filter_pred(pred, i);
    assert(f.contains(f[i]));
    s.lemma_filter_contains_rev(pred, f[i]);
    let j = choose|j: int| 0 <= j < s.len() && s[j] == f[i];
    assert(s[j].id == prunable_ids(s)[i] && s[j].prunable());
}

/// A busy entry's identifier never appears in the prunable snapshot,
/// whatever its age: pruning cannot tear down a context mid-call.
pub proof fn lemma_busy_not_prunable(r: RegistryV, i: int)
    requires
        r.wf(),
        0 <= i < r.entries.len(),
        r.entries[i].state == OpState::ActiveBusy,
    ensures
        !prunable_ids(r.entries).contains(r.entries[i].id),
{
    let s = r.entries;
    if prunable_ids(s).contains(s[i].id) {
        let k = choose|k: int| 0 <= k < prunable_ids(s).len() && prunable_ids(s)[k] == s[i].id;
        lemma_prunable_id_in_table(s, k);
        let j = choose|j: int|
            0 <= j < s.len() && (#[trigger] s[j]).id == prunable_ids(s)[k] && s[j].prunable();
        assert(j != i);
        assert(s[i].id != s[j].id);
    }
}

/// Mathematical model of a [`Registry`].
pub struct RegistryV {
    /// Hard cap on simultaneously live entries (deployment constant).
    pub capacity: int,
    /// Provisional reservations counted by `try_reserve_slot` and not
    /// yet consumed by `insert` or released by `cancel_reservation`.
    pub reserved: int,
    /// Next identifier to hand out; identifiers are never reused.
    pub next_id: int,
    /// Next creation-order number to hand out.
    pub next_sequence: int,
    /// The live entries, in creation order.
    pub entries: Seq<EntryV>,
}

impl RegistryV {
    /// Slots spoken for: live entries plus outstanding reservations.
    pub open spec fn occupied(self) -> int {
        self.entries.len() + self.reserved
    }

    /// Well-formedness: the table never exceeds its capacity, holds no
    /// finalized entry, and lists entries in strictly increasing
    /// identifier and creation order, all below the next counters.
    pub open spec fn wf(self) -> bool {
        &&& 0 <= self.reserved
        &&& 0 <= self.next_id
        &&& 0 <= self.next_sequence
        &&& self.occupied() <= self.capacity
        &&& forall|i: int|
            0 <= i < self.entries.len() ==> {
                &&& 0 <= (#[trigger] self.entries[i]).id < self.next_id
                &&& 0 <= self.entries[i].sequence < self.next_sequence
                &&& self.entries[i].state != OpState::Finalized
            }
        &&& forall|i: int, j: int|
            #![trigger self.entries[i], self.entries[j]]
            0 <= i < j < self.entries.len() ==> {
                &&& self.entries[i].id < self.entries[j].id
                &&& self.entries[i].sequence < self.entries[j].sequence
            }
    }
}

/// Outcome of [`Registry::try_reserve_slot`].
#[derive(Clone, Copy, PartialEq, Eq, Structural, Debug)]
pub enum SlotReservation {
    /// A provisional slot was counted for the caller.
    Reserved,
    /// Every slot is spoken for.
    Full,
}

/// The bounded table of operation entries for one security level.
///
/// In the full broker one such table stands behind one exclusive
/// critical section per security level; every method here corresponds
/// to work done with that section held.
pub struct Registry {
    capacity: usize,
    reserved: usize,
    next_id: u64,
    next_sequence: u64,
    entries: Vec<Entry>,
}

impl View for Registry {
    type V = RegistryV;

    closed spec fn view(&self) -> RegistryV {
        RegistryV {
            capacity: self.capacity as int,
            reserved: self.reserved as int,
            next_id: self.next_id as int,
            next_sequence: self.next_sequence as int,
            entries: self.entries@.map_values(|e: Entry| e@),
        }
    }
}

impl Registry {
    /// An empty registry with the given capacity.
    pub fn new(capacity: usize) -> (r: Registry)
        ensures
            r@.wf(),
            r@ == (RegistryV {
                capacity: capacity as int,
                reserved: 0,
                next_id: 0,
                next_sequence: 0,
                entries: Seq::<EntryV>::empty(),
            }),
    {
        let r = Registry {
            capacity,
            reserved: 0,
            next_id: 0,
            next_sequence: 0,
            entries: Vec::new(),
        };
        proof {
            assert(r@.entries =~= Seq::<EntryV>::empty());
        }
        r
    }

    /// If fewer than `capacity` slots are spoken for, counts a
    /// provisional reservation and reports `Reserved`; otherwise
    /// reports `Full` and changes nothing.
    pub fn try_reserve_slot(&mut self) -> (r: SlotReservation)
        requires
            old(self)@.wf(),
        ensures
            final(self)@.wf(),
            r == SlotReservation::Reserved <==> old(self)@.occupied() < old(self)@.capacity,
            r == SlotReservation::Reserved ==> final(self)@ == (RegistryV {
                reserved: old(self)@.reserved + 1,
                ..old(self)@
            }),
            r == SlotReservation::Full ==> final(self)@ == old(self)@,
    {
        if self.entries.len() < self.capacity && self.reserved < self.capacity - self.entries.len() {
            self.reserved = self.reserved + 1;
            SlotReservation::Reserved
        } else {
            SlotReservation::Full
        }
    }

    /// Releases one outstanding reservation without inserting an entry;
    /// used when the backend factory fails after a slot was secured, so
    /// that a factory error never consumes a slot.
    pub fn cancel_reservation(&mut self)
        requires
            old(self)@.wf(),
            old(self)@.reserved >= 1,
        ensures
            final(self)@.wf(),
            final(self)@ == (RegistryV { reserved: old(self)@.reserved - 1, ..old(self)@ }),
    {
        self.reserved = self.reserved - 1;
    }

    /// Inserts a newly constructed entry in `ActiveIdle` state,
    /// consuming one prior reservation, and returns its fresh
    /// identifier.
    pub fn insert(&mut self, owner: OwnerId, forced: bool, proxy: BackendProxy) -> (id: u64)
        requires
            old(self)@.wf(),
            old(self)@.reserved >= 1,
            old(self)@.next_id < u64::MAX as int,
            old(self)@.next_sequence < u64::MAX as int,
        ensures
            final(self)@.wf(),
            id as int == old(self)@.next_id,
            final(self)@ == (RegistryV {
                reserved: old(self)@.reserved - 1,
                next_id: old(self)@.next_id + 1,
                next_sequence: old(self)@.next_sequence + 1,
                entries: old(self)@.entries.push(
                    EntryV {
                        id: old(self)@.next_id,
                        owner: owner@,
                        forced,
                        sequence: old(self)@.next_sequence,
                        state: OpState::ActiveIdle,
                        proxy: proxy@,
                    },
                ),
                ..old(self)@
            }),
    {
        let id = self.next_id;
        let entry = Entry {
            id,
            owner,
            forced,
            sequence: self.next_sequence,
            state: OpState::ActiveIdle,
            proxy,
        };
        let ghost entry_v = entry@;
        self.entries.push(entry);
        self.next_id = self.next_id + 1;
        self.next_sequence = self.next_sequence + 1;
        self.reserved = self.reserved - 1;
        proof {
            assert(self@.entries =~= old(self)@.entries.push(entry_v));
        }
        id
    }

    /// The position of the entry with the given identifier, if any.
    fn find_index(&self, id: u64) -> (r: Option<usize>)
        requires
            self@.wf(),
        ensures
            match r {
                Option::Some(i) => i < self@.entries.len() && self@.entries[i as int].id
                    == id as int,
                Option::None => !has_id(self@.entries, id as int),
            },
    {
        let mut i: usize = 0;
        while i < self.entries.len()
            invariant
                self@.wf(),
                i <= self@.entries.len(),
                self@.entries.len() == self.entries@.len(),
                forall|j: int| 0 <= j < i ==> (#[trigger] self@.entries[j]).id != id as int,
            decreases self.entries.len() - i,
        {
            if self.entries[i].id == id {
                return Option::Some(i);
            }
            i = i + 1;
        }
        Option::None
    }

    /// Transitions `ActiveIdle → ActiveBusy` for the given handle, the
    /// liveness gate every handle call passes. Fails with
    /// `InvalidHandle`, changing nothing, where the entry does not
    /// exist (finished, aborted, pruned, or never admitted) or is
    /// already busy (a second concurrent call on the same handle is
    /// rejected, not serialized).
    pub fn mark_busy(&mut self, id: u64) -> (r: Result<(), Error>)
        requires
            old(self)@.wf(),
        ensures
            final(self)@.wf(),
            r is Ok <==> has_idle(old(self)@.entries, id as int),
            r is Ok ==> final(self)@ == (RegistryV {
                entries: set_state(old(self)@.entries, id as int, OpState::ActiveBusy),
                ..old(self)@
            }),
            r is Err ==> final(self)@ == old(self)@ && r == Err::<(), Error>(
                Error::InvalidHandle,
            ),
    {
        match self.find_index(id) {
            Option::Some(i) => {
                if matches!(self.entries[i].state, OpState::ActiveIdle) {
                    let e = &mut self.entries[i];
                    e.state = OpState::ActiveBusy;
                    proof {
                        assert(self@.entries =~= set_state(
                            old(self)@.entries,
                            id as int,
                            OpState::ActiveBusy,
                        ));
                    }
                    Result::Ok(())
                } else {
                    proof {
                        assert forall|j: int|
                            0 <= j < old(self)@.entries.len() && (#[trigger] old(
                                self,
                            )@.entries[j]).id == id as int implies old(self)@.entries[j].state
                            != OpState::ActiveIdle by {
                            assert(old(self)@.entries[j] == old(self)@.entries[i as int]);
                        }
                    }
                    Result::Err(Error::InvalidHandle)
                }
            },
            Option::None => Result::Err(Error::InvalidHandle),
        }
    }

    /// Transitions `ActiveBusy → ActiveIdle` for the given handle,
    /// returning it to the prunable pool; used when a backend call
    /// completes without finalizing. Changes nothing where the entry is
    /// missing or not busy.
    pub fn mark_idle(&mut self, id: u64)
        requires
            old(self)@.wf(),
        ensures
            final(self)@.wf(),
            has_busy(old(self)@.entries, id as int) ==> final(self)@ == (RegistryV {
                entries: set_state(old(self)@.entries, id as int, OpState::ActiveIdle),
                ..old(self)@
            }),
            !has_busy(old(self)@.entries, id as int) ==> final(self)@ == old(self)@,
    {
        match self.find_index(id) {
            Option::Some(i) => {
                if matches!(self.entries[i].state, OpState::ActiveBusy) {
                    let e = &mut self.entries[i];
                    e.state = OpState::ActiveIdle;
                    proof {
                        assert(self@.entries =~= set_state(
                            old(self)@.entries,
                            id as int,
                            OpState::ActiveIdle,
                        ));
                    }
                } else {
                    proof {
                        assert forall|j: int|
                            0 <= j < old(self)@.entries.len() && (#[trigger] old(
                                self,
                            )@.entries[j]).id == id as int implies old(self)@.entries[j].state
                            != OpState::ActiveBusy by {
                            assert(old(self)@.entries[j] == old(self)@.entries[i as int]);
                        }
                    }
                }
            },
            Option::None => {},
        }
    }

    /// Removes the entry with the given identifier, releasing its slot
    /// and dropping its backend proxy; idempotent against a missing
    /// identifier. Once this returns, no call against that identifier
    /// passes the liveness gate again.
    pub fn finalize(&mut self, id: u64)
        requires
            old(self)@.wf(),
        ensures
            final(self)@.wf(),
            final(self)@ == (RegistryV {
                entries: remove_id(old(self)@.entries, id as int),
                ..old(self)@
            }),
    {
        match self.find_index(id) {
            Option::Some(i) => {
                self.entries.remove(i);
                proof {
                    let s = old(self)@.entries;
                    assert(has_id(s, id as int));
                    let k = idx_of_id(s, id as int);
                    assert(s[k].id == id as int && s[i as int].id == id as int);
                    assert(k == i as int);
                    assert(self@.entries =~= s.remove(i as int));
                }
            },
            Option::None => {},
        }
    }

    /// The number of live (`Active-*`) entries.
    pub fn len(&self) -> (r: usize)
        ensures
            r == self@.entries.len(),
    {
        self.entries.len()
    }

    /// The hard cap on simultaneously live entries.
    pub fn capacity(&self) -> (r: usize)
        ensures
            r == self@.capacity,
    {
        self.capacity
    }

    /// The number of outstanding provisional reservations.
    pub fn reserved_count(&self) -> (r: usize)
        ensures
            r == self@.reserved,
    {
        self.reserved
    }

    /// The next identifier to be handed out.
    pub fn next_id(&self) -> (r: u64)
        ensures
            r as int == self@.next_id,
    {
        self.next_id
    }

    /// The next creation-order number to be handed out.
    pub fn next_sequence(&self) -> (r: u64)
        ensures
            r as int == self@.next_sequence,
    {
        self.next_sequence
    }

    /// The liveness state of the entry with the given identifier, or
    /// `None` where no such entry is live.
    pub fn state_of(&self, id: u64) -> (r: Option<OpState>)
        requires
            self@.wf(),
        ensures
            r is Some <==> has_id(self@.entries, id as int),
            r == Option::Some(OpState::ActiveIdle) <==> has_idle(self@.entries, id as int),
            r == Option::Some(OpState::ActiveBusy) <==> has_busy(self@.entries, id as int),
    {
        match self.find_index(id) {
            Option::Some(i) => {
                let st = self.entries[i].state;
                proof {
                    assert forall|j: int|
                        0 <= j < self@.entries.len() && (#[trigger] self@.entries[j]).id
                            == id as int implies self@.entries[j] == self@.entries[i as int] by {
                        if j != i as int {
                            assert(self@.entries[j].id != self@.entries[i as int].id);
                        }
                    }
                }
                Option::Some(st)
            },
            Option::None => Option::None,
        }
    }

    /// All identifiers eligible for pruning — entries neither forced
    /// nor busy — oldest first. Forced and busy entries are excluded by
    /// construction, never re-checked by the policy.
    pub fn snapshot_prunable(&self) -> (r: Vec<u64>)
        requires
            self@.wf(),
        ensures
            r@.map_values(|x: u64| x as int) == prunable_ids(self@.entries),
    {
        let mut r: Vec<u64> = Vec::new();
        let mut i: usize = 0;
        proof {
            assert(r@.map_values(|x: u64| x as int) =~= prunable_ids(self@.entries.take(0)));
            assert(self@.entries.take(self@.entries.len() as int) =~= self@.entries);
        }
        while i < self.entries.len()
            invariant
                self@.wf(),
                i <= self@.entries.len(),
                self@.entries.len() == self.entries@.len(),
                r@.map_values(|x: u64| x as int) == prunable_ids(self@.entries.take(i as int)),
            decreases self.entries.len() - i,
        {
            let ghost prefix = self@.entries.take(i as int);
            let ghost e_v = self@.entries[i as int];
            let e = &self.entries[i];
            if !e.forced && matches!(e.state, OpState::ActiveIdle) {
                r.push(e.id);
            }
            proof {
                self@.entries.lemma_take_succ_push(i as int);
                prefix.lemma_filter_push(e_v, |x: EntryV| x.prunable());
                if e_v.prunable() {
                    prefix.filter(|x: EntryV| x.prunable()).lemma_push_map_commute(
                        |x: EntryV| x.id,
                        e_v,
                    );
                    assert(r@.map_values(|x: u64| x as int) =~= prunable_ids(
                        self@.entries.take(i + 1),
                    ));
                } else {
                    assert(r@.map_values(|x: u64| x as int) =~= prunable_ids(
                        self@.entries.take(i + 1),
                    ));
                }
            }
            i = i + 1;
        }
        proof {
            assert(self@.entries.take(self@.entries.len() as int) == self@.entries);
        }
        r
    }
}

} // verus!
