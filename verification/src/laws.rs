//! The guarantees the broker gives across whole runs: saturation
//! refuses non-forced callers, a forced caller evicts exactly the
//! oldest idle non-forced entry, forced and busy entries are immune to
//! pruning, and a forced entry survives any number of later
//! admissions. Each is stated over the registry model and proved from
//! the same spec functions the executable contracts use.

use vstd::prelude::*;

use crate::admission::admitted_entry;
use crate::admission::can_admit;
use crate::admission::spec_admit;
use crate::entry::EntryV;
use crate::entry::OpState;
use crate::entry::OwnerV;
use crate::policy::spec_victim;
use crate::registry::has_id;
use crate::registry::has_idle;
use crate::registry::idx_of_id;
use crate::registry::lemma_busy_not_prunable;
use crate::registry::lemma_prunable_id_in_table;
use crate::registry::prunable_ids;
use crate::registry::RegistryV;

verus! {

/// One admission request, as the trace model sees it.
pub struct AdmitReq {
    pub owner: OwnerV,
    pub forced: bool,
    pub proxy: int,
}

/// The registry after a whole sequence of admission requests, oldest
/// first.
pub open spec fn spec_admit_all(r: RegistryV, reqs: Seq<AdmitReq>) -> RegistryV
    decreases reqs.len(),
{
    if reqs.len() == 0 {
        r
    } else {
        spec_admit_all(spec_admit(r, reqs[0].owner, reqs[0].forced, reqs[0].proxy), reqs.skip(1))
    }
}

/// A sequence whose every element passes the predicate filters to
/// itself.
proof fn lemma_filter_all(s: Seq<EntryV>, pred: spec_fn(EntryV) -> bool)
    requires
        forall|i: int| 0 <= i < s.len() ==> pred(#[trigger] s[i]),
    ensures
        s.filter(pred) == s,
    decreases s.len(),
{
    reveal(Seq::filter);
    if s.len() == 0 {
        assert(s.filter(pred) =~= s);
    } else {
        assert forall|i: int| 0 <= i < s.drop_last().len() implies pred(
            #[trigger] s.drop_last()[i],
        ) by {
            assert(s.drop_last()[i] == s[i]);
        }
        lemma_filter_all(s.drop_last(), pred);
        assert(pred(s.last()));
        assert(s.filter(pred) =~= s);
    }
}

/// One admission keeps the registry well-formed.
pub proof fn lemma_admit_wf(r: RegistryV, owner: OwnerV, forced: bool, proxy: int)
    requires
        r.wf(),
    ensures
        spec_admit(r, owner, forced, proxy).wf(),
{
    let s = r.entries;
    let e = admitted_entry(r, owner, forced, proxy);
    let r2 = spec_admit(r, owner, forced, proxy);
    if r.occupied() < r.capacity {
        let s2 = s.push(e);
        assert forall|i: int|
            0 <= i < s2.len() implies 0 <= (#[trigger] s2[i]).id < r2.next_id && 0
            <= s2[i].sequence < r2.next_sequence && s2[i].state != OpState::Finalized by {
            if i < s.len() {
                assert(s2[i] == s[i]);
            } else {
                assert(s2[i] == e);
            }
        }
        assert forall|i: int, j: int|
            #![trigger s2[i], s2[j]]
            0 <= i < j < s2.len() implies s2[i].id < s2[j].id && s2[i].sequence
            < s2[j].sequence by {
            if j < s.len() {
            } else {
                assert(s2[j] == e);
                assert(s2[i] == s[i]);
            }
        }
    } else if forced && prunable_ids(s).len() > 0 {
        let v = prunable_ids(s)[0];
        lemma_prunable_id_in_table(s, 0);
        assert(has_id(s, v));
        let k = idx_of_id(s, v);
        assert(0 <= k < s.len() && s[k].id == v);
        s.remove_ensures(k);
        let s1 = s.remove(k);
        let s2 = s1.push(e);
        assert forall|i: int|
            0 <= i < s2.len() implies 0 <= (#[trigger] s2[i]).id < r2.next_id && 0
            <= s2[i].sequence < r2.next_sequence && s2[i].state != OpState::Finalized by {
            if i < s1.len() {
                if i < k {
                    assert(s2[i] == s[i]);
                } else {
                    assert(s2[i] == s[i + 1]);
                }
            } else {
                assert(s2[i] == e);
            }
        }
        assert forall|i: int, j: int|
            #![trigger s2[i], s2[j]]
            0 <= i < j < s2.len() implies s2[i].id < s2[j].id && s2[i].sequence
            < s2[j].sequence by {
            if j < s1.len() {
                let i0: int = if i < k {
                    i
                } else {
                    i + 1
                };
                let j0: int = if j < k {
                    j
                } else {
                    j + 1
                };
                assert(s2[i] == s[i0]);
                assert(s2[j] == s[j0]);
                assert(i0 < j0);
            } else {
                assert(s2[j] == e);
                if i < k {
                    assert(s2[i] == s[i]);
                } else {
                    assert(s2[i] == s[i + 1]);
                }
            }
        }
    } else {
    }
}

/// An admission never touches an entry that is forced or busy: it
/// stays in the table, unchanged.
pub proof fn lemma_admit_keeps_entry(
    r: RegistryV,
    e: EntryV,
    owner: OwnerV,
    forced: bool,
    proxy: int,
)
    requires
        r.wf(),
        r.entries.contains(e),
        !e.prunable(),
    ensures
        spec_admit(r, owner, forced, proxy).entries.contains(e),
{
    let s = r.entries;
    let i = choose|i: int| 0 <= i < s.len() && s[i] == e;
    if r.occupied() < r.capacity {
        let s2 = s.push(admitted_entry(r, owner, forced, proxy));
        assert(s2[i] == e);
        assert(s2.contains(e));
    } else if forced && prunable_ids(s).len() > 0 {
        let v = prunable_ids(s)[0];
        lemma_prunable_id_in_table(s, 0);
        let j = choose|j: int|
            0 <= j < s.len() && (#[trigger] s[j]).id == prunable_ids(s)[0] && s[j].prunable();
        let k = idx_of_id(s, v);
        assert(0 <= k < s.len() && s[k].id == v);
        if k != j {
            assert(s[k].id != s[j].id);
        }
        assert(s[k].prunable());
        assert(i != k);
        s.remove_ensures(k);
        let s1 = s.remove(k);
        let s2 = s1.push(admitted_entry(r, owner, forced, proxy));
        if i < k {
            assert(s1[i] == e);
            assert(s2[i] == e);
        } else {
            assert(s1[i - 1] == e);
            assert(s2[i - 1] == e);
        }
        assert(s2.contains(e));
    }
}

/// A forced entry admitted before any number of subsequent forced or
/// non-forced admissions is never selected as a victim: it is still in
/// the table afterwards, unchanged, and — if it was idle — still
/// passes the liveness gate, so its next call succeeds.
pub proof fn lemma_forced_survival(r: RegistryV, e: EntryV, reqs: Seq<AdmitReq>)
    requires
        r.wf(),
        r.entries.contains(e),
        e.forced,
    ensures
        spec_admit_all(r, reqs).wf(),
        spec_admit_all(r, reqs).entries.contains(e),
        e.state == OpState::ActiveIdle ==> has_idle(spec_admit_all(r, reqs).entries, e.id),
    decreases reqs.len(),
{
    if reqs.len() == 0 {
        if e.state == OpState::ActiveIdle {
            let i = choose|i: int| 0 <= i < r.entries.len() && r.entries[i] == e;
            assert(r.entries[i].id == e.id && r.entries[i].state == OpState::ActiveIdle);
        }
    } else {
        let q = reqs[0];
        lemma_admit_wf(r, q.owner, q.forced, q.proxy);
        lemma_admit_keeps_entry(r, e, q.owner, q.forced, q.proxy);
        lemma_forced_survival(spec_admit(r, q.owner, q.forced, q.proxy), e, reqs.skip(1));
    }
}

/// Filling a registry with admissions that all fit: each one succeeds
/// and appends one entry.
pub proof fn lemma_fill(r: RegistryV, reqs: Seq<AdmitReq>)
    requires
        r.wf(),
        r.entries.len() + r.reserved + reqs.len() <= r.capacity,
    ensures
        ({
            let rn = spec_admit_all(r, reqs);
            &&& rn.wf()
            &&& rn.entries.len() == r.entries.len() + reqs.len()
            &&& rn.reserved == r.reserved
            &&& rn.capacity == r.capacity
            &&& rn.next_id == r.next_id + reqs.len()
        }),
    decreases reqs.len(),
{
    if reqs.len() == 0 {
    } else {
        let q = reqs[0];
        assert(r.occupied() < r.capacity);
        lemma_admit_wf(r, q.owner, q.forced, q.proxy);
        lemma_fill(spec_admit(r, q.owner, q.forced, q.proxy), reqs.skip(1));
    }
}

/// Saturation: after a run of admissions has filled every slot of a
/// registry with no outstanding reservations — in particular, after
/// `capacity`-many successful non-forced admissions of an empty table,
/// each of which consumed one fresh identifier — a further non-forced
/// admission is refused with `BackendBusy` and changes nothing,
/// whatever owner asks.
pub proof fn lemma_saturation(r: RegistryV, reqs: Seq<AdmitReq>, owner: OwnerV, proxy: int)
    requires
        r.wf(),
        r.reserved == 0,
        r.entries.len() + reqs.len() == r.capacity,
    ensures
        ({
            let rn = spec_admit_all(r, reqs);
            &&& rn.entries.len() == r.capacity
            &&& rn.next_id == r.next_id + reqs.len()
            &&& !can_admit(rn, false)
            &&& spec_admit(rn, owner, false, proxy) == rn
        }),
{
    lemma_fill(r, reqs);
}

/// Forced eviction: against a table saturated with idle, non-forced
/// entries, a forced admission succeeds, the table stays within its
/// bound, and exactly the oldest previously admitted entry is gone —
/// every younger one remains idle in the table, while the victim's
/// next call fails the liveness gate and reports `InvalidHandle`.
pub proof fn lemma_forced_eviction(r: RegistryV, owner: OwnerV, proxy: int)
    requires
        r.wf(),
        r.reserved == 0,
        r.entries.len() == r.capacity,
        r.capacity > 0,
        forall|i: int| 0 <= i < r.entries.len() ==> (#[trigger] r.entries[i]).prunable(),
    ensures
        ({
            let r2 = spec_admit(r, owner, true, proxy);
            &&& can_admit(r, true)
            &&& r2.wf()
            &&& r2.entries.len() == r.capacity
            &&& !has_id(r2.entries, r.entries[0].id)
            &&& !has_idle(r2.entries, r.entries[0].id)
            &&& forall|i: int|
                1 <= i < r.entries.len() ==> has_idle(r2.entries, (#[trigger] r.entries[i]).id)
        }),
{
    let s = r.entries;
    let pred = |x: EntryV| x.prunable();
    lemma_filter_all(s, pred);
    assert(prunable_ids(s).len() == s.len());
    assert(prunable_ids(s)[0] == s[0].id);
    lemma_admit_wf(r, owner, true, proxy);
    let v = prunable_ids(s)[0];
    assert(has_id(s, v));
    let k = idx_of_id(s, v);
    assert(0 <= k < s.len() && s[k].id == v);
    if k != 0 {
        assert(s[0].id != s[k].id);
    }
    assert(k == 0);
    s.remove_ensures(0);
    let e = admitted_entry(r, owner, true, proxy);
    let s1 = s.remove(0);
    let s2 = s1.push(e);
    let r2 = spec_admit(r, owner, true, proxy);
    assert(r2.entries == s2);
    assert forall|i: int| 0 <= i < s2.len() implies (#[trigger] s2[i]).id != s[0].id by {
        if i < s1.len() {
            assert(s2[i] == s[i + 1]);
            assert(s[0].id < s[i + 1].id);
        } else {
            assert(s2[i] == e);
            assert(s[0].id < r.next_id);
        }
    }
    assert forall|i: int|
        1 <= i < s.len() implies has_idle(r2.entries, (#[trigger] s[i]).id) by {
        assert(s2[i - 1] == s[i]);
        assert(s[i].prunable());
        assert(s2[i - 1].id == s[i].id && s2[i - 1].state == OpState::ActiveIdle);
    }
}

/// Forced immunity: a table saturated with forced entries refuses even
/// a forced admission — `BackendBusy`, no existing forced entry is
/// evicted, nothing changes.
pub proof fn lemma_forced_immunity(r: RegistryV, owner: OwnerV, proxy: int)
    requires
        r.wf(),
        r.occupied() >= r.capacity,
        forall|i: int| 0 <= i < r.entries.len() ==> (#[trigger] r.entries[i]).forced,
    ensures
        !can_admit(r, true),
        spec_admit(r, owner, true, proxy) == r,
{
    if prunable_ids(r.entries).len() > 0 {
        lemma_prunable_id_in_table(r.entries, 0);
        let j = choose|j: int|
            0 <= j < r.entries.len() && (#[trigger] r.entries[j]).id == prunable_ids(
                r.entries,
            )[0] && r.entries[j].prunable();
        assert(r.entries[j].forced);
        assert(false);
    }
}

/// Busy immunity: an entry inside a backend call is never offered to
/// the pruning policy and never selected as the victim, even when it
/// is the oldest entry of the table.
pub proof fn lemma_busy_immunity(r: RegistryV, i: int)
    requires
        r.wf(),
        0 <= i < r.entries.len(),
        r.entries[i].state == OpState::ActiveBusy,
    ensures
        !prunable_ids(r.entries).contains(r.entries[i].id),
        spec_victim(prunable_ids(r.entries)) != Option::Some(r.entries[i].id),
{
    lemma_busy_not_prunable(r, i);
    if prunable_ids(r.entries).len() > 0 {
        assert(prunable_ids(r.entries).contains(prunable_ids(r.entries)[0]));
    }
}

} // verus!
