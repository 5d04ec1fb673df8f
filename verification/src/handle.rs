//! The handle layer: every client call on a previously admitted
//! operation passes the registry's liveness gate (`mark_busy`) first,
//! runs the backend call outside the table's critical section, and
//! then either returns the entry to the prunable pool or finalizes it,
//! depending on how the backend's report is classified.

use vstd::prelude::*;

use crate::entry::EntryV;
use crate::entry::OpState;
use crate::registry::has_busy;
use crate::registry::has_id;
use crate::registry::has_idle;
use crate::registry::idx_of_id;
use crate::registry::remove_id;
use crate::registry::set_state;
use crate::registry::Registry;
use crate::registry::RegistryV;
use crate::Error;

verus! {

/// The broker's classification of what the secure-hardware
/// collaborator reported for one call. The broker never interprets a
/// failure beyond whether it is terminal.
#[derive(Clone, Copy, PartialEq, Eq, Structural, Debug)]
pub enum BackendOutcome {
    /// The backend call completed normally.
    Success,
    /// The backend reported a failure, passed through unchanged as
    /// `code`. A terminal failure finalizes the entry; a transient one
    /// leaves it idle.
    Failure { terminal: bool, code: u64 },
}

/// Marking an idle entry busy and idle again restores the table.
proof fn lemma_set_state_roundtrip(r: RegistryV, id: int)
    requires
        r.wf(),
        has_idle(r.entries, id),
    ensures
        set_state(set_state(r.entries, id, OpState::ActiveBusy), id, OpState::ActiveIdle)
            == r.entries,
{
    let s = r.entries;
    let s2 = set_state(set_state(s, id, OpState::ActiveBusy), id, OpState::ActiveIdle);
    let j = choose|j: int|
        0 <= j < s.len() && (#[trigger] s[j]).id == id && s[j].state == OpState::ActiveIdle;
    assert forall|i: int| 0 <= i < s.len() implies s2[i] == s[i] by {
        if s[i].id == id {
            if i != j {
                assert(s[i].id != s[j].id);
            }
            assert(s[i].state == OpState::ActiveIdle);
        }
    }
    assert(s2 =~= s);
}

/// Removing an entry commutes with having first changed its state.
proof fn lemma_set_state_then_remove(r: RegistryV, id: int, st: OpState)
    requires
        r.wf(),
        has_id(r.entries, id),
    ensures
        remove_id(set_state(r.entries, id, st), id) == remove_id(r.entries, id),
{
    let s = r.entries;
    let m = set_state(s, id, st);
    let k = idx_of_id(s, id);
    assert(0 <= k < s.len() && s[k].id == id);
    assert(m[k].id == id);
    assert(has_id(m, id));
    let k2 = idx_of_id(m, id);
    assert(0 <= k2 < m.len() && m[k2].id == id);
    if k2 != k {
        assert(s[k2].id != s[k].id);
    }
    assert(k2 == k);
    assert forall|i: int| 0 <= i < s.len() && i != k implies m[i] == s[i] by {
        if s[i].id == id {
            assert(s[i].id != s[k].id);
        }
    }
    assert(m.remove(k) =~= s.remove(k));
}

/// `update(handle, data)`: the liveness check, the backend call, and the return
/// of the entry to the prunable pool — or its finalization, where the
/// backend's failure was terminal. `outcome` is the classification of
/// what the backend reported for this call; the payload bytes
/// themselves flow outside the broker core. An entry that no longer
/// exists, or is already inside a call, is reported as
/// `InvalidHandle` and the backend is never reached.
pub fn update(reg: &mut Registry, id: u64, outcome: BackendOutcome) -> (r: Result<(), Error>)
    requires
        old(reg)@.wf(),
    ensures
        final(reg)@.wf(),
        !has_idle(old(reg)@.entries, id as int) ==> r == Err::<(), Error>(Error::InvalidHandle)
            && final(reg)@ == old(reg)@,
        has_idle(old(reg)@.entries, id as int) ==> match outcome {
            BackendOutcome::Success => r == Ok::<(), Error>(()) && final(reg)@ == old(reg)@,
            BackendOutcome::Failure { terminal, code } => r == Err::<(), Error>(
                Error::Backend { code },
            ) && if terminal {
                final(reg)@ == (RegistryV {
                    entries: remove_id(old(reg)@.entries, id as int),
                    ..old(reg)@
                })
            } else {
                final(reg)@ == old(reg)@
            },
        },
{
    match reg.mark_busy(id) {
        Result::Err(_) => Result::Err(Error::InvalidHandle),
        Result::Ok(_) => {
            // The backend call runs here, outside the critical
            // section, shielded from eviction by the busy marker.
            match outcome {
                BackendOutcome::Success => {
                    proof {
                        lemma_set_state_roundtrip(old(reg)@, id as int);
                    }
                    reg.mark_idle(id);
                    Result::Ok(())
                },
                BackendOutcome::Failure { terminal, code } => {
                    if terminal {
                        proof {
                            lemma_set_state_then_remove(old(reg)@, id as int, OpState::ActiveBusy);
                        }
                        reg.finalize(id);
                    } else {
                        proof {
                            lemma_set_state_roundtrip(old(reg)@, id as int);
                        }
                        reg.mark_idle(id);
                    }
                    Result::Err(Error::Backend { code })
                },
            }
        },
    }
}

/// `finish(handle, ...)`: the liveness check, the backend call, and the entry's
/// finalization — a finishing call tears the context down whether the
/// backend succeeded or failed, and the identifier never reaches the
/// backend again.
pub fn finish(reg: &mut Registry, id: u64, outcome: BackendOutcome) -> (r: Result<(), Error>)
    requires
        old(reg)@.wf(),
    ensures
        final(reg)@.wf(),
        !has_idle(old(reg)@.entries, id as int) ==> r == Err::<(), Error>(Error::InvalidHandle)
            && final(reg)@ == old(reg)@,
        has_idle(old(reg)@.entries, id as int) ==> {
            &&& final(reg)@ == (RegistryV {
                entries: remove_id(old(reg)@.entries, id as int),
                ..old(reg)@
            })
            &&& match outcome {
                BackendOutcome::Success => r == Ok::<(), Error>(()),
                BackendOutcome::Failure { terminal, code } => r == Err::<(), Error>(
                    Error::Backend { code },
                ),
            }
        },
{
    match reg.mark_busy(id) {
        Result::Err(_) => Result::Err(Error::InvalidHandle),
        Result::Ok(_) => {
            proof {
                lemma_set_state_then_remove(old(reg)@, id as int, OpState::ActiveBusy);
            }
            reg.finalize(id);
            match outcome {
                BackendOutcome::Success => Result::Ok(()),
                BackendOutcome::Failure { terminal: _, code } => Result::Err(
                    Error::Backend { code },
                ),
            }
        },
    }
}

/// `abort(handle)`: the liveness check, the backend abort, and the entry's
/// finalization.
pub fn abort(reg: &mut Registry, id: u64) -> (r: Result<(), Error>)
    requires
        old(reg)@.wf(),
    ensures
        final(reg)@.wf(),
        !has_idle(old(reg)@.entries, id as int) ==> r == Err::<(), Error>(Error::InvalidHandle)
            && final(reg)@ == old(reg)@,
        has_idle(old(reg)@.entries, id as int) ==> r == Ok::<(), Error>(()) && final(reg)@
            == (RegistryV { entries: remove_id(old(reg)@.entries, id as int), ..old(reg)@ }),
{
    match reg.mark_busy(id) {
        Result::Err(_) => Result::Err(Error::InvalidHandle),
        Result::Ok(_) => {
            proof {
                lemma_set_state_then_remove(old(reg)@, id as int, OpState::ActiveBusy);
            }
            reg.finalize(id);
            Result::Ok(())
        },
    }
}

/// Second half of a client call for drivers that hold the busy marker
/// across a real backend call: the caller passed the liveness check with
/// [`Registry::mark_busy`], ran the backend, and hands the classified
/// report back here. Reports `InvalidHandle` where the entry is not
/// busy — the protocol was not followed, or the entry was finalized
/// out from under a dead owner.
pub fn end_update(reg: &mut Registry, id: u64, outcome: BackendOutcome) -> (r: Result<(), Error>)
    requires
        old(reg)@.wf(),
    ensures
        final(reg)@.wf(),
        !has_busy(old(reg)@.entries, id as int) ==> r == Err::<(), Error>(Error::InvalidHandle)
            && final(reg)@ == old(reg)@,
        has_busy(old(reg)@.entries, id as int) ==> match outcome {
            BackendOutcome::Success => r == Ok::<(), Error>(()) && final(reg)@ == (RegistryV {
                entries: set_state(old(reg)@.entries, id as int, OpState::ActiveIdle),
                ..old(reg)@
            }),
            BackendOutcome::Failure { terminal, code } => r == Err::<(), Error>(
                Error::Backend { code },
            ) && if terminal {
                final(reg)@ == (RegistryV {
                    entries: remove_id(old(reg)@.entries, id as int),
                    ..old(reg)@
                })
            } else {
                final(reg)@ == (RegistryV {
                    entries: set_state(old(reg)@.entries, id as int, OpState::ActiveIdle),
                    ..old(reg)@
                })
            },
        },
{
    match reg.state_of(id) {
        Option::Some(OpState::ActiveBusy) => {
            match outcome {
                BackendOutcome::Success => {
                    reg.mark_idle(id);
                    Result::Ok(())
                },
                BackendOutcome::Failure { terminal, code } => {
                    if terminal {
                        reg.finalize(id);
                    } else {
                        reg.mark_idle(id);
                    }
                    Result::Err(Error::Backend { code })
                },
            }
        },
        _ => Result::Err(Error::InvalidHandle),
    }
}

/// Entry point for the owner-death notification: finalizes the entry
/// exactly as an abort would, idempotently, whatever state the entry
/// was left in by its dead owner.
pub fn finalize_on_owner_gone(reg: &mut Registry, id: u64)
    requires
        old(reg)@.wf(),
    ensures
        final(reg)@.wf(),
        final(reg)@ == (RegistryV {
            entries: remove_id(old(reg)@.entries, id as int),
            ..old(reg)@
        }),
{
    reg.finalize(id);
}

} // verus!
