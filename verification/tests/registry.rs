//! Unit tests for the registry, admission controller, pruning policy
//! and handle layer.

use op_broker::admission::admit_op;
use op_broker::admission::begin_admit;
use op_broker::admission::SlotGrant;
use op_broker::handle::abort;
use op_broker::handle::end_update;
use op_broker::handle::finalize_on_owner_gone;
use op_broker::handle::finish;
use op_broker::handle::update;
use op_broker::handle::BackendOutcome;
use op_broker::policy::select_victim;
use op_broker::registry::Registry;
use op_broker::registry::SlotReservation;
use op_broker::BackendProxy;
use op_broker::Error;
use op_broker::OpState;
use op_broker::OwnerId;

fn owner(uid: u32) -> OwnerId {
    OwnerId { uid, ctx: String::from("u:r:untrusted_app:s0") }
}

fn proxy(t: u64) -> BackendProxy {
    BackendProxy { ctx_token: t }
}

#[test]
fn saturation_is_exact() {
    let mut reg = Registry::new(3);
    assert_eq!(admit_op(&mut reg, owner(1), false, proxy(0)), Ok(0));
    assert_eq!(admit_op(&mut reg, owner(1), false, proxy(1)), Ok(1));
    assert_eq!(admit_op(&mut reg, owner(1), false, proxy(2)), Ok(2));
    assert_eq!(reg.len(), 3);
    assert_eq!(admit_op(&mut reg, owner(1), false, proxy(3)), Err(Error::BackendBusy));
    assert_eq!(reg.len(), 3);
}

#[test]
fn forced_evicts_exactly_the_oldest() {
    let mut reg = Registry::new(2);
    let a = admit_op(&mut reg, owner(1), false, proxy(0)).unwrap();
    let b = admit_op(&mut reg, owner(1), false, proxy(1)).unwrap();
    let c = admit_op(&mut reg, owner(2), true, proxy(2)).unwrap();
    assert_eq!(reg.len(), 2);
    assert_eq!(reg.state_of(a), None);
    assert_eq!(update(&mut reg, a, BackendOutcome::Success), Err(Error::InvalidHandle));
    assert_eq!(update(&mut reg, b, BackendOutcome::Success), Ok(()));
    assert_eq!(update(&mut reg, c, BackendOutcome::Success), Ok(()));
}

#[test]
fn forced_table_refuses_even_forced() {
    let mut reg = Registry::new(2);
    let a = admit_op(&mut reg, owner(1), true, proxy(0)).unwrap();
    let b = admit_op(&mut reg, owner(1), true, proxy(1)).unwrap();
    assert_eq!(admit_op(&mut reg, owner(2), true, proxy(2)), Err(Error::BackendBusy));
    assert_eq!(reg.len(), 2);
    assert_eq!(update(&mut reg, a, BackendOutcome::Success), Ok(()));
    assert_eq!(update(&mut reg, b, BackendOutcome::Success), Ok(()));
}

#[test]
fn busy_entry_is_never_offered_for_pruning() {
    let mut reg = Registry::new(2);
    let oldest = admit_op(&mut reg, owner(1), false, proxy(0)).unwrap();
    let younger = admit_op(&mut reg, owner(1), false, proxy(1)).unwrap();
    reg.mark_busy(oldest).unwrap();
    // The oldest candidate is busy, so the snapshot skips it.
    assert_eq!(reg.snapshot_prunable(), vec![younger]);
    // A forced admission under saturation evicts the younger, idle
    // entry, never the busy one.
    let forced = admit_op(&mut reg, owner(2), true, proxy(2)).unwrap();
    assert_eq!(reg.state_of(oldest), Some(OpState::ActiveBusy));
    assert_eq!(reg.state_of(younger), None);
    assert_eq!(reg.state_of(forced), Some(OpState::ActiveIdle));
}

#[test]
fn forced_entry_survives_many_admissions() {
    let mut reg = Registry::new(3);
    let keeper = admit_op(&mut reg, owner(9), true, proxy(0)).unwrap();
    for i in 0..50u64 {
        let _ = admit_op(&mut reg, owner(1), i % 3 == 0, proxy(i + 1));
    }
    assert_eq!(reg.state_of(keeper), Some(OpState::ActiveIdle));
    assert_eq!(update(&mut reg, keeper, BackendOutcome::Success), Ok(()));
    assert_eq!(finish(&mut reg, keeper, BackendOutcome::Success), Ok(()));
}

#[test]
fn snapshot_is_oldest_first_and_skips_forced() {
    let mut reg = Registry::new(4);
    let a = admit_op(&mut reg, owner(1), false, proxy(0)).unwrap();
    let f = admit_op(&mut reg, owner(1), true, proxy(1)).unwrap();
    let b = admit_op(&mut reg, owner(1), false, proxy(2)).unwrap();
    assert_eq!(reg.snapshot_prunable(), vec![a, b]);
    let _ = f;
}

#[test]
fn select_victim_picks_the_first_candidate() {
    assert_eq!(select_victim(&Vec::new()), None);
    assert_eq!(select_victim(&vec![5, 9, 11]), Some(5));
}

#[test]
fn reservation_is_counted_and_released() {
    let mut reg = Registry::new(1);
    assert_eq!(reg.try_reserve_slot(), SlotReservation::Reserved);
    assert_eq!(reg.reserved_count(), 1);
    // A reservation counts against capacity.
    assert_eq!(reg.try_reserve_slot(), SlotReservation::Full);
    reg.cancel_reservation();
    assert_eq!(reg.reserved_count(), 0);
    assert_eq!(reg.try_reserve_slot(), SlotReservation::Reserved);
    let id = reg.insert(owner(1), false, proxy(0));
    assert_eq!(id, 0);
    assert_eq!(reg.len(), 1);
    assert_eq!(reg.reserved_count(), 0);
}

#[test]
fn begin_admit_reports_the_eviction() {
    let mut reg = Registry::new(1);
    let a = admit_op(&mut reg, owner(1), false, proxy(0)).unwrap();
    assert_eq!(begin_admit(&mut reg, false), Err(Error::BackendBusy));
    assert_eq!(begin_admit(&mut reg, true), Ok(SlotGrant::Evicted { victim: a }));
    let id = reg.insert(owner(2), true, proxy(1));
    assert_eq!(reg.state_of(id), Some(OpState::ActiveIdle));
    assert_eq!(reg.state_of(a), None);
}

#[test]
fn second_concurrent_call_is_rejected() {
    let mut reg = Registry::new(1);
    let id = admit_op(&mut reg, owner(1), false, proxy(0)).unwrap();
    assert_eq!(reg.mark_busy(id), Ok(()));
    assert_eq!(reg.mark_busy(id), Err(Error::InvalidHandle));
    reg.mark_idle(id);
    assert_eq!(reg.mark_busy(id), Ok(()));
}

#[test]
fn end_update_completes_the_protocol() {
    let mut reg = Registry::new(1);
    let id = admit_op(&mut reg, owner(1), false, proxy(0)).unwrap();
    // Without the liveness check passed first, the second half is refused.
    assert_eq!(end_update(&mut reg, id, BackendOutcome::Success), Err(Error::InvalidHandle));
    reg.mark_busy(id).unwrap();
    assert_eq!(end_update(&mut reg, id, BackendOutcome::Success), Ok(()));
    assert_eq!(reg.state_of(id), Some(OpState::ActiveIdle));
    reg.mark_busy(id).unwrap();
    assert_eq!(
        end_update(&mut reg, id, BackendOutcome::Failure { terminal: true, code: 3 }),
        Err(Error::Backend { code: 3 })
    );
    assert_eq!(reg.state_of(id), None);
}

#[test]
fn transient_failure_leaves_the_entry_idle() {
    let mut reg = Registry::new(1);
    let id = admit_op(&mut reg, owner(1), false, proxy(0)).unwrap();
    assert_eq!(
        update(&mut reg, id, BackendOutcome::Failure { terminal: false, code: 7 }),
        Err(Error::Backend { code: 7 })
    );
    assert_eq!(reg.state_of(id), Some(OpState::ActiveIdle));
    assert_eq!(update(&mut reg, id, BackendOutcome::Success), Ok(()));
}

#[test]
fn terminal_failure_finalizes_the_entry() {
    let mut reg = Registry::new(1);
    let id = admit_op(&mut reg, owner(1), false, proxy(0)).unwrap();
    assert_eq!(
        update(&mut reg, id, BackendOutcome::Failure { terminal: true, code: 9 }),
        Err(Error::Backend { code: 9 })
    );
    assert_eq!(reg.state_of(id), None);
    assert_eq!(update(&mut reg, id, BackendOutcome::Success), Err(Error::InvalidHandle));
}

#[test]
fn finish_finalizes_whatever_the_backend_reported() {
    let mut reg = Registry::new(2);
    let a = admit_op(&mut reg, owner(1), false, proxy(0)).unwrap();
    let b = admit_op(&mut reg, owner(1), false, proxy(1)).unwrap();
    assert_eq!(finish(&mut reg, a, BackendOutcome::Success), Ok(()));
    assert_eq!(
        finish(&mut reg, b, BackendOutcome::Failure { terminal: false, code: 4 }),
        Err(Error::Backend { code: 4 })
    );
    assert_eq!(reg.len(), 0);
    assert_eq!(finish(&mut reg, a, BackendOutcome::Success), Err(Error::InvalidHandle));
}

#[test]
fn abort_frees_the_slot() {
    let mut reg = Registry::new(1);
    let id = admit_op(&mut reg, owner(1), false, proxy(0)).unwrap();
    assert_eq!(abort(&mut reg, id), Ok(()));
    assert_eq!(abort(&mut reg, id), Err(Error::InvalidHandle));
    assert_eq!(admit_op(&mut reg, owner(1), false, proxy(1)), Ok(1));
}

#[test]
fn owner_death_finalizes_even_a_busy_entry() {
    let mut reg = Registry::new(1);
    let id = admit_op(&mut reg, owner(1), false, proxy(0)).unwrap();
    reg.mark_busy(id).unwrap();
    finalize_on_owner_gone(&mut reg, id);
    assert_eq!(reg.state_of(id), None);
    assert_eq!(update(&mut reg, id, BackendOutcome::Success), Err(Error::InvalidHandle));
    // Idempotent against an identifier that is already gone.
    finalize_on_owner_gone(&mut reg, id);
    assert_eq!(reg.len(), 0);
}

#[test]
fn zero_capacity_admits_nobody() {
    let mut reg = Registry::new(0);
    assert_eq!(admit_op(&mut reg, owner(1), false, proxy(0)), Err(Error::BackendBusy));
    assert_eq!(admit_op(&mut reg, owner(1), true, proxy(1)), Err(Error::BackendBusy));
    assert_eq!(reg.len(), 0);
}

#[test]
fn identifiers_are_never_reused() {
    let mut reg = Registry::new(1);
    let a = admit_op(&mut reg, owner(1), false, proxy(0)).unwrap();
    assert_eq!(finish(&mut reg, a, BackendOutcome::Success), Ok(()));
    let b = admit_op(&mut reg, owner(1), false, proxy(1)).unwrap();
    assert_ne!(a, b);
    let c = admit_op(&mut reg, owner(2), true, proxy(2)).unwrap();
    assert_ne!(b, c);
    assert_ne!(a, c);
}

#[test]
fn mark_idle_on_missing_or_idle_entry_changes_nothing() {
    let mut reg = Registry::new(1);
    reg.mark_idle(42);
    let id = admit_op(&mut reg, owner(1), false, proxy(0)).unwrap();
    reg.mark_idle(id);
    assert_eq!(reg.state_of(id), Some(OpState::ActiveIdle));
    assert_eq!(reg.capacity(), 1);
}
