//! The shared snapshot store: one [`SnapshotStore`] behind a mutex.
//!
//! The sampler is the only writer; any number of readers take copies. Every
//! access is a short critical section that replaces or copies the whole
//! cell, and the lock is never held across sampling work.
//!
//! What the lock hands out depends on the other holders of the store, so the
//! functions that take the lock state little. What each critical section
//! does with what the lock gave is stated by [`publish_under`] and
//! [`read_outcome`]; what follows for reads that interleave with publishes
//! is stated over sequences of critical sections, below.

use crate::snapshot::{division_guarded, SystemInfo};
use crate::store::{publish_one, read_of, MonitorError, SnapshotStore};
use std::sync::Arc;
use std::sync::Mutex;
use std::sync::MutexGuard;
use vstd::prelude::*;

verus! {

/// One critical section on the shared cell. The lock lets one run at a
/// time, so whatever the sampler and the readers do at once amounts to some
/// sequence of these.
pub ghost enum StoreOp {
    /// The sampler replaces the content with `info`.
    Publish { info: SystemInfo },
    /// A reader copies the content.
    Read,
}

/// The state of a cell after the critical section `op`.
pub open spec fn state_after_op(state: Option<SystemInfo>, op: StoreOp) -> Option<SystemInfo> {
    match op {
        StoreOp::Publish { info } => publish_one(state, info),
        StoreOp::Read => state,
    }
}

/// The state of a new cell after the critical sections `ops`, in order.
pub open spec fn state_after(ops: Seq<StoreOp>) -> Option<SystemInfo>
    decreases ops.len(),
{
    if ops.len() == 0 {
        None
    } else {
        state_after_op(state_after(ops.drop_last()), ops.last())
    }
}

/// What a read that runs as the `index`-th of `ops` returns.
pub open spec fn read_at(ops: Seq<StoreOp>, index: int) -> Result<SystemInfo, MonitorError> {
    read_of(state_after(ops.subrange(0, index)))
}

/// Whether none of the first `index` of `ops` is a publish.
pub open spec fn no_publish_before(ops: Seq<StoreOp>, index: int) -> bool {
    forall|k: int| 0 <= k < index ==> #[trigger] ops[k] is Read
}

/// Whether the latest publish among the first `index` of `ops` is one of
/// `info`.
pub open spec fn latest_publish_before(ops: Seq<StoreOp>, index: int, info: SystemInfo) -> bool {
    exists|j: int|
        0 <= j < index && #[trigger] ops[j] == (StoreOp::Publish { info })
            && forall|k: int| j < k < index ==> #[trigger] ops[k] is Read
}

/// The content of a cell is what the latest publish put there, and nothing
/// when there was none.
proof fn lemma_state_after(ops: Seq<StoreOp>)
    ensures
        match state_after(ops) {
            Some(info) => latest_publish_before(ops, ops.len() as int, info),
            None => no_publish_before(ops, ops.len() as int),
        },
    decreases ops.len(),
{
    if ops.len() > 0 {
        let earlier = ops.drop_last();
        lemma_state_after(earlier);
        assert forall|k: int| 0 <= k < earlier.len() implies earlier[k] == ops[k] by {}
        match (ops.last(), state_after(earlier)) {
            (StoreOp::Publish { info }, _) => {
                assert(ops[ops.len() - 1] == (StoreOp::Publish { info }));
            },
            (StoreOp::Read, Some(info)) => {
                let j = choose|j: int|
                    0 <= j < earlier.len() && #[trigger] earlier[j] == (StoreOp::Publish { info })
                        && forall|k: int| j < k < earlier.len() ==> #[trigger] earlier[k] is Read;
                assert(ops[j] == (StoreOp::Publish { info }));
                assert forall|k: int| j < k < ops.len() implies #[trigger] ops[k] is Read by {
                    if k < earlier.len() {
                        assert(earlier[k] is Read);
                    }
                }
            },
            (StoreOp::Read, None) => {
                assert forall|k: int| 0 <= k < ops.len() implies #[trigger] ops[k] is Read by {
                    if k < earlier.len() {
                        assert(earlier[k] is Read);
                    }
                }
            },
        }
    }
}

/// However the publishes of the sampler and the reads of any number of
/// readers interleave, a read never sees a torn snapshot: it returns the
/// snapshot of the latest publish before it, whole, or `NotInitialized`
/// when no publish came before it.
pub proof fn law_interleaved_reads_are_whole(ops: Seq<StoreOp>, index: int)
    requires
        0 <= index < ops.len(),
        ops[index] is Read,
    ensures
        match read_at(ops, index) {
            Ok(info) => latest_publish_before(ops, index, info),
            Err(error) => error == MonitorError::NotInitialized && no_publish_before(ops, index),
        },
{
    let before = ops.subrange(0, index);
    lemma_state_after(before);
    assert forall|k: int| 0 <= k < before.len() implies before[k] == ops[k] by {}
    match state_after(before) {
        Some(info) => {
            let j = choose|j: int|
                0 <= j < before.len() && #[trigger] before[j] == (StoreOp::Publish { info })
                    && forall|k: int| j < k < before.len() ==> #[trigger] before[k] is Read;
            assert(ops[j] == (StoreOp::Publish { info }));
            assert forall|k: int| j < k < index implies #[trigger] ops[k] is Read by {
                assert(before[k] is Read);
            }
        },
        None => {
            assert forall|k: int| 0 <= k < index implies #[trigger] ops[k] is Read by {
                assert(before[k] is Read);
            }
        },
    }
}

/// `std::sync::Mutex`, the lock of the shared store.
#[verifier::external_type_specification]
#[verifier::external_body]
#[verifier::reject_recursive_types(T)]
pub struct ExMutex<T: ?Sized>(Mutex<T>);

/// `std::sync::MutexGuard`: holding it is holding the lock.
#[verifier::external_type_specification]
#[verifier::external_body]
#[verifier::reject_recursive_types(T)]
pub struct ExMutexGuard<'a, T: ?Sized + 'a>(MutexGuard<'a, T>);

/// `Mutex::new`: a new, unlocked mutex made around `store`.
#[verifier::external_body]
fn new_cell(store: SnapshotStore) -> (cell: Mutex<SnapshotStore>)
    ensures
        made_around(cell) == store,
{
    Mutex::new(store)
}

/// `Mutex::lock`: waits for the lock and returns its guard, or the text of
/// the poison error. Nothing is claimed. No caller locks while it holds one.
#[verifier::external_body]
fn lock_cell<'a>(cell: &'a Mutex<SnapshotStore>) -> Result<MutexGuard<'a, SnapshotStore>, String> {
    match cell.lock() {
        Ok(guard) => Ok(guard),
        Err(poisoned) => Err(poisoned.to_string()),
    }
}

/// `Deref::deref` of the guard: a copy of the cell that the guard holds.
#[verifier::external_body]
fn read_guarded(guard: &MutexGuard<'_, SnapshotStore>) -> (cell: SnapshotStore)
    ensures
        cell == guarded_cell(*guard),
{
    **guard
}

/// `DerefMut::deref_mut` of the guard: the guard then holds `store`.
#[verifier::external_body]
fn write_guarded(guard: &mut MutexGuard<'_, SnapshotStore>, store: SnapshotStore)
    ensures
        guarded_cell(*final(guard)) == store,
{
    **guard = store;
}

/// What a read of the shared store answers, given what taking the lock
/// gave: the cell, or the lock's report of its failure.
pub fn read_outcome(locked: Result<SnapshotStore, String>) -> (r: Result<SystemInfo, MonitorError>)
    ensures
        match locked {
            Ok(store) => r == read_of(store@),
            Err(detail) => r matches Err(MonitorError::LockUnavailable { detail: d }) && d@
                == detail@,
        },
        r is Ok <==> (locked matches Ok(store) && store@ is Some),
        r matches Ok(info) ==> division_guarded(info@),
{
    match locked {
        Ok(store) => store.read(),
        Err(detail) => Err(MonitorError::LockUnavailable { detail }),
    }
}

/// A handle to the one snapshot store that the sampler and the readers
/// share. Clones of a handle refer to the same store.
#[derive(Clone)]
pub struct SharedStore {
    cell: Arc<Mutex<SnapshotStore>>,
}

impl SharedStore {
    /// A new store, made around an empty cell.
    pub fn new() -> (shared: SharedStore)
        ensures
            shared.initial_cell()@ is None,
    {
        SharedStore { cell: Arc::new(new_cell(SnapshotStore::new())) }
    }

    /// Takes the lock and replaces the content of the store with `info`;
    /// skips the publish when the lock cannot be taken. Returns whether it
    /// stored. [`publish_under`] states it for each thing the lock may give.
    pub fn publish(&self, info: SystemInfo) -> (stored: bool) {
        let mut locked = lock_cell(&self.cell);
        publish_under(&mut locked, info)
    }
}

impl SharedStore {
    /// The cell that this store was made around.
    pub closed spec fn initial_cell(&self) -> SnapshotStore {
        made_around(*self.cell)
    }
}

/// Returns a copy of the most recent snapshot in `store`, `NotInitialized`
/// before the first publish, or `LockUnavailable` when the lock of the
/// store could not be taken. The call waits for the lock only, never for
/// sampling work, and changes nothing.
///
/// Which of the three comes back depends on what other holders of the
/// store have done; [`read_outcome`] states it for each case.
pub fn get_system_info(store: &SharedStore) -> (r: Result<SystemInfo, MonitorError>)
    ensures
        r matches Ok(info) ==> division_guarded(info@),
{
    let locked = match lock_cell(&store.cell) {
        Ok(guard) => Ok(read_guarded(&guard)),
        Err(detail) => Err(detail),
    };
    read_outcome(locked)
}

/// The cell that the mutex `cell` was made around. What the mutex holds
/// later is not a property of the mutex alone and has no name.
pub uninterp spec fn made_around(cell: Mutex<SnapshotStore>) -> SnapshotStore;

/// The cell that `guard` holds: what its holder reads, and what the mutex
/// holds once the guard is dropped. While a guard lives no one but its
/// holder can change this.
pub uninterp spec fn guarded_cell(guard: MutexGuard<'_, SnapshotStore>) -> SnapshotStore;

/// The critical section of a publish, given what taking the lock gave. With
/// the guard, the cell that it holds is replaced by one that holds `info`
/// and nothing else; with the lock's report of its failure, nothing is
/// stored. Returns whether `info` was stored.
pub fn publish_under(locked: &mut Result<MutexGuard<'_, SnapshotStore>, String>, info: SystemInfo) -> (stored: bool)
    ensures
        stored <==> *old(locked) is Ok,
        match (*old(locked), *final(locked)) {
            (Ok(before), Ok(after)) => guarded_cell(after)@ == state_after_op(
                guarded_cell(before)@,
                StoreOp::Publish { info },
            ),
            (Err(before), Err(after)) => after == before,
            _ => false,
        },
{
    match locked {
        Ok(guard) => {
            let mut store = read_guarded(guard);
            store.publish(info);
            write_guarded(guard, store);
            true
        },
        Err(_) => false,
    }
}

} // verus!
