use crate::cache::{outcome_view, Cache};
use crate::error::CoreError;
use crate::snapshot::Snapshot;
use std::sync::Arc;
use vstd::prelude::*;

verus! {

/// parking_lot's raw reader-writer lock.
#[verifier::external_type_specification]
#[verifier::external_body]
pub struct ExRawRwLock(parking_lot::RawRwLock);

/// The reader-writer lock of lock_api, which parking_lot hands out as
/// `parking_lot::RwLock`.
#[verifier::external_type_specification]
#[verifier::external_body]
#[verifier::reject_recursive_types(R)]
#[verifier::reject_recursive_types(T)]
pub struct ExRwLock<R, T: ?Sized>(parking_lot::lock_api::RwLock<R, T>);

/// Calls `RwLock::new`: a lock around `cache`.
///
/// Nothing is claimed of what the lock holds: other threads may write to
/// it as soon as they can reach it.
#[verifier::external_body]
fn new_slot(cache: Arc<Cache>) -> (slot: parking_lot::RwLock<Arc<Cache>>) {
    parking_lot::RwLock::new(cache)
}

/// Calls `RwLock::read`, takes a handle to what the lock holds, and gives
/// the lock up again.
///
/// Nothing is claimed of the cache that comes back: it is whatever was
/// written last, by any thread.
#[verifier::external_body]
fn read_slot(slot: &parking_lot::RwLock<Arc<Cache>>) -> (cache: Arc<Cache>) {
    Arc::clone(&slot.read())
}

/// Calls `RwLock::write`, puts `cache` in place of what the lock holds, and
/// gives the lock up again.
#[verifier::external_body]
fn write_slot(slot: &parking_lot::RwLock<Arc<Cache>>, cache: Arc<Cache>) {
    *slot.write() = cache;
}

/// A cache behind a reader-writer lock, for requests that run side by side.
///
/// The lock is held only while the slot is read or written, never while a
/// fetch is under way. Two requests that both find the slot stale may both
/// fetch; the one that writes last is the one that later lookups see.
pub struct SharedCache {
    slot: parking_lot::RwLock<Arc<Cache>>,
}

impl SharedCache {
    /// A shared cache that holds nothing yet.
    pub fn new() -> (shared: SharedCache) {
        SharedCache { slot: new_slot(Arc::new(Cache::new())) }
    }

    /// The fast path of a request at `now`: what [`Cache::lookup`] serves
    /// from the slot as it is at the moment of the call. `None` says that a
    /// fetch is due.
    pub fn lookup(&self, now: i64) -> (served: Option<Snapshot>)
        ensures
            served matches Some(s) ==> s@.wf(),
    {
        let cache = read_slot(&self.slot);
        cache.lookup(now)
    }

    /// The end of a request that had to fetch. A snapshot is written to the
    /// slot with the time `now` and handed back; an error is handed back
    /// unchanged, and the slot is not touched.
    pub fn complete(&self, outcome: Result<Snapshot, CoreError>, now: i64) -> (result: Result<
        Snapshot,
        CoreError,
    >)
        ensures
            outcome_view(result) == outcome_view(outcome),
    {
        match outcome {
            Ok(snapshot) => {
                write_slot(&self.slot, Arc::new(Cache::populated(snapshot.clone(), now)));
                Ok(snapshot)
            },
            Err(e) => Err(e),
        }
    }

    /// Empties the slot. Nothing is fetched.
    pub fn invalidate(&self) {
        write_slot(&self.slot, Arc::new(Cache::new()));
    }
}

} // verus!
