use crate::error::CoreError;
use crate::snapshot::{Snapshot, SnapshotView};
use vstd::prelude::*;

verus! {

/// Seconds for which a stored snapshot is served without a new fetch.
pub const CACHE_TTL_SECS: u64 = 300;

/// [`CACHE_TTL_SECS`] in nanoseconds.
pub const CACHE_TTL_NANOS: i64 = 300_000_000_000;

/// A snapshot that was stored at `created_at` is still fresh at `now`: the
/// clock has not gone back behind `created_at`, and less than the time to
/// live has passed since. Both are nanoseconds after the Unix epoch.
pub open spec fn is_fresh(created_at: i64, now: i64) -> bool {
    created_at <= now && now - created_at < CACHE_TTL_NANOS
}

/// Computes [`is_fresh`].
pub fn fresh(created_at: i64, now: i64) -> (b: bool)
    ensures
        b == is_fresh(created_at, now),
{
    created_at <= now && (now as i128) - (created_at as i128) < (CACHE_TTL_NANOS as i128)
}

struct Entry {
    snapshot: Snapshot,
    created_at: i64,
}

/// The one slot that holds the latest snapshot with the time at which it
/// was stored, or nothing.
pub struct Cache {
    slot: Option<Entry>,
}

/// What a cache holds.
pub enum CacheView {
    /// Nothing was stored yet, or what was stored has been invalidated.
    Empty,
    /// A snapshot, and the time at which it was stored.
    Populated { snapshot: SnapshotView, created_at: i64 },
}

impl CacheView {
    /// What a lookup at `now` serves: the stored snapshot while it is
    /// fresh, and nothing otherwise, which asks for a fetch.
    pub open spec fn served(self, now: i64) -> Option<SnapshotView> {
        match self {
            CacheView::Populated { snapshot, created_at } => if is_fresh(created_at, now) {
                Some(snapshot)
            } else {
                None
            },
            CacheView::Empty => None,
        }
    }

    /// The cache after an invalidation: empty, whatever it held.
    pub open spec fn invalidated(self) -> CacheView {
        CacheView::Empty
    }

    /// The cache after a fetch at `now` has ended with `outcome`: the new
    /// snapshot where it succeeded, the cache as it was where it failed.
    pub open spec fn completed(self, outcome: Result<SnapshotView, CoreError>, now: i64) -> CacheView {
        match outcome {
            Ok(snapshot) => CacheView::Populated { snapshot, created_at: now },
            Err(_) => self,
        }
    }
}

/// The value of the snapshot that an outcome holds, or its error.
pub open spec fn outcome_view(outcome: Result<Snapshot, CoreError>) -> Result<
    SnapshotView,
    CoreError,
> {
    match outcome {
        Ok(s) => Ok(s@),
        Err(e) => Err(e),
    }
}

/// The value of a snapshot that may be there.
pub open spec fn served_view(served: Option<Snapshot>) -> Option<SnapshotView> {
    match served {
        Some(s) => Some(s@),
        None => None,
    }
}

impl View for Cache {
    type V = CacheView;

    closed spec fn view(&self) -> CacheView {
        match self.slot {
            Some(entry) => CacheView::Populated {
                snapshot: entry.snapshot@,
                created_at: entry.created_at,
            },
            None => CacheView::Empty,
        }
    }
}

impl Cache {
    /// An empty cache.
    pub fn new() -> (cache: Cache)
        ensures
            cache@ is Empty,
    {
        Cache { slot: None }
    }

    /// A cache that holds `snapshot`, stored at `now`.
    pub fn populated(snapshot: Snapshot, now: i64) -> (cache: Cache)
        ensures
            cache@ == (CacheView::Populated { snapshot: snapshot@, created_at: now }),
    {
        Cache { slot: Some(Entry { snapshot, created_at: now }) }
    }

    /// The cache holds a snapshot, fresh or not.
    pub fn is_populated(&self) -> (b: bool)
        ensures
            b == (self@ is Populated),
    {
        self.slot.is_some()
    }

    /// The fast path of a request at `now`: a copy of the stored snapshot
    /// while it is fresh. `None` says that a fetch is due; the cache itself
    /// never fetches and is not changed.
    pub fn lookup(&self, now: i64) -> (served: Option<Snapshot>)
        ensures
            served_view(served) == self@.served(now),
            served matches Some(s) ==> s@.wf(),
    {
        match &self.slot {
            Some(entry) => if fresh(entry.created_at, now) {
                Some(entry.snapshot.clone())
            } else {
                None
            },
            None => None,
        }
    }

    /// Puts a snapshot in the slot, in place of what was there.
    pub fn store(&mut self, snapshot: Snapshot, now: i64)
        ensures
            final(self)@ == (CacheView::Populated { snapshot: snapshot@, created_at: now }),
    {
        self.slot = Some(Entry { snapshot, created_at: now });
    }

    /// The end of a request that had to fetch. A snapshot is stored with
    /// the time `now` and handed back; an error leaves the cache as it was
    /// and is handed back unchanged.
    pub fn complete(&mut self, outcome: Result<Snapshot, CoreError>, now: i64) -> (result: Result<
        Snapshot,
        CoreError,
    >)
        ensures
            final(self)@ == old(self)@.completed(outcome_view(outcome), now),
            outcome_view(result) == outcome_view(outcome),
    {
        match outcome {
            Ok(snapshot) => {
                self.store(snapshot.clone(), now);
                Ok(snapshot)
            },
            Err(e) => Err(e),
        }
    }

    /// A whole request at `now`, for a caller that fetches on the spot.
    /// While the stored snapshot is fresh it is served and `fetch` is not
    /// called. Otherwise `fetch` is called once, and the request ends as
    /// [`Cache::complete`] ends it with what `fetch` gave.
    pub fn get<G: FnOnce() -> Result<Snapshot, CoreError>>(&mut self, now: i64, fetch: G) -> (result:
        Result<Snapshot, CoreError>)
        requires
            call_requires(fetch, ()),
        ensures
            match old(self)@.served(now) {
                Some(snapshot) => final(self)@ == old(self)@ && outcome_view(result) == Ok::<
                    SnapshotView,
                    CoreError,
                >(snapshot),
                None => exists|outcome: Result<Snapshot, CoreError>| #[trigger]
                    call_ensures(fetch, (), outcome) && final(self)@ == old(self)@.completed(
                        outcome_view(outcome),
                        now,
                    ) && outcome_view(result) == outcome_view(outcome),
            },
    {
        match self.lookup(now) {
            Some(snapshot) => Ok(snapshot),
            None => {
                let outcome = fetch();
                self.complete(outcome, now)
            },
        }
    }

    /// Empties the slot. Nothing is fetched: the next lookup will ask for
    /// that.
    pub fn invalidate(&mut self)
        ensures
            final(self)@ == old(self)@.invalidated(),
    {
        self.slot = None;
    }
}

/// While a stored snapshot is fresh, a lookup serves it unchanged, its
/// timestamp included. From the moment the time to live has passed, and
/// whenever the clock has gone back behind the time of storing, a lookup
/// serves nothing and so asks for a fetch.
pub proof fn lemma_served_within_ttl(
    before: CacheView,
    snapshot: SnapshotView,
    stored_at: i64,
    now: i64,
)
    ensures
        ({
            let cache = before.completed(Ok(snapshot), stored_at);
            &&& stored_at <= now < stored_at + CACHE_TTL_NANOS ==> cache.served(now) == Some(
                snapshot,
            ) && cache.served(now)->0.timestamp == snapshot.timestamp
            &&& (now >= stored_at + CACHE_TTL_NANOS || now < stored_at) ==> cache.served(now)
                is None
        }),
{
}

/// A failed fetch changes nothing: what the cache served before, it serves
/// after, at any time.
pub proof fn lemma_failure_keeps_cache(before: CacheView, error: CoreError, failed_at: i64, now: i64)
    ensures
        before.completed(Err(error), failed_at) == before,
        before.completed(Err(error), failed_at).served(now) == before.served(now),
{
}

/// After an invalidation the next lookup serves nothing and so asks for a
/// fetch, however fresh the snapshot was that the cache held.
pub proof fn lemma_invalidated_serves_nothing(before: CacheView, now: i64)
    ensures
        before.invalidated().served(now) is None,
{
}

/// A new cache serves nothing.
pub proof fn lemma_empty_serves_nothing(now: i64)
    ensures
        CacheView::Empty.served(now) is None,
{
}

/// The time to live in nanoseconds is the time to live in seconds.
pub proof fn lemma_ttl_units()
    ensures
        CACHE_TTL_NANOS == CACHE_TTL_SECS * 1_000_000_000,
{
}

} // verus!
