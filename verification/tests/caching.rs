use flare_validators::aggregator::{aggregate, normalize_all, refresh, PAGE_LIMIT, PAGE_OFFSET};
use flare_validators::cache::{fresh, Cache, CACHE_TTL_NANOS, CACHE_TTL_SECS};
use flare_validators::error::CoreError;
use flare_validators::rate::Rate;
use flare_validators::raw::{FlareEntity, FlareEntityMinConditions, FlareRewards};
use flare_validators::shared::SharedCache;
use flare_validators::snapshot::Snapshot;

const SECOND: i64 = 1_000_000_000;
const T0: i64 = 1_662_921_288_000_000_000;

fn rate(x: f64) -> Rate {
    Rate::from_bits(x.to_bits())
}

fn plus(a: Rate, b: Rate) -> Rate {
    rate(f64::from_bits(a.to_bits()) + f64::from_bits(b.to_bits()))
}

fn record(id: u32, passes: u8, wnat: f64) -> FlareEntity {
    FlareEntity {
        id,
        display_name: Some(format!("entity-{}", id)),
        denormalizedentity: None,
        entityminimalconditions: Some(FlareEntityMinConditions {
            ftso_scaling: Some(true),
            ftso_fast_updates: Some(true),
            fdc: Some(true),
            staking: Some(true),
            passes_held: Some(passes),
            eligible_for_reward: Some(true),
        }),
        rewards: Some(FlareRewards {
            reward_rate_wnat: Some(rate(wnat)),
            reward_rate_mirror: Some(rate(0.02)),
            reward_rate_pure: None,
        }),
        providersuccessrate: None,
        denormalizedsigningpolicy: None,
    }
}

fn records() -> Vec<FlareEntity> {
    vec![record(1, 3, 0.03), record(2, 2, 0.50), record(3, 3, 0.07), record(4, 3, 0.03)]
}

fn snapshot(stamp: &str) -> Snapshot {
    Snapshot::assemble(vec![], stamp.to_string())
}

fn ids(s: &Snapshot) -> (Vec<u32>, Vec<u32>) {
    (
        s.eligible_nodes().iter().map(|v| v.id).collect(),
        s.ineligible_nodes().iter().map(|v| v.id).collect(),
    )
}

#[test]
fn ttl_is_five_minutes() {
    assert_eq!(CACHE_TTL_SECS, 300);
    assert_eq!(CACHE_TTL_NANOS, 300 * SECOND);
}

#[test]
fn one_page_of_two_hundred() {
    assert_eq!(PAGE_LIMIT, 200);
    assert_eq!(PAGE_OFFSET, 0);
}

#[test]
fn fresh_until_the_ttl_has_passed() {
    assert!(fresh(T0, T0));
    assert!(fresh(T0, T0 + 1));
    assert!(fresh(T0, T0 + 299 * SECOND));
    assert!(fresh(T0, T0 + 300 * SECOND - 1));
    assert!(!fresh(T0, T0 + 300 * SECOND));
    assert!(!fresh(T0, T0 + 301 * SECOND));
    assert!(!fresh(T0, i64::MAX));
}

#[test]
fn stale_when_the_clock_went_back() {
    assert!(!fresh(T0, T0 - 1));
    assert!(!fresh(T0, i64::MIN));
    assert!(!fresh(i64::MAX, i64::MIN));
    assert!(!fresh(i64::MIN, i64::MAX));
    assert!(fresh(i64::MIN, i64::MIN + 5));
    assert!(fresh(-5, 5));
}

#[test]
fn new_cache_serves_nothing() {
    let cache = Cache::new();
    assert!(!cache.is_populated());
    assert!(cache.lookup(T0).is_none());
}

#[test]
fn lookup_within_ttl_returns_the_same_timestamp() {
    let mut cache = Cache::new();
    let made = cache.complete(Ok(snapshot("first")), T0).ok().unwrap();
    assert_eq!(made.timestamp(), "first");
    assert!(cache.is_populated());
    for later in [0, 1, SECOND, 299 * SECOND, 300 * SECOND - 1] {
        let served = cache.lookup(T0 + later).unwrap();
        assert_eq!(served.timestamp(), "first");
    }
}

#[test]
fn lookup_after_ttl_asks_for_a_fetch() {
    let mut cache = Cache::new();
    cache.store(snapshot("first"), T0);
    assert!(cache.lookup(T0 + 300 * SECOND).is_none());
    assert!(cache.lookup(T0 + 3600 * SECOND).is_none());
    assert!(cache.lookup(T0 - 1).is_none());
    assert!(cache.is_populated());
    assert!(cache.lookup(T0 + 10).is_some());
}

#[test]
fn ttl_runs_from_storing_not_from_last_access() {
    let mut cache = Cache::new();
    cache.store(snapshot("first"), T0);
    assert!(cache.lookup(T0 + 200 * SECOND).is_some());
    assert!(cache.lookup(T0 + 299 * SECOND).is_some());
    assert!(cache.lookup(T0 + 400 * SECOND).is_none());
}

#[test]
fn new_snapshot_replaces_the_old_one() {
    let mut cache = Cache::new();
    cache.store(snapshot("first"), T0);
    let made = cache.complete(Ok(snapshot("second")), T0 + 400 * SECOND).ok().unwrap();
    assert_eq!(made.timestamp(), "second");
    assert_eq!(cache.lookup(T0 + 400 * SECOND).unwrap().timestamp(), "second");
    assert_eq!(cache.lookup(T0 + 699 * SECOND).unwrap().timestamp(), "second");
    assert!(cache.lookup(T0 + 700 * SECOND).is_none());
}

#[test]
fn failed_fetch_leaves_the_cache_as_it_was() {
    let mut cache = Cache::new();
    cache.store(snapshot("first"), T0);
    let failed = cache.complete(Err(CoreError::UpstreamFetch), T0 + 400 * SECOND);
    assert!(matches!(failed, Err(CoreError::UpstreamFetch)));
    assert!(cache.is_populated());
    assert_eq!(cache.lookup(T0 + 100 * SECOND).unwrap().timestamp(), "first");
    assert!(cache.lookup(T0 + 400 * SECOND).is_none());
    let mut empty = Cache::new();
    let decode = empty.complete(Err(CoreError::UpstreamDecode), T0);
    assert!(matches!(decode, Err(CoreError::UpstreamDecode)));
    assert!(!empty.is_populated());
    assert!(empty.lookup(T0).is_none());
}

#[test]
fn invalidate_forces_a_fetch_whatever_the_age() {
    let mut cache = Cache::new();
    cache.store(snapshot("first"), T0);
    assert!(cache.lookup(T0 + 1).is_some());
    cache.invalidate();
    assert!(!cache.is_populated());
    assert!(cache.lookup(T0).is_none());
    assert!(cache.lookup(T0 + 1).is_none());
    cache.invalidate();
    assert!(!cache.is_populated());
}

#[test]
fn populated_cache_serves_its_snapshot() {
    let cache = Cache::populated(snapshot("kept"), T0);
    assert!(cache.is_populated());
    assert_eq!(cache.lookup(T0 + 5).unwrap().timestamp(), "kept");
    assert!(cache.lookup(T0 + 300 * SECOND).is_none());
}

#[test]
fn normalize_all_keeps_order_and_length() {
    let all = normalize_all(&records(), &plus);
    assert_eq!(all.iter().map(|v| v.id).collect::<Vec<u32>>(), vec![1, 2, 3, 4]);
    assert_eq!(all[1].name, "entity-2");
    assert_eq!(f64::from_bits(all[2].reward_rates.unwrap().combined.to_bits()), 0.07 + 0.02 + 0.0);
    assert!(normalize_all(&vec![], &plus).is_empty());
}

#[test]
fn aggregate_classifies_ranks_and_stamps() {
    let s = aggregate(&records(), &plus, T0);
    assert_eq!(s.total_validators(), 4);
    assert_eq!(s.eligible_count(), 3);
    assert_eq!(s.ineligible_count(), 1);
    assert_eq!(ids(&s), (vec![3, 1, 4], vec![2]));
    assert_eq!(s.timestamp(), "2022-09-11T18:34:48+00:00");
}

#[test]
fn timestamp_is_rfc3339_in_utc() {
    assert_eq!(aggregate(&vec![], &plus, 0).timestamp(), "1970-01-01T00:00:00+00:00");
    assert_eq!(
        aggregate(&vec![], &plus, 1_700_000_000_123_456_789).timestamp(),
        "2023-11-14T22:13:20.123456789+00:00"
    );
    assert_eq!(
        aggregate(&vec![], &plus, 1_700_000_000_123_000_000).timestamp(),
        "2023-11-14T22:13:20.123+00:00"
    );
    assert_eq!(
        aggregate(&vec![], &plus, -2_208_936_075_000_000_000).timestamp(),
        "1900-01-01T14:38:45+00:00"
    );
    assert_eq!(aggregate(&vec![], &plus, i64::MAX).timestamp(), "2262-04-11T23:47:16.854775807+00:00");
    assert_eq!(aggregate(&vec![], &plus, i64::MIN).timestamp(), "1677-09-21T00:12:43.145224192+00:00");
}

#[test]
fn refresh_passes_errors_on_unchanged() {
    assert!(matches!(refresh(Err(CoreError::UpstreamFetch), &plus, T0), Err(CoreError::UpstreamFetch)));
    assert!(matches!(refresh(Err(CoreError::UpstreamDecode), &plus, T0), Err(CoreError::UpstreamDecode)));
    let made = refresh(Ok(records()), &plus, T0).ok().unwrap();
    assert_eq!(ids(&made), (vec![3, 1, 4], vec![2]));
    assert_eq!(made.timestamp(), "2022-09-11T18:34:48+00:00");
}

#[test]
fn shared_cache_serves_what_was_completed() {
    let shared = SharedCache::new();
    assert!(shared.lookup(T0).is_none());
    let made = shared.complete(refresh(Ok(records()), &plus, T0), T0).ok().unwrap();
    assert_eq!(made.total_validators(), 4);
    let served = shared.lookup(T0 + 299 * SECOND).unwrap();
    assert_eq!(served.timestamp(), "2022-09-11T18:34:48+00:00");
    assert_eq!(ids(&served), (vec![3, 1, 4], vec![2]));
    assert!(shared.lookup(T0 + 300 * SECOND).is_none());
}

#[test]
fn shared_cache_keeps_its_snapshot_when_a_fetch_fails() {
    let shared = SharedCache::new();
    let _ = shared.complete(Ok(snapshot("first")), T0);
    let failed = shared.complete(refresh(Err(CoreError::UpstreamFetch), &plus, T0 + 5), T0 + 5);
    assert!(matches!(failed, Err(CoreError::UpstreamFetch)));
    assert_eq!(shared.lookup(T0 + 10).unwrap().timestamp(), "first");
}

#[test]
fn shared_cache_invalidate_then_lookup_misses() {
    let shared = SharedCache::new();
    let _ = shared.complete(Ok(snapshot("first")), T0);
    assert!(shared.lookup(T0 + 1).is_some());
    shared.invalidate();
    assert!(shared.lookup(T0 + 1).is_none());
    let _ = shared.complete(Ok(snapshot("second")), T0 + 2);
    assert_eq!(shared.lookup(T0 + 3).unwrap().timestamp(), "second");
}

fn shareable<T: Send + Sync>(_: &T) -> bool {
    true
}

#[test]
fn shared_cache_can_be_shared_between_requests() {
    let shared = std::sync::Arc::new(SharedCache::new());
    assert!(shareable(&shared));
    let other = std::sync::Arc::clone(&shared);
    let _ = other.complete(Ok(snapshot("written elsewhere")), T0);
    assert_eq!(shared.lookup(T0 + 10).unwrap().timestamp(), "written elsewhere");
}

#[test]
fn get_fetches_only_when_nothing_fresh_is_stored() {
    let calls = std::cell::Cell::new(0u32);
    let mut cache = Cache::new();
    let first = cache.get(T0, || {
        calls.set(calls.get() + 1);
        Ok(snapshot("first"))
    });
    assert_eq!(first.ok().unwrap().timestamp(), "first");
    assert_eq!(calls.get(), 1);
    let again = cache.get(T0 + 299 * SECOND, || {
        calls.set(calls.get() + 1);
        Ok(snapshot("unwanted"))
    });
    assert_eq!(again.ok().unwrap().timestamp(), "first");
    assert_eq!(calls.get(), 1);
    let later = cache.get(T0 + 300 * SECOND, || {
        calls.set(calls.get() + 1);
        Ok(snapshot("second"))
    });
    assert_eq!(later.ok().unwrap().timestamp(), "second");
    assert_eq!(calls.get(), 2);
    assert_eq!(cache.lookup(T0 + 301 * SECOND).unwrap().timestamp(), "second");
}

#[test]
fn get_after_invalidate_always_fetches() {
    let calls = std::cell::Cell::new(0u32);
    let mut cache = Cache::populated(snapshot("first"), T0);
    cache.invalidate();
    let got = cache.get(T0 + 1, || {
        calls.set(calls.get() + 1);
        Ok(snapshot("second"))
    });
    assert_eq!(calls.get(), 1);
    assert_eq!(got.ok().unwrap().timestamp(), "second");
}

#[test]
fn get_hands_a_failure_on_and_keeps_the_stale_snapshot() {
    let mut cache = Cache::populated(snapshot("first"), T0);
    let failed = cache.get(T0 + 400 * SECOND, || Err(CoreError::UpstreamDecode));
    assert!(matches!(failed, Err(CoreError::UpstreamDecode)));
    assert!(cache.is_populated());
    assert_eq!(cache.lookup(T0 + 1).unwrap().timestamp(), "first");
    let mut empty = Cache::new();
    assert!(matches!(empty.get(T0, || Err(CoreError::UpstreamFetch)), Err(CoreError::UpstreamFetch)));
    assert!(!empty.is_populated());
}

#[test]
fn scenario_record_lands_in_the_eligible_list() {
    let s = aggregate(&vec![record(7, 3, 0.01)], &plus, T0);
    assert_eq!(s.eligible_count(), 1);
    assert_eq!(s.ineligible_count(), 0);
    let v = s.find_by_id(7).unwrap();
    assert!(v.is_eligible());
    assert_eq!(f64::from_bits(v.reward_rates.unwrap().combined.to_bits()), 0.03);
    let t = aggregate(&vec![record(7, 2, 0.01)], &plus, T0);
    assert_eq!(t.eligible_count(), 0);
    assert_eq!(t.ineligible_count(), 1);
}
