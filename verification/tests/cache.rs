//! The cache: keys, stores, time-to-live tiers and the read-through policy.

use nbox::cache::key::{profile_partition, CacheKey};
use nbox::cache::orchestrator::{
    plan_read, settle_fetch, Cache, CacheConfig, Cached, Freshness, Plan, Source, Tier,
};
use nbox::cache::sqlite::{entry_from_row, from_sql, to_sql};
use nbox::cache::store::{CacheEntry, CacheStore, MemoryStore, UnixSecs};
use nbox::cache::{choose_backing, open_store, Backing};
use nbox::config::{BackendKind, CacheSettings};
use nbox::netbox::search::ObjectKind;

// ===== Keys =====

#[test]
fn partition_separates_url_and_backend() {
    let a = profile_partition("prod", "https://nb.example/", BackendKind::Rest);
    let c = profile_partition("prod", "https://nb.example/", BackendKind::Graphql);
    let d = profile_partition("prod", "https://other.example/", BackendKind::Rest);
    assert_ne!(a, c, "backend segregates");
    assert_ne!(a, d, "base url segregates");
}

#[test]
fn partition_is_trailing_slash_insensitive() {
    let with = profile_partition("p", "https://nb/", BackendKind::Rest);
    let without = profile_partition("p", "https://nb", BackendKind::Rest);
    assert_eq!(with, without);
}

#[test]
fn detail_key_distinguishes_kind_and_id() {
    let dev = CacheKey::detail(ObjectKind::Device, 7);
    let site = CacheKey::detail(ObjectKind::Site, 7);
    let dev2 = CacheKey::detail(ObjectKind::Device, 8);
    assert_ne!(dev, site);
    assert_ne!(dev, dev2);
    assert_eq!(dev, CacheKey::detail(ObjectKind::Device, 7), "stable");
}

#[test]
fn detail_ref_trims_but_does_not_case_fold() {
    let a = CacheKey::detail_ref(ObjectKind::Device, "  edge01 ");
    let b = CacheKey::detail_ref(ObjectKind::Device, "edge01");
    assert_eq!(a, b, "surrounding whitespace is normalized away");
    let upper = CacheKey::detail_ref(ObjectKind::Device, "Edge01");
    assert_ne!(a, upper, "case is preserved to avoid collapsing distinct names");
}

#[test]
fn detail_id_and_ref_are_distinct_keys() {
    let by_id = CacheKey::detail(ObjectKind::Device, 7);
    let by_ref = CacheKey::detail_ref(ObjectKind::Device, "7");
    assert_ne!(by_id, by_ref);
}

#[test]
fn object_key_includes_scope_so_disambiguators_dont_collide() {
    let vrf_a = CacheKey::object("prefix", "10.0.0.0/24", "vrf=a;site=;group=");
    let vrf_b = CacheKey::object("prefix", "10.0.0.0/24", "vrf=b;site=;group=");
    assert_ne!(vrf_a, vrf_b, "same CIDR in two VRFs must not share a key");
    // Stable + reference-trimmed.
    assert_eq!(
        CacheKey::object("device", "  edge01 ", "vrf=;site=;group="),
        CacheKey::object("device", "edge01", "vrf=;site=;group=")
    );
}

// ===== The in-memory store =====

fn entry(body: &str, fetched_at: UnixSecs, expires_at: UnixSecs) -> CacheEntry {
    CacheEntry { bytes: body.as_bytes().to_vec(), fetched_at, expires_at }
}

#[test]
fn put_then_get_roundtrips_within_expiry() {
    let mut s = MemoryStore::new();
    s.put("p", "k", &entry("hi", 100, 200));
    let got = s.get("p", "k", 150).expect("live entry");
    assert_eq!(got.bytes, b"hi");
    assert_eq!(got.fetched_at, 100);
}

#[test]
fn expired_entry_is_a_miss_and_is_dropped() {
    let mut s = MemoryStore::new();
    s.put("p", "k", &entry("hi", 100, 200));
    assert!(s.get("p", "k", 200).is_none(), "now == expires_at is expired");
    assert!(s.get("p", "k", 250).is_none());
    // The expired entry was evicted on the first miss.
    assert_eq!(s.len(), 0);
}

#[test]
fn profile_scopes_keys() {
    let mut s = MemoryStore::new();
    s.put("a", "k", &entry("from-a", 0, 100));
    s.put("b", "k", &entry("from-b", 0, 100));
    assert_eq!(s.get("a", "k", 10).unwrap().bytes, b"from-a");
    assert_eq!(s.get("b", "k", 10).unwrap().bytes, b"from-b");
}

#[test]
fn invalidate_removes_one_entry_only() {
    let mut s = MemoryStore::new();
    s.put("p", "k1", &entry("1", 0, 100));
    s.put("p", "k2", &entry("2", 0, 100));
    s.invalidate("p", "k1");
    assert!(s.get("p", "k1", 10).is_none());
    assert!(s.get("p", "k2", 10).is_some());
}

#[test]
fn clear_by_profile_keeps_other_profiles() {
    let mut s = MemoryStore::new();
    s.put("a", "k", &entry("a", 0, 100));
    s.put("b", "k", &entry("b", 0, 100));
    s.clear(Some("a"));
    assert!(s.get("a", "k", 10).is_none());
    assert!(s.get("b", "k", 10).is_some(), "other profile untouched");
}

#[test]
fn clear_all_empties_the_store() {
    let mut s = MemoryStore::new();
    s.put("a", "k", &entry("a", 0, 100));
    s.put("b", "k", &entry("b", 0, 100));
    s.clear(None);
    assert!(s.is_empty());
}

#[test]
fn sweep_drops_only_expired_entries() {
    let mut s = MemoryStore::new();
    s.put("p", "live", &entry("live", 0, 100));
    s.put("p", "dead", &entry("dead", 0, 50));
    s.sweep(60);
    assert!(s.get("p", "live", 60).is_some());
    assert!(s.get("p", "dead", 60).is_none());
    assert_eq!(s.len(), 1);
}

#[test]
fn a_second_put_overwrites_the_first() {
    let mut s = MemoryStore::new();
    s.put("p", "k", &entry("old", 100, 200));
    s.put("p", "k", &entry("new", 300, 400));
    let got = s.get("p", "k", 350).unwrap();
    assert_eq!(got.bytes, b"new");
    assert_eq!(got.fetched_at, 300);
    assert_eq!(s.len(), 1);
}

// ===== Choosing a store =====

fn settings(enabled: bool, path: Option<&str>) -> CacheSettings {
    CacheSettings { enabled, ttl_secs: 300, path: path.map(str::to_string) }
}

#[test]
fn open_store_when_disabled_is_a_usable_memory_store() {
    let mut store = open_store(&settings(false, None));
    store.put("p", "k", &CacheEntry { bytes: vec![1, 2, 3], fetched_at: 0, expires_at: 10_000 });
    assert!(store.get("p", "k", 10).is_some());
}

#[test]
fn the_backing_follows_the_settings() {
    let off = choose_backing(&settings(false, Some("/x/cache.db")), &Some("/home/cache.db".to_string()));
    assert!(matches!(off, Backing::Memory));
    match choose_backing(&settings(true, Some("/x/cache.db")), &Some("/home/cache.db".to_string())) {
        Backing::File(path) => assert_eq!(path, "/x/cache.db"),
        other => panic!("{other:?}"),
    }
    match choose_backing(&settings(true, None), &Some("/home/cache.db".to_string())) {
        Backing::File(path) => assert_eq!(path, "/home/cache.db"),
        other => panic!("{other:?}"),
    }
    assert!(matches!(choose_backing(&settings(true, None), &None), Backing::NoPlace));
}

// ===== Timestamps in the database =====

#[test]
fn timestamps_saturate_at_the_database_limits() {
    assert_eq!(to_sql(1_000), 1_000);
    assert_eq!(to_sql(u64::MAX), i64::MAX);
    assert_eq!(from_sql(1_000), 1_000);
    assert_eq!(from_sql(-5), 0);
    assert_eq!(from_sql(to_sql(1_700_000_000)), 1_700_000_000);
    let e = entry_from_row(vec![7], -1, 400);
    assert_eq!((e.bytes, e.fetched_at, e.expires_at), (vec![7], 0, 400));
}

// ===== The policy =====

fn test_cache() -> Cache<MemoryStore> {
    Cache::new(MemoryStore::new(), "test".to_string(), CacheConfig::default())
}

fn key() -> CacheKey {
    CacheKey::detail(ObjectKind::Device, 1)
}

#[test]
fn max_age_scales_and_grace_extends_the_hard_window() {
    // Time-to-live values scaled by 2.
    let cfg = CacheConfig { static_ttl: 1_800, detail_ttl: 600, search_ttl: 120, ..CacheConfig::default() };
    assert_eq!(cfg.max_age(Tier::Detail), 600, "300 * 2.0");
    assert_eq!(cfg.max_age(Tier::Search), 120);
    assert_eq!(cfg.hard_window(Tier::Detail), 600 + 600);
}

#[test]
fn the_hard_window_does_not_overflow() {
    let cfg = CacheConfig { detail_ttl: u64::MAX, ..CacheConfig::default() };
    assert_eq!(cfg.hard_window(Tier::Detail), u64::MAX);
}

#[test]
fn for_detail_tiers_static_vs_volatile_kinds() {
    assert_eq!(Tier::for_detail(ObjectKind::Site), Tier::Static);
    assert_eq!(Tier::for_detail(ObjectKind::Tenant), Tier::Static);
    assert_eq!(Tier::for_detail(ObjectKind::Device), Tier::Detail);
    assert_eq!(Tier::for_detail(ObjectKind::IpAddress), Tier::Detail);
}

#[test]
fn lookup_reports_fresh_then_stale_as_the_clock_advances() {
    let mut cache = test_cache();
    cache.put(&key(), b"v".to_vec(), Tier::Detail, 1_000);

    // Within the TTL: fresh.
    let c = cache.lookup(&key(), Tier::Detail, 1_000).unwrap();
    assert_eq!(c.value, b"v");
    assert_eq!(c.freshness.source, Source::Cache);
    assert!(!c.freshness.stale);

    // Past the TTL but within grace: stale, with the age reported.
    let c = cache.lookup(&key(), Tier::Detail, 1_000 + 301).unwrap();
    assert!(c.freshness.stale);
    assert_eq!(c.freshness.age, 301);

    // At the end of the grace period: still stale.
    let c = cache.lookup(&key(), Tier::Detail, 1_000 + 900).unwrap();
    assert!(c.freshness.stale);
    assert_eq!(c.freshness.age, 900);

    // Past TTL + grace: hard miss.
    assert!(cache.lookup(&key(), Tier::Detail, 1_000 + 901).is_none());
}

#[test]
fn get_or_fetch_misses_then_hits() {
    let mut cache = test_cache();
    let mut calls = 0;
    let a = cache
        .get_or_fetch::<String, _>(&key(), Tier::Detail, 1_000, || {
            calls += 1;
            Ok((b"fresh".to_vec(), 1_000))
        })
        .unwrap();
    assert_eq!(a.value, b"fresh");
    assert_eq!(a.freshness.source, Source::Origin);

    // Second call: a fresh hit, no fetch.
    let b = cache
        .get_or_fetch::<String, _>(&key(), Tier::Detail, 1_000, || {
            panic!("must not fetch on a fresh hit")
        })
        .unwrap();
    assert_eq!(b.value, b"fresh");
    assert_eq!(b.freshness.source, Source::Cache);
    assert_eq!(calls, 1);
}

#[test]
fn get_or_fetch_revalidates_when_stale() {
    let mut cache = test_cache();
    cache.put(&key(), b"old".to_vec(), Tier::Detail, 1_000);
    let c = cache
        .get_or_fetch::<String, _>(&key(), Tier::Detail, 1_000 + 400, || Ok((b"new".to_vec(), 1_400)))
        .unwrap();
    assert_eq!(c.value, b"new", "stale entry is revalidated");
    assert_eq!(c.freshness.source, Source::Origin);
}

#[test]
fn a_value_ages_from_the_time_it_arrived() {
    let mut cache = test_cache();
    cache
        .get_or_fetch::<String, _>(&key(), Tier::Detail, 1_000, || Ok((b"v".to_vec(), 1_050)))
        .unwrap();
    assert_eq!(cache.lookup(&key(), Tier::Detail, 1_060).unwrap().freshness.age, 10);
}

#[test]
fn get_or_fetch_serves_stale_on_origin_error() {
    let mut cache = test_cache();
    cache.put(&key(), b"cached".to_vec(), Tier::Detail, 1_000);
    let c = cache
        .get_or_fetch(&key(), Tier::Detail, 1_000 + 400, || Err("netbox down".to_string()))
        .expect("stale-if-error serves the cached copy");
    assert_eq!(c.value, b"cached");
    assert!(c.freshness.stale, "served stale under stale-if-error");
}

#[test]
fn get_or_fetch_propagates_error_with_no_entry() {
    let mut cache = test_cache();
    let r = cache.get_or_fetch(&key(), Tier::Detail, 1_000, || Err("netbox down".to_string()));
    assert!(r.is_err(), "a cold miss with a down origin is an error");
}

#[test]
fn disabled_cache_always_fetches_and_never_stores() {
    let mut cache = Cache::new(
        MemoryStore::new(),
        "test".to_string(),
        CacheConfig { enabled: false, ..CacheConfig::default() },
    );
    assert!(!cache.enabled());
    let mut calls = 0;
    for _ in 0..2 {
        let c = cache.get_or_fetch::<String, _>(&key(), Tier::Detail, 1_000, || {
            calls += 1;
            Ok((b"v".to_vec(), 1_000))
        });
        assert_eq!(c.unwrap().value, b"v");
    }
    assert_eq!(calls, 2, "no caching: every call fetches");
    assert!(cache.lookup(&key(), Tier::Detail, 1_000).is_none());
}

#[test]
fn a_plan_serves_only_what_is_fresh() {
    let hit = |stale: bool| Cached {
        value: 5,
        freshness: Freshness { source: Source::Cache, age: 10, stale },
    };
    assert!(matches!(plan_read(Some(hit(false))), Plan::Serve(_)));
    assert!(matches!(plan_read(Some(hit(true))), Plan::Fetch(Some(_))));
    assert!(matches!(plan_read::<i32>(None), Plan::Fetch(None)));

    assert_eq!(settle_fetch::<i32, String>(Ok(6), Some(hit(true))).unwrap().value, 6);
    assert_eq!(settle_fetch(Err("down"), Some(hit(true))).unwrap().value, 5);
    assert_eq!(settle_fetch::<i32, &str>(Err("down"), None).unwrap_err(), "down");
}

#[test]
fn clearing_and_sweeping_keep_to_their_partition_and_time() {
    let mut cache = test_cache();
    cache.put(&key(), b"v".to_vec(), Tier::Detail, 1_000);
    cache.store.put("other", "k", &entry("o", 0, 5_000));
    cache.sweep(1_000 + 900);
    assert_eq!(cache.store.len(), 2, "at 300 + 600 seconds it is still served");
    cache.sweep(1_000 + 901);
    assert_eq!(cache.store.len(), 1);
    cache.put(&key(), b"v".to_vec(), Tier::Detail, 1_000);
    cache.clear_profile();
    assert!(cache.lookup(&key(), Tier::Detail, 1_000).is_none());
    assert!(cache.store.get("other", "k", 1_000).is_some());
    cache.put(&key(), b"v".to_vec(), Tier::Detail, 1_000);
    cache.invalidate(&key());
    assert!(cache.lookup(&key(), Tier::Detail, 1_000).is_none());
    cache.clear_all();
    assert!(cache.store.is_empty());
    assert_eq!(cache.full_key(&key()), format!("test\u{1f}{}", key().as_str()));
}
