//! Freshness: how long an entry counts as fresh, and when a stale one is served.

use vstd::prelude::*;

use crate::cache::key::CacheKey;
use crate::cache::store::{
    live_entry,
    without_expired,
    Address,
    CacheEntry,
    CacheStore,
    Stored,
    UnixSecs,
};
use crate::netbox::search::ObjectKind;

verus! {

/// How volatile a cached value is.
#[derive(Debug, Clone, Copy, PartialEq, Eq, Structural)]
pub enum Tier {
    /// Reference data that is rarely edited.
    Static,
    /// The detail of an object.
    Detail,
    /// Results of searches and lists.
    Search,
}

impl Tier {
    /// The tier of a kind's detail view.
    pub open spec fn of_detail(kind: ObjectKind) -> Tier {
        match kind {
            ObjectKind::Site => Tier::Static,
            ObjectKind::Tenant => Tier::Static,
            ObjectKind::Rack => Tier::Static,
            ObjectKind::Provider => Tier::Static,
            ObjectKind::Asn => Tier::Static,
            ObjectKind::Contact => Tier::Static,
            ObjectKind::Aggregate => Tier::Static,
            _ => Tier::Detail,
        }
    }

    /// The tier of a kind's detail view.
    pub fn for_detail(kind: ObjectKind) -> (r: Self)
        ensures
            r == Tier::of_detail(kind),
    {
        match kind {
            ObjectKind::Site => Tier::Static,
            ObjectKind::Tenant => Tier::Static,
            ObjectKind::Rack => Tier::Static,
            ObjectKind::Provider => Tier::Static,
            ObjectKind::Asn => Tier::Static,
            ObjectKind::Contact => Tier::Static,
            ObjectKind::Aggregate => Tier::Static,
            _ => Tier::Detail,
        }
    }
}

/// The cache policy: whether to cache, the age limit of each tier in seconds, and
/// for how long past it a value may still be served.
#[derive(Debug, Clone, Copy)]
pub struct CacheConfig {
    pub enabled: bool,
    pub static_ttl: u64,
    pub detail_ttl: u64,
    pub search_ttl: u64,
    pub stale_grace: u64,
}

impl Default for CacheConfig {
    fn default() -> (r: Self)
        ensures
            r.enabled,
            r.static_ttl == 900,
            r.detail_ttl == 300,
            r.search_ttl == 60,
            r.stale_grace == 600,
    {
        CacheConfig {
            enabled: true,
            static_ttl: 900,
            detail_ttl: 300,
            search_ttl: 60,
            stale_grace: 600,
        }
    }
}

impl CacheConfig {
    /// The age limit of a tier.
    pub open spec fn ttl(self, tier: Tier) -> u64 {
        match tier {
            Tier::Static => self.static_ttl,
            Tier::Detail => self.detail_ttl,
            Tier::Search => self.search_ttl,
        }
    }

    /// The greatest age at which an entry of a tier is still served: its age limit
    /// and the grace period.
    pub open spec fn lifetime(self, tier: Tier) -> u64 {
        let sum = self.ttl(tier) + self.stale_grace;
        if sum <= u64::MAX {
            sum as u64
        } else {
            u64::MAX
        }
    }

    /// The age limit of a tier.
    pub fn max_age(&self, tier: Tier) -> (r: u64)
        ensures
            r == self.ttl(tier),
    {
        match tier {
            Tier::Static => self.static_ttl,
            Tier::Detail => self.detail_ttl,
            Tier::Search => self.search_ttl,
        }
    }

    /// The greatest age at which an entry of a tier is still served.
    pub fn hard_window(&self, tier: Tier) -> (r: u64)
        ensures
            r == self.lifetime(tier),
    {
        self.max_age(tier).saturating_add(self.stale_grace)
    }
}

/// Where a value came from.
#[derive(Debug, Clone, Copy, PartialEq, Eq, Structural)]
pub enum Source {
    Origin,
    Cache,
}

/// Where a value came from, how old it is, and whether it is past its age limit.
#[derive(Debug, Clone, Copy, PartialEq, Eq, Structural)]
pub struct Freshness {
    pub source: Source,
    pub age: u64,
    pub stale: bool,
}

impl Freshness {
    /// The freshness of a value just fetched.
    pub open spec fn fetched() -> Freshness {
        Freshness { source: Source::Origin, age: 0, stale: false }
    }

    /// The freshness of a value just fetched.
    pub fn origin() -> (r: Self)
        ensures
            r == Freshness::fetched(),
    {
        Freshness { source: Source::Origin, age: 0, stale: false }
    }
}

/// A value with its freshness.
#[derive(Debug)]
pub struct Cached<T> {
    pub value: T,
    pub freshness: Freshness,
}

/// The time from one moment to a later one; zero when the clock went back.
pub open spec fn elapsed(from: UnixSecs, to: UnixSecs) -> u64 {
    if to >= from {
        (to - from) as u64
    } else {
        0
    }
}

/// The freshness of an entry.
pub open spec fn entry_freshness(e: Stored, now: UnixSecs, limit: u64) -> Freshness {
    Freshness {
        source: Source::Cache,
        age: elapsed(e.fetched_at, now),
        stale: elapsed(e.fetched_at, now) > limit,
    }
}

/// What to do next when a value is wanted.
#[derive(Debug)]
pub enum Plan<T> {
    /// Serve this value.
    Serve(Cached<T>),
    /// Fetch, and fall back on this value if that fails.
    Fetch(Option<Cached<T>>),
}

/// A fresh value is served. A stale one is fetched anew, and kept to fall back on.
pub fn plan_read<T>(hit: Option<Cached<T>>) -> (r: Plan<T>)
    ensures
        match hit {
            Some(c) => if c.freshness.stale {
                r == Plan::Fetch(Some(c))
            } else {
                r == Plan::Serve(c)
            },
            None => r == Plan::Fetch(None::<Cached<T>>),
        },
{
    match hit {
        Some(c) => if c.freshness.stale {
            Plan::Fetch(Some(c))
        } else {
            Plan::Serve(c)
        },
        None => Plan::Fetch(None),
    }
}

/// The outcome of a fetch: the new value; the stale one when the fetch failed;
/// the failure when there is nothing to fall back on.
pub fn settle_fetch<T, E>(fetched: Result<T, E>, fallback: Option<Cached<T>>) -> (r: Result<
    Cached<T>,
    E,
>)
    ensures
        match fetched {
            Ok(v) => r == Ok::<Cached<T>, E>(Cached { value: v, freshness: Freshness::fetched() }),
            Err(e) => match fallback {
                Some(c) => r == Ok::<Cached<T>, E>(c),
                None => r == Err::<Cached<T>, E>(e),
            },
        },
{
    match fetched {
        Ok(value) => Ok(Cached { value, freshness: Freshness::origin() }),
        Err(e) => match fallback {
            Some(c) => Ok(c),
            None => Err(e),
        },
    }
}

/// A store with a partition and a policy.
#[derive(Debug)]
pub struct Cache<S> {
    pub store: S,
    pub partition: String,
    pub config: CacheConfig,
}

/// The hit that a lookup gives, as a view.
pub open spec fn hit_view(hit: Option<Cached<Vec<u8>>>) -> Option<(Seq<u8>, Freshness)> {
    match hit {
        Some(c) => Some((c.value@, c.freshness)),
        None => None,
    }
}

/// The hit at an address, under a policy.
pub open spec fn hit_at(
    m: Map<Address, Stored>,
    at: Address,
    now: UnixSecs,
    config: CacheConfig,
    tier: Tier,
) -> Option<(Seq<u8>, Freshness)> {
    if !config.enabled {
        None
    } else {
        match live_entry(m, at, now) {
            Some(e) => Some((e.bytes, entry_freshness(e, now, config.ttl(tier)))),
            None => None,
        }
    }
}

/// Whether a hit is served without fetching.
pub open spec fn served_fresh(hit: Option<(Seq<u8>, Freshness)>) -> bool {
    match hit {
        Some((bytes, freshness)) => !freshness.stale,
        None => false,
    }
}

/// The entry that storing a value makes. It expires one second after the last one
/// at which it can be served.
pub open spec fn stored_now(
    bytes: Seq<u8>,
    now: UnixSecs,
    config: CacheConfig,
    tier: Tier,
) -> Stored {
    let end = now + config.lifetime(tier) + 1;
    Stored {
        bytes,
        fetched_at: now,
        expires_at: if end <= u64::MAX {
            end as u64
        } else {
            u64::MAX
        },
    }
}

impl CacheConfig {
    /// A stored entry with its freshness.
    pub fn appraise(&self, entry: CacheEntry, tier: Tier, now: UnixSecs) -> (r: Cached<Vec<u8>>)
        ensures
            r.value == entry.bytes,
            r.freshness == entry_freshness(entry@, now, self.ttl(tier)),
    {
        let age: u64 = now.saturating_sub(entry.fetched_at);
        let stale = age > self.max_age(tier);
        Cached { value: entry.bytes, freshness: Freshness { source: Source::Cache, age, stale } }
    }

    /// The entry for a value fetched at `now`.
    pub fn stamp(&self, bytes: Vec<u8>, tier: Tier, now: UnixSecs) -> (r: CacheEntry)
        ensures
            r@ == stored_now(bytes@, now, *self, tier),
            r.fetched_at <= r.expires_at,
    {
        let expires_at: u64 = now.saturating_add(self.hard_window(tier)).saturating_add(1);
        CacheEntry { bytes, fetched_at: now, expires_at }
    }
}

impl<S: CacheStore> Cache<S> {
    /// A cache over a store, for the partition of one connection.
    pub fn new(store: S, partition: String, config: CacheConfig) -> (r: Self)
        ensures
            r.store == store,
            r.partition == partition,
            r.config == config,
    {
        Cache { store, partition, config }
    }

    /// The address of a key.
    pub open spec fn address(&self, key: CacheKey) -> Address {
        (self.partition@, key@)
    }

    /// Whether caching is on.
    pub fn enabled(&self) -> (r: bool)
        ensures
            r == self.config.enabled,
    {
        self.config.enabled
    }

    /// Looks a value up without fetching it. Nothing is found when caching is off.
    pub fn lookup(&mut self, key: &CacheKey, tier: Tier, now: UnixSecs) -> (r: Option<
        Cached<Vec<u8>>,
    >)
        requires
            old(self).store.wf(),
        ensures
            final(self).store.wf(),
            final(self).partition == old(self).partition,
            final(self).config == old(self).config,
            hit_view(r) == hit_at(
                old(self).store.entries(),
                old(self).address(*key),
                now,
                old(self).config,
                tier,
            ),
            final(self).store.entries() == if old(self).config.enabled {
                without_expired(old(self).store.entries(), old(self).address(*key), now)
            } else {
                old(self).store.entries()
            },
    {
        if !self.config.enabled {
            return None;
        }
        match self.store.get(self.partition.as_str(), key.as_str(), now) {
            Some(entry) => Some(self.config.appraise(entry, tier, now)),
            None => None,
        }
    }

    /// Stores a value fetched at `now`. Nothing is stored when caching is off.
    pub fn put(&mut self, key: &CacheKey, bytes: Vec<u8>, tier: Tier, now: UnixSecs)
        requires
            old(self).store.wf(),
        ensures
            final(self).store.wf(),
            final(self).partition == old(self).partition,
            final(self).config == old(self).config,
            final(self).store.entries() == if old(self).config.enabled {
                old(self).store.entries().insert(
                    old(self).address(*key),
                    stored_now(bytes@, now, old(self).config, tier),
                )
            } else {
                old(self).store.entries()
            },
    {
        if !self.config.enabled {
            return;
        }
        let entry = self.config.stamp(bytes, tier, now);
        self.store.put(self.partition.as_str(), key.as_str(), &entry);
    }

    /// Serves a value from the cache when it is fresh, and fetches it otherwise. A
    /// fetch gives a value and the time it arrived, from which the value ages. A
    /// stale value stands in for a fetch that fails.
    pub fn get_or_fetch<E, F: FnOnce() -> Result<(Vec<u8>, UnixSecs), E>>(
        &mut self,
        key: &CacheKey,
        tier: Tier,
        now: UnixSecs,
        fetch: F,
    ) -> (r: Result<Cached<Vec<u8>>, E>)
        requires
            old(self).store.wf(),
            fetch.requires(()),
        ensures
            final(self).store.wf(),
            final(self).partition == old(self).partition,
            final(self).config == old(self).config,
            ({
                let hit = hit_at(
                    old(self).store.entries(),
                    old(self).address(*key),
                    now,
                    old(self).config,
                    tier,
                );
                let kept = if old(self).config.enabled {
                    without_expired(old(self).store.entries(), old(self).address(*key), now)
                } else {
                    old(self).store.entries()
                };
                if served_fresh(hit) {
                    &&& r is Ok
                    &&& hit_view(Some(r->Ok_0)) == hit
                    &&& final(self).store.entries() == kept
                } else {
                    exists|fetched: Result<(Vec<u8>, UnixSecs), E>| #[trigger]
                        fetch.ensures((), fetched) && match fetched {
                            Ok((v, arrived)) => {
                                &&& r is Ok
                                &&& r->Ok_0.value@ == v@
                                &&& r->Ok_0.freshness == Freshness::fetched()
                                &&& final(self).store.entries() == if old(self).config.enabled {
                                    kept.insert(
                                        old(self).address(*key),
                                        stored_now(v@, arrived, old(self).config, tier),
                                    )
                                } else {
                                    kept
                                }
                            },
                            Err(e) => {
                                &&& final(self).store.entries() == kept
                                &&& match hit {
                                    Some(h) => r is Ok && hit_view(Some(r->Ok_0)) == Some(h),
                                    None => r == Err::<Cached<Vec<u8>>, E>(e),
                                }
                            },
                        }
                }
            }),
    {
        let hit = self.lookup(key, tier, now);
        match plan_read(hit) {
            Plan::Serve(c) => Ok(c),
            Plan::Fetch(fallback) => {
                let fetched = fetch();
                match fetched {
                    Ok((v, arrived)) => {
                        let copy = copy_bytes(&v);
                        self.put(key, copy, tier, arrived);
                        settle_fetch(Ok(v), fallback)
                    },
                    Err(e) => settle_fetch(Err(e), fallback),
                }
            },
        }
    }

    /// Drops the entry of a key.
    pub fn invalidate(&mut self, key: &CacheKey)
        requires
            old(self).store.wf(),
        ensures
            final(self).store.wf(),
            final(self).partition == old(self).partition,
            final(self).config == old(self).config,
            final(self).store.entries() == old(self).store.entries().remove(old(self).address(*key)),
    {
        self.store.invalidate(self.partition.as_str(), key.as_str());
    }

    /// Drops every entry of this partition.
    pub fn clear_profile(&mut self)
        requires
            old(self).store.wf(),
        ensures
            final(self).store.wf(),
            final(self).partition == old(self).partition,
            final(self).config == old(self).config,
            final(self).store.entries() == crate::cache::store::without_partition(
                old(self).store.entries(),
                old(self).partition@,
            ),
    {
        self.store.clear(Some(self.partition.as_str()));
    }

    /// Drops every entry of every partition.
    pub fn clear_all(&mut self)
        requires
            old(self).store.wf(),
        ensures
            final(self).store.wf(),
            final(self).partition == old(self).partition,
            final(self).config == old(self).config,
            final(self).store.entries() == Map::<Address, Stored>::empty(),
    {
        self.store.clear(None);
    }

    /// Drops every entry that has expired.
    pub fn sweep(&mut self, now: UnixSecs)
        requires
            old(self).store.wf(),
        ensures
            final(self).store.wf(),
            final(self).partition == old(self).partition,
            final(self).config == old(self).config,
            final(self).store.entries() == crate::cache::store::only_live(
                old(self).store.entries(),
                now,
            ),
    {
        self.store.sweep(now);
    }

    /// The name under which fetches of a key are serialized: the partition and
    /// the key around a unit separator.
    pub fn full_key(&self, key: &CacheKey) -> (r: String)
        ensures
            r@ == self.partition@ + "\u{1f}"@ + key@,
    {
        key.within(self.partition.as_str())
    }
}

fn copy_bytes(v: &Vec<u8>) -> (r: Vec<u8>)
    ensures
        r@ == v@,
{
    let mut out: Vec<u8> = Vec::new();
    let mut i: usize = 0;
    while i < v.len()
        invariant
            i <= v.len(),
            out@ == v@.take(i as int),
        decreases v.len() - i,
    {
        out.push(v[i]);
        proof {
            assert(v@.take(i as int + 1) =~= v@.take(i as int).push(v@[i as int]));
        }
        i = i + 1;
    }
    proof {
        assert(v@.take(i as int) =~= v@);
    }
    out
}

// ===== Laws ==============================================================

/// A value just stored is found, fresh, with no age.
pub proof fn stored_value_is_fresh(
    m: Map<Address, Stored>,
    at: Address,
    bytes: Seq<u8>,
    now: UnixSecs,
    config: CacheConfig,
    tier: Tier,
)
    requires
        config.enabled,
        now < u64::MAX,
    ensures
        hit_at(m.insert(at, stored_now(bytes, now, config, tier)), at, now, config, tier) == Some(
            (bytes, Freshness { source: Source::Cache, age: 0, stale: false }),
        ),
{
}

/// As the clock advances, a stored value is fresh up to its age limit, stale
/// through the grace period, and gone after that.
pub proof fn stored_value_ages(
    m: Map<Address, Stored>,
    at: Address,
    bytes: Seq<u8>,
    now: UnixSecs,
    later: UnixSecs,
    config: CacheConfig,
    tier: Tier,
)
    requires
        config.enabled,
        now <= later < u64::MAX,
    ensures
        ({
            let hit = hit_at(
                m.insert(at, stored_now(bytes, now, config, tier)),
                at,
                later,
                config,
                tier,
            );
            let age = (later - now) as u64;
            if age > config.ttl(tier) + config.stale_grace {
                hit is None
            } else {
                hit == Some(
                    (
                        bytes,
                        Freshness { source: Source::Cache, age, stale: age > config.ttl(tier) },
                    ),
                )
            }
        }),
{
}

/// With caching off, nothing is ever found.
pub proof fn disabled_cache_finds_nothing(
    m: Map<Address, Stored>,
    at: Address,
    now: UnixSecs,
    config: CacheConfig,
    tier: Tier,
)
    requires
        !config.enabled,
    ensures
        hit_at(m, at, now, config, tier) is None,
{
}

/// Reference data is kept longest, then details, and lists only shortly: sites, tenants,
/// racks, providers, AS numbers, contacts and aggregates are reference data, and every
/// other kind is a detail.
pub proof fn kinds_have_their_tiers(kind: ObjectKind, config: CacheConfig)
    ensures
        Tier::of_detail(kind) == Tier::Static <==> {
            ||| kind == ObjectKind::Site
            ||| kind == ObjectKind::Tenant
            ||| kind == ObjectKind::Rack
            ||| kind == ObjectKind::Provider
            ||| kind == ObjectKind::Asn
            ||| kind == ObjectKind::Contact
            ||| kind == ObjectKind::Aggregate
        },
        Tier::of_detail(kind) != Tier::Search,
        config.ttl(Tier::Static) == config.static_ttl,
        config.ttl(Tier::Detail) == config.detail_ttl,
        config.ttl(Tier::Search) == config.search_ttl,
{
}

/// A value is fresh up to its age limit and stale behind it; its age counts from when it
/// was fetched, and is none for a clock that went back. It can be served for as long
/// as its limit and the grace period together, and not a second longer.
pub proof fn entries_age_by_the_clock(
    e: Stored,
    bytes: Seq<u8>,
    now: UnixSecs,
    at: UnixSecs,
    limit: u64,
    config: CacheConfig,
    tier: Tier,
)
    ensures
        now >= e.fetched_at ==> entry_freshness(e, now, limit).age == now - e.fetched_at,
        now < e.fetched_at ==> entry_freshness(e, now, limit).age == 0,
        entry_freshness(e, now, limit).stale <==> now > e.fetched_at + limit,
        entry_freshness(e, now, limit).source == Source::Cache,
        stored_now(bytes, now, config, tier).bytes == bytes,
        stored_now(bytes, now, config, tier).fetched_at == now,
        now + config.ttl(tier) + config.stale_grace < u64::MAX ==> (stored_now(
            bytes,
            now,
            config,
            tier,
        ).live_at(at) <==> at <= now + config.ttl(tier) + config.stale_grace),
{
}

/// What is found under a key is what was stored under it in the same partition, with
/// its age; a cache that is switched off finds nothing.
pub proof fn hits_are_what_was_stored(
    m: Map<Address, Stored>,
    at: Address,
    now: UnixSecs,
    config: CacheConfig,
    tier: Tier,
)
    ensures
        hit_at(m, at, now, config, tier) is Some <==> config.enabled && m.contains_key(at) && now
            < m[at].expires_at,
        hit_at(m, at, now, config, tier) is Some ==> {
            let (bytes, freshness) = hit_at(m, at, now, config, tier)->0;
            &&& bytes == m[at].bytes
            &&& freshness.source == Source::Cache
            &&& freshness.stale <==> now > m[at].fetched_at + config.ttl(tier)
        },
        served_fresh(hit_at(m, at, now, config, tier)) <==> config.enabled && m.contains_key(at)
            && now < m[at].expires_at && now <= m[at].fetched_at + config.ttl(tier),
{
}

} // verus!
