//! TTL cache for service metadata, in front of any `D365Client`.
//!
//! Lookups of `service_metadata` and `bulk_service_metadata` are served from
//! entries keyed by `(operation, language)` while they are fresh, and fall
//! through to the inner client otherwise.  TTL is the single eviction policy; a
//! TTL of zero disables caching.  Time is supplied by the caller, in
//! milliseconds of a monotonic clock.

use vstd::prelude::*;
use std::sync::Arc;
use crate::json::{Json, owned, str_eq};
use crate::odata::client::{
    D365Client, ServiceOperationMeta, ServiceOperationMetaView, BulkMetadata, EnvironmentInfo,
    ServiceSearchResult, ServiceCallRequest, ReadEntityRequest, EntityRow, EntityStructure,
    PoolStatus,
};
use crate::odata::error::D365Result;
use crate::text::strings_view;

verus! {

/// Cache statistics surfaced to dashboards.
#[derive(Debug, Clone, Copy)]
pub struct CacheStats {
    pub hits: u64,
    pub misses: u64,
    pub evictions: u64,
    pub entries: usize,
}

impl Default for CacheStats {
    fn default() -> (r: Self)
        ensures
            r.hits == 0 && r.misses == 0 && r.evictions == 0 && r.entries == 0,
    {
        CacheStats { hits: 0, misses: 0, evictions: 0, entries: 0 }
    }
}

/// A cache key: operation and language.
pub struct CacheKey {
    pub operation: Seq<char>,
    pub language: Seq<char>,
}

/// A cached value: the metadata and when it was stored.
pub struct Cached {
    pub meta: ServiceOperationMetaView,
    pub at_ms: u64,
}

pub open spec fn key(operation: Seq<char>, language: Seq<char>) -> CacheKey {
    CacheKey { operation, language }
}

/// `a - b`, or zero when `b` is later.
pub open spec fn elapsed(now_ms: u64, at_ms: u64) -> int {
    if now_ms >= at_ms {
        now_ms - at_ms
    } else {
        0
    }
}

/// The metadata cached under `k`, when it is fresh at `now_ms`: stored at most
/// `ttl_ms` ago, or stored at all when the TTL is zero.
pub open spec fn fresh_meta(
    m: Map<CacheKey, Cached>,
    k: CacheKey,
    now_ms: u64,
    ttl_ms: u64,
) -> Option<ServiceOperationMetaView> {
    if m.contains_key(k) && (ttl_ms == 0 || elapsed(now_ms, m[k].at_ms) <= ttl_ms) {
        Some(m[k].meta)
    } else {
        None
    }
}

/// The entries after storing `meta` under `k` at `now_ms`; nothing is stored when
/// the TTL is zero.
pub open spec fn stored(
    m: Map<CacheKey, Cached>,
    k: CacheKey,
    meta: ServiceOperationMetaView,
    now_ms: u64,
    ttl_ms: u64,
) -> Map<CacheKey, Cached> {
    if ttl_ms == 0 {
        m
    } else {
        m.insert(k, Cached { meta, at_ms: now_ms })
    }
}

/// The entries after storing each of `metas` under its own operation name, in order.
pub open spec fn stored_all(
    m: Map<CacheKey, Cached>,
    metas: Seq<ServiceOperationMetaView>,
    language: Seq<char>,
    now_ms: u64,
    ttl_ms: u64,
) -> Map<CacheKey, Cached>
    decreases metas.len(),
{
    if metas.len() == 0 {
        m
    } else {
        stored(
            stored_all(m, metas.drop_last(), language, now_ms, ttl_ms),
            key(metas.last().operation, language),
            metas.last(),
            now_ms,
            ttl_ms,
        )
    }
}

/// The fresh metadata of the operations that have it, in request order.
pub open spec fn fresh_hits(
    m: Map<CacheKey, Cached>,
    ops: Seq<Seq<char>>,
    language: Seq<char>,
    now_ms: u64,
    ttl_ms: u64,
) -> Seq<ServiceOperationMetaView>
    decreases ops.len(),
{
    if ops.len() == 0 {
        seq![]
    } else {
        let rest = fresh_hits(m, ops.drop_last(), language, now_ms, ttl_ms);
        match fresh_meta(m, key(ops.last(), language), now_ms, ttl_ms) {
            Some(x) => rest.push(x),
            None => rest,
        }
    }
}

/// The operations without fresh metadata, in request order.
pub open spec fn stale_ops(
    m: Map<CacheKey, Cached>,
    ops: Seq<Seq<char>>,
    language: Seq<char>,
    now_ms: u64,
    ttl_ms: u64,
) -> Seq<Seq<char>>
    decreases ops.len(),
{
    if ops.len() == 0 {
        seq![]
    } else {
        let rest = stale_ops(m, ops.drop_last(), language, now_ms, ttl_ms);
        match fresh_meta(m, key(ops.last(), language), now_ms, ttl_ms) {
            Some(_) => rest,
            None => rest.push(ops.last()),
        }
    }
}

pub open spec fn metas_view(v: Seq<ServiceOperationMeta>) -> Seq<ServiceOperationMetaView> {
    v.map_values(|m: ServiceOperationMeta| m@)
}

struct CacheEntry {
    operation: String,
    language: String,
    meta: ServiceOperationMeta,
    cached_at_ms: u64,
}

spec fn entry_key(e: CacheEntry) -> CacheKey {
    key(e.operation@, e.language@)
}

spec fn entry_map(s: Seq<CacheEntry>) -> Map<CacheKey, Cached>
    decreases s.len(),
{
    if s.len() == 0 {
        Map::empty()
    } else {
        entry_map(s.drop_last()).insert(
            entry_key(s.last()),
            Cached { meta: s.last().meta@, at_ms: s.last().cached_at_ms },
        )
    }
}

spec fn keys_distinct(s: Seq<CacheEntry>) -> bool {
    forall|i: int, j: int|
        0 <= i < j < s.len() ==> entry_key(#[trigger] s[i]) != entry_key(#[trigger] s[j])
}

proof fn lemma_entry_map(s: Seq<CacheEntry>)
    requires
        keys_distinct(s),
    ensures
        entry_map(s).dom().finite(),
        entry_map(s).dom().len() == s.len(),
        forall|i: int|
            0 <= i < s.len() ==> #[trigger] entry_map(s).contains_key(entry_key(s[i]))
                && entry_map(s)[entry_key(s[i])] == (Cached {
                meta: s[i].meta@,
                at_ms: s[i].cached_at_ms,
            }),
        forall|k: CacheKey|
            #[trigger] entry_map(s).contains_key(k) ==> exists|i: int|
                0 <= i < s.len() && entry_key(s[i]) == k,
    decreases s.len(),
{
    if s.len() > 0 {
        let p = s.drop_last();
        assert forall|i: int, j: int| 0 <= i < j < p.len() implies entry_key(#[trigger] p[i])
            != entry_key(#[trigger] p[j]) by {
            assert(p[i] == s[i] && p[j] == s[j]);
        }
        lemma_entry_map(p);
        let lk = entry_key(s.last());
        assert(!entry_map(p).contains_key(lk)) by {
            if entry_map(p).contains_key(lk) {
                let i = choose|i: int| 0 <= i < p.len() && entry_key(p[i]) == lk;
                assert(entry_key(s[i]) != entry_key(s[s.len() - 1]));
            }
        }
        assert forall|i: int| 0 <= i < s.len() implies #[trigger] entry_map(s).contains_key(
            entry_key(s[i]),
        ) && entry_map(s)[entry_key(s[i])] == (Cached {
            meta: s[i].meta@,
            at_ms: s[i].cached_at_ms,
        }) by {
            if i < s.len() - 1 {
                assert(p[i] == s[i]);
                assert(entry_key(s[i]) != lk);
            }
        }
        assert forall|k: CacheKey| #[trigger] entry_map(s).contains_key(k) implies exists|i: int|
            0 <= i < s.len() && entry_key(s[i]) == k by {
            if k != lk {
                let i = choose|i: int| 0 <= i < p.len() && entry_key(p[i]) == k;
                assert(p[i] == s[i]);
            } else {
                assert(entry_key(s[s.len() - 1]) == k);
            }
        }
    }
}

/// Cache of `ServiceOperationMeta` keyed by `(operation, language)`, for a
/// configurable TTL, in front of `inner`.
pub struct MetadataCache<C: D365Client> {
    inner: Arc<C>,
    ttl_ms: u64,
    entries: Vec<CacheEntry>,
    stats: CacheStats,
}

impl<C: D365Client> MetadataCache<C> {
    #[verifier::type_invariant]
    closed spec fn entries_distinct(self) -> bool {
        keys_distinct(self.entries@)
    }

    /// The cached entries.
    pub closed spec fn entries_view(&self) -> Map<CacheKey, Cached> {
        entry_map(self.entries@)
    }

    pub closed spec fn ttl(&self) -> u64 {
        self.ttl_ms
    }

    pub closed spec fn counters(&self) -> (u64, u64, u64) {
        (self.stats.hits, self.stats.misses, self.stats.evictions)
    }

    pub closed spec fn inner_client(&self) -> Arc<C> {
        self.inner
    }

    /// Wrap `inner` with a TTL cache.  A TTL of 0 disables caching.
    pub fn new(inner: Arc<C>, ttl_ms: u64) -> (r: Self)
        ensures
            r.entries_view() == Map::<CacheKey, Cached>::empty(),
            r.ttl() == ttl_ms,
            r.counters() == (0u64, 0u64, 0u64),
            r.inner_client() == inner,
    {
        MetadataCache { inner, ttl_ms, entries: Vec::new(), stats: CacheStats::default() }
    }

    /// The counters, and the number of entries.
    pub fn stats(&self) -> (s: CacheStats)
        ensures
            (s.hits, s.misses, s.evictions) == self.counters(),
            s.entries == self.entries_view().dom().len(),
    {
        proof {
            use_type_invariant(self);
            lemma_entry_map(self.entries@);
        }
        CacheStats {
            hits: self.stats.hits,
            misses: self.stats.misses,
            evictions: self.stats.evictions,
            entries: self.entries.len(),
        }
    }

    /// Drop every entry, counting each as an eviction.
    pub fn invalidate_all(&mut self)
        requires
            old(self).counters().2 + old(self).entries_view().dom().len() <= u64::MAX,
        ensures
            final(self).entries_view() == Map::<CacheKey, Cached>::empty(),
            final(self).counters() == (
                old(self).counters().0,
                old(self).counters().1,
                (old(self).counters().2 + old(self).entries_view().dom().len()) as u64,
            ),
            final(self).ttl() == old(self).ttl(),
            final(self).inner_client() == old(self).inner_client(),
    {
        proof {
            use_type_invariant(&*self);
            lemma_entry_map(self.entries@);
        }
        let evicted = self.entries.len() as u64;
        self.entries = Vec::new();
        self.stats.evictions = self.stats.evictions + evicted;
    }

    /// Position of the entry stored under `(operation, language)`.
    fn find(&self, operation: &str, language: &str) -> (r: Option<usize>)
        ensures
            match r {
                Some(i) => i < self.entries@.len() && entry_key(self.entries@[i as int]) == key(
                    operation@,
                    language@,
                ),
                None => forall|i: int|
                    0 <= i < self.entries@.len() ==> entry_key(#[trigger] self.entries@[i]) != key(
                        operation@,
                        language@,
                    ),
            },
    {
        let mut i: usize = 0;
        while i < self.entries.len()
            invariant
                i <= self.entries@.len(),
                forall|j: int|
                    0 <= j < i ==> entry_key(#[trigger] self.entries@[j]) != key(
                        operation@,
                        language@,
                    ),
            decreases self.entries.len() - i,
        {
            let e = &self.entries[i];
            if str_eq(e.operation.as_str(), operation) && str_eq(e.language.as_str(), language) {
                return Some(i);
            }
            i = i + 1;
        }
        None
    }

    /// The fresh metadata stored under `(operation, language)`, if any.
    fn get_fresh(&self, operation: &str, language: &str, now_ms: u64) -> (r: Option<
        ServiceOperationMeta,
    >)
        ensures
            match fresh_meta(self.entries_view(), key(operation@, language@), now_ms, self.ttl()) {
                Some(m) => r matches Some(x) && x@ == m,
                None => r is None,
            },
    {
        proof {
            use_type_invariant(self);
            lemma_entry_map(self.entries@);
        }
        match self.find(operation, language) {
            Some(i) => {
                let e = &self.entries[i];
                proof {
                    assert(self.entries_view().contains_key(entry_key(self.entries@[i as int])));
                }
                let age: u64 = if now_ms >= e.cached_at_ms {
                    now_ms - e.cached_at_ms
                } else {
                    0
                };
                if self.ttl_ms == 0 || age <= self.ttl_ms {
                    Some(e.meta.duplicate())
                } else {
                    None
                }
            },
            None => {
                proof {
                    if self.entries_view().contains_key(key(operation@, language@)) {
                        let j = choose|j: int|
                            0 <= j < self.entries@.len() && entry_key(self.entries@[j]) == key(
                                operation@,
                                language@,
                            );
                        assert(entry_key(self.entries@[j]) != key(operation@, language@));
                    }
                }
                None
            },
        }
    }

    /// Store `meta` under `(operation, language)` at `now_ms`, replacing what was
    /// there; nothing is stored when the TTL is zero.
    fn store(&mut self, operation: &str, language: &str, meta: ServiceOperationMeta, now_ms: u64)
        ensures
            final(self).entries_view() == stored(
                old(self).entries_view(),
                key(operation@, language@),
                meta@,
                now_ms,
                old(self).ttl(),
            ),
            final(self).counters() == old(self).counters(),
            final(self).ttl() == old(self).ttl(),
            final(self).inner_client() == old(self).inner_client(),
    {
        proof {
            use_type_invariant(&*self);
        }
        if self.ttl_ms == 0 {
            return;
        }
        let ghost before = self.entries@;
        let ghost k = key(operation@, language@);
        proof {
            lemma_entry_map(before);
        }
        let entry = CacheEntry {
            operation: owned(operation),
            language: owned(language),
            meta,
            cached_at_ms: now_ms,
        };
        match self.find(operation, language) {
            Some(i) => {
                let mut entries: Vec<CacheEntry> = Vec::new();
                std::mem::swap(&mut entries, &mut self.entries);
                entries.set(i, entry);
                proof {
                    assert forall|a: int, b: int| 0 <= a < b < entries@.len() implies entry_key(
                        #[trigger] entries@[a],
                    ) != entry_key(#[trigger] entries@[b]) by {
                        assert(entry_key(entries@[a]) == entry_key(before[a]));
                        assert(entry_key(entries@[b]) == entry_key(before[b]));
                    }
                    lemma_entry_map(entries@);
                    let want = entry_map(before).insert(
                        k,
                        Cached { meta: meta@, at_ms: now_ms },
                    );
                    assert(entry_map(entries@) =~= want) by {
                        assert forall|q: CacheKey| #[trigger] want.contains_key(q) implies entry_map(
                            entries@,
                        ).contains_key(q) by {
                            if q != k {
                                let j = choose|j: int|
                                    0 <= j < before.len() && entry_key(before[j]) == q;
                                assert(entries@[j] == before[j]);
                            } else {
                                assert(entry_key(entries@[i as int]) == q);
                            }
                        }
                        assert forall|q: CacheKey| #[trigger] entry_map(entries@).contains_key(q)
                            implies want.contains_key(q) && entry_map(entries@)[q] == want[q] by {
                            let j = choose|j: int|
                                0 <= j < entries@.len() && entry_key(entries@[j]) == q;
                            assert(entry_map(entries@).contains_key(entry_key(entries@[j])));
                            if j != i {
                                assert(entries@[j] == before[j]);
                                assert(entry_map(before).contains_key(entry_key(before[j])));
                                assert(entry_key(before[j]) != entry_key(before[i as int]));
                                assert(q != k);
                            }
                        }
                    }
                }
                self.entries = entries;
            },
            None => {
                let mut entries: Vec<CacheEntry> = Vec::new();
                std::mem::swap(&mut entries, &mut self.entries);
                entries.push(entry);
                proof {
                    assert forall|a: int, b: int| 0 <= a < b < entries@.len() implies entry_key(
                        #[trigger] entries@[a],
                    ) != entry_key(#[trigger] entries@[b]) by {
                        if b < before.len() {
                            assert(entries@[a] == before[a] && entries@[b] == before[b]);
                        } else {
                            assert(entries@[a] == before[a]);
                        }
                    }
                    assert(entries@.drop_last() =~= before);
                }
                self.entries = entries;
            },
        }
    }

    /// Serve `(operation, language)` from the cache when fresh, counting a hit;
    /// otherwise count a miss and report nothing.
    pub fn lookup(&mut self, operation: &str, language: &str, now_ms: u64) -> (r: Option<
        ServiceOperationMeta,
    >)
        requires
            old(self).counters().0 < u64::MAX,
            old(self).counters().1 < u64::MAX,
        ensures
            final(self).entries_view() == old(self).entries_view(),
            final(self).ttl() == old(self).ttl(),
            final(self).inner_client() == old(self).inner_client(),
            match fresh_meta(
                old(self).entries_view(),
                key(operation@, language@),
                now_ms,
                old(self).ttl(),
            ) {
                Some(m) => r matches Some(x) && x@ == m && final(self).counters() == (
                    (old(self).counters().0 + 1) as u64,
                    old(self).counters().1,
                    old(self).counters().2,
                ),
                None => r is None && final(self).counters() == (
                    old(self).counters().0,
                    (old(self).counters().1 + 1) as u64,
                    old(self).counters().2,
                ),
            },
    {
        proof {
            use_type_invariant(&*self);
        }
        let r = self.get_fresh(operation, language, now_ms);
        if r.is_some() {
            self.stats.hits = self.stats.hits + 1;
        } else {
            self.stats.misses = self.stats.misses + 1;
        }
        r
    }

    /// Record what the inner client returned for `(operation, language)`.
    pub fn record(&mut self, operation: &str, language: &str, meta: ServiceOperationMeta, now_ms: u64)
        ensures
            final(self).entries_view() == stored(
                old(self).entries_view(),
                key(operation@, language@),
                meta@,
                now_ms,
                old(self).ttl(),
            ),
            final(self).counters() == old(self).counters(),
            final(self).ttl() == old(self).ttl(),
            final(self).inner_client() == old(self).inner_client(),
    {
        self.store(operation, language, meta, now_ms);
    }

    /// The metadata of `operation` in `language`: from the cache while fresh (a
    /// hit), else from the inner client (a miss), whose answer is then cached.
    pub fn service_metadata(&mut self, operation: &str, language: &str, now_ms: u64) -> (r:
        D365Result<ServiceOperationMeta>)
        requires
            old(self).counters().0 < u64::MAX,
            old(self).counters().1 < u64::MAX,
        ensures
            final(self).ttl() == old(self).ttl(),
            final(self).inner_client() == old(self).inner_client(),
            match fresh_meta(
                old(self).entries_view(),
                key(operation@, language@),
                now_ms,
                old(self).ttl(),
            ) {
                Some(m) => r matches Ok(x) && x@ == m && final(self).entries_view() == old(self).entries_view() && final(self).counters() == (
                    (old(self).counters().0 + 1) as u64,
                    old(self).counters().1,
                    old(self).counters().2,
                ),
                None => final(self).counters() == (
                    old(self).counters().0,
                    (old(self).counters().1 + 1) as u64,
                    old(self).counters().2,
                ) && (r matches Ok(x) ==> final(self).entries_view() == stored(
                    old(self).entries_view(),
                    key(operation@, language@),
                    x@,
                    now_ms,
                    old(self).ttl(),
                )) && (r is Err ==> final(self).entries_view() == old(self).entries_view())
                    && (*old(self).inner_client()).service_metadata_post(operation@, language@, r),
            },
    {
        match self.lookup(operation, language, now_ms) {
            Some(m) => Ok(m),
            None => {
                let fetched = self.inner.service_metadata(operation, language);
                match fetched {
                    Ok(meta) => {
                        let copy = meta.duplicate();
                        self.store(operation, language, copy, now_ms);
                        Ok(meta)
                    },
                    Err(e) => Err(e),
                }
            },
        }
    }

    /// Split a bulk request: the fresh metadata served from the cache (each a hit)
    /// and the operations to fetch (each a miss), both in request order.
    pub fn bulk_plan(&mut self, operations: &[String], language: &str, now_ms: u64) -> (r: (
        Vec<ServiceOperationMeta>,
        Vec<String>,
    ))
        requires
            old(self).counters().0 + operations@.len() <= u64::MAX,
            old(self).counters().1 + operations@.len() <= u64::MAX,
        ensures
            final(self).entries_view() == old(self).entries_view(),
            final(self).ttl() == old(self).ttl(),
            final(self).inner_client() == old(self).inner_client(),
            metas_view(r.0@) == fresh_hits(
                old(self).entries_view(),
                strings_view(operations@),
                language@,
                now_ms,
                old(self).ttl(),
            ),
            strings_view(r.1@) == stale_ops(
                old(self).entries_view(),
                strings_view(operations@),
                language@,
                now_ms,
                old(self).ttl(),
            ),
            final(self).counters() == (
                (old(self).counters().0 + r.0@.len()) as u64,
                (old(self).counters().1 + r.1@.len()) as u64,
                old(self).counters().2,
            ),
    {
        let ghost m = self.entries_view();
        let ghost ov = strings_view(operations@);
        let ghost ttl = self.ttl();
        let ghost c0 = self.counters();
        let mut cached: Vec<ServiceOperationMeta> = Vec::new();
        let mut to_fetch: Vec<String> = Vec::new();
        let mut i: usize = 0;
        while i < operations.len()
            invariant
                i <= operations@.len(),
                ov == strings_view(operations@),
                m == self.entries_view(),
                ttl == self.ttl(),
                self.inner_client() == old(self).inner_client(),
                c0 == old(self).counters(),
                c0.0 + operations@.len() <= u64::MAX,
                c0.1 + operations@.len() <= u64::MAX,
                cached@.len() + to_fetch@.len() == i,
                metas_view(cached@) == fresh_hits(m, ov.take(i as int), language@, now_ms, ttl),
                strings_view(to_fetch@) == stale_ops(m, ov.take(i as int), language@, now_ms, ttl),
                self.counters() == (
                    (c0.0 + cached@.len()) as u64,
                    (c0.1 + to_fetch@.len()) as u64,
                    c0.2,
                ),
            decreases operations.len() - i,
        {
            proof {
                assert(ov.take(i as int + 1).drop_last() =~= ov.take(i as int));
                assert(ov.take(i as int + 1).last() == operations@[i as int]@);
            }
            let op = operations[i].as_str();
            match self.lookup(op, language, now_ms) {
                Some(meta) => {
                    let ghost before = cached@;
                    cached.push(meta);
                    proof {
                        assert(metas_view(cached@) =~= metas_view(before).push(cached@.last()@));
                    }
                },
                None => {
                    let ghost before = to_fetch@;
                    to_fetch.push(owned(op));
                    proof {
                        assert(strings_view(to_fetch@) =~= strings_view(before).push(
                            operations@[i as int]@,
                        ));
                    }
                },
            }
            i = i + 1;
        }
        proof {
            assert(ov.take(ov.len() as int) =~= ov);
        }
        (cached, to_fetch)
    }

    /// Finish a bulk request: cache each fetched operation under its own name and
    /// answer with the cached metadata followed by the fetched, and the fetch's
    /// missing list.
    pub fn bulk_finish(
        &mut self,
        cached: Vec<ServiceOperationMeta>,
        fetched: BulkMetadata,
        language: &str,
        now_ms: u64,
    ) -> (r: BulkMetadata)
        ensures
            final(self).entries_view() == stored_all(
                old(self).entries_view(),
                metas_view(fetched.operations@),
                language@,
                now_ms,
                old(self).ttl(),
            ),
            final(self).counters() == old(self).counters(),
            final(self).ttl() == old(self).ttl(),
            final(self).inner_client() == old(self).inner_client(),
            r.language@ == language@,
            metas_view(r.operations@) == metas_view(cached@) + metas_view(fetched.operations@),
            strings_view(r.missing@) == strings_view(fetched.missing@),
    {
        let ghost m0 = self.entries_view();
        let ghost fv = metas_view(fetched.operations@);
        let mut operations = cached;
        let ghost start = metas_view(operations@);
        let BulkMetadata { language: _, operations: got, missing } = fetched;
        let mut i: usize = 0;
        while i < got.len()
            invariant
                i <= got@.len(),
                fv == metas_view(got@),
                self.entries_view() == stored_all(m0, fv.take(i as int), language@, now_ms, self.ttl()),
                self.counters() == old(self).counters(),
                self.ttl() == old(self).ttl(),
                self.inner_client() == old(self).inner_client(),
                m0 == old(self).entries_view(),
                metas_view(operations@) == start + fv.take(i as int),
            decreases got.len() - i,
        {
            let meta = got[i].duplicate();
            proof {
                assert(fv.take(i as int + 1).drop_last() =~= fv.take(i as int));
                assert(fv.take(i as int + 1).last() == got@[i as int]@);
            }
            self.store(got[i].operation.as_str(), language, meta, now_ms);
            let ghost before = operations@;
            operations.push(got[i].duplicate());
            proof {
                assert(metas_view(operations@) =~= metas_view(before).push(got@[i as int]@));
                assert(fv.take(i as int + 1) =~= fv.take(i as int).push(fv[i as int]));
            }
            i = i + 1;
        }
        proof {
            assert(fv.take(fv.len() as int) =~= fv);
        }
        BulkMetadata { language: owned(language), operations, missing }
    }

    /// The metadata of several operations: fresh ones from the cache, the rest in
    /// one bulk call to the inner client, whose answers are then cached.
    pub fn bulk_service_metadata(&mut self, operations: &[String], language: &str, now_ms: u64) -> (r:
        D365Result<BulkMetadata>)
        requires
            old(self).counters().0 + operations@.len() <= u64::MAX,
            old(self).counters().1 + operations@.len() <= u64::MAX,
        ensures
            final(self).ttl() == old(self).ttl(),
            final(self).inner_client() == old(self).inner_client(),
            ({
                let hits = fresh_hits(
                    old(self).entries_view(),
                    strings_view(operations@),
                    language@,
                    now_ms,
                    old(self).ttl(),
                );
                let stale = stale_ops(
                    old(self).entries_view(),
                    strings_view(operations@),
                    language@,
                    now_ms,
                    old(self).ttl(),
                );
                &&& final(self).counters() == (
                    (old(self).counters().0 + hits.len()) as u64,
                    (old(self).counters().1 + stale.len()) as u64,
                    old(self).counters().2,
                )
                &&& stale.len() == 0 ==> (r matches Ok(b) && b.language@ == language@
                    && metas_view(b.operations@) == hits && b.missing@.len() == 0 && final(self).entries_view() == old(self).entries_view())
                &&& r is Err ==> final(self).entries_view() == old(self).entries_view()
                &&& stale.len() > 0 ==> match r {
                    Ok(b) => exists|f: BulkMetadata|
                        #[trigger] (*old(self).inner_client()).bulk_service_metadata_post(
                            stale,
                            language@,
                            Ok::<BulkMetadata, crate::odata::error::D365Error>(f),
                        ) && metas_view(b.operations@) == hits + metas_view(f.operations@)
                            && strings_view(b.missing@) == strings_view(f.missing@),
                    Err(e) => (*old(self).inner_client()).bulk_service_metadata_post(
                        stale,
                        language@,
                        Err(e),
                    ),
                }
                &&& r matches Ok(b) ==> b.language@ == language@ && metas_view(b.operations@).take(
                    hits.len() as int,
                ) == hits && final(self).entries_view() == stored_all(
                    old(self).entries_view(),
                    metas_view(b.operations@).skip(hits.len() as int),
                    language@,
                    now_ms,
                    old(self).ttl(),
                )
            }),
    {
        let (cached, to_fetch) = self.bulk_plan(operations, language, now_ms);
        if to_fetch.len() == 0 {
            let r = BulkMetadata { language: owned(language), operations: cached, missing: Vec::new() };
            proof {
                assert(metas_view(r.operations@).take(metas_view(r.operations@).len() as int)
                    =~= metas_view(r.operations@));
                assert(metas_view(r.operations@).skip(metas_view(r.operations@).len() as int)
                    =~= Seq::<ServiceOperationMetaView>::empty());
            }
            return Ok(r);
        }
        let fetched = self.inner.bulk_service_metadata(to_fetch.as_slice(), language);
        match fetched {
            Ok(f) => {
                let ghost cv = metas_view(cached@);
                let ghost fv = metas_view(f.operations@);
                let ghost fg = f;
                let r = self.bulk_finish(cached, f, language, now_ms);
                proof {
                    assert(metas_view(r.operations@).take(cv.len() as int) =~= cv);
                    assert(metas_view(r.operations@).skip(cv.len() as int) =~= fv);
                    assert((*old(self).inner_client()).bulk_service_metadata_post(
                        strings_view(to_fetch@),
                        language@,
                        Ok::<BulkMetadata, crate::odata::error::D365Error>(fg),
                    ));
                }
                Ok(r)
            },
            Err(e) => Err(e),
        }
    }

    /// The inner backend's environment identity.
    pub fn environment_info(&self) -> (r: D365Result<EnvironmentInfo>)
        ensures
            (*self.inner_client()).environment_info_post(r),
    {
        self.inner.environment_info()
    }

    /// The inner backend's search; searches are not cached.
    pub fn search_service(&self, query: &str, limit: usize) -> (r: D365Result<ServiceSearchResult>)
        ensures
            (*self.inner_client()).search_service_post(query@, limit, r),
    {
        self.inner.search_service(query, limit)
    }

    /// The inner backend's call; calls are never cached.
    pub fn call_service(&self, request: ServiceCallRequest, read_only_mode: bool) -> (r: D365Result<
        Json,
    >)
        ensures
            (*self.inner_client()).call_service_post(request, read_only_mode, r),
    {
        self.inner.call_service(request, read_only_mode)
    }

    /// The inner backend's read; entity rows are never cached.
    pub fn read_entity(&self, request: ReadEntityRequest) -> (r: D365Result<Vec<EntityRow>>)
        ensures
            (*self.inner_client()).read_entity_post(request, r),
    {
        self.inner.read_entity(request)
    }

    /// The inner backend's entity structure.
    pub fn entity_structure(&self, entity: &str) -> (r: D365Result<EntityStructure>)
        ensures
            (*self.inner_client()).entity_structure_post(entity@, r),
    {
        self.inner.entity_structure(entity)
    }

    /// The inner backend's pool snapshot.
    pub fn pool_status(&self) -> (s: PoolStatus)
        ensures
            (*self.inner_client()).pool_status_post(s),
    {
        self.inner.pool_status()
    }
}

/// A lookup within the TTL of storing returns what was stored, whatever the cache
/// held before; with a TTL of zero nothing is ever stored.
pub proof fn law_stored_is_fresh(
    m: Map<CacheKey, Cached>,
    k: CacheKey,
    meta: ServiceOperationMetaView,
    stored_at_ms: u64,
    now_ms: u64,
    ttl_ms: u64,
)
    ensures
        ttl_ms > 0 && stored_at_ms <= now_ms && now_ms - stored_at_ms <= ttl_ms ==> fresh_meta(
            stored(m, k, meta, stored_at_ms, ttl_ms),
            k,
            now_ms,
            ttl_ms,
        ) == Some(meta),
        ttl_ms == 0 ==> stored(m, k, meta, stored_at_ms, ttl_ms) == m,
{
}

/// An entry older than the TTL is never served.
pub proof fn law_expired_is_stale(m: Map<CacheKey, Cached>, k: CacheKey, now_ms: u64, ttl_ms: u64)
    requires
        ttl_ms > 0,
        m.contains_key(k),
        elapsed(now_ms, m[k].at_ms) > ttl_ms,
    ensures
        fresh_meta(m, k, now_ms, ttl_ms) is None,
{
}

} // verus!
