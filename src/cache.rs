//! The holder-count cache: a table of at most `capacity` tokens, each with its
//! last count, served on hits, filled on misses (evicting the entry fetched
//! longest ago), and refreshed in place in the background.

use vstd::prelude::*;

use crate::address::{base58_text, Address};

verus! {

/// Number of tokens a cache built by `HolderCache::new` holds at most.
pub const DEFAULT_MAX_TOKENS: usize = 2;

/// How long an interactive caller waits for a fetch on a miss, in seconds.
pub const API_TIMEOUT_SECS: u64 = 5;

/// How long a background refresh waits for a fetch, in seconds.
pub const REFRESH_TIMEOUT_SECS: u64 = 90;

/// The cached count of one token.
#[derive(Clone, Copy, Debug)]
pub struct HolderCacheEntry {
    /// Holder count last computed.
    pub count: usize,
    /// When `count` was computed (seconds since the Unix epoch).
    pub timestamp: u64,
    pub mint: Address,
    /// Lookups served for this token, the first miss included.
    pub request_count: u64,
    /// When the token entered the cache.
    pub first_seen: u64,
}

/// The entry that a miss on `mint` creates.
pub open spec fn fresh_entry(mint: Address, count: usize, now: u64) -> HolderCacheEntry {
    HolderCacheEntry { count, timestamp: now, mint, request_count: 1, first_seen: now }
}

/// The entry after one more lookup: its request count goes up by one
/// (saturating at `u64::MAX`), all else stays.
pub open spec fn bumped(e: HolderCacheEntry) -> HolderCacheEntry {
    HolderCacheEntry {
        request_count: if e.request_count < u64::MAX {
            (e.request_count + 1) as u64
        } else {
            e.request_count
        },
        ..e
    }
}

/// The entry after a background refresh: new count and fetch time, the same
/// request count and first-seen time.
pub open spec fn refreshed(e: HolderCacheEntry, count: usize, now: u64) -> HolderCacheEntry {
    HolderCacheEntry { count, timestamp: now, ..e }
}

/// Some entry of `s` is for `mint`.
pub open spec fn has_mint(s: Seq<HolderCacheEntry>, mint: Seq<u8>) -> bool {
    exists|i: int| 0 <= i < s.len() && #[trigger] s[i].mint@ == mint
}

/// No two entries of `s` are for the same mint.
pub open spec fn mints_unique(s: Seq<HolderCacheEntry>) -> bool {
    forall|i: int, j: int| 0 <= i < j < s.len() ==> s[i].mint@ != s[j].mint@
}

/// Entry `j` of `s` has the smallest fetch time, and is the first such entry.
pub open spec fn oldest_at(s: Seq<HolderCacheEntry>, j: int) -> bool {
    &&& 0 <= j < s.len()
    &&& forall|i: int| 0 <= i < s.len() ==> s[j].timestamp <= #[trigger] s[i].timestamp
    &&& forall|i: int| 0 <= i < j ==> s[j].timestamp < #[trigger] s[i].timestamp
}

/// Sum of the request counts of `s`.
pub open spec fn total_requests(s: Seq<HolderCacheEntry>) -> nat
    decreases s.len(),
{
    if s.len() == 0 {
        0
    } else {
        total_requests(s.drop_last()) + s.last().request_count as nat
    }
}

/// Statistics of one resident token.
#[derive(Clone, Debug)]
pub struct TokenStats {
    pub mint: String,
    pub holders: usize,
    pub last_updated: u64,
    pub request_count: u64,
    pub first_seen: u64,
}

/// Aggregate counters of the cache.
#[derive(Clone, Copy, Debug)]
pub struct CacheStats {
    pub total_tracked_tokens: usize,
    pub total_requests: u64,
    pub cache_size_bytes: u64,
}

/// The table of cached holder counts, keyed by mint.
pub struct HolderCache {
    entries: Vec<HolderCacheEntry>,
    max_tokens: usize,
    refresh_interval_secs: u64,
    api_timeout_secs: u64,
}

impl View for HolderCache {
    type V = Seq<HolderCacheEntry>;

    closed spec fn view(&self) -> Seq<HolderCacheEntry> {
        self.entries@
    }
}

impl HolderCache {
    /// Most tokens the table holds.
    pub closed spec fn capacity(&self) -> nat {
        self.max_tokens as nat
    }

    /// Refresh period and interactive fetch timeout, in seconds.
    pub closed spec fn timing(&self) -> (u64, u64) {
        (self.refresh_interval_secs, self.api_timeout_secs)
    }

    /// Room for at least one token, no more entries than that, one per mint.
    pub open spec fn wf(&self) -> bool {
        &&& 1 <= self.capacity()
        &&& self@.len() <= self.capacity()
        &&& mints_unique(self@)
    }

    /// An empty cache of `DEFAULT_MAX_TOKENS` tokens, refreshed every
    /// `refresh_interval_secs` seconds.
    pub fn new(refresh_interval_secs: u64) -> (r: HolderCache)
        ensures
            r.wf(),
            r@.len() == 0,
            r.capacity() == DEFAULT_MAX_TOKENS,
            r.timing() == (refresh_interval_secs, API_TIMEOUT_SECS),
    {
        HolderCache::with_capacity(DEFAULT_MAX_TOKENS, refresh_interval_secs)
    }

    /// An empty cache of `max_tokens` tokens, refreshed every
    /// `refresh_interval_secs` seconds.
    pub fn with_capacity(max_tokens: usize, refresh_interval_secs: u64) -> (r: HolderCache)
        requires
            max_tokens >= 1,
        ensures
            r.wf(),
            r@.len() == 0,
            r.capacity() == max_tokens,
            r.timing() == (refresh_interval_secs, API_TIMEOUT_SECS),
    {
        HolderCache {
            entries: Vec::new(),
            max_tokens,
            refresh_interval_secs,
            api_timeout_secs: API_TIMEOUT_SECS,
        }
    }

    /// Most tokens the table holds.
    pub fn max_tokens(&self) -> (r: usize)
        ensures
            r == self.capacity(),
    {
        self.max_tokens
    }

    /// Refresh period in seconds.
    pub fn refresh_interval_secs(&self) -> (r: u64)
        ensures
            r == self.timing().0,
    {
        self.refresh_interval_secs
    }

    /// How long an interactive caller waits for a fetch, in seconds.
    pub fn api_timeout_secs(&self) -> (r: u64)
        ensures
            r == self.timing().1,
    {
        self.api_timeout_secs
    }

    /// Number of resident tokens.
    pub fn len(&self) -> (r: usize)
        ensures
            r == self@.len(),
    {
        self.entries.len()
    }

    /// The index of the entry for `mint`, if there is one.
    fn find(&self, mint: &Address) -> (r: Option<usize>)
        ensures
            match r {
                Some(i) => i < self@.len() && self@[i as int].mint@ == mint@,
                None => !has_mint(self@, mint@),
            },
    {
        let mut i: usize = 0;
        while i < self.entries.len()
            invariant
                0 <= i <= self@.len(),
                forall|j: int| 0 <= j < i ==> self@[j].mint@ != mint@,
            decreases self@.len() - i,
        {
            if self.entries[i].mint.same_as(mint) {
                return Some(i);
            }
            i = i + 1;
        }
        None
    }

    /// The hit path: when `mint` is resident, counts one more request for it
    /// and returns a copy of its entry; otherwise changes nothing.
    pub fn lookup(&mut self, mint: &Address) -> (r: Option<HolderCacheEntry>)
        requires
            old(self).wf(),
        ensures
            final(self).wf(),
            final(self).capacity() == old(self).capacity(),
            final(self).timing() == old(self).timing(),
            r.is_some() == has_mint(old(self)@, mint@),
            r matches Some(e) ==> exists|i: int|
                0 <= i < old(self)@.len() && old(self)@[i].mint@ == mint@ && final(self)@
                    == old(self)@.update(i, bumped(old(self)@[i])) && e == final(self)@[i],
            r.is_none() ==> final(self)@ == old(self)@,
    {
        match self.find(mint) {
            Some(i) => {
                let mut e = self.entries[i];
                if e.request_count < u64::MAX {
                    e.request_count = e.request_count + 1;
                }
                self.entries.set(i, e);
                assert(self@[i as int] == e);
                Some(e)
            },
            None => None,
        }
    }

    /// The first entry with the smallest fetch time.
    fn oldest(&self) -> (r: usize)
        requires
            self@.len() > 0,
        ensures
            oldest_at(self@, r as int),
    {
        let mut best: usize = 0;
        let mut i: usize = 1;
        while i < self.entries.len()
            invariant
                1 <= i <= self@.len(),
                0 <= best < i,
                forall|k: int| 0 <= k < i ==> self@[best as int].timestamp <= #[trigger] self@[k].timestamp,
                forall|k: int| 0 <= k < best ==> self@[best as int].timestamp < #[trigger] self@[k].timestamp,
            decreases self@.len() - i,
        {
            if self.entries[i].timestamp < self.entries[best].timestamp {
                best = i;
            }
            i = i + 1;
        }
        best
    }

    /// The miss path, after a successful fetch of `count` at time `now`. When
    /// `mint` became resident meanwhile, its entry takes the new count and fetch
    /// time and counts one more request, keeping its first-seen time. Otherwise,
    /// when the table is full, the entry fetched longest ago is evicted first;
    /// then a new entry, with one request and first seen `now`, is added.
    pub fn store(&mut self, mint: &Address, count: usize, now: u64) -> (r: HolderCacheEntry)
        requires
            old(self).wf(),
        ensures
            final(self).wf(),
            final(self).capacity() == old(self).capacity(),
            final(self).timing() == old(self).timing(),
            has_mint(old(self)@, mint@) ==> exists|i: int|
                0 <= i < old(self)@.len() && old(self)@[i].mint@ == mint@ && r == bumped(
                    refreshed(old(self)@[i], count, now),
                ) && final(self)@ == old(self)@.update(i, r),
            !has_mint(old(self)@, mint@) ==> r == fresh_entry(*mint, count, now),
            !has_mint(old(self)@, mint@) && old(self)@.len() < old(self).capacity()
                ==> final(self)@ == old(self)@.push(r),
            !has_mint(old(self)@, mint@) && old(self)@.len() >= old(self).capacity()
                ==> exists|j: int|
                oldest_at(old(self)@, j) && final(self)@ == old(self)@.remove(j).push(r),
    {
        let ghost before = self@;
        match self.find(mint) {
            Some(i) => {
                let mut e = self.entries[i];
                e.count = count;
                e.timestamp = now;
                if e.request_count < u64::MAX {
                    e.request_count = e.request_count + 1;
                }
                self.entries.set(i, e);
                assert forall|a: int, b: int| 0 <= a < b < self@.len() implies self@[a].mint@
                    != self@[b].mint@ by {
                    assert(before[a].mint@ != before[b].mint@);
                }
                e
            },
            None => {
                let entry = HolderCacheEntry {
                    count,
                    timestamp: now,
                    mint: *mint,
                    request_count: 1,
                    first_seen: now,
                };
                if self.entries.len() >= self.max_tokens {
                    let j = self.oldest();
                    self.entries.remove(j);
                    assert(!has_mint(self@, mint@)) by {
                        if has_mint(self@, mint@) {
                            let k = choose|k: int| 0 <= k < self@.len() && #[trigger] self@[k].mint@ == mint@;
                            if k < j {
                                assert(before[k].mint@ == mint@);
                            } else {
                                assert(before[k + 1].mint@ == mint@);
                            }
                        }
                    }
                    assert(mints_unique(self@)) by {
                        assert forall|a: int, b: int| 0 <= a < b < self@.len() implies self@[a].mint@
                            != self@[b].mint@ by {
                            let a0 = if a < j { a } else { a + 1 };
                            let b0 = if b < j { b } else { b + 1 };
                            assert(self@[a] == before[a0]);
                            assert(self@[b] == before[b0]);
                        }
                    }
                }
                let ghost middle = self@;
                self.entries.push(entry);
                assert forall|a: int, b: int| 0 <= a < b < self@.len() implies self@[a].mint@
                    != self@[b].mint@ by {
                    if b == self@.len() - 1 {
                        assert(middle[a].mint@ != mint@);
                    } else {
                        assert(middle[a].mint@ != middle[b].mint@);
                    }
                }
                entry
            },
        }
    }

    /// A successful background refresh of `mint` with `count` at time `now`:
    /// updates the count and fetch time of its entry, keeping the request count
    /// and first-seen time. A mint that is no longer resident is left out.
    pub fn refresh(&mut self, mint: &Address, count: usize, now: u64) -> (r: bool)
        requires
            old(self).wf(),
        ensures
            final(self).wf(),
            final(self).capacity() == old(self).capacity(),
            final(self).timing() == old(self).timing(),
            r == has_mint(old(self)@, mint@),
            r ==> exists|i: int|
                0 <= i < old(self)@.len() && old(self)@[i].mint@ == mint@ && final(self)@
                    == old(self)@.update(i, refreshed(old(self)@[i], count, now)),
            !r ==> final(self)@ == old(self)@,
    {
        match self.find(mint) {
            Some(i) => {
                let mut e = self.entries[i];
                e.count = count;
                e.timestamp = now;
                self.entries.set(i, e);
                true
            },
            None => false,
        }
    }

    /// The mints of all resident entries, in table order.
    pub fn resident_mints(&self) -> (r: Vec<Address>)
        ensures
            r@.len() == self@.len(),
            forall|i: int| 0 <= i < r@.len() ==> r@[i] == self@[i].mint,
    {
        let mut r: Vec<Address> = Vec::new();
        let mut i: usize = 0;
        while i < self.entries.len()
            invariant
                0 <= i <= self@.len(),
                r@.len() == i,
                forall|k: int| 0 <= k < i ==> r@[k] == self@[k].mint,
            decreases self@.len() - i,
        {
            r.push(self.entries[i].mint);
            i = i + 1;
        }
        r
    }

    /// A snapshot of every resident entry, in table order.
    pub fn get_tracked_tokens(&self) -> (r: Vec<TokenStats>)
        ensures
            r@.len() == self@.len(),
            forall|i: int|
                0 <= i < r@.len() ==> {
                    &&& (#[trigger] r@[i]).mint@ == base58_text(self@[i].mint@)
                    &&& r@[i].holders == self@[i].count
                    &&& r@[i].last_updated == self@[i].timestamp
                    &&& r@[i].request_count == self@[i].request_count
                    &&& r@[i].first_seen == self@[i].first_seen
                },
    {
        let mut r: Vec<TokenStats> = Vec::new();
        let mut i: usize = 0;
        while i < self.entries.len()
            invariant
                0 <= i <= self@.len(),
                r@.len() == i,
                forall|k: int|
                    0 <= k < i ==> {
                        &&& (#[trigger] r@[k]).mint@ == base58_text(self@[k].mint@)
                        &&& r@[k].holders == self@[k].count
                        &&& r@[k].last_updated == self@[k].timestamp
                        &&& r@[k].request_count == self@[k].request_count
                        &&& r@[k].first_seen == self@[k].first_seen
                    },
            decreases self@.len() - i,
        {
            let e = &self.entries[i];
            r.push(
                TokenStats {
                    mint: e.mint.to_text(),
                    holders: e.count,
                    last_updated: e.timestamp,
                    request_count: e.request_count,
                    first_seen: e.first_seen,
                },
            );
            i = i + 1;
        }
        r
    }

    /// Aggregate counters: resident tokens, all requests served (saturating at
    /// `u64::MAX`), and the size of the table itself in bytes.
    pub fn get_cache_stats(&self) -> (r: CacheStats)
        ensures
            r.total_tracked_tokens == self@.len(),
            r.total_requests == if total_requests(self@) < u64::MAX {
                total_requests(self@)
            } else {
                u64::MAX as nat
            },
            r.cache_size_bytes == vstd::layout::size_of::<Vec<HolderCacheEntry>>(),
    {
        let mut total: u64 = 0;
        let mut i: usize = 0;
        while i < self.entries.len()
            invariant
                0 <= i <= self@.len(),
                total == if total_requests(self@.take(i as int)) < u64::MAX {
                    total_requests(self@.take(i as int))
                } else {
                    u64::MAX as nat
                },
            decreases self@.len() - i,
        {
            let n = self.entries[i].request_count;
            assert(self@.take(i + 1).drop_last() =~= self@.take(i as int));
            if total > u64::MAX - n {
                total = u64::MAX;
            } else {
                total = total + n;
            }
            i = i + 1;
        }
        assert(self@.take(self@.len() as int) =~= self@);
        let size = core::mem::size_of::<Vec<HolderCacheEntry>>();
        CacheStats {
            total_tracked_tokens: self.entries.len(),
            total_requests: total,
            cache_size_bytes: size as u64,
        }
    }
}

/// What the holder endpoint answers for one token.
#[derive(Clone, Debug)]
pub struct HolderCountResponse {
    pub mint: String,
    pub holders: usize,
    pub cached: bool,
    pub timestamp: u64,
}

impl HolderCountResponse {
    /// The answer built from a cache entry that a lookup returned: it was served
    /// from the cache when the entry had already been requested before.
    pub fn from_entry(mint: String, entry: &HolderCacheEntry) -> (r: HolderCountResponse)
        ensures
            r.mint == mint,
            r.holders == entry.count,
            r.timestamp == entry.timestamp,
            r.cached == (entry.request_count > 1),
    {
        HolderCountResponse {
            mint,
            holders: entry.count,
            cached: entry.request_count > 1,
            timestamp: entry.timestamp,
        }
    }
}

/// A count and when it was fetched, on a monotonic clock in milliseconds.
#[derive(Clone, Copy, Debug)]
pub struct CachedResult {
    pub count: usize,
    pub timestamp_ms: u64,
}

/// A cached count that expires `ttl_ms` milliseconds after it was fetched.
#[derive(Clone, Copy, Debug)]
pub struct CacheEntry {
    pub result: CachedResult,
    pub ttl_ms: u64,
}

impl CacheEntry {
    /// Milliseconds since the count was fetched; 0 for a fetch time after `now_ms`.
    pub open spec fn elapsed_ms(&self, now_ms: u64) -> int {
        if now_ms >= self.result.timestamp_ms {
            now_ms - self.result.timestamp_ms
        } else {
            0
        }
    }

    /// Whether the entry has lived its time to live at `now_ms`.
    pub fn is_expired(&self, now_ms: u64) -> (r: bool)
        ensures
            r == (self.elapsed_ms(now_ms) >= self.ttl_ms),
    {
        let elapsed = if now_ms >= self.result.timestamp_ms {
            now_ms - self.result.timestamp_ms
        } else {
            0
        };
        elapsed >= self.ttl_ms
    }

    /// Whether the entry may still be served at `now_ms`; an entry that is not
    /// is treated as a miss.
    pub fn is_valid(&self, now_ms: u64) -> (r: bool)
        ensures
            r == (self.elapsed_ms(now_ms) < self.ttl_ms),
    {
        !self.is_expired(now_ms)
    }
}

/// Milliseconds in a second.
pub const MS_PER_SEC: u64 = 1000;

/// The entry for key `k` in a table of keyed entries, if there is one.
pub open spec fn keyed_at<V>(s: Seq<(Seq<u8>, V)>, k: Seq<u8>, i: int) -> bool {
    0 <= i < s.len() && s[i].0 == k
}

/// No two entries of `s` share a key.
pub open spec fn keys_unique<V>(s: Seq<(Seq<u8>, V)>) -> bool {
    forall|i: int, j: int| 0 <= i < j < s.len() ==> s[i].0 != s[j].0
}

impl HolderCountResponse {
    /// The answer for a count that was just fetched.
    pub fn fetched(mint: String, count: usize) -> (r: HolderCountResponse)
        ensures
            r == (HolderCountResponse { mint, holders: count, cached: false, timestamp: 0 }),
    {
        HolderCountResponse { mint, holders: count, cached: false, timestamp: 0 }
    }
}

/// A table of counts that expire a fixed time after they were fetched; a read
/// of an expired count is a miss. Times are on a monotonic clock, in
/// milliseconds.
pub struct ApiState {
    entries: Vec<(Address, CacheEntry)>,
    cache_ttl_ms: u64,
}

impl View for ApiState {
    type V = Seq<(Seq<u8>, CacheEntry)>;

    closed spec fn view(&self) -> Seq<(Seq<u8>, CacheEntry)> {
        self.entries@.map_values(|p: (Address, CacheEntry)| (p.0@, p.1))
    }
}

impl ApiState {
    /// Time to live of every count stored from now on, in milliseconds.
    pub closed spec fn ttl_ms(&self) -> u64 {
        self.cache_ttl_ms
    }

    /// One entry per mint.
    pub open spec fn wf(&self) -> bool {
        keys_unique(self@)
    }

    /// An empty table whose counts live `cache_ttl_secs` seconds (saturating at
    /// `u64::MAX` milliseconds).
    pub fn new(cache_ttl_secs: u64) -> (r: ApiState)
        ensures
            r.wf(),
            r@.len() == 0,
            r.ttl_ms() == if cache_ttl_secs <= u64::MAX / 1000 {
                cache_ttl_secs * 1000
            } else {
                u64::MAX as int
            },
    {
        let cache_ttl_ms = if cache_ttl_secs <= u64::MAX / MS_PER_SEC {
            cache_ttl_secs * MS_PER_SEC
        } else {
            u64::MAX
        };
        let r = ApiState { entries: Vec::new(), cache_ttl_ms };
        assert(r@ =~= Seq::<(Seq<u8>, CacheEntry)>::empty());
        r
    }

    /// The index of the entry for `mint`, if there is one.
    fn find(&self, mint: &Address) -> (r: Option<usize>)
        ensures
            match r {
                Some(i) => keyed_at(self@, mint@, i as int),
                None => forall|i: int| !keyed_at(self@, mint@, i),
            },
    {
        let mut i: usize = 0;
        while i < self.entries.len()
            invariant
                0 <= i <= self@.len(),
                self@.len() == self.entries@.len(),
                forall|j: int| 0 <= j < i ==> !keyed_at(self@, mint@, j),
            decreases self@.len() - i,
        {
            if self.entries[i].0.same_as(mint) {
                return Some(i);
            }
            i = i + 1;
        }
        None
    }

    /// The read path at `now_ms`: the answer from a count for `mint` that has
    /// not expired, with its age in whole seconds; `None` on a miss.
    pub fn cached_response(&self, mint: &Address, mint_text: String, now_ms: u64) -> (r: Option<
        HolderCountResponse,
    >)
        requires
            self.wf(),
        ensures
            match r {
                Some(resp) => exists|i: int|
                    keyed_at(self@, mint@, i) && self@[i].1.elapsed_ms(now_ms) < self@[i].1.ttl_ms
                        && resp == (HolderCountResponse {
                        mint: mint_text,
                        holders: self@[i].1.result.count,
                        cached: true,
                        timestamp: (self@[i].1.elapsed_ms(now_ms) / 1000) as u64,
                    }),
                None => forall|i: int|
                    keyed_at(self@, mint@, i) ==> self@[i].1.elapsed_ms(now_ms) >= self@[i].1.ttl_ms,
            },
    {
        match self.find(mint) {
            Some(i) => {
                let entry = self.entries[i].1;
                assert(self@[i as int].1 == entry);
                if entry.is_valid(now_ms) {
                    let elapsed = if now_ms >= entry.result.timestamp_ms {
                        now_ms - entry.result.timestamp_ms
                    } else {
                        0
                    };
                    Some(
                        HolderCountResponse {
                            mint: mint_text,
                            holders: entry.result.count,
                            cached: true,
                            timestamp: elapsed / MS_PER_SEC,
                        },
                    )
                } else {
                    None
                }
            },
            None => None,
        }
    }

    /// Stores a count for `mint` fetched at `now_ms`, replacing the one held.
    pub fn record(&mut self, mint: &Address, count: usize, now_ms: u64)
        requires
            old(self).wf(),
        ensures
            final(self).wf(),
            final(self).ttl_ms() == old(self).ttl_ms(),
            ({
                let e = CacheEntry {
                    result: CachedResult { count, timestamp_ms: now_ms },
                    ttl_ms: old(self).ttl_ms(),
                };
                &&& (exists|i: int| keyed_at(old(self)@, mint@, i)) ==> exists|i: int|
                    keyed_at(old(self)@, mint@, i) && final(self)@ == old(self)@.update(i, (mint@, e))
                &&& (forall|i: int| !keyed_at(old(self)@, mint@, i)) ==> final(self)@ == old(
                    self,
                )@.push((mint@, e))
            }),
    {
        let entry = CacheEntry {
            result: CachedResult { count, timestamp_ms: now_ms },
            ttl_ms: self.cache_ttl_ms,
        };
        let ghost before = self@;
        match self.find(mint) {
            Some(i) => {
                self.entries.set(i, (*mint, entry));
                assert(self@ =~= before.update(i as int, (mint@, entry)));
            },
            None => {
                self.entries.push((*mint, entry));
                assert(self@ =~= before.push((mint@, entry)));
                assert forall|a: int, b: int| 0 <= a < b < self@.len() implies self@[a].0
                    != self@[b].0 by {
                    if b == before.len() {
                        assert(!keyed_at(before, mint@, a));
                    }
                }
            },
        }
    }
}

} // verus!
