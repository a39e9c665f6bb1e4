//! The content-addressed metadata cache: extracted identities keyed by the
//! digest of the archive they came from, bounded in size, evicted least
//! recently used first, and expiring after a time to live.

use crate::clock::current_timestamp;
use crate::types::{ModInfo, ModInfoView};
use vstd::prelude::*;

verus! {

/// One cached identity with the bookkeeping of the cache.
#[derive(Debug, PartialEq)]
pub struct CachedJarInfo {
    /// Digest of the archive's bytes: the key of the entry.
    pub hash: String,
    /// File name the archive had when it was cached.
    pub filename: String,
    /// Size of the archive in bytes.
    pub size: u64,
    /// The identity extracted from the archive.
    pub mod_info: ModInfo,
    /// When the entry was cached, in seconds since the Unix epoch.
    pub cached_at: u64,
    /// When the entry was last read, in seconds since the Unix epoch.
    pub last_accessed: u64,
}

/// The mathematical content of a [`CachedJarInfo`].
pub struct CachedJarInfoView {
    pub hash: Seq<char>,
    pub filename: Seq<char>,
    pub size: u64,
    pub mod_info: ModInfoView,
    pub cached_at: u64,
    pub last_accessed: u64,
}

impl View for CachedJarInfo {
    type V = CachedJarInfoView;

    open spec fn view(&self) -> CachedJarInfoView {
        CachedJarInfoView {
            hash: self.hash@,
            filename: self.filename@,
            size: self.size,
            mod_info: self.mod_info@,
            cached_at: self.cached_at,
            last_accessed: self.last_accessed,
        }
    }
}

impl Clone for CachedJarInfo {
    fn clone(&self) -> (copy: Self)
        ensures
            copy@ == self@,
    {
        CachedJarInfo {
            hash: self.hash.clone(),
            filename: self.filename.clone(),
            size: self.size,
            mod_info: self.mod_info.clone(),
            cached_at: self.cached_at,
            last_accessed: self.last_accessed,
        }
    }
}

/// The number of seconds in `ttl_hours` hours.
pub open spec fn ttl_seconds(ttl_hours: u32) -> int {
    ttl_hours as int * 3600
}

/// The age at `now` of something that happened at `since`: zero where
/// `since` lies in the future.
pub open spec fn age_at(since: u64, now: u64) -> int {
    if now >= since {
        now - since
    } else {
        0
    }
}

/// Whether an entry cached at `cached_at` is older at `now` than `ttl_hours`.
pub open spec fn expired_at(cached_at: u64, ttl_hours: u32, now: u64) -> bool {
    age_at(cached_at, now) > ttl_seconds(ttl_hours)
}

/// The entry `e` after it was read at `now`. An entry is never accessed
/// before it was cached: a clock that ran backwards leaves the time of
/// caching as the time of access.
pub open spec fn touched(e: CachedJarInfoView, now: u64) -> CachedJarInfoView {
    CachedJarInfoView { last_accessed: if now >= e.cached_at { now } else { e.cached_at }, ..e }
}

/// The entry made at `now` for an archive.
pub open spec fn fresh_entry(
    hash: Seq<char>,
    filename: Seq<char>,
    size: u64,
    mod_info: ModInfoView,
    now: u64,
) -> CachedJarInfoView {
    CachedJarInfoView { hash, filename, size, mod_info, cached_at: now, last_accessed: now }
}

impl CachedJarInfo {
    /// Whether the entry was last accessed no earlier than it was cached.
    pub open spec fn wf(&self) -> bool {
        self.last_accessed >= self.cached_at
    }

    /// An entry cached at `now`.
    pub fn new_at(hash: String, filename: String, size: u64, mod_info: ModInfo, now: u64) -> (entry:
        Self)
        ensures
            entry@ == fresh_entry(hash@, filename@, size, mod_info@, now),
            entry.wf(),
    {
        CachedJarInfo { hash, filename, size, mod_info, cached_at: now, last_accessed: now }
    }

    /// An entry cached at the time of the call.
    pub fn new(hash: String, filename: String, size: u64, mod_info: ModInfo) -> (entry: Self)
        ensures
            entry@ == fresh_entry(hash@, filename@, size, mod_info@, entry.cached_at),
            entry.wf(),
    {
        let now = current_timestamp();
        Self::new_at(hash, filename, size, mod_info, now)
    }

    /// Records an access at `now`.
    pub fn touch_at(&mut self, now: u64)
        ensures
            final(self)@ == touched(old(self)@, now),
            final(self).wf(),
    {
        if now >= self.cached_at {
            self.last_accessed = now;
        } else {
            self.last_accessed = self.cached_at;
        }
    }

    /// Records an access at the time of the call.
    pub fn touch(&mut self)
        ensures
            final(self)@ == (CachedJarInfoView {
                last_accessed: final(self).last_accessed,
                ..old(self)@
            }),
            final(self).wf(),
    {
        let now = current_timestamp();
        self.touch_at(now);
    }

    /// The age of the entry at `now`, in seconds.
    pub fn age_seconds_at(&self, now: u64) -> (age: u64)
        ensures
            age == age_at(self.cached_at, now),
    {
        if now >= self.cached_at {
            now - self.cached_at
        } else {
            0
        }
    }

    /// The age of the entry at the time of the call, in seconds.
    pub fn age_seconds(&self) -> (age: u64)
        ensures
            exists|now: u64| age == age_at(self.cached_at, now),
    {
        let now = current_timestamp();
        self.age_seconds_at(now)
    }

    /// Whether the entry is older at `now` than `ttl_hours`.
    pub fn is_expired_at(&self, ttl_hours: u32, now: u64) -> (expired: bool)
        ensures
            expired == expired_at(self.cached_at, ttl_hours, now),
    {
        let ttl: u64 = ttl_hours as u64 * 3600;
        self.age_seconds_at(now) > ttl
    }

    /// Whether the entry is older at the time of the call than `ttl_hours`.
    pub fn is_expired(&self, ttl_hours: u32) -> (expired: bool)
        ensures
            exists|now: u64| expired == expired_at(self.cached_at, ttl_hours, now),
    {
        let now = current_timestamp();
        self.is_expired_at(ttl_hours, now)
    }
}

/// The views of the entries in `entries`, in order.
pub open spec fn entries_view(entries: Seq<CachedJarInfo>) -> Seq<CachedJarInfoView> {
    entries.map_values(|e: CachedJarInfo| e@)
}

/// The sum of the sizes of `entries`.
pub open spec fn total_size(entries: Seq<CachedJarInfoView>) -> int
    decreases entries.len(),
{
    if entries.len() == 0 {
        0
    } else {
        total_size(entries.drop_last()) + entries.last().size
    }
}

/// Whether no digest occurs twice in `entries`.
pub open spec fn distinct_hashes(entries: Seq<CachedJarInfoView>) -> bool {
    forall|i: int, j: int|
        0 <= i < entries.len() && 0 <= j < entries.len() && i != j ==> (#[trigger] entries[i]).hash
            != (#[trigger] entries[j]).hash
}

/// What holds of the entries of every cache: no digest occurs twice, no
/// entry was accessed before it was cached, and the sizes add up to a
/// number of bytes that can be counted.
pub open spec fn valid_entries(entries: Seq<CachedJarInfoView>) -> bool {
    &&& distinct_hashes(entries)
    &&& forall|i: int|
        0 <= i < entries.len() ==> (#[trigger] entries[i]).last_accessed >= entries[i].cached_at
    &&& total_size(entries) <= u64::MAX
}

/// The place of the entry with digest `hash` in `entries`, or -1 where
/// there is none.
pub open spec fn hash_index(entries: Seq<CachedJarInfoView>, hash: Seq<char>) -> int
    decreases entries.len(),
{
    if entries.len() == 0 {
        -1
    } else {
        let before = hash_index(entries.drop_last(), hash);
        if before >= 0 {
            before
        } else if entries.last().hash == hash {
            entries.len() - 1
        } else {
            -1
        }
    }
}

/// The place of the entry to evict: the first among those that were
/// accessed the longest ago.
pub open spec fn lru_index(entries: Seq<CachedJarInfoView>) -> int
    decreases entries.len(),
{
    if entries.len() <= 1 {
        0
    } else {
        let before = lru_index(entries.drop_last());
        if entries.last().last_accessed < entries[before].last_accessed {
            entries.len() - 1
        } else {
            before
        }
    }
}

/// The entries that stay when room is made for `size` more bytes under the
/// budget `max`: while the budget would be exceeded and an entry is left,
/// the least recently used entry goes.
pub open spec fn make_room(entries: Seq<CachedJarInfoView>, size: u64, max: u64) -> Seq<
    CachedJarInfoView,
>
    decreases entries.len(),
{
    if entries.len() > 0 && total_size(entries) + size > max {
        proof {
            lemma_lru_index(entries);
        }
        make_room(entries.remove(lru_index(entries)), size, max)
    } else {
        entries
    }
}

/// `entries` with `entry` stored under its digest: in the place of the
/// entry that had the digest, or at the end.
pub open spec fn store(entries: Seq<CachedJarInfoView>, entry: CachedJarInfoView) -> Seq<
    CachedJarInfoView,
> {
    let at = hash_index(entries, entry.hash);
    if at >= 0 {
        entries.update(at, entry)
    } else {
        entries.push(entry)
    }
}

/// The entries after `entry` was put into a cache of budget `max`.
pub open spec fn put_entries(
    entries: Seq<CachedJarInfoView>,
    entry: CachedJarInfoView,
    max: u64,
) -> Seq<CachedJarInfoView> {
    store(make_room(entries, entry.size, max), entry)
}

/// The entries after a lookup of `hash` at `now`: a live entry is touched,
/// an expired one is removed, and nothing changes where there is none.
pub open spec fn get_entries(
    entries: Seq<CachedJarInfoView>,
    hash: Seq<char>,
    ttl_hours: u32,
    now: u64,
) -> Seq<CachedJarInfoView> {
    let at = hash_index(entries, hash);
    if at < 0 {
        entries
    } else if expired_at(entries[at].cached_at, ttl_hours, now) {
        entries.remove(at)
    } else {
        entries.update(at, touched(entries[at], now))
    }
}

/// What a lookup of `hash` at `now` returns: the identity of the entry
/// with that digest, if it has not expired.
pub open spec fn get_result(
    entries: Seq<CachedJarInfoView>,
    hash: Seq<char>,
    ttl_hours: u32,
    now: u64,
) -> Option<ModInfoView> {
    let at = hash_index(entries, hash);
    if at >= 0 && !expired_at(entries[at].cached_at, ttl_hours, now) {
        Some(entries[at].mod_info)
    } else {
        None
    }
}

/// Selects the entries that have not expired at `now`.
pub open spec fn is_live(ttl_hours: u32, now: u64) -> spec_fn(CachedJarInfoView) -> bool {
    |e: CachedJarInfoView| !expired_at(e.cached_at, ttl_hours, now)
}

/// `hash_index` finds the first entry with the digest, and only where one
/// exists.
pub proof fn lemma_hash_index(entries: Seq<CachedJarInfoView>, hash: Seq<char>)
    ensures
        -1 <= hash_index(entries, hash) < entries.len(),
        hash_index(entries, hash) >= 0 ==> entries[hash_index(entries, hash)].hash == hash,
        forall|j: int|
            0 <= j < entries.len() && (#[trigger] entries[j]).hash == hash ==> 0 <= hash_index(
                entries,
                hash,
            ) <= j,
    decreases entries.len(),
{
    if entries.len() > 0 {
        lemma_hash_index(entries.drop_last(), hash);
        assert forall|j: int|
            0 <= j < entries.len() && (#[trigger] entries[j]).hash == hash implies 0 <= hash_index(
            entries,
            hash,
        ) <= j by {
            if j < entries.len() - 1 {
                assert(entries.drop_last()[j].hash == hash);
            }
        }
    }
}

/// The entry that `lru_index` names was accessed no later than any other,
/// and earlier than every entry before it.
pub proof fn lemma_lru_index(entries: Seq<CachedJarInfoView>)
    requires
        entries.len() > 0,
    ensures
        0 <= lru_index(entries) < entries.len(),
        forall|j: int|
            0 <= j < entries.len() ==> entries[lru_index(entries)].last_accessed <= (
            #[trigger] entries[j]).last_accessed,
        forall|j: int|
            0 <= j < lru_index(entries) ==> entries[lru_index(entries)].last_accessed < (
            #[trigger] entries[j]).last_accessed,
    decreases entries.len(),
{
    if entries.len() > 1 {
        let rest = entries.drop_last();
        lemma_lru_index(rest);
        assert forall|j: int| 0 <= j < entries.len() implies entries[lru_index(
            entries,
        )].last_accessed <= (#[trigger] entries[j]).last_accessed by {
            if j < entries.len() - 1 {
                assert(rest[j] == entries[j]);
            }
        }
        assert forall|j: int| 0 <= j < lru_index(entries) implies entries[lru_index(
            entries,
        )].last_accessed < (#[trigger] entries[j]).last_accessed by {
            assert(rest[j] == entries[j]);
        }
    }
}

/// Taking one entry out lowers the total by its size.
pub proof fn lemma_total_size_remove(entries: Seq<CachedJarInfoView>, i: int)
    requires
        0 <= i < entries.len(),
    ensures
        total_size(entries.remove(i)) == total_size(entries) - entries[i].size,
    decreases entries.len(),
{
    if i == entries.len() - 1 {
        assert(entries.remove(i) =~= entries.drop_last());
    } else {
        lemma_total_size_remove(entries.drop_last(), i);
        assert(entries.remove(i).drop_last() =~= entries.drop_last().remove(i));
        assert(entries.remove(i).last() == entries.last());
    }
}

/// Replacing one entry changes the total by the difference of the sizes.
pub proof fn lemma_total_size_update(
    entries: Seq<CachedJarInfoView>,
    i: int,
    entry: CachedJarInfoView,
)
    requires
        0 <= i < entries.len(),
    ensures
        total_size(entries.update(i, entry)) == total_size(entries) - entries[i].size + entry.size,
    decreases entries.len(),
{
    if i == entries.len() - 1 {
        assert(entries.update(i, entry).drop_last() =~= entries.drop_last());
    } else {
        lemma_total_size_update(entries.drop_last(), i, entry);
        assert(entries.update(i, entry).drop_last() =~= entries.drop_last().update(i, entry));
    }
}

/// No total is negative.
pub proof fn lemma_total_size_nonnegative(entries: Seq<CachedJarInfoView>)
    ensures
        total_size(entries) >= 0,
    decreases entries.len(),
{
    if entries.len() > 0 {
        lemma_total_size_nonnegative(entries.drop_last());
    }
}

/// Taking one entry out of valid entries leaves valid entries.
pub proof fn lemma_valid_remove(entries: Seq<CachedJarInfoView>, i: int)
    requires
        valid_entries(entries),
        0 <= i < entries.len(),
    ensures
        valid_entries(entries.remove(i)),
{
    let after = entries.remove(i);
    lemma_total_size_remove(entries, i);
    assert forall|a: int, b: int|
        0 <= a < after.len() && 0 <= b < after.len() && a != b implies (#[trigger] after[a]).hash != (
    #[trigger] after[b]).hash by {
        let a0 = if a < i { a } else { a + 1 };
        let b0 = if b < i { b } else { b + 1 };
        assert(after[a] == entries[a0]);
        assert(after[b] == entries[b0]);
    }
    assert forall|a: int| 0 <= a < after.len() implies (#[trigger] after[a]).last_accessed
        >= after[a].cached_at by {
        let a0 = if a < i { a } else { a + 1 };
        assert(after[a] == entries[a0]);
    }
}

/// Making room leaves valid entries valid and, where the new entry fits the
/// budget at all, leaves room for it.
pub proof fn lemma_make_room(entries: Seq<CachedJarInfoView>, size: u64, max: u64)
    requires
        valid_entries(entries),
    ensures
        valid_entries(make_room(entries, size, max)),
        make_room(entries, size, max).len() <= entries.len(),
        total_size(make_room(entries, size, max)) <= total_size(entries),
        make_room(entries, size, max).len() == 0 || total_size(make_room(entries, size, max))
            + size <= max,
    decreases entries.len(),
{
    if entries.len() > 0 && total_size(entries) + size > max {
        lemma_lru_index(entries);
        let at = lru_index(entries);
        lemma_valid_remove(entries, at);
        lemma_total_size_remove(entries, at);
        lemma_make_room(entries.remove(at), size, max);
    }
}

/// Storing an entry in valid entries leaves valid entries, provided the
/// total still can be counted.
pub proof fn lemma_store(entries: Seq<CachedJarInfoView>, entry: CachedJarInfoView)
    requires
        valid_entries(entries),
        entry.last_accessed >= entry.cached_at,
        total_size(entries) + entry.size <= u64::MAX,
    ensures
        valid_entries(store(entries, entry)),
        hash_index(store(entries, entry), entry.hash) >= 0,
        store(entries, entry)[hash_index(store(entries, entry), entry.hash)] == entry,
        total_size(store(entries, entry)) <= total_size(entries) + entry.size,
{
    let at = hash_index(entries, entry.hash);
    let after = store(entries, entry);
    lemma_hash_index(entries, entry.hash);
    lemma_total_size_nonnegative(entries);
    if at >= 0 {
        lemma_total_size_update(entries, at, entry);
        assert forall|a: int, b: int|
            0 <= a < after.len() && 0 <= b < after.len() && a != b implies (
        #[trigger] after[a]).hash != (#[trigger] after[b]).hash by {
            assert(entries[a].hash != entries[b].hash);
        }
        assert(after[at].hash == entry.hash);
    } else {
        assert(after.drop_last() =~= entries);
        assert forall|a: int, b: int|
            0 <= a < after.len() && 0 <= b < after.len() && a != b implies (
        #[trigger] after[a]).hash != (#[trigger] after[b]).hash by {
            if a < entries.len() && b < entries.len() {
                assert(entries[a].hash != entries[b].hash);
            } else if a < entries.len() {
                assert(entries[a].hash != entry.hash);
            } else {
                assert(entries[b].hash != entry.hash);
            }
        }
        assert(after[entries.len() as int].hash == entry.hash);
    }
    lemma_hash_index(after, entry.hash);
    let found = hash_index(after, entry.hash);
    if at >= 0 {
        if found != at {
            assert(after[found].hash == after[at].hash);
        }
    } else {
        if found != entries.len() {
            assert(after[found].hash == after[entries.len() as int].hash);
        }
    }
}


/// The digests of `entries`, in order.
pub open spec fn hashes_of(entries: Seq<CachedJarInfoView>) -> Seq<Seq<char>> {
    entries.map_values(|e: CachedJarInfoView| e.hash)
}

/// The digests of the entries that go when room is made for `size` more
/// bytes under the budget `max`, in the order in which they go.
pub open spec fn evicted_hashes(entries: Seq<CachedJarInfoView>, size: u64, max: u64) -> Seq<
    Seq<char>,
>
    decreases entries.len(),
{
    if entries.len() > 0 && total_size(entries) + size > max {
        proof {
            lemma_lru_index(entries);
        }
        seq![entries[lru_index(entries)].hash] + evicted_hashes(
            entries.remove(lru_index(entries)),
            size,
            max,
        )
    } else {
        Seq::empty()
    }
}

/// The SHA-256 digest of `bytes`, written as lowercase hexadecimal digits.
pub uninterp spec fn sha256_hex(bytes: Seq<u8>) -> Seq<char>;

/// `sha2::Sha256::digest`, formatted with `{:x}`: the SHA-256 digest of the
/// bytes in lowercase hexadecimal. The digest is a function of the bytes
/// alone.
#[verifier::external_body]
fn sha256_digest_hex(bytes: &[u8]) -> (digest: String)
    ensures
        digest@ == sha256_hex(bytes@),
{
    format!("{:x}", <sha2::Sha256 as sha2::Digest>::digest(bytes))
}

/// Finds the entry with digest `hash`.
fn find_hash(entries: &Vec<CachedJarInfo>, hash: &str) -> (at: Option<usize>)
    ensures
        match at {
            Some(i) => i == hash_index(entries_view(entries@), hash@),
            None => hash_index(entries_view(entries@), hash@) == -1,
        },
{
    let ghost all = entries_view(entries@);
    proof {
        lemma_hash_index(all, hash@);
    }
    let mut i: usize = 0;
    while i < entries.len()
        invariant
            i <= entries.len(),
            all == entries_view(entries@),
            forall|j: int| 0 <= j < i ==> (#[trigger] all[j]).hash != hash@,
            -1 <= hash_index(all, hash@) < all.len(),
            hash_index(all, hash@) >= 0 ==> all[hash_index(all, hash@)].hash == hash@,
        decreases entries.len() - i,
    {
        if crate::text::str_eq(entries[i].hash.as_str(), hash) {
            proof {
                lemma_hash_index(all, hash@);
                assert(all[i as int].hash == hash@);
            }
            return Some(i);
        }
        i += 1;
    }
    None
}

/// Finds the entry to evict.
fn find_lru(entries: &Vec<CachedJarInfo>) -> (at: usize)
    requires
        entries.len() > 0,
    ensures
        at == lru_index(entries_view(entries@)),
        at < entries.len(),
{
    let ghost all = entries_view(entries@);
    let mut best: usize = 0;
    let mut i: usize = 1;
    assert(all.take(1).len() == 1);
    while i < entries.len()
        invariant
            1 <= i <= entries.len(),
            all == entries_view(entries@),
            best < i,
            best == lru_index(all.take(i as int)),
        decreases entries.len() - i,
    {
        proof {
            assert(all.take(i as int + 1).drop_last() =~= all.take(i as int));
            assert(all.take(i as int)[best as int] == all[best as int]);
        }
        if entries[i].last_accessed < entries[best].last_accessed {
            best = i;
        }
        i += 1;
    }
    assert(all.take(i as int) =~= all);
    best
}

/// Cache statistics for monitoring and management.
#[derive(Debug, Clone, Copy, PartialEq, Eq, Structural)]
pub struct CacheStats {
    /// Number of entries.
    pub entry_count: usize,
    /// Sum of the sizes of the entries, in bytes.
    pub total_size_bytes: u64,
    /// The budget of the cache, in bytes.
    pub max_size_bytes: u64,
}

/// The cache of extracted identities, keyed by the digest of the archive.
#[derive(Debug)]
pub struct GlobalJarCache {
    cache_dir: String,
    entries: Vec<CachedJarInfo>,
    max_size_bytes: u64,
    current_size_bytes: u64,
}

impl GlobalJarCache {
    #[verifier::type_invariant]
    spec fn inv(&self) -> bool {
        &&& valid_entries(entries_view(self.entries@))
        &&& self.current_size_bytes == total_size(entries_view(self.entries@))
    }

    /// The entries of the cache, in the order in which their digests came in.
    pub closed spec fn entries(&self) -> Seq<CachedJarInfoView> {
        entries_view(self.entries@)
    }

    /// The budget of the cache, in bytes.
    pub closed spec fn budget(&self) -> u64 {
        self.max_size_bytes
    }

    /// The directory in which the cache is mirrored.
    pub closed spec fn directory(&self) -> Seq<char> {
        self.cache_dir@
    }

    /// An empty cache mirrored in the directory `jars` under `cache_dir`,
    /// with a budget of `max_size_mb` mebibytes.
    pub fn new(cache_dir: String, max_size_mb: u32) -> (cache: Self)
        ensures
            cache.entries() == Seq::<CachedJarInfoView>::empty(),
            cache.budget() == max_size_mb as int * 1024 * 1024,
            cache.directory() == crate::paths::path_join(cache_dir@, "jars"@),
            valid_entries(cache.entries()),
    {
        let entries: Vec<CachedJarInfo> = Vec::new();
        assert(entries_view(entries@) =~= Seq::<CachedJarInfoView>::empty());
        GlobalJarCache {
            cache_dir: crate::paths::join(cache_dir.as_str(), "jars"),
            entries,
            max_size_bytes: max_size_mb as u64 * 1024 * 1024,
            current_size_bytes: 0,
        }
    }

    /// The digest that keys the archive with the bytes `contents`.
    pub fn compute_file_hash(contents: &[u8]) -> (digest: String)
        ensures
            digest@ == sha256_hex(contents@),
    {
        sha256_digest_hex(contents)
    }

    /// The directory in which the cache is mirrored.
    pub fn cache_dir(&self) -> (dir: &String)
        ensures
            dir@ == self.directory(),
    {
        &self.cache_dir
    }

    /// Takes the whole state out and leaves an empty cache behind.
    fn take(&mut self) -> (state: Self)
        ensures
            state.entries@ == old(self).entries@,
            state.cache_dir == old(self).cache_dir,
            state.max_size_bytes == old(self).max_size_bytes,
            state.current_size_bytes == old(self).current_size_bytes,
    {
        let entries: Vec<CachedJarInfo> = Vec::new();
        assert(entries_view(entries@) =~= Seq::<CachedJarInfoView>::empty());
        let mut state = GlobalJarCache {
            cache_dir: String::new(),
            entries,
            max_size_bytes: 0,
            current_size_bytes: 0,
        };
        core::mem::swap(self, &mut state);
        state
    }

    /// Whether the cache holds an entry for `hash`, expired or not.
    pub fn contains(&self, hash: &str) -> (found: bool)
        ensures
            found == (hash_index(self.entries(), hash@) >= 0),
    {
        find_hash(&self.entries, hash).is_some()
    }

    /// The entry for `hash`, expired or not, where the cache holds one.
    pub fn get_entry(&self, hash: &str) -> (entry: Option<&CachedJarInfo>)
        ensures
            match entry {
                Some(e) => hash_index(self.entries(), hash@) >= 0 && e@ == self.entries()[hash_index(
                    self.entries(),
                    hash@,
                )],
                None => hash_index(self.entries(), hash@) == -1,
            },
    {
        proof {
            lemma_hash_index(self.entries(), hash@);
        }
        match find_hash(&self.entries, hash) {
            Some(i) => Some(&self.entries[i]),
            None => None,
        }
    }

    /// Whether a lookup of `hash` at `now` would find a live entry. Nothing
    /// is touched or removed.
    pub fn holds_live_at(&self, hash: &str, ttl_hours: u32, now: u64) -> (live: bool)
        ensures
            live == (get_result(self.entries(), hash@, ttl_hours, now) is Some),
    {
        proof {
            lemma_hash_index(self.entries(), hash@);
        }
        match find_hash(&self.entries, hash) {
            Some(i) => !self.entries[i].is_expired_at(ttl_hours, now),
            None => false,
        }
    }

    /// Puts back an entry that was stored earlier, as it is. An entry that
    /// was accessed before it was cached, or whose size the total cannot
    /// take, is refused and nothing changes.
    pub fn restore(&mut self, entry: CachedJarInfo) -> (restored: bool)
        ensures
            final(self).budget() == old(self).budget(),
            final(self).directory() == old(self).directory(),
            valid_entries(final(self).entries()),
            restored == (entry.wf() && total_size(old(self).entries()) + entry.size <= u64::MAX),
            restored ==> final(self).entries() == store(old(self).entries(), entry@),
            !restored ==> final(self).entries() == old(self).entries(),
    {
        proof {
            use_type_invariant(&*self);
        }
        if entry.last_accessed < entry.cached_at || entry.size > u64::MAX
            - self.current_size_bytes {
            return false;
        }
        let state = self.take();
        let GlobalJarCache { cache_dir, mut entries, max_size_bytes, current_size_bytes } = state;
        let ghost before = entries_view(entries@);
        proof {
            lemma_store(before, entry@);
            lemma_hash_index(before, entry.hash@);
        }
        let at = find_hash(&entries, entry.hash.as_str());
        let mut current = current_size_bytes;
        match at {
            Some(i) => {
                proof {
                    lemma_total_size_update(before, i as int, entry@);
                    lemma_total_size_remove(before, i as int);
                    lemma_total_size_nonnegative(before.remove(i as int));
                }
                let replaced = entries.remove(i);
                current = current - replaced.size + entry.size;
                entries.insert(i, entry);
                assert(entries_view(entries@) =~= before.update(i as int, entry@));
            },
            None => {
                current = current + entry.size;
                entries.push(entry);
                assert(entries_view(entries@) =~= before.push(entry@));
                assert(entries_view(entries@).drop_last() =~= before);
            },
        }
        *self = GlobalJarCache { cache_dir, entries, max_size_bytes, current_size_bytes: current };
        true
    }

    /// Looks `hash` up at `now`. A live entry is touched and a copy of its
    /// identity returned; an expired entry is removed; nothing changes where
    /// there is no entry.
    pub fn get_at(&mut self, hash: &str, ttl_hours: u32, now: u64) -> (found: Option<ModInfo>)
        ensures
            final(self).budget() == old(self).budget(),
            final(self).directory() == old(self).directory(),
            valid_entries(final(self).entries()),
            final(self).entries() == get_entries(old(self).entries(), hash@, ttl_hours, now),
            match found {
                Some(m) => get_result(old(self).entries(), hash@, ttl_hours, now) == Some(m@),
                None => get_result(old(self).entries(), hash@, ttl_hours, now) is None,
            },
    {
        proof {
            use_type_invariant(&*self);
            lemma_hash_index(self.entries(), hash@);
        }
        let at = find_hash(&self.entries, hash);
        match at {
            None => None,
            Some(i) => {
                let state = self.take();
                let GlobalJarCache { cache_dir, mut entries, max_size_bytes, current_size_bytes } =
                    state;
                let ghost before = entries_view(entries@);
                let mut entry = entries.remove(i);
                assert(entries_view(entries@) =~= before.remove(i as int));
                if entry.is_expired_at(ttl_hours, now) {
                    proof {
                        lemma_valid_remove(before, i as int);
                        lemma_total_size_remove(before, i as int);
                        lemma_total_size_nonnegative(before.remove(i as int));
                    }
                    *self = GlobalJarCache {
                        cache_dir,
                        entries,
                        max_size_bytes,
                        current_size_bytes: current_size_bytes - entry.size,
                    };
                    None
                } else {
                    entry.touch_at(now);
                    let found = entry.mod_info.clone();
                    proof {
                        lemma_valid_touch(before, i as int, now);
                    }
                    entries.insert(i, entry);
                    assert(entries_view(entries@) =~= before.update(
                        i as int,
                        touched(before[i as int], now),
                    ));
                    *self = GlobalJarCache {
                        cache_dir,
                        entries,
                        max_size_bytes,
                        current_size_bytes,
                    };
                    Some(found)
                }
            },
        }
    }

    /// Looks `hash` up at the time of the call: what [`Self::get_at`] does
    /// at some time.
    pub fn get(&mut self, hash: &str, ttl_hours: u32) -> (found: Option<ModInfo>)
        ensures
            final(self).budget() == old(self).budget(),
            final(self).directory() == old(self).directory(),
            valid_entries(final(self).entries()),
            exists|now: u64|
                {
                    &&& final(self).entries() == get_entries(
                        old(self).entries(),
                        hash@,
                        ttl_hours,
                        now,
                    )
                    &&& match found {
                        Some(m) => #[trigger] get_result(
                            old(self).entries(),
                            hash@,
                            ttl_hours,
                            now,
                        ) == Some(m@),
                        None => get_result(old(self).entries(), hash@, ttl_hours, now) is None,
                    }
                },
    {
        let now = current_timestamp();
        self.get_at(hash, ttl_hours, now)
    }

    /// Removes the least recently used entry and returns its digest; does
    /// nothing on an empty cache.
    pub fn evict_lru(&mut self) -> (evicted: Option<String>)
        ensures
            final(self).budget() == old(self).budget(),
            final(self).directory() == old(self).directory(),
            valid_entries(final(self).entries()),
            old(self).entries().len() == 0 ==> evicted is None && final(self).entries() == old(self).entries(),
            old(self).entries().len() > 0 ==> evicted is Some && evicted->0@ == old(self).entries()[lru_index(old(self).entries())].hash && final(self).entries() == old(self).entries().remove(lru_index(old(self).entries())),
    {
        proof {
            use_type_invariant(&*self);
        }
        if self.entries.len() == 0 {
            return None;
        }
        let state = self.take();
        let GlobalJarCache { cache_dir, mut entries, max_size_bytes, current_size_bytes } = state;
        let ghost before = entries_view(entries@);
        let at = find_lru(&entries);
        proof {
            lemma_valid_remove(before, at as int);
            lemma_total_size_remove(before, at as int);
            lemma_total_size_nonnegative(before.remove(at as int));
        }
        let entry = entries.remove(at);
        assert(entries_view(entries@) =~= before.remove(at as int));
        *self = GlobalJarCache {
            cache_dir,
            entries,
            max_size_bytes,
            current_size_bytes: current_size_bytes - entry.size,
        };
        Some(entry.hash)
    }

    /// Makes room for `size` more bytes: while the budget would be exceeded
    /// and an entry is left, the least recently used entry goes. Returns the
    /// digests of the entries that went, in order.
    pub fn make_room(&mut self, size: u64) -> (evicted: Vec<String>)
        ensures
            final(self).budget() == old(self).budget(),
            final(self).directory() == old(self).directory(),
            valid_entries(final(self).entries()),
            final(self).entries() == make_room(old(self).entries(), size, old(self).budget()),
            crate::text::strings_view(evicted@) == evicted_hashes(
                old(self).entries(),
                size,
                old(self).budget(),
            ),
    {
        let mut evicted: Vec<String> = Vec::new();
        let ghost start = self.entries();
        let ghost max = self.budget();
        proof {
            use_type_invariant(&*self);
            assert(crate::text::strings_view(evicted@) =~= Seq::<Seq<char>>::empty());
        }
        loop
            invariant
                self.budget() == max,
                self.directory() == old(self).directory(),
                valid_entries(self.entries()),
                make_room(start, size, max) == make_room(self.entries(), size, max),
                evicted_hashes(start, size, max) == crate::text::strings_view(evicted@)
                    + evicted_hashes(self.entries(), size, max),
            ensures
                self.budget() == max,
                self.directory() == old(self).directory(),
                valid_entries(self.entries()),
                self.entries() == make_room(start, size, max),
                crate::text::strings_view(evicted@) == evicted_hashes(start, size, max),
            decreases self.entries().len(),
        {
            proof {
                use_type_invariant(&*self);
            }
            let over = self.entries.len() > 0 && (self.current_size_bytes > self.max_size_bytes
                || size > self.max_size_bytes - self.current_size_bytes);
            if !over {
                assert(crate::text::strings_view(evicted@) + Seq::<Seq<char>>::empty()
                    =~= crate::text::strings_view(evicted@));
                break ;
            }
            let ghost now_entries = self.entries();
            let ghost sofar = crate::text::strings_view(evicted@);
            proof {
                lemma_lru_index(now_entries);
            }
            match self.evict_lru() {
                Some(hash) => {
                    evicted.push(hash);
                    proof {
                        let rest = evicted_hashes(
                            now_entries.remove(lru_index(now_entries)),
                            size,
                            max,
                        );
                        assert(crate::text::strings_view(evicted@) =~= sofar.push(hash@));
                        assert(sofar + (seq![hash@] + rest) =~= sofar.push(hash@) + rest);
                    }
                },
                None => {},
            }
        }
        evicted
    }

    /// Stores `entry` under its digest, in the place of the entry that had
    /// the digest or at the end.
    fn store_entry(&mut self, entry: CachedJarInfo)
        requires
            entry.wf(),
            total_size(old(self).entries()) + entry.size <= u64::MAX,
        ensures
            final(self).budget() == old(self).budget(),
            final(self).directory() == old(self).directory(),
            valid_entries(final(self).entries()),
            final(self).entries() == store(old(self).entries(), entry@),
    {
        let restored = self.restore(entry);
        assert(restored);
    }

    /// Puts the identity of an archive into the cache at `now`: room is made
    /// first, then the entry is stored. Returns the digests of the entries
    /// that were evicted.
    pub fn put_at(
        &mut self,
        hash: String,
        filename: String,
        size: u64,
        mod_info: ModInfo,
        now: u64,
    ) -> (evicted: Vec<String>)
        ensures
            final(self).budget() == old(self).budget(),
            final(self).directory() == old(self).directory(),
            valid_entries(final(self).entries()),
            final(self).entries() == put_entries(
                old(self).entries(),
                fresh_entry(hash@, filename@, size, mod_info@, now),
                old(self).budget(),
            ),
            crate::text::strings_view(evicted@) == evicted_hashes(
                old(self).entries(),
                size,
                old(self).budget(),
            ),
            size <= old(self).budget() ==> total_size(final(self).entries()) <= old(self).budget(),
    {
        proof {
            use_type_invariant(&*self);
            lemma_make_room(self.entries(), size, self.budget());
        }
        let evicted = self.make_room(size);
        let entry = CachedJarInfo::new_at(hash, filename, size, mod_info, now);
        proof {
            let kept = self.entries();
            if kept.len() == 0 {
                assert(total_size(kept) == 0);
            }
            lemma_store(kept, entry@);
        }
        self.store_entry(entry);
        evicted
    }

    /// Puts the identity of an archive into the cache at the time of the
    /// call: what [`Self::put_at`] does at some time.
    pub fn put(&mut self, hash: String, filename: String, size: u64, mod_info: ModInfo) -> (evicted:
        Vec<String>)
        ensures
            final(self).budget() == old(self).budget(),
            final(self).directory() == old(self).directory(),
            valid_entries(final(self).entries()),
            exists|now: u64|
                final(self).entries() == put_entries(
                    old(self).entries(),
                    #[trigger] fresh_entry(hash@, filename@, size, mod_info@, now),
                    old(self).budget(),
                ),
            crate::text::strings_view(evicted@) == evicted_hashes(
                old(self).entries(),
                size,
                old(self).budget(),
            ),
            size <= old(self).budget() ==> total_size(final(self).entries()) <= old(self).budget(),
    {
        let now = current_timestamp();
        self.put_at(hash, filename, size, mod_info, now)
    }

    /// Removes every entry.
    pub fn clear(&mut self)
        ensures
            final(self).budget() == old(self).budget(),
            final(self).directory() == old(self).directory(),
            final(self).entries() == Seq::<CachedJarInfoView>::empty(),
            valid_entries(final(self).entries()),
    {
        let state = self.take();
        let GlobalJarCache { cache_dir, entries, max_size_bytes, current_size_bytes } = state;
        let fresh: Vec<CachedJarInfo> = Vec::new();
        assert(entries_view(fresh@) =~= Seq::<CachedJarInfoView>::empty());
        *self = GlobalJarCache {
            cache_dir,
            entries: fresh,
            max_size_bytes,
            current_size_bytes: 0,
        };
    }

    /// The statistics of the cache.
    pub fn stats(&self) -> (stats: CacheStats)
        ensures
            stats.entry_count == self.entries().len(),
            stats.total_size_bytes == total_size(self.entries()),
            stats.max_size_bytes == self.budget(),
            valid_entries(self.entries()),
    {
        proof {
            use_type_invariant(self);
        }
        CacheStats {
            entry_count: self.entries.len(),
            total_size_bytes: self.current_size_bytes,
            max_size_bytes: self.max_size_bytes,
        }
    }

    /// The digests of the entries, in order.
    pub fn hashes(&self) -> (hashes: Vec<String>)
        ensures
            crate::text::strings_view(hashes@) == hashes_of(self.entries()),
    {
        let mut hashes: Vec<String> = Vec::new();
        let mut i: usize = 0;
        while i < self.entries.len()
            invariant
                i <= self.entries.len(),
                hashes.len() == i,
                forall|j: int| 0 <= j < i ==> (#[trigger] hashes[j])@ == self.entries[j].hash@,
            decreases self.entries.len() - i,
        {
            hashes.push(self.entries[i].hash.clone());
            i += 1;
        }
        assert(crate::text::strings_view(hashes@) =~= hashes_of(self.entries()));
        hashes
    }

    /// Copies of the entries, in order.
    pub fn snapshot(&self) -> (copies: Vec<CachedJarInfo>)
        ensures
            entries_view(copies@) == self.entries(),
    {
        let mut copies: Vec<CachedJarInfo> = Vec::new();
        let mut i: usize = 0;
        while i < self.entries.len()
            invariant
                i <= self.entries.len(),
                copies.len() == i,
                forall|j: int| 0 <= j < i ==> (#[trigger] copies[j])@ == self.entries[j]@,
            decreases self.entries.len() - i,
        {
            copies.push(self.entries[i].clone());
            i += 1;
        }
        assert(entries_view(copies@) =~= self.entries());
        copies
    }

    /// Removes every entry that has expired at `now` and returns how many
    /// went, counted up to the largest number that fits.
    pub fn cleanup_at(&mut self, ttl_hours: u32, now: u64) -> (removed: u32)
        ensures
            final(self).budget() == old(self).budget(),
            final(self).directory() == old(self).directory(),
            valid_entries(final(self).entries()),
            final(self).entries() == old(self).entries().filter(is_live(ttl_hours, now)),
            removed == if old(self).entries().len() - final(self).entries().len() <= u32::MAX {
                old(self).entries().len() - final(self).entries().len()
            } else {
                u32::MAX as int
            },
    {
        proof {
            use_type_invariant(&*self);
        }
        let state = self.take();
        let GlobalJarCache { cache_dir, mut entries, max_size_bytes, current_size_bytes } = state;
        let ghost start = entries_view(entries@);
        let ghost live = is_live(ttl_hours, now);
        let mut current = current_size_bytes;
        let mut removed: u32 = 0;
        let mut i: usize = 0;
        let ghost mut j: int = 0;
        proof {
            reveal(Seq::filter);
            assert(start.take(0).filter(live) =~= Seq::<CachedJarInfoView>::empty());
            assert(entries_view(entries@).take(0) =~= Seq::<CachedJarInfoView>::empty());
            assert(entries_view(entries@).skip(0) =~= start.skip(0));
        }
        while i < entries.len()
            invariant
                0 <= j <= start.len(),
                i <= entries.len(),
                i <= j,
                entries.len() - i == start.len() - j,
                live == is_live(ttl_hours, now),
                valid_entries(entries_view(entries@)),
                current == total_size(entries_view(entries@)),
                entries_view(entries@).take(i as int) == start.take(j).filter(live),
                entries_view(entries@).skip(i as int) == start.skip(j),
                removed == if j - i <= u32::MAX {
                    j - i
                } else {
                    u32::MAX as int
                },
            decreases entries.len() - i,
        {
            let ghost all = entries_view(entries@);
            proof {
                assert(all[i as int] == all.skip(i as int)[0]);
                assert(start[j] == start.skip(j)[0]);
                assert(start.take(j + 1) =~= start.take(j).push(start[j]));
                start.take(j).lemma_filter_push(start[j], live);
            }
            if entries[i].is_expired_at(ttl_hours, now) {
                proof {
                    lemma_valid_remove(all, i as int);
                    lemma_total_size_remove(all, i as int);
                    lemma_total_size_nonnegative(all.remove(i as int));
                }
                let entry = entries.remove(i);
                current = current - entry.size;
                if removed < u32::MAX {
                    removed += 1;
                }
                proof {
                    let after = entries_view(entries@);
                    assert(after =~= all.remove(i as int));
                    assert(after.take(i as int) =~= all.take(i as int));
                    assert(after.skip(i as int) =~= all.skip(i as int).skip(1));
                    assert(start.skip(j).skip(1) =~= start.skip(j + 1));
                    j = j + 1;
                }
            } else {
                proof {
                    assert(all.take(i as int + 1) =~= all.take(i as int).push(all[i as int]));
                    assert(all.skip(i as int + 1) =~= all.skip(i as int).skip(1));
                    assert(start.skip(j).skip(1) =~= start.skip(j + 1));
                    j = j + 1;
                }
                i += 1;
            }
        }
        proof {
            assert(entries_view(entries@).take(i as int) =~= entries_view(entries@));
            assert(start.take(j) =~= start);
        }
        *self = GlobalJarCache { cache_dir, entries, max_size_bytes, current_size_bytes: current };
        removed
    }

    /// Removes every entry that has expired at the time of the call: what
    /// [`Self::cleanup_at`] does at some time.
    pub fn cleanup(&mut self, ttl_hours: u32) -> (removed: u32)
        ensures
            final(self).budget() == old(self).budget(),
            final(self).directory() == old(self).directory(),
            valid_entries(final(self).entries()),
            exists|now: u64|
                final(self).entries() == old(self).entries().filter(
                    #[trigger] is_live(ttl_hours, now),
                ),
            removed == if old(self).entries().len() - final(self).entries().len() <= u32::MAX {
                old(self).entries().len() - final(self).entries().len()
            } else {
                u32::MAX as int
            },
    {
        let now = current_timestamp();
        self.cleanup_at(ttl_hours, now)
    }
}

/// Touching one entry of valid entries leaves valid entries of the same total.
pub proof fn lemma_valid_touch(entries: Seq<CachedJarInfoView>, i: int, now: u64)
    requires
        valid_entries(entries),
        0 <= i < entries.len(),
    ensures
        valid_entries(entries.update(i, touched(entries[i], now))),
        total_size(entries.update(i, touched(entries[i], now))) == total_size(entries),
{
    let after = entries.update(i, touched(entries[i], now));
    lemma_total_size_update(entries, i, touched(entries[i], now));
    assert forall|a: int, b: int|
        0 <= a < after.len() && 0 <= b < after.len() && a != b implies (#[trigger] after[a]).hash != (
    #[trigger] after[b]).hash by {
        assert(entries[a].hash != entries[b].hash);
    }
}

/// An identity that was put into the cache is returned by a lookup of its
/// digest for as long as the entry has not expired.
pub proof fn lemma_put_then_get(
    entries: Seq<CachedJarInfoView>,
    entry: CachedJarInfoView,
    max: u64,
    ttl_hours: u32,
    now: u64,
)
    requires
        valid_entries(entries),
        entry.last_accessed >= entry.cached_at,
        !expired_at(entry.cached_at, ttl_hours, now),
    ensures
        get_result(put_entries(entries, entry, max), entry.hash, ttl_hours, now) == Some(
            entry.mod_info,
        ),
{
    lemma_make_room(entries, entry.size, max);
    let kept = make_room(entries, entry.size, max);
    if kept.len() == 0 {
        assert(total_size(kept) == 0);
    }
    lemma_store(kept, entry);
}

/// Putting an entry that fits the budget by itself leaves the cache within
/// its budget, whatever it held before.
pub proof fn lemma_put_within_budget(
    entries: Seq<CachedJarInfoView>,
    entry: CachedJarInfoView,
    max: u64,
)
    requires
        valid_entries(entries),
        entry.last_accessed >= entry.cached_at,
        entry.size <= max,
    ensures
        valid_entries(put_entries(entries, entry, max)),
        total_size(put_entries(entries, entry, max)) <= max,
{
    lemma_make_room(entries, entry.size, max);
    let kept = make_room(entries, entry.size, max);
    if kept.len() == 0 {
        assert(total_size(kept) == 0);
    }
    lemma_store(kept, entry);
}

/// The first entry to go when room is made is one that was accessed no
/// later than any other entry.
pub proof fn lemma_oldest_goes_first(entries: Seq<CachedJarInfoView>, size: u64, max: u64)
    requires
        entries.len() > 0,
        total_size(entries) + size > max,
    ensures
        evicted_hashes(entries, size, max).len() > 0,
        evicted_hashes(entries, size, max)[0] == entries[lru_index(entries)].hash,
        forall|j: int|
            0 <= j < entries.len() ==> entries[lru_index(entries)].last_accessed <= (
            #[trigger] entries[j]).last_accessed,
{
    lemma_lru_index(entries);
}

/// A lookup that finds an expired entry returns nothing and removes the
/// entry, so that every later lookup of the digest returns nothing and
/// changes nothing.
pub proof fn lemma_expired_get_removes(
    entries: Seq<CachedJarInfoView>,
    hash: Seq<char>,
    ttl_hours: u32,
    now: u64,
    later_ttl_hours: u32,
    later: u64,
)
    requires
        valid_entries(entries),
        hash_index(entries, hash) >= 0,
        expired_at(entries[hash_index(entries, hash)].cached_at, ttl_hours, now),
    ensures
        get_result(entries, hash, ttl_hours, now) is None,
        hash_index(get_entries(entries, hash, ttl_hours, now), hash) == -1,
        get_result(get_entries(entries, hash, ttl_hours, now), hash, later_ttl_hours, later)
            is None,
        get_entries(get_entries(entries, hash, ttl_hours, now), hash, later_ttl_hours, later)
            == get_entries(entries, hash, ttl_hours, now),
{
    let at = hash_index(entries, hash);
    lemma_hash_index(entries, hash);
    let after = entries.remove(at);
    lemma_hash_index(after, hash);
    if hash_index(after, hash) >= 0 {
        let b = hash_index(after, hash);
        let b0 = if b < at { b } else { b + 1 };
        assert(after[b] == entries[b0]);
        assert(entries[b0].hash == entries[at].hash);
    }
}

impl CacheStats {
    /// The total size of the entries, for people.
    pub fn total_size_formatted(&self) -> (text: String)
        ensures
            text@ == crate::format::size_text(self.total_size_bytes),
    {
        format_bytes(self.total_size_bytes)
    }

    /// The budget, for people.
    pub fn max_size_formatted(&self) -> (text: String)
        ensures
            text@ == crate::format::size_text(self.max_size_bytes),
    {
        format_bytes(self.max_size_bytes)
    }
}

/// Shows a number of bytes in the largest fitting unit.
pub fn format_bytes(bytes: u64) -> (text: String)
    ensures
        text@ == crate::format::size_text(bytes),
{
    crate::format::format_size(bytes)
}

/// What the last scan of one server found, kept to tell whether a new scan
/// is due.
#[derive(Debug, Clone, PartialEq, Eq)]
pub struct ServerStructureCache {
    /// The server this cache belongs to.
    pub server_id: String,
    /// Digests of the archives found on the server.
    pub jar_hashes: Vec<String>,
    /// Which directories exist, by name.
    pub directory_structure: crate::string_map::StringMap<bool>,
    /// When the server was last scanned, in seconds since the Unix epoch.
    pub last_scanned: u64,
    /// Modification times of the remote files, by path.
    pub file_mtimes: crate::string_map::StringMap<u64>,
}

impl ServerStructureCache {
    /// An empty cache for `server_id`, scanned at `now`.
    pub fn new_at(server_id: String, now: u64) -> (cache: Self)
        ensures
            cache.server_id == server_id,
            cache.jar_hashes@.len() == 0,
            cache.directory_structure@ == Map::<Seq<char>, bool>::empty(),
            cache.file_mtimes@ == Map::<Seq<char>, u64>::empty(),
            cache.last_scanned == now,
    {
        ServerStructureCache {
            server_id,
            jar_hashes: Vec::new(),
            directory_structure: crate::string_map::StringMap::new(),
            last_scanned: now,
            file_mtimes: crate::string_map::StringMap::new(),
        }
    }

    /// An empty cache for `server_id`, scanned at the time of the call.
    pub fn new(server_id: String) -> (cache: Self)
        ensures
            cache.server_id == server_id,
            cache.jar_hashes@.len() == 0,
            cache.directory_structure@ == Map::<Seq<char>, bool>::empty(),
            cache.file_mtimes@ == Map::<Seq<char>, u64>::empty(),
    {
        let now = current_timestamp();
        Self::new_at(server_id, now)
    }

    /// Whether the last scan is older at `now` than `ttl_hours`.
    pub fn is_expired_at(&self, ttl_hours: u32, now: u64) -> (expired: bool)
        ensures
            expired == expired_at(self.last_scanned, ttl_hours, now),
    {
        let ttl: u64 = ttl_hours as u64 * 3600;
        let age: u64 = if now >= self.last_scanned {
            now - self.last_scanned
        } else {
            0
        };
        age > ttl
    }

    /// Whether the last scan is older at the time of the call than `ttl_hours`.
    pub fn is_expired(&self, ttl_hours: u32) -> (expired: bool)
        ensures
            exists|now: u64| expired == expired_at(self.last_scanned, ttl_hours, now),
    {
        let now = current_timestamp();
        self.is_expired_at(ttl_hours, now)
    }

    /// Records the results of a scan made at `now`.
    pub fn update_at(
        &mut self,
        jar_hashes: Vec<String>,
        directory_structure: crate::string_map::StringMap<bool>,
        now: u64,
    )
        ensures
            final(self).server_id == old(self).server_id,
            final(self).jar_hashes == jar_hashes,
            final(self).directory_structure == directory_structure,
            final(self).file_mtimes == old(self).file_mtimes,
            final(self).last_scanned == now,
    {
        self.jar_hashes = jar_hashes;
        self.directory_structure = directory_structure;
        self.last_scanned = now;
    }

    /// Records the results of a scan made at the time of the call.
    pub fn update(
        &mut self,
        jar_hashes: Vec<String>,
        directory_structure: crate::string_map::StringMap<bool>,
    )
        ensures
            final(self).server_id == old(self).server_id,
            final(self).jar_hashes == jar_hashes,
            final(self).directory_structure == directory_structure,
            final(self).file_mtimes == old(self).file_mtimes,
    {
        let now = current_timestamp();
        self.update_at(jar_hashes, directory_structure, now);
    }
}

/// The entries hold none with the digest exactly where `hash_index` finds none.
pub proof fn lemma_absent(entries: Seq<CachedJarInfoView>, hash: Seq<char>)
    ensures
        hash_index(entries, hash) == -1 <==> forall|j: int|
            0 <= j < entries.len() ==> (#[trigger] entries[j]).hash != hash,
{
    lemma_hash_index(entries, hash);
    if hash_index(entries, hash) >= 0 {
        assert(entries[hash_index(entries, hash)].hash == hash);
    }
}

/// A lookup puts no digest into the cache that it did not hold.
pub proof fn lemma_get_keeps_out(
    entries: Seq<CachedJarInfoView>,
    hash: Seq<char>,
    ttl_hours: u32,
    now: u64,
    absent: Seq<char>,
)
    requires
        hash_index(entries, absent) == -1,
    ensures
        hash_index(get_entries(entries, hash, ttl_hours, now), absent) == -1,
{
    let after = get_entries(entries, hash, ttl_hours, now);
    let at = hash_index(entries, hash);
    lemma_hash_index(entries, hash);
    lemma_absent(entries, absent);
    lemma_absent(after, absent);
    assert forall|j: int| 0 <= j < after.len() implies (#[trigger] after[j]).hash != absent by {
        if at < 0 {
        } else if expired_at(entries[at].cached_at, ttl_hours, now) {
            let j0 = if j < at { j } else { j + 1 };
            assert(after[j] == entries[j0]);
        } else {
            assert(after[j].hash == entries[j].hash);
        }
    }
}

/// Making room puts no digest into the cache that it did not hold.
pub proof fn lemma_make_room_keeps_out(
    entries: Seq<CachedJarInfoView>,
    size: u64,
    max: u64,
    absent: Seq<char>,
)
    requires
        hash_index(entries, absent) == -1,
    ensures
        hash_index(make_room(entries, size, max), absent) == -1,
    decreases entries.len(),
{
    if entries.len() > 0 && total_size(entries) + size > max {
        lemma_lru_index(entries);
        let at = lru_index(entries);
        let after = entries.remove(at);
        lemma_absent(entries, absent);
        lemma_absent(after, absent);
        assert forall|j: int| 0 <= j < after.len() implies (#[trigger] after[j]).hash != absent by {
            let j0 = if j < at { j } else { j + 1 };
            assert(after[j] == entries[j0]);
        }
        lemma_make_room_keeps_out(after, size, max, absent);
    }
}

/// Putting an entry puts no digest but its own into the cache.
pub proof fn lemma_put_keeps_out(
    entries: Seq<CachedJarInfoView>,
    entry: CachedJarInfoView,
    max: u64,
    absent: Seq<char>,
)
    requires
        hash_index(entries, absent) == -1,
        entry.hash != absent,
    ensures
        hash_index(put_entries(entries, entry, max), absent) == -1,
{
    lemma_make_room_keeps_out(entries, entry.size, max, absent);
    let kept = make_room(entries, entry.size, max);
    let after = store(kept, entry);
    let at = hash_index(kept, entry.hash);
    lemma_hash_index(kept, entry.hash);
    lemma_absent(kept, absent);
    lemma_absent(after, absent);
    assert forall|j: int| 0 <= j < after.len() implies (#[trigger] after[j]).hash != absent by {
        if at >= 0 {
            if j != at {
                assert(after[j] == kept[j]);
            }
        } else {
            if j < kept.len() {
                assert(after[j] == kept[j]);
            }
        }
    }
}

} // verus!
