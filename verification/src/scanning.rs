//! The decisions of an inventory scan: which files are archives, what
//! identity each downloaded archive gets, and how the cache takes part.

use crate::cache::{
    evicted_hashes, fresh_entry, get_entries, get_result, hash_index, put_entries,
    CachedJarInfoView, GlobalJarCache,
};
use crate::clock::current_timestamp;
use crate::error::{CoreError, ManagerError};
use crate::progress::{ProgressStage, ProgressUpdate};
use crate::structure::MinecraftStructure;
use crate::jar::{extract_jar_info, extracted_identity, JarArchive};
use crate::paths::{extension, file_name, path_extension, path_file_name};
use crate::text::{chars_of, strings_view};
use crate::types::{mods_view, opt_view, ModInfo, ModInfoView};
use vstd::prelude::*;

verus! {

/// Whether an extension is that of an archive: `jar`, in any case.
pub open spec fn is_jar_extension(ext: Seq<char>) -> bool {
    ext.len() == 3 && (ext[0] == 'j' || ext[0] == 'J') && (ext[1] == 'a' || ext[1] == 'A') && (
    ext[2] == 'r' || ext[2] == 'R')
}

/// Whether the file at `path` is an archive by its extension.
pub open spec fn is_jar_path(path: Seq<char>) -> bool {
    match path_extension(path) {
        Some(ext) => is_jar_extension(ext),
        None => false,
    }
}

/// Selects the paths of archives.
pub open spec fn jar_paths() -> spec_fn(Seq<char>) -> bool {
    |path: Seq<char>| is_jar_path(path)
}

/// Whether the file at `path` is an archive by its extension.
pub fn is_jar_file(path: &str) -> (jar: bool)
    ensures
        jar == is_jar_path(path@),
{
    match extension(path) {
        None => false,
        Some(ext) => {
            let chars = chars_of(ext.as_str());
            chars.len() == 3 && (chars[0] == 'j' || chars[0] == 'J') && (chars[1] == 'a'
                || chars[1] == 'A') && (chars[2] == 'r' || chars[2] == 'R')
        },
    }
}

/// The archives among `files`, in the order of the listing.
pub fn select_jar_files(files: &Vec<String>) -> (jars: Vec<String>)
    ensures
        strings_view(jars@) == strings_view(files@).filter(jar_paths()),
{
    let ghost all = strings_view(files@);
    let mut jars: Vec<String> = Vec::new();
    let mut i: usize = 0;
    proof {
        reveal(Seq::filter);
        assert(all.take(0).filter(jar_paths()) =~= Seq::<Seq<char>>::empty());
        assert(strings_view(jars@) =~= Seq::<Seq<char>>::empty());
    }
    while i < files.len()
        invariant
            i <= files.len(),
            all == strings_view(files@),
            strings_view(jars@) == all.take(i as int).filter(jar_paths()),
        decreases files.len() - i,
    {
        proof {
            assert(all.take(i as int + 1) =~= all.take(i as int).push(files[i as int]@));
            all.take(i as int).lemma_filter_push(files[i as int]@, jar_paths());
        }
        if is_jar_file(files[i].as_str()) {
            let ghost before = strings_view(jars@);
            jars.push(files[i].clone());
            assert(strings_view(jars@) =~= before.push(files[i as int]@));
        }
        i += 1;
    }
    assert(all.take(i as int) =~= all);
    jars
}

/// The identity that the downloaded copy of a remote archive yields: what
/// is extracted from the copy, with the remote path in the place of the
/// copy's. A copy that cannot be read or opened yields none: the archive
/// is left out.
pub open spec fn analyzed_identity(archive: JarArchive, local: Seq<char>, remote: Seq<char>) -> Option<
    ModInfoView,
> {
    match archive {
        JarArchive::Opened(contents) => Some(
            ModInfoView { file_path: remote, ..extracted_identity(contents, local) },
        ),
        _ => None,
    }
}

/// The view of an identity that may be there.
pub open spec fn opt_mod_view(info: Option<ModInfo>) -> Option<ModInfoView> {
    match info {
        Some(m) => Some(m@),
        None => None,
    }
}

/// Extracts the identity of a remote archive from its downloaded copy.
/// There is none exactly where the copy cannot be read or opened.
pub fn analyze_archive(remote_path: &str, local_path: &str, archive: &JarArchive) -> (info: Option<
    ModInfo,
>)
    ensures
        opt_mod_view(info) == analyzed_identity(*archive, local_path@, remote_path@),
        info is None <==> !(archive is Opened),
{
    match extract_jar_info(local_path, archive) {
        Ok(extracted) => Some(extracted.with_file_path(remote_path.to_owned())),
        Err(_) => None,
    }
}

/// How a scan uses the cache.
#[derive(Debug, Clone, Copy, PartialEq, Eq, Structural)]
pub struct CachePolicy {
    /// Whether the cache is consulted and filled at all.
    pub enabled: bool,
    /// How long a cached identity stays good, in hours.
    pub ttl_hours: u32,
}

/// One archive that was downloaded from an installation.
#[derive(Debug, Clone, PartialEq)]
pub struct FetchedJar {
    /// Where the archive lies in the installation.
    pub remote_path: String,
    /// Where the downloaded copy lies.
    pub local_path: String,
    /// The digest of the copy's bytes, where they could be read.
    pub digest: Option<String>,
    /// The size of the copy in bytes; zero where it is not known.
    pub size: u64,
    /// What the copy holds. It is not consulted where the cache holds a
    /// live entry for the digest.
    pub archive: JarArchive,
}

/// What the analysis of one downloaded archive yields.
#[derive(Debug, Clone, PartialEq)]
pub struct AnalyzedJar {
    /// The identity of the mod, or none for an archive that is left out.
    pub identity: Option<ModInfo>,
    /// The digests of the cache entries that were evicted to make room.
    pub evicted: Vec<String>,
}

/// The entries of the cache, where there is one.
pub open spec fn entries_of(cache: Option<GlobalJarCache>) -> Option<Seq<CachedJarInfoView>> {
    match cache {
        Some(c) => Some(c.entries()),
        None => None,
    }
}

/// The budget of the cache, where there is one.
pub open spec fn budget_of(cache: Option<GlobalJarCache>) -> u64 {
    match cache {
        Some(c) => c.budget(),
        None => 0,
    }
}

/// Whether the cache takes part in the analysis of an archive with the
/// digest `digest`: it is enabled, there is one, and the digest is known.
pub open spec fn cache_takes_part(
    policy: CachePolicy,
    entries: Option<Seq<CachedJarInfoView>>,
    digest: Option<Seq<char>>,
) -> bool {
    policy.enabled && entries is Some && digest is Some
}

/// Whether the cache holds a live entry at `now` for the digest `digest`.
pub open spec fn cache_hits(
    policy: CachePolicy,
    entries: Option<Seq<CachedJarInfoView>>,
    digest: Option<Seq<char>>,
    now: u64,
) -> bool {
    cache_takes_part(policy, entries, digest) && get_result(
        entries->0,
        digest->0,
        policy.ttl_hours,
        now,
    ) is Some
}

/// The name under which an archive is remembered in the cache.
pub open spec fn remembered_name(local: Seq<char>) -> Seq<char> {
    match path_file_name(local) {
        Some(name) => name,
        None => "unknown.jar"@,
    }
}

/// What a lookup of the digest `digest` at `now` finds for the archive at
/// `remote`: the live cached identity with the remote path.
pub open spec fn looked_up(
    policy: CachePolicy,
    entries: Option<Seq<CachedJarInfoView>>,
    digest: Option<Seq<char>>,
    remote: Seq<char>,
    now: u64,
) -> Option<ModInfoView> {
    if cache_hits(policy, entries, digest, now) {
        Some(
            ModInfoView {
                file_path: remote,
                ..get_result(entries->0, digest->0, policy.ttl_hours, now)->0
            },
        )
    } else {
        None
    }
}

/// The entries of the cache after a lookup of `digest` at `now`: the entry
/// of the digest is touched where it is live and removed where it has
/// expired.
pub open spec fn entries_after_lookup(
    policy: CachePolicy,
    entries: Option<Seq<CachedJarInfoView>>,
    digest: Option<Seq<char>>,
    now: u64,
) -> Option<Seq<CachedJarInfoView>> {
    if cache_takes_part(policy, entries, digest) {
        Some(get_entries(entries->0, digest->0, policy.ttl_hours, now))
    } else {
        entries
    }
}

/// The entries of the cache after the identity `info` of the archive with
/// the digest `digest` was remembered at `now`.
pub open spec fn entries_after_remember(
    policy: CachePolicy,
    entries: Option<Seq<CachedJarInfoView>>,
    budget: u64,
    digest: Option<Seq<char>>,
    local: Seq<char>,
    size: u64,
    info: ModInfoView,
    now: u64,
) -> Option<Seq<CachedJarInfoView>> {
    if cache_takes_part(policy, entries, digest) {
        Some(
            put_entries(
                entries->0,
                fresh_entry(digest->0, remembered_name(local), size, info, now),
                budget,
            ),
        )
    } else {
        entries
    }
}

/// The digests that leave the cache when the identity of an archive of
/// `size` bytes with the digest `digest` is remembered.
pub open spec fn evicted_by_remember(
    policy: CachePolicy,
    entries: Option<Seq<CachedJarInfoView>>,
    budget: u64,
    digest: Option<Seq<char>>,
    size: u64,
) -> Seq<Seq<char>> {
    if cache_takes_part(policy, entries, digest) {
        evicted_hashes(entries->0, size, budget)
    } else {
        Seq::empty()
    }
}

/// Whether the archive with the digest `digest` has to be opened at `now`:
/// it has to be unless the cache holds a live entry for the digest.
pub fn needs_archive_at(
    cache: &Option<GlobalJarCache>,
    policy: CachePolicy,
    digest: &Option<String>,
    now: u64,
) -> (needed: bool)
    ensures
        needed == !cache_hits(policy, entries_of(*cache), opt_view(*digest), now),
{
    if !policy.enabled {
        return true;
    }
    match digest {
        None => true,
        Some(key) => match cache {
            None => true,
            Some(store) => !store.holds_live_at(key.as_str(), policy.ttl_hours, now),
        },
    }
}

/// Looks the digest of a downloaded archive up in the cache at `now`. The
/// cache takes part where it is enabled, there is one, and the digest is
/// known; a live entry yields its identity with the remote path.
pub fn lookup_identity_at(
    cache: &mut Option<GlobalJarCache>,
    policy: CachePolicy,
    digest: &Option<String>,
    remote_path: &str,
    now: u64,
) -> (found: Option<ModInfo>)
    ensures
        opt_mod_view(found) == looked_up(
            policy,
            entries_of(*old(cache)),
            opt_view(*digest),
            remote_path@,
            now,
        ),
        entries_of(*final(cache)) == entries_after_lookup(
            policy,
            entries_of(*old(cache)),
            opt_view(*digest),
            now,
        ),
        budget_of(*final(cache)) == budget_of(*old(cache)),
{
    if !policy.enabled {
        return None;
    }
    let key = match digest {
        Some(d) => d,
        None => {
            return None;
        },
    };
    let taken = cache.take();
    let mut store = match taken {
        Some(c) => c,
        None => {
            return None;
        },
    };
    let found = match store.get_at(key.as_str(), policy.ttl_hours, now) {
        Some(m) => Some(m.with_file_path(remote_path.to_owned())),
        None => None,
    };
    *cache = Some(store);
    found
}

/// Remembers the identity of a downloaded archive in the cache at `now`,
/// where the cache takes part. Returns the digests of the entries that
/// were evicted to make room.
pub fn remember_identity_at(
    cache: &mut Option<GlobalJarCache>,
    policy: CachePolicy,
    digest: &Option<String>,
    local_path: &str,
    size: u64,
    info: &ModInfo,
    now: u64,
) -> (evicted: Vec<String>)
    ensures
        entries_of(*final(cache)) == entries_after_remember(
            policy,
            entries_of(*old(cache)),
            budget_of(*old(cache)),
            opt_view(*digest),
            local_path@,
            size,
            info@,
            now,
        ),
        budget_of(*final(cache)) == budget_of(*old(cache)),
        strings_view(evicted@) == evicted_by_remember(
            policy,
            entries_of(*old(cache)),
            budget_of(*old(cache)),
            opt_view(*digest),
            size,
        ),
{
    let nothing: Vec<String> = Vec::new();
    assert(strings_view(nothing@) =~= Seq::<Seq<char>>::empty());
    if !policy.enabled {
        return nothing;
    }
    let key = match digest {
        Some(d) => d,
        None => {
            return nothing;
        },
    };
    let taken = cache.take();
    let mut store = match taken {
        Some(c) => c,
        None => {
            return nothing;
        },
    };
    let name = match file_name(local_path) {
        Some(n) => n,
        None => "unknown.jar".to_owned(),
    };
    let evicted = store.put_at(key.clone(), name, size, info.clone(), now);
    *cache = Some(store);
    evicted
}

/// The identity that the analysis of `jar` at `now` yields: the cached one
/// where the cache holds a live entry for the digest, else the one
/// extracted from the archive; either way with the remote path. An
/// archive that the cache does not know and that cannot be opened yields
/// none.
pub open spec fn jar_identity(
    policy: CachePolicy,
    entries: Option<Seq<CachedJarInfoView>>,
    jar: FetchedJar,
    now: u64,
) -> Option<ModInfoView> {
    if cache_hits(policy, entries, opt_view(jar.digest), now) {
        looked_up(policy, entries, opt_view(jar.digest), jar.remote_path@, now)
    } else {
        analyzed_identity(jar.archive, jar.local_path@, jar.remote_path@)
    }
}

/// Whether the analysis of `jar` at `now` puts a new entry into the cache:
/// the cache takes part, holds no live entry for the digest, and the
/// archive yields an identity.
pub open spec fn jar_is_remembered(
    policy: CachePolicy,
    entries: Option<Seq<CachedJarInfoView>>,
    jar: FetchedJar,
    now: u64,
) -> bool {
    &&& cache_takes_part(policy, entries, opt_view(jar.digest))
    &&& !cache_hits(policy, entries, opt_view(jar.digest), now)
    &&& analyzed_identity(jar.archive, jar.local_path@, jar.remote_path@) is Some
}

/// The entries of the cache after the analysis of `jar` at `now`: the
/// lookup touches or removes the entry of the digest, and a miss puts the
/// extracted identity in. Nothing is put in for an archive that yields no
/// identity.
pub open spec fn entries_after_jar(
    policy: CachePolicy,
    entries: Option<Seq<CachedJarInfoView>>,
    budget: u64,
    jar: FetchedJar,
    now: u64,
) -> Option<Seq<CachedJarInfoView>> {
    let looked = entries_after_lookup(policy, entries, opt_view(jar.digest), now);
    if jar_is_remembered(policy, entries, jar, now) {
        entries_after_remember(
            policy,
            looked,
            budget,
            opt_view(jar.digest),
            jar.local_path@,
            jar.size,
            analyzed_identity(jar.archive, jar.local_path@, jar.remote_path@)->0,
            now,
        )
    } else {
        looked
    }
}

/// The digests that the analysis of `jar` at `now` evicts from the cache.
pub open spec fn evicted_by_jar(
    policy: CachePolicy,
    entries: Option<Seq<CachedJarInfoView>>,
    budget: u64,
    jar: FetchedJar,
    now: u64,
) -> Seq<Seq<char>> {
    if jar_is_remembered(policy, entries, jar, now) {
        evicted_by_remember(
            policy,
            entries_after_lookup(policy, entries, opt_view(jar.digest), now),
            budget,
            opt_view(jar.digest),
            jar.size,
        )
    } else {
        Seq::empty()
    }
}

/// Analyzes one downloaded archive at `now`, with the cache where it takes
/// part: a live cached identity is returned with the remote path; else
/// the identity is extracted and, where the cache takes part, put in. An
/// archive that the cache does not know and that cannot be opened is left
/// out: it yields no identity and nothing is remembered of it.
pub fn analyze_single_jar_at(
    cache: &mut Option<GlobalJarCache>,
    policy: CachePolicy,
    jar: &FetchedJar,
    now: u64,
) -> (analyzed: AnalyzedJar)
    ensures
        opt_mod_view(analyzed.identity) == jar_identity(policy, entries_of(*old(cache)), *jar, now),
        entries_of(*final(cache)) == entries_after_jar(
            policy,
            entries_of(*old(cache)),
            budget_of(*old(cache)),
            *jar,
            now,
        ),
        strings_view(analyzed.evicted@) == evicted_by_jar(
            policy,
            entries_of(*old(cache)),
            budget_of(*old(cache)),
            *jar,
            now,
        ),
        budget_of(*final(cache)) == budget_of(*old(cache)),
        analyzed.identity matches Some(m) ==> m@.file_path == jar.remote_path@,
{
    let nothing: Vec<String> = Vec::new();
    assert(strings_view(nothing@) =~= Seq::<Seq<char>>::empty());
    match lookup_identity_at(cache, policy, &jar.digest, jar.remote_path.as_str(), now) {
        Some(found) => AnalyzedJar { identity: Some(found), evicted: nothing },
        None => {
            match analyze_archive(
                jar.remote_path.as_str(),
                jar.local_path.as_str(),
                &jar.archive,
            ) {
                Some(info) => {
                    let evicted = remember_identity_at(
                        cache,
                        policy,
                        &jar.digest,
                        jar.local_path.as_str(),
                        jar.size,
                        &info,
                        now,
                    );
                    AnalyzedJar { identity: Some(info), evicted }
                },
                None => AnalyzedJar { identity: None, evicted: nothing },
            }
        },
    }
}

/// Analyzes one downloaded archive at the time of the call: what
/// [`analyze_single_jar_at`] does at some time.
pub fn analyze_single_jar(cache: &mut Option<GlobalJarCache>, policy: CachePolicy, jar: &FetchedJar) -> (analyzed:
    AnalyzedJar)
    ensures
        exists|now: u64|
            {
                &&& opt_mod_view(analyzed.identity) == #[trigger] jar_identity(
                    policy,
                    entries_of(*old(cache)),
                    *jar,
                    now,
                )
                &&& entries_of(*final(cache)) == entries_after_jar(
                    policy,
                    entries_of(*old(cache)),
                    budget_of(*old(cache)),
                    *jar,
                    now,
                )
                &&& strings_view(analyzed.evicted@) == evicted_by_jar(
                    policy,
                    entries_of(*old(cache)),
                    budget_of(*old(cache)),
                    *jar,
                    now,
                )
            },
        budget_of(*final(cache)) == budget_of(*old(cache)),
        analyzed.identity matches Some(m) ==> m@.file_path == jar.remote_path@,
{
    let now = current_timestamp();
    analyze_single_jar_at(cache, policy, jar, now)
}

/// What the analysis of the downloads `outcomes` at `now` yields, in order:
/// the inventory and the entries of the cache. A download that failed
/// leaves no trace in either, and an archive that yields no identity
/// leaves none in the inventory.
pub open spec fn scan_outcome(
    policy: CachePolicy,
    entries: Option<Seq<CachedJarInfoView>>,
    budget: u64,
    outcomes: Seq<Option<FetchedJar>>,
    now: u64,
) -> (Seq<ModInfoView>, Option<Seq<CachedJarInfoView>>)
    decreases outcomes.len(),
{
    if outcomes.len() == 0 {
        (Seq::empty(), entries)
    } else {
        let (mods, kept) = scan_outcome(policy, entries, budget, outcomes.drop_last(), now);
        match outcomes.last() {
            None => (mods, kept),
            Some(jar) => (
                match jar_identity(policy, kept, jar, now) {
                    Some(identity) => mods.push(identity),
                    None => mods,
                },
                entries_after_jar(policy, kept, budget, jar, now),
            ),
        }
    }
}

/// Selects the downloads that succeeded.
pub open spec fn succeeded() -> spec_fn(Option<FetchedJar>) -> bool {
    |outcome: Option<FetchedJar>| outcome is Some
}

/// Selects the downloads that succeeded and whose archive was opened.
pub open spec fn opened() -> spec_fn(Option<FetchedJar>) -> bool {
    |outcome: Option<FetchedJar>| outcome is Some && outcome->0.archive is Opened
}

/// Assembles the inventory from the outcomes of the downloads, one for
/// each archive of the listing and `None` for a download that failed. The
/// inventory has one identity, with the remote path of its archive, for
/// each download that succeeded and yields one, in the order of the
/// listing: for every archive that was opened, and for an archive that was
/// not only where the cache knows it.
pub fn scan_inventory_at(
    cache: &mut Option<GlobalJarCache>,
    policy: CachePolicy,
    outcomes: &Vec<Option<FetchedJar>>,
    now: u64,
) -> (inventory: Vec<ModInfo>)
    ensures
        mods_view(inventory@) == scan_outcome(
            policy,
            entries_of(*old(cache)),
            budget_of(*old(cache)),
            outcomes@,
            now,
        ).0,
        entries_of(*final(cache)) == scan_outcome(
            policy,
            entries_of(*old(cache)),
            budget_of(*old(cache)),
            outcomes@,
            now,
        ).1,
        budget_of(*final(cache)) == budget_of(*old(cache)),
        outcomes@.filter(opened()).len() <= inventory@.len() <= outcomes@.filter(
            succeeded(),
        ).len(),
        !(policy.enabled && entries_of(*old(cache)) is Some) ==> inventory@.len()
            == outcomes@.filter(opened()).len(),
{
    let ghost start = entries_of(*cache);
    let ghost budget = budget_of(*cache);
    let mut inventory: Vec<ModInfo> = Vec::new();
    let mut i: usize = 0;
    proof {
        assert(outcomes@.take(0) =~= Seq::<Option<FetchedJar>>::empty());
        assert(mods_view(inventory@) =~= Seq::<ModInfoView>::empty());
    }
    while i < outcomes.len()
        invariant
            i <= outcomes.len(),
            budget_of(*cache) == budget,
            mods_view(inventory@) == scan_outcome(
                policy,
                start,
                budget,
                outcomes@.take(i as int),
                now,
            ).0,
            entries_of(*cache) == scan_outcome(
                policy,
                start,
                budget,
                outcomes@.take(i as int),
                now,
            ).1,
        decreases outcomes.len() - i,
    {
        proof {
            assert(outcomes@.take(i as int + 1).drop_last() =~= outcomes@.take(i as int));
            assert(outcomes@.take(i as int + 1).last() == outcomes@[i as int]);
        }
        match &outcomes[i] {
            None => {},
            Some(jar) => {
                let ghost before = mods_view(inventory@);
                let analyzed = analyze_single_jar_at(cache, policy, jar, now);
                match analyzed.identity {
                    Some(info) => {
                        inventory.push(info);
                        assert(mods_view(inventory@) =~= before.push(info@));
                    },
                    None => {},
                }
            },
        }
        i += 1;
    }
    proof {
        assert(outcomes@.take(i as int) =~= outcomes@);
        lemma_inventory_is_bounded(policy, start, budget, outcomes@, now);
        if !(policy.enabled && start is Some) {
            lemma_inventory_without_cache(policy, start, budget, outcomes@, now);
        }
    }
    inventory
}

/// The inventory holds an identity for every archive that was opened, and
/// no more identities than downloads succeeded.
pub proof fn lemma_inventory_is_bounded(
    policy: CachePolicy,
    entries: Option<Seq<CachedJarInfoView>>,
    budget: u64,
    outcomes: Seq<Option<FetchedJar>>,
    now: u64,
)
    ensures
        outcomes.filter(opened()).len() <= scan_outcome(policy, entries, budget, outcomes, now).0.len()
            <= outcomes.filter(succeeded()).len(),
    decreases outcomes.len(),
{
    reveal(Seq::filter);
    if outcomes.len() > 0 {
        lemma_inventory_is_bounded(policy, entries, budget, outcomes.drop_last(), now);
    }
}

/// Where the cache takes no part, because it is disabled or there is
/// none, the inventory holds exactly one identity for each archive that
/// was opened, and the cache stays as it is.
pub proof fn lemma_inventory_without_cache(
    policy: CachePolicy,
    entries: Option<Seq<CachedJarInfoView>>,
    budget: u64,
    outcomes: Seq<Option<FetchedJar>>,
    now: u64,
)
    requires
        !(policy.enabled && entries is Some),
    ensures
        scan_outcome(policy, entries, budget, outcomes, now).0.len() == outcomes.filter(
            opened(),
        ).len(),
        scan_outcome(policy, entries, budget, outcomes, now).1 == entries,
    decreases outcomes.len(),
{
    reveal(Seq::filter);
    if outcomes.len() > 0 {
        lemma_inventory_without_cache(policy, entries, budget, outcomes.drop_last(), now);
    }
}

/// Where exactly one of the downloads failed and every archive that
/// arrived was opened, the inventory holds one identity less than there
/// were archives.
pub proof fn lemma_one_failed_download(
    policy: CachePolicy,
    entries: Option<Seq<CachedJarInfoView>>,
    budget: u64,
    outcomes: Seq<Option<FetchedJar>>,
    now: u64,
    failed: int,
)
    requires
        0 <= failed < outcomes.len(),
        outcomes[failed] is None,
        forall|i: int|
            0 <= i < outcomes.len() && i != failed ==> (#[trigger] outcomes[i]) is Some
                && outcomes[i]->0.archive is Opened,
    ensures
        scan_outcome(policy, entries, budget, outcomes, now).0.len() == outcomes.len() - 1,
{
    lemma_inventory_is_bounded(policy, entries, budget, outcomes, now);
    lemma_count_all_but_one(outcomes, succeeded(), failed);
    lemma_count_all_but_one(outcomes, opened(), failed);
}

/// Whether the cache cannot know the archive with the digest `digest`
/// during the analysis of `outcomes`: it holds no entry for the digest
/// and no other archive has it.
pub open spec fn unknown_to_cache(
    entries: Option<Seq<CachedJarInfoView>>,
    outcomes: Seq<Option<FetchedJar>>,
    digest: Seq<char>,
    but: int,
) -> bool {
    &&& entries is Some ==> hash_index(entries->0, digest) == -1
    &&& forall|i: int|
        0 <= i < outcomes.len() && i != but && (#[trigger] outcomes[i]) is Some
            ==> opt_view(outcomes[i]->0.digest) != Some(digest)
}

/// Archives with other digests put no entry with the digest `absent` into
/// the cache.
proof fn lemma_scan_keeps_out(
    policy: CachePolicy,
    entries: Option<Seq<CachedJarInfoView>>,
    budget: u64,
    outcomes: Seq<Option<FetchedJar>>,
    now: u64,
    absent: Seq<char>,
)
    requires
        unknown_to_cache(entries, outcomes, absent, -1),
    ensures
        scan_outcome(policy, entries, budget, outcomes, now).1 is Some <==> entries is Some,
        entries is Some ==> hash_index(
            scan_outcome(policy, entries, budget, outcomes, now).1->0,
            absent,
        ) == -1,
    decreases outcomes.len(),
{
    if outcomes.len() > 0 {
        let rest = outcomes.drop_last();
        assert(unknown_to_cache(entries, rest, absent, -1)) by {
            assert forall|i: int|
                0 <= i < rest.len() && i != -1 && (#[trigger] rest[i]) is Some implies opt_view(
                rest[i]->0.digest,
            ) != Some(absent) by {
                assert(rest[i] == outcomes[i]);
            }
        }
        lemma_scan_keeps_out(policy, entries, budget, rest, now, absent);
        let kept = scan_outcome(policy, entries, budget, rest, now).1;
        match outcomes.last() {
            None => {},
            Some(jar) => {
                assert(outcomes[outcomes.len() - 1] == outcomes.last());
                if cache_takes_part(policy, kept, opt_view(jar.digest)) {
                    let own = opt_view(jar.digest)->0;
                    crate::cache::lemma_get_keeps_out(kept->0, own, policy.ttl_hours, now, absent);
                    let looked = get_entries(kept->0, own, policy.ttl_hours, now);
                    if jar_is_remembered(policy, kept, jar, now) {
                        crate::cache::lemma_put_keeps_out(
                            looked,
                            fresh_entry(
                                own,
                                remembered_name(jar.local_path@),
                                jar.size,
                                analyzed_identity(jar.archive, jar.local_path@, jar.remote_path@)->0,
                                now,
                            ),
                            budget,
                            absent,
                        );
                    }
                }
            },
        }
    }
}

/// An archive that arrived but cannot be opened, and that the cache cannot
/// know, is left out: the inventory and the cache are what they would be
/// had the archive not been listed at all.
pub proof fn lemma_unopened_archive_is_left_out(
    policy: CachePolicy,
    entries: Option<Seq<CachedJarInfoView>>,
    budget: u64,
    outcomes: Seq<Option<FetchedJar>>,
    now: u64,
    unopened: int,
)
    requires
        0 <= unopened < outcomes.len(),
        outcomes[unopened] is Some,
        !(outcomes[unopened]->0.archive is Opened),
        outcomes[unopened]->0.digest is Some ==> unknown_to_cache(
            entries,
            outcomes,
            outcomes[unopened]->0.digest->0@,
            unopened,
        ),
    ensures
        scan_outcome(policy, entries, budget, outcomes, now) == scan_outcome(
            policy,
            entries,
            budget,
            outcomes.remove(unopened),
            now,
        ),
    decreases outcomes.len(),
{
    let rest = outcomes.drop_last();
    let jar = outcomes[unopened]->0;
    if unopened == outcomes.len() - 1 {
        assert(outcomes.remove(unopened) =~= rest);
        let kept = scan_outcome(policy, entries, budget, rest, now).1;
        if jar.digest is Some {
            let own = jar.digest->0@;
            assert(unknown_to_cache(entries, rest, own, -1)) by {
                assert forall|i: int|
                    0 <= i < rest.len() && i != -1 && (#[trigger] rest[i]) is Some implies opt_view(
                    rest[i]->0.digest,
                ) != Some(own) by {
                    assert(rest[i] == outcomes[i]);
                }
            }
            lemma_scan_keeps_out(policy, entries, budget, rest, now, own);
        }
    } else {
        assert(rest[unopened] == outcomes[unopened]);
        if jar.digest is Some {
            let own = jar.digest->0@;
            assert(unknown_to_cache(entries, rest, own, unopened)) by {
                assert forall|i: int|
                    0 <= i < rest.len() && i != unopened && (#[trigger] rest[i]) is Some implies opt_view(
                    rest[i]->0.digest,
                ) != Some(own) by {
                    assert(rest[i] == outcomes[i]);
                }
            }
        }
        lemma_unopened_archive_is_left_out(policy, entries, budget, rest, now, unopened);
        assert(outcomes.remove(unopened).drop_last() =~= rest.remove(unopened));
        assert(outcomes.remove(unopened).last() == outcomes.last());
    }
}

/// Where every download succeeded and exactly one archive cannot be
/// opened, and the cache cannot know that archive, the inventory holds one
/// identity less than there were archives.
pub proof fn lemma_one_unopened_archive(
    policy: CachePolicy,
    entries: Option<Seq<CachedJarInfoView>>,
    budget: u64,
    outcomes: Seq<Option<FetchedJar>>,
    now: u64,
    unopened: int,
)
    requires
        0 <= unopened < outcomes.len(),
        forall|i: int| 0 <= i < outcomes.len() ==> (#[trigger] outcomes[i]) is Some,
        forall|i: int|
            0 <= i < outcomes.len() ==> ((#[trigger] outcomes[i])->0.archive is Opened <==> i
                != unopened),
        outcomes[unopened]->0.digest is Some ==> unknown_to_cache(
            entries,
            outcomes,
            outcomes[unopened]->0.digest->0@,
            unopened,
        ),
    ensures
        scan_outcome(policy, entries, budget, outcomes, now).0.len() == outcomes.len() - 1,
{
    lemma_unopened_archive_is_left_out(policy, entries, budget, outcomes, now, unopened);
    let others = outcomes.remove(unopened);
    lemma_inventory_is_bounded(policy, entries, budget, others, now);
    assert forall|i: int| 0 <= i < others.len() implies opened()(#[trigger] others[i]) by {
        let i0 = if i < unopened { i } else { i + 1 };
        assert(others[i] == outcomes[i0]);
    }
    lemma_count_all(others, opened());
    others.lemma_filter_len(succeeded());
}

/// A selection that every element meets selects all of them.
proof fn lemma_count_all(outcomes: Seq<Option<FetchedJar>>, p: spec_fn(Option<FetchedJar>) -> bool)
    requires
        forall|i: int| 0 <= i < outcomes.len() ==> p(#[trigger] outcomes[i]),
    ensures
        outcomes.filter(p).len() == outcomes.len(),
    decreases outcomes.len(),
{
    reveal(Seq::filter);
    if outcomes.len() > 0 {
        let rest = outcomes.drop_last();
        assert forall|i: int| 0 <= i < rest.len() implies p(#[trigger] rest[i]) by {
            assert(rest[i] == outcomes[i]);
        }
        lemma_count_all(rest, p);
        assert(p(outcomes[outcomes.len() - 1]));
    }
}

/// A selection that every element but one meets selects all but that one.
proof fn lemma_count_all_but_one(
    outcomes: Seq<Option<FetchedJar>>,
    p: spec_fn(Option<FetchedJar>) -> bool,
    other: int,
)
    requires
        0 <= other < outcomes.len(),
        !p(outcomes[other]),
        forall|i: int| 0 <= i < outcomes.len() && i != other ==> p(#[trigger] outcomes[i]),
    ensures
        outcomes.filter(p).len() == outcomes.len() - 1,
    decreases outcomes.len(),
{
    reveal(Seq::filter);
    let rest = outcomes.drop_last();
    if other == outcomes.len() - 1 {
        assert forall|i: int| 0 <= i < rest.len() implies p(#[trigger] rest[i]) by {
            assert(rest[i] == outcomes[i]);
        }
        lemma_count_all(rest, p);
    } else {
        assert(rest[other] == outcomes[other]);
        assert forall|i: int| 0 <= i < rest.len() && i != other implies p(#[trigger] rest[i]) by {
            assert(rest[i] == outcomes[i]);
        }
        lemma_count_all_but_one(rest, p, other);
        assert(p(outcomes[outcomes.len() - 1]));
    }
}

/// Where a scan stands.
#[derive(Debug, Clone, Copy, PartialEq, Eq, Structural)]
pub enum ScanPhase {
    /// The transport is being connected.
    Connecting,
    /// The server is asked what it is.
    Inspecting,
    /// The mods directory is being listed.
    ListingMods,
    /// The archives are being downloaded and analyzed.
    Fetching,
    /// The config directory is being probed.
    ProbingConfig,
    /// The resource-packs directory is being probed.
    ProbingResourcePacks,
    /// The shader-packs directory is being probed.
    ProbingShaderPacks,
    /// The scan is done.
    Finished,
    /// The scan was given up.
    Failed,
}

/// What a scan asks of the transport next.
#[derive(Debug, Clone, PartialEq, Eq)]
pub enum ScanRequest {
    /// Make sure the transport is connected: connect it if it is not.
    Connect,
    /// Ask the server what it is.
    GetServerInfo,
    /// List the files of a directory.
    ListFiles { path: String },
    /// Download the archives and analyze each that arrives.
    FetchArchives { files: Vec<String>, parallel: bool },
    /// Nothing: the scan is over.
    Nothing,
}

/// What the transport answers.
#[derive(Debug, Clone, PartialEq)]
pub enum ScanEvent {
    /// The request was carried out.
    Done,
    /// The request failed.
    Failed(CoreError),
    /// The files of the directory that was listed.
    Files(Vec<String>),
    /// The identities of the archives that arrived.
    Inventory(Vec<ModInfo>),
}

/// The mathematical content of a [`ScanEvent`].
pub enum ScanEventView {
    Done,
    Failed,
    Files(Seq<Seq<char>>),
    Inventory(Seq<ModInfoView>),
}

impl View for ScanEvent {
    type V = ScanEventView;

    open spec fn view(&self) -> ScanEventView {
        match *self {
            ScanEvent::Done => ScanEventView::Done,
            ScanEvent::Failed(_) => ScanEventView::Failed,
            ScanEvent::Files(files) => ScanEventView::Files(strings_view(files@)),
            ScanEvent::Inventory(mods) => ScanEventView::Inventory(mods_view(mods@)),
        }
    }
}

/// What a scan has found so far.
pub struct ScanView {
    pub phase: ScanPhase,
    pub parallel: bool,
    pub mods_exist: bool,
    pub jar_files: Seq<Seq<char>>,
    pub inventory: Seq<ModInfoView>,
    pub config_exists: bool,
    pub resourcepacks_exist: bool,
    pub shaderpacks_exist: bool,
}

/// The scan after the transport's answer `event`.
///
/// A failure to connect, to inspect, to list the mods directory or to
/// fetch gives the scan up. The mods directory exists where its listing is
/// not empty, and only then are archives fetched. The other directories
/// exist where they can be listed, be they empty or not. An answer that
/// does not fit the phase changes nothing.
pub open spec fn step(scan: ScanView, event: ScanEventView) -> ScanView {
    match scan.phase {
        ScanPhase::Connecting => match event {
            ScanEventView::Done => ScanView { phase: ScanPhase::Inspecting, ..scan },
            ScanEventView::Failed => ScanView { phase: ScanPhase::Failed, ..scan },
            _ => scan,
        },
        ScanPhase::Inspecting => match event {
            ScanEventView::Done => ScanView { phase: ScanPhase::ListingMods, ..scan },
            ScanEventView::Failed => ScanView { phase: ScanPhase::Failed, ..scan },
            _ => scan,
        },
        ScanPhase::ListingMods => match event {
            ScanEventView::Files(files) => if files.len() > 0 {
                ScanView {
                    phase: ScanPhase::Fetching,
                    mods_exist: true,
                    jar_files: files.filter(jar_paths()),
                    ..scan
                }
            } else {
                ScanView { phase: ScanPhase::ProbingConfig, mods_exist: false, ..scan }
            },
            ScanEventView::Failed => ScanView { phase: ScanPhase::Failed, ..scan },
            _ => scan,
        },
        ScanPhase::Fetching => match event {
            ScanEventView::Inventory(mods) => ScanView {
                phase: ScanPhase::ProbingConfig,
                inventory: scan.inventory + mods,
                ..scan
            },
            ScanEventView::Failed => ScanView { phase: ScanPhase::Failed, ..scan },
            _ => scan,
        },
        ScanPhase::ProbingConfig => match event {
            ScanEventView::Files(_) => ScanView {
                phase: ScanPhase::ProbingResourcePacks,
                config_exists: true,
                ..scan
            },
            ScanEventView::Failed => ScanView {
                phase: ScanPhase::ProbingResourcePacks,
                config_exists: false,
                ..scan
            },
            _ => scan,
        },
        ScanPhase::ProbingResourcePacks => match event {
            ScanEventView::Files(_) => ScanView {
                phase: ScanPhase::ProbingShaderPacks,
                resourcepacks_exist: true,
                ..scan
            },
            ScanEventView::Failed => ScanView {
                phase: ScanPhase::ProbingShaderPacks,
                resourcepacks_exist: false,
                ..scan
            },
            _ => scan,
        },
        ScanPhase::ProbingShaderPacks => match event {
            ScanEventView::Files(_) => ScanView {
                phase: ScanPhase::Finished,
                shaderpacks_exist: true,
                ..scan
            },
            ScanEventView::Failed => ScanView {
                phase: ScanPhase::Finished,
                shaderpacks_exist: false,
                ..scan
            },
            _ => scan,
        },
        ScanPhase::Finished => scan,
        ScanPhase::Failed => scan,
    }
}

/// The stage and the progress, out of a hundred, that a phase is reported
/// with.
pub open spec fn reported(phase: ScanPhase) -> (ProgressStage, u64) {
    match phase {
        ScanPhase::Connecting => (ProgressStage::Connecting, 0),
        ScanPhase::Inspecting => (ProgressStage::CheckingCache, 10),
        ScanPhase::ListingMods => (ProgressStage::Listing, 20),
        ScanPhase::Fetching => (ProgressStage::Downloading, 30),
        ScanPhase::ProbingConfig => (ProgressStage::Listing, 90),
        ScanPhase::ProbingResourcePacks => (ProgressStage::Listing, 92),
        ScanPhase::ProbingShaderPacks => (ProgressStage::Listing, 94),
        ScanPhase::Finished => (ProgressStage::Completed, 100),
        ScanPhase::Failed => (ProgressStage::Completed, 100),
    }
}

/// One scan of an installation: it says what to ask of the transport and
/// takes the answers, until the structure of the installation is known.
#[derive(Debug, Clone, PartialEq)]
pub struct ScanSession {
    phase: ScanPhase,
    parallel: bool,
    structure: MinecraftStructure,
    jar_files: Vec<String>,
    failure: Option<CoreError>,
}

impl View for ScanSession {
    type V = ScanView;

    closed spec fn view(&self) -> ScanView {
        ScanView {
            phase: self.phase,
            parallel: self.parallel,
            mods_exist: self.structure.mods.exists,
            jar_files: strings_view(self.jar_files@),
            inventory: mods_view(self.structure.mods.mods@),
            config_exists: self.structure.config.exists,
            resourcepacks_exist: self.structure.resourcepacks.exists,
            shaderpacks_exist: self.structure.shaderpacks.exists,
        }
    }
}

impl ScanSession {
    /// The structure as far as it is known.
    pub closed spec fn structure(&self) -> MinecraftStructure {
        self.structure
    }

    /// Why the scan was given up, where it was.
    pub closed spec fn failure(&self) -> Option<CoreError> {
        self.failure
    }

    /// Whether the structure agrees with what the scan has found.
    pub open spec fn agrees(&self) -> bool {
        &&& self.structure().mods.exists == self@.mods_exist
        &&& self.structure().inventory() == self@.inventory
        &&& self.structure().config.exists == self@.config_exists
        &&& self.structure().resourcepacks.exists == self@.resourcepacks_exist
        &&& self.structure().shaderpacks.exists == self@.shaderpacks_exist
    }

    /// A scan of the installation at `root_path` that has not asked for
    /// anything yet.
    pub fn start(root_path: String, parallel: bool) -> (scan: Self)
        ensures
            scan@ == (ScanView {
                phase: ScanPhase::Connecting,
                parallel,
                mods_exist: false,
                jar_files: Seq::empty(),
                inventory: Seq::empty(),
                config_exists: false,
                resourcepacks_exist: false,
                shaderpacks_exist: false,
            }),
            scan.structure().is_blank(root_path@),
            scan.failure() is None,
            scan.agrees(),
    {
        let scan = ScanSession {
            phase: ScanPhase::Connecting,
            parallel,
            structure: MinecraftStructure::new(root_path),
            jar_files: Vec::new(),
            failure: None,
        };
        assert(scan@.jar_files =~= Seq::empty());
        assert(scan@.inventory =~= Seq::empty());
        scan
    }

    /// Where the scan stands.
    pub fn phase(&self) -> (phase: ScanPhase)
        ensures
            phase == self@.phase,
    {
        self.phase
    }

    /// What the scan asks of the transport next.
    pub fn request(&self) -> (request: ScanRequest)
        ensures
            match self@.phase {
                ScanPhase::Connecting => request is Connect,
                ScanPhase::Inspecting => request is GetServerInfo,
                ScanPhase::ListingMods => request is ListFiles && request->path@
                    == self.structure().mods.path@,
                ScanPhase::Fetching => request is FetchArchives && strings_view(request->files@)
                    == self@.jar_files && request->parallel == self@.parallel,
                ScanPhase::ProbingConfig => request is ListFiles && request->path@
                    == self.structure().config.path@,
                ScanPhase::ProbingResourcePacks => request is ListFiles && request->path@
                    == self.structure().resourcepacks.path@,
                ScanPhase::ProbingShaderPacks => request is ListFiles && request->path@
                    == self.structure().shaderpacks.path@,
                ScanPhase::Finished => request is Nothing,
                ScanPhase::Failed => request is Nothing,
            },
    {
        match self.phase {
            ScanPhase::Connecting => ScanRequest::Connect,
            ScanPhase::Inspecting => ScanRequest::GetServerInfo,
            ScanPhase::ListingMods => ScanRequest::ListFiles {
                path: self.structure.mods.path.clone(),
            },
            ScanPhase::Fetching => ScanRequest::FetchArchives {
                files: crate::text::clone_strings(&self.jar_files),
                parallel: self.parallel,
            },
            ScanPhase::ProbingConfig => ScanRequest::ListFiles {
                path: self.structure.config.path.clone(),
            },
            ScanPhase::ProbingResourcePacks => ScanRequest::ListFiles {
                path: self.structure.resourcepacks.path.clone(),
            },
            ScanPhase::ProbingShaderPacks => ScanRequest::ListFiles {
                path: self.structure.shaderpacks.path.clone(),
            },
            ScanPhase::Finished => ScanRequest::Nothing,
            ScanPhase::Failed => ScanRequest::Nothing,
        }
    }

    /// The report of progress that goes with the phase.
    pub fn progress(&self) -> (update: ProgressUpdate)
        ensures
            update.stage == reported(self@.phase).0,
            update.current == reported(self@.phase).1,
            update.total == 100,
            update.message is None,
            update.throughput is None,
    {
        match self.phase {
            ScanPhase::Connecting => ProgressUpdate::new(ProgressStage::Connecting, 0, 100),
            ScanPhase::Inspecting => ProgressUpdate::new(ProgressStage::CheckingCache, 10, 100),
            ScanPhase::ListingMods => ProgressUpdate::new(ProgressStage::Listing, 20, 100),
            ScanPhase::Fetching => ProgressUpdate::new(ProgressStage::Downloading, 30, 100),
            ScanPhase::ProbingConfig => ProgressUpdate::new(ProgressStage::Listing, 90, 100),
            ScanPhase::ProbingResourcePacks => ProgressUpdate::new(
                ProgressStage::Listing,
                92,
                100,
            ),
            ScanPhase::ProbingShaderPacks => ProgressUpdate::new(ProgressStage::Listing, 94, 100),
            ScanPhase::Finished => ProgressUpdate::new(ProgressStage::Completed, 100, 100),
            ScanPhase::Failed => ProgressUpdate::new(ProgressStage::Completed, 100, 100),
        }
    }

    /// Takes the transport's answer to the last request.
    pub fn advance(&mut self, event: ScanEvent)
        ensures
            final(self)@ == step(old(self)@, event@),
            final(self).agrees(),
            final(self).structure().root_path == old(self).structure().root_path,
            final(self).structure().mods.path == old(self).structure().mods.path,
            final(self).structure().config.path == old(self).structure().config.path,
            final(self).structure().resourcepacks.path == old(self).structure().resourcepacks.path,
            final(self).structure().shaderpacks.path == old(self).structure().shaderpacks.path,
            final(self)@.phase == ScanPhase::Failed && old(self)@.phase != ScanPhase::Failed
                ==> event is Failed && final(self).failure() == Some(event->Failed_0),
            !(final(self)@.phase == ScanPhase::Failed && old(self)@.phase != ScanPhase::Failed)
                ==> final(self).failure() == old(self).failure(),
    {
        match self.phase {
            ScanPhase::Connecting => match event {
                ScanEvent::Done => {
                    self.phase = ScanPhase::Inspecting;
                },
                ScanEvent::Failed(error) => {
                    self.phase = ScanPhase::Failed;
                    self.failure = Some(error);
                },
                _ => {},
            },
            ScanPhase::Inspecting => match event {
                ScanEvent::Done => {
                    self.phase = ScanPhase::ListingMods;
                },
                ScanEvent::Failed(error) => {
                    self.phase = ScanPhase::Failed;
                    self.failure = Some(error);
                },
                _ => {},
            },
            ScanPhase::ListingMods => match event {
                ScanEvent::Files(files) => {
                    if files.len() > 0 {
                        self.structure.mods.exists = true;
                        self.jar_files = select_jar_files(&files);
                        self.phase = ScanPhase::Fetching;
                    } else {
                        self.structure.mods.exists = false;
                        self.phase = ScanPhase::ProbingConfig;
                    }
                },
                ScanEvent::Failed(error) => {
                    self.phase = ScanPhase::Failed;
                    self.failure = Some(error);
                },
                _ => {},
            },
            ScanPhase::Fetching => match event {
                ScanEvent::Inventory(mods) => {
                    let ghost before = mods_view(self.structure.mods.mods@);
                    let mut found = mods;
                    self.structure.mods.mods.append(&mut found);
                    assert(mods_view(self.structure.mods.mods@) =~= before + mods_view(mods@));
                    self.phase = ScanPhase::ProbingConfig;
                },
                ScanEvent::Failed(error) => {
                    self.phase = ScanPhase::Failed;
                    self.failure = Some(error);
                },
                _ => {},
            },
            ScanPhase::ProbingConfig => match event {
                ScanEvent::Files(_) => {
                    self.structure.config.exists = true;
                    self.phase = ScanPhase::ProbingResourcePacks;
                },
                ScanEvent::Failed(_) => {
                    self.structure.config.exists = false;
                    self.phase = ScanPhase::ProbingResourcePacks;
                },
                _ => {},
            },
            ScanPhase::ProbingResourcePacks => match event {
                ScanEvent::Files(_) => {
                    self.structure.resourcepacks.exists = true;
                    self.phase = ScanPhase::ProbingShaderPacks;
                },
                ScanEvent::Failed(_) => {
                    self.structure.resourcepacks.exists = false;
                    self.phase = ScanPhase::ProbingShaderPacks;
                },
                _ => {},
            },
            ScanPhase::ProbingShaderPacks => match event {
                ScanEvent::Files(_) => {
                    self.structure.shaderpacks.exists = true;
                    self.phase = ScanPhase::Finished;
                },
                ScanEvent::Failed(_) => {
                    self.structure.shaderpacks.exists = false;
                    self.phase = ScanPhase::Finished;
                },
                _ => {},
            },
            ScanPhase::Finished => {},
            ScanPhase::Failed => {},
        }
    }

    /// The structure that a finished scan has found, or the failure of a
    /// scan that was given up. A scan that is still under way is refused.
    pub fn finish(self) -> (result: Result<MinecraftStructure, ManagerError>)
        ensures
            match result {
                Ok(structure) => self@.phase == ScanPhase::Finished && structure
                    == self.structure(),
                Err(e) => self@.phase != ScanPhase::Finished && (self@.phase == ScanPhase::Failed
                    && self.failure() is Some ==> e == ManagerError::Core(self.failure()->0)) && (
                !(self@.phase == ScanPhase::Failed && self.failure() is Some) ==> e
                    is InvalidStructure),
            },
    {
        match self.phase {
            ScanPhase::Finished => Ok(self.structure),
            ScanPhase::Failed => match self.failure {
                Some(error) => Err(ManagerError::Core(error)),
                None => Err(
                    ManagerError::InvalidStructure { reason: "The scan failed".to_owned() },
                ),
            },
            _ => Err(
                ManagerError::InvalidStructure { reason: "The scan is not finished".to_owned() },
            ),
        }
    }
}

/// A scan in which no request for connection, inspection, listing of the
/// mods directory or fetching fails runs to its end, whatever becomes of
/// single archives and of the other directories: from the listing of the
/// mods directory on, six answers at most finish it.
pub proof fn lemma_scan_completes(
    scan: ScanView,
    files: Seq<Seq<char>>,
    mods: Seq<ModInfoView>,
    config: ScanEventView,
    resourcepacks: ScanEventView,
    shaderpacks: ScanEventView,
)
    requires
        scan.phase == ScanPhase::ListingMods,
        config is Files || config is Failed,
        resourcepacks is Files || resourcepacks is Failed,
        shaderpacks is Files || shaderpacks is Failed,
    ensures
        ({
            let listed = step(scan, ScanEventView::Files(files));
            let fetched = if files.len() > 0 {
                step(listed, ScanEventView::Inventory(mods))
            } else {
                listed
            };
            let done = step(step(step(fetched, config), resourcepacks), shaderpacks);
            &&& done.phase == ScanPhase::Finished
            &&& done.inventory == (if files.len() > 0 {
                scan.inventory + mods
            } else {
                scan.inventory
            })
            &&& done.mods_exist == (files.len() > 0)
            &&& done.config_exists == (config is Files)
            &&& done.resourcepacks_exist == (resourcepacks is Files)
            &&& done.shaderpacks_exist == (shaderpacks is Files)
        }),
{
}

} // verus!
