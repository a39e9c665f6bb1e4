//! Comparing two scanned installations, planning their synchronization and
//! turning a plan into transport operations.

use crate::actions::{lemma_kinds_partition, SyncAction, SyncActionView, SyncPlan, SyncTarget};
use crate::error::ManagerError;
use crate::paths::{place_in, placed_in};
use crate::rules::{
    check_compatibility, check_result, is_ignored, is_mismatch, is_missing_on_server,
    CompatConfig, CompatResult, CompatResultView, VersionMismatchView,
};
use crate::cache::{GlobalJarCache, ServerStructureCache};
use crate::config::ManagerConfig;
use crate::scanning::{
    analyze_single_jar_at, budget_of, cache_hits, entries_after_jar, entries_of, evicted_by_jar,
    jar_identity, needs_archive_at, opened, opt_mod_view, scan_inventory_at, scan_outcome,
    succeeded, AnalyzedJar, CachePolicy, FetchedJar,
};
use crate::text::strings_view;
use crate::types::opt_view;
use crate::string_map::StringMap;
use crate::structure::MinecraftStructure;
use crate::types::{mods_view, ModInfo, ModInfoView};
use vstd::prelude::*;
use vstd::string::StringExecFns;

verus! {

/// The first mod in `mods` with display name `name`, if there is one.
pub open spec fn find_by_name(mods: Seq<ModInfoView>, name: Seq<char>) -> Option<ModInfoView>
    decreases mods.len(),
{
    if mods.len() == 0 {
        None
    } else if mods[0].name == name {
        Some(mods[0])
    } else {
        find_by_name(mods.skip(1), name)
    }
}

/// Looks up the first mod with display name `name`.
pub fn lookup_by_name<'a>(mods: &'a Vec<ModInfo>, name: &String) -> (found: Option<&'a ModInfo>)
    ensures
        match found {
            Some(m) => find_by_name(mods_view(mods@), name@) == Some(m@),
            None => find_by_name(mods_view(mods@), name@) is None,
        },
{
    let ghost all = mods_view(mods@);
    let mut i: usize = 0;
    assert(all.skip(0) =~= all);
    while i < mods.len()
        invariant
            i <= mods.len(),
            all == mods_view(mods@),
            find_by_name(all, name@) == find_by_name(all.skip(i as int), name@),
        decreases mods.len() - i,
    {
        if mods[i].name == *name {
            return Some(&mods[i]);
        }
        assert(all.skip(i as int).skip(1) =~= all.skip(i as int + 1));
        i += 1;
    }
    None
}

/// The action that adds the mod `m` to the server.
pub open spec fn add_to_server() -> spec_fn(ModInfoView) -> SyncActionView {
    |m: ModInfoView| SyncActionView::AddMod { mod_info: m, target: SyncTarget::Server }
}

/// The action that removes the mod `m` from the server.
pub open spec fn remove_from_server() -> spec_fn(ModInfoView) -> SyncActionView {
    |m: ModInfoView|
        SyncActionView::RemoveMod { mod_id: m.id, mod_info: m, target: SyncTarget::Server }
}

/// The action that keeps the ignored mod `id` as it is.
pub open spec fn keep_ignored() -> spec_fn(Seq<char>) -> SyncActionView {
    |id: Seq<char>|
        SyncActionView::KeepAsIs { mod_id: id, reason: "Mod ignored by compatibility rules"@ }
}

/// The update that settles one version mismatch: the server's archive is
/// replaced by the client's. Both archives are found by the mismatch's
/// display name; where either inventory has no mod of that name there is
/// no update.
pub open spec fn update_for(client: Seq<ModInfoView>, server: Seq<ModInfoView>) -> spec_fn(
    VersionMismatchView,
) -> Option<SyncActionView> {
    |mismatch: VersionMismatchView|
        match (find_by_name(client, mismatch.mod_name), find_by_name(server, mismatch.mod_name)) {
            (Some(source), Some(target)) => Some(
                SyncActionView::UpdateMod {
                    mod_id: mismatch.mod_id,
                    from_version: mismatch.server_version,
                    to_version: mismatch.client_version,
                    current_path: target.file_path,
                    new_path: source.file_path,
                },
            ),
            _ => None,
        }
}

/// The actions that reconcile the server with the client after the check
/// `compat`: additions first, then removals, then updates, then the mods
/// that stay as they are, each group in the order of its list.
pub open spec fn plan_actions(
    compat: CompatResultView,
    client: Seq<ModInfoView>,
    server: Seq<ModInfoView>,
) -> Seq<SyncActionView> {
    compat.missing_on_server.map_values(add_to_server()) + compat.missing_on_client.map_values(
        remove_from_server(),
    ) + compat.version_mismatches.filter_map(update_for(client, server))
        + compat.ignored_mods.map_values(keep_ignored())
}

/// Turns the result of a compatibility check into a plan that brings the
/// server in line with the client.
pub fn plan_sync(compat: &CompatResult, client_mods: &Vec<ModInfo>, server_mods: &Vec<ModInfo>) -> (plan:
    SyncPlan)
    requires
        compat.missing_on_server.len() + compat.missing_on_client.len()
            + compat.version_mismatches.len() + compat.ignored_mods.len() <= usize::MAX,
    ensures
        plan.wf(),
        plan@.actions == plan_actions(compat@, mods_view(client_mods@), mods_view(server_mods@)),
        plan@.will_be_compatible == compat.is_compatible,
        plan.summary.total_mods == plan.actions.len(),
        plan.summary.total_mods == plan.summary.mods_to_update + plan.summary.mods_to_add
            + plan.summary.mods_to_remove + plan.summary.mods_to_keep,
{
    let ghost client = mods_view(client_mods@);
    let ghost server = mods_view(server_mods@);
    let ghost result = compat@;
    let mut plan = SyncPlan::new();
    plan.will_be_compatible = compat.is_compatible;

    let mut i: usize = 0;
    while i < compat.missing_on_server.len()
        invariant
            i <= compat.missing_on_server.len(),
            result == compat@,
            plan.wf(),
            plan.actions.len() == i,
            plan.will_be_compatible == compat.is_compatible,
            plan@.actions == result.missing_on_server.take(i as int).map_values(add_to_server()),
        decreases compat.missing_on_server.len() - i,
    {
        let action = SyncAction::AddMod {
            mod_info: compat.missing_on_server[i].clone(),
            target: SyncTarget::Server,
        };
        proof {
            lemma_kinds_partition(plan@.actions);
        }
        plan.add_action(action);
        i += 1;
        assert(plan@.actions =~= result.missing_on_server.take(i as int).map_values(
            add_to_server(),
        ));
    }
    assert(result.missing_on_server.take(i as int) =~= result.missing_on_server);
    let ghost added = plan@.actions;

    let mut j: usize = 0;
    while j < compat.missing_on_client.len()
        invariant
            j <= compat.missing_on_client.len(),
            result == compat@,
            plan.wf(),
            plan.actions.len() == compat.missing_on_server.len() + j,
            compat.missing_on_server.len() + compat.missing_on_client.len() <= usize::MAX,
            plan.will_be_compatible == compat.is_compatible,
            plan@.actions == added + result.missing_on_client.take(j as int).map_values(
                remove_from_server(),
            ),
        decreases compat.missing_on_client.len() - j,
    {
        let extra = &compat.missing_on_client[j];
        let action = SyncAction::RemoveMod {
            mod_id: extra.id.clone(),
            mod_info: extra.clone(),
            target: SyncTarget::Server,
        };
        proof {
            lemma_kinds_partition(plan@.actions);
        }
        plan.add_action(action);
        j += 1;
        assert(plan@.actions =~= added + result.missing_on_client.take(j as int).map_values(
            remove_from_server(),
        ));
    }
    assert(result.missing_on_client.take(j as int) =~= result.missing_on_client);
    let ghost removed = plan@.actions;

    let mut k: usize = 0;
    assert(result.version_mismatches.take(0).filter_map(update_for(client, server)) =~= Seq::<
        SyncActionView,
    >::empty());
    while k < compat.version_mismatches.len()
        invariant
            k <= compat.version_mismatches.len(),
            result == compat@,
            client == mods_view(client_mods@),
            server == mods_view(server_mods@),
            plan.wf(),
            plan.actions.len() <= compat.missing_on_server.len() + compat.missing_on_client.len()
                + k,
            compat.missing_on_server.len() + compat.missing_on_client.len()
                + compat.version_mismatches.len() <= usize::MAX,
            plan.will_be_compatible == compat.is_compatible,
            plan@.actions == removed + result.version_mismatches.take(k as int).filter_map(
                update_for(client, server),
            ),
        decreases compat.version_mismatches.len() - k,
    {
        let mismatch = &compat.version_mismatches[k];
        proof {
            result.version_mismatches.lemma_filter_map_take_succ(
                update_for(client, server),
                k as int,
            );
        }
        match lookup_by_name(client_mods, &mismatch.mod_name) {
            Some(source) => {
                match lookup_by_name(server_mods, &mismatch.mod_name) {
                    Some(target) => {
                        let action = SyncAction::UpdateMod {
                            mod_id: mismatch.mod_id.clone(),
                            from_version: mismatch.server_version.clone(),
                            to_version: mismatch.client_version.clone(),
                            current_path: target.file_path.clone(),
                            new_path: source.file_path.clone(),
                        };
                        proof {
                            lemma_kinds_partition(plan@.actions);
                        }
                        plan.add_action(action);
                    },
                    None => {},
                }
            },
            None => {},
        }
        k += 1;
        assert(plan@.actions =~= removed + result.version_mismatches.take(k as int).filter_map(
            update_for(client, server),
        ));
    }
    assert(result.version_mismatches.take(k as int) =~= result.version_mismatches);
    let ghost updated = plan@.actions;
    let ghost base = plan.actions.len();

    let mut l: usize = 0;
    while l < compat.ignored_mods.len()
        invariant
            l <= compat.ignored_mods.len(),
            result == compat@,
            plan.wf(),
            plan.actions.len() == base + l,
            base + compat.ignored_mods.len() <= usize::MAX,
            plan.will_be_compatible == compat.is_compatible,
            plan@.actions == updated + result.ignored_mods.take(l as int).map_values(
                keep_ignored(),
            ),
        decreases compat.ignored_mods.len() - l,
    {
        let action = SyncAction::KeepAsIs {
            mod_id: compat.ignored_mods[l].clone(),
            reason: "Mod ignored by compatibility rules".to_owned(),
        };
        proof {
            lemma_kinds_partition(plan@.actions);
        }
        plan.add_action(action);
        l += 1;
        assert(plan@.actions =~= updated + result.ignored_mods.take(l as int).map_values(
            keep_ignored(),
        ));
    }
    assert(result.ignored_mods.take(l as int) =~= result.ignored_mods);
    proof {
        lemma_kinds_partition(plan@.actions);
    }
    plan
}


/// Three selections of which no two select the same element select no more
/// elements than there are.
proof fn lemma_disjoint_filters<A>(
    s: Seq<A>,
    p: spec_fn(A) -> bool,
    q: spec_fn(A) -> bool,
    r: spec_fn(A) -> bool,
)
    requires
        forall|x: A| #[trigger] p(x) ==> !q(x) && !r(x),
        forall|x: A| #[trigger] q(x) ==> !r(x),
    ensures
        s.filter(p).len() + s.filter(q).len() + s.filter(r).len() <= s.len(),
    decreases s.len(),
{
    reveal(Seq::filter);
    if s.len() > 0 {
        lemma_disjoint_filters(s.drop_last(), p, q, r);
    }
}

/// The findings of a check are no more than the mods that were checked:
/// every client mod is in at most one of the three lists made of client
/// mods, and every mod missing on the client is a server mod.
pub proof fn lemma_findings_are_bounded(
    client: Seq<ModInfoView>,
    server: Seq<ModInfoView>,
    config: crate::rules::CompatConfigView,
)
    ensures
        check_result(client, server, config).missing_on_server.len() + check_result(
            client,
            server,
            config,
        ).version_mismatches.len() + check_result(client, server, config).ignored_mods.len()
            <= client.len(),
        check_result(client, server, config).missing_on_client.len() <= server.len(),
{
    lemma_disjoint_filters(
        client,
        is_missing_on_server(server, config),
        is_mismatch(server, config),
        is_ignored(server, config),
    );
    server.lemma_filter_len(crate::rules::is_missing_on_client(client, config));
}

/// Compares the client's inventory with the server's and plans what brings
/// the server in line with the client.
pub fn compare_inventories(
    client_mods: &Vec<ModInfo>,
    server_mods: &Vec<ModInfo>,
    config: &CompatConfig,
) -> (result: Result<SyncPlan, ManagerError>)
    requires
        client_mods.len() + server_mods.len() <= usize::MAX,
    ensures
        result is Ok,
        result->Ok_0.wf(),
        result->Ok_0@.actions == plan_actions(
            check_result(mods_view(client_mods@), mods_view(server_mods@), config@),
            mods_view(client_mods@),
            mods_view(server_mods@),
        ),
        result->Ok_0@.will_be_compatible == check_result(
            mods_view(client_mods@),
            mods_view(server_mods@),
            config@,
        ).is_compatible,
        result->Ok_0.summary.total_mods == result->Ok_0.actions.len(),
        result->Ok_0.summary.total_mods == result->Ok_0.summary.mods_to_update
            + result->Ok_0.summary.mods_to_add + result->Ok_0.summary.mods_to_remove
            + result->Ok_0.summary.mods_to_keep,
{
    match check_compatibility(client_mods, server_mods, config) {
        Ok(compat) => {
            proof {
                lemma_findings_are_bounded(
                    mods_view(client_mods@),
                    mods_view(server_mods@),
                    config@,
                );
            }
            Ok(plan_sync(&compat, client_mods, server_mods))
        },
        Err(e) => Err(ManagerError::Compat(e)),
    }
}

/// One operation on the transport of the server.
#[derive(Debug, Clone, PartialEq, Eq)]
pub enum TransportOp {
    /// Upload the local file to the remote path.
    Upload { local_path: String, remote_path: String },
    /// Delete the remote file. Where `must_succeed` is false a failure of
    /// the deletion is passed over.
    Delete { remote_path: String, must_succeed: bool },
}

/// The mathematical content of a [`TransportOp`].
pub enum TransportOpView {
    Upload { local_path: Seq<char>, remote_path: Seq<char> },
    Delete { remote_path: Seq<char>, must_succeed: bool },
}

impl View for TransportOp {
    type V = TransportOpView;

    open spec fn view(&self) -> TransportOpView {
        match *self {
            TransportOp::Upload { local_path, remote_path } => TransportOpView::Upload {
                local_path: local_path@,
                remote_path: remote_path@,
            },
            TransportOp::Delete { remote_path, must_succeed } => TransportOpView::Delete {
                remote_path: remote_path@,
                must_succeed,
            },
        }
    }
}

/// The views of the operations in `ops`, in order.
pub open spec fn ops_view(ops: Seq<TransportOp>) -> Seq<TransportOpView> {
    ops.map_values(|op: TransportOp| op@)
}

/// The operations that carry out `action` on the server, in order, or
/// nothing for an action that the server's transport cannot carry out:
/// one that targets the client. A mod is added by uploading its archive
/// into the mods directory and removed by deleting it there; an update
/// deletes the old archive, whether or not that succeeds, and uploads the
/// new one.
pub open spec fn operations_of(action: SyncActionView) -> Option<Seq<TransportOpView>> {
    match action {
        SyncActionView::AddMod { mod_info, target } => if target == SyncTarget::Server {
            Some(
                seq![
                    TransportOpView::Upload {
                        local_path: mod_info.file_path,
                        remote_path: placed_in("mods"@, mod_info.file_path),
                    },
                ],
            )
        } else {
            None
        },
        SyncActionView::RemoveMod { mod_id, mod_info, target } => if target == SyncTarget::Server {
            Some(
                seq![
                    TransportOpView::Delete {
                        remote_path: placed_in("mods"@, mod_info.file_path),
                        must_succeed: true,
                    },
                ],
            )
        } else {
            None
        },
        SyncActionView::UpdateMod { mod_id, from_version, to_version, current_path, new_path } => {
            Some(
                seq![
                    TransportOpView::Delete {
                        remote_path: placed_in("mods"@, current_path),
                        must_succeed: false,
                    },
                    TransportOpView::Upload {
                        local_path: new_path,
                        remote_path: placed_in("mods"@, new_path),
                    },
                ],
            )
        },
        SyncActionView::KeepAsIs { mod_id, reason } => Some(Seq::empty()),
    }
}

/// The words that name `action` in the report of a failure.
pub open spec fn failure_label(action: SyncActionView) -> Seq<char> {
    match action {
        SyncActionView::AddMod { mod_info, target } => "Add mod "@ + mod_info.name,
        SyncActionView::RemoveMod { mod_id, mod_info, target } => "Remove mod "@ + mod_info.name,
        SyncActionView::UpdateMod { mod_id, from_version, to_version, current_path, new_path } => {
            "Update mod "@ + mod_id
        },
        SyncActionView::KeepAsIs { mod_id, reason } => "Keep mod "@ + mod_id,
    }
}

/// Turns one action of a plan into the operations that carry it out on the
/// server. An action that targets the client is refused.
pub fn sync_operations(action: &SyncAction) -> (result: Result<Vec<TransportOp>, ManagerError>)
    ensures
        match result {
            Ok(ops) => operations_of(action@) == Some(ops_view(ops@)),
            Err(e) => operations_of(action@) is None && e is UpdateFailed
                && e->UpdateFailed_action@ == "Client-side action"@ && e->UpdateFailed_reason@
                == "Cannot perform client actions with server connector"@,
        },
{
    let mut ops: Vec<TransportOp> = Vec::new();
    match action {
        SyncAction::AddMod { mod_info, target } => {
            match target {
                SyncTarget::Server => {
                    ops.push(
                        TransportOp::Upload {
                            local_path: mod_info.file_path.clone(),
                            remote_path: place_in("mods", mod_info.file_path.as_str()),
                        },
                    );
                },
                SyncTarget::Client => {
                    return Err(client_side_error());
                },
            }
        },
        SyncAction::RemoveMod { mod_id, mod_info, target } => {
            match target {
                SyncTarget::Server => {
                    ops.push(
                        TransportOp::Delete {
                            remote_path: place_in("mods", mod_info.file_path.as_str()),
                            must_succeed: true,
                        },
                    );
                },
                SyncTarget::Client => {
                    return Err(client_side_error());
                },
            }
        },
        SyncAction::UpdateMod { mod_id, from_version, to_version, current_path, new_path } => {
            ops.push(
                TransportOp::Delete {
                    remote_path: place_in("mods", current_path.as_str()),
                    must_succeed: false,
                },
            );
            ops.push(
                TransportOp::Upload {
                    local_path: new_path.clone(),
                    remote_path: place_in("mods", new_path.as_str()),
                },
            );
        },
        SyncAction::KeepAsIs { mod_id, reason } => {},
    }
    assert(ops_view(ops@) =~= operations_of(action@)->0);
    Ok(ops)
}

/// The error of an action that targets the client.
fn client_side_error() -> (error: ManagerError)
    ensures
        error is UpdateFailed,
        error->UpdateFailed_action@ == "Client-side action"@,
        error->UpdateFailed_reason@ == "Cannot perform client actions with server connector"@,
{
    ManagerError::UpdateFailed {
        action: "Client-side action".to_owned(),
        reason: "Cannot perform client actions with server connector".to_owned(),
    }
}

/// The error that reports that `action` failed for the reason `reason`.
pub fn update_failed(action: &SyncAction, reason: String) -> (error: ManagerError)
    ensures
        error is UpdateFailed,
        error->UpdateFailed_action@ == failure_label(action@),
        error->UpdateFailed_reason@ == reason@,
{
    let label = match action {
        SyncAction::AddMod { mod_info, target } => "Add mod ".to_owned().concat(
            mod_info.name.as_str(),
        ),
        SyncAction::RemoveMod { mod_id, mod_info, target } => "Remove mod ".to_owned().concat(
            mod_info.name.as_str(),
        ),
        SyncAction::UpdateMod { mod_id, from_version, to_version, current_path, new_path } => {
            "Update mod ".to_owned().concat(mod_id.as_str())
        },
        SyncAction::KeepAsIs { mod_id, reason } => "Keep mod ".to_owned().concat(mod_id.as_str()),
    };
    ManagerError::UpdateFailed { action: label, reason }
}

/// Which directories of `structure` exist, by name.
pub open spec fn directory_flags(structure: MinecraftStructure) -> Map<Seq<char>, bool> {
    Map::<Seq<char>, bool>::empty().insert("mods"@, structure.mods.exists).insert(
        "config"@,
        structure.config.exists,
    ).insert("resourcepacks"@, structure.resourcepacks.exists).insert(
        "shaderpacks"@,
        structure.shaderpacks.exists,
    )
}

/// Which directories of `structure` exist, by name.
pub fn directory_structure(structure: &MinecraftStructure) -> (flags: StringMap<bool>)
    ensures
        flags@ == directory_flags(*structure),
{
    let mut flags: StringMap<bool> = StringMap::new();
    flags.insert("mods".to_owned(), structure.mods.exists);
    flags.insert("config".to_owned(), structure.config.exists);
    flags.insert("resourcepacks".to_owned(), structure.resourcepacks.exists);
    flags.insert("shaderpacks".to_owned(), structure.shaderpacks.exists);
    flags
}

/// The manager of one installation: what its last scan found, and the
/// caches that its scans use.
#[derive(Debug)]
pub struct MinecraftManager {
    server_id: Option<String>,
    structure: Option<MinecraftStructure>,
    parallel_enabled: bool,
    jar_cache: Option<GlobalJarCache>,
    structure_cache: Option<ServerStructureCache>,
    policy: CachePolicy,
}

impl MinecraftManager {
    /// What the last scan found, where there was one since the last change.
    pub closed spec fn scanned(&self) -> Option<MinecraftStructure> {
        self.structure
    }

    /// Whether archives are downloaded side by side.
    pub closed spec fn is_parallel(&self) -> bool {
        self.parallel_enabled
    }

    /// The cache of identities, where the manager has one.
    pub closed spec fn cache(&self) -> Option<GlobalJarCache> {
        self.jar_cache
    }

    /// The record of the last scan, where the manager keeps one.
    pub closed spec fn scan_record(&self) -> Option<ServerStructureCache> {
        self.structure_cache
    }

    /// How the scans use the cache.
    pub closed spec fn policy(&self) -> CachePolicy {
        self.policy
    }

    /// The server that the manager stands for, where it is a configured one.
    pub closed spec fn server(&self) -> Option<String> {
        self.server_id
    }

    /// A manager that has not scanned yet, has no caches, and downloads
    /// side by side.
    pub fn new() -> (manager: Self)
        ensures
            manager.scanned() is None,
            manager.is_parallel(),
            manager.cache() is None,
            manager.scan_record() is None,
            manager.server() is None,
            !manager.policy().enabled,
    {
        MinecraftManager {
            server_id: None,
            structure: None,
            parallel_enabled: true,
            jar_cache: None,
            structure_cache: None,
            policy: CachePolicy { enabled: false, ttl_hours: 0 },
        }
    }

    /// A manager that has not scanned yet, has no caches, and downloads one
    /// archive after the other.
    pub fn new_sequential() -> (manager: Self)
        ensures
            manager.scanned() is None,
            !manager.is_parallel(),
            manager.cache() is None,
            manager.scan_record() is None,
            manager.server() is None,
            !manager.policy().enabled,
    {
        MinecraftManager {
            server_id: None,
            structure: None,
            parallel_enabled: false,
            jar_cache: None,
            structure_cache: None,
            policy: CachePolicy { enabled: false, ttl_hours: 0 },
        }
    }

    /// A manager for the configured server `server_id`, with the record of
    /// its last scan.
    pub fn for_server(server_id: String, record: ServerStructureCache) -> (manager: Self)
        ensures
            manager.scanned() is None,
            manager.is_parallel(),
            manager.cache() is None,
            manager.scan_record() == Some(record),
            manager.server() == Some(server_id),
            !manager.policy().enabled,
    {
        MinecraftManager {
            server_id: Some(server_id),
            structure: None,
            parallel_enabled: true,
            jar_cache: None,
            structure_cache: Some(record),
            policy: CachePolicy { enabled: false, ttl_hours: 0 },
        }
    }

    /// Sets the caches up as `config` asks: where it enables the cache, the
    /// manager gets an empty cache of identities under `cache_dir` and,
    /// where it stands for a configured server, a fresh record of scans.
    pub fn with_caching(self, config: &ManagerConfig, cache_dir: String) -> (manager: Self)
        ensures
            manager.scanned() == self.scanned(),
            manager.is_parallel() == self.is_parallel(),
            manager.server() == self.server(),
            manager.policy() == (CachePolicy {
                enabled: config.cache_enabled,
                ttl_hours: config.cache_ttl_hours,
            }),
            !config.cache_enabled ==> manager.cache() == self.cache() && manager.scan_record()
                == self.scan_record(),
            config.cache_enabled ==> manager.cache() is Some && entries_of(manager.cache())
                == Some(Seq::<crate::cache::CachedJarInfoView>::empty()) && budget_of(
                manager.cache(),
            ) == config.cache_max_size_mb as int * 1024 * 1024,
            config.cache_enabled && self.server() is None ==> manager.scan_record()
                == self.scan_record(),
            config.cache_enabled && self.server() is Some ==> manager.scan_record() is Some
                && manager.scan_record()->0.server_id@ == self.server()->0@,
    {
        let mut manager = self;
        manager.policy = CachePolicy {
            enabled: config.cache_enabled,
            ttl_hours: config.cache_ttl_hours,
        };
        if config.cache_enabled {
            manager.jar_cache = Some(GlobalJarCache::new(cache_dir, config.cache_max_size_mb));
            let fresh = match &manager.server_id {
                Some(id) => Some(ServerStructureCache::new(id.clone())),
                None => None,
            };
            match fresh {
                Some(record) => {
                    manager.structure_cache = Some(record);
                },
                None => {},
            }
        }
        manager
    }

    /// Gives the manager the cache of identities `cache`.
    pub fn set_jar_cache(&mut self, cache: GlobalJarCache)
        ensures
            final(self).cache() == Some(cache),
            final(self).scanned() == old(self).scanned(),
            final(self).is_parallel() == old(self).is_parallel(),
            final(self).scan_record() == old(self).scan_record(),
            final(self).policy() == old(self).policy(),
            final(self).server() == old(self).server(),
    {
        self.jar_cache = Some(cache);
    }

    /// What the last scan found.
    pub fn structure(&self) -> (structure: Option<&MinecraftStructure>)
        ensures
            match structure {
                Some(s) => self.scanned() == Some(*s),
                None => self.scanned() is None,
            },
    {
        self.structure.as_ref()
    }

    /// Whether archives are downloaded side by side.
    pub fn parallel_enabled(&self) -> (parallel: bool)
        ensures
            parallel == self.is_parallel(),
    {
        self.parallel_enabled
    }

    /// How the scans use the cache.
    pub fn cache_policy(&self) -> (policy: CachePolicy)
        ensures
            policy == self.policy(),
    {
        self.policy
    }

    /// The cache of identities.
    pub fn jar_cache(&self) -> (cache: Option<&GlobalJarCache>)
        ensures
            match cache {
                Some(c) => self.cache() == Some(*c),
                None => self.cache() is None,
            },
    {
        self.jar_cache.as_ref()
    }

    /// The cache of identities, to look up and to remember with.
    pub fn jar_cache_mut(&mut self) -> (cache: &mut Option<GlobalJarCache>)
        ensures
            *cache == old(self).cache(),
            final(self).cache() == *final(cache),
            final(self).scanned() == old(self).scanned(),
            final(self).is_parallel() == old(self).is_parallel(),
            final(self).scan_record() == old(self).scan_record(),
            final(self).policy() == old(self).policy(),
            final(self).server() == old(self).server(),
    {
        &mut self.jar_cache
    }

    /// The record of the last scan.
    pub fn structure_cache(&self) -> (record: Option<&ServerStructureCache>)
        ensures
            match record {
                Some(r) => self.scan_record() == Some(*r),
                None => self.scan_record() is None,
            },
    {
        self.structure_cache.as_ref()
    }

    /// Whether the archive with the digest `digest` has to be opened at
    /// `now`: it has to be unless the manager's cache holds a live entry
    /// for the digest.
    pub fn needs_archive_at(&self, digest: &Option<String>, now: u64) -> (needed: bool)
        ensures
            needed == !cache_hits(
                self.policy(),
                entries_of(self.cache()),
                opt_view(*digest),
                now,
            ),
    {
        needs_archive_at(&self.jar_cache, self.policy, digest, now)
    }

    /// Analyzes one downloaded archive at `now` with the manager's cache.
    /// An archive that the cache does not know and that cannot be opened
    /// yields no identity and leaves nothing in the cache.
    pub fn analyze_single_jar_at(&mut self, jar: &FetchedJar, now: u64) -> (analyzed: AnalyzedJar)
        ensures
            opt_mod_view(analyzed.identity) == jar_identity(
                old(self).policy(),
                entries_of(old(self).cache()),
                *jar,
                now,
            ),
            entries_of(final(self).cache()) == entries_after_jar(
                old(self).policy(),
                entries_of(old(self).cache()),
                budget_of(old(self).cache()),
                *jar,
                now,
            ),
            strings_view(analyzed.evicted@) == evicted_by_jar(
                old(self).policy(),
                entries_of(old(self).cache()),
                budget_of(old(self).cache()),
                *jar,
                now,
            ),
            analyzed.identity matches Some(m) ==> m@.file_path == jar.remote_path@,
            budget_of(final(self).cache()) == budget_of(old(self).cache()),
            final(self).scanned() == old(self).scanned(),
            final(self).is_parallel() == old(self).is_parallel(),
            final(self).scan_record() == old(self).scan_record(),
            final(self).policy() == old(self).policy(),
            final(self).server() == old(self).server(),
    {
        let mut cache = self.jar_cache.take();
        let analyzed = analyze_single_jar_at(&mut cache, self.policy, jar, now);
        self.jar_cache = cache;
        analyzed
    }

    /// Assembles the inventory from the outcomes of the downloads at `now`
    /// with the manager's cache: one identity for each download that
    /// succeeded and yields one, none for a download that failed or an
    /// archive that is left out.
    pub fn scan_inventory_at(&mut self, outcomes: &Vec<Option<FetchedJar>>, now: u64) -> (inventory:
        Vec<ModInfo>)
        ensures
            mods_view(inventory@) == scan_outcome(
                old(self).policy(),
                entries_of(old(self).cache()),
                budget_of(old(self).cache()),
                outcomes@,
                now,
            ).0,
            entries_of(final(self).cache()) == scan_outcome(
                old(self).policy(),
                entries_of(old(self).cache()),
                budget_of(old(self).cache()),
                outcomes@,
                now,
            ).1,
            outcomes@.filter(opened()).len() <= inventory@.len() <= outcomes@.filter(
                succeeded(),
            ).len(),
            !(old(self).policy().enabled && old(self).cache() is Some) ==> inventory@.len()
                == outcomes@.filter(opened()).len(),
            budget_of(final(self).cache()) == budget_of(old(self).cache()),
            final(self).scanned() == old(self).scanned(),
            final(self).is_parallel() == old(self).is_parallel(),
            final(self).scan_record() == old(self).scan_record(),
            final(self).policy() == old(self).policy(),
            final(self).server() == old(self).server(),
    {
        let mut cache = self.jar_cache.take();
        let inventory = scan_inventory_at(&mut cache, self.policy, outcomes, now);
        self.jar_cache = cache;
        inventory
    }

    /// Takes the structure that a scan found, in the place of what was
    /// known before, and records the scan at `now` with the digests of the
    /// archives where the manager keeps a record.
    pub fn complete_scan_at(&mut self, structure: MinecraftStructure, jar_hashes: Vec<String>, now: u64)
        ensures
            final(self).scanned() == Some(structure),
            final(self).cache() == old(self).cache(),
            final(self).is_parallel() == old(self).is_parallel(),
            final(self).policy() == old(self).policy(),
            final(self).server() == old(self).server(),
            old(self).scan_record() is None ==> final(self).scan_record() is None,
            old(self).scan_record() is Some ==> final(self).scan_record() is Some && final(self).scan_record()->0.jar_hashes == jar_hashes && final(self).scan_record()->0.directory_structure@ == directory_flags(structure) && final(self).scan_record()->0.last_scanned == now && final(self).scan_record()->0.server_id
                == old(self).scan_record()->0.server_id,
    {
        let record = self.structure_cache.take();
        match record {
            Some(mut r) => {
                r.update_at(jar_hashes, directory_structure(&structure), now);
                self.structure_cache = Some(r);
            },
            None => {},
        }
        self.structure = Some(structure);
    }

    /// Forgets what the last scan found: after a plan was carried out the
    /// installation has to be scanned again.
    pub fn invalidate(&mut self)
        ensures
            final(self).scanned() is None,
            final(self).cache() == old(self).cache(),
            final(self).is_parallel() == old(self).is_parallel(),
            final(self).scan_record() == old(self).scan_record(),
            final(self).policy() == old(self).policy(),
            final(self).server() == old(self).server(),
    {
        self.structure = None;
    }

    /// Compares this installation, the source, with `other`, the target,
    /// and plans what brings the target in line with it. Both must have
    /// been scanned: a side that has not been is refused, and so are
    /// inventories too large to count together.
    pub fn compare_with(&self, other: &MinecraftManager, compat_config: &CompatConfig) -> (result:
        Result<SyncPlan, ManagerError>)
        ensures
            result is Ok <==> self.scanned() is Some && other.scanned() is Some
                && self.scanned()->0.inventory().len() + other.scanned()->0.inventory().len()
                <= usize::MAX,
            result is Err ==> result->Err_0 is InvalidStructure,
            result is Ok ==> {
                &&& result->Ok_0.wf()
                &&& result->Ok_0@.actions == plan_actions(
                    check_result(
                        self.scanned()->0.inventory(),
                        other.scanned()->0.inventory(),
                        compat_config@,
                    ),
                    self.scanned()->0.inventory(),
                    other.scanned()->0.inventory(),
                )
                &&& result->Ok_0@.will_be_compatible == check_result(
                    self.scanned()->0.inventory(),
                    other.scanned()->0.inventory(),
                    compat_config@,
                ).is_compatible
                &&& result->Ok_0.summary.total_mods == result->Ok_0.actions.len()
                &&& result->Ok_0.summary.total_mods == result->Ok_0.summary.mods_to_update
                    + result->Ok_0.summary.mods_to_add + result->Ok_0.summary.mods_to_remove
                    + result->Ok_0.summary.mods_to_keep
            },
    {
        let source = match &self.structure {
            Some(s) => s,
            None => {
                return Err(
                    ManagerError::InvalidStructure {
                        reason: "The source has not been scanned".to_owned(),
                    },
                );
            },
        };
        let target = match &other.structure {
            Some(s) => s,
            None => {
                return Err(
                    ManagerError::InvalidStructure {
                        reason: "The target has not been scanned".to_owned(),
                    },
                );
            },
        };
        if source.mods.mods.len() > usize::MAX - target.mods.mods.len() {
            return Err(
                ManagerError::InvalidStructure {
                    reason: "The inventories are too large to compare".to_owned(),
                },
            );
        }
        compare_inventories(&source.mods.mods, &target.mods.mods, compat_config)
    }
}

} // verus!
