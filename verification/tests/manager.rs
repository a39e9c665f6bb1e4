use mc_link::actions::{SyncAction, SyncPlan, SyncTarget};
use mc_link::cache::{GlobalJarCache, ServerStructureCache};
use mc_link::config::ManagerConfig;
use mc_link::error::ManagerError;
use mc_link::manager::{
    compare_inventories, directory_structure, plan_sync, sync_operations, update_failed,
    MinecraftManager, TransportOp,
};
use mc_link::rules::{check_compatibility, CompatConfig, CompatResult, VersionMismatch};
use mc_link::structure::MinecraftStructure;
use mc_link::types::{ModInfo, ModLoader, ModSide};

fn mod_info(id: &str, name: &str, version: &str, path: &str) -> ModInfo {
    ModInfo {
        id: id.to_string(),
        name: name.to_string(),
        version: Some(version.to_string()),
        file_path: path.to_string(),
        enabled: true,
        side: ModSide::Both,
        loader: ModLoader::Unknown,
        raw_metadata: Vec::new(),
    }
}

fn scanned(mods: Vec<ModInfo>) -> MinecraftManager {
    let mut structure = MinecraftStructure::new(".".to_string());
    structure.mods.exists = !mods.is_empty();
    structure.mods.mods = mods;
    let mut manager = MinecraftManager::new();
    manager.complete_scan_at(structure, Vec::new(), 0);
    manager
}

#[test]
fn a_new_plan_is_empty() {
    let plan = SyncPlan::new();
    assert!(plan.actions.is_empty());
    assert_eq!(plan.summary.total_mods, 0);
    assert!(plan.will_be_compatible);
    assert!(!plan.has_changes());
}

#[test]
fn the_summary_counts_every_action() {
    let mut plan = SyncPlan::new();
    plan.add_action(SyncAction::KeepAsIs { mod_id: "a".to_string(), reason: "r".to_string() });
    assert!(!plan.has_changes());
    plan.add_action(SyncAction::AddMod {
        mod_info: mod_info("b", "B", "1", "b.jar"),
        target: SyncTarget::Server,
    });
    plan.add_action(SyncAction::RemoveMod {
        mod_id: "c".to_string(),
        mod_info: mod_info("c", "C", "1", "c.jar"),
        target: SyncTarget::Server,
    });
    plan.add_action(SyncAction::UpdateMod {
        mod_id: "d".to_string(),
        from_version: "1".to_string(),
        to_version: "2".to_string(),
        current_path: "d1.jar".to_string(),
        new_path: "d2.jar".to_string(),
    });
    plan.add_action(SyncAction::KeepAsIs { mod_id: "e".to_string(), reason: "r".to_string() });
    assert!(plan.has_changes());
    assert_eq!(plan.summary.mods_to_keep, 2);
    assert_eq!(plan.summary.mods_to_add, 1);
    assert_eq!(plan.summary.mods_to_remove, 1);
    assert_eq!(plan.summary.mods_to_update, 1);
    assert_eq!(plan.summary.total_mods, 5);
    assert_eq!(plan.actions.len(), 5);
}

#[test]
fn an_action_raises_only_its_own_count() {
    let mut plan = SyncPlan::new();
    plan.will_be_compatible = false;
    plan.add_action(SyncAction::AddMod {
        mod_info: mod_info("b", "B", "1", "b.jar"),
        target: SyncTarget::Server,
    });
    let before = plan.summary;
    let keep = SyncAction::KeepAsIs { mod_id: "a".to_string(), reason: "r".to_string() };
    plan.add_action(keep.clone());
    assert_eq!(plan.summary.mods_to_keep, before.mods_to_keep + 1);
    assert_eq!(plan.summary.total_mods, before.total_mods + 1);
    assert_eq!(plan.summary.mods_to_add, before.mods_to_add);
    assert_eq!(plan.summary.mods_to_update, before.mods_to_update);
    assert_eq!(plan.summary.mods_to_remove, before.mods_to_remove);
    assert_eq!(plan.actions.last(), Some(&keep));
    assert!(!plan.will_be_compatible);
}

#[test]
fn the_plan_follows_the_findings() {
    let client = vec![
        mod_info("added", "Added", "1", "client/added.jar"),
        mod_info("changed", "Changed", "2", "client/changed-2.jar"),
        mod_info("skipped", "Skipped", "1", "client/skipped.jar"),
    ];
    let server = vec![
        mod_info("changed", "Changed", "1", "mods/changed-1.jar"),
        mod_info("extra", "Extra Mod", "1", "mods/extra.jar"),
    ];
    let mut config = CompatConfig::default();
    config.ignore_list.push("skipped".to_string());
    let compat = check_compatibility(&client, &server, &config).unwrap();
    let plan = plan_sync(&compat, &client, &server);
    assert!(!plan.will_be_compatible);
    assert_eq!(
        plan.actions,
        vec![
            SyncAction::AddMod { mod_info: client[0].clone(), target: SyncTarget::Server },
            SyncAction::RemoveMod {
                mod_id: "extra".to_string(),
                mod_info: server[1].clone(),
                target: SyncTarget::Server,
            },
            SyncAction::UpdateMod {
                mod_id: "changed".to_string(),
                from_version: "1".to_string(),
                to_version: "2".to_string(),
                current_path: "mods/changed-1.jar".to_string(),
                new_path: "client/changed-2.jar".to_string(),
            },
            SyncAction::KeepAsIs {
                mod_id: "skipped".to_string(),
                reason: "Mod ignored by compatibility rules".to_string(),
            },
        ]
    );
    assert_eq!(plan.summary.total_mods, 4);
    assert_eq!(plan.summary.mods_to_add, 1);
    assert_eq!(plan.summary.mods_to_remove, 1);
    assert_eq!(plan.summary.mods_to_update, 1);
    assert_eq!(plan.summary.mods_to_keep, 1);
    let same = compare_inventories(&client, &server, &config).unwrap();
    assert_eq!(same, plan);
}

#[test]
fn an_update_needs_both_archives_by_name() {
    let client = vec![mod_info("a", "Client Name", "2", "client/a.jar")];
    let server = vec![mod_info("a", "Server Name", "1", "mods/a.jar")];
    let compat = CompatResult {
        missing_on_server: vec![],
        missing_on_client: vec![],
        version_mismatches: vec![VersionMismatch {
            mod_id: "a".to_string(),
            mod_name: "Client Name".to_string(),
            client_version: "2".to_string(),
            server_version: "1".to_string(),
        }],
        ignored_mods: vec![],
        is_compatible: false,
    };
    let plan = plan_sync(&compat, &client, &server);
    assert!(plan.actions.is_empty());
    assert_eq!(plan.summary.total_mods, 0);
    assert!(!plan.will_be_compatible);
}

#[test]
fn actions_become_transport_operations() {
    let add = SyncAction::AddMod {
        mod_info: mod_info("a", "A", "1", "client/mods/a.jar"),
        target: SyncTarget::Server,
    };
    assert_eq!(
        sync_operations(&add),
        Ok(vec![TransportOp::Upload {
            local_path: "client/mods/a.jar".to_string(),
            remote_path: std::path::Path::new("mods").join("a.jar").to_string_lossy().into_owned(),
        }])
    );
    let remove = SyncAction::RemoveMod {
        mod_id: "b".to_string(),
        mod_info: mod_info("b", "B", "1", "somewhere/b.jar"),
        target: SyncTarget::Server,
    };
    assert_eq!(
        sync_operations(&remove),
        Ok(vec![TransportOp::Delete {
            remote_path: std::path::Path::new("mods").join("b.jar").to_string_lossy().into_owned(),
            must_succeed: true,
        }])
    );
    let update = SyncAction::UpdateMod {
        mod_id: "c".to_string(),
        from_version: "1".to_string(),
        to_version: "2".to_string(),
        current_path: "mods/c-1.jar".to_string(),
        new_path: "client/c-2.jar".to_string(),
    };
    assert_eq!(
        sync_operations(&update),
        Ok(vec![
            TransportOp::Delete {
                remote_path: std::path::Path::new("mods")
                    .join("c-1.jar")
                    .to_string_lossy()
                    .into_owned(),
                must_succeed: false,
            },
            TransportOp::Upload {
                local_path: "client/c-2.jar".to_string(),
                remote_path: std::path::Path::new("mods")
                    .join("c-2.jar")
                    .to_string_lossy()
                    .into_owned(),
            },
        ])
    );
    let keep = SyncAction::KeepAsIs { mod_id: "d".to_string(), reason: "r".to_string() };
    assert_eq!(sync_operations(&keep), Ok(vec![]));
}

#[test]
fn client_side_actions_are_refused() {
    let add = SyncAction::AddMod {
        mod_info: mod_info("a", "A", "1", "a.jar"),
        target: SyncTarget::Client,
    };
    let expected = ManagerError::UpdateFailed {
        action: "Client-side action".to_string(),
        reason: "Cannot perform client actions with server connector".to_string(),
    };
    assert_eq!(sync_operations(&add), Err(expected.clone()));
    let remove = SyncAction::RemoveMod {
        mod_id: "a".to_string(),
        mod_info: mod_info("a", "A", "1", "a.jar"),
        target: SyncTarget::Client,
    };
    assert_eq!(sync_operations(&remove), Err(expected));
}

#[test]
fn failures_name_the_action() {
    let add = SyncAction::AddMod {
        mod_info: mod_info("a", "Alpha", "1", "a.jar"),
        target: SyncTarget::Server,
    };
    assert_eq!(
        update_failed(&add, "disk full".to_string()),
        ManagerError::UpdateFailed {
            action: "Add mod Alpha".to_string(),
            reason: "disk full".to_string()
        }
    );
    let update = SyncAction::UpdateMod {
        mod_id: "c".to_string(),
        from_version: "1".to_string(),
        to_version: "2".to_string(),
        current_path: "c1.jar".to_string(),
        new_path: "c2.jar".to_string(),
    };
    assert_eq!(
        update_failed(&update, "x".to_string()),
        ManagerError::UpdateFailed { action: "Update mod c".to_string(), reason: "x".to_string() }
    );
}

#[test]
fn managers_compare_what_they_scanned() {
    let source = scanned(vec![mod_info("a", "A", "1", "a.jar")]);
    let target = scanned(vec![]);
    let plan = source.compare_with(&target, &CompatConfig::default()).unwrap();
    assert_eq!(plan.summary.mods_to_add, 1);
    assert_eq!(plan.summary.total_mods, 1);
    assert!(!plan.will_be_compatible);
    let unscanned = MinecraftManager::new();
    assert!(matches!(
        source.compare_with(&unscanned, &CompatConfig::default()),
        Err(ManagerError::InvalidStructure { .. })
    ));
    assert!(matches!(
        unscanned.compare_with(&target, &CompatConfig::default()),
        Err(ManagerError::InvalidStructure { .. })
    ));
}

#[test]
fn managers_are_set_up_as_asked() {
    let manager = MinecraftManager::new();
    assert!(manager.parallel_enabled());
    assert!(manager.structure().is_none());
    assert!(manager.jar_cache().is_none());
    assert!(!MinecraftManager::new_sequential().parallel_enabled());

    let mut config = ManagerConfig::default();
    config.cache_max_size_mb = 2;
    config.cache_ttl_hours = 5;
    let manager = MinecraftManager::for_server(
        "srv".to_string(),
        ServerStructureCache::new_at("srv".to_string(), 7),
    )
    .with_caching(&config, "cachedir".to_string());
    assert!(manager.cache_policy().enabled);
    assert_eq!(manager.cache_policy().ttl_hours, 5);
    assert_eq!(manager.jar_cache().unwrap().stats().max_size_bytes, 2 * 1024 * 1024);
    assert_eq!(manager.structure_cache().unwrap().server_id, "srv");

    config.cache_enabled = false;
    let manager = MinecraftManager::new().with_caching(&config, "cachedir".to_string());
    assert!(manager.jar_cache().is_none());
    assert!(!manager.cache_policy().enabled);
}

#[test]
fn a_completed_scan_is_recorded_and_can_be_forgotten() {
    let mut manager = MinecraftManager::for_server(
        "srv".to_string(),
        ServerStructureCache::new_at("srv".to_string(), 7),
    );
    manager.set_jar_cache(GlobalJarCache::new("cachedir".to_string(), 1));
    let mut structure = MinecraftStructure::new("root".to_string());
    structure.mods.exists = true;
    structure.resourcepacks.exists = true;
    let flags = directory_structure(&structure);
    assert_eq!(flags.get("mods"), Some(&true));
    assert_eq!(flags.get("config"), Some(&false));
    assert_eq!(flags.get("resourcepacks"), Some(&true));
    assert_eq!(flags.get("shaderpacks"), Some(&false));
    manager.complete_scan_at(structure.clone(), vec!["h1".to_string()], 99);
    assert_eq!(manager.structure(), Some(&structure));
    let record = manager.structure_cache().unwrap();
    assert_eq!(record.jar_hashes, vec!["h1".to_string()]);
    assert_eq!(record.last_scanned, 99);
    assert_eq!(record.directory_structure, flags);
    manager.invalidate();
    assert!(manager.structure().is_none());
    assert!(manager.jar_cache().is_some());
}
