use mc_link::cache::GlobalJarCache;
use mc_link::error::{CoreError, ManagerError};
use mc_link::jar::{Descriptor, ForgeModInfo, ForgeModsToml, JarArchive, JarContents};
use mc_link::manager::MinecraftManager;
use mc_link::progress::ProgressStage;
use mc_link::connector::fallback_mod_info;
use mc_link::scanning::{
    analyze_archive, analyze_single_jar, analyze_single_jar_at, is_jar_file, needs_archive_at,
    scan_inventory_at, select_jar_files, CachePolicy, FetchedJar, ScanEvent, ScanPhase,
    ScanRequest, ScanSession,
};
use mc_link::types::{ModInfo, ModLoader, ModSide};

fn archive_of(id: &str) -> JarArchive {
    JarArchive::Opened(JarContents {
        mods_toml: Descriptor::Text {
            text: "javafml".to_string(),
            decoded: Some(ForgeModsToml {
                mods: vec![ForgeModInfo {
                    mod_id: id.to_string(),
                    display_name: None,
                    version: "1.0".to_string(),
                    side: None,
                }],
            }),
        },
        manifest: None,
        fabric: Descriptor::Missing,
        mcmod_root: Descriptor::Missing,
        mcmod_meta_inf: Descriptor::Missing,
    })
}

fn fetched(id: &str, digest: Option<&str>) -> FetchedJar {
    FetchedJar {
        remote_path: format!("mods/{}.jar", id),
        local_path: format!("tmp/{}.jar", id),
        digest: digest.map(|d| d.to_string()),
        size: 100,
        archive: archive_of(id),
    }
}

const ON: CachePolicy = CachePolicy { enabled: true, ttl_hours: 1 };
const OFF: CachePolicy = CachePolicy { enabled: false, ttl_hours: 1 };

#[test]
fn archives_are_told_by_their_extension() {
    assert!(is_jar_file("mods/a.jar"));
    assert!(is_jar_file("mods/a.JAR"));
    assert!(is_jar_file("a.b.Jar"));
    assert!(!is_jar_file("mods/a.jar.disabled"));
    assert!(!is_jar_file("mods/a.zip"));
    assert!(!is_jar_file("mods/jar"));
    assert!(!is_jar_file("mods/.jar"));
    assert!(!is_jar_file(""));
    let listing = vec![
        "mods/a.jar".to_string(),
        "mods/readme.txt".to_string(),
        "mods/B.JAR".to_string(),
        "mods/sub".to_string(),
    ];
    assert_eq!(select_jar_files(&listing), vec!["mods/a.jar".to_string(), "mods/B.JAR".to_string()]);
}

#[test]
fn the_fallback_names_the_mod_after_its_file() {
    let info = fallback_mod_info("mods/some-mod-1.2.jar");
    assert_eq!(
        info,
        ModInfo {
            id: "some-mod-1.2".to_string(),
            name: "some-mod-1.2".to_string(),
            version: None,
            file_path: "mods/some-mod-1.2.jar".to_string(),
            enabled: true,
            side: ModSide::Unknown,
            loader: ModLoader::Unknown,
            raw_metadata: Vec::new(),
        }
    );
}

#[test]
fn analysis_reports_the_remote_path() {
    let info = analyze_archive("mods/a.jar", "tmp/a.jar", &archive_of("a")).unwrap();
    assert_eq!(info.id, "a");
    assert_eq!(info.file_path, "mods/a.jar");
    let broken = JarArchive::Malformed { reason: "bad".to_string() };
    assert_eq!(analyze_archive("mods/b.jar", "tmp/b.jar", &broken), None);
    let unreadable = JarArchive::Unreadable { reason: "denied".to_string() };
    assert_eq!(analyze_archive("mods/b.jar", "tmp/b.jar", &unreadable), None);
}

#[test]
fn a_miss_fills_the_cache_and_a_hit_uses_it() {
    let mut cache = Some(GlobalJarCache::new("cache".to_string(), 1));
    assert!(needs_archive_at(&cache, ON, &Some("h-a".to_string()), 1000));
    let first = analyze_single_jar_at(&mut cache, ON, &fetched("a", Some("h-a")), 1000);
    assert!(first.evicted.is_empty());
    let first = first.identity.unwrap();
    assert_eq!(first.id, "a");
    assert!(!needs_archive_at(&cache, ON, &Some("h-a".to_string()), 2000));
    assert!(needs_archive_at(&cache, ON, &Some("h-a".to_string()), 1000 + 3601));
    assert!(needs_archive_at(&cache, OFF, &Some("h-a".to_string()), 2000));
    assert!(needs_archive_at(&cache, ON, &Some("h-b".to_string()), 2000));
    assert!(needs_archive_at(&cache, ON, &None, 2000));
    assert!(needs_archive_at(&None, ON, &Some("h-a".to_string()), 2000));
    let entries = cache.as_ref().unwrap().snapshot();
    assert_eq!(entries.len(), 1);
    assert_eq!(entries[0].hash, "h-a");
    assert_eq!(entries[0].filename, "a.jar");
    assert_eq!(entries[0].size, 100);
    assert_eq!(entries[0].cached_at, 1000);
    assert_eq!(entries[0].mod_info, first);

    let mut moved = fetched("renamed", Some("h-a"));
    moved.archive = JarArchive::Malformed { reason: "never opened".to_string() };
    let second = analyze_single_jar_at(&mut cache, ON, &moved, 2000).identity.unwrap();
    assert_eq!(second.id, "a");
    assert_eq!(second.file_path, "mods/renamed.jar");
    let entries = cache.as_ref().unwrap().snapshot();
    assert_eq!(entries.len(), 1);
    assert_eq!(entries[0].last_accessed, 2000);

    let third = analyze_single_jar_at(&mut cache, ON, &moved, 1000 + 3601);
    assert_eq!(third.identity, None);
    assert!(third.evicted.is_empty());
    assert!(cache.as_ref().unwrap().snapshot().is_empty());

    let fourth = analyze_single_jar_at(&mut cache, ON, &fetched("a", Some("h-a")), 9000);
    assert_eq!(fourth.identity.unwrap().id, "a");
    let entries = cache.as_ref().unwrap().snapshot();
    assert_eq!(entries.len(), 1);
    assert_eq!(entries[0].cached_at, 9000);
    assert_eq!(entries[0].filename, "a.jar");
}

#[test]
fn the_cache_stays_out_where_it_does_not_take_part() {
    let mut cache = Some(GlobalJarCache::new("cache".to_string(), 1));
    analyze_single_jar_at(&mut cache, OFF, &fetched("a", Some("h-a")), 1000);
    assert!(cache.as_ref().unwrap().snapshot().is_empty());
    analyze_single_jar_at(&mut cache, ON, &fetched("a", None), 1000);
    assert!(cache.as_ref().unwrap().snapshot().is_empty());
    let mut none: Option<GlobalJarCache> = None;
    let info = analyze_single_jar_at(&mut none, ON, &fetched("a", Some("h-a")), 1000);
    assert_eq!(info.identity.unwrap().id, "a");
    assert!(none.is_none());
    let info = analyze_single_jar(&mut cache, ON, &fetched("b", Some("h-b")));
    assert_eq!(info.identity.unwrap().id, "b");
    assert_eq!(cache.as_ref().unwrap().hashes(), vec!["h-b".to_string()]);
}

#[test]
fn a_failed_download_leaves_no_entry() {
    let outcomes = vec![
        Some(fetched("a", Some("h-a"))),
        None,
        Some(fetched("c", Some("h-c"))),
        Some(fetched("d", None)),
    ];
    let mut cache = Some(GlobalJarCache::new("cache".to_string(), 1));
    let inventory = scan_inventory_at(&mut cache, ON, &outcomes, 50);
    assert_eq!(inventory.len(), 3);
    let ids: Vec<&str> = inventory.iter().map(|m| m.id.as_str()).collect();
    assert_eq!(ids, vec!["a", "c", "d"]);
    let paths: Vec<&str> = inventory.iter().map(|m| m.file_path.as_str()).collect();
    assert_eq!(paths, vec!["mods/a.jar", "mods/c.jar", "mods/d.jar"]);
    assert_eq!(cache.as_ref().unwrap().hashes(), vec!["h-a".to_string(), "h-c".to_string()]);

    let mut manager = MinecraftManager::new();
    let inventory = manager.scan_inventory_at(&outcomes, 50);
    assert_eq!(inventory.len(), 3);
    let all_failed: Vec<Option<FetchedJar>> = vec![None, None];
    assert!(manager.scan_inventory_at(&all_failed, 50).is_empty());
}

#[test]
fn an_archive_that_cannot_be_opened_is_left_out() {
    let mut broken = fetched("b", Some("h-b"));
    broken.archive = JarArchive::Malformed { reason: "invalid Zip archive".to_string() };
    let mut unreadable = fetched("d", None);
    unreadable.archive = JarArchive::Unreadable { reason: "denied".to_string() };
    let outcomes = vec![
        Some(fetched("a", Some("h-a"))),
        Some(broken.clone()),
        Some(fetched("c", Some("h-c"))),
    ];
    let mut cache = Some(GlobalJarCache::new("cache".to_string(), 1));
    let inventory = scan_inventory_at(&mut cache, ON, &outcomes, 50);
    assert_eq!(inventory.len(), 2);
    assert_eq!(
        inventory,
        vec![
            analyze_archive("mods/a.jar", "tmp/a.jar", &archive_of("a")).unwrap(),
            analyze_archive("mods/c.jar", "tmp/c.jar", &archive_of("c")).unwrap(),
        ]
    );
    assert!(inventory.iter().all(|m| m.file_path != "mods/b.jar"));
    assert_eq!(cache.as_ref().unwrap().hashes(), vec!["h-a".to_string(), "h-c".to_string()]);
    assert!(!cache.as_ref().unwrap().contains("h-b"));

    let mut none: Option<GlobalJarCache> = None;
    let with_more = vec![Some(unreadable), Some(fetched("a", None)), None, Some(broken.clone())];
    let inventory = scan_inventory_at(&mut none, OFF, &with_more, 50);
    assert_eq!(inventory.len(), 1);
    assert_eq!(inventory[0].id, "a");

    let mut manager = MinecraftManager::new();
    assert!(manager.needs_archive_at(&Some("h-b".to_string()), 50));
    assert_eq!(manager.analyze_single_jar_at(&broken, 50).identity, None);
    assert_eq!(manager.scan_inventory_at(&outcomes, 50).len(), 2);
}

#[test]
fn an_archive_that_the_cache_knows_is_not_opened() {
    let mut cache = Some(GlobalJarCache::new("cache".to_string(), 1));
    analyze_single_jar_at(&mut cache, ON, &fetched("a", Some("h-a")), 10);
    let mut unopened = fetched("a", Some("h-a"));
    unopened.archive = JarArchive::Unreadable { reason: "not opened".to_string() };
    let outcomes = vec![Some(unopened)];
    let inventory = scan_inventory_at(&mut cache, ON, &outcomes, 20);
    assert_eq!(inventory.len(), 1);
    assert_eq!(inventory[0].id, "a");
    assert_eq!(inventory[0].file_path, "mods/a.jar");
}

#[test]
fn remembering_reports_what_was_evicted() {
    let mut cache = Some(GlobalJarCache::new("cache".to_string(), 1));
    let mut large = fetched("a", Some("h-a"));
    large.size = 700 * 1024;
    assert!(analyze_single_jar_at(&mut cache, ON, &large, 10).evicted.is_empty());
    let mut other = fetched("b", Some("h-b"));
    other.size = 700 * 1024;
    let analyzed = analyze_single_jar_at(&mut cache, ON, &other, 20);
    assert_eq!(analyzed.evicted, vec!["h-a".to_string()]);
    assert_eq!(analyzed.identity.unwrap().id, "b");
    assert_eq!(cache.as_ref().unwrap().hashes(), vec!["h-b".to_string()]);
    assert_eq!(cache.as_ref().unwrap().get_entry("h-b").unwrap().size, 700 * 1024);
    assert!(cache.as_ref().unwrap().get_entry("h-a").is_none());
    assert!(cache.as_ref().unwrap().holds_live_at("h-b", 1, 20));
    assert!(!cache.as_ref().unwrap().holds_live_at("h-b", 1, 20 + 3601));
}

fn listing(names: &[&str]) -> ScanEvent {
    ScanEvent::Files(names.iter().map(|n| n.to_string()).collect())
}

#[test]
fn a_scan_runs_through_its_phases() {
    let mut scan = ScanSession::start(".".to_string(), true);
    assert_eq!(scan.phase(), ScanPhase::Connecting);
    assert_eq!(scan.request(), ScanRequest::Connect);
    assert_eq!(scan.progress().stage, ProgressStage::Connecting);
    scan.advance(ScanEvent::Done);
    assert_eq!(scan.request(), ScanRequest::GetServerInfo);
    scan.advance(listing(&["ignored"]));
    assert_eq!(scan.phase(), ScanPhase::Inspecting);
    scan.advance(ScanEvent::Done);
    assert_eq!(scan.request(), ScanRequest::ListFiles { path: "mods".to_string() });
    scan.advance(listing(&["mods/a.jar", "mods/notes.txt", "mods/b.jar"]));
    assert_eq!(
        scan.request(),
        ScanRequest::FetchArchives {
            files: vec!["mods/a.jar".to_string(), "mods/b.jar".to_string()],
            parallel: true
        }
    );
    scan.advance(ScanEvent::Inventory(vec![fallback_mod_info("mods/a.jar")]));
    assert_eq!(scan.phase(), ScanPhase::ProbingConfig);
    let config_path = std::path::Path::new(".").join("config").to_string_lossy().into_owned();
    assert_eq!(scan.request(), ScanRequest::ListFiles { path: config_path });
    scan.advance(listing(&[]));
    assert_eq!(scan.phase(), ScanPhase::ProbingResourcePacks);
    scan.advance(ScanEvent::Failed(CoreError::NetworkError { message: "no such dir".to_string() }));
    assert_eq!(scan.phase(), ScanPhase::ProbingShaderPacks);
    scan.advance(listing(&["shaderpacks/x.zip"]));
    assert_eq!(scan.phase(), ScanPhase::Finished);
    assert_eq!(scan.request(), ScanRequest::Nothing);
    assert_eq!(scan.progress().stage, ProgressStage::Completed);
    assert_eq!(scan.progress().current, 100);
    let structure = scan.finish().unwrap();
    assert!(structure.mods.exists);
    assert_eq!(structure.mods.mods, vec![fallback_mod_info("mods/a.jar")]);
    assert_eq!(structure.mod_count(), 1);
    assert!(structure.has_mods());
    assert!(structure.config.exists);
    assert!(!structure.resourcepacks.exists);
    assert!(structure.shaderpacks.exists);
}

#[test]
fn an_empty_mods_directory_is_not_fetched() {
    let mut scan = ScanSession::start("root".to_string(), false);
    scan.advance(ScanEvent::Done);
    scan.advance(ScanEvent::Done);
    scan.advance(listing(&[]));
    assert_eq!(scan.phase(), ScanPhase::ProbingConfig);
    scan.advance(listing(&[]));
    scan.advance(listing(&[]));
    scan.advance(listing(&[]));
    let structure = scan.finish().unwrap();
    assert!(!structure.mods.exists);
    assert!(!structure.has_mods());
    assert!(structure.config.exists && structure.resourcepacks.exists);
}

#[test]
fn a_failed_connection_gives_the_scan_up() {
    let mut scan = ScanSession::start(".".to_string(), true);
    let error = CoreError::ConnectionFailed { message: "refused".to_string() };
    scan.advance(ScanEvent::Failed(error.clone()));
    assert_eq!(scan.phase(), ScanPhase::Failed);
    assert_eq!(scan.request(), ScanRequest::Nothing);
    scan.advance(ScanEvent::Done);
    assert_eq!(scan.phase(), ScanPhase::Failed);
    assert_eq!(scan.finish(), Err(ManagerError::Core(error)));

    let mut scan = ScanSession::start(".".to_string(), true);
    scan.advance(ScanEvent::Done);
    scan.advance(ScanEvent::Done);
    let error = CoreError::NetworkError { message: "listing failed".to_string() };
    scan.advance(ScanEvent::Failed(error.clone()));
    assert_eq!(scan.finish(), Err(ManagerError::Core(error)));

    let scan = ScanSession::start(".".to_string(), true);
    assert!(matches!(scan.finish(), Err(ManagerError::InvalidStructure { .. })));
}
