use mc_link::rules::{check_compatibility, CompatConfig, CompatRule, RuleType};
use mc_link::types::{ModInfo, ModLoader, ModSide};

fn mod_info(id: &str, version: Option<&str>, side: ModSide) -> ModInfo {
    ModInfo {
        id: id.to_string(),
        name: format!("{} mod", id),
        version: version.map(|v| v.to_string()),
        file_path: format!("mods/{}.jar", id),
        enabled: true,
        side,
        loader: ModLoader::Unknown,
        raw_metadata: Vec::new(),
    }
}

#[test]
fn client_mod_absent_from_server_is_missing_on_server() {
    let client = vec![mod_info("a", Some("1.0"), ModSide::Both)];
    let server = vec![];
    let result = check_compatibility(&client, &server, &CompatConfig::default()).unwrap();
    assert_eq!(result.missing_on_server.len(), 1);
    assert_eq!(result.missing_on_server[0].id, "a");
    assert!(result.missing_on_client.is_empty());
    assert!(result.version_mismatches.is_empty());
    assert!(result.ignored_mods.is_empty());
    assert!(!result.is_compatible);
}

#[test]
fn differing_versions_are_a_mismatch() {
    let client = vec![mod_info("a", Some("1.0"), ModSide::Both)];
    let server = vec![mod_info("a", Some("2.0"), ModSide::Both)];
    let result = check_compatibility(&client, &server, &CompatConfig::default()).unwrap();
    assert_eq!(result.version_mismatches.len(), 1);
    assert_eq!(result.version_mismatches[0].mod_id, "a");
    assert_eq!(result.version_mismatches[0].mod_name, "a mod");
    assert_eq!(result.version_mismatches[0].client_version, "1.0");
    assert_eq!(result.version_mismatches[0].server_version, "2.0");
    assert!(result.missing_on_server.is_empty());
    assert!(result.missing_on_client.is_empty());
    assert!(!result.is_compatible);
}

#[test]
fn ignore_list_skips_the_mod() {
    let mut config = CompatConfig::default();
    config.ignore_list.push("a".to_string());
    let client = vec![mod_info("a", Some("1.0"), ModSide::Both)];
    let server = vec![];
    let result = check_compatibility(&client, &server, &config).unwrap();
    assert_eq!(result.ignored_mods, vec!["a".to_string()]);
    assert!(result.missing_on_server.is_empty());
    assert!(result.is_compatible);
}

#[test]
fn custom_rules_decide_before_sides() {
    let mut config = CompatConfig::default();
    config.custom_rules.push(CompatRule {
        mod_id: "a".to_string(),
        rule_type: RuleType::ServerOnly,
        reason: "server tool".to_string(),
    });
    config.custom_rules.push(CompatRule {
        mod_id: "a".to_string(),
        rule_type: RuleType::AlwaysIgnore,
        reason: "shadowed by the first rule".to_string(),
    });
    config.custom_rules.push(CompatRule {
        mod_id: "b".to_string(),
        rule_type: RuleType::ClientOnly,
        reason: "client tool".to_string(),
    });
    let client = vec![mod_info("a", Some("1.0"), ModSide::Client)];
    let server = vec![mod_info("b", Some("1.0"), ModSide::Server)];
    let result = check_compatibility(&client, &server, &config).unwrap();
    assert_eq!(result.missing_on_server.len(), 1);
    assert_eq!(result.missing_on_client.len(), 1);
    assert_eq!(result.missing_on_client[0].id, "b");
    assert!(result.ignored_mods.is_empty());
    assert!(!result.is_compatible);
}

#[test]
fn sides_are_honoured_without_rules() {
    let config = CompatConfig::default();
    let client = vec![
        mod_info("shaders", Some("1"), ModSide::Client),
        mod_info("anticheat", Some("1"), ModSide::Server),
        mod_info("shared", None, ModSide::Both),
    ];
    let server = vec![
        mod_info("shared", Some("3"), ModSide::Both),
        mod_info("backup", Some("1"), ModSide::Server),
        mod_info("minimap", Some("1"), ModSide::Client),
    ];
    let result = check_compatibility(&client, &server, &config).unwrap();
    assert_eq!(result.ignored_mods, vec!["shaders".to_string()]);
    assert_eq!(result.missing_on_server.len(), 1);
    assert_eq!(result.missing_on_server[0].id, "anticheat");
    assert!(result.version_mismatches.is_empty());
    assert_eq!(result.missing_on_client.len(), 1);
    assert_eq!(result.missing_on_client[0].id, "minimap");
    assert!(!result.is_compatible);
}

#[test]
fn the_verdict_ignores_the_order_of_the_inventories() {
    let mut config = CompatConfig::default();
    config.ignore_list.push("skipped".to_string());
    let client = vec![
        mod_info("a", Some("1"), ModSide::Both),
        mod_info("skipped", Some("1"), ModSide::Both),
        mod_info("shaders", Some("1"), ModSide::Client),
    ];
    let server = vec![
        mod_info("backup", Some("1"), ModSide::Server),
        mod_info("a", Some("1"), ModSide::Both),
    ];
    let forward = check_compatibility(&client, &server, &config).unwrap();
    assert!(forward.is_compatible);
    let mut client_reversed = client.clone();
    client_reversed.reverse();
    let mut server_reversed = server.clone();
    server_reversed.reverse();
    let backward = check_compatibility(&client_reversed, &server_reversed, &config).unwrap();
    assert_eq!(backward.is_compatible, forward.is_compatible);
    assert_eq!(backward.ignored_mods, vec!["shaders".to_string(), "skipped".to_string()]);
    assert_eq!(forward.ignored_mods, vec!["skipped".to_string(), "shaders".to_string()]);

    let server_other = vec![mod_info("a", Some("2"), ModSide::Both)];
    let forward = check_compatibility(&client, &server_other, &config).unwrap();
    let backward = check_compatibility(&client_reversed, &server_other, &config).unwrap();
    assert!(!forward.is_compatible);
    assert_eq!(forward.is_compatible, backward.is_compatible);
}
