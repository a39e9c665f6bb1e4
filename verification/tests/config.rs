use mc_link::clock::{current_timestamp, now_rfc3339, rfc3339_at};
use mc_link::cli::{
    AddServerConfig, CompareTargets, ConnectionType as CliConnectionType, RemoveTarget,
    ScanTarget, SyncTargets, ToggleTarget,
};
use mc_link::config::{ConfigManager, LogFileNameFormat, LogLevel, ManagerConfig};
use mc_link::connector::{parse_properties, scan_mods, ConnectorKind, LocalConnector};
use mc_link::cli::{next_menu_item, previous_menu_item, select_menu_item, AppState, MenuOutcome};
use mc_link::error::ConfigError;
use mc_link::profiles::{
    default_profile, CompatibilityProfile, ProfileIndex, ProfileManager, RuleAction,
};
use mc_link::servers::{
    ftp_target, ConnectionType, FtpConnection, LocalConnection, ModLoader, ServerConfig,
    ServersConfig, SshConnection,
};

fn local_server(id: &str) -> ServerConfig {
    let mut server = ServerConfig::new(id.to_string(), format!("{} server", id));
    server.connection = ConnectionType::Local(LocalConnection { path: "/srv/mc".to_string() });
    server
}

fn invalid(field: &str, reason: &str) -> ConfigError {
    ConfigError::InvalidConfig { field: field.to_string(), reason: reason.to_string() }
}

fn manager() -> ConfigManager {
    ConfigManager::from_parts(
        "/etc/mc-link".to_string(),
        ManagerConfig::default(),
        ServersConfig::default(),
        ProfileManager::with_index("/etc/mc-link", ProfileIndex::default()),
    )
}

#[test]
fn connection_types_say_what_they_are() {
    let local = ConnectionType::Local(LocalConnection { path: "/srv".to_string() });
    let ftp = ConnectionType::Ftp(FtpConnection {
        host: "ftp.example.com".to_string(),
        username: "steve".to_string(),
        ..FtpConnection::default()
    });
    let ssh = ConnectionType::Ssh(SshConnection {
        host: "ssh.example.com".to_string(),
        username: "alex".to_string(),
        ..SshConnection::default()
    });
    let sftp = ConnectionType::Sftp(SshConnection::default());
    assert_eq!(local.kind_name(), "Local");
    assert_eq!(ftp.kind_name(), "FTP");
    assert_eq!(ssh.kind_name(), "SSH");
    assert_eq!(sftp.kind_name(), "SFTP");
    assert!(local.is_local() && !local.is_remote());
    assert!(!ftp.is_local() && ftp.is_remote());
    assert_eq!(local.get_host(), None);
    assert_eq!(local.get_username(), None);
    assert_eq!(ftp.get_host(), Some("ftp.example.com"));
    assert_eq!(ftp.get_username(), Some("steve"));
    assert_eq!(ssh.get_host(), Some("ssh.example.com"));
    assert_eq!(ssh.get_username(), Some("alex"));
    assert_eq!(sftp.get_host(), Some(""));
}

#[test]
fn defaults_are_as_documented() {
    let ftp = FtpConnection::default();
    assert_eq!((ftp.port, ftp.base_path.as_str(), ftp.passive_mode), (21, "/", true));
    let ssh = SshConnection::default();
    assert_eq!((ssh.port, ssh.base_path.as_str()), (22, "/"));
    let server = ServerConfig::default();
    assert!(server.enabled);
    assert!(server.connection.is_local());
    assert_eq!(server.settings().mod_loader, ModLoader::NeoForge);
    assert!(server.compatibility().auto_ignore_client_only);
    let fresh = ServerConfig::new("id".to_string(), "name".to_string());
    for config in [&server, &fresh] {
        assert_eq!(config.description, None);
        assert_eq!(config.last_connected, None);
        assert_eq!(config.settings.minecraft_version, None);
        assert_eq!(config.settings.server_type, None);
        assert!(!config.settings.development_mode);
        assert!(config.settings.properties.is_empty());
        assert!(config.settings.tags.is_empty());
        assert!(config.compatibility.ignore_mods.is_empty());
        assert!(config.compatibility.auto_ignore_client_only);
        assert!(config.compatibility.auto_ignore_server_only);
        assert_eq!(config.compatibility.default_profile, None);
        assert!(config.compatibility.custom_rules.is_empty());
    }
    assert_eq!((fresh.id.as_str(), fresh.name.as_str()), ("id", "name"));
    let servers = ServersConfig::default();
    assert_eq!(servers.version, "1.0.0");
    assert_eq!(servers.global_settings().connection_timeout, 30);
    assert_eq!(servers.global_settings().connection_retries, 3);
    let config = ManagerConfig::default();
    assert_eq!(config.log_level, LogLevel::Info);
    assert_eq!(config.log_file, LogFileNameFormat::DateTime);
    assert!(!config.log_to_stdout);
    assert!(config.cache_enabled);
    assert_eq!(config.validate(), Ok(()));
    assert_eq!(ModLoader::Vanilla.name(), "vanilla");
    assert_eq!(ModLoader::from_word("Fabric"), ModLoader::Fabric);
    assert_eq!(ModLoader::from_word("Forge"), ModLoader::Forge);
    assert_eq!(ModLoader::from_word("fabric"), ModLoader::NeoForge);
}

#[test]
fn server_validation_names_the_first_fault() {
    let mut server = ServerConfig::new(String::new(), String::new());
    assert_eq!(server.validate(), Err(invalid("id", "Server ID cannot be empty")));
    server.id = "s1".to_string();
    assert_eq!(server.validate(), Err(invalid("name", "Server name cannot be empty")));
    server.name = "Server".to_string();
    assert_eq!(server.validate(), Err(invalid("connection.path", "Local path cannot be empty")));
    assert_eq!(server.get_local_path(), Some(String::new()));
    server.connection = ConnectionType::Ftp(FtpConnection::default());
    assert_eq!(server.get_local_path(), None);
    assert_eq!(server.validate(), Err(invalid("connection.host", "FTP host cannot be empty")));
    server.connection =
        ConnectionType::Ftp(FtpConnection { host: "h".to_string(), ..FtpConnection::default() });
    assert_eq!(
        server.validate(),
        Err(invalid("connection.username", "FTP username cannot be empty"))
    );
    server.connection = ConnectionType::Ftp(FtpConnection {
        host: "h".to_string(),
        username: "u".to_string(),
        ..FtpConnection::default()
    });
    assert_eq!(server.validate(), Ok(()));
    server.connection = ConnectionType::Ssh(SshConnection::default());
    assert_eq!(server.validate(), Err(invalid("connection.host", "SSH host cannot be empty")));
    server.connection =
        ConnectionType::Sftp(SshConnection { host: "h".to_string(), ..SshConnection::default() });
    assert_eq!(
        server.validate(),
        Err(invalid("connection.username", "SSH username cannot be empty"))
    );
    let mut ssh =
        SshConnection { host: "h".to_string(), username: "u".to_string(), ..SshConnection::default() };
    server.connection = ConnectionType::Ssh(ssh.clone());
    assert_eq!(
        server.validate(),
        Err(invalid("connection.auth", "Either private key path or password must be provided"))
    );
    ssh.password = Some("secret".to_string());
    server.connection = ConnectionType::Ssh(ssh);
    assert_eq!(server.validate(), Ok(()));
    assert_eq!(local_server("a").get_local_path(), Some("/srv/mc".to_string()));
}

#[test]
fn servers_must_stand_under_their_own_identifier() {
    let mut servers = ServersConfig::default();
    assert_eq!(servers.validate(), Ok(()));
    servers.servers.insert("a".to_string(), local_server("a"));
    servers.servers.insert("b".to_string(), local_server("b"));
    assert_eq!(servers.validate(), Ok(()));
    servers.servers.insert("c".to_string(), local_server("other"));
    assert_eq!(
        servers.validate(),
        Err(invalid("servers.c", "Server ID in config doesn't match map key"))
    );
    servers.servers.insert("c".to_string(), ServerConfig::new("c".to_string(), String::new()));
    assert_eq!(servers.validate(), Err(invalid("name", "Server name cannot be empty")));
}

#[test]
fn the_configuration_keeps_its_servers() {
    let mut config = manager();
    assert_eq!(config.config_dir(), "/etc/mc-link");
    assert!(config.list_servers().is_empty());
    config.add_server(local_server("a"));
    config.add_server(local_server("b"));
    assert_eq!(config.list_servers(), vec!["a", "b"]);
    assert_eq!(config.get_server("a"), Some(&local_server("a")));
    assert_eq!(config.get_server("zzz"), None);
    let mut changed = local_server("a");
    changed.enabled = false;
    config.add_server(changed.clone());
    assert_eq!(config.list_servers(), vec!["a", "b"]);
    assert_eq!(config.get_server("a"), Some(&changed));
    assert_eq!(config.remove_server("a"), Some(changed));
    assert_eq!(config.remove_server("a"), None);
    assert_eq!(config.list_servers(), vec!["b"]);
    assert_eq!(config.servers().servers.len(), 1);
    config.servers_mut().default_server = Some("b".to_string());
    assert_eq!(config.servers().default_server.as_deref(), Some("b"));
    config.manager_mut().log_to_stdout = true;
    assert!(config.manager().log_to_stdout);
    assert!(config.manager.log_to_stdout);
    config.profiles_mut().add_profile(CompatibilityProfile {
        name: "mine".to_string(),
        ..CompatibilityProfile::default()
    });
    assert_eq!(config.profiles().list_profiles(), vec!["mine".to_string()]);
}

#[test]
fn profiles_are_found_by_name_and_tag() {
    let mut profiles = ProfileManager::with_index("/etc/mc-link", ProfileIndex::default());
    assert_eq!(
        profiles.profiles_dir(),
        std::path::Path::new("/etc/mc-link").join("profiles").to_string_lossy()
    );
    assert!(profiles.install_default_profiles());
    assert!(!profiles.install_default_profiles());
    assert_eq!(profiles.list_profiles(), vec!["default".to_string()]);
    let builtin = profiles.get_profile("default").unwrap();
    assert!(builtin.system);
    assert_eq!(builtin.rules.len(), 2);
    assert_eq!(builtin.rules[0].mod_pattern, "optifine");
    assert_eq!(builtin.rules[0].action, RuleAction::ClientOnly);
    assert!(builtin.rules[1].is_regex);
    assert!(builtin.created_at.is_some());

    let mut mine = CompatibilityProfile { name: "mine".to_string(), ..CompatibilityProfile::default() };
    mine.tags = vec!["builtin".to_string(), "personal".to_string()];
    profiles.add_profile_at(mine.clone(), "2024-01-01T00:00:00+00:00".to_string());
    let stored = profiles.get_profile("mine").unwrap();
    assert_eq!(stored.created_at.as_deref(), Some("2024-01-01T00:00:00+00:00"));
    assert_eq!(stored.last_modified.as_deref(), Some("2024-01-01T00:00:00+00:00"));
    mine.created_at = Some("2020".to_string());
    profiles.add_profile_at(mine, "2025".to_string());
    let stored = profiles.get_profile("mine").unwrap();
    assert_eq!(stored.created_at.as_deref(), Some("2020"));
    assert_eq!(stored.last_modified.as_deref(), Some("2025"));
    assert_eq!(profiles.index().last_updated.as_deref(), Some("2025"));

    let names: Vec<&str> =
        profiles.get_profiles_by_tag("builtin").iter().map(|p| p.name.as_str()).collect();
    assert_eq!(names, vec!["default", "mine"]);
    let names: Vec<&str> =
        profiles.get_profiles_by_tag("personal").iter().map(|p| p.name.as_str()).collect();
    assert_eq!(names, vec!["mine"]);
    assert!(profiles.get_profiles_by_tag("none").is_empty());

    assert_eq!(
        profiles.remove_profile("missing"),
        Err(ConfigError::ProfileNotFound { profile_name: "missing".to_string() })
    );
    assert_eq!(
        profiles.remove_profile("default"),
        Err(invalid("profile.system", "Cannot remove system profile"))
    );
    assert_eq!(profiles.remove_profile("mine"), Ok(()));
    assert_eq!(profiles.list_profiles(), vec!["default".to_string()]);
    profiles.replace_index(ProfileIndex::default());
    assert!(profiles.list_profiles().is_empty());
    assert_eq!(default_profile("now".to_string()).name, "default");
}

#[test]
fn ftp_targets_name_host_and_port() {
    assert_eq!(ftp_target("example.com"), ("example.com".to_string(), 21));
    assert_eq!(ftp_target("example.com:2121"), ("example.com".to_string(), 2121));
    assert_eq!(ftp_target("example.com:+22"), ("example.com".to_string(), 22));
    assert_eq!(ftp_target("example.com:"), ("example.com".to_string(), 21));
    assert_eq!(ftp_target("example.com:ftp"), ("example.com".to_string(), 21));
    assert_eq!(ftp_target("example.com:65535"), ("example.com".to_string(), 65535));
    assert_eq!(ftp_target("example.com:65536"), ("example.com".to_string(), 21));
    assert_eq!(ftp_target("example.com:0021"), ("example.com".to_string(), 21));
    assert_eq!(ftp_target("example.com:-1"), ("example.com".to_string(), 21));
    assert_eq!(ftp_target("h:1:2"), ("h".to_string(), 1));
    assert_eq!(ftp_target(":7"), ("".to_string(), 7));
    assert_eq!(ftp_target("h:99999999999999999999"), ("h".to_string(), 21));
}

#[test]
fn command_line_targets_know_when_to_ask() {
    let mut add = AddServerConfig {
        id: Some("a".to_string()),
        name: Some("A".to_string()),
        connection_type: Some(CliConnectionType::Local),
        target: Some("/srv".to_string()),
        username: None,
        password: None,
        minecraft_version: "1.21.1".to_string(),
        mod_loader: "NeoForge".to_string(),
        disabled: false,
    };
    assert!(!add.is_interactive());
    add.target = None;
    assert!(add.is_interactive());
    add.target = Some("/srv".to_string());
    add.connection_type = None;
    assert!(add.is_interactive());
    assert!(RemoveTarget { id: None, force: true }.is_interactive());
    assert!(!RemoveTarget { id: Some("a".to_string()), force: false }.is_interactive());
    assert!(ScanTarget { id: None, detailed: false }.is_interactive());
    assert!(!ScanTarget { id: Some("a".to_string()), detailed: true }.is_interactive());
    assert!(ToggleTarget { id: None, enabled: Some(true) }.is_interactive());
    assert!(!ToggleTarget { id: Some("a".to_string()), enabled: None }.is_interactive());
    let mut compare =
        CompareTargets { source: Some("c".to_string()), target: None, detailed: false };
    assert!(compare.is_interactive());
    compare.target = Some("s".to_string());
    assert!(!compare.is_interactive());
    let sync = SyncTargets { source: None, target: Some("s".to_string()), force: false, dry_run: true };
    assert!(sync.is_interactive());
}

#[test]
fn local_connectors_start_disconnected() {
    let mut connector = LocalConnector::new(&LocalConnection { path: "/srv/mc".to_string() });
    assert_eq!(connector.server_path(), "/srv/mc");
    assert!(!connector.is_connected());
    connector.set_connected(true);
    assert!(connector.is_connected());
    assert_eq!(
        connector.mods_dir(),
        std::path::Path::new("/srv/mc").join("mods").to_string_lossy()
    );
    assert_eq!(
        connector.properties_file(),
        std::path::Path::new("/srv/mc").join("server.properties").to_string_lossy()
    );
    assert_eq!(ConnectorKind::Local.connection_type(), "Local");
    assert_eq!(ConnectorKind::Ftp.connection_type(), "FTP");
}

#[test]
fn properties_are_read_line_by_line() {
    let text = "# Minecraft server properties\n\nmotd = A Server \nserver-port=25565\r\n  #comment=1\nno equals\nlevel-seed=a=b\nmotd=Second\n=empty key\n";
    let properties = parse_properties(text);
    assert_eq!(properties.len(), 4);
    assert_eq!(properties.get("motd").map(|s| s.as_str()), Some("Second"));
    assert_eq!(properties.get("server-port").map(|s| s.as_str()), Some("25565"));
    assert_eq!(properties.get("level-seed").map(|s| s.as_str()), Some("a=b"));
    assert_eq!(properties.get("").map(|s| s.as_str()), Some("empty key"));
    assert_eq!(properties.get("#comment"), None);
    assert!(parse_properties("").is_empty());
}

#[test]
fn timestamps_are_written_as_rfc3339() {
    assert_eq!(rfc3339_at(0, 0), "1970-01-01T00:00:00+00:00");
    assert_eq!(rfc3339_at(1_700_000_000, 500_000_000), "2023-11-14T22:13:20.500+00:00");
    assert_eq!(rfc3339_at(u64::MAX, 0), "1970-01-01T00:00:00+00:00");
    assert_eq!(rfc3339_at(1 << 62, 0), "1970-01-01T00:00:00+00:00");
    assert!(current_timestamp() > 1_600_000_000);
    let now = now_rfc3339();
    assert!(now.ends_with("+00:00"));
    assert!(now.as_str() > "2020");
}

#[test]
fn the_menu_wraps_around() {
    assert_eq!(next_menu_item(None), 0);
    assert_eq!(next_menu_item(Some(0)), 1);
    assert_eq!(next_menu_item(Some(3)), 4);
    assert_eq!(next_menu_item(Some(4)), 0);
    assert_eq!(next_menu_item(Some(9)), 0);
    assert_eq!(previous_menu_item(None), 0);
    assert_eq!(previous_menu_item(Some(0)), 4);
    assert_eq!(previous_menu_item(Some(4)), 3);
    assert_eq!(select_menu_item(Some(0)), MenuOutcome::Show(AppState::ListServers));
    assert_eq!(select_menu_item(Some(1)), MenuOutcome::Show(AppState::AddServer));
    assert_eq!(select_menu_item(Some(2)), MenuOutcome::Stay);
    assert_eq!(select_menu_item(Some(3)), MenuOutcome::Stay);
    assert_eq!(select_menu_item(Some(4)), MenuOutcome::Quit);
    assert_eq!(select_menu_item(None), MenuOutcome::Stay);
}

#[test]
fn a_listing_shows_its_archives() {
    let files = vec![
        "/srv/mods/alpha-1.0.jar".to_string(),
        "/srv/mods/notes.txt".to_string(),
        "/srv/mods/BETA.JAR".to_string(),
        "/srv/mods/gamma.jar".to_string(),
    ];
    let mods = scan_mods(&files);
    let names: Vec<&str> = mods.iter().map(|m| m.name.as_str()).collect();
    assert_eq!(names, vec!["alpha-1.0", "gamma"]);
    assert_eq!(mods[0].file_path, "/srv/mods/alpha-1.0.jar");
    assert_eq!(mods[0].version, None);
    assert!(mods[0].enabled);
}
