use mc_link::error::{CompatError, ConfigError, CoreError, ManagerError};
use mc_link::types::{ServerInfo, ServerStatus};
use mc_link::string_map::StringMap;

fn s(text: &str) -> String {
    text.to_string()
}

#[test]
fn core_errors_read_as_sentences() {
    assert_eq!(CoreError::ConnectionFailed { message: s("refused") }.message(), "Connection failed: refused");
    assert_eq!(
        CoreError::AuthenticationFailed { reason: s("bad password") }.message(),
        "Authentication failed: bad password"
    );
    assert_eq!(CoreError::ServerNotFound { server_id: s("srv") }.message(), "Server not found: srv");
    assert_eq!(
        CoreError::InvalidConfiguration { details: s("no path") }.message(),
        "Invalid server configuration: no path"
    );
    assert_eq!(
        CoreError::FileOperationFailed { operation: s("read"), reason: s("denied") }.message(),
        "File operation failed: read - denied"
    );
    assert_eq!(
        CoreError::ServerOperationFailed { operation: s("stop"), reason: s("busy") }.message(),
        "Server operation failed: stop - busy"
    );
    assert_eq!(CoreError::NetworkError { message: s("timeout") }.message(), "Network error: timeout");
    assert_eq!(CoreError::Io(s("disk full")).message(), "IO error: disk full");
    assert_eq!(CoreError::Serialization(s("eof")).message(), "Serialization error: eof");
    assert_eq!(CoreError::Logging(s("already set")).message(), "already set");
}

#[test]
fn compat_errors_read_as_sentences() {
    assert_eq!(
        CompatError::JarError { file: s("a.jar"), reason: s("truncated") }.message(),
        "JAR file error: a.jar - truncated"
    );
    assert_eq!(
        CompatError::MetadataError { mod_name: s("unknown"), reason: s("no descriptor") }.message(),
        "Metadata parsing error: unknown - no descriptor"
    );
    assert_eq!(
        CompatError::Core(CoreError::Io(s("x"))).message(),
        "IO error: x"
    );
    assert_eq!(CompatError::Io(s("x")).message(), "IO error: x");
    assert_eq!(CompatError::Json(s("x")).message(), "JSON error: x");
    assert_eq!(CompatError::Toml(s("x")).message(), "TOML error: x");
    assert_eq!(CompatError::Zip(s("x")).message(), "ZIP error: x");
}

#[test]
fn manager_errors_read_as_sentences() {
    assert_eq!(
        ManagerError::Core(CoreError::NetworkError { message: s("down") }).message(),
        "Network error: down"
    );
    assert_eq!(ManagerError::Compat(CompatError::Zip(s("bad"))).message(), "ZIP error: bad");
    assert_eq!(
        ManagerError::UpdateFailed { action: s("Add mod A"), reason: s("full") }.message(),
        "Update action failed: Add mod A - full"
    );
    assert_eq!(
        ManagerError::InvalidStructure { reason: s("no mods") }.message(),
        "Invalid server structure: no mods"
    );
    assert_eq!(
        ManagerError::ParallelError { operation: s("download"), reason: s("join") }.message(),
        "Parallel operation failed: download - join"
    );
    assert_eq!(
        ManagerError::FileOperationFailed { operation: s("mkdir"), reason: s("denied") }.message(),
        "Failed to perform file operation mkdir - denied"
    );
}

#[test]
fn config_errors_read_as_sentences() {
    assert_eq!(ConfigError::io_error("read", "denied").message(), "IO error: read - denied");
    assert_eq!(
        ConfigError::serialization_error("TOML", "bad table").message(),
        "Serialization error: TOML - bad table"
    );
    assert_eq!(
        ConfigError::invalid_config("id", "empty").message(),
        "Invalid configuration: id - empty"
    );
    assert_eq!(
        ConfigError::invalid_config("id", "empty"),
        ConfigError::InvalidConfig { field: s("id"), reason: s("empty") }
    );
    assert_eq!(ConfigError::ServerNotFound { server_id: s("srv") }.message(), "Server not found: srv");
    assert_eq!(
        ConfigError::InvalidConnectionConfig { connection_type: s("ftp"), reason: s("no host") }
            .message(),
        "Invalid connection config: ftp - no host"
    );
    assert_eq!(
        ConfigError::ProfileNotFound { profile_name: s("mine") }.message(),
        "Profile not found: mine"
    );
    assert_eq!(ConfigError::Io(s("x")).message(), "IO error: x");
    assert_eq!(ConfigError::Json(s("x")).message(), "JSON error: x");
    assert_eq!(ConfigError::Toml(s("x")).message(), "TOML error: x");
}

#[test]
fn an_unknown_server_has_only_its_properties() {
    let mut properties = StringMap::new();
    properties.insert(s("motd"), s("hello"));
    let info = ServerInfo::unknown(properties.clone());
    assert_eq!(info.version, None);
    assert_eq!(info.properties, properties);
    assert!(info.mods.is_empty());
    assert_eq!(info.status, ServerStatus::Unknown);
    assert_eq!(info.last_seen, None);
}
