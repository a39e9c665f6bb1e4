//! Server definitions: how each server is reached and how it is treated.

use crate::error::ConfigError;
use crate::string_map::StringMap;
use vstd::prelude::*;
use vstd::string::StringExecFns;

verus! {

/// The mod loader a server runs.
#[derive(Debug, Clone, Copy, PartialEq, Eq, Structural)]
pub enum ModLoader {
    NeoForge,
    Fabric,
    Forge,
    Vanilla,
    Unknown,
}

impl ModLoader {
    /// The name of the loader in configuration files.
    pub open spec fn name_text(self) -> Seq<char> {
        match self {
            ModLoader::NeoForge => "neoforge"@,
            ModLoader::Fabric => "fabric"@,
            ModLoader::Forge => "forge"@,
            ModLoader::Vanilla => "vanilla"@,
            ModLoader::Unknown => "unknown"@,
        }
    }

    /// The name of the loader in configuration files.
    pub fn name(&self) -> (text: &'static str)
        ensures
            text@ == self.name_text(),
    {
        match self {
            ModLoader::NeoForge => "neoforge",
            ModLoader::Fabric => "fabric",
            ModLoader::Forge => "forge",
            ModLoader::Vanilla => "vanilla",
            ModLoader::Unknown => "unknown",
        }
    }

    /// The loader that the words `NeoForge`, `Forge` and `Fabric` name;
    /// every other word stands for NeoForge.
    pub open spec fn chosen(word: Seq<char>) -> ModLoader {
        if word == "NeoForge"@ {
            ModLoader::NeoForge
        } else if word == "Forge"@ {
            ModLoader::Forge
        } else if word == "Fabric"@ {
            ModLoader::Fabric
        } else {
            ModLoader::NeoForge
        }
    }

    /// Reads a loader as a person writes it.
    pub fn from_word(word: &str) -> (loader: ModLoader)
        ensures
            loader == Self::chosen(word@),
    {
        if crate::text::str_eq(word, "NeoForge") {
            ModLoader::NeoForge
        } else if crate::text::str_eq(word, "Forge") {
            ModLoader::Forge
        } else if crate::text::str_eq(word, "Fabric") {
            ModLoader::Fabric
        } else {
            ModLoader::NeoForge
        }
    }
}

impl Default for ModLoader {
    fn default() -> (loader: Self)
        ensures
            loader == ModLoader::NeoForge,
    {
        ModLoader::NeoForge
    }
}

/// A server on the local filesystem.
#[derive(Debug, Clone, PartialEq, Eq)]
pub struct LocalConnection {
    /// Path to the server directory.
    pub path: String,
}

impl Default for LocalConnection {
    fn default() -> (connection: Self)
        ensures
            connection.path@.len() == 0,
    {
        LocalConnection { path: String::new() }
    }
}

/// A server reached over FTP.
#[derive(Debug, Clone, PartialEq, Eq)]
pub struct FtpConnection {
    /// Host name of the FTP server.
    pub host: String,
    /// Port of the FTP server.
    pub port: u16,
    /// User name.
    pub username: String,
    /// Password.
    pub password: Option<String>,
    /// Base path on the server.
    pub base_path: String,
    /// Whether passive mode is used.
    pub passive_mode: bool,
}

impl Default for FtpConnection {
    fn default() -> (connection: Self)
        ensures
            connection.host@.len() == 0,
            connection.port == 21,
            connection.username@.len() == 0,
            connection.password is None,
            connection.base_path@ == "/"@,
            connection.passive_mode,
    {
        FtpConnection {
            host: String::new(),
            port: 21,
            username: String::new(),
            password: None,
            base_path: "/".to_owned(),
            passive_mode: true,
        }
    }
}

/// A server reached over SSH or SFTP.
#[derive(Debug, Clone, PartialEq, Eq)]
pub struct SshConnection {
    /// Host name of the SSH server.
    pub host: String,
    /// Port of the SSH server.
    pub port: u16,
    /// User name.
    pub username: String,
    /// Path to the private key file.
    pub private_key_path: Option<String>,
    /// Password, where no key is used.
    pub password: Option<String>,
    /// Base path on the server.
    pub base_path: String,
}

impl Default for SshConnection {
    fn default() -> (connection: Self)
        ensures
            connection.host@.len() == 0,
            connection.port == 22,
            connection.username@.len() == 0,
            connection.private_key_path is None,
            connection.password is None,
            connection.base_path@ == "/"@,
    {
        SshConnection {
            host: String::new(),
            port: 22,
            username: String::new(),
            private_key_path: None,
            password: None,
            base_path: "/".to_owned(),
        }
    }
}

/// How a server is reached.
#[derive(Debug, Clone, PartialEq, Eq)]
pub enum ConnectionType {
    /// On the local filesystem.
    Local(LocalConnection),
    /// Over FTP.
    Ftp(FtpConnection),
    /// Over SSH.
    Ssh(SshConnection),
    /// Over SFTP.
    Sftp(SshConnection),
}

impl Default for ConnectionType {
    fn default() -> (connection: Self)
        ensures
            connection is Local,
            connection->Local_0.path@.len() == 0,
    {
        ConnectionType::Local(LocalConnection::default())
    }
}

impl ConnectionType {
    /// The name of the kind of connection.
    pub open spec fn kind_name_text(&self) -> Seq<char> {
        match self {
            ConnectionType::Local(_) => "Local"@,
            ConnectionType::Ftp(_) => "FTP"@,
            ConnectionType::Ssh(_) => "SSH"@,
            ConnectionType::Sftp(_) => "SFTP"@,
        }
    }

    /// The host of a remote connection.
    pub open spec fn host_text(&self) -> Option<Seq<char>> {
        match self {
            ConnectionType::Local(_) => None,
            ConnectionType::Ftp(ftp) => Some(ftp.host@),
            ConnectionType::Ssh(ssh) => Some(ssh.host@),
            ConnectionType::Sftp(ssh) => Some(ssh.host@),
        }
    }

    /// The user name of a remote connection.
    pub open spec fn username_text(&self) -> Option<Seq<char>> {
        match self {
            ConnectionType::Local(_) => None,
            ConnectionType::Ftp(ftp) => Some(ftp.username@),
            ConnectionType::Ssh(ssh) => Some(ssh.username@),
            ConnectionType::Sftp(ssh) => Some(ssh.username@),
        }
    }

    /// The name of the kind of connection.
    pub fn kind_name(&self) -> (name: &'static str)
        ensures
            name@ == self.kind_name_text(),
    {
        match self {
            ConnectionType::Local(_) => "Local",
            ConnectionType::Ftp(_) => "FTP",
            ConnectionType::Ssh(_) => "SSH",
            ConnectionType::Sftp(_) => "SFTP",
        }
    }

    /// Whether the server is on the local filesystem.
    pub fn is_local(&self) -> (local: bool)
        ensures
            local == (self is Local),
    {
        match self {
            ConnectionType::Local(_) => true,
            _ => false,
        }
    }

    /// Whether the server is reached over a network.
    pub fn is_remote(&self) -> (remote: bool)
        ensures
            remote == !(self is Local),
    {
        !self.is_local()
    }

    /// The host of a remote connection.
    pub fn get_host(&self) -> (host: Option<&str>)
        ensures
            match host {
                Some(h) => self.host_text() == Some(h@),
                None => self.host_text() is None,
            },
    {
        match self {
            ConnectionType::Local(_) => None,
            ConnectionType::Ftp(ftp) => Some(ftp.host.as_str()),
            ConnectionType::Ssh(ssh) => Some(ssh.host.as_str()),
            ConnectionType::Sftp(ssh) => Some(ssh.host.as_str()),
        }
    }

    /// The user name of a connection that asks for one.
    pub fn get_username(&self) -> (username: Option<&str>)
        ensures
            match username {
                Some(u) => self.username_text() == Some(u@),
                None => self.username_text() is None,
            },
    {
        match self {
            ConnectionType::Local(_) => None,
            ConnectionType::Ftp(ftp) => Some(ftp.username.as_str()),
            ConnectionType::Ssh(ssh) => Some(ssh.username.as_str()),
            ConnectionType::Sftp(ssh) => Some(ssh.username.as_str()),
        }
    }
}

/// Settings and metadata of one server.
#[derive(Debug, Clone, PartialEq, Eq)]
pub struct ServerSettings {
    /// Game version, such as `1.20.1`.
    pub minecraft_version: Option<String>,
    /// Mod loader.
    pub mod_loader: ModLoader,
    /// Description of the kind of server.
    pub server_type: Option<String>,
    /// Whether this is a development server.
    pub development_mode: bool,
    /// Custom server properties.
    pub properties: StringMap<String>,
    /// Tags for organization.
    pub tags: Vec<String>,
}

impl Default for ServerSettings {
    fn default() -> (settings: Self)
        ensures
            settings.minecraft_version is None,
            settings.mod_loader == ModLoader::NeoForge,
            settings.server_type is None,
            !settings.development_mode,
            settings.properties@ == Map::<Seq<char>, String>::empty(),
            settings.tags@.len() == 0,
    {
        ServerSettings {
            minecraft_version: None,
            mod_loader: ModLoader::default(),
            server_type: None,
            development_mode: false,
            properties: StringMap::new(),
            tags: Vec::new(),
        }
    }
}

/// How compatibility is checked for one server.
#[derive(Debug, Clone, PartialEq, Eq)]
pub struct CompatibilityConfig {
    /// Mods to ignore during compatibility checks.
    pub ignore_mods: Vec<String>,
    /// Whether client-only mods are ignored.
    pub auto_ignore_client_only: bool,
    /// Whether server-only mods are ignored.
    pub auto_ignore_server_only: bool,
    /// The compatibility profile to use.
    pub default_profile: Option<String>,
    /// Custom compatibility rules.
    pub custom_rules: Vec<String>,
}

impl Default for CompatibilityConfig {
    fn default() -> (config: Self)
        ensures
            config.ignore_mods@.len() == 0,
            config.auto_ignore_client_only,
            config.auto_ignore_server_only,
            config.default_profile is None,
            config.custom_rules@.len() == 0,
    {
        CompatibilityConfig {
            ignore_mods: Vec::new(),
            auto_ignore_client_only: true,
            auto_ignore_server_only: true,
            default_profile: None,
            custom_rules: Vec::new(),
        }
    }
}

/// The configuration of one server.
#[derive(Debug, Clone, PartialEq, Eq)]
pub struct ServerConfig {
    /// Unique identifier of the server.
    pub id: String,
    /// Display name of the server.
    pub name: String,
    /// Description.
    pub description: Option<String>,
    /// How the server is reached.
    pub connection: ConnectionType,
    /// Settings of the server.
    pub settings: ServerSettings,
    /// How compatibility is checked.
    pub compatibility: CompatibilityConfig,
    /// When the server was last connected to.
    pub last_connected: Option<String>,
    /// Whether the server is enabled.
    pub enabled: bool,
}

impl Default for ServerConfig {
    fn default() -> (config: Self)
        ensures
            config.id@.len() == 0,
            config.name@.len() == 0,
            config.description is None,
            config.connection is Local,
            config.connection->Local_0.path@.len() == 0,
            config.settings.minecraft_version is None,
            config.settings.mod_loader == ModLoader::NeoForge,
            config.settings.server_type is None,
            !config.settings.development_mode,
            config.settings.properties@ == Map::<Seq<char>, String>::empty(),
            config.settings.tags@.len() == 0,
            config.compatibility.ignore_mods@.len() == 0,
            config.compatibility.auto_ignore_client_only,
            config.compatibility.auto_ignore_server_only,
            config.compatibility.default_profile is None,
            config.compatibility.custom_rules@.len() == 0,
            config.last_connected is None,
            config.enabled,
    {
        ServerConfig {
            id: String::new(),
            name: String::new(),
            description: None,
            connection: ConnectionType::default(),
            settings: ServerSettings::default(),
            compatibility: CompatibilityConfig::default(),
            last_connected: None,
            enabled: true,
        }
    }
}

/// What is wrong with a connection, if anything: the field at fault and
/// the reason.
pub open spec fn connection_failure(connection: ConnectionType) -> Option<(Seq<char>, Seq<char>)> {
    match connection {
        ConnectionType::Local(local) => if local.path@.len() == 0 {
            Some(("connection.path"@, "Local path cannot be empty"@))
        } else {
            None
        },
        ConnectionType::Ftp(ftp) => if ftp.host@.len() == 0 {
            Some(("connection.host"@, "FTP host cannot be empty"@))
        } else if ftp.username@.len() == 0 {
            Some(("connection.username"@, "FTP username cannot be empty"@))
        } else {
            None
        },
        ConnectionType::Ssh(ssh) => ssh_failure(ssh),
        ConnectionType::Sftp(ssh) => ssh_failure(ssh),
    }
}

/// What is wrong with an SSH connection, if anything.
pub open spec fn ssh_failure(ssh: SshConnection) -> Option<(Seq<char>, Seq<char>)> {
    if ssh.host@.len() == 0 {
        Some(("connection.host"@, "SSH host cannot be empty"@))
    } else if ssh.username@.len() == 0 {
        Some(("connection.username"@, "SSH username cannot be empty"@))
    } else if ssh.private_key_path is None && ssh.password is None {
        Some(("connection.auth"@, "Either private key path or password must be provided"@))
    } else {
        None
    }
}

/// What is wrong with a server's configuration, if anything: the first
/// field at fault, in the order identifier, name, connection, and the reason.
pub open spec fn validation_failure(config: ServerConfig) -> Option<(Seq<char>, Seq<char>)> {
    if config.id@.len() == 0 {
        Some(("id"@, "Server ID cannot be empty"@))
    } else if config.name@.len() == 0 {
        Some(("name"@, "Server name cannot be empty"@))
    } else {
        connection_failure(config.connection)
    }
}

/// Whether `result` reports exactly the failure `failure`.
pub open spec fn reports(result: Result<(), ConfigError>, failure: Option<(Seq<char>, Seq<char>)>) -> bool {
    match result {
        Ok(_) => failure is None,
        Err(e) => e is InvalidConfig && failure == Some(
            (e->InvalidConfig_field@, e->InvalidConfig_reason@),
        ),
    }
}

fn validate_ssh(ssh: &SshConnection) -> (result: Result<(), ConfigError>)
    ensures
        reports(result, ssh_failure(*ssh)),
{
    if ssh.host.as_str().is_empty() {
        return Err(ConfigError::invalid_config("connection.host", "SSH host cannot be empty"));
    }
    if ssh.username.as_str().is_empty() {
        return Err(ConfigError::invalid_config("connection.username", "SSH username cannot be empty"));
    }
    if ssh.private_key_path.is_none() && ssh.password.is_none() {
        return Err(
            ConfigError::invalid_config(
                "connection.auth",
                "Either private key path or password must be provided",
            ),
        );
    }
    Ok(())
}

impl ServerConfig {
    /// A server with the given identifier and name and every other field
    /// at its default.
    pub fn new(id: String, name: String) -> (config: Self)
        ensures
            config.id == id,
            config.name == name,
            config.description is None,
            config.connection is Local,
            config.connection->Local_0.path@.len() == 0,
            config.settings.minecraft_version is None,
            config.settings.mod_loader == ModLoader::NeoForge,
            config.settings.server_type is None,
            !config.settings.development_mode,
            config.settings.properties@ == Map::<Seq<char>, String>::empty(),
            config.settings.tags@.len() == 0,
            config.compatibility.ignore_mods@.len() == 0,
            config.compatibility.auto_ignore_client_only,
            config.compatibility.auto_ignore_server_only,
            config.compatibility.default_profile is None,
            config.compatibility.custom_rules@.len() == 0,
            config.last_connected is None,
            config.enabled,
    {
        let base = ServerConfig::default();
        ServerConfig {
            id,
            name,
            description: base.description,
            connection: base.connection,
            settings: base.settings,
            compatibility: base.compatibility,
            last_connected: base.last_connected,
            enabled: base.enabled,
        }
    }

    /// The settings of the server.
    pub fn settings(&self) -> (settings: &ServerSettings)
        ensures
            *settings == self.settings,
    {
        &self.settings
    }

    /// The compatibility configuration of the server.
    pub fn compatibility(&self) -> (compatibility: &CompatibilityConfig)
        ensures
            *compatibility == self.compatibility,
    {
        &self.compatibility
    }

    /// Validates the configuration: identifier and name must not be empty,
    /// and the connection must say where the server is and how to log in.
    pub fn validate(&self) -> (result: Result<(), ConfigError>)
        ensures
            reports(result, validation_failure(*self)),
    {
        if self.id.as_str().is_empty() {
            return Err(ConfigError::invalid_config("id", "Server ID cannot be empty"));
        }
        if self.name.as_str().is_empty() {
            return Err(ConfigError::invalid_config("name", "Server name cannot be empty"));
        }
        match &self.connection {
            ConnectionType::Local(local) => {
                if local.path.as_str().is_empty() {
                    return Err(ConfigError::invalid_config("connection.path", "Local path cannot be empty"));
                }
            },
            ConnectionType::Ftp(ftp) => {
                if ftp.host.as_str().is_empty() {
                    return Err(ConfigError::invalid_config("connection.host", "FTP host cannot be empty"));
                }
                if ftp.username.as_str().is_empty() {
                    return Err(
                        ConfigError::invalid_config("connection.username", "FTP username cannot be empty"),
                    );
                }
            },
            ConnectionType::Ssh(ssh) => {
                return validate_ssh(ssh);
            },
            ConnectionType::Sftp(ssh) => {
                return validate_ssh(ssh);
            },
        }
        Ok(())
    }

    /// The path of a server on the local filesystem.
    pub fn get_local_path(&self) -> (path: Option<String>)
        ensures
            match path {
                Some(p) => self.connection is Local && p@ == self.connection->Local_0.path@,
                None => !(self.connection is Local),
            },
    {
        match &self.connection {
            ConnectionType::Local(local) => Some(local.path.clone()),
            _ => None,
        }
    }
}

/// Settings that apply to all servers.
#[derive(Debug, Clone, PartialEq, Eq)]
pub struct GlobalServerSettings {
    /// Connection timeout in seconds.
    pub connection_timeout: u32,
    /// Number of connection retries.
    pub connection_retries: u32,
    /// Whether certificates of secure connections are verified.
    pub verify_ssl: bool,
    /// Default compatibility profile.
    pub default_compatibility_profile: Option<String>,
    /// Mods ignored on every server.
    pub global_ignore_mods: Vec<String>,
}

impl Default for GlobalServerSettings {
    fn default() -> (settings: Self)
        ensures
            settings.connection_timeout == 30,
            settings.connection_retries == 3,
            settings.verify_ssl,
            settings.default_compatibility_profile is None,
            settings.global_ignore_mods@.len() == 0,
    {
        GlobalServerSettings {
            connection_timeout: 30,
            connection_retries: 3,
            verify_ssl: true,
            default_compatibility_profile: None,
            global_ignore_mods: Vec::new(),
        }
    }
}

/// All configured servers.
#[derive(Debug, Clone, PartialEq, Eq)]
pub struct ServersConfig {
    /// Version of the configuration format.
    pub version: String,
    /// The servers, by identifier.
    pub servers: StringMap<ServerConfig>,
    /// The server used where none is named.
    pub default_server: Option<String>,
    /// Settings that apply to all servers.
    pub global_settings: GlobalServerSettings,
}

impl Default for ServersConfig {
    fn default() -> (config: Self)
        ensures
            config.version@ == "1.0.0"@,
            config.servers@ == Map::<Seq<char>, ServerConfig>::empty(),
            config.default_server is None,
    {
        ServersConfig {
            version: "1.0.0".to_owned(),
            servers: StringMap::new(),
            default_server: None,
            global_settings: GlobalServerSettings::default(),
        }
    }
}

/// Whether the server stored under `key` is in order: it carries the key as
/// its identifier and passes validation.
pub open spec fn entry_in_order(key: Seq<char>, server: ServerConfig) -> bool {
    server.id@ == key && validation_failure(server) is None
}

impl ServersConfig {
    /// The settings that apply to all servers.
    pub fn global_settings(&self) -> (settings: &GlobalServerSettings)
        ensures
            *settings == self.global_settings,
    {
        &self.global_settings
    }

    /// Validates every server: each must be stored under its own
    /// identifier and pass validation.
    pub fn validate(&self) -> (result: Result<(), ConfigError>)
        ensures
            result is Ok <==> forall|i: int|
                0 <= i < self.servers.keys().len() ==> entry_in_order(
                    #[trigger] self.servers.keys()[i],
                    self.servers.values()[i],
                ),
            result is Err ==> result->Err_0 is InvalidConfig,
    {
        let n = self.servers.len();
        let mut i: usize = 0;
        while i < n
            invariant
                i <= n,
                n == self.servers.keys().len(),
                n == self.servers.values().len(),
                forall|j: int|
                    0 <= j < i ==> entry_in_order(
                        #[trigger] self.servers.keys()[j],
                        self.servers.values()[j],
                    ),
            decreases n - i,
        {
            let key = self.servers.key_at(i);
            let server = self.servers.value_at(i);
            if !crate::text::str_eq(server.id.as_str(), key.as_str()) {
                let mut field = "servers.".to_owned();
                field.append(key.as_str());
                assert(!entry_in_order(self.servers.keys()[i as int], self.servers.values()[i as int]));
                return Err(
                    ConfigError::invalid_config(field.as_str(), "Server ID in config doesn't match map key"),
                );
            }
            match server.validate() {
                Ok(_) => {},
                Err(e) => {
                    assert(!entry_in_order(
                        self.servers.keys()[i as int],
                        self.servers.values()[i as int],
                    ));
                    return Err(e);
                },
            }
            i += 1;
        }
        Ok(())
    }
}

/// The host that a target of the form `host` or `host:port` names.
pub open spec fn target_host(target: Seq<char>) -> Seq<char> {
    target.take(crate::text::index_of_char(target, ':'))
}

/// The port that a target of the form `host` or `host:port` names: what
/// stands between the first colon and the second, read as a number, and 21
/// where there is no colon or no number.
pub open spec fn target_port(target: Seq<char>) -> u16 {
    let colon = crate::text::index_of_char(target, ':');
    if colon >= target.len() {
        21
    } else {
        let rest = target.skip(colon + 1);
        match crate::text::parsed_u16(rest.take(crate::text::index_of_char(rest, ':'))) {
            Some(port) => port,
            None => 21,
        }
    }
}

/// Reads the host and the port of an FTP target.
pub fn ftp_target(target: &str) -> (parts: (String, u16))
    ensures
        parts.0@ == target_host(target@),
        parts.1 == target_port(target@),
{
    let chars = crate::text::chars_of(target);
    let colon = crate::text::find_char_from(&chars, 0, ':');
    assert(chars@.skip(0) =~= chars@);
    let host_chars = crate::text::slice(&chars, 0, colon);
    assert(host_chars@ =~= chars@.take(colon as int));
    let host = crate::text::string_of(&host_chars);
    if colon >= chars.len() {
        return (host, 21);
    }
    let end = crate::text::find_char_from(&chars, colon + 1, ':');
    let port_chars = crate::text::slice(&chars, colon + 1, end);
    proof {
        let rest = chars@.skip(colon as int + 1);
        assert(port_chars@ =~= rest.take(end - (colon + 1)));
    }
    match crate::text::parse_u16(&port_chars) {
        Some(port) => (host, port),
        None => (host, 21),
    }
}

} // verus!
