//! The configuration of the manager and the configuration as a whole.

use crate::error::ConfigError;
use crate::profiles::ProfileManager;
use crate::servers::{ServerConfig, ServersConfig};
use vstd::prelude::*;

verus! {

/// How much is logged.
#[derive(Debug, Clone, Copy, PartialEq, Eq, Structural)]
pub enum LogLevel {
    Debug,
    Info,
    Warn,
    Error,
    Critical,
}

impl Default for LogLevel {
    fn default() -> (level: Self)
        ensures
            level == LogLevel::Info,
    {
        LogLevel::Info
    }
}

/// How log files are named.
#[derive(Debug, Clone, Copy, PartialEq, Eq, Structural)]
pub enum LogFileNameFormat {
    Date,
    Timestamp,
    DateTime,
    Unstamped,
}

impl Default for LogFileNameFormat {
    fn default() -> (format: Self)
        ensures
            format == LogFileNameFormat::DateTime,
    {
        LogFileNameFormat::DateTime
    }
}

/// The configuration of the manager itself.
#[derive(Debug, Clone, Copy, PartialEq, Eq, Structural)]
pub struct ManagerConfig {
    /// How much is logged.
    pub log_level: LogLevel,
    /// How log files are named.
    pub log_file: LogFileNameFormat,
    /// Whether logs go to standard output as well.
    pub log_to_stdout: bool,
    /// Whether the metadata cache is used at all.
    pub cache_enabled: bool,
    /// The budget of the metadata cache, in mebibytes.
    pub cache_max_size_mb: u32,
    /// How long a cached identity stays good, in hours.
    pub cache_ttl_hours: u32,
}

impl Default for ManagerConfig {
    fn default() -> (config: Self)
        ensures
            config.log_level == LogLevel::Info,
            config.log_file == LogFileNameFormat::DateTime,
            !config.log_to_stdout,
            config.cache_enabled,
            config.cache_max_size_mb == 512,
            config.cache_ttl_hours == 24,
    {
        ManagerConfig {
            log_level: LogLevel::default(),
            log_file: LogFileNameFormat::default(),
            log_to_stdout: false,
            cache_enabled: true,
            cache_max_size_mb: 512,
            cache_ttl_hours: 24,
        }
    }
}

impl ManagerConfig {
    /// Validates the configuration. Every configuration of the manager is valid.
    pub fn validate(&self) -> (result: Result<(), ConfigError>)
        ensures
            result is Ok,
    {
        Ok(())
    }
}

/// The whole configuration: the manager's own, the servers and the profiles.
#[derive(Debug, Clone, PartialEq, Eq)]
pub struct ConfigManager {
    /// The configuration of the manager itself.
    pub manager: ManagerConfig,
    servers_config: ServersConfig,
    profile_manager: ProfileManager,
    config_dir: String,
}

impl ConfigManager {
    /// The configuration of the manager itself.
    pub closed spec fn manager_config(&self) -> ManagerConfig {
        self.manager
    }

    /// The configuration of the servers.
    pub closed spec fn servers_config(&self) -> ServersConfig {
        self.servers_config
    }

    /// The profiles.
    pub closed spec fn profile_manager(&self) -> ProfileManager {
        self.profile_manager
    }

    /// The servers, by identifier.
    pub closed spec fn server_map(&self) -> Map<Seq<char>, ServerConfig> {
        self.servers_config.servers@
    }

    /// The identifiers of the servers, in the order in which they came in.
    pub closed spec fn server_ids(&self) -> Seq<Seq<char>> {
        self.servers_config.servers.keys()
    }

    /// The configuration directory.
    pub closed spec fn directory(&self) -> Seq<char> {
        self.config_dir@
    }

    /// The configuration made of its parts.
    pub fn from_parts(
        config_dir: String,
        manager: ManagerConfig,
        servers_config: ServersConfig,
        profile_manager: ProfileManager,
    ) -> (config: Self)
        ensures
            config.manager_config() == manager,
            config.directory() == config_dir@,
            config.servers_config() == servers_config,
            config.profile_manager() == profile_manager,
            config.server_map() == servers_config.servers@,
            config.server_ids() == servers_config.servers.keys(),
    {
        ConfigManager { manager, servers_config, profile_manager, config_dir }
    }

    /// The configuration of the manager itself.
    pub fn manager(&self) -> (manager: &ManagerConfig)
        ensures
            *manager == self.manager_config(),
    {
        &self.manager
    }

    /// The configuration of the manager itself, to change it.
    pub fn manager_mut(&mut self) -> (manager: &mut ManagerConfig)
        ensures
            *manager == old(self).manager_config(),
            final(self).manager_config() == *final(manager),
            final(self).servers_config() == old(self).servers_config(),
            final(self).profile_manager() == old(self).profile_manager(),
            final(self).server_map() == old(self).server_map(),
            final(self).server_ids() == old(self).server_ids(),
            final(self).directory() == old(self).directory(),
    {
        &mut self.manager
    }

    /// The configuration of the servers.
    pub fn servers(&self) -> (servers: &ServersConfig)
        ensures
            *servers == self.servers_config(),
            servers.servers@ == self.server_map(),
            servers.servers.keys() == self.server_ids(),
    {
        &self.servers_config
    }

    /// The configuration of the servers, to change it.
    pub fn servers_mut(&mut self) -> (servers: &mut ServersConfig)
        ensures
            *servers == old(self).servers_config(),
            servers.servers@ == old(self).server_map(),
            servers.servers.keys() == old(self).server_ids(),
            final(self).servers_config() == *final(servers),
            final(self).server_map() == final(servers).servers@,
            final(self).server_ids() == final(servers).servers.keys(),
            final(self).manager_config() == old(self).manager_config(),
            final(self).profile_manager() == old(self).profile_manager(),
            final(self).directory() == old(self).directory(),
    {
        &mut self.servers_config
    }

    /// The profiles.
    pub fn profiles(&self) -> (profiles: &ProfileManager)
        ensures
            *profiles == self.profile_manager(),
    {
        &self.profile_manager
    }

    /// The profiles, to change them.
    pub fn profiles_mut(&mut self) -> (profiles: &mut ProfileManager)
        ensures
            *profiles == old(self).profile_manager(),
            final(self).profile_manager() == *final(profiles),
            final(self).servers_config() == old(self).servers_config(),
            final(self).manager_config() == old(self).manager_config(),
            final(self).server_map() == old(self).server_map(),
            final(self).server_ids() == old(self).server_ids(),
            final(self).directory() == old(self).directory(),
    {
        &mut self.profile_manager
    }

    /// The configuration directory.
    pub fn config_dir(&self) -> (dir: &str)
        ensures
            dir@ == self.directory(),
    {
        self.config_dir.as_str()
    }

    /// The configuration of the server `server_id`.
    pub fn get_server(&self, server_id: &str) -> (server: Option<&ServerConfig>)
        ensures
            match server {
                Some(s) => self.server_map().contains_key(server_id@) && *s
                    == self.server_map()[server_id@],
                None => !self.server_map().contains_key(server_id@),
            },
    {
        self.servers_config.servers.get(server_id)
    }

    /// Adds a server under its identifier, in the place of the server that
    /// had the identifier if there was one.
    pub fn add_server(&mut self, server: ServerConfig)
        ensures
            final(self).server_map() == old(self).server_map().insert(server.id@, server),
            final(self).manager_config() == old(self).manager_config(),
            final(self).profile_manager() == old(self).profile_manager(),
            final(self).directory() == old(self).directory(),
    {
        let key = server.id.clone();
        self.servers_config.servers.insert(key, server);
    }

    /// Removes the server `server_id` and returns its configuration.
    pub fn remove_server(&mut self, server_id: &str) -> (removed: Option<ServerConfig>)
        ensures
            final(self).server_map() == old(self).server_map().remove(server_id@),
            final(self).manager_config() == old(self).manager_config(),
            final(self).profile_manager() == old(self).profile_manager(),
            final(self).directory() == old(self).directory(),
            match removed {
                Some(s) => old(self).server_map().contains_key(server_id@) && s == old(self).server_map()[server_id@],
                None => !old(self).server_map().contains_key(server_id@),
            },
    {
        self.servers_config.servers.remove(server_id)
    }

    /// The identifiers of all servers.
    pub fn list_servers(&self) -> (ids: Vec<&str>)
        ensures
            ids@.map_values(|id: &str| id@) == self.server_ids(),
    {
        let n = self.servers_config.servers.len();
        let mut ids: Vec<&str> = Vec::new();
        let mut i: usize = 0;
        while i < n
            invariant
                i <= n,
                n == self.servers_config.servers.keys().len(),
                ids.len() == i,
                forall|j: int|
                    0 <= j < i ==> (#[trigger] ids[j])@ == self.servers_config.servers.keys()[j],
            decreases n - i,
        {
            ids.push(self.servers_config.servers.key_at(i).as_str());
            i += 1;
        }
        assert(ids@.map_values(|id: &str| id@) =~= self.server_ids());
        ids
    }
}

} // verus!
