//! The arguments of the command line, as values.

use crate::servers::{
    ftp_target, target_host, target_port, ConnectionType as ServerConnection, FtpConnection,
    LocalConnection, ModLoader, ServerConfig,
};
use crate::types::opt_view;
use vstd::prelude::*;

verus! {

/// The kinds of connection that the command line can set up.
#[derive(Debug, Clone, Copy, PartialEq, Eq, Structural)]
pub enum ConnectionType {
    Local,
    Ftp,
}

/// What is asked for when a server is added.
#[derive(Debug, Clone, PartialEq, Eq)]
pub struct AddServerConfig {
    /// Unique identifier of the server or client.
    pub id: Option<String>,
    /// Name for people.
    pub name: Option<String>,
    /// Kind of connection.
    pub connection_type: Option<ConnectionType>,
    /// Where the server is: a path, or a host with its port.
    pub target: Option<String>,
    /// User name of an FTP connection.
    pub username: Option<String>,
    /// Password of an FTP connection.
    pub password: Option<String>,
    /// Game version.
    pub minecraft_version: String,
    /// Mod loader.
    pub mod_loader: String,
    /// Whether the server starts out disabled.
    pub disabled: bool,
}

impl AddServerConfig {
    /// Whether the rest has to be asked for: an argument that is needed is missing.
    pub fn is_interactive(&self) -> (interactive: bool)
        ensures
            interactive == (self.id is None || self.name is None || self.connection_type is None
                || self.target is None),
    {
        self.id.is_none() || self.name.is_none() || self.connection_type.is_none()
            || self.target.is_none()
    }
}

impl AddServerConfig {
    /// The configuration of the server that complete arguments describe:
    /// a local server at the target path, or an FTP server at the target
    /// host and port with the user name and password given.
    pub fn to_server_config(&self) -> (config: ServerConfig)
        requires
            self.id is Some,
            self.name is Some,
            self.connection_type is Some,
            self.target is Some,
        ensures
            config.id@ == self.id->0@,
            config.name@ == self.name->0@,
            config.enabled == !self.disabled,
            opt_view(config.settings.minecraft_version) == Some(self.minecraft_version@),
            config.settings.mod_loader == ModLoader::chosen(self.mod_loader@),
            self.connection_type == Some(ConnectionType::Local) ==> config.connection is Local
                && config.connection->Local_0.path@ == self.target->0@,
            self.connection_type == Some(ConnectionType::Ftp) ==> {
                &&& config.connection is Ftp
                &&& config.connection->Ftp_0.host@ == target_host(self.target->0@)
                &&& config.connection->Ftp_0.port == target_port(self.target->0@)
                &&& config.connection->Ftp_0.username@ == (match self.username {
                    Some(u) => u@,
                    None => Seq::<char>::empty(),
                })
                &&& opt_view(config.connection->Ftp_0.password) == opt_view(self.password)
                &&& config.connection->Ftp_0.base_path@ == "/"@
                &&& config.connection->Ftp_0.passive_mode
            },
    {
        let target = match &self.target {
            Some(t) => t.clone(),
            None => String::new(),
        };
        let connection = match self.connection_type {
            Some(ConnectionType::Ftp) => {
                let (host, port) = ftp_target(target.as_str());
                let base = FtpConnection::default();
                ServerConnection::Ftp(
                    FtpConnection {
                        host,
                        port,
                        username: match &self.username {
                            Some(u) => u.clone(),
                            None => String::new(),
                        },
                        password: crate::types::clone_opt(&self.password),
                        base_path: base.base_path,
                        passive_mode: base.passive_mode,
                    },
                )
            },
            _ => ServerConnection::Local(LocalConnection { path: target }),
        };
        let id = match &self.id {
            Some(v) => v.clone(),
            None => String::new(),
        };
        let name = match &self.name {
            Some(v) => v.clone(),
            None => String::new(),
        };
        let mut config = ServerConfig::new(id, name);
        config.connection = connection;
        config.enabled = !self.disabled;
        config.settings.minecraft_version = Some(self.minecraft_version.clone());
        config.settings.mod_loader = ModLoader::from_word(self.mod_loader.as_str());
        config
    }
}

/// What is to be removed.
#[derive(Debug, Clone, PartialEq, Eq)]
pub struct RemoveTarget {
    /// Identifier of the server or client to remove.
    pub id: Option<String>,
    /// Whether to skip the confirmation.
    pub force: bool,
}

impl RemoveTarget {
    /// Whether the target has to be asked for.
    pub fn is_interactive(&self) -> (interactive: bool)
        ensures
            interactive == (self.id is None),
    {
        self.id.is_none()
    }
}

/// What is to be scanned.
#[derive(Debug, Clone, PartialEq, Eq)]
pub struct ScanTarget {
    /// Identifier of the server or client to scan.
    pub id: Option<String>,
    /// Whether every mod is shown.
    pub detailed: bool,
}

impl ScanTarget {
    /// Whether the target has to be asked for.
    pub fn is_interactive(&self) -> (interactive: bool)
        ensures
            interactive == (self.id is None),
    {
        self.id.is_none()
    }
}

/// What is to be compared.
#[derive(Debug, Clone, PartialEq, Eq)]
pub struct CompareTargets {
    /// Identifier of the source, the client.
    pub source: Option<String>,
    /// Identifier of the target, the server.
    pub target: Option<String>,
    /// Whether every finding is shown.
    pub detailed: bool,
}

impl CompareTargets {
    /// Whether a side has to be asked for.
    pub fn is_interactive(&self) -> (interactive: bool)
        ensures
            interactive == (self.source is None || self.target is None),
    {
        self.source.is_none() || self.target.is_none()
    }
}

/// What is to be synchronized.
#[derive(Debug, Clone, PartialEq, Eq)]
pub struct SyncTargets {
    /// Identifier of the source, the client.
    pub source: Option<String>,
    /// Identifier of the target, the server.
    pub target: Option<String>,
    /// Whether to skip the confirmation.
    pub force: bool,
    /// Whether to show what would be done without doing it.
    pub dry_run: bool,
}

impl SyncTargets {
    /// Whether a side has to be asked for.
    pub fn is_interactive(&self) -> (interactive: bool)
        ensures
            interactive == (self.source is None || self.target is None),
    {
        self.source.is_none() || self.target.is_none()
    }
}

/// What is to be enabled or disabled.
#[derive(Debug, Clone, PartialEq, Eq)]
pub struct ToggleTarget {
    /// Identifier of the server or client to toggle.
    pub id: Option<String>,
    /// The state to set, where one is given.
    pub enabled: Option<bool>,
}

impl ToggleTarget {
    /// Whether the target has to be asked for.
    pub fn is_interactive(&self) -> (interactive: bool)
        ensures
            interactive == (self.id is None),
    {
        self.id.is_none()
    }
}

/// The commands of the command line.
#[derive(Debug, Clone, PartialEq, Eq)]
pub enum Commands {
    /// List the configured servers and clients.
    List { enabled_only: bool },
    /// Add a server or client.
    Add { config: AddServerConfig },
    /// Remove a server or client.
    Remove { target: RemoveTarget },
    /// Scan a server or client for mods.
    Scan { target: ScanTarget },
    /// Compare two installations and show the plan.
    Compare { targets: CompareTargets },
    /// Synchronize the mods of the source to the target.
    Sync { targets: SyncTargets },
    /// Enable or disable a server or client.
    Toggle { target: ToggleTarget },
    /// Show the configuration.
    Config { id: Option<String>, json: bool },
}

/// The command line as a whole.
#[derive(Debug, Clone, PartialEq, Eq)]
pub struct Cli {
    /// Whether logging is verbose.
    pub verbose: bool,
    /// A configuration directory other than the usual one.
    pub config_dir: Option<String>,
    /// The command, where one is given.
    pub command: Option<Commands>,
}

/// The screens of the terminal interface.
#[derive(Debug, Clone, PartialEq, Eq)]
pub enum AppState {
    Menu,
    AddServer,
    ListServers,
    Success(String),
    Error(String),
}

/// What choosing an entry of the main menu leads to.
#[derive(Debug, Clone, PartialEq, Eq)]
pub enum MenuOutcome {
    /// Another screen is shown.
    Show(AppState),
    /// The interface ends.
    Quit,
    /// Nothing happens.
    Stay,
}

/// The entry of the main menu after the entry `selected`: the next of the
/// five, the first after the last, and the first where none is selected.
pub fn next_menu_item(selected: Option<usize>) -> (next: usize)
    ensures
        next == (match selected {
            Some(i) => if i >= 4 {
                0
            } else {
                i + 1
            },
            None => 0,
        }),
{
    match selected {
        Some(i) => if i >= 4 {
            0
        } else {
            i + 1
        },
        None => 0,
    }
}

/// The entry of the main menu before the entry `selected`: the previous
/// of the five, the last before the first, and the first where none is
/// selected.
pub fn previous_menu_item(selected: Option<usize>) -> (previous: usize)
    ensures
        previous == (match selected {
            Some(i) => if i == 0 {
                4
            } else {
                i - 1
            },
            None => 0,
        }),
{
    match selected {
        Some(i) => if i == 0 {
            4
        } else {
            i - 1
        },
        None => 0,
    }
}

/// What choosing the entry `selected` of the main menu leads to: the list
/// of servers for the first entry, the form that adds a server for the
/// second, the end for the fifth, and nothing for any other.
pub fn select_menu_item(selected: Option<usize>) -> (outcome: MenuOutcome)
    ensures
        outcome == (match selected {
            Some(i) => if i == 0 {
                MenuOutcome::Show(AppState::ListServers)
            } else if i == 1 {
                MenuOutcome::Show(AppState::AddServer)
            } else if i == 4 {
                MenuOutcome::Quit
            } else {
                MenuOutcome::Stay
            },
            None => MenuOutcome::Stay,
        }),
{
    match selected {
        Some(i) => if i == 0 {
            MenuOutcome::Show(AppState::ListServers)
        } else if i == 1 {
            MenuOutcome::Show(AppState::AddServer)
        } else if i == 4 {
            MenuOutcome::Quit
        } else {
            MenuOutcome::Stay
        },
        None => MenuOutcome::Stay,
    }
}

} // verus!
