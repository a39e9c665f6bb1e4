//! The errors the library reports, one enumeration per component.

use vstd::prelude::*;
use vstd::string::StringExecFns;

verus! {

/// `prefix` followed by `detail`.
fn with_detail(prefix: &str, detail: &str) -> (text: String)
    ensures
        text@ == prefix@ + detail@,
{
    prefix.to_owned().concat(detail)
}

/// `prefix` followed by `first`, a dash and `second`.
fn with_details(prefix: &str, first: &str, second: &str) -> (text: String)
    ensures
        text@ == prefix@ + first@ + " - "@ + second@,
{
    prefix.to_owned().concat(first).concat(" - ").concat(second)
}

/// Errors of the core: connections, files and servers.
#[derive(Debug, Clone, PartialEq, Eq)]
pub enum CoreError {
    /// A connection could not be made or was lost.
    ConnectionFailed { message: String },
    /// The credentials were not accepted.
    AuthenticationFailed { reason: String },
    /// No server stands at the place given.
    ServerNotFound { server_id: String },
    /// A server's configuration cannot be used.
    InvalidConfiguration { details: String },
    /// A file operation failed.
    FileOperationFailed { operation: String, reason: String },
    /// A server operation failed.
    ServerOperationFailed { operation: String, reason: String },
    /// The network failed.
    NetworkError { message: String },
    /// An input or output error, with its message.
    Io(String),
    /// A value could not be written or read back, with the message.
    Serialization(String),
    /// Logging could not be set up, with the message.
    Logging(String),
}

/// Errors of metadata extraction and compatibility checking.
#[derive(Debug, Clone, PartialEq, Eq)]
pub enum CompatError {
    /// An archive could not be read or understood.
    JarError { file: String, reason: String },
    /// One descriptor of an archive could not be used.
    MetadataError { mod_name: String, reason: String },
    /// An error of the core, passed on.
    Core(CoreError),
    /// An input or output error, with its message.
    Io(String),
    /// A JSON document could not be decoded, with the message.
    Json(String),
    /// A TOML document could not be decoded, with the message.
    Toml(String),
    /// A container could not be opened as an archive, with the message.
    Zip(String),
}

/// Errors of inventory management and synchronization.
#[derive(Debug, Clone, PartialEq, Eq)]
pub enum ManagerError {
    /// An error of the core, passed on.
    Core(CoreError),
    /// An error of the compatibility check, passed on.
    Compat(CompatError),
    /// One action of a plan could not be carried out.
    UpdateFailed { action: String, reason: String },
    /// An installation's structure cannot be used.
    InvalidStructure { reason: String },
    /// Work done side by side failed.
    ParallelError { operation: String, reason: String },
    /// A file operation failed.
    FileOperationFailed { operation: String, reason: String },
}

/// Errors of the configuration.
#[derive(Debug, Clone, PartialEq, Eq)]
pub enum ConfigError {
    /// An input or output error during a named operation.
    IoError { operation: String, reason: String },
    /// A configuration could not be written or read back.
    SerializationError { format: String, reason: String },
    /// A configuration failed validation.
    InvalidConfig { field: String, reason: String },
    /// No server is configured under the identifier.
    ServerNotFound { server_id: String },
    /// A connection's configuration cannot be used.
    InvalidConnectionConfig { connection_type: String, reason: String },
    /// No profile is stored under the name.
    ProfileNotFound { profile_name: String },
    /// An input or output error, with its message.
    Io(String),
    /// A JSON document could not be decoded, with the message.
    Json(String),
    /// A TOML document could not be decoded, with the message.
    Toml(String),
}

impl CoreError {
    /// The error in words.
    pub open spec fn message_text(&self) -> Seq<char> {
        match self {
            CoreError::ConnectionFailed { message } => "Connection failed: "@ + message@,
            CoreError::AuthenticationFailed { reason } => "Authentication failed: "@ + reason@,
            CoreError::ServerNotFound { server_id } => "Server not found: "@ + server_id@,
            CoreError::InvalidConfiguration { details } => "Invalid server configuration: "@
                + details@,
            CoreError::FileOperationFailed { operation, reason } => "File operation failed: "@
                + operation@ + " - "@ + reason@,
            CoreError::ServerOperationFailed { operation, reason } => "Server operation failed: "@
                + operation@ + " - "@ + reason@,
            CoreError::NetworkError { message } => "Network error: "@ + message@,
            CoreError::Io(detail) => "IO error: "@ + detail@,
            CoreError::Serialization(detail) => "Serialization error: "@ + detail@,
            CoreError::Logging(detail) => detail@,
        }
    }

    /// The error in words.
    pub fn message(&self) -> (text: String)
        ensures
            text@ == self.message_text(),
    {
        match self {
            CoreError::ConnectionFailed { message } => with_detail(
                "Connection failed: ",
                message.as_str(),
            ),
            CoreError::AuthenticationFailed { reason } => with_detail(
                "Authentication failed: ",
                reason.as_str(),
            ),
            CoreError::ServerNotFound { server_id } => with_detail(
                "Server not found: ",
                server_id.as_str(),
            ),
            CoreError::InvalidConfiguration { details } => with_detail(
                "Invalid server configuration: ",
                details.as_str(),
            ),
            CoreError::FileOperationFailed { operation, reason } => with_details(
                "File operation failed: ",
                operation.as_str(),
                reason.as_str(),
            ),
            CoreError::ServerOperationFailed { operation, reason } => with_details(
                "Server operation failed: ",
                operation.as_str(),
                reason.as_str(),
            ),
            CoreError::NetworkError { message } => with_detail("Network error: ", message.as_str()),
            CoreError::Io(detail) => with_detail("IO error: ", detail.as_str()),
            CoreError::Serialization(detail) => with_detail(
                "Serialization error: ",
                detail.as_str(),
            ),
            CoreError::Logging(detail) => detail.clone(),
        }
    }
}

impl CompatError {
    /// The error in words.
    pub open spec fn message_text(&self) -> Seq<char> {
        match self {
            CompatError::JarError { file, reason } => "JAR file error: "@ + file@ + " - "@
                + reason@,
            CompatError::MetadataError { mod_name, reason } => "Metadata parsing error: "@
                + mod_name@ + " - "@ + reason@,
            CompatError::Core(inner) => inner.message_text(),
            CompatError::Io(detail) => "IO error: "@ + detail@,
            CompatError::Json(detail) => "JSON error: "@ + detail@,
            CompatError::Toml(detail) => "TOML error: "@ + detail@,
            CompatError::Zip(detail) => "ZIP error: "@ + detail@,
        }
    }

    /// The error in words.
    pub fn message(&self) -> (text: String)
        ensures
            text@ == self.message_text(),
    {
        match self {
            CompatError::JarError { file, reason } => with_details(
                "JAR file error: ",
                file.as_str(),
                reason.as_str(),
            ),
            CompatError::MetadataError { mod_name, reason } => with_details(
                "Metadata parsing error: ",
                mod_name.as_str(),
                reason.as_str(),
            ),
            CompatError::Core(inner) => inner.message(),
            CompatError::Io(detail) => with_detail("IO error: ", detail.as_str()),
            CompatError::Json(detail) => with_detail("JSON error: ", detail.as_str()),
            CompatError::Toml(detail) => with_detail("TOML error: ", detail.as_str()),
            CompatError::Zip(detail) => with_detail("ZIP error: ", detail.as_str()),
        }
    }
}

impl ManagerError {
    /// The error in words.
    pub open spec fn message_text(&self) -> Seq<char> {
        match self {
            ManagerError::Core(inner) => inner.message_text(),
            ManagerError::Compat(inner) => inner.message_text(),
            ManagerError::UpdateFailed { action, reason } => "Update action failed: "@ + action@
                + " - "@ + reason@,
            ManagerError::InvalidStructure { reason } => "Invalid server structure: "@ + reason@,
            ManagerError::ParallelError { operation, reason } => "Parallel operation failed: "@
                + operation@ + " - "@ + reason@,
            ManagerError::FileOperationFailed { operation, reason } => "Failed to perform file operation "@
                + operation@ + " - "@ + reason@,
        }
    }

    /// The error in words.
    pub fn message(&self) -> (text: String)
        ensures
            text@ == self.message_text(),
    {
        match self {
            ManagerError::Core(inner) => inner.message(),
            ManagerError::Compat(inner) => inner.message(),
            ManagerError::UpdateFailed { action, reason } => with_details(
                "Update action failed: ",
                action.as_str(),
                reason.as_str(),
            ),
            ManagerError::InvalidStructure { reason } => with_detail(
                "Invalid server structure: ",
                reason.as_str(),
            ),
            ManagerError::ParallelError { operation, reason } => with_details(
                "Parallel operation failed: ",
                operation.as_str(),
                reason.as_str(),
            ),
            ManagerError::FileOperationFailed { operation, reason } => with_details(
                "Failed to perform file operation ",
                operation.as_str(),
                reason.as_str(),
            ),
        }
    }
}

impl ConfigError {
    /// The error in words.
    pub open spec fn message_text(&self) -> Seq<char> {
        match self {
            ConfigError::IoError { operation, reason } => "IO error: "@ + operation@ + " - "@
                + reason@,
            ConfigError::SerializationError { format, reason } => "Serialization error: "@
                + format@ + " - "@ + reason@,
            ConfigError::InvalidConfig { field, reason } => "Invalid configuration: "@ + field@
                + " - "@ + reason@,
            ConfigError::ServerNotFound { server_id } => "Server not found: "@ + server_id@,
            ConfigError::InvalidConnectionConfig { connection_type, reason } => "Invalid connection config: "@
                + connection_type@ + " - "@ + reason@,
            ConfigError::ProfileNotFound { profile_name } => "Profile not found: "@
                + profile_name@,
            ConfigError::Io(detail) => "IO error: "@ + detail@,
            ConfigError::Json(detail) => "JSON error: "@ + detail@,
            ConfigError::Toml(detail) => "TOML error: "@ + detail@,
        }
    }

    /// The error in words.
    pub fn message(&self) -> (text: String)
        ensures
            text@ == self.message_text(),
    {
        match self {
            ConfigError::IoError { operation, reason } => with_details(
                "IO error: ",
                operation.as_str(),
                reason.as_str(),
            ),
            ConfigError::SerializationError { format, reason } => with_details(
                "Serialization error: ",
                format.as_str(),
                reason.as_str(),
            ),
            ConfigError::InvalidConfig { field, reason } => with_details(
                "Invalid configuration: ",
                field.as_str(),
                reason.as_str(),
            ),
            ConfigError::ServerNotFound { server_id } => with_detail(
                "Server not found: ",
                server_id.as_str(),
            ),
            ConfigError::InvalidConnectionConfig { connection_type, reason } => with_details(
                "Invalid connection config: ",
                connection_type.as_str(),
                reason.as_str(),
            ),
            ConfigError::ProfileNotFound { profile_name } => with_detail(
                "Profile not found: ",
                profile_name.as_str(),
            ),
            ConfigError::Io(detail) => with_detail("IO error: ", detail.as_str()),
            ConfigError::Json(detail) => with_detail("JSON error: ", detail.as_str()),
            ConfigError::Toml(detail) => with_detail("TOML error: ", detail.as_str()),
        }
    }

    /// The error of an input or output operation that failed.
    pub fn io_error(operation: &str, reason: &str) -> (error: ConfigError)
        ensures
            error is IoError,
            error->IoError_operation@ == operation@,
            error->IoError_reason@ == reason@,
    {
        ConfigError::IoError { operation: operation.to_owned(), reason: reason.to_owned() }
    }

    /// The error of a configuration that could not be written or read back.
    pub fn serialization_error(format: &str, reason: &str) -> (error: ConfigError)
        ensures
            error is SerializationError,
            error->SerializationError_format@ == format@,
            error->SerializationError_reason@ == reason@,
    {
        ConfigError::SerializationError { format: format.to_owned(), reason: reason.to_owned() }
    }

    /// The error of a configuration that failed validation.
    pub fn invalid_config(field: &str, reason: &str) -> (error: ConfigError)
        ensures
            error is InvalidConfig,
            error->InvalidConfig_field@ == field@,
            error->InvalidConfig_reason@ == reason@,
    {
        ConfigError::InvalidConfig { field: field.to_owned(), reason: reason.to_owned() }
    }
}

} // verus!
