//! The identity record of a mod and the enumerations it is built from.

use vstd::prelude::*;

verus! {

/// A structured JSON value, carried through the library untouched.
#[verifier::external_type_specification]
#[verifier::external_body]
pub struct ExJsonValue(serde_json::Value);

/// `serde_json::Value::clone` copies the whole value: the copy equals the value copied.
pub assume_specification[ <serde_json::Value as Clone>::clone ](value: &serde_json::Value) -> (copy:
    serde_json::Value)
    ensures
        copy == *value,
;

/// The side of the game a mod runs on.
#[derive(Debug, Clone, Copy, PartialEq, Eq, Structural)]
pub enum ModSide {
    /// Runs on the client only.
    Client,
    /// Runs on the server only.
    Server,
    /// Runs on both sides.
    Both,
    /// Side is unknown or unspecified.
    Unknown,
}

/// The loader family a mod targets.
#[derive(Debug, Clone, Copy, PartialEq, Eq, Structural)]
pub enum ModLoader {
    /// NeoForge mod loader.
    NeoForge,
    /// Fabric mod loader.
    Fabric,
    /// Legacy Forge mod loader.
    Forge,
    /// Unknown or unsupported mod loader.
    Unknown,
}

/// One key of a descriptor with the value it carried.
#[derive(Debug, PartialEq)]
pub struct RawAttribute {
    /// The key as written in the descriptor.
    pub key: String,
    /// The value as written in the descriptor.
    pub value: serde_json::Value,
}

impl View for RawAttribute {
    type V = (Seq<char>, serde_json::Value);

    open spec fn view(&self) -> Self::V {
        (self.key@, self.value)
    }
}

impl Clone for RawAttribute {
    fn clone(&self) -> (copy: Self)
        ensures
            copy@ == self@,
    {
        RawAttribute { key: self.key.clone(), value: self.value.clone() }
    }
}

/// The views of the attributes in `attrs`, in order.
pub open spec fn attributes_view(attrs: Seq<RawAttribute>) -> Seq<(Seq<char>, serde_json::Value)> {
    attrs.map_values(|a: RawAttribute| a@)
}

/// A copy of `attrs`.
pub fn clone_attributes(attrs: &Vec<RawAttribute>) -> (copy: Vec<RawAttribute>)
    ensures
        attributes_view(copy@) == attributes_view(attrs@),
{
    let mut copy: Vec<RawAttribute> = Vec::new();
    let mut i: usize = 0;
    while i < attrs.len()
        invariant
            i <= attrs.len(),
            copy.len() == i,
            forall|j: int| 0 <= j < i ==> (#[trigger] copy[j])@ == attrs[j]@,
        decreases attrs.len() - i,
    {
        copy.push(attrs[i].clone());
        i += 1;
    }
    assert(attributes_view(copy@) =~= attributes_view(attrs@));
    copy
}

/// The view of an optional string.
pub open spec fn opt_view(s: Option<String>) -> Option<Seq<char>> {
    match s {
        Some(s) => Some(s@),
        None => None,
    }
}

/// A copy of an optional string.
pub fn clone_opt(s: &Option<String>) -> (copy: Option<String>)
    ensures
        opt_view(copy) == opt_view(*s),
{
    match s {
        Some(s) => Some(s.clone()),
        None => None,
    }
}

/// Information about a single mod found in an installation.
#[derive(Debug, PartialEq)]
pub struct ModInfo {
    /// Unique mod identifier, the key of every comparison.
    pub id: String,
    /// Display name of the mod.
    pub name: String,
    /// Version string of the mod, if one is known.
    pub version: Option<String>,
    /// Location of the archive the mod was read from.
    pub file_path: String,
    /// Whether the mod is currently enabled.
    pub enabled: bool,
    /// Which side the mod runs on.
    pub side: ModSide,
    /// Which loader the mod targets.
    pub loader: ModLoader,
    /// Descriptor attributes kept for downstream consumers.
    pub raw_metadata: Vec<RawAttribute>,
}

/// The mathematical content of a [`ModInfo`].
pub struct ModInfoView {
    pub id: Seq<char>,
    pub name: Seq<char>,
    pub version: Option<Seq<char>>,
    pub file_path: Seq<char>,
    pub enabled: bool,
    pub side: ModSide,
    pub loader: ModLoader,
    pub raw_metadata: Seq<(Seq<char>, serde_json::Value)>,
}

impl View for ModInfo {
    type V = ModInfoView;

    open spec fn view(&self) -> ModInfoView {
        ModInfoView {
            id: self.id@,
            name: self.name@,
            version: opt_view(self.version),
            file_path: self.file_path@,
            enabled: self.enabled,
            side: self.side,
            loader: self.loader,
            raw_metadata: attributes_view(self.raw_metadata@),
        }
    }
}

impl Clone for ModInfo {
    fn clone(&self) -> (copy: Self)
        ensures
            copy@ == self@,
    {
        ModInfo {
            id: self.id.clone(),
            name: self.name.clone(),
            version: clone_opt(&self.version),
            file_path: self.file_path.clone(),
            enabled: self.enabled,
            side: self.side,
            loader: self.loader,
            raw_metadata: clone_attributes(&self.raw_metadata),
        }
    }
}

impl ModInfo {
    /// The same mod with `path` as the location of its archive.
    pub fn with_file_path(self, path: String) -> (moved: Self)
        ensures
            moved@ == (ModInfoView { file_path: path@, ..self@ }),
    {
        ModInfo { file_path: path, ..self }
    }
}

/// The views of the mods in `mods`, in order.
pub open spec fn mods_view(mods: Seq<ModInfo>) -> Seq<ModInfoView> {
    mods.map_values(|m: ModInfo| m@)
}

/// A copy of `mods`.
pub fn clone_mods(mods: &Vec<ModInfo>) -> (copy: Vec<ModInfo>)
    ensures
        mods_view(copy@) == mods_view(mods@),
{
    let mut copy: Vec<ModInfo> = Vec::new();
    let mut i: usize = 0;
    while i < mods.len()
        invariant
            i <= mods.len(),
            copy.len() == i,
            forall|j: int| 0 <= j < i ==> (#[trigger] copy[j])@ == mods[j]@,
        decreases mods.len() - i,
    {
        copy.push(mods[i].clone());
        i += 1;
    }
    assert(mods_view(copy@) =~= mods_view(mods@));
    copy
}

/// The current status of a game server.
#[derive(Debug, Clone, Copy, PartialEq, Eq, Structural)]
pub enum ServerStatus {
    /// Server is running and accepting connections.
    Online,
    /// Server is not running.
    Offline,
    /// Server is starting up.
    Starting,
    /// Server is shutting down.
    Stopping,
    /// Server status cannot be determined.
    Unknown,
}

/// What is known of a game server.
#[derive(Debug, Clone, PartialEq)]
pub struct ServerInfo {
    /// Version of the server, such as `1.20.1`.
    pub version: Option<String>,
    /// The server's properties, by key.
    pub properties: crate::string_map::StringMap<String>,
    /// The mods installed on the server.
    pub mods: Vec<ModInfo>,
    /// The status of the server.
    pub status: ServerStatus,
    /// When the server was last connected to, in seconds since the Unix epoch.
    pub last_seen: Option<u64>,
}

impl ServerInfo {
    /// What is known of a server before anything was asked of it, but for
    /// its properties.
    pub fn unknown(properties: crate::string_map::StringMap<String>) -> (info: Self)
        ensures
            info.version is None,
            info.properties == properties,
            info.mods@.len() == 0,
            info.status == ServerStatus::Unknown,
            info.last_seen is None,
    {
        ServerInfo {
            version: None,
            properties,
            mods: Vec::new(),
            status: ServerStatus::Unknown,
            last_seen: None,
        }
    }
}

} // verus!
