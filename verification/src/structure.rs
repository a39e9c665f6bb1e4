//! The directory structure of one installation, as a scan finds it.

use crate::paths::{join, path_join};
use crate::string_map::StringMap;
use crate::types::{mods_view, ModInfo, ModInfoView};
use vstd::prelude::*;

verus! {

/// The mods directory and the mods found in it.
#[derive(Debug, Clone, PartialEq)]
pub struct ModsStructure {
    /// Path to the mods directory.
    pub path: String,
    /// The mods found, each with its metadata.
    pub mods: Vec<ModInfo>,
    /// Whether the mods directory exists.
    pub exists: bool,
}

/// The config directory.
#[derive(Debug, Clone, PartialEq, Eq)]
pub struct ConfigStructure {
    /// Path to the config directory.
    pub path: String,
    /// Whether the config directory exists.
    pub exists: bool,
    /// Config files.
    pub files: Vec<String>,
}

/// The resource-packs directory.
#[derive(Debug, Clone, PartialEq, Eq)]
pub struct ResourcePackStructure {
    /// Path to the resource-packs directory.
    pub path: String,
    /// Whether the resource-packs directory exists.
    pub exists: bool,
    /// Resource pack files.
    pub packs: Vec<String>,
}

/// The shader-packs directory.
#[derive(Debug, Clone, PartialEq, Eq)]
pub struct ShaderPackStructure {
    /// Path to the shader-packs directory.
    pub path: String,
    /// Whether the shader-packs directory exists.
    pub exists: bool,
    /// Shader pack files.
    pub packs: Vec<String>,
}

/// The standard directory structure of a client or server installation.
#[derive(Debug, Clone, PartialEq)]
pub struct MinecraftStructure {
    /// Root path of the installation.
    pub root_path: String,
    /// The mods directory and its contents.
    pub mods: ModsStructure,
    /// The config directory.
    pub config: ConfigStructure,
    /// The resource-packs directory.
    pub resourcepacks: ResourcePackStructure,
    /// The shader-packs directory.
    pub shaderpacks: ShaderPackStructure,
    /// Files at the root, by name.
    pub root_files: StringMap<String>,
}

impl MinecraftStructure {
    /// The mods of the inventory, as mathematical values.
    pub open spec fn inventory(&self) -> Seq<ModInfoView> {
        mods_view(self.mods.mods@)
    }

    /// Whether nothing has been found yet in the installation at `root`:
    /// no directory is known to exist and no mod or file is listed.
    pub open spec fn is_blank(&self, root: Seq<char>) -> bool {
        &&& self.root_path@ == root
        &&& self.mods.path@ == "mods"@
        &&& self.mods.mods@.len() == 0
        &&& !self.mods.exists
        &&& self.config.path@ == path_join(root, "config"@)
        &&& !self.config.exists
        &&& self.config.files@.len() == 0
        &&& self.resourcepacks.path@ == path_join(root, "resourcepacks"@)
        &&& !self.resourcepacks.exists
        &&& self.resourcepacks.packs@.len() == 0
        &&& self.shaderpacks.path@ == path_join(root, "shaderpacks"@)
        &&& !self.shaderpacks.exists
        &&& self.shaderpacks.packs@.len() == 0
        &&& self.root_files@ == Map::<Seq<char>, String>::empty()
    }

    /// The structure of the installation at `root_path` before anything is
    /// known of it.
    pub fn new(root_path: String) -> (structure: Self)
        ensures
            structure.is_blank(root_path@),
    {
        MinecraftStructure {
            mods: ModsStructure { path: "mods".to_owned(), mods: Vec::new(), exists: false },
            config: ConfigStructure {
                path: join(root_path.as_str(), "config"),
                exists: false,
                files: Vec::new(),
            },
            resourcepacks: ResourcePackStructure {
                path: join(root_path.as_str(), "resourcepacks"),
                exists: false,
                packs: Vec::new(),
            },
            shaderpacks: ShaderPackStructure {
                path: join(root_path.as_str(), "shaderpacks"),
                exists: false,
                packs: Vec::new(),
            },
            root_files: StringMap::new(),
            root_path,
        }
    }

    /// The number of mods installed.
    pub fn mod_count(&self) -> (count: usize)
        ensures
            count == self.inventory().len(),
    {
        self.mods.mods.len()
    }

    /// Whether the mods directory exists and holds at least one mod.
    pub fn has_mods(&self) -> (has: bool)
        ensures
            has == (self.mods.exists && self.inventory().len() > 0),
    {
        self.mods.exists && self.mods.mods.len() > 0
    }
}

} // verus!
