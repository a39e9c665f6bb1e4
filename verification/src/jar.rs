//! Extraction of a mod's identity from what its archive holds.
//!
//! An archive may describe its mod in several descriptors. They are tried in
//! a fixed order and the first that yields an identity decides: the
//! modern-loader manifest, the lightweight-loader descriptor, the legacy
//! descriptor, the container manifest, and at last the file's name.

use crate::error::CompatError;
use crate::paths::{display_stem, stem_or_unknown};
use crate::text::{
    chars_of, find_char_from, has_prefix, has_substring, index_of_char, is_blank, lines_of,
    lines_view, lowercase_of, replace_char, replaced, slice, split_lines, starts_with,
    str_contains, str_eq, str_trim, string_of, trim, trim_start, trimmed, trimmed_start,
};
use crate::types::{
    attributes_view, opt_view, ModInfo, ModInfoView, ModLoader,
    ModSide, RawAttribute,
};
use vstd::prelude::*;

verus! {

/// What the lightweight-loader descriptor says of a mod.
#[derive(Debug, Clone, PartialEq, Eq)]
pub struct FabricModInfo {
    /// Mod identifier.
    pub id: String,
    /// Display name.
    pub name: Option<String>,
    /// Version.
    pub version: String,
    /// Environment the mod runs in.
    pub environment: Option<String>,
}

/// The modern-loader manifest.
#[derive(Debug, Clone, PartialEq, Eq)]
pub struct ForgeModsToml {
    /// The mods defined in the manifest.
    pub mods: Vec<ForgeModInfo>,
}

/// What the modern-loader manifest says of one mod.
#[derive(Debug, Clone, PartialEq, Eq)]
pub struct ForgeModInfo {
    /// Mod identifier.
    pub mod_id: String,
    /// Display name.
    pub display_name: Option<String>,
    /// Version.
    pub version: String,
    /// Side specification.
    pub side: Option<String>,
}

/// What the legacy descriptor says of a mod.
#[derive(Debug, Clone, PartialEq, Eq)]
pub struct McModInfo {
    /// Mod identifier.
    pub mod_id: String,
    /// Display name.
    pub name: Option<String>,
    /// Version.
    pub version: String,
    /// Description.
    pub description: Option<String>,
    /// Authors.
    pub authors: Option<Vec<String>>,
}

/// The legacy descriptor, decoded in the two shapes it may have. The text
/// decides which of the two is read.
#[derive(Debug, Clone, PartialEq, Eq)]
pub struct McModDecoded {
    /// The descriptor decoded as a single object, where it decodes so.
    pub single: Option<McModInfo>,
    /// The descriptor decoded as a list of objects, where it decodes so.
    pub list: Option<Vec<McModInfo>>,
}

/// One descriptor file of an archive.
#[derive(Debug, Clone, PartialEq)]
pub enum Descriptor<T> {
    /// The archive has no such file.
    Missing,
    /// The archive has the file but its text cannot be read.
    Unreadable,
    /// The text of the file, and its decoded form where it decodes.
    Text { text: String, decoded: Option<T> },
}

/// What an opened archive offers to the extraction.
#[derive(Debug, Clone, PartialEq)]
pub struct JarContents {
    /// The modern-loader manifest, `META-INF/mods.toml`.
    pub mods_toml: Descriptor<ForgeModsToml>,
    /// The text of the container manifest, `META-INF/MANIFEST.MF`, where
    /// the archive has it and it can be read.
    pub manifest: Option<String>,
    /// The lightweight-loader descriptor, `fabric.mod.json`.
    pub fabric: Descriptor<FabricModInfo>,
    /// The legacy descriptor at the root, `mcmod.info`.
    pub mcmod_root: Descriptor<McModDecoded>,
    /// The legacy descriptor at `META-INF/mcmod.info`.
    pub mcmod_meta_inf: Descriptor<McModDecoded>,
}

/// An archive as the extraction receives it.
#[derive(Debug, Clone, PartialEq)]
pub enum JarArchive {
    /// The file could not be read; `reason` says why.
    Unreadable { reason: String },
    /// The file is not a well-formed archive; `reason` says why.
    Malformed { reason: String },
    /// The archive was opened.
    Opened(JarContents),
}

/// The text of one entry of an archive.
#[derive(Debug, Clone, PartialEq, Eq)]
pub enum EntryText {
    /// The archive has no such entry.
    Missing,
    /// The archive has the entry but its text cannot be read.
    Unreadable,
    /// The text of the entry.
    Text(String),
}

impl View for EntryText {
    type V = Option<Option<Seq<char>>>;

    open spec fn view(&self) -> Option<Option<Seq<char>>> {
        match self {
            EntryText::Missing => None,
            EntryText::Unreadable => Some(None),
            EntryText::Text(text) => Some(Some(text@)),
        }
    }
}

/// The texts of the descriptors of an opened archive.
#[derive(Debug, Clone, PartialEq, Eq)]
pub struct JarTexts {
    /// `META-INF/mods.toml`.
    pub mods_toml: EntryText,
    /// `META-INF/MANIFEST.MF`.
    pub manifest: EntryText,
    /// `fabric.mod.json`.
    pub fabric: EntryText,
    /// `mcmod.info`.
    pub mcmod_root: EntryText,
    /// `META-INF/mcmod.info`.
    pub mcmod_meta_inf: EntryText,
}

/// Why `bytes` cannot be opened as an archive, where they cannot.
pub uninterp spec fn zip_failure(bytes: Seq<u8>) -> Option<Seq<char>>;

/// What the archive `bytes` holds under `name`: nothing where it has no
/// such entry or is no archive, no text where the entry cannot be read as
/// text, else the text of the entry.
pub uninterp spec fn zip_entry(bytes: Seq<u8>, name: Seq<char>) -> Option<Option<Seq<char>>>;

/// `zip::ZipArchive::new` on the bytes: the message of the error where the
/// bytes are no archive. The result is a function of the bytes alone.
#[verifier::external_body]
fn zip_open_failure(bytes: &[u8]) -> (failure: Option<String>)
    ensures
        opt_view(failure) == zip_failure(bytes@),
{
    zip::ZipArchive::new(std::io::Cursor::new(bytes)).err().map(|e| e.to_string())
}

/// `zip::ZipArchive::by_name`, read to its end as text: the entry of the
/// archive `bytes` with the name `name`. The result is a function of the
/// bytes and the name alone.
#[verifier::external_body]
fn zip_read_entry(bytes: &[u8], name: &str) -> (entry: EntryText)
    ensures
        entry@ == zip_entry(bytes@, name@),
{
    let mut text = String::new();
    match zip::ZipArchive::new(std::io::Cursor::new(bytes)) {
        Err(_) => EntryText::Missing,
        Ok(mut archive) => match archive.by_name(name) {
            Err(_) => EntryText::Missing,
            Ok(mut file) => match std::io::Read::read_to_string(&mut file, &mut text) {
                Err(_) => EntryText::Unreadable,
                Ok(_) => EntryText::Text(text),
            },
        },
    }
}

/// Opens the archive `bytes` and reads the texts of its descriptors. Bytes
/// that are no archive are an error; an entry that is missing or cannot
/// be read is none.
pub fn read_jar_texts(bytes: &[u8]) -> (result: Result<JarTexts, CompatError>)
    ensures
        match result {
            Ok(texts) => {
                &&& zip_failure(bytes@) is None
                &&& texts.mods_toml@ == zip_entry(bytes@, "META-INF/mods.toml"@)
                &&& texts.manifest@ == zip_entry(bytes@, "META-INF/MANIFEST.MF"@)
                &&& texts.fabric@ == zip_entry(bytes@, "fabric.mod.json"@)
                &&& texts.mcmod_root@ == zip_entry(bytes@, "mcmod.info"@)
                &&& texts.mcmod_meta_inf@ == zip_entry(bytes@, "META-INF/mcmod.info"@)
            },
            Err(e) => e is Zip && zip_failure(bytes@) == Some(e->Zip_0@),
        },
{
    match zip_open_failure(bytes) {
        Some(reason) => Err(CompatError::Zip(reason)),
        None => Ok(
            JarTexts {
                mods_toml: zip_read_entry(bytes, "META-INF/mods.toml"),
                manifest: zip_read_entry(bytes, "META-INF/MANIFEST.MF"),
                fabric: zip_read_entry(bytes, "fabric.mod.json"),
                mcmod_root: zip_read_entry(bytes, "mcmod.info"),
                mcmod_meta_inf: zip_read_entry(bytes, "META-INF/mcmod.info"),
            },
        ),
    }
}

/// The descriptor made of the text of an entry and of what the text
/// decodes to.
pub open spec fn described<T>(entry: EntryText, decoded: Option<T>) -> Descriptor<T> {
    match entry {
        EntryText::Missing => Descriptor::Missing,
        EntryText::Unreadable => Descriptor::Unreadable,
        EntryText::Text(text) => Descriptor::Text { text, decoded },
    }
}

/// Makes a descriptor of the text of an entry and of what the text decodes to.
pub fn describe<T>(entry: EntryText, decoded: Option<T>) -> (descriptor: Descriptor<T>)
    ensures
        descriptor == described(entry, decoded),
{
    match entry {
        EntryText::Missing => Descriptor::Missing,
        EntryText::Unreadable => Descriptor::Unreadable,
        EntryText::Text(text) => Descriptor::Text { text, decoded },
    }
}

impl JarContents {
    /// What an opened archive offers to the extraction: the texts of its
    /// descriptors, each with what it decodes to.
    pub fn assemble(
        texts: JarTexts,
        mods_toml: Option<ForgeModsToml>,
        fabric: Option<FabricModInfo>,
        mcmod_root: Option<McModDecoded>,
        mcmod_meta_inf: Option<McModDecoded>,
    ) -> (contents: JarContents)
        ensures
            contents.mods_toml == described(texts.mods_toml, mods_toml),
            contents.fabric == described(texts.fabric, fabric),
            contents.mcmod_root == described(texts.mcmod_root, mcmod_root),
            contents.mcmod_meta_inf == described(texts.mcmod_meta_inf, mcmod_meta_inf),
            contents.manifest == (match texts.manifest {
                EntryText::Text(text) => Some(text),
                _ => None,
            }),
    {
        JarContents {
            mods_toml: describe(texts.mods_toml, mods_toml),
            manifest: match texts.manifest {
                EntryText::Text(text) => Some(text),
                _ => None,
            },
            fabric: describe(texts.fabric, fabric),
            mcmod_root: describe(texts.mcmod_root, mcmod_root),
            mcmod_meta_inf: describe(texts.mcmod_meta_inf, mcmod_meta_inf),
        }
    }
}

/// The side a modern-loader manifest names.
pub open spec fn forge_side(side: Option<Seq<char>>) -> ModSide {
    match side {
        None => ModSide::Both,
        Some(s) => if s == "CLIENT"@ {
            ModSide::Client
        } else if s == "SERVER"@ {
            ModSide::Server
        } else if s == "BOTH"@ {
            ModSide::Both
        } else {
            ModSide::Unknown
        },
    }
}

/// Reads the side of a modern-loader manifest. The match is exact.
pub fn parse_forge_side(side: &Option<String>) -> (parsed: ModSide)
    ensures
        parsed == forge_side(opt_view(*side)),
{
    match side {
        None => ModSide::Both,
        Some(s) => {
            if str_eq(s.as_str(), "CLIENT") {
                ModSide::Client
            } else if str_eq(s.as_str(), "SERVER") {
                ModSide::Server
            } else if str_eq(s.as_str(), "BOTH") {
                ModSide::Both
            } else {
                ModSide::Unknown
            }
        },
    }
}

/// The side a lightweight-loader descriptor names in its environment.
pub open spec fn fabric_side(environment: Option<Seq<char>>) -> ModSide {
    match environment {
        None => ModSide::Both,
        Some(s) => if s == "client"@ {
            ModSide::Client
        } else if s == "server"@ {
            ModSide::Server
        } else if s == "*"@ {
            ModSide::Both
        } else {
            ModSide::Unknown
        },
    }
}

/// Reads the environment of a lightweight-loader descriptor.
pub fn parse_fabric_side(environment: &Option<String>) -> (parsed: ModSide)
    ensures
        parsed == fabric_side(opt_view(*environment)),
{
    match environment {
        None => ModSide::Both,
        Some(s) => {
            if str_eq(s.as_str(), "client") {
                ModSide::Client
            } else if str_eq(s.as_str(), "server") {
                ModSide::Server
            } else if str_eq(s.as_str(), "*") {
                ModSide::Both
            } else {
                ModSide::Unknown
            }
        },
    }
}

/// The loader that the text of a modern-loader manifest points to, by the
/// markers it holds.
pub open spec fn loader_of(text: Seq<char>) -> ModLoader {
    if has_substring(text, "javafml"@) || has_substring(text, "lowcodefml"@) {
        ModLoader::NeoForge
    } else if has_substring(text, "forge"@) || has_substring(text, "minecraftforge"@) {
        ModLoader::Forge
    } else {
        ModLoader::Unknown
    }
}

/// Finds the loader markers in the text of a modern-loader manifest.
pub fn detect_loader(text: &str) -> (loader: ModLoader)
    ensures
        loader == loader_of(text@),
{
    let chars = chars_of(text);
    if str_contains(&chars, "javafml") || str_contains(&chars, "lowcodefml") {
        ModLoader::NeoForge
    } else if str_contains(&chars, "forge") || str_contains(&chars, "minecraftforge") {
        ModLoader::Forge
    } else {
        ModLoader::Unknown
    }
}

/// The version that the first `Implementation-Version: ` line among `lines`
/// gives, without the whitespace around it.
pub open spec fn version_in_lines(lines: Seq<Seq<char>>) -> Option<Seq<char>>
    decreases lines.len(),
{
    if lines.len() == 0 {
        None
    } else if has_prefix(lines[0], "Implementation-Version: "@) {
        Some(trimmed(lines[0].skip("Implementation-Version: "@.len() as int)))
    } else {
        version_in_lines(lines.skip(1))
    }
}

/// The build version that the container manifest with the text `text` gives.
pub open spec fn manifest_version(text: Seq<char>) -> Option<Seq<char>> {
    version_in_lines(lines_of(text))
}

/// Reads the build version from the text of a container manifest.
pub fn read_manifest_version(text: &str) -> (version: Option<String>)
    ensures
        opt_view(version) == manifest_version(text@),
{
    let chars = chars_of(text);
    let lines = split_lines(&chars);
    let prefix = chars_of("Implementation-Version: ");
    let ghost all = lines_view(lines@);
    let mut i: usize = 0;
    assert(all.skip(0) =~= all);
    while i < lines.len()
        invariant
            i <= lines.len(),
            all == lines_view(lines@),
            all == lines_of(text@),
            prefix@ == "Implementation-Version: "@,
            version_in_lines(all) == version_in_lines(all.skip(i as int)),
        decreases lines.len() - i,
    {
        let line = &lines[i];
        assert(all.skip(i as int)[0] == line@);
        if starts_with(line, &prefix) {
            let value = slice(line, prefix.len(), line.len());
            assert(value@ =~= line@.skip(prefix@.len() as int));
            let kept = trim(&value);
            let found = string_of(&kept);
            proof {
                let rest = all.skip(i as int);
                assert(rest.len() > 0);
                assert(has_prefix(rest[0], "Implementation-Version: "@));
                assert(version_in_lines(rest) == Some(found@));
                assert(manifest_version(text@) == version_in_lines(all));
            }
            return Some(found);
        }
        assert(all.skip(i as int).skip(1) =~= all.skip(i as int + 1));
        i += 1;
    }
    None
}

/// The version of a modern-loader mod: as written, unless it is the
/// placeholder for the archive's build version, which the container
/// manifest resolves; `unknown` where it cannot.
pub open spec fn resolved_version(version: Seq<char>, manifest: Option<Seq<char>>) -> Seq<char> {
    if trimmed(version) == "${file.jarVersion}"@ {
        match manifest {
            Some(text) => match manifest_version(text) {
                Some(v) => v,
                None => "unknown"@,
            },
            None => "unknown"@,
        }
    } else {
        version
    }
}

/// The name to show for a mod: its display name, or its identifier where
/// it has none.
pub open spec fn name_or_id(name: Option<Seq<char>>, id: Seq<char>) -> Seq<char> {
    match name {
        Some(n) => n,
        None => id,
    }
}

/// The identity that the modern-loader manifest yields, if it yields one:
/// that of the first mod it defines.
pub open spec fn mods_toml_identity(
    descriptor: Descriptor<ForgeModsToml>,
    manifest: Option<Seq<char>>,
    path: Seq<char>,
) -> Option<ModInfoView> {
    match descriptor {
        Descriptor::Text { text, decoded: Some(toml) } => if toml.mods@.len() == 0 {
            None
        } else {
            let first = toml.mods@[0];
            Some(
                ModInfoView {
                    id: first.mod_id@,
                    name: name_or_id(opt_view(first.display_name), first.mod_id@),
                    version: Some(resolved_version(first.version@, manifest)),
                    file_path: path,
                    enabled: true,
                    side: forge_side(opt_view(first.side)),
                    loader: loader_of(text@),
                    raw_metadata: Seq::empty(),
                },
            )
        },
        _ => None,
    }
}

/// The error of a descriptor that cannot be used: the mod is not known
/// by any name yet, and `reason` says what was wrong.
fn metadata_error(reason: &str) -> (error: CompatError)
    ensures
        error is MetadataError,
        error->MetadataError_mod_name@ == "unknown"@,
        error->MetadataError_reason@ == reason@,
{
    CompatError::MetadataError { mod_name: "unknown".to_owned(), reason: reason.to_owned() }
}

/// A name for display: `name`, or `id` where there is none.
fn pick_name(name: &Option<String>, id: &String) -> (picked: String)
    ensures
        picked@ == name_or_id(opt_view(*name), id@),
{
    match name {
        Some(n) => n.clone(),
        None => id.clone(),
    }
}

/// Reads the identity of the first mod of the modern-loader manifest.
pub fn extract_mods_toml_info(
    descriptor: &Descriptor<ForgeModsToml>,
    manifest: &Option<String>,
    jar_path: &str,
) -> (result: Result<ModInfo, CompatError>)
    ensures
        match result {
            Ok(m) => mods_toml_identity(*descriptor, opt_view(*manifest), jar_path@) == Some(m@),
            Err(e) => mods_toml_identity(*descriptor, opt_view(*manifest), jar_path@) is None && (
            descriptor is Unreadable ==> e is Io) && (!(descriptor is Unreadable) ==> e
                is MetadataError),
        },
{
    match descriptor {
        Descriptor::Missing => Err(metadata_error("No mods.toml file")),
        Descriptor::Unreadable => Err(CompatError::Io("mods.toml cannot be read".to_owned())),
        Descriptor::Text { text, decoded } => {
            match decoded {
                None => Err(metadata_error("TOML parse error")),
                Some(toml) => {
                    if toml.mods.len() == 0 {
                        return Err(metadata_error("No mods found in mods.toml"));
                    }
                    let first = &toml.mods[0];
                    let written = str_trim(first.version.as_str());
                    let version = if str_eq(written.as_str(), "${file.jarVersion}") {
                        let from_manifest = match manifest {
                            Some(manifest_text) => read_manifest_version(manifest_text.as_str()),
                            None => None,
                        };
                        match from_manifest {
                            Some(v) => v,
                            None => "unknown".to_owned(),
                        }
                    } else {
                        first.version.clone()
                    };
                    let info = ModInfo {
                        id: first.mod_id.clone(),
                        name: pick_name(&first.display_name, &first.mod_id),
                        version: Some(version),
                        file_path: jar_path.to_owned(),
                        enabled: true,
                        side: parse_forge_side(&first.side),
                        loader: detect_loader(text.as_str()),
                        raw_metadata: Vec::new(),
                    };
                    assert(info@.raw_metadata =~= Seq::empty());
                    Ok(info)
                },
            }
        },
    }
}

/// The key/value pairs of the JSON object that `text` holds, in the order
/// in which the document model keeps them; no pairs for a JSON value that
/// is no object; nothing where `text` is no JSON.
pub uninterp spec fn json_object_entries(text: Seq<char>) -> Option<
    Seq<(Seq<char>, serde_json::Value)>,
>;

/// `serde_json::from_str` for a `serde_json::Value`: decodes `text` and
/// hands out the pairs of an object, no pairs for any other value, and
/// nothing for text that is no JSON. The result is a function of the text alone.
#[verifier::external_body]
fn parse_json_entries(text: &str) -> (entries: Option<Vec<RawAttribute>>)
    ensures
        match entries {
            Some(pairs) => json_object_entries(text@) == Some(attributes_view(pairs@)),
            None => json_object_entries(text@) is None,
        },
{
    match serde_json::from_str::<serde_json::Value>(text) {
        Ok(serde_json::Value::Object(map)) => Some(
            map.into_iter().map(|(key, value)| RawAttribute { key, value }).collect(),
        ),
        Ok(_) => Some(Vec::new()),
        Err(_) => None,
    }
}

/// The identity that the lightweight-loader descriptor yields, if it
/// yields one. Every key of the descriptor is kept with its value.
pub open spec fn fabric_identity(descriptor: Descriptor<FabricModInfo>, path: Seq<char>) -> Option<
    ModInfoView,
> {
    match descriptor {
        Descriptor::Text { text, decoded: Some(info) } => match json_object_entries(text@) {
            Some(pairs) => Some(
                ModInfoView {
                    id: info.id@,
                    name: name_or_id(opt_view(info.name), info.id@),
                    version: Some(info.version@),
                    file_path: path,
                    enabled: true,
                    side: fabric_side(opt_view(info.environment)),
                    loader: ModLoader::Fabric,
                    raw_metadata: pairs,
                },
            ),
            None => None,
        },
        _ => None,
    }
}

/// The identity that a decoded lightweight-loader descriptor yields with
/// the pairs `attributes` of its document.
pub fn fabric_mod_info(info: &FabricModInfo, attributes: Vec<RawAttribute>, jar_path: &str) -> (mod_info:
    ModInfo)
    ensures
        mod_info@ == (ModInfoView {
            id: info.id@,
            name: name_or_id(opt_view(info.name), info.id@),
            version: Some(info.version@),
            file_path: jar_path@,
            enabled: true,
            side: fabric_side(opt_view(info.environment)),
            loader: ModLoader::Fabric,
            raw_metadata: attributes_view(attributes@),
        }),
{
    ModInfo {
        id: info.id.clone(),
        name: pick_name(&info.name, &info.id),
        version: Some(info.version.clone()),
        file_path: jar_path.to_owned(),
        enabled: true,
        side: parse_fabric_side(&info.environment),
        loader: ModLoader::Fabric,
        raw_metadata: attributes,
    }
}

/// Reads the identity from the lightweight-loader descriptor.
pub fn extract_fabric_info(descriptor: &Descriptor<FabricModInfo>, jar_path: &str) -> (result:
    Result<ModInfo, CompatError>)
    ensures
        match result {
            Ok(m) => fabric_identity(*descriptor, jar_path@) == Some(m@),
            Err(e) => fabric_identity(*descriptor, jar_path@) is None && (descriptor is Missing
                ==> e is Zip) && (descriptor is Unreadable ==> e is Io) && (descriptor is Text
                ==> e is Json),
        },
{
    match descriptor {
        Descriptor::Missing => Err(CompatError::Zip("fabric.mod.json not found".to_owned())),
        Descriptor::Unreadable => Err(
            CompatError::Io("fabric.mod.json cannot be read".to_owned()),
        ),
        Descriptor::Text { text, decoded } => {
            match decoded {
                None => Err(CompatError::Json("fabric.mod.json cannot be decoded".to_owned())),
                Some(info) => match parse_json_entries(text.as_str()) {
                    Some(attributes) => Ok(fabric_mod_info(info, attributes, jar_path)),
                    None => Err(CompatError::Json("fabric.mod.json is no JSON".to_owned())),
                },
            }
        },
    }
}

/// Whether the text of a legacy descriptor holds a list: its first
/// character after leading whitespace opens one.
pub open spec fn holds_list(text: Seq<char>) -> bool {
    trimmed_start(text).len() > 0 && trimmed_start(text)[0] == '['
}

/// Whether the text of a legacy descriptor holds a list of objects rather
/// than a single object.
pub fn mcmod_holds_list(text: &str) -> (list: bool)
    ensures
        list == holds_list(text@),
{
    let chars = chars_of(text);
    let rest = trim_start(&chars);
    rest.len() > 0 && rest[0] == '['
}

/// The legacy descriptor that counts: the one at the root where the
/// archive has it, else the one under `META-INF`.
pub open spec fn mcmod_in_use(
    root: Descriptor<McModDecoded>,
    meta_inf: Descriptor<McModDecoded>,
) -> Descriptor<McModDecoded> {
    if root is Missing {
        meta_inf
    } else {
        root
    }
}

/// The entry of a legacy descriptor that describes the mod: the single
/// object, or the first object of the list.
pub open spec fn mcmod_entry(text: Seq<char>, decoded: McModDecoded) -> Option<McModInfo> {
    if holds_list(text) {
        match decoded.list {
            Some(list) => if list@.len() > 0 {
                Some(list@[0])
            } else {
                None
            },
            None => None,
        }
    } else {
        decoded.single
    }
}

/// The identity that the legacy descriptor yields, if it yields one. The
/// legacy format names no side: the mod counts for both.
pub open spec fn mcmod_identity(
    root: Descriptor<McModDecoded>,
    meta_inf: Descriptor<McModDecoded>,
    path: Seq<char>,
) -> Option<ModInfoView> {
    match mcmod_in_use(root, meta_inf) {
        Descriptor::Text { text, decoded: Some(d) } => match mcmod_entry(text@, d) {
            Some(entry) => Some(
                ModInfoView {
                    id: entry.mod_id@,
                    name: name_or_id(opt_view(entry.name), entry.mod_id@),
                    version: Some(entry.version@),
                    file_path: path,
                    enabled: true,
                    side: ModSide::Both,
                    loader: ModLoader::Forge,
                    raw_metadata: Seq::empty(),
                },
            ),
            None => None,
        },
        _ => None,
    }
}

/// Reads the identity from the legacy descriptor.
pub fn extract_mcmod_info(
    root: &Descriptor<McModDecoded>,
    meta_inf: &Descriptor<McModDecoded>,
    jar_path: &str,
) -> (result: Result<ModInfo, CompatError>)
    ensures
        match result {
            Ok(m) => mcmod_identity(*root, *meta_inf, jar_path@) == Some(m@),
            Err(e) => mcmod_identity(*root, *meta_inf, jar_path@) is None && (mcmod_in_use(
                *root,
                *meta_inf,
            ) is Unreadable ==> e is Io) && (!(mcmod_in_use(*root, *meta_inf) is Unreadable)
                ==> e is MetadataError),
        },
{
    let used = match root {
        Descriptor::Missing => meta_inf,
        _ => root,
    };
    match used {
        Descriptor::Missing => Err(metadata_error("No mcmod.info file found")),
        Descriptor::Unreadable => Err(CompatError::Io("mcmod.info cannot be read".to_owned())),
        Descriptor::Text { text, decoded } => {
            match decoded {
                None => Err(metadata_error("Failed to parse mcmod.info")),
                Some(d) => {
                    let entry: &McModInfo = if mcmod_holds_list(text.as_str()) {
                        match &d.list {
                            None => {
                                return Err(metadata_error("Failed to parse mcmod.info array"));
                            },
                            Some(list) => {
                                if list.len() == 0 {
                                    return Err(metadata_error("Empty mcmod.info array"));
                                }
                                &list[0]
                            },
                        }
                    } else {
                        match &d.single {
                            None => {
                                return Err(metadata_error("Failed to parse mcmod.info object"));
                            },
                            Some(single) => single,
                        }
                    };
                    let info = ModInfo {
                        id: entry.mod_id.clone(),
                        name: pick_name(&entry.name, &entry.mod_id),
                        version: Some(entry.version.clone()),
                        file_path: jar_path.to_owned(),
                        enabled: true,
                        side: ModSide::Both,
                        loader: ModLoader::Forge,
                        raw_metadata: Vec::new(),
                    };
                    assert(info@.raw_metadata =~= Seq::empty());
                    Ok(info)
                },
            }
        },
    }
}

/// The key and the value that one line of a container manifest gives: what
/// stands before its first colon, in lowercase, and what stands after it,
/// both without the whitespace around them. A blank line and a line
/// without a colon give nothing.
pub open spec fn manifest_entry(line: Seq<char>) -> Option<(Seq<char>, Seq<char>)> {
    if is_blank(line) || index_of_char(line, ':') >= line.len() {
        None
    } else {
        Some(
            (
                lowercase_of(trimmed(line.take(index_of_char(line, ':')))),
                trimmed(line.skip(index_of_char(line, ':') + 1)),
            ),
        )
    }
}

/// The value that `lines` give for `key`: that of the last line with the key.
pub open spec fn manifest_value(lines: Seq<Seq<char>>, key: Seq<char>) -> Option<Seq<char>>
    decreases lines.len(),
{
    if lines.len() == 0 {
        None
    } else {
        match manifest_entry(lines.last()) {
            Some((k, v)) => if k == key {
                Some(v)
            } else {
                manifest_value(lines.drop_last(), key)
            },
            None => manifest_value(lines.drop_last(), key),
        }
    }
}

/// Reads the key and the value of one line of a container manifest.
fn parse_manifest_line(line: &Vec<char>) -> (entry: Option<(String, String)>)
    ensures
        match entry {
            Some((k, v)) => manifest_entry(line@) == Some((k@, v@)),
            None => manifest_entry(line@) is None,
        },
{
    if trim(line).len() == 0 {
        return None;
    }
    let colon = find_char_from(line, 0, ':');
    assert(line@.skip(0) =~= line@);
    if colon >= line.len() {
        return None;
    }
    let before = slice(line, 0, colon);
    let after = slice(line, colon + 1, line.len());
    assert(before@ =~= line@.take(colon as int));
    assert(after@ =~= line@.skip(colon as int + 1));
    let key = string_of(&trim(&before));
    let value = string_of(&trim(&after));
    Some((key.as_str().to_lowercase(), value))
}

/// Looks up the value that `lines` give for `key`.
fn manifest_lookup(lines: &Vec<Vec<char>>, key: &str) -> (value: Option<String>)
    ensures
        opt_view(value) == manifest_value(lines_view(lines@), key@),
{
    let ghost all = lines_view(lines@);
    let mut i: usize = lines.len();
    assert(all.take(i as int) =~= all);
    while i > 0
        invariant
            i <= lines.len(),
            all == lines_view(lines@),
            manifest_value(all, key@) == manifest_value(all.take(i as int), key@),
        decreases i,
    {
        i -= 1;
        assert(all.take(i as int + 1).drop_last() =~= all.take(i as int));
        assert(all.take(i as int + 1).last() == lines[i as int]@);
        match parse_manifest_line(&lines[i]) {
            Some((k, v)) => {
                if str_eq(k.as_str(), key) {
                    return Some(v);
                }
            },
            None => {},
        }
    }
    None
}

/// The first of three values that is there.
pub open spec fn first_of(
    a: Option<Seq<char>>,
    b: Option<Seq<char>>,
    c: Option<Seq<char>>,
) -> Option<Seq<char>> {
    if a is Some {
        a
    } else if b is Some {
        b
    } else {
        c
    }
}

/// The value, or `unknown` where there is none.
pub open spec fn or_unknown(value: Option<Seq<char>>) -> Seq<char> {
    match value {
        Some(v) => v,
        None => "unknown"@,
    }
}

/// The name that a container manifest gives to its mod.
pub open spec fn manifest_name(lines: Seq<Seq<char>>) -> Seq<char> {
    or_unknown(
        first_of(
            manifest_value(lines, "implementation-title"@),
            manifest_value(lines, "specification-title"@),
            manifest_value(lines, "bundle-name"@),
        ),
    )
}

/// The version that a container manifest gives to its mod.
pub open spec fn manifest_mod_version(lines: Seq<Seq<char>>) -> Seq<char> {
    or_unknown(
        first_of(
            manifest_value(lines, "implementation-version"@),
            manifest_value(lines, "specification-version"@),
            manifest_value(lines, "bundle-version"@),
        ),
    )
}

/// The identifier made from a name: the name in lowercase, with an
/// underscore for every space and every hyphen.
pub open spec fn id_from_name(name: Seq<char>) -> Seq<char> {
    replaced(replaced(lowercase_of(name), ' ', '_'), '-', '_')
}

/// The identity that the container manifest yields, if it yields one: it
/// yields none where it gives neither a name nor a version.
pub open spec fn manifest_identity(manifest: Option<Seq<char>>, path: Seq<char>) -> Option<
    ModInfoView,
> {
    match manifest {
        None => None,
        Some(text) => {
            let lines = lines_of(text);
            let name = manifest_name(lines);
            let version = manifest_mod_version(lines);
            if name == "unknown"@ && version == "unknown"@ {
                None
            } else {
                Some(
                    ModInfoView {
                        id: id_from_name(name),
                        name,
                        version: Some(version),
                        file_path: path,
                        enabled: true,
                        side: ModSide::Both,
                        loader: ModLoader::Unknown,
                        raw_metadata: Seq::empty(),
                    },
                )
            }
        },
    }
}

/// The first of three values that is there, or `unknown`.
fn pick_first(a: Option<String>, b: Option<String>, c: Option<String>) -> (picked: String)
    ensures
        picked@ == or_unknown(first_of(opt_view(a), opt_view(b), opt_view(c))),
{
    match a {
        Some(v) => v,
        None => match b {
            Some(v) => v,
            None => match c {
                Some(v) => v,
                None => "unknown".to_owned(),
            },
        },
    }
}

/// Reads the identity from the container manifest.
pub fn extract_manifest_info(manifest: &Option<String>, jar_path: &str) -> (result: Result<
    ModInfo,
    CompatError,
>)
    ensures
        match result {
            Ok(m) => manifest_identity(opt_view(*manifest), jar_path@) == Some(m@),
            Err(e) => manifest_identity(opt_view(*manifest), jar_path@) is None && (manifest
                is None ==> e is Zip) && (manifest is Some ==> e is MetadataError),
        },
{
    match manifest {
        None => Err(CompatError::Zip("META-INF/MANIFEST.MF cannot be read".to_owned())),
        Some(text) => {
            let chars = chars_of(text.as_str());
            let lines = split_lines(&chars);
            let name = pick_first(
                manifest_lookup(&lines, "implementation-title"),
                manifest_lookup(&lines, "specification-title"),
                manifest_lookup(&lines, "bundle-name"),
            );
            let version = pick_first(
                manifest_lookup(&lines, "implementation-version"),
                manifest_lookup(&lines, "specification-version"),
                manifest_lookup(&lines, "bundle-version"),
            );
            if str_eq(name.as_str(), "unknown") && str_eq(version.as_str(), "unknown") {
                return Err(metadata_error("No useful mod metadata found in MANIFEST.MF"));
            }
            let lower = chars_of(name.as_str().to_lowercase().as_str());
            let id = string_of(&replace_char(&replace_char(&lower, ' ', '_'), '-', '_'));
            let info = ModInfo {
                id,
                name,
                version: Some(version),
                file_path: jar_path.to_owned(),
                enabled: true,
                side: ModSide::Both,
                loader: ModLoader::Unknown,
                raw_metadata: Vec::new(),
            };
            assert(info@.raw_metadata =~= Seq::empty());
            Ok(info)
        },
    }
}

/// The identity made from the archive's file name alone.
pub open spec fn filename_identity(path: Seq<char>) -> ModInfoView {
    ModInfoView {
        id: display_stem(path),
        name: display_stem(path),
        version: Some("unknown"@),
        file_path: path,
        enabled: true,
        side: ModSide::Unknown,
        loader: ModLoader::Unknown,
        raw_metadata: Seq::empty(),
    }
}

/// The identity of the mod in the archive at `path` that holds `contents`:
/// that of the first descriptor, in the order of priority, that yields one,
/// and that of the file name where none does.
pub open spec fn extracted_identity(contents: JarContents, path: Seq<char>) -> ModInfoView {
    if mods_toml_identity(contents.mods_toml, opt_view(contents.manifest), path) is Some {
        mods_toml_identity(contents.mods_toml, opt_view(contents.manifest), path)->0
    } else if fabric_identity(contents.fabric, path) is Some {
        fabric_identity(contents.fabric, path)->0
    } else if mcmod_identity(contents.mcmod_root, contents.mcmod_meta_inf, path) is Some {
        mcmod_identity(contents.mcmod_root, contents.mcmod_meta_inf, path)->0
    } else if manifest_identity(opt_view(contents.manifest), path) is Some {
        manifest_identity(opt_view(contents.manifest), path)->0
    } else {
        filename_identity(path)
    }
}

/// Extracts the identity of the mod in the archive at `jar_path`.
///
/// An archive that could not be read or opened is an error. An opened
/// archive always yields an identity, complete in every field.
pub fn extract_jar_info(jar_path: &str, archive: &JarArchive) -> (result: Result<
    ModInfo,
    CompatError,
>)
    ensures
        match *archive {
            JarArchive::Unreadable { reason } => result is Err && result->Err_0 is Io
                && result->Err_0->Io_0@ == reason@,
            JarArchive::Malformed { reason } => result is Err && result->Err_0 is Zip
                && result->Err_0->Zip_0@ == reason@,
            JarArchive::Opened(contents) => result is Ok && result->Ok_0@ == extracted_identity(
                contents,
                jar_path@,
            ),
        },
{
    match archive {
        JarArchive::Unreadable { reason } => Err(CompatError::Io(reason.clone())),
        JarArchive::Malformed { reason } => Err(CompatError::Zip(reason.clone())),
        JarArchive::Opened(contents) => {
            if let Ok(info) = extract_mods_toml_info(
                &contents.mods_toml,
                &contents.manifest,
                jar_path,
            ) {
                return Ok(info);
            }
            if let Ok(info) = extract_fabric_info(&contents.fabric, jar_path) {
                return Ok(info);
            }
            if let Ok(info) = extract_mcmod_info(
                &contents.mcmod_root,
                &contents.mcmod_meta_inf,
                jar_path,
            ) {
                return Ok(info);
            }
            if let Ok(info) = extract_manifest_info(&contents.manifest, jar_path) {
                return Ok(info);
            }
            let stem = stem_or_unknown(jar_path);
            let info = ModInfo {
                id: stem.clone(),
                name: stem,
                version: Some("unknown".to_owned()),
                file_path: jar_path.to_owned(),
                enabled: true,
                side: ModSide::Unknown,
                loader: ModLoader::Unknown,
                raw_metadata: Vec::new(),
            };
            assert(info@.raw_metadata =~= Seq::empty());
            Ok(info)
        },
    }
}

/// The priority of the descriptors: an identity that an earlier descriptor
/// yields is the identity extracted, whatever the later ones hold. In
/// particular an archive whose modern-loader manifest can be read never
/// gets the identity of its file name.
pub proof fn lemma_strategy_priority(contents: JarContents, path: Seq<char>)
    ensures
        mods_toml_identity(contents.mods_toml, opt_view(contents.manifest), path) matches Some(m)
            ==> extracted_identity(contents, path) == m,
        mods_toml_identity(contents.mods_toml, opt_view(contents.manifest), path) is None ==> (
        fabric_identity(contents.fabric, path) matches Some(m) ==> extracted_identity(
            contents,
            path,
        ) == m),
        mods_toml_identity(contents.mods_toml, opt_view(contents.manifest), path) is None
            && fabric_identity(contents.fabric, path) is None ==> (mcmod_identity(
            contents.mcmod_root,
            contents.mcmod_meta_inf,
            path,
        ) matches Some(m) ==> extracted_identity(contents, path) == m),
        mods_toml_identity(contents.mods_toml, opt_view(contents.manifest), path) is None
            && fabric_identity(contents.fabric, path) is None && mcmod_identity(
            contents.mcmod_root,
            contents.mcmod_meta_inf,
            path,
        ) is None ==> (manifest_identity(opt_view(contents.manifest), path) matches Some(m)
            ==> extracted_identity(contents, path) == m),
        extracted_identity(contents, path) == filename_identity(path) ==> mods_toml_identity(
            contents.mods_toml,
            opt_view(contents.manifest),
            path,
        ) is None || mods_toml_identity(
            contents.mods_toml,
            opt_view(contents.manifest),
            path,
        ) == Some(filename_identity(path)),
{
}

} // verus!
