use mc_link::error::CompatError;
use mc_link::jar::{
    detect_loader, extract_fabric_info, extract_jar_info, extract_manifest_info,
    extract_mcmod_info, extract_mods_toml_info, mcmod_holds_list, parse_fabric_side,
    parse_forge_side, read_jar_texts, read_manifest_version, Descriptor, EntryText,
    FabricModInfo, ForgeModInfo, ForgeModsToml, JarArchive, JarContents, McModDecoded,
    McModInfo,
};
use mc_link::types::{ModLoader, ModSide};
use std::io::Write;

fn forge_mod(id: &str, name: Option<&str>, version: &str, side: Option<&str>) -> ForgeModInfo {
    ForgeModInfo {
        mod_id: id.to_string(),
        display_name: name.map(|n| n.to_string()),
        version: version.to_string(),
        side: side.map(|s| s.to_string()),
    }
}

fn toml_descriptor(text: &str, mods: Vec<ForgeModInfo>) -> Descriptor<ForgeModsToml> {
    Descriptor::Text { text: text.to_string(), decoded: Some(ForgeModsToml { mods }) }
}

fn mcmod(id: &str, name: Option<&str>, version: &str) -> McModInfo {
    McModInfo {
        mod_id: id.to_string(),
        name: name.map(|n| n.to_string()),
        version: version.to_string(),
        description: None,
        authors: None,
    }
}

fn empty_contents() -> JarContents {
    JarContents {
        mods_toml: Descriptor::Missing,
        manifest: None,
        fabric: Descriptor::Missing,
        mcmod_root: Descriptor::Missing,
        mcmod_meta_inf: Descriptor::Missing,
    }
}

fn fabric_descriptor(environment: Option<&str>) -> Descriptor<FabricModInfo> {
    Descriptor::Text {
        text: "{\"schemaVersion\": 1, \"id\": \"sodium\", \"nested\": {\"a\": [1, 2]}}".to_string(),
        decoded: Some(FabricModInfo {
            id: "sodium".to_string(),
            name: Some("Sodium".to_string()),
            version: "0.5.8".to_string(),
            environment: environment.map(|e| e.to_string()),
        }),
    }
}

fn archive_bytes(entries: &[(&str, &[u8])]) -> Vec<u8> {
    let mut writer = zip::ZipWriter::new(std::io::Cursor::new(Vec::new()));
    let options = zip::write::SimpleFileOptions::default()
        .compression_method(zip::CompressionMethod::Stored);
    for (name, contents) in entries {
        writer.start_file(*name, options).unwrap();
        writer.write_all(contents).unwrap();
    }
    writer.finish().unwrap().into_inner()
}

#[test]
fn forge_sides_are_matched_exactly() {
    assert_eq!(parse_forge_side(&Some("CLIENT".to_string())), ModSide::Client);
    assert_eq!(parse_forge_side(&Some("SERVER".to_string())), ModSide::Server);
    assert_eq!(parse_forge_side(&Some("BOTH".to_string())), ModSide::Both);
    assert_eq!(parse_forge_side(&None), ModSide::Both);
    assert_eq!(parse_forge_side(&Some("client".to_string())), ModSide::Unknown);
    assert_eq!(parse_forge_side(&Some("".to_string())), ModSide::Unknown);
}

#[test]
fn fabric_environments_are_matched_exactly() {
    assert_eq!(parse_fabric_side(&Some("client".to_string())), ModSide::Client);
    assert_eq!(parse_fabric_side(&Some("server".to_string())), ModSide::Server);
    assert_eq!(parse_fabric_side(&Some("*".to_string())), ModSide::Both);
    assert_eq!(parse_fabric_side(&None), ModSide::Both);
    assert_eq!(parse_fabric_side(&Some("CLIENT".to_string())), ModSide::Unknown);
}

#[test]
fn loader_markers_are_found_in_priority() {
    assert_eq!(detect_loader("modLoader=\"javafml\"\nforge"), ModLoader::NeoForge);
    assert_eq!(detect_loader("modLoader=\"lowcodefml\""), ModLoader::NeoForge);
    assert_eq!(detect_loader("[[dependencies.x]]\nmodId=\"forge\""), ModLoader::Forge);
    assert_eq!(detect_loader("net.minecraftforge"), ModLoader::Forge);
    assert_eq!(detect_loader("modLoader=\"kotlin\""), ModLoader::Unknown);
    assert_eq!(detect_loader(""), ModLoader::Unknown);
}

#[test]
fn manifest_version_is_the_first_implementation_version() {
    let text = "Manifest-Version: 1.0\r\nImplementation-Version:  1.2.3 \r\nImplementation-Version: 9\n";
    assert_eq!(read_manifest_version(text), Some("1.2.3".to_string()));
    assert_eq!(read_manifest_version("Implementation-Version:1.0\n"), None);
    assert_eq!(read_manifest_version(" Implementation-Version: 1.0\n"), None);
    assert_eq!(read_manifest_version("Implementation-Version: "), Some("".to_string()));
    assert_eq!(read_manifest_version(""), None);
}

#[test]
fn mods_toml_yields_the_first_mod() {
    let descriptor = toml_descriptor(
        "modLoader=\"javafml\"",
        vec![
            forge_mod("create", Some("Create"), "0.5.1", Some("BOTH")),
            forge_mod("flywheel", None, "1.0", None),
        ],
    );
    let info = extract_mods_toml_info(&descriptor, &None, "mods/create.jar").unwrap();
    assert_eq!(info.id, "create");
    assert_eq!(info.name, "Create");
    assert_eq!(info.version.as_deref(), Some("0.5.1"));
    assert_eq!(info.file_path, "mods/create.jar");
    assert!(info.enabled);
    assert_eq!(info.side, ModSide::Both);
    assert_eq!(info.loader, ModLoader::NeoForge);
    assert!(info.raw_metadata.is_empty());
}

#[test]
fn mods_toml_without_markers_has_an_unknown_loader() {
    let descriptor =
        toml_descriptor("license=\"MIT\"", vec![forge_mod("plain", None, "1", Some("CLIENT"))]);
    let info = extract_mods_toml_info(&descriptor, &None, "plain.jar").unwrap();
    assert_eq!(info.name, "plain");
    assert_eq!(info.loader, ModLoader::Unknown);
    assert_eq!(info.side, ModSide::Client);
}

#[test]
fn the_version_placeholder_is_resolved_by_the_manifest() {
    let descriptor = toml_descriptor(
        "modLoader=\"javafml\"",
        vec![forge_mod("jei", Some("JEI"), " ${file.jarVersion} ", None)],
    );
    let manifest = Some("Implementation-Title: jei\nImplementation-Version: 15.2.0.27\n".to_string());
    let info = extract_mods_toml_info(&descriptor, &manifest, "jei.jar").unwrap();
    assert_eq!(info.version.as_deref(), Some("15.2.0.27"));
    let info = extract_mods_toml_info(&descriptor, &None, "jei.jar").unwrap();
    assert_eq!(info.version.as_deref(), Some("unknown"));
    let manifest = Some("Implementation-Title: jei\n".to_string());
    let info = extract_mods_toml_info(&descriptor, &manifest, "jei.jar").unwrap();
    assert_eq!(info.version.as_deref(), Some("unknown"));
}

#[test]
fn mods_toml_failures_are_told_apart() {
    let missing: Descriptor<ForgeModsToml> = Descriptor::Missing;
    assert!(matches!(
        extract_mods_toml_info(&missing, &None, "a.jar"),
        Err(CompatError::MetadataError { .. })
    ));
    let unreadable: Descriptor<ForgeModsToml> = Descriptor::Unreadable;
    assert!(matches!(extract_mods_toml_info(&unreadable, &None, "a.jar"), Err(CompatError::Io(_))));
    let undecodable: Descriptor<ForgeModsToml> =
        Descriptor::Text { text: "mods = 3".to_string(), decoded: None };
    assert!(matches!(
        extract_mods_toml_info(&undecodable, &None, "a.jar"),
        Err(CompatError::MetadataError { .. })
    ));
    let empty = toml_descriptor("mods = []", vec![]);
    assert!(matches!(
        extract_mods_toml_info(&empty, &None, "a.jar"),
        Err(CompatError::MetadataError { .. })
    ));
}

#[test]
fn fabric_keeps_every_attribute() {
    let info = extract_fabric_info(&fabric_descriptor(Some("client")), "sodium.jar").unwrap();
    assert_eq!(info.id, "sodium");
    assert_eq!(info.name, "Sodium");
    assert_eq!(info.version.as_deref(), Some("0.5.8"));
    assert_eq!(info.side, ModSide::Client);
    assert_eq!(info.loader, ModLoader::Fabric);
    assert_eq!(info.raw_metadata.len(), 3);
    let mut keys: Vec<&str> = info.raw_metadata.iter().map(|a| a.key.as_str()).collect();
    keys.sort();
    assert_eq!(keys, vec!["id", "nested", "schemaVersion"]);
    for attribute in &info.raw_metadata {
        let expected = match attribute.key.as_str() {
            "id" => serde_json::Value::String("sodium".to_string()),
            "schemaVersion" => serde_json::Value::from(1),
            _ => serde_json::from_str("{\"a\": [1, 2]}").unwrap(),
        };
        assert_eq!(attribute.value, expected);
    }
    let info = extract_fabric_info(&fabric_descriptor(Some("weird")), "sodium.jar").unwrap();
    assert_eq!(info.side, ModSide::Unknown);
    let info = extract_fabric_info(&fabric_descriptor(None), "sodium.jar").unwrap();
    assert_eq!(info.side, ModSide::Both);
}

#[test]
fn fabric_failures_are_told_apart() {
    let missing: Descriptor<FabricModInfo> = Descriptor::Missing;
    assert!(matches!(extract_fabric_info(&missing, "a.jar"), Err(CompatError::Zip(_))));
    let unreadable: Descriptor<FabricModInfo> = Descriptor::Unreadable;
    assert!(matches!(extract_fabric_info(&unreadable, "a.jar"), Err(CompatError::Io(_))));
    let undecodable: Descriptor<FabricModInfo> =
        Descriptor::Text { text: "{".to_string(), decoded: None };
    assert!(matches!(extract_fabric_info(&undecodable, "a.jar"), Err(CompatError::Json(_))));
    let no_json = match fabric_descriptor(None) {
        Descriptor::Text { decoded, .. } => Descriptor::Text { text: "{".to_string(), decoded },
        other => other,
    };
    assert!(matches!(extract_fabric_info(&no_json, "a.jar"), Err(CompatError::Json(_))));
    let no_object = match fabric_descriptor(None) {
        Descriptor::Text { decoded, .. } => Descriptor::Text { text: "[1]".to_string(), decoded },
        other => other,
    };
    assert!(extract_fabric_info(&no_object, "a.jar").unwrap().raw_metadata.is_empty());
}

#[test]
fn legacy_descriptor_is_an_object_or_a_list() {
    assert!(mcmod_holds_list(" \n\t[ {} ]"));
    assert!(mcmod_holds_list("[]"));
    assert!(!mcmod_holds_list("{ \"modid\": \"a\" }"));
    assert!(!mcmod_holds_list(""));
    assert!(!mcmod_holds_list("  "));

    let list = Descriptor::Text {
        text: " [ ... ]".to_string(),
        decoded: Some(McModDecoded {
            single: Some(mcmod("wrong", None, "0")),
            list: Some(vec![mcmod("buildcraft", Some("BuildCraft"), "7.1"), mcmod("x", None, "1")]),
        }),
    };
    let info = extract_mcmod_info(&list, &Descriptor::Missing, "bc.jar").unwrap();
    assert_eq!(info.id, "buildcraft");
    assert_eq!(info.name, "BuildCraft");
    assert_eq!(info.version.as_deref(), Some("7.1"));
    assert_eq!(info.side, ModSide::Both);
    assert_eq!(info.loader, ModLoader::Forge);

    let single = Descriptor::Text {
        text: "{ ... }".to_string(),
        decoded: Some(McModDecoded { single: Some(mcmod("ic2", None, "2.8")), list: None }),
    };
    let info = extract_mcmod_info(&Descriptor::Missing, &single, "ic2.jar").unwrap();
    assert_eq!(info.id, "ic2");
    assert_eq!(info.name, "ic2");
}

#[test]
fn legacy_descriptor_at_the_root_counts_first() {
    let root = Descriptor::Text {
        text: "{}".to_string(),
        decoded: Some(McModDecoded { single: Some(mcmod("root", None, "1")), list: None }),
    };
    let meta = Descriptor::Text {
        text: "{}".to_string(),
        decoded: Some(McModDecoded { single: Some(mcmod("meta", None, "1")), list: None }),
    };
    assert_eq!(extract_mcmod_info(&root, &meta, "a.jar").unwrap().id, "root");
    let unreadable: Descriptor<McModDecoded> = Descriptor::Unreadable;
    assert!(matches!(extract_mcmod_info(&unreadable, &meta, "a.jar"), Err(CompatError::Io(_))));
    let empty_list = Descriptor::Text {
        text: "[]".to_string(),
        decoded: Some(McModDecoded { single: None, list: Some(vec![]) }),
    };
    assert!(matches!(
        extract_mcmod_info(&empty_list, &meta, "a.jar"),
        Err(CompatError::MetadataError { .. })
    ));
    assert!(matches!(
        extract_mcmod_info(&Descriptor::Missing, &Descriptor::Missing, "a.jar"),
        Err(CompatError::MetadataError { .. })
    ));
}

#[test]
fn container_manifest_gives_name_version_and_identifier() {
    let text = "Manifest-Version: 1.0\n\nImplementation-Title: My Cool-Mod\nimplementation-version : 2.0 \nBundle-Name: other\nNo colon here\n";
    let info = extract_manifest_info(&Some(text.to_string()), "cool.jar").unwrap();
    assert_eq!(info.id, "my_cool_mod");
    assert_eq!(info.name, "My Cool-Mod");
    assert_eq!(info.version.as_deref(), Some("2.0"));
    assert_eq!(info.file_path, "cool.jar");
    assert_eq!(info.side, ModSide::Both);
    assert_eq!(info.loader, ModLoader::Unknown);
}

#[test]
fn container_manifest_falls_back_through_its_titles() {
    let text = "Specification-Title: Spec\nBundle-Name: Bundle\nBundle-Version: 3\n";
    let info = extract_manifest_info(&Some(text.to_string()), "a.jar").unwrap();
    assert_eq!(info.name, "Spec");
    assert_eq!(info.version.as_deref(), Some("3"));
    let text = "Bundle-Name: Bundle\n";
    let info = extract_manifest_info(&Some(text.to_string()), "a.jar").unwrap();
    assert_eq!(info.name, "Bundle");
    assert_eq!(info.id, "bundle");
    assert_eq!(info.version.as_deref(), Some("unknown"));
    let text = "Implementation-Version: 1\nImplementation-Version: 2\n";
    let info = extract_manifest_info(&Some(text.to_string()), "a.jar").unwrap();
    assert_eq!(info.name, "unknown");
    assert_eq!(info.version.as_deref(), Some("2"));
}

#[test]
fn container_manifest_without_name_and_version_yields_nothing() {
    let text = "Manifest-Version: 1.0\nCreated-By: someone\n";
    assert!(matches!(
        extract_manifest_info(&Some(text.to_string()), "a.jar"),
        Err(CompatError::MetadataError { .. })
    ));
    assert!(matches!(extract_manifest_info(&None, "a.jar"), Err(CompatError::Zip(_))));
}

#[test]
fn the_first_descriptor_that_yields_decides() {
    let mut contents = empty_contents();
    contents.manifest = Some("Implementation-Title: From Manifest\n".to_string());
    contents.mcmod_root = Descriptor::Text {
        text: "{}".to_string(),
        decoded: Some(McModDecoded { single: Some(mcmod("legacy", None, "1")), list: None }),
    };
    contents.fabric = fabric_descriptor(None);
    contents.mods_toml =
        toml_descriptor("javafml", vec![forge_mod("modern", None, "1", None)]);
    let path = "downloads/thing.jar";
    let archive = JarArchive::Opened(contents.clone());
    assert_eq!(extract_jar_info(path, &archive).unwrap().id, "modern");

    contents.mods_toml = Descriptor::Text { text: "broken".to_string(), decoded: None };
    let archive = JarArchive::Opened(contents.clone());
    assert_eq!(extract_jar_info(path, &archive).unwrap().id, "sodium");

    contents.fabric = Descriptor::Unreadable;
    let archive = JarArchive::Opened(contents.clone());
    assert_eq!(extract_jar_info(path, &archive).unwrap().id, "legacy");

    contents.mcmod_root = Descriptor::Missing;
    let archive = JarArchive::Opened(contents.clone());
    assert_eq!(extract_jar_info(path, &archive).unwrap().id, "from_manifest");

    contents.manifest = Some("Manifest-Version: 1.0\n".to_string());
    let archive = JarArchive::Opened(contents);
    let info = extract_jar_info(path, &archive).unwrap();
    assert_eq!(info.id, "thing");
    assert_eq!(info.name, "thing");
    assert_eq!(info.version.as_deref(), Some("unknown"));
    assert_eq!(info.file_path, path);
    assert!(info.enabled);
    assert_eq!(info.side, ModSide::Unknown);
    assert_eq!(info.loader, ModLoader::Unknown);
}

#[test]
fn an_archive_that_cannot_be_opened_is_an_error() {
    let unreadable = JarArchive::Unreadable { reason: "permission denied".to_string() };
    assert_eq!(
        extract_jar_info("a.jar", &unreadable),
        Err(CompatError::Io("permission denied".to_string()))
    );
    let malformed = JarArchive::Malformed { reason: "invalid Zip archive".to_string() };
    assert_eq!(
        extract_jar_info("a.jar", &malformed),
        Err(CompatError::Zip("invalid Zip archive".to_string()))
    );
}

#[test]
fn a_path_without_a_file_name_is_named_unknown() {
    let info = extract_jar_info("", &JarArchive::Opened(empty_contents())).unwrap();
    assert_eq!(info.id, "unknown");
    assert_eq!(info.name, "unknown");
}

#[test]
fn the_texts_of_an_archive_are_read() {
    let bytes = archive_bytes(&[
        ("META-INF/MANIFEST.MF", b"Implementation-Title: Zipped\n"),
        ("fabric.mod.json", b"{\"id\": \"zipped\"}"),
        ("mcmod.info", &[0xff, 0xfe, 0x00]),
    ]);
    let texts = read_jar_texts(&bytes).unwrap();
    assert_eq!(texts.mods_toml, EntryText::Missing);
    assert_eq!(texts.manifest, EntryText::Text("Implementation-Title: Zipped\n".to_string()));
    assert_eq!(texts.fabric, EntryText::Text("{\"id\": \"zipped\"}".to_string()));
    assert_eq!(texts.mcmod_root, EntryText::Unreadable);
    assert_eq!(texts.mcmod_meta_inf, EntryText::Missing);

    let contents = JarContents::assemble(texts, None, None, None, None);
    assert_eq!(contents.mods_toml, Descriptor::Missing);
    assert_eq!(contents.mcmod_root, Descriptor::Unreadable);
    assert_eq!(contents.manifest.as_deref(), Some("Implementation-Title: Zipped\n"));
    let info = extract_jar_info("mods/zipped.jar", &JarArchive::Opened(contents)).unwrap();
    assert_eq!(info.id, "zipped");
    assert_eq!(info.name, "Zipped");

    assert!(matches!(read_jar_texts(b"not an archive"), Err(CompatError::Zip(_))));
    assert!(matches!(read_jar_texts(b""), Err(CompatError::Zip(_))));
    let empty = archive_bytes(&[]);
    let texts = read_jar_texts(&empty).unwrap();
    assert_eq!(texts.manifest, EntryText::Missing);
}
