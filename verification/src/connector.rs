//! The transports that reach an installation, as far as they decide
//! anything without touching it.

use crate::servers::LocalConnection;
use crate::string_map::StringMap;
use crate::text::{
    chars_of, find_char_from, index_of_char, lines_of, lines_view, slice, split_lines, string_of,
    trim, trimmed,
};
use crate::paths::{
    display_stem, extension, join, path_extension, path_join, stem_or_unknown,
};
use crate::text::{str_eq, strings_view};
use crate::types::{mods_view, ModInfo, ModInfoView, ModLoader, ModSide};
use vstd::prelude::*;

verus! {

/// The transport to an installation on the local filesystem.
#[derive(Debug, Clone, PartialEq, Eq)]
pub struct LocalConnector {
    server_path: String,
    connected: bool,
}

impl LocalConnector {
    /// The directory of the installation.
    pub closed spec fn root(&self) -> Seq<char> {
        self.server_path@
    }

    /// Whether the transport counts as connected.
    pub closed spec fn connected(&self) -> bool {
        self.connected
    }

    /// The transport to the installation that `config` names; it starts
    /// out disconnected.
    pub fn new(config: &LocalConnection) -> (connector: Self)
        ensures
            connector.root() == config.path@,
            !connector.connected(),
    {
        LocalConnector { server_path: config.path.clone(), connected: false }
    }

    /// The directory of the installation.
    pub fn server_path(&self) -> (path: &str)
        ensures
            path@ == self.root(),
    {
        self.server_path.as_str()
    }

    /// Whether the transport counts as connected.
    pub fn is_connected(&self) -> (connected: bool)
        ensures
            connected == self.connected(),
    {
        self.connected
    }

    /// Records whether the transport is connected.
    pub fn set_connected(&mut self, connected: bool)
        ensures
            final(self).connected() == connected,
            final(self).root() == old(self).root(),
    {
        self.connected = connected;
    }

    /// Where the server's properties file lies.
    pub fn properties_file(&self) -> (path: String)
        ensures
            path@ == path_join(self.root(), "server.properties"@),
    {
        join(self.server_path.as_str(), "server.properties")
    }

    /// Where the mods directory lies.
    pub fn mods_dir(&self) -> (path: String)
        ensures
            path@ == path_join(self.root(), "mods"@),
    {
        join(self.server_path.as_str(), "mods")
    }
}

/// The kinds of transport there are.
#[derive(Debug, Clone, Copy, PartialEq, Eq, Structural)]
pub enum ConnectorKind {
    Local,
    Ftp,
}

impl ConnectorKind {
    /// The name of the kind of transport.
    pub fn connection_type(&self) -> (name: &'static str)
        ensures
            name@ == (match self {
                ConnectorKind::Local => "Local"@,
                ConnectorKind::Ftp => "FTP"@,
            }),
    {
        match self {
            ConnectorKind::Local => "Local",
            ConnectorKind::Ftp => "FTP",
        }
    }
}

/// The key and the value that one line of a properties file gives: what
/// stands before its first equals sign and what stands after it, both
/// without the whitespace around them. A blank line, a comment and a line
/// without an equals sign give nothing.
pub open spec fn property_entry(line: Seq<char>) -> Option<(Seq<char>, Seq<char>)> {
    let t = trimmed(line);
    if t.len() == 0 || t[0] == '#' || index_of_char(t, '=') >= t.len() {
        None
    } else {
        Some((trimmed(t.take(index_of_char(t, '='))), trimmed(t.skip(index_of_char(t, '=') + 1))))
    }
}

/// The properties that `lines` give: a key that occurs again gets the
/// later value.
pub open spec fn properties_of(lines: Seq<Seq<char>>) -> Map<Seq<char>, Seq<char>>
    decreases lines.len(),
{
    if lines.len() == 0 {
        Map::empty()
    } else {
        match property_entry(lines.last()) {
            Some((k, v)) => properties_of(lines.drop_last()).insert(k, v),
            None => properties_of(lines.drop_last()),
        }
    }
}

/// Whether `map` holds the properties `props`.
pub open spec fn holds_properties(map: Map<Seq<char>, String>, props: Map<Seq<char>, Seq<char>>) -> bool {
    &&& map.dom() == props.dom()
    &&& forall|k: Seq<char>| #[trigger] props.contains_key(k) ==> map[k]@ == props[k]
}

/// Reads the properties from the text of a properties file.
pub fn parse_properties(text: &str) -> (properties: StringMap<String>)
    ensures
        holds_properties(properties@, properties_of(lines_of(text@))),
{
    let chars = chars_of(text);
    let lines = split_lines(&chars);
    let ghost all = lines_view(lines@);
    let mut properties: StringMap<String> = StringMap::new();
    let mut i: usize = 0;
    assert(all.take(0) =~= Seq::<Seq<char>>::empty());
    assert(properties@.dom() =~= properties_of(all.take(0)).dom());
    while i < lines.len()
        invariant
            i <= lines.len(),
            all == lines_view(lines@),
            holds_properties(properties@, properties_of(all.take(i as int))),
        decreases lines.len() - i,
    {
        let ghost before = properties_of(all.take(i as int));
        let ghost old_map = properties@;
        proof {
            assert(all.take(i as int + 1).drop_last() =~= all.take(i as int));
            assert(all.take(i as int + 1).last() == lines[i as int]@);
        }
        let line = trim(&lines[i]);
        if line.len() > 0 && line[0] != '#' {
            let eq = find_char_from(&line, 0, '=');
            assert(line@.skip(0) =~= line@);
            if eq < line.len() {
                let before_eq = slice(&line, 0, eq);
                let after_eq = slice(&line, eq + 1, line.len());
                assert(before_eq@ =~= line@.take(eq as int));
                assert(after_eq@ =~= line@.skip(eq as int + 1));
                let key = string_of(&trim(&before_eq));
                let value = string_of(&trim(&after_eq));
                properties.insert(key, value);
                proof {
                    let after = before.insert(key@, value@);
                    assert(properties@.dom() =~= after.dom());
                    assert forall|k: Seq<char>| #[trigger] after.contains_key(k) implies properties@[k]@
                        == after[k] by {
                        if k != key@ {
                            assert(before.contains_key(k));
                            assert(old_map[k]@ == before[k]);
                        }
                    }
                }
            }
        }
        i += 1;
    }
    assert(all.take(i as int) =~= all);
    properties
}

/// The identity of a file of which nothing but its path is known: named
/// after the file, with no version.
pub open spec fn fallback_identity(path: Seq<char>) -> ModInfoView {
    ModInfoView {
        id: display_stem(path),
        name: display_stem(path),
        version: None,
        file_path: path,
        enabled: true,
        side: ModSide::Unknown,
        loader: ModLoader::Unknown,
        raw_metadata: Seq::empty(),
    }
}

/// The identity of a file of which nothing but its path is known.
pub fn fallback_mod_info(path: &str) -> (info: ModInfo)
    ensures
        info@ == fallback_identity(path@),
{
    let stem = stem_or_unknown(path);
    let info = ModInfo {
        id: stem.clone(),
        name: stem,
        version: None,
        file_path: path.to_owned(),
        enabled: true,
        side: ModSide::Unknown,
        loader: ModLoader::Unknown,
        raw_metadata: Vec::new(),
    };
    assert(info@.raw_metadata =~= Seq::empty());
    info
}

/// Selects the files with the extension `jar`, written exactly so.
pub open spec fn plain_jars() -> spec_fn(Seq<char>) -> bool {
    |path: Seq<char>| path_extension(path) == Some("jar"@)
}

/// The identity of a file of the mods directory of which only its path is known.
pub open spec fn listed_identity() -> spec_fn(Seq<char>) -> ModInfoView {
    |path: Seq<char>| fallback_identity(path)
}

/// The mods that a listing of the mods directory shows without a look
/// into the archives: one for each file with the extension `jar`, named
/// after the file.
pub fn scan_mods(files: &Vec<String>) -> (mods: Vec<ModInfo>)
    ensures
        mods_view(mods@) == strings_view(files@).filter(plain_jars()).map_values(listed_identity()),
{
    let ghost all = strings_view(files@);
    let mut mods: Vec<ModInfo> = Vec::new();
    let mut i: usize = 0;
    proof {
        reveal(Seq::filter);
        assert(all.take(0).filter(plain_jars()) =~= Seq::<Seq<char>>::empty());
        assert(mods_view(mods@) =~= all.take(0).filter(plain_jars()).map_values(
            listed_identity(),
        ));
    }
    while i < files.len()
        invariant
            i <= files.len(),
            all == strings_view(files@),
            mods_view(mods@) == all.take(i as int).filter(plain_jars()).map_values(
                listed_identity(),
            ),
        decreases files.len() - i,
    {
        proof {
            assert(all.take(i as int + 1) =~= all.take(i as int).push(files[i as int]@));
            all.take(i as int).lemma_filter_push(files[i as int]@, plain_jars());
        }
        let is_jar = match extension(files[i].as_str()) {
            Some(ext) => str_eq(ext.as_str(), "jar"),
            None => false,
        };
        if is_jar {
            let ghost before = mods_view(mods@);
            let ghost kept = all.take(i as int).filter(plain_jars());
            mods.push(fallback_mod_info(files[i].as_str()));
            assert(mods_view(mods@) =~= before.push(fallback_identity(files[i as int]@)));
            assert(kept.push(files[i as int]@).map_values(listed_identity()) =~= kept.map_values(
                listed_identity(),
            ).push(fallback_identity(files[i as int]@)));
        }
        i += 1;
    }
    assert(all.take(i as int) =~= all);
    mods
}

} // verus!
