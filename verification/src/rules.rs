//! The compatibility check between a client inventory and a server inventory.

use crate::error::CompatError;
use crate::text::{contains_string, strings_view};
use crate::types::{mods_view, ModInfo, ModInfoView, ModSide};
use vstd::prelude::*;

verus! {

/// What a custom rule asks for.
#[derive(Debug, Clone, Copy, PartialEq, Eq, Structural)]
pub enum RuleType {
    /// Always ignore this mod.
    AlwaysIgnore,
    /// Require this mod on both sides.
    RequireBoth,
    /// Only allow on the client.
    ClientOnly,
    /// Only allow on the server.
    ServerOnly,
}

/// A custom rule for one mod.
#[derive(Debug, Clone, PartialEq, Eq)]
pub struct CompatRule {
    /// The mod this rule applies to.
    pub mod_id: String,
    /// What the rule asks for.
    pub rule_type: RuleType,
    /// Why the rule exists, for people.
    pub reason: String,
}

/// The mathematical content of a [`CompatRule`].
pub struct CompatRuleView {
    pub mod_id: Seq<char>,
    pub rule_type: RuleType,
    pub reason: Seq<char>,
}

impl View for CompatRule {
    type V = CompatRuleView;

    open spec fn view(&self) -> CompatRuleView {
        CompatRuleView { mod_id: self.mod_id@, rule_type: self.rule_type, reason: self.reason@ }
    }
}

/// Configuration of the compatibility check.
#[derive(Debug, Clone, PartialEq, Eq)]
pub struct CompatConfig {
    /// Mod identifiers that are always skipped.
    pub ignore_list: Vec<String>,
    /// Custom rules; for one mod the first rule counts.
    pub custom_rules: Vec<CompatRule>,
    /// Whether client-only mods found on the client are ignored.
    pub auto_ignore_client_only: bool,
    /// Whether server-only mods found on the server are ignored.
    pub auto_ignore_server_only: bool,
}

/// The mathematical content of a [`CompatConfig`].
pub struct CompatConfigView {
    pub ignore_set: Set<Seq<char>>,
    pub custom_rules: Seq<CompatRuleView>,
    pub auto_ignore_client_only: bool,
    pub auto_ignore_server_only: bool,
}

impl View for CompatConfig {
    type V = CompatConfigView;

    open spec fn view(&self) -> CompatConfigView {
        CompatConfigView {
            ignore_set: strings_view(self.ignore_list@).to_set(),
            custom_rules: self.custom_rules@.map_values(|r: CompatRule| r@),
            auto_ignore_client_only: self.auto_ignore_client_only,
            auto_ignore_server_only: self.auto_ignore_server_only,
        }
    }
}

impl Default for CompatConfig {
    fn default() -> (config: Self)
        ensures
            config@.ignore_set == Set::<Seq<char>>::empty(),
            config@.custom_rules == Seq::<CompatRuleView>::empty(),
            config@.auto_ignore_client_only,
            config@.auto_ignore_server_only,
    {
        let config = CompatConfig {
            ignore_list: Vec::new(),
            custom_rules: Vec::new(),
            auto_ignore_client_only: true,
            auto_ignore_server_only: true,
        };
        assert(config@.ignore_set =~= Set::<Seq<char>>::empty());
        assert(config@.custom_rules =~= Seq::<CompatRuleView>::empty());
        config
    }
}

/// A mod present on both sides in two different versions.
#[derive(Debug, Clone, PartialEq, Eq)]
pub struct VersionMismatch {
    /// Mod identifier.
    pub mod_id: String,
    /// Mod name, as the client has it.
    pub mod_name: String,
    /// Version on the client.
    pub client_version: String,
    /// Version on the server.
    pub server_version: String,
}

/// The mathematical content of a [`VersionMismatch`].
pub struct VersionMismatchView {
    pub mod_id: Seq<char>,
    pub mod_name: Seq<char>,
    pub client_version: Seq<char>,
    pub server_version: Seq<char>,
}

impl View for VersionMismatch {
    type V = VersionMismatchView;

    open spec fn view(&self) -> VersionMismatchView {
        VersionMismatchView {
            mod_id: self.mod_id@,
            mod_name: self.mod_name@,
            client_version: self.client_version@,
            server_version: self.server_version@,
        }
    }
}

/// The views of the mismatches in `list`, in order.
pub open spec fn mismatches_view(list: Seq<VersionMismatch>) -> Seq<VersionMismatchView> {
    list.map_values(|m: VersionMismatch| m@)
}

/// The outcome of a compatibility check.
#[derive(Debug, Clone, PartialEq)]
pub struct CompatResult {
    /// Mods the client has and the server lacks.
    pub missing_on_server: Vec<ModInfo>,
    /// Mods the server has and the client lacks.
    pub missing_on_client: Vec<ModInfo>,
    /// Mods present on both sides in different versions.
    pub version_mismatches: Vec<VersionMismatch>,
    /// Identifiers of the client mods that were ignored.
    pub ignored_mods: Vec<String>,
    /// Whether the two sides are compatible.
    pub is_compatible: bool,
}

/// The mathematical content of a [`CompatResult`].
pub struct CompatResultView {
    pub missing_on_server: Seq<ModInfoView>,
    pub missing_on_client: Seq<ModInfoView>,
    pub version_mismatches: Seq<VersionMismatchView>,
    pub ignored_mods: Seq<Seq<char>>,
    pub is_compatible: bool,
}

impl View for CompatResult {
    type V = CompatResultView;

    open spec fn view(&self) -> CompatResultView {
        CompatResultView {
            missing_on_server: mods_view(self.missing_on_server@),
            missing_on_client: mods_view(self.missing_on_client@),
            version_mismatches: mismatches_view(self.version_mismatches@),
            ignored_mods: strings_view(self.ignored_mods@),
            is_compatible: self.is_compatible,
        }
    }
}

/// The kind of the first rule in `rules` that names `id`, if one does.
pub open spec fn rule_for(rules: Seq<CompatRuleView>, id: Seq<char>) -> Option<RuleType>
    decreases rules.len(),
{
    if rules.len() == 0 {
        None
    } else if rules[0].mod_id == id {
        Some(rules[0].rule_type)
    } else {
        rule_for(rules.skip(1), id)
    }
}

/// The last mod in `mods` with identifier `id`, if there is one: in an
/// inventory that names an identifier twice, the later entry stands for it.
pub open spec fn find_mod(mods: Seq<ModInfoView>, id: Seq<char>) -> Option<ModInfoView>
    decreases mods.len(),
{
    if mods.len() == 0 {
        None
    } else if mods.last().id == id {
        Some(mods.last())
    } else {
        find_mod(mods.drop_last(), id)
    }
}

/// What the check finds for one mod of the client.
pub enum ClientFinding {
    /// The mod is skipped and recorded as ignored.
    Ignored,
    /// The server lacks the mod, or may not have it.
    MissingOnServer,
    /// The server has the mod in another version.
    Mismatch,
    /// The server has the mod and nothing is wrong.
    Clear,
}

/// What the check finds for the client mod `m` once no ignore entry and no
/// deciding rule has settled it.
pub open spec fn client_finding_by_side(
    m: ModInfoView,
    server: Seq<ModInfoView>,
    config: CompatConfigView,
) -> ClientFinding {
    if m.side == ModSide::Client && config.auto_ignore_client_only {
        ClientFinding::Ignored
    } else if m.side == ModSide::Server {
        ClientFinding::MissingOnServer
    } else {
        match find_mod(server, m.id) {
            None => ClientFinding::MissingOnServer,
            Some(s) => if m.version is Some && s.version is Some && m.version != s.version {
                ClientFinding::Mismatch
            } else {
                ClientFinding::Clear
            },
        }
    }
}

/// What the check finds for the client mod `m`.
pub open spec fn client_finding(
    m: ModInfoView,
    server: Seq<ModInfoView>,
    config: CompatConfigView,
) -> ClientFinding {
    if config.ignore_set.contains(m.id) {
        ClientFinding::Ignored
    } else {
        match rule_for(config.custom_rules, m.id) {
            Some(RuleType::AlwaysIgnore) | Some(RuleType::ClientOnly) => ClientFinding::Ignored,
            Some(RuleType::ServerOnly) => ClientFinding::MissingOnServer,
            _ => client_finding_by_side(m, server, config),
        }
    }
}

/// Whether the server mod `m` is reported as missing on the client.
pub open spec fn server_finding(
    m: ModInfoView,
    client: Seq<ModInfoView>,
    config: CompatConfigView,
) -> bool {
    if config.ignore_set.contains(m.id) || find_mod(client, m.id) is Some {
        false
    } else {
        match rule_for(config.custom_rules, m.id) {
            Some(RuleType::AlwaysIgnore) | Some(RuleType::ServerOnly) => false,
            Some(RuleType::ClientOnly) => true,
            _ => !(m.side == ModSide::Server && config.auto_ignore_server_only),
        }
    }
}

/// Selects the client mods that are ignored.
pub open spec fn is_ignored(server: Seq<ModInfoView>, config: CompatConfigView) -> spec_fn(
    ModInfoView,
) -> bool {
    |m: ModInfoView| client_finding(m, server, config) is Ignored
}

/// Selects the client mods that are missing on the server.
pub open spec fn is_missing_on_server(
    server: Seq<ModInfoView>,
    config: CompatConfigView,
) -> spec_fn(ModInfoView) -> bool {
    |m: ModInfoView| client_finding(m, server, config) is MissingOnServer
}

/// Selects the client mods that the server has in another version.
pub open spec fn is_mismatch(server: Seq<ModInfoView>, config: CompatConfigView) -> spec_fn(
    ModInfoView,
) -> bool {
    |m: ModInfoView| client_finding(m, server, config) is Mismatch
}

/// Selects the server mods that are missing on the client.
pub open spec fn is_missing_on_client(
    client: Seq<ModInfoView>,
    config: CompatConfigView,
) -> spec_fn(ModInfoView) -> bool {
    |m: ModInfoView| server_finding(m, client, config)
}

/// The mismatch record of the client mod `m`, which the server has in
/// another version.
pub open spec fn mismatch_of(m: ModInfoView, server: Seq<ModInfoView>) -> VersionMismatchView {
    VersionMismatchView {
        mod_id: m.id,
        mod_name: m.name,
        client_version: m.version->0,
        server_version: find_mod(server, m.id)->0.version->0,
    }
}

/// The result of checking the inventory `client` against the inventory
/// `server` under `config`: each list keeps the order of its inventory.
pub open spec fn check_result(
    client: Seq<ModInfoView>,
    server: Seq<ModInfoView>,
    config: CompatConfigView,
) -> CompatResultView {
    let missing_on_server = client.filter(is_missing_on_server(server, config));
    let missing_on_client = server.filter(is_missing_on_client(client, config));
    let version_mismatches = client.filter(is_mismatch(server, config)).map_values(
        |m: ModInfoView| mismatch_of(m, server),
    );
    CompatResultView {
        missing_on_server,
        missing_on_client,
        version_mismatches,
        ignored_mods: client.filter(is_ignored(server, config)).map_values(|m: ModInfoView| m.id),
        is_compatible: missing_on_server.len() == 0 && missing_on_client.len() == 0
            && version_mismatches.len() == 0,
    }
}

/// Looks up the first rule that names `id`.
pub fn find_rule(rules: &Vec<CompatRule>, id: &String) -> (found: Option<RuleType>)
    ensures
        found == rule_for(rules@.map_values(|r: CompatRule| r@), id@),
{
    let ghost all = rules@.map_values(|r: CompatRule| r@);
    let mut i: usize = 0;
    assert(all.skip(0) =~= all);
    while i < rules.len()
        invariant
            i <= rules.len(),
            all == rules@.map_values(|r: CompatRule| r@),
            rule_for(all, id@) == rule_for(all.skip(i as int), id@),
        decreases rules.len() - i,
    {
        if rules[i].mod_id == *id {
            return Some(rules[i].rule_type);
        }
        assert(all.skip(i as int).skip(1) =~= all.skip(i as int + 1));
        i += 1;
    }
    None
}

/// Looks up the mod that stands for `id` in `mods`.
pub fn lookup_mod<'a>(mods: &'a Vec<ModInfo>, id: &String) -> (found: Option<&'a ModInfo>)
    ensures
        match found {
            Some(m) => find_mod(mods_view(mods@), id@) == Some(m@),
            None => find_mod(mods_view(mods@), id@) is None,
        },
{
    let ghost all = mods_view(mods@);
    let mut i: usize = mods.len();
    assert(all.take(i as int) =~= all);
    while i > 0
        invariant
            i <= mods.len(),
            all == mods_view(mods@),
            find_mod(all, id@) == find_mod(all.take(i as int), id@),
        decreases i,
    {
        i -= 1;
        assert(all.take(i as int + 1).drop_last() =~= all.take(i as int));
        if mods[i].id == *id {
            return Some(&mods[i]);
        }
    }
    None
}

/// Checks the client's mods against the server's under `config`.
///
/// The client's mods are judged first, each by the ignore list, then by the
/// first custom rule that names it, then by its side, then against the
/// server's mod of the same identifier. The server's mods that the client
/// does not have are judged next in the same way. The two sides are
/// compatible when nothing is missing on either and no versions differ.
pub fn check_compatibility(
    client_mods: &Vec<ModInfo>,
    server_mods: &Vec<ModInfo>,
    config: &CompatConfig,
) -> (result: Result<CompatResult, CompatError>)
    ensures
        result is Ok,
        result->Ok_0@ == check_result(mods_view(client_mods@), mods_view(server_mods@), config@),
{
    let ghost client = mods_view(client_mods@);
    let ghost server = mods_view(server_mods@);
    let mut missing_on_server: Vec<ModInfo> = Vec::new();
    let mut missing_on_client: Vec<ModInfo> = Vec::new();
    let mut version_mismatches: Vec<VersionMismatch> = Vec::new();
    let mut ignored_mods: Vec<String> = Vec::new();

    let mut i: usize = 0;
    while i < client_mods.len()
        invariant
            i <= client_mods.len(),
            client == mods_view(client_mods@),
            server == mods_view(server_mods@),
            mods_view(missing_on_server@) == client.take(i as int).filter(
                is_missing_on_server(server, config@),
            ),
            mismatches_view(version_mismatches@) == client.take(i as int).filter(
                is_mismatch(server, config@),
            ).map_values(|m: ModInfoView| mismatch_of(m, server)),
            strings_view(ignored_mods@) == client.take(i as int).filter(
                is_ignored(server, config@),
            ).map_values(|m: ModInfoView| m.id),
        decreases client_mods.len() - i,
    {
        let client_mod = &client_mods[i];
        let ghost seen = client.take(i as int);
        proof {
            assert(client.take(i as int + 1) =~= seen.push(client_mod@));
            seen.lemma_filter_push(client_mod@, is_missing_on_server(server, config@));
            seen.lemma_filter_push(client_mod@, is_mismatch(server, config@));
            seen.lemma_filter_push(client_mod@, is_ignored(server, config@));
        }
        let finding = judge_client_mod(client_mod, server_mods, config);
        match finding {
            ClientOutcome::Ignored => {
                let ghost before = ignored_mods@;
                ignored_mods.push(client_mod.id.clone());
                assert(strings_view(ignored_mods@) =~= strings_view(before).push(client_mod.id@));
                assert(seen.filter(is_ignored(server, config@)).push(client_mod@).map_values(
                    |m: ModInfoView| m.id,
                ) =~= seen.filter(is_ignored(server, config@)).map_values(|m: ModInfoView| m.id).push(
                    client_mod.id@,
                ));
            },
            ClientOutcome::MissingOnServer => {
                let ghost before = missing_on_server@;
                missing_on_server.push(client_mod.clone());
                assert(mods_view(missing_on_server@) =~= mods_view(before).push(client_mod@));
            },
            ClientOutcome::Mismatch(mismatch) => {
                let ghost before = version_mismatches@;
                version_mismatches.push(mismatch);
                assert(mismatches_view(version_mismatches@) =~= mismatches_view(before).push(
                    mismatch_of(client_mod@, server),
                ));
                assert(seen.filter(is_mismatch(server, config@)).push(client_mod@).map_values(
                    |m: ModInfoView| mismatch_of(m, server),
                ) =~= seen.filter(is_mismatch(server, config@)).map_values(
                    |m: ModInfoView| mismatch_of(m, server),
                ).push(mismatch_of(client_mod@, server)));
            },
            ClientOutcome::Clear => {},
        }
        i += 1;
    }
    assert(client.take(i as int) =~= client);

    let mut j: usize = 0;
    while j < server_mods.len()
        invariant
            j <= server_mods.len(),
            client == mods_view(client_mods@),
            server == mods_view(server_mods@),
            mods_view(missing_on_client@) == server.take(j as int).filter(
                is_missing_on_client(client, config@),
            ),
        decreases server_mods.len() - j,
    {
        let server_mod = &server_mods[j];
        let ghost seen = server.take(j as int);
        proof {
            assert(server.take(j as int + 1) =~= seen.push(server_mod@));
            seen.lemma_filter_push(server_mod@, is_missing_on_client(client, config@));
        }
        if judge_server_mod(server_mod, client_mods, config) {
            let ghost before = missing_on_client@;
            missing_on_client.push(server_mod.clone());
            assert(mods_view(missing_on_client@) =~= mods_view(before).push(server_mod@));
        }
        j += 1;
    }
    assert(server.take(j as int) =~= server);

    let is_compatible = missing_on_server.len() == 0 && missing_on_client.len() == 0
        && version_mismatches.len() == 0;
    Ok(
        CompatResult {
            missing_on_server,
            missing_on_client,
            version_mismatches,
            ignored_mods,
            is_compatible,
        },
    )
}

/// What the check does with one mod of the client.
pub enum ClientOutcome {
    /// Record the mod as ignored.
    Ignored,
    /// Record the mod as missing on the server.
    MissingOnServer,
    /// Record the mismatch.
    Mismatch(VersionMismatch),
    /// Record nothing.
    Clear,
}

/// Judges one mod of the client against the server's mods.
pub fn judge_client_mod(m: &ModInfo, server_mods: &Vec<ModInfo>, config: &CompatConfig) -> (outcome:
    ClientOutcome)
    ensures
        match outcome {
            ClientOutcome::Ignored => client_finding(m@, mods_view(server_mods@), config@)
                is Ignored,
            ClientOutcome::MissingOnServer => client_finding(m@, mods_view(server_mods@), config@)
                is MissingOnServer,
            ClientOutcome::Mismatch(mismatch) => client_finding(
                m@,
                mods_view(server_mods@),
                config@,
            ) is Mismatch && mismatch@ == mismatch_of(m@, mods_view(server_mods@)),
            ClientOutcome::Clear => client_finding(m@, mods_view(server_mods@), config@) is Clear,
        },
{
    if contains_string(&config.ignore_list, &m.id) {
        return ClientOutcome::Ignored;
    }
    match find_rule(&config.custom_rules, &m.id) {
        Some(RuleType::AlwaysIgnore) | Some(RuleType::ClientOnly) => {
            return ClientOutcome::Ignored;
        },
        Some(RuleType::ServerOnly) => {
            return ClientOutcome::MissingOnServer;
        },
        _ => {},
    }
    if m.side == ModSide::Client && config.auto_ignore_client_only {
        return ClientOutcome::Ignored;
    }
    if m.side == ModSide::Server {
        return ClientOutcome::MissingOnServer;
    }
    match lookup_mod(server_mods, &m.id) {
        None => ClientOutcome::MissingOnServer,
        Some(server_mod) => {
            match (&m.version, &server_mod.version) {
                (Some(client_version), Some(server_version)) => {
                    if *client_version == *server_version {
                        ClientOutcome::Clear
                    } else {
                        ClientOutcome::Mismatch(
                            VersionMismatch {
                                mod_id: m.id.clone(),
                                mod_name: m.name.clone(),
                                client_version: client_version.clone(),
                                server_version: server_version.clone(),
                            },
                        )
                    }
                },
                _ => ClientOutcome::Clear,
            }
        },
    }
}

/// Judges one mod of the server against the client's mods: whether it is
/// reported as missing on the client.
pub fn judge_server_mod(m: &ModInfo, client_mods: &Vec<ModInfo>, config: &CompatConfig) -> (missing:
    bool)
    ensures
        missing == server_finding(m@, mods_view(client_mods@), config@),
{
    if contains_string(&config.ignore_list, &m.id) {
        return false;
    }
    if lookup_mod(client_mods, &m.id).is_some() {
        return false;
    }
    match find_rule(&config.custom_rules, &m.id) {
        Some(RuleType::AlwaysIgnore) | Some(RuleType::ServerOnly) => false,
        Some(RuleType::ClientOnly) => true,
        _ => !(m.side == ModSide::Server && config.auto_ignore_server_only),
    }
}

/// A selection selects nothing exactly where no element meets it.
proof fn lemma_filter_empty<A>(s: Seq<A>, p: spec_fn(A) -> bool)
    ensures
        s.filter(p).len() == 0 <==> forall|i: int| 0 <= i < s.len() ==> !p(#[trigger] s[i]),
    decreases s.len(),
{
    reveal(Seq::filter);
    if s.len() > 0 {
        let rest = s.drop_last();
        lemma_filter_empty(rest, p);
        if s.filter(p).len() == 0 {
            assert forall|i: int| 0 <= i < s.len() implies !p(#[trigger] s[i]) by {
                if i < rest.len() {
                    assert(rest[i] == s[i]);
                }
            }
        }
        if forall|i: int| 0 <= i < s.len() ==> !p(#[trigger] s[i]) {
            assert forall|i: int| 0 <= i < rest.len() implies !p(#[trigger] rest[i]) by {
                assert(rest[i] == s[i]);
            }
            assert(!p(s[s.len() - 1]));
        }
    }
}

/// The verdict does not depend on the order in which findings are listed:
/// the two sides are compatible exactly where every mod of the client is
/// ignored or in order and no mod of the server is missing on the client.
pub proof fn lemma_verdict(
    client: Seq<ModInfoView>,
    server: Seq<ModInfoView>,
    config: CompatConfigView,
)
    ensures
        check_result(client, server, config).is_compatible <==> (forall|i: int|
            0 <= i < client.len() ==> client_finding(#[trigger] client[i], server, config)
                is Ignored || client_finding(client[i], server, config) is Clear) && (forall|
            j: int,
        | 0 <= j < server.len() ==> !server_finding(#[trigger] server[j], client, config)),
{
    lemma_filter_empty(client, is_missing_on_server(server, config));
    lemma_filter_empty(client, is_mismatch(server, config));
    lemma_filter_empty(server, is_missing_on_client(client, config));
}

/// Whether no identifier occurs twice in `mods`.
pub open spec fn unique_ids(mods: Seq<ModInfoView>) -> bool {
    forall|i: int, j: int|
        0 <= i < mods.len() && 0 <= j < mods.len() && i != j ==> (#[trigger] mods[i]).id != (
        #[trigger] mods[j]).id
}

/// Whether two inventories hold the same mods, in whatever order.
pub open spec fn same_mods(a: Seq<ModInfoView>, b: Seq<ModInfoView>) -> bool {
    forall|m: ModInfoView| a.contains(m) <==> b.contains(m)
}

/// `find_mod` finds a mod of the inventory with the identifier, and finds
/// one wherever the inventory has one.
proof fn lemma_find_mod(mods: Seq<ModInfoView>, id: Seq<char>)
    ensures
        find_mod(mods, id) matches Some(m) ==> mods.contains(m) && m.id == id,
        find_mod(mods, id) is None ==> forall|i: int|
            0 <= i < mods.len() ==> (#[trigger] mods[i]).id != id,
    decreases mods.len(),
{
    if mods.len() > 0 {
        let rest = mods.drop_last();
        lemma_find_mod(rest, id);
        if mods.last().id == id {
            assert(mods[mods.len() - 1] == mods.last());
        } else {
            if find_mod(rest, id) is Some {
                let m = find_mod(rest, id)->0;
                let i = choose|i: int| 0 <= i < rest.len() && rest[i] == m;
                assert(mods[i] == m);
            } else {
                assert forall|i: int| 0 <= i < mods.len() implies (#[trigger] mods[i]).id
                    != id by {
                    if i < rest.len() {
                        assert(rest[i] == mods[i]);
                    }
                }
            }
        }
    }
}

/// In inventories without repeated identifiers that hold the same mods,
/// an identifier stands for the same mod.
proof fn lemma_find_mod_ignores_order(a: Seq<ModInfoView>, b: Seq<ModInfoView>, id: Seq<char>)
    requires
        unique_ids(a),
        unique_ids(b),
        same_mods(a, b),
    ensures
        find_mod(a, id) == find_mod(b, id),
{
    lemma_find_mod(a, id);
    lemma_find_mod(b, id);
    if find_mod(a, id) is Some {
        let m = find_mod(a, id)->0;
        assert(b.contains(m));
        let j = choose|j: int| 0 <= j < b.len() && b[j] == m;
        assert(b[j].id == id);
        let n = find_mod(b, id)->0;
        let k = choose|k: int| 0 <= k < b.len() && b[k] == n;
        if j != k {
            assert(b[j].id != b[k].id);
        }
    } else if find_mod(b, id) is Some {
        let n = find_mod(b, id)->0;
        assert(a.contains(n));
        let i = choose|i: int| 0 <= i < a.len() && a[i] == n;
        assert(a[i].id == id);
    }
}

/// The verdict does not depend on the order of the inventories: two
/// inventories of the client that hold the same mods, checked against two
/// inventories of the server that hold the same mods, are found compatible
/// or incompatible alike. Identifiers are unique within an inventory.
pub proof fn lemma_verdict_ignores_order(
    client: Seq<ModInfoView>,
    client_reordered: Seq<ModInfoView>,
    server: Seq<ModInfoView>,
    server_reordered: Seq<ModInfoView>,
    config: CompatConfigView,
)
    requires
        unique_ids(client),
        unique_ids(client_reordered),
        unique_ids(server),
        unique_ids(server_reordered),
        same_mods(client, client_reordered),
        same_mods(server, server_reordered),
    ensures
        check_result(client, server, config).is_compatible == check_result(
            client_reordered,
            server_reordered,
            config,
        ).is_compatible,
{
    lemma_verdict(client, server, config);
    lemma_verdict(client_reordered, server_reordered, config);
    assert forall|m: ModInfoView|
        client_finding(m, server, config) == client_finding(m, server_reordered, config) by {
        lemma_find_mod_ignores_order(server, server_reordered, m.id);
    }
    assert forall|m: ModInfoView|
        server_finding(m, client, config) == server_finding(m, client_reordered, config) by {
        lemma_find_mod_ignores_order(client, client_reordered, m.id);
    }
    let fine = |c: Seq<ModInfoView>, s: Seq<ModInfoView>|
        (forall|i: int|
            0 <= i < c.len() ==> client_finding(#[trigger] c[i], s, config) is Ignored
                || client_finding(c[i], s, config) is Clear) && (forall|j: int|
            0 <= j < s.len() ==> !server_finding(#[trigger] s[j], c, config));
    if fine(client, server) {
        assert forall|i: int| 0 <= i < client_reordered.len() implies client_finding(
            #[trigger] client_reordered[i],
            server_reordered,
            config,
        ) is Ignored || client_finding(client_reordered[i], server_reordered, config)
            is Clear by {
            let m = client_reordered[i];
            assert(client_reordered.contains(m));
            assert(client.contains(m));
            let k = choose|k: int| 0 <= k < client.len() && client[k] == m;
            assert(client_finding(client[k], server, config) == client_finding(
                m,
                server_reordered,
                config,
            ));
        }
        assert forall|j: int| 0 <= j < server_reordered.len() implies !server_finding(
            #[trigger] server_reordered[j],
            client_reordered,
            config,
        ) by {
            let m = server_reordered[j];
            assert(server_reordered.contains(m));
            assert(server.contains(m));
            let k = choose|k: int| 0 <= k < server.len() && server[k] == m;
            assert(server_finding(server[k], client, config) == server_finding(
                m,
                client_reordered,
                config,
            ));
        }
    }
    if fine(client_reordered, server_reordered) {
        assert forall|i: int| 0 <= i < client.len() implies client_finding(
            #[trigger] client[i],
            server,
            config,
        ) is Ignored || client_finding(client[i], server, config) is Clear by {
            let m = client[i];
            assert(client.contains(m));
            assert(client_reordered.contains(m));
            let k = choose|k: int| 0 <= k < client_reordered.len() && client_reordered[k] == m;
            assert(client_finding(client_reordered[k], server_reordered, config)
                == client_finding(m, server, config));
        }
        assert forall|j: int| 0 <= j < server.len() implies !server_finding(
            #[trigger] server[j],
            client,
            config,
        ) by {
            let m = server[j];
            assert(server.contains(m));
            assert(server_reordered.contains(m));
            let k = choose|k: int| 0 <= k < server_reordered.len() && server_reordered[k] == m;
            assert(server_finding(server_reordered[k], client_reordered, config)
                == server_finding(m, client, config));
        }
    }
}

} // verus!
