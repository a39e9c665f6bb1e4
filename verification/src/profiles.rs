//! Compatibility profiles and their index.

use crate::clock::now_rfc3339;
use crate::error::ConfigError;
use crate::paths::{join, path_join};
use crate::string_map::StringMap;
use crate::text::{contains_string, strings_view};
use vstd::prelude::*;

verus! {

/// The kind of a profile.
#[derive(Debug, Clone, Copy, PartialEq, Eq, Structural)]
pub enum ProfileType {
    CompatibilityProfile,
    ModProfile,
    ServerTemplate,
}

impl Default for ProfileType {
    fn default() -> (kind: Self)
        ensures
            kind == ProfileType::CompatibilityProfile,
    {
        ProfileType::CompatibilityProfile
    }
}

/// What a rule of a profile does with the mods it matches.
#[derive(Debug, Clone, Copy, PartialEq, Eq, Structural)]
pub enum RuleAction {
    Ignore,
    Require,
    ClientOnly,
    ServerOnly,
    Warn,
}

impl Default for RuleAction {
    fn default() -> (action: Self)
        ensures
            action == RuleAction::Ignore,
    {
        RuleAction::Ignore
    }
}

/// One rule of a profile.
#[derive(Debug, Clone, PartialEq, Eq)]
pub struct CompatibilityRule {
    /// Mod identifier or pattern the rule applies to.
    pub mod_pattern: String,
    /// What to do with the mods that match.
    pub action: RuleAction,
    /// Why the rule exists.
    pub reason: Option<String>,
    /// Whether the pattern is a regular expression.
    pub is_regex: bool,
}

impl Default for CompatibilityRule {
    fn default() -> (rule: Self)
        ensures
            rule.mod_pattern@.len() == 0,
            rule.action == RuleAction::Ignore,
            rule.reason is None,
            !rule.is_regex,
    {
        CompatibilityRule {
            mod_pattern: String::new(),
            action: RuleAction::default(),
            reason: None,
            is_regex: false,
        }
    }
}

/// A compatibility profile.
#[derive(Debug, Clone, PartialEq, Eq)]
pub struct CompatibilityProfile {
    /// Name of the profile, its key in the index.
    pub name: String,
    /// Description.
    pub description: Option<String>,
    /// Version of the profile.
    pub version: String,
    /// Who made it.
    pub author: Option<String>,
    /// Game version the profile is for.
    pub minecraft_version: Option<String>,
    /// Mod loader the profile is for.
    pub mod_loader: Option<String>,
    /// Tags for categorization.
    pub tags: Vec<String>,
    /// The rules.
    pub rules: Vec<CompatibilityRule>,
    /// Whether the profile is built in and cannot be removed.
    pub system: bool,
    /// When the profile was created.
    pub created_at: Option<String>,
    /// When the profile was last changed.
    pub last_modified: Option<String>,
}

impl Default for CompatibilityProfile {
    fn default() -> (profile: Self)
        ensures
            profile.name@.len() == 0,
            profile.version@ == "1.0.0"@,
            profile.tags@.len() == 0,
            profile.rules@.len() == 0,
            !profile.system,
            profile.created_at is None,
            profile.last_modified is None,
    {
        CompatibilityProfile {
            name: String::new(),
            description: None,
            version: "1.0.0".to_owned(),
            author: None,
            minecraft_version: None,
            mod_loader: None,
            tags: Vec::new(),
            rules: Vec::new(),
            system: false,
            created_at: None,
            last_modified: None,
        }
    }
}

/// The index of the profiles, by name.
#[derive(Debug, Clone, PartialEq, Eq)]
pub struct ProfileIndex {
    /// Version of the index format.
    pub version: String,
    /// The profiles, by name.
    pub profiles: StringMap<CompatibilityProfile>,
    /// When the index was last changed.
    pub last_updated: Option<String>,
}

impl Default for ProfileIndex {
    fn default() -> (index: Self)
        ensures
            index.version@ == "1.0.0"@,
            index.profiles@ == Map::<Seq<char>, CompatibilityProfile>::empty(),
            index.last_updated is None,
    {
        ProfileIndex { version: "1.0.0".to_owned(), profiles: StringMap::new(), last_updated: None }
    }
}

/// Whether the profile carries the tag.
pub open spec fn has_tag(profile: CompatibilityProfile, tag: Seq<char>) -> bool {
    strings_view(profile.tags@).contains(tag)
}

/// Selects the profiles that carry the tag.
pub open spec fn tagged(tag: Seq<char>) -> spec_fn(CompatibilityProfile) -> bool {
    |profile: CompatibilityProfile| has_tag(profile, tag)
}

/// The profile as it is stored at the time `now`: stamped as changed, and
/// as created where it was never stamped.
pub open spec fn stamped(profile: CompatibilityProfile, now: String) -> CompatibilityProfile {
    CompatibilityProfile {
        created_at: if profile.created_at is None {
            Some(now)
        } else {
            profile.created_at
        },
        last_modified: Some(now),
        ..profile
    }
}

/// The built-in profile, created at `now`.
pub fn default_profile(now: String) -> (profile: CompatibilityProfile)
    ensures
        profile.name@ == "default"@,
        profile.system,
        profile.rules@.len() == 2,
        profile.rules@[0].mod_pattern@ == "optifine"@,
        profile.rules@[0].action == RuleAction::ClientOnly,
        !profile.rules@[0].is_regex,
        profile.rules@[1].mod_pattern@ == ".*-client$"@,
        profile.rules@[1].action == RuleAction::ClientOnly,
        profile.rules@[1].is_regex,
        profile.created_at == Some(now),
{
    let mut tags: Vec<String> = Vec::new();
    tags.push("default".to_owned());
    tags.push("builtin".to_owned());
    let mut rules: Vec<CompatibilityRule> = Vec::new();
    rules.push(
        CompatibilityRule {
            mod_pattern: "optifine".to_owned(),
            action: RuleAction::ClientOnly,
            reason: Some("OptiFine is client-only".to_owned()),
            is_regex: false,
        },
    );
    rules.push(
        CompatibilityRule {
            mod_pattern: ".*-client$".to_owned(),
            action: RuleAction::ClientOnly,
            reason: Some("Mods ending with -client are typically client-only".to_owned()),
            is_regex: true,
        },
    );
    CompatibilityProfile {
        name: "default".to_owned(),
        description: Some("Default compatibility profile with common rules".to_owned()),
        version: "1.0.0".to_owned(),
        author: Some("mc-link".to_owned()),
        minecraft_version: None,
        mod_loader: None,
        tags,
        rules,
        system: true,
        last_modified: Some(now.clone()),
        created_at: Some(now),
    }
}

/// The profiles of one configuration directory.
#[derive(Debug, Clone, PartialEq, Eq)]
pub struct ProfileManager {
    profiles_dir: String,
    index: ProfileIndex,
}

impl ProfileManager {
    /// The profiles, by name.
    pub closed spec fn profiles(&self) -> Map<Seq<char>, CompatibilityProfile> {
        self.index.profiles@
    }

    /// The names of the profiles, in the order in which they came in.
    pub closed spec fn names(&self) -> Seq<Seq<char>> {
        self.index.profiles.keys()
    }

    /// The profiles, each at the place of its name in [`Self::names`].
    pub closed spec fn in_order(&self) -> Seq<CompatibilityProfile> {
        self.index.profiles.values()
    }

    /// The directory that holds the profiles.
    pub closed spec fn directory(&self) -> Seq<char> {
        self.profiles_dir@
    }

    /// The index as it stands.
    pub closed spec fn stored_index(&self) -> ProfileIndex {
        self.index
    }

    /// The manager of the profiles in the directory `profiles` under
    /// `config_dir`, with the index `index`.
    pub fn with_index(config_dir: &str, index: ProfileIndex) -> (manager: Self)
        ensures
            manager.directory() == path_join(config_dir@, "profiles"@),
            manager.stored_index() == index,
            manager.profiles() == index.profiles@,
            manager.names() == index.profiles.keys(),
    {
        ProfileManager { profiles_dir: join(config_dir, "profiles"), index }
    }

    /// The index of the profiles.
    pub fn index(&self) -> (index: &ProfileIndex)
        ensures
            *index == self.stored_index(),
            index.profiles@ == self.profiles(),
            index.profiles.keys() == self.names(),
    {
        &self.index
    }

    /// Puts `index` in the place of the index.
    pub fn replace_index(&mut self, index: ProfileIndex)
        ensures
            final(self).directory() == old(self).directory(),
            final(self).stored_index() == index,
            final(self).profiles() == index.profiles@,
            final(self).names() == index.profiles.keys(),
    {
        self.index = index;
    }

    /// The profile with the name `name`.
    pub fn get_profile(&self, name: &str) -> (profile: Option<&CompatibilityProfile>)
        ensures
            match profile {
                Some(p) => self.profiles().contains_key(name@) && *p == self.profiles()[name@],
                None => !self.profiles().contains_key(name@),
            },
    {
        self.index.profiles.get(name)
    }

    /// The names of all profiles.
    pub fn list_profiles(&self) -> (names: Vec<String>)
        ensures
            strings_view(names@) == self.names(),
    {
        let n = self.index.profiles.len();
        let mut names: Vec<String> = Vec::new();
        let mut i: usize = 0;
        while i < n
            invariant
                i <= n,
                n == self.index.profiles.keys().len(),
                names.len() == i,
                forall|j: int| 0 <= j < i ==> (#[trigger] names[j])@ == self.index.profiles.keys()[j],
            decreases n - i,
        {
            names.push(self.index.profiles.key_at(i).clone());
            i += 1;
        }
        assert(strings_view(names@) =~= self.names());
        names
    }

    /// The profiles that carry the tag `tag`.
    pub fn get_profiles_by_tag(&self, tag: &str) -> (found: Vec<&CompatibilityProfile>)
        ensures
            found@.map_values(|p: &CompatibilityProfile| *p) == self.in_order().filter(tagged(tag@)),
    {
        let n = self.index.profiles.len();
        let wanted = tag.to_owned();
        let ghost all = self.index.profiles.values();
        let mut found: Vec<&CompatibilityProfile> = Vec::new();
        let mut i: usize = 0;
        proof {
            reveal(Seq::filter);
            assert(all.take(0).filter(tagged(tag@)) =~= Seq::<CompatibilityProfile>::empty());
            assert(found@.map_values(|p: &CompatibilityProfile| *p) =~= Seq::<
                CompatibilityProfile,
            >::empty());
        }
        while i < n
            invariant
                i <= n,
                n == all.len(),
                all == self.index.profiles.values(),
                n == self.index.profiles.keys().len(),
                wanted@ == tag@,
                found@.map_values(|p: &CompatibilityProfile| *p) == all.take(i as int).filter(
                    tagged(tag@),
                ),
            decreases n - i,
        {
            let profile = self.index.profiles.value_at(i);
            proof {
                assert(all.take(i as int + 1) =~= all.take(i as int).push(*profile));
                all.take(i as int).lemma_filter_push(*profile, tagged(tag@));
            }
            if contains_string(&profile.tags, &wanted) {
                let ghost before = found@.map_values(|p: &CompatibilityProfile| *p);
                found.push(profile);
                assert(found@.map_values(|p: &CompatibilityProfile| *p) =~= before.push(*profile));
            }
            i += 1;
        }
        assert(all.take(i as int) =~= all);
        found
    }

    /// Adds or replaces a profile at the time `now`: a profile that was
    /// never stamped is stamped as created, every profile as changed, and
    /// the index as updated.
    pub fn add_profile_at(&mut self, profile: CompatibilityProfile, now: String)
        ensures
            final(self).directory() == old(self).directory(),
            final(self).profiles() == old(self).profiles().insert(
                profile.name@,
                stamped(profile, now),
            ),
            final(self).stored_index().version == old(self).stored_index().version,
            final(self).stored_index().last_updated == Some(now),
    {
        let mut stamped = profile;
        if stamped.created_at.is_none() {
            stamped.created_at = Some(now.clone());
        }
        stamped.last_modified = Some(now.clone());
        let key = stamped.name.clone();
        self.index.profiles.insert(key, stamped);
        self.index.last_updated = Some(now);
    }

    /// Adds or replaces a profile at the time of the call: what
    /// [`Self::add_profile_at`] does with some timestamp.
    pub fn add_profile(&mut self, profile: CompatibilityProfile)
        ensures
            final(self).directory() == old(self).directory(),
            exists|now: String|
                final(self).profiles() == old(self).profiles().insert(
                    profile.name@,
                    #[trigger] stamped(profile, now),
                ),
    {
        let now = now_rfc3339();
        self.add_profile_at(profile, now);
    }

    /// Removes the profile with the name `name`. A name that stands for no
    /// profile and a built-in profile are refused.
    pub fn remove_profile(&mut self, name: &str) -> (result: Result<(), ConfigError>)
        ensures
            final(self).directory() == old(self).directory(),
            match result {
                Ok(_) => old(self).profiles().contains_key(name@) && !old(self).profiles()[name@].system && final(self).profiles() == old(self).profiles().remove(name@),
                Err(e) => final(self).profiles() == old(self).profiles() && (if !old(self).profiles().contains_key(name@) {
                    e is ProfileNotFound && e->ProfileNotFound_profile_name@ == name@
                } else {
                    old(self).profiles()[name@].system && e is InvalidConfig
                }),
            },
    {
        match self.index.profiles.get(name) {
            None => {
                return Err(ConfigError::ProfileNotFound { profile_name: name.to_owned() });
            },
            Some(profile) => {
                if profile.system {
                    return Err(ConfigError::invalid_config("profile.system", "Cannot remove system profile"));
                }
            },
        }
        self.index.profiles.remove(name);
        self.index.last_updated = Some(now_rfc3339());
        Ok(())
    }

    /// Installs the built-in profile where no profile exists. Returns
    /// whether it did.
    pub fn install_default_profiles(&mut self) -> (installed: bool)
        ensures
            final(self).directory() == old(self).directory(),
            installed == (old(self).profiles() == Map::<Seq<char>, CompatibilityProfile>::empty()),
            !installed ==> final(self).profiles() == old(self).profiles(),
            installed ==> final(self).profiles().dom() == set!["default"@] && final(self).profiles()["default"@].system,
    {
        if !self.index.profiles.is_empty() {
            return false;
        }
        let now = now_rfc3339();
        let profile = default_profile(now.clone());
        self.add_profile_at(profile, now);
        assert(self.profiles().dom() =~= set!["default"@]);
        true
    }

    /// The directory that holds the profiles.
    pub fn profiles_dir(&self) -> (dir: &str)
        ensures
            dir@ == self.directory(),
    {
        self.profiles_dir.as_str()
    }
}

} // verus!
