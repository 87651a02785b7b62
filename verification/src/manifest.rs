//! The manifest data model: installed-mod records, profiles and the
//! persisted configuration root, with the uniqueness and existence
//! invariants their mutation operations keep.

use vstd::prelude::*;
use vstd::string::StringExecFns;

use crate::errors::RinthaError;

verus! {

/// A mod identifier as issued by the catalog.
#[derive(Debug)]
pub struct ModID(pub String);

impl Clone for ModID {
    fn clone(&self) -> (res: Self)
        ensures
            res == *self,
    {
        ModID(self.0.clone())
    }
}

/// A version identifier as issued by the catalog.
#[derive(Debug)]
pub struct VersionID(pub String);

impl Clone for VersionID {
    fn clone(&self) -> (res: Self)
        ensures
            res == *self,
    {
        VersionID(self.0.clone())
    }
}

/// The release classification of a published mod version.
#[derive(Debug, Clone, Copy, PartialEq, Eq, Structural)]
pub enum ModReleaseType {
    Alpha,
    Beta,
    Release,
}

/// The durable record of one installed mod version within a profile.
/// Created only by a committed install transaction and never mutated in place.
#[derive(Debug)]
pub struct ConfigMod {
    pub id: ModID,
    pub title: String,
    pub author_username: String,
    pub small_description: String,
    pub latest_mc_ver: String,
    pub license: String,
    pub sha1: String,
    pub installed_version_id: VersionID,
    pub installed_version_number: String,
    pub installed_version_type: ModReleaseType,
    pub supported_game_versions: Vec<String>,
    pub current_filename: String,
}

impl Clone for ConfigMod {
    fn clone(&self) -> (res: Self)
        ensures
            res.id == self.id,
            res.title == self.title,
            res.author_username == self.author_username,
            res.small_description == self.small_description,
            res.latest_mc_ver == self.latest_mc_ver,
            res.license == self.license,
            res.sha1 == self.sha1,
            res.installed_version_id == self.installed_version_id,
            res.installed_version_number == self.installed_version_number,
            res.installed_version_type == self.installed_version_type,
            res.supported_game_versions@ == self.supported_game_versions@,
            res.current_filename == self.current_filename,
    {
        let supported_game_versions = self.supported_game_versions.clone();
        proof {
            assert(supported_game_versions@ =~= self.supported_game_versions@);
        }
        ConfigMod {
            id: self.id.clone(),
            title: self.title.clone(),
            author_username: self.author_username.clone(),
            small_description: self.small_description.clone(),
            latest_mc_ver: self.latest_mc_ver.clone(),
            license: self.license.clone(),
            sha1: self.sha1.clone(),
            installed_version_id: self.installed_version_id.clone(),
            installed_version_number: self.installed_version_number.clone(),
            installed_version_type: self.installed_version_type,
            supported_game_versions,
            current_filename: self.current_filename.clone(),
        }
    }
}

/// Whether `s` holds an entry whose identifier reads `id`.
pub open spec fn has_mod_id(s: Seq<ConfigMod>, id: Seq<char>) -> bool {
    exists|i: int| 0 <= i < s.len() && (#[trigger] s[i]).id.0@ == id
}

/// The manifest invariant on a mod sequence: at most one entry per distinct
/// mod identifier.
pub open spec fn mods_unique(s: Seq<ConfigMod>) -> bool {
    forall|i: int, j: int|
        0 <= i < j < s.len() ==> (#[trigger] s[i]).id.0@ != (#[trigger] s[j]).id.0@
}

/// A container of manifest entries that can be scanned for a duplicate
/// identifier.
pub trait ModChecking {
    /// The entries held by this container.
    spec fn entries(&self) -> Seq<ConfigMod>;

    /// Whether an entry with `mod_manifest`'s identifier is already present.
    fn contains_mod(&self, mod_manifest: ConfigMod) -> (r: bool)
        ensures
            r == has_mod_id(self.entries(), mod_manifest.id.0@),
    ;
}

impl ModChecking for Vec<ConfigMod> {
    open spec fn entries(&self) -> Seq<ConfigMod> {
        self@
    }

    fn contains_mod(&self, mod_manifest: ConfigMod) -> (r: bool) {
        let mut i: usize = 0;
        while i < self.len()
            invariant
                i <= self@.len(),
                forall|j: int| 0 <= j < i ==> (#[trigger] self@[j]).id.0@ != mod_manifest.id.0@,
            decreases self@.len() - i,
        {
            if self[i].id.0 == mod_manifest.id.0 {
                return true;
            }
            i += 1;
        }
        false
    }
}

/// Whether some entry of `v` carries the identifier `id`.
pub fn mods_has_id(v: &Vec<ConfigMod>, id: &ModID) -> (r: bool)
    ensures
        r == has_mod_id(v@, id.0@),
{
    let mut i: usize = 0;
    while i < v.len()
        invariant
            i <= v@.len(),
            forall|j: int| 0 <= j < i ==> (#[trigger] v@[j]).id.0@ != id.0@,
        decreases v@.len() - i,
    {
        if v[i].id.0 == id.0 {
            return true;
        }
        i += 1;
    }
    false
}

/// A named, isolated set of installed mods. `mods` being absent means no mod
/// was ever installed, which the manifest keeps distinct from an empty list.
#[derive(Debug)]
pub struct Profile {
    pub name: String,
    pub mods: Option<Vec<ConfigMod>>,
}

impl Profile {
    /// The mod sequence of this profile; absent counts as empty.
    pub open spec fn mods_seq(&self) -> Seq<ConfigMod> {
        match self.mods {
            Option::None => Seq::empty(),
            Option::Some(v) => v@,
        }
    }

    /// The manifest invariant: at most one entry per distinct mod identifier.
    pub open spec fn wf(&self) -> bool {
        mods_unique(self.mods_seq())
    }

    /// Append `cmod` unless an entry with its identifier is already present;
    /// on failure the profile is left exactly as it was.
    pub fn add_mod(&mut self, cmod: ConfigMod) -> (r: Result<(), RinthaError>)
        ensures
            match r {
                Ok(()) => {
                    &&& !has_mod_id(old(self).mods_seq(), cmod.id.0@)
                    &&& final(self).mods_seq() == old(self).mods_seq().push(cmod)
                    &&& final(self).mods is Some
                    &&& final(self).name == old(self).name
                },
                Err(e) => {
                    &&& e == RinthaError::ModAlreadyInstalled
                    &&& has_mod_id(old(self).mods_seq(), cmod.id.0@)
                    &&& *final(self) == *old(self)
                },
            },
            old(self).wf() ==> final(self).wf(),
    {
        match self.mods.take() {
            Some(mut v) => {
                if v.contains_mod(cmod.clone()) {
                    self.mods = Some(v);
                    Err(RinthaError::ModAlreadyInstalled)
                } else {
                    v.push(cmod);
                    self.mods = Some(v);
                    proof {
                        lemma_push_fresh_id_keeps_wf(*old(self), *self, cmod);
                    }
                    Ok(())
                }
            },
            None => {
                let mut v: Vec<ConfigMod> = Vec::new();
                v.push(cmod);
                self.mods = Some(v);
                proof {
                    assert(final(self).mods_seq() =~= old(self).mods_seq().push(cmod));
                }
                Ok(())
            },
        }
    }

    /// Excise the first (by the invariant: only) entry whose identifier equals
    /// `mod_id` and return it; fail with `ModNotFound`, leaving the profile
    /// untouched, when no entry has that identifier.
    pub fn remove_mod(&mut self, mod_id: &ModID) -> (r: Result<ConfigMod, RinthaError>)
        ensures
            r is Ok <==> has_mod_id(old(self).mods_seq(), mod_id.0@),
            match r {
                Ok(removed) => {
                    &&& removed.id.0@ == mod_id.0@
                    &&& exists|i: int|
                        {
                            &&& 0 <= i < old(self).mods_seq().len()
                            &&& (#[trigger] old(self).mods_seq()[i]) == removed
                            &&& forall|j: int|
                                0 <= j < i ==> (#[trigger] old(self).mods_seq()[j]).id.0@
                                    != mod_id.0@
                            &&& final(self).mods_seq() == old(self).mods_seq().remove(i)
                        }
                    &&& old(self).wf() ==> !has_mod_id(final(self).mods_seq(), mod_id.0@)
                    &&& final(self).name == old(self).name
                },
                Err(e) => e == RinthaError::ModNotFound && *final(self) == *old(self),
            },
            old(self).wf() ==> final(self).wf(),
    {
        match self.mods.take() {
            Some(mut v) => {
                let mut i: usize = 0;
                while i < v.len()
                    invariant
                        i <= v@.len(),
                        old(self).mods == Some(v),
                        self.name == old(self).name,
                        self.mods is None,
                        forall|j: int| 0 <= j < i ==> (#[trigger] v@[j]).id.0@ != mod_id.0@,
                    decreases v@.len() - i,
                {
                    if v[i].id.0 == mod_id.0 {
                        let ghost orig = v@;
                        let removed = v.remove(i);
                        self.mods = Some(v);
                        proof {
                            assert(old(self).mods_seq() == orig);
                            assert(old(self).mods_seq()[i as int] == removed);
                            assert(removed.id.0@ == mod_id.0@);
                            assert(self.mods_seq() == orig.remove(i as int));
                            if old(self).wf() {
                                lemma_remove_keeps_unique(orig, i as int, mod_id.0@);
                            }
                        }
                        return Ok(removed);
                    }
                    i += 1;
                }
                self.mods = Some(v);
                Err(RinthaError::ModNotFound)
            },
            None => {
                self.mods = None;
                Err(RinthaError::ModNotFound)
            },
        }
    }
}

impl Default for Profile {
    /// The profile a fresh configuration starts with: named "default", with no
    /// mod ever installed.
    fn default() -> (r: Self)
        ensures
            r.name@ == "default"@,
            r.mods is None,
            r.wf(),
    {
        Profile { name: String::from_str("default"), mods: None }
    }
}

/// Pushing an entry whose identifier is fresh preserves the uniqueness
/// invariant.
proof fn lemma_push_fresh_id_keeps_wf(before: Profile, after: Profile, cmod: ConfigMod)
    requires
        !has_mod_id(before.mods_seq(), cmod.id.0@),
        after.mods_seq() == before.mods_seq().push(cmod),
    ensures
        before.wf() ==> after.wf(),
{
    if before.wf() {
        let s = before.mods_seq();
        let t = after.mods_seq();
        assert forall|i: int, j: int|
            0 <= i < j < t.len() implies (#[trigger] t[i]).id.0@ != (#[trigger] t[j]).id.0@ by {
            if j < s.len() {
                assert(t[i] == s[i] && t[j] == s[j]);
            } else {
                assert(t[j] == cmod && t[i] == s[i]);
            }
        }
    }
}

/// Removing the entry at an index whose identifier equals `id` keeps the
/// uniqueness invariant, and under it no entry with `id` remains.
proof fn lemma_remove_keeps_unique(s: Seq<ConfigMod>, i: int, id: Seq<char>)
    requires
        0 <= i < s.len(),
        s[i].id.0@ == id,
        mods_unique(s),
    ensures
        mods_unique(s.remove(i)),
        !has_mod_id(s.remove(i), id),
{
    let t = s.remove(i);
    assert(forall|k: int| 0 <= k < i ==> #[trigger] t[k] == s[k]);
    assert(forall|k: int| i <= k < t.len() ==> #[trigger] t[k] == s[k + 1]);
    assert forall|p: int, q: int|
        0 <= p < q < t.len() implies (#[trigger] t[p]).id.0@ != (#[trigger] t[q]).id.0@ by {
        if q < i {
            assert(s[p].id.0@ != s[q].id.0@);
        } else if p < i {
            assert(s[p].id.0@ != s[q + 1].id.0@);
        } else {
            assert(s[p + 1].id.0@ != s[q + 1].id.0@);
        }
    }
    assert forall|k: int| 0 <= k < t.len() implies (#[trigger] t[k]).id.0@ != id by {
        if k < i {
            assert(s[k].id.0@ != s[i].id.0@);
        } else {
            assert(s[i].id.0@ != s[k + 1].id.0@);
        }
    }
}

/// Whether `s` holds a profile named `name`.
pub open spec fn has_profile_named(s: Seq<Profile>, name: Seq<char>) -> bool {
    exists|i: int| 0 <= i < s.len() && (#[trigger] s[i]).name@ == name
}

/// The persisted root of the manifest: which profiles exist and which one is
/// active.
#[derive(Debug)]
pub struct FullConfig {
    pub custom_mod_dir: Option<String>,
    pub current_profile: String,
    pub config_revision: usize,
    pub profiles: Vec<Profile>,
}

impl FullConfig {
    /// Profile names are pairwise distinct.
    pub open spec fn profiles_unique(&self) -> bool {
        forall|i: int, j: int|
            0 <= i < j < self.profiles@.len() ==> (#[trigger] self.profiles@[i]).name@ != (
            #[trigger] self.profiles@[j]).name@
    }

    /// Every profile satisfies the manifest invariant.
    pub open spec fn profiles_wf(&self) -> bool {
        &&& self.profiles_unique()
        &&& forall|i: int| 0 <= i < self.profiles@.len() ==> (#[trigger] self.profiles@[i]).wf()
    }

    /// The configuration invariant: well-formed profiles, and the active name
    /// denotes one of them.
    pub open spec fn wf(&self) -> bool {
        &&& self.profiles_wf()
        &&& has_profile_named(self.profiles@, self.current_profile@)
    }

    /// Whether `i` is the index of the active profile: the first one whose
    /// name equals the configured current name.
    pub open spec fn active_at(&self, i: int) -> bool {
        &&& 0 <= i < self.profiles@.len()
        &&& self.profiles@[i].name@ == self.current_profile@
        &&& forall|j: int|
            0 <= j < i ==> (#[trigger] self.profiles@[j]).name@ != self.current_profile@
    }

    /// The index of the active profile, when the configured name denotes one.
    pub fn active_index(&self) -> (r: Option<usize>)
        ensures
            r is Some <==> has_profile_named(self.profiles@, self.current_profile@),
            match r {
                Some(i) => self.active_at(i as int),
                None => !has_profile_named(self.profiles@, self.current_profile@),
            },
    {
        let mut i: usize = 0;
        while i < self.profiles.len()
            invariant
                i <= self.profiles@.len(),
                forall|j: int|
                    0 <= j < i ==> (#[trigger] self.profiles@[j]).name@ != self.current_profile@,
            decreases self.profiles@.len() - i,
        {
            if self.profiles[i].name == self.current_profile {
                return Some(i);
            }
            i += 1;
        }
        None
    }

    /// The active profile, or `UnknownProfile` when the configured name does
    /// not denote one. The invariant is checked, never assumed.
    pub fn get_active_profile(&self) -> (r: Result<&Profile, RinthaError>)
        ensures
            r is Ok <==> has_profile_named(self.profiles@, self.current_profile@),
            match r {
                Ok(p) => exists|i: int|
                    0 <= i < self.profiles@.len() && *p == self.profiles@[i] && (
                    #[trigger] self.profiles@[i]).name@ == self.current_profile@,
                Err(e) => e == RinthaError::UnknownProfile,
            },
    {
        match self.active_index() {
            Some(i) => Ok(&self.profiles[i]),
            None => Err(RinthaError::UnknownProfile),
        }
    }

    /// Check the configuration invariant explicitly, as every entry point
    /// must before trusting a manifest loaded from disk.
    pub fn validate(&self) -> (r: bool)
        ensures
            r == self.wf(),
    {
        let mut i: usize = 0;
        while i < self.profiles.len()
            invariant
                i <= self.profiles@.len(),
                forall|p: int, q: int|
                    0 <= p < q < i ==> (#[trigger] self.profiles@[p]).name@ != (
                    #[trigger] self.profiles@[q]).name@,
                forall|p: int| 0 <= p < i ==> (#[trigger] self.profiles@[p]).wf(),
            decreases self.profiles@.len() - i,
        {
            let mut j: usize = 0;
            while j < i
                invariant
                    i < self.profiles@.len(),
                    j <= i,
                    forall|q: int|
                        0 <= q < j ==> (#[trigger] self.profiles@[q]).name@ != self.profiles@[
                            i as int].name@,
                decreases i - j,
            {
                if self.profiles[j].name == self.profiles[i].name {
                    return false;
                }
                j += 1;
            }
            let profile_ok = match &self.profiles[i].mods {
                None => true,
                Some(v) => mods_all_unique(v),
            };
            if !profile_ok {
                return false;
            }
            i += 1;
        }
        match self.active_index() {
            Some(_) => true,
            None => false,
        }
    }
}

impl Default for FullConfig {
    /// The configuration a first run starts from: one fresh profile named
    /// "default", which is also the active one.
    fn default() -> (r: Self)
        ensures
            r.custom_mod_dir is None,
            r.current_profile@ == "default"@,
            r.config_revision == 0,
            r.profiles@.len() == 1,
            r.profiles@[0].name@ == "default"@,
            r.profiles@[0].mods is None,
            r.wf(),
    {
        let mut profiles: Vec<Profile> = Vec::new();
        profiles.push(Profile::default());
        let r = FullConfig {
            custom_mod_dir: None,
            current_profile: String::from_str("default"),
            config_revision: 0,
            profiles,
        };
        proof {
            assert(has_profile_named(r.profiles@, r.current_profile@)) by {
                assert(r.profiles@[0].name@ == r.current_profile@);
            }
        }
        r
    }
}

/// Whether the identifiers of the entries of `v` are pairwise distinct.
fn mods_all_unique(v: &Vec<ConfigMod>) -> (r: bool)
    ensures
        r == mods_unique(v@),
{
    let mut i: usize = 0;
    while i < v.len()
        invariant
            i <= v@.len(),
            forall|a: int, b: int|
                0 <= a < b < i ==> (#[trigger] v@[a]).id.0@ != (#[trigger] v@[b]).id.0@,
        decreases v@.len() - i,
    {
        let mut j: usize = 0;
        while j < i
            invariant
                i < v@.len(),
                j <= i,
                forall|a: int| 0 <= a < j ==> (#[trigger] v@[a]).id.0@ != v@[i as int].id.0@,
            decreases i - j,
        {
            if v[j].id.0 == v[i].id.0 {
                proof {
                    assert(!mods_unique(v@)) by {
                        assert(0 <= j < i < v@.len() && v@[j as int].id.0@ == v@[i as int].id.0@);
                    }
                }
                return false;
            }
            j += 1;
        }
        i += 1;
    }
    true
}

} // verus!
