//! The removal transaction: excise the entry from the active profile, then
//! delete its file from both physical locations.

use vstd::prelude::*;

use crate::errors::RinthaError;
use crate::files::{dir_has, without_name, ModDirs};
use crate::manifest::{has_mod_id, has_profile_named, mods_has_id, ConfigMod, FullConfig, ModID};

verus! {

/// What a removal transaction guarantees.
///
/// On success the manifest no longer lists the identifier (the entry at the
/// first matching position is excised) and the entry's file is deleted from
/// both physical locations. On every failure neither the configuration nor
/// either directory is touched.
pub open spec fn removal_post(
    r: Result<ConfigMod, RinthaError>,
    cfg0: FullConfig,
    cfg1: FullConfig,
    dirs0: ModDirs,
    dirs1: ModDirs,
    mod_id: Seq<char>,
) -> bool {
    &&& (r is Ok <==> exists|i: int|
        #[trigger] cfg0.active_at(i) && has_mod_id(cfg0.profiles@[i].mods_seq(), mod_id))
    &&& match r {
        Ok(removed) => {
            &&& removed.id.0@ == mod_id
            &&& exists|i: int|
                {
                    &&& #[trigger] cfg0.active_at(i)
                    &&& cfg0.profiles@[i].mods_seq().len() > 0
                    &&& exists|k: int|
                        {
                            &&& 0 <= k < cfg0.profiles@[i].mods_seq().len()
                            &&& (#[trigger] cfg0.profiles@[i].mods_seq()[k]) == removed
                            &&& forall|j: int|
                                0 <= j < k ==> (#[trigger] cfg0.profiles@[i].mods_seq()[j]).id.0@
                                    != mod_id
                            &&& cfg1.profiles@[i].mods_seq() == cfg0.profiles@[i].mods_seq().remove(
                                k,
                            )
                        }
                    &&& cfg1.profiles@.len() == cfg0.profiles@.len()
                    &&& forall|j: int|
                        0 <= j < cfg0.profiles@.len() && j != i ==> #[trigger] cfg1.profiles@[j]
                            == cfg0.profiles@[j]
                    &&& cfg1.profiles@[i].name == cfg0.profiles@[i].name
                    &&& (cfg0.profiles@[i].wf() ==> !has_mod_id(
                        cfg1.profiles@[i].mods_seq(),
                        mod_id,
                    ))
                }
            &&& cfg1.current_profile == cfg0.current_profile
            &&& cfg1.custom_mod_dir == cfg0.custom_mod_dir
            &&& cfg1.config_revision == cfg0.config_revision
            &&& dirs1.profile_dir@ == without_name(dirs0.profile_dir@, removed.current_filename@)
            &&& dirs1.shared_dir@ == without_name(dirs0.shared_dir@, removed.current_filename@)
            &&& !dir_has(dirs1.profile_dir@, removed.current_filename@)
            &&& !dir_has(dirs1.shared_dir@, removed.current_filename@)
            &&& forall|m: Seq<char>|
                m != removed.current_filename@ ==> dir_has(dirs1.profile_dir@, m) == dir_has(
                    dirs0.profile_dir@,
                    m,
                )
            &&& forall|m: Seq<char>|
                m != removed.current_filename@ ==> dir_has(dirs1.shared_dir@, m) == dir_has(
                    dirs0.shared_dir@,
                    m,
                )
        },
        Err(e) => {
            &&& cfg1 == cfg0
            &&& dirs1.profile_dir@ == dirs0.profile_dir@
            &&& dirs1.shared_dir@ == dirs0.shared_dir@
            &&& match e {
                RinthaError::UnknownProfile => !has_profile_named(
                    cfg0.profiles@,
                    cfg0.current_profile@,
                ),
                RinthaError::NoModsInstalled => exists|i: int|
                    #[trigger] cfg0.active_at(i) && cfg0.profiles@[i].mods_seq().len() == 0,
                RinthaError::ModNotFound => exists|i: int|
                    {
                        &&& #[trigger] cfg0.active_at(i)
                        &&& cfg0.profiles@[i].mods_seq().len() > 0
                        &&& !has_mod_id(cfg0.profiles@[i].mods_seq(), mod_id)
                    },
                _ => false,
            }
        },
    }
}

/// Remove the mod with the given identifier from the active profile and
/// delete its file from both the profile-scoped and the shared directory.
///
/// The manifest is updated before any file deletion is recorded, so an
/// interruption can only leave files that the manifest no longer claims,
/// never a manifest entry whose files are gone.
pub fn rem_mod_id(config: &mut FullConfig, dirs: &mut ModDirs, mod_id: &ModID) -> (r: Result<
    ConfigMod,
    RinthaError,
>)
    ensures
        removal_post(r, *old(config), *final(config), *old(dirs), *final(dirs), mod_id.0@),
        old(config).wf() ==> final(config).wf(),
{
    let idx = match config.active_index() {
        Some(i) => i,
        None => {
            return Err(RinthaError::UnknownProfile);
        },
    };
    let empty = match &config.profiles[idx].mods {
        None => true,
        Some(v) => v.len() == 0,
    };
    if empty {
        return Err(RinthaError::NoModsInstalled);
    }
    let present = match &config.profiles[idx].mods {
        None => false,
        Some(v) => mods_has_id(v, mod_id),
    };
    if !present {
        return Err(RinthaError::ModNotFound);
    }
    let ghost cfg0 = *config;
    let profile = &mut config.profiles[idx];
    match profile.remove_mod(mod_id) {
        Ok(removed) => {
            dirs.delete_everywhere(&removed.current_filename);
            proof {
                let i = idx as int;
                if old(config).wf() {
                    assert forall|p: int, q: int|
                        0 <= p < q < config.profiles@.len() implies (
                    #[trigger] config.profiles@[p]).name@ != (#[trigger] config.profiles@[q]).name@
                        by {
                        assert(cfg0.profiles@[p].name@ != cfg0.profiles@[q].name@);
                    }
                    assert forall|p: int|
                        0 <= p < config.profiles@.len() implies (
                    #[trigger] config.profiles@[p]).wf() by {
                        assert(cfg0.profiles@[p].wf());
                    }
                    assert(config.profiles@[i].name@ == config.current_profile@);
                }
            }
            Ok(removed)
        },
        Err(e) => Err(e),
    }
}

} // verus!
