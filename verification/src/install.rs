//! The install transaction: verify the downloaded artifact against the
//! provider-declared digest, then commit a manifest entry, all-or-nothing
//! with respect to the manifest.

use vstd::prelude::*;

use crate::errors::RinthaError;
use crate::files::{dir_has, without_name, ModDirs};
use crate::hash::{hash_matches, sha1_hex, sha1_hex_of};
use crate::manifest::{has_mod_id, has_profile_named, mods_has_id, ConfigMod, FullConfig};
use crate::search::{FileInfo, ShallowSearchResult, VersionInfo};

verus! {

/// Whether the provider-declared digest, if any, equals the locally computed
/// one. When no digest is declared the file is accepted unconditionally.
pub open spec fn declared_hash_ok(file: FileInfo, computed: Seq<char>) -> bool {
    match file.declared_sha1 {
        Option::None => true,
        Option::Some(h) => h@ == computed,
    }
}

/// Whether `e` is the manifest entry an install of this selection commits:
/// the summary's catalog metadata, the chosen version and file, and the
/// locally computed digest `digest`.
pub open spec fn is_entry_for(
    e: ConfigMod,
    summary: ShallowSearchResult,
    version: VersionInfo,
    file: FileInfo,
    digest: Seq<char>,
) -> bool {
    &&& e.id.0@ == summary.id.0@
    &&& e.title@ == summary.title@
    &&& e.author_username@ == summary.author_username@
    &&& e.small_description@ == summary.small_description@
    &&& e.latest_mc_ver@ == summary.latest_mc_ver@
    &&& e.license@ == summary.license@
    &&& e.sha1@ == digest
    &&& e.installed_version_id.0@ == version.id.0@
    &&& e.installed_version_number@ == version.version_number@
    &&& e.installed_version_type == version.version_type
    &&& e.supported_game_versions@ == version.game_versions@
    &&& e.current_filename@ == file.filename@
}

/// What an install transaction guarantees, for a computed digest `digest`.
///
/// All-or-nothing with respect to the manifest: on every failure the
/// configuration is exactly what it was. A failed hash check additionally
/// deletes the downloaded file from the profile-scoped directory and touches
/// nothing else on disk; every other outcome leaves both directories alone.
pub open spec fn install_post(
    r: Result<(), RinthaError>,
    cfg0: FullConfig,
    cfg1: FullConfig,
    dirs0: ModDirs,
    dirs1: ModDirs,
    summary: ShallowSearchResult,
    version: VersionInfo,
    file: FileInfo,
    digest: Seq<char>,
) -> bool {
    &&& (r is Ok <==> declared_hash_ok(file, digest) && exists|i: int|
        #[trigger] cfg0.active_at(i) && !has_mod_id(cfg0.profiles@[i].mods_seq(), summary.id.0@))
    &&& match r {
        Ok(()) => {
            &&& exists|i: int|
                {
                    &&& #[trigger] cfg0.active_at(i)
                    &&& !has_mod_id(cfg0.profiles@[i].mods_seq(), summary.id.0@)
                    &&& cfg1.profiles@.len() == cfg0.profiles@.len()
                    &&& forall|j: int|
                        0 <= j < cfg0.profiles@.len() && j != i ==> #[trigger] cfg1.profiles@[j]
                            == cfg0.profiles@[j]
                    &&& cfg1.profiles@[i].name == cfg0.profiles@[i].name
                    &&& cfg1.profiles@[i].mods is Some
                    &&& cfg1.profiles@[i].mods_seq() == cfg0.profiles@[i].mods_seq().push(
                        cfg1.profiles@[i].mods_seq().last(),
                    )
                    &&& is_entry_for(
                        cfg1.profiles@[i].mods_seq().last(),
                        summary,
                        version,
                        file,
                        digest,
                    )
                }
            &&& cfg1.current_profile == cfg0.current_profile
            &&& cfg1.custom_mod_dir == cfg0.custom_mod_dir
            &&& cfg1.config_revision == cfg0.config_revision
            &&& dirs1.profile_dir@ == dirs0.profile_dir@
            &&& dirs1.shared_dir@ == dirs0.shared_dir@
        },
        Err(e) => {
            &&& cfg1 == cfg0
            &&& match e {
                RinthaError::BadFileHash => {
                    &&& !declared_hash_ok(file, digest)
                    &&& dirs1.profile_dir@ == without_name(dirs0.profile_dir@, file.filename@)
                    &&& !dir_has(dirs1.profile_dir@, file.filename@)
                    &&& forall|m: Seq<char>|
                        m != file.filename@ ==> dir_has(dirs1.profile_dir@, m) == dir_has(
                            dirs0.profile_dir@,
                            m,
                        )
                    &&& dirs1.shared_dir@ == dirs0.shared_dir@
                },
                RinthaError::UnknownProfile => {
                    &&& declared_hash_ok(file, digest)
                    &&& !has_profile_named(cfg0.profiles@, cfg0.current_profile@)
                    &&& dirs1.profile_dir@ == dirs0.profile_dir@
                    &&& dirs1.shared_dir@ == dirs0.shared_dir@
                },
                RinthaError::ModAlreadyInstalled => {
                    &&& declared_hash_ok(file, digest)
                    &&& exists|i: int|
                        #[trigger] cfg0.active_at(i) && has_mod_id(
                            cfg0.profiles@[i].mods_seq(),
                            summary.id.0@,
                        )
                    &&& dirs1.profile_dir@ == dirs0.profile_dir@
                    &&& dirs1.shared_dir@ == dirs0.shared_dir@
                },
                _ => false,
            }
        },
    }
}

/// Build the immutable manifest entry an install commits, from the chosen
/// summary, version and file plus the locally computed digest.
fn build_entry(
    summary: &ShallowSearchResult,
    version: &VersionInfo,
    file: &FileInfo,
    digest: String,
) -> (e: ConfigMod)
    ensures
        is_entry_for(e, *summary, *version, *file, digest@),
{
    let supported_game_versions = version.game_versions.clone();
    proof {
        assert(supported_game_versions@ =~= version.game_versions@);
    }
    ConfigMod {
        id: summary.id.clone(),
        title: summary.title.clone(),
        author_username: summary.author_username.clone(),
        small_description: summary.small_description.clone(),
        latest_mc_ver: summary.latest_mc_ver.clone(),
        license: summary.license.clone(),
        sha1: digest,
        installed_version_id: version.id.clone(),
        installed_version_number: version.version_number.clone(),
        installed_version_type: version.version_type,
        supported_game_versions,
        current_filename: file.filename.clone(),
    }
}

/// Commit an install whose artifact digest has already been computed.
///
/// The digest is checked against the provider-declared one strictly before
/// any manifest mutation: a failed check deletes the downloaded file and
/// leaves the manifest untouched, so the manifest never describes a file that
/// failed verification.
pub fn commit_install(
    config: &mut FullConfig,
    dirs: &mut ModDirs,
    summary: &ShallowSearchResult,
    version: &VersionInfo,
    file: &FileInfo,
    computed_sha1: String,
) -> (r: Result<(), RinthaError>)
    ensures
        install_post(
            r,
            *old(config),
            *final(config),
            *old(dirs),
            *final(dirs),
            *summary,
            *version,
            *file,
            computed_sha1@,
        ),
        old(config).wf() ==> final(config).wf(),
{
    if let Some(declared) = &file.declared_sha1 {
        if !hash_matches(declared, &computed_sha1) {
            dirs.delete_profile_file(&file.filename);
            return Err(RinthaError::BadFileHash);
        }
    }
    let idx = match config.active_index() {
        Some(i) => i,
        None => {
            return Err(RinthaError::UnknownProfile);
        },
    };
    let duplicate = match &config.profiles[idx].mods {
        None => false,
        Some(v) => mods_has_id(v, &summary.id),
    };
    if duplicate {
        return Err(RinthaError::ModAlreadyInstalled);
    }
    let entry = build_entry(summary, version, file, computed_sha1);
    let ghost cfg0 = *config;
    let profile = &mut config.profiles[idx];
    let added = profile.add_mod(entry);
    match added {
        Ok(()) => {
            proof {
                let i = idx as int;
                assert(config.profiles@[i].mods_seq().drop_last() =~= cfg0.profiles@[i].mods_seq());
                assert(config.profiles@[i].mods_seq() =~= cfg0.profiles@[i].mods_seq().push(
                    config.profiles@[i].mods_seq().last(),
                ));
                if old(config).wf() {
                    assert forall|p: int, q: int|
                        0 <= p < q < config.profiles@.len() implies (
                    #[trigger] config.profiles@[p]).name@ != (#[trigger] config.profiles@[q]).name@
                        by {
                        assert(cfg0.profiles@[p].name@ != cfg0.profiles@[q].name@);
                    }
                    assert forall|p: int|
                        0 <= p < config.profiles@.len() implies (
                    #[trigger] config.profiles@[p]).wf() by {
                        assert(cfg0.profiles@[p].wf());
                    }
                    assert(config.profiles@[i].name@ == config.current_profile@);
                }
            }
            Ok(())
        },
        Err(e) => Err(e),
    }
}

/// Install the chosen mod file whose bytes, as downloaded into the
/// profile-scoped directory, are `data`.
///
/// The stored digest is always the locally computed one, so when no digest is
/// declared the committed entry still records the digest of the bytes on
/// disk, and when one is declared a committed entry's digest equals it.
pub fn install_file(
    config: &mut FullConfig,
    dirs: &mut ModDirs,
    summary: &ShallowSearchResult,
    version: &VersionInfo,
    file: &FileInfo,
    data: &[u8],
) -> (r: Result<(), RinthaError>)
    ensures
        install_post(
            r,
            *old(config),
            *final(config),
            *old(dirs),
            *final(dirs),
            *summary,
            *version,
            *file,
            sha1_hex_of(data@),
        ),
        old(config).wf() ==> final(config).wf(),
{
    let digest = sha1_hex(data);
    commit_install(config, dirs, summary, version, file, digest)
}

} // verus!
