use rintha::errors::RinthaError;
use sha1::Digest;
use rintha::files::ModDirs;
use rintha::install::{commit_install, install_file};
use rintha::manifest::{ConfigMod, FullConfig, ModID, ModReleaseType, Profile, VersionID};
use rintha::removal::rem_mod_id;
use rintha::search::{FileInfo, ShallowSearchResult, VersionInfo};

fn summary(id: &str, title: &str) -> ShallowSearchResult {
    ShallowSearchResult {
        id: ModID(id.to_string()),
        title: title.to_string(),
        author_username: "someone".to_string(),
        small_description: "a mod".to_string(),
        downloads: 100,
        follows: 10,
        latest_mc_ver: "1.19.2".to_string(),
        license: "MIT".to_string(),
    }
}

fn version(number: &str) -> VersionInfo {
    VersionInfo {
        id: VersionID("ver-1".to_string()),
        name: format!("version {number}"),
        version_number: number.to_string(),
        version_type: ModReleaseType::Release,
        game_versions: vec!["1.19.2".to_string(), "1.19.1".to_string()],
    }
}

fn file(filename: &str, declared_sha1: Option<&str>) -> FileInfo {
    FileInfo {
        url: format!("https://example.invalid/{filename}"),
        filename: filename.to_string(),
        declared_sha1: declared_sha1.map(|s| s.to_string()),
    }
}

fn fresh_config() -> FullConfig {
    FullConfig::default()
}

fn active_mods(config: &FullConfig) -> Vec<&ConfigMod> {
    let profile: &Profile = config.get_active_profile().unwrap();
    match &profile.mods {
        None => Vec::new(),
        Some(v) => v.iter().collect(),
    }
}

fn sha1_hex_expected(data: &[u8]) -> String {
    let digest = sha1::Sha1::digest(data);
    let mut out = String::new();
    for b in digest.iter() {
        out.push_str(&format!("{b:02x}"));
    }
    out
}

#[test]
fn install_commits_matching_digest() {
    let mut config = fresh_config();
    let mut dirs = ModDirs::new();
    dirs.note_profile_file("sodium-0.5.3.jar".to_string());

    let r = commit_install(
        &mut config,
        &mut dirs,
        &summary("sodium", "Sodium"),
        &version("0.5.3"),
        &file("sodium-0.5.3.jar", Some("deadbeef")),
        "deadbeef".to_string(),
    );
    assert!(r.is_ok());

    let mods = active_mods(&config);
    assert_eq!(mods.len(), 1);
    assert_eq!(mods[0].id.0, "sodium");
    assert_eq!(mods[0].current_filename, "sodium-0.5.3.jar");
    assert_eq!(mods[0].sha1, "deadbeef");
    assert_eq!(mods[0].title, "Sodium");
    assert_eq!(mods[0].installed_version_number, "0.5.3");
    assert_eq!(mods[0].installed_version_type, ModReleaseType::Release);
    assert_eq!(
        mods[0].supported_game_versions,
        vec!["1.19.2".to_string(), "1.19.1".to_string()]
    );
    // the downloaded file stays in place
    assert!(dirs.has_profile_file(&"sodium-0.5.3.jar".to_string()));
    assert!(config.validate());
}

#[test]
fn reinstalling_same_id_fails_and_changes_nothing() {
    let mut config = fresh_config();
    let mut dirs = ModDirs::new();
    dirs.note_profile_file("sodium-0.5.3.jar".to_string());
    let r = commit_install(
        &mut config,
        &mut dirs,
        &summary("sodium", "Sodium"),
        &version("0.5.3"),
        &file("sodium-0.5.3.jar", Some("deadbeef")),
        "deadbeef".to_string(),
    );
    assert!(r.is_ok());

    let r2 = commit_install(
        &mut config,
        &mut dirs,
        &summary("sodium", "Sodium"),
        &version("0.5.3"),
        &file("sodium-0.5.3.jar", Some("deadbeef")),
        "deadbeef".to_string(),
    );
    assert!(matches!(r2, Err(RinthaError::ModAlreadyInstalled)));

    let mods = active_mods(&config);
    assert_eq!(mods.len(), 1);
    assert_eq!(mods[0].id.0, "sodium");
}

#[test]
fn bad_digest_aborts_and_deletes_download() {
    let mut config = fresh_config();
    let mut dirs = ModDirs::new();
    dirs.note_profile_file("fabric-api.jar".to_string());

    let r = commit_install(
        &mut config,
        &mut dirs,
        &summary("fabric-api", "Fabric API"),
        &version("0.76.0"),
        &file("fabric-api.jar", Some("aaaa")),
        "bbbb".to_string(),
    );
    assert!(matches!(r, Err(RinthaError::BadFileHash)));

    // the file is gone from disk and the manifest is untouched
    assert!(!dirs.has_profile_file(&"fabric-api.jar".to_string()));
    assert_eq!(active_mods(&config).len(), 0);
}

#[test]
fn undeclared_digest_installs_with_computed_digest() {
    let mut config = fresh_config();
    let mut dirs = ModDirs::new();
    dirs.note_profile_file("lithium.jar".to_string());
    let data: &[u8] = b"lithium artifact bytes";

    let r = install_file(
        &mut config,
        &mut dirs,
        &summary("lithium", "Lithium"),
        &version("0.11.1"),
        &file("lithium.jar", None),
        data,
    );
    assert!(r.is_ok());

    let mods = active_mods(&config);
    assert_eq!(mods.len(), 1);
    assert_eq!(mods[0].sha1, sha1_hex_expected(data));
}

#[test]
fn declared_digest_checked_against_bytes() {
    let data: &[u8] = b"sodium artifact bytes";
    let good = sha1_hex_expected(data);

    let mut config = fresh_config();
    let mut dirs = ModDirs::new();
    dirs.note_profile_file("sodium.jar".to_string());
    let r = install_file(
        &mut config,
        &mut dirs,
        &summary("sodium", "Sodium"),
        &version("0.5.3"),
        &file("sodium.jar", Some(&good)),
        data,
    );
    assert!(r.is_ok());
    assert_eq!(active_mods(&config)[0].sha1, good);

    let mut config2 = fresh_config();
    let mut dirs2 = ModDirs::new();
    dirs2.note_profile_file("sodium.jar".to_string());
    let r2 = install_file(
        &mut config2,
        &mut dirs2,
        &summary("sodium", "Sodium"),
        &version("0.5.3"),
        &file("sodium.jar", Some("0000000000000000000000000000000000000000")),
        data,
    );
    assert!(matches!(r2, Err(RinthaError::BadFileHash)));
    assert!(!dirs2.has_profile_file(&"sodium.jar".to_string()));
    assert_eq!(active_mods(&config2).len(), 0);
}

#[test]
fn removal_deletes_entry_and_both_copies() {
    let mut config = fresh_config();
    let mut dirs = ModDirs::new();
    dirs.note_profile_file("sodium-0.5.3.jar".to_string());
    let r = commit_install(
        &mut config,
        &mut dirs,
        &summary("sodium", "Sodium"),
        &version("0.5.3"),
        &file("sodium-0.5.3.jar", Some("deadbeef")),
        "deadbeef".to_string(),
    );
    assert!(r.is_ok());
    // activation mirrored the file into the shared directory
    dirs.note_shared_file("sodium-0.5.3.jar".to_string());

    let removed = rem_mod_id(&mut config, &mut dirs, &ModID("sodium".to_string())).unwrap();
    assert_eq!(removed.id.0, "sodium");
    assert_eq!(removed.current_filename, "sodium-0.5.3.jar");

    assert_eq!(active_mods(&config).len(), 0);
    assert!(!dirs.has_profile_file(&"sodium-0.5.3.jar".to_string()));
    assert!(!dirs.has_shared_file(&"sodium-0.5.3.jar".to_string()));
    assert!(config.validate());
}

#[test]
fn removing_absent_id_touches_nothing() {
    let mut config = fresh_config();
    let mut dirs = ModDirs::new();
    dirs.note_profile_file("other.jar".to_string());
    let r = commit_install(
        &mut config,
        &mut dirs,
        &summary("other", "Other"),
        &version("1.0.0"),
        &file("other.jar", None),
        "cafe".to_string(),
    );
    assert!(r.is_ok());

    let r2 = rem_mod_id(&mut config, &mut dirs, &ModID("nonexistent".to_string()));
    assert!(matches!(r2, Err(RinthaError::ModNotFound)));
    assert_eq!(active_mods(&config).len(), 1);
    assert!(dirs.has_profile_file(&"other.jar".to_string()));
}

#[test]
fn removing_from_empty_profile_reports_no_mods() {
    let mut config = fresh_config();
    let mut dirs = ModDirs::new();
    let r = rem_mod_id(&mut config, &mut dirs, &ModID("nonexistent".to_string()));
    assert!(matches!(r, Err(RinthaError::NoModsInstalled)));
    assert_eq!(active_mods(&config).len(), 0);

    // an empty list is as good as an absent one for removal
    config.profiles[0].mods = Some(Vec::new());
    let r2 = rem_mod_id(&mut config, &mut dirs, &ModID("nonexistent".to_string()));
    assert!(matches!(r2, Err(RinthaError::NoModsInstalled)));
}

#[test]
fn failed_hash_check_leaves_other_files_alone() {
    let mut config = fresh_config();
    let mut dirs = ModDirs::new();
    dirs.note_profile_file("keep.jar".to_string());
    dirs.note_profile_file("bad.jar".to_string());
    dirs.note_shared_file("keep.jar".to_string());

    let r = commit_install(
        &mut config,
        &mut dirs,
        &summary("bad", "Bad"),
        &version("0.0.1"),
        &file("bad.jar", Some("aaaa")),
        "bbbb".to_string(),
    );
    assert!(matches!(r, Err(RinthaError::BadFileHash)));
    assert!(!dirs.has_profile_file(&"bad.jar".to_string()));
    assert!(dirs.has_profile_file(&"keep.jar".to_string()));
    assert!(dirs.has_shared_file(&"keep.jar".to_string()));
}

#[test]
fn unknown_active_profile_is_reported_not_assumed() {
    let mut config = fresh_config();
    config.current_profile = "missing".to_string();
    assert!(!config.validate());
    assert!(matches!(
        config.get_active_profile(),
        Err(RinthaError::UnknownProfile)
    ));

    let mut dirs = ModDirs::new();
    let r = commit_install(
        &mut config,
        &mut dirs,
        &summary("sodium", "Sodium"),
        &version("0.5.3"),
        &file("sodium.jar", None),
        "deadbeef".to_string(),
    );
    assert!(matches!(r, Err(RinthaError::UnknownProfile)));

    let r2 = rem_mod_id(&mut config, &mut dirs, &ModID("sodium".to_string()));
    assert!(matches!(r2, Err(RinthaError::UnknownProfile)));
}

#[test]
fn install_sequence_keeps_identifiers_unique() {
    let mut config = fresh_config();
    let mut dirs = ModDirs::new();
    for (id, filename) in [
        ("sodium", "sodium.jar"),
        ("lithium", "lithium.jar"),
        ("phosphor", "phosphor.jar"),
    ] {
        dirs.note_profile_file(filename.to_string());
        let r = commit_install(
            &mut config,
            &mut dirs,
            &summary(id, id),
            &version("1.0.0"),
            &file(filename, None),
            "feed".to_string(),
        );
        assert!(r.is_ok());
    }
    let r = rem_mod_id(&mut config, &mut dirs, &ModID("lithium".to_string()));
    assert!(r.is_ok());
    let r = commit_install(
        &mut config,
        &mut dirs,
        &summary("lithium", "Lithium"),
        &version("2.0.0"),
        &file("lithium-2.jar", None),
        "feed".to_string(),
    );
    assert!(r.is_ok());
    assert!(config.validate());

    let ids: Vec<String> = active_mods(&config).iter().map(|m| m.id.0.clone()).collect();
    assert_eq!(ids, vec!["sodium", "phosphor", "lithium"]);
}
