//! The catalog collaborator's data, reduced to plain values: search hits,
//! version records and file descriptors.

use vstd::prelude::*;

use crate::manifest::{ModID, ModReleaseType, VersionID};

verus! {

/// A search hit from the mod catalog, reduced to the fields the manager
/// reads. Produced by the catalog collaborator, consumed by the install
/// transaction.
#[derive(Debug)]
pub struct ShallowSearchResult {
    pub id: ModID,
    pub title: String,
    pub author_username: String,
    pub small_description: String,
    pub downloads: usize,
    pub follows: usize,
    pub latest_mc_ver: String,
    pub license: String,
}

/// One version record of a mod, reduced to the fields an install reads.
#[derive(Debug)]
pub struct VersionInfo {
    pub id: VersionID,
    pub name: String,
    pub version_number: String,
    pub version_type: ModReleaseType,
    pub game_versions: Vec<String>,
}

/// One downloadable file of a version: where it comes from, what it is called
/// locally, and the digest its provider declares for it, if any.
#[derive(Debug)]
pub struct FileInfo {
    pub url: String,
    pub filename: String,
    pub declared_sha1: Option<String>,
}

} // verus!
