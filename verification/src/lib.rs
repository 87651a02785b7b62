//! A local mod-installation manager core: profiles of installed mods, guarded
//! install and removal transactions over a manifest, and content-hash
//! verification of downloaded files.

pub mod cli;
pub mod errors;
pub mod files;
pub mod hash;
pub mod install;
pub mod manifest;
pub mod platform;
pub mod removal;
pub mod search;
