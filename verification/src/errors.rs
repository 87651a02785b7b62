//! The error taxonomy shared by every transaction of the manager.

use vstd::prelude::*;

verus! {

/// The failure modes of the install and removal transactions.
#[derive(Debug, Clone, Copy, PartialEq, Eq, Structural)]
pub enum RinthaError {
    /// The computed digest of a downloaded file does not match the declared one.
    BadFileHash,
    /// No shared game-mods directory is known for the current operating system.
    UnsupportedPlatform,
    /// The active profile already holds an entry with the candidate's identifier.
    ModAlreadyInstalled,
    /// No entry with the requested identifier exists in the active profile.
    ModNotFound,
    /// The active profile has no installed mods.
    NoModsInstalled,
    /// The configured current profile is not among the known profiles.
    UnknownProfile,
}

} // verus!
