//! The commands of the `attune` client.
pub mod dist;
pub mod pkg;
pub mod reply;
pub mod repo;

use vstd::prelude::*;

verus! {

/// `attune apt`.
#[derive(Debug)]
pub struct AptCommand {
    pub subcommand: AptSubcommand,
}

/// The APT subcommands.
#[derive(Debug)]
pub enum AptSubcommand {
    /// Create and edit repositories
    Repository(repo::RepoCommand),
    /// Manage distributions
    Distribution(dist::DistCommand),
    /// Publish packages
    Package(pkg::PkgCommand),
}

} // verus!
