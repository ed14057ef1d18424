//! Adding an APT package: checking the repository, uploading the file when the
//! server does not have it, and the index change that adds it.
use crate::api::error::{StatusCode, STATUS_NOT_FOUND, STATUS_OK};
use crate::digest::{hex_lower, sha256_digest, sha256_hex};
use crate::text::owned;
use vstd::prelude::*;
use vstd::string::*;

verus! {

/// Arguments of `attune apt pkg add`.
#[derive(Clone, Debug)]
pub struct CmdAptPkgAdd {
    /// Name of the repository to add the package to
    pub repo: String,
    /// Distribution to add the package to
    pub distribution: String,
    /// Component to add the package to
    pub component: String,
    /// GPG key ID to sign the index with
    pub key_id: String,
    /// Path to the package to add
    pub package_file: String,
}

/// What a change to a component's index does.
#[derive(Clone, Debug)]
pub enum PackageChangeAction {
    /// Add the package with this SHA-256 sum.
    Add { package_sha256sum: String },
    /// Remove the package with this name, version and architecture.
    Remove { name: String, version: String, architecture: String },
}

/// A change to the index of one component of one distribution of a repository.
#[derive(Clone, Debug)]
pub struct PackageChange {
    pub repository: String,
    pub distribution: String,
    pub component: String,
    pub action: PackageChangeAction,
}

/// The change that adds the package with `sha256sum` where the command says.
pub fn add_change(command: &CmdAptPkgAdd, sha256sum: &str) -> (res: PackageChange)
    ensures
        res.repository == command.repo,
        res.distribution == command.distribution,
        res.component == command.component,
        res.action matches PackageChangeAction::Add { package_sha256sum } && package_sha256sum@
            == sha256sum@,
{
    PackageChange {
        repository: command.repo.clone(),
        distribution: command.distribution.clone(),
        component: command.component.clone(),
        action: PackageChangeAction::Add { package_sha256sum: owned(sha256sum) },
    }
}

/// The SHA-256 sum of a package file, in lowercase hexadecimal, by which the server
/// knows the package.
pub fn package_file_checksum(content: &[u8]) -> (res: String)
    ensures
        res@ == hex_lower(sha256_digest(content@)),
        res@.len() == 64,
{
    sha256_hex(content)
}

/// What the reply to a repository lookup says.
#[derive(Clone, Copy, Debug, PartialEq, Eq, Structural)]
pub enum RepositoryCheck {
    /// The repository exists (200).
    Exists,
    /// The repository does not exist (404).
    Missing,
    /// Any other status: the reply holds an error response.
    Failed,
}

/// Reads the status of the reply to a repository lookup.
pub fn repository_check(status: StatusCode) -> (res: RepositoryCheck)
    ensures
        status.0 == STATUS_OK ==> res == RepositoryCheck::Exists,
        status.0 == STATUS_NOT_FOUND ==> res == RepositoryCheck::Missing,
        status.0 != STATUS_OK && status.0 != STATUS_NOT_FOUND ==> res == RepositoryCheck::Failed,
{
    if status.0 == STATUS_OK {
        RepositoryCheck::Exists
    } else if status.0 == STATUS_NOT_FOUND {
        RepositoryCheck::Missing
    } else {
        RepositoryCheck::Failed
    }
}

/// What to do with a package file once the server has been asked for its checksum.
#[derive(Clone, Copy, Debug, PartialEq, Eq, Structural)]
pub enum UploadDecision {
    /// The server has the file (200): nothing to upload.
    AlreadyUploaded,
    /// The server does not have it (404): upload it.
    Upload,
    /// Any other status: the reply holds an error response.
    Failed,
}

/// Reads the status of the reply to a package lookup by checksum.
pub fn upload_decision(status: StatusCode) -> (res: UploadDecision)
    ensures
        status.0 == STATUS_OK ==> res == UploadDecision::AlreadyUploaded,
        status.0 == STATUS_NOT_FOUND ==> res == UploadDecision::Upload,
        status.0 != STATUS_OK && status.0 != STATUS_NOT_FOUND ==> res == UploadDecision::Failed,
{
    match repository_check(status) {
        RepositoryCheck::Exists => UploadDecision::AlreadyUploaded,
        RepositoryCheck::Missing => UploadDecision::Upload,
        RepositoryCheck::Failed => UploadDecision::Failed,
    }
}

} // verus!
