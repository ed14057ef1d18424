//! `attune apt repo`: creating, listing, editing and deleting repositories.
use crate::client::cmd::reply::{debug_quoted, quote_debug, render_table_modern, row_views, table_text};
use crate::text::{append, owned};
use vstd::prelude::*;
use vstd::string::*;

verus! {

/// `attune apt repo`.
#[derive(Debug)]
pub struct RepoCommand {
    pub subcommand: RepoSubCommand,
}

/// The repository subcommands.
#[derive(Debug)]
pub enum RepoSubCommand {
    /// Create a new repository
    Create(RepoCreateCommand),
    /// Show information about repositories
    List(RepoListCommand),
    /// Edit repository metadata
    Edit(RepoEditCommand),
    /// Delete a repository
    Delete(RepoDeleteCommand),
}

/// Arguments of `attune apt repo create`.
#[derive(Debug)]
pub struct RepoCreateCommand {
    /// A name that uniquely identifies this repository.
    pub name: String,
    /// Output in JSON format.
    pub json: bool,
}

/// Arguments of `attune apt repo list`.
#[derive(Debug)]
pub struct RepoListCommand {
    /// Output in JSON format.
    pub json: bool,
    /// Filter repositories by name (substring match).
    pub name: Option<String>,
}

/// Arguments of `attune apt repo edit`.
#[derive(Debug)]
pub struct RepoEditCommand {
    /// The name of the repository to edit.
    pub name: String,
    /// The new name for the repository.
    pub new_name: Option<String>,
}

/// Arguments of `attune apt repo delete`.
#[derive(Debug)]
pub struct RepoDeleteCommand {
    /// The name of the repository to delete.
    pub name: String,
}

/// A repository as the server lists it.
#[derive(Debug)]
pub struct RepositoryInfo {
    pub name: String,
    pub s3_bucket: String,
    pub s3_prefix: String,
}

/// The message for a created repository.
pub fn created_message(repository: &RepositoryInfo) -> (res: String)
    ensures
        res@ == "Repository "@ + debug_quoted(repository.name@) + " created in bucket "@
            + debug_quoted(repository.s3_bucket@) + " at prefix "@ + debug_quoted(
            repository.s3_prefix@,
        ),
{
    let mut text = owned("Repository ");
    append(&mut text, quote_debug(repository.name.as_str()).as_str());
    append(&mut text, " created in bucket ");
    append(&mut text, quote_debug(repository.s3_bucket.as_str()).as_str());
    append(&mut text, " at prefix ");
    append(&mut text, quote_debug(repository.s3_prefix.as_str()).as_str());
    text
}

/// The message for a renamed repository.
pub fn renamed_message(old_name: &str, new_name: &str) -> (res: String)
    ensures
        res@ == "Repository name changed from "@ + debug_quoted(old_name@) + " to "@
            + debug_quoted(new_name@),
{
    let mut text = owned("Repository name changed from ");
    append(&mut text, quote_debug(old_name).as_str());
    append(&mut text, " to ");
    append(&mut text, quote_debug(new_name).as_str());
    text
}

/// The warning shown before a repository is deleted.
pub fn delete_warning(repository: &str) -> (res: String)
    ensures
        res@ == "Warning: this will irreversibly delete repository "@ + debug_quoted(repository@),
{
    let mut text = owned("Warning: this will irreversibly delete repository ");
    append(&mut text, quote_debug(repository).as_str());
    text
}

/// The table row of one repository.
pub open spec fn repository_row(r: RepositoryInfo) -> Seq<Seq<char>> {
    seq![r.name@, r.s3_bucket@, r.s3_prefix@]
}

/// The table of `repo list`: a header row, then one row per repository (modern style).
pub fn list_output(repositories: &Vec<RepositoryInfo>) -> (res: String)
    ensures
        res@ == table_text(
            seq![seq!["Name"@, "S3 bucket"@, "S3 prefix"@]] + repositories@.map_values(
                |r: RepositoryInfo| repository_row(r),
            ),
            true,
        ),
{
    let header = vec![owned("Name"), owned("S3 bucket"), owned("S3 prefix")];
    assert(header@.map_values(|c: String| c@) =~= seq!["Name"@, "S3 bucket"@, "S3 prefix"@]);
    let mut rows: Vec<Vec<String>> = Vec::new();
    rows.push(header);
    assert(row_views(rows@) =~= seq![seq!["Name"@, "S3 bucket"@, "S3 prefix"@]]);
    assert(repositories@.take(0) =~= Seq::<RepositoryInfo>::empty());
    let mut i: usize = 0;
    while i < repositories.len()
        invariant
            i <= repositories.len(),
            row_views(rows@) == seq![seq!["Name"@, "S3 bucket"@, "S3 prefix"@]]
                + repositories@.take(i as int).map_values(|r: RepositoryInfo| repository_row(r)),
        decreases repositories.len() - i,
    {
        let r = &repositories[i];
        let row = vec![r.name.clone(), r.s3_bucket.clone(), r.s3_prefix.clone()];
        let ghost prev = rows@;
        rows.push(row);
        proof {
            assert(row@.map_values(|c: String| c@) =~= repository_row(*r));
            assert(row_views(rows@) =~= row_views(prev).push(row@.map_values(|c: String| c@)));
            assert(repositories@.take(i + 1) =~= repositories@.take(i as int).push(*r));
            assert(row_views(rows@) =~= seq![seq!["Name"@, "S3 bucket"@, "S3 prefix"@]]
                + repositories@.take(i + 1).map_values(|r: RepositoryInfo| repository_row(r)));
        }
        i = i + 1;
    }
    assert(repositories@.take(repositories.len() as int) =~= repositories@);
    render_table_modern(&rows)
}

} // verus!
