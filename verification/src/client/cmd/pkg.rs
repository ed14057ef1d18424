//! `attune apt pkg`: adding, listing and removing packages.
use crate::api::error::ErrorResponse;
use crate::cli::apt::pkg::add::{PackageChange, PackageChangeAction};
use crate::client::cmd::reply::{debug_quoted, quote_debug, render_table_plain, row_views, table_text};
use crate::client::retry::{is_retryable_code, retryable_code};
use crate::text::{append, owned, str_eq};
use vstd::prelude::*;
use vstd::string::*;

verus! {

/// `attune apt pkg`.
#[derive(Debug)]
pub struct PkgCommand {
    pub subcommand: PkgSubCommand,
}

/// The package subcommands.
#[derive(Debug)]
pub enum PkgSubCommand {
    /// Upload a new package
    Add(PkgAddCommand),
    /// Show information about packages
    List(PkgListCommand),
    /// Remove a package
    Remove(PkgRemoveCommand),
}

/// Arguments of `attune apt pkg add`.
#[derive(Clone, Debug)]
pub struct PkgAddCommand {
    /// Name of the repository to add the package to
    pub repo: String,
    /// Distribution to add the package to
    pub distribution: String,
    /// Component to add the package to
    pub component: String,
    /// GPG key ID to sign the index with
    pub key_id: String,
    /// GPG home directory to use for signing.
    pub gpg_home_dir: Option<String>,
    /// Path to the package to add
    pub package_file: String,
}

/// Arguments of `attune apt pkg list`; every filter is optional.
#[derive(Debug)]
pub struct PkgListCommand {
    pub repository: Option<String>,
    pub distribution: Option<String>,
    pub component: Option<String>,
    pub name: Option<String>,
    pub version: Option<String>,
    pub architecture: Option<String>,
}

/// Arguments of `attune apt pkg remove`.
#[derive(Debug)]
pub struct PkgRemoveCommand {
    /// Name of the repository to remove the package from
    pub repo: String,
    /// Distribution to remove the package from
    pub distribution: String,
    /// Component to remove the package from
    pub component: String,
    /// GPG key ID to sign the index with
    pub key_id: String,
    /// Name of the package to remove
    pub package: String,
    /// Version of the package to remove
    pub version: String,
    /// Architecture of the package to remove
    pub architecture: String,
}

/// A package as the server lists it.
#[derive(Debug)]
pub struct PackageListing {
    pub name: String,
    pub version: String,
    pub architecture: String,
    pub repository: String,
    pub distribution: String,
    pub component: String,
}

/// The change that removes the package the command names.
pub fn remove_change(command: &PkgRemoveCommand) -> (res: PackageChange)
    ensures
        res.repository == command.repo,
        res.distribution == command.distribution,
        res.component == command.component,
        res.action == (PackageChangeAction::Remove {
            name: command.package,
            version: command.version,
            architecture: command.architecture,
        }),
{
    PackageChange {
        repository: command.repo.clone(),
        distribution: command.distribution.clone(),
        component: command.component.clone(),
        action: PackageChangeAction::Remove {
            name: command.package.clone(),
            version: command.version.clone(),
            architecture: command.architecture.clone(),
        },
    }
}

/// Whether an index change that failed with this error response is tried again.
pub fn index_change_retryable(error: Option<&ErrorResponse>) -> (res: bool)
    ensures
        res == (error matches Some(e) && retryable_code(e.error@)),
{
    match error {
        Some(e) => is_retryable_code(e.error.as_str()),
        None => false,
    }
}

/// What `pkg add` reports when the package could not be added to the index: a
/// hint on component names for `INVALID_COMPONENT_NAME`, else the error's message.
pub fn add_failure_message(component: &str, error: &ErrorResponse) -> (res: String)
    ensures
        error.error@ == "INVALID_COMPONENT_NAME"@ ==> res@ == "Error: Invalid component name "@
            + debug_quoted(component@) + ": "@ + error.message@
            + "\nComponent names must contain only letters, numbers, underscores, and hyphens."@,
        error.error@ != "INVALID_COMPONENT_NAME"@ ==> res@ == "Unable to add package to index: "@
            + error.message@,
{
    if str_eq(error.error.as_str(), "INVALID_COMPONENT_NAME") {
        let mut text = owned("Error: Invalid component name ");
        append(&mut text, quote_debug(component).as_str());
        append(&mut text, ": ");
        append(&mut text, error.message.as_str());
        append(
            &mut text,
            "\nComponent names must contain only letters, numbers, underscores, and hyphens.",
        );
        text
    } else {
        let mut text = owned("Unable to add package to index: ");
        append(&mut text, error.message.as_str());
        text
    }
}

/// The table row of one package.
pub open spec fn package_row(p: PackageListing) -> Seq<Seq<char>> {
    seq![p.name@, p.version@, p.architecture@, p.repository@, p.distribution@, p.component@]
}

/// The header row of the package table.
pub open spec fn package_header() -> Seq<Seq<char>> {
    seq![
        "Package"@,
        "Version"@,
        "Architecture"@,
        "Repository"@,
        "Distribution"@,
        "Component"@,
    ]
}

/// The table of `pkg list`: a header row, then one row per package (default style).
pub fn list_output(packages: &Vec<PackageListing>) -> (res: String)
    ensures
        res@ == table_text(
            seq![package_header()] + packages@.map_values(|p: PackageListing| package_row(p)),
            false,
        ),
{
    let header = vec![
        owned("Package"),
        owned("Version"),
        owned("Architecture"),
        owned("Repository"),
        owned("Distribution"),
        owned("Component"),
    ];
    assert(header@.map_values(|c: String| c@) =~= package_header());
    let mut rows: Vec<Vec<String>> = Vec::new();
    rows.push(header);
    assert(row_views(rows@) =~= seq![package_header()]);
    assert(packages@.take(0) =~= Seq::<PackageListing>::empty());
    let mut i: usize = 0;
    while i < packages.len()
        invariant
            i <= packages.len(),
            row_views(rows@) == seq![package_header()] + packages@.take(i as int).map_values(
                |p: PackageListing| package_row(p),
            ),
        decreases packages.len() - i,
    {
        let p = &packages[i];
        let row = vec![
            p.name.clone(),
            p.version.clone(),
            p.architecture.clone(),
            p.repository.clone(),
            p.distribution.clone(),
            p.component.clone(),
        ];
        let ghost prev = rows@;
        rows.push(row);
        proof {
            assert(row@.map_values(|c: String| c@) =~= package_row(*p));
            assert(row_views(rows@) =~= row_views(prev).push(row@.map_values(|c: String| c@)));
            assert(packages@.take(i + 1) =~= packages@.take(i as int).push(*p));
            assert(row_views(rows@) =~= seq![package_header()] + packages@.take(i + 1).map_values(
                |p: PackageListing| package_row(p),
            ));
        }
        i = i + 1;
    }
    assert(packages@.take(packages.len() as int) =~= packages@);
    render_table_plain(&rows)
}

} // verus!
