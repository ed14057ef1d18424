//! `attune apt dist`: creating, listing, editing, deleting and resynchronizing the
//! distributions of a repository.
use crate::client::cmd::reply::{debug_quoted, quote_debug, render_table_modern, row_views, table_text};
use crate::text::{append, clone_optional, owned};
use vstd::prelude::*;
use vstd::string::*;

verus! {

/// `attune apt dist`.
#[derive(Debug)]
pub struct DistCommand {
    pub subcommand: DistSubCommand,
}

/// The distribution subcommands.
#[derive(Debug)]
pub enum DistSubCommand {
    /// Create a new distribution
    Create(CreateArgs),
    /// Show information about distributions
    List(ListArgs),
    /// Edit distribution metadata
    Edit(EditArgs),
    /// Delete a distribution
    Delete(DeleteArgs),
    /// Resynchronize repository from database
    Resync(DistResyncCommand),
}

/// Arguments of `attune apt dist create`.
#[derive(Debug)]
pub struct CreateArgs {
    /// The repository in which to create the distribution.
    pub repo: String,
    /// The name of the distribution.
    pub name: String,
    /// The suite name; the distribution's name when not given.
    pub suite: Option<String>,
    /// The codename; the distribution's name when not given.
    pub codename: Option<String>,
    /// Optional metadata for the distribution.
    pub metadata: DistMetadata,
}

/// Optional metadata of a new distribution.
#[derive(Debug)]
pub struct DistMetadata {
    pub description: Option<String>,
    pub origin: Option<String>,
    pub label: Option<String>,
    pub version: Option<String>,
}

/// Arguments of `attune apt dist list`.
#[derive(Debug)]
pub struct ListArgs {
    /// The name of the repository.
    pub repo: String,
}

/// Arguments of `attune apt dist edit`.
#[derive(Debug)]
pub struct EditArgs {
    /// The repository containing the distribution.
    pub repo: String,
    /// The name of the distribution to edit.
    pub name: String,
    /// Optional metadata to update.
    pub metadata: EditMetadata,
}

/// The metadata fields to update; unset fields stay as they are.
#[derive(Debug)]
pub struct EditMetadata {
    pub description: Option<String>,
    pub origin: Option<String>,
    pub label: Option<String>,
    pub version: Option<String>,
    pub suite: Option<String>,
    pub codename: Option<String>,
}

/// Arguments of `attune apt dist delete`.
#[derive(Debug)]
pub struct DeleteArgs {
    /// The repository containing the distribution.
    pub repo: String,
    /// The name of the distribution to delete.
    pub name: String,
}

/// Arguments of `attune apt dist resync`.
#[derive(Debug)]
pub struct DistResyncCommand {
    /// The repository containing the distribution.
    pub repo: String,
    /// The name of the distribution to resync.
    pub name: String,
}

/// The request that creates a distribution.
#[derive(Debug)]
pub struct CreateDistributionRequest {
    pub name: String,
    pub suite: String,
    pub codename: String,
    pub description: Option<String>,
    pub origin: Option<String>,
    pub label: Option<String>,
    pub version: Option<String>,
}

/// The request that edits a distribution's metadata.
#[derive(Debug)]
pub struct EditDistributionRequest {
    pub description: Option<String>,
    pub origin: Option<String>,
    pub label: Option<String>,
    pub version: Option<String>,
    pub suite: Option<String>,
    pub codename: Option<String>,
}

/// A distribution as the server lists it.
#[derive(Debug)]
pub struct DistributionInfo {
    pub distribution: String,
    pub suite: String,
    pub codename: String,
    pub description: Option<String>,
    pub origin: Option<String>,
    pub label: Option<String>,
    pub version: Option<String>,
}

/// The request for `dist create`: suite and codename default to the name.
pub fn create_distribution_request(args: &CreateArgs) -> (res: CreateDistributionRequest)
    ensures
        res.name == args.name,
        res.suite == match args.suite {
            Some(s) => s,
            None => args.name,
        },
        res.codename == match args.codename {
            Some(c) => c,
            None => args.name,
        },
        res.description == args.metadata.description,
        res.origin == args.metadata.origin,
        res.label == args.metadata.label,
        res.version == args.metadata.version,
{
    let suite = match &args.suite {
        Some(s) => s.clone(),
        None => args.name.clone(),
    };
    let codename = match &args.codename {
        Some(c) => c.clone(),
        None => args.name.clone(),
    };
    CreateDistributionRequest {
        name: args.name.clone(),
        suite,
        codename,
        description: clone_optional(&args.metadata.description),
        origin: clone_optional(&args.metadata.origin),
        label: clone_optional(&args.metadata.label),
        version: clone_optional(&args.metadata.version),
    }
}

/// The request for `dist edit`.
pub fn edit_distribution_request(metadata: &EditMetadata) -> (res: EditDistributionRequest)
    ensures
        res.description == metadata.description,
        res.origin == metadata.origin,
        res.label == metadata.label,
        res.version == metadata.version,
        res.suite == metadata.suite,
        res.codename == metadata.codename,
{
    EditDistributionRequest {
        description: clone_optional(&metadata.description),
        origin: clone_optional(&metadata.origin),
        label: clone_optional(&metadata.label),
        version: clone_optional(&metadata.version),
        suite: clone_optional(&metadata.suite),
        codename: clone_optional(&metadata.codename),
    }
}

impl EditDistributionRequest {
    /// Whether any field is to be updated.
    pub fn any_some(&self) -> (res: bool)
        ensures
            res == (self.description is Some || self.origin is Some || self.label is Some
                || self.version is Some || self.suite is Some || self.codename is Some),
    {
        self.description.is_some() || self.origin.is_some() || self.label.is_some()
            || self.version.is_some() || self.suite.is_some() || self.codename.is_some()
    }
}

/// `{before}{name:?}{after}`.
fn quoted_message(before: &str, name: &str, after: &str) -> (res: String)
    ensures
        res@ == before@ + debug_quoted(name@) + after@,
{
    let mut text = owned(before);
    let quoted = quote_debug(name);
    append(&mut text, quoted.as_str());
    append(&mut text, after);
    text
}

/// The message for a created distribution.
pub fn created_message(distribution: &str) -> (res: String)
    ensures
        res@ == "Distribution "@ + debug_quoted(distribution@) + " created successfully"@,
{
    quoted_message("Distribution ", distribution, " created successfully")
}

/// The message for a deleted distribution.
pub fn deleted_message(distribution: &str) -> (res: String)
    ensures
        res@ == "Distribution "@ + debug_quoted(distribution@) + " deleted successfully"@,
{
    quoted_message("Distribution ", distribution, " deleted successfully")
}

/// The message for an edited distribution.
pub fn updated_message(distribution: &str) -> (res: String)
    ensures
        res@ == "Distribution "@ + debug_quoted(distribution@)
            + " updated successfully\nNote: Changes will be reflected in repository indexes after the next sync."@,
{
    quoted_message(
        "Distribution ",
        distribution,
        " updated successfully\nNote: Changes will be reflected in repository indexes after the next sync.",
    )
}

/// The message for a resynchronized distribution.
pub fn resynced_message(distribution: &str) -> (res: String)
    ensures
        res@ == "Distribution "@ + debug_quoted(distribution@) + " resynced!"@,
{
    quoted_message("Distribution ", distribution, " resynced!")
}

/// The warning shown before a distribution is deleted.
pub fn delete_warning(repository: &str, distribution: &str) -> (res: String)
    ensures
        res@ == "Warning: This will irreversibly delete distribution "@ + debug_quoted(
            distribution@,
        ) + " from repository "@ + debug_quoted(repository@)
            + " and all its components, package indexes, and package associations."@,
{
    let mut text = quoted_message(
        "Warning: This will irreversibly delete distribution ",
        distribution,
        " from repository ",
    );
    let quoted = quote_debug(repository);
    append(&mut text, quoted.as_str());
    append(&mut text, " and all its components, package indexes, and package associations.");
    text
}

/// An optional field as a table shows it: its value, or `(unset)`.
pub open spec fn shown(value: Option<String>) -> Seq<char> {
    match value {
        Some(v) => v@,
        None => "(unset)"@,
    }
}

fn shown_text(value: &Option<String>) -> (res: String)
    ensures
        res@ == shown(*value),
{
    match value {
        Some(v) => v.clone(),
        None => owned("(unset)"),
    }
}

/// The header row of the distribution table.
pub open spec fn distribution_header() -> Seq<Seq<char>> {
    seq![
        "Name"@,
        "Suite"@,
        "Codename"@,
        "Description"@,
        "Origin"@,
        "Label"@,
        "Version"@,
    ]
}

/// The table row of one distribution.
pub open spec fn distribution_row(d: DistributionInfo) -> Seq<Seq<char>> {
    seq![
        d.distribution@,
        d.suite@,
        d.codename@,
        shown(d.description),
        shown(d.origin),
        shown(d.label),
        shown(d.version),
    ]
}

fn distribution_row_text(d: &DistributionInfo) -> (res: Vec<String>)
    ensures
        res@.map_values(|c: String| c@) == distribution_row(*d),
{
    let row = vec![
        d.distribution.clone(),
        d.suite.clone(),
        d.codename.clone(),
        shown_text(&d.description),
        shown_text(&d.origin),
        shown_text(&d.label),
        shown_text(&d.version),
    ];
    assert(row@.map_values(|c: String| c@) =~= distribution_row(*d));
    row
}

/// The output of `dist list`: a note when the repository has no distributions,
/// else the table of distributions (modern style) under a header row.
pub fn list_output(repository: &str, distributions: &Vec<DistributionInfo>) -> (res: String)
    ensures
        distributions@.len() == 0 ==> res@ == "No distributions found in repository "@
            + debug_quoted(repository@),
        distributions@.len() > 0 ==> res@ == table_text(
            seq![distribution_header()] + distributions@.map_values(
                |d: DistributionInfo| distribution_row(d),
            ),
            true,
        ),
{
    if distributions.len() == 0 {
        proof {
            reveal_strlit("");
        }
        let text = quoted_message("No distributions found in repository ", repository, "");
        assert(text@ =~= "No distributions found in repository "@ + debug_quoted(repository@));
        return text;
    }
    let header = vec![
        owned("Name"),
        owned("Suite"),
        owned("Codename"),
        owned("Description"),
        owned("Origin"),
        owned("Label"),
        owned("Version"),
    ];
    assert(header@.map_values(|c: String| c@) =~= distribution_header());
    let mut rows: Vec<Vec<String>> = Vec::new();
    rows.push(header);
    assert(row_views(rows@) =~= seq![distribution_header()]);
    assert(distributions@.take(0) =~= Seq::<DistributionInfo>::empty());
    let mut i: usize = 0;
    while i < distributions.len()
        invariant
            i <= distributions.len(),
            row_views(rows@) == seq![distribution_header()] + distributions@.take(i as int).map_values(
                |d: DistributionInfo| distribution_row(d),
            ),
        decreases distributions.len() - i,
    {
        let row = distribution_row_text(&distributions[i]);
        let ghost prev = rows@;
        rows.push(row);
        proof {
            assert(row_views(rows@) =~= row_views(prev).push(row@.map_values(|c: String| c@)));
            assert(distributions@.take(i + 1) =~= distributions@.take(i as int).push(
                distributions@[i as int],
            ));
            assert(row_views(rows@) =~= seq![distribution_header()] + distributions@.take(
                i + 1,
            ).map_values(|d: DistributionInfo| distribution_row(d)));
        }
        i = i + 1;
    }
    assert(distributions@.take(distributions.len() as int) =~= distributions@);
    render_table_modern(&rows)
}

} // verus!
