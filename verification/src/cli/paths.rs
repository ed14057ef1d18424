//! The API paths that the client requests, with path segments percent-encoded.
use crate::api::path::{percent_encode_path_segment, percent_encoded};
use crate::text::{append, owned};
use vstd::prelude::*;
use vstd::utf8::encode_utf8;

verus! {

/// A name escaped for a path segment.
pub open spec fn segment(name: Seq<char>) -> Seq<char> {
    percent_encoded(encode_utf8(name))
}

/// `/api/v0/repositories/{repository}`.
pub open spec fn repository_path_of(repository: Seq<char>) -> Seq<char> {
    "/api/v0/repositories/"@ + segment(repository)
}

/// The path of a repository.
pub fn repository_path(repository: &str) -> (res: String)
    ensures
        res@ == repository_path_of(repository@),
{
    let mut path = owned("/api/v0/repositories/");
    let name = percent_encode_path_segment(repository);
    append(&mut path, name.as_str());
    path
}

/// The path of a repository's index: `/api/v0/repositories/{repository}/index`.
pub fn repository_index_path(repository: &str) -> (res: String)
    ensures
        res@ == repository_path_of(repository@) + "/index"@,
{
    let mut path = repository_path(repository);
    append(&mut path, "/index");
    path
}

/// The path of a repository's distributions, or of one distribution:
/// `/api/v0/repositories/{repository}/distributions[/{distribution}]`.
pub open spec fn distribution_path_of(repository: Seq<char>, distribution: Option<Seq<char>>) -> Seq<
    char,
> {
    match distribution {
        Some(d) => repository_path_of(repository) + "/distributions/"@ + segment(d),
        None => repository_path_of(repository) + "/distributions"@,
    }
}

/// The path of a repository's distributions, or of one of them.
pub fn distribution_path(repository: &str, distribution: Option<&str>) -> (res: String)
    ensures
        res@ == distribution_path_of(
            repository@,
            match distribution {
                Some(d) => Some(d@),
                None => None,
            },
        ),
{
    let mut path = repository_path(repository);
    match distribution {
        Some(d) => {
            append(&mut path, "/distributions/");
            let name = percent_encode_path_segment(d);
            append(&mut path, name.as_str());
        },
        None => {
            append(&mut path, "/distributions");
        },
    }
    path
}

/// The path that resynchronizes a distribution:
/// `/api/v0/repositories/{repository}/distributions/{distribution}/sync`.
pub fn distribution_sync_path(repository: &str, distribution: &str) -> (res: String)
    ensures
        res@ == distribution_path_of(repository@, Some(distribution@)) + "/sync"@,
{
    let mut path = distribution_path(repository, Some(distribution));
    append(&mut path, "/sync");
    path
}

/// The path of a package by its SHA-256 sum: `/api/v0/packages/{sha256sum}`.
pub fn package_path(sha256sum: &str) -> (res: String)
    ensures
        res@ == "/api/v0/packages/"@ + sha256sum@,
{
    let mut path = owned("/api/v0/packages/");
    append(&mut path, sha256sum);
    path
}

} // verus!
