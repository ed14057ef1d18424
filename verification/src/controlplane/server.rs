//! The repository API of the control plane server: repositories, generated indexes
//! and Release files, and the objects that publication copies and writes.
use crate::apt::package::pool_filename;
use crate::apt::release::{format_rfc2822, rfc2822_date, ReleaseMeta, ReleaseTimestamp};
use crate::controlplane::indexes::{
    digests, distinct_values, folded_index_text, index_digest, legacy_release_text, no_duplicates,
    render_folded, render_legacy_release, IndexDigest, IndexRow, PackageRow,
};
use crate::digest::{hex_lower, md5_digest, md5_hex, sha1_digest, sha1_hex, sha256_digest, sha256_hex};
use crate::text::{append, owned, push_char, views};
use vstd::prelude::*;
use vstd::string::*;
use vstd::utf8::encode_utf8;

verus! {

/// Whether the server hosts one tenant or many.
#[derive(Clone, Copy, Debug, PartialEq, Eq, Structural)]
pub enum TenantMode {
    Single,
    Multi,
}

/// A repository, as the API returns it.
#[derive(Clone, Debug)]
pub struct Repository {
    pub id: i64,
    pub uri: String,
    pub distribution: String,
}

/// The request that creates a repository.
#[derive(Clone, Debug)]
pub struct CreateRepositoryRequest {
    pub uri: String,
    pub distribution: String,
    pub origin: Option<String>,
    pub label: Option<String>,
    pub version: Option<String>,
    pub suite: Option<String>,
    pub codename: Option<String>,
    pub description: Option<String>,
}

/// The generated Release file of a repository.
#[derive(Clone, Debug)]
pub struct RepositoryIndexes {
    pub release: String,
}

/// The signatures that publish a repository's generated indexes.
#[derive(Clone, Debug)]
pub struct SyncRepositoryRequest {
    pub clearsigned: String,
    pub detached: String,
}

/// A package added to a repository, as the API returns it.
#[derive(Clone, Debug)]
pub struct Package {
    pub id: i64,
    pub package: String,
    pub version: String,
    pub architecture: String,
}

/// The prefix of a repository's objects in the bucket: none with a single tenant;
/// with many, the lowercase hex SHA-256 of the repository's URI.
pub open spec fn s3_prefix_of(mode: TenantMode, uri: Seq<char>) -> Seq<char> {
    match mode {
        TenantMode::Single => seq![],
        TenantMode::Multi => hex_lower(sha256_digest(encode_utf8(uri))),
    }
}

/// The object prefix of a new repository.
pub fn s3_prefix(mode: TenantMode, uri: &str) -> (res: String)
    ensures
        res@ == s3_prefix_of(mode, uri@),
{
    match mode {
        TenantMode::Single => String::new(),
        TenantMode::Multi => sha256_hex(uri.as_bytes()),
    }
}

/// The repository that a creation request made, with the id it was stored under.
pub fn created_repository(id: i64, payload: CreateRepositoryRequest) -> (res: Repository)
    ensures
        res.id == id,
        res.uri == payload.uri,
        res.distribution == payload.distribution,
{
    Repository { id, uri: payload.uri, distribution: payload.distribution }
}

/// An object key under a repository's prefix: the key itself when the prefix is
/// empty, else `{prefix}/{key}`.
pub open spec fn object_key_of(prefix: Seq<char>, key: Seq<char>) -> Seq<char> {
    if prefix.len() == 0 {
        key
    } else {
        prefix + "/"@ + key
    }
}

/// An object key under a repository's prefix.
pub fn object_key(prefix: &str, key: &str) -> (res: String)
    ensures
        res@ == object_key_of(prefix@, key@),
{
    if prefix.unicode_len() == 0 {
        owned(key)
    } else {
        let mut out = owned(prefix);
        append(&mut out, "/");
        append(&mut out, key);
        out
    }
}

/// `dists/{distribution}/{component}/binary-{architecture}/Packages`.
pub open spec fn index_path_of(
    distribution: Seq<char>,
    component: Seq<char>,
    architecture: Seq<char>,
) -> Seq<char> {
    "dists/"@ + distribution + "/"@ + component + "/binary-"@ + architecture + "/Packages"@
}

/// The path of a Packages index within a repository.
pub fn index_path(distribution: &str, component: &str, architecture: &str) -> (res: String)
    ensures
        res@ == index_path_of(distribution@, component@, architecture@),
{
    let mut out = owned("dists/");
    append(&mut out, distribution);
    append(&mut out, "/");
    append(&mut out, component);
    append(&mut out, "/binary-");
    append(&mut out, architecture);
    append(&mut out, "/Packages");
    assert(out@ =~= index_path_of(distribution@, component@, architecture@));
    out
}

/// The packages of one component and architecture, for one index.
#[derive(Clone, Debug)]
pub struct IndexGroup {
    pub component: String,
    pub architecture: String,
    pub packages: Vec<PackageRow>,
}

/// A generated Packages index: where it is staged, its contents, and its digest.
#[derive(Clone, Debug)]
pub struct GeneratedIndex {
    pub component: String,
    pub architecture: String,
    pub key: String,
    pub contents: String,
    pub digest: IndexDigest,
}

/// The index generated for one group is staged at `staging/{index path}` under the
/// repository's prefix, holds the group's packages, and is described by its digest.
pub open spec fn generated_for(
    index: GeneratedIndex,
    group: IndexGroup,
    distribution: Seq<char>,
    prefix: Seq<char>,
) -> bool {
    &&& index.component == group.component
    &&& index.architecture == group.architecture
    &&& index.key@ == object_key_of(
        prefix,
        "staging/"@ + index_path_of(distribution, group.component@, group.architecture@),
    )
    &&& index.contents@ == folded_index_text(group.packages@)
    &&& digests(index.digest, index.contents@)
}

/// Generates the Packages index of every group, in order.
pub fn generate_package_indexes(distribution: &str, s3_prefix: &str, groups: &Vec<IndexGroup>) -> (res:
    Vec<GeneratedIndex>)
    ensures
        res@.len() == groups@.len(),
        forall|i: int|
            0 <= i < groups@.len() ==> generated_for(
                #[trigger] res@[i],
                groups@[i],
                distribution@,
                s3_prefix@,
            ),
{
    let mut out: Vec<GeneratedIndex> = Vec::new();
    let mut i: usize = 0;
    while i < groups.len()
        invariant
            i <= groups.len(),
            out@.len() == i,
            forall|j: int|
                0 <= j < i ==> generated_for(#[trigger] out@[j], groups@[j], distribution@, s3_prefix@),
        decreases groups.len() - i,
    {
        let group = &groups[i];
        let contents = render_folded(&group.packages);
        let digest = index_digest(contents.as_str());
        let mut staged = owned("staging/");
        let path = index_path(distribution, group.component.as_str(), group.architecture.as_str());
        append(&mut staged, path.as_str());
        let key = object_key(s3_prefix, staged.as_str());
        out.push(
            GeneratedIndex {
                component: group.component.clone(),
                architecture: group.architecture.clone(),
                key,
                contents,
                digest,
            },
        );
        i = i + 1;
    }
    out
}

/// A generated Release file, with the listing of architectures and components it
/// shows.
#[derive(Clone, Debug)]
pub struct GeneratedRelease {
    pub key: String,
    pub contents: String,
    pub architectures: Vec<String>,
    pub components: Vec<String>,
}

/// The architectures (or, with `components`, the components) of the groups.
pub open spec fn group_values(groups: Seq<IndexGroup>, components: bool) -> Seq<Seq<char>> {
    groups.map_values(
        |g: IndexGroup|
            if components {
                g.component@
            } else {
                g.architecture@
            },
    )
}

/// The architectures (or components) of the groups, in order.
pub(crate) fn group_value_list(groups: &Vec<IndexGroup>, components: bool) -> (res: Vec<String>)
    ensures
        views(res@) == group_values(groups@, components),
{
    let mut out: Vec<String> = Vec::new();
    let mut i: usize = 0;
    while i < groups.len()
        invariant
            i <= groups.len(),
            views(out@) == group_values(groups@.take(i as int), components),
        decreases groups.len() - i,
    {
        let v = if components {
            groups[i].component.clone()
        } else {
            groups[i].architecture.clone()
        };
        let ghost prev = out@;
        out.push(v);
        proof {
            assert(views(out@) =~= views(prev).push(v@));
            assert(groups@.take(i + 1) =~= groups@.take(i as int).push(groups@[i as int]));
            assert(views(out@) =~= group_values(groups@.take(i + 1), components));
        }
        i = i + 1;
    }
    assert(groups@.take(groups.len() as int) =~= groups@);
    out
}

/// Generates the Release file of a repository, dated `release_ts` (RFC 2822): staged
/// at `staging/dists/{distribution}/Release`, listing each architecture and
/// component of the groups once, and the checksums of the stored indexes. `None`
/// where the moment has no RFC 2822 rendering.
pub fn generate_release_index(
    release: &ReleaseMeta,
    distribution: &str,
    s3_prefix: &str,
    release_ts: ReleaseTimestamp,
    groups: &Vec<IndexGroup>,
    stored: &Vec<IndexRow>,
) -> (res: Option<GeneratedRelease>)
    ensures
        res is Some <==> rfc2822_date(release_ts.unix_seconds, release_ts.offset_seconds) is Some,
        res matches Some(r) ==> {
            &&& r.key@ == object_key_of(s3_prefix@, "staging/dists/"@ + distribution@ + "/Release"@)
            &&& no_duplicates(views(r.architectures@))
            &&& no_duplicates(views(r.components@))
            &&& forall|x: Seq<char>|
                views(r.architectures@).contains(x) <==> group_values(groups@, false).contains(x)
            &&& forall|x: Seq<char>|
                views(r.components@).contains(x) <==> group_values(groups@, true).contains(x)
            &&& r.contents@ == legacy_release_text(
                *release,
                rfc2822_date(release_ts.unix_seconds, release_ts.offset_seconds)->0,
                views(r.architectures@),
                views(r.components@),
                stored@,
            )
        },
{
    let date = match format_rfc2822(release_ts.unix_seconds, release_ts.offset_seconds) {
        Some(d) => d,
        None => {
            return None;
        },
    };
    let archs = distinct_values(&group_value_list(groups, false));
    let comps = distinct_values(&group_value_list(groups, true));
    let contents = render_legacy_release(release, date.as_str(), &archs, &comps, stored);
    let mut staged = owned("staging/dists/");
    append(&mut staged, distribution);
    append(&mut staged, "/Release");
    let key = object_key(s3_prefix, staged.as_str());
    Some(GeneratedRelease { key, contents, architectures: archs, components: comps })
}

/// An object copied within the bucket.
#[derive(Clone, Debug)]
pub struct ObjectCopy {
    /// `{bucket}/{key}` of the object copied.
    pub source: String,
    /// The key of the copy.
    pub key: String,
}

/// An object written into the bucket.
#[derive(Clone, Debug)]
pub struct ObjectPut {
    pub key: String,
    pub body: String,
}

/// The copy source of a staged object: `{bucket}/staging/{path}`, or
/// `{bucket}/{prefix}/staging/{path}` under a prefix.
pub open spec fn staged_source_of(bucket: Seq<char>, prefix: Seq<char>, path: Seq<char>) -> Seq<char> {
    if prefix.len() == 0 {
        bucket + "/staging/"@ + path
    } else {
        bucket + "/"@ + prefix + "/staging/"@ + path
    }
}

/// The copy that publishes a staged object at `path`.
pub fn publish_staged(bucket: &str, prefix: &str, path: &str) -> (res: ObjectCopy)
    ensures
        res.source@ == staged_source_of(bucket@, prefix@, path@),
        res.key@ == object_key_of(prefix@, path@),
{
    let mut source = owned(bucket);
    if prefix.unicode_len() == 0 {
        append(&mut source, "/staging/");
        append(&mut source, path);
    } else {
        append(&mut source, "/");
        append(&mut source, prefix);
        append(&mut source, "/staging/");
        append(&mut source, path);
    }
    ObjectCopy { source, key: object_key(prefix, path) }
}

/// The objects that make a signed release public: the Release file, its detached
/// signature (`Release.gpg`) and the clearsigned file (`InRelease`), under
/// `dists/{distribution}/`.
pub fn release_objects(
    prefix: &str,
    distribution: &str,
    release: String,
    detached: String,
    clearsigned: String,
) -> (res: Vec<ObjectPut>)
    ensures
        res@.len() == 3,
        res@[0].key@ == object_key_of(prefix@, "dists/"@ + distribution@ + "/Release"@),
        res@[0].body == release,
        res@[1].key@ == object_key_of(prefix@, "dists/"@ + distribution@ + "/Release.gpg"@),
        res@[1].body == detached,
        res@[2].key@ == object_key_of(prefix@, "dists/"@ + distribution@ + "/InRelease"@),
        res@[2].body == clearsigned,
{
    let mut release_path = owned("dists/");
    append(&mut release_path, distribution);
    append(&mut release_path, "/Release");
    let mut detached_path = owned("dists/");
    append(&mut detached_path, distribution);
    append(&mut detached_path, "/Release.gpg");
    let mut clearsigned_path = owned("dists/");
    append(&mut clearsigned_path, distribution);
    append(&mut clearsigned_path, "/InRelease");
    let mut out: Vec<ObjectPut> = Vec::new();
    out.push(ObjectPut { key: object_key(prefix, release_path.as_str()), body: release });
    out.push(ObjectPut { key: object_key(prefix, detached_path.as_str()), body: detached });
    out.push(ObjectPut { key: object_key(prefix, clearsigned_path.as_str()), body: clearsigned });
    out
}

/// The pool filename of an uploaded package, by the fields of its control file.
pub fn upload_pool_filename(component: &str, package: &str, version: &str, architecture: &str) -> (res:
    String)
    requires
        package@.len() > 0,
    ensures
        res@ == pool_filename(component@, package@, version@, architecture@),
{
    let first = package.get_char(0);
    let mut out = owned("pool/");
    append(&mut out, component);
    append(&mut out, "/");
    push_char(&mut out, first);
    append(&mut out, "/");
    append(&mut out, package);
    append(&mut out, "/");
    append(&mut out, package);
    append(&mut out, "_");
    append(&mut out, version);
    append(&mut out, "_");
    append(&mut out, architecture);
    append(&mut out, ".deb");
    assert(out@ =~= pool_filename(component@, package@, version@, architecture@));
    out
}

/// The size and checksums of an uploaded package file.
#[derive(Clone, Debug)]
pub struct FileDigest {
    pub size: i64,
    pub md5sum: String,
    pub sha1sum: String,
    pub sha256sum: String,
}

/// The size and checksums of a package file.
pub fn file_digest(content: &[u8]) -> (res: FileDigest)
    ensures
        res.size == content@.len() as i64,
        res.md5sum@ == hex_lower(md5_digest(content@)),
        res.sha1sum@ == hex_lower(sha1_digest(content@)),
        res.sha256sum@ == hex_lower(sha256_digest(content@)),
{
    FileDigest {
        size: content.len() as i64,
        md5sum: md5_hex(content),
        sha1sum: sha1_hex(content),
        sha256sum: sha256_hex(content),
    }
}

} // verus!
