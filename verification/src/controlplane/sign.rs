//! The signing API of the control plane: indexes generated for a release, the
//! Release file with its fingerprint, and the publication of a signed release.
use crate::api::error::{StatusCode, STATUS_BAD_REQUEST};
use crate::apt::release::{format_rfc2822, rfc2822_date, ReleaseMeta, ReleaseTimestamp};
use crate::controlplane::indexes::{
    digests, distinct_values, index_digest, joined_index_text, legacy_release_text, no_duplicates,
    render_joined, render_legacy_release, IndexRow,
};
use crate::controlplane::server::{
    group_value_list, group_values, index_path, index_path_of, GeneratedIndex, IndexGroup,
    ObjectCopy, ObjectPut,
};
use crate::digest::{hex_lower, sha256_digest, sha256_hex};
use crate::text::{append, owned, str_eq, views};
use vstd::prelude::*;
use vstd::string::*;
use vstd::utf8::encode_utf8;

verus! {

/// A generated Release file and its fingerprint.
#[derive(Debug)]
pub struct ReleaseFile {
    pub release: String,
    pub fingerprint: String,
}

/// The signatures of a release, with the fingerprint of the Release file signed.
#[derive(Debug)]
pub struct SyncRepositoryRequest {
    pub fingerprint: String,
    pub clearsigned: String,
    pub detached: String,
}

/// `{prefix}/{path}`: the signing API always separates prefix and path.
pub open spec fn prefixed_of(prefix: Seq<char>, path: Seq<char>) -> Seq<char> {
    prefix + "/"@ + path
}

fn prefixed(prefix: &str, path: &str) -> (res: String)
    ensures
        res@ == prefixed_of(prefix@, path@),
{
    let mut out = owned(prefix);
    append(&mut out, "/");
    append(&mut out, path);
    out
}

/// The index generated for one group by the signing API.
pub open spec fn signed_index_for(
    index: GeneratedIndex,
    group: IndexGroup,
    distribution: Seq<char>,
    prefix: Seq<char>,
) -> bool {
    &&& index.component == group.component
    &&& index.architecture == group.architecture
    &&& index.key@ == prefixed_of(
        prefix,
        "staging/"@ + index_path_of(distribution, group.component@, group.architecture@),
    )
    &&& index.contents@ == joined_index_text(group.packages@)
    &&& digests(index.digest, index.contents@)
}

/// Generates the Packages index of every group of a release, in order.
pub fn generate_indexes(distribution: &str, s3_prefix: &str, groups: &Vec<IndexGroup>) -> (res: Vec<
    GeneratedIndex,
>)
    ensures
        res@.len() == groups@.len(),
        forall|i: int|
            0 <= i < groups@.len() ==> signed_index_for(
                #[trigger] res@[i],
                groups@[i],
                distribution@,
                s3_prefix@,
            ),
{
    let mut out: Vec<GeneratedIndex> = Vec::new();
    let mut i: usize = 0;
    while i < groups.len()
        invariant
            i <= groups.len(),
            out@.len() == i,
            forall|j: int|
                0 <= j < i ==> signed_index_for(#[trigger] out@[j], groups@[j], distribution@, s3_prefix@),
        decreases groups.len() - i,
    {
        let group = &groups[i];
        let contents = render_joined(&group.packages);
        let digest = index_digest(contents.as_str());
        let mut staged = owned("staging/");
        let path = index_path(distribution, group.component.as_str(), group.architecture.as_str());
        append(&mut staged, path.as_str());
        let key = prefixed(s3_prefix, staged.as_str());
        out.push(
            GeneratedIndex {
                component: group.component.clone(),
                architecture: group.architecture.clone(),
                key,
                contents,
                digest,
            },
        );
        i = i + 1;
    }
    out
}

/// The fingerprint of a Release file: the lowercase hex SHA-256 of its bytes.
pub open spec fn fingerprint_of(release: Seq<char>) -> Seq<char> {
    hex_lower(sha256_digest(encode_utf8(release)))
}

/// Generates the Release file of a release, dated `release_ts` (RFC 2822), with its
/// fingerprint and the key it is staged under
/// (`{prefix}/staging/dists/{distribution}/Release`). The Architectures and
/// Components fields list each architecture and component of the groups once, and
/// the checksum tables list the stored indexes. `None` where the moment has no
/// RFC 2822 rendering.
pub fn generate_release(
    release: &ReleaseMeta,
    distribution: &str,
    s3_prefix: &str,
    release_ts: ReleaseTimestamp,
    groups: &Vec<IndexGroup>,
    stored: &Vec<IndexRow>,
) -> (res: Option<(ReleaseFile, String)>)
    ensures
        res is Some <==> rfc2822_date(release_ts.unix_seconds, release_ts.offset_seconds) is Some,
        res matches Some(r) ==> {
            &&& exists|archs: Seq<Seq<char>>, comps: Seq<Seq<char>>|
                {
                    &&& no_duplicates(archs)
                    &&& no_duplicates(comps)
                    &&& forall|x: Seq<char>|
                        archs.contains(x) <==> group_values(groups@, false).contains(x)
                    &&& forall|x: Seq<char>|
                        comps.contains(x) <==> group_values(groups@, true).contains(x)
                    &&& r.0.release@ == legacy_release_text(
                        *release,
                        rfc2822_date(release_ts.unix_seconds, release_ts.offset_seconds)->0,
                        archs,
                        comps,
                        stored@,
                    )
                }
            &&& r.0.fingerprint@ == fingerprint_of(r.0.release@)
            &&& r.1@ == prefixed_of(s3_prefix@, "staging/dists/"@ + distribution@ + "/Release"@)
        },
{
    let date = match format_rfc2822(release_ts.unix_seconds, release_ts.offset_seconds) {
        Some(d) => d,
        None => {
            return None;
        },
    };
    let archs = distinct_values(&group_value_list(groups, false));
    let comps = distinct_values(&group_value_list(groups, true));
    let contents = render_legacy_release(release, date.as_str(), &archs, &comps, stored);
    let fingerprint = sha256_hex(contents.as_str().as_bytes());
    let mut staged = owned("staging/dists/");
    append(&mut staged, distribution);
    append(&mut staged, "/Release");
    let key = prefixed(s3_prefix, staged.as_str());
    proof {
        let a = views(archs@);
        let c = views(comps@);
        assert(date@ == rfc2822_date(release_ts.unix_seconds, release_ts.offset_seconds)->0);
        assert(no_duplicates(a) && no_duplicates(c));
        assert(contents@ == legacy_release_text(*release, date@, a, c, stored@));
    }
    Some((ReleaseFile { release: contents, fingerprint }, key))
}

/// Signatures are accepted only for the Release file last generated: the
/// fingerprint they name must be the one stored; else 400 `Invalid fingerprint`.
pub fn check_fingerprint(stored: &str, request: &SyncRepositoryRequest) -> (res: Result<
    (),
    (StatusCode, &'static str),
>)
    ensures
        res is Ok <==> stored@ == request.fingerprint@,
        res matches Err((status, message)) ==> status == StatusCode(STATUS_BAD_REQUEST)
            && message@ == "Invalid fingerprint"@,
{
    if str_eq(stored, request.fingerprint.as_str()) {
        Ok(())
    } else {
        Err((StatusCode(STATUS_BAD_REQUEST), "Invalid fingerprint"))
    }
}

/// The copy that publishes a staged object at `path`: from
/// `{bucket}/{prefix}/staging/{path}` to `{prefix}/{path}`.
pub fn publish_staged(bucket: &str, prefix: &str, path: &str) -> (res: ObjectCopy)
    ensures
        res.source@ == bucket@ + "/"@ + prefix@ + "/staging/"@ + path@,
        res.key@ == prefixed_of(prefix@, path@),
{
    let mut source = owned(bucket);
    append(&mut source, "/");
    append(&mut source, prefix);
    append(&mut source, "/staging/");
    append(&mut source, path);
    ObjectCopy { source, key: prefixed(prefix, path) }
}

/// The key of a removed package's file: `{prefix}/{filename}`.
pub fn removed_package_key(prefix: &str, filename: &str) -> (res: String)
    ensures
        res@ == prefixed_of(prefix@, filename@),
{
    prefixed(prefix, filename)
}

/// The objects that make a signed release public: the Release file, its detached
/// signature and the clearsigned file, under `{prefix}/dists/{distribution}/`.
pub fn release_objects(
    prefix: &str,
    distribution: &str,
    release: String,
    detached: String,
    clearsigned: String,
) -> (res: Vec<ObjectPut>)
    ensures
        res@.len() == 3,
        res@[0].key@ == prefixed_of(prefix@, "dists/"@ + distribution@ + "/Release"@),
        res@[0].body == release,
        res@[1].key@ == prefixed_of(prefix@, "dists/"@ + distribution@ + "/Release.gpg"@),
        res@[1].body == detached,
        res@[2].key@ == prefixed_of(prefix@, "dists/"@ + distribution@ + "/InRelease"@),
        res@[2].body == clearsigned,
{
    let mut release_path = owned("dists/");
    append(&mut release_path, distribution);
    append(&mut release_path, "/Release");
    let mut detached_path = owned("dists/");
    append(&mut detached_path, distribution);
    append(&mut detached_path, "/Release.gpg");
    let mut clearsigned_path = owned("dists/");
    append(&mut clearsigned_path, distribution);
    append(&mut clearsigned_path, "/InRelease");
    let mut out: Vec<ObjectPut> = Vec::new();
    out.push(ObjectPut { key: prefixed(prefix, release_path.as_str()), body: release });
    out.push(ObjectPut { key: prefixed(prefix, detached_path.as_str()), body: detached });
    out.push(ObjectPut { key: prefixed(prefix, clearsigned_path.as_str()), body: clearsigned });
    out
}

} // verus!
