use attune::apt::release::{ReleaseMeta, ReleaseTimestamp};
use attune::controlplane::auth::{
    hash_token, token_added_message, token_list_output, token_removed_message, ApiTokenRow,
};
use attune::controlplane::indexes::{
    distinct_values, index_digest, render_folded, render_joined, render_legacy_release,
    space_prefixed_text, IndexRow, PackageRow,
};
use attune::controlplane::server::{
    created_repository, file_digest, generate_package_indexes, generate_release_index, index_path,
    object_key, publish_staged, release_objects, s3_prefix, upload_pool_filename,
    CreateRepositoryRequest, IndexGroup, TenantMode,
};
use attune::controlplane::sign;
use attune::digest::{sha256, sha256_hex};

fn row(name: &str, size: i64) -> PackageRow {
    PackageRow {
        paragraph: vec![(String::from("Package"), String::from(name))],
        filename: format!("pool/main/{}/{}/{}_1_amd64.deb", &name[0..1], name, name),
        size,
        md5sum: String::from("m"),
        sha1sum: String::from("s1"),
        sha256sum: String::from("s2"),
    }
}

fn stored(component: &str, architecture: &str, size: i64, md5: &str, sha256: &str) -> IndexRow {
    IndexRow {
        component: String::from(component),
        architecture: String::from(architecture),
        size,
        md5sum: String::from(md5),
        sha1sum: String::from("x"),
        sha256sum: String::from(sha256),
    }
}

const EPOCH_DATE: &str = "Thu, 01 Jan 1970 00:00:00 +0000";

fn epoch() -> ReleaseTimestamp {
    ReleaseTimestamp { unix_seconds: 0, offset_seconds: 0 }
}

fn before_1900() -> ReleaseTimestamp {
    ReleaseTimestamp { unix_seconds: -2_300_000_000, offset_seconds: 0 }
}

fn meta() -> ReleaseMeta {
    ReleaseMeta {
        description: None,
        origin: Some(String::from("o")),
        label: None,
        version: None,
        suite: String::from("stable"),
        codename: String::from("stable"),
    }
}

#[test]
fn token_hash_is_sha256_of_secret_and_token() {
    let h = hash_token("sec", "ret");
    assert_eq!(h, sha256(b"secret"));
    assert_eq!(hex::encode(&h), "2bb80d537b1da3e38bd30361aa855686bde0eacd7162fef6a25fe97bf527a25b");
    assert_eq!(hash_token("sec", "ret"), hash_token("sec", "ret"));
    assert_ne!(hash_token("sec", "ret"), hash_token("sec", "reu"));
}

#[test]
fn joined_and_folded_indexes() {
    let rows = vec![row("a", 1), row("b", 2)];
    assert_eq!(
        render_joined(&rows),
        "Package: a\nFilename: pool/main/a/a/a_1_amd64.deb\nSize: 1\nMD5sum: m\nSHA1: s1\nSHA256: s2\n\nPackage: b\nFilename: pool/main/b/b/b_1_amd64.deb\nSize: 2\nMD5sum: m\nSHA1: s1\nSHA256: s2\n"
    );
    assert_eq!(
        render_folded(&rows),
        "Package: a\nFilename: pool/main/a/a/a_1_amd64.deb\nSize: 1\nMD5sum: m\nSHA1: s1\nSHA256: s2\n\nPackage: b\nFilename: pool/main/b/b/b_1_amd64.deb\nSize: 2\nMD5sum: m\nSHA1: s1\nSHA256: s2\n\n"
    );
    assert_eq!(render_joined(&vec![]), "\n");
    assert_eq!(render_folded(&vec![]), "");
}

#[test]
fn digest_of_index_contents() {
    let d = index_digest("abc");
    assert_eq!(d.size, 3);
    assert_eq!(d.md5sum, "900150983cd24fb0d6963f7d28e17f72");
    assert_eq!(d.sha1sum, "a9993e364706816aba3e25717850c26c9cd0d89d");
    assert_eq!(d.sha256sum, "ba7816bf8f01cfea414140de5dae2223b00361a396177a9cb410ff61f20015ad");
    let f = file_digest(b"abc");
    assert_eq!((f.size, f.md5sum, f.sha256sum), (d.size, d.md5sum, d.sha256sum));
}

#[test]
fn distinct_values_once_each() {
    let values: Vec<String> = ["b", "a", "b", "c", "a"].iter().map(|s| s.to_string()).collect();
    let out = distinct_values(&values);
    assert_eq!(out.len(), 3);
    for v in ["a", "b", "c"] {
        assert_eq!(out.iter().filter(|x| x.as_str() == v).count(), 1);
    }
    assert_eq!(space_prefixed_text(&vec![String::from("a"), String::from("b")]), " a b");
    assert_eq!(space_prefixed_text(&vec![]), "");
}

#[test]
fn legacy_release_file() {
    let rows = vec![stored("main", "amd64", 100, "m1", "s1"), stored("main", "arm64", 5, "m22", "s22")];
    let text = render_legacy_release(
        &meta(),
        "Thu, 01 Jan 1970 00:00:00 +0000",
        &vec![String::from("amd64"), String::from("arm64")],
        &vec![String::from("main")],
        &rows,
    );
    assert_eq!(
        text,
        "Origin: o\nSuite: stable\nCodename: stable\nDate: Thu, 01 Jan 1970 00:00:00 +0000\nArchitectures:  amd64 arm64\nComponents:  main\nMD5Sum:\n m1   100 main/binary-amd64/Packages\n m22  5 main/binary-arm64/Packages\nSHA256:\n s1   100 main/binary-amd64/Packages\n s22  5 main/binary-arm64/Packages\n"
    );
}

#[test]
fn repository_keys_and_prefixes() {
    assert_eq!(s3_prefix(TenantMode::Single, "https://x"), "");
    assert_eq!(s3_prefix(TenantMode::Multi, "abc"), sha256_hex(b"abc"));
    assert_eq!(object_key("", "dists/x"), "dists/x");
    assert_eq!(object_key("p", "dists/x"), "p/dists/x");
    assert_eq!(index_path("stable", "main", "amd64"), "dists/stable/main/binary-amd64/Packages");
    assert_eq!(upload_pool_filename("main", "hello", "1.0", "all"), "pool/main/h/hello/hello_1.0_all.deb");
    let repo = created_repository(
        5,
        CreateRepositoryRequest {
            uri: String::from("u"),
            distribution: String::from("d"),
            origin: None,
            label: None,
            version: None,
            suite: None,
            codename: None,
            description: None,
        },
    );
    assert_eq!((repo.id, repo.uri.as_str(), repo.distribution.as_str()), (5, "u", "d"));
}

#[test]
fn publication_objects() {
    let copy = publish_staged("bucket", "", "dists/x/Release");
    assert_eq!(copy.source, "bucket/staging/dists/x/Release");
    assert_eq!(copy.key, "dists/x/Release");
    let copy = publish_staged("bucket", "pre", "dists/x/Release");
    assert_eq!(copy.source, "bucket/pre/staging/dists/x/Release");
    assert_eq!(copy.key, "pre/dists/x/Release");
    let objects = release_objects("", "x", String::from("R"), String::from("D"), String::from("C"));
    let keys: Vec<&str> = objects.iter().map(|o| o.key.as_str()).collect();
    assert_eq!(keys, vec!["dists/x/Release", "dists/x/Release.gpg", "dists/x/InRelease"]);
    let bodies: Vec<&str> = objects.iter().map(|o| o.body.as_str()).collect();
    assert_eq!(bodies, vec!["R", "D", "C"]);
}

#[test]
fn generated_package_indexes() {
    let groups = vec![
        IndexGroup { component: String::from("main"), architecture: String::from("amd64"), packages: vec![row("a", 1)] },
        IndexGroup { component: String::from("contrib"), architecture: String::from("arm64"), packages: vec![] },
    ];
    let out = generate_package_indexes("stable", "", &groups);
    assert_eq!(out.len(), 2);
    assert_eq!(out[0].key, "staging/dists/stable/main/binary-amd64/Packages");
    assert_eq!(out[0].contents, render_folded(&groups[0].packages));
    assert_eq!(out[0].digest.sha256sum, sha256_hex(out[0].contents.as_bytes()));
    assert_eq!(out[1].key, "staging/dists/stable/contrib/binary-arm64/Packages");
    assert_eq!(out[1].contents, "");
    assert_eq!(out[1].digest.size, 0);
    let signed = sign::generate_indexes("stable", "pre", &groups);
    assert_eq!(signed[0].key, "pre/staging/dists/stable/main/binary-amd64/Packages");
    assert_eq!(signed[0].contents, render_joined(&groups[0].packages));
    assert_eq!(signed[1].contents, "\n");
    assert_eq!(signed[1].digest.size, 1);
}

#[test]
fn generated_release_index() {
    let groups = vec![
        IndexGroup { component: String::from("main"), architecture: String::from("amd64"), packages: vec![] },
        IndexGroup { component: String::from("main"), architecture: String::from("arm64"), packages: vec![] },
        IndexGroup { component: String::from("contrib"), architecture: String::from("amd64"), packages: vec![] },
    ];
    let rows = vec![stored("main", "amd64", 3, "m", "s")];
    assert!(generate_release_index(&meta(), "stable", "pre", before_1900(), &groups, &rows).is_none());
    let out = generate_release_index(&meta(), "stable", "pre", epoch(), &groups, &rows).unwrap();
    assert_eq!(out.key, "pre/staging/dists/stable/Release");
    let mut archs = out.architectures.clone();
    archs.sort();
    assert_eq!(archs, vec!["amd64", "arm64"]);
    let mut comps = out.components.clone();
    comps.sort();
    assert_eq!(comps, vec!["contrib", "main"]);
    assert_eq!(
        out.contents,
        render_legacy_release(&meta(), EPOCH_DATE, &out.architectures, &out.components, &rows)
    );
}

#[test]
fn signing_api_release_and_fingerprint() {
    let rows = vec![stored("main", "amd64", 3, "m", "s")];
    let groups = vec![
        IndexGroup { component: String::from("main"), architecture: String::from("amd64"), packages: vec![] },
        IndexGroup { component: String::from("main"), architecture: String::from("amd64"), packages: vec![] },
    ];
    assert!(sign::generate_release(&meta(), "stable", "pre", before_1900(), &groups, &rows).is_none());
    let (file, key) = sign::generate_release(&meta(), "stable", "pre", epoch(), &groups, &rows).unwrap();
    assert_eq!(
        file.release,
        render_legacy_release(&meta(), EPOCH_DATE, &vec![String::from("amd64")], &vec![String::from("main")], &rows)
    );
    assert_eq!(key, "pre/staging/dists/stable/Release");
    assert_eq!(file.fingerprint, sha256_hex(file.release.as_bytes()));
    let ok = sign::SyncRepositoryRequest {
        fingerprint: file.fingerprint.clone(),
        clearsigned: String::from("c"),
        detached: String::from("d"),
    };
    assert!(sign::check_fingerprint(&file.fingerprint, &ok).is_ok());
    let stale = sign::SyncRepositoryRequest {
        fingerprint: String::from("0000"),
        clearsigned: String::from("c"),
        detached: String::from("d"),
    };
    let err = sign::check_fingerprint(&file.fingerprint, &stale).unwrap_err();
    assert_eq!(err.0.as_u16(), 400);
    assert_eq!(err.1, "Invalid fingerprint");
    let copy = sign::publish_staged("b", "pre", "dists/stable/Release");
    assert_eq!(copy.source, "b/pre/staging/dists/stable/Release");
    assert_eq!(copy.key, "pre/dists/stable/Release");
    assert_eq!(sign::removed_package_key("pre", "pool/x.deb"), "pre/pool/x.deb");
    let objects = sign::release_objects("pre", "stable", String::from("R"), String::from("D"), String::from("C"));
    assert_eq!(objects[2].key, "pre/dists/stable/InRelease");
    assert_eq!(objects[1].key, "pre/dists/stable/Release.gpg");
}

#[test]
fn token_table_and_messages() {
    let out = token_list_output(&vec![
        ApiTokenRow { id: 7, name: String::from("ci"), token: vec![0xab, 0x01] },
        ApiTokenRow { id: -1, name: String::from("x"), token: vec![] },
    ]);
    assert_eq!(
        out,
        "+----+------+----------------+\n| ID | Name | SHA-256(token) |\n+----+------+----------------+\n| 7  | ci   | ab01           |\n+----+------+----------------+\n| -1 | x    |                |\n+----+------+----------------+"
    );
    assert_eq!(token_added_message(12), "Added token with ID 12");
    assert_eq!(token_removed_message(3), "Removed token with ID 3");
}
