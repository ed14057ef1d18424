use attune::apt::packages_index::PackagesIndexMeta;
use attune::apt::release::{release_fields_text, sorted_unique, ReleaseFile, ReleaseMeta, ReleaseTimestamp};

fn meta() -> ReleaseMeta {
    ReleaseMeta {
        description: Some(String::from("desc")),
        origin: Some(String::from("Attune")),
        label: None,
        version: None,
        suite: String::from("stable"),
        codename: String::from("bookworm"),
    }
}

fn index(component: &str, architecture: &str, size: i64, md5: &str, sha256: &str) -> PackagesIndexMeta {
    PackagesIndexMeta {
        component: String::from(component),
        architecture: String::from(architecture),
        size,
        md5sum: String::from(md5),
        sha1sum: String::from("unused"),
        sha256sum: String::from(sha256),
    }
}

fn indexes() -> Vec<PackagesIndexMeta> {
    vec![
        index("main", "arm64", 100, "m1", "s1"),
        index("main", "amd64", 5, "m2", "s2"),
        index("contrib", "amd64", 42, "m3", "s3"),
    ]
}

#[test]
fn release_file_at_epoch() {
    let ts = ReleaseTimestamp { unix_seconds: 0, offset_seconds: 0 };
    let file = ReleaseFile::from_indexes(meta(), ts, &indexes());
    assert_eq!(
        file.contents,
        "Origin: Attune\nSuite: stable\nCodename: bookworm\nDate: Thu, 01 Jan 1970 00:00:00 +0000\nArchitectures: amd64 arm64\nComponents: contrib main\nDescription: desc\nMD5Sum:\n m1 100 main/binary-arm64/Packages\n m2   5 main/binary-amd64/Packages\n m3  42 contrib/binary-amd64/Packages\nSHA256:\n s1 100 main/binary-arm64/Packages\n s2   5 main/binary-amd64/Packages\n s3  42 contrib/binary-amd64/Packages\n"
    );
    assert_eq!(file.meta.suite, "stable");
}

#[test]
fn release_date_in_offset() {
    let ts = ReleaseTimestamp { unix_seconds: 86400 + 3600, offset_seconds: 7200 };
    let file = ReleaseFile::try_from_indexes(meta(), ts, &vec![]).unwrap();
    assert!(file.contents.contains("Date: Fri, 02 Jan 1970 03:00:00 +0200\n"));
    assert!(file.contents.contains("Architectures: \nComponents: \n"));
    assert!(file.contents.ends_with("MD5Sum:\nSHA256:\n"));
}

#[test]
fn release_before_1900_cannot_be_dated() {
    let ts = ReleaseTimestamp { unix_seconds: -2_300_000_000, offset_seconds: 0 };
    assert!(ReleaseFile::try_from_indexes(meta(), ts, &indexes()).is_none());
}

#[test]
fn release_listing_ignores_index_order() {
    let ts = ReleaseTimestamp { unix_seconds: 1_700_000_000, offset_seconds: 0 };
    let mut reordered = indexes();
    reordered.reverse();
    let a = ReleaseFile::from_indexes(meta(), ts, &indexes());
    let b = ReleaseFile::from_indexes(meta(), ts, &reordered);
    let fields = |s: &str| s.split("MD5Sum:").next().unwrap().to_string();
    assert_eq!(fields(&a.contents), fields(&b.contents));
}

#[test]
fn release_fields_skip_unset_optionals() {
    let mut m = meta();
    m.description = None;
    m.origin = None;
    m.label = Some(String::from("L"));
    m.version = Some(String::from("1"));
    assert_eq!(
        release_fields_text(&m, "D", "a b", "c"),
        "Label: L\nVersion: 1\nSuite: stable\nCodename: bookworm\nDate: D\nArchitectures: a b\nComponents: c\n"
    );
}

#[test]
fn sorted_unique_sorts_and_dedups() {
    let v = vec!["main", "contrib", "main", "non-free", "contrib"];
    assert_eq!(sorted_unique(&v), vec!["contrib", "main", "non-free"]);
    assert_eq!(sorted_unique(&vec![]), Vec::<String>::new());
}
