use attune::apt::package::{package_eq_by_meta, Package, PackageByMeta, PublishedPackage};
use attune::apt::packages_index::PackagesIndex;

fn package(name: &str, bucket: &str, md5: &str, sha1: &str, sha256: &str) -> Package {
    Package {
        name: String::from(name),
        version: String::from("1.0.0"),
        architecture: String::from("amd64"),
        paragraph: vec![],
        size: 0,
        s3_bucket: String::from(bucket),
        md5sum: String::from(md5),
        sha1sum: String::from(sha1),
        sha256sum: String::from(sha256),
    }
}

fn described(name: &str, size: i64) -> Package {
    Package {
        name: String::from(name),
        version: String::from("2.1"),
        architecture: String::from("arm64"),
        paragraph: vec![
            (String::from("Package"), String::from(name)),
            (String::from("Version"), String::from("2.1")),
        ],
        size,
        s3_bucket: String::from("bucket"),
        md5sum: String::from("m"),
        sha1sum: String::from("s1"),
        sha256sum: String::from("s256"),
    }
}

/// Generating a Packages index that contains zero packages is guaranteed to
/// produce the empty string.
#[test]
fn empty_when_no_packages() {
    assert_eq!(PackagesIndex::render(&vec![]), "");
}

/// Rendering the same set of packages multiple times should produce the same result.
#[test]
fn deterministic_render() {
    let packages = (1..10)
        .map(|i| {
            PublishedPackage::from_package(
                package(
                    &format!("foo_{}", i),
                    &format!("fake_bucket_{}", i),
                    &format!("fake_md5sum_{}", i),
                    &format!("fake_sha1sum_{}", i),
                    &format!("fake_sha256sum_{}", i),
                ),
                "fake_component",
            )
        })
        .collect::<Vec<PublishedPackage>>();
    let first = PackagesIndex::from_packages("main", "amd64", packages.clone()).contents;
    let second = PackagesIndex::from_packages("main", "amd64", packages).contents;
    assert_eq!(first, second);
}

/// Adding a package that is already in the index is a no-op.
#[test]
fn idempotent_when_add_existing() {
    let package = package("foo", "fake_bucket", "fake_md5sum", "fake_sha1sum", "fake_sha256sum");
    let published = PublishedPackage::from_package(package.clone(), "fake_component");
    let mut index = PackagesIndex::from_packages("main", "amd64", vec![published]);
    let before = index.contents.clone();
    index.add_package(package);
    let after = index.contents.clone();
    assert_eq!(before, after);
}

#[test]
fn pool_filename_uses_first_letter_of_name() {
    let p = described("hello", 7);
    assert_eq!(p.pool_filename_in_component("main"), "pool/main/h/hello/hello_2.1_arm64.deb");
    let published = PublishedPackage::from_package(p, "contrib");
    assert_eq!(published.filename, "pool/contrib/h/hello/hello_2.1_arm64.deb");
}

#[test]
fn render_writes_stanzas_separated_by_blank_lines() {
    let a = PublishedPackage::from_package(described("alpha", 10), "main");
    let b = PublishedPackage::from_package(described("beta", -3), "main");
    let text = PackagesIndex::render(&vec![a, b]);
    assert_eq!(
        text,
        "Package: alpha\nVersion: 2.1\nFilename: pool/main/a/alpha/alpha_2.1_arm64.deb\nSize: 10\nMD5sum: m\nSHA1: s1\nSHA256: s256\n\nPackage: beta\nVersion: 2.1\nFilename: pool/main/b/beta/beta_2.1_arm64.deb\nSize: -3\nMD5sum: m\nSHA1: s1\nSHA256: s256\n"
    );
}

#[test]
fn empty_index_has_size_and_checksums_of_nothing() {
    let index = PackagesIndex::from_packages("main", "amd64", vec![]);
    assert_eq!(index.contents, "");
    assert_eq!(index.meta.component, "main");
    assert_eq!(index.meta.architecture, "amd64");
    assert_eq!(index.meta.size, 0);
    assert_eq!(index.meta.md5sum, "d41d8cd98f00b204e9800998ecf8427e");
    assert_eq!(index.meta.sha1sum, "da39a3ee5e6b4b0d3255bfef95601890afd80709");
    assert_eq!(
        index.meta.sha256sum,
        "e3b0c44298fc1c149afbf4c8996fb92427ae41e4649b934ca495991b7852b855"
    );
}

#[test]
fn meta_describes_rendered_contents() {
    let a = PublishedPackage::from_package(described("alpha", 10), "main");
    let index = PackagesIndex::from_packages("main", "arm64", vec![a]);
    assert_eq!(index.meta.size, index.contents.len() as i64);
    assert_eq!(index.meta.sha256sum, attune::digest::sha256_hex(index.contents.as_bytes()));
    assert_eq!(index.meta.md5sum, attune::digest::md5_hex(index.contents.as_bytes()));
    assert_eq!(index.meta.sha1sum, attune::digest::sha1_hex(index.contents.as_bytes()));
}

#[test]
fn add_package_appends_and_rerenders() {
    let a = PublishedPackage::from_package(described("alpha", 10), "main");
    let mut index = PackagesIndex::from_packages("main", "arm64", vec![a.clone()]);
    index.add_package(described("beta", 4));
    assert_eq!(index.packages.len(), 2);
    assert_eq!(index.packages[1].filename, "pool/main/b/beta/beta_2.1_arm64.deb");
    let expected = PackagesIndex::from_packages(
        "main",
        "arm64",
        vec![a, PublishedPackage::from_package(described("beta", 4), "main")],
    );
    assert_eq!(index.contents, expected.contents);
    assert_eq!(index.meta.size, expected.meta.size);
    assert_eq!(index.meta.sha256sum, expected.meta.sha256sum);
}

#[test]
fn remove_undoes_add() {
    let a = PublishedPackage::from_package(described("alpha", 10), "main");
    let mut index = PackagesIndex::from_packages("main", "arm64", vec![a]);
    let before = index.clone();
    index.add_package(described("beta", 4));
    assert_ne!(index.contents, before.contents);
    index.remove_package(PublishedPackage::from_package(described("beta", 4), "main"));
    assert_eq!(index.contents, before.contents);
    assert_eq!(index.meta.size, before.meta.size);
    assert_eq!(index.meta.md5sum, before.meta.md5sum);
    assert_eq!(index.meta.sha1sum, before.meta.sha1sum);
    assert_eq!(index.meta.sha256sum, before.meta.sha256sum);
}

#[test]
fn remove_drops_every_package_with_the_same_meta() {
    let a = PublishedPackage::from_package(described("alpha", 10), "main");
    let mut other = described("alpha", 99);
    other.md5sum = String::from("different");
    let a2 = PublishedPackage::from_package(other, "main");
    let b = PublishedPackage::from_package(described("beta", 4), "main");
    let mut index = PackagesIndex::from_packages("main", "arm64", vec![a.clone(), b.clone(), a2]);
    index.remove_package(a);
    assert_eq!(index.packages.len(), 1);
    assert_eq!(index.packages[0].package.name, "beta");
    assert_eq!(index.contents, PackagesIndex::render(&vec![b]));
}

#[test]
fn remove_absent_package_changes_nothing() {
    let a = PublishedPackage::from_package(described("alpha", 10), "main");
    let mut index = PackagesIndex::from_packages("main", "arm64", vec![a]);
    let before = index.clone();
    index.remove_package(PublishedPackage::from_package(described("gamma", 1), "main"));
    assert_eq!(index.contents, before.contents);
    assert_eq!(index.meta.sha256sum, before.meta.sha256sum);
    assert_eq!(index.packages.len(), 1);
}

#[test]
fn removing_last_package_empties_index() {
    let a = PublishedPackage::from_package(described("alpha", 10), "main");
    let mut index = PackagesIndex::from_packages("main", "arm64", vec![a.clone()]);
    index.remove_package(a);
    assert_eq!(index.contents, "");
    assert_eq!(index.meta.size, 0);
    assert_eq!(index.meta.md5sum, "d41d8cd98f00b204e9800998ecf8427e");
}

#[test]
fn package_equality_by_meta() {
    let a = described("alpha", 10);
    let mut b = described("alpha", 11);
    b.sha256sum = String::from("other");
    assert!(package_eq_by_meta(&a, &b));
    assert!(PackageByMeta(a.clone()) == PackageByMeta(b.clone()));
    let mut c = a.clone();
    c.version = String::from("2.2");
    assert!(!package_eq_by_meta(&a, &c));
    assert!(PackageByMeta(a) != PackageByMeta(c));
}

#[test]
fn removing_twice_is_removing_once() {
    let a = PublishedPackage::from_package(described("alpha", 10), "main");
    let b = PublishedPackage::from_package(described("beta", 4), "main");
    let mut index = PackagesIndex::from_packages("main", "arm64", vec![a.clone(), b]);
    index.remove_package(a.clone());
    let once = index.clone();
    index.remove_package(a);
    assert_eq!(index.contents, once.contents);
    assert_eq!(index.meta.sha256sum, once.meta.sha256sum);
    assert_eq!(index.packages.len(), 1);
}
