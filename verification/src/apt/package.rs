//! Binary packages, and packages as published in a component's pool.
use crate::text::{append, owned, push_char};
use vstd::prelude::*;
use vstd::string::*;

verus! {

/// A binary package known to a tenant.
///
/// `paragraph` holds the fields of the package's control paragraph, in the order
/// in which they are rendered into a Packages index.
#[derive(Clone, Debug)]
pub struct Package {
    pub name: String,
    pub version: String,
    pub architecture: String,
    pub paragraph: Vec<(String, String)>,
    pub size: i64,
    pub s3_bucket: String,
    pub md5sum: String,
    pub sha1sum: String,
    pub sha256sum: String,
}

/// Where a package lives in the pool of `component`:
/// `pool/{component}/{first letter}/{name}/{name}_{version}_{architecture}.deb`.
pub open spec fn pool_filename(
    component: Seq<char>,
    name: Seq<char>,
    version: Seq<char>,
    architecture: Seq<char>,
) -> Seq<char> {
    "pool/"@ + component + "/"@ + seq![name[0]] + "/"@ + name + "/"@ + name + "_"@ + version + "_"@
        + architecture + ".deb"@
}

/// Two packages agree on their identifying triple (name, version, architecture).
pub open spec fn same_meta(a: Package, b: Package) -> bool {
    &&& a.name@ == b.name@
    &&& a.version@ == b.version@
    &&& a.architecture@ == b.architecture@
}

impl Package {
    /// The package's filename in the pool of `component`.
    ///
    /// The package name stands in for the source package name, whose first letter
    /// selects the pool subdirectory.
    pub fn pool_filename_in_component(&self, component: &str) -> (res: String)
        requires
            self.name@.len() > 0,
        ensures
            res@ == pool_filename(component@, self.name@, self.version@, self.architecture@),
    {
        let first = self.name.as_str().get_char(0);
        let mut out = owned("pool/");
        append(&mut out, component);
        append(&mut out, "/");
        push_char(&mut out, first);
        append(&mut out, "/");
        append(&mut out, self.name.as_str());
        append(&mut out, "/");
        append(&mut out, self.name.as_str());
        append(&mut out, "_");
        append(&mut out, self.version.as_str());
        append(&mut out, "_");
        append(&mut out, self.architecture.as_str());
        append(&mut out, ".deb");
        assert(out@ =~= pool_filename(component@, self.name@, self.version@, self.architecture@));
        out
    }
}

/// Whether two packages have the same (name, version, architecture).
pub fn package_eq_by_meta(a: &Package, b: &Package) -> (res: bool)
    ensures
        res == same_meta(*a, *b),
{
    a.name == b.name && a.version == b.version && a.architecture == b.architecture
}

/// Equality by metadata is an equivalence relation.
pub proof fn same_meta_is_equivalence(a: Package, b: Package, c: Package)
    ensures
        same_meta(a, a),
        same_meta(a, b) == same_meta(b, a),
        same_meta(a, b) && same_meta(b, c) ==> same_meta(a, c),
{
}

/// Two packages are the same index entry exactly when their names, versions and
/// architectures are equal as whole strings: packages that differ in any character
/// of any of the three are different entries.
pub proof fn same_entry_iff_equal_triple(a: Package, b: Package)
    ensures
        same_meta(a, b) <==> (a.name@ == b.name@ && a.version@ == b.version@
            && a.architecture@ == b.architecture@),
        a.version@ != b.version@ ==> !same_meta(a, b),
        a.name@ != b.name@ ==> !same_meta(a, b),
        a.architecture@ != b.architecture@ ==> !same_meta(a, b),
{
}

/// A package compared by its (name, version, architecture) only, for use in sets.
#[derive(Clone, Debug)]
pub struct PackageByMeta(pub Package);

impl PartialEq for PackageByMeta {
    fn eq(&self, other: &Self) -> (res: bool) {
        package_eq_by_meta(&self.0, &other.0)
    }
}

impl vstd::std_specs::cmp::PartialEqSpecImpl for PackageByMeta {
    open spec fn obeys_eq_spec() -> bool {
        true
    }

    open spec fn eq_spec(&self, other: &Self) -> bool {
        same_meta(self.0, other.0)
    }
}

impl Eq for PackageByMeta {

}

/// A package as published in a component: the package and its pool filename.
#[derive(Clone, Debug)]
pub struct PublishedPackage {
    pub package: Package,
    pub filename: String,
}

impl PublishedPackage {
    /// Publishes `package` in `component`, at its pool filename there.
    pub fn from_package(package: Package, component: &str) -> (res: Self)
        requires
            package.name@.len() > 0,
        ensures
            res.package == package,
            res.filename@ == pool_filename(
                component@,
                package.name@,
                package.version@,
                package.architecture@,
            ),
    {
        let filename = package.pool_filename_in_component(component);
        PublishedPackage { filename, package }
    }
}

/// A published package compared by its package's (name, version, architecture).
#[derive(Clone, Debug)]
pub struct PublishedPackageByMeta(pub PublishedPackage);

impl PartialEq for PublishedPackageByMeta {
    fn eq(&self, other: &Self) -> (res: bool) {
        package_eq_by_meta(&self.0.package, &other.0.package)
    }
}

impl vstd::std_specs::cmp::PartialEqSpecImpl for PublishedPackageByMeta {
    open spec fn obeys_eq_spec() -> bool {
        true
    }

    open spec fn eq_spec(&self, other: &Self) -> bool {
        same_meta(self.0.package, other.0.package)
    }
}

impl Eq for PublishedPackageByMeta {

}

} // verus!
