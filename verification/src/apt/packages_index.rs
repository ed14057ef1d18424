//! Packages indexes: the per-(component, architecture) list of published packages.
use crate::apt::package::{pool_filename, same_meta, Package, PublishedPackage, package_eq_by_meta};
use crate::digest::{hex_lower, md5_digest, md5_hex, sha1_digest, sha1_hex, sha256_digest, sha256_hex};
use crate::text::{concat2, concat3, i64_decimal, int_decimal, join, join_strings, views};
use vstd::prelude::*;
use vstd::string::*;
use vstd::utf8::encode_utf8;

verus! {

/// Size and checksums of a Packages index, for one component and architecture.
#[derive(Clone, Debug)]
pub struct PackagesIndexMeta {
    pub component: String,
    pub architecture: String,
    pub size: i64,
    pub md5sum: String,
    pub sha1sum: String,
    pub sha256sum: String,
}

/// A rendered Packages index with the packages it lists.
///
/// `wf` ties the three fields together: the contents render the packages, and the
/// metadata gives the size and checksums of the contents.
#[derive(Clone, Debug)]
pub struct PackagesIndex {
    pub meta: PackagesIndexMeta,
    pub contents: String,
    pub packages: Vec<PublishedPackage>,
}

/// One control field line: `Key: value`.
pub open spec fn field_line(key: Seq<char>, value: Seq<char>) -> Seq<char> {
    key + ": "@ + value
}

/// The lines of one package's stanza: its control fields, then the fields that
/// locate and check the package file.
pub open spec fn stanza_lines(p: PublishedPackage) -> Seq<Seq<char>> {
    p.package.paragraph@.map_values(|f: (String, String)| field_line(f.0@, f.1@)) + seq![
        "Filename: "@ + p.filename@,
        "Size: "@ + int_decimal(p.package.size as int),
        "MD5sum: "@ + p.package.md5sum@,
        "SHA1: "@ + p.package.sha1sum@,
        "SHA256: "@ + p.package.sha256sum@,
    ]
}

/// One package's stanza: its lines separated by newlines.
pub open spec fn stanza(p: PublishedPackage) -> Seq<char> {
    join(stanza_lines(p), "\n"@)
}

/// The text of a Packages index: the stanzas in order, separated by blank lines and
/// ended by a newline; the empty text when there are no packages.
pub open spec fn index_text(packages: Seq<PublishedPackage>) -> Seq<char> {
    if packages.len() == 0 {
        seq![]
    } else {
        join(packages.map_values(|p: PublishedPackage| stanza(p)), "\n\n"@) + "\n"@
    }
}

/// `meta` gives the byte size and the checksums of the UTF-8 encoding of `contents`.
pub open spec fn describes(meta: PackagesIndexMeta, contents: Seq<char>) -> bool {
    let bytes = encode_utf8(contents);
    &&& meta.size == bytes.len() as i64
    &&& meta.md5sum@ == hex_lower(md5_digest(bytes))
    &&& meta.sha1sum@ == hex_lower(sha1_digest(bytes))
    &&& meta.sha256sum@ == hex_lower(sha256_digest(bytes))
}

/// Some package in `packages` has the same (name, version, architecture) as `p`.
pub open spec fn has_meta(packages: Seq<PublishedPackage>, p: Package) -> bool {
    exists|i: int| 0 <= i < packages.len() && same_meta(#[trigger] packages[i].package, p)
}

/// Holds of the published packages that do not share `p`'s (name, version, architecture).
pub open spec fn differs_from(p: Package) -> spec_fn(PublishedPackage) -> bool {
    |q: PublishedPackage| !same_meta(q.package, p)
}

/// The packages of `packages` that do not share `p`'s (name, version, architecture).
pub open spec fn without_meta(packages: Seq<PublishedPackage>, p: Package) -> Seq<PublishedPackage> {
    packages.filter(differs_from(p))
}

/// Two indexes agree on everything they show: metadata and contents.
pub open spec fn same_index(a: PackagesIndex, b: PackagesIndex) -> bool {
    &&& a.meta.component@ == b.meta.component@
    &&& a.meta.architecture@ == b.meta.architecture@
    &&& a.meta.size == b.meta.size
    &&& a.meta.md5sum@ == b.meta.md5sum@
    &&& a.meta.sha1sum@ == b.meta.sha1sum@
    &&& a.meta.sha256sum@ == b.meta.sha256sum@
    &&& a.contents@ == b.contents@
}

/// The stanza lines of one package.
fn stanza_lines_of(p: &PublishedPackage) -> (res: Vec<String>)
    ensures
        views(res@) == stanza_lines(*p),
{
    let mut lines: Vec<String> = Vec::new();
    let fields = &p.package.paragraph;
    let mut i: usize = 0;
    while i < fields.len()
        invariant
            i <= fields.len(),
            fields == p.package.paragraph,
            views(lines@) == fields@.take(i as int).map_values(
                |f: (String, String)| field_line(f.0@, f.1@),
            ),
        decreases fields.len() - i,
    {
        let line = concat3(fields[i].0.as_str(), ": ", fields[i].1.as_str());
        let ghost prev = lines@;
        lines.push(line);
        proof {
            assert(views(lines@) =~= views(prev).push(line@));
            assert(fields@.take(i + 1) =~= fields@.take(i as int).push(fields@[i as int]));
            assert(views(lines@) =~= fields@.take(i + 1).map_values(
                |f: (String, String)| field_line(f.0@, f.1@),
            ));
        }
        i = i + 1;
    }
    assert(fields@.take(fields.len() as int) =~= fields@);
    lines.push(concat2("Filename: ", p.filename.as_str()));
    let size = i64_decimal(p.package.size);
    lines.push(concat2("Size: ", size.as_str()));
    lines.push(concat2("MD5sum: ", p.package.md5sum.as_str()));
    lines.push(concat2("SHA1: ", p.package.sha1sum.as_str()));
    lines.push(concat2("SHA256: ", p.package.sha256sum.as_str()));
    proof {
        assert(views(lines@) =~= stanza_lines(*p));
    }
    lines
}

/// `meta` for `contents`: its byte size and checksums.
fn describe(component: String, architecture: String, contents: &String) -> (res: PackagesIndexMeta)
    ensures
        describes(res, contents@),
        res.component == component,
        res.architecture == architecture,
{
    let bytes = contents.as_str().as_bytes();
    let size = bytes.len() as i64;
    let md5sum = md5_hex(bytes);
    let sha1sum = sha1_hex(bytes);
    let sha256sum = sha256_hex(bytes);
    PackagesIndexMeta { component, architecture, size, md5sum, sha1sum, sha256sum }
}

impl PackagesIndex {
    /// The packages listed, in the order in which they are rendered.
    pub open spec fn packages(&self) -> Seq<PublishedPackage> {
        self.packages@
    }

    /// The contents render the packages, and the metadata describes the contents.
    pub open spec fn wf(&self) -> bool {
        &&& self.contents@ == index_text(self.packages())
        &&& describes(self.meta, self.contents@)
    }

    /// Builds the index of `packages` for `component` and `architecture`.
    pub fn from_packages(component: &str, architecture: &str, packages: Vec<PublishedPackage>) -> (res:
        Self)
        ensures
            res.wf(),
            res.packages() == packages@,
            res.meta.component@ == component@,
            res.meta.architecture@ == architecture@,
    {
        let rendered = Self::render(&packages);
        let meta = describe(String::from_str(component), String::from_str(architecture), &rendered);
        PackagesIndex { meta, packages, contents: rendered }
    }

    /// Renders the stanzas of `packages`, separated by blank lines, with a final
    /// newline; no packages render as the empty string.
    pub fn render(packages: &Vec<PublishedPackage>) -> (res: String)
        ensures
            res@ == index_text(packages@),
    {
        if packages.len() == 0 {
            return String::new();
        }
        let mut stanzas: Vec<String> = Vec::new();
        let mut i: usize = 0;
        while i < packages.len()
            invariant
                i <= packages.len(),
                views(stanzas@) == packages@.take(i as int).map_values(
                    |p: PublishedPackage| stanza(p),
                ),
            decreases packages.len() - i,
        {
            let lines = stanza_lines_of(&packages[i]);
            let text = join_strings(&lines, "\n");
            let ghost prev = stanzas@;
            stanzas.push(text);
            proof {
                assert(views(stanzas@) =~= views(prev).push(text@));
                assert(packages@.take(i + 1) =~= packages@.take(i as int).push(packages@[i as int]));
                assert(views(stanzas@) =~= packages@.take(i + 1).map_values(
                    |p: PublishedPackage| stanza(p),
                ));
            }
            i = i + 1;
        }
        assert(packages@.take(packages.len() as int) =~= packages@);
        let mut index = join_strings(&stanzas, "\n\n");
        index.append("\n");
        index
    }

    /// Adds a package to this index, and renders it again: size, checksums and
    /// contents are brought up to date.
    ///
    /// If a package with the same name, version and architecture is in the index
    /// already, the index is left as it is.
    pub fn add_package(&mut self, added: Package)
        requires
            old(self).wf(),
            has_meta(old(self).packages(), added) || added.name@.len() > 0,
        ensures
            final(self).wf(),
            final(self).meta.component == old(self).meta.component,
            final(self).meta.architecture == old(self).meta.architecture,
            has_meta(old(self).packages(), added) ==> *final(self) == *old(self),
            !has_meta(old(self).packages(), added) ==> {
                &&& final(self).packages().len() == old(self).packages().len() + 1
                &&& final(self).packages().drop_last() == old(self).packages()
                &&& final(self).packages().last().package == added
                &&& final(self).packages().last().filename@ == pool_filename(
                    old(self).meta.component@,
                    added.name@,
                    added.version@,
                    added.architecture@,
                )
            },
    {
        let mut i: usize = 0;
        while i < self.packages.len()
            invariant
                i <= self.packages.len(),
                *self == *old(self),
                old(self).wf(),
                forall|j: int| 0 <= j < i ==> !same_meta(#[trigger] self.packages@[j].package, added),
            decreases self.packages.len() - i,
        {
            if package_eq_by_meta(&self.packages[i].package, &added) {
                return ;
            }
            i = i + 1;
        }
        let ghost before = self.packages@;
        let published = PublishedPackage::from_package(added, self.meta.component.as_str());
        self.packages.push(published);
        self.rerender();
        assert(self.packages@.drop_last() =~= before);
    }

    /// Removes every package with the same name, version and architecture as
    /// `removed` from this index, and renders it again: size, checksums and
    /// contents are brought up to date.
    ///
    /// If no such package is in the index, the index shows what it showed before.
    pub fn remove_package(&mut self, removed: PublishedPackage)
        requires
            old(self).wf(),
        ensures
            final(self).wf(),
            final(self).meta.component == old(self).meta.component,
            final(self).meta.architecture == old(self).meta.architecture,
            final(self).packages() == without_meta(old(self).packages(), removed.package),
            !has_meta(old(self).packages(), removed.package) ==> same_index(*final(self), *old(self)),
    {
        let ghost listed = self.packages@;
        let ghost keep = differs_from(removed.package);
        let count = self.packages.len();
        let mut rest: Vec<PublishedPackage> = Vec::new();
        std::mem::swap(&mut rest, &mut self.packages);
        let mut k: usize = 0;
        while rest.len() > 0
            invariant
                k <= listed.len(),
                listed.len() == count,
                keep == differs_from(removed.package),
                self.meta == old(self).meta,
                rest@ == listed.skip(k as int),
                self.packages@ == listed.take(k as int).filter(keep),
            decreases rest.len(),
        {
            let p = rest.remove(0);
            proof {
                assert(p == listed[k as int]);
                assert(listed.take(k + 1) =~= listed.take(k as int).push(p));
                listed.take(k as int).lemma_filter_push(p, keep);
                assert(keep(p) == !same_meta(p.package, removed.package));
            }
            if !package_eq_by_meta(&p.package, &removed.package) {
                self.packages.push(p);
            }
            assert(rest@ =~= listed.skip(k + 1));
            k = k + 1;
        }
        proof {
            assert(listed.take(k as int) =~= listed);
            if !has_meta(listed, removed.package) {
                lemma_filter_keeps_all(listed, keep);
            }
        }
        self.rerender();
    }

    /// Renders the packages again, updating size, checksums and contents.
    fn rerender(&mut self)
        ensures
            final(self).wf(),
            final(self).packages() == old(self).packages(),
            final(self).meta.component == old(self).meta.component,
            final(self).meta.architecture == old(self).meta.architecture,
    {
        let rendered = Self::render(&self.packages);
        let bytes = rendered.as_str().as_bytes();
        self.meta.size = bytes.len() as i64;
        self.meta.md5sum = md5_hex(bytes);
        self.meta.sha1sum = sha1_hex(bytes);
        self.meta.sha256sum = sha256_hex(bytes);
        self.contents = rendered;
    }
}

/// A package counts as present in a list exactly when some listed package has its
/// name, version and architecture, each equal as a whole string. So adding a package
/// whose full version differs from every listed package of that name and
/// architecture grows the index by one.
pub proof fn presence_is_by_full_triple(packages: Seq<PublishedPackage>, p: Package)
    ensures
        has_meta(packages, p) <==> exists|i: int|
            0 <= i < packages.len() && packages[i].package.name@ == p.name@
                && packages[i].package.version@ == p.version@
                && #[trigger] packages[i].package.architecture@ == p.architecture@,
        (forall|i: int|
            0 <= i < packages.len() ==> #[trigger] packages[i].package.version@ != p.version@)
            ==> !has_meta(packages, p),
{
    if has_meta(packages, p) {
        let i = choose|i: int| 0 <= i < packages.len() && same_meta(#[trigger] packages[i].package, p);
        assert(packages[i].package.architecture@ == p.architecture@);
    }
    if exists|i: int|
        0 <= i < packages.len() && packages[i].package.name@ == p.name@
            && packages[i].package.version@ == p.version@
            && #[trigger] packages[i].package.architecture@ == p.architecture@ {
        let i = choose|i: int|
            0 <= i < packages.len() && packages[i].package.name@ == p.name@
                && packages[i].package.version@ == p.version@
                && #[trigger] packages[i].package.architecture@ == p.architecture@;
        assert(same_meta(packages[i].package, p));
    }
    if has_meta(packages, p) {
        let i = choose|i: int| 0 <= i < packages.len() && same_meta(#[trigger] packages[i].package, p);
        assert(packages[i].package.version@ == p.version@);
    }
}

/// Removal keeps a listed package exactly when its name, version or architecture
/// differs, as a whole string, from the removed one.
pub proof fn removal_keeps_other_triples(packages: Seq<PublishedPackage>, removed: Package)
    ensures
        forall|q: PublishedPackage|
            #[trigger] without_meta(packages, removed).contains(q) <==> (packages.contains(q) && (
            q.package.name@ != removed.name@ || q.package.version@ != removed.version@
                || q.package.architecture@ != removed.architecture@)),
{
    broadcast use vstd::seq_lib::group_filter_ensures;

    let kept = without_meta(packages, removed);
    assert forall|q: PublishedPackage| #[trigger] kept.contains(q) <==> (packages.contains(q) && (
    q.package.name@ != removed.name@ || q.package.version@ != removed.version@
        || q.package.architecture@ != removed.architecture@)) by {
        if kept.contains(q) {
            let i = choose|i: int| 0 <= i < kept.len() && kept[i] == q;
            packages.lemma_filter_pred(differs_from(removed), i);
            packages.lemma_filter_contains_rev(differs_from(removed), q);
        }
        if packages.contains(q) && !same_meta(q.package, removed) {
            let i = choose|i: int| 0 <= i < packages.len() && packages[i] == q;
            packages.lemma_filter_contains(differs_from(removed), i);
        }
    }
}

/// A package's stanza ends with the lines that locate and check its file, each
/// holding the value itself: the pool filename, the byte size in decimal (the size
/// itself, whatever its magnitude), and the three checksums. Every control field
/// comes before them, in order.
pub proof fn stanza_file_lines(p: PublishedPackage)
    ensures
        ({
            let lines = stanza_lines(p);
            let k = p.package.paragraph@.len() as int;
            &&& lines.len() == k + 5
            &&& forall|i: int|
                0 <= i < k ==> #[trigger] lines[i] == p.package.paragraph@[i].0@ + ": "@
                    + p.package.paragraph@[i].1@
            &&& lines[k] == "Filename: "@ + p.filename@
            &&& lines[k + 1] == "Size: "@ + int_decimal(p.package.size as int)
            &&& lines[k + 2] == "MD5sum: "@ + p.package.md5sum@
            &&& lines[k + 3] == "SHA1: "@ + p.package.sha1sum@
            &&& lines[k + 4] == "SHA256: "@ + p.package.sha256sum@
        }),
{
}

/// A package appended to the list is present in it by its metadata.
pub proof fn added_package_is_present(before: Seq<PublishedPackage>, added: PublishedPackage)
    ensures
        has_meta(before.push(added), added.package),
{
    assert(same_meta(before.push(added)[before.len() as int].package, added.package));
}

/// After removal by metadata, no package with that metadata is left.
pub proof fn removed_package_is_absent(packages: Seq<PublishedPackage>, removed: Package)
    ensures
        !has_meta(without_meta(packages, removed), removed),
{
    broadcast use vstd::seq_lib::group_filter_ensures;

    let kept = without_meta(packages, removed);
    assert forall|i: int| 0 <= i < kept.len() implies !same_meta(#[trigger] kept[i].package, removed) by {
        packages.lemma_filter_pred(differs_from(removed), i);
    }
}

/// Removing the same package twice leaves what removing it once left.
pub proof fn remove_is_idempotent(packages: Seq<PublishedPackage>, removed: Package)
    ensures
        without_meta(without_meta(packages, removed), removed) == without_meta(packages, removed),
{
    broadcast use vstd::seq_lib::group_filter_ensures;

    let kept = without_meta(packages, removed);
    assert forall|i: int| 0 <= i < kept.len() implies differs_from(removed)(#[trigger] kept[i]) by {
        packages.lemma_filter_pred(differs_from(removed), i);
    }
    lemma_filter_keeps_all(kept, differs_from(removed));
}

/// Removing a package that was just added to a list that did not hold it gives
/// back the list, and so the same index text.
pub proof fn remove_undoes_add(before: Seq<PublishedPackage>, added: PublishedPackage)
    requires
        !has_meta(before, added.package),
    ensures
        without_meta(before.push(added), added.package) == before,
        index_text(without_meta(before.push(added), added.package)) == index_text(before),
{
    let keep = differs_from(added.package);
    assert forall|i: int| 0 <= i < before.len() implies keep(#[trigger] before[i]) by {
        if same_meta(before[i].package, added.package) {
            assert(has_meta(before, added.package));
        }
    }
    lemma_filter_keeps_all(before, keep);
    before.lemma_filter_push(added, keep);
}

/// Two well-formed indexes of the same packages show the same contents, size and
/// checksums: rendering is deterministic.
pub proof fn same_packages_same_rendering(a: PackagesIndex, b: PackagesIndex)
    requires
        a.wf(),
        b.wf(),
        a.packages() == b.packages(),
    ensures
        a.contents@ == b.contents@,
        a.meta.size == b.meta.size,
        a.meta.md5sum@ == b.meta.md5sum@,
        a.meta.sha1sum@ == b.meta.sha1sum@,
        a.meta.sha256sum@ == b.meta.sha256sum@,
{
}

/// Filtering by a predicate that holds of every element changes nothing.
proof fn lemma_filter_keeps_all(s: Seq<PublishedPackage>, keep: spec_fn(PublishedPackage) -> bool)
    requires
        forall|i: int| 0 <= i < s.len() ==> keep(#[trigger] s[i]),
    ensures
        s.filter(keep) == s,
    decreases s.len(),
{
    if s.len() > 0 {
        lemma_filter_keeps_all(s.drop_last(), keep);
        s.drop_last().lemma_filter_push(s.last(), keep);
        assert(s.drop_last().push(s.last()) =~= s);
    }
}

} // verus!
