//! How the control plane renders Packages indexes and Release files.
use crate::apt::packages_index::field_line;
use crate::apt::release::{align_columns, release_fields, release_fields_text, tab_aligned, ReleaseMeta};
use crate::digest::{hex_lower, md5_digest, md5_hex, sha1_digest, sha1_hex, sha256_digest, sha256_hex};
use crate::text::{
    append, concat2, concat3, concat_all, i64_decimal, int_decimal, join, join_strings, str_eq, views,
};
use vstd::prelude::*;
use vstd::string::*;
use vstd::utf8::encode_utf8;

verus! {

/// A package as the control plane reads it for an index.
#[derive(Clone, Debug)]
pub struct PackageRow {
    pub paragraph: Vec<(String, String)>,
    pub filename: String,
    pub size: i64,
    pub md5sum: String,
    pub sha1sum: String,
    pub sha256sum: String,
}

/// A stored Packages index, as the control plane reads it for a Release file.
#[derive(Clone, Debug)]
pub struct IndexRow {
    pub component: String,
    pub architecture: String,
    pub size: i64,
    pub md5sum: String,
    pub sha1sum: String,
    pub sha256sum: String,
}

/// The byte size and checksums of an index's contents.
#[derive(Clone, Debug)]
pub struct IndexDigest {
    pub size: i64,
    pub md5sum: String,
    pub sha1sum: String,
    pub sha256sum: String,
}

/// The lines of a package's stanza: its control fields, then the fields that
/// locate and check the package file.
pub open spec fn row_lines(r: PackageRow) -> Seq<Seq<char>> {
    r.paragraph@.map_values(|f: (String, String)| field_line(f.0@, f.1@)) + seq![
        "Filename: "@ + r.filename@,
        "Size: "@ + int_decimal(r.size as int),
        "MD5sum: "@ + r.md5sum@,
        "SHA1: "@ + r.sha1sum@,
        "SHA256: "@ + r.sha256sum@,
    ]
}

/// A package row's stanza ends with the lines that locate and check its file, each
/// holding the value itself: the filename, the byte size in decimal (the size itself,
/// whatever its magnitude), and the three checksums. Every control field comes
/// before them, in order.
pub proof fn row_file_lines(r: PackageRow)
    ensures
        ({
            let lines = row_lines(r);
            let k = r.paragraph@.len() as int;
            &&& lines.len() == k + 5
            &&& forall|i: int|
                0 <= i < k ==> #[trigger] lines[i] == r.paragraph@[i].0@ + ": "@ + r.paragraph@[i].1@
            &&& lines[k] == "Filename: "@ + r.filename@
            &&& lines[k + 1] == "Size: "@ + int_decimal(r.size as int)
            &&& lines[k + 2] == "MD5sum: "@ + r.md5sum@
            &&& lines[k + 3] == "SHA1: "@ + r.sha1sum@
            &&& lines[k + 4] == "SHA256: "@ + r.sha256sum@
        }),
{
}

/// The index text of the signing API: stanzas separated by blank lines, and a final
/// newline (also when there are no packages).
pub open spec fn joined_index_text(rows: Seq<PackageRow>) -> Seq<char> {
    join(rows.map_values(|r: PackageRow| join(row_lines(r), "\n"@)), "\n\n"@) + "\n"@
}

/// Every line followed by a newline.
pub open spec fn terminated_lines(lines: Seq<Seq<char>>) -> Seq<char> {
    concat_all(lines.map_values(|l: Seq<char>| l + "\n"@))
}

/// The index text of the repository API: every line ends with a newline, and every
/// stanza with a blank line.
pub open spec fn folded_index_text(rows: Seq<PackageRow>) -> Seq<char> {
    concat_all(rows.map_values(|r: PackageRow| terminated_lines(row_lines(r)) + "\n"@))
}

/// `digest` gives the byte size and checksums of the UTF-8 encoding of `contents`.
pub open spec fn digests(digest: IndexDigest, contents: Seq<char>) -> bool {
    let bytes = encode_utf8(contents);
    &&& digest.size == bytes.len() as i64
    &&& digest.md5sum@ == hex_lower(md5_digest(bytes))
    &&& digest.sha1sum@ == hex_lower(sha1_digest(bytes))
    &&& digest.sha256sum@ == hex_lower(sha256_digest(bytes))
}

/// The stanza lines of one package.
pub fn row_lines_of(r: &PackageRow) -> (res: Vec<String>)
    ensures
        views(res@) == row_lines(*r),
{
    let mut lines: Vec<String> = Vec::new();
    let fields = &r.paragraph;
    let mut i: usize = 0;
    while i < fields.len()
        invariant
            i <= fields.len(),
            fields == r.paragraph,
            views(lines@) == fields@.take(i as int).map_values(
                |f: (String, String)| field_line(f.0@, f.1@),
            ),
        decreases fields.len() - i,
    {
        let line = concat3(fields[i].0.as_str(), ": ", fields[i].1.as_str());
        let ghost prev = lines@;
        lines.push(line);
        proof {
            assert(views(lines@) =~= views(prev).push(line@));
            assert(fields@.take(i + 1) =~= fields@.take(i as int).push(fields@[i as int]));
            assert(views(lines@) =~= fields@.take(i + 1).map_values(
                |f: (String, String)| field_line(f.0@, f.1@),
            ));
        }
        i = i + 1;
    }
    assert(fields@.take(fields.len() as int) =~= fields@);
    lines.push(concat2("Filename: ", r.filename.as_str()));
    let size = i64_decimal(r.size);
    lines.push(concat2("Size: ", size.as_str()));
    lines.push(concat2("MD5sum: ", r.md5sum.as_str()));
    lines.push(concat2("SHA1: ", r.sha1sum.as_str()));
    lines.push(concat2("SHA256: ", r.sha256sum.as_str()));
    assert(views(lines@) =~= row_lines(*r));
    lines
}

/// Renders an index as the signing API does.
pub fn render_joined(rows: &Vec<PackageRow>) -> (res: String)
    ensures
        res@ == joined_index_text(rows@),
{
    let mut stanzas: Vec<String> = Vec::new();
    let mut i: usize = 0;
    while i < rows.len()
        invariant
            i <= rows.len(),
            views(stanzas@) == rows@.take(i as int).map_values(
                |r: PackageRow| join(row_lines(r), "\n"@),
            ),
        decreases rows.len() - i,
    {
        let lines = row_lines_of(&rows[i]);
        let text = join_strings(&lines, "\n");
        let ghost prev = stanzas@;
        stanzas.push(text);
        proof {
            assert(views(stanzas@) =~= views(prev).push(text@));
            assert(rows@.take(i + 1) =~= rows@.take(i as int).push(rows@[i as int]));
            assert(views(stanzas@) =~= rows@.take(i + 1).map_values(
                |r: PackageRow| join(row_lines(r), "\n"@),
            ));
        }
        i = i + 1;
    }
    assert(rows@.take(rows.len() as int) =~= rows@);
    let mut index = join_strings(&stanzas, "\n\n");
    index.append("\n");
    index
}

/// Lines, each followed by a newline.
fn terminated(lines: &Vec<String>) -> (res: String)
    ensures
        res@ == terminated_lines(views(lines@)),
{
    let ghost parts = views(lines@).map_values(|l: Seq<char>| l + "\n"@);
    let mut out = String::new();
    let mut i: usize = 0;
    while i < lines.len()
        invariant
            i <= lines.len(),
            parts == views(lines@).map_values(|l: Seq<char>| l + "\n"@),
            out@ == concat_all(parts.take(i as int)),
        decreases lines.len() - i,
    {
        out.append(lines[i].as_str());
        out.append("\n");
        proof {
            assert(parts.take(i + 1).drop_last() =~= parts.take(i as int));
            assert(out@ =~= concat_all(parts.take(i + 1)));
        }
        i = i + 1;
    }
    assert(parts.take(lines.len() as int) =~= parts);
    out
}

/// Renders an index as the repository API does.
pub fn render_folded(rows: &Vec<PackageRow>) -> (res: String)
    ensures
        res@ == folded_index_text(rows@),
{
    let ghost parts = rows@.map_values(|r: PackageRow| terminated_lines(row_lines(r)) + "\n"@);
    let mut out = String::new();
    let mut i: usize = 0;
    while i < rows.len()
        invariant
            i <= rows.len(),
            parts == rows@.map_values(|r: PackageRow| terminated_lines(row_lines(r)) + "\n"@),
            out@ == concat_all(parts.take(i as int)),
        decreases rows.len() - i,
    {
        let lines = row_lines_of(&rows[i]);
        let stanza = terminated(&lines);
        out.append(stanza.as_str());
        out.append("\n");
        proof {
            assert(parts.take(i + 1).drop_last() =~= parts.take(i as int));
            assert(out@ =~= concat_all(parts.take(i + 1)));
        }
        i = i + 1;
    }
    assert(parts.take(rows.len() as int) =~= parts);
    out
}

/// The byte size and checksums of an index's contents.
pub fn index_digest(contents: &str) -> (res: IndexDigest)
    ensures
        digests(res, contents@),
{
    let bytes = contents.as_bytes();
    IndexDigest {
        size: bytes.len() as i64,
        md5sum: md5_hex(bytes),
        sha1sum: sha1_hex(bytes),
        sha256sum: sha256_hex(bytes),
    }
}

/// `v` holds no value twice.
pub open spec fn no_duplicates(v: Seq<Seq<char>>) -> bool {
    forall|i: int, j: int| 0 <= i < j < v.len() ==> v[i] != v[j]
}

/// The distinct values, each once, in the order of their first occurrence. (The
/// control plane collects them in a hash set, whose order is unspecified; this is
/// one of the orders it may give.)
pub fn distinct_values(values: &Vec<String>) -> (res: Vec<String>)
    ensures
        no_duplicates(views(res@)),
        forall|x: Seq<char>| views(res@).contains(x) <==> views(values@).contains(x),
{
    let mut out: Vec<String> = Vec::new();
    let mut i: usize = 0;
    while i < values.len()
        invariant
            i <= values.len(),
            no_duplicates(views(out@)),
            forall|x: Seq<char>| views(out@).contains(x) <==> views(values@).take(i as int).contains(x),
        decreases values.len() - i,
    {
        let v = values[i].as_str();
        let mut seen = false;
        let mut j: usize = 0;
        while j < out.len()
            invariant
                j <= out.len(),
                seen <==> exists|k: int| 0 <= k < j && views(out@)[k] == v@,
            decreases out.len() - j,
        {
            if str_eq(out[j].as_str(), v) {
                seen = true;
                assert(views(out@)[j as int] == v@);
            }
            j = j + 1;
        }
        assert(j == out.len());
        let ghost prev = views(out@);
        let ghost before = views(values@).take(i as int);
        assert(forall|x: Seq<char>| prev.contains(x) <==> before.contains(x));
        let ghost after = views(values@).take(i + 1);
        assert(after =~= before.push(v@));
        if !seen {
            out.push(values[i].clone());
            assert(views(out@) =~= prev.push(v@));
            assert forall|a: int, b: int| 0 <= a < b < views(out@).len() implies views(out@)[a]
                != views(out@)[b] by {
                if b == prev.len() {
                    assert(views(out@)[a] == prev[a]);
                }
            }
        } else {
            assert(views(out@) == prev);
        }
        proof {
            assert forall|x: Seq<char>| views(out@).contains(x) <==> after.contains(x) by {
                if after.contains(x) {
                    let k = choose|k: int| 0 <= k < after.len() && after[k] == x;
                    if k < i {
                        assert(before[k] == x);
                        assert(before.contains(x));
                        assert(prev.contains(x));
                        let m = choose|m: int| 0 <= m < prev.len() && prev[m] == x;
                        assert(views(out@)[m] == x);
                    } else if seen {
                        let m = choose|m: int| 0 <= m < prev.len() && prev[m] == v@;
                        assert(views(out@)[m] == x);
                    } else {
                        assert(views(out@)[prev.len() as int] == x);
                    }
                }
                if views(out@).contains(x) {
                    let k = choose|k: int| 0 <= k < views(out@).len() && views(out@)[k] == x;
                    if k < prev.len() {
                        assert(prev[k] == x);
                        assert(prev.contains(x));
                        assert(before.contains(x));
                        let m = choose|m: int| 0 <= m < before.len() && before[m] == x;
                        assert(after[m] == x);
                    } else {
                        assert(after[i as int] == x);
                    }
                }
            }
        }
        i = i + 1;
    }
    assert(views(values@).take(values.len() as int) =~= views(values@));
    out
}

/// Each value preceded by a space.
pub open spec fn space_prefixed(values: Seq<Seq<char>>) -> Seq<char> {
    concat_all(values.map_values(|v: Seq<char>| " "@ + v))
}

/// Each value preceded by a space.
pub fn space_prefixed_text(values: &Vec<String>) -> (res: String)
    ensures
        res@ == space_prefixed(views(values@)),
{
    let ghost parts = views(values@).map_values(|v: Seq<char>| " "@ + v);
    let mut out = String::new();
    let mut i: usize = 0;
    while i < values.len()
        invariant
            i <= values.len(),
            parts == views(values@).map_values(|v: Seq<char>| " "@ + v),
            out@ == concat_all(parts.take(i as int)),
        decreases values.len() - i,
    {
        out.append(" ");
        out.append(values[i].as_str());
        proof {
            assert(parts.take(i + 1).drop_last() =~= parts.take(i as int));
            assert(out@ =~= concat_all(parts.take(i + 1)));
        }
        i = i + 1;
    }
    assert(parts.take(values.len() as int) =~= parts);
    out
}

/// One checksum line of the control plane's Release file, before alignment.
pub open spec fn legacy_checksum_line(checksum: Seq<char>, row: IndexRow) -> Seq<char> {
    " "@ + checksum + "\t"@ + int_decimal(row.size as int) + " "@ + row.component@ + "/binary-"@
        + row.architecture@ + "/Packages\n"@
}

/// The MD5 (or, with `sha256`, SHA-256) lines of the control plane's Release file.
pub open spec fn legacy_checksum_lines(rows: Seq<IndexRow>, sha256: bool) -> Seq<char> {
    concat_all(
        rows.map_values(
            |r: IndexRow| legacy_checksum_line(if sha256 { r.sha256sum@ } else { r.md5sum@ }, r),
        ),
    )
}

fn legacy_checksum_line_text(r: &IndexRow, sha256: bool) -> (res: String)
    ensures
        res@ == legacy_checksum_line(if sha256 { r.sha256sum@ } else { r.md5sum@ }, *r),
{
    let mut out = String::new();
    out.append(" ");
    if sha256 {
        out.append(r.sha256sum.as_str());
    } else {
        out.append(r.md5sum.as_str());
    }
    out.append("\t");
    let size = i64_decimal(r.size);
    out.append(size.as_str());
    out.append(" ");
    out.append(r.component.as_str());
    out.append("/binary-");
    out.append(r.architecture.as_str());
    out.append("/Packages\n");
    assert(out@ =~= legacy_checksum_line(if sha256 { r.sha256sum@ } else { r.md5sum@ }, *r));
    out
}

fn legacy_checksum_table(rows: &Vec<IndexRow>, sha256: bool) -> (res: String)
    ensures
        res@ == legacy_checksum_lines(rows@, sha256),
{
    let ghost parts = rows@.map_values(
        |r: IndexRow| legacy_checksum_line(if sha256 { r.sha256sum@ } else { r.md5sum@ }, r),
    );
    let mut out = String::new();
    let mut i: usize = 0;
    while i < rows.len()
        invariant
            i <= rows.len(),
            parts == rows@.map_values(
                |r: IndexRow| legacy_checksum_line(if sha256 { r.sha256sum@ } else { r.md5sum@ }, r),
            ),
            out@ == concat_all(parts.take(i as int)),
        decreases rows.len() - i,
    {
        let line = legacy_checksum_line_text(&rows[i], sha256);
        out.append(line.as_str());
        proof {
            assert(parts.take(i + 1).drop_last() =~= parts.take(i as int));
            assert(out@ =~= concat_all(parts.take(i + 1)));
        }
        i = i + 1;
    }
    assert(parts.take(rows.len() as int) =~= parts);
    out
}

/// The control plane's Release file: the fields (architectures and components each
/// preceded by a space, in the given order), then the MD5 and SHA-256 tables as a
/// default `TabWriter` (left aligned, padding 2) lays them out.
pub open spec fn legacy_release_text(
    release: ReleaseMeta,
    date: Seq<char>,
    architectures: Seq<Seq<char>>,
    components: Seq<Seq<char>>,
    rows: Seq<IndexRow>,
) -> Seq<char> {
    release_fields(release, date, space_prefixed(architectures), space_prefixed(components))
        + "MD5Sum:\n"@ + tab_aligned(legacy_checksum_lines(rows, false), false, 2) + "SHA256:\n"@
        + tab_aligned(legacy_checksum_lines(rows, true), false, 2)
}

/// Renders the control plane's Release file.
pub fn render_legacy_release(
    release: &ReleaseMeta,
    date: &str,
    architectures: &Vec<String>,
    components: &Vec<String>,
    rows: &Vec<IndexRow>,
) -> (res: String)
    ensures
        res@ == legacy_release_text(
            *release,
            date@,
            views(architectures@),
            views(components@),
            rows@,
        ),
{
    let archs = space_prefixed_text(architectures);
    let comps = space_prefixed_text(components);
    let mut out = release_fields_text(release, date, archs.as_str(), comps.as_str());
    append(&mut out, "MD5Sum:\n");
    let md5_lines = legacy_checksum_table(rows, false);
    let md5_table = align_columns(md5_lines.as_str(), false, 2);
    append(&mut out, md5_table.as_str());
    append(&mut out, "SHA256:\n");
    let sha256_lines = legacy_checksum_table(rows, true);
    let sha256_table = align_columns(sha256_lines.as_str(), false, 2);
    append(&mut out, sha256_table.as_str());
    out
}

} // verus!
