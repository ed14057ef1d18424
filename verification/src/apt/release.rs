//! Release files: a distribution's metadata and the checksums of its indexes.
use crate::apt::packages_index::PackagesIndexMeta;
use crate::text::{
    append, concat_all, i64_decimal, insert_sorted_unique, int_decimal, is_sorted_listing, join,
    join_strings, lemma_seq_lt_irreflexive, lemma_sorted_listing_is, lemma_sorted_listing_unique,
    sorted_listing, sorted_listing_exists, strictly_sorted, views,
};
use std::io::Write;
use tabwriter::{Alignment, TabWriter};
use time::format_description::well_known::Rfc2822;
use time::{OffsetDateTime, UtcOffset};
use vstd::prelude::*;
use vstd::string::*;

verus! {

/// The metadata of a distribution, as written into its Release file.
#[derive(Debug)]
pub struct ReleaseMeta {
    pub description: Option<String>,
    pub origin: Option<String>,
    pub label: Option<String>,
    pub version: Option<String>,
    pub suite: String,
    pub codename: String,
}

/// The moment a Release file is dated with: seconds since the Unix epoch, and the
/// UTC offset (in seconds) in which the date is written.
#[derive(Clone, Copy, Debug)]
pub struct ReleaseTimestamp {
    pub unix_seconds: i64,
    pub offset_seconds: i32,
}

/// A rendered Release file.
#[derive(Debug)]
pub struct ReleaseFile {
    pub meta: ReleaseMeta,
    pub contents: String,
}

/// The RFC 2822 rendering of a moment, or `None` where `time` cannot render it.
pub uninterp spec fn rfc2822_date(unix_seconds: i64, offset_seconds: i32) -> Option<Seq<char>>;

/// The output of a `tabwriter::TabWriter` (minimum width 2) fed with `text`, with
/// right or left alignment and the given padding.
pub uninterp spec fn tab_aligned(text: Seq<char>, right_aligned: bool, padding: usize) -> Seq<char>;

/// `time::OffsetDateTime::format` with the `Rfc2822` description, on the moment
/// rebuilt with `OffsetDateTime::from_unix_timestamp`, `UtcOffset::from_whole_seconds`
/// and `checked_to_offset`. Claims only that the result is a function of the two
/// numbers (`None` where one of these calls fails, as `format` does for a year
/// before 1900); the rendering itself is not stated.
#[verifier::external_body]
pub(crate) fn format_rfc2822(unix_seconds: i64, offset_seconds: i32) -> (res: Option<String>)
    ensures
        res.deep_view() == rfc2822_date(unix_seconds, offset_seconds),
{
    let offset = UtcOffset::from_whole_seconds(offset_seconds).ok()?;
    let moment = OffsetDateTime::from_unix_timestamp(unix_seconds).ok()?.checked_to_offset(offset)?;
    moment.format(&Rfc2822).ok()
}

/// `tabwriter::TabWriter` writing into a `Vec<u8>`: `text` is written, the writer
/// flushed, and the bytes read back as a string. Claims only that the result is a
/// function of the text and the settings; how cells are padded (by display width)
/// is not stated. Writing into a vector does not fail, and the padding added is
/// ASCII, so the `Err` arm and any lossy conversion are not reached for `&str` input.
#[verifier::external_body]
pub(crate) fn align_columns(text: &str, right_aligned: bool, padding: usize) -> (res: String)
    ensures
        res@ == tab_aligned(text@, right_aligned, padding),
{
    let alignment = if right_aligned { Alignment::Right } else { Alignment::Left };
    let mut writer = TabWriter::new(Vec::new()).alignment(alignment).padding(padding);
    let _ = writer.write_all(text.as_bytes());
    match writer.into_inner() {
        Ok(bytes) => String::from_utf8_lossy(&bytes).into_owned(),
        Err(_) => String::new(),
    }
}

/// `Key: value` followed by a newline.
pub open spec fn line(key: Seq<char>, value: Seq<char>) -> Seq<char> {
    key + ": "@ + value + "\n"@
}

/// The line for an optional field: nothing when the field is unset.
pub open spec fn optional_line(key: Seq<char>, value: Option<String>) -> Seq<char> {
    match value {
        Some(v) => line(key, v@),
        None => seq![],
    }
}

/// The field lines of a Release file, in order; unset optional fields are left out.
pub open spec fn release_fields(
    release: ReleaseMeta,
    date: Seq<char>,
    architectures: Seq<char>,
    components: Seq<char>,
) -> Seq<char> {
    optional_line("Origin"@, release.origin) + optional_line("Label"@, release.label)
        + optional_line("Version"@, release.version) + line("Suite"@, release.suite@) + line(
        "Codename"@,
        release.codename@,
    ) + line("Date"@, date) + line("Architectures"@, architectures) + line(
        "Components"@,
        components,
    ) + optional_line("Description"@, release.description)
}

/// The distinct architectures of the indexes, sorted, separated by spaces.
pub open spec fn architectures_field(indexes: Seq<PackagesIndexMeta>) -> Seq<char> {
    join(
        sorted_listing(indexes.map_values(|m: PackagesIndexMeta| m.architecture@).to_set()),
        " "@,
    )
}

/// The distinct components of the indexes, sorted, separated by spaces.
pub open spec fn components_field(indexes: Seq<PackagesIndexMeta>) -> Seq<char> {
    join(
        sorted_listing(indexes.map_values(|m: PackagesIndexMeta| m.component@).to_set()),
        " "@,
    )
}

/// One checksum line, before column alignment: the checksum, the size and the
/// index path, separated by tabs.
pub open spec fn checksum_line(checksum: Seq<char>, meta: PackagesIndexMeta) -> Seq<char> {
    " "@ + checksum + "\t"@ + int_decimal(meta.size as int) + "\t"@ + meta.component@ + "/binary-"@
        + meta.architecture@ + "/Packages\n"@
}

/// The MD5 (or, with `sha256`, SHA-256) checksum lines of the indexes, in order.
pub open spec fn checksum_lines(indexes: Seq<PackagesIndexMeta>, sha256: bool) -> Seq<char> {
    concat_all(
        indexes.map_values(
            |m: PackagesIndexMeta|
                checksum_line(if sha256 { m.sha256sum@ } else { m.md5sum@ }, m),
        ),
    )
}

/// A Release file: its fields, then the MD5 and SHA-256 tables, each aligned by
/// `TabWriter` with right alignment and padding 1.
pub open spec fn release_text(
    release: ReleaseMeta,
    date: Seq<char>,
    indexes: Seq<PackagesIndexMeta>,
) -> Seq<char> {
    release_fields(release, date, architectures_field(indexes), components_field(indexes))
        + "MD5Sum:\n"@ + tab_aligned(checksum_lines(indexes, false), true, 1) + "SHA256:\n"@
        + tab_aligned(checksum_lines(indexes, true), true, 1)
}

/// Appends `Key: value\n` to `out`.
fn push_line(out: &mut String, key: &str, value: &str)
    ensures
        final(out)@ == old(out)@ + line(key@, value@),
{
    out.append(key);
    out.append(": ");
    out.append(value);
    out.append("\n");
    assert(final(out)@ =~= old(out)@ + line(key@, value@));
}

/// Appends the line of an optional field to `out`, if it is set.
fn push_optional_line(out: &mut String, key: &str, value: &Option<String>)
    ensures
        final(out)@ == old(out)@ + optional_line(key@, *value),
{
    match value {
        Some(v) => push_line(out, key, v.as_str()),
        None => {
            assert(old(out)@ + optional_line(key@, *value) =~= old(out)@);
        },
    }
}

/// The distinct values of `values` in increasing order.
pub fn sorted_unique(values: &Vec<&str>) -> (res: Vec<String>)
    ensures
        is_sorted_listing(views(res@), values@.map_values(|s: &str| s@).to_set()),
{
    let ghost all = values@.map_values(|s: &str| s@);
    let mut out: Vec<String> = Vec::new();
    let mut i: usize = 0;
    while i < values.len()
        invariant
            i <= values.len(),
            all == values@.map_values(|s: &str| s@),
            crate::text::strictly_sorted(views(out@)),
            forall|x: Seq<char>| views(out@).contains(x) <==> all.take(i as int).contains(x),
        decreases values.len() - i,
    {
        insert_sorted_unique(&mut out, values[i]);
        proof {
            let before = all.take(i as int);
            let after = all.take(i + 1);
            assert(after =~= before.push(values@[i as int]@));
            assert forall|x: Seq<char>| views(out@).contains(x) <==> after.contains(x) by {
                if after.contains(x) {
                    let k = choose|k: int| 0 <= k < after.len() && after[k] == x;
                    if k < i {
                        assert(before[k] == x);
                    }
                }
                if before.contains(x) {
                    let k = choose|k: int| 0 <= k < before.len() && before[k] == x;
                    assert(after[k] == x);
                }
                if x == values@[i as int]@ {
                    assert(after[i as int] == x);
                }
            }
        }
        i = i + 1;
    }
    assert(all.take(values.len() as int) =~= all);
    out
}

/// The field value listing the distinct architectures (or, with `components`, the
/// distinct components) of the indexes.
fn listing_field(indexes: &Vec<PackagesIndexMeta>, components: bool) -> (res: String)
    ensures
        res@ == if components {
            components_field(indexes@)
        } else {
            architectures_field(indexes@)
        },
{
    let mut values: Vec<&str> = Vec::new();
    let mut i: usize = 0;
    while i < indexes.len()
        invariant
            i <= indexes.len(),
            values@.map_values(|s: &str| s@) == indexes@.take(i as int).map_values(
                |m: PackagesIndexMeta|
                    if components {
                        m.component@
                    } else {
                        m.architecture@
                    },
            ),
        decreases indexes.len() - i,
    {
        let v = if components {
            indexes[i].component.as_str()
        } else {
            indexes[i].architecture.as_str()
        };
        let ghost prev = values@;
        values.push(v);
        proof {
            assert(values@.map_values(|s: &str| s@) =~= prev.map_values(|s: &str| s@).push(v@));
            assert(indexes@.take(i + 1) =~= indexes@.take(i as int).push(indexes@[i as int]));
            assert(values@.map_values(|s: &str| s@) =~= indexes@.take(i + 1).map_values(
                |m: PackagesIndexMeta|
                    if components {
                        m.component@
                    } else {
                        m.architecture@
                    },
            ));
        }
        i = i + 1;
    }
    let sorted = sorted_unique(&values);
    proof {
        assert(indexes@.take(indexes.len() as int) =~= indexes@);
        if components {
            assert(values@.map_values(|s: &str| s@) =~= indexes@.map_values(
                |m: PackagesIndexMeta| m.component@,
            ));
        } else {
            assert(values@.map_values(|s: &str| s@) =~= indexes@.map_values(
                |m: PackagesIndexMeta| m.architecture@,
            ));
        }
        lemma_sorted_listing_is(views(sorted@), values@.map_values(|s: &str| s@).to_set());
    }
    join_strings(&sorted, " ")
}

/// One checksum line.
fn checksum_line_text(m: &PackagesIndexMeta, sha256: bool) -> (res: String)
    ensures
        res@ == checksum_line(if sha256 { m.sha256sum@ } else { m.md5sum@ }, *m),
{
    let mut out = String::new();
    out.append(" ");
    if sha256 {
        out.append(m.sha256sum.as_str());
    } else {
        out.append(m.md5sum.as_str());
    }
    out.append("\t");
    let size = i64_decimal(m.size);
    out.append(size.as_str());
    out.append("\t");
    out.append(m.component.as_str());
    out.append("/binary-");
    out.append(m.architecture.as_str());
    out.append("/Packages\n");
    assert(out@ =~= checksum_line(if sha256 { m.sha256sum@ } else { m.md5sum@ }, *m));
    out
}

/// The checksum lines of the indexes, before alignment.
fn checksum_table(indexes: &Vec<PackagesIndexMeta>, sha256: bool) -> (res: String)
    ensures
        res@ == checksum_lines(indexes@, sha256),
{
    let ghost parts = indexes@.map_values(
        |m: PackagesIndexMeta| checksum_line(if sha256 { m.sha256sum@ } else { m.md5sum@ }, m),
    );
    let mut out = String::new();
    let mut i: usize = 0;
    while i < indexes.len()
        invariant
            i <= indexes.len(),
            parts == indexes@.map_values(
                |m: PackagesIndexMeta|
                    checksum_line(if sha256 { m.sha256sum@ } else { m.md5sum@ }, m),
            ),
            out@ == concat_all(parts.take(i as int)),
        decreases indexes.len() - i,
    {
        let line = checksum_line_text(&indexes[i], sha256);
        out.append(line.as_str());
        proof {
            assert(parts.take(i + 1).drop_last() =~= parts.take(i as int));
            assert(out@ =~= concat_all(parts.take(i + 1)));
        }
        i = i + 1;
    }
    assert(parts.take(indexes.len() as int) =~= parts);
    out
}

/// Writes the field lines of a Release file.
pub fn release_fields_text(release: &ReleaseMeta, date: &str, architectures: &str, components: &str) -> (res:
    String)
    ensures
        res@ == release_fields(*release, date@, architectures@, components@),
{
    let mut out = String::new();
    push_optional_line(&mut out, "Origin", &release.origin);
    push_optional_line(&mut out, "Label", &release.label);
    push_optional_line(&mut out, "Version", &release.version);
    push_line(&mut out, "Suite", release.suite.as_str());
    push_line(&mut out, "Codename", release.codename.as_str());
    push_line(&mut out, "Date", date);
    push_line(&mut out, "Architectures", architectures);
    push_line(&mut out, "Components", components);
    push_optional_line(&mut out, "Description", &release.description);
    assert(out@ =~= release_fields(*release, date@, architectures@, components@));
    out
}

/// The Architectures and Components fields list each architecture (component) of
/// the indexes exactly once, in increasing order.
pub proof fn release_listings_sorted_and_distinct(indexes: Seq<PackagesIndexMeta>)
    ensures
        is_sorted_listing(
            sorted_listing(indexes.map_values(|m: PackagesIndexMeta| m.architecture@).to_set()),
            indexes.map_values(|m: PackagesIndexMeta| m.architecture@).to_set(),
        ),
        is_sorted_listing(
            sorted_listing(indexes.map_values(|m: PackagesIndexMeta| m.component@).to_set()),
            indexes.map_values(|m: PackagesIndexMeta| m.component@).to_set(),
        ),
{
    sorted_listing_exists(indexes.map_values(|m: PackagesIndexMeta| m.architecture@));
    sorted_listing_exists(indexes.map_values(|m: PackagesIndexMeta| m.component@));
}

/// The Architectures and Components fields depend only on which architectures and
/// components the indexes have, not on the order or repetition of the indexes, so a
/// Release file can be generated again with the same result.
pub proof fn release_listings_ignore_index_order(a: Seq<PackagesIndexMeta>, b: Seq<PackagesIndexMeta>)
    requires
        a.map_values(|m: PackagesIndexMeta| m.architecture@).to_set() == b.map_values(
            |m: PackagesIndexMeta| m.architecture@,
        ).to_set(),
        a.map_values(|m: PackagesIndexMeta| m.component@).to_set() == b.map_values(
            |m: PackagesIndexMeta| m.component@,
        ).to_set(),
    ensures
        architectures_field(a) == architectures_field(b),
        components_field(a) == components_field(b),
{
}

/// The Architectures field lists every distinct architecture of the indexes once,
/// in increasing order, separated by spaces: whatever list holds exactly the
/// architectures that some index has, in strictly increasing order, the field is
/// that list joined by spaces.
pub proof fn architectures_field_lists_all(indexes: Seq<PackagesIndexMeta>, listing: Seq<Seq<char>>)
    requires
        strictly_sorted(listing),
        forall|x: Seq<char>|
            listing.contains(x) <==> exists|i: int|
                0 <= i < indexes.len() && #[trigger] indexes[i].architecture@ == x,
    ensures
        architectures_field(indexes) == join(listing, " "@),
        listing.len() <= indexes.len(),
{
    let values = indexes.map_values(|m: PackagesIndexMeta| m.architecture@);
    assert forall|x: Seq<char>| values.to_set().contains(x) <==> listing.contains(x) by {
        if values.contains(x) {
            let i = choose|i: int| 0 <= i < values.len() && values[i] == x;
            assert(indexes[i].architecture@ == x);
        }
        if listing.contains(x) {
            let i = choose|i: int| 0 <= i < indexes.len() && #[trigger] indexes[i].architecture@ == x;
            assert(values[i] == x);
        }
    }
    sorted_listing_exists(values);
    lemma_sorted_listing_unique(
        sorted_listing(values.to_set()),
        listing,
        values.to_set(),
    );
    lemma_listing_no_longer(values, listing);
}

/// The Components field lists every distinct component of the indexes once, in
/// increasing order, separated by spaces.
pub proof fn components_field_lists_all(indexes: Seq<PackagesIndexMeta>, listing: Seq<Seq<char>>)
    requires
        strictly_sorted(listing),
        forall|x: Seq<char>|
            listing.contains(x) <==> exists|i: int|
                0 <= i < indexes.len() && #[trigger] indexes[i].component@ == x,
    ensures
        components_field(indexes) == join(listing, " "@),
        listing.len() <= indexes.len(),
{
    let values = indexes.map_values(|m: PackagesIndexMeta| m.component@);
    assert forall|x: Seq<char>| values.to_set().contains(x) <==> listing.contains(x) by {
        if values.contains(x) {
            let i = choose|i: int| 0 <= i < values.len() && values[i] == x;
            assert(indexes[i].component@ == x);
        }
        if listing.contains(x) {
            let i = choose|i: int| 0 <= i < indexes.len() && #[trigger] indexes[i].component@ == x;
            assert(values[i] == x);
        }
    }
    sorted_listing_exists(values);
    lemma_sorted_listing_unique(
        sorted_listing(values.to_set()),
        listing,
        values.to_set(),
    );
    lemma_listing_no_longer(values, listing);
}

/// A strictly sorted list of values taken from `values` is no longer than `values`.
proof fn lemma_listing_no_longer(values: Seq<Seq<char>>, listing: Seq<Seq<char>>)
    requires
        strictly_sorted(listing),
        forall|x: Seq<char>| listing.contains(x) ==> values.contains(x),
    ensures
        listing.len() <= values.len(),
{
    broadcast use vstd::seq_lib::seq_to_set_is_finite;

    assert forall|i: int, j: int| 0 <= i < j < listing.len() implies listing[i] != listing[j] by {
        lemma_seq_lt_irreflexive(listing[i]);
    }
    listing.unique_seq_to_set();
    values.lemma_cardinality_of_set();
    assert(listing.to_set().subset_of(values.to_set())) by {
        assert forall|x: Seq<char>| listing.to_set().contains(x) implies values.to_set().contains(x) by {
            assert(listing.contains(x));
        }
    }
    vstd::set_lib::lemma_len_subset(listing.to_set(), values.to_set());
}

impl ReleaseFile {
    /// Assembles a Release file from its date and its two aligned checksum tables.
    pub fn assemble(
        release: ReleaseMeta,
        date: &str,
        packages_indexes: &Vec<PackagesIndexMeta>,
        md5_table: &str,
        sha256_table: &str,
    ) -> (res: Self)
        ensures
            res.meta == release,
            res.contents@ == release_fields(
                release,
                date@,
                architectures_field(packages_indexes@),
                components_field(packages_indexes@),
            ) + "MD5Sum:\n"@ + md5_table@ + "SHA256:\n"@ + sha256_table@,
    {
        let archs = listing_field(packages_indexes, false);
        let comps = listing_field(packages_indexes, true);
        let mut out = release_fields_text(&release, date, archs.as_str(), comps.as_str());
        append(&mut out, "MD5Sum:\n");
        append(&mut out, md5_table);
        append(&mut out, "SHA256:\n");
        append(&mut out, sha256_table);
        proof {
            assert(out@ =~= release_fields(
                release,
                date@,
                architectures_field(packages_indexes@),
                components_field(packages_indexes@),
            ) + "MD5Sum:\n"@ + md5_table@ + "SHA256:\n"@ + sha256_table@);
        }
        ReleaseFile { meta: release, contents: out }
    }

    /// Renders the Release file of a distribution with the given indexes, dated
    /// `release_ts` (RFC 2822).
    pub fn from_indexes(
        release: ReleaseMeta,
        release_ts: ReleaseTimestamp,
        packages_indexes: &Vec<PackagesIndexMeta>,
    ) -> (res: Self)
        requires
            rfc2822_date(release_ts.unix_seconds, release_ts.offset_seconds) is Some,
        ensures
            res.meta == release,
            res.contents@ == release_text(
                release,
                rfc2822_date(release_ts.unix_seconds, release_ts.offset_seconds)->0,
                packages_indexes@,
            ),
    {
        let date = match format_rfc2822(release_ts.unix_seconds, release_ts.offset_seconds) {
            Some(d) => d,
            None => String::new(),
        };
        let md5_lines = checksum_table(packages_indexes, false);
        let md5_table = align_columns(md5_lines.as_str(), true, 1);
        let sha256_lines = checksum_table(packages_indexes, true);
        let sha256_table = align_columns(sha256_lines.as_str(), true, 1);
        Self::assemble(
            release,
            date.as_str(),
            packages_indexes,
            md5_table.as_str(),
            sha256_table.as_str(),
        )
    }

    /// Renders the Release file as `from_indexes` does, or gives `None` where the
    /// timestamp has no RFC 2822 rendering.
    pub fn try_from_indexes(
        release: ReleaseMeta,
        release_ts: ReleaseTimestamp,
        packages_indexes: &Vec<PackagesIndexMeta>,
    ) -> (res: Option<Self>)
        ensures
            res is Some <==> rfc2822_date(release_ts.unix_seconds, release_ts.offset_seconds) is Some,
            res matches Some(file) ==> {
                &&& file.meta == release
                &&& file.contents@ == release_text(
                    release,
                    rfc2822_date(release_ts.unix_seconds, release_ts.offset_seconds)->0,
                    packages_indexes@,
                )
            },
    {
        match format_rfc2822(release_ts.unix_seconds, release_ts.offset_seconds) {
            Some(_) => Some(Self::from_indexes(release, release_ts, packages_indexes)),
            None => None,
        }
    }
}

} // verus!
