//! Prisma migration directories, as the migrator reads them: `{version}_{description}`.
use crate::text::{
    append, digit_char, int_decimal, nat_decimal, lemma_seq_lt_irreflexive, lemma_seq_lt_transitive, owned, seq_lt, str_lt, views,
};
use vstd::prelude::*;
use vstd::string::*;

verus! {

/// A migration found in a migrations directory.
#[derive(Clone, Debug)]
pub struct PrismaMigration {
    pub version: i64,
    pub description: String,
    pub path: String,
}

/// Whether `c` is an ASCII decimal digit.
pub open spec fn is_digit(c: char) -> bool {
    '0' <= c <= '9'
}

/// The value of a string of decimal digits.
pub open spec fn digits_value(s: Seq<char>) -> int
    decreases s.len(),
{
    if s.len() == 0 {
        0
    } else {
        digits_value(s.drop_last()) * 10 + (s.last() as int - '0' as int)
    }
}

/// Whether `s` starts with a minus sign.
pub open spec fn has_minus(s: Seq<char>) -> bool {
    s.len() > 0 && s[0] == '-'
}

/// `s` without its leading sign, if it has one.
pub open spec fn unsigned_part(s: Seq<char>) -> Seq<char> {
    if s.len() > 0 && (s[0] == '-' || s[0] == '+') {
        s.drop_first()
    } else {
        s
    }
}

/// Whether every character of `s` is a decimal digit.
pub open spec fn all_digits(s: Seq<char>) -> bool {
    forall|i: int| 0 <= i < s.len() ==> is_digit(#[trigger] s[i])
}

/// What `str::parse::<i64>` makes of `s`: an optional sign, then at least one
/// decimal digit, with a value in range; `None` otherwise.
pub open spec fn parsed_i64(s: Seq<char>) -> Option<i64> {
    let digits = unsigned_part(s);
    let value = if has_minus(s) {
        -digits_value(digits)
    } else {
        digits_value(digits)
    };
    if digits.len() > 0 && all_digits(digits) && i64::MIN <= value <= i64::MAX {
        Some(value as i64)
    } else {
        None
    }
}

proof fn lemma_digits_value_grows(s: Seq<char>, i: int)
    requires
        0 <= i <= s.len(),
        forall|k: int| 0 <= k < s.len() ==> is_digit(#[trigger] s[k]),
    ensures
        digits_value(s.take(i)) <= digits_value(s),
        0 <= digits_value(s.take(i)),
    decreases s.len() - i,
{
    if i < s.len() {
        lemma_digits_value_grows(s, i + 1);
        assert(s.take(i + 1).drop_last() =~= s.take(i));
        assert(s.take(i + 1).last() == s[i]);
    } else {
        assert(s.take(i) =~= s);
        lemma_digits_value_nonneg(s);
    }
}

proof fn lemma_digits_value_nonneg(s: Seq<char>)
    requires
        forall|k: int| 0 <= k < s.len() ==> is_digit(#[trigger] s[k]),
    ensures
        0 <= digits_value(s),
    decreases s.len(),
{
    if s.len() > 0 {
        lemma_digits_value_nonneg(s.drop_last());
    }
}

/// `str::parse::<i64>`.
pub fn parse_i64(s: &str) -> (res: Option<i64>)
    ensures
        res == parsed_i64(s@),
{
    let n = s.unicode_len();
    let mut start: usize = 0;
    let mut negative = false;
    if n > 0 {
        let c = s.get_char(0);
        if c == '-' {
            negative = true;
            start = 1;
        } else if c == '+' {
            start = 1;
        }
    }
    let ghost digits = unsigned_part(s@);
    assert(digits =~= s@.skip(start as int));
    assert(negative == has_minus(s@));
    if start == n {
        return None;
    }
    let bound: i128 = 9223372036854775808;
    let mut value: i128 = 0;
    let mut i: usize = start;
    assert(digits.take(0) =~= Seq::<char>::empty());
    while i < n
        invariant
            start <= i <= n,
            n == s@.len(),
            start < n,
            digits == unsigned_part(s@),
            digits =~= s@.skip(start as int),
            negative == has_minus(s@),
            bound == 9223372036854775808,
            0 <= value <= bound,
            value == digits_value(digits.take(i - start)),
            forall|k: int| 0 <= k < i - start ==> is_digit(#[trigger] digits[k]),
        decreases n - i,
    {
        let c = s.get_char(i);
        assert(digits[i - start] == c);
        if !('0' <= c && c <= '9') {
            assert(!is_digit(digits[i - start]));
            assert(!all_digits(digits));
            return None;
        }
        let d: i128 = (c as u32 - '0' as u32) as i128;
        assert(0 <= value * 10 <= 92233720368547758080) by (nonlinear_arith)
            requires
                0 <= value <= 9223372036854775808,
        ;
        let next = value * 10 + d;
        proof {
            assert(digits.take(i - start + 1).drop_last() =~= digits.take(i - start));
            assert(digits.take(i - start + 1).last() == c);
        }
        if next > bound {
            proof {
                // Either a later character is not a digit, or the value only grows.
                if all_digits(digits) {
                    lemma_digits_value_grows(digits, i - start + 1);
                }
            }
            return None;
        }
        value = next;
        i = i + 1;
    }
    assert(digits.take(i - start) =~= digits);
    assert(all_digits(digits));
    if negative {
        Some((0 - value) as i64)
    } else if value <= 9223372036854775807 {
        Some(value as i64)
    } else {
        None
    }
}

proof fn lemma_nat_decimal_digits(n: nat)
    ensures
        nat_decimal(n).len() > 0,
        all_digits(nat_decimal(n)),
        digits_value(nat_decimal(n)) == n,
    decreases n,
{
    let s = nat_decimal(n);
    if n < 10 {
        assert(s.drop_last() =~= Seq::<char>::empty());
        assert(s.last() == digit_char(n));
        assert(digit_char(n) as int == '0' as int + n);
        assert(digits_value(s.drop_last()) == 0);
        assert(digits_value(s) == digits_value(s.drop_last()) * 10 + (s.last() as int - '0' as int));
    } else {
        lemma_nat_decimal_digits(n / 10);
        assert(s.drop_last() =~= nat_decimal(n / 10));
        assert(s.last() == digit_char(n % 10));
        assert(digit_char(n % 10) as int == '0' as int + n % 10);
        assert((n / 10) * 10 + n % 10 == n);
        assert(digits_value(s) == digits_value(s.drop_last()) * 10 + (s.last() as int - '0' as int));
        assert(digits_value(s.drop_last()) == n / 10);
        assert forall|i: int| 0 <= i < s.len() implies is_digit(#[trigger] s[i]) by {
            if i < s.len() - 1 {
                assert(s[i] == nat_decimal(n / 10)[i]);
            }
        }
    }
}

/// Writing an `i64` in decimal (as a Size field does) and reading it back with
/// `str::parse::<i64>` gives the same number: the rendering states the value
/// itself, for every value, negative ones and the extremes included.
pub proof fn decimal_reads_back(n: i64)
    ensures
        parsed_i64(int_decimal(n as int)) == Some(n),
{
    let m: nat = if n < 0 {
        (-(n as int)) as nat
    } else {
        n as nat
    };
    lemma_nat_decimal_digits(m);
    let text = int_decimal(n as int);
    if n < 0 {
        assert(text[0] == '-');
        assert(unsigned_part(text) =~= nat_decimal(m));
    } else {
        let d = nat_decimal(m);
        assert(is_digit(d[0]));
        assert(unsigned_part(text) =~= d);
    }
}

/// The position of the first `_` in `s`, if any.
pub open spec fn first_underscore(s: Seq<char>) -> Option<int> {
    if exists|i: int| 0 <= i < s.len() && s[i] == '_' {
        Some(choose|i: int| 0 <= i < s.len() && s[i] == '_' && forall|j: int| 0 <= j < i ==> s[j] != '_')
    } else {
        None
    }
}

/// What a migration directory's name `{version}_{description}` reads as: split at
/// the first underscore, where the part before it is an `i64`; `None` for any other name.
pub open spec fn migration_dir_name(name: Seq<char>) -> Option<(i64, Seq<char>)> {
    match first_underscore(name) {
        Some(u) => match parsed_i64(name.take(u)) {
            Some(version) => Some((version, name.skip(u + 1))),
            None => None,
        },
        None => None,
    }
}

/// Reads a migration directory's name `{version}_{description}`.
pub fn parse_migration_dir_name(name: &str) -> (res: Option<(i64, String)>)
    ensures
        match res {
            Some((version, description)) => migration_dir_name(name@) == Some((version, description@)),
            None => migration_dir_name(name@) is None,
        },
{
    let n = name.unicode_len();
    let mut u: usize = 0;
    while u < n
        invariant
            u <= n,
            n == name@.len(),
            forall|j: int| 0 <= j < u ==> name@[j] != '_',
        ensures
            u <= n,
            u < n ==> name@[u as int] == '_',
            forall|j: int| 0 <= j < u ==> name@[j] != '_',
        decreases n - u,
    {
        if name.get_char(u) == '_' {
            break;
        }
        u = u + 1;
    }
    if u == n {
        assert(!(exists|i: int| 0 <= i < name@.len() && name@[i] == '_'));
        return None;
    }
    proof {
        let w = choose|i: int| 0 <= i < name@.len() && name@[i] == '_' && forall|j: int| 0 <= j < i ==> name@[j] != '_';
        assert(0 <= u < name@.len() && name@[u as int] == '_' && forall|j: int| 0 <= j < u ==> name@[j] != '_');
        if w < u {
            assert(name@[w] != '_');
        } else if w > u {
            assert(name@[u as int] != '_');
        }
        assert(first_underscore(name@) == Some(u as int));
    }
    let version_text = name.substring_char(0, u);
    let description = name.substring_char(u + 1, n);
    assert(version_text@ =~= name@.take(u as int));
    assert(description@ =~= name@.skip(u + 1));
    match parse_i64(version_text) {
        Some(version) => Some((version, owned(description))),
        None => None,
    }
}

/// The migration of a directory whose `migration.sql` is at `sql_path`; the path is
/// given relative to the file that includes the migration (four levels below the
/// workspace root).
pub fn migration_entry(dir_name: &str, sql_path: &str) -> (res: Option<PrismaMigration>)
    ensures
        res matches Some(m) ==> m.path@ == "../../../../"@ + sql_path@,
        res is Some <==> migration_dir_name(dir_name@) is Some,
        res matches Some(m) ==> migration_dir_name(dir_name@) == Some((m.version, m.description@)),
{
    match parse_migration_dir_name(dir_name) {
        Some((version, description)) => {
            let mut path = owned("../../../../");
            append(&mut path, sql_path);
            Some(PrismaMigration { version, description, path })
        },
        None => None,
    }
}

/// An entry of a migrations directory: its name (`None` when the name is not
/// UTF-8), whether it is a directory, whether it holds a `migration.sql`, and the
/// path of that file as given from the workspace root.
#[derive(Clone, Debug)]
pub struct MigrationDirEntry {
    pub name: Option<String>,
    pub is_dir: bool,
    pub has_sql: bool,
    pub sql_path: String,
}

/// A migration found, with the name of its directory: (directory name, version,
/// description, path).
pub open spec fn entry_migration(e: MigrationDirEntry) -> Option<(Seq<char>, i64, Seq<char>, Seq<char>)> {
    match e.name {
        Some(name) => if e.is_dir && e.has_sql {
            match migration_dir_name(name@) {
                Some((version, description)) => Some(
                    (name@, version, description, "../../../../"@ + e.sql_path@),
                ),
                None => None,
            }
        } else {
            None
        },
        None => None,
    }
}

/// The migrations of the entries that qualify, one per qualifying entry, in the
/// order of the entries.
pub open spec fn qualifying(entries: Seq<MigrationDirEntry>) -> Seq<(Seq<char>, i64, Seq<char>, Seq<char>)>
    decreases entries.len(),
{
    if entries.len() == 0 {
        seq![]
    } else {
        let rest = qualifying(entries.drop_last());
        match entry_migration(entries.last()) {
            Some(t) => rest.push(t),
            None => rest,
        }
    }
}

/// Each entry yields at most one migration, and exactly one when it qualifies: the
/// migrations of `entries` followed by `e` are those of `entries` and, if `e`
/// qualifies, its own.
pub proof fn one_migration_per_entry(entries: Seq<MigrationDirEntry>, e: MigrationDirEntry)
    ensures
        qualifying(entries.push(e)).len() == qualifying(entries).len() + (if entry_migration(e) is Some {
            1int
        } else {
            0int
        }),
        qualifying(entries.push(e)).to_multiset() == match entry_migration(e) {
            Some(t) => qualifying(entries).to_multiset().insert(t),
            None => qualifying(entries).to_multiset(),
        },
        qualifying(entries).len() <= entries.len(),
{
    broadcast use vstd::seq_lib::group_to_multiset_ensures;

    assert(entries.push(e).drop_last() =~= entries);
    lemma_qualifying_len(entries);
}

proof fn lemma_qualifying_len(entries: Seq<MigrationDirEntry>)
    ensures
        qualifying(entries).len() <= entries.len(),
    decreases entries.len(),
{
    if entries.len() > 0 {
        lemma_qualifying_len(entries.drop_last());
    }
}

/// Inserting `x` anywhere adds one `x` to the multiset of a sequence.
proof fn lemma_insert_multiset<A>(s: Seq<A>, p: int, x: A)
    requires
        0 <= p <= s.len(),
    ensures
        s.insert(p, x).to_multiset() == s.to_multiset().insert(x),
{
    broadcast use vstd::seq_lib::group_to_multiset_ensures;

    let n = s.insert(p, x);
    assert(n.remove(p) =~= s);
    assert(n[p] == x);
    assert(n.contains(x));
    assert(n.to_multiset().count(x) > 0);
    assert(n.to_multiset() =~= s.to_multiset().insert(x));
}

/// Names in increasing order (equal names may stand side by side).
pub open spec fn names_sorted(names: Seq<Seq<char>>) -> bool {
    forall|i: int, j: int|
        0 <= i < j < names.len() ==> !seq_lt(#[trigger] names[j], #[trigger] names[i])
}

/// The migrations paired with the names of their directories.
pub open spec fn named(names: Seq<Seq<char>>, ms: Seq<PrismaMigration>) -> Seq<
    (Seq<char>, i64, Seq<char>, Seq<char>),
> {
    Seq::new(names.len(), |i: int| (names[i], ms[i].version, ms[i].description@, ms[i].path@))
}

/// Inserting `x` at `p` in a sequence: what it contains afterwards.
proof fn lemma_insert_contains<A>(s: Seq<A>, p: int, x: A)
    requires
        0 <= p <= s.len(),
    ensures
        forall|t: A| #[trigger] s.insert(p, x).contains(t) <==> (s.contains(t) || t == x),
{
    let n = s.insert(p, x);
    assert forall|t: A| #[trigger] n.contains(t) <==> (s.contains(t) || t == x) by {
        if n.contains(t) {
            let i = choose|i: int| 0 <= i < n.len() && n[i] == t;
            if i < p {
                assert(s[i] == t);
            } else if i > p {
                assert(s[i - 1] == t);
            }
        }
        if s.contains(t) {
            let i = choose|i: int| 0 <= i < s.len() && s[i] == t;
            if i < p {
                assert(n[i] == t);
            } else {
                assert(n[i + 1] == t);
            }
        }
        if t == x {
            assert(n[p] == t);
        }
    }
}

/// The migrations of a directory's entries: those entries that are directories
/// holding a `migration.sql` and named `{version}_{description}`, in increasing order
/// of their names (byte order of the UTF-8 names).
#[verifier::spinoff_prover]
#[verifier::rlimit(40)]
pub fn collect_migrations(entries: &Vec<MigrationDirEntry>) -> (res: Vec<PrismaMigration>)
    ensures
        exists|names: Seq<Seq<char>>|
            {
                &&& #[trigger] names_sorted(names)
                &&& names.len() == res@.len()
                &&& forall|t: (Seq<char>, i64, Seq<char>, Seq<char>)|
                    named(names, res@).contains(t) <==> exists|k: int|
                        0 <= k < entries@.len() && entry_migration(#[trigger] entries@[k]) == Some(t)
                &&& named(names, res@).to_multiset() == qualifying(entries@).to_multiset()
            },
        res@.len() == qualifying(entries@).len(),
{
    let mut keys: Vec<String> = Vec::new();
    let mut out: Vec<PrismaMigration> = Vec::new();
    let mut k: usize = 0;
    proof {
        assert(named(views(keys@), out@) =~= qualifying(entries@.take(0)));
    }
    while k < entries.len()
        invariant
            k <= entries.len(),
            keys.len() == out.len(),
            names_sorted(views(keys@)),
            forall|t: (Seq<char>, i64, Seq<char>, Seq<char>)|
                named(views(keys@), out@).contains(t) <==> exists|j: int|
                    0 <= j < k && entry_migration(#[trigger] entries@[j]) == Some(t),
            named(views(keys@), out@).to_multiset() == qualifying(entries@.take(k as int)).to_multiset(),
        decreases entries.len() - k,
    {
        proof {
            assert(entries@.take(k + 1).drop_last() =~= entries@.take(k as int));
            assert(entries@.take(k + 1).last() == entries@[k as int]);
        }
        let e = &entries[k];
        let ghost before = named(views(keys@), out@);
        let mut added = false;
        if e.is_dir && e.has_sql {
            if let Some(name) = &e.name {
                if let Some(m) = migration_entry(name.as_str(), e.sql_path.as_str()) {
                    let ghost tn = (name@, m.version, m.description@, m.path@);
                    assert(entry_migration(*e) == Some(tn));
                    let mut p: usize = 0;
                    while p < keys.len() && !str_lt(name.as_str(), keys[p].as_str())
                        invariant
                            p <= keys.len(),
                            forall|q: int| 0 <= q < p ==> !seq_lt(name@, #[trigger] keys@[q]@),
                        decreases keys.len() - p,
                    {
                        p = p + 1;
                    }
                    let ghost old_names = views(keys@);
                    let ghost old_out = out@;
                    keys.insert(p, name.clone());
                    out.insert(p, m);
                    proof {
                        let nn = views(keys@);
                        assert(nn =~= old_names.insert(p as int, name@));
                        assert(out@ =~= old_out.insert(p as int, m));
                        assert(named(nn, out@) =~= before.insert(p as int, tn));
                        lemma_insert_contains(before, p as int, tn);
                        lemma_insert_multiset(before, p as int, tn);
                        assert(qualifying(entries@.take(k + 1)) == qualifying(entries@.take(k as int)).push(tn));
                        vstd::seq_lib::to_multiset_build(qualifying(entries@.take(k as int)), tn);
                        assert forall|i: int, j: int| 0 <= i < j < nn.len() implies !seq_lt(
                            #[trigger] nn[j],
                            #[trigger] nn[i],
                        ) by {
                            if j < p {
                                assert(nn[i] == old_names[i] && nn[j] == old_names[j]);
                            } else if j == p {
                                assert(nn[i] == old_names[i]);
                            } else if i == p {
                                // name < old_names[p] <= old_names[j - 1]
                                assert(nn[j] == old_names[j - 1]);
                                assert(seq_lt(name@, old_names[p as int]));
                                if seq_lt(nn[j], name@) {
                                    lemma_seq_lt_transitive(nn[j], name@, old_names[p as int]);
                                    if j - 1 == p {
                                        lemma_seq_lt_irreflexive(nn[j]);
                                    }
                                }
                            } else if i < p {
                                assert(nn[i] == old_names[i] && nn[j] == old_names[j - 1]);
                            } else {
                                assert(nn[i] == old_names[i - 1] && nn[j] == old_names[j - 1]);
                            }
                        }
                        assert forall|t: (Seq<char>, i64, Seq<char>, Seq<char>)|
                            named(nn, out@).contains(t) <==> exists|j: int|
                                0 <= j < k + 1 && entry_migration(#[trigger] entries@[j]) == Some(t) by {
                            if t == tn {
                                assert(entry_migration(entries@[k as int]) == Some(t));
                            }
                            if exists|j: int| 0 <= j < k + 1 && entry_migration(#[trigger] entries@[j]) == Some(t) {
                                let j = choose|j: int| 0 <= j < k + 1 && entry_migration(#[trigger] entries@[j]) == Some(t);
                                if j < k {
                                    assert(before.contains(t));
                                }
                            }
                        }
                    }
                    added = true;
                }
            }
        }
        proof {
            if !added {
                assert(entry_migration(entries@[k as int]) is None);
                assert(qualifying(entries@.take(k + 1)) == qualifying(entries@.take(k as int)));
                assert forall|t: (Seq<char>, i64, Seq<char>, Seq<char>)|
                    named(views(keys@), out@).contains(t) <==> exists|j: int|
                        0 <= j < k + 1 && entry_migration(#[trigger] entries@[j]) == Some(t) by {
                    if exists|j: int| 0 <= j < k + 1 && entry_migration(#[trigger] entries@[j]) == Some(t) {
                        let j = choose|j: int| 0 <= j < k + 1 && entry_migration(#[trigger] entries@[j]) == Some(t);
                        assert(j < k);
                    }
                }
            }
        }
        k = k + 1;
    }
    proof {
        broadcast use vstd::seq_lib::group_to_multiset_ensures;

        let names = views(keys@);
        assert(names_sorted(names));
        assert(entries@.take(k as int) =~= entries@);
        assert(named(names, out@).len() == out@.len());
        assert(named(names, out@).to_multiset().len() == qualifying(entries@).to_multiset().len());
    }
    out
}

} // verus!
