//! Text building blocks: decimal numbers, joining, and lexicographic order.
use vstd::prelude::*;
use vstd::string::*;

verus! {

/// Appends one character to a string (`String::push`).
#[verifier::external_body]
pub(crate) fn push_char(s: &mut String, c: char)
    ensures
        final(s)@ == old(s)@.push(c),
{
    s.push(c)
}

/// A copy of a string slice as an owned `String`.
pub fn owned(s: &str) -> (res: String)
    ensures
        res@ == s@,
{
    String::from_str(s)
}

/// A copy of an optional string.
pub fn clone_optional(value: &Option<String>) -> (res: Option<String>)
    ensures
        res == *value,
{
    match value {
        Some(s) => Some(s.clone()),
        None => None,
    }
}

/// Appends `s` to `out`.
pub fn append(out: &mut String, s: &str)
    ensures
        final(out)@ == old(out)@ + s@,
{
    out.append(s);
}

/// The concatenation of two string slices.
pub fn concat2(a: &str, b: &str) -> (res: String)
    ensures
        res@ == a@ + b@,
{
    let mut out = String::from_str(a);
    out.append(b);
    out
}

/// The concatenation of three string slices.
pub fn concat3(a: &str, b: &str, c: &str) -> (res: String)
    ensures
        res@ == a@ + b@ + c@,
{
    let mut out = String::from_str(a);
    out.append(b);
    out.append(c);
    out
}

// ---------------------------------------------------------------------------
// Decimal numbers
// ---------------------------------------------------------------------------
/// The ASCII decimal digit for `d`, which must be below ten.
pub open spec fn digit_char(d: nat) -> char
    recommends
        d < 10,
{
    (('0' as nat) + d) as char
}

/// Decimal representation of a natural number, most significant digit first.
pub open spec fn nat_decimal(n: nat) -> Seq<char>
    decreases n,
{
    if n < 10 {
        seq![digit_char(n)]
    } else {
        nat_decimal(n / 10).push(digit_char(n % 10))
    }
}

/// Decimal representation of an integer, with a leading `-` when negative.
pub open spec fn int_decimal(i: int) -> Seq<char> {
    if i < 0 {
        seq!['-'] + nat_decimal((-i) as nat)
    } else {
        nat_decimal(i as nat)
    }
}

fn char_of_digit(d: u64) -> (c: char)
    requires
        d < 10,
    ensures
        c == digit_char(d as nat),
{
    if d == 0 {
        '0'
    } else if d == 1 {
        '1'
    } else if d == 2 {
        '2'
    } else if d == 3 {
        '3'
    } else if d == 4 {
        '4'
    } else if d == 5 {
        '5'
    } else if d == 6 {
        '6'
    } else if d == 7 {
        '7'
    } else if d == 8 {
        '8'
    } else {
        '9'
    }
}

/// Appends the decimal digits of `n` to `out`.
pub fn push_u64_decimal(out: &mut String, n: u64)
    ensures
        final(out)@ == old(out)@ + nat_decimal(n as nat),
    decreases n,
{
    if n >= 10 {
        push_u64_decimal(out, n / 10);
    }
    let d: u64 = n % 10;
    let c = char_of_digit(d);
    push_char(out, c);
    proof {
        if n < 10 {
            assert(old(out)@ + nat_decimal(n as nat) =~= old(out)@.push(c));
        } else {
            assert(old(out)@ + nat_decimal(n as nat) =~= old(out)@ + nat_decimal((n / 10) as nat)
                + seq![c]);
        }
    }
}

/// Appends the decimal representation of `i` (as `i64::to_string` gives it) to `out`.
pub fn push_i64_decimal(out: &mut String, i: i64)
    ensures
        final(out)@ == old(out)@ + int_decimal(i as int),
{
    if i < 0 {
        push_char(out, '-');
        let magnitude: u64 = (0i128 - (i as i128)) as u64;
        push_u64_decimal(out, magnitude);
        assert(final(out)@ =~= old(out)@ + int_decimal(i as int));
    } else {
        push_u64_decimal(out, i as u64);
    }
}

/// `i64::to_string`: the decimal representation of `i`.
pub fn i64_decimal(i: i64) -> (res: String)
    ensures
        res@ == int_decimal(i as int),
{
    let mut out = String::new();
    push_i64_decimal(&mut out, i);
    assert(out@ =~= int_decimal(i as int));
    out
}

// ---------------------------------------------------------------------------
// Joining
// ---------------------------------------------------------------------------
/// `parts` joined with `sep` between consecutive parts (as `[String]::join` does).
pub open spec fn join(parts: Seq<Seq<char>>, sep: Seq<char>) -> Seq<char>
    decreases parts.len(),
{
    if parts.len() == 0 {
        seq![]
    } else if parts.len() == 1 {
        parts[0]
    } else {
        join(parts.drop_last(), sep) + sep + parts.last()
    }
}

/// The views of a sequence of strings.
pub open spec fn views(v: Seq<String>) -> Seq<Seq<char>> {
    v.map_values(|s: String| s@)
}

/// Joining one more part appends the separator and the part.
pub proof fn lemma_join_push(parts: Seq<Seq<char>>, sep: Seq<char>, last: Seq<char>)
    ensures
        join(parts.push(last), sep) == if parts.len() == 0 {
            last
        } else {
            join(parts, sep) + sep + last
        },
{
    assert(parts.push(last).drop_last() =~= parts);
}

/// The concatenation of all parts, without separator.
pub open spec fn concat_all(parts: Seq<Seq<char>>) -> Seq<char>
    decreases parts.len(),
{
    if parts.len() == 0 {
        seq![]
    } else {
        concat_all(parts.drop_last()) + parts.last()
    }
}

/// `parts` joined with `sep`, as `[String]::join`.
pub fn join_strings(parts: &Vec<String>, sep: &str) -> (res: String)
    ensures
        res@ == join(views(parts@), sep@),
{
    let mut out = String::new();
    let mut i: usize = 0;
    while i < parts.len()
        invariant
            i <= parts.len(),
            out@ == join(views(parts@).take(i as int), sep@),
        decreases parts.len() - i,
    {
        proof {
            assert(views(parts@).take(i + 1) =~= views(parts@).take(i as int).push(parts@[i as int]@));
            lemma_join_push(views(parts@).take(i as int), sep@, parts@[i as int]@);
        }
        if i > 0 {
            out.append(sep);
        }
        out.append(parts[i].as_str());
        i = i + 1;
    }
    assert(views(parts@).take(parts.len() as int) =~= views(parts@));
    out
}

// ---------------------------------------------------------------------------
// Lexicographic order
// ---------------------------------------------------------------------------
/// Strict lexicographic order on character sequences (the order of `str`'s `Ord`,
/// which compares the UTF-8 bytes, and so the code points, one by one).
pub open spec fn seq_lt(a: Seq<char>, b: Seq<char>) -> bool
    decreases a.len(),
{
    if b.len() == 0 {
        false
    } else if a.len() == 0 {
        true
    } else if a[0] != b[0] {
        (a[0] as int) < (b[0] as int)
    } else {
        seq_lt(a.drop_first(), b.drop_first())
    }
}

/// No sequence precedes itself.
pub proof fn lemma_seq_lt_irreflexive(a: Seq<char>)
    ensures
        !seq_lt(a, a),
    decreases a.len(),
{
    if a.len() > 0 {
        lemma_seq_lt_irreflexive(a.drop_first());
    }
}

/// The order is transitive.
pub proof fn lemma_seq_lt_transitive(a: Seq<char>, b: Seq<char>, c: Seq<char>)
    requires
        seq_lt(a, b),
        seq_lt(b, c),
    ensures
        seq_lt(a, c),
    decreases a.len(),
{
    if a.len() > 0 && b.len() > 0 && c.len() > 0 {
        if a[0] == b[0] && b[0] == c[0] {
            lemma_seq_lt_transitive(a.drop_first(), b.drop_first(), c.drop_first());
        }
    }
}

/// Two distinct sequences are ordered one way or the other, and not both ways.
pub proof fn lemma_seq_lt_total(a: Seq<char>, b: Seq<char>)
    ensures
        a != b ==> (seq_lt(a, b) || seq_lt(b, a)),
        !(seq_lt(a, b) && seq_lt(b, a)),
    decreases a.len(),
{
    if a.len() > 0 && b.len() > 0 && a[0] == b[0] {
        lemma_seq_lt_total(a.drop_first(), b.drop_first());
        if a != b {
            assert(a.drop_first() != b.drop_first()) by {
                if a.drop_first() == b.drop_first() {
                    assert(a =~= seq![a[0]] + a.drop_first());
                    assert(b =~= seq![b[0]] + b.drop_first());
                }
            }
        }
    } else if a.len() == 0 && b.len() == 0 {
        assert(a =~= b);
    } else if a.len() > 0 && b.len() > 0 {
        assert((a[0] as int) != (b[0] as int));
    }
}

/// Skipping a common prefix does not change the order.
proof fn lemma_seq_lt_skip(a: Seq<char>, b: Seq<char>, i: int)
    requires
        0 <= i <= a.len(),
        i <= b.len(),
        a.take(i) == b.take(i),
    ensures
        seq_lt(a, b) == seq_lt(a.skip(i), b.skip(i)),
    decreases i,
{
    if i > 0 {
        assert(a[0] == a.take(i)[0]);
        assert(b[0] == b.take(i)[0]);
        assert(a.drop_first().take(i - 1) =~= a.take(i).drop_first());
        assert(b.drop_first().take(i - 1) =~= b.take(i).drop_first());
        lemma_seq_lt_skip(a.drop_first(), b.drop_first(), i - 1);
        assert(a.drop_first().skip(i - 1) =~= a.skip(i));
        assert(b.drop_first().skip(i - 1) =~= b.skip(i));
    } else {
        assert(a.skip(0) =~= a);
        assert(b.skip(0) =~= b);
    }
}

/// Whether `a` precedes `b` in the order of `str`.
pub fn str_lt(a: &str, b: &str) -> (res: bool)
    ensures
        res == seq_lt(a@, b@),
{
    let alen = a.unicode_len();
    let blen = b.unicode_len();
    let mut i: usize = 0;
    while i < alen && i < blen
        invariant
            alen == a@.len(),
            blen == b@.len(),
            i <= alen,
            i <= blen,
            a@.take(i as int) == b@.take(i as int),
        decreases alen - i,
    {
        let ca = a.get_char(i);
        let cb = b.get_char(i);
        if ca != cb {
            proof {
                lemma_seq_lt_skip(a@, b@, i as int);
                assert(a@.skip(i as int)[0] == ca);
                assert(b@.skip(i as int)[0] == cb);
            }
            return ca < cb;
        }
        assert(a@.take(i + 1) =~= a@.take(i as int).push(ca));
        assert(b@.take(i + 1) =~= b@.take(i as int).push(cb));
        i = i + 1;
    }
    proof {
        lemma_seq_lt_skip(a@, b@, i as int);
    }
    i == alen && i < blen
}

/// Whether two string slices hold the same characters.
pub fn str_eq(a: &str, b: &str) -> (res: bool)
    ensures
        res == (a@ == b@),
{
    owned(a) == owned(b)
}

/// `v` lists distinct sequences in strictly increasing order.
pub open spec fn strictly_sorted(v: Seq<Seq<char>>) -> bool {
    forall|i: int, j: int| 0 <= i < j < v.len() ==> seq_lt(#[trigger] v[i], #[trigger] v[j])
}

/// `v` lists the elements of `s` exactly once each, in increasing order.
pub open spec fn is_sorted_listing(v: Seq<Seq<char>>, s: Set<Seq<char>>) -> bool {
    &&& strictly_sorted(v)
    &&& forall|x: Seq<char>| s.contains(x) <==> v.contains(x)
}

/// The elements of the finite set `s` in increasing order.
pub open spec fn sorted_listing(s: Set<Seq<char>>) -> Seq<Seq<char>> {
    choose|v: Seq<Seq<char>>| is_sorted_listing(v, s)
}

/// A set has at most one sorted listing.
pub proof fn lemma_sorted_listing_unique(v: Seq<Seq<char>>, w: Seq<Seq<char>>, s: Set<Seq<char>>)
    requires
        is_sorted_listing(v, s),
        is_sorted_listing(w, s),
    ensures
        v == w,
    decreases v.len() + w.len(),
{
    if v.len() == 0 {
        if w.len() > 0 {
            assert(w.contains(w[0]));
            assert(v.contains(w[0]));
        }
        assert(v =~= w);
    } else if w.len() == 0 {
        assert(v.contains(v[0]));
        assert(w.contains(v[0]));
    } else {
        // The first elements are both the least element of `s`.
        assert(v.contains(v[0]));
        assert(w.contains(v[0]));
        assert(w.contains(w[0]));
        assert(v.contains(w[0]));
        let iv = choose|k: int| 0 <= k < v.len() && v[k] == w[0];
        let iw = choose|k: int| 0 <= k < w.len() && w[k] == v[0];
        if v[0] != w[0] {
            assert(iv > 0);
            assert(iw > 0);
            assert(seq_lt(v[0], v[iv]));
            assert(seq_lt(w[0], w[iw]));
            lemma_seq_lt_total(v[0], w[0]);
            assert(false);
        }
        let s2 = s.remove(v[0]);
        let v2 = v.drop_first();
        let w2 = w.drop_first();
        assert forall|x: Seq<char>| s2.contains(x) <==> v2.contains(x) by {
            if v2.contains(x) {
                let k = choose|k: int| 0 <= k < v2.len() && v2[k] == x;
                assert(v[k + 1] == x);
                assert(seq_lt(v[0], v[k + 1]));
                lemma_seq_lt_irreflexive(x);
                assert(v.contains(x));
            }
            if s2.contains(x) {
                assert(v.contains(x));
                let k = choose|k: int| 0 <= k < v.len() && v[k] == x;
                assert(k != 0);
                assert(v2[k - 1] == x);
            }
        }
        assert forall|x: Seq<char>| s2.contains(x) <==> w2.contains(x) by {
            if w2.contains(x) {
                let k = choose|k: int| 0 <= k < w2.len() && w2[k] == x;
                assert(w[k + 1] == x);
                assert(seq_lt(w[0], w[k + 1]));
                lemma_seq_lt_irreflexive(x);
                assert(w.contains(x));
            }
            if s2.contains(x) {
                assert(w.contains(x));
                let k = choose|k: int| 0 <= k < w.len() && w[k] == x;
                assert(k != 0);
                assert(w2[k - 1] == x);
            }
        }
        assert(strictly_sorted(v2)) by {
            assert forall|i: int, j: int| 0 <= i < j < v2.len() implies seq_lt(v2[i], v2[j]) by {
                assert(v2[i] == v[i + 1] && v2[j] == v[j + 1]);
            }
        }
        assert(strictly_sorted(w2)) by {
            assert forall|i: int, j: int| 0 <= i < j < w2.len() implies seq_lt(w2[i], w2[j]) by {
                assert(w2[i] == w[i + 1] && w2[j] == w[j + 1]);
            }
        }
        lemma_sorted_listing_unique(v2, w2, s2);
        assert(v =~= seq![v[0]] + v2);
        assert(w =~= seq![w[0]] + w2);
    }
}

/// Any sorted listing of a set is the one `sorted_listing` names.
pub proof fn lemma_sorted_listing_is(v: Seq<Seq<char>>, s: Set<Seq<char>>)
    requires
        is_sorted_listing(v, s),
    ensures
        sorted_listing(s) == v,
{
    let w = sorted_listing(s);
    assert(is_sorted_listing(w, s));
    lemma_sorted_listing_unique(v, w, s);
}

/// `x` put into the sorted listing `v` before the first element it precedes.
pub open spec fn sorted_insert(v: Seq<Seq<char>>, x: Seq<char>) -> Seq<Seq<char>>
    decreases v.len(),
{
    if v.len() == 0 {
        seq![x]
    } else if seq_lt(x, v[0]) {
        seq![x] + v
    } else {
        seq![v[0]] + sorted_insert(v.drop_first(), x)
    }
}

/// Inserting a new element into a strictly sorted listing keeps it strictly sorted
/// and adds just that element.
proof fn lemma_sorted_insert(v: Seq<Seq<char>>, x: Seq<char>)
    requires
        strictly_sorted(v),
        !v.contains(x),
    ensures
        strictly_sorted(sorted_insert(v, x)),
        forall|y: Seq<char>| sorted_insert(v, x).contains(y) <==> (v.contains(y) || y == x),
        sorted_insert(v, x).len() == v.len() + 1,
    decreases v.len(),
{
    let r = sorted_insert(v, x);
    if v.len() == 0 {
        assert forall|y: Seq<char>| r.contains(y) <==> (v.contains(y) || y == x) by {
            if r.contains(y) {
                assert(r[0] == y);
            }
            if y == x {
                assert(r[0] == y);
            }
        }
    } else if seq_lt(x, v[0]) {
        assert forall|i: int, j: int| 0 <= i < j < r.len() implies seq_lt(#[trigger] r[i], #[trigger] r[j]) by {
            if i == 0 {
                if j > 1 {
                    assert(seq_lt(v[0], v[j - 1]));
                    lemma_seq_lt_transitive(x, v[0], v[j - 1]);
                }
            } else {
                assert(r[i] == v[i - 1] && r[j] == v[j - 1]);
            }
        }
        assert forall|y: Seq<char>| r.contains(y) <==> (v.contains(y) || y == x) by {
            if r.contains(y) {
                let k = choose|k: int| 0 <= k < r.len() && r[k] == y;
                if k > 0 {
                    assert(v[k - 1] == y);
                }
            }
            if v.contains(y) {
                let k = choose|k: int| 0 <= k < v.len() && v[k] == y;
                assert(r[k + 1] == y);
            }
            if y == x {
                assert(r[0] == y);
            }
        }
    } else {
        let rest = v.drop_first();
        assert(strictly_sorted(rest)) by {
            assert forall|i: int, j: int| 0 <= i < j < rest.len() implies seq_lt(#[trigger] rest[i], #[trigger] rest[j]) by {
                assert(rest[i] == v[i + 1] && rest[j] == v[j + 1]);
            }
        }
        assert(!rest.contains(x)) by {
            if rest.contains(x) {
                let k = choose|k: int| 0 <= k < rest.len() && rest[k] == x;
                assert(v[k + 1] == x);
            }
        }
        lemma_sorted_insert(rest, x);
        let tail = sorted_insert(rest, x);
        assert(x != v[0]) by {
            assert(v[0] == v[0]);
            if x == v[0] {
                assert(v.contains(x));
            }
        }
        lemma_seq_lt_total(x, v[0]);
        assert forall|i: int, j: int| 0 <= i < j < r.len() implies seq_lt(#[trigger] r[i], #[trigger] r[j]) by {
            if i == 0 {
                assert(r[j] == tail[j - 1]);
                assert(tail.contains(tail[j - 1]));
                if tail[j - 1] == x {
                } else {
                    assert(rest.contains(tail[j - 1]));
                    let k = choose|k: int| 0 <= k < rest.len() && rest[k] == tail[j - 1];
                    assert(v[k + 1] == tail[j - 1]);
                    assert(seq_lt(v[0], v[k + 1]));
                }
            } else {
                assert(r[i] == tail[i - 1] && r[j] == tail[j - 1]);
            }
        }
        assert forall|y: Seq<char>| r.contains(y) <==> (v.contains(y) || y == x) by {
            if r.contains(y) {
                let k = choose|k: int| 0 <= k < r.len() && r[k] == y;
                if k > 0 {
                    assert(tail[k - 1] == y);
                    assert(tail.contains(y));
                    if rest.contains(y) {
                        let m = choose|m: int| 0 <= m < rest.len() && rest[m] == y;
                        assert(v[m + 1] == y);
                    }
                } else {
                    assert(v[0] == y);
                }
            }
            if v.contains(y) {
                let k = choose|k: int| 0 <= k < v.len() && v[k] == y;
                if k == 0 {
                    assert(r[0] == y);
                } else {
                    assert(rest[k - 1] == y);
                    assert(rest.contains(y));
                    assert(tail.contains(y));
                    let m = choose|m: int| 0 <= m < tail.len() && tail[m] == y;
                    assert(r[m + 1] == y);
                }
            }
            if y == x {
                assert(tail.contains(x));
                let m = choose|m: int| 0 <= m < tail.len() && tail[m] == x;
                assert(r[m + 1] == y);
            }
        }
    }
}

/// Every finite sequence of values has a sorted listing of its distinct values.
proof fn sorted_listing_witness(items: Seq<Seq<char>>) -> (v: Seq<Seq<char>>)
    ensures
        is_sorted_listing(v, items.to_set()),
    decreases items.len(),
{
    if items.len() == 0 {
        let v = Seq::<Seq<char>>::empty();
        assert forall|x: Seq<char>| items.to_set().contains(x) <==> v.contains(x) by {}
        v
    } else {
        let init = items.drop_last();
        let x = items.last();
        let w = sorted_listing_witness(init);
        assert(items =~= init.push(x));
        if w.contains(x) {
            assert forall|y: Seq<char>| items.to_set().contains(y) <==> w.contains(y) by {
                if items.contains(y) {
                    let k = choose|k: int| 0 <= k < items.len() && items[k] == y;
                    if k < init.len() {
                        assert(init[k] == y);
                        assert(init.to_set().contains(y));
                    }
                }
                if w.contains(y) {
                    assert(init.to_set().contains(y));
                    let k = choose|k: int| 0 <= k < init.len() && init[k] == y;
                    assert(items[k] == y);
                }
            }
            w
        } else {
            lemma_sorted_insert(w, x);
            let v = sorted_insert(w, x);
            assert forall|y: Seq<char>| items.to_set().contains(y) <==> v.contains(y) by {
                if items.contains(y) {
                    let k = choose|k: int| 0 <= k < items.len() && items[k] == y;
                    if k < init.len() {
                        assert(init[k] == y);
                        assert(init.to_set().contains(y));
                    }
                }
                if v.contains(y) && y != x {
                    assert(w.contains(y));
                    assert(init.to_set().contains(y));
                    let k = choose|k: int| 0 <= k < init.len() && init[k] == y;
                    assert(items[k] == y);
                }
                if y == x {
                    assert(items[items.len() - 1] == y);
                }
            }
            v
        }
    }
}

/// The values of a sequence, each once, in increasing order: `sorted_listing` of its
/// set of values is such a listing.
pub proof fn sorted_listing_exists(items: Seq<Seq<char>>)
    ensures
        is_sorted_listing(sorted_listing(items.to_set()), items.to_set()),
{
    let v = sorted_listing_witness(items);
    lemma_sorted_listing_is(v, items.to_set());
}

/// Inserts `item` into the strictly sorted list `v`, unless it is present already.
pub fn insert_sorted_unique(v: &mut Vec<String>, item: &str)
    requires
        strictly_sorted(views(old(v)@)),
    ensures
        strictly_sorted(views(final(v)@)),
        forall|x: Seq<char>|
            views(final(v)@).contains(x) <==> (views(old(v)@).contains(x) || x == item@),
{
    let ghost old_views = views(v@);
    let mut k: usize = 0;
    while k < v.len() && str_lt(v[k].as_str(), item)
        invariant
            k <= v.len(),
            v@ == old(v)@,
            old_views == views(v@),
            forall|i: int| 0 <= i < k ==> seq_lt(#[trigger] old_views[i], item@),
        decreases v.len() - k,
    {
        k = k + 1;
    }
    if k < v.len() && str_eq(v[k].as_str(), item) {
        // Already present.
        proof {
            assert(old_views[k as int] == item@);
            assert(old_views.contains(item@));
        }
        return ;
    }
    proof {
        if k < v.len() {
            lemma_seq_lt_total(old_views[k as int], item@);
            assert(old_views[k as int] != item@);
            assert(seq_lt(item@, old_views[k as int]));
        }
    }
    v.insert(k, owned(item));
    proof {
        let nv = views(v@);
        assert(nv =~= old_views.take(k as int).push(item@) + old_views.skip(k as int));
        assert forall|i: int, j: int| 0 <= i < j < nv.len() implies seq_lt(
            #[trigger] nv[i],
            #[trigger] nv[j],
        ) by {
            if j < k {
                assert(nv[i] == old_views[i] && nv[j] == old_views[j]);
            } else if j == k {
                assert(nv[i] == old_views[i]);
            } else if i == k {
                assert(nv[j] == old_views[j - 1]);
                if j - 1 > k {
                    assert(seq_lt(old_views[k as int], old_views[j - 1]));
                    lemma_seq_lt_transitive(item@, old_views[k as int], old_views[j - 1]);
                }
            } else if i < k {
                assert(nv[i] == old_views[i] && nv[j] == old_views[j - 1]);
                if i != j - 1 {
                    assert(seq_lt(old_views[i], old_views[j - 1]));
                }
            } else {
                assert(nv[i] == old_views[i - 1] && nv[j] == old_views[j - 1]);
            }
        }
        assert forall|x: Seq<char>| nv.contains(x) <==> (old_views.contains(x) || x == item@) by {
            if nv.contains(x) {
                let i = choose|i: int| 0 <= i < nv.len() && nv[i] == x;
                if i < k {
                    assert(old_views[i] == x);
                } else if i > k {
                    assert(old_views[i - 1] == x);
                }
            }
            if old_views.contains(x) {
                let i = choose|i: int| 0 <= i < old_views.len() && old_views[i] == x;
                if i < k {
                    assert(nv[i] == x);
                } else {
                    assert(nv[i + 1] == x);
                }
            }
            if x == item@ {
                assert(nv[k as int] == x);
            }
        }
    }
}

} // verus!
