//! Percent-encoding of URL path segments, with the set of bytes that `reqwest`
//! (through `url`) escapes in a path segment.
use crate::text::push_char;
use vstd::prelude::*;
use vstd::utf8::encode_utf8;

verus! {

/// Whether `b` is escaped in a path segment: the C0 controls, DEL and every
/// non-ASCII byte, and the bytes of `` "<>`#?{}/%`` and the space.
pub open spec fn escaped_in_path_segment(b: u8) -> bool {
    ||| b < 32
    ||| b >= 127
    ||| b == 32
    ||| b == 34
    ||| b == 35
    ||| b == 37
    ||| b == 47
    ||| b == 60
    ||| b == 62
    ||| b == 63
    ||| b == 96
    ||| b == 123
    ||| b == 125
}

/// The uppercase hexadecimal digit for a value below sixteen.
pub open spec fn hex_upper_digit(n: int) -> char {
    if n < 10 {
        ('0' as int + n) as char
    } else {
        ('A' as int + n - 10) as char
    }
}

/// One byte, escaped as `%XX` (uppercase hex) when it must be, else as itself.
pub open spec fn encoded_byte(b: u8) -> Seq<char> {
    if escaped_in_path_segment(b) {
        seq!['%', hex_upper_digit(b as int / 16), hex_upper_digit(b as int % 16)]
    } else {
        seq![b as char]
    }
}

/// Bytes percent-encoded for a path segment, byte by byte.
pub open spec fn percent_encoded(bytes: Seq<u8>) -> Seq<char>
    decreases bytes.len(),
{
    if bytes.len() == 0 {
        seq![]
    } else {
        percent_encoded(bytes.drop_last()) + encoded_byte(bytes.last())
    }
}

/// An encoded path segment holds no `/`, `?` or `#`: whatever the name, it stays
/// one segment of the path, with no query or fragment.
pub proof fn encoded_segment_has_no_separators(bytes: Seq<u8>)
    ensures
        forall|i: int|
            0 <= i < percent_encoded(bytes).len() ==> {
                let c = #[trigger] percent_encoded(bytes)[i];
                c != '/' && c != '?' && c != '#'
            },
    decreases bytes.len(),
{
    if bytes.len() > 0 {
        encoded_segment_has_no_separators(bytes.drop_last());
        let prefix = percent_encoded(bytes.drop_last());
        let last = encoded_byte(bytes.last());
        assert forall|i: int| 0 <= i < last.len() implies {
            let c = #[trigger] last[i];
            c != '/' && c != '?' && c != '#'
        } by {
            let b = bytes.last();
            if !escaped_in_path_segment(b) {
                assert(last[i] == b as char);
            }
        }
        assert forall|i: int| 0 <= i < percent_encoded(bytes).len() implies {
            let c = #[trigger] percent_encoded(bytes)[i];
            c != '/' && c != '?' && c != '#'
        } by {
            if i < prefix.len() {
                assert(percent_encoded(bytes)[i] == prefix[i]);
            } else {
                assert(percent_encoded(bytes)[i] == last[i - prefix.len()]);
            }
        }
    }
}

fn hex_upper_char(n: u8) -> (c: char)
    requires
        n < 16,
    ensures
        c == hex_upper_digit(n as int),
{
    if n < 10 {
        ((48u8 + n) as char)
    } else {
        ((55u8 + n) as char)
    }
}

/// Percent-encodes the UTF-8 bytes of `segment` for use as one path segment
/// (as `percent_encoding::percent_encode` with `PATH_SEGMENT_PERCENT_ENCODE_SET`).
pub fn percent_encode_path_segment(segment: &str) -> (res: String)
    ensures
        res@ == percent_encoded(encode_utf8(segment@)),
{
    let bytes = segment.as_bytes();
    let mut out = String::new();
    let mut i: usize = 0;
    while i < bytes.len()
        invariant
            i <= bytes@.len(),
            bytes@ == encode_utf8(segment@),
            out@ == percent_encoded(bytes@.take(i as int)),
        decreases bytes.len() - i,
    {
        let b = bytes[i];
        let escaped = b < 32 || b >= 127 || b == 32 || b == 34 || b == 35 || b == 37 || b == 47
            || b == 60 || b == 62 || b == 63 || b == 96 || b == 123 || b == 125;
        if escaped {
            push_char(&mut out, '%');
            push_char(&mut out, hex_upper_char(b / 16));
            push_char(&mut out, hex_upper_char(b % 16));
        } else {
            push_char(&mut out, b as char);
        }
        proof {
            assert(bytes@.take(i + 1).drop_last() =~= bytes@.take(i as int));
            assert(bytes@.take(i + 1).last() == b);
            assert(out@ =~= percent_encoded(bytes@.take(i + 1)));
        }
        i = i + 1;
    }
    assert(bytes@.take(bytes@.len() as int) =~= bytes@);
    out
}

} // verus!
