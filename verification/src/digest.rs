//! Checksums: MD5, SHA-1 and SHA-256 digests, in lowercase hexadecimal.
use md5::Md5;
use sha1::Sha1;
use sha2::{Digest, Sha256};
use vstd::prelude::*;

verus! {

/// The MD5 digest of `data` (the `md5` crate's `Md5::digest`).
pub uninterp spec fn md5_digest(data: Seq<u8>) -> Seq<u8>;

/// The SHA-1 digest of `data` (the `sha1` crate's `Sha1::digest`).
pub uninterp spec fn sha1_digest(data: Seq<u8>) -> Seq<u8>;

/// The SHA-256 digest of `data` (the `sha2` crate's `Sha256::digest`).
pub uninterp spec fn sha256_digest(data: Seq<u8>) -> Seq<u8>;

/// `md5::Md5::digest`: the result is the MD5 digest of the given bytes, and depends
/// on nothing else, and is 16 bytes long (the output size of the type). What the
/// digest is, is not stated.
#[verifier::external_body]
fn md5_bytes(data: &[u8]) -> (res: Vec<u8>)
    ensures
        res@ == md5_digest(data@),
        res@.len() == 16,
{
    Md5::digest(data).to_vec()
}

/// `sha1::Sha1::digest`: the result is the SHA-1 digest of the given bytes, and
/// depends on nothing else, and is 20 bytes long (the output size of the type). What
/// the digest is, is not stated.
#[verifier::external_body]
fn sha1_bytes(data: &[u8]) -> (res: Vec<u8>)
    ensures
        res@ == sha1_digest(data@),
        res@.len() == 20,
{
    Sha1::digest(data).to_vec()
}

/// `sha2::Sha256::digest`: the result is the SHA-256 digest of the given bytes, and
/// depends on nothing else, and is 32 bytes long (the output size of the type). What
/// the digest is, is not stated.
#[verifier::external_body]
fn sha256_bytes(data: &[u8]) -> (res: Vec<u8>)
    ensures
        res@ == sha256_digest(data@),
        res@.len() == 32,
{
    Sha256::digest(data).to_vec()
}

/// The lowercase hexadecimal digit for a value below sixteen.
pub open spec fn hex_digit(n: int) -> char {
    if n < 10 {
        ('0' as int + n) as char
    } else {
        ('a' as int + n - 10) as char
    }
}

/// Lowercase hexadecimal encoding: two digits per byte, high nibble first.
pub open spec fn hex_lower(bytes: Seq<u8>) -> Seq<char>
    decreases bytes.len(),
{
    if bytes.len() == 0 {
        seq![]
    } else {
        seq![hex_digit(bytes[0] as int / 16), hex_digit(bytes[0] as int % 16)] + hex_lower(bytes.drop_first())
    }
}

/// Two hexadecimal digits per byte.
pub proof fn lemma_hex_lower_len(bytes: Seq<u8>)
    ensures
        hex_lower(bytes).len() == 2 * bytes.len(),
    decreases bytes.len(),
{
    if bytes.len() > 0 {
        lemma_hex_lower_len(bytes.drop_first());
    }
}

/// `hex::encode`: claims that the result is the lowercase hexadecimal encoding of
/// the bytes, two digits per byte in order, high nibble first (the crate's
/// `HEX_CHARS_LOWER` table).
#[verifier::external_body]
pub(crate) fn hex_encode(data: &[u8]) -> (res: String)
    ensures
        res@ == hex_lower(data@),
{
    hex::encode(data)
}

/// The lowercase hexadecimal MD5 digest of `data`.
pub fn md5_hex(data: &[u8]) -> (res: String)
    ensures
        res@ == hex_lower(md5_digest(data@)),
        res@.len() == 32,
{
    let d = md5_bytes(data);
    proof {
        lemma_hex_lower_len(d@);
    }
    hex_encode(d.as_slice())
}

/// The lowercase hexadecimal SHA-1 digest of `data`.
pub fn sha1_hex(data: &[u8]) -> (res: String)
    ensures
        res@ == hex_lower(sha1_digest(data@)),
        res@.len() == 40,
{
    let d = sha1_bytes(data);
    proof {
        lemma_hex_lower_len(d@);
    }
    hex_encode(d.as_slice())
}

/// The lowercase hexadecimal SHA-256 digest of `data`.
pub fn sha256_hex(data: &[u8]) -> (res: String)
    ensures
        res@ == hex_lower(sha256_digest(data@)),
        res@.len() == 64,
{
    let d = sha256_bytes(data);
    proof {
        lemma_hex_lower_len(d@);
    }
    hex_encode(d.as_slice())
}

/// The SHA-256 digest of `data`, as raw bytes.
pub fn sha256(data: &[u8]) -> (res: Vec<u8>)
    ensures
        res@ == sha256_digest(data@),
        res@.len() == 32,
{
    sha256_bytes(data)
}

} // verus!
