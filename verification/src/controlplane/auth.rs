//! API tokens as the control plane stores them, and how the admin tool shows them.
use crate::client::cmd::reply::{render_table_plain, row_views, table_text};
use crate::digest::{hex_encode, hex_lower, sha256, sha256_digest};
use crate::text::{append, i64_decimal, int_decimal, owned};
use vstd::prelude::*;
use vstd::string::*;
use vstd::utf8::encode_utf8;

verus! {

/// Hashes an API token for storage in the database: SHA-256 of the secret followed
/// by the token. The result depends on nothing else, so the same secret and token
/// always give the same stored value.
pub fn hash_token(secret: &str, token: &str) -> (res: Vec<u8>)
    ensures
        res@ == sha256_digest(encode_utf8(secret@ + token@)),
        res@.len() == 32,
{
    let mut joined = owned(secret);
    append(&mut joined, token);
    sha256(joined.as_str().as_bytes())
}

/// A stored API token: its ID, its name and the SHA-256 digest of its value.
#[derive(Clone, Debug)]
pub struct ApiTokenRow {
    pub id: i64,
    pub name: String,
    pub token: Vec<u8>,
}

/// The header row of the token table.
pub open spec fn token_header() -> Seq<Seq<char>> {
    seq!["ID"@, "Name"@, "SHA-256(token)"@]
}

/// The table row of one token: its ID in decimal, its name, its digest in hex.
pub open spec fn token_row(t: ApiTokenRow) -> Seq<Seq<char>> {
    seq![int_decimal(t.id as int), t.name@, hex_lower(t.token@)]
}

/// The table that `attunectl token list` prints: a header row, then one row per
/// token (default style).
pub fn token_list_output(tokens: &Vec<ApiTokenRow>) -> (res: String)
    ensures
        res@ == table_text(
            seq![token_header()] + tokens@.map_values(|t: ApiTokenRow| token_row(t)),
            false,
        ),
{
    let header = vec![owned("ID"), owned("Name"), owned("SHA-256(token)")];
    assert(header@.map_values(|c: String| c@) =~= token_header());
    let mut rows: Vec<Vec<String>> = Vec::new();
    rows.push(header);
    assert(row_views(rows@) =~= seq![token_header()]);
    assert(tokens@.take(0) =~= Seq::<ApiTokenRow>::empty());
    let mut i: usize = 0;
    while i < tokens.len()
        invariant
            i <= tokens.len(),
            row_views(rows@) == seq![token_header()] + tokens@.take(i as int).map_values(
                |t: ApiTokenRow| token_row(t),
            ),
        decreases tokens.len() - i,
    {
        let t = &tokens[i];
        let row = vec![i64_decimal(t.id), t.name.clone(), hex_encode(t.token.as_slice())];
        let ghost prev = rows@;
        rows.push(row);
        proof {
            assert(row@.map_values(|c: String| c@) =~= token_row(*t));
            assert(row_views(rows@) =~= row_views(prev).push(row@.map_values(|c: String| c@)));
            assert(tokens@.take(i + 1) =~= tokens@.take(i as int).push(*t));
            assert(row_views(rows@) =~= seq![token_header()] + tokens@.take(i + 1).map_values(
                |t: ApiTokenRow| token_row(t),
            ));
        }
        i = i + 1;
    }
    assert(tokens@.take(tokens.len() as int) =~= tokens@);
    render_table_plain(&rows)
}

/// `Added token with ID {id}`.
pub fn token_added_message(id: i64) -> (res: String)
    ensures
        res@ == "Added token with ID "@ + int_decimal(id as int),
{
    let mut text = owned("Added token with ID ");
    append(&mut text, i64_decimal(id).as_str());
    text
}

/// `Removed token with ID {id}`.
pub fn token_removed_message(id: i64) -> (res: String)
    ensures
        res@ == "Removed token with ID "@ + int_decimal(id as int),
{
    let mut text = owned("Removed token with ID ");
    append(&mut text, i64_decimal(id).as_str());
    text
}

} // verus!
