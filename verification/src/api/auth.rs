//! Authentication and authorization of API requests.
use crate::api::error::{
    StatusCode, STATUS_INTERNAL_SERVER_ERROR, STATUS_NOT_FOUND, STATUS_UNAUTHORIZED,
};
use crate::digest::{sha256, sha256_digest};
use crate::text::push_char;
use vstd::prelude::*;
use vstd::string::*;
use vstd::utf8::{encode_utf8, is_ascii_chars, is_ascii_chars_encode_utf8};

verus! {

/// A tenant, authenticated by its API token.
#[derive(Clone, Copy, Debug, PartialEq, Eq, Structural)]
pub struct TenantID(pub i64);

/// A byte that a header value may hold and still be read as text: visible ASCII
/// or a tab (`HeaderValue::to_str`).
pub open spec fn visible_ascii(b: u8) -> bool {
    (32 <= b && b < 127) || b == 9
}

/// ASCII bytes read as characters.
pub open spec fn ascii_chars(bytes: Seq<u8>) -> Seq<char> {
    bytes.map_values(|b: u8| b as char)
}

/// The bytes of `Bearer `.
pub open spec fn bearer_prefix() -> Seq<u8> {
    seq![66u8, 101u8, 97u8, 114u8, 101u8, 114u8, 32u8]
}

/// The outcome of reading the token out of an `Authorization` header value.
pub open spec fn api_token_of(header: Option<Seq<u8>>) -> Result<Seq<char>, Seq<char>> {
    match header {
        None => Err("`Authorization` header is missing"@),
        Some(h) => if !(forall|i: int| 0 <= i < h.len() ==> visible_ascii(#[trigger] h[i])) {
            Err("`Authorization` header is malformed"@)
        } else if !(h.len() >= 7 && h.take(7) == bearer_prefix()) {
            Err("`Authorization` scheme must be `Bearer`"@)
        } else {
            Ok(ascii_chars(h.skip(7)))
        },
    }
}

/// The bytes of a header value, if there is one.
pub open spec fn header_bytes(header: Option<&[u8]>) -> Option<Seq<u8>> {
    match header {
        Some(h) => Some(h@),
        None => None,
    }
}

/// Reads the bearer token out of the value of the `Authorization` header, if the
/// request has one.
pub fn parse_api_token(header: Option<&[u8]>) -> (res: Result<String, &'static str>)
    ensures
        res matches Ok(token) ==> api_token_of(header_bytes(header)) == Ok::<Seq<char>, Seq<char>>(
            token@,
        ),
        res matches Err(message) ==> api_token_of(header_bytes(header)) == Err::<
            Seq<char>,
            Seq<char>,
        >(message@),
{
    let h = match header {
        None => {
            return Err("`Authorization` header is missing");
        },
        Some(h) => h,
    };
    let mut i: usize = 0;
    while i < h.len()
        invariant
            header_bytes(header) == Some(h@),
            i <= h@.len(),
            forall|j: int| 0 <= j < i ==> visible_ascii(#[trigger] h@[j]),
        decreases h.len() - i,
    {
        let b = h[i];
        if !((32 <= b && b < 127) || b == 9) {
            assert(!visible_ascii(h@[i as int]));
            return Err("`Authorization` header is malformed");
        }
        i = i + 1;
    }
    let prefix: [u8; 7] = [66u8, 101u8, 97u8, 114u8, 101u8, 114u8, 32u8];
    if h.len() < 7 {
        return Err("`Authorization` scheme must be `Bearer`");
    }
    let mut k: usize = 0;
    while k < 7
        invariant
            header_bytes(header) == Some(h@),
            k <= 7,
            h@.len() >= 7,
            forall|j: int| 0 <= j < h@.len() ==> visible_ascii(#[trigger] h@[j]),
            prefix@ == bearer_prefix(),
            forall|j: int| 0 <= j < k ==> h@[j] == bearer_prefix()[j],
        decreases 7 - k,
    {
        if h[k] != prefix[k] {
            proof {
                assert(h@.take(7)[k as int] != bearer_prefix()[k as int]);
            }
            return Err("`Authorization` scheme must be `Bearer`");
        }
        k = k + 1;
    }
    assert(h@.take(7) =~= bearer_prefix());
    let mut token = String::new();
    let mut j: usize = 7;
    while j < h.len()
        invariant
            7 <= j <= h@.len(),
            token@ == ascii_chars(h@.subrange(7, j as int)),
        decreases h.len() - j,
    {
        push_char(&mut token, h[j] as char);
        assert(h@.subrange(7, j + 1) =~= h@.subrange(7, j as int).push(h@[j as int]));
        assert(token@ =~= ascii_chars(h@.subrange(7, j + 1)));
        j = j + 1;
    }
    assert(h@.subrange(7, h@.len() as int) =~= h@.skip(7));
    Ok(token)
}

/// A character that a header value may hold and still be read as text.
pub open spec fn visible_ascii_char(c: char) -> bool {
    (' ' <= c && c <= '~') || c == '\t'
}

/// A token of visible ASCII characters, sent as the client writes the
/// `Authorization` header (`Bearer {token}`), is read back by the server as that
/// same token.
pub proof fn bearer_header_round_trip(token: Seq<char>)
    requires
        forall|i: int| 0 <= i < token.len() ==> visible_ascii_char(#[trigger] token[i]),
    ensures
        api_token_of(Some(encode_utf8("Bearer "@ + token))) == Ok::<Seq<char>, Seq<char>>(token),
{
    reveal_strlit("Bearer ");
    let text = "Bearer "@ + token;
    assert(is_ascii_chars(text)) by {
        assert forall|i: int| 0 <= i < text.len() implies '\0' <= #[trigger] text[i] <= '\u{7f}' by {
            if i >= 7 {
                assert(text[i] == token[i - 7]);
            }
        }
    }
    is_ascii_chars_encode_utf8(text);
    let h = encode_utf8(text);
    assert forall|i: int| 0 <= i < h.len() implies visible_ascii(#[trigger] h[i]) by {
        assert(h[i] == text[i] as u8);
        if i >= 7 {
            assert(text[i] == token[i - 7]);
        }
    }
    assert(h.take(7) =~= bearer_prefix());
    assert(ascii_chars(h.skip(7)) =~= token) by {
        assert forall|i: int| 0 <= i < token.len() implies ascii_chars(h.skip(7))[i] == token[i] by {
            assert(h[i + 7] == text[i + 7] as u8);
            assert(text[i + 7] == token[i]);
        }
    }
}

/// The digest under which a token is stored: SHA-256 of the token's bytes.
pub fn token_digest(token: &str) -> (res: Vec<u8>)
    ensures
        res@ == sha256_digest(encode_utf8(token@)),
        res@.len() == 32,
{
    sha256(token.as_bytes())
}

/// The tenant that a stored-token lookup found, or the rejection: 401 with
/// `Invalid API token` when no tenant holds the token.
pub fn tenant_from_lookup(found: Option<i64>) -> (res: Result<TenantID, (StatusCode, &'static str)>)
    ensures
        match found {
            Some(id) => res == Ok::<TenantID, (StatusCode, &'static str)>(TenantID(id)),
            None => res matches Err((status, message)) && status == StatusCode(STATUS_UNAUTHORIZED)
                && message@ == "Invalid API token\n"@,
        },
{
    match found {
        Some(id) => Ok(TenantID(id)),
        None => Err((StatusCode(STATUS_UNAUTHORIZED), "Invalid API token
")),
    }
}

/// The token of a request, or its rejection: 401 with the reason the
/// `Authorization` header could not be read.
pub fn request_token(header: Option<&[u8]>) -> (res: Result<String, (StatusCode, &'static str)>)
    ensures
        match api_token_of(header_bytes(header)) {
            Ok(token) => res matches Ok(t) && t@ == token,
            Err(message) => res matches Err((status, m)) && status == StatusCode(STATUS_UNAUTHORIZED)
                && m@ == message,
        },
{
    match parse_api_token(header) {
        Ok(token) => Ok(token),
        Err(message) => Err((StatusCode(STATUS_UNAUTHORIZED), message)),
    }
}

/// The tenant of a request, from the outcome of the stored-token query (`Err` when
/// the query failed): 500 with `Could not validate API token` when it failed, else
/// as `tenant_from_lookup` says.
pub fn tenant_from_query(outcome: Result<Option<i64>, ()>) -> (res: Result<
    TenantID,
    (StatusCode, &'static str),
>)
    ensures
        match outcome {
            Ok(Some(id)) => res == Ok::<TenantID, (StatusCode, &'static str)>(TenantID(id)),
            Ok(None) => res matches Err((status, message)) && status == StatusCode(STATUS_UNAUTHORIZED)
                && message@ == "Invalid API token\n"@,
            Err(_) => res matches Err((status, message)) && status == StatusCode(
                STATUS_INTERNAL_SERVER_ERROR,
            ) && message@ == "Could not validate API token"@,
        },
{
    match outcome {
        Ok(found) => tenant_from_lookup(found),
        Err(_) => Err((StatusCode(STATUS_INTERNAL_SERVER_ERROR), "Could not validate API token")),
    }
}

/// Whether the tenant may act on a release, given the tenant that owns the
/// release's repository (`None` where the release does not exist). A release of
/// another tenant is reported as missing, like one that does not exist.
pub fn tenant_owns_release(owner: Option<i64>, tenant_id: TenantID) -> (res: Result<
    (),
    (StatusCode, &'static str),
>)
    ensures
        res is Ok <==> owner == Some(tenant_id.0),
        res matches Err((status, message)) ==> status == StatusCode(STATUS_NOT_FOUND)
            && message@ == "Repository not found\n"@,
{
    match owner {
        Some(o) => {
            if o != tenant_id.0 {
                return Err((StatusCode(STATUS_NOT_FOUND), "Repository not found
"));
            }
        },
        None => {
            return Err((StatusCode(STATUS_NOT_FOUND), "Repository not found
"));
        },
    }
    Ok(())
}

} // verus!
