//! Error responses of the API, and the status codes they carry.
use crate::text::{append, owned};
use vstd::prelude::*;
use vstd::string::*;

verus! {

/// An HTTP status code.
#[derive(Clone, Copy, Debug, PartialEq, Eq, Structural)]
pub struct StatusCode(pub u16);

/// 200 OK.
pub const STATUS_OK: u16 = 200;

/// 400 Bad Request.
pub const STATUS_BAD_REQUEST: u16 = 400;

/// 401 Unauthorized.
pub const STATUS_UNAUTHORIZED: u16 = 401;

/// 404 Not Found.
pub const STATUS_NOT_FOUND: u16 = 404;

/// 408 Request Timeout.
pub const STATUS_REQUEST_TIMEOUT: u16 = 408;

/// 409 Conflict.
pub const STATUS_CONFLICT: u16 = 409;

/// 429 Too Many Requests.
pub const STATUS_TOO_MANY_REQUESTS: u16 = 429;

/// 500 Internal Server Error.
pub const STATUS_INTERNAL_SERVER_ERROR: u16 = 500;

impl StatusCode {
    /// The numeric code.
    pub fn as_u16(&self) -> (res: u16)
        ensures
            res == self.0,
    {
        self.0
    }

    /// Whether this is a server error (500 to 599).
    pub fn is_server_error(&self) -> (res: bool)
        ensures
            res == (500 <= self.0 < 600),
    {
        500 <= self.0 && self.0 < 600
    }
}

} // verus!

verus! {

/// An error as the API reports it: a status, a short unique code, and a message.
#[derive(Clone, Debug)]
pub struct ErrorResponse {
    /// The HTTP status code.
    pub status: StatusCode,
    /// A short, unique error code.
    pub error: String,
    /// A human-readable error message.
    pub message: String,
}

/// The Unicode uppercase mapping of `text` (`str::to_uppercase`).
pub uninterp spec fn uppercase(text: Seq<char>) -> Seq<char>;

/// The ASCII uppercase of one character: `a`..`z` become `A`..`Z`, others stay.
pub open spec fn ascii_upper(c: char) -> char {
    if 'a' <= c <= 'z' {
        ((c as u32) - 32) as char
    } else {
        c
    }
}

/// `str::to_uppercase`: the result is the uppercase mapping of the text, and depends
/// on nothing else; on ASCII text it maps `a`..`z` to `A`..`Z` and keeps the rest, as
/// the documentation of `to_uppercase` and `to_ascii_uppercase` says. The Unicode
/// case tables beyond ASCII are not stated.
#[verifier::external_body]
fn to_uppercase(text: &str) -> (res: String)
    ensures
        res@ == uppercase(text@),
        (forall|i: int| 0 <= i < text@.len() ==> (#[trigger] text@[i] as u32) < 128)
            ==> res@ == text@.map_values(|c: char| ascii_upper(c)),
{
    text.to_uppercase()
}

impl ErrorResponse {
    /// An error response with the given status, code and message.
    pub fn new(status: StatusCode, error: &str, message: &str) -> (res: Self)
        ensures
            res.status == status,
            res.error@ == error@,
            res.message@ == message@,
    {
        ErrorResponse { status, error: owned(error), message: owned(message) }
    }

    /// The response for an entity that does not exist: status 404, code
    /// `{ENTITY}_NOT_FOUND`, message `{entity} not found`.
    pub fn not_found(entity: &str) -> (res: Self)
        ensures
            res.status == StatusCode(STATUS_NOT_FOUND),
            res.error@ == uppercase(entity@) + "_NOT_FOUND"@,
            (forall|i: int| 0 <= i < entity@.len() ==> (#[trigger] entity@[i] as u32) < 128)
                ==> res.error@ == entity@.map_values(|c: char| ascii_upper(c)) + "_NOT_FOUND"@,
            res.message@ == entity@ + " not found"@,
    {
        let mut error = to_uppercase(entity);
        append(&mut error, "_NOT_FOUND");
        let mut message = owned(entity);
        append(&mut message, " not found");
        ErrorResponse { status: StatusCode(STATUS_NOT_FOUND), error, message }
    }

    /// The response for a failed database operation, by the Postgres error code
    /// (`40001`: serialization failure; `23505`: unique violation) and the error's
    /// text. Every database error is answered with 409.
    pub fn from_database_error(code: Option<&str>, detail: &str) -> (res: Self)
        ensures
            res.status == StatusCode(STATUS_CONFLICT),
            code matches Some(c) && c@ == "40001"@ ==> {
                &&& res.error@ == "CONCURRENT_INDEX_CHANGE"@
                &&& res.message@ == "concurrent index change"@
            },
            code matches Some(c) && c@ == "23505"@ ==> {
                &&& res.error@ == "ALREADY_EXISTS"@
                &&& res.message@ == "already exists"@
            },
            !(code matches Some(c) && (c@ == "40001"@ || c@ == "23505"@)) ==> {
                &&& res.error@ == "DATABASE_ERROR"@
                &&& res.message@ == "internal database error: "@ + detail@
            },
    {
        proof {
            reveal_strlit("40001");
            reveal_strlit("23505");
            assert("40001"@[0] != "23505"@[0]);
        }
        if let Some(c) = code {
            if crate::text::str_eq(c, "40001") {
                return ErrorResponse::new(
                    StatusCode(STATUS_CONFLICT),
                    "CONCURRENT_INDEX_CHANGE",
                    "concurrent index change",
                );
            }
            if crate::text::str_eq(c, "23505") {
                return ErrorResponse::new(
                    StatusCode(STATUS_CONFLICT),
                    "ALREADY_EXISTS",
                    "already exists",
                );
            }
        }
        let mut message = owned("internal database error: ");
        append(&mut message, detail);
        ErrorResponse { status: StatusCode(STATUS_CONFLICT), error: owned("DATABASE_ERROR"), message }
    }
}

} // verus!
