//! What the commands make of a reply: error responses for local failures, the
//! outcome of a request, and the next step of a command's retry loop.
use crate::api::error::{ErrorResponse, StatusCode, STATUS_INTERNAL_SERVER_ERROR, STATUS_OK};
use crate::client::retry::{retryable_code, should_retry};
use crate::text::{append, owned};
use vstd::prelude::*;
use vstd::string::*;

verus! {

/// The `Debug` rendering of a string: quoted, with escapes (`format!("{:?}", s)`).
pub uninterp spec fn debug_quoted(text: Seq<char>) -> Seq<char>;

/// The text of a table of rows, the first row being the header, as `tabled`'s
/// `Builder` renders it (with `Style::modern` when `modern`, else the default style).
pub uninterp spec fn table_text(rows: Seq<Seq<Seq<char>>>, modern: bool) -> Seq<char>;

/// `format!("{:?}", text)`: the result is the `Debug` rendering of the text, and
/// depends on nothing else. Which characters are escaped is not stated.
#[verifier::external_body]
pub(crate) fn quote_debug(text: &str) -> (res: String)
    ensures
        res@ == debug_quoted(text@),
{
    format!("{:?}", text)
}

/// The rows' views.
pub open spec fn row_views(rows: Seq<Vec<String>>) -> Seq<Seq<Seq<char>>> {
    rows.map_values(|r: Vec<String>| r@.map_values(|c: String| c@))
}

/// `tabled::builder::Builder::from` the rows, built into a table, styled with
/// `Style::modern()` and displayed. Claims only that the result is a function of the
/// rows; the layout is not stated.
#[verifier::external_body]
pub(crate) fn render_table_modern(rows: &Vec<Vec<String>>) -> (res: String)
    ensures
        res@ == table_text(row_views(rows@), true),
{
    let mut table = tabled::builder::Builder::from(rows.clone()).build();
    table.with(tabled::settings::Style::modern());
    table.to_string()
}

/// `tabled::builder::Builder::from` the rows, built into a table with the default
/// style and displayed. Claims only that the result is a function of the rows; the
/// layout is not stated.
#[verifier::external_body]
pub(crate) fn render_table_plain(rows: &Vec<Vec<String>>) -> (res: String)
    ensures
        res@ == table_text(row_views(rows@), false),
{
    tabled::builder::Builder::from(rows.clone()).build().to_string()
}

/// An error response with status 500 for a failure on the client's side.
pub fn local_error(code: &str, what: &str, detail: &str) -> (res: ErrorResponse)
    ensures
        res.status == StatusCode(STATUS_INTERNAL_SERVER_ERROR),
        res.error@ == code@,
        res.message@ == what@ + ": "@ + detail@,
{
    let mut message = owned(what);
    append(&mut message, ": ");
    append(&mut message, detail);
    ErrorResponse { status: StatusCode(STATUS_INTERNAL_SERVER_ERROR), error: owned(code), message }
}

/// The error for a request that could not be sent.
pub fn request_failed(detail: &str) -> (res: ErrorResponse)
    ensures
        res.status == StatusCode(STATUS_INTERNAL_SERVER_ERROR),
        res.error@ == "REQUEST_FAILED"@,
        res.message@ == "Failed to send request"@ + ": "@ + detail@,
{
    local_error("REQUEST_FAILED", "Failed to send request", detail)
}

/// The error for a URL that could not be built.
pub fn url_failed(detail: &str) -> (res: ErrorResponse)
    ensures
        res.status == StatusCode(STATUS_INTERNAL_SERVER_ERROR),
        res.error@ == "URL_ERROR"@,
        res.message@ == "Failed to build URL"@ + ": "@ + detail@,
{
    local_error("URL_ERROR", "Failed to build URL", detail)
}

/// What came of reading a reply's body as the expected data: a message made from
/// it, or the parser's complaint.
pub type Parsed = Result<String, String>;

/// The outcome of a command's request: on 200, the message made from the reply (or
/// a `PARSE_ERROR` when the reply does not parse); on any other status, the error
/// response that the reply holds (or a `PARSE_ERROR` when it does not parse).
pub fn reply_result(
    status: StatusCode,
    on_ok: Parsed,
    on_error: Result<ErrorResponse, String>,
) -> (res: Result<String, ErrorResponse>)
    ensures
        status.0 == STATUS_OK ==> match on_ok {
            Ok(message) => res == Ok::<String, ErrorResponse>(message),
            Err(detail) => res matches Err(e) && e.error@ == "PARSE_ERROR"@ && e.message@
                == "Failed to parse response"@ + ": "@ + detail@ && e.status == StatusCode(
                STATUS_INTERNAL_SERVER_ERROR,
            ),
        },
        status.0 != STATUS_OK ==> match on_error {
            Ok(error) => res == Err::<String, ErrorResponse>(error),
            Err(detail) => res matches Err(e) && e.error@ == "PARSE_ERROR"@ && e.message@
                == "Failed to parse error response"@ + ": "@ + detail@ && e.status == StatusCode(
                STATUS_INTERNAL_SERVER_ERROR,
            ),
        },
{
    if status.0 == STATUS_OK {
        match on_ok {
            Ok(message) => Ok(message),
            Err(detail) => Err(local_error("PARSE_ERROR", "Failed to parse response", detail.as_str())),
        }
    } else {
        match on_error {
            Ok(error) => Err(error),
            Err(detail) => Err(
                local_error("PARSE_ERROR", "Failed to parse error response", detail.as_str()),
            ),
        }
    }
}

/// The next step of a command's loop.
#[derive(Clone, Debug)]
pub enum CommandStep {
    /// Print the message to standard output and exit successfully.
    Succeed(String),
    /// Wait a retry delay, then run the request again.
    Retry,
    /// Print the message to standard error and exit with failure.
    Fail(String),
}

/// What a command does with the outcome of its request: print the message on
/// success, retry on a retryable error, and otherwise report
/// `{failure_prefix}: {message}`.
pub fn command_step(outcome: Result<String, ErrorResponse>, failure_prefix: &str) -> (res:
    CommandStep)
    ensures
        match outcome {
            Ok(message) => res == CommandStep::Succeed(message),
            Err(error) => if retryable_code(error.error@) {
                res is Retry
            } else {
                res matches CommandStep::Fail(text) && text@ == failure_prefix@ + ": "@
                    + error.message@
            },
        },
{
    match outcome {
        Ok(message) => CommandStep::Succeed(message),
        Err(error) => {
            if should_retry(&error) {
                CommandStep::Retry
            } else {
                let mut text = owned(failure_prefix);
                append(&mut text, ": ");
                append(&mut text, error.message.as_str());
                CommandStep::Fail(text)
            }
        },
    }
}

} // verus!
