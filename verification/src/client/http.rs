//! Requests to the API: which failures to retry, and how a reply is read.
use crate::api::error::{
    ErrorResponse, StatusCode, STATUS_REQUEST_TIMEOUT, STATUS_TOO_MANY_REQUESTS,
};
use vstd::prelude::*;

verus! {

/// The default number of attempts for a request.
pub const DEFAULT_ATTEMPTS: usize = 3;

/// A response status that calls for another attempt: a server error, a request
/// timeout, or too many requests.
pub open spec fn retryable_status(code: StatusCode) -> bool {
    ||| 500 <= code.0 < 600
    ||| code.0 == STATUS_REQUEST_TIMEOUT
    ||| code.0 == STATUS_TOO_MANY_REQUESTS
}

/// Determine if a response should trigger a retry.
pub fn should_retry_response(code: StatusCode) -> (res: bool)
    ensures
        res == retryable_status(code),
{
    if code.is_server_error() {
        return true;
    }
    code.0 == STATUS_REQUEST_TIMEOUT || code.0 == STATUS_TOO_MANY_REQUESTS
}

/// What a failed request reports of itself: whether it timed out, failed to
/// connect, or failed while being sent, and the status it got, if any.
#[derive(Clone, Copy, Debug)]
pub struct RequestFailure {
    pub is_timeout: bool,
    pub is_connect: bool,
    pub is_request: bool,
    pub status: Option<StatusCode>,
}

/// Determine if a failed request should trigger a retry.
pub fn should_retry_reqwest_error(error: &RequestFailure) -> (res: bool)
    ensures
        res == (error.is_timeout || error.is_connect || error.is_request || (error.status matches Some(
            s,
        ) && retryable_status(s))),
{
    error.is_timeout || error.is_connect || error.is_request || match error.status {
        Some(s) => should_retry_response(s),
        None => false,
    }
}

/// How a reply is read: an empty body gives no data; a body that parses as an
/// error response gives that error; a body that parses as the expected data gives
/// it; anything else gives no data.
pub fn read_reply<T>(
    status: StatusCode,
    body_is_empty: bool,
    as_error: Option<ErrorResponse>,
    as_data: Option<T>,
) -> (res: Result<(Option<T>, StatusCode), ErrorResponse>)
    ensures
        body_is_empty ==> res == Ok::<(Option<T>, StatusCode), ErrorResponse>((None, status)),
        !body_is_empty && as_error is Some ==> res == Err::<(Option<T>, StatusCode), ErrorResponse>(
            as_error->0,
        ),
        !body_is_empty && as_error is None ==> res == Ok::<(Option<T>, StatusCode), ErrorResponse>(
            (as_data, status),
        ),
{
    if body_is_empty {
        return Ok((None, status));
    }
    if let Some(error) = as_error {
        return Err(error);
    }
    match as_data {
        Some(data) => Ok((Some(data), status)),
        None => Ok((None, status)),
    }
}

/// Extension trait for HTTP responses dropping status codes.
pub trait ResponseDropStatus: Sized {
    /// The output type after transformation.
    type Output;

    /// What remains once the status is dropped.
    spec fn without_status(self) -> Self::Output;

    /// Drop the status code from the response.
    fn drop_status(self) -> (res: Self::Output)
        ensures
            res == self.without_status(),
    ;
}

/// Extension trait for HTTP responses dropping bodies.
pub trait ResponseDropBody: Sized {
    /// The output type after transformation.
    type Output;

    /// What remains once the body is dropped.
    spec fn without_body(self) -> Self::Output;

    /// Drop the body from the response.
    fn drop_body(self) -> (res: Self::Output)
        ensures
            res == self.without_body(),
    ;
}

/// Extension trait for requiring HTTP bodies have responses.
pub trait ResponseRequiresBody: Sized {
    /// The output type after transformation.
    type Output;

    /// Whether the body that is required is there.
    spec fn has_body(self) -> bool;

    /// The response with its body taken out of the `Option`.
    spec fn with_body(self) -> Self::Output;

    /// Require that the body was present (which callers must establish).
    fn require_body(self) -> (res: Self::Output)
        requires
            self.has_body(),
        ensures
            res == self.with_body(),
    ;
}

impl<T> ResponseRequiresBody for Result<(Option<T>, StatusCode), ErrorResponse> {
    type Output = Result<(T, StatusCode), ErrorResponse>;

    open spec fn has_body(self) -> bool {
        self matches Ok((body, _)) ==> body is Some
    }

    open spec fn with_body(self) -> Self::Output {
        match self {
            Ok((body, status)) => Ok((body->0, status)),
            Err(e) => Err(e),
        }
    }

    fn require_body(self) -> (res: Self::Output) {
        match self {
            Ok((body, status)) => match body {
                Some(b) => Ok((b, status)),
                None => vstd::pervasive::unreached(),
            },
            Err(e) => Err(e),
        }
    }
}

impl<T> ResponseRequiresBody for (Option<T>, StatusCode) {
    type Output = (T, StatusCode);

    open spec fn has_body(self) -> bool {
        self.0 is Some
    }

    open spec fn with_body(self) -> Self::Output {
        (self.0->0, self.1)
    }

    fn require_body(self) -> (res: Self::Output) {
        let (body, status) = self;
        match body {
            Some(b) => (b, status),
            None => vstd::pervasive::unreached(),
        }
    }
}

impl<T> ResponseDropBody for (T, StatusCode) {
    type Output = StatusCode;

    open spec fn without_body(self) -> StatusCode {
        self.1
    }

    fn drop_body(self) -> (res: StatusCode) {
        self.1
    }
}

impl<T> ResponseDropBody for Result<(T, StatusCode), ErrorResponse> {
    type Output = Result<StatusCode, ErrorResponse>;

    open spec fn without_body(self) -> Self::Output {
        match self {
            Ok((_, status)) => Ok(status),
            Err(e) => Err(e),
        }
    }

    fn drop_body(self) -> (res: Self::Output) {
        match self {
            Ok((_, status)) => Ok(status),
            Err(e) => Err(e),
        }
    }
}

impl<T> ResponseDropStatus for (T, StatusCode) {
    type Output = T;

    open spec fn without_status(self) -> T {
        self.0
    }

    fn drop_status(self) -> (res: T) {
        self.0
    }
}

impl<T> ResponseDropStatus for Result<(T, StatusCode), ErrorResponse> {
    type Output = Result<T, ErrorResponse>;

    open spec fn without_status(self) -> Self::Output {
        match self {
            Ok((body, _)) => Ok(body),
            Err(e) => Err(e),
        }
    }

    fn drop_status(self) -> (res: Self::Output) {
        match self {
            Ok((body, _)) => Ok(body),
            Err(e) => Err(e),
        }
    }
}

} // verus!
