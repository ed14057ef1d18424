//! When and how long the client waits before trying a request again.
use crate::api::ErrorResponse;
use crate::cli::random_below;
use crate::text::str_eq;
use vstd::prelude::*;

verus! {

/// Base delay in milliseconds for retry backoff.
pub const STATIC_RETRY_DELAY_MS: u64 = 2000;

/// A retry delay in milliseconds: the base delay plus a random jitter of less than
/// the base delay.
pub fn calculate_retry_delay() -> (res: u64)
    ensures
        STATIC_RETRY_DELAY_MS <= res < 2 * STATIC_RETRY_DELAY_MS,
{
    STATIC_RETRY_DELAY_MS + random_below(STATIC_RETRY_DELAY_MS)
}

/// The error codes that a later attempt may not meet again: a concurrent change to
/// the index, or a signature made over an index that changed meanwhile.
pub open spec fn retryable_code(code: Seq<char>) -> bool {
    code == "CONCURRENT_INDEX_CHANGE"@ || code == "DETACHED_SIGNATURE_VERIFICATION_FAILED"@
}

/// Whether an error code calls for another attempt.
pub fn is_retryable_code(code: &str) -> (res: bool)
    ensures
        res == retryable_code(code@),
{
    str_eq(code, "CONCURRENT_INDEX_CHANGE") || str_eq(code, "DETACHED_SIGNATURE_VERIFICATION_FAILED")
}

/// Whether an error response should trigger a retry.
pub fn should_retry(error: &ErrorResponse) -> (res: bool)
    ensures
        res == retryable_code(error.error@),
{
    is_retryable_code(error.error.as_str())
}

} // verus!
