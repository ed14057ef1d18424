//! The operations of the command-line client that the library carries: request
//! paths, the authorization header, and the infinite retry loop.
pub mod apt;
pub mod paths;

use crate::text::{append, owned};
use vstd::prelude::*;

verus! {

/// The value of the `Authorization` header for an API token: `Bearer {token}`.
pub fn authorization_header(api_token: &str) -> (res: String)
    ensures
        res@ == "Bearer "@ + api_token@,
{
    let mut value = owned("Bearer ");
    append(&mut value, api_token);
    value
}

/// The default retry delay's static part, in milliseconds.
pub const STATIC_RETRY_DELAY_MS: u64 = 2000;

/// `rand::random_range(0..bound)`: a random number below `bound`. Only the range of
/// the outcome is claimed.
#[verifier::external_body]
pub(crate) fn random_below(bound: u64) -> (res: u64)
    requires
        bound > 0,
    ensures
        res < bound,
{
    rand::random_range(0..bound)
}

/// The default retry delay, in milliseconds: a static delay of 2 seconds plus a
/// random jitter of up to 2 seconds, whatever the attempt.
pub fn retry_delay_default(_attempt: usize) -> (res: u64)
    ensures
        STATIC_RETRY_DELAY_MS <= res < 2 * STATIC_RETRY_DELAY_MS,
{
    STATIC_RETRY_DELAY_MS + random_below(STATIC_RETRY_DELAY_MS)
}

/// What the retry loop does after an attempt.
#[derive(Debug)]
pub enum RetryStep<T, E> {
    /// Stop, and give this outcome to the caller.
    Finish(Result<T, E>),
    /// Wait the delay for this attempt, then make attempt `next_attempt`.
    Wait { attempt: usize, next_attempt: usize },
}

/// One turn of the infinite retry loop: a success is returned; an error is retried
/// when `retryable` (what `should_retry` said of it), else returned.
pub fn retry_step<T, E>(attempt: usize, outcome: Result<T, E>, retryable: bool) -> (res: RetryStep<
    T,
    E,
>)
    requires
        attempt < usize::MAX,
    ensures
        match outcome {
            Ok(v) => res == RetryStep::<T, E>::Finish(Ok(v)),
            Err(e) => if retryable {
                res == RetryStep::<T, E>::Wait { attempt, next_attempt: (attempt + 1) as usize }
            } else {
                res == RetryStep::<T, E>::Finish(Err(e))
            },
        },
{
    match outcome {
        Ok(v) => RetryStep::Finish(Ok(v)),
        Err(e) => {
            if retryable {
                RetryStep::Wait { attempt, next_attempt: attempt + 1 }
            } else {
                RetryStep::Finish(Err(e))
            }
        },
    }
}

} // verus!
