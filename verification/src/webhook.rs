//! The rules of webhook delivery: which answers count as delivered, what
//! the secret header carries, and when a failed call is made again.

use crate::text::or_empty;
use vstd::prelude::*;

verus! {

/// How many calls are made at most for one batch of new posts.
pub const MAX_ATTEMPTS: u64 = 5;

/// How long to wait between two calls, in seconds.
pub const RETRY_DELAY: u64 = 1;

/// What follows a webhook call.
#[derive(Clone, Copy, Debug, PartialEq, Eq, Structural)]
pub enum Retry {
    /// The call was answered with success: the batch is delivered.
    Delivered,
    /// The call failed and another one is due after the delay.
    Again,
    /// The call failed and it was the last one allowed.
    GaveUp,
}

/// A call is answered with success iff the status is in `200..300`.
pub open spec fn is_success(status: u16) -> bool {
    200 <= status < 300
}

/// The outcome of a call: the status of the answer, if there was one, has to
/// be a success.
pub open spec fn delivered(answer: Option<u16>) -> bool {
    answer matches Some(status) && is_success(status)
}

/// What follows call number `attempt` of at most `max_retries`.
pub open spec fn retry_step(attempt: u64, max_retries: u64, answer: Option<u16>) -> Retry {
    if delivered(answer) {
        Retry::Delivered
    } else if attempt < max_retries {
        Retry::Again
    } else {
        Retry::GaveUp
    }
}

/// Whether the status of an answer is a success.
pub fn send_webhook(status: u16) -> (ok: bool)
    ensures
        ok == is_success(status),
{
    200 <= status && status < 300
}

/// Decides what follows call number `attempt` of at most `max_retries`,
/// given the status of its answer, or none where the call got no answer.
pub fn send_webhook_retry(attempt: u64, max_retries: u64, answer: Option<u16>) -> (next: Retry)
    ensures
        next == retry_step(attempt, max_retries, answer),
{
    let ok = match answer {
        Some(status) => send_webhook(status),
        None => false,
    };
    if ok {
        Retry::Delivered
    } else if attempt < max_retries {
        Retry::Again
    } else {
        Retry::GaveUp
    }
}

/// The value of the `x-secret` header: the secret, or the empty text where
/// none is configured.
pub fn secret_header(secret: &Option<String>) -> (value: String)
    ensures
        value@ == or_empty(secret.deep_view()),
{
    match secret {
        Some(s) => s.clone(),
        None => String::new(),
    }
}

} // verus!
