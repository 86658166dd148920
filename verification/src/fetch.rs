//! The bounded fetch: one outbound GET per invocation, judged against a
//! hard deadline, an expected status code, and UTF-8 decodability.
//!
//! The network round trip itself happens outside the library; what comes
//! back (or fails to) is handed in as a [`FetchEvent`] and judged here.

use vstd::prelude::*;
use vstd::utf8::valid_utf8;
use crate::FETCH_DEADLINE_MS;
use crate::encoding::utf8_check;

verus! {

/// Why one fetch invocation produced no payload.
#[derive(Clone, Copy, PartialEq, Eq, Structural, Debug)]
pub enum FetchError {
    /// Transport or connection failure before any response arrived.
    IoError,
    /// The deadline elapsed before a response was fully received.
    DeadlineReached,
    /// A response arrived whose status code was not 200; carries the code.
    UnexpectedStatus(u16),
    /// The response body did not decode as UTF-8 text.
    InvalidEncoding,
}

/// What the single network round trip of one invocation came to.
#[derive(Debug)]
pub enum FetchEvent {
    /// The request could not be sent or the connection failed.
    SendFailed,
    /// No response was received by the deadline.
    TimedOut,
    /// A response was fully received at `arrived_at_ms`.
    Responded { arrived_at_ms: u64, status: u16, body: Vec<u8> },
}

/// The URL of the single quotation endpoint this oracle reads.
pub fn fetch_url() -> (r: &'static str)
    ensures
        r@ == "https://api.diadata.org/v1/quotation/BTC"@,
{
    "https://api.diadata.org/v1/quotation/BTC"
}

/// The absolute expiry of a fetch started at `now_ms`, saturating at the
/// end of representable time.
pub open spec fn spec_fetch_deadline(now_ms: u64) -> u64 {
    if now_ms + FETCH_DEADLINE_MS <= u64::MAX {
        (now_ms + FETCH_DEADLINE_MS) as u64
    } else {
        u64::MAX
    }
}

/// Computes the absolute deadline of a fetch started at `now_ms`.
pub fn fetch_deadline(now_ms: u64) -> (r: u64)
    ensures
        r == spec_fetch_deadline(now_ms),
{
    if now_ms <= u64::MAX - FETCH_DEADLINE_MS {
        now_ms + FETCH_DEADLINE_MS
    } else {
        u64::MAX
    }
}

/// The verdict on one fetch event, judged against the deadline: the raw
/// body bytes of a timely status-200 UTF-8 response, or the reason there
/// is no payload.
pub open spec fn fetch_verdict(deadline_ms: u64, event: FetchEvent) -> Result<Seq<u8>, FetchError> {
    match event {
        FetchEvent::SendFailed => Err(FetchError::IoError),
        FetchEvent::TimedOut => Err(FetchError::DeadlineReached),
        FetchEvent::Responded { arrived_at_ms, status, body } => {
            if arrived_at_ms > deadline_ms {
                Err(FetchError::DeadlineReached)
            } else if status != 200 {
                Err(FetchError::UnexpectedStatus(status))
            } else if !valid_utf8(body@) {
                Err(FetchError::InvalidEncoding)
            } else {
                Ok(body@)
            }
        },
    }
}

/// Judges the outcome of the single round trip of one invocation.
///
/// A response is accepted only if it arrived by `deadline_ms`, carried
/// status 200, and its body decodes as UTF-8; the returned bytes are then
/// exactly that body.
pub fn evaluate_fetch(deadline_ms: u64, event: FetchEvent) -> (r: Result<Vec<u8>, FetchError>)
    ensures
        r matches Ok(body) ==> fetch_verdict(deadline_ms, event) == Ok::<Seq<u8>, FetchError>(
            body@,
        ),
        r matches Err(e) ==> fetch_verdict(deadline_ms, event) == Err::<Seq<u8>, FetchError>(e),
{
    match event {
        FetchEvent::SendFailed => Err(FetchError::IoError),
        FetchEvent::TimedOut => Err(FetchError::DeadlineReached),
        FetchEvent::Responded { arrived_at_ms, status, body } => {
            if arrived_at_ms > deadline_ms {
                Err(FetchError::DeadlineReached)
            } else if status != 200 {
                Err(FetchError::UnexpectedStatus(status))
            } else if !utf8_check(&body) {
                Err(FetchError::InvalidEncoding)
            } else {
                Ok(body)
            }
        },
    }
}

} // verus!
