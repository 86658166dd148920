//! The per-block trigger's decisions. The runtime invokes the worker once
//! per finalized block; the worker first consults the local identity pool,
//! then performs at most one bounded fetch, then fans the payload out into
//! one submission per identity. Every step here is a pure decision; the
//! surrounding runtime performs the I/O each decision calls for.

use vstd::prelude::*;
use crate::fetch::{FetchError, FetchEvent, fetch_deadline, fetch_verdict, spec_fetch_deadline,
    evaluate_fetch};
use crate::identity::{SigningIdentity, can_sign};
use crate::submission::{PlannedSubmission, build_submissions};

verus! {

/// Why one worker invocation ended without submitting anything.
#[derive(Clone, Copy, PartialEq, Eq, Structural, Debug)]
pub enum WorkerError {
    /// No local identity can sign, so no submission is possible; the
    /// invocation stops before any network work.
    NoLocalIdentity,
    /// The single fetch of this invocation produced no payload.
    Fetch(FetchError),
}

/// Leave to perform the single outbound fetch of one invocation; issued
/// only when at least one local identity can sign the eventual
/// submissions.
#[derive(Clone, Copy, PartialEq, Eq, Structural, Debug)]
pub struct FetchGrant {
    /// The absolute expiry of the granted fetch, in milliseconds.
    pub deadline_ms: u64,
}

/// Decides whether this invocation may fetch at all.
///
/// With no identity in the pool the invocation ends here, with
/// `NoLocalIdentity` and no fetch grant; otherwise the grant fixes the
/// deadline of the one permitted round trip, measured from `now_ms`.
pub fn authorize_fetch(identities: &Vec<SigningIdentity>, now_ms: u64) -> (r: Result<
    FetchGrant,
    WorkerError,
>)
    ensures
        identities@.len() == 0 <==> r == Err::<FetchGrant, WorkerError>(
            WorkerError::NoLocalIdentity,
        ),
        identities@.len() > 0 ==> r == Ok::<FetchGrant, WorkerError>(
            FetchGrant { deadline_ms: spec_fetch_deadline(now_ms) },
        ),
{
    if !can_sign(identities) {
        Err(WorkerError::NoLocalIdentity)
    } else {
        Ok(FetchGrant { deadline_ms: fetch_deadline(now_ms) })
    }
}

/// Judges the fetch outcome and, on success, fans the payload out.
///
/// A fetch that failed the deadline, status, or encoding check yields the
/// corresponding error and not a single submission; a successful one
/// yields exactly one submission per identity, each carrying the fetched
/// body unchanged.
pub fn process_fetch_event(
    grant: &FetchGrant,
    event: FetchEvent,
    identities: &Vec<SigningIdentity>,
) -> (r: Result<Vec<PlannedSubmission>, WorkerError>)
    ensures
        fetch_verdict(grant.deadline_ms, event) matches Err(e) ==> r == Err::<
            Vec<PlannedSubmission>,
            WorkerError,
        >(WorkerError::Fetch(e)),
        fetch_verdict(grant.deadline_ms, event) matches Ok(body) ==> r matches Ok(subs) && {
            &&& subs@.len() == identities@.len()
            &&& forall|i: int|
                0 <= i < subs@.len() ==> {
                    &&& (#[trigger] subs@[i]).identity == identities@[i]
                    &&& subs@[i].request.payload@ == body
                }
        },
{
    match evaluate_fetch(grant.deadline_ms, event) {
        Ok(body) => Ok(build_submissions(&body, identities)),
        Err(e) => Err(WorkerError::Fetch(e)),
    }
}

/// The block whose hash the trigger logs as the parent reference; purely
/// diagnostic, the pipeline has no data dependency on it.
pub fn parent_block_number(block_number: u64) -> (r: u64)
    requires
        block_number >= 1,
    ensures
        r == block_number - 1,
{
    block_number - 1
}

} // verus!
