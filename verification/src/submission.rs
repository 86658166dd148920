//! The submission side of the pipeline: fanning one fetched payload out
//! into one state-transition request per local identity, and aggregating
//! the per-identity dispatch outcomes afterwards.

use vstd::prelude::*;
use crate::identity::SigningIdentity;

verus! {

/// An unsigned state-transition intent carrying the fetched payload; the
/// ambient signing service signs and broadcasts it.
#[derive(PartialEq, Eq, Debug)]
pub struct SubmissionRequest {
    /// The payload the request asks the ledger to record.
    pub payload: Vec<u8>,
}

/// One request paired with the identity asked to sign it.
#[derive(PartialEq, Eq, Debug)]
pub struct PlannedSubmission {
    /// The local identity that is to sign the request.
    pub identity: SigningIdentity,
    /// The request handed to the ambient signing service.
    pub request: SubmissionRequest,
}

/// Builds one submission per available identity, every one carrying the
/// same payload bytes, in the order the identities were enumerated.
pub fn build_submissions(payload: &Vec<u8>, identities: &Vec<SigningIdentity>) -> (r: Vec<
    PlannedSubmission,
>)
    ensures
        r@.len() == identities@.len(),
        forall|i: int|
            0 <= i < r@.len() ==> {
                &&& (#[trigger] r@[i]).identity == identities@[i]
                &&& r@[i].request.payload@ == payload@
            },
{
    let mut planned: Vec<PlannedSubmission> = Vec::new();
    let mut i: usize = 0;
    while i < identities.len()
        invariant
            i <= identities@.len(),
            planned@.len() == i,
            forall|j: int|
                0 <= j < i ==> {
                    &&& (#[trigger] planned@[j]).identity == identities@[j]
                    &&& planned@[j].request.payload@ == payload@
                },
        decreases identities@.len() - i,
    {
        let copied = crate::copy_bytes(payload);
        planned.push(
            PlannedSubmission {
                identity: identities[i],
                request: SubmissionRequest { payload: copied },
            },
        );
        i = i + 1;
    }
    planned
}

/// The outcome the ambient service reports for one identity: whether its
/// signed request was handed to the network. Broadcast is not ledger
/// acceptance; this is a local dispatch result only.
#[derive(Clone, Copy, PartialEq, Eq, Structural, Debug)]
pub struct SubmissionOutcome {
    /// The identity whose request this outcome concerns.
    pub identity: SigningIdentity,
    /// Whether the signed request was successfully broadcast.
    pub dispatched: bool,
}

/// What one invocation's dispatch came to, for observability only.
#[derive(Clone, Copy, PartialEq, Eq, Structural, Debug)]
pub struct DispatchReport {
    /// How many requests were successfully broadcast.
    pub dispatched: usize,
    /// How many requests failed to broadcast.
    pub failed: usize,
}

/// How many of the outcomes report a successful broadcast.
pub open spec fn count_dispatched(outcomes: Seq<SubmissionOutcome>) -> int
    decreases outcomes.len(),
{
    if outcomes.len() == 0 {
        0
    } else {
        count_dispatched(outcomes.drop_last()) + if outcomes.last().dispatched {
            1int
        } else {
            0int
        }
    }
}

/// The count of successful broadcasts never exceeds the number of
/// outcomes, and is never negative.
pub proof fn lemma_count_dispatched_bounds(outcomes: Seq<SubmissionOutcome>)
    ensures
        0 <= count_dispatched(outcomes) <= outcomes.len(),
    decreases outcomes.len(),
{
    if outcomes.len() > 0 {
        lemma_count_dispatched_bounds(outcomes.drop_last());
    }
}

/// Collapses the per-identity outcomes of one invocation into a report:
/// how many requests were broadcast and how many failed. Every outcome is
/// counted on exactly one side; nothing is retried.
pub fn aggregate_outcomes(outcomes: &Vec<SubmissionOutcome>) -> (r: DispatchReport)
    ensures
        r.dispatched == count_dispatched(outcomes@),
        r.failed == outcomes@.len() - count_dispatched(outcomes@),
{
    let mut dispatched: usize = 0;
    let mut failed: usize = 0;
    let mut i: usize = 0;
    while i < outcomes.len()
        invariant
            i <= outcomes@.len(),
            dispatched == count_dispatched(outcomes@.take(i as int)),
            dispatched + failed == i,
        decreases outcomes@.len() - i,
    {
        proof {
            lemma_count_dispatched_bounds(outcomes@.take(i as int));
            assert(outcomes@.take(i + 1).drop_last() =~= outcomes@.take(i as int));
            assert(outcomes@.take(i + 1).last() == outcomes@[i as int]);
        }
        if outcomes[i].dispatched {
            dispatched = dispatched + 1;
        } else {
            failed = failed + 1;
        }
        i = i + 1;
    }
    proof {
        assert(outcomes@.take(outcomes@.len() as int) =~= outcomes@);
    }
    DispatchReport { dispatched, failed }
}

} // verus!
