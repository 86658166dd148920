//! The deterministic recording path of the ledger: validating an incoming
//! signed submission, overwriting the single latest-value slot, and
//! appending a notification event.
//!
//! Everything here executes identically on every node that validates the
//! block; the offchain side of the pipeline reaches it only through a
//! signed, individually validated submission.

use vstd::prelude::*;
use vstd::utf8::valid_utf8;
use crate::encoding::utf8_check;

verus! {

/// The already-verified caller identity of a state-transition request, as
/// the enclosing dispatch layer presents it.
#[derive(Clone, Copy, PartialEq, Eq, Structural, Debug)]
pub enum Origin {
    /// A cryptographically verified account signed the request.
    Signed(u64),
    /// The request came from the runtime's root authority.
    Root,
    /// The request carried no signature at all.
    Unsigned,
}

/// The failure result a rejected submission reports to the dispatch layer.
///
/// An undecodable payload is rejected under the same error as a bad
/// caller: the recording path treats encoding validity as part of the
/// authority to write.
#[derive(Clone, Copy, PartialEq, Eq, Structural, Debug)]
pub enum DispatchError {
    /// The caller was not a signed account, or the payload was not UTF-8.
    BadOrigin,
}

/// One notification appended for each accepted submission.
#[derive(PartialEq, Eq, Debug)]
pub struct RecordedEvent {
    /// The recorded payload bytes.
    pub payload: Vec<u8>,
    /// The account whose signed submission carried the payload.
    pub submitter: u64,
}

/// Mathematical image of one [`RecordedEvent`].
pub struct RecordedEventView {
    pub payload: Seq<u8>,
    pub submitter: u64,
}

impl View for RecordedEvent {
    type V = RecordedEventView;

    open spec fn view(&self) -> RecordedEventView {
        RecordedEventView { payload: self.payload@, submitter: self.submitter }
    }
}

/// Mathematical image of the ledger state this system owns.
pub struct LedgerView {
    /// The single latest-value slot.
    pub latest: Seq<u8>,
    /// The append-only notification stream, oldest first.
    pub events: Seq<RecordedEventView>,
}

/// The ledger state owned by the recorder: the single latest-value slot
/// and the notification events appended so far.
pub struct Ledger {
    latest: Vec<u8>,
    events: Vec<RecordedEvent>,
}

impl View for Ledger {
    type V = LedgerView;

    closed spec fn view(&self) -> LedgerView {
        LedgerView {
            latest: self.latest@,
            events: Seq::new(self.events@.len(), |i: int| self.events@[i]@),
        }
    }
}

/// Whether a submission is accepted: the caller is a signed account and
/// the payload decodes as UTF-8.
pub open spec fn submit_allowed(origin: Origin, payload: Seq<u8>) -> bool {
    origin is Signed && valid_utf8(payload)
}

/// The ledger state after one `submit_data` call: an accepted submission
/// overwrites the latest value and appends exactly one event; a rejected
/// one leaves the state untouched.
pub open spec fn submit_transition(ledger: LedgerView, origin: Origin, payload: Seq<u8>) -> LedgerView {
    if submit_allowed(origin, payload) {
        LedgerView {
            latest: payload,
            events: ledger.events.push(
                RecordedEventView { payload, submitter: origin->Signed_0 },
            ),
        }
    } else {
        ledger
    }
}

/// Resolves an origin to the signed account behind it, rejecting root and
/// unsigned callers.
pub fn ensure_signed(origin: Origin) -> (r: Result<u64, DispatchError>)
    ensures
        r == match origin {
            Origin::Signed(who) => Ok::<u64, DispatchError>(who),
            _ => Err::<u64, DispatchError>(DispatchError::BadOrigin),
        },
{
    match origin {
        Origin::Signed(who) => Ok(who),
        _ => Err(DispatchError::BadOrigin),
    }
}

impl Ledger {
    /// A fresh ledger: empty latest-value slot, no events.
    pub fn new() -> (r: Ledger)
        ensures
            r@.latest == Seq::<u8>::empty(),
            r@.events == Seq::<RecordedEventView>::empty(),
    {
        let r = Ledger { latest: Vec::new(), events: Vec::new() };
        proof {
            assert(r@.events =~= Seq::<RecordedEventView>::empty());
        }
        r
    }

    /// The most recently recorded payload.
    pub fn data(&self) -> (r: &Vec<u8>)
        ensures
            r@ == self@.latest,
    {
        &self.latest
    }

    /// The notification events appended so far, oldest first.
    pub fn events(&self) -> (r: &Vec<RecordedEvent>)
        ensures
            r@.len() == self@.events.len(),
            forall|i: int| 0 <= i < r@.len() ==> (#[trigger] r@[i])@ == self@.events[i],
    {
        &self.events
    }

    /// Records one incoming submission.
    ///
    /// Exactly when the origin is a signed account and the payload decodes
    /// as UTF-8, the call succeeds, the latest value becomes the payload,
    /// and one event carrying the payload and the submitter is appended.
    /// On any rejection the state is left untouched and `BadOrigin` is
    /// reported; both effects of an accepted call happen together.
    pub fn submit_data(&mut self, origin: Origin, payload: Vec<u8>) -> (r: Result<(), DispatchError>)
        ensures
            final(self)@ == submit_transition(old(self)@, origin, payload@),
            r == if submit_allowed(origin, payload@) {
                Ok::<(), DispatchError>(())
            } else {
                Err::<(), DispatchError>(DispatchError::BadOrigin)
            },
            origin matches Origin::Signed(who) ==> valid_utf8(payload@) ==> {
                &&& r is Ok
                &&& final(self)@.latest == payload@
                &&& final(self)@.events == old(self)@.events.push(
                    RecordedEventView { payload: payload@, submitter: who },
                )
            },
            !submit_allowed(origin, payload@) ==> r is Err && final(self)@ == old(self)@,
    {
        let who = match ensure_signed(origin) {
            Ok(who) => who,
            Err(e) => {
                return Err(e);
            },
        };
        if !utf8_check(&payload) {
            return Err(DispatchError::BadOrigin);
        }
        let ghost prior = self@;
        let ghost recorded = payload@;
        let event_payload = crate::copy_bytes(&payload);
        self.latest = payload;
        self.events.push(RecordedEvent { payload: event_payload, submitter: who });
        proof {
            assert(self@.events =~= prior.events.push(
                RecordedEventView { payload: recorded, submitter: who },
            ));
            assert(self@ == submit_transition(prior, origin, recorded));
        }
        Ok(())
    }
}

/// Recording is not deduplicating: submitting the same payload twice from
/// the same signed account succeeds both times, leaves the latest value
/// equal to the payload after each call, and appends two events, one per
/// call.
pub proof fn lemma_resubmission_appends_two_events(ledger: LedgerView, who: u64, payload: Seq<u8>)
    requires
        valid_utf8(payload),
    ensures
        ({
            let once = submit_transition(ledger, Origin::Signed(who), payload);
            let twice = submit_transition(once, Origin::Signed(who), payload);
            &&& once.latest == payload
            &&& twice.latest == payload
            &&& twice.events.len() == ledger.events.len() + 2
            &&& twice.events[ledger.events.len() as int]
                == RecordedEventView { payload, submitter: who }
            &&& twice.events[ledger.events.len() as int + 1]
                == RecordedEventView { payload, submitter: who }
        }),
{
}

} // verus!
