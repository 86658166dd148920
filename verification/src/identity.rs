//! The local identity pool: signing identities held by this node for the
//! oracle's application key namespace, and the short-circuit that decides
//! whether a submission is possible at all.

use vstd::prelude::*;

verus! {

/// The four-byte tag of the application key namespace, spelling `dia!`.
pub open spec fn key_type_spec() -> Seq<u8> {
    seq![100u8, 105u8, 97u8, 33u8]
}

/// Marker for the signing authority of this oracle: identities used for
/// submissions are scoped to the key namespace named by [`key_type_spec`].
pub struct TestAuthId;

impl TestAuthId {
    /// The key-namespace tag that this authority signs under.
    pub fn key_type() -> (r: Vec<u8>)
        ensures
            r@ == key_type_spec(),
    {
        let mut tag: Vec<u8> = Vec::new();
        tag.push(100u8);
        tag.push(105u8);
        tag.push(97u8);
        tag.push(33u8);
        proof {
            assert(tag@ =~= key_type_spec());
        }
        tag
    }
}

/// One signing identity available in the local keystore: a handle to a
/// local key together with the ledger account it signs as.
#[derive(Clone, Copy, PartialEq, Eq, Structural, Debug)]
pub struct SigningIdentity {
    /// The ledger account this identity signs as.
    pub account: u64,
}

/// Whether at least one local identity can sign a submission.
pub fn can_sign(identities: &Vec<SigningIdentity>) -> (r: bool)
    ensures
        r == (identities@.len() > 0),
{
    identities.len() > 0
}

} // verus!
