//! The one-line text filter of the pipeline: both the fetch path and the
//! recording path accept a byte payload only when it decodes as UTF-8.

use vstd::prelude::*;
use vstd::utf8::valid_utf8;

verus! {

/// Relies on `core::str::from_utf8`: it returns `Ok` exactly when the byte
/// slice is valid UTF-8, the property `vstd::utf8::valid_utf8` states.
#[verifier::external_body]
pub(crate) fn utf8_check(bytes: &Vec<u8>) -> (r: bool)
    ensures
        r == valid_utf8(bytes@),
{
    core::str::from_utf8(bytes.as_slice()).is_ok()
}

} // verus!
