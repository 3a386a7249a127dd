//! Fresh identifiers and the clock: the two sources of values that do not
//! follow from a function's arguments.

use vstd::prelude::*;

verus! {

/// `uuid::Uuid::new_v4`, hyphenated: a random identifier of 36 characters.
/// Nothing is claimed of its characters beyond their number.
#[verifier::external_body]
pub(crate) fn new_uuid() -> (r: String)
    ensures
        r@.len() == 36,
{
    uuid::Uuid::new_v4().to_string()
}

/// `std::time::SystemTime::now`, as whole seconds since the Unix epoch (0
/// for a clock set before it). Nothing is claimed of the value.
#[verifier::external_body]
pub(crate) fn now_unix() -> (r: i64) {
    std::time::SystemTime::now().duration_since(std::time::UNIX_EPOCH).unwrap_or_default().as_secs() as i64
}

} // verus!
