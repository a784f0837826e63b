//! The wall clock.

use vstd::prelude::*;

verus! {

/// The current time in UTC as an RFC 3339 text, from `chrono::Utc::now` and
/// `DateTime::to_rfc3339`. Nothing is claimed about the text: it differs
/// from call to call.
#[verifier::external_body]
pub(crate) fn now_rfc3339() -> (now: String) {
    chrono::Utc::now().to_rfc3339()
}

} // verus!
