//! The one clock read the service makes.

use vstd::prelude::*;

verus! {

/// Relies on `chrono::Utc::now` and `chrono::DateTime::to_rfc3339`: the
/// current instant as an RFC 3339 string such as `1996-12-19T16:39:57-08:00`.
/// The result depends on the system clock, so nothing is assumed of it beyond
/// being non-empty; whether it parses is checked by callers that care.
/// `Utc::now` panics if the clock reads earlier than the Unix epoch.
#[verifier::external_body]
pub(crate) fn now_rfc3339() -> (r: String)
    ensures
        r@.len() > 0,
{
    chrono::Utc::now().to_rfc3339()
}

} // verus!
