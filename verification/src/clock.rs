//! The wall clock, as the service reads it.

use vstd::prelude::*;

verus! {

/// The current time in UTC as an RFC 3339 string.
///
/// Calls `chrono::Utc::now()` and then `DateTime::to_rfc3339()` on what it
/// gives. The text depends on the moment of the call, so nothing is
/// claimed of it here; `chrono` itself refuses to go on only when the
/// system clock stands before the Unix epoch.
#[verifier::external_body]
pub(crate) fn current_timestamp() -> (stamp: String) {
    chrono::Utc::now().to_rfc3339()
}

} // verus!
