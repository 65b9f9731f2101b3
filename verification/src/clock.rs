//! The two things the engine takes from its surroundings: the time of day
//! and fresh identifiers.

use vstd::prelude::*;

verus! {

/// Reads the clock: `chrono::Utc::now()` written out by `to_rfc3339`.
///
/// The text depends on the moment of the call, so nothing is claimed of it.
/// `chrono` gives up where the system clock stands before 1970.
#[verifier::external_body]
pub(crate) fn now_rfc3339() -> String {
    chrono::Utc::now().to_rfc3339()
}

/// Draws a random identifier: `uuid::Uuid::new_v4()` in its hyphenated form.
///
/// The text depends on the system's random source, so nothing is claimed of
/// it; that two draws differ is likely, not certain.
#[verifier::external_body]
pub(crate) fn fresh_id() -> String {
    uuid::Uuid::new_v4().to_string()
}

} // verus!
