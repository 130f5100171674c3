//! The host's wall clock, through the `chrono` crate.
//!
//! Nothing in this file is proved, and nothing can be promised of a time
//! that the host reports. On a host whose clock stands before 1970
//! `chrono` does not return.

use vstd::prelude::*;

verus! {

/// `chrono::Utc::now`, read through `DateTime::timestamp`: the host's time
/// in seconds since the Unix epoch. Nothing is promised of the value.
#[verifier::external_body]
pub(crate) fn unix_time_now() -> (seconds: i64) {
    chrono::Utc::now().timestamp()
}

/// `chrono::Utc::now`, read through `DateTime::to_rfc3339`: the host's time
/// as an RFC 3339 timestamp. Nothing is promised of the text.
#[verifier::external_body]
pub(crate) fn timestamp_now() -> (timestamp: String) {
    chrono::Utc::now().to_rfc3339()
}

} // verus!
