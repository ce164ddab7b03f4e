//! The wall clock, read through `chrono`.
//!
//! Each read converts `SystemTime::now()` with chrono's
//! `DateTime::<Utc>::from`, which also takes a clock set before 1970 (as a
//! negative time) and does not panic for any time a system clock can hold
//! (chrono covers about ±262,000 years).

use vstd::prelude::*;

verus! {

/// `DateTime::<Utc>::from(SystemTime::now()).to_rfc3339()`: the current UTC
/// time as an RFC 3339 string. Nothing is claimed of the text, which depends
/// on the time of the call.
#[verifier::external_body]
pub(crate) fn now_rfc3339() -> String {
    chrono::DateTime::<chrono::Utc>::from(std::time::SystemTime::now()).to_rfc3339()
}

/// `DateTime::<Utc>::from(SystemTime::now()).timestamp()`: whole seconds
/// since the Unix epoch, negative before it. Nothing is claimed of the value,
/// which is the time of the call.
#[verifier::external_body]
pub(crate) fn now_unix_seconds() -> i64 {
    chrono::DateTime::<chrono::Utc>::from(std::time::SystemTime::now()).timestamp()
}

/// `DateTime::<Utc>::from(SystemTime::now()).timestamp_millis()`:
/// milliseconds since the Unix epoch, negative before it. Nothing is claimed
/// of the value, which is the time of the call.
#[verifier::external_body]
pub(crate) fn now_unix_millis() -> i64 {
    chrono::DateTime::<chrono::Utc>::from(std::time::SystemTime::now()).timestamp_millis()
}

} // verus!
