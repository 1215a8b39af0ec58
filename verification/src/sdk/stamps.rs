//! Fresh identities and clock readings, the two things every new row needs
//! and that no caller can supply deterministically.

use vstd::prelude::*;

verus! {

/// A fresh random identity: `uuid::Uuid::new_v4()`, handed back as the
/// 128-bit integer that `Uuid::as_u128` gives.
///
/// Nothing is claimed of the value: it is random, and two calls may even
/// collide. Callers that need uniqueness test for it. The call takes no
/// input; it panics where the operating system has no randomness to give.
#[verifier::external_body]
pub(crate) fn fresh_id() -> (id: u128) {
    uuid::Uuid::new_v4().as_u128()
}

/// The current UTC time: `chrono::Utc::now()`, handed back as the number of
/// microseconds since the Unix epoch that `DateTime::timestamp_micros` gives.
///
/// Nothing is claimed of the value: the system clock may stand still or
/// step backwards between two calls. The call takes no input; it panics
/// where the system clock reads a time before the Unix epoch.
#[verifier::external_body]
pub(crate) fn now_micros() -> (now: i64) {
    chrono::Utc::now().timestamp_micros()
}

} // verus!
