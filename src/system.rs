use vstd::prelude::*;

verus! {

/// Relies on `uuid::Uuid::new_v4` for a random job or message identifier,
/// returned as its 128-bit value. Nothing is promised about the value.
#[verifier::external_body]
pub(crate) fn random_id() -> (r: u128) {
    uuid::Uuid::new_v4().as_u128()
}

/// Relies on `chrono::Utc::now` for the wall-clock time, returned as
/// milliseconds since the Unix epoch. Nothing is promised about the value.
#[verifier::external_body]
pub(crate) fn now_millis() -> (r: i64) {
    chrono::Utc::now().timestamp_millis()
}

} // verus!
