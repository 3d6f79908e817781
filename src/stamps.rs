use vstd::prelude::*;

verus! {

/// Relies on uuid::Uuid::new_v4: a random version-4 identifier, returned as
/// its 128-bit value.
#[verifier::external_body]
pub(crate) fn fresh_public_id() -> (r: u128) {
    uuid::Uuid::new_v4().as_u128()
}

/// Relies on chrono's Local::now: the local wall-clock time, as microseconds
/// since 1970-01-01T00:00:00 read as a naive date and time.
#[verifier::external_body]
pub(crate) fn now_micros() -> (r: i64) {
    chrono::Local::now().naive_local().and_utc().timestamp_micros()
}

} // verus!
