use vstd::prelude::*;

verus! {

/// Relies on `chrono::Utc::now`: the current time, as whole seconds since the
/// Unix epoch. Nothing is promised of its value.
#[verifier::external_body]
pub(crate) fn unix_now() -> (r: i64) {
    chrono::Utc::now().timestamp()
}

/// Relies on `chrono::Utc::now`: the current time, as milliseconds since the
/// Unix epoch. Nothing is promised of its value.
#[verifier::external_body]
pub(crate) fn unix_now_millis() -> (r: i64) {
    chrono::Utc::now().timestamp_millis()
}

/// A clock reading as an unsigned count; readings before the epoch count as zero.
pub(crate) fn non_negative(t: i64) -> (r: u64)
    ensures
        t >= 0 ==> r == t,
        t < 0 ==> r == 0,
{
    if t < 0 {
        0
    } else {
        t as u64
    }
}

} // verus!
