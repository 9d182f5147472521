//! The system clock.

use vstd::prelude::*;

verus! {

/// Seconds since the Unix epoch (`SystemTime::now` against `UNIX_EPOCH`,
/// zero for a clock set before the epoch). Nothing is promised of the
/// value: it is whatever the system clock reads.
#[verifier::external_body]
pub(crate) fn now_unix_secs() -> u64 {
    std::time::SystemTime::now()
        .duration_since(std::time::UNIX_EPOCH)
        .unwrap_or_default()
        .as_secs()
}

/// Milliseconds since the Unix epoch, from the same clock; nothing is
/// promised of the value.
#[verifier::external_body]
pub(crate) fn now_unix_millis() -> u128 {
    std::time::SystemTime::now()
        .duration_since(std::time::UNIX_EPOCH)
        .unwrap_or_default()
        .as_millis()
}

} // verus!
