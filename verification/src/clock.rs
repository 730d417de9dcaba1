//! The system clock, behind trusted wrappers.
//!
//! Both results depend on the moment of the call, so neither contract
//! promises anything of the value: every caller must hold for whatever
//! comes back.

use vstd::prelude::*;

verus! {

/// Relies on chrono's `Utc::now` (with `DateTime::timestamp` converting
/// the instant): the current moment as non-leap seconds since the Unix
/// epoch, read from the system clock.
#[verifier::external_body]
pub fn now_seconds() -> i64 {
    chrono::Utc::now().timestamp()
}

/// Relies on chrono_humanize's `Humanize` for `DateTime<Utc>` (with
/// chrono's `DateTime::from_timestamp` converting the argument): a
/// relative-time phrase such as "3 hours ago" for the given instant,
/// measured against the current moment. `None` when the instant lies
/// outside chrono's representable range.
#[verifier::external_body]
pub fn humanize_seconds(seconds: i64) -> Option<String> {
    match chrono::DateTime::<chrono::Utc>::from_timestamp(seconds, 0) {
        Some(instant) => Some(chrono_humanize::Humanize::humanize(&instant)),
        None => None,
    }
}

} // verus!
