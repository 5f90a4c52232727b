//! Reading the system clock.

use vstd::prelude::*;

verus! {

/// One reading of the UTC system clock.
pub struct UtcTime {
    /// Whole seconds since the Unix epoch.
    pub unix_seconds: i64,
    /// Milliseconds since the Unix epoch.
    pub unix_millis: i64,
    /// The same instant as an RFC 3339 date and time.
    pub rfc3339: String,
}

/// Relies on `chrono::Utc::now`, read out through `DateTime::timestamp`,
/// `DateTime::timestamp_millis` and `DateTime::to_rfc3339`. The reading
/// depends on the machine's clock, so nothing is promised of it. `Utc::now`
/// panics only when the system clock reads earlier than the Unix epoch.
#[verifier::external_body]
pub(crate) fn now_utc() -> (t: UtcTime) {
    let now = chrono::Utc::now();
    UtcTime {
        unix_seconds: now.timestamp(),
        unix_millis: now.timestamp_millis(),
        rfc3339: now.to_rfc3339(),
    }
}

} // verus!
