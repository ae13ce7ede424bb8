//! Instants of time and the system clock.
use vstd::prelude::*;

verus! {

/// An instant in UTC: whole seconds since the Unix epoch and the nanoseconds
/// past that second.
#[derive(Clone, Copy, Debug, PartialEq, Eq, Structural)]
pub struct Timestamp {
    pub secs: i64,
    pub nanos: u32,
}

impl Timestamp {
    /// The nanosecond part stays below two seconds; values of one second and
    /// more stand for a leap second.
    pub open spec fn wf(self) -> bool {
        self.nanos < 2_000_000_000
    }
}

/// The current instant.
///
/// Trusted: wraps `chrono::Utc::now` and reads the result with
/// `DateTime::timestamp` and `DateTime::timestamp_subsec_nanos`. Nothing is
/// claimed of the instant but the range of its nanosecond part. The clock
/// read fails only when the system time lies before the Unix epoch.
#[verifier::external_body]
pub(crate) fn utc_now() -> (r: Timestamp)
    ensures
        r.wf(),
{
    let now = chrono::Utc::now();
    Timestamp { secs: now.timestamp(), nanos: now.timestamp_subsec_nanos() }
}

/// The current instant as an RFC 3339 string.
///
/// Trusted: wraps `chrono::Utc::now` followed by `DateTime::to_rfc3339`.
/// Nothing is claimed of the text.
#[verifier::external_body]
pub(crate) fn utc_now_rfc3339() -> (r: String) {
    chrono::Utc::now().to_rfc3339()
}

} // verus!
