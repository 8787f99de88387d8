//! UTC instants, built through `chrono`.

use vstd::prelude::*;

use crate::event_model::UtcTimestamp;

verus! {

/// Earliest whole second that an `i64` count of nanoseconds can reach.
pub const MIN_NANOS_SECOND: i64 = -9_223_372_037;

/// Latest whole second that an `i64` count of nanoseconds can reach.
pub const MAX_NANOS_SECOND: i64 = 9_223_372_036;

/// `chrono::DateTime::<Utc>::from_timestamp(secs, nanos)`, read back through
/// `timestamp()` and `timestamp_subsec_nanos()`. chrono keeps both parts as given
/// when it accepts them; it accepts any sub-second part below one second for
/// every second that an `i64` count of nanoseconds can reach (its calendar
/// spans some 262 000 years either side of year 0). Which other arguments it
/// accepts (leap seconds, far-off years) is not stated here.
#[verifier::external_body]
pub(crate) fn timestamp_from_parts(secs: i64, nanos: u32) -> (r: Option<UtcTimestamp>)
    ensures
        r matches Some(t) ==> t.secs == secs && t.nanos == nanos,
        nanos < 1_000_000_000 && MIN_NANOS_SECOND <= secs <= MAX_NANOS_SECOND ==> r is Some,
{
    match chrono::DateTime::<chrono::Utc>::from_timestamp(secs, nanos) {
        Some(instant) => Some(
            UtcTimestamp { secs: instant.timestamp(), nanos: instant.timestamp_subsec_nanos() },
        ),
        None => None,
    }
}

} // verus!
