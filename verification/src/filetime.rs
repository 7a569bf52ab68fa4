//! Times as the archive stores them: counts of 100-nanosecond steps since
//! the start of the year 1601.

use chrono::NaiveDateTime;
use vstd::prelude::*;

verus! {

/// The 100-nanosecond steps in a second.
pub const HECTONANOSECS_IN_SEC: i64 = 10_000_000;

/// The 100-nanosecond steps from the start of 1601 to the start of 1970.
pub const HECTONANOSEC_TO_UNIX_EPOCH: i64 = 116_444_736_000_000_000;

/// `chrono::NaiveDateTime`, a date and time without a time zone. Nothing is
/// known of what it holds; it is only carried into the documents.
#[verifier::external_type_specification]
#[verifier::external_body]
pub struct ExNaiveDateTime(NaiveDateTime);

/// The date and time, without a time zone, that lies `seconds` whole
/// seconds after the start of 1970.
pub uninterp spec fn date_time_at(seconds: int) -> NaiveDateTime;

/// The whole seconds from the start of 1970 to the time `steps`, a part of a
/// second being dropped on either side of 1970.
pub open spec fn unix_seconds(steps: int) -> int {
    let since = steps - HECTONANOSEC_TO_UNIX_EPOCH;
    if since >= 0 {
        since / (HECTONANOSECS_IN_SEC as int)
    } else {
        -((-since) / (HECTONANOSECS_IN_SEC as int))
    }
}

/// A time as the archive stores it.
#[derive(Debug, Clone, Copy, PartialEq, Eq, Structural)]
pub struct FileTime(pub i64);

/// `chrono::NaiveDateTime::from_timestamp_opt` with no nanoseconds. It gives
/// the date and time at that many seconds from the start of 1970, and does
/// so at least for every count within a million million seconds of it;
/// counts that lie beyond the years chrono can hold give `None`.
#[verifier::external_body]
#[allow(deprecated)]
fn date_time_from_seconds(seconds: i64) -> (at: Option<NaiveDateTime>)
    ensures
        at matches Some(time) ==> time == date_time_at(seconds as int),
        -1_000_000_000_000 <= seconds <= 1_000_000_000_000 ==> at is Some,
{
    NaiveDateTime::from_timestamp_opt(seconds, 0)
}

impl FileTime {
    /// The whole seconds from the start of 1970 to this time.
    pub fn file_time_to_unix_seconds(&self) -> (seconds: i64)
        ensures
            seconds == unix_seconds(self.0 as int),
            -1_000_000_000_000 <= seconds <= 1_000_000_000_000,
    {
        let since: i128 = self.0 as i128 - HECTONANOSEC_TO_UNIX_EPOCH as i128;
        if since >= 0 {
            (since / (HECTONANOSECS_IN_SEC as i128)) as i64
        } else {
            let back: i128 = -since;
            let whole: i128 = back / (HECTONANOSECS_IN_SEC as i128);
            (-whole) as i64
        }
    }

    /// This time as a date and time without a time zone.
    pub fn filetime_to_naive_dt(&self) -> (at: NaiveDateTime)
        ensures
            at == date_time_at(unix_seconds(self.0 as int)),
    {
        date_time_from_seconds(self.file_time_to_unix_seconds()).unwrap()
    }
}

} // verus!
