//! Moments in time: seconds since the Unix epoch, read at nine hours east of
//! Greenwich.

use vstd::prelude::*;
use crate::pattern::ScheduleFields;

verus! {

/// chrono's date with a time of day, without a zone.
#[verifier::external_type_specification]
#[verifier::external_body]
pub struct ExNaiveDateTime(chrono::NaiveDateTime);

/// The offset of the listing's clock from UTC, in seconds: nine hours east.
pub const ZONE_OFFSET_SECONDS: i32 = 32400;

/// How long an event lasts, in seconds: one hour. The pages give no end, so
/// every event gets this length.
pub const EVENT_SECONDS: i64 = 3600;

/// The Unix time at which a clock `offset` seconds east of Greenwich shows
/// the given date and time of day with zero seconds, as chrono computes it
/// with `FixedOffset::east_opt`, `TimeZone::with_ymd_and_hms` and
/// `DateTime::timestamp`; `None` where chrono knows no such moment.
pub uninterp spec fn civil_timestamp(
    offset: int,
    year: int,
    month: int,
    day: int,
    hour: int,
    minute: int,
) -> Option<int>;

/// The date and time of day that a clock `offset` seconds east of Greenwich
/// shows at the Unix time `seconds`, as chrono computes it with
/// `DateTime::from_timestamp` and `NaiveDateTime::checked_add_offset`; `None`
/// where the moment or the clock's reading lies outside chrono's years.
pub uninterp spec fn local_datetime(seconds: int, offset: int) -> Option<chrono::NaiveDateTime>;

/// An optional number of seconds as a mathematical integer.
pub open spec fn seconds_view(t: Option<i64>) -> Option<int> {
    match t {
        Some(s) => Some(s as int),
        None => None,
    }
}

/// The moment that the fields of a schedule line name on the listing's
/// clock, if there is one.
pub open spec fn start_of(fields: ScheduleFields) -> Option<int> {
    if fields.year <= i32::MAX {
        civil_timestamp(
            ZONE_OFFSET_SECONDS as int,
            fields.year as int,
            fields.month as int,
            fields.day as int,
            fields.hour as int,
            fields.minute as int,
        )
    } else {
        None
    }
}

/// The end of an event that starts at `start`.
pub open spec fn end_of(start: int) -> int {
    start + EVENT_SECONDS
}

/// Asks chrono for the moment at which a clock `offset` seconds east of
/// Greenwich shows the given date and time. The answer is the one that
/// `civil_timestamp` names. chrono's source shows that a month above 12, a
/// day above 31, an hour above 23 and a minute above 59 have no moment.
#[verifier::external_body]
pub(crate) fn civil_seconds(offset: i32, year: i32, month: u32, day: u32, hour: u32, minute: u32)
    -> (r: Option<i64>)
    ensures
        seconds_view(r) == civil_timestamp(
            offset as int,
            year as int,
            month as int,
            day as int,
            hour as int,
            minute as int,
        ),
        month > 12 || day > 31 || hour > 23 || minute > 59 ==> r is None,
{
    let zone = chrono::FixedOffset::east_opt(offset)?;
    let moment = chrono::TimeZone::with_ymd_and_hms(&zone, year, month, day, hour, minute, 0);
    moment.single().map(|t| t.timestamp())
}

/// Asks chrono what a clock `offset` seconds east of Greenwich shows at the
/// Unix time `seconds`. The answer is the one that `local_datetime` names.
#[verifier::external_body]
pub(crate) fn local_time(seconds: i64, offset: i32) -> (r: Option<chrono::NaiveDateTime>)
    ensures
        r == local_datetime(seconds as int, offset as int),
{
    let zone = chrono::FixedOffset::east_opt(offset)?;
    chrono::DateTime::from_timestamp(seconds, 0)?.naive_utc().checked_add_offset(zone)
}

/// The moment at which the event of a schedule line starts.
///
/// The fields are taken as a date and a time of day on the listing's clock.
/// Fields that no calendar knows, such as a thirteenth month or a
/// twenty-fifth hour, give `None`.
pub fn start_time(fields: &ScheduleFields) -> (r: Option<i64>)
    ensures
        seconds_view(r) == start_of(*fields),
        fields.month > 12 || fields.day > 31 || fields.hour > 23 || fields.minute > 59 ==> r
            is None,
{
    if fields.year <= 0x7FFF_FFFF {
        civil_seconds(
            ZONE_OFFSET_SECONDS,
            fields.year as i32,
            fields.month,
            fields.day,
            fields.hour,
            fields.minute,
        )
    } else {
        None
    }
}

/// The moment one event length after `start`, unless that lies beyond what
/// 64 bits hold.
pub fn end_time(start: i64) -> (r: Option<i64>)
    ensures
        r == (if end_of(start as int) <= i64::MAX {
            Some(end_of(start as int) as i64)
        } else {
            None
        }),
{
    start.checked_add(EVENT_SECONDS)
}

} // verus!
