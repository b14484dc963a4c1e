//! The two clocks of the server: a monotonic counter for measuring, and the
//! calendar time for the log and the liveness answer.
//!
//! The calendar time is read as the fields of a broken-down time, as plain
//! integers. [`UtcTime`] is such a reading whose fields lie in their ranges
//! and which is in UTC; only such a time is written out. Its text has the form
//! of RFC 3339: `2012-02-22T14:53:18Z`.

use crate::access_log::digit;
use vstd::prelude::*;

verus! {

/// The fields of a broken-down calendar time, as `time::Tm` holds them.
#[derive(Clone, Copy, Debug)]
pub struct CalendarFields {
    /// Seconds after the minute.
    pub second: i32,
    /// Minutes after the hour.
    pub minute: i32,
    /// Hours after midnight.
    pub hour: i32,
    /// Day of the month, from 1.
    pub day_of_month: i32,
    /// Months since January.
    pub month_index: i32,
    /// Years since 1900.
    pub years_since_1900: i32,
    /// Days since Sunday.
    pub weekday: i32,
    /// Days since the first of January.
    pub day_of_year: i32,
    /// The daylight saving flag.
    pub daylight_saving: i32,
    /// Seconds east of UTC.
    pub utc_offset: i32,
    /// Nanoseconds after the second.
    pub nanosecond: i32,
}

/// A calendar time in UTC, to the second.
pub struct Timestamp {
    pub year: nat,
    pub month: nat,
    pub day: nat,
    pub hour: nat,
    pub minute: nat,
    pub second: nat,
}

impl Timestamp {
    /// Whether the year has four digits and every other part lies in its
    /// range. A minute may have a leap second.
    pub open spec fn valid(self) -> bool {
        &&& 1000 <= self.year <= 9999
        &&& 1 <= self.month <= 12
        &&& 1 <= self.day <= 31
        &&& self.hour <= 23
        &&& self.minute <= 59
        &&& self.second <= 60
    }
}

/// Whether the fields are those of a time in UTC with a year of four digits,
/// each within its range.
pub open spec fn in_range(fields: CalendarFields) -> bool {
    &&& -900 <= fields.years_since_1900 <= 8099
    &&& 0 <= fields.month_index <= 11
    &&& 1 <= fields.day_of_month <= 31
    &&& 0 <= fields.hour <= 23
    &&& 0 <= fields.minute <= 59
    &&& 0 <= fields.second <= 60
    &&& fields.utc_offset == 0
}

/// The calendar time that the fields stand for.
pub open spec fn timestamp_of(fields: CalendarFields) -> Timestamp {
    Timestamp {
        year: (fields.years_since_1900 + 1900) as nat,
        month: (fields.month_index + 1) as nat,
        day: fields.day_of_month as nat,
        hour: fields.hour as nat,
        minute: fields.minute as nat,
        second: fields.second as nat,
    }
}

/// A number below 100 in two digits.
pub open spec fn two_digits(n: nat) -> Seq<char> {
    seq![digit(n / 10), digit(n % 10)]
}

/// A number below 10000 in four digits.
pub open spec fn four_digits(n: nat) -> Seq<char> {
    seq![digit(n / 1000), digit(n / 100 % 10), digit(n / 10 % 10), digit(n % 10)]
}

/// A calendar time in the form of RFC 3339: `YYYY-MM-DDTHH:MM:SSZ`.
pub open spec fn rfc3339_form(moment: Timestamp) -> Seq<char> {
    four_digits(moment.year) + seq!['-'] + two_digits(moment.month) + seq!['-'] + two_digits(
        moment.day,
    ) + seq!['T'] + two_digits(moment.hour) + seq![':'] + two_digits(moment.minute) + seq![':']
        + two_digits(moment.second) + seq!['Z']
}

/// Whether `text` is a valid calendar time in the form of RFC 3339.
pub open spec fn is_timestamp(text: Seq<char>) -> bool {
    exists|moment: Timestamp| moment.valid() && text == #[trigger] rfc3339_form(moment)
}

/// The text that a reading of the calendar clock is written as: its RFC 3339
/// form, or nothing where the reading is out of range.
pub open spec fn stamp(fields: CalendarFields) -> Option<Seq<char>> {
    if in_range(fields) {
        Some(rfc3339_form(timestamp_of(fields)))
    } else {
        None
    }
}

/// Calls `time::precise_time_ns`: the nanoseconds of a high-resolution counter
/// since an epoch that is not specified. Nothing is claimed of the value.
#[verifier::external_body]
pub(crate) fn monotonic_ns() -> u64 {
    time::precise_time_ns()
}

/// Calls `time::now_utc` and moves the fields of what it returns over.
/// Nothing is claimed of their values.
#[verifier::external_body]
pub(crate) fn utc_now() -> CalendarFields {
    let tm = time::now_utc();
    CalendarFields {
        second: tm.tm_sec, minute: tm.tm_min, hour: tm.tm_hour,
        day_of_month: tm.tm_mday, month_index: tm.tm_mon, years_since_1900: tm.tm_year,
        weekday: tm.tm_wday, day_of_year: tm.tm_yday, daylight_saving: tm.tm_isdst,
        utc_offset: tm.tm_utcoff, nanosecond: tm.tm_nsec,
    }
}

/// Calls `time::Tm::rfc3339` on the time with these fields and writes out
/// what it displays. For a time in UTC the display writes the year plus 1900
/// as it is, then the month plus 1, the day, the hour, the minute and the
/// second in two digits each, with `-`, `T`, `:` and `Z` between them. The
/// fields are within their ranges, so the sums do not overflow and the year has
/// four digits.
#[verifier::external_body]
fn rfc3339_text(fields: &CalendarFields) -> (text: String)
    requires
        in_range(*fields),
    ensures
        text@ == rfc3339_form(timestamp_of(*fields)),
{
    let tm = time::Tm {
        tm_sec: fields.second, tm_min: fields.minute, tm_hour: fields.hour,
        tm_mday: fields.day_of_month, tm_mon: fields.month_index, tm_year: fields.years_since_1900,
        tm_wday: fields.weekday, tm_yday: fields.day_of_year, tm_isdst: fields.daylight_saving,
        tm_utcoff: fields.utc_offset, tm_nsec: fields.nanosecond,
    };
    format!("{}", tm.rfc3339())
}

/// A reading of the calendar clock that is in UTC and within range.
pub struct UtcTime {
    fields: CalendarFields,
}

impl View for UtcTime {
    type V = Timestamp;

    closed spec fn view(&self) -> Timestamp {
        timestamp_of(self.fields)
    }
}

impl UtcTime {
    #[verifier::type_invariant]
    spec fn well_formed(&self) -> bool {
        in_range(self.fields)
    }

    /// The time with these fields, if they are those of a time in UTC and each
    /// lies within its range.
    pub fn from_fields(fields: CalendarFields) -> (r: Option<UtcTime>)
        ensures
            match r {
                Some(moment) => in_range(fields) && moment@ == timestamp_of(fields) && moment@.valid(),
                None => !in_range(fields),
            },
    {
        let year_fits = -900 <= fields.years_since_1900 && fields.years_since_1900 <= 8099;
        let month_fits = 0 <= fields.month_index && fields.month_index <= 11;
        let day_fits = 1 <= fields.day_of_month && fields.day_of_month <= 31;
        let hour_fits = 0 <= fields.hour && fields.hour <= 23;
        let minute_fits = 0 <= fields.minute && fields.minute <= 59;
        let second_fits = 0 <= fields.second && fields.second <= 60;
        let in_utc = fields.utc_offset == 0;
        if year_fits && month_fits && day_fits && hour_fits && minute_fits && second_fits && in_utc {
            Some(UtcTime { fields })
        } else {
            None
        }
    }

    /// The time in the form of RFC 3339.
    pub fn rfc3339(&self) -> (text: String)
        ensures
            text@ == rfc3339_form(self@),
            self@.valid(),
            is_timestamp(text@),
    {
        proof {
            use_type_invariant(self);
        }
        rfc3339_text(&self.fields)
    }
}

/// Writes a reading of the calendar clock in the form of RFC 3339, if it is
/// in UTC and within range.
pub fn timestamp_text(fields: CalendarFields) -> (text: Option<String>)
    ensures
        match text {
            Some(text) => stamp(fields) == Some(text@),
            None => stamp(fields).is_none(),
        },
{
    match UtcTime::from_fields(fields) {
        Some(moment) => Some(moment.rfc3339()),
        None => None,
    }
}

/// The current calendar time in UTC, written in the form of RFC 3339: the
/// clock is read once, and the text is that of the reading. Nothing is
/// returned where the clock gives a time that is out of range.
pub(crate) fn utc_timestamp() -> (text: Option<String>)
    ensures
        exists|fields: CalendarFields|
            match text {
                Some(text) => #[trigger] stamp(fields) == Some(text@),
                None => stamp(fields).is_none(),
            },
{
    let fields = utc_now();
    let text = timestamp_text(fields);
    assert(match text {
        Some(text) => stamp(fields) == Some(text@),
        None => stamp(fields).is_none(),
    });
    text
}

} // verus!
