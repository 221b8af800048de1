//! A calendar instant broken into civil fields, together with its epoch
//! timestamp in seconds. Candidates extracted from the different timestamp
//! sources are carried in this form through the resolver.
use vstd::prelude::*;

use chrono::{Datelike, TimeZone, Timelike};

use crate::numfmt::{dec_str_pad, dec_str_signed, i64_digits, u64_digits_pad};
use crate::text::{append_chars, chars_to_string};

verus! {

/// The plain fields of a candidate: year, month, day, hour, minute, second,
/// epoch timestamp.
pub type FdtTuple = (u16, u8, u8, u8, u8, u8, i64);

/// The plain fields of a candidate, as one tuple.
pub open spec fn fdt_tuple(f: FileDateTime) -> FdtTuple {
    (f.year, f.month, f.day, f.hour, f.minute, f.second, f.timestamp)
}

/// The candidate a field tuple stands for.
pub open spec fn fdt_of_tuple(t: FdtTuple) -> FileDateTime {
    FileDateTime {
        year: t.0,
        month: t.1,
        day: t.2,
        hour: t.3,
        minute: t.4,
        second: t.5,
        timestamp: t.6,
    }
}

/// The plain fields of an optional candidate.
pub open spec fn fdt_opt_tuple(r: Option<FileDateTime>) -> Option<FdtTuple> {
    match r {
        Some(f) => Some(fdt_tuple(f)),
        None => None,
    }
}

/// What chrono's NaiveDate::parse_from_str yields for a value and a format:
/// the parsed civil date with a midnight time of day and the matching epoch
/// seconds, or nothing when the value does not match the format.
pub uninterp spec fn naive_date_of(value: Seq<char>, fmt: Seq<char>) -> Option<FdtTuple>;

/// What chrono's NaiveDateTime::parse_from_str yields for a value and a
/// format: the parsed civil fields and the matching epoch seconds.
pub uninterp spec fn naive_datetime_of(value: Seq<char>, fmt: Seq<char>) -> Option<FdtTuple>;

/// What chrono's DateTime::parse_from_str yields for a value and a format
/// holding an offset: the civil fields as written and the epoch seconds.
pub uninterp spec fn datetime_tz_of(value: Seq<char>, fmt: Seq<char>) -> Option<FdtTuple>;

/// What chrono's Utc.datetime_from_str yields for a value and a format.
pub uninterp spec fn utc_datetime_of(value: Seq<char>, fmt: Seq<char>) -> Option<FdtTuple>;

/// The civil fields in UTC of an epoch timestamp, where chrono can represent
/// it.
pub uninterp spec fn civil_utc_of(ts: i64) -> Option<FdtTuple>;

/// Relies on chrono's NaiveDate::parse_from_str: parses a date-only string
/// against a strftime format; the result depends on the two strings alone.
#[verifier::external_body]
pub fn parse_naive_date(value: &str, fmt: &str) -> (r: Option<FileDateTime>)
    ensures
        fdt_opt_tuple(r) == naive_date_of(value@, fmt@),
        r matches Some(f) ==> f.hour == 0 && f.minute == 0 && f.second == 0,
{
    match chrono::NaiveDate::parse_from_str(value, fmt) {
        Ok(date) => {
            let ts = date.and_hms_opt(0, 0, 0).unwrap().and_utc().timestamp();
            Some(FileDateTime {
                year: date.year() as u16,
                month: date.month() as u8,
                day: date.day() as u8,
                hour: 0,
                minute: 0,
                second: 0,
                timestamp: ts,
            })
        },
        Err(_) => None,
    }
}

/// Relies on chrono's NaiveDateTime::parse_from_str: parses a date and time
/// without offset; the result depends on the two strings alone.
#[verifier::external_body]
pub fn parse_naive_datetime(value: &str, fmt: &str) -> (r: Option<FileDateTime>)
    ensures
        fdt_opt_tuple(r) == naive_datetime_of(value@, fmt@),
{
    match chrono::NaiveDateTime::parse_from_str(value, fmt) {
        Ok(dt) => Some(FileDateTime {
            year: dt.year() as u16,
            month: dt.month() as u8,
            day: dt.day() as u8,
            hour: dt.hour() as u8,
            minute: dt.minute() as u8,
            second: dt.second() as u8,
            timestamp: dt.and_utc().timestamp(),
        }),
        Err(_) => None,
    }
}

/// Relies on chrono's DateTime::parse_from_str: parses a date and time whose
/// format carries an offset; the result depends on the two strings alone.
#[verifier::external_body]
pub fn parse_datetime_tz(value: &str, fmt: &str) -> (r: Option<FileDateTime>)
    ensures
        fdt_opt_tuple(r) == datetime_tz_of(value@, fmt@),
{
    match chrono::DateTime::parse_from_str(value, fmt) {
        Ok(dt) => Some(FileDateTime {
            year: dt.year() as u16,
            month: dt.month() as u8,
            day: dt.day() as u8,
            hour: dt.hour() as u8,
            minute: dt.minute() as u8,
            second: dt.second() as u8,
            timestamp: dt.timestamp(),
        }),
        Err(_) => None,
    }
}

/// Relies on chrono's TimeZone::datetime_from_str on Utc: parses a date and
/// time taken as UTC; the result depends on the two strings alone.
#[verifier::external_body]
#[allow(deprecated)]
pub fn parse_utc_datetime(value: &str, fmt: &str) -> (r: Option<FileDateTime>)
    ensures
        fdt_opt_tuple(r) == utc_datetime_of(value@, fmt@),
{
    match chrono::Utc.datetime_from_str(value, fmt) {
        Ok(dt) => Some(FileDateTime {
            year: dt.year() as u16,
            month: dt.month() as u8,
            day: dt.day() as u8,
            hour: dt.hour() as u8,
            minute: dt.minute() as u8,
            second: dt.second() as u8,
            timestamp: dt.timestamp(),
        }),
        Err(_) => None,
    }
}

/// Relies on chrono's Utc.timestamp_opt: the civil UTC fields of an epoch
/// timestamp; chrono documents the result as unique for a zero nanosecond
/// part, and its timestamp is the given one.
#[verifier::external_body]
pub fn timestamp_to_utc(ts: i64) -> (r: Option<FileDateTime>)
    ensures
        fdt_opt_tuple(r) == civil_utc_of(ts),
        r matches Some(f) ==> f.timestamp == ts,
{
    match chrono::Utc.timestamp_opt(ts, 0).single() {
        Some(dt) => Some(FileDateTime {
            year: dt.year() as u16,
            month: dt.month() as u8,
            day: dt.day() as u8,
            hour: dt.hour() as u8,
            minute: dt.minute() as u8,
            second: dt.second() as u8,
            timestamp: dt.timestamp(),
        }),
        None => None,
    }
}

/// Relies on chrono's Utc::now: the current instant; nothing is promised of
/// the clock's value.
#[verifier::external_body]
pub fn now_utc() -> FileDateTime {
    let now = chrono::Utc::now();
    FileDateTime {
        year: now.year() as u16,
        month: now.month() as u8,
        day: now.day() as u8,
        hour: now.hour() as u8,
        minute: now.minute() as u8,
        second: now.second() as u8,
        timestamp: now.timestamp(),
    }
}

/// One candidate timestamp: civil fields plus seconds since the Unix epoch.
#[derive(Debug, Clone, Copy)]
pub struct FileDateTime {
    pub year: u16,
    pub month: u8,
    pub day: u8,
    pub hour: u8,
    pub minute: u8,
    pub second: u8,
    pub timestamp: i64,
}

impl FileDateTime {
    /// The clock's current instant; nothing is known of its value.
    pub fn new() -> Self {
        now_utc()
    }

    /// Builds a candidate from explicit field values.
    pub fn from_parts(year: u16, month: u8, day: u8, hour: u8, minute: u8, second: u8, timestamp: i64) -> (r: Self)
        ensures
            r.year == year,
            r.month == month,
            r.day == day,
            r.hour == hour,
            r.minute == minute,
            r.second == second,
            r.timestamp == timestamp,
    {
        FileDateTime { year, month, day, hour, minute, second, timestamp }
    }

    pub fn get_year(&self) -> (r: u16)
        ensures
            r == self.year,
    {
        self.year
    }

    pub fn get_month(&self) -> (r: u8)
        ensures
            r == self.month,
    {
        self.month
    }

    pub fn get_day(&self) -> (r: u8)
        ensures
            r == self.day,
    {
        self.day
    }

    pub fn get_hour(&self) -> (r: u8)
        ensures
            r == self.hour,
    {
        self.hour
    }

    pub fn get_minute(&self) -> (r: u8)
        ensures
            r == self.minute,
    {
        self.minute
    }

    pub fn get_second(&self) -> (r: u8)
        ensures
            r == self.second,
    {
        self.second
    }

    pub fn get_timestamp(&self) -> (r: i64)
        ensures
            r == self.timestamp,
    {
        self.timestamp
    }

    /// A midnight time-of-day is treated as a placeholder left behind by
    /// devices that only record a date.
    pub open spec fn spec_is_midnight(self) -> bool {
        self.hour == 0 && self.minute == 0 && self.second == 0
    }

    pub fn is_midnight(&self) -> (r: bool)
        ensures
            r == self.spec_is_midnight(),
    {
        self.hour == 0 && self.minute == 0 && self.second == 0
    }

    /// The text form of a candidate: zero-padded civil fields, then the
    /// timestamp.
    pub open spec fn spec_to_string(self) -> Seq<char> {
        dec_str_pad(self.year as nat, 4) + seq![':'] + dec_str_pad(self.month as nat, 2)
            + seq![':'] + dec_str_pad(self.day as nat, 2) + seq![' '] + dec_str_pad(
            self.hour as nat,
            2,
        ) + seq![':'] + dec_str_pad(self.minute as nat, 2) + seq![':'] + dec_str_pad(
            self.second as nat,
            2,
        ) + seq![',', ' '] + dec_str_signed(self.timestamp as int)
    }

    pub fn to_string(&self) -> (r: String)
        ensures
            r@ == self.spec_to_string(),
    {
        let mut v = u64_digits_pad(self.year as u64, 4);
        v.push(':');
        let month = u64_digits_pad(self.month as u64, 2);
        append_chars(&mut v, &month);
        v.push(':');
        let day = u64_digits_pad(self.day as u64, 2);
        append_chars(&mut v, &day);
        v.push(' ');
        let hour = u64_digits_pad(self.hour as u64, 2);
        append_chars(&mut v, &hour);
        v.push(':');
        let minute = u64_digits_pad(self.minute as u64, 2);
        append_chars(&mut v, &minute);
        v.push(':');
        let second = u64_digits_pad(self.second as u64, 2);
        append_chars(&mut v, &second);
        v.push(',');
        v.push(' ');
        let ts = i64_digits(self.timestamp);
        append_chars(&mut v, &ts);
        assert(v@ =~= self.spec_to_string());
        chars_to_string(&v)
    }

    /// Two candidates fall on the same calendar day.
    pub open spec fn spec_same_day(self, other: Self) -> bool {
        self.year == other.year && self.month == other.month && self.day == other.day
    }

    pub fn same_day(&self, other: &Self) -> (r: bool)
        ensures
            r == self.spec_same_day(*other),
    {
        self.year == other.year && self.month == other.month && self.day == other.day
    }
}

} // verus!
