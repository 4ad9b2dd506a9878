//! Dates and times as ZIP stores them, and the host systems that an entry may come from.
use vstd::prelude::*;
use vstd::string::*;

use crate::compression::CompressionMethod;
#[allow(unused_imports)]
use chrono::{Datelike, TimeZone, Timelike};

verus! {

/// A calendar date and wall-clock time, each part as its own number.
#[derive(Debug, Clone, Copy, PartialEq, Eq, Structural)]
pub struct DateTimeCS {
    pub year: u16,
    pub month: u16,
    pub day: u16,
    pub hour: u16,
    pub minute: u16,
    pub second: u16,
}

/// 1980-01-01 00:00:00, the origin of MS-DOS time.
pub open spec fn spec_default_date_time() -> DateTimeCS {
    DateTimeCS { year: 1980, month: 1, day: 1, hour: 0, minute: 0, second: 0 }
}

/// Whether `y` is a leap year of the proleptic Gregorian calendar.
pub open spec fn is_leap_year(y: int) -> bool {
    (y % 4 == 0 && y % 100 != 0) || y % 400 == 0
}

/// The number of days of month `m` of year `y`.
pub open spec fn days_in_month(y: int, m: int) -> int {
    if m == 2 {
        if is_leap_year(y) {
            29
        } else {
            28
        }
    } else if m == 4 || m == 6 || m == 9 || m == 11 {
        30
    } else {
        31
    }
}

/// Whether `y-m-d` is a calendar date that `chrono::NaiveDate` can represent.
pub open spec fn chrono_date_valid(y: i32, m: u32, d: u32) -> bool {
    &&& -262143 <= y <= 262142
    &&& 1 <= m <= 12
    &&& 1 <= d <= days_in_month(y as int, m as int)
}

/// The number of days from 1970-01-01 to `y-m-d` in the proleptic Gregorian calendar (negative
/// before it), counted in 400-year eras that start on a 1st of March.
pub open spec fn days_from_civil(y: int, m: int, d: int) -> int {
    let y2 = if m <= 2 { y - 1 } else { y };
    let era = y2 / 400;
    let yoe = y2 - era * 400;
    let mp = if m > 2 { m - 3 } else { m + 9 };
    let doy = (153 * mp + 2) / 5 + d - 1;
    let doe = yoe * 365 + yoe / 4 - yoe / 100 + doy;
    era * 146097 + doe - 719468
}

/// The date (year, month, day) that lies `days` days after 1970-01-01 (before it when negative)
/// in the proleptic Gregorian calendar.
pub open spec fn civil_from_days(days: int) -> (int, int, int) {
    let z = days + 719468;
    let era = z / 146097;
    let doe = z - era * 146097;
    let yoe = (doe - doe / 1460 + doe / 36524 - doe / 146096) / 365;
    let doy = doe - (365 * yoe + yoe / 4 - yoe / 100);
    let mp = (5 * doy + 2) / 153;
    let d = doy - (153 * mp + 2) / 5 + 1;
    let m = if mp < 10 { mp + 3 } else { mp - 9 };
    (yoe + era * 400 + (if m <= 2 { 1int } else { 0int }), m, d)
}

/// The seconds since the Unix epoch of `y-m-d h:mi:s` read as a UTC time.
pub open spec fn chrono_naive_utc_timestamp(y: i32, m: u32, d: u32, h: u32, mi: u32, s: u32) -> i64 {
    (days_from_civil(y as int, m as int, d as int) * 86400 + h * 3600 + mi * 60 + s) as i64
}

/// The UTC calendar fields (year, month, day, hour, minute, second) of a Unix timestamp, or
/// `None` where the year is outside chrono's range.
pub open spec fn chrono_utc_fields(ts: i64) -> Option<(i32, u32, u32, u32, u32, u32)> {
    let days = ts as int / 86400;
    let secs = ts as int % 86400;
    let (y, m, d) = civil_from_days(days);
    if -262143 <= y <= 262142 {
        Some((y as i32, m as u32, d as u32, (secs / 3600) as u32, (secs % 3600 / 60) as u32, (secs % 60) as u32))
    } else {
        None
    }
}

/// Whether chrono accepts `y-m-d` as a date.
///
/// Calls `chrono::NaiveDate::from_ymd_opt`; the contract states what its documentation
/// says: the date exists in the proleptic Gregorian calendar and the year is in chrono's range.
#[verifier::external_body]
fn naive_date_is_valid(y: i32, m: u32, d: u32) -> (b: bool)
    ensures
        b == chrono_date_valid(y, m, d),
{
    chrono::NaiveDate::from_ymd_opt(y, m, d).is_some()
}

/// The Unix timestamp of a valid date and time read as UTC.
///
/// Calls `chrono::NaiveDate::from_ymd_opt`, `and_hms_opt`, `and_utc` and `timestamp`; the
/// contract claims the count of days since 1970-01-01 times 86400, plus the seconds of the day.
#[verifier::external_body]
fn naive_utc_timestamp(y: i32, m: u32, d: u32, h: u32, mi: u32, s: u32) -> (t: i64)
    requires
        chrono_date_valid(y, m, d),
        h < 24,
        mi < 60,
        s < 60,
    ensures
        t == chrono_naive_utc_timestamp(y, m, d, h, mi, s),
{
    chrono::NaiveDate::from_ymd_opt(y, m, d).unwrap().and_hms_opt(h, mi, s).unwrap().and_utc().timestamp()
}

/// The UTC calendar fields of a Unix timestamp.
///
/// Calls `chrono::TimeZone::timestamp_opt` on `chrono::Utc` and reads the fields of the
/// result; the contract claims the calendar date of the timestamp's day (floored) and the time
/// of day of its remaining seconds, and `None` exactly where that date's year is outside
/// chrono's range, as `DateTime::from_timestamp` decides.
#[verifier::external_body]
fn utc_fields_of_timestamp(ts: i64) -> (r: Option<(i32, u32, u32, u32, u32, u32)>)
    ensures
        r == chrono_utc_fields(ts),
{
    match chrono::Utc.timestamp_opt(ts, 0) {
        chrono::LocalResult::Single(dt) | chrono::LocalResult::Ambiguous(dt, _) => Some(
            (dt.year(), dt.month(), dt.day(), dt.hour(), dt.minute(), dt.second()),
        ),
        chrono::LocalResult::None => None,
    }
}

/// The two decimal digits of `n` (below 100).
pub open spec fn two_digits(n: int) -> Seq<char> {
    seq![crate::text::digit_char((n / 10) as nat, false), crate::text::digit_char((n % 10) as nat, false)]
}

/// The year as chrono prints it: four digits from 0 to 9999, otherwise a sign and at least four
/// digits.
pub open spec fn chrono_year_text(y: int) -> Seq<char> {
    if 0 <= y <= 9999 {
        two_digits(y / 100) + two_digits(y % 100)
    } else {
        seq![if y < 0 { '-' } else { '+' }] + crate::text::left_padded(
            crate::text::decimal_text((if y < 0 { -y } else { y }) as nat),
            4,
            '0',
        )
    }
}

/// The text that chrono prints for the date and time `y-m-d h:mi:s`: the date, a space and the
/// time, each field but the year in two digits.
pub open spec fn chrono_datetime_text(y: i32, m: u32, d: u32, h: u32, mi: u32, s: u32) -> Seq<char> {
    chrono_year_text(y as int) + seq!['-'] + two_digits(m as int) + seq!['-'] + two_digits(d as int)
        + seq![' '] + two_digits(h as int) + seq![':'] + two_digits(mi as int) + seq![':']
        + two_digits(s as int)
}

/// The text of a valid date and time.
///
/// Calls `chrono::NaiveDate::from_ymd_opt` and `and_hms_opt`, then the `Display` of
/// `chrono::NaiveDateTime`; the contract claims the layout that its source writes (no fraction
/// of a second, as none is set).
#[verifier::external_body]
fn naive_datetime_text(y: i32, m: u32, d: u32, h: u32, mi: u32, s: u32) -> (t: String)
    requires
        chrono_date_valid(y, m, d),
        h < 24,
        mi < 60,
        s < 60,
    ensures
        t@ == chrono_datetime_text(y, m, d, h, mi, s),
{
    chrono::NaiveDate::from_ymd_opt(y, m, d).unwrap().and_hms_opt(h, mi, s).unwrap().to_string()
}

/// The text that chrono prints for the UTC date and time of the Unix timestamp `ts`: that of its
/// date and time followed by ` UTC`; `None` where chrono cannot represent the instant.
pub open spec fn chrono_utc_text(ts: i32) -> Option<Seq<char>> {
    match chrono_utc_fields(ts as i64) {
        Some(f) => Some(chrono_datetime_text(f.0, f.1, f.2, f.3, f.4, f.5) + seq![' ', 'U', 'T', 'C']),
        None => None,
    }
}

/// The UTC text of a Unix timestamp.
///
/// Calls `chrono::DateTime::from_timestamp` and the `Display` of `chrono::DateTime<Utc>`, which
/// prints the date and time and then the offset, `UTC`.
#[verifier::external_body]
pub(crate) fn utc_text(ts: i32) -> (r: Option<String>)
    ensures
        match r {
            Some(t) => chrono_utc_text(ts) == Some(t@),
            None => chrono_utc_text(ts) is None,
        },
{
    match chrono::DateTime::from_timestamp(ts as i64, 0) {
        Some(dt) => Some(dt.to_string()),
        None => None,
    }
}

/// The local text of a Unix timestamp.
///
/// Calls `chrono::TimeZone::timestamp_opt` on `chrono::Local` and the `Display` of the result.
/// The text depends on the machine's time zone, so nothing is promised of it; that there is
/// one is: `timestamp_opt` gives a single local time for every instant that
/// `DateTime::from_timestamp` accepts, and it accepts every 32-bit timestamp.
#[verifier::external_body]
pub(crate) fn local_text(ts: i32) -> (r: Option<String>)
    ensures
        r is Some,
{
    match chrono::Local.timestamp_opt(ts as i64, 0) {
        chrono::LocalResult::Single(dt) => Some(dt.to_string()),
        chrono::LocalResult::Ambiguous(dt, _) => Some(dt.to_string()),
        chrono::LocalResult::None => None,
    }
}

/// The local calendar fields of the current time.
///
/// Calls `chrono::Local::now`; which instant it reads depends on the clock and the time zone,
/// so only what holds of every `chrono::DateTime` is claimed: its date is a calendar date in
/// chrono's range, and its hour, minute and second are below 24, 60 and 60 (a leap second is
/// kept in the nanoseconds, which are not read).
#[verifier::external_body]
fn local_now_fields() -> (r: (i32, u32, u32, u32, u32, u32))
    ensures
        chrono_date_valid(r.0, r.1, r.2),
        r.3 < 24,
        r.4 < 60,
        r.5 < 60,
{
    let dt = chrono::Local::now();
    (dt.year(), dt.month(), dt.day(), dt.hour(), dt.minute(), dt.second())
}

/// The current Unix timestamp.
///
/// Calls `chrono::Utc::now`; the result depends on the clock, so nothing is promised of it.
#[verifier::external_body]
fn utc_now_timestamp() -> (t: i64) {
    chrono::Utc::now().timestamp()
}

/// `v` with everything above `i32::MAX` or below `i32::MIN` mapped to `i32::MAX`.
pub open spec fn spec_convert_timestamp(v: i64) -> i32 {
    if i32::MIN <= v <= i32::MAX {
        v as i32
    } else {
        i32::MAX
    }
}

/// The parts of a date and time from the calendar fields that chrono gives.
pub open spec fn spec_from_chrono_fields(
    year: i32,
    month: u32,
    day: u32,
    hour: u32,
    minute: u32,
    second: u32,
) -> DateTimeCS {
    DateTimeCS {
        year: year as u16,
        month: month as u16,
        day: day as u16,
        hour: hour as u16,
        minute: minute as u16,
        second: second as u16,
    }
}

/// The date and time of a Unix timestamp, UTC, or the MS-DOS origin where chrono has none.
pub open spec fn spec_from_timestamp(timestamp: i32) -> DateTimeCS {
    match chrono_utc_fields(timestamp as i64) {
        Some(f) => spec_from_chrono_fields(f.0, f.1, f.2, f.3, f.4, f.5),
        None => spec_default_date_time(),
    }
}

/// The date and time packed in the MS-DOS date and time words.
pub open spec fn spec_from_msdos(datepart: u16, timepart: u16) -> DateTimeCS {
    DateTimeCS {
        year: (((datepart & 0xfe00) >> 9) + 1980) as u16,
        month: (datepart & 0x01e0) >> 5,
        day: datepart & 0x001f,
        hour: (timepart & 0xf800) >> 11,
        minute: (timepart & 0x07e0) >> 5,
        second: (timepart & 0x001f) << 1,
    }
}

/// The years since 1980, or 0 before 1980.
pub open spec fn years_since_1980(year: u16) -> u16 {
    if year >= 1980 {
        (year - 1980) as u16
    } else {
        0
    }
}

/// The MS-DOS (date, time) words of `dt`, each part shifted into place.
pub open spec fn spec_ms_dos(dt: DateTimeCS) -> (u16, u16) {
    (
        dt.day | (dt.month << 5u16) | (years_since_1980(dt.year) << 9u16),
        (dt.second / 2) | (dt.minute << 5u16) | (dt.hour << 11u16),
    )
}

/// Whether every part of `dt` fits its MS-DOS bit field, the seconds being even.
pub open spec fn fits_ms_dos(dt: DateTimeCS) -> bool {
    &&& 1980 <= dt.year <= 2107
    &&& dt.month < 16
    &&& dt.day < 32
    &&& dt.hour < 32
    &&& dt.minute < 64
    &&& dt.second < 64
    &&& dt.second % 2 == 0
}

/// The (year, month, day, hour, minute, second) that `dt` stands for once an impossible date is
/// replaced by 1980-01-01 and an impossible time of day by the Unix epoch.
pub open spec fn spec_to_time(dt: DateTimeCS) -> (i32, u32, u32, u32, u32, u32) {
    let (y, m, d) = if chrono_date_valid(dt.year as i32, dt.month as u32, dt.day as u32) {
        (dt.year as i32, dt.month as u32, dt.day as u32)
    } else {
        (1980i32, 1u32, 1u32)
    };
    if dt.hour < 24 && dt.minute < 60 && dt.second < 60 {
        (y, m, d, dt.hour as u32, dt.minute as u32, dt.second as u32)
    } else {
        (1970i32, 1u32, 1u32, 0u32, 0u32, 0u32)
    }
}

/// The Unix timestamp of `dt` read as UTC, saturated to `i32::MAX`.
pub open spec fn spec_to_timestamp(dt: DateTimeCS) -> i32 {
    let t = spec_to_time(dt);
    spec_convert_timestamp(chrono_naive_utc_timestamp(t.0, t.1, t.2, t.3, t.4, t.5))
}

impl DateTimeCS {
    /// 1980-01-01 00:00:00.
    pub fn default() -> (r: Self)
        ensures
            r == spec_default_date_time(),
    {
        Self { year: 1980, month: 1, day: 1, hour: 0, minute: 0, second: 0 }
    }

    /// The date and time of the given calendar fields, each cut to 16 bits.
    pub fn from_chrono_datetime(
        year: i32,
        month: u32,
        day: u32,
        hour: u32,
        minute: u32,
        second: u32,
    ) -> (r: Self)
        ensures
            r == spec_from_chrono_fields(year, month, day, hour, minute, second),
    {
        Self {
            year: year as u16,
            month: month as u16,
            day: day as u16,
            hour: hour as u16,
            minute: minute as u16,
            second: second as u16,
        }
    }

    /// The current local date and time: the fields of a calendar date and a time of day.
    pub fn now() -> (r: Self)
        ensures
            spec_clock_date_time(r),
    {
        let (y, mo, d, h, mi, s) = local_now_fields();
        Self::from_chrono_datetime(y, mo, d, h, mi, s)
    }

    /// The UTC date and time of a Unix timestamp.
    pub fn from_timestamp(timestamp: i32) -> (r: Self)
        ensures
            r == spec_from_timestamp(timestamp),
    {
        match utc_fields_of_timestamp(timestamp as i64) {
            None => Self::default(),
            Some((y, mo, d, h, mi, s)) => Self::from_chrono_datetime(y, mo, d, h, mi, s),
        }
    }

    /// Unpacks the MS-DOS date and time words.
    pub fn from_msdos(datepart: u16, timepart: u16) -> (r: Self)
        ensures
            r == spec_from_msdos(datepart, timepart),
    {
        let seconds = (timepart & 0b0000000000011111) << 1;
        let minutes = (timepart & 0b0000011111100000) >> 5;
        let hours = (timepart & 0b1111100000000000) >> 11;
        let days = datepart & 0b0000000000011111;
        let months = (datepart & 0b0000000111100000) >> 5;
        let years = (datepart & 0b1111111000000000) >> 9;
        assert(years <= 127) by (bit_vector)
            requires
                years == (datepart & 0b1111111000000000) >> 9,
        ;
        Self {
            year: years + 1980,
            month: months,
            day: days,
            hour: hours,
            minute: minutes,
            second: seconds,
        }
    }

    /// The calendar fields this date and time stands for, an impossible date being replaced by
    /// 1980-01-01 and an impossible time of day by the Unix epoch.
    pub fn to_time(&self) -> (r: (i32, u32, u32, u32, u32, u32))
        ensures
            r == spec_to_time(*self),
    {
        Self::to_time_dry(
            self.year as i32,
            self.month as u32,
            self.day as u32,
            self.hour as u32,
            self.minute as u32,
            self.second as u32,
        )
    }

    /// The text of the date and time that this stands for (see `to_time`), as chrono prints it.
    pub fn to_string(&self) -> (t: String)
        ensures
            ({
                let f = spec_to_time(*self);
                t@ == chrono_datetime_text(f.0, f.1, f.2, f.3, f.4, f.5)
            }),
    {
        let (y, m, d, h, mi, s) = self.to_time();
        naive_datetime_text(y, m, d, h, mi, s)
    }

    fn to_time_dry(year: i32, month: u32, day: u32, hour: u32, minute: u32, second: u32) -> (r: (
        i32,
        u32,
        u32,
        u32,
        u32,
        u32,
    ))
        ensures
            ({
                let (y, m, d) = if chrono_date_valid(year, month, day) {
                    (year, month, day)
                } else {
                    (1980i32, 1u32, 1u32)
                };
                r == if hour < 24 && minute < 60 && second < 60 {
                    (y, m, d, hour, minute, second)
                } else {
                    (1970i32, 1u32, 1u32, 0u32, 0u32, 0u32)
                }
            }),
    {
        let (y, m, d) = if naive_date_is_valid(year, month, day) {
            (year, month, day)
        } else {
            (1980i32, 1u32, 1u32)
        };
        if hour < 24 && minute < 60 && second < 60 {
            (y, m, d, hour, minute, second)
        } else {
            (1970i32, 1u32, 1u32, 0u32, 0u32, 0u32)
        }
    }

    /// The MS-DOS (date, time) words of this date and time.
    pub fn ms_dos(&self) -> (r: (u16, u16))
        ensures
            r == spec_ms_dos(*self),
    {
        let date = self.day | (self.month << 5) | self.year.saturating_sub(1980) << 9;
        let time = (self.second / 2) | (self.minute << 5) | self.hour << 11;
        (date, time)
    }

    /// The Unix timestamp of this date and time read as UTC, saturated to `i32::MAX`.
    pub fn to_timestamp(&self) -> (r: i32)
        ensures
            r == spec_to_timestamp(*self),
    {
        let (y, m, d, h, mi, s) = self.to_time();
        assert(chrono_date_valid(1980, 1, 1));
        assert(chrono_date_valid(1970, 1, 1));
        Self::convert_timestamp(naive_utc_timestamp(y, m, d, h, mi, s))
    }

    fn convert_timestamp(timestamp: i64) -> (r: i32)
        ensures
            r == spec_convert_timestamp(timestamp),
    {
        if i32::MIN as i64 <= timestamp && timestamp <= i32::MAX as i64 {
            timestamp as i32
        } else {
            i32::MAX
        }
    }
}

/// Packing the MS-DOS words of a date and time that fits them and unpacking them gives it back.
pub proof fn lemma_ms_dos_roundtrip(dt: DateTimeCS)
    requires
        fits_ms_dos(dt),
    ensures
        spec_from_msdos(spec_ms_dos(dt).0, spec_ms_dos(dt).1) == dt,
{
    let (y, mo, d, h, mi, s) = (dt.year, dt.month, dt.day, dt.hour, dt.minute, dt.second);
    let yy = (y - 1980) as u16;
    assert(years_since_1980(y) == yy);
    let date = d | (mo << 5u16) | (yy << 9u16);
    let time = (s / 2) | (mi << 5u16) | (h << 11u16);
    assert(((date & 0xfe00) >> 9) == yy && ((date & 0x01e0) >> 5) == mo && (date & 0x001f) == d)
        by (bit_vector)
        requires
            date == d | (mo << 5u16) | (yy << 9u16),
            yy < 128,
            mo < 16,
            d < 32,
    ;
    assert(((time & 0xf800) >> 11) == h && ((time & 0x07e0) >> 5) == mi && ((time & 0x001f)
        << 1) == s) by (bit_vector)
        requires
            time == (s / 2) | (mi << 5u16) | (h << 11u16),
            h < 32,
            mi < 64,
            s < 64,
            s % 2 == 0,
    ;
}

/// Unpacking MS-DOS words and packing the result gives the same words back, whatever they were.
pub proof fn lemma_msdos_words_roundtrip(datepart: u16, timepart: u16)
    ensures
        spec_ms_dos(spec_from_msdos(datepart, timepart)) == (datepart, timepart),
{
    let dt = spec_from_msdos(datepart, timepart);
    let years = (datepart & 0xfe00) >> 9;
    assert(years <= 127) by (bit_vector)
        requires
            years == (datepart & 0xfe00) >> 9,
    ;
    assert(years_since_1980(dt.year) == years);
    assert((datepart & 0x001f) | (((datepart & 0x01e0) >> 5) << 5u16) | (((datepart & 0xfe00)
        >> 9) << 9u16) == datepart) by (bit_vector);
    assert((((timepart & 0x001f) << 1) / 2) | (((timepart & 0x07e0) >> 5) << 5u16) | (((timepart
        & 0xf800) >> 11) << 11u16) == timepart) by (bit_vector);
}

/// The date and time that an entry of an archive carries.
#[derive(Copy, Clone, Eq, PartialEq, Debug)]
pub enum FileDateTime {
    /// The MS-DOS origin, 1980-01-01 00:00:00.
    Zero,
    /// A given date and time.
    Custom(DateTimeCS),
    /// The current local date and time.
    Now,
    /// The current time, also recorded as a Unix timestamp.
    UnixNow,
    /// A given Unix timestamp (seconds since 1970-01-01 00:00:00 UTC).
    UnixCustom(i32),
    /// No modification time given: the MS-DOS origin, and no Unix timestamp.
    Unset,
}

/// Whether `r` can be a date and time that the clock gives: the fields of a calendar date and a
/// time of day.
pub open spec fn spec_clock_date_time(r: DateTimeCS) -> bool {
    exists|y: i32, m: u32, d: u32, h: u32, mi: u32, s: u32|
        #![trigger spec_from_chrono_fields(y, m, d, h, mi, s)]
        chrono_date_valid(y, m, d) && h < 24 && mi < 60 && s < 60 && r == spec_from_chrono_fields(
            y,
            m,
            d,
            h,
            mi,
            s,
        )
}

/// The date and time that `t` stands for, where it does not depend on the clock.
pub open spec fn spec_tuple(t: FileDateTime) -> Option<DateTimeCS> {
    match t {
        FileDateTime::Zero => Some(spec_default_date_time()),
        FileDateTime::Custom(dt) => Some(dt),
        FileDateTime::UnixCustom(ts) => Some(spec_from_timestamp(ts)),
        FileDateTime::Unset => Some(spec_default_date_time()),
        _ => None,
    }
}

/// The Unix timestamp that `t` stands for, where it does not depend on the clock.
pub open spec fn spec_timestamp(t: FileDateTime) -> Option<i32> {
    match t {
        FileDateTime::Zero => Some(spec_to_timestamp(spec_default_date_time())),
        FileDateTime::Custom(dt) => Some(spec_to_timestamp(dt)),
        FileDateTime::UnixCustom(ts) => Some(ts),
        FileDateTime::Unset => Some(spec_to_timestamp(spec_default_date_time())),
        _ => None,
    }
}

/// Whether `t` is also recorded as a Unix timestamp.
pub open spec fn spec_extended_timestamp(t: FileDateTime) -> bool {
    t is UnixNow || t is UnixCustom
}

impl FileDateTime {
    fn tuple(&self) -> (r: DateTimeCS)
        ensures
            spec_tuple(*self) matches Some(dt) ==> r == dt,
            spec_tuple(*self) is None ==> spec_clock_date_time(r),
    {
        match self {
            FileDateTime::Zero => DateTimeCS::default(),
            FileDateTime::Custom(date_time) => *date_time,
            FileDateTime::Now => DateTimeCS::now(),
            FileDateTime::UnixNow => DateTimeCS::now(),
            FileDateTime::UnixCustom(timestamp) => DateTimeCS::from_timestamp(*timestamp),
            FileDateTime::Unset => DateTimeCS::default(),
        }
    }

    /// The MS-DOS (date, time) words of this date and time.
    pub fn ms_dos(&self) -> (r: (u16, u16))
        ensures
            spec_tuple(*self) matches Some(dt) ==> r == spec_ms_dos(dt),
            spec_tuple(*self) is None ==> exists|dt: DateTimeCS|
                #![trigger spec_ms_dos(dt)]
                spec_clock_date_time(dt) && r == spec_ms_dos(dt),
    {
        let dt = self.tuple();
        dt.ms_dos()
    }

    /// The calendar fields of this date and time (see `DateTimeCS::to_time`).
    pub fn to_time(&self) -> (r: (i32, u32, u32, u32, u32, u32))
        ensures
            spec_tuple(*self) matches Some(dt) ==> r == spec_to_time(dt),
            spec_tuple(*self) is None ==> exists|dt: DateTimeCS|
                #![trigger spec_to_time(dt)]
                spec_clock_date_time(dt) && r == spec_to_time(dt),
    {
        let dt = self.tuple();
        dt.to_time()
    }

    /// The Unix timestamp of this date and time.
    pub fn timestamp(&self) -> (r: i32)
        ensures
            spec_timestamp(*self) matches Some(ts) ==> r == ts,
    {
        match self {
            FileDateTime::Zero => DateTimeCS::default().to_timestamp(),
            FileDateTime::Custom(date_time) => date_time.to_timestamp(),
            FileDateTime::Now => DateTimeCS::convert_timestamp(utc_now_timestamp()),
            FileDateTime::UnixNow => DateTimeCS::convert_timestamp(utc_now_timestamp()),
            FileDateTime::UnixCustom(timestamp) => *timestamp,
            FileDateTime::Unset => DateTimeCS::default().to_timestamp(),
        }
    }

    /// Whether this date and time is also recorded as a Unix timestamp.
    pub fn extended_timestamp(&self) -> (b: bool)
        ensures
            b == spec_extended_timestamp(*self),
    {
        match self {
            FileDateTime::UnixNow | FileDateTime::UnixCustom(_) => true,
            _ => false,
        }
    }

    /// The MS-DOS origin.
    pub fn default() -> (r: Self)
        ensures
            r == FileDateTime::Zero,
    {
        FileDateTime::Zero
    }
}

/// The host system whose file attribute conventions an entry follows.
#[derive(Clone, Debug, PartialEq, Eq, Structural)]
pub enum FileCompatibilitySystem {
    /// MS-DOS and OS/2 (FAT / VFAT / FAT32 file systems)
    Dos,
    Unix,
    WindowsNTFS,
    OsX,
    Unknown(u8),
}

/// The system code of `s`.
pub open spec fn spec_system_value(s: FileCompatibilitySystem) -> u8 {
    match s {
        FileCompatibilitySystem::Dos => 0,
        FileCompatibilitySystem::Unix => 3,
        FileCompatibilitySystem::WindowsNTFS => 10,
        FileCompatibilitySystem::OsX => 19,
        FileCompatibilitySystem::Unknown(v) => v,
    }
}

/// The system that a system code names.
pub open spec fn spec_system_from_u8(code: u8) -> FileCompatibilitySystem {
    if code == 0 {
        FileCompatibilitySystem::Dos
    } else if code == 3 {
        FileCompatibilitySystem::Unix
    } else if code == 10 {
        FileCompatibilitySystem::WindowsNTFS
    } else if code == 19 {
        FileCompatibilitySystem::OsX
    } else {
        FileCompatibilitySystem::Unknown(code)
    }
}

/// A version word whose low byte is that of `version_needed` and whose high byte is `system`.
pub open spec fn spec_with_system(version_needed: u16, system: u8) -> u16 {
    (version_needed % 256 + system * 256) as u16
}

/// The name of the system `s`; an unknown one is named by its code.
pub open spec fn spec_system_text(s: FileCompatibilitySystem) -> Seq<char> {
    match s {
        FileCompatibilitySystem::Dos => "MS-DOS, OS/2 or NT FAT"@,
        FileCompatibilitySystem::Unix => "Unix"@,
        FileCompatibilitySystem::WindowsNTFS => "Windows NTFS"@,
        FileCompatibilitySystem::OsX => "OsX"@,
        FileCompatibilitySystem::Unknown(c) => "unknown ("@ + crate::text::decimal_text(c as nat) + ")"@,
    }
}

impl FileCompatibilitySystem {
    /// The system that a system code names.
    pub fn from_u8(system_code: u8) -> (r: FileCompatibilitySystem)
        ensures
            r == spec_system_from_u8(system_code),
    {
        match system_code {
            0 => FileCompatibilitySystem::Dos,
            3 => FileCompatibilitySystem::Unix,
            10 => FileCompatibilitySystem::WindowsNTFS,
            19 => FileCompatibilitySystem::OsX,
            _ => FileCompatibilitySystem::Unknown(system_code),
        }
    }

    /// The system code.
    pub fn value(&self) -> (v: u8)
        ensures
            v == spec_system_value(*self),
    {
        match *self {
            FileCompatibilitySystem::Dos => 0,
            FileCompatibilitySystem::Unix => 3,
            FileCompatibilitySystem::WindowsNTFS => 10,
            FileCompatibilitySystem::OsX => 19,
            FileCompatibilitySystem::Unknown(val) => val,
        }
    }

    /// The name of the system; an unknown one is named by its code.
    pub fn to_string(&self) -> (t: String)
        ensures
            t@ == spec_system_text(*self),
    {
        match self {
            FileCompatibilitySystem::Dos => String::from_str("MS-DOS, OS/2 or NT FAT"),
            FileCompatibilitySystem::Unix => String::from_str("Unix"),
            FileCompatibilitySystem::WindowsNTFS => String::from_str("Windows NTFS"),
            FileCompatibilitySystem::OsX => String::from_str("OsX"),
            FileCompatibilitySystem::Unknown(val) => {
                let mut t = String::from_str("unknown (");
                let code = crate::text::decimal_string(*val as u64);
                t.append(code.as_str());
                t.append(")");
                t
            },
        }
    }

    /// Puts the system code into the high byte of a version word.
    pub fn update_version_needed(&self, version_needed: u16) -> (r: u16)
        ensures
            r == spec_with_system(version_needed, spec_system_value(*self)),
    {
        let val = self.value();
        let r = (version_needed & 0xFF) | ((val as u16) << 8);
        assert(r == (version_needed % 256 + val * 256) as u16) by (bit_vector)
            requires
                r == (version_needed & 0xFF) | ((val as u16) << 8),
        ;
        r
    }
}

/// The code of the system that a code names is that code.
pub proof fn lemma_system_code_roundtrip(code: u8)
    ensures
        spec_system_value(spec_system_from_u8(code)) == code,
{
}

/// The system that the code of a system names is that system, unless it is an unknown system
/// given a known code.
pub proof fn lemma_system_roundtrip(s: FileCompatibilitySystem)
    requires
        s matches FileCompatibilitySystem::Unknown(c) ==> (c != 0 && c != 3 && c != 10 && c != 19),
    ensures
        spec_system_from_u8(spec_system_value(s)) == s,
{
}

/// An archive entry in its compact form: the fields of a local header with the compressor that
/// its method code names.
#[derive(Debug)]
pub struct ArchiveFileEntry {
    pub version_made_by: u16,
    pub version_needed: u16,
    pub general_purpose_flags: u16,
    pub compression_method: u16,
    pub last_mod_file_time: u16,
    pub last_mod_file_date: u16,
    pub crc32: u32,
    pub compressed_size: u64,
    pub uncompressed_size: u64,
    pub file_name_len: u16,
    pub extra_field_length: u16,
    pub file_name_as_bytes: Vec<u8>,
    pub offset: u64,
    pub compressor: CompressionMethod,
    pub file_disk_number: u16,
    pub internal_file_attributes: u16,
    pub external_file_attributes: u32,
    pub file_comment: Option<Vec<u8>>,
}

impl ArchiveFileEntry {
    /// The version needed to extract an entry with this compressor.
    pub fn version_needed(&self) -> (v: u16)
        ensures
            v == (match self.compressor {
                CompressionMethod::Zstd() => 63u16,
                CompressionMethod::BZip2() => 46u16,
                _ => 20u16,
            }),
    {
        match self.compressor {
            CompressionMethod::Zstd() => 63,
            CompressionMethod::BZip2() => 46,
            _ => 20,
        }
    }

    /// The file name, invalid UTF-8 replaced.
    pub fn get_file_name(&self) -> (s: String)
        ensures
            s@ == crate::archive_common::utf8_lossy_text(self.file_name_as_bytes@),
            vstd::utf8::valid_utf8(self.file_name_as_bytes@) ==> s@ == vstd::utf8::decode_utf8(
                self.file_name_as_bytes@,
            ),
    {
        crate::archive_common::lossy_utf8(self.file_name_as_bytes.as_slice())
    }

    /// Whether the uncompressed size needs the ZIP64 format.
    pub fn is_zip64(&self) -> (b: bool)
        ensures
            b == (self.uncompressed_size >= u32::MAX),
    {
        self.uncompressed_size >= u32::MAX as u64
    }
}

} // verus!
