use vstd::prelude::*;

use chrono::{Datelike, Timelike};

use crate::model::{representable_timestamp, timestamp_representable};
use crate::text::{digit_char, digit_str, digits_value, nat_digits, push_digits, two_digit_label, two_digits};

verus! {

/// Whether `year` is a leap year of the proleptic Gregorian calendar.
pub open spec fn is_leap_year(year: int) -> bool {
    year % 4 == 0 && (year % 100 != 0 || year % 400 == 0)
}

/// The number of days in `month` (1 to 12) of `year`.
pub open spec fn days_in_month(year: int, month: int) -> int {
    if month == 2 {
        if is_leap_year(year) {
            29
        } else {
            28
        }
    } else if month == 4 || month == 6 || month == 9 || month == 11 {
        30
    } else {
        31
    }
}

/// Whether year, month and day name a day of the proleptic Gregorian calendar.
pub open spec fn valid_date(year: int, month: int, day: int) -> bool {
    1 <= month <= 12 && 1 <= day <= days_in_month(year, month)
}

/// The days of `year` before the first of `month`.
pub open spec fn days_before_month(year: int, month: int) -> int {
    let common: int = if month == 1 {
        0
    } else if month == 2 {
        31
    } else if month == 3 {
        59
    } else if month == 4 {
        90
    } else if month == 5 {
        120
    } else if month == 6 {
        151
    } else if month == 7 {
        181
    } else if month == 8 {
        212
    } else if month == 9 {
        243
    } else if month == 10 {
        273
    } else if month == 11 {
        304
    } else {
        334
    };
    if month > 2 && is_leap_year(year) {
        common + 1
    } else {
        common
    }
}

/// The number of days from January 1, 1970 to the given day.
pub open spec fn days_from_epoch(year: int, month: int, day: int) -> int {
    let y = year - 1;
    365 * y + y / 4 - y / 100 + y / 400 + days_before_month(year, month) + day - 719163
}

/// A date and time of day on the wall clock.
#[derive(Debug, Clone, Copy, PartialEq, Eq, Structural)]
pub struct LocalDateTime {
    pub year: i32,
    pub month: u32,
    pub day: u32,
    pub hour: u32,
    pub minute: u32,
    pub second: u32,
}

/// The seconds from the UNIX epoch to a wall-clock reading taken as UTC.
pub open spec fn civil_seconds(year: int, month: int, day: int, hour: int, minute: int, second: int) -> int {
    days_from_epoch(year, month, day) * 86400 + hour * 3600 + minute * 60 + second
}

pub open spec fn reading_seconds(t: LocalDateTime) -> int {
    civil_seconds(t.year as int, t.month as int, t.day as int, t.hour as int, t.minute as int, t.second as int)
}

/// Whether `t` is a well-formed wall-clock reading.
pub open spec fn valid_reading(t: LocalDateTime) -> bool {
    valid_date(t.year as int, t.month as int, t.day as int) && t.hour < 24 && t.minute < 60 && t.second < 60
}

/// Whether `t` can be the local wall clock at the instant `secs`: a
/// well-formed reading that differs from the UTC reading by less than a day,
/// as every time-zone offset does.
pub open spec fn is_local_reading(secs: int, t: LocalDateTime) -> bool {
    valid_reading(t) && -86400 < reading_seconds(t) - secs < 86400
}

/// Whether `stamp` can be the instant at which the local wall clock shows the
/// given reading: the reading is well-formed and the instant lies less than a
/// day from the reading taken as UTC.
pub open spec fn is_local_instant(t: LocalDateTime, stamp: int) -> bool {
    valid_reading(t) && -86400 < stamp - reading_seconds(t) < 86400
}

/// Reads the local wall clock at `secs` seconds after the UNIX epoch with
/// chrono (`DateTime::from_timestamp`, turned into `DateTime<Local>`, then
/// its `Datelike` and `Timelike` fields). The reading depends on the
/// machine's time zone, so only what holds in every zone is stated: it is a
/// well-formed reading within a day of UTC (chrono's offsets lie strictly
/// between -86400 and 86400 seconds).
#[verifier::external_body]
fn local_date_time(secs: i64) -> (t: LocalDateTime)
    requires
        timestamp_representable(secs),
    ensures
        is_local_reading(secs as int, t),
{
    let local: chrono::DateTime<chrono::Local> = chrono::DateTime::from_timestamp(secs, 0).unwrap().into();
    LocalDateTime {
        year: local.year(),
        month: local.month(),
        day: local.day(),
        hour: local.hour(),
        minute: local.minute(),
        second: local.second(),
    }
}

/// Asks chrono for the instant at which the local wall clock shows the given
/// reading (`NaiveDate::from_ymd_opt`, `and_hms_opt`, then
/// `Local.from_local_datetime(..).single()` and `timestamp`). `None` when the
/// reading is not a date and time, or when the local clock shows it never or
/// twice; which readings those are depends on the time zone and is not stated.
#[verifier::external_body]
fn local_timestamp(t: LocalDateTime) -> (r: Option<i64>)
    ensures
        r matches Some(stamp) ==> is_local_instant(t, stamp as int),
{
    let date = chrono::NaiveDate::from_ymd_opt(t.year, t.month, t.day)?;
    let local = date.and_hms_opt(t.hour, t.minute, t.second)?;
    let instant = chrono::TimeZone::from_local_datetime(&chrono::Local, &local).single()?;
    Some(instant.timestamp())
}

/// The local wall clock at `secs`, or `None` when chrono cannot represent that instant.
pub fn local_reading(secs: i64) -> (r: Option<LocalDateTime>)
    ensures
        r is Some <==> timestamp_representable(secs),
        r matches Some(t) ==> is_local_reading(secs as int, t),
{
    if representable_timestamp(secs) {
        Some(local_date_time(secs))
    } else {
        None
    }
}

/// The instant of the due date that the editor's pickers show: the picked
/// day at the picked hour and minute, at second 1, in local time. `None`
/// when the local clock does not show that reading exactly once.
pub fn form_due_timestamp(year: i32, month: u32, day: u32, hour: u32, minute: u32) -> (r: Option<i64>)
    ensures
        r matches Some(stamp) ==> is_local_instant(
            LocalDateTime { year, month, day, hour, minute, second: 1 },
            stamp as int,
        ),
{
    local_timestamp(LocalDateTime { year, month, day, hour, minute, second: 1 })
}

/// Four decimal digits, with leading zeros.
pub open spec fn four_digits(n: nat) -> Seq<char> {
    seq![digit_char(n / 1000), digit_char(n / 100 % 10), digit_char(n / 10 % 10), digit_char(n % 10)]
}

/// A magnitude written with at least four digits.
pub open spec fn padded_four(n: nat) -> Seq<char> {
    if n < 10000 {
        four_digits(n)
    } else {
        nat_digits(n)
    }
}

/// A year as chrono's `%Y` writes it: four digits from 0 to 9999, otherwise
/// a sign and at least four digits.
pub open spec fn year_text(year: int) -> Seq<char> {
    if 0 <= year <= 9999 {
        four_digits(year as nat)
    } else if year < 0 {
        seq!['-'] + padded_four((-year) as nat)
    } else {
        seq!['+'] + padded_four(year as nat)
    }
}

/// The label of the editor's date button: `" %d.%m.%Y "` in chrono's format.
pub open spec fn date_text(year: int, month: int, day: int) -> Seq<char> {
    seq![' '] + two_digits(day as nat) + seq!['.'] + two_digits(month as nat) + seq!['.'] + year_text(year)
        + seq![' ']
}

fn push_four_digits(n: u64, out: &mut String)
    requires
        n < 10000,
    ensures
        final(out)@ == old(out)@ + four_digits(n as nat),
{
    out.append(digit_str(n / 1000));
    out.append(digit_str(n / 100 % 10));
    out.append(digit_str(n / 10 % 10));
    out.append(digit_str(n % 10));
    proof {
        assert(final(out)@ =~= old(out)@ + four_digits(n as nat));
    }
}

fn push_padded_four(n: u64, out: &mut String)
    ensures
        final(out)@ == old(out)@ + padded_four(n as nat),
{
    if n < 10000 {
        push_four_digits(n, out);
    } else {
        push_digits(n, out);
    }
}

/// Writes a year as chrono's `%Y` does.
pub fn year_label(year: i32) -> (s: String)
    ensures
        s@ == year_text(year as int),
{
    let mut s = String::new();
    if 0 <= year && year <= 9999 {
        push_four_digits(year as u64, &mut s);
    } else if year < 0 {
        s.append("-");
        let magnitude: i64 = 0i64 - (year as i64);
        push_padded_four(magnitude as u64, &mut s);
        proof {
            reveal_strlit("-");
        }
    } else {
        s.append("+");
        push_padded_four(year as u64, &mut s);
        proof {
            reveal_strlit("+");
        }
    }
    proof {
        assert(s@ =~= year_text(year as int));
    }
    s
}

/// The label of the editor's date button for a day.
pub fn date_label(year: i32, month: u32, day: u32) -> (s: String)
    requires
        month < 100,
        day < 100,
    ensures
        s@ == date_text(year as int, month as int, day as int),
{
    let mut s = String::new();
    s.append(" ");
    let d = two_digit_label(day as u64);
    s.append(d.as_str());
    s.append(".");
    let m = two_digit_label(month as u64);
    s.append(m.as_str());
    s.append(".");
    let y = year_label(year);
    s.append(y.as_str());
    s.append(" ");
    proof {
        reveal_strlit(" ");
        reveal_strlit(".");
        assert(s@ =~= date_text(year as int, month as int, day as int));
    }
    s
}

/// A year from 0 to 9999 is written as four digits that read back as the
/// year; other years carry their sign in front.
pub proof fn lemma_year_text_meaning(year: int)
    ensures
        0 <= year <= 9999 ==> year_text(year).len() == 4 && digits_value(year_text(year)) == year,
        year < 0 ==> year_text(year)[0] == '-',
        year > 9999 ==> year_text(year)[0] == '+',
{
    if 0 <= year <= 9999 {
        let s = year_text(year);
        let n = year as nat;
        let s1 = s.drop_last();
        let s2 = s1.drop_last();
        let s3 = s2.drop_last();
        assert(s3.drop_last() =~= Seq::<char>::empty());
        assert(digits_value(Seq::<char>::empty()) == 0);
        assert(digit_char(n / 1000) as int == 48 + n / 1000);
        assert(digit_char(n / 100 % 10) as int == 48 + n / 100 % 10);
        assert(digit_char(n / 10 % 10) as int == 48 + n / 10 % 10);
        assert(digit_char(n % 10) as int == 48 + n % 10);
        assert(s3.last() == digit_char(n / 1000));
        assert(digits_value(s3) == n / 1000);
        assert(s2.last() == digit_char(n / 100 % 10));
        assert(digits_value(s2) == (n / 1000) * 10 + n / 100 % 10);
        assert(s1.last() == digit_char(n / 10 % 10));
        assert(digits_value(s1) == ((n / 1000) * 10 + n / 100 % 10) * 10 + n / 10 % 10);
        assert(s.last() == digit_char(n % 10));
        assert(year == (((n / 1000) * 10 + n / 100 % 10) * 10 + n / 10 % 10) * 10 + n % 10)
            by (nonlinear_arith)
            requires
                0 <= n <= 9999,
                year == n,
        ;
    }
}

} // verus!
