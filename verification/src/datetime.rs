use vstd::prelude::*;

use crate::config::decimal_digits;

verus! {

/// A date and a time of day on the local clock, field by field, as chrono's
/// `NaiveDateTime` holds them; a nanosecond count of a billion or more marks a
/// leap second.
pub struct LocalDateTime {
    pub year: i32,
    pub month: u32,
    pub day: u32,
    pub hour: u32,
    pub minute: u32,
    pub second: u32,
    pub nanosecond: u32,
}

/// The earliest year that chrono's dates reach.
pub const MIN_YEAR: i32 = -262143;

/// The latest year that chrono's dates reach.
pub const MAX_YEAR: i32 = 262142;

/// Whether `year` is a leap year of the proleptic Gregorian calendar.
pub open spec fn is_leap_year(year: int) -> bool {
    year % 4 == 0 && (year % 100 != 0 || year % 400 == 0)
}

/// The number of days of `month` (1 to 12) in `year`.
pub open spec fn days_in_month(year: int, month: int) -> int {
    if month == 2 {
        if is_leap_year(year) {
            29
        } else {
            28
        }
    } else if month == 4 || month == 6 || month == 9 || month == 11 {
        30
    } else {
        31
    }
}

/// The character of the decimal digit `d` (0 to 9).
pub open spec fn digit_char(d: int) -> char {
    (d + '0' as int) as char
}

/// `n` (0 to 99) in two decimal digits.
pub open spec fn two_digits(n: int) -> Seq<char> {
    seq![digit_char(n / 10), digit_char(n % 10)]
}

/// `n` (0 to 9999) in four decimal digits.
pub open spec fn four_digits(n: int) -> Seq<char> {
    seq![digit_char(n / 1000), digit_char(n / 100 % 10), digit_char(n / 10 % 10), digit_char(n % 10)]
}

/// The year as chrono's `%Y` writes it: four zero-padded digits from 0 to
/// 9999; else a sign, `+` or `-`, before the digits of its magnitude, padded
/// with zeros to four digits.
pub open spec fn year_text(year: int) -> Seq<char> {
    if 0 <= year <= 9999 {
        four_digits(year)
    } else if year > 9999 {
        seq!['+'] + decimal_digits(year as nat)
    } else if year > -10000 {
        seq!['-'] + four_digits(-year)
    } else {
        seq!['-'] + decimal_digits((-year) as nat)
    }
}

impl LocalDateTime {
    /// Whether the fields name a date-time that exists: a day of the
    /// calendar within chrono's years, and a time of that day, where only the
    /// last second of a minute may be a leap second.
    pub open spec fn valid(self) -> bool {
        &&& MIN_YEAR <= self.year <= MAX_YEAR
        &&& 1 <= self.month <= 12
        &&& 1 <= self.day <= days_in_month(self.year as int, self.month as int)
        &&& self.hour < 24
        &&& self.minute < 60
        &&& self.second < 60
        &&& self.nanosecond < 2_000_000_000
        &&& self.nanosecond >= 1_000_000_000 ==> self.second == 59
    }

    /// The date-time as `YYYY-MM-DD HH:MM:SS`, the year written as
    /// `year_text` gives it; a
    /// leap second shows as second 60.
    pub open spec fn pretty(self) -> Seq<char> {
        let second = self.second + if self.nanosecond >= 1_000_000_000 { 1int } else { 0int };
        year_text(self.year as int) + seq!['-'] + two_digits(self.month as int) + seq!['-']
            + two_digits(self.day as int) + seq![' '] + two_digits(self.hour as int) + seq![':']
            + two_digits(self.minute as int) + seq![':'] + two_digits(second)
    }

    /// Whether the fields name a date-time that exists.
    pub fn is_valid(&self) -> (r: bool)
        ensures
            r == self.valid(),
    {
        if self.year < MIN_YEAR || self.year > MAX_YEAR || self.month < 1 || self.month > 12 {
            return false;
        }
        let year: i64 = if self.year < 0 { -(self.year as i64) } else { self.year as i64 };
        let leap = year % 4 == 0 && (year % 100 != 0 || year % 400 == 0);
        proof {
            let y = self.year as int;
            assert(leap == is_leap_year(y)) by {
                assert((-y) % 4 == 0 <==> y % 4 == 0);
                assert((-y) % 100 == 0 <==> y % 100 == 0);
                assert((-y) % 400 == 0 <==> y % 400 == 0);
            }
        }
        let days: u32 = if self.month == 2 {
            if leap {
                29
            } else {
                28
            }
        } else if self.month == 4 || self.month == 6 || self.month == 9 || self.month == 11 {
            30
        } else {
            31
        };
        self.day >= 1 && self.day <= days && self.hour < 24 && self.minute < 60 && self.second < 60
            && self.nanosecond < 2_000_000_000 && (self.nanosecond < 1_000_000_000
            || self.second == 59)
    }
}

/// Every clock time is valid: a day of the calendar within chrono's years and
/// a time of that day, whatever its hour, minute and second, with a nanosecond
/// count under a billion (no leap second).
pub proof fn lemma_clock_time_valid(t: LocalDateTime)
    requires
        -262143 <= t.year <= 262142,
        1 <= t.month <= 12,
        1 <= t.day,
        t.day <= 28 || (t.day <= 30 && t.month != 2) || (t.day == 31 && (t.month == 1
            || t.month == 3 || t.month == 5 || t.month == 7 || t.month == 8 || t.month == 10
            || t.month == 12)) || (t.day == 29 && t.month == 2 && t.year % 4 == 0 && (t.year % 100
            != 0 || t.year % 400 == 0)),
        t.hour < 24,
        t.minute < 60,
        t.second < 60,
        t.nanosecond < 1_000_000_000,
    ensures
        t.valid(),
{
}

/// A valid date-time is a real one: its fields lie in their ranges, its day
/// exists in its month, and a leap second comes only at second 59.
pub proof fn lemma_valid_in_range(t: LocalDateTime)
    requires
        t.valid(),
    ensures
        -262143 <= t.year <= 262142,
        1 <= t.month <= 12,
        1 <= t.day <= 31,
        t.month == 4 || t.month == 6 || t.month == 9 || t.month == 11 ==> t.day <= 30,
        t.month == 2 ==> t.day <= 29,
        t.month == 2 && t.day == 29 ==> t.year % 4 == 0 && (t.year % 100 != 0 || t.year % 400 == 0),
        t.hour < 24,
        t.minute < 60,
        t.second < 60,
        t.nanosecond < 2_000_000_000,
        t.nanosecond >= 1_000_000_000 ==> t.second == 59,
{
}

/// `chrono::format::DelayedFormat` of `NaiveDateTime::format` with the pattern
/// `%Y-%m-%d %H:%M:%S`, written out by `to_string`, on the date-time that
/// `NaiveDate::from_ymd_opt` and `NaiveDate::and_hms_nano_opt` build from the
/// fields of `t` (both of which give a value on such fields). The contract
/// claims what chrono's documentation of these specifiers and its formatting
/// code (`write_year`, with zero padding) give: the year as `year_text` writes
/// it, four zero-padded digits from 0 to 9999 and a sign before at least four
/// digits outside that range, the other fields in two zero-padded digits, and
/// a leap second as second 60.
#[verifier::external_body]
pub(crate) fn format_date_time(t: &LocalDateTime) -> (text: String)
    requires
        t.valid(),
    ensures
        text@ == t.pretty(),
{
    let date = chrono::NaiveDate::from_ymd_opt(t.year, t.month, t.day).unwrap();
    let date_time = date.and_hms_nano_opt(t.hour, t.minute, t.second, t.nanosecond).unwrap();
    date_time.format("%Y-%m-%d %H:%M:%S").to_string()
}

} // verus!
