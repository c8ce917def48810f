//! The moment a record is logged: a local calendar date and time of day at
//! second precision, and its text `YYYY-MM-DD HH:MM:SS`.

use vstd::prelude::*;
use chrono::{Datelike, Timelike};

verus! {

/// The first year that a timestamp can hold: the first of chrono's
/// `NaiveDate`.
pub const MIN_YEAR: i32 = -262143;

/// The last year that a timestamp can hold: the last of chrono's
/// `NaiveDate`.
pub const MAX_YEAR: i32 = 262142;

/// Whether `year` is a leap year of the proleptic Gregorian calendar.
pub open spec fn is_leap_year(year: int) -> bool {
    year % 4 == 0 && (year % 100 != 0 || year % 400 == 0)
}

/// The number of days of `month` in `year`.
pub open spec fn days_in_month(year: int, month: int) -> int {
    if month == 2 {
        if is_leap_year(year) {
            29
        } else {
            28
        }
    } else if month == 4 || month == 6 || month == 9 || month == 11 {
        30
    } else {
        31
    }
}

/// The character of the decimal digit `n`.
pub open spec fn digit(n: int) -> char {
    ((48 + n) as u8) as char
}

/// `n` as two decimal digits.
pub open spec fn two_digits(n: int) -> Seq<char> {
    seq![digit(n / 10), digit(n % 10)]
}

/// `n` in decimal, without leading zeros.
pub open spec fn decimal(n: nat) -> Seq<char>
    decreases n,
{
    if n < 10 {
        seq![digit(n as int)]
    } else {
        decimal(n / 10).push(digit((n % 10) as int))
    }
}

/// `n` in decimal, filled with zeros at the front to four digits.
pub open spec fn four_digits_or_more(n: nat) -> Seq<char> {
    if n <= 9999 {
        two_digits(n as int / 100) + two_digits(n as int % 100)
    } else {
        decimal(n)
    }
}

/// The text of a year: four digits from 0 to 9999, and otherwise a sign
/// followed by at least four digits.
pub open spec fn year_text(year: int) -> Seq<char> {
    if 0 <= year <= 9999 {
        four_digits_or_more(year as nat)
    } else if year < 0 {
        seq!['-'] + four_digits_or_more((-year) as nat)
    } else {
        seq!['+'] + four_digits_or_more(year as nat)
    }
}

/// What a [`Timestamp`] stands for.
pub struct TimestampView {
    pub year: int,
    pub month: int,
    pub day: int,
    pub hour: int,
    pub minute: int,
    pub second: int,
}

impl TimestampView {
    /// Whether the numbers name a day of the calendar and a second of that
    /// day.
    pub open spec fn valid(self) -> bool {
        &&& MIN_YEAR <= self.year <= MAX_YEAR
        &&& 1 <= self.month <= 12
        &&& 1 <= self.day <= days_in_month(self.year, self.month)
        &&& 0 <= self.hour < 24
        &&& 0 <= self.minute < 60
        &&& 0 <= self.second < 60
    }

    /// The text `YYYY-MM-DD HH:MM:SS`.
    pub open spec fn text(self) -> Seq<char> {
        year_text(self.year) + seq!['-'] + two_digits(self.month) + seq!['-'] + two_digits(
            self.day,
        ) + seq![' '] + two_digits(self.hour) + seq![':'] + two_digits(self.minute) + seq![':']
            + two_digits(self.second)
    }
}

/// Whether `c` can stand in the text of a timestamp: a digit, a sign or one
/// of the separators.
pub open spec fn is_timestamp_char(c: char) -> bool {
    ||| 48 <= c as u32 <= 57
    ||| c == '-'
    ||| c == '+'
    ||| c == ' '
    ||| c == ':'
}

/// Whether `text` is made of the characters of timestamps alone.
pub open spec fn is_timestamp_text(text: Seq<char>) -> bool {
    forall|i: int| 0 <= i < text.len() ==> is_timestamp_char(#[trigger] text[i])
}

proof fn lemma_decimal_chars(n: nat)
    ensures
        decimal(n).len() >= 1,
        is_timestamp_text(decimal(n)),
        decimal(n)[0] != ' ',
    decreases n,
{
    if n >= 10 {
        lemma_decimal_chars(n / 10);
    }
}

proof fn lemma_year_chars(year: int)
    ensures
        year_text(year).len() >= 1,
        0 <= year <= 9999 ==> year_text(year).len() == 4,
        is_timestamp_text(year_text(year)),
        year_text(year)[0] != ' ',
{
    if year < 0 {
        lemma_decimal_chars((-year) as nat);
    } else {
        lemma_decimal_chars(year as nat);
    }
}

/// The text of a timestamp is made of digits, signs and separators, and
/// does not begin with a blank. From year 0 to year 9999 it holds
/// nineteen characters.
pub proof fn lemma_text_chars(date_time: TimestampView)
    requires
        date_time.valid(),
    ensures
        date_time.text().len() >= 16,
        0 <= date_time.year <= 9999 ==> date_time.text().len() == 19,
        is_timestamp_text(date_time.text()),
        date_time.text()[0] != ' ',
{
    lemma_year_chars(date_time.year);
}

/// A local date and time at second precision. Every value names a day that
/// exists and a second of that day.
#[derive(Debug, Clone, Copy)]
pub struct Timestamp {
    year: i32,
    month: u32,
    day: u32,
    hour: u32,
    minute: u32,
    second: u32,
}

impl View for Timestamp {
    type V = TimestampView;

    closed spec fn view(&self) -> TimestampView {
        TimestampView {
            year: self.year as int,
            month: self.month as int,
            day: self.day as int,
            hour: self.hour as int,
            minute: self.minute as int,
            second: self.second as int,
        }
    }
}

/// Whether `year` is a leap year.
fn leap_year(year: i32) -> (leap: bool)
    requires
        MIN_YEAR <= year <= MAX_YEAR,
    ensures
        leap == is_leap_year(year as int),
{
    // 262400 is a multiple of 400: the shift keeps every remainder.
    let shifted: u32 = (year + 262400) as u32;
    shifted % 4 == 0 && (shifted % 100 != 0 || shifted % 400 == 0)
}

/// The number of days of `month` in `year`.
fn month_length(year: i32, month: u32) -> (days: u32)
    requires
        MIN_YEAR <= year <= MAX_YEAR,
        1 <= month <= 12,
    ensures
        days == days_in_month(year as int, month as int),
{
    if month == 2 {
        if leap_year(year) {
            29
        } else {
            28
        }
    } else if month == 4 || month == 6 || month == 9 || month == 11 {
        30
    } else {
        31
    }
}

impl Timestamp {
    #[verifier::type_invariant]
    spec fn well_formed(self) -> bool {
        self@.valid()
    }

    /// The timestamp of the given date and time, if there is such a day and
    /// such a second.
    pub fn new(year: i32, month: u32, day: u32, hour: u32, minute: u32, second: u32) -> (made:
        Option<Timestamp>)
        ensures
            made is Some <==> (TimestampView {
                year: year as int,
                month: month as int,
                day: day as int,
                hour: hour as int,
                minute: minute as int,
                second: second as int,
            }).valid(),
            made matches Some(ts) ==> ts@ == (TimestampView {
                year: year as int,
                month: month as int,
                day: day as int,
                hour: hour as int,
                minute: minute as int,
                second: second as int,
            }),
    {
        if year < MIN_YEAR || year > MAX_YEAR || month < 1 || month > 12 || day < 1 {
            return None;
        }
        if day > month_length(year, month) || hour >= 24 || minute >= 60 || second >= 60 {
            return None;
        }
        Some(Timestamp { year, month, day, hour, minute, second })
    }

    /// Reads the local clock through `chrono::Local::now`, takes the local
    /// date and time of day with `naive_local`, and copies out year, month,
    /// day, hour, minute and second. The contract claims what holds of every
    /// date and time that chrono can hold: the day exists, and the time is a
    /// second of that day. chrono panics where the clock stands before 1970
    /// or beyond the last day it can hold.
    #[verifier::external_body]
    pub(crate) fn now() -> (ts: Timestamp)
        ensures
            ts@.valid(),
    {
        let local = chrono::Local::now().naive_local();
        Timestamp {
            year: local.year(),
            month: local.month(),
            day: local.day(),
            hour: local.hour(),
            minute: local.minute(),
            second: local.second(),
        }
    }

    /// Builds chrono's `NaiveDateTime` of the same numbers and formats it
    /// with `NaiveDateTime::format`. For the pattern `%Y-%m-%d %H:%M:%S`
    /// chrono writes the year in four digits (outside 0 to 9999 a sign and
    /// at least four digits), and month, day, hour, minute and second in two
    /// digits each, between the separators of the pattern.
    #[verifier::external_body]
    fn formatted(&self, pattern: &str) -> (text: String)
        requires
            self@.valid(),
            pattern@ == "%Y-%m-%d %H:%M:%S"@,
        ensures
            text@ == self@.text(),
    {
        let date = chrono::NaiveDate::from_ymd_opt(self.year, self.month, self.day).unwrap();
        let at = date.and_hms_opt(self.hour, self.minute, self.second).unwrap();
        at.format(pattern).to_string()
    }

    /// The text of the timestamp: `YYYY-MM-DD HH:MM:SS`.
    pub fn to_text(&self) -> (text: String)
        ensures
            text@ == self@.text(),
    {
        proof {
            use_type_invariant(self);
        }
        self.formatted("%Y-%m-%d %H:%M:%S")
    }
}

} // verus!
