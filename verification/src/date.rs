//! Calendar dates: which dates exist, how long a month is, and on which
//! weekday a date falls. The day count and the weekday come from `chrono`;
//! what they are is stated here over the Gregorian rules.

use crate::text::{decimal, push_char, push_decimal, push_text, push_two_digits, two_digits};
use vstd::prelude::*;

verus! {

/// The first year that a date can have.
pub const MIN_YEAR: i32 = -262_143;

/// The last year that a date can have.
pub const MAX_YEAR: i32 = 262_142;

/// A day of the calendar.
#[derive(Clone, Copy, Debug, PartialEq, Eq, Structural)]
pub struct Date {
    pub year: i32,
    pub month: u32,
    pub day: u32,
}

/// A leap year: every fourth year, but of the centuries only every fourth.
pub open spec fn is_leap_year(year: int) -> bool {
    year % 4 == 0 && (year % 100 != 0 || year % 400 == 0)
}

/// The number of days of a month of the Gregorian calendar.
pub open spec fn days_in_month(year: int, month: int) -> int {
    if month == 2 {
        if is_leap_year(year) {
            29
        } else {
            28
        }
    } else if month == 4 || month == 6 || month == 9 || month == 11 {
        30
    } else if 1 <= month <= 12 {
        31
    } else {
        0
    }
}

/// The date exists and lies in the years that dates can have.
pub open spec fn valid_date(year: int, month: int, day: int) -> bool {
    &&& MIN_YEAR <= year <= MAX_YEAR
    &&& 1 <= month <= 12
    &&& 1 <= day <= days_in_month(year, month)
}

/// The days of all years before `year`, counted from the year 1.
pub open spec fn days_before_year(year: int) -> int {
    365 * (year - 1) + (year - 1) / 4 - (year - 1) / 100 + (year - 1) / 400
}

/// The days of `year` that lie before its month `month`.
pub open spec fn days_before_month(year: int, month: int) -> int
    decreases month,
{
    if month <= 1 {
        0
    } else {
        days_before_month(year, month - 1) + days_in_month(year, month - 1)
    }
}

/// The number of a day, where 1 January of the year 1 is day 1.
pub open spec fn day_number(year: int, month: int, day: int) -> int {
    days_before_year(year) + days_before_month(year, month) + day
}

/// The weekday of a date, counted from Monday, which is 0.
pub open spec fn weekday_of(year: int, month: int, day: int) -> int {
    (day_number(year, month, day) + 6) % 7
}

/// `NaiveDate::from_ymd_opt`, then `Datelike::num_days_from_ce`: the number of
/// the day, counted from 1 January of the year 1, where the date exists.
#[verifier::external_body]
pub(crate) fn num_days_from_ce(year: i32, month: u32, day: u32) -> (r: Option<i32>)
    ensures
        r is Some <==> valid_date(year as int, month as int, day as int),
        r matches Some(n) ==> n == day_number(year as int, month as int, day as int),
{
    chrono::NaiveDate::from_ymd_opt(year, month, day).map(|d| chrono::Datelike::num_days_from_ce(&d))
}

/// `NaiveDate::from_ymd_opt`, then `Datelike::weekday` and
/// `Weekday::num_days_from_monday`: the weekday, counted from Monday, where
/// the date exists.
#[verifier::external_body]
pub(crate) fn num_days_from_monday(year: i32, month: u32, day: u32) -> (r: Option<u32>)
    ensures
        r is Some <==> valid_date(year as int, month as int, day as int),
        r matches Some(n) ==> n == weekday_of(year as int, month as int, day as int),
{
    chrono::NaiveDate::from_ymd_opt(year, month, day).map(
        |d| chrono::Datelike::weekday(&d).num_days_from_monday(),
    )
}

/// A year is as much longer than 365 days as it is a leap year.
pub proof fn lemma_year_length(year: int)
    ensures
        days_before_year(year + 1) - days_before_year(year) == if is_leap_year(year) {
            366int
        } else {
            365int
        },
{
}

/// The months of a year before the last have 334 days, and one more in a
/// leap year.
pub proof fn lemma_days_before_december(year: int)
    ensures
        days_before_month(year, 12) == if is_leap_year(year) {
            335int
        } else {
            334int
        },
        days_before_month(year, 1) == 0,
{
    reveal_with_fuel(days_before_month, 13);
}

/// The first days of two months in a row lie as many days apart as the
/// earlier month is long.
pub proof fn lemma_month_length(year: int, month: int)
    requires
        1 <= month <= 12,
    ensures
        month < 12 ==> day_number(year, month + 1, 1) - day_number(year, month, 1)
            == days_in_month(year, month),
        month == 12 ==> day_number(year + 1, 1, 1) - day_number(year, 12, 1) == days_in_month(
            year,
            12,
        ),
{
    lemma_year_length(year);
    lemma_days_before_december(year);
    lemma_days_before_december(year + 1);
}

impl Date {
    /// The date exists.
    pub open spec fn valid(self) -> bool {
        valid_date(self.year as int, self.month as int, self.day as int)
    }

    /// Whether the date exists.
    pub fn is_valid(year: i32, month: u32, day: u32) -> (r: bool)
        ensures
            r == valid_date(year as int, month as int, day as int),
    {
        num_days_from_ce(year, month, day).is_some()
    }

    /// Whether two dates are the same day. Dates that do not exist are the
    /// same day where they are written alike.
    pub fn same_day(self, other: Date) -> (r: bool)
        ensures
            r == (self == other),
    {
        self.year == other.year && self.month == other.month && self.day == other.day
    }
}

/// The number of days of a month, or nothing where the month lies outside
/// the years that dates can have.
pub fn num_of_days(month: u32, year: i32) -> (r: Option<i64>)
    ensures
        r is Some <==> 1 <= month <= 12 && MIN_YEAR <= year <= MAX_YEAR,
        r matches Some(n) ==> n == days_in_month(year as int, month as int),
        r matches Some(n) ==> 28 <= n <= 31,
{
    if month < 1 || month > 12 || year < MIN_YEAR || year > MAX_YEAR {
        return None;
    }
    proof {
        lemma_month_length(year as int, month as int);
    }
    if month == 12 {
        // the month after the last December cannot be held: the last month
        // of a year is counted from its first day to its last
        match (num_days_from_ce(year, 12, 31), num_days_from_ce(year, 12, 1)) {
            (Some(last), Some(first)) => Some(last as i64 - first as i64 + 1),
            _ => None,
        }
    } else {
        match (num_days_from_ce(year, month + 1, 1), num_days_from_ce(year, month, 1)) {
            (Some(next), Some(this)) => Some(next as i64 - this as i64),
            _ => None,
        }
    }
}

/// The weekday of the first day of a month, counted from Monday, or nothing
/// where the month lies outside the years that dates can have.
pub fn start_day(month: u32, year: i32) -> (r: Option<u32>)
    ensures
        r is Some <==> 1 <= month <= 12 && MIN_YEAR <= year <= MAX_YEAR,
        r matches Some(n) ==> n == weekday_of(year as int, month as int, 1) && n < 7,
{
    num_days_from_monday(year, month, 1)
}

/// The English name of a month.
pub open spec fn month_name(month: int) -> Seq<char> {
    if month == 1 {
        "January"@
    } else if month == 2 {
        "February"@
    } else if month == 3 {
        "March"@
    } else if month == 4 {
        "April"@
    } else if month == 5 {
        "May"@
    } else if month == 6 {
        "June"@
    } else if month == 7 {
        "July"@
    } else if month == 8 {
        "August"@
    } else if month == 9 {
        "September"@
    } else if month == 10 {
        "October"@
    } else if month == 11 {
        "November"@
    } else {
        "December"@
    }
}

/// The English name of a month.
pub fn month_name_of(month: u32) -> (r: &'static str)
    ensures
        r@ == month_name(month as int),
{
    if month == 1 {
        "January"
    } else if month == 2 {
        "February"
    } else if month == 3 {
        "March"
    } else if month == 4 {
        "April"
    } else if month == 5 {
        "May"
    } else if month == 6 {
        "June"
    } else if month == 7 {
        "July"
    } else if month == 8 {
        "August"
    } else if month == 9 {
        "September"
    } else if month == 10 {
        "October"
    } else if month == 11 {
        "November"
    } else {
        "December"
    }
}

/// The short English name of a weekday, counted from Monday.
pub open spec fn weekday_name(weekday: int) -> Seq<char> {
    if weekday == 0 {
        "Mon"@
    } else if weekday == 1 {
        "Tue"@
    } else if weekday == 2 {
        "Wed"@
    } else if weekday == 3 {
        "Thu"@
    } else if weekday == 4 {
        "Fri"@
    } else if weekday == 5 {
        "Sat"@
    } else {
        "Sun"@
    }
}

/// The short English name of a weekday, counted from Monday.
pub fn weekday_name_of(weekday: u32) -> (r: &'static str)
    ensures
        r@ == weekday_name(weekday as int),
{
    if weekday == 0 {
        "Mon"
    } else if weekday == 1 {
        "Tue"
    } else if weekday == 2 {
        "Wed"
    } else if weekday == 3 {
        "Thu"
    } else if weekday == 4 {
        "Fri"
    } else if weekday == 5 {
        "Sat"
    } else {
        "Sun"
    }
}

/// A year in at least four digits; years before 0 and after 9999 carry
/// their sign.
pub open spec fn year_text(year: int) -> Seq<char> {
    let digits = decimal((if year < 0 { -year } else { year }) as nat);
    let padded = Seq::new(
        (if digits.len() < 4 { 4 - digits.len() } else { 0 }) as nat,
        |i: int| '0',
    ) + digits;
    if year < 0 {
        seq!['-'] + padded
    } else if year > 9999 {
        seq!['+'] + padded
    } else {
        padded
    }
}

/// The heading of a day: short weekday, day in two digits, month, year. A
/// date that does not exist is headed as a Monday.
pub open spec fn date_heading(date: Date) -> Seq<char> {
    weekday_name(
        if date.valid() {
            weekday_of(date.year as int, date.month as int, date.day as int)
        } else {
            0
        },
    ) + seq![' '] + two_digits(date.day as nat) + seq![' '] + month_name(date.month as int)
        + seq![' '] + year_text(date.year as int)
}

/// A clock time in two digits each, hours and minutes.
pub open spec fn clock_text(hour: nat, minute: nat) -> Seq<char> {
    two_digits(hour) + seq![':'] + two_digits(minute)
}

/// The text of a clock time.
pub fn clock_text_of(hour: u32, minute: u32) -> (r: String)
    ensures
        r@ == clock_text(hour as nat, minute as nat),
{
    let mut out = String::new();
    push_two_digits(&mut out, hour as u64);
    push_char(&mut out, ':');
    push_two_digits(&mut out, minute as u64);
    assert(out@ == clock_text(hour as nat, minute as nat));
    out
}

/// Appends a year as `year_text` writes it.
pub fn push_year(out: &mut String, year: i32)
    ensures
        final(out)@ == old(out)@ + year_text(year as int),
{
    let size: u64 = if year < 0 {
        (-(year as i64)) as u64
    } else {
        year as u64
    };
    let mut digits = String::new();
    push_decimal(&mut digits, size);
    assert(digits@ == decimal(size as nat)) by {
        assert(Seq::<char>::empty() + decimal(size as nat) == decimal(size as nat));
    }
    let len = vstd::string::StrSliceExecFns::unicode_len(digits.as_str());
    let zeros: usize = if len < 4 {
        4 - len
    } else {
        0
    };
    let ghost padded = Seq::new(zeros as nat, |i: int| '0') + digits@;
    if year < 0 {
        push_char(out, '-');
    } else if year > 9999 {
        push_char(out, '+');
    }
    let ghost signed = out@;
    crate::text::push_repeat(out, '0', zeros);
    push_text(out, digits.as_str());
    assert(out@ == signed + padded);
    assert(out@ == old(out)@ + year_text(year as int)) by {
        if year < 0 {
            assert(signed + padded == old(out)@ + (seq!['-'] + padded));
        } else if year > 9999 {
            assert(signed + padded == old(out)@ + (seq!['+'] + padded));
        }
    }
}

/// The heading of a day.
pub fn heading_of(date: Date) -> (r: String)
    ensures
        r@ == date_heading(date),
{
    let weekday = match num_days_from_monday(date.year, date.month, date.day) {
        Some(n) => n,
        None => 0,
    };
    let mut out = String::new();
    push_text(&mut out, weekday_name_of(weekday));
    push_char(&mut out, ' ');
    push_two_digits(&mut out, date.day as u64);
    push_char(&mut out, ' ');
    push_text(&mut out, month_name_of(date.month));
    push_char(&mut out, ' ');
    let ghost before = out@;
    push_year(&mut out, date.year);
    assert(out@ == date_heading(date)) by {
        let name = weekday_name(weekday as int);
        assert(Seq::<char>::empty() + name == name);
        assert(before == name + seq![' '] + two_digits(date.day as nat) + seq![' '] + month_name(
            date.month as int,
        ) + seq![' ']);
    }
    out
}

/// The full English name of a weekday, counted from Monday.
pub open spec fn weekday_long_name(weekday: int) -> Seq<char> {
    if weekday == 0 {
        "Monday"@
    } else if weekday == 1 {
        "Tuesday"@
    } else if weekday == 2 {
        "Wednesday"@
    } else if weekday == 3 {
        "Thursday"@
    } else if weekday == 4 {
        "Friday"@
    } else if weekday == 5 {
        "Saturday"@
    } else {
        "Sunday"@
    }
}

/// The full English name of a weekday, counted from Monday.
pub fn weekday_long_name_of(weekday: u32) -> (r: &'static str)
    ensures
        r@ == weekday_long_name(weekday as int),
{
    if weekday == 0 {
        "Monday"
    } else if weekday == 1 {
        "Tuesday"
    } else if weekday == 2 {
        "Wednesday"
    } else if weekday == 3 {
        "Thursday"
    } else if weekday == 4 {
        "Friday"
    } else if weekday == 5 {
        "Saturday"
    } else {
        "Sunday"
    }
}

/// A day written out: full weekday, day in two digits, month, year. A date
/// that does not exist is written as a Monday.
pub open spec fn date_long(date: Date) -> Seq<char> {
    weekday_long_name(
        if date.valid() {
            weekday_of(date.year as int, date.month as int, date.day as int)
        } else {
            0
        },
    ) + seq![' '] + two_digits(date.day as nat) + seq![' '] + month_name(date.month as int)
        + seq![' '] + year_text(date.year as int)
}

/// A day written out.
pub fn date_long_of(date: Date) -> (r: String)
    ensures
        r@ == date_long(date),
{
    let weekday = match num_days_from_monday(date.year, date.month, date.day) {
        Some(n) => n,
        None => 0,
    };
    let mut out = String::new();
    push_text(&mut out, weekday_long_name_of(weekday));
    push_char(&mut out, ' ');
    push_two_digits(&mut out, date.day as u64);
    push_char(&mut out, ' ');
    push_text(&mut out, month_name_of(date.month));
    push_char(&mut out, ' ');
    let ghost before = out@;
    push_year(&mut out, date.year);
    assert(out@ == date_long(date)) by {
        let name = weekday_long_name(weekday as int);
        assert(Seq::<char>::empty() + name == name);
        assert(before == name + seq![' '] + two_digits(date.day as nat) + seq![' '] + month_name(
            date.month as int,
        ) + seq![' ']);
    }
    out
}

/// The months follow the Gregorian calendar: seven have 31 days, four have
/// 30, and February has 29 in a leap year and 28 in any other; a leap year
/// is every fourth year, but of the centuries only every fourth.
pub proof fn law_gregorian_months(year: int, month: int)
    requires
        1 <= month <= 12,
    ensures
        (month == 1 || month == 3 || month == 5 || month == 7 || month == 8 || month == 10 || month
            == 12) ==> days_in_month(year, month) == 31,
        (month == 4 || month == 6 || month == 9 || month == 11) ==> days_in_month(year, month)
            == 30,
        month == 2 ==> days_in_month(year, month) == if (year % 4 == 0 && year % 100 != 0) || year
            % 400 == 0 {
            29int
        } else {
            28int
        },
        month < 12 ==> day_number(year, month + 1, 1) - day_number(year, month, 1)
            == days_in_month(year, month),
        month == 12 ==> day_number(year + 1, 1, 1) - day_number(year, 12, 1) == 31,
{
    lemma_month_length(year, month);
}

} // verus!
