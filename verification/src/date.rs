use vstd::prelude::*;

use crate::text::all_digits;
use crate::text::digits_val;
use crate::text::parse_digits;

verus! {

/// A calendar date of the proleptic Gregorian calendar, held as plain values.
/// The library works in years 0 through 9999, the range its four-digit date
/// strings can carry.
#[derive(Clone, Copy, Debug, PartialEq, Eq, Structural)]
pub struct Date {
    pub year: u32,
    pub month: u32,
    pub day: u32,
}

/// Gregorian leap-year rule.
pub open spec fn is_leap_year(y: int) -> bool {
    y % 4 == 0 && (y % 100 != 0 || y % 400 == 0)
}

/// How many days the given month of the given year has.
pub open spec fn days_in_month(y: int, m: int) -> int {
    if m == 2 {
        if is_leap_year(y) {
            29
        } else {
            28
        }
    } else if m == 4 || m == 6 || m == 9 || m == 11 {
        30
    } else {
        31
    }
}

/// Whether the date names a real day of years 0 through 9999.
pub open spec fn date_valid(d: Date) -> bool {
    d.year <= 9999 && 1 <= d.month <= 12 && 1 <= d.day <= days_in_month(
        d.year as int,
        d.month as int,
    )
}

/// Executable counterpart of `days_in_month`.
pub fn days_in_month_exec(year: u32, month: u32) -> (r: u32)
    requires
        1 <= month <= 12,
    ensures
        r == days_in_month(year as int, month as int),
{
    if month == 2 {
        if year % 4 == 0 && (year % 100 != 0 || year % 400 == 0) {
            29
        } else {
            28
        }
    } else if month == 4 || month == 6 || month == 9 || month == 11 {
        30
    } else {
        31
    }
}

/// Checks that the date names a real day.
pub fn date_valid_exec(d: &Date) -> (r: bool)
    ensures
        r == date_valid(*d),
{
    d.year <= 9999 && 1 <= d.month && d.month <= 12 && 1 <= d.day && d.day
        <= days_in_month_exec(d.year, d.month)
}

/// The final step of the `M/D/YYYY` grammar: with the month ending at `ml`
/// and the day `dl` characters long, the year must be exactly four digits
/// and the three numeric parts must name a real day.
pub open spec fn mdy_from(s: Seq<char>, ml: int, dl: int) -> Option<Date> {
    if s.len() == ml + dl + 6 && all_digits(s.subrange(0, ml)) && all_digits(
        s.subrange(ml + 1, ml + 1 + dl),
    ) && all_digits(s.subrange(ml + dl + 2, ml + dl + 6)) {
        let d = Date {
            year: digits_val(s.subrange(ml + dl + 2, ml + dl + 6)) as u32,
            month: digits_val(s.subrange(0, ml)) as u32,
            day: digits_val(s.subrange(ml + 1, ml + 1 + dl)) as u32,
        };
        if date_valid(d) {
            Some(d)
        } else {
            None
        }
    } else {
        None
    }
}

/// Picks the length of the day part of the `M/D/YYYY` grammar: the day is the
/// one or two characters between the first slash (at `ml`) and the next one.
pub open spec fn mdy_after_month(s: Seq<char>, ml: int) -> Option<Date> {
    if ml + 2 < s.len() && s[ml + 2] == '/' {
        mdy_from(s, ml, 1)
    } else if ml + 3 < s.len() && s[ml + 3] == '/' {
        mdy_from(s, ml, 2)
    } else {
        None
    }
}

/// The `M/D/YYYY` date grammar: a one- or two-digit month, a slash, a one- or
/// two-digit day, a slash, and a four-digit year, naming a real day.
pub open spec fn spec_parse_mdy(s: Seq<char>) -> Option<Date> {
    if 1 < s.len() && s[1] == '/' {
        mdy_after_month(s, 1)
    } else if 2 < s.len() && s[2] == '/' {
        mdy_after_month(s, 2)
    } else {
        None
    }
}

/// Parses a date of the form `M/D/YYYY`.
pub fn parse_mdy(s: &str) -> (r: Option<Date>)
    ensures
        r == spec_parse_mdy(s@),
{
    let n = s.unicode_len();
    let ml: usize = if 1 < n && s.get_char(1) == '/' {
        1
    } else if 2 < n && s.get_char(2) == '/' {
        2
    } else {
        return None;
    };
    let dl: usize = if ml + 2 < n && s.get_char(ml + 2) == '/' {
        1
    } else if ml + 3 < n && s.get_char(ml + 3) == '/' {
        2
    } else {
        return None;
    };
    if n != ml + dl + 6 {
        return None;
    }
    let month = match parse_digits(s, 0, ml) {
        Some(v) => v,
        None => {
            return None;
        },
    };
    let day = match parse_digits(s, ml + 1, ml + 1 + dl) {
        Some(v) => v,
        None => {
            return None;
        },
    };
    let year = match parse_digits(s, ml + dl + 2, ml + dl + 6) {
        Some(v) => v,
        None => {
            return None;
        },
    };
    let d = Date { year, month, day };
    if date_valid_exec(&d) {
        Some(d)
    } else {
        None
    }
}

/// The day after `d`, saturating at the last representable day.
pub open spec fn spec_next_day(d: Date) -> Date {
    if d.day < days_in_month(d.year as int, d.month as int) {
        Date { day: (d.day + 1) as u32, ..d }
    } else if d.month < 12 {
        Date { year: d.year, month: (d.month + 1) as u32, day: 1 }
    } else if d.year < 9999 {
        Date { year: (d.year + 1) as u32, month: 1, day: 1 }
    } else {
        d
    }
}

/// The day before `d`, saturating at the first representable day.
pub open spec fn spec_prev_day(d: Date) -> Date {
    if d.day > 1 {
        Date { day: (d.day - 1) as u32, ..d }
    } else if d.month > 1 {
        Date {
            year: d.year,
            month: (d.month - 1) as u32,
            day: days_in_month(d.year as int, d.month as int - 1) as u32,
        }
    } else if d.year > 0 {
        Date { year: (d.year - 1) as u32, month: 12, day: 31 }
    } else {
        d
    }
}

/// `d` followed by `n` calendar-day steps forward.
pub open spec fn iter_next(d: Date, n: nat) -> Date
    decreases n,
{
    if n == 0 {
        d
    } else {
        spec_next_day(iter_next(d, (n - 1) as nat))
    }
}

/// `d` followed by `n` calendar-day steps backward.
pub open spec fn iter_prev(d: Date, n: nat) -> Date
    decreases n,
{
    if n == 0 {
        d
    } else {
        spec_prev_day(iter_prev(d, (n - 1) as nat))
    }
}

/// Steps one day forward.
pub fn next_day(d: &Date) -> (r: Date)
    requires
        date_valid(*d),
    ensures
        r == spec_next_day(*d),
        date_valid(r),
{
    if d.day < days_in_month_exec(d.year, d.month) {
        Date { year: d.year, month: d.month, day: d.day + 1 }
    } else if d.month < 12 {
        Date { year: d.year, month: d.month + 1, day: 1 }
    } else if d.year < 9999 {
        Date { year: d.year + 1, month: 1, day: 1 }
    } else {
        *d
    }
}

/// Steps one day backward.
pub fn prev_day(d: &Date) -> (r: Date)
    requires
        date_valid(*d),
    ensures
        r == spec_prev_day(*d),
        date_valid(r),
{
    if d.day > 1 {
        Date { year: d.year, month: d.month, day: d.day - 1 }
    } else if d.month > 1 {
        Date { year: d.year, month: d.month - 1, day: days_in_month_exec(d.year, d.month - 1) }
    } else if d.year > 0 {
        Date { year: d.year - 1, month: 12, day: 31 }
    } else {
        *d
    }
}

/// The week that holds `today`, by this library's convention: weeks run from
/// Sunday through Saturday. `weekday_from_sunday` is how many days `today`
/// lies after that Sunday (0 for Sunday itself through 6 for Saturday).
pub fn week_bounds(today: &Date, weekday_from_sunday: u32) -> (r: (Date, Date))
    requires
        date_valid(*today),
        weekday_from_sunday < 7,
    ensures
        r.0 == iter_prev(*today, weekday_from_sunday as nat),
        r.1 == iter_next(*today, (6 - weekday_from_sunday) as nat),
        date_valid(r.0),
        date_valid(r.1),
{
    let mut start = *today;
    let mut k: u32 = 0;
    while k < weekday_from_sunday
        invariant
            k <= weekday_from_sunday < 7,
            date_valid(*today),
            date_valid(start),
            start == iter_prev(*today, k as nat),
        decreases weekday_from_sunday - k,
    {
        start = prev_day(&start);
        k += 1;
    }
    let fwd: u32 = 6 - weekday_from_sunday;
    let mut end = *today;
    let mut j: u32 = 0;
    while j < fwd
        invariant
            j <= fwd <= 6,
            date_valid(*today),
            date_valid(end),
            end == iter_next(*today, j as nat),
        decreases fwd - j,
    {
        end = next_day(&end);
        j += 1;
    }
    (start, end)
}

} // verus!
