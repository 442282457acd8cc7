use vstd::prelude::*;

use crate::date::Date;
use crate::date::date_valid;
use crate::date::date_valid_exec;
use crate::text::all_digits;
use crate::text::digits_val;
use crate::text::parse_digits;

verus! {

/// A civil timestamp: a calendar date, a time of day, and the UTC offset that
/// was current when the record was normalized. The offset is in seconds,
/// strictly within one day of zero, as a fixed-offset time zone requires.
#[derive(Clone, Copy, Debug, PartialEq, Eq, Structural)]
pub struct Timestamp {
    pub date: Date,
    pub hour: u32,
    pub minute: u32,
    pub offset_seconds: i32,
}

/// Whether the timestamp names a real civil time with a lawful offset.
pub open spec fn timestamp_valid(t: Timestamp) -> bool {
    date_valid(t.date) && t.hour <= 23 && t.minute <= 59 && -86400 < t.offset_seconds
        < 86400
}

/// The final step of the `H:MM AM/PM` grammar, with the hour `hl` characters
/// long: a colon, a two-digit minute, a space, and `AM` or `PM`. A 12-hour
/// clock reading is turned into the hour of a 24-hour day: 12 AM is hour 0
/// and 12 PM is hour 12.
pub open spec fn time_from(s: Seq<char>, hl: int) -> Option<(u32, u32)> {
    if s.len() == hl + 6 && all_digits(s.subrange(0, hl)) && s[hl] == ':' && all_digits(
        s.subrange(hl + 1, hl + 3),
    ) && s[hl + 3] == ' ' && (s[hl + 4] == 'A' || s[hl + 4] == 'P') && s[hl + 5] == 'M' {
        let h = digits_val(s.subrange(0, hl));
        let mi = digits_val(s.subrange(hl + 1, hl + 3));
        if 1 <= h <= 12 && mi <= 59 {
            let h24: int = if s[hl + 4] == 'A' {
                if h == 12 {
                    0
                } else {
                    h as int
                }
            } else {
                if h == 12 {
                    12
                } else {
                    h + 12 as int
                }
            };
            Some((h24 as u32, mi as u32))
        } else {
            None
        }
    } else {
        None
    }
}

/// The `H:MM AM/PM` clock grammar: a one- or two-digit hour of a 12-hour
/// clock, a colon, a two-digit minute, a space, and an uppercase meridiem.
/// Returns the 24-hour hour and the minute.
pub open spec fn spec_parse_time(s: Seq<char>) -> Option<(u32, u32)> {
    if s.len() == 7 {
        time_from(s, 1)
    } else if s.len() == 8 {
        time_from(s, 2)
    } else {
        None
    }
}

/// Parses a clock string of the form `H:MM AM/PM`.
pub fn parse_time(s: &str) -> (r: Option<(u32, u32)>)
    ensures
        r == spec_parse_time(s@),
{
    let n = s.unicode_len();
    if n != 7 && n != 8 {
        return None;
    }
    let hl: usize = n - 6;
    if s.get_char(hl) != ':' || s.get_char(hl + 3) != ' ' || s.get_char(hl + 5) != 'M' {
        return None;
    }
    let meridiem = s.get_char(hl + 4);
    if meridiem != 'A' && meridiem != 'P' {
        return None;
    }
    let h = match parse_digits(s, 0, hl) {
        Some(v) => v,
        None => {
            return None;
        },
    };
    let mi = match parse_digits(s, hl + 1, hl + 3) {
        Some(v) => v,
        None => {
            return None;
        },
    };
    if h < 1 || h > 12 || mi > 59 {
        return None;
    }
    let h24: u32 = if meridiem == 'A' {
        if h == 12 {
            0
        } else {
            h
        }
    } else {
        if h == 12 {
            12
        } else {
            h + 12
        }
    };
    Some((h24, mi))
}

/// The civil-timestamp grammar the upstream fields combine into: a year of
/// one to four digits, a month and a day of one or two digits naming a real
/// calendar day, a clock string in the `H:MM AM/PM` form, and the UTC offset
/// under which the record is being read.
pub open spec fn spec_parse_civil(
    ys: Seq<char>,
    ms: Seq<char>,
    ds: Seq<char>,
    ts: Seq<char>,
    off: int,
) -> Option<Timestamp> {
    if 1 <= ys.len() <= 4 && all_digits(ys) && 1 <= ms.len() <= 2 && all_digits(ms) && 1
        <= ds.len() <= 2 && all_digits(ds) && spec_parse_time(ts) is Some {
        let d = Date {
            year: digits_val(ys) as u32,
            month: digits_val(ms) as u32,
            day: digits_val(ds) as u32,
        };
        if date_valid(d) {
            let (h, mi) = spec_parse_time(ts)->Some_0;
            Some(Timestamp { date: d, hour: h, minute: mi, offset_seconds: off as i32 })
        } else {
            None
        }
    } else {
        None
    }
}

/// Combines the upstream year, month, day and time fields with the current
/// UTC offset into one civil timestamp.
pub fn parse_civil(
    year_s: &str,
    month_s: &str,
    day_s: &str,
    time_s: &str,
    offset_seconds: i32,
) -> (r: Option<Timestamp>)
    requires
        -86400 < offset_seconds < 86400,
    ensures
        r == spec_parse_civil(year_s@, month_s@, day_s@, time_s@, offset_seconds as int),
        r matches Some(t) ==> timestamp_valid(t),
{
    let yn = year_s.unicode_len();
    let mn = month_s.unicode_len();
    let dn = day_s.unicode_len();
    if yn < 1 || yn > 4 || mn < 1 || mn > 2 || dn < 1 || dn > 2 {
        return None;
    }
    let year = match parse_digits(year_s, 0, yn) {
        Some(v) => v,
        None => {
            return None;
        },
    };
    proof {
        assert(year_s@.subrange(0, yn as int) =~= year_s@);
    }
    let month = match parse_digits(month_s, 0, mn) {
        Some(v) => v,
        None => {
            return None;
        },
    };
    proof {
        assert(month_s@.subrange(0, mn as int) =~= month_s@);
    }
    let day = match parse_digits(day_s, 0, dn) {
        Some(v) => v,
        None => {
            return None;
        },
    };
    proof {
        assert(day_s@.subrange(0, dn as int) =~= day_s@);
    }
    let (hour, minute) = match parse_time(time_s) {
        Some(p) => p,
        None => {
            return None;
        },
    };
    let d = Date { year, month, day };
    if !date_valid_exec(&d) {
        return None;
    }
    Some(Timestamp { date: d, hour, minute, offset_seconds })
}

} // verus!
