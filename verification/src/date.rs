//! Calendar dates at day granularity.
//!
//! A `Date` is a proleptic Gregorian year/month/day triple. Dates are
//! compared through `day_number`, a count of days since the start of year 0,
//! so all date arithmetic in the classifier is plain integer arithmetic.
//! Dates are read from text in the `YYYY-MM-DD` form that the task store
//! uses.

use vstd::prelude::*;

verus! {

/// A calendar date. `wf` says when the triple denotes a real day.
#[derive(Clone, Copy, PartialEq, Eq, Structural, Debug)]
pub struct Date {
    pub year: u16,
    pub month: u8,
    pub day: u8,
}

/// `c` is a decimal digit: its scalar value lies between those of '0' (48)
/// and '9' (57).
pub open spec fn is_digit(c: char) -> bool {
    48 <= c as u32 <= 57
}

/// Numeric value of a decimal digit.
pub open spec fn digit_val(c: char) -> int {
    c as u32 - 48
}

/// What a `YYYY-MM-DD` string denotes: `Some` exactly when the text has
/// that shape and the triple is a real calendar day.
pub open spec fn parse_date_spec(s: Seq<char>) -> Option<Date> {
    if s.len() == 10 && is_digit(s[0]) && is_digit(s[1]) && is_digit(s[2]) && is_digit(s[3]) && s[4]
        == '-' && is_digit(s[5]) && is_digit(s[6]) && s[7] == '-' && is_digit(s[8]) && is_digit(
        s[9],
    ) {
        let y = 1000 * digit_val(s[0]) + 100 * digit_val(s[1]) + 10 * digit_val(s[2]) + digit_val(
            s[3],
        );
        let m = 10 * digit_val(s[5]) + digit_val(s[6]);
        let d = 10 * digit_val(s[8]) + digit_val(s[9]);
        let date = Date { year: y as u16, month: m as u8, day: d as u8 };
        if date.wf() {
            Some(date)
        } else {
            None
        }
    } else {
        None
    }
}

/// Gregorian leap-year rule.
pub open spec fn is_leap_year(y: int) -> bool {
    (y % 4 == 0 && y % 100 != 0) || y % 400 == 0
}

/// Length of month `m` (1-based) in year `y`; 0 for a month out of range.
pub open spec fn days_in_month(y: int, m: int) -> int {
    if m == 1 || m == 3 || m == 5 || m == 7 || m == 8 || m == 10 || m == 12 {
        31
    } else if m == 4 || m == 6 || m == 9 || m == 11 {
        30
    } else if m == 2 {
        if is_leap_year(y) {
            29
        } else {
            28
        }
    } else {
        0
    }
}

/// Days in the months of a common year strictly before month `m`.
pub open spec fn days_before_month(m: int) -> int {
    if m <= 1 {
        0
    } else if m == 2 {
        31
    } else if m == 3 {
        59
    } else if m == 4 {
        90
    } else if m == 5 {
        120
    } else if m == 6 {
        151
    } else if m == 7 {
        181
    } else if m == 8 {
        212
    } else if m == 9 {
        243
    } else if m == 10 {
        273
    } else if m == 11 {
        304
    } else {
        334
    }
}

impl Date {
    /// The triple denotes a real calendar day. Years are limited to four
    /// digits, the width the `YYYY-MM-DD` text form carries.
    pub open spec fn wf(self) -> bool {
        self.year <= 9999 && 1 <= self.month <= 12 && 1 <= self.day
            <= days_in_month(self.year as int, self.month as int)
    }

    /// Days from 0000-01-01 to this date. `(y + 3) / 4 - (y + 99) / 100 +
    /// (y + 399) / 400` counts the leap years among `0 .. y - 1`, year 0
    /// (a leap year) included; `leap_shift` adds the current year's leap
    /// day once February is past.
    pub open spec fn day_number_spec(self) -> int {
        let y = self.year as int;
        let m = self.month as int;
        let leap_shift: int = if is_leap_year(y) && m > 2 {
            1
        } else {
            0
        };
        365 * y + (y + 3) / 4 - (y + 99) / 100 + (y + 399) / 400 + days_before_month(m)
            + leap_shift + self.day - 1
    }

    /// Checked constructor: `Some` exactly on real calendar days.
    pub fn from_ymd(year: u16, month: u8, day: u8) -> (r: Option<Date>)
        ensures
            match r {
                Some(d) => d == (Date { year, month, day }) && d.wf(),
                None => !(Date { year, month, day }).wf(),
            },
    {
        let d = Date { year, month, day };
        if year <= 9999 && 1 <= month && month <= 12 && 1 <= day && day <= d.days_in_current_month()
        {
            Some(d)
        } else {
            None
        }
    }

    /// Length of this date's month, from the year and month fields alone.
    pub fn days_in_current_month(&self) -> (n: u8)
        ensures
            n == days_in_month(self.year as int, self.month as int),
    {
        let m = self.month;
        if m == 1 || m == 3 || m == 5 || m == 7 || m == 8 || m == 10 || m == 12 {
            31
        } else if m == 4 || m == 6 || m == 9 || m == 11 {
            30
        } else if m == 2 {
            if (self.year % 4 == 0 && self.year % 100 != 0) || self.year % 400 == 0 {
                29
            } else {
                28
            }
        } else {
            0
        }
    }

    /// Day index of this date, for day-granularity comparisons.
    pub fn day_number(&self) -> (n: i64)
        ensures
            n == self.day_number_spec(),
    {
        let y32 = self.year as u32;
        let y = self.year as i64;
        let q4 = ((y32 + 3) / 4) as i64;
        let q100 = ((y32 + 99) / 100) as i64;
        let q400 = ((y32 + 399) / 400) as i64;
        let m = self.month;
        let leap_shift: i64 = if ((self.year % 4 == 0 && self.year % 100 != 0) || self.year % 400
            == 0) && m > 2 {
            1
        } else {
            0
        };
        let before_month: i64 = if m <= 1 {
            0
        } else if m == 2 {
            31
        } else if m == 3 {
            59
        } else if m == 4 {
            90
        } else if m == 5 {
            120
        } else if m == 6 {
            151
        } else if m == 7 {
            181
        } else if m == 8 {
            212
        } else if m == 9 {
            243
        } else if m == 10 {
            273
        } else if m == 11 {
            304
        } else {
            334
        };
        365 * y + q4 - q100 + q400 + before_month + leap_shift + (self.day as i64) - 1
    }
}

/// Value of a decimal digit character; `None` for any other character.
fn digit_value(c: char) -> (r: Option<u8>)
    ensures
        r is Some <==> is_digit(c),
        r matches Some(v) ==> v == digit_val(c) && v <= 9,
{
    let u = c as u32;
    if 48 <= u && u <= 57 {
        Some((u - 48) as u8)
    } else {
        None
    }
}

/// Read a date written as `YYYY-MM-DD`. Returns `None` on any other shape
/// and on a triple that is no real calendar day.
pub fn parse_date(s: &str) -> (r: Option<Date>)
    ensures
        r == parse_date_spec(s@),
{
    if s.unicode_len() != 10 {
        return None;
    }
    let d0 = digit_value(s.get_char(0));
    let d1 = digit_value(s.get_char(1));
    let d2 = digit_value(s.get_char(2));
    let d3 = digit_value(s.get_char(3));
    let sep1 = s.get_char(4);
    let d5 = digit_value(s.get_char(5));
    let d6 = digit_value(s.get_char(6));
    let sep2 = s.get_char(7);
    let d8 = digit_value(s.get_char(8));
    let d9 = digit_value(s.get_char(9));
    match (d0, d1, d2, d3, d5, d6, d8, d9) {
        (
            Some(y0),
            Some(y1),
            Some(y2),
            Some(y3),
            Some(m0),
            Some(m1),
            Some(a0),
            Some(a1),
        ) => {
            if sep1 == '-' && sep2 == '-' {
                let year: u16 = 1000 * (y0 as u16) + 100 * (y1 as u16) + 10 * (y2 as u16) + (
                y3 as u16);
                let month: u8 = 10 * m0 + m1;
                let day: u8 = 10 * a0 + a1;
                Date::from_ymd(year, month, day)
            } else {
                None
            }
        },
        _ => None,
    }
}

} // verus!
